use chat_prompts::PromptTemplateType;
use llama_core::search::ContentType;
use search_api_server::cli::{Cli, LogLevel, ServerError, DEFAULT_SOCKET_ADDRESS};
use search_api_server::info::{plugin_version, server_info, ServerInfo};
use search_api_server::models::{chat_config, embedding_config, plan_models, ModelConfig};
use search_api_server::search::{setup_search, SearchArguments};
use search_api_server::startup::{advance, begin, Event, Stage, Step};

fn list(parts: &[&str]) -> Vec<String> {
    parts.iter().map(|s| s.to_string()).collect()
}

fn cli(
    names: &[&str],
    aliases: &[&str],
    ctx_size: &[u64],
    batch_size: &[u64],
    templates: &[PromptTemplateType],
) -> Cli<f64> {
    Cli {
        model_name: list(names),
        model_alias: list(aliases),
        ctx_size: ctx_size.to_vec(),
        batch_size: batch_size.to_vec(),
        prompt_template: templates.to_vec(),
        reverse_prompt: None,
        n_predict: 1024,
        n_gpu_layers: 100,
        no_mmap: None,
        temp: 0.7,
        top_p: 0.9,
        repeat_penalty: 1.1,
        presence_penalty: 0.25,
        frequency_penalty: 0.5,
        llava_mmproj: None,
        socket_addr: DEFAULT_SOCKET_ADDRESS.to_string(),
        web_ui: "chatbot-ui".to_string(),
        log_prompts: false,
        log_stat: false,
        log_all: false,
        max_search_results: 5,
        size_limit_per_result: 300,
        api_key: "key".to_string(),
        search_prompt: "Use these results.".to_string(),
        summarize: true,
    }
}

fn text(s: &str) -> String {
    s.to_string()
}

const CHAT: PromptTemplateType = PromptTemplateType::Llama2Chat;
const EMBEDDING: PromptTemplateType = PromptTemplateType::Embedding;

fn one(template: PromptTemplateType) -> Cli<f64> {
    cli(&["llama"], &["default", "embedding"], &[4096, 384], &[512, 64], &[template])
}

fn two() -> Cli<f64> {
    cli(&["llama", "minilm"], &["chat", "embed"], &[4096, 384], &[512, 64], &[CHAT, EMBEDDING])
}

fn chat_model() -> ModelConfig<f64> {
    ModelConfig {
        name: text("llama"),
        ty: text("chat"),
        ctx_size: 4096,
        batch_size: 512,
        prompt_template: Some(CHAT),
        n_predict: Some(1024),
        reverse_prompt: None,
        n_gpu_layers: Some(100),
        use_mmap: None,
        temperature: Some(0.7),
        top_p: Some(0.9),
        repeat_penalty: Some(1.1),
        presence_penalty: Some(0.25),
        frequency_penalty: Some(0.5),
    }
}

fn embedding_model(name: &str, ctx_size: u64, batch_size: u64) -> ModelConfig<f64> {
    ModelConfig {
        name: text(name),
        ty: text("embedding"),
        ctx_size,
        batch_size,
        prompt_template: None,
        n_predict: None,
        reverse_prompt: None,
        n_gpu_layers: None,
        use_mmap: None,
        temperature: None,
        top_p: None,
        repeat_penalty: None,
        presence_penalty: None,
        frequency_penalty: None,
    }
}

#[test]
fn a_single_chat_model_is_planned() {
    let plan = plan_models(&one(CHAT), false);
    let chat = plan.chat.unwrap();
    assert_eq!(chat.model_name, "llama");
    assert_eq!(chat.model_alias, "default");
    assert_eq!(chat.prompt_template, CHAT);
    assert_eq!(chat.ctx_size, 4096);
    assert_eq!(chat.batch_size, 512);
    assert_eq!(chat.n_predict, 1024);
    assert_eq!(chat.n_gpu_layers, 100);
    assert_eq!(chat.use_mmap, None);
    assert_eq!(chat.reverse_prompt, None);
    assert_eq!(chat.mmproj, None);
    assert!(chat.log_enable);
    assert!(!chat.debug_log);
    assert!(plan.embedding.is_none());
    assert_eq!(plan.chat_model, Some(chat_model()));
    assert_eq!(plan.embedding_model, None);
}

#[test]
fn chat_options_reach_the_metadata() {
    let mut cli = one(CHAT);
    cli.n_predict = 7;
    cli.n_gpu_layers = 8;
    cli.no_mmap = Some(true);
    cli.reverse_prompt = Some(text("USER:"));
    cli.llava_mmproj = Some(text("proj.gguf"));
    let plan = plan_models(&cli, true);
    let chat = plan.chat.unwrap();
    assert_eq!(chat.n_predict, 7);
    assert_eq!(chat.n_gpu_layers, 8);
    assert_eq!(chat.use_mmap, Some(false));
    assert_eq!(chat.reverse_prompt, Some(text("USER:")));
    assert_eq!(chat.mmproj, Some(text("proj.gguf")));
    assert!(chat.debug_log);
    let model = plan.chat_model.unwrap();
    assert_eq!(model.use_mmap, Some(false));
    assert_eq!(model.reverse_prompt, Some(text("USER:")));
    assert_eq!(model.n_predict, Some(7));
    cli.no_mmap = Some(false);
    assert_eq!(plan_models(&cli, true).chat.unwrap().use_mmap, Some(true));
}

#[test]
fn a_single_embedding_model_is_planned() {
    let plan = plan_models(&one(EMBEDDING), true);
    let embedding = plan.embedding.unwrap();
    assert_eq!(embedding.model_name, "llama");
    assert_eq!(embedding.model_alias, "default");
    assert_eq!(embedding.prompt_template, EMBEDDING);
    assert_eq!(embedding.ctx_size, 4096);
    assert_eq!(embedding.batch_size, 512);
    assert!(embedding.log_enable);
    assert!(embedding.debug_log);
    assert!(plan.chat.is_none());
    assert_eq!(plan.chat_model, None);
    assert_eq!(plan.embedding_model, Some(embedding_model("llama", 4096, 512)));
}

#[test]
fn settings_that_no_model_asks_for_keep_their_defaults() {
    let plan = plan_models(&two(), false);
    let embedding = plan.embedding.unwrap();
    assert_eq!((embedding.n_predict, embedding.n_gpu_layers), (1024, 100));
    assert_eq!(embedding.use_mmap, Some(true));
    assert!(embedding.reverse_prompt.is_none() && embedding.mmproj.is_none());
    for m in [plan.chat.unwrap(), embedding] {
        assert!(!m.log_prompts && !m.embeddings && !m.translate && !m.split_on_word);
        assert!(m.image.is_none() && m.main_gpu.is_none() && m.tensor_split.is_none());
        assert!(m.grammar.is_empty() && m.json_schema.is_none() && m.language.is_none());
        assert_eq!((m.threads, m.processors, m.max_context), (2, 1, -1));
        assert_eq!((m.offset_t, m.duration, m.max_len), (0, 0, 0));
        assert!(!m.output_txt && !m.output_vtt && !m.output_srt);
        assert!(!m.output_lrc && !m.output_csv && !m.output_json);
    }
}

#[test]
fn of_two_models_the_first_chats_and_the_second_embeds() {
    let plan = plan_models(&two(), false);
    let chat = plan.chat.unwrap();
    let embedding = plan.embedding.unwrap();
    assert_eq!((chat.model_name.as_str(), chat.model_alias.as_str()), ("llama", "chat"));
    assert_eq!((embedding.model_name.as_str(), embedding.model_alias.as_str()), ("minilm", "embed"));
    assert_eq!((embedding.ctx_size, embedding.batch_size), (384, 64));
    assert_eq!(plan.chat_model, Some(chat_model()));
    assert_eq!(plan.embedding_model, Some(embedding_model("minilm", 384, 64)));
}

#[test]
fn of_two_models_the_order_counts_and_not_the_template() {
    let cli = cli(&["a", "b"], &["c", "d"], &[1, 2], &[3, 4], &[EMBEDDING, CHAT]);
    let plan = plan_models(&cli, false);
    assert_eq!(plan.chat.unwrap().prompt_template, EMBEDDING);
    assert_eq!(plan.embedding.unwrap().prompt_template, CHAT);
    assert_eq!(plan.chat_model.unwrap().prompt_template, Some(EMBEDDING));
}

#[test]
fn models_are_told_as_their_metadata_says() {
    let cli = one(CHAT);
    let mut metadata = plan_models(&cli, false).chat.unwrap();
    metadata.ctx_size = 11;
    metadata.use_mmap = Some(true);
    let told = chat_config(&metadata, &cli);
    assert_eq!((told.ctx_size, told.use_mmap), (11, Some(true)));
    let told: ModelConfig<f64> = embedding_config(&metadata);
    assert_eq!(told, embedding_model("llama", 11, 512));
}

#[test]
fn the_plugin_version_names_build_and_commit() {
    assert_eq!(plugin_version(4067, "54ef9cfc"), "b4067 (commit 54ef9cfc)");
    assert_eq!(plugin_version(0, ""), "b0 (commit )");
}

#[test]
fn the_server_tells_of_itself() {
    let info: ServerInfo<f64> =
        server_info(Some(text("0.4.2")), "1.2.3", text("b1 (commit x)"), 8080, None, None);
    assert_eq!(info.node, Some(text("0.4.2")));
    assert_eq!(info.server.ty, "llama search");
    assert_eq!(info.server.version, "1.2.3");
    assert_eq!(info.server.plugin_version, "b1 (commit x)");
    assert_eq!(info.server.port, "8080");
    assert!(info.chat_model.is_none() && info.embedding_model.is_none());
    assert!(info.extras.is_empty());
}

#[test]
fn searches_go_to_tavily() {
    let (settings, arguments) = setup_search(&one(CHAT));
    assert_eq!(settings.search_engine, "tavily");
    assert_eq!(settings.max_search_results, 5);
    assert_eq!(settings.size_limit_per_result, 300);
    assert_eq!(settings.endpoint, "https://api.tavily.com/search");
    assert_eq!(settings.content_type, ContentType::JSON);
    assert_eq!(settings.output_content_type, ContentType::JSON);
    assert_eq!(settings.method, "POST");
    assert!(settings.additional_headers.is_none());
    assert!(settings.summarization_prompts.is_none());
    assert!(settings.summarize_ctx_size.is_none());
    assert_eq!(
        arguments,
        SearchArguments {
            api_key: text("key"),
            search_prompt: text("Use these results."),
            summarize: true,
        }
    );
}

fn refused(error: ServerError, stage: Stage<f64>, event: Event) {
    match advance(&one(CHAT), "1.2.3", stage, event) {
        (Stage::Stopped, Step::Stop(reason)) => assert_eq!(reason, error),
        other => panic!("{:?}", other),
    }
}

#[test]
fn the_server_starts_step_by_step() {
    let cli = two();
    let (notices, launch) = begin(&cli, LogLevel::Debug);
    assert_eq!(notices.len(), 12);
    let launch = launch.unwrap();
    assert!(launch.chat.unwrap().debug_log);
    assert!(launch.embedding.unwrap().debug_log);
    let (stage, step) = advance(&cli, "1.2.3", launch.stage, Event::ModelsLoaded(Ok(())));
    assert!(matches!(step, Step::QueryPlugin));
    let plugin = Event::PluginQueried(Ok((12, text("abc"))));
    let (stage, step) = advance(&cli, "1.2.3", stage, plugin);
    match step {
        Step::ResolveAddress(address) => assert_eq!(address, "0.0.0.0:8080"),
        other => panic!("{:?}", other),
    }
    let address = Event::AddressResolved(Ok((8080, None)));
    let (stage, step) = advance(&cli, "1.2.3", stage, address);
    match step {
        Step::PublishInfo(info) => {
            assert_eq!(info.node, None);
            assert_eq!(info.server.version, "1.2.3");
            assert_eq!(info.server.plugin_version, "b12 (commit abc)");
            assert_eq!(info.server.port, "8080");
            assert_eq!(info.chat_model, Some(chat_model()));
            assert_eq!(info.embedding_model, Some(embedding_model("minilm", 384, 64)));
        }
        other => panic!("{:?}", other),
    }
    let (stage, step) = advance(&cli, "1.2.3", stage, Event::Published(true));
    match step {
        Step::PublishSearchConfig(settings) => assert_eq!(settings.search_engine, "tavily"),
        other => panic!("{:?}", other),
    }
    let (stage, step) = advance(&cli, "1.2.3", stage, Event::Published(true));
    match step {
        Step::PublishSearchArguments(arguments) => assert_eq!(arguments.api_key, "key"),
        other => panic!("{:?}", other),
    }
    let (stage, step) = advance(&cli, "1.2.3", stage, Event::Published(true));
    assert!(matches!((&stage, &step), (Stage::Serving, Step::Serve)));
    let (stage, step) = advance(&cli, "1.2.3", stage, Event::ServerEnded(Ok(())));
    assert!(matches!((&stage, &step), (Stage::Finished, Step::Finish)));
}

#[test]
fn a_refused_command_line_starts_nothing() {
    let cli = cli(&["a"], &["a"], &[1], &[1], &[CHAT, EMBEDDING]);
    let (notices, launch) = begin(&cli, LogLevel::Info);
    assert_eq!(notices.len(), 5);
    match launch {
        Err(ServerError::ArgumentError(message)) => assert_eq!(
            message,
            "The number of model names and prompt templates must be the same."
        ),
        other => panic!("{:?}", other),
    }
}

#[test]
fn a_failed_step_stops_the_server() {
    let why = || text("no such thing");
    let operation = || ServerError::Operation(why());
    let none = || None::<ModelConfig<f64>>;
    let loading = Stage::LoadingModels { chat_model: none(), embedding_model: none() };
    refused(operation(), loading, Event::ModelsLoaded(Err(why())));
    let querying = Stage::QueryingPlugin { chat_model: none(), embedding_model: none() };
    refused(operation(), querying, Event::PluginQueried(Err(why())));
    let resolving = Stage::ResolvingAddress {
        chat_model: none(),
        embedding_model: none(),
        plugin_version: text(""),
    };
    refused(ServerError::SocketAddr(why()), resolving, Event::AddressResolved(Err(why())));
    refused(operation(), Stage::Serving, Event::ServerEnded(Err(why())));
}

#[test]
fn a_value_that_is_already_set_stops_the_server() {
    let (_, arguments) = setup_search(&one(CHAT));
    for (name, stage) in [
        ("SERVER_INFO", Stage::PublishingInfo),
        ("SEARCH_CONFIG", Stage::PublishingSearchConfig(arguments)),
        ("SEARCH_ARGUMENTS", Stage::PublishingSearchArguments),
    ] {
        let message = format!("Failed to set `{}`.", name);
        refused(ServerError::Operation(message), stage, Event::Published(false));
    }
}

fn answer(step: Step<f64>) -> Option<Event> {
    match step {
        Step::QueryPlugin => Some(Event::PluginQueried(Ok((12, text("abc"))))),
        Step::ResolveAddress(_) => Some(Event::AddressResolved(Ok((8080, None)))),
        Step::PublishInfo(_) => Some(Event::Published(true)),
        Step::PublishSearchConfig(_) => Some(Event::Published(true)),
        Step::PublishSearchArguments(_) => Some(Event::Published(true)),
        Step::Serve => Some(Event::ServerEnded(Ok(()))),
        Step::Finish | Step::Stop(_) => None,
    }
}

#[test]
fn answering_each_step_leads_to_the_end() {
    let cli = two();
    let mut stage = begin(&cli, LogLevel::Info).1.unwrap().stage;
    let mut event = Some(Event::ModelsLoaded(Ok(())));
    let mut steps = 0;
    while let Some(told) = event {
        let (next, step) = advance(&cli, "1.2.3", stage, told);
        stage = next;
        event = answer(step);
        steps += 1;
    }
    assert_eq!(steps, 7);
    assert!(matches!(stage, Stage::Finished));
}
