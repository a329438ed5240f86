use chat_prompts::PromptTemplateType;
use search_api_server::arguments::{
    check_arguments, check_arguments_with, describes_second_model, templates, Notice,
    BATCH_SIZE_MESSAGE, CTX_SIZE_MESSAGE, MODEL_ALIAS_MESSAGE, MODEL_COUNT_MESSAGE,
    MODEL_NAME_MESSAGE, PROMPT_TEMPLATE_MESSAGE,
};
use search_api_server::cli::{Cli, LogLevel, ServerError, DEFAULT_SOCKET_ADDRESS};

fn list(parts: &[&str]) -> Vec<String> {
    parts.iter().map(|s| s.to_string()).collect()
}

fn cli(
    names: &[&str],
    aliases: &[&str],
    ctx_size: &[u64],
    batch_size: &[u64],
    templates: &[PromptTemplateType],
) -> Cli<f64> {
    Cli {
        model_name: list(names),
        model_alias: list(aliases),
        ctx_size: ctx_size.to_vec(),
        batch_size: batch_size.to_vec(),
        prompt_template: templates.to_vec(),
        reverse_prompt: None,
        n_predict: 1024,
        n_gpu_layers: 100,
        no_mmap: None,
        temp: 0.7,
        top_p: 0.9,
        repeat_penalty: 1.1,
        presence_penalty: 0.25,
        frequency_penalty: 0.5,
        llava_mmproj: None,
        socket_addr: DEFAULT_SOCKET_ADDRESS.to_string(),
        web_ui: "chatbot-ui".to_string(),
        log_prompts: false,
        log_stat: false,
        log_all: false,
        max_search_results: 5,
        size_limit_per_result: 300,
        api_key: "key".to_string(),
        search_prompt: "Use these results.".to_string(),
        summarize: true,
    }
}

fn text(s: &str) -> String {
    s.to_string()
}

fn refused(cli: &Cli<f64>, message: &str, lines: usize) {
    let (notices, outcome) = check_arguments(cli);
    assert_eq!(outcome, Err(ServerError::ArgumentError(text(message))));
    assert_eq!(notices.len(), lines);
}

const CHAT: PromptTemplateType = PromptTemplateType::Llama2Chat;
const EMBEDDING: PromptTemplateType = PromptTemplateType::Embedding;

#[test]
fn one_model_is_accepted_and_reported() {
    let cli = cli(&["llama"], &["default", "embedding"], &[4096, 384], &[512, 64], &[CHAT]);
    let (notices, outcome) = check_arguments(&cli);
    assert_eq!(outcome, Ok(()));
    assert_eq!(
        notices,
        vec![
            Notice::ModelName(text("llama")),
            Notice::ModelAlias(text("default")),
            Notice::CtxSize(text("4096")),
            Notice::BatchSize(text("512")),
            Notice::PromptTemplate(text("llama-2-chat")),
            Notice::NPredict(1024),
            Notice::NGpuLayers(100),
            Notice::Temp(0.7),
            Notice::TopP(0.9),
            Notice::RepeatPenalty(1.1),
            Notice::PresencePenalty(0.25),
            Notice::FrequencyPenalty(0.5),
        ]
    );
}

#[test]
fn two_models_are_accepted_and_reported() {
    let mut cli =
        cli(&["llama", "minilm"], &["chat", "embed"], &[4096, 384], &[512, 64], &[CHAT, EMBEDDING]);
    cli.reverse_prompt = Some(text("USER:"));
    cli.no_mmap = Some(true);
    cli.llava_mmproj = Some(text("proj.gguf"));
    let (notices, outcome) = check_arguments(&cli);
    assert_eq!(outcome, Ok(()));
    assert_eq!(
        notices,
        vec![
            Notice::ModelName(text("llama,minilm")),
            Notice::ModelAlias(text("chat,embed")),
            Notice::CtxSize(text("4096,384")),
            Notice::BatchSize(text("512,64")),
            Notice::PromptTemplate(text("llama-2-chat,embedding")),
            Notice::ReversePrompt(text("USER:")),
            Notice::NPredict(1024),
            Notice::NGpuLayers(100),
            Notice::NoMmap(true),
            Notice::Temp(0.7),
            Notice::TopP(0.9),
            Notice::RepeatPenalty(1.1),
            Notice::PresencePenalty(0.25),
            Notice::FrequencyPenalty(0.5),
            Notice::LlavaMmproj(text("proj.gguf")),
        ]
    );
}

#[test]
fn missing_values_are_reported_as_they_are() {
    let cli = cli(&["llama", "minilm"], &["chat"], &[4096], &[512], &[CHAT, EMBEDDING]);
    let (notices, outcome) = check_arguments(&cli);
    assert_eq!(outcome, Ok(()));
    assert_eq!(notices[1], Notice::ModelAlias(text("")));
    assert_eq!(notices[2], Notice::CtxSize(text("4096")));
    assert_eq!(notices[3], Notice::BatchSize(text("512")));
    assert!(!describes_second_model(&cli));
}

#[test]
fn model_names_are_one_or_two() {
    refused(&cli(&[], &["a"], &[1], &[1], &[CHAT]), MODEL_NAME_MESSAGE, 0);
    refused(&cli(&["a", "b", "c"], &["a"], &[1], &[1], &[CHAT]), MODEL_NAME_MESSAGE, 0);
}

#[test]
fn model_aliases_are_one_or_two() {
    refused(&cli(&["a"], &[], &[1], &[1], &[CHAT]), MODEL_ALIAS_MESSAGE, 1);
    refused(&cli(&["a"], &["a", "b", "c"], &[1], &[1], &[CHAT]), MODEL_ALIAS_MESSAGE, 1);
}

#[test]
fn context_sizes_are_one_or_two() {
    refused(&cli(&["a"], &["a"], &[], &[1], &[CHAT]), CTX_SIZE_MESSAGE, 2);
    refused(&cli(&["a"], &["a"], &[1, 2, 3], &[1], &[CHAT]), CTX_SIZE_MESSAGE, 2);
}

#[test]
fn batch_sizes_are_one_or_two() {
    refused(&cli(&["a"], &["a"], &[1], &[], &[CHAT]), BATCH_SIZE_MESSAGE, 3);
    refused(&cli(&["a"], &["a"], &[1], &[1, 2, 3], &[CHAT]), BATCH_SIZE_MESSAGE, 3);
}

#[test]
fn prompt_templates_are_one_or_two() {
    refused(&cli(&["a"], &["a"], &[1], &[1], &[]), PROMPT_TEMPLATE_MESSAGE, 4);
    refused(&cli(&["a"], &["a"], &[1], &[1], &[CHAT, CHAT, CHAT]), PROMPT_TEMPLATE_MESSAGE, 4);
}

#[test]
fn each_model_has_a_prompt_template() {
    refused(&cli(&["a"], &["a"], &[1], &[1], &[CHAT, EMBEDDING]), MODEL_COUNT_MESSAGE, 5);
    refused(&cli(&["a", "b"], &["a"], &[1], &[1], &[CHAT]), MODEL_COUNT_MESSAGE, 5);
    assert_eq!(
        MODEL_COUNT_MESSAGE,
        "The number of model names and prompt templates must be the same."
    );
}

#[test]
fn the_first_failing_check_decides() {
    refused(&cli(&[], &[], &[], &[], &[]), MODEL_NAME_MESSAGE, 0);
    refused(&cli(&["a"], &["a"], &[], &[], &[]), CTX_SIZE_MESSAGE, 2);
}

#[test]
fn the_second_model_needs_its_own_values() {
    let both = [CHAT, EMBEDDING];
    assert!(describes_second_model(&cli(&["a", "b"], &["a", "b"], &[1, 2], &[1, 2], &both)));
    assert!(!describes_second_model(&cli(&["a", "b"], &["a"], &[1, 2], &[1, 2], &both)));
    assert!(!describes_second_model(&cli(&["a", "b"], &["a", "b"], &[1], &[1, 2], &both)));
    assert!(!describes_second_model(&cli(&["a", "b"], &["a", "b"], &[1, 2], &[1], &both)));
    assert!(describes_second_model(&cli(&["a"], &["a"], &[1], &[1], &[CHAT])));
}

#[test]
fn templates_are_named_as_their_crate_names_them() {
    assert_eq!(templates(&vec![]), "");
    assert_eq!(templates(&vec![PromptTemplateType::ChatML, EMBEDDING]), "chatml,embedding");
    assert_eq!(templates(&vec![PromptTemplateType::Phi3Chat]), "phi-3-chat");
}

#[test]
fn the_report_carries_what_is_said_of_the_templates() {
    let cli = cli(&["a"], &["a"], &[1], &[1], &[CHAT]);
    let (notices, outcome) = check_arguments_with(&cli, text("some template"));
    assert_eq!(outcome, Ok(()));
    assert_eq!(notices[4], Notice::PromptTemplate(text("some template")));
}

#[test]
fn the_plugin_logs_debug_messages_at_detailed_levels() {
    assert!(LogLevel::Trace.plugin_debug());
    assert!(LogLevel::Debug.plugin_debug());
    assert!(!LogLevel::Info.plugin_debug());
    assert!(!LogLevel::Warn.plugin_debug());
    assert!(!LogLevel::Error.plugin_debug());
}
