//! The models that the server runs.

use crate::arguments::{accepted_models, refusal, second_model_is_described};
use crate::cli::{copy_text, text_of, Cli};
use chat_prompts::PromptTemplateType;
use llama_core::{Metadata, MetadataBuilder};
use vstd::prelude::*;

verus! {

/// The record `llama_core::Metadata`, with its fields.
#[verifier::external_type_specification]
pub struct ExMetadata(Metadata);

/// What the server tells of a model. `F` is the type of the sampling parameters.
#[derive(Debug, PartialEq, Eq)]
pub struct ModelConfig<F> {
    pub name: String,
    /// What the model is for: chat or embedding.
    pub ty: String,
    pub ctx_size: u64,
    pub batch_size: u64,
    pub prompt_template: Option<PromptTemplateType>,
    pub n_predict: Option<u64>,
    pub reverse_prompt: Option<String>,
    pub n_gpu_layers: Option<u64>,
    pub use_mmap: Option<bool>,
    pub temperature: Option<F>,
    pub top_p: Option<F>,
    pub repeat_penalty: Option<F>,
    pub presence_penalty: Option<F>,
    pub frequency_penalty: Option<F>,
}

pub struct ModelConfigView<F> {
    pub name: Seq<char>,
    pub ty: Seq<char>,
    pub ctx_size: u64,
    pub batch_size: u64,
    pub prompt_template: Option<PromptTemplateType>,
    pub n_predict: Option<u64>,
    pub reverse_prompt: Option<Seq<char>>,
    pub n_gpu_layers: Option<u64>,
    pub use_mmap: Option<bool>,
    pub temperature: Option<F>,
    pub top_p: Option<F>,
    pub repeat_penalty: Option<F>,
    pub presence_penalty: Option<F>,
    pub frequency_penalty: Option<F>,
}

impl<F> View for ModelConfig<F> {
    type V = ModelConfigView<F>;

    open spec fn view(&self) -> ModelConfigView<F> {
        ModelConfigView {
            name: self.name@,
            ty: self.ty@,
            ctx_size: self.ctx_size,
            batch_size: self.batch_size,
            prompt_template: self.prompt_template,
            n_predict: self.n_predict,
            reverse_prompt: text_of(self.reverse_prompt),
            n_gpu_layers: self.n_gpu_layers,
            use_mmap: self.use_mmap,
            temperature: self.temperature,
            top_p: self.top_p,
            repeat_penalty: self.repeat_penalty,
            presence_penalty: self.presence_penalty,
            frequency_penalty: self.frequency_penalty,
        }
    }
}

/// The models to load, and what the server tells of them. The sampling parameters of the chat
/// metadata are still those that `llama_core` starts from.
#[derive(Debug)]
pub struct ModelPlan<F> {
    pub chat: Option<Metadata>,
    pub embedding: Option<Metadata>,
    pub chat_model: Option<ModelConfig<F>>,
    pub embedding_model: Option<ModelConfig<F>>,
}

/// What is told of an optional model.
pub open spec fn config_of<F>(model: Option<ModelConfig<F>>) -> Option<ModelConfigView<F>> {
    match model {
        Some(model) => Some(model@),
        None => None,
    }
}

/// Which of the models on the command line is the chat model. The first is, but for an embedding
/// model that stands alone.
pub open spec fn chat_index<F>(cli: Cli<F>) -> Option<int> {
    if cli.prompt_template@.len() == 1 && cli.prompt_template@[0] is Embedding {
        None
    } else {
        Some(0)
    }
}

/// Which of the models on the command line is the embedding model: the second, or one that stands
/// alone and says so by its prompt template.
pub open spec fn embedding_index<F>(cli: Cli<F>) -> Option<int> {
    if cli.prompt_template@.len() == 2 {
        Some(1)
    } else if cli.prompt_template@[0] is Embedding {
        Some(0)
    } else {
        None
    }
}

/// Whether memory mapping is used, where the command line says whether it is not.
pub open spec fn mmap_of(no_mmap: Option<bool>) -> Option<bool> {
    match no_mmap {
        Some(no_mmap) => Some(!no_mmap),
        None => None,
    }
}

/// Whether what no model of this server sets is in `m` as `llama_core` starts from, but for the
/// sampling parameters.
pub open spec fn is_default_elsewhere(m: Metadata) -> bool {
    &&& !m.log_prompts
    &&& !m.embeddings
    &&& m.image is None
    &&& m.main_gpu is None
    &&& m.tensor_split is None
    &&& m.threads == 2
    &&& m.grammar@.len() == 0
    &&& m.json_schema is None
    &&& !m.translate
    &&& m.language is None
    &&& m.processors == 1
    &&& m.offset_t == 0
    &&& m.duration == 0
    &&& m.max_context == -1
    &&& m.max_len == 0
    &&& !m.split_on_word
    &&& !m.output_txt
    &&& !m.output_vtt
    &&& !m.output_srt
    &&& !m.output_lrc
    &&& !m.output_csv
    &&& !m.output_json
}

/// Whether what only a chat model sets is in `m` as `llama_core` starts from.
pub open spec fn has_default_chat_settings(m: Metadata) -> bool {
    &&& m.n_predict == 1024
    &&& m.n_gpu_layers == 100
    &&& m.use_mmap == Some(true)
    &&& m.reverse_prompt is None
    &&& m.mmproj is None
}

/// Whether `m` is metadata for the model that is listed at `i`: its name, alias, prompt template
/// and sizes, with the log of the plugin on and its debug log as asked for.
pub open spec fn is_metadata_of<F>(m: Metadata, cli: Cli<F>, i: int, plugin_debug: bool) -> bool {
    &&& m.model_name@ == cli.model_name@[i]@
    &&& m.model_alias@ == cli.model_alias@[i]@
    &&& m.prompt_template == cli.prompt_template@[i]
    &&& m.ctx_size == cli.ctx_size@[i]
    &&& m.batch_size == cli.batch_size@[i]
    &&& m.log_enable
    &&& m.debug_log == plugin_debug
    &&& is_default_elsewhere(m)
}

/// Whether `m` holds what the command line says of a chat model.
pub open spec fn is_chat_metadata_of<F>(m: Metadata, cli: Cli<F>) -> bool {
    &&& m.n_predict == cli.n_predict
    &&& m.n_gpu_layers == cli.n_gpu_layers
    &&& m.use_mmap == mmap_of(cli.no_mmap)
    &&& text_of(m.reverse_prompt) == text_of(cli.reverse_prompt)
    &&& text_of(m.mmproj) == text_of(cli.llava_mmproj)
}

/// What is told of the chat model that is listed at `i`.
pub open spec fn chat_config_of<F>(cli: Cli<F>, i: int) -> ModelConfigView<F> {
    ModelConfigView {
        name: cli.model_name@[i]@,
        ty: "chat"@,
        ctx_size: cli.ctx_size@[i],
        batch_size: cli.batch_size@[i],
        prompt_template: Some(cli.prompt_template@[i]),
        n_predict: Some(cli.n_predict),
        reverse_prompt: text_of(cli.reverse_prompt),
        n_gpu_layers: Some(cli.n_gpu_layers),
        use_mmap: mmap_of(cli.no_mmap),
        temperature: Some(cli.temp),
        top_p: Some(cli.top_p),
        repeat_penalty: Some(cli.repeat_penalty),
        presence_penalty: Some(cli.presence_penalty),
        frequency_penalty: Some(cli.frequency_penalty),
    }
}

/// What is told of the embedding model that is listed at `i`.
pub open spec fn embedding_config_of<F>(cli: Cli<F>, i: int) -> ModelConfigView<F> {
    ModelConfigView {
        name: cli.model_name@[i]@,
        ty: "embedding"@,
        ctx_size: cli.ctx_size@[i],
        batch_size: cli.batch_size@[i],
        prompt_template: None,
        n_predict: None,
        reverse_prompt: None,
        n_gpu_layers: None,
        use_mmap: None,
        temperature: None,
        top_p: None,
        repeat_penalty: None,
        presence_penalty: None,
        frequency_penalty: None,
    }
}

/// Whether `chat` is metadata for the chat model of the command line, as far as it has one.
pub open spec fn loads_chat<F>(chat: Option<Metadata>, cli: Cli<F>, plugin_debug: bool) -> bool {
    match chat_index(cli) {
        Some(i) => {
            &&& chat is Some
            &&& is_metadata_of(chat->0, cli, i, plugin_debug)
            &&& is_chat_metadata_of(chat->0, cli)
        },
        None => chat is None,
    }
}

/// Whether `embedding` is metadata for the embedding model of the command line, as far as it has
/// one.
pub open spec fn loads_embedding<F>(
    embedding: Option<Metadata>,
    cli: Cli<F>,
    plugin_debug: bool,
) -> bool {
    match embedding_index(cli) {
        Some(i) => {
            &&& embedding is Some
            &&& is_metadata_of(embedding->0, cli, i, plugin_debug)
            &&& has_default_chat_settings(embedding->0)
        },
        None => embedding is None,
    }
}

/// What is told of the chat model of the command line, as far as it has one.
pub open spec fn told_of_chat<F>(cli: Cli<F>) -> Option<ModelConfigView<F>> {
    match chat_index(cli) {
        Some(i) => Some(chat_config_of(cli, i)),
        None => None,
    }
}

/// What is told of the embedding model of the command line, as far as it has one.
pub open spec fn told_of_embedding<F>(cli: Cli<F>) -> Option<ModelConfigView<F>> {
    match embedding_index(cli) {
        Some(i) => Some(embedding_config_of(cli, i)),
        None => None,
    }
}

/// Whether `plan` loads the models of the command line and tells of them.
pub open spec fn is_plan_of<F>(plan: ModelPlan<F>, cli: Cli<F>, plugin_debug: bool) -> bool {
    &&& loads_chat(plan.chat, cli, plugin_debug)
    &&& loads_embedding(plan.embedding, cli, plugin_debug)
    &&& config_of(plan.chat_model) == told_of_chat(cli)
    &&& config_of(plan.embedding_model) == told_of_embedding(cli)
}

/// Calls `llama_core::MetadataBuilder`: `new`, `with_ctx_size`, `with_batch_size`,
/// `enable_plugin_log`, `enable_debug_log` and `build`. Each stores its arguments in the fields of
/// the metadata that the clauses name; the other fields keep the values of `Metadata::default`.
/// Nothing is claimed of the sampling parameters, which are floating-point numbers.
#[verifier::external_body]
fn build_metadata(
    model_name: String,
    model_alias: String,
    prompt_template: PromptTemplateType,
    ctx_size: u64,
    batch_size: u64,
    plugin_log: bool,
    debug_log: bool,
) -> (r: Metadata)
    ensures
        r.model_name@ == model_name@,
        r.model_alias@ == model_alias@,
        r.prompt_template == prompt_template,
        r.ctx_size == ctx_size,
        r.batch_size == batch_size,
        r.log_enable == plugin_log,
        r.debug_log == debug_log,
        is_default_elsewhere(r),
        has_default_chat_settings(r),
{
    MetadataBuilder::new(model_name, model_alias, prompt_template)
        .with_ctx_size(ctx_size)
        .with_batch_size(batch_size)
        .enable_plugin_log(plugin_log)
        .enable_debug_log(debug_log)
        .build()
}

/// Calls `llama_core::MetadataBuilder` as `build_metadata` does, and `with_n_predict`,
/// `with_n_gpu_layers`, `disable_mmap`, `with_reverse_prompt` and `with_mmproj` besides.
/// `disable_mmap` stores the negation of its argument, the others store theirs, in the fields that
/// the clauses name; the other fields keep the values of `Metadata::default`. Nothing is claimed
/// of the sampling parameters, which are floating-point numbers.
#[verifier::external_body]
fn build_chat_metadata(
    model_name: String,
    model_alias: String,
    prompt_template: PromptTemplateType,
    ctx_size: u64,
    batch_size: u64,
    n_predict: u64,
    n_gpu_layers: u64,
    no_mmap: Option<bool>,
    reverse_prompt: Option<String>,
    mmproj: Option<String>,
    plugin_log: bool,
    debug_log: bool,
) -> (r: Metadata)
    ensures
        r.model_name@ == model_name@,
        r.model_alias@ == model_alias@,
        r.prompt_template == prompt_template,
        r.ctx_size == ctx_size,
        r.batch_size == batch_size,
        r.n_predict == n_predict,
        r.n_gpu_layers == n_gpu_layers,
        r.use_mmap == mmap_of(no_mmap),
        text_of(r.reverse_prompt) == text_of(reverse_prompt),
        text_of(r.mmproj) == text_of(mmproj),
        r.log_enable == plugin_log,
        r.debug_log == debug_log,
        is_default_elsewhere(r),
{
    MetadataBuilder::new(model_name, model_alias, prompt_template)
        .with_ctx_size(ctx_size)
        .with_batch_size(batch_size)
        .with_n_predict(n_predict)
        .with_n_gpu_layers(n_gpu_layers)
        .disable_mmap(no_mmap)
        .with_reverse_prompt(reverse_prompt)
        .with_mmproj(mmproj)
        .enable_plugin_log(plugin_log)
        .enable_debug_log(debug_log)
        .build()
}

/// Metadata for the embedding model that is listed at `i`.
fn embedding_metadata<F>(cli: &Cli<F>, i: usize, plugin_debug: bool) -> (r: Metadata)
    requires
        i < cli.model_name.len(),
        i < cli.model_alias.len(),
        i < cli.prompt_template.len(),
        i < cli.ctx_size.len(),
        i < cli.batch_size.len(),
    ensures
        is_metadata_of(r, *cli, i as int, plugin_debug),
        has_default_chat_settings(r),
{
    build_metadata(
        cli.model_name[i].clone(),
        cli.model_alias[i].clone(),
        cli.prompt_template[i],
        cli.ctx_size[i],
        cli.batch_size[i],
        true,
        plugin_debug,
    )
}

/// Metadata for the chat model, which is the first that is listed.
fn chat_metadata<F>(cli: &Cli<F>, plugin_debug: bool) -> (r: Metadata)
    requires
        cli.model_name.len() > 0,
        cli.model_alias.len() > 0,
        cli.prompt_template.len() > 0,
        cli.ctx_size.len() > 0,
        cli.batch_size.len() > 0,
    ensures
        is_metadata_of(r, *cli, 0, plugin_debug),
        is_chat_metadata_of(r, *cli),
{
    build_chat_metadata(
        cli.model_name[0].clone(),
        cli.model_alias[0].clone(),
        cli.prompt_template[0],
        cli.ctx_size[0],
        cli.batch_size[0],
        cli.n_predict,
        cli.n_gpu_layers,
        cli.no_mmap,
        copy_text(&cli.reverse_prompt),
        copy_text(&cli.llava_mmproj),
        true,
        plugin_debug,
    )
}

/// What is told of a chat model with this metadata and the sampling parameters of the command
/// line.
pub fn chat_config<F: Copy>(metadata: &Metadata, cli: &Cli<F>) -> (r: ModelConfig<F>)
    ensures
        r@ == (ModelConfigView {
            name: metadata.model_name@,
            ty: "chat"@,
            ctx_size: metadata.ctx_size,
            batch_size: metadata.batch_size,
            prompt_template: Some(metadata.prompt_template),
            n_predict: Some(metadata.n_predict),
            reverse_prompt: text_of(metadata.reverse_prompt),
            n_gpu_layers: Some(metadata.n_gpu_layers),
            use_mmap: metadata.use_mmap,
            temperature: Some(cli.temp),
            top_p: Some(cli.top_p),
            repeat_penalty: Some(cli.repeat_penalty),
            presence_penalty: Some(cli.presence_penalty),
            frequency_penalty: Some(cli.frequency_penalty),
        }),
        r.name@ == metadata.model_name@,
        r.ty@ == "chat"@,
        r.ctx_size == metadata.ctx_size,
        r.batch_size == metadata.batch_size,
        r.prompt_template == Some(metadata.prompt_template),
        r.n_predict == Some(metadata.n_predict),
        r.reverse_prompt is Some <==> metadata.reverse_prompt is Some,
        r.reverse_prompt is Some ==> r.reverse_prompt->0@ == metadata.reverse_prompt->0@,
        r.n_gpu_layers == Some(metadata.n_gpu_layers),
        r.use_mmap == metadata.use_mmap,
        r.temperature == Some(cli.temp),
        r.top_p == Some(cli.top_p),
        r.repeat_penalty == Some(cli.repeat_penalty),
        r.presence_penalty == Some(cli.presence_penalty),
        r.frequency_penalty == Some(cli.frequency_penalty),
{
    ModelConfig {
        name: metadata.model_name.clone(),
        ty: "chat".to_string(),
        ctx_size: metadata.ctx_size,
        batch_size: metadata.batch_size,
        prompt_template: Some(metadata.prompt_template),
        n_predict: Some(metadata.n_predict),
        reverse_prompt: copy_text(&metadata.reverse_prompt),
        n_gpu_layers: Some(metadata.n_gpu_layers),
        use_mmap: metadata.use_mmap,
        temperature: Some(cli.temp),
        top_p: Some(cli.top_p),
        repeat_penalty: Some(cli.repeat_penalty),
        presence_penalty: Some(cli.presence_penalty),
        frequency_penalty: Some(cli.frequency_penalty),
    }
}

/// What is told of an embedding model with this metadata.
pub fn embedding_config<F>(metadata: &Metadata) -> (r: ModelConfig<F>)
    ensures
        r@ == (ModelConfigView::<F> {
            name: metadata.model_name@,
            ty: "embedding"@,
            ctx_size: metadata.ctx_size,
            batch_size: metadata.batch_size,
            prompt_template: None,
            n_predict: None,
            reverse_prompt: None,
            n_gpu_layers: None,
            use_mmap: None,
            temperature: None,
            top_p: None,
            repeat_penalty: None,
            presence_penalty: None,
            frequency_penalty: None,
        }),
        r.name@ == metadata.model_name@,
        r.ty@ == "embedding"@,
        r.ctx_size == metadata.ctx_size,
        r.batch_size == metadata.batch_size,
        r.prompt_template is None,
        r.n_predict is None,
        r.reverse_prompt is None,
        r.n_gpu_layers is None,
        r.use_mmap is None,
        r.temperature is None,
        r.top_p is None,
        r.repeat_penalty is None,
        r.presence_penalty is None,
        r.frequency_penalty is None,
{
    ModelConfig {
        name: metadata.model_name.clone(),
        ty: "embedding".to_string(),
        ctx_size: metadata.ctx_size,
        batch_size: metadata.batch_size,
        prompt_template: None,
        n_predict: None,
        reverse_prompt: None,
        n_gpu_layers: None,
        use_mmap: None,
        temperature: None,
        top_p: None,
        repeat_penalty: None,
        presence_penalty: None,
        frequency_penalty: None,
    }
}

fn is_embedding(template: &PromptTemplateType) -> (r: bool)
    ensures
        r == (*template is Embedding),
{
    match template {
        PromptTemplateType::Embedding => true,
        _ => false,
    }
}

/// The models that an accepted command line asks for. A second model must be described, as
/// `arguments::describes_second_model` tells.
pub fn plan_models<F: Copy>(cli: &Cli<F>, plugin_debug: bool) -> (r: ModelPlan<F>)
    requires
        refusal(*cli) is None,
        second_model_is_described(*cli),
    ensures
        is_plan_of(r, *cli, plugin_debug),
        r.chat is Some <==> {
            ||| cli.prompt_template@.len() == 2
            ||| !(cli.prompt_template@[0] is Embedding)
        },
        r.embedding is Some <==> {
            ||| cli.prompt_template@.len() == 2
            ||| cli.prompt_template@[0] is Embedding
        },
        r.chat_model is Some <==> {
            ||| cli.prompt_template@.len() == 2
            ||| !(cli.prompt_template@[0] is Embedding)
        },
        r.embedding_model is Some <==> {
            ||| cli.prompt_template@.len() == 2
            ||| cli.prompt_template@[0] is Embedding
        },
        r.chat is Some ==> {
            &&& r.chat->0.model_name@ == cli.model_name@[0]@
            &&& r.chat->0.model_alias@ == cli.model_alias@[0]@
            &&& r.chat->0.prompt_template == cli.prompt_template@[0]
            &&& r.chat->0.ctx_size == cli.ctx_size@[0]
            &&& r.chat->0.batch_size == cli.batch_size@[0]
            &&& r.chat->0.log_enable
            &&& r.chat->0.debug_log == plugin_debug
            &&& r.chat->0.n_predict == cli.n_predict
            &&& r.chat->0.n_gpu_layers == cli.n_gpu_layers
            &&& r.chat->0.use_mmap is Some <==> cli.no_mmap is Some
            &&& cli.no_mmap is Some ==> r.chat->0.use_mmap == Some(!cli.no_mmap->0)
            &&& r.chat->0.reverse_prompt is Some <==> cli.reverse_prompt is Some
            &&& cli.reverse_prompt is Some ==> r.chat->0.reverse_prompt->0@ == cli.reverse_prompt->0@
            &&& r.chat->0.mmproj is Some <==> cli.llava_mmproj is Some
            &&& cli.llava_mmproj is Some ==> r.chat->0.mmproj->0@ == cli.llava_mmproj->0@
        },
        r.embedding is Some ==> {
            &&& r.embedding->0.model_name@ == cli.model_name@[cli.prompt_template@.len() - 1]@
            &&& r.embedding->0.model_alias@ == cli.model_alias@[cli.prompt_template@.len() - 1]@
            &&& r.embedding->0.prompt_template == cli.prompt_template@[cli.prompt_template@.len() - 1]
            &&& r.embedding->0.ctx_size == cli.ctx_size@[cli.prompt_template@.len() - 1]
            &&& r.embedding->0.batch_size == cli.batch_size@[cli.prompt_template@.len() - 1]
            &&& r.embedding->0.log_enable
            &&& r.embedding->0.debug_log == plugin_debug
            &&& r.embedding->0.n_predict == 1024
            &&& r.embedding->0.n_gpu_layers == 100
            &&& r.embedding->0.use_mmap == Some(true)
            &&& r.embedding->0.reverse_prompt is None
            &&& r.embedding->0.mmproj is None
        },
        r.chat_model is Some ==> {
            &&& r.chat_model->0.name@ == cli.model_name@[0]@
            &&& r.chat_model->0.ty@ == "chat"@
            &&& r.chat_model->0.ctx_size == cli.ctx_size@[0]
            &&& r.chat_model->0.batch_size == cli.batch_size@[0]
            &&& r.chat_model->0.prompt_template == Some(cli.prompt_template@[0])
            &&& r.chat_model->0.n_predict == Some(cli.n_predict)
            &&& r.chat_model->0.reverse_prompt is Some <==> cli.reverse_prompt is Some
            &&& cli.reverse_prompt is Some ==> r.chat_model->0.reverse_prompt->0@ == cli.reverse_prompt->0@
            &&& r.chat_model->0.n_gpu_layers == Some(cli.n_gpu_layers)
            &&& r.chat_model->0.use_mmap is Some <==> cli.no_mmap is Some
            &&& cli.no_mmap is Some ==> r.chat_model->0.use_mmap == Some(!cli.no_mmap->0)
            &&& r.chat_model->0.temperature == Some(cli.temp)
            &&& r.chat_model->0.top_p == Some(cli.top_p)
            &&& r.chat_model->0.repeat_penalty == Some(cli.repeat_penalty)
            &&& r.chat_model->0.presence_penalty == Some(cli.presence_penalty)
            &&& r.chat_model->0.frequency_penalty == Some(cli.frequency_penalty)
        },
        r.embedding_model is Some ==> {
            &&& r.embedding_model->0.name@ == cli.model_name@[cli.prompt_template@.len() - 1]@
            &&& r.embedding_model->0.ty@ == "embedding"@
            &&& r.embedding_model->0.ctx_size == cli.ctx_size@[cli.prompt_template@.len() - 1]
            &&& r.embedding_model->0.batch_size == cli.batch_size@[cli.prompt_template@.len() - 1]
            &&& r.embedding_model->0.prompt_template is None
            &&& r.embedding_model->0.n_predict is None
            &&& r.embedding_model->0.reverse_prompt is None
            &&& r.embedding_model->0.n_gpu_layers is None
            &&& r.embedding_model->0.use_mmap is None
            &&& r.embedding_model->0.temperature is None
            &&& r.embedding_model->0.top_p is None
            &&& r.embedding_model->0.repeat_penalty is None
            &&& r.embedding_model->0.presence_penalty is None
            &&& r.embedding_model->0.frequency_penalty is None
        },
{
    if cli.prompt_template.len() == 1 && is_embedding(&cli.prompt_template[0]) {
        let embedding = embedding_metadata(cli, 0, plugin_debug);
        let embedding_model = embedding_config(&embedding);
        ModelPlan {
            chat: None,
            embedding: Some(embedding),
            chat_model: None,
            embedding_model: Some(embedding_model),
        }
    } else if cli.prompt_template.len() == 1 {
        let chat = chat_metadata(cli, plugin_debug);
        let chat_model = chat_config(&chat, cli);
        ModelPlan {
            chat: Some(chat),
            embedding: None,
            chat_model: Some(chat_model),
            embedding_model: None,
        }
    } else {
        let chat = chat_metadata(cli, plugin_debug);
        let chat_model = chat_config(&chat, cli);
        let embedding = embedding_metadata(cli, 1, plugin_debug);
        let embedding_model = embedding_config(&embedding);
        ModelPlan {
            chat: Some(chat),
            embedding: Some(embedding),
            chat_model: Some(chat_model),
            embedding_model: Some(embedding_model),
        }
    }
}

/// Every accepted command line has a model to load: one of one kind where it names one model, and
/// one of each kind where it names two, the chat model first.
pub proof fn some_model_is_loaded<F>(cli: Cli<F>)
    requires
        refusal(cli) is None,
    ensures
        chat_index(cli) is Some || embedding_index(cli) is Some,
        chat_index(cli) is Some && embedding_index(cli) is Some <==> cli.model_name@.len() == 2,
        cli.model_name@.len() == 2 ==> chat_index(cli) == Some(0int) && embedding_index(cli) == Some(
            1int,
        ),
{
    accepted_models(cli);
}

/// A chat model and an embedding model are never the same entry of the command line, and each
/// model that is loaded is told of under its own name and sizes.
pub proof fn loaded_models_are_told<F>(plan: ModelPlan<F>, cli: Cli<F>, plugin_debug: bool)
    requires
        refusal(cli) is None,
        is_plan_of(plan, cli, plugin_debug),
    ensures
        chat_index(cli) is Some ==> chat_index(cli) != embedding_index(cli),
        plan.chat is Some <==> plan.chat_model is Some,
        plan.embedding is Some <==> plan.embedding_model is Some,
        plan.chat is Some ==> {
            &&& plan.chat_model->0.name@ == plan.chat->0.model_name@
            &&& plan.chat_model->0.ctx_size == plan.chat->0.ctx_size
            &&& plan.chat_model->0.batch_size == plan.chat->0.batch_size
        },
        plan.embedding is Some ==> {
            &&& plan.embedding_model->0.name@ == plan.embedding->0.model_name@
            &&& plan.embedding_model->0.ctx_size == plan.embedding->0.ctx_size
            &&& plan.embedding_model->0.batch_size == plan.embedding->0.batch_size
        },
{
    if plan.chat_model is Some {
        assert(plan.chat_model->0@ == chat_config_of(cli, 0));
    }
    if plan.embedding_model is Some {
        assert(plan.embedding_model->0@ == embedding_config_of(cli, embedding_index(cli)->0));
    }
}

/// Two models are loaded as a chat model and an embedding model. A single model is loaded as an
/// embedding model exactly where its prompt template is that of embedding models, and as a chat
/// model with every other template. Each is told of under the kind that it is loaded as.
pub proof fn template_decides_the_kind<F>(plan: ModelPlan<F>, cli: Cli<F>, plugin_debug: bool)
    requires
        1 <= cli.prompt_template@.len() <= 2,
        is_plan_of(plan, cli, plugin_debug),
    ensures
        plan.chat is Some <==> {
            ||| cli.prompt_template@.len() == 2
            ||| !(cli.prompt_template@[0] is Embedding)
        },
        plan.embedding is Some <==> {
            ||| cli.prompt_template@.len() == 2
            ||| cli.prompt_template@[0] is Embedding
        },
        plan.chat_model is Some <==> {
            ||| cli.prompt_template@.len() == 2
            ||| !(cli.prompt_template@[0] is Embedding)
        },
        plan.embedding_model is Some <==> {
            ||| cli.prompt_template@.len() == 2
            ||| cli.prompt_template@[0] is Embedding
        },
        plan.chat_model is Some ==> plan.chat_model->0.ty@ == "chat"@,
        plan.embedding_model is Some ==> plan.embedding_model->0.ty@ == "embedding"@,
        loads_chat(plan.chat, cli, plugin_debug),
        loads_embedding(plan.embedding, cli, plugin_debug),
        config_of(plan.chat_model) == told_of_chat(cli),
        config_of(plan.embedding_model) == told_of_embedding(cli),
{
    if plan.chat_model is Some {
        assert(plan.chat_model->0@ == told_of_chat(cli)->0);
    }
    if plan.embedding_model is Some {
        assert(plan.embedding_model->0@ == told_of_embedding(cli)->0);
    }
}

/// The chat model is the first of the command line, and is loaded with its name, alias, template
/// and sizes and with the settings for chatting. Memory mapping is on where it is not disabled, and
/// left open where nothing is said of it.
pub proof fn chat_model_is_loaded_as_asked<F>(
    chat: Option<Metadata>,
    cli: Cli<F>,
    plugin_debug: bool,
)
    requires
        1 <= cli.prompt_template@.len() <= 2,
        loads_chat(chat, cli, plugin_debug),
    ensures
        chat is Some <==> {
            ||| cli.prompt_template@.len() == 2
            ||| !(cli.prompt_template@[0] is Embedding)
        },
        chat is Some ==> {
            &&& chat->0.model_name@ == cli.model_name@[0]@
            &&& chat->0.model_alias@ == cli.model_alias@[0]@
            &&& chat->0.prompt_template == cli.prompt_template@[0]
            &&& chat->0.ctx_size == cli.ctx_size@[0]
            &&& chat->0.batch_size == cli.batch_size@[0]
            &&& chat->0.log_enable
            &&& chat->0.debug_log == plugin_debug
            &&& chat->0.n_predict == cli.n_predict
            &&& chat->0.n_gpu_layers == cli.n_gpu_layers
            &&& chat->0.use_mmap is Some <==> cli.no_mmap is Some
            &&& cli.no_mmap is Some ==> chat->0.use_mmap == Some(!cli.no_mmap->0)
            &&& chat->0.reverse_prompt is Some <==> cli.reverse_prompt is Some
            &&& cli.reverse_prompt is Some ==> chat->0.reverse_prompt->0@ == cli.reverse_prompt->0@
            &&& chat->0.mmproj is Some <==> cli.llava_mmproj is Some
            &&& cli.llava_mmproj is Some ==> chat->0.mmproj->0@ == cli.llava_mmproj->0@
            &&& !chat->0.log_prompts
            &&& !chat->0.embeddings
            &&& chat->0.image is None
            &&& chat->0.main_gpu is None
            &&& chat->0.tensor_split is None
            &&& chat->0.threads == 2
            &&& chat->0.grammar@.len() == 0
            &&& chat->0.json_schema is None
            &&& !chat->0.translate
            &&& chat->0.language is None
            &&& chat->0.processors == 1
            &&& chat->0.offset_t == 0
            &&& chat->0.duration == 0
            &&& chat->0.max_context == -1
            &&& chat->0.max_len == 0
            &&& !chat->0.split_on_word
            &&& !chat->0.output_txt
            &&& !chat->0.output_vtt
            &&& !chat->0.output_srt
            &&& !chat->0.output_lrc
            &&& !chat->0.output_csv
            &&& !chat->0.output_json
        },
{
}

/// The embedding model is the last of the command line, and is loaded with its name, alias,
/// template and sizes. The settings for chatting are not meant for it.
pub proof fn embedding_model_is_loaded_as_asked<F>(
    embedding: Option<Metadata>,
    cli: Cli<F>,
    plugin_debug: bool,
)
    requires
        1 <= cli.prompt_template@.len() <= 2,
        loads_embedding(embedding, cli, plugin_debug),
    ensures
        embedding is Some <==> {
            ||| cli.prompt_template@.len() == 2
            ||| cli.prompt_template@[0] is Embedding
        },
        embedding is Some ==> {
            &&& embedding->0.model_name@ == cli.model_name@[cli.prompt_template@.len() - 1]@
            &&& embedding->0.model_alias@ == cli.model_alias@[cli.prompt_template@.len() - 1]@
            &&& embedding->0.prompt_template == cli.prompt_template@[cli.prompt_template@.len() - 1]
            &&& embedding->0.ctx_size == cli.ctx_size@[cli.prompt_template@.len() - 1]
            &&& embedding->0.batch_size == cli.batch_size@[cli.prompt_template@.len() - 1]
            &&& embedding->0.log_enable
            &&& embedding->0.debug_log == plugin_debug
            &&& embedding->0.n_predict == 1024
            &&& embedding->0.n_gpu_layers == 100
            &&& embedding->0.use_mmap == Some(true)
            &&& embedding->0.reverse_prompt is None
            &&& embedding->0.mmproj is None
            &&& !embedding->0.log_prompts
            &&& !embedding->0.embeddings
            &&& embedding->0.image is None
            &&& embedding->0.main_gpu is None
            &&& embedding->0.tensor_split is None
            &&& embedding->0.threads == 2
            &&& embedding->0.grammar@.len() == 0
            &&& embedding->0.json_schema is None
            &&& !embedding->0.translate
            &&& embedding->0.language is None
            &&& embedding->0.processors == 1
            &&& embedding->0.offset_t == 0
            &&& embedding->0.duration == 0
            &&& embedding->0.max_context == -1
            &&& embedding->0.max_len == 0
            &&& !embedding->0.split_on_word
            &&& !embedding->0.output_txt
            &&& !embedding->0.output_vtt
            &&& !embedding->0.output_srt
            &&& !embedding->0.output_lrc
            &&& !embedding->0.output_csv
            &&& !embedding->0.output_json
        },
{
}

/// What is told of the chat model is what the command line says of the first model and of chatting.
pub proof fn chat_model_is_told_as_asked<F>(told: Option<ModelConfig<F>>, cli: Cli<F>)
    requires
        1 <= cli.prompt_template@.len() <= 2,
        config_of(told) == told_of_chat(cli),
    ensures
        told is Some <==> {
            ||| cli.prompt_template@.len() == 2
            ||| !(cli.prompt_template@[0] is Embedding)
        },
        told is Some ==> {
            &&& told->0.name@ == cli.model_name@[0]@
            &&& told->0.ty@ == "chat"@
            &&& told->0.ctx_size == cli.ctx_size@[0]
            &&& told->0.batch_size == cli.batch_size@[0]
            &&& told->0.prompt_template == Some(cli.prompt_template@[0])
            &&& told->0.n_predict == Some(cli.n_predict)
            &&& told->0.reverse_prompt is Some <==> cli.reverse_prompt is Some
            &&& cli.reverse_prompt is Some ==> told->0.reverse_prompt->0@ == cli.reverse_prompt->0@
            &&& told->0.n_gpu_layers == Some(cli.n_gpu_layers)
            &&& told->0.use_mmap is Some <==> cli.no_mmap is Some
            &&& cli.no_mmap is Some ==> told->0.use_mmap == Some(!cli.no_mmap->0)
            &&& told->0.temperature == Some(cli.temp)
            &&& told->0.top_p == Some(cli.top_p)
            &&& told->0.repeat_penalty == Some(cli.repeat_penalty)
            &&& told->0.presence_penalty == Some(cli.presence_penalty)
            &&& told->0.frequency_penalty == Some(cli.frequency_penalty)
        },
{
    if told is Some {
        assert(told->0@ == told_of_chat(cli)->0);
    }
}

/// What is told of the embedding model is what the command line says of the last model, and nothing
/// of chatting.
pub proof fn embedding_model_is_told_as_asked<F>(told: Option<ModelConfig<F>>, cli: Cli<F>)
    requires
        1 <= cli.prompt_template@.len() <= 2,
        config_of(told) == told_of_embedding(cli),
    ensures
        told is Some <==> {
            ||| cli.prompt_template@.len() == 2
            ||| cli.prompt_template@[0] is Embedding
        },
        told is Some ==> {
            &&& told->0.name@ == cli.model_name@[cli.prompt_template@.len() - 1]@
            &&& told->0.ty@ == "embedding"@
            &&& told->0.ctx_size == cli.ctx_size@[cli.prompt_template@.len() - 1]
            &&& told->0.batch_size == cli.batch_size@[cli.prompt_template@.len() - 1]
            &&& told->0.prompt_template is None
            &&& told->0.n_predict is None
            &&& told->0.reverse_prompt is None
            &&& told->0.n_gpu_layers is None
            &&& told->0.use_mmap is None
            &&& told->0.temperature is None
            &&& told->0.top_p is None
            &&& told->0.repeat_penalty is None
            &&& told->0.presence_penalty is None
            &&& told->0.frequency_penalty is None
        },
{
    if told is Some {
        assert(told->0@ == told_of_embedding(cli)->0);
    }
}

} // verus!
