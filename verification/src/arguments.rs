//! What the command line must hold, and what is reported of it.

use crate::cli::{Cli, ServerError, ServerErrorView};
use crate::text::{decimal, join, joined, lists_are_joined_one_by_one, number_text, texts};
use chat_prompts::PromptTemplateType;
use vstd::prelude::*;

verus! {

pub const MODEL_NAME_MESSAGE: &'static str =
    "Invalid setting for model name. For running just the chat model, please specify a single model name. For running both chat and embedding models, please specify two model names: the first one for chat model, the other for embedding model.";

pub const MODEL_ALIAS_MESSAGE: &'static str =
    "LlamaEdge Search API server requires at least one model alias for the chat model, or two for both the chat and embedding models.";

pub const CTX_SIZE_MESSAGE: &'static str =
    "LlamaEdge Search API server requires at least one ctx_size";

pub const BATCH_SIZE_MESSAGE: &'static str =
    "Invalid setting for batch size. For running chat model, please specify a single batch size. For running both chat and embedding models, please specify two batch sizes: the first one for chat model, the other for embedding model.";

pub const PROMPT_TEMPLATE_MESSAGE: &'static str =
    "LlamaEdge Search API server requires prompt templates. For running chat or embedding model, please specify a single prompt template. For running both chat and embedding models, please specify two prompt templates: the first one for chat model, the other for embedding model.";

pub const MODEL_COUNT_MESSAGE: &'static str =
    "The number of model names and prompt templates must be the same.";

/// A line of the report on the command line.
#[derive(Debug, PartialEq, Eq)]
pub enum Notice<F> {
    ModelName(String),
    ModelAlias(String),
    CtxSize(String),
    BatchSize(String),
    PromptTemplate(String),
    ReversePrompt(String),
    NPredict(u64),
    NGpuLayers(u64),
    NoMmap(bool),
    Temp(F),
    TopP(F),
    RepeatPenalty(F),
    PresencePenalty(F),
    FrequencyPenalty(F),
    LlavaMmproj(String),
}

pub enum NoticeView<F> {
    ModelName(Seq<char>),
    ModelAlias(Seq<char>),
    CtxSize(Seq<char>),
    BatchSize(Seq<char>),
    PromptTemplate(Seq<char>),
    ReversePrompt(Seq<char>),
    NPredict(u64),
    NGpuLayers(u64),
    NoMmap(bool),
    Temp(F),
    TopP(F),
    RepeatPenalty(F),
    PresencePenalty(F),
    FrequencyPenalty(F),
    LlavaMmproj(Seq<char>),
}

impl<F> View for Notice<F> {
    type V = NoticeView<F>;

    open spec fn view(&self) -> NoticeView<F> {
        match *self {
            Notice::ModelName(s) => NoticeView::ModelName(s@),
            Notice::ModelAlias(s) => NoticeView::ModelAlias(s@),
            Notice::CtxSize(s) => NoticeView::CtxSize(s@),
            Notice::BatchSize(s) => NoticeView::BatchSize(s@),
            Notice::PromptTemplate(s) => NoticeView::PromptTemplate(s@),
            Notice::ReversePrompt(s) => NoticeView::ReversePrompt(s@),
            Notice::NPredict(n) => NoticeView::NPredict(n),
            Notice::NGpuLayers(n) => NoticeView::NGpuLayers(n),
            Notice::NoMmap(b) => NoticeView::NoMmap(b),
            Notice::Temp(x) => NoticeView::Temp(x),
            Notice::TopP(x) => NoticeView::TopP(x),
            Notice::RepeatPenalty(x) => NoticeView::RepeatPenalty(x),
            Notice::PresencePenalty(x) => NoticeView::PresencePenalty(x),
            Notice::FrequencyPenalty(x) => NoticeView::FrequencyPenalty(x),
            Notice::LlavaMmproj(s) => NoticeView::LlavaMmproj(s@),
        }
    }
}

/// The lines that `notices` hold.
pub open spec fn lines<F>(notices: Seq<Notice<F>>) -> Seq<NoticeView<F>> {
    notices.map_values(|n: Notice<F>| n@)
}

pub open spec fn one_or_two<T>(values: Seq<T>) -> bool {
    1 <= values.len() <= 2
}

/// The message of the first check that the command line fails, if it fails one.
pub open spec fn refusal<F>(cli: Cli<F>) -> Option<Seq<char>> {
    if !one_or_two(cli.model_name@) {
        Some(MODEL_NAME_MESSAGE@)
    } else if !one_or_two(cli.model_alias@) {
        Some(MODEL_ALIAS_MESSAGE@)
    } else if !one_or_two(cli.ctx_size@) {
        Some(CTX_SIZE_MESSAGE@)
    } else if !one_or_two(cli.batch_size@) {
        Some(BATCH_SIZE_MESSAGE@)
    } else if !one_or_two(cli.prompt_template@) {
        Some(PROMPT_TEMPLATE_MESSAGE@)
    } else if cli.model_name@.len() != cli.prompt_template@.len() {
        Some(MODEL_COUNT_MESSAGE@)
    } else {
        None
    }
}

/// Whether a second model, where there is one, has an alias, a context size and a batch size.
pub open spec fn second_model_is_described<F>(cli: Cli<F>) -> bool {
    cli.prompt_template@.len() == 2 ==> {
        &&& cli.model_alias@.len() == 2
        &&& cli.ctx_size@.len() == 2
        &&& cli.batch_size@.len() == 2
    }
}

/// The aliases as they are reported: the first for one model, both for two.
pub open spec fn alias_label<F>(cli: Cli<F>) -> Seq<char> {
    if cli.model_name@.len() == 1 {
        cli.model_alias@[0]@
    } else if cli.model_alias@.len() == 2 {
        joined(texts(cli.model_alias@), ","@)
    } else {
        Seq::empty()
    }
}

/// Sizes as they are reported: the first for one model, all of them for two.
pub open spec fn size_label(models: nat, sizes: Seq<u64>) -> Seq<char> {
    if models == 1 {
        decimal(sizes[0] as nat)
    } else if models == 2 {
        joined(sizes.map_values(|n: u64| decimal(n as nat)), ","@)
    } else {
        Seq::empty()
    }
}

/// What `chat_prompts` writes for a prompt template.
pub uninterp spec fn prompt_template_text(template: PromptTemplateType) -> Seq<char>;

/// Calls the `Display` implementation of `chat_prompts::PromptTemplateType`, which writes a fixed
/// text for each variant.
#[verifier::external_body]
fn prompt_template_label(template: PromptTemplateType) -> (r: String)
    ensures
        r@ == prompt_template_text(template),
{
    template.to_string()
}

/// The prompt templates as they are reported.
pub open spec fn template_label(templates: Seq<PromptTemplateType>) -> Seq<char> {
    joined(templates.map_values(|t: PromptTemplateType| prompt_template_text(t)), ","@)
}

/// The lines on the parameters of an accepted command line.
pub open spec fn parameter_lines<F>(cli: Cli<F>) -> Seq<NoticeView<F>> {
    (match cli.reverse_prompt {
        Some(prompt) => seq![NoticeView::ReversePrompt(prompt@)],
        None => Seq::empty(),
    }) + seq![NoticeView::NPredict(cli.n_predict), NoticeView::NGpuLayers(cli.n_gpu_layers)] + (
    match cli.no_mmap {
        Some(no_mmap) => seq![NoticeView::NoMmap(no_mmap)],
        None => Seq::empty(),
    }) + seq![
        NoticeView::Temp(cli.temp),
        NoticeView::TopP(cli.top_p),
        NoticeView::RepeatPenalty(cli.repeat_penalty),
        NoticeView::PresencePenalty(cli.presence_penalty),
        NoticeView::FrequencyPenalty(cli.frequency_penalty),
    ] + (match cli.llava_mmproj {
        Some(path) => seq![NoticeView::LlavaMmproj(path@)],
        None => Seq::empty(),
    })
}

/// The report where `templates` is what is said of the prompt templates: one line for each value
/// whose check passed before the first that failed, and the parameters where all passed.
pub open spec fn report_with<F>(cli: Cli<F>, templates: Seq<char>) -> Seq<NoticeView<F>> {
    let models = cli.model_name@.len();
    let name = NoticeView::ModelName(joined(texts(cli.model_name@), ","@));
    let alias = NoticeView::ModelAlias(alias_label(cli));
    let ctx_size = NoticeView::CtxSize(size_label(models, cli.ctx_size@));
    let batch_size = NoticeView::BatchSize(size_label(models, cli.batch_size@));
    let template = NoticeView::PromptTemplate(templates);
    if !one_or_two(cli.model_name@) {
        seq![]
    } else if !one_or_two(cli.model_alias@) {
        seq![name]
    } else if !one_or_two(cli.ctx_size@) {
        seq![name, alias]
    } else if !one_or_two(cli.batch_size@) {
        seq![name, alias, ctx_size]
    } else if !one_or_two(cli.prompt_template@) {
        seq![name, alias, ctx_size, batch_size]
    } else if models != cli.prompt_template@.len() {
        seq![name, alias, ctx_size, batch_size, template]
    } else {
        seq![name, alias, ctx_size, batch_size, template] + parameter_lines(cli)
    }
}

/// The outcome of the checks.
pub open spec fn outcome_of<F>(cli: Cli<F>) -> Result<(), ServerErrorView> {
    match refusal(cli) {
        Some(message) => Err(ServerErrorView::ArgumentError(message)),
        None => Ok(()),
    }
}

/// What an outcome says.
pub open spec fn outcome_view(outcome: Result<(), ServerError>) -> Result<(), ServerErrorView> {
    match outcome {
        Ok(()) => Ok(()),
        Err(error) => Err(error@),
    }
}

fn refuse(message: &str) -> (r: Result<(), ServerError>)
    ensures
        outcome_view(r) == Err::<(), ServerErrorView>(ServerErrorView::ArgumentError(message@)),
{
    Err(ServerError::ArgumentError(message.to_string()))
}

fn aliases<F>(cli: &Cli<F>) -> (r: String)
    requires
        one_or_two(cli.model_alias@),
    ensures
        r@ == alias_label(*cli),
{
    if cli.model_name.len() == 1 {
        cli.model_alias[0].clone()
    } else if cli.model_alias.len() == 2 {
        join(&cli.model_alias, ",")
    } else {
        String::new()
    }
}

fn sizes(models: usize, values: &Vec<u64>) -> (r: String)
    requires
        values.len() > 0,
    ensures
        r@ == size_label(models as nat, values@),
{
    if models == 1 {
        number_text(values[0])
    } else if models == 2 {
        let mut parts: Vec<String> = Vec::new();
        let mut i: usize = 0;
        while i < values.len()
            invariant
                i <= values.len(),
                parts.len() == i,
                forall|j: int|
                    0 <= j < i ==> (#[trigger] parts@[j])@ == decimal(values@[j] as nat),
            decreases values.len() - i,
        {
            parts.push(number_text(values[i]));
            i += 1;
        }
        assert(texts(parts@) == values@.map_values(|n: u64| decimal(n as nat)));
        join(&parts, ",")
    } else {
        String::new()
    }
}

/// The prompt templates as they are reported.
pub fn templates(values: &Vec<PromptTemplateType>) -> (r: String)
    ensures
        r@ == template_label(values@),
        values@.len() == 0 ==> r@.len() == 0,
        values@.len() == 1 ==> r@ == prompt_template_text(values@[0]),
        values@.len() == 2 ==> r@ == prompt_template_text(values@[0]) + ","@
            + prompt_template_text(values@[1]),
{
    let mut parts: Vec<String> = Vec::new();
    let mut i: usize = 0;
    while i < values.len()
        invariant
            i <= values.len(),
            parts.len() == i,
            forall|j: int|
                0 <= j < i ==> (#[trigger] parts@[j])@ == prompt_template_text(values@[j]),
        decreases values.len() - i,
    {
        parts.push(prompt_template_label(values[i]));
        i += 1;
    }
    assert(texts(parts@) == values@.map_values(|t: PromptTemplateType| prompt_template_text(t)));
    join(&parts, ",")
}

fn report_parameters<F: Copy>(cli: &Cli<F>, notices: &mut Vec<Notice<F>>)
    ensures
        lines(final(notices)@) == lines(old(notices)@) + parameter_lines(*cli),
{
    if let Some(prompt) = &cli.reverse_prompt {
        notices.push(Notice::ReversePrompt(prompt.clone()));
    }
    notices.push(Notice::NPredict(cli.n_predict));
    notices.push(Notice::NGpuLayers(cli.n_gpu_layers));
    if let Some(no_mmap) = cli.no_mmap {
        notices.push(Notice::NoMmap(no_mmap));
    }
    notices.push(Notice::Temp(cli.temp));
    notices.push(Notice::TopP(cli.top_p));
    notices.push(Notice::RepeatPenalty(cli.repeat_penalty));
    notices.push(Notice::PresencePenalty(cli.presence_penalty));
    notices.push(Notice::FrequencyPenalty(cli.frequency_penalty));
    if let Some(path) = &cli.llava_mmproj {
        notices.push(Notice::LlavaMmproj(path.clone()));
    }
}

/// Checks the command line and reports on it, given what is said of the prompt templates.
pub fn check_arguments_with<F: Copy>(cli: &Cli<F>, templates: String) -> (r: (
    Vec<Notice<F>>,
    Result<(), ServerError>,
))
    ensures
        lines(r.0@) == report_with(*cli, templates@),
        outcome_view(r.1) == outcome_of(*cli),
        r.1 is Ok <==> {
            &&& 1 <= cli.model_name@.len() <= 2
            &&& 1 <= cli.model_alias@.len() <= 2
            &&& 1 <= cli.ctx_size@.len() <= 2
            &&& 1 <= cli.batch_size@.len() <= 2
            &&& 1 <= cli.prompt_template@.len() <= 2
            &&& cli.model_name@.len() == cli.prompt_template@.len()
        },
        r.1 matches Err(error) ==> error is ArgumentError,
{
    let mut notices: Vec<Notice<F>> = Vec::new();
    let models = cli.model_name.len();
    if models == 0 || models > 2 {
        return (notices, refuse(MODEL_NAME_MESSAGE));
    }
    notices.push(Notice::ModelName(join(&cli.model_name, ",")));
    if cli.model_alias.len() == 0 || cli.model_alias.len() > 2 {
        return (notices, refuse(MODEL_ALIAS_MESSAGE));
    }
    notices.push(Notice::ModelAlias(aliases(cli)));
    if cli.ctx_size.len() == 0 || cli.ctx_size.len() > 2 {
        return (notices, refuse(CTX_SIZE_MESSAGE));
    }
    notices.push(Notice::CtxSize(sizes(models, &cli.ctx_size)));
    if cli.batch_size.len() == 0 || cli.batch_size.len() > 2 {
        return (notices, refuse(BATCH_SIZE_MESSAGE));
    }
    notices.push(Notice::BatchSize(sizes(models, &cli.batch_size)));
    if cli.prompt_template.len() == 0 || cli.prompt_template.len() > 2 {
        return (notices, refuse(PROMPT_TEMPLATE_MESSAGE));
    }
    notices.push(Notice::PromptTemplate(templates));
    if models != cli.prompt_template.len() {
        return (notices, refuse(MODEL_COUNT_MESSAGE));
    }
    report_parameters(cli, &mut notices);
    (notices, Ok(()))
}

/// Checks the command line and reports on it.
pub fn check_arguments<F: Copy>(cli: &Cli<F>) -> (r: (Vec<Notice<F>>, Result<(), ServerError>))
    ensures
        lines(r.0@) == report_with(*cli, template_label(cli.prompt_template@)),
        outcome_view(r.1) == outcome_of(*cli),
        r.1 is Ok <==> {
            &&& 1 <= cli.model_name@.len() <= 2
            &&& 1 <= cli.model_alias@.len() <= 2
            &&& 1 <= cli.ctx_size@.len() <= 2
            &&& 1 <= cli.batch_size@.len() <= 2
            &&& 1 <= cli.prompt_template@.len() <= 2
            &&& cli.model_name@.len() == cli.prompt_template@.len()
        },
        r.1 matches Err(error) ==> error is ArgumentError,
{
    check_arguments_with(cli, templates(&cli.prompt_template))
}

/// Whether a second model, where there is one, has an alias, a context size and a batch size.
pub fn describes_second_model<F>(cli: &Cli<F>) -> (r: bool)
    ensures
        r == second_model_is_described(*cli),
        r <==> {
            ||| cli.prompt_template@.len() != 2
            ||| cli.model_alias@.len() == 2 && cli.ctx_size@.len() == 2 && cli.batch_size@.len()
                == 2
        },
{
    cli.prompt_template.len() != 2 || (cli.model_alias.len() == 2 && cli.ctx_size.len() == 2
        && cli.batch_size.len() == 2)
}

/// An accepted command line names one model or two, each with a prompt template, and the first
/// with an alias, a context size and a batch size.
pub proof fn accepted_models<F>(cli: Cli<F>)
    requires
        refusal(cli) is None,
    ensures
        cli.model_name@.len() == 1 || cli.model_name@.len() == 2,
        cli.prompt_template@.len() == cli.model_name@.len(),
        cli.model_alias@.len() > 0,
        cli.ctx_size@.len() > 0,
        cli.batch_size@.len() > 0,
{
}

/// Only the counts of the values decide whether a command line is accepted.
pub proof fn counts_decide<F, G>(a: Cli<F>, b: Cli<G>)
    requires
        a.model_name@.len() == b.model_name@.len(),
        a.model_alias@.len() == b.model_alias@.len(),
        a.ctx_size@.len() == b.ctx_size@.len(),
        a.batch_size@.len() == b.batch_size@.len(),
        a.prompt_template@.len() == b.prompt_template@.len(),
    ensures
        refusal(a) == refusal(b),
{
}

/// The report goes on to the parameters exactly where the command line is accepted.
pub proof fn parameters_are_reported_on_acceptance<F>(cli: Cli<F>, templates: Seq<char>)
    ensures
        refusal(cli) is None ==> report_with(cli, templates).skip(5) == parameter_lines(cli),
        refusal(cli) is Some ==> report_with(cli, templates).len() <= 5,
{
}

/// A command line is accepted exactly where each of its five lists has one value or two and there
/// are as many model names as prompt templates. How the numbers of aliases, context sizes and batch
/// sizes compare does not matter.
pub proof fn counts_that_are_accepted<F>(cli: Cli<F>, outcome: Result<(), ServerError>)
    requires
        outcome_view(outcome) == outcome_of(cli),
    ensures
        outcome is Ok <==> {
            &&& 1 <= cli.model_name@.len() <= 2
            &&& 1 <= cli.model_alias@.len() <= 2
            &&& 1 <= cli.ctx_size@.len() <= 2
            &&& 1 <= cli.batch_size@.len() <= 2
            &&& 1 <= cli.prompt_template@.len() <= 2
            &&& cli.model_name@.len() == cli.prompt_template@.len()
        },
        refusal(cli) is None <==> {
            &&& 1 <= cli.model_name@.len() <= 2
            &&& 1 <= cli.model_alias@.len() <= 2
            &&& 1 <= cli.ctx_size@.len() <= 2
            &&& 1 <= cli.batch_size@.len() <= 2
            &&& 1 <= cli.prompt_template@.len() <= 2
            &&& cli.model_name@.len() == cli.prompt_template@.len()
        },
{
}

/// A refusal says what is wrong with the first list that has neither one value nor two, or that the
/// names and the templates do not match.
pub proof fn refusals_name_the_first_failure<F>(cli: Cli<F>, outcome: Result<(), ServerError>)
    requires
        outcome_view(outcome) == outcome_of(cli),
    ensures
        refusal(cli) == if !(1 <= cli.model_name@.len() <= 2) {
            Some("Invalid setting for model name. For running just the chat model, please specify a single model name. For running both chat and embedding models, please specify two model names: the first one for chat model, the other for embedding model."@)
        } else if !(1 <= cli.model_alias@.len() <= 2) {
            Some("LlamaEdge Search API server requires at least one model alias for the chat model, or two for both the chat and embedding models."@)
        } else if !(1 <= cli.ctx_size@.len() <= 2) {
            Some("LlamaEdge Search API server requires at least one ctx_size"@)
        } else if !(1 <= cli.batch_size@.len() <= 2) {
            Some("Invalid setting for batch size. For running chat model, please specify a single batch size. For running both chat and embedding models, please specify two batch sizes: the first one for chat model, the other for embedding model."@)
        } else if !(1 <= cli.prompt_template@.len() <= 2) {
            Some("LlamaEdge Search API server requires prompt templates. For running chat or embedding model, please specify a single prompt template. For running both chat and embedding models, please specify two prompt templates: the first one for chat model, the other for embedding model."@)
        } else if cli.model_name@.len() != cli.prompt_template@.len() {
            Some("The number of model names and prompt templates must be the same."@)
        } else {
            None
        },
        outcome matches Err(error) ==> {
            &&& error matches ServerError::ArgumentError(message)
            &&& refusal(cli) == Some(message@)
        },
{
}

/// A second model is described by a second alias, context size and batch size; a single model needs
/// no such thing.
pub proof fn second_models_need_second_values<F>(cli: Cli<F>)
    ensures
        cli.prompt_template@.len() != 2 ==> second_model_is_described(cli),
        cli.prompt_template@.len() == 2 ==> (second_model_is_described(cli) <==> {
            &&& cli.model_alias@.len() == 2
            &&& cli.ctx_size@.len() == 2
            &&& cli.batch_size@.len() == 2
        }),
{
}

/// The templates are reported in order, with commas between them.
pub proof fn templates_are_reported_one_by_one(
    templates: Seq<PromptTemplateType>,
    last: PromptTemplateType,
)
    ensures
        template_label(seq![]) == Seq::<char>::empty(),
        template_label(seq![last]) == prompt_template_text(last),
        templates.len() > 0 ==> template_label(templates.push(last)) == template_label(templates)
            + ","@ + prompt_template_text(last),
{
    let text = |t: PromptTemplateType| prompt_template_text(t);
    let parts = templates.map_values(text);
    lists_are_joined_one_by_one(parts, prompt_template_text(last), ","@);
    assert(templates.push(last).map_values(text) == parts.push(prompt_template_text(last)));
    assert(seq![last].map_values(text) == seq![prompt_template_text(last)]);
    assert(Seq::<PromptTemplateType>::empty().map_values(text) == Seq::<Seq<char>>::empty());
}

proof fn lemma_joined_pair(a: Seq<char>, b: Seq<char>, separator: Seq<char>)
    ensures
        joined(seq![a], separator) == a,
        joined(seq![a, b], separator) == a + separator + b,
{
    lists_are_joined_one_by_one(seq![], a, separator);
    lists_are_joined_one_by_one(seq![a], b, separator);
    assert(seq![a].push(b) == seq![a, b]);
}

proof fn lemma_texts_of_one_or_two(strings: Seq<String>)
    requires
        1 <= strings.len() <= 2,
    ensures
        strings.len() == 1 ==> joined(texts(strings), ","@) == strings[0]@,
        strings.len() == 2 ==> joined(texts(strings), ","@) == strings[0]@ + ","@ + strings[1]@,
{
    if strings.len() == 1 {
        assert(texts(strings) == seq![strings[0]@]);
        lemma_joined_pair(strings[0]@, strings[0]@, ","@);
    } else {
        assert(texts(strings) == seq![strings[0]@, strings[1]@]);
        lemma_joined_pair(strings[0]@, strings[1]@, ","@);
    }
}

proof fn lemma_size_label(models: nat, sizes: Seq<u64>)
    requires
        1 <= models <= 2,
        1 <= sizes.len() <= 2,
    ensures
        models == 1 || sizes.len() == 1 ==> size_label(models, sizes) == decimal(sizes[0] as nat),
        models == 2 && sizes.len() == 2 ==> size_label(models, sizes) == decimal(sizes[0] as nat)
            + ","@ + decimal(sizes[1] as nat),
{
    let written = sizes.map_values(|n: u64| decimal(n as nat));
    if sizes.len() == 1 {
        assert(written == seq![decimal(sizes[0] as nat)]);
        lemma_joined_pair(decimal(sizes[0] as nat), decimal(sizes[0] as nat), ","@);
    } else {
        assert(written == seq![decimal(sizes[0] as nat), decimal(sizes[1] as nat)]);
        lemma_joined_pair(decimal(sizes[0] as nat), decimal(sizes[1] as nat), ","@);
    }
}

/// Each value is reported once its number was found acceptable and all before it were: all model
/// names, and of the aliases and sizes those of the models. The report of a refused command line
/// ends there.
pub proof fn values_are_reported_in_order<F>(
    cli: Cli<F>,
    templates: Seq<char>,
    notices: Seq<Notice<F>>,
)
    requires
        lines(notices) == report_with(cli, templates),
    ensures
        ({
            let names = cli.model_name@;
            let aliases = cli.model_alias@;
            let ctx_sizes = cli.ctx_size@;
            let batch_sizes = cli.batch_size@;
            let names_pass = 1 <= names.len() <= 2;
            let aliases_pass = names_pass && 1 <= aliases.len() <= 2;
            let ctx_sizes_pass = aliases_pass && 1 <= ctx_sizes.len() <= 2;
            let batch_sizes_pass = ctx_sizes_pass && 1 <= batch_sizes.len() <= 2;
            let templates_pass = batch_sizes_pass && 1 <= cli.prompt_template@.len() <= 2;
            &&& !names_pass ==> notices.len() == 0
            &&& names_pass && !aliases_pass ==> notices.len() == 1
            &&& aliases_pass && !ctx_sizes_pass ==> notices.len() == 2
            &&& ctx_sizes_pass && !batch_sizes_pass ==> notices.len() == 3
            &&& batch_sizes_pass && !templates_pass ==> notices.len() == 4
            &&& templates_pass && names.len() != cli.prompt_template@.len() ==> notices.len() == 5
            &&& templates_pass && names.len() == cli.prompt_template@.len() ==> notices.len() > 5
            &&& names_pass ==> notices[0] is ModelName && notices[0]->ModelName_0@ == if names.len()
                == 1 {
                names[0]@
            } else {
                names[0]@ + ","@ + names[1]@
            }
            &&& aliases_pass ==> notices[1] is ModelAlias && notices[1]->ModelAlias_0@ == if names.len()
                == 1 {
                aliases[0]@
            } else if aliases.len() == 2 {
                aliases[0]@ + ","@ + aliases[1]@
            } else {
                seq![]
            }
            &&& ctx_sizes_pass ==> notices[2] is CtxSize && notices[2]->CtxSize_0@ == if names.len()
                == 1 || ctx_sizes.len() == 1 {
                decimal(ctx_sizes[0] as nat)
            } else {
                decimal(ctx_sizes[0] as nat) + ","@ + decimal(ctx_sizes[1] as nat)
            }
            &&& batch_sizes_pass ==> notices[3] is BatchSize && notices[3]->BatchSize_0@ == if names.len()
                == 1 || batch_sizes.len() == 1 {
                decimal(batch_sizes[0] as nat)
            } else {
                decimal(batch_sizes[0] as nat) + ","@ + decimal(batch_sizes[1] as nat)
            }
            &&& templates_pass ==> notices[4] is PromptTemplate && notices[4]->PromptTemplate_0@
                == templates
        }),
{
    let report = lines(notices);
    assert(report.len() == notices.len());
    if 1 <= cli.model_name@.len() <= 2 {
        lemma_texts_of_one_or_two(cli.model_name@);
        assert(report[0] == notices[0]@);
        if 1 <= cli.model_alias@.len() <= 2 {
            lemma_texts_of_one_or_two(cli.model_alias@);
            assert(report[1] == notices[1]@);
            if 1 <= cli.ctx_size@.len() <= 2 {
                lemma_size_label(cli.model_name@.len(), cli.ctx_size@);
                assert(report[2] == notices[2]@);
                if 1 <= cli.batch_size@.len() <= 2 {
                    lemma_size_label(cli.model_name@.len(), cli.batch_size@);
                    assert(report[3] == notices[3]@);
                    if 1 <= cli.prompt_template@.len() <= 2 {
                        assert(report[4] == notices[4]@);
                    }
                }
            }
        }
    }
}

/// The report on an accepted command line goes on with its parameters, each under its own name and
/// with its own value. Those that may be missing are left out where they are.
pub proof fn parameters_are_reported_as_they_are<F>(
    cli: Cli<F>,
    templates: Seq<char>,
    notices: Seq<Notice<F>>,
)
    requires
        lines(notices) == report_with(cli, templates),
        1 <= cli.model_name@.len() <= 2,
        1 <= cli.model_alias@.len() <= 2,
        1 <= cli.ctx_size@.len() <= 2,
        1 <= cli.batch_size@.len() <= 2,
        1 <= cli.prompt_template@.len() <= 2,
        cli.model_name@.len() == cli.prompt_template@.len(),
    ensures
        ({
            let predict: int = if cli.reverse_prompt is Some {
                6
            } else {
                5
            };
            let temp: int = if cli.no_mmap is Some {
                predict + 3
            } else {
                predict + 2
            };
            &&& cli.reverse_prompt is Some ==> notices[5] is ReversePrompt
                && notices[5]->ReversePrompt_0@ == cli.reverse_prompt->0@
            &&& notices[predict] == Notice::<F>::NPredict(cli.n_predict)
            &&& notices[predict + 1] == Notice::<F>::NGpuLayers(cli.n_gpu_layers)
            &&& cli.no_mmap is Some ==> notices[predict + 2] == Notice::<F>::NoMmap(cli.no_mmap->0)
            &&& notices[temp] == Notice::Temp(cli.temp)
            &&& notices[temp + 1] == Notice::TopP(cli.top_p)
            &&& notices[temp + 2] == Notice::RepeatPenalty(cli.repeat_penalty)
            &&& notices[temp + 3] == Notice::PresencePenalty(cli.presence_penalty)
            &&& notices[temp + 4] == Notice::FrequencyPenalty(cli.frequency_penalty)
            &&& cli.llava_mmproj is Some ==> notices[temp + 5] is LlavaMmproj && notices[temp
                + 5]->LlavaMmproj_0@ == cli.llava_mmproj->0@
            &&& notices.len() == temp + if cli.llava_mmproj is Some {
                6int
            } else {
                5
            }
        }),
{
    let report = lines(notices);
    let predict: int = if cli.reverse_prompt is Some {
        6
    } else {
        5
    };
    let temp: int = if cli.no_mmap is Some {
        predict + 3
    } else {
        predict + 2
    };
    assert(report.len() == notices.len());
    assert(report[5] == notices[5]@);
    assert(report[predict] == notices[predict]@);
    assert(report[predict + 1] == notices[predict + 1]@);
    assert(report[predict + 2] == notices[predict + 2]@);
    assert(report[temp] == notices[temp]@);
    assert(report[temp + 1] == notices[temp + 1]@);
    assert(report[temp + 2] == notices[temp + 2]@);
    assert(report[temp + 3] == notices[temp + 3]@);
    assert(report[temp + 4] == notices[temp + 4]@);
    if cli.llava_mmproj is Some {
        assert(report[temp + 5] == notices[temp + 5]@);
    }
}

} // verus!
