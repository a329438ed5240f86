//! The way from the command line to a server that serves, and to its end.

use crate::arguments::{
    check_arguments, lines, refusal, report_with, second_model_is_described, template_label, Notice,
};
use crate::cli::{text_of, Cli, LogLevel, ServerError, ServerErrorView};
use crate::info::{
    info_of, plugin_version, plugin_version_of, server_info, ServerInfo, ServerInfoView,
};
use crate::models::{
    config_of, loads_chat, loads_embedding, plan_models, told_of_chat, told_of_embedding,
    ModelConfig, ModelConfigView,
};
use crate::search::{
    arguments_of, setup_search, tavily, SearchArguments, SearchArgumentsView, SearchSettings,
    SearchSettingsView,
};
use crate::text::decimal;
use llama_core::search::ContentType;
use llama_core::Metadata;
use vstd::pervasive::unreached;
use vstd::prelude::*;

verus! {

pub const SERVER_INFO_MESSAGE: &'static str = "Failed to set `SERVER_INFO`.";

pub const SEARCH_CONFIG_MESSAGE: &'static str = "Failed to set `SEARCH_CONFIG`.";

pub const SEARCH_ARGUMENTS_MESSAGE: &'static str = "Failed to set `SEARCH_ARGUMENTS`.";

/// What the server is waiting for.
#[derive(Debug)]
pub enum Stage<F> {
    LoadingModels {
        chat_model: Option<ModelConfig<F>>,
        embedding_model: Option<ModelConfig<F>>,
    },
    QueryingPlugin {
        chat_model: Option<ModelConfig<F>>,
        embedding_model: Option<ModelConfig<F>>,
    },
    ResolvingAddress {
        chat_model: Option<ModelConfig<F>>,
        embedding_model: Option<ModelConfig<F>>,
        plugin_version: String,
    },
    PublishingInfo,
    PublishingSearchConfig(SearchArguments),
    PublishingSearchArguments,
    Serving,
    Finished,
    Stopped,
}

pub enum StageView<F> {
    LoadingModels {
        chat_model: Option<ModelConfigView<F>>,
        embedding_model: Option<ModelConfigView<F>>,
    },
    QueryingPlugin {
        chat_model: Option<ModelConfigView<F>>,
        embedding_model: Option<ModelConfigView<F>>,
    },
    ResolvingAddress {
        chat_model: Option<ModelConfigView<F>>,
        embedding_model: Option<ModelConfigView<F>>,
        plugin_version: Seq<char>,
    },
    PublishingInfo,
    PublishingSearchConfig(SearchArgumentsView),
    PublishingSearchArguments,
    Serving,
    Finished,
    Stopped,
}

impl<F> View for Stage<F> {
    type V = StageView<F>;

    open spec fn view(&self) -> StageView<F> {
        match *self {
            Stage::LoadingModels { chat_model, embedding_model } => StageView::LoadingModels {
                chat_model: config_of(chat_model),
                embedding_model: config_of(embedding_model),
            },
            Stage::QueryingPlugin { chat_model, embedding_model } => StageView::QueryingPlugin {
                chat_model: config_of(chat_model),
                embedding_model: config_of(embedding_model),
            },
            Stage::ResolvingAddress { chat_model, embedding_model, plugin_version } => {
                StageView::ResolvingAddress {
                    chat_model: config_of(chat_model),
                    embedding_model: config_of(embedding_model),
                    plugin_version: plugin_version@,
                }
            },
            Stage::PublishingInfo => StageView::PublishingInfo,
            Stage::PublishingSearchConfig(arguments) => StageView::PublishingSearchConfig(
                arguments@,
            ),
            Stage::PublishingSearchArguments => StageView::PublishingSearchArguments,
            Stage::Serving => StageView::Serving,
            Stage::Finished => StageView::Finished,
            Stage::Stopped => StageView::Stopped,
        }
    }
}

/// What came of the step that the server was waiting for.
#[derive(Debug, PartialEq, Eq)]
pub enum Event {
    /// The models were loaded, or why they were not.
    ModelsLoaded(Result<(), String>),
    /// The build number and the commit of the inference plugin, or why they are not known.
    PluginQueried(Result<(u64, String), String>),
    /// The port of the socket address and the version of the node, or why the address is not one.
    AddressResolved(Result<(u16, Option<String>), String>),
    /// Whether a value could be published: it can once.
    Published(bool),
    /// The server has ended, or why it failed.
    ServerEnded(Result<(), String>),
}

/// What to do next.
#[derive(Debug)]
pub enum Step<F> {
    /// Ask the inference plugin for its version.
    QueryPlugin,
    /// Resolve this socket address.
    ResolveAddress(String),
    PublishInfo(ServerInfo<F>),
    PublishSearchConfig(SearchSettings),
    PublishSearchArguments(SearchArguments),
    Serve,
    /// Stop: there is nothing left to do.
    Finish,
    /// Stop with this error.
    Stop(ServerError),
}

pub enum StepView<F> {
    QueryPlugin,
    ResolveAddress(Seq<char>),
    PublishInfo(ServerInfoView<F>),
    PublishSearchConfig(SearchSettingsView),
    PublishSearchArguments(SearchArgumentsView),
    Serve,
    Finish,
    Stop(ServerErrorView),
}

impl<F> View for Step<F> {
    type V = StepView<F>;

    open spec fn view(&self) -> StepView<F> {
        match *self {
            Step::QueryPlugin => StepView::QueryPlugin,
            Step::ResolveAddress(address) => StepView::ResolveAddress(address@),
            Step::PublishInfo(info) => StepView::PublishInfo(info@),
            Step::PublishSearchConfig(settings) => StepView::PublishSearchConfig(settings@),
            Step::PublishSearchArguments(arguments) => StepView::PublishSearchArguments(arguments@),
            Step::Serve => StepView::Serve,
            Step::Finish => StepView::Finish,
            Step::Stop(error) => StepView::Stop(error@),
        }
    }
}

/// The models to load first, and the stage that the server is in until they are.
#[derive(Debug)]
pub struct Launch<F> {
    pub chat: Option<Metadata>,
    pub embedding: Option<Metadata>,
    pub stage: Stage<F>,
}

/// The stage that an accepted command line starts in.
pub open spec fn first_stage<F>(cli: Cli<F>) -> StageView<F> {
    StageView::LoadingModels {
        chat_model: told_of_chat(cli),
        embedding_model: told_of_embedding(cli),
    }
}

/// Whether `event` is what `stage` waits for.
pub open spec fn fits<F>(stage: StageView<F>, event: Event) -> bool {
    match stage {
        StageView::LoadingModels { .. } => event is ModelsLoaded,
        StageView::QueryingPlugin { .. } => event is PluginQueried,
        StageView::ResolvingAddress { .. } => event is AddressResolved,
        StageView::PublishingInfo => event is Published,
        StageView::PublishingSearchConfig(_) => event is Published,
        StageView::PublishingSearchArguments => event is Published,
        StageView::Serving => event is ServerEnded,
        StageView::Finished => false,
        StageView::Stopped => false,
    }
}

/// Whether `event` tells what came of `step`.
pub open spec fn answers<F>(step: StepView<F>, event: Event) -> bool {
    match step {
        StepView::QueryPlugin => event is PluginQueried,
        StepView::ResolveAddress(_) => event is AddressResolved,
        StepView::PublishInfo(_) => event is Published,
        StepView::PublishSearchConfig(_) => event is Published,
        StepView::PublishSearchArguments(_) => event is Published,
        StepView::Serve => event is ServerEnded,
        StepView::Finish => false,
        StepView::Stop(_) => false,
    }
}

/// Whether the step that `event` tells of went well.
pub open spec fn succeeded(event: Event) -> bool {
    match event {
        Event::ModelsLoaded(outcome) => outcome is Ok,
        Event::PluginQueried(outcome) => outcome is Ok,
        Event::AddressResolved(outcome) => outcome is Ok,
        Event::Published(done) => done,
        Event::ServerEnded(outcome) => outcome is Ok,
    }
}

pub open spec fn stop<F>(error: ServerErrorView) -> (StageView<F>, StepView<F>) {
    (StageView::Stopped, StepView::Stop(error))
}

/// The stage and the step that follow where `event` ends `stage`.
pub open spec fn after<F>(cli: Cli<F>, version: Seq<char>, stage: StageView<F>, event: Event) -> (
    StageView<F>,
    StepView<F>,
)
    recommends
        fits(stage, event),
{
    match (stage, event) {
        (
            StageView::LoadingModels { chat_model, embedding_model },
            Event::ModelsLoaded(outcome),
        ) => match outcome {
            Ok(()) => (
                StageView::QueryingPlugin { chat_model, embedding_model },
                StepView::QueryPlugin,
            ),
            Err(message) => stop(ServerErrorView::Operation(message@)),
        },
        (
            StageView::QueryingPlugin { chat_model, embedding_model },
            Event::PluginQueried(outcome),
        ) => match outcome {
            Ok((build_number, commit_id)) => (
                StageView::ResolvingAddress {
                    chat_model,
                    embedding_model,
                    plugin_version: plugin_version_of(build_number, commit_id@),
                },
                StepView::ResolveAddress(cli.socket_addr@),
            ),
            Err(message) => stop(ServerErrorView::Operation(message@)),
        },
        (
            StageView::ResolvingAddress { chat_model, embedding_model, plugin_version },
            Event::AddressResolved(outcome),
        ) => match outcome {
            Ok((port, node)) => (
                StageView::PublishingInfo,
                StepView::PublishInfo(
                    info_of(
                        text_of(node),
                        version,
                        plugin_version,
                        port,
                        chat_model,
                        embedding_model,
                    ),
                ),
            ),
            Err(message) => stop(ServerErrorView::SocketAddr(message@)),
        },
        (StageView::PublishingInfo, Event::Published(done)) => if done {
            (
                StageView::PublishingSearchConfig(arguments_of(cli)),
                StepView::PublishSearchConfig(tavily(cli)),
            )
        } else {
            stop(ServerErrorView::Operation(SERVER_INFO_MESSAGE@))
        },
        (StageView::PublishingSearchConfig(arguments), Event::Published(done)) => if done {
            (StageView::PublishingSearchArguments, StepView::PublishSearchArguments(arguments))
        } else {
            stop(ServerErrorView::Operation(SEARCH_CONFIG_MESSAGE@))
        },
        (StageView::PublishingSearchArguments, Event::Published(done)) => if done {
            (StageView::Serving, StepView::Serve)
        } else {
            stop(ServerErrorView::Operation(SEARCH_ARGUMENTS_MESSAGE@))
        },
        (StageView::Serving, Event::ServerEnded(outcome)) => match outcome {
            Ok(()) => (StageView::Finished, StepView::Finish),
            Err(message) => stop(ServerErrorView::Operation(message@)),
        },
        _ => arbitrary(),
    }
}

fn stop_with<F>(error: ServerError) -> (r: (Stage<F>, Step<F>))
    ensures
        (r.0@, r.1@) == stop::<F>(error@),
{
    (Stage::Stopped, Step::Stop(error))
}

/// Checks the command line, reports on it and says which models to load. The values of a second
/// model must be there, as `arguments::describes_second_model` tells.
pub fn begin<F: Copy>(cli: &Cli<F>, level: LogLevel) -> (r: (
    Vec<Notice<F>>,
    Result<Launch<F>, ServerError>,
))
    requires
        refusal(*cli) is None ==> second_model_is_described(*cli),
    ensures
        lines(r.0@) == report_with(*cli, template_label(cli.prompt_template@)),
        match r.1 {
            Ok(launch) => {
                let plugin_debug = level == LogLevel::Debug || level == LogLevel::Trace;
                &&& refusal(*cli) is None
                &&& loads_chat(launch.chat, *cli, plugin_debug)
                &&& loads_embedding(launch.embedding, *cli, plugin_debug)
                &&& launch.stage@ == first_stage(*cli)
            },
            Err(error) => {
                &&& refusal(*cli) is Some
                &&& error@ == ServerErrorView::ArgumentError(refusal(*cli)->0)
            },
        },
        r.1 is Ok <==> {
            &&& 1 <= cli.model_name@.len() <= 2
            &&& 1 <= cli.model_alias@.len() <= 2
            &&& 1 <= cli.ctx_size@.len() <= 2
            &&& 1 <= cli.batch_size@.len() <= 2
            &&& 1 <= cli.prompt_template@.len() <= 2
            &&& cli.model_name@.len() == cli.prompt_template@.len()
        },
        r.1 matches Err(error) ==> error is ArgumentError,
        r.1 matches Ok(launch) ==> {
            &&& launch.chat is Some <==> cli.prompt_template@.len() == 2
                || !(cli.prompt_template@[0] is Embedding)
            &&& launch.embedding is Some <==> cli.prompt_template@.len() == 2
                || cli.prompt_template@[0] is Embedding
            &&& launch.chat is Some ==> launch.chat->0.debug_log == (level is Debug
                || level is Trace)
            &&& launch.embedding is Some ==> launch.embedding->0.debug_log == (level is Debug
                || level is Trace)
            &&& launch.stage matches Stage::LoadingModels { chat_model, embedding_model }
            &&& chat_model is Some <==> launch.chat is Some
            &&& embedding_model is Some <==> launch.embedding is Some
        },
{
    let (notices, outcome) = check_arguments(cli);
    match outcome {
        Ok(()) => {
            let plan = plan_models(cli, level.plugin_debug());
            let stage = Stage::LoadingModels {
                chat_model: plan.chat_model,
                embedding_model: plan.embedding_model,
            };
            (notices, Ok(Launch { chat: plan.chat, embedding: plan.embedding, stage }))
        },
        Err(error) => (notices, Err(error)),
    }
}

/// What follows where `event` ends `stage`. `version` is that of the server.
pub fn advance<F>(cli: &Cli<F>, version: &str, stage: Stage<F>, event: Event) -> (r: (
    Stage<F>,
    Step<F>,
))
    requires
        fits(stage@, event),
    ensures
        (r.0@, r.1@) == after(*cli, version@, stage@, event),
        r.1 matches Step::ResolveAddress(address) ==> address@ == cli.socket_addr@,
        event matches Event::ModelsLoaded(Err(why)) ==> {
            &&& r.0 is Stopped
            &&& r.1 matches Step::Stop(ServerError::Operation(message))
            &&& message@ == why@
        },
        event matches Event::PluginQueried(Err(why)) ==> {
            &&& r.0 is Stopped
            &&& r.1 matches Step::Stop(ServerError::Operation(message))
            &&& message@ == why@
        },
        event matches Event::AddressResolved(Err(why)) ==> {
            &&& r.0 is Stopped
            &&& r.1 matches Step::Stop(ServerError::SocketAddr(message))
            &&& message@ == why@
        },
        event matches Event::ServerEnded(Err(why)) ==> {
            &&& r.0 is Stopped
            &&& r.1 matches Step::Stop(ServerError::Operation(message))
            &&& message@ == why@
        },
        event == Event::Published(false) ==> {
            &&& r.0 is Stopped
            &&& r.1 matches Step::Stop(ServerError::Operation(message))
            &&& stage is PublishingInfo ==> message@ == "Failed to set `SERVER_INFO`."@
            &&& stage is PublishingSearchConfig ==> message@ == "Failed to set `SEARCH_CONFIG`."@
            &&& stage is PublishingSearchArguments ==> message@
                == "Failed to set `SEARCH_ARGUMENTS`."@
        },
        stage matches Stage::LoadingModels { chat_model, embedding_model } ==> event
            == Event::ModelsLoaded(Ok(())) ==> {
            &&& r.1 is QueryPlugin
            &&& r.0 == Stage::QueryingPlugin { chat_model, embedding_model }
        },
        stage matches Stage::QueryingPlugin { chat_model, embedding_model } ==> event matches Event::PluginQueried(
            Ok((build_number, commit_id)),
        ) ==> {
            &&& r.1 matches Step::ResolveAddress(address)
            &&& address@ == cli.socket_addr@
            &&& r.0 matches Stage::ResolvingAddress {
                chat_model: chat_kept,
                embedding_model: embedding_kept,
                plugin_version,
            }
            &&& chat_kept == chat_model
            &&& embedding_kept == embedding_model
            &&& plugin_version@ == "b"@ + decimal(build_number as nat) + " (commit "@ + commit_id@
                + ")"@
        },
        stage matches Stage::ResolvingAddress {
            chat_model,
            embedding_model,
            plugin_version,
        } ==> event matches Event::AddressResolved(Ok((port, node))) ==> {
            &&& r.0 is PublishingInfo
            &&& r.1 matches Step::PublishInfo(info)
            &&& info.node == node
            &&& info.server.ty@ == "llama search"@
            &&& info.server.version@ == version@
            &&& info.server.plugin_version == plugin_version
            &&& info.server.port@ == decimal(port as nat)
            &&& info.chat_model == chat_model
            &&& info.embedding_model == embedding_model
            &&& info.extras@.dom().is_empty()
        },
        stage is PublishingInfo && event == Event::Published(true) ==> {
            &&& r.0 matches Stage::PublishingSearchConfig(arguments)
            &&& arguments.api_key@ == cli.api_key@
            &&& arguments.search_prompt@ == cli.search_prompt@
            &&& arguments.summarize == cli.summarize
            &&& r.1 matches Step::PublishSearchConfig(settings)
            &&& settings.search_engine@ == "tavily"@
            &&& settings.max_search_results == cli.max_search_results
            &&& settings.size_limit_per_result == cli.size_limit_per_result
            &&& settings.endpoint@ == "https://api.tavily.com/search"@
            &&& settings.content_type == ContentType::JSON
            &&& settings.output_content_type == ContentType::JSON
            &&& settings.method@ == "POST"@
            &&& settings.additional_headers is None
            &&& settings.summarization_prompts is None
            &&& settings.summarize_ctx_size is None
        },
        stage matches Stage::PublishingSearchConfig(arguments) ==> event == Event::Published(true)
            ==> {
            &&& r.0 is PublishingSearchArguments
            &&& r.1 == Step::<F>::PublishSearchArguments(arguments)
        },
        stage is PublishingSearchArguments && event == Event::Published(true) ==> {
            &&& r.0 is Serving
            &&& r.1 is Serve
        },
        stage is Serving && event == Event::ServerEnded(Ok(())) ==> {
            &&& r.0 is Finished
            &&& r.1 is Finish
        },
{
    match stage {
        Stage::LoadingModels { chat_model, embedding_model } => match event {
            Event::ModelsLoaded(Ok(())) => (
                Stage::QueryingPlugin { chat_model, embedding_model },
                Step::QueryPlugin,
            ),
            Event::ModelsLoaded(Err(message)) => stop_with(ServerError::Operation(message)),
            _ => unreached(),
        },
        Stage::QueryingPlugin { chat_model, embedding_model } => match event {
            Event::PluginQueried(Ok((build_number, commit_id))) => {
                let plugin_version = plugin_version(build_number, commit_id.as_str());
                (
                    Stage::ResolvingAddress { chat_model, embedding_model, plugin_version },
                    Step::ResolveAddress(cli.socket_addr.clone()),
                )
            },
            Event::PluginQueried(Err(message)) => stop_with(ServerError::Operation(message)),
            _ => unreached(),
        },
        Stage::ResolvingAddress { chat_model, embedding_model, plugin_version } => match event {
            Event::AddressResolved(Ok((port, node))) => {
                let info = server_info(
                    node,
                    version,
                    plugin_version,
                    port,
                    chat_model,
                    embedding_model,
                );
                (Stage::PublishingInfo, Step::PublishInfo(info))
            },
            Event::AddressResolved(Err(message)) => stop_with(ServerError::SocketAddr(message)),
            _ => unreached(),
        },
        Stage::PublishingInfo => match event {
            Event::Published(true) => {
                let (settings, arguments) = setup_search(cli);
                (
                    Stage::PublishingSearchConfig(arguments),
                    Step::PublishSearchConfig(settings),
                )
            },
            _ => stop_with(ServerError::Operation(SERVER_INFO_MESSAGE.to_string())),
        },
        Stage::PublishingSearchConfig(arguments) => match event {
            Event::Published(true) => (
                Stage::PublishingSearchArguments,
                Step::PublishSearchArguments(arguments),
            ),
            _ => stop_with(ServerError::Operation(SEARCH_CONFIG_MESSAGE.to_string())),
        },
        Stage::PublishingSearchArguments => match event {
            Event::Published(true) => (Stage::Serving, Step::Serve),
            _ => stop_with(ServerError::Operation(SEARCH_ARGUMENTS_MESSAGE.to_string())),
        },
        Stage::Serving => match event {
            Event::ServerEnded(Ok(())) => (Stage::Finished, Step::Finish),
            Event::ServerEnded(Err(message)) => stop_with(ServerError::Operation(message)),
            _ => unreached(),
        },
        Stage::Finished => unreached(),
        Stage::Stopped => unreached(),
    }
}

/// The stage that `events` lead to from `stage`.
pub open spec fn reached<F>(
    cli: Cli<F>,
    version: Seq<char>,
    stage: StageView<F>,
    events: Seq<Event>,
) -> StageView<F>
    decreases events.len(),
{
    if events.len() == 0 {
        stage
    } else {
        reached(cli, version, after(cli, version, stage, events[0]).0, events.skip(1))
    }
}

/// Whether each of `events` is what the stage waits for that the earlier ones lead to.
pub open spec fn all_fit<F>(
    cli: Cli<F>,
    version: Seq<char>,
    stage: StageView<F>,
    events: Seq<Event>,
) -> bool
    decreases events.len(),
{
    events.len() > 0 ==> {
        &&& fits(stage, events[0])
        &&& all_fit(cli, version, after(cli, version, stage, events[0]).0, events.skip(1))
    }
}

/// How many steps are left before the server serves.
pub open spec fn steps_left<F>(stage: StageView<F>) -> int {
    match stage {
        StageView::LoadingModels { .. } => 6,
        StageView::QueryingPlugin { .. } => 5,
        StageView::ResolvingAddress { .. } => 4,
        StageView::PublishingInfo => 3,
        StageView::PublishingSearchConfig(_) => 2,
        StageView::PublishingSearchArguments => 1,
        StageView::Serving => 0,
        StageView::Finished => -1,
        StageView::Stopped => -1,
    }
}

/// The first stage waits for the models, and each later one for what answers the step that came
/// with it: whoever does each step and reports on it always meets the next stage.
pub proof fn stage_waits_for_its_step<F>(
    cli: Cli<F>,
    version: Seq<char>,
    stage: StageView<F>,
    event: Event,
    answer: Event,
)
    requires
        fits(stage, event),
    ensures
        fits(first_stage(cli), answer) <==> answer is ModelsLoaded,
        fits(after(cli, version, stage, event).0, answer) <==> answers(
            after(cli, version, stage, event).1,
            answer,
        ),
{
}

/// A step that fails stops the server with an error, and a step that succeeds does not.
pub proof fn failure_stops<F>(cli: Cli<F>, version: Seq<char>, stage: StageView<F>, event: Event)
    requires
        fits(stage, event),
    ensures
        !succeeded(event) <==> after(cli, version, stage, event).0 is Stopped,
        !succeeded(event) <==> after(cli, version, stage, event).1 is Stop,
        succeeded(event) ==> steps_left(after(cli, version, stage, event).0) == steps_left(stage)
            - 1,
{
}

/// The server serves exactly where every step that is left has succeeded, one after the other.
pub proof fn serves_iff_all_succeed<F>(
    cli: Cli<F>,
    version: Seq<char>,
    stage: StageView<F>,
    events: Seq<Event>,
)
    requires
        all_fit(cli, version, stage, events),
    ensures
        reached(cli, version, stage, events) is Serving <==> {
            &&& events.len() == steps_left(stage)
            &&& forall|i: int| 0 <= i < events.len() ==> succeeded(#[trigger] events[i])
        },
    decreases events.len(),
{
    if events.len() > 0 {
        let next = after(cli, version, stage, events[0]).0;
        let rest = events.skip(1);
        failure_stops(cli, version, stage, events[0]);
        if succeeded(events[0]) {
            serves_iff_all_succeed(cli, version, next, rest);
            assert forall|i: int| 0 < i < events.len() implies #[trigger] events[i] == rest[i - 1] by {
            }
            assert forall|i: int| 0 <= i < rest.len() implies #[trigger] rest[i] == events[i + 1] by {
            }
        } else {
            assert(rest.len() == 0);
        }
    }
}

/// A step that fails is the last one.
pub proof fn failure_is_last<F>(
    cli: Cli<F>,
    version: Seq<char>,
    stage: StageView<F>,
    events: Seq<Event>,
    i: int,
)
    requires
        all_fit(cli, version, stage, events),
        0 <= i < events.len(),
        !succeeded(events[i]),
    ensures
        i == events.len() - 1,
        reached(cli, version, stage, events) is Stopped,
    decreases events.len(),
{
    let next = after(cli, version, stage, events[0]).0;
    let rest = events.skip(1);
    failure_stops(cli, version, stage, events[0]);
    assert(all_fit(cli, version, next, rest));
    if i == 0 {
        assert(rest.len() == 0);
        assert(reached(cli, version, next, rest) == next);
    } else {
        assert(rest[i - 1] == events[i]);
        failure_is_last(cli, version, next, rest, i - 1);
    }
}

/// Once the models are loaded, the plugin is known and the address is resolved, the server
/// publishes what it tells of itself, with the models of the command line in it.
pub proof fn published_info<F>(
    cli: Cli<F>,
    version: Seq<char>,
    build_number: u64,
    commit_id: String,
    port: u16,
    node: Option<String>,
)
    ensures
        ({
            let querying = after(
                cli,
                version,
                first_stage(cli),
                Event::ModelsLoaded(Ok(())),
            ).0;
            let resolving = after(
                cli,
                version,
                querying,
                Event::PluginQueried(Ok((build_number, commit_id))),
            ).0;
            after(cli, version, resolving, Event::AddressResolved(Ok((port, node)))).1
                == StepView::PublishInfo(
                info_of(
                    text_of(node),
                    version,
                    plugin_version_of(build_number, commit_id@),
                    port,
                    told_of_chat(cli),
                    told_of_embedding(cli),
                ),
            )
        }),
{
}

/// The server resolves the socket address of its command line, and no other.
pub proof fn requested_address_is_resolved<F>(
    cli: Cli<F>,
    version: Seq<char>,
    stage: StageView<F>,
    event: Event,
    next: Stage<F>,
    step: Step<F>,
)
    requires
        fits(stage, event),
        (next@, step@) == after(cli, version, stage, event),
    ensures
        step matches Step::ResolveAddress(address) ==> address@ == cli.socket_addr@,
        step is ResolveAddress <==> event is PluginQueried && event->PluginQueried_0 is Ok,
{
}

/// Command lines with different socket addresses resolve different addresses.
pub proof fn different_addresses_are_resolved<F>(
    a: Cli<F>,
    b: Cli<F>,
    version: Seq<char>,
    stage: StageView<F>,
    build_number: u64,
    commit_id: String,
)
    requires
        stage is QueryingPlugin,
        a.socket_addr@ != b.socket_addr@,
    ensures
        ({
            let event = Event::PluginQueried(Ok((build_number, commit_id)));
            after(a, version, stage, event).1 != after(b, version, stage, event).1
        }),
{
    let event = Event::PluginQueried(Ok((build_number, commit_id)));
    assert(after(a, version, stage, event).1->ResolveAddress_0 == a.socket_addr@);
    assert(after(b, version, stage, event).1->ResolveAddress_0 == b.socket_addr@);
}

/// Every outcome of what a stage waits for is one that it takes, and it takes nothing else.
pub proof fn stages_take_every_outcome<F>(stage: Stage<F>, event: Event)
    ensures
        stage is LoadingModels ==> (fits(stage@, event) <==> event is ModelsLoaded),
        stage is QueryingPlugin ==> (fits(stage@, event) <==> event is PluginQueried),
        stage is ResolvingAddress ==> (fits(stage@, event) <==> event is AddressResolved),
        stage is PublishingInfo ==> (fits(stage@, event) <==> event is Published),
        stage is PublishingSearchConfig ==> (fits(stage@, event) <==> event is Published),
        stage is PublishingSearchArguments ==> (fits(stage@, event) <==> event is Published),
        stage is Serving ==> (fits(stage@, event) <==> event is ServerEnded),
        stage is Finished || stage is Stopped ==> !fits(stage@, event),
{
}

/// A step that fails stops the server with the reason that was given for it, and a value that is
/// already set with the name of that value.
pub proof fn failures_are_told<F>(
    cli: Cli<F>,
    version: Seq<char>,
    stage: Stage<F>,
    event: Event,
    next: Stage<F>,
    step: Step<F>,
)
    requires
        fits(stage@, event),
        (next@, step@) == after(cli, version, stage@, event),
    ensures
        event matches Event::ModelsLoaded(Err(why)) ==> {
            &&& next is Stopped
            &&& step matches Step::Stop(ServerError::Operation(message))
            &&& message@ == why@
        },
        event matches Event::PluginQueried(Err(why)) ==> {
            &&& next is Stopped
            &&& step matches Step::Stop(ServerError::Operation(message))
            &&& message@ == why@
        },
        event matches Event::AddressResolved(Err(why)) ==> {
            &&& next is Stopped
            &&& step matches Step::Stop(ServerError::SocketAddr(message))
            &&& message@ == why@
        },
        event matches Event::ServerEnded(Err(why)) ==> {
            &&& next is Stopped
            &&& step matches Step::Stop(ServerError::Operation(message))
            &&& message@ == why@
        },
        event == Event::Published(false) ==> {
            &&& next is Stopped
            &&& step matches Step::Stop(ServerError::Operation(message))
            &&& stage is PublishingInfo ==> message@ == "Failed to set `SERVER_INFO`."@
            &&& stage is PublishingSearchConfig ==> message@ == "Failed to set `SEARCH_CONFIG`."@
            &&& stage is PublishingSearchArguments ==> message@
                == "Failed to set `SEARCH_ARGUMENTS`."@
        },
{
    if next is Stopped {
        assert(step is Stop);
    }
}

/// The server goes from stage to stage in one order: the models, the plugin, the address, what it
/// tells of itself, the settings of the search, its arguments, and then it serves.
pub proof fn steps_come_in_order<F>(
    cli: Cli<F>,
    version: Seq<char>,
    stage: Stage<F>,
    event: Event,
    next: Stage<F>,
    step: Step<F>,
)
    requires
        fits(stage@, event),
        (next@, step@) == after(cli, version, stage@, event),
        !(step is Stop),
    ensures
        stage is LoadingModels ==> next is QueryingPlugin && step is QueryPlugin,
        stage is QueryingPlugin ==> next is ResolvingAddress && step is ResolveAddress,
        stage is ResolvingAddress ==> next is PublishingInfo && step is PublishInfo,
        stage is PublishingInfo ==> next is PublishingSearchConfig && step is PublishSearchConfig,
        stage is PublishingSearchConfig ==> next is PublishingSearchArguments
            && step is PublishSearchArguments,
        stage is PublishingSearchArguments ==> next is Serving && step is Serve,
        stage is Serving ==> next is Finished && step is Finish,
{
}

/// The models that the server started with are those that it tells of, with the version of the
/// plugin and the port that it came to know on the way.
pub proof fn stages_keep_what_they_hold<F>(
    cli: Cli<F>,
    version: Seq<char>,
    stage: Stage<F>,
    event: Event,
    next: Stage<F>,
    step: Step<F>,
)
    requires
        fits(stage@, event),
        (next@, step@) == after(cli, version, stage@, event),
    ensures
        stage matches Stage::LoadingModels { chat_model, embedding_model } ==> next matches Stage::QueryingPlugin {
            chat_model: chat_kept,
            embedding_model: embedding_kept,
        } ==> {
            &&& config_of(chat_kept) == config_of(chat_model)
            &&& config_of(embedding_kept) == config_of(embedding_model)
        },
        stage matches Stage::QueryingPlugin { chat_model, embedding_model } ==> next matches Stage::ResolvingAddress {
            chat_model: chat_kept,
            embedding_model: embedding_kept,
            plugin_version,
        } ==> event matches Event::PluginQueried(Ok((build_number, commit_id))) ==> {
            &&& config_of(chat_kept) == config_of(chat_model)
            &&& config_of(embedding_kept) == config_of(embedding_model)
            &&& plugin_version@ == "b"@ + decimal(build_number as nat) + " (commit "@ + commit_id@
                + ")"@
        },
        stage matches Stage::ResolvingAddress {
            chat_model,
            embedding_model,
            plugin_version,
        } ==> step matches Step::PublishInfo(info) ==> event matches Event::AddressResolved(
            Ok((port, node)),
        ) ==> {
            &&& info.node is Some <==> node is Some
            &&& node is Some ==> info.node->0@ == node->0@
            &&& info.server.ty@ == "llama search"@
            &&& info.server.version@ == version
            &&& info.server.plugin_version@ == plugin_version@
            &&& info.server.port@ == decimal(port as nat)
            &&& config_of(info.chat_model) == config_of(chat_model)
            &&& config_of(info.embedding_model) == config_of(embedding_model)
            &&& info.extras@.dom().is_empty()
        },
        next matches Stage::PublishingSearchConfig(arguments) ==> {
            &&& arguments.api_key@ == cli.api_key@
            &&& arguments.search_prompt@ == cli.search_prompt@
            &&& arguments.summarize == cli.summarize
        },
        stage matches Stage::PublishingSearchConfig(arguments)
            ==> step matches Step::PublishSearchArguments(published) ==> {
            &&& published.api_key@ == arguments.api_key@
            &&& published.search_prompt@ == arguments.search_prompt@
            &&& published.summarize == arguments.summarize
        },
        step matches Step::PublishSearchConfig(settings) ==> settings@ == tavily(cli),
{
}

/// The first stage holds what is told of the models of the command line.
pub proof fn first_stage_holds_the_models<F>(stage: Stage<F>, cli: Cli<F>)
    requires
        stage@ == first_stage(cli),
    ensures
        stage matches Stage::LoadingModels { chat_model, embedding_model } && config_of(chat_model)
            == told_of_chat(cli) && config_of(embedding_model) == told_of_embedding(cli),
{
}

} // verus!
