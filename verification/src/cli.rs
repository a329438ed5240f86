//! The command line, and the errors that the server stops with.

use chat_prompts::PromptTemplateType;
use vstd::prelude::*;

verus! {

/// The enumeration `chat_prompts::PromptTemplateType`, with its variants.
#[verifier::external_type_specification]
pub struct ExPromptTemplateType(PromptTemplateType);

/// The socket address that the server listens on unless it is told another.
pub const DEFAULT_SOCKET_ADDRESS: &'static str = "0.0.0.0:8080";

/// The command line of the server. `F` is the type of the sampling parameters.
#[derive(Debug)]
pub struct Cli<F> {
    /// Names of the chat and/or embedding models: the first value is for the chat model, and the
    /// second is for the embedding model.
    pub model_name: Vec<String>,
    /// Aliases of the chat and embedding models.
    pub model_alias: Vec<String>,
    /// Context sizes of the chat and/or embedding models.
    pub ctx_size: Vec<u64>,
    /// Batch sizes of the chat and/or embedding models.
    pub batch_size: Vec<u64>,
    /// Prompt templates of the chat and/or embedding models.
    pub prompt_template: Vec<PromptTemplateType>,
    /// Halt generation at this prompt and return control.
    pub reverse_prompt: Option<String>,
    /// Number of tokens to predict.
    pub n_predict: u64,
    /// Number of layers to run on the GPU.
    pub n_gpu_layers: u64,
    /// Disable memory mapping for file access of chat models.
    pub no_mmap: Option<bool>,
    /// Temperature for sampling.
    pub temp: F,
    /// Probability mass of the tokens that nucleus sampling considers.
    pub top_p: F,
    /// Penalty for repeated sequences of tokens.
    pub repeat_penalty: F,
    /// Repeat alpha presence penalty.
    pub presence_penalty: F,
    /// Repeat alpha frequency penalty.
    pub frequency_penalty: F,
    /// Path to the multimodal projector file.
    pub llava_mmproj: Option<String>,
    /// Socket address to listen on.
    pub socket_addr: String,
    /// Root path of the web user interface files.
    pub web_ui: String,
    /// Deprecated. Print prompt strings to stdout.
    pub log_prompts: bool,
    /// Deprecated. Print statistics to stdout.
    pub log_stat: bool,
    /// Deprecated. Print all log information to stdout.
    pub log_all: bool,
    /// Maximum number of search results to use.
    pub max_search_results: u8,
    /// Size to clip every result to.
    pub size_limit_per_result: u16,
    /// API key to be supplied to the search endpoint, if supported.
    pub api_key: String,
    /// System prompt that explains to the model how to interpret search results.
    pub search_prompt: String,
    /// Whether to summarize search results before they are passed on to the model.
    pub summarize: bool,
}

/// Why the server stops.
#[derive(Debug, PartialEq, Eq)]
pub enum ServerError {
    /// The command line is not acceptable.
    ArgumentError(String),
    /// An operation failed.
    Operation(String),
    /// The socket address is not one.
    SocketAddr(String),
}

pub enum ServerErrorView {
    ArgumentError(Seq<char>),
    Operation(Seq<char>),
    SocketAddr(Seq<char>),
}

impl View for ServerError {
    type V = ServerErrorView;

    open spec fn view(&self) -> ServerErrorView {
        match self {
            ServerError::ArgumentError(message) => ServerErrorView::ArgumentError(message@),
            ServerError::Operation(message) => ServerErrorView::Operation(message@),
            ServerError::SocketAddr(message) => ServerErrorView::SocketAddr(message@),
        }
    }
}

/// How much the server logs.
#[derive(Debug, Clone, Copy, PartialEq, Eq, Structural)]
pub enum LogLevel {
    Trace,
    Debug,
    Info,
    Warn,
    Error,
}

impl LogLevel {
    /// Whether the inference plugin logs its debug messages too: at the two most detailed levels.
    pub fn plugin_debug(self) -> (r: bool)
        ensures
            r == (self == LogLevel::Debug || self == LogLevel::Trace),
            !r <==> self is Info || self is Warn || self is Error,
    {
        self == LogLevel::Debug || self == LogLevel::Trace
    }
}

/// The text of an optional string.
pub open spec fn text_of(s: Option<String>) -> Option<Seq<char>> {
    match s {
        Some(s) => Some(s@),
        None => None,
    }
}

/// A copy of an optional string.
pub(crate) fn copy_text(s: &Option<String>) -> (r: Option<String>)
    ensures
        text_of(r) == text_of(*s),
        r is Some <==> *s is Some,
        r is Some ==> r->0@ == (*s)->0@,
{
    match s {
        Some(s) => Some(s.clone()),
        None => None,
    }
}

} // verus!
