//! How the server searches the web.

use crate::cli::Cli;
use llama_core::search::ContentType;
use std::collections::HashMap;
use vstd::prelude::*;

verus! {

/// The enumeration `llama_core::search::ContentType`, with its variants.
#[verifier::external_type_specification]
pub struct ExContentType(ContentType);

/// The settings of a search engine, but for the function that parses its answers.
#[derive(Debug)]
pub struct SearchSettings {
    pub search_engine: String,
    /// The total number of results.
    pub max_search_results: u8,
    /// The size limit of every search result.
    pub size_limit_per_result: u16,
    pub endpoint: String,
    /// The content type of the input.
    pub content_type: ContentType,
    /// The expected content type of the output.
    pub output_content_type: ContentType,
    /// The method that the endpoint expects.
    pub method: String,
    pub additional_headers: Option<HashMap<String, String>>,
    pub summarization_prompts: Option<(String, String)>,
    pub summarize_ctx_size: Option<usize>,
}

/// What the command line says on searching.
#[derive(Debug, PartialEq, Eq)]
pub struct SearchArguments {
    pub api_key: String,
    pub search_prompt: String,
    pub summarize: bool,
}

pub struct SearchSettingsView {
    pub search_engine: Seq<char>,
    pub max_search_results: u8,
    pub size_limit_per_result: u16,
    pub endpoint: Seq<char>,
    pub content_type: ContentType,
    pub output_content_type: ContentType,
    pub method: Seq<char>,
    pub additional_headers: Option<Map<String, String>>,
    pub summarization_prompts: Option<(Seq<char>, Seq<char>)>,
    pub summarize_ctx_size: Option<usize>,
}

pub struct SearchArgumentsView {
    pub api_key: Seq<char>,
    pub search_prompt: Seq<char>,
    pub summarize: bool,
}

impl View for SearchSettings {
    type V = SearchSettingsView;

    open spec fn view(&self) -> SearchSettingsView {
        SearchSettingsView {
            search_engine: self.search_engine@,
            max_search_results: self.max_search_results,
            size_limit_per_result: self.size_limit_per_result,
            endpoint: self.endpoint@,
            content_type: self.content_type,
            output_content_type: self.output_content_type,
            method: self.method@,
            additional_headers: match self.additional_headers {
                Some(headers) => Some(headers@),
                None => None,
            },
            summarization_prompts: match self.summarization_prompts {
                Some((before, after)) => Some((before@, after@)),
                None => None,
            },
            summarize_ctx_size: self.summarize_ctx_size,
        }
    }
}

impl View for SearchArguments {
    type V = SearchArgumentsView;

    open spec fn view(&self) -> SearchArgumentsView {
        SearchArgumentsView {
            api_key: self.api_key@,
            search_prompt: self.search_prompt@,
            summarize: self.summarize,
        }
    }
}

/// The settings of the Tavily search API, with the limits of the command line and no headers,
/// prompts or sizes of its own.
pub open spec fn tavily<F>(cli: Cli<F>) -> SearchSettingsView {
    SearchSettingsView {
        search_engine: "tavily"@,
        max_search_results: cli.max_search_results,
        size_limit_per_result: cli.size_limit_per_result,
        endpoint: "https://api.tavily.com/search"@,
        content_type: ContentType::JSON,
        output_content_type: ContentType::JSON,
        method: "POST"@,
        additional_headers: None,
        summarization_prompts: None,
        summarize_ctx_size: None,
    }
}

/// What the command line says on searching.
pub open spec fn arguments_of<F>(cli: Cli<F>) -> SearchArgumentsView {
    SearchArgumentsView {
        api_key: cli.api_key@,
        search_prompt: cli.search_prompt@,
        summarize: cli.summarize,
    }
}

/// What the server searches with: the settings of the search engine, which is Tavily, and what the
/// command line says on searching.
pub fn setup_search<F>(cli: &Cli<F>) -> (r: (SearchSettings, SearchArguments))
    ensures
        r.0@ == tavily(*cli),
        r.1@ == arguments_of(*cli),
        r.0.search_engine@ == "tavily"@,
        r.0.max_search_results == cli.max_search_results,
        r.0.size_limit_per_result == cli.size_limit_per_result,
        r.0.endpoint@ == "https://api.tavily.com/search"@,
        r.0.content_type == ContentType::JSON,
        r.0.output_content_type == ContentType::JSON,
        r.0.method@ == "POST"@,
        r.0.additional_headers is None,
        r.0.summarization_prompts is None,
        r.0.summarize_ctx_size is None,
        r.1.api_key@ == cli.api_key@,
        r.1.search_prompt@ == cli.search_prompt@,
        r.1.summarize == cli.summarize,
{
    let settings = SearchSettings {
        search_engine: "tavily".to_string(),
        max_search_results: cli.max_search_results,
        size_limit_per_result: cli.size_limit_per_result,
        endpoint: "https://api.tavily.com/search".to_string(),
        content_type: ContentType::JSON,
        output_content_type: ContentType::JSON,
        method: "POST".to_string(),
        additional_headers: None,
        summarization_prompts: None,
        summarize_ctx_size: None,
    };
    let arguments = SearchArguments {
        api_key: cli.api_key.clone(),
        search_prompt: cli.search_prompt.clone(),
        summarize: cli.summarize,
    };
    (settings, arguments)
}

/// Searches go to the JSON endpoint of Tavily with the limits of the command line, and the key, the
/// prompt and the choice to summarize are those of the command line.
pub proof fn search_follows_the_command_line<F>(
    cli: Cli<F>,
    settings: SearchSettings,
    arguments: SearchArguments,
)
    requires
        settings@ == tavily(cli),
        arguments@ == arguments_of(cli),
    ensures
        settings.search_engine@ == "tavily"@,
        settings.max_search_results == cli.max_search_results,
        settings.size_limit_per_result == cli.size_limit_per_result,
        settings.endpoint@ == "https://api.tavily.com/search"@,
        settings.content_type == ContentType::JSON,
        settings.output_content_type == ContentType::JSON,
        settings.method@ == "POST"@,
        settings.additional_headers is None,
        settings.summarization_prompts is None,
        settings.summarize_ctx_size is None,
        arguments.api_key@ == cli.api_key@,
        arguments.search_prompt@ == cli.search_prompt@,
        arguments.summarize == cli.summarize,
{
}

/// Results are summarized exactly where the command line asks for it: command lines that differ in
/// that differ in their search arguments, and so do those with different keys or prompts.
pub proof fn different_choices_search_differently<F, G>(
    a: Cli<F>,
    b: Cli<G>,
    for_a: SearchArguments,
    for_b: SearchArguments,
)
    requires
        for_a@ == arguments_of(a),
        for_b@ == arguments_of(b),
    ensures
        for_a.summarize == for_b.summarize <==> a.summarize == b.summarize,
        for_a.api_key@ == for_b.api_key@ <==> a.api_key@ == b.api_key@,
        for_a.search_prompt@ == for_b.search_prompt@ <==> a.search_prompt@ == b.search_prompt@,
{
}

} // verus!
