//! What the server tells of itself.

use crate::cli::text_of;
use crate::models::{config_of, ModelConfig, ModelConfigView};
use crate::text::{decimal, number_text};
use std::collections::HashMap;
use vstd::prelude::*;

verus! {

/// What the server tells of itself. `F` is the type of the sampling parameters.
#[derive(Debug)]
pub struct ServerInfo<F> {
    pub node: Option<String>,
    pub server: ApiServer,
    pub chat_model: Option<ModelConfig<F>>,
    pub embedding_model: Option<ModelConfig<F>>,
    pub extras: HashMap<String, String>,
}

/// What the server tells of its program.
#[derive(Debug, PartialEq, Eq)]
pub struct ApiServer {
    pub ty: String,
    pub version: String,
    pub plugin_version: String,
    pub port: String,
}

pub struct ServerInfoView<F> {
    pub node: Option<Seq<char>>,
    pub server: ApiServerView,
    pub chat_model: Option<ModelConfigView<F>>,
    pub embedding_model: Option<ModelConfigView<F>>,
    pub extras: Map<String, String>,
}

pub struct ApiServerView {
    pub ty: Seq<char>,
    pub version: Seq<char>,
    pub plugin_version: Seq<char>,
    pub port: Seq<char>,
}

impl View for ApiServer {
    type V = ApiServerView;

    open spec fn view(&self) -> ApiServerView {
        ApiServerView {
            ty: self.ty@,
            version: self.version@,
            plugin_version: self.plugin_version@,
            port: self.port@,
        }
    }
}

impl<F> View for ServerInfo<F> {
    type V = ServerInfoView<F>;

    open spec fn view(&self) -> ServerInfoView<F> {
        ServerInfoView {
            node: text_of(self.node),
            server: self.server@,
            chat_model: config_of(self.chat_model),
            embedding_model: config_of(self.embedding_model),
            extras: self.extras@,
        }
    }
}

/// The version of the inference plugin, as it is told.
pub open spec fn plugin_version_of(build_number: u64, commit_id: Seq<char>) -> Seq<char> {
    "b"@ + decimal(build_number as nat) + " (commit "@ + commit_id + ")"@
}

/// What the server tells of itself.
pub open spec fn info_of<F>(
    node: Option<Seq<char>>,
    version: Seq<char>,
    plugin_version: Seq<char>,
    port: u16,
    chat_model: Option<ModelConfigView<F>>,
    embedding_model: Option<ModelConfigView<F>>,
) -> ServerInfoView<F> {
    ServerInfoView {
        node,
        server: ApiServerView {
            ty: "llama search"@,
            version,
            plugin_version,
            port: decimal(port as nat),
        },
        chat_model,
        embedding_model,
        extras: Map::empty(),
    }
}

/// The version of the inference plugin, as it is told.
pub fn plugin_version(build_number: u64, commit_id: &str) -> (r: String)
    ensures
        r@ == plugin_version_of(build_number, commit_id@),
        r@ == "b"@ + decimal(build_number as nat) + " (commit "@ + commit_id@ + ")"@,
{
    "b".to_string().concat(number_text(build_number).as_str()).concat(" (commit ").concat(
        commit_id,
    ).concat(")")
}

/// What the server tells of itself: the version of the node that it belongs to, if any, its own
/// version and that of the plugin, the port that it listens on and its models.
pub fn server_info<F>(
    node: Option<String>,
    version: &str,
    plugin_version: String,
    port: u16,
    chat_model: Option<ModelConfig<F>>,
    embedding_model: Option<ModelConfig<F>>,
) -> (r: ServerInfo<F>)
    ensures
        r@ == info_of(
            text_of(node),
            version@,
            plugin_version@,
            port,
            config_of(chat_model),
            config_of(embedding_model),
        ),
        r.node == node,
        r.server.ty@ == "llama search"@,
        r.server.version@ == version@,
        r.server.plugin_version == plugin_version,
        r.server.port@ == decimal(port as nat),
        r.chat_model == chat_model,
        r.embedding_model == embedding_model,
        r.extras@.dom().is_empty(),
{
    ServerInfo {
        node,
        server: ApiServer {
            ty: "llama search".to_string(),
            version: version.to_string(),
            plugin_version,
            port: number_text(port as u64),
        },
        chat_model,
        embedding_model,
        extras: HashMap::new(),
    }
}

/// The version of the plugin names the build number in decimal and the commit as it is.
pub proof fn plugin_version_names_build_and_commit(build_number: u64, commit_id: Seq<char>)
    ensures
        plugin_version_of(build_number, commit_id) == "b"@ + decimal(build_number as nat)
            + " (commit "@ + commit_id + ")"@,
{
}

/// Of one build, different commits have different versions.
pub proof fn different_commits_have_different_versions(
    build_number: u64,
    a: Seq<char>,
    b: Seq<char>,
)
    requires
        a != b,
    ensures
        plugin_version_of(build_number, a) != plugin_version_of(build_number, b),
{
    let head = "b"@ + decimal(build_number as nat) + " (commit "@;
    let version_a = plugin_version_of(build_number, a);
    let version_b = plugin_version_of(build_number, b);
    let tail = ")"@.len();
    assert(version_a.subrange(head.len() as int, version_a.len() - tail) == a);
    assert(version_b.subrange(head.len() as int, version_b.len() - tail) == b);
}

/// What the server tells of itself is what it was given, under the name of its kind and without
/// anything extra.
pub proof fn info_is_what_was_given<F>(
    info: ServerInfo<F>,
    node: Option<Seq<char>>,
    version: Seq<char>,
    plugin_version: Seq<char>,
    port: u16,
    chat_model: Option<ModelConfigView<F>>,
    embedding_model: Option<ModelConfigView<F>>,
)
    requires
        info@ == info_of(node, version, plugin_version, port, chat_model, embedding_model),
    ensures
        info.node is Some <==> node is Some,
        info.node is Some ==> info.node->0@ == node->0,
        info.server.ty@ == "llama search"@,
        info.server.version@ == version,
        info.server.plugin_version@ == plugin_version,
        info.server.port@ == decimal(port as nat),
        info.chat_model is Some <==> chat_model is Some,
        info.chat_model is Some ==> info.chat_model->0@ == chat_model->0,
        info.embedding_model is Some <==> embedding_model is Some,
        info.embedding_model is Some ==> info.embedding_model->0@ == embedding_model->0,
        info.extras@.dom().is_empty(),
{
}

} // verus!
