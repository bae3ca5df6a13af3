//! The arguments of the C entry points, and what they ask for.
use vstd::prelude::*;

use crate::config_text::{
    credential_setting, parse_ssh_authentication, parse_tmux_mode, parse_wire_api, tmux_setting,
    wire_api_setting, SshAuthentication, SshAuthenticationModel, SshCredential, SshCredentialModel,
    SshTmuxMode, WireApi,
};
use crate::lists::{lemma_empty_content, outcome};
use crate::model::Modeled;
use crate::text::{decimal, decimal_text, glue, glue3, is_blank, trim_text};
use crate::uploads::{
    manifest_text_uploads, parse_server_file_uploads, ServerFileUpload, ServerFileUploadModel,
};

verus! {

/// A C string argument, as far as it could be read.
#[derive(Debug, PartialEq, Eq)]
pub enum CArg {
    Null,
    NotUtf8 { error: String },
    Text(String),
}

/// The mathematical content of a [`CArg`].
pub enum CArgModel {
    Null,
    NotUtf8 { error: Seq<char> },
    Text(Seq<char>),
}

impl DeepView for CArg {
    type V = CArgModel;

    open spec fn deep_view(&self) -> CArgModel {
        match self {
            CArg::Null => CArgModel::Null,
            CArg::NotUtf8 { error } => CArgModel::NotUtf8 { error: error.deep_view() },
            CArg::Text(x) => CArgModel::Text(x.deep_view()),
        }
    }
}

impl Modeled for CArg {
    fn duplicate(&self) -> (r: Self) {
        match self {
            CArg::Null => CArg::Null,
            CArg::NotUtf8 { error } => CArg::NotUtf8 { error: error.duplicate() },
            CArg::Text(x) => CArg::Text(x.duplicate()),
        }
    }

    fn same(&self, other: &Self) -> (r: bool) {
        match (self, other) {
            (CArg::Null, CArg::Null) => true,
            (CArg::NotUtf8 { error }, CArg::NotUtf8 { error: error_other }) => error.same(
                error_other,
            ),
            (CArg::Text(x), CArg::Text(x_other)) => x.same(x_other),
            _ => false,
        }
    }
}

impl Clone for CArg {
    fn clone(&self) -> (r: Self)
        ensures
            r.deep_view() == self.deep_view(),
    {
        self.duplicate()
    }
}

/// How to authenticate and which backend to talk to.
#[derive(Debug, PartialEq, Eq)]
pub enum ProviderAuthConfig {
    /// A ChatGPT login. The backend follows from it.
    ChatgptOAuth { access_token: String, id_token: String, account_id: String },
    /// A bearer key for an endpoint that speaks the given protocol.
    ApiKey { base_url: String, api_key: String, wire_api: WireApi },
}

/// The mathematical content of a [`ProviderAuthConfig`].
pub enum ProviderAuthConfigModel {
    ChatgptOAuth { access_token: Seq<char>, id_token: Seq<char>, account_id: Seq<char> },
    ApiKey { base_url: Seq<char>, api_key: Seq<char>, wire_api: WireApi },
}

impl DeepView for ProviderAuthConfig {
    type V = ProviderAuthConfigModel;

    open spec fn deep_view(&self) -> ProviderAuthConfigModel {
        match self {
            ProviderAuthConfig::ChatgptOAuth { access_token, id_token, account_id } => {
                ProviderAuthConfigModel::ChatgptOAuth {
                    access_token: access_token.deep_view(),
                    id_token: id_token.deep_view(),
                    account_id: account_id.deep_view(),
                }
            },
            ProviderAuthConfig::ApiKey { base_url, api_key, wire_api } => {
                ProviderAuthConfigModel::ApiKey {
                    base_url: base_url.deep_view(),
                    api_key: api_key.deep_view(),
                    wire_api: *wire_api,
                }
            },
        }
    }
}

impl Modeled for ProviderAuthConfig {
    fn duplicate(&self) -> (r: Self) {
        match self {
            ProviderAuthConfig::ChatgptOAuth { access_token, id_token, account_id } => {
                ProviderAuthConfig::ChatgptOAuth {
                    access_token: access_token.duplicate(),
                    id_token: id_token.duplicate(),
                    account_id: account_id.duplicate(),
                }
            },
            ProviderAuthConfig::ApiKey { base_url, api_key, wire_api } => {
                ProviderAuthConfig::ApiKey {
                    base_url: base_url.duplicate(),
                    api_key: api_key.duplicate(),
                    wire_api: *wire_api,
                }
            },
        }
    }

    fn same(&self, other: &Self) -> (r: bool) {
        match (self, other) {
            (
                ProviderAuthConfig::ChatgptOAuth { access_token, id_token, account_id },
                ProviderAuthConfig::ChatgptOAuth {
                    access_token: access_token_other,
                    id_token: id_token_other,
                    account_id: account_id_other,
                },
            ) => {
                access_token.same(access_token_other)
                    && id_token.same(id_token_other)
                    && account_id.same(account_id_other)
            },
            (
                ProviderAuthConfig::ApiKey { base_url, api_key, wire_api },
                ProviderAuthConfig::ApiKey {
                    base_url: base_url_other,
                    api_key: api_key_other,
                    wire_api: wire_api_other,
                },
            ) => {
                base_url.same(base_url_other)
                    && api_key.same(api_key_other)
                    && *wire_api == *wire_api_other
            },
            _ => false,
        }
    }
}

impl Clone for ProviderAuthConfig {
    fn clone(&self) -> (r: Self)
        ensures
            r.deep_view() == self.deep_view(),
    {
        self.duplicate()
    }
}

/// The arguments that select a provider.
#[derive(Debug, PartialEq, Eq)]
pub enum ProviderArguments {
    ChatgptOAuth { access_token: CArg, id_token: CArg, account_id: CArg },
    ApiKey { base_url: CArg, api_key: CArg, wire_api: CArg },
}

/// The mathematical content of a [`ProviderArguments`].
pub enum ProviderArgumentsModel {
    ChatgptOAuth { access_token: CArgModel, id_token: CArgModel, account_id: CArgModel },
    ApiKey { base_url: CArgModel, api_key: CArgModel, wire_api: CArgModel },
}

impl DeepView for ProviderArguments {
    type V = ProviderArgumentsModel;

    open spec fn deep_view(&self) -> ProviderArgumentsModel {
        match self {
            ProviderArguments::ChatgptOAuth { access_token, id_token, account_id } => {
                ProviderArgumentsModel::ChatgptOAuth {
                    access_token: access_token.deep_view(),
                    id_token: id_token.deep_view(),
                    account_id: account_id.deep_view(),
                }
            },
            ProviderArguments::ApiKey { base_url, api_key, wire_api } => {
                ProviderArgumentsModel::ApiKey {
                    base_url: base_url.deep_view(),
                    api_key: api_key.deep_view(),
                    wire_api: wire_api.deep_view(),
                }
            },
        }
    }
}

impl Modeled for ProviderArguments {
    fn duplicate(&self) -> (r: Self) {
        match self {
            ProviderArguments::ChatgptOAuth { access_token, id_token, account_id } => {
                ProviderArguments::ChatgptOAuth {
                    access_token: access_token.duplicate(),
                    id_token: id_token.duplicate(),
                    account_id: account_id.duplicate(),
                }
            },
            ProviderArguments::ApiKey { base_url, api_key, wire_api } => ProviderArguments::ApiKey {
                base_url: base_url.duplicate(),
                api_key: api_key.duplicate(),
                wire_api: wire_api.duplicate(),
            },
        }
    }

    fn same(&self, other: &Self) -> (r: bool) {
        match (self, other) {
            (
                ProviderArguments::ChatgptOAuth { access_token, id_token, account_id },
                ProviderArguments::ChatgptOAuth {
                    access_token: access_token_other,
                    id_token: id_token_other,
                    account_id: account_id_other,
                },
            ) => {
                access_token.same(access_token_other)
                    && id_token.same(id_token_other)
                    && account_id.same(account_id_other)
            },
            (
                ProviderArguments::ApiKey { base_url, api_key, wire_api },
                ProviderArguments::ApiKey {
                    base_url: base_url_other,
                    api_key: api_key_other,
                    wire_api: wire_api_other,
                },
            ) => {
                base_url.same(base_url_other)
                    && api_key.same(api_key_other)
                    && wire_api.same(wire_api_other)
            },
            _ => false,
        }
    }
}

impl Clone for ProviderArguments {
    fn clone(&self) -> (r: Self)
        ensures
            r.deep_view() == self.deep_view(),
    {
        self.duplicate()
    }
}

/// The arguments that select a server.
#[derive(Debug, PartialEq, Eq)]
pub struct ServerArguments {
    pub connection_key: CArg,
    pub session_key: CArg,
    pub host: CArg,
    pub port: u16,
    pub user: CArg,
    pub auth_method: CArg,
    pub secret: CArg,
    pub fingerprint: CArg,
    pub tmux_mode: CArg,
}

/// The mathematical content of a [`ServerArguments`].
pub struct ServerArgumentsModel {
    pub connection_key: CArgModel,
    pub session_key: CArgModel,
    pub host: CArgModel,
    pub port: u16,
    pub user: CArgModel,
    pub auth_method: CArgModel,
    pub secret: CArgModel,
    pub fingerprint: CArgModel,
    pub tmux_mode: CArgModel,
}

impl DeepView for ServerArguments {
    type V = ServerArgumentsModel;

    open spec fn deep_view(&self) -> ServerArgumentsModel {
        ServerArgumentsModel {
            connection_key: self.connection_key.deep_view(),
            session_key: self.session_key.deep_view(),
            host: self.host.deep_view(),
            port: self.port,
            user: self.user.deep_view(),
            auth_method: self.auth_method.deep_view(),
            secret: self.secret.deep_view(),
            fingerprint: self.fingerprint.deep_view(),
            tmux_mode: self.tmux_mode.deep_view(),
        }
    }
}

impl Modeled for ServerArguments {
    fn duplicate(&self) -> (r: Self) {
        ServerArguments {
            connection_key: self.connection_key.duplicate(),
            session_key: self.session_key.duplicate(),
            host: self.host.duplicate(),
            port: self.port,
            user: self.user.duplicate(),
            auth_method: self.auth_method.duplicate(),
            secret: self.secret.duplicate(),
            fingerprint: self.fingerprint.duplicate(),
            tmux_mode: self.tmux_mode.duplicate(),
        }
    }

    fn same(&self, other: &Self) -> (r: bool) {
        self.connection_key.same(&other.connection_key)
            && self.session_key.same(&other.session_key)
            && self.host.same(&other.host)
            && self.port == other.port
            && self.user.same(&other.user)
            && self.auth_method.same(&other.auth_method)
            && self.secret.same(&other.secret)
            && self.fingerprint.same(&other.fingerprint)
            && self.tmux_mode.same(&other.tmux_mode)
    }
}

impl Clone for ServerArguments {
    fn clone(&self) -> (r: Self)
        ensures
            r.deep_view() == self.deep_view(),
    {
        self.duplicate()
    }
}

/// The arguments of a turn.
#[derive(Debug, PartialEq, Eq)]
pub struct TurnArguments {
    pub provider: ProviderArguments,
    pub model: CArg,
    pub reasoning_effort: CArg,
    pub service_tier: CArg,
    pub prompt: CArg,
    pub history_json: CArg,
    pub context_home: CArg,
    pub workspace: CArg,
    pub dynamic_tools_json: CArg,
    pub uploads_json: CArg,
    pub server: Option<ServerArguments>,
}

/// The mathematical content of a [`TurnArguments`].
pub struct TurnArgumentsModel {
    pub provider: ProviderArgumentsModel,
    pub model: CArgModel,
    pub reasoning_effort: CArgModel,
    pub service_tier: CArgModel,
    pub prompt: CArgModel,
    pub history_json: CArgModel,
    pub context_home: CArgModel,
    pub workspace: CArgModel,
    pub dynamic_tools_json: CArgModel,
    pub uploads_json: CArgModel,
    pub server: Option<ServerArgumentsModel>,
}

impl DeepView for TurnArguments {
    type V = TurnArgumentsModel;

    open spec fn deep_view(&self) -> TurnArgumentsModel {
        TurnArgumentsModel {
            provider: self.provider.deep_view(),
            model: self.model.deep_view(),
            reasoning_effort: self.reasoning_effort.deep_view(),
            service_tier: self.service_tier.deep_view(),
            prompt: self.prompt.deep_view(),
            history_json: self.history_json.deep_view(),
            context_home: self.context_home.deep_view(),
            workspace: self.workspace.deep_view(),
            dynamic_tools_json: self.dynamic_tools_json.deep_view(),
            uploads_json: self.uploads_json.deep_view(),
            server: self.server.deep_view(),
        }
    }
}

impl Modeled for TurnArguments {
    fn duplicate(&self) -> (r: Self) {
        TurnArguments {
            provider: self.provider.duplicate(),
            model: self.model.duplicate(),
            reasoning_effort: self.reasoning_effort.duplicate(),
            service_tier: self.service_tier.duplicate(),
            prompt: self.prompt.duplicate(),
            history_json: self.history_json.duplicate(),
            context_home: self.context_home.duplicate(),
            workspace: self.workspace.duplicate(),
            dynamic_tools_json: self.dynamic_tools_json.duplicate(),
            uploads_json: self.uploads_json.duplicate(),
            server: self.server.duplicate(),
        }
    }

    fn same(&self, other: &Self) -> (r: bool) {
        self.provider.same(&other.provider)
            && self.model.same(&other.model)
            && self.reasoning_effort.same(&other.reasoning_effort)
            && self.service_tier.same(&other.service_tier)
            && self.prompt.same(&other.prompt)
            && self.history_json.same(&other.history_json)
            && self.context_home.same(&other.context_home)
            && self.workspace.same(&other.workspace)
            && self.dynamic_tools_json.same(&other.dynamic_tools_json)
            && self.uploads_json.same(&other.uploads_json)
            && self.server.same(&other.server)
    }
}

impl Clone for TurnArguments {
    fn clone(&self) -> (r: Self)
        ensures
            r.deep_view() == self.deep_view(),
    {
        self.duplicate()
    }
}

/// A server on which the tools of a turn run.
#[derive(Debug, PartialEq, Eq)]
pub struct ServerPlan {
    /// Stable key by which physical connections are shared.
    pub connection_key: String,
    /// Stable key of the session that belongs to one agent.
    pub session_key: String,
    pub host: String,
    pub port: u16,
    pub user: String,
    pub credential: SshCredential,
    /// The expected fingerprint of the host key. Without one any host key is accepted.
    pub host_fingerprint: Option<String>,
    pub tmux_mode: SshTmuxMode,
}

/// The mathematical content of a [`ServerPlan`].
pub struct ServerPlanModel {
    pub connection_key: Seq<char>,
    pub session_key: Seq<char>,
    pub host: Seq<char>,
    pub port: u16,
    pub user: Seq<char>,
    pub credential: SshCredentialModel,
    pub host_fingerprint: Option<Seq<char>>,
    pub tmux_mode: SshTmuxMode,
}

impl DeepView for ServerPlan {
    type V = ServerPlanModel;

    open spec fn deep_view(&self) -> ServerPlanModel {
        ServerPlanModel {
            connection_key: self.connection_key.deep_view(),
            session_key: self.session_key.deep_view(),
            host: self.host.deep_view(),
            port: self.port,
            user: self.user.deep_view(),
            credential: self.credential.deep_view(),
            host_fingerprint: self.host_fingerprint.deep_view(),
            tmux_mode: self.tmux_mode,
        }
    }
}

impl Modeled for ServerPlan {
    fn duplicate(&self) -> (r: Self) {
        ServerPlan {
            connection_key: self.connection_key.duplicate(),
            session_key: self.session_key.duplicate(),
            host: self.host.duplicate(),
            port: self.port,
            user: self.user.duplicate(),
            credential: self.credential.duplicate(),
            host_fingerprint: self.host_fingerprint.duplicate(),
            tmux_mode: self.tmux_mode,
        }
    }

    fn same(&self, other: &Self) -> (r: bool) {
        self.connection_key.same(&other.connection_key)
            && self.session_key.same(&other.session_key)
            && self.host.same(&other.host)
            && self.port == other.port
            && self.user.same(&other.user)
            && self.credential.same(&other.credential)
            && self.host_fingerprint.same(&other.host_fingerprint)
            && self.tmux_mode == other.tmux_mode
    }
}

impl Clone for ServerPlan {
    fn clone(&self) -> (r: Self)
        ensures
            r.deep_view() == self.deep_view(),
    {
        self.duplicate()
    }
}

/// A server on which the tools of a turn run, with a private key put into a file.
#[derive(Debug, PartialEq, Eq)]
pub struct ServerMode {
    pub connection_key: String,
    pub session_key: String,
    pub host: String,
    pub port: u16,
    pub user: String,
    pub authentication: SshAuthentication,
    pub host_fingerprint: Option<String>,
    pub tmux_mode: SshTmuxMode,
}

/// The mathematical content of a [`ServerMode`].
pub struct ServerModeModel {
    pub connection_key: Seq<char>,
    pub session_key: Seq<char>,
    pub host: Seq<char>,
    pub port: u16,
    pub user: Seq<char>,
    pub authentication: SshAuthenticationModel,
    pub host_fingerprint: Option<Seq<char>>,
    pub tmux_mode: SshTmuxMode,
}

impl DeepView for ServerMode {
    type V = ServerModeModel;

    open spec fn deep_view(&self) -> ServerModeModel {
        ServerModeModel {
            connection_key: self.connection_key.deep_view(),
            session_key: self.session_key.deep_view(),
            host: self.host.deep_view(),
            port: self.port,
            user: self.user.deep_view(),
            authentication: self.authentication.deep_view(),
            host_fingerprint: self.host_fingerprint.deep_view(),
            tmux_mode: self.tmux_mode,
        }
    }
}

impl Modeled for ServerMode {
    fn duplicate(&self) -> (r: Self) {
        ServerMode {
            connection_key: self.connection_key.duplicate(),
            session_key: self.session_key.duplicate(),
            host: self.host.duplicate(),
            port: self.port,
            user: self.user.duplicate(),
            authentication: self.authentication.duplicate(),
            host_fingerprint: self.host_fingerprint.duplicate(),
            tmux_mode: self.tmux_mode,
        }
    }

    fn same(&self, other: &Self) -> (r: bool) {
        self.connection_key.same(&other.connection_key)
            && self.session_key.same(&other.session_key)
            && self.host.same(&other.host)
            && self.port == other.port
            && self.user.same(&other.user)
            && self.authentication.same(&other.authentication)
            && self.host_fingerprint.same(&other.host_fingerprint)
            && self.tmux_mode == other.tmux_mode
    }
}

impl Clone for ServerMode {
    fn clone(&self) -> (r: Self)
        ensures
            r.deep_view() == self.deep_view(),
    {
        self.duplicate()
    }
}

/// What a turn is to do.
#[derive(Debug, PartialEq, Eq)]
pub struct TurnPlan {
    pub provider: ProviderAuthConfig,
    pub model: String,
    pub reasoning_effort: String,
    pub service_tier: String,
    pub prompt: String,
    pub history_json: String,
    pub context_home: String,
    pub workspace: String,
    pub dynamic_tools_json: String,
    pub uploads: Vec<ServerFileUpload>,
    pub server: Option<ServerPlan>,
}

/// The mathematical content of a [`TurnPlan`].
pub struct TurnPlanModel {
    pub provider: ProviderAuthConfigModel,
    pub model: Seq<char>,
    pub reasoning_effort: Seq<char>,
    pub service_tier: Seq<char>,
    pub prompt: Seq<char>,
    pub history_json: Seq<char>,
    pub context_home: Seq<char>,
    pub workspace: Seq<char>,
    pub dynamic_tools_json: Seq<char>,
    pub uploads: Seq<ServerFileUploadModel>,
    pub server: Option<ServerPlanModel>,
}

impl DeepView for TurnPlan {
    type V = TurnPlanModel;

    open spec fn deep_view(&self) -> TurnPlanModel {
        TurnPlanModel {
            provider: self.provider.deep_view(),
            model: self.model.deep_view(),
            reasoning_effort: self.reasoning_effort.deep_view(),
            service_tier: self.service_tier.deep_view(),
            prompt: self.prompt.deep_view(),
            history_json: self.history_json.deep_view(),
            context_home: self.context_home.deep_view(),
            workspace: self.workspace.deep_view(),
            dynamic_tools_json: self.dynamic_tools_json.deep_view(),
            uploads: self.uploads.deep_view(),
            server: self.server.deep_view(),
        }
    }
}

impl Modeled for TurnPlan {
    fn duplicate(&self) -> (r: Self) {
        TurnPlan {
            provider: self.provider.duplicate(),
            model: self.model.duplicate(),
            reasoning_effort: self.reasoning_effort.duplicate(),
            service_tier: self.service_tier.duplicate(),
            prompt: self.prompt.duplicate(),
            history_json: self.history_json.duplicate(),
            context_home: self.context_home.duplicate(),
            workspace: self.workspace.duplicate(),
            dynamic_tools_json: self.dynamic_tools_json.duplicate(),
            uploads: self.uploads.duplicate(),
            server: self.server.duplicate(),
        }
    }

    fn same(&self, other: &Self) -> (r: bool) {
        self.provider.same(&other.provider)
            && self.model.same(&other.model)
            && self.reasoning_effort.same(&other.reasoning_effort)
            && self.service_tier.same(&other.service_tier)
            && self.prompt.same(&other.prompt)
            && self.history_json.same(&other.history_json)
            && self.context_home.same(&other.context_home)
            && self.workspace.same(&other.workspace)
            && self.dynamic_tools_json.same(&other.dynamic_tools_json)
            && self.uploads.same(&other.uploads)
            && self.server.same(&other.server)
    }
}

impl Clone for TurnPlan {
    fn clone(&self) -> (r: Self)
        ensures
            r.deep_view() == self.deep_view(),
    {
        self.duplicate()
    }
}

/// What is copied from a server.
#[derive(Debug, PartialEq, Eq)]
pub struct DownloadPlan {
    pub host: String,
    pub user: String,
    pub credential: SshCredential,
    pub host_fingerprint: Option<String>,
    pub workspace: String,
    pub remote_path: String,
    pub local_path: String,
}

/// The mathematical content of a [`DownloadPlan`].
pub struct DownloadPlanModel {
    pub host: Seq<char>,
    pub user: Seq<char>,
    pub credential: SshCredentialModel,
    pub host_fingerprint: Option<Seq<char>>,
    pub workspace: Seq<char>,
    pub remote_path: Seq<char>,
    pub local_path: Seq<char>,
}

impl DeepView for DownloadPlan {
    type V = DownloadPlanModel;

    open spec fn deep_view(&self) -> DownloadPlanModel {
        DownloadPlanModel {
            host: self.host.deep_view(),
            user: self.user.deep_view(),
            credential: self.credential.deep_view(),
            host_fingerprint: self.host_fingerprint.deep_view(),
            workspace: self.workspace.deep_view(),
            remote_path: self.remote_path.deep_view(),
            local_path: self.local_path.deep_view(),
        }
    }
}

impl Modeled for DownloadPlan {
    fn duplicate(&self) -> (r: Self) {
        DownloadPlan {
            host: self.host.duplicate(),
            user: self.user.duplicate(),
            credential: self.credential.duplicate(),
            host_fingerprint: self.host_fingerprint.duplicate(),
            workspace: self.workspace.duplicate(),
            remote_path: self.remote_path.duplicate(),
            local_path: self.local_path.duplicate(),
        }
    }

    fn same(&self, other: &Self) -> (r: bool) {
        self.host.same(&other.host)
            && self.user.same(&other.user)
            && self.credential.same(&other.credential)
            && self.host_fingerprint.same(&other.host_fingerprint)
            && self.workspace.same(&other.workspace)
            && self.remote_path.same(&other.remote_path)
            && self.local_path.same(&other.local_path)
    }
}

impl Clone for DownloadPlan {
    fn clone(&self) -> (r: Self)
        ensures
            r.deep_view() == self.deep_view(),
    {
        self.duplicate()
    }
}


// ---------------------------------------------------------------------------------------------
// Single arguments

/// The result of reading arguments.
pub type Read<T> = Result<T, Seq<char>>;

/// An argument that must be there.
pub open spec fn required(arg: CArgModel, field: Seq<char>) -> Read<Seq<char>> {
    match arg {
        CArgModel::Null => Err(field + " pointer was null"@),
        CArgModel::NotUtf8 { error } => Err(field + (" was not valid UTF-8: "@ + error)),
        CArgModel::Text(text) => Ok(text),
    }
}

/// An argument that may be left out. Left out, it is empty.
pub open spec fn optional(arg: CArgModel, field: Seq<char>) -> Read<Seq<char>> {
    match arg {
        CArgModel::Null => Ok(Seq::empty()),
        _ => required(arg, field),
    }
}

/// An argument that may be left out or blank. Then it is nothing.
pub open spec fn if_given(arg: CArgModel, field: Seq<char>) -> Read<Option<Seq<char>>> {
    match optional(arg, field) {
        Err(problem) => Err(problem),
        Ok(text) => if trim_text(text).len() == 0 {
            Ok(None)
        } else {
            Ok(Some(text))
        },
    }
}

/// The wire protocol of a provider.
pub open spec fn wire_api_argument(arg: CArgModel) -> Read<WireApi> {
    match arg {
        CArgModel::Null => Ok(WireApi::Responses),
        _ => match required(arg, "wire_api"@) {
            Err(problem) => Err(problem),
            Ok(text) => wire_api_setting(text),
        },
    }
}

/// The tmux mode of a server.
pub open spec fn tmux_argument(arg: CArgModel) -> Read<SshTmuxMode> {
    match arg {
        CArgModel::Null => Ok(SshTmuxMode::Required),
        _ => match required(arg, "ssh_tmux_mode"@) {
            Err(problem) => Err(problem),
            Ok(text) => tmux_setting(text),
        },
    }
}

/// The uploads of a turn.
pub open spec fn uploads_argument(arg: CArgModel) -> Read<Seq<ServerFileUploadModel>> {
    match arg {
        CArgModel::Null => Ok(Seq::empty()),
        _ => match required(arg, "uploads_json"@) {
            Err(problem) => Err(problem),
            Ok(text) => manifest_text_uploads(text),
        },
    }
}

/// Reads an argument that must be there.
pub fn c_str_to_string(arg: &CArg, field: &str) -> (r: Result<String, String>)
    ensures
        outcome(r) == required(arg.deep_view(), field@),
{
    match arg {
        CArg::Null => Err(glue(field, " pointer was null")),
        CArg::NotUtf8 { error } => Err(
            glue(field, glue(" was not valid UTF-8: ", error.as_str()).as_str()),
        ),
        CArg::Text(text) => Ok(text.clone()),
    }
}

fn read_optional(arg: &CArg, field: &str) -> (r: Result<String, String>)
    ensures
        outcome(r) == optional(arg.deep_view(), field@),
{
    match arg {
        CArg::Null => {
            let empty = String::new();
            assert(empty@ =~= Seq::empty());
            Ok(empty)
        },
        _ => c_str_to_string(arg, field),
    }
}

fn read_if_given(arg: &CArg, field: &str) -> (r: Result<Option<String>, String>)
    ensures
        outcome(r) == if_given(arg.deep_view(), field@),
{
    match read_optional(arg, field) {
        Err(problem) => Err(problem),
        Ok(text) => if is_blank(text.as_str()) {
            Ok(None)
        } else {
            Ok(Some(text))
        },
    }
}

fn read_wire_api(arg: &CArg) -> (r: Result<WireApi, String>)
    ensures
        outcome(r) == wire_api_argument(arg.deep_view()),
{
    match arg {
        CArg::Null => Ok(WireApi::Responses),
        _ => match c_str_to_string(arg, "wire_api") {
            Err(problem) => Err(problem),
            Ok(text) => parse_wire_api(text.as_str()),
        },
    }
}

fn read_tmux_mode(arg: &CArg) -> (r: Result<SshTmuxMode, String>)
    ensures
        outcome(r) == tmux_argument(arg.deep_view()),
{
    match arg {
        CArg::Null => Ok(SshTmuxMode::Required),
        _ => match c_str_to_string(arg, "ssh_tmux_mode") {
            Err(problem) => Err(problem),
            Ok(text) => parse_tmux_mode(text.as_str()),
        },
    }
}

fn read_uploads(arg: &CArg) -> (r: Result<Vec<ServerFileUpload>, String>)
    ensures
        outcome(r) == uploads_argument(arg.deep_view()),
{
    match arg {
        CArg::Null => {
            let none: Vec<ServerFileUpload> = Vec::new();
            proof {
                lemma_empty_content(none);
            }
            Ok(none)
        },
        _ => match c_str_to_string(arg, "uploads_json") {
            Err(problem) => Err(problem),
            Ok(text) => parse_server_file_uploads(text.as_str()),
        },
    }
}

// ---------------------------------------------------------------------------------------------
// Providers and servers

/// The provider that the arguments select, or the first problem.
pub open spec fn provider_of(args: ProviderArgumentsModel) -> Read<ProviderAuthConfigModel> {
    match args {
        ProviderArgumentsModel::ChatgptOAuth {
            access_token,
            id_token,
            account_id,
        } => match required(access_token, "access_token"@) {
            Err(problem) => Err(problem),
            Ok(access_token) => match required(id_token, "id_token"@) {
                Err(problem) => Err(problem),
                Ok(id_token) => match required(account_id, "account_id"@) {
                    Err(problem) => Err(problem),
                    Ok(account_id) => Ok(
                        ProviderAuthConfigModel::ChatgptOAuth {
                            access_token,
                            id_token,
                            account_id,
                        },
                    ),
                },
            },
        },
        ProviderArgumentsModel::ApiKey {
            base_url,
            api_key,
            wire_api,
        } => match required(base_url, "base_url"@) {
            Err(problem) => Err(problem),
            Ok(base_url) => match required(api_key, "api_key"@) {
                Err(problem) => Err(problem),
                Ok(api_key) => match wire_api_argument(wire_api) {
                    Err(problem) => Err(problem),
                    Ok(wire_api) => Ok(
                        ProviderAuthConfigModel::ApiKey { base_url, api_key, wire_api },
                    ),
                },
            },
        },
    }
}

/// The address of a server account.
pub open spec fn server_address(user: Seq<char>, host: Seq<char>, port: u16) -> Seq<char> {
    user + "@"@ + host + (":"@ + decimal_text(port as nat))
}

/// A given text, or the one that stands in for it.
pub open spec fn or_else(given: Option<Seq<char>>, fallback: Seq<char>) -> Seq<char> {
    match given {
        Some(text) => text,
        None => fallback,
    }
}

/// The server that the arguments select, or the first problem.
pub open spec fn server_of(
    args: ServerArgumentsModel,
    workspace: Seq<char>,
) -> Read<ServerPlanModel> {
    match required(args.host, "ssh_host"@) {
        Err(problem) => Err(problem),
        Ok(host) => match required(args.user, "ssh_user"@) {
            Err(problem) => Err(problem),
            Ok(user) => match required(args.auth_method, "ssh_auth_method"@) {
                Err(problem) => Err(problem),
                Ok(method) => match required(args.secret, "ssh_secret"@) {
                    Err(problem) => Err(problem),
                    Ok(secret) => match if_given(args.connection_key, "ssh_connection_key"@) {
                        Err(problem) => Err(problem),
                        Ok(connection_key) => match if_given(args.session_key, "ssh_session_key"@) {
                            Err(problem) => Err(problem),
                            Ok(
                                session_key,
                            ) => match if_given(args.fingerprint, "ssh_fingerprint"@) {
                                Err(problem) => Err(problem),
                                Ok(host_fingerprint) => match tmux_argument(args.tmux_mode) {
                                    Err(problem) => Err(problem),
                                    Ok(tmux_mode) => match credential_setting(method, secret) {
                                        Err(problem) => Err(problem),
                                        Ok(credential) => Ok(
                                            ServerPlanModel {
                                                connection_key: or_else(
                                                    connection_key,
                                                    server_address(user, host, args.port),
                                                ),
                                                session_key: or_else(
                                                    session_key,
                                                    server_address(user, host, args.port) + (":"@
                                                        + workspace),
                                                ),
                                                host,
                                                port: args.port,
                                                user,
                                                credential,
                                                host_fingerprint,
                                                tmux_mode,
                                            },
                                        ),
                                    },
                                },
                            },
                        },
                    },
                },
            },
        },
    }
}

/// Reads the arguments that select a provider.
pub fn read_provider(args: &ProviderArguments) -> (r: Result<ProviderAuthConfig, String>)
    ensures
        outcome(r) == provider_of(args.deep_view()),
{
    match args {
        ProviderArguments::ChatgptOAuth { access_token, id_token, account_id } => {
            let access_token = c_str_to_string(access_token, "access_token")?;
            let id_token = c_str_to_string(id_token, "id_token")?;
            let account_id = c_str_to_string(account_id, "account_id")?;
            Ok(ProviderAuthConfig::ChatgptOAuth { access_token, id_token, account_id })
        },
        ProviderArguments::ApiKey { base_url, api_key, wire_api } => {
            let base_url = c_str_to_string(base_url, "base_url")?;
            let api_key = c_str_to_string(api_key, "api_key")?;
            let wire_api = read_wire_api(wire_api)?;
            Ok(ProviderAuthConfig::ApiKey { base_url, api_key, wire_api })
        },
    }
}

fn address(user: &str, host: &str, port: u16) -> (r: String)
    ensures
        r@ == server_address(user@, host@, port),
{
    glue3(user, "@", glue3(host, ":", decimal(port as u64).as_str()).as_str())
}

/// Reads the arguments that select a server.
pub fn read_server(args: &ServerArguments, workspace: &str) -> (r: Result<ServerPlan, String>)
    ensures
        outcome(r) == server_of(args.deep_view(), workspace@),
{
    let host = c_str_to_string(&args.host, "ssh_host")?;
    let user = c_str_to_string(&args.user, "ssh_user")?;
    let method = c_str_to_string(&args.auth_method, "ssh_auth_method")?;
    let secret = c_str_to_string(&args.secret, "ssh_secret")?;
    let connection_key = read_if_given(&args.connection_key, "ssh_connection_key")?;
    let session_key = read_if_given(&args.session_key, "ssh_session_key")?;
    let host_fingerprint = read_if_given(&args.fingerprint, "ssh_fingerprint")?;
    let tmux_mode = read_tmux_mode(&args.tmux_mode)?;
    let credential = parse_ssh_authentication(method.as_str(), secret)?;
    let default_key = address(user.as_str(), host.as_str(), args.port);
    let default_session = glue3(default_key.as_str(), ":", workspace);
    proof {
        let key = server_address(user@, host@, args.port);
        assert(default_session@ =~= key + (":"@ + workspace@));
    }
    Ok(
        ServerPlan {
            connection_key: match connection_key {
                Some(key) => key,
                None => default_key,
            },
            session_key: match session_key {
                Some(key) => key,
                None => default_session,
            },
            host,
            port: args.port,
            user,
            credential,
            host_fingerprint,
            tmux_mode,
        },
    )
}

/// A server with its private key put into the file at `key_path`. A password needs no file.
pub open spec fn server_mode_of(plan: ServerPlanModel, key_path: Seq<char>) -> ServerModeModel {
    ServerModeModel {
        connection_key: plan.connection_key,
        session_key: plan.session_key,
        host: plan.host,
        port: plan.port,
        user: plan.user,
        authentication: match plan.credential {
            SshCredentialModel::Password(password) => SshAuthenticationModel::Password(password),
            SshCredentialModel::PrivateKey(_) => SshAuthenticationModel::PrivateKeyPath(key_path),
        },
        host_fingerprint: plan.host_fingerprint,
        tmux_mode: plan.tmux_mode,
    }
}

/// A server with its private key put into the file at `key_path`.
pub fn server_mode(plan: ServerPlan, key_path: String) -> (r: ServerMode)
    ensures
        r.deep_view() == server_mode_of(plan.deep_view(), key_path@),
{
    ServerMode {
        connection_key: plan.connection_key,
        session_key: plan.session_key,
        host: plan.host,
        port: plan.port,
        user: plan.user,
        authentication: match plan.credential {
            SshCredential::Password(password) => SshAuthentication::Password(password),
            SshCredential::PrivateKey(_) => SshAuthentication::PrivateKeyPath(key_path),
        },
        host_fingerprint: plan.host_fingerprint,
        tmux_mode: plan.tmux_mode,
    }
}

// ---------------------------------------------------------------------------------------------
// Turns

/// What a turn is to do, or the first problem with its arguments.
pub open spec fn turn_plan(args: TurnArgumentsModel) -> Read<TurnPlanModel> {
    let provider = provider_of(args.provider);
    let model = required(args.model, "model"@);
    let reasoning_effort = optional(args.reasoning_effort, "reasoning_effort"@);
    let service_tier = optional(args.service_tier, "service_tier"@);
    let prompt = required(args.prompt, "prompt"@);
    let history_json = optional(args.history_json, "history_json"@);
    let context_home = required(args.context_home, "context_home_path"@);
    let workspace = optional(args.workspace, "workspace_path"@);
    let dynamic_tools_json = optional(args.dynamic_tools_json, "dynamic_tools_json"@);
    let uploads = uploads_argument(args.uploads_json);
    let server = server_argument(args.server, workspace->Ok_0);
    if provider is Err {
        Err(provider->Err_0)
    } else if model is Err {
        Err(model->Err_0)
    } else if reasoning_effort is Err {
        Err(reasoning_effort->Err_0)
    } else if service_tier is Err {
        Err(service_tier->Err_0)
    } else if prompt is Err {
        Err(prompt->Err_0)
    } else if history_json is Err {
        Err(history_json->Err_0)
    } else if context_home is Err {
        Err(context_home->Err_0)
    } else if workspace is Err {
        Err(workspace->Err_0)
    } else if dynamic_tools_json is Err {
        Err(dynamic_tools_json->Err_0)
    } else if uploads is Err {
        Err(uploads->Err_0)
    } else if server is Err {
        Err(server->Err_0)
    } else {
        Ok(
            TurnPlanModel {
                provider: provider->Ok_0,
                model: model->Ok_0,
                reasoning_effort: reasoning_effort->Ok_0,
                service_tier: service_tier->Ok_0,
                prompt: prompt->Ok_0,
                history_json: history_json->Ok_0,
                context_home: context_home->Ok_0,
                workspace: workspace->Ok_0,
                dynamic_tools_json: dynamic_tools_json->Ok_0,
                uploads: uploads->Ok_0,
                server: server->Ok_0,
            },
        )
    }
}

/// The server of a turn, where it has one.
pub open spec fn server_argument(args: Option<ServerArgumentsModel>, workspace: Seq<char>) -> Read<
    Option<ServerPlanModel>,
> {
    match args {
        None => Ok(None),
        Some(args) => match server_of(args, workspace) {
            Err(problem) => Err(problem),
            Ok(server) => Ok(Some(server)),
        },
    }
}

/// Reads the arguments of a turn. The first argument that cannot be used is named.
pub fn plan_turn(args: &TurnArguments) -> (r: Result<TurnPlan, String>)
    ensures
        outcome(r) == turn_plan(args.deep_view()),
{
    let provider = read_provider(&args.provider)?;
    let model = c_str_to_string(&args.model, "model")?;
    let reasoning_effort = read_optional(&args.reasoning_effort, "reasoning_effort")?;
    let service_tier = read_optional(&args.service_tier, "service_tier")?;
    let prompt = c_str_to_string(&args.prompt, "prompt")?;
    let history_json = read_optional(&args.history_json, "history_json")?;
    let context_home = c_str_to_string(&args.context_home, "context_home_path")?;
    let workspace = read_optional(&args.workspace, "workspace_path")?;
    let dynamic_tools_json = read_optional(&args.dynamic_tools_json, "dynamic_tools_json")?;
    let uploads = read_uploads(&args.uploads_json)?;
    let server = match &args.server {
        None => None,
        Some(server) => Some(read_server(server, workspace.as_str())?),
    };
    Ok(
        TurnPlan {
            provider,
            model,
            reasoning_effort,
            service_tier,
            prompt,
            history_json,
            context_home,
            workspace,
            dynamic_tools_json,
            uploads,
            server,
        },
    )
}

// ---------------------------------------------------------------------------------------------
// Downloads

/// What is copied from a server, or the first problem with the arguments.
pub open spec fn download_plan(
    server: ServerArgumentsModel,
    workspace: CArgModel,
    remote_path: CArgModel,
    local_path: CArgModel,
) -> Read<DownloadPlanModel> {
    match required(server.host, "ssh_host"@) {
        Err(problem) => Err(problem),
        Ok(host) => match required(server.user, "ssh_user"@) {
            Err(problem) => Err(problem),
            Ok(user) => match required(server.auth_method, "ssh_auth_method"@) {
                Err(problem) => Err(problem),
                Ok(method) => match required(server.secret, "ssh_secret"@) {
                    Err(problem) => Err(problem),
                    Ok(secret) => match if_given(server.fingerprint, "ssh_fingerprint"@) {
                        Err(problem) => Err(problem),
                        Ok(host_fingerprint) => match required(workspace, "workspace_path"@) {
                            Err(problem) => Err(problem),
                            Ok(workspace) => match required(remote_path, "remote_path"@) {
                                Err(problem) => Err(problem),
                                Ok(remote_path) => match required(local_path, "local_path"@) {
                                    Err(problem) => Err(problem),
                                    Ok(local_path) => match credential_setting(method, secret) {
                                        Err(problem) => Err(problem),
                                        Ok(credential) => Ok(
                                            DownloadPlanModel {
                                                host,
                                                user,
                                                credential,
                                                host_fingerprint,
                                                workspace,
                                                remote_path,
                                                local_path,
                                            },
                                        ),
                                    },
                                },
                            },
                        },
                    },
                },
            },
        },
    }
}

/// Reads the arguments of a download. Of the server, the address and the secret are read.
pub fn plan_download(
    server: &ServerArguments,
    workspace: &CArg,
    remote_path: &CArg,
    local_path: &CArg,
) -> (r: Result<DownloadPlan, String>)
    ensures
        outcome(r) == download_plan(
            server.deep_view(),
            workspace.deep_view(),
            remote_path.deep_view(),
            local_path.deep_view(),
        ),
{
    let host = c_str_to_string(&server.host, "ssh_host")?;
    let user = c_str_to_string(&server.user, "ssh_user")?;
    let method = c_str_to_string(&server.auth_method, "ssh_auth_method")?;
    let secret = c_str_to_string(&server.secret, "ssh_secret")?;
    let host_fingerprint = read_if_given(&server.fingerprint, "ssh_fingerprint")?;
    let workspace = c_str_to_string(workspace, "workspace_path")?;
    let remote_path = c_str_to_string(remote_path, "remote_path")?;
    let local_path = c_str_to_string(local_path, "local_path")?;
    let credential = parse_ssh_authentication(method.as_str(), secret)?;
    Ok(
        DownloadPlan {
            host,
            user,
            credential,
            host_fingerprint,
            workspace,
            remote_path,
            local_path,
        },
    )
}

} // verus!
