//! How a turn is set up, and how it gives its model context up.
use vstd::prelude::*;

use crate::bridge::{
    detach_outcome, finish_host_detach_cleanup, interrupted_model_turn_cleanup_error,
    persistent_model_context_storage_error,
};
use crate::config_text::{
    api_key_provider_config, parse_service_tier, provider_config, tier_setting,
};
use crate::lists::{lemma_empty_content, outcome};
use crate::model::Modeled;
use crate::paths::{rollout_path_check, validate_relative_rollout_path};
use crate::protocol::{ResponseItem, ResponseItemModel};
use crate::registry::TurnExitDisposition;
use crate::text::{glue, glue3, is_blank, trim_text};
use crate::turn_args::{ProviderAuthConfig, ProviderAuthConfigModel, TurnPlan, TurnPlanModel};
use crate::turn_loop::{replay_key, tool_call_replay_key};

verus! {

/// The version of the pointers that are written.
pub const POINTER_VERSION: u32 = 1;

/// Steers the model toward the tools on the device. There is no shell and no patch environment,
/// so that neither can work; without this the model reaches for them first, fails, and only then
/// falls back.
pub const MOBILE_DEVELOPER_INSTRUCTIONS: &'static str =
    "You are running natively on a mobile device. There is no shell and no patch environment. \
    For ALL file operations use only the `read_file`, `write_file`, and `list_dir` tools. \
    Never use `apply_patch`, `shell`, or `exec_command` — they are unavailable here and will \
    fail. To create or modify a file, write its full contents with `write_file`.";

/// On a server the shell tools run on the remote host, so that the model should use them.
pub const SERVER_MODE_DEVELOPER_INSTRUCTIONS: &'static str =
    "You are connected to a remote server. Shell/exec tools execute commands ON THAT SERVER \
    over SSH, and file operations act on that server's filesystem. When the user asks you to \
    run a shell command, use the shell/exec tool and report the command's actual output. To \
    create or edit files on the server, prefer `apply_patch` (it edits files directly on the \
    remote host); the shell/exec tools and `apply_patch` all operate on the same remote \
    server.";

/// What commands may touch.
#[derive(Clone, Copy, Debug, PartialEq, Eq, Structural)]
pub enum SandboxMode {
    WorkspaceWrite,
    DangerFullAccess,
}

impl DeepView for SandboxMode {
    type V = SandboxMode;

    open spec fn deep_view(&self) -> SandboxMode {
        *self
    }
}

impl Modeled for SandboxMode {
    fn duplicate(&self) -> (r: Self) {
        *self
    }

    fn same(&self, other: &Self) -> (r: bool) {
        *self == *other
    }
}

/// Which tools and features the runtime offers.
#[derive(Debug, PartialEq, Eq)]
pub struct FeaturePolicy {
    pub shell_tool: bool,
    pub unified_exec: bool,
    pub multi_agent_v2: bool,
    pub collab: bool,
    pub agents_enabled: bool,
    pub update_plan_enabled: bool,
    pub request_user_input_enabled: bool,
}

/// The mathematical content of a [`FeaturePolicy`].
pub struct FeaturePolicyModel {
    pub shell_tool: bool,
    pub unified_exec: bool,
    pub multi_agent_v2: bool,
    pub collab: bool,
    pub agents_enabled: bool,
    pub update_plan_enabled: bool,
    pub request_user_input_enabled: bool,
}

impl DeepView for FeaturePolicy {
    type V = FeaturePolicyModel;

    open spec fn deep_view(&self) -> FeaturePolicyModel {
        FeaturePolicyModel {
            shell_tool: self.shell_tool,
            unified_exec: self.unified_exec,
            multi_agent_v2: self.multi_agent_v2,
            collab: self.collab,
            agents_enabled: self.agents_enabled,
            update_plan_enabled: self.update_plan_enabled,
            request_user_input_enabled: self.request_user_input_enabled,
        }
    }
}

impl Modeled for FeaturePolicy {
    fn duplicate(&self) -> (r: Self) {
        FeaturePolicy {
            shell_tool: self.shell_tool,
            unified_exec: self.unified_exec,
            multi_agent_v2: self.multi_agent_v2,
            collab: self.collab,
            agents_enabled: self.agents_enabled,
            update_plan_enabled: self.update_plan_enabled,
            request_user_input_enabled: self.request_user_input_enabled,
        }
    }

    fn same(&self, other: &Self) -> (r: bool) {
        self.shell_tool == other.shell_tool
            && self.unified_exec == other.unified_exec
            && self.multi_agent_v2 == other.multi_agent_v2
            && self.collab == other.collab
            && self.agents_enabled == other.agents_enabled
            && self.update_plan_enabled == other.update_plan_enabled
            && self.request_user_input_enabled == other.request_user_input_enabled
    }
}

impl Clone for FeaturePolicy {
    fn clone(&self) -> (r: Self)
        ensures
            r.deep_view() == self.deep_view(),
    {
        self.duplicate()
    }
}

/// How the runtime is set up for a turn.
#[derive(Debug, PartialEq, Eq)]
pub struct TurnSetup {
    /// The model context lives in a temporary home.
    pub temporary_home: bool,
    /// The model that is asked for. None leaves it to the account's catalog.
    pub model_override: Option<String>,
    /// The directory in which the turn is rooted.
    pub cwd: Option<String>,
    pub sandbox_mode: SandboxMode,
    pub service_tier: Option<String>,
    /// The provider that the configuration selects.
    pub model_provider: Option<String>,
    /// The configuration to write. None takes an older one away.
    pub config_toml: Option<String>,
    pub features: FeaturePolicy,
}

/// The mathematical content of a [`TurnSetup`].
pub struct TurnSetupModel {
    pub temporary_home: bool,
    pub model_override: Option<Seq<char>>,
    pub cwd: Option<Seq<char>>,
    pub sandbox_mode: SandboxMode,
    pub service_tier: Option<Seq<char>>,
    pub model_provider: Option<Seq<char>>,
    pub config_toml: Option<Seq<char>>,
    pub features: FeaturePolicyModel,
}

impl DeepView for TurnSetup {
    type V = TurnSetupModel;

    open spec fn deep_view(&self) -> TurnSetupModel {
        TurnSetupModel {
            temporary_home: self.temporary_home,
            model_override: self.model_override.deep_view(),
            cwd: self.cwd.deep_view(),
            sandbox_mode: self.sandbox_mode,
            service_tier: self.service_tier.deep_view(),
            model_provider: self.model_provider.deep_view(),
            config_toml: self.config_toml.deep_view(),
            features: self.features.deep_view(),
        }
    }
}

impl Modeled for TurnSetup {
    fn duplicate(&self) -> (r: Self) {
        TurnSetup {
            temporary_home: self.temporary_home,
            model_override: self.model_override.duplicate(),
            cwd: self.cwd.duplicate(),
            sandbox_mode: self.sandbox_mode,
            service_tier: self.service_tier.duplicate(),
            model_provider: self.model_provider.duplicate(),
            config_toml: self.config_toml.duplicate(),
            features: self.features.duplicate(),
        }
    }

    fn same(&self, other: &Self) -> (r: bool) {
        self.temporary_home == other.temporary_home
            && self.model_override.same(&other.model_override)
            && self.cwd.same(&other.cwd)
            && self.sandbox_mode == other.sandbox_mode
            && self.service_tier.same(&other.service_tier)
            && self.model_provider.same(&other.model_provider)
            && self.config_toml.same(&other.config_toml)
            && self.features.same(&other.features)
    }
}

impl Clone for TurnSetup {
    fn clone(&self) -> (r: Self)
        ensures
            r.deep_view() == self.deep_view(),
    {
        self.duplicate()
    }
}

/// Which thread continues a conversation, and where its rollout lies within the context home.
#[derive(Debug, PartialEq, Eq)]
pub struct PersistedThreadPointer {
    pub version: u32,
    pub thread_id: String,
    pub rollout_path: String,
}

/// The mathematical content of a [`PersistedThreadPointer`].
pub struct PersistedThreadPointerModel {
    pub version: u32,
    pub thread_id: Seq<char>,
    pub rollout_path: Seq<char>,
}

impl DeepView for PersistedThreadPointer {
    type V = PersistedThreadPointerModel;

    open spec fn deep_view(&self) -> PersistedThreadPointerModel {
        PersistedThreadPointerModel {
            version: self.version,
            thread_id: self.thread_id.deep_view(),
            rollout_path: self.rollout_path.deep_view(),
        }
    }
}

impl Modeled for PersistedThreadPointer {
    fn duplicate(&self) -> (r: Self) {
        PersistedThreadPointer {
            version: self.version,
            thread_id: self.thread_id.duplicate(),
            rollout_path: self.rollout_path.duplicate(),
        }
    }

    fn same(&self, other: &Self) -> (r: bool) {
        self.version == other.version
            && self.thread_id.same(&other.thread_id)
            && self.rollout_path.same(&other.rollout_path)
    }
}

impl Clone for PersistedThreadPointer {
    fn clone(&self) -> (r: Self)
        ensures
            r.deep_view() == self.deep_view(),
    {
        self.duplicate()
    }
}

/// What the decoder made of a stored pointer.
#[derive(Debug, PartialEq, Eq)]
pub enum DecodedPointer {
    /// There is none.
    Missing,
    /// It could not be read.
    Unreadable { path: String, error: String },
    /// It could not be decoded.
    Malformed { error: String },
    Pointer(PersistedThreadPointer),
}

/// The mathematical content of a [`DecodedPointer`].
pub enum DecodedPointerModel {
    Missing,
    Unreadable { path: Seq<char>, error: Seq<char> },
    Malformed { error: Seq<char> },
    Pointer(PersistedThreadPointerModel),
}

impl DeepView for DecodedPointer {
    type V = DecodedPointerModel;

    open spec fn deep_view(&self) -> DecodedPointerModel {
        match self {
            DecodedPointer::Missing => DecodedPointerModel::Missing,
            DecodedPointer::Unreadable { path, error } => DecodedPointerModel::Unreadable {
                path: path.deep_view(),
                error: error.deep_view(),
            },
            DecodedPointer::Malformed { error } => DecodedPointerModel::Malformed {
                error: error.deep_view(),
            },
            DecodedPointer::Pointer(x) => DecodedPointerModel::Pointer(x.deep_view()),
        }
    }
}

impl Modeled for DecodedPointer {
    fn duplicate(&self) -> (r: Self) {
        match self {
            DecodedPointer::Missing => DecodedPointer::Missing,
            DecodedPointer::Unreadable { path, error } => DecodedPointer::Unreadable {
                path: path.duplicate(),
                error: error.duplicate(),
            },
            DecodedPointer::Malformed { error } => DecodedPointer::Malformed {
                error: error.duplicate(),
            },
            DecodedPointer::Pointer(x) => DecodedPointer::Pointer(x.duplicate()),
        }
    }

    fn same(&self, other: &Self) -> (r: bool) {
        match (self, other) {
            (DecodedPointer::Missing, DecodedPointer::Missing) => true,
            (
                DecodedPointer::Unreadable { path, error },
                DecodedPointer::Unreadable { path: path_other, error: error_other },
            ) => path.same(path_other) && error.same(error_other),
            (
                DecodedPointer::Malformed { error },
                DecodedPointer::Malformed { error: error_other },
            ) => error.same(error_other),
            (DecodedPointer::Pointer(x), DecodedPointer::Pointer(x_other)) => x.same(x_other),
            _ => false,
        }
    }
}

impl Clone for DecodedPointer {
    fn clone(&self) -> (r: Self)
        ensures
            r.deep_view() == self.deep_view(),
    {
        self.duplicate()
    }
}

/// What the decoder made of a history.
#[derive(Debug, PartialEq, Eq)]
pub enum DecodedHistory {
    Items(Vec<ResponseItem>),
    Failed(String),
}

/// The mathematical content of a [`DecodedHistory`].
pub enum DecodedHistoryModel {
    Items(Seq<ResponseItemModel>),
    Failed(Seq<char>),
}

impl DeepView for DecodedHistory {
    type V = DecodedHistoryModel;

    open spec fn deep_view(&self) -> DecodedHistoryModel {
        match self {
            DecodedHistory::Items(x) => DecodedHistoryModel::Items(x.deep_view()),
            DecodedHistory::Failed(x) => DecodedHistoryModel::Failed(x.deep_view()),
        }
    }
}

impl Modeled for DecodedHistory {
    fn duplicate(&self) -> (r: Self) {
        match self {
            DecodedHistory::Items(x) => DecodedHistory::Items(x.duplicate()),
            DecodedHistory::Failed(x) => DecodedHistory::Failed(x.duplicate()),
        }
    }

    fn same(&self, other: &Self) -> (r: bool) {
        match (self, other) {
            (DecodedHistory::Items(x), DecodedHistory::Items(x_other)) => x.same(x_other),
            (DecodedHistory::Failed(x), DecodedHistory::Failed(x_other)) => x.same(x_other),
            _ => false,
        }
    }
}

impl Clone for DecodedHistory {
    fn clone(&self) -> (r: Self)
        ensures
            r.deep_view() == self.deep_view(),
    {
        self.duplicate()
    }
}


// ---------------------------------------------------------------------------------------------
// Setup

/// What the runtime offers: shell tools on a server only, no agents of its own, and nothing that
/// the host cannot answer.
pub open spec fn feature_policy(on_server: bool) -> FeaturePolicyModel {
    FeaturePolicyModel {
        shell_tool: on_server,
        unified_exec: on_server,
        multi_agent_v2: false,
        collab: false,
        agents_enabled: false,
        update_plan_enabled: false,
        request_user_input_enabled: false,
    }
}

/// A policy without the runtime's own agents.
pub open spec fn without_agents(policy: FeaturePolicyModel) -> FeaturePolicyModel {
    FeaturePolicyModel { agents_enabled: false, multi_agent_v2: false, collab: false, ..policy }
}

/// Switches the runtime's own agents off. The host owns the visible graph of agents and offers its
/// own tools for it. Switching the features off is not enough: without the explicit override a
/// model's advertised default could still select them.
pub fn disable_upstream_multi_agent(policy: &mut FeaturePolicy)
    ensures
        final(policy).deep_view() == without_agents(old(policy).deep_view()),
{
    policy.agents_enabled = false;
    policy.multi_agent_v2 = false;
    policy.collab = false;
}

/// How the runtime is set up for a turn.
pub open spec fn setup_of(plan: TurnPlanModel) -> TurnSetupModel {
    TurnSetupModel {
        temporary_home: trim_text(plan.context_home).len() == 0,
        model_override: if trim_text(plan.model).len() == 0 {
            None
        } else {
            Some(plan.model)
        },
        cwd: if plan.workspace.len() == 0 {
            None
        } else {
            Some(plan.workspace)
        },
        sandbox_mode: if plan.server is Some {
            SandboxMode::DangerFullAccess
        } else {
            SandboxMode::WorkspaceWrite
        },
        service_tier: tier_setting(plan.service_tier),
        model_provider: match plan.provider {
            ProviderAuthConfigModel::ChatgptOAuth { .. } => None,
            ProviderAuthConfigModel::ApiKey { .. } => Some("ios-apikey"@),
        },
        config_toml: match plan.provider {
            ProviderAuthConfigModel::ChatgptOAuth { .. } => None,
            ProviderAuthConfigModel::ApiKey { base_url, wire_api, .. } => Some(
                provider_config(base_url, wire_api),
            ),
        },
        features: feature_policy(plan.server is Some),
    }
}

/// How the runtime is set up for a turn. On a server commands run over SSH, where a local sandbox
/// means nothing and would only block them: the remote host is the boundary.
pub fn turn_setup(plan: &TurnPlan) -> (r: TurnSetup)
    ensures
        r.deep_view() == setup_of(plan.deep_view()),
{
    let on_server = plan.server.is_some();
    let mut features = FeaturePolicy {
        shell_tool: on_server,
        unified_exec: on_server,
        multi_agent_v2: true,
        collab: true,
        agents_enabled: true,
        update_plan_enabled: false,
        request_user_input_enabled: false,
    };
    disable_upstream_multi_agent(&mut features);
    let (model_provider, config_toml) = match &plan.provider {
        ProviderAuthConfig::ChatgptOAuth { .. } => (None, None),
        ProviderAuthConfig::ApiKey { base_url, wire_api, .. } => (
            Some("ios-apikey".to_string()),
            Some(api_key_provider_config(base_url.as_str(), *wire_api)),
        ),
    };
    TurnSetup {
        temporary_home: is_blank(plan.context_home.as_str()),
        model_override: if is_blank(plan.model.as_str()) {
            None
        } else {
            Some(plan.model.clone())
        },
        cwd: if plan.workspace.as_str().is_empty() {
            None
        } else {
            Some(plan.workspace.clone())
        },
        sandbox_mode: if on_server {
            SandboxMode::DangerFullAccess
        } else {
            SandboxMode::WorkspaceWrite
        },
        service_tier: parse_service_tier(plan.service_tier.as_str()),
        model_provider,
        config_toml,
        features,
    }
}

/// What the model is told of where it runs.
pub fn developer_instructions(on_server: bool) -> (r: &'static str)
    ensures
        r@ == if on_server {
            SERVER_MODE_DEVELOPER_INSTRUCTIONS@
        } else {
            MOBILE_DEVELOPER_INSTRUCTIONS@
        },
{
    if on_server {
        SERVER_MODE_DEVELOPER_INSTRUCTIONS
    } else {
        MOBILE_DEVELOPER_INSTRUCTIONS
    }
}

/// The model of a turn: the one that is asked for, or else the one that the session came up with.
pub fn turn_model(model: &String, session_model: &String) -> (r: String)
    ensures
        r@ == if trim_text(model@).len() == 0 {
            session_model@
        } else {
            model@
        },
{
    if is_blank(model.as_str()) {
        session_model.clone()
    } else {
        model.clone()
    }
}

// ---------------------------------------------------------------------------------------------
// History

/// The history that a new thread is seeded with. A resumed thread has its own.
pub open spec fn prior_items(resumed: bool, history_json: Seq<char>, decoded: DecodedHistoryModel)
    -> Result<Seq<ResponseItemModel>, Seq<char>> {
    if resumed || trim_text(history_json).len() == 0 {
        Ok(Seq::empty())
    } else {
        match decoded {
            DecodedHistoryModel::Items(items) => Ok(items),
            DecodedHistoryModel::Failed(error) => Err("failed to parse history json: "@ + error),
        }
    }
}

/// The history that a new thread is seeded with. Hosts that keep their own rollout pass none.
pub fn prior_history(resumed: bool, history_json: &str, decoded: DecodedHistory) -> (r: Result<
    Vec<ResponseItem>,
    String,
>)
    ensures
        outcome(r) == prior_items(resumed, history_json@, decoded.deep_view()),
{
    if resumed || is_blank(history_json) {
        let none: Vec<ResponseItem> = Vec::new();
        proof {
            lemma_empty_content(none);
        }
        return Ok(none);
    }
    match decoded {
        DecodedHistory::Items(items) => Ok(items),
        DecodedHistory::Failed(error) => Err(
            glue("failed to parse history json: ", error.as_str()),
        ),
    }
}

/// The keys of the tool calls of some items, each once.
pub open spec fn replay_keys_of(items: Seq<ResponseItemModel>) -> Seq<Seq<char>>
    decreases items.len(),
{
    if items.len() == 0 {
        Seq::empty()
    } else {
        let before = replay_keys_of(items.drop_last());
        match replay_key(items.last()) {
            Some(key) => if before.contains(key) {
                before
            } else {
                before.push(key)
            },
            None => before,
        }
    }
}

/// The keys of the tool calls of a seeded history, each once. The runtime will report them again.
pub fn replay_keys(items: &Vec<ResponseItem>) -> (r: Vec<String>)
    ensures
        r.deep_view() == replay_keys_of(items.deep_view()),
{
    let ghost model = items.deep_view();
    let mut keys: Vec<String> = Vec::new();
    let mut i: usize = 0;
    proof {
        lemma_empty_content(keys);
        assert(model.take(0) =~= Seq::empty());
    }
    while i < items.len()
        invariant
            i <= items@.len(),
            model == items.deep_view(),
            model.len() == items@.len(),
            keys.deep_view() == replay_keys_of(model.take(i as int)),
        decreases items.len() - i,
    {
        proof {
            assert(model[i as int] == items@[i as int].deep_view());
            assert(model.take(i + 1).drop_last() =~= model.take(i as int));
            assert(model.take(i + 1).last() == model[i as int]);
        }
        if let Some(key) = tool_call_replay_key(&items[i]) {
            if !holds_key(&keys, &key) {
                let ghost before = keys.deep_view();
                keys.push(key);
                assert(keys.deep_view() =~= before.push(key@));
            }
        }
        i = i + 1;
    }
    assert(model.take(model.len() as int) =~= model);
    keys
}

fn holds_key(keys: &Vec<String>, key: &String) -> (r: bool)
    ensures
        r == keys.deep_view().contains(key@),
{
    let ghost model = keys.deep_view();
    let mut i: usize = 0;
    while i < keys.len()
        invariant
            i <= keys@.len(),
            model == keys.deep_view(),
            model.len() == keys@.len(),
            forall|k: int| 0 <= k < i ==> #[trigger] model[k] != key@,
        decreases keys.len() - i,
    {
        assert(model[i as int] == keys@[i as int]@);
        if keys[i] == *key {
            assert(keys.deep_view()[i as int] == key@);
            return true;
        }
        i = i + 1;
    }
    false
}

/// No tool call of a seeded history is passed over twice.
pub proof fn law_replay_keys_are_distinct(items: Seq<ResponseItemModel>)
    ensures
        replay_keys_of(items).no_duplicates(),
    decreases items.len(),
{
    if items.len() > 0 {
        law_replay_keys_are_distinct(items.drop_last());
    }
}

// ---------------------------------------------------------------------------------------------
// The lock of a context home

/// What became of an attempt to take the lock of a context home.
pub enum LockAttempt {
    Acquired,
    /// Somebody else holds it.
    Busy,
    Failed { error: String },
}

/// What is to be done after an attempt to take the lock of a context home.
pub enum LockStep {
    Proceed,
    Retry,
    Fail { problem: String },
}

/// Decides after an attempt to take the lock of a context home: a held lock is tried again until
/// the deadline.
pub fn lock_step(attempt: &LockAttempt, deadline_passed: bool, lock_path: &str) -> (r: LockStep)
    ensures
        match attempt {
            LockAttempt::Acquired => r is Proceed,
            LockAttempt::Failed { error } => r matches LockStep::Fail { problem } && problem@
                == "failed to acquire model-context lock: "@ + error@,
            LockAttempt::Busy => if deadline_passed {
                r matches LockStep::Fail { problem } && problem@
                    == "timed out acquiring model-context lock at "@ + lock_path@
            } else {
                r is Retry
            },
        },
{
    match attempt {
        LockAttempt::Acquired => LockStep::Proceed,
        LockAttempt::Failed { error } => LockStep::Fail {
            problem: glue("failed to acquire model-context lock: ", error.as_str()),
        },
        LockAttempt::Busy => if deadline_passed {
            LockStep::Fail {
                problem: glue("timed out acquiring model-context lock at ", lock_path),
            }
        } else {
            LockStep::Retry
        },
    }
}

// ---------------------------------------------------------------------------------------------
// The pointer to the rollout

/// The rollout that a stored pointer leads to, within the context home.
pub open spec fn pointed_rollout(decoded: DecodedPointerModel) -> Result<
    Option<Seq<char>>,
    Seq<char>,
> {
    match decoded {
        DecodedPointerModel::Missing => Ok(None),
        DecodedPointerModel::Unreadable { path, error } => Err(
            "failed to read model-context pointer "@ + path + (": "@ + error),
        ),
        DecodedPointerModel::Malformed { error } => Err(
            "invalid model-context pointer: "@ + error,
        ),
        DecodedPointerModel::Pointer(pointer) => match rollout_path_check(pointer.rollout_path) {
            Ok(_) => Ok(Some(pointer.rollout_path)),
            Err(problem) => Err(problem),
        },
    }
}

/// The rollout that a stored pointer leads to, within the context home. A pointer that leads out
/// of it is refused.
pub fn read_thread_pointer(decoded: &DecodedPointer) -> (r: Result<Option<String>, String>)
    ensures
        outcome(r) == pointed_rollout(decoded.deep_view()),
{
    match decoded {
        DecodedPointer::Missing => Ok(None),
        DecodedPointer::Unreadable { path, error } => Err(
            glue3(
                "failed to read model-context pointer ",
                path.as_str(),
                glue(": ", error.as_str()).as_str(),
            ),
        ),
        DecodedPointer::Malformed { error } => Err(
            glue("invalid model-context pointer: ", error.as_str()),
        ),
        DecodedPointer::Pointer(pointer) => match validate_relative_rollout_path(
            pointer.rollout_path.as_str(),
        ) {
            Ok(()) => Ok(Some(pointer.rollout_path.clone())),
            Err(problem) => Err(problem),
        },
    }
}

/// The pointer to a rollout. `relative` is its path within the context home, where it lies there.
pub open spec fn pointer_to(
    home: Seq<char>,
    thread_id: Seq<char>,
    rollout: Seq<char>,
    relative: Option<Seq<char>>,
) -> Result<PersistedThreadPointerModel, Seq<char>> {
    match relative {
        None => Err(
            "rollout path "@ + rollout + (" is outside model-context home "@ + home),
        ),
        Some(rollout_path) => match rollout_path_check(rollout_path) {
            Err(problem) => Err(problem),
            Ok(_) => Ok(
                PersistedThreadPointerModel { version: POINTER_VERSION, thread_id, rollout_path },
            ),
        },
    }
}

/// The pointer to a rollout. One outside the context home is refused.
pub fn write_thread_pointer(
    home: &str,
    thread_id: String,
    rollout: &str,
    relative: Option<String>,
) -> (r: Result<PersistedThreadPointer, String>)
    ensures
        outcome(r) == pointer_to(home@, thread_id@, rollout@, relative.deep_view()),
{
    match relative {
        None => Err(
            glue3(
                "rollout path ",
                rollout,
                glue(" is outside model-context home ", home).as_str(),
            ),
        ),
        Some(rollout_path) => match validate_relative_rollout_path(rollout_path.as_str()) {
            Err(problem) => Err(problem),
            Ok(()) => Ok(
                PersistedThreadPointer { version: POINTER_VERSION, thread_id, rollout_path },
            ),
        },
    }
}

/// A pointer that was written leads back to its rollout.
pub proof fn law_pointers_lead_back(
    home: Seq<char>,
    thread_id: Seq<char>,
    rollout: Seq<char>,
    relative: Option<Seq<char>>,
)
    ensures
        pointer_to(home, thread_id, rollout, relative) matches Ok(pointer) ==> pointed_rollout(
            DecodedPointerModel::Pointer(pointer),
        ) == Ok::<Option<Seq<char>>, Seq<char>>(relative),
{
}

/// What is wrong with the rollout of a thread before a pointer to it is written.
pub open spec fn rollout_check(
    rollout: Option<Seq<char>>,
    recorded_thread: Seq<char>,
    thread_id: Seq<char>,
) -> Result<Seq<char>, Seq<char>> {
    match rollout {
        None => Err("persistent model-context thread did not provide a rollout path"@),
        Some(rollout) => if recorded_thread == thread_id {
            Ok(rollout)
        } else {
            Err("persistent model-context rollout belongs to another thread"@)
        },
    }
}

/// Checks the rollout of a thread before a pointer to it is written: there must be one, and its
/// first record must name the thread.
pub fn check_rollout(rollout: Option<String>, recorded_thread: &String, thread_id: &String) -> (r:
    Result<String, String>)
    ensures
        outcome(r) == rollout_check(rollout.deep_view(), recorded_thread@, thread_id@),
{
    match rollout {
        None => Err("persistent model-context thread did not provide a rollout path".to_string()),
        Some(rollout) => {
            if *recorded_thread == *thread_id {
                Ok(rollout)
            } else {
                Err("persistent model-context rollout belongs to another thread".to_string())
            }
        },
    }
}

// ---------------------------------------------------------------------------------------------
// Cleanup

/// The text of a failed storage operation.
pub open spec fn storage_problem(operation: Seq<char>) -> Seq<char> {
    "failed to "@ + operation + " persistent model context"@
}

/// What became of giving the model context up. `detached` and `stopped` say whether flushing and
/// stopping succeeded; an interrupted turn is only stopped.
pub open spec fn cleanup_outcome(
    claim: Result<TurnExitDisposition, Seq<char>>,
    completed_turn: bool,
    detached: bool,
    stopped: bool,
) -> Result<(), Seq<char>> {
    match claim {
        Err(problem) => Err(problem),
        Ok(TurnExitDisposition::HostDetach) => detach_outcome(
            completed_turn,
            if detached {
                Ok(())
            } else {
                Err(storage_problem("flush"@))
            },
            if stopped {
                Ok(())
            } else {
                Err(storage_problem("shutdown"@))
            },
        ),
        Ok(TurnExitDisposition::UserInterrupt) => if stopped {
            Ok(())
        } else {
            Err("failed to terminate interrupted model turn"@)
        },
    }
}

/// What became of giving the model context up.
pub fn cleanup_result(
    claim: Result<TurnExitDisposition, String>,
    completed_turn: bool,
    detached: bool,
    stopped: bool,
) -> (r: Result<(), String>)
    ensures
        outcome(r) == cleanup_outcome(outcome(claim), completed_turn, detached, stopped),
{
    match claim {
        Err(problem) => Err(problem),
        Ok(TurnExitDisposition::HostDetach) => {
            let detach = if detached {
                Ok(())
            } else {
                Err(persistent_model_context_storage_error("flush", ""))
            };
            let shutdown = if stopped {
                Ok(())
            } else {
                Err(persistent_model_context_storage_error("shutdown", ""))
            };
            finish_host_detach_cleanup(completed_turn, detach, shutdown)
        },
        Ok(TurnExitDisposition::UserInterrupt) => {
            if stopped {
                Ok(())
            } else {
                Err(interrupted_model_turn_cleanup_error(""))
            }
        },
    }
}

} // verus!
