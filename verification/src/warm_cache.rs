//! Threads that are kept for the next turn of their context.
use vstd::prelude::*;

use crate::config_text::{SshAuthentication, SshAuthenticationModel, SshTmuxMode, WireApi};
use crate::lists::lemma_empty_content;
use crate::model::Modeled;
use crate::paths::{is_same_path, same_path};
use crate::turn_args::{ProviderAuthConfig, ProviderAuthConfigModel, ServerMode, ServerModeModel};

verus! {

/// The most threads that are kept.
pub const WARM_THREAD_CACHE_LIMIT: usize = 12;

/// A thread that is kept for the next turn of its context. The thread itself is found by `thread`.
#[derive(Debug, PartialEq, Eq)]
pub struct WarmThreadEntry {
    pub fingerprint: u64,
    pub thread: u64,
    pub thread_id: String,
    pub session_model: String,
    pub rollout_path: String,
    pub last_used: u64,
}

/// The mathematical content of a [`WarmThreadEntry`].
pub struct WarmThreadEntryModel {
    pub fingerprint: u64,
    pub thread: u64,
    pub thread_id: Seq<char>,
    pub session_model: Seq<char>,
    pub rollout_path: Seq<char>,
    pub last_used: u64,
}

impl DeepView for WarmThreadEntry {
    type V = WarmThreadEntryModel;

    open spec fn deep_view(&self) -> WarmThreadEntryModel {
        WarmThreadEntryModel {
            fingerprint: self.fingerprint,
            thread: self.thread,
            thread_id: self.thread_id.deep_view(),
            session_model: self.session_model.deep_view(),
            rollout_path: self.rollout_path.deep_view(),
            last_used: self.last_used,
        }
    }
}

impl Modeled for WarmThreadEntry {
    fn duplicate(&self) -> (r: Self) {
        WarmThreadEntry {
            fingerprint: self.fingerprint,
            thread: self.thread,
            thread_id: self.thread_id.duplicate(),
            session_model: self.session_model.duplicate(),
            rollout_path: self.rollout_path.duplicate(),
            last_used: self.last_used,
        }
    }

    fn same(&self, other: &Self) -> (r: bool) {
        self.fingerprint == other.fingerprint
            && self.thread == other.thread
            && self.thread_id.same(&other.thread_id)
            && self.session_model.same(&other.session_model)
            && self.rollout_path.same(&other.rollout_path)
            && self.last_used == other.last_used
    }
}

impl Clone for WarmThreadEntry {
    fn clone(&self) -> (r: Self)
        ensures
            r.deep_view() == self.deep_view(),
    {
        self.duplicate()
    }
}

/// The context home of a kept thread, and the thread.
#[derive(Debug, PartialEq, Eq)]
pub struct WarmSlot {
    pub codex_home: String,
    pub entry: WarmThreadEntry,
}

/// The mathematical content of a [`WarmSlot`].
pub struct WarmSlotModel {
    pub codex_home: Seq<char>,
    pub entry: WarmThreadEntryModel,
}

impl DeepView for WarmSlot {
    type V = WarmSlotModel;

    open spec fn deep_view(&self) -> WarmSlotModel {
        WarmSlotModel {
            codex_home: self.codex_home.deep_view(),
            entry: self.entry.deep_view(),
        }
    }
}

impl Modeled for WarmSlot {
    fn duplicate(&self) -> (r: Self) {
        WarmSlot {
            codex_home: self.codex_home.duplicate(),
            entry: self.entry.duplicate(),
        }
    }

    fn same(&self, other: &Self) -> (r: bool) {
        self.codex_home.same(&other.codex_home)
            && self.entry.same(&other.entry)
    }
}

impl Clone for WarmSlot {
    fn clone(&self) -> (r: Self)
        ensures
            r.deep_view() == self.deep_view(),
    {
        self.duplicate()
    }
}

/// One part of what distinguishes the configuration of a turn.
#[derive(Debug, PartialEq, Eq, Hash)]
pub enum FingerprintPart {
    Text(String),
    Port(u16),
    Bytes(Vec<u8>),
}

/// The mathematical content of a [`FingerprintPart`].
pub enum FingerprintPartModel {
    Text(Seq<char>),
    Port(u16),
    Bytes(Seq<u8>),
}

impl DeepView for FingerprintPart {
    type V = FingerprintPartModel;

    open spec fn deep_view(&self) -> FingerprintPartModel {
        match self {
            FingerprintPart::Text(x) => FingerprintPartModel::Text(x.deep_view()),
            FingerprintPart::Port(x) => FingerprintPartModel::Port(*x),
            FingerprintPart::Bytes(x) => FingerprintPartModel::Bytes(x.deep_view()),
        }
    }
}

impl Modeled for FingerprintPart {
    fn duplicate(&self) -> (r: Self) {
        match self {
            FingerprintPart::Text(x) => FingerprintPart::Text(x.duplicate()),
            FingerprintPart::Port(x) => FingerprintPart::Port(*x),
            FingerprintPart::Bytes(x) => FingerprintPart::Bytes(x.duplicate()),
        }
    }

    fn same(&self, other: &Self) -> (r: bool) {
        match (self, other) {
            (FingerprintPart::Text(x), FingerprintPart::Text(x_other)) => x.same(x_other),
            (FingerprintPart::Port(x), FingerprintPart::Port(x_other)) => *x == *x_other,
            (FingerprintPart::Bytes(x), FingerprintPart::Bytes(x_other)) => x.same(x_other),
            _ => false,
        }
    }
}

impl Clone for FingerprintPart {
    fn clone(&self) -> (r: Self)
        ensures
            r.deep_view() == self.deep_view(),
    {
        self.duplicate()
    }
}


// ---------------------------------------------------------------------------------------------
// Fingerprints

/// A text as a part.
pub open spec fn text_part(text: Seq<char>) -> FingerprintPartModel {
    FingerprintPartModel::Text(text)
}

/// A text that may be missing, as parts.
pub open spec fn optional_parts(text: Option<Seq<char>>) -> Seq<FingerprintPartModel> {
    match text {
        Some(text) => seq![text_part("some"@), text_part(text)],
        None => seq![text_part("none"@)],
    }
}

/// What distinguishes a provider.
pub open spec fn provider_parts(provider: ProviderAuthConfigModel) -> Seq<FingerprintPartModel> {
    match provider {
        ProviderAuthConfigModel::ChatgptOAuth { access_token, id_token, account_id } => seq![
            text_part("oauth"@),
            text_part(access_token),
            text_part(id_token),
            text_part(account_id),
        ],
        ProviderAuthConfigModel::ApiKey { base_url, api_key, wire_api } => seq![
            text_part("api_key"@),
            text_part(base_url),
            text_part(api_key),
            text_part(
                match wire_api {
                    WireApi::Responses => "responses"@,
                    WireApi::ChatCompletions => "chat_completions"@,
                },
            ),
        ],
    }
}

/// The name of a tmux mode.
pub open spec fn tmux_name(mode: SshTmuxMode) -> Seq<char> {
    match mode {
        SshTmuxMode::Required => "tmux_required"@,
        SshTmuxMode::Preferred => "tmux_preferred"@,
        SshTmuxMode::Disabled => "tmux_disabled"@,
    }
}

/// What distinguishes a credential. A private key counts by its contents, or by its path where
/// the contents could not be read.
pub open spec fn credential_parts(
    authentication: SshAuthenticationModel,
    key: Option<Seq<u8>>,
) -> Seq<FingerprintPartModel> {
    match authentication {
        SshAuthenticationModel::Password(password) => seq![
            text_part("password"@),
            text_part(password),
        ],
        SshAuthenticationModel::PrivateKeyPath(path) => match key {
            Some(bytes) => seq![text_part("private_key"@), FingerprintPartModel::Bytes(bytes)],
            None => seq![text_part("private_key"@), text_part(path)],
        },
    }
}

/// What distinguishes where the tools run.
pub open spec fn server_parts(server: Option<ServerModeModel>, key: Option<Seq<u8>>) -> Seq<
    FingerprintPartModel,
> {
    match server {
        None => seq![text_part("local"@)],
        Some(server) => seq![
            text_part("server"@),
            text_part(server.connection_key),
            text_part(server.session_key),
            text_part(server.host),
            FingerprintPartModel::Port(server.port),
            text_part(server.user),
        ] + optional_parts(server.host_fingerprint) + seq![text_part(tmux_name(server.tmux_mode))]
            + credential_parts(server.authentication, key),
    }
}

/// Everything that distinguishes the configuration of a turn.
pub open spec fn configuration_parts(
    provider: ProviderAuthConfigModel,
    settings: Seq<Seq<char>>,
    server: Option<ServerModeModel>,
    key: Option<Seq<u8>>,
) -> Seq<FingerprintPartModel> {
    provider_parts(provider) + settings.map_values(|s: Seq<char>| text_part(s)) + server_parts(
        server,
        key,
    )
}

fn push_text(parts: &mut Vec<FingerprintPart>, text: &str)
    ensures
        final(parts).deep_view() == old(parts).deep_view().push(text_part(text@)),
{
    let ghost before = parts.deep_view();
    let part = FingerprintPart::Text(text.to_owned());
    parts.push(part);
    assert(parts.deep_view() =~= before.push(part.deep_view()));
}

fn push_provider(parts: &mut Vec<FingerprintPart>, provider: &ProviderAuthConfig)
    ensures
        final(parts).deep_view() == old(parts).deep_view() + provider_parts(provider.deep_view()),
{
    let ghost before = parts.deep_view();
    match provider {
        ProviderAuthConfig::ChatgptOAuth { access_token, id_token, account_id } => {
            push_text(parts, "oauth");
            push_text(parts, access_token.as_str());
            push_text(parts, id_token.as_str());
            push_text(parts, account_id.as_str());
        },
        ProviderAuthConfig::ApiKey { base_url, api_key, wire_api } => {
            push_text(parts, "api_key");
            push_text(parts, base_url.as_str());
            push_text(parts, api_key.as_str());
            match *wire_api {
                WireApi::Responses => push_text(parts, "responses"),
                WireApi::ChatCompletions => push_text(parts, "chat_completions"),
            }
        },
    }
    assert(parts.deep_view() =~= before + provider_parts(provider.deep_view()));
}

fn push_server(
    parts: &mut Vec<FingerprintPart>,
    server: &Option<ServerMode>,
    key: &Option<Vec<u8>>,
)
    ensures
        final(parts).deep_view() == old(parts).deep_view() + server_parts(
            server.deep_view(),
            key.deep_view(),
        ),
{
    let ghost before = parts.deep_view();
    match server {
        None => {
            push_text(parts, "local");
            assert(parts.deep_view() =~= before + server_parts(
                server.deep_view(),
                key.deep_view(),
            ));
        },
        Some(server) => {
            push_text(parts, "server");
            push_text(parts, server.connection_key.as_str());
            push_text(parts, server.session_key.as_str());
            push_text(parts, server.host.as_str());
            let ghost so_far = parts.deep_view();
            let port = FingerprintPart::Port(server.port);
            parts.push(port);
            assert(parts.deep_view() =~= so_far.push(port.deep_view()));
            push_text(parts, server.user.as_str());
            let ghost head = seq![
                text_part("server"@),
                text_part(server.connection_key@),
                text_part(server.session_key@),
                text_part(server.host@),
                FingerprintPartModel::Port(server.port),
                text_part(server.user@),
            ];
            assert(parts.deep_view() =~= before + head);
            match &server.host_fingerprint {
                Some(fingerprint) => {
                    push_text(parts, "some");
                    push_text(parts, fingerprint.as_str());
                },
                None => {
                    push_text(parts, "none");
                },
            }
            let ghost pin = optional_parts(server.host_fingerprint.deep_view());
            assert(parts.deep_view() =~= before + (head + pin));
            match server.tmux_mode {
                SshTmuxMode::Required => push_text(parts, "tmux_required"),
                SshTmuxMode::Preferred => push_text(parts, "tmux_preferred"),
                SshTmuxMode::Disabled => push_text(parts, "tmux_disabled"),
            }
            let ghost mode = seq![text_part(tmux_name(server.tmux_mode))];
            assert(parts.deep_view() =~= before + (head + pin + mode));
            match &server.authentication {
                SshAuthentication::Password(password) => {
                    push_text(parts, "password");
                    push_text(parts, password.as_str());
                },
                SshAuthentication::PrivateKeyPath(path) => {
                    push_text(parts, "private_key");
                    match key {
                        Some(bytes) => {
                            let ghost so_far = parts.deep_view();
                            let part = FingerprintPart::Bytes(bytes.duplicate());
                            parts.push(part);
                            assert(parts.deep_view() =~= so_far.push(part.deep_view()));
                        },
                        None => push_text(parts, path.as_str()),
                    }
                },
            }
            proof {
                let secret = credential_parts(
                    server.authentication.deep_view(),
                    key.deep_view(),
                );
                assert(parts.deep_view() =~= before + (head + pin + mode + secret));
            }
        },
    }
}

/// Everything that distinguishes the configuration of a turn, in order. `key` holds the contents
/// of a private key, where they could be read.
pub fn warm_thread_configuration(
    provider: &ProviderAuthConfig,
    model: &str,
    reasoning_effort: &str,
    service_tier: &str,
    workspace: &str,
    dynamic_tools_json: &str,
    server: &Option<ServerMode>,
    key: &Option<Vec<u8>>,
) -> (r: Vec<FingerprintPart>)
    ensures
        r.deep_view() == configuration_parts(
            provider.deep_view(),
            seq![model@, reasoning_effort@, service_tier@, workspace@, dynamic_tools_json@],
            server.deep_view(),
            key.deep_view(),
        ),
{
    let mut parts: Vec<FingerprintPart> = Vec::new();
    proof {
        lemma_empty_content(parts);
    }
    push_provider(&mut parts, provider);
    let ghost head = provider_parts(provider.deep_view());
    assert(parts.deep_view() =~= head);
    push_text(&mut parts, model);
    push_text(&mut parts, reasoning_effort);
    push_text(&mut parts, service_tier);
    push_text(&mut parts, workspace);
    push_text(&mut parts, dynamic_tools_json);
    let ghost settings = seq![
        model@,
        reasoning_effort@,
        service_tier@,
        workspace@,
        dynamic_tools_json@,
    ];
    assert(parts.deep_view() =~= head + settings.map_values(|s: Seq<char>| text_part(s)));
    push_server(&mut parts, server, key);
    parts
}

/// Whether hashing some parts can give a number.
pub uninterp spec fn hash_outcome(parts: Seq<FingerprintPartModel>, hash: u64) -> bool;

/// `std::hash::BuildHasher::hash_one` with the default hasher of std. The number comes from
/// hashing exactly these parts; which number that is, and whether other parts give the same one,
/// is left open, since std leaves its algorithm open.
#[verifier::external_body]
pub(crate) fn hash_parts(parts: &Vec<FingerprintPart>) -> (r: u64)
    ensures
        hash_outcome(parts.deep_view(), r),
{
    std::hash::BuildHasher::hash_one(
        &std::hash::BuildHasherDefault::<std::collections::hash_map::DefaultHasher>::default(),
        parts,
    )
}

/// A number for the configuration of a turn: the hash of its parts and of nothing else.
pub fn warm_thread_fingerprint(
    provider: &ProviderAuthConfig,
    model: &str,
    reasoning_effort: &str,
    service_tier: &str,
    workspace: &str,
    dynamic_tools_json: &str,
    server: &Option<ServerMode>,
    key: &Option<Vec<u8>>,
) -> (r: u64)
    ensures
        hash_outcome(
            configuration_parts(
                provider.deep_view(),
                seq![model@, reasoning_effort@, service_tier@, workspace@, dynamic_tools_json@],
                server.deep_view(),
                key.deep_view(),
            ),
            r,
        ),
{
    let parts = warm_thread_configuration(
        provider,
        model,
        reasoning_effort,
        service_tier,
        workspace,
        dynamic_tools_json,
        server,
        key,
    );
    hash_parts(&parts)
}

/// Whether two turns run their tools in the same place under the same credential. A private key
/// may lie elsewhere, as long as its contents are the same.
pub open spec fn same_place(
    a: Option<ServerModeModel>,
    key_a: Option<Seq<u8>>,
    b: Option<ServerModeModel>,
    key_b: Option<Seq<u8>>,
) -> bool {
    match (a, b) {
        (None, None) => true,
        (Some(a), Some(b)) => {
            &&& a.connection_key == b.connection_key
            &&& a.session_key == b.session_key
            &&& a.host == b.host
            &&& a.port == b.port
            &&& a.user == b.user
            &&& a.host_fingerprint == b.host_fingerprint
            &&& a.tmux_mode == b.tmux_mode
            &&& credential_parts(a.authentication, key_a) == credential_parts(
                b.authentication,
                key_b,
            )
        },
        _ => false,
    }
}

proof fn lemma_places_are_told_apart(
    a: Option<ServerModeModel>,
    key_a: Option<Seq<u8>>,
    b: Option<ServerModeModel>,
    key_b: Option<Seq<u8>>,
)
    requires
        server_parts(a, key_a) == server_parts(b, key_b),
    ensures
        same_place(a, key_a, b, key_b),
{
    let p = server_parts(a, key_a);
    let q = server_parts(b, key_b);
    if let (Some(x), Some(y)) = (a, b) {
        let pin_x = optional_parts(x.host_fingerprint);
        let pin_y = optional_parts(y.host_fingerprint);
        let secret_x = credential_parts(x.authentication, key_a);
        let secret_y = credential_parts(y.authentication, key_b);
        assert(p.len() == 7 + pin_x.len() + 2);
        assert(q.len() == 7 + pin_y.len() + 2);
        let n = pin_x.len();
        assert(p[1] == text_part(x.connection_key) && q[1] == text_part(y.connection_key));
        assert(p[2] == text_part(x.session_key) && q[2] == text_part(y.session_key));
        assert(p[3] == text_part(x.host) && q[3] == text_part(y.host));
        assert(p[4] == FingerprintPartModel::Port(x.port));
        assert(q[4] == FingerprintPartModel::Port(y.port));
        assert(p[5] == text_part(x.user) && q[5] == text_part(y.user));
        assert forall|i: int| 0 <= i < n implies pin_x[i] == pin_y[i] by {
            assert(p[6 + i] == pin_x[i]);
            assert(q[6 + i] == pin_y[i]);
        }
        assert(pin_x =~= pin_y);
        if n == 2 {
            assert(pin_x[1] == pin_y[1]);
        }
        assert(p[6 + n as int] == text_part(tmux_name(x.tmux_mode)));
        assert(q[6 + n as int] == text_part(tmux_name(y.tmux_mode)));
        reveal_strlit("tmux_required");
        reveal_strlit("tmux_preferred");
        reveal_strlit("tmux_disabled");
        assert(tmux_name(x.tmux_mode)[5] == tmux_name(y.tmux_mode)[5]);
        assert("tmux_required"@[5] == 'r');
        assert("tmux_preferred"@[5] == 'p');
        assert("tmux_disabled"@[5] == 'd');
        assert forall|i: int| 0 <= i < 2 implies secret_x[i] == secret_y[i] by {
            assert(p[7 + n + i] == secret_x[i]);
            assert(q[7 + n + i] == secret_y[i]);
        }
        assert(secret_x =~= secret_y);
    } else if a is Some {
        assert(p.len() > 1 && q.len() == 1);
    } else if b is Some {
        assert(p.len() == 1 && q.len() > 1);
    }
}

/// Two turns whose parts are the same have the same configuration: no setting is left out, and
/// none is confused with another.
pub proof fn law_configurations_are_told_apart(
    a: ProviderAuthConfigModel,
    x: Seq<Seq<char>>,
    server_a: Option<ServerModeModel>,
    key_a: Option<Seq<u8>>,
    b: ProviderAuthConfigModel,
    y: Seq<Seq<char>>,
    server_b: Option<ServerModeModel>,
    key_b: Option<Seq<u8>>,
)
    requires
        x.len() == 5,
        y.len() == 5,
        configuration_parts(a, x, server_a, key_a) == configuration_parts(b, y, server_b, key_b),
    ensures
        a == b,
        x == y,
        same_place(server_a, key_a, server_b, key_b),
{
    let p = configuration_parts(a, x, server_a, key_a);
    let q = configuration_parts(b, y, server_b, key_b);
    let pa = provider_parts(a);
    let pb = provider_parts(b);
    let part = |s: Seq<char>| text_part(s);
    assert forall|i: int| 0 <= i < 4 implies pa[i] == pb[i] by {
        assert(p[i] == pa[i]);
        assert(q[i] == pb[i]);
    }
    assert forall|i: int| 0 <= i < 5 implies x[i] == y[i] by {
        assert(p[4 + i] == x.map_values(part)[i]);
        assert(q[4 + i] == y.map_values(part)[i]);
        assert(text_part(x[i]) == text_part(y[i]));
    }
    assert(x =~= y);
    assert(p.skip(9) =~= server_parts(server_a, key_a));
    assert(q.skip(9) =~= server_parts(server_b, key_b));
    lemma_places_are_told_apart(server_a, key_a, server_b, key_b);
    reveal_strlit("oauth");
    reveal_strlit("api_key");
    assert("oauth"@.len() == 5);
    assert("api_key"@.len() == 7);
    assert(pa[0] == pb[0] && pa[1] == pb[1] && pa[2] == pb[2] && pa[3] == pb[3]);
    reveal_strlit("responses");
    reveal_strlit("chat_completions");
    assert("responses"@.len() == 9);
    assert("chat_completions"@.len() == 16);
}

// ---------------------------------------------------------------------------------------------
// The cache

/// The threads that are kept, at most one for each context home.
pub struct WarmThreadCache {
    pub slots: Vec<WarmSlot>,
}

impl DeepView for WarmThreadCache {
    type V = Seq<WarmSlotModel>;

    open spec fn deep_view(&self) -> Seq<WarmSlotModel> {
        self.slots.deep_view()
    }
}

/// Whether no context home has two threads, and no more are kept than allowed.
pub open spec fn cache_is_valid(slots: Seq<WarmSlotModel>) -> bool {
    &&& slots.len() <= WARM_THREAD_CACHE_LIMIT
    &&& distinct_homes(slots)
}

/// Whether no context home has two threads.
pub open spec fn distinct_homes(slots: Seq<WarmSlotModel>) -> bool {
    forall|i: int, j: int|
        0 <= i < j < slots.len() ==> !same_path(
            (#[trigger] slots[i]).codex_home,
            (#[trigger] slots[j]).codex_home,
        )
}

/// The position of a context home, from `i` on. Homes are told apart as paths.
pub open spec fn home_position(slots: Seq<WarmSlotModel>, home: Seq<char>, i: int) -> Option<int>
    decreases slots.len() - i,
{
    if i < 0 || i >= slots.len() {
        None
    } else if same_path(slots[i].codex_home, home) {
        Some(i)
    } else {
        home_position(slots, home, i + 1)
    }
}

/// Whether a kept thread fits a turn: it was configured the same, and continues the same rollout.
pub open spec fn fits(
    entry: WarmThreadEntryModel,
    fingerprint: u64,
    rollout_path: Option<Seq<char>>,
) -> bool {
    entry.fingerprint == fingerprint && (rollout_path matches Some(path) && same_path(
        path,
        entry.rollout_path,
    ))
}

/// The position of the thread that was used longest ago, among the slots from `i` on and `best`.
pub open spec fn oldest_position(slots: Seq<WarmSlotModel>, best: int, i: int) -> int
    decreases slots.len() - i,
{
    if i < 0 || i >= slots.len() {
        best
    } else if slots[i].entry.last_used < slots[best].entry.last_used {
        oldest_position(slots, i, i + 1)
    } else {
        oldest_position(slots, best, i + 1)
    }
}

/// The slots after as many as necessary of the oldest threads were let go, and those threads.
pub open spec fn evicted(slots: Seq<WarmSlotModel>, retired: Seq<WarmThreadEntryModel>) -> (
    Seq<WarmSlotModel>,
    Seq<WarmThreadEntryModel>,
)
    decreases slots.len(),
{
    if slots.len() <= WARM_THREAD_CACHE_LIMIT {
        (slots, retired)
    } else {
        let oldest = oldest_position(slots, 0, 1);
        if 0 <= oldest < slots.len() {
            evicted(slots.remove(oldest), retired.push(slots[oldest].entry))
        } else {
            (slots, retired)
        }
    }
}

/// The slots with a thread for a context home, and the threads that are let go.
pub open spec fn kept(slots: Seq<WarmSlotModel>, home: Seq<char>, entry: WarmThreadEntryModel) -> (
    Seq<WarmSlotModel>,
    Seq<WarmThreadEntryModel>,
) {
    let slot = WarmSlotModel { codex_home: home, entry };
    match home_position(slots, home, 0) {
        Some(i) => evicted(slots.remove(i).push(slot), seq![slots[i].entry]),
        None => evicted(slots.push(slot), Seq::empty()),
    }
}

proof fn lemma_oldest(slots: Seq<WarmSlotModel>, best: int, i: int)
    requires
        0 <= best < i <= slots.len(),
        forall|k: int|
            0 <= k < i ==> slots[best].entry.last_used <= (#[trigger] slots[k]).entry.last_used,
    ensures
        0 <= oldest_position(slots, best, i) < slots.len(),
        forall|k: int|
            0 <= k < slots.len() ==> slots[oldest_position(slots, best, i)].entry.last_used <= (
            #[trigger] slots[k]).entry.last_used,
    decreases slots.len() - i,
{
    if i < slots.len() {
        if slots[i].entry.last_used < slots[best].entry.last_used {
            lemma_oldest(slots, i, i + 1);
        } else {
            lemma_oldest(slots, best, i + 1);
        }
    }
}

proof fn lemma_home(slots: Seq<WarmSlotModel>, home: Seq<char>, i: int)
    requires
        0 <= i <= slots.len(),
    ensures
        home_position(slots, home, i) matches Some(k) ==> i <= k < slots.len()
            && same_path(slots[k].codex_home, home),
        home_position(slots, home, i) is None ==> forall|k: int|
            i <= k < slots.len() ==> !same_path((#[trigger] slots[k]).codex_home, home),
    decreases slots.len() - i,
{
    if i < slots.len() {
        lemma_home(slots, home, i + 1);
    }
}

/// Letting threads go leaves no home with two threads, and no more threads than allowed.
proof fn lemma_evicted(slots: Seq<WarmSlotModel>, retired: Seq<WarmThreadEntryModel>)
    requires
        distinct_homes(slots),
    ensures
        cache_is_valid(evicted(slots, retired).0),
    decreases slots.len(),
{
    if slots.len() > WARM_THREAD_CACHE_LIMIT {
        lemma_oldest(slots, 0, 1);
        let oldest = oldest_position(slots, 0, 1);
        lemma_remove_keeps_distinct(slots, oldest);
        lemma_evicted(slots.remove(oldest), retired.push(slots[oldest].entry));
    }
}

proof fn lemma_remove_keeps_distinct(slots: Seq<WarmSlotModel>, at: int)
    requires
        distinct_homes(slots),
        0 <= at < slots.len(),
    ensures
        distinct_homes(slots.remove(at)),
        forall|k: int|
            0 <= k < slots.remove(at).len() ==> !same_path(
                (#[trigger] slots.remove(at)[k]).codex_home,
                slots[at].codex_home,
            ),
{
    let rest = slots.remove(at);
    assert forall|i: int, j: int| 0 <= i < j < rest.len() implies !same_path(
        (#[trigger] rest[i]).codex_home,
        (#[trigger] rest[j]).codex_home,
    ) by {
        let a = if i < at {
            i
        } else {
            i + 1
        };
        let b = if j < at {
            j
        } else {
            j + 1
        };
        assert(rest[i] == slots[a]);
        assert(rest[j] == slots[b]);
    }
    assert forall|k: int| 0 <= k < rest.len() implies !same_path(
        (#[trigger] rest[k]).codex_home,
        slots[at].codex_home,
    ) by {
        let a = if k < at {
            k
        } else {
            k + 1
        };
        assert(rest[k] == slots[a]);
        if a < at {
            assert(!same_path(slots[a].codex_home, slots[at].codex_home));
        } else {
            assert(!same_path(slots[at].codex_home, slots[a].codex_home));
        }
    }
}

impl WarmThreadCache {
    /// A cache without threads.
    pub fn new() -> (r: Self)
        ensures
            r.deep_view() == Seq::<WarmSlotModel>::empty(),
            cache_is_valid(r.deep_view()),
    {
        let r = WarmThreadCache { slots: Vec::new() };
        proof {
            lemma_empty_content(r.slots);
        }
        r
    }

    fn find_home(&self, home: &String) -> (r: Option<usize>)
        ensures
            (match r {
                Some(i) => Some(i as int),
                None => None,
            }) == home_position(self.deep_view(), home@, 0),
            r matches Some(i) ==> i < self.slots@.len(),
    {
        let ghost model = self.slots.deep_view();
        let mut i: usize = 0;
        while i < self.slots.len()
            invariant
                i <= self.slots@.len(),
                model == self.slots.deep_view(),
                model.len() == self.slots@.len(),
                home_position(model, home@, 0) == home_position(model, home@, i as int),
            decreases self.slots.len() - i,
        {
            assert(model[i as int] == self.slots@[i as int].deep_view());
            if is_same_path(self.slots[i].codex_home.as_str(), home.as_str()) {
                return Some(i);
            }
            i = i + 1;
        }
        None
    }

    /// Takes the thread of a context home out of the cache. It is the first of the two results if
    /// it fits the turn, and the second, to be let go, if it does not.
    pub fn take_warm_thread(
        &mut self,
        codex_home: &String,
        fingerprint: u64,
        rollout_path: &Option<String>,
    ) -> (r: (Option<WarmThreadEntry>, Option<WarmThreadEntry>))
        ensures
            match home_position(old(self).deep_view(), codex_home@, 0) {
                None => r.0 is None && r.1 is None && final(self).deep_view() == old(
                    self,
                ).deep_view(),
                Some(i) => {
                    let entry = old(self).deep_view()[i].entry;
                    &&& final(self).deep_view() == old(self).deep_view().remove(i)
                    &&& fits(entry, fingerprint, rollout_path.deep_view()) ==> r.0.deep_view()
                        == Some(entry) && r.1 is None
                    &&& !fits(entry, fingerprint, rollout_path.deep_view()) ==> r.0 is None
                        && r.1.deep_view() == Some(entry)
                },
            },
            cache_is_valid(old(self).deep_view()) ==> cache_is_valid(final(self).deep_view()),
    {
        let i: usize = match self.find_home(codex_home) {
            Some(i) => i,
            None => {
                return (None, None);
            },
        };
        let ghost before = self.slots.deep_view();
        let slot = self.slots.remove(i);
        proof {
            assert(before[i as int] == slot.deep_view());
            assert(self.slots.deep_view() =~= before.remove(i as int));
            if cache_is_valid(before) {
                lemma_remove_keeps_distinct(before, i as int);
            }
        }
        let entry = slot.entry;
        let same_rollout = match rollout_path {
            Some(path) => is_same_path(path.as_str(), entry.rollout_path.as_str()),
            None => false,
        };
        if entry.fingerprint == fingerprint && same_rollout {
            (Some(entry), None)
        } else {
            (None, Some(entry))
        }
    }

    fn find_oldest(&self) -> (r: usize)
        requires
            self.slots@.len() > 0,
        ensures
            r == oldest_position(self.deep_view(), 0, 1),
            r < self.slots@.len(),
    {
        let ghost model = self.slots.deep_view();
        let mut best: usize = 0;
        let mut i: usize = 1;
        while i < self.slots.len()
            invariant
                best < i <= self.slots@.len(),
                model == self.slots.deep_view(),
                model.len() == self.slots@.len(),
                oldest_position(model, 0, 1) == oldest_position(model, best as int, i as int),
            decreases self.slots.len() - i,
        {
            assert(model[i as int] == self.slots@[i as int].deep_view());
            assert(model[best as int] == self.slots@[best as int].deep_view());
            if self.slots[i].entry.last_used < self.slots[best].entry.last_used {
                best = i;
            }
            i = i + 1;
        }
        best
    }

    /// Keeps a thread for its context home, as used now. Gives the threads that are let go for it:
    /// the one that the home had before, and the oldest ones beyond the limit.
    pub fn cache_warm_thread(&mut self, codex_home: String, entry: WarmThreadEntry, now: u64) -> (r:
        Vec<WarmThreadEntry>)
        requires
            cache_is_valid(old(self).deep_view()),
        ensures
            (final(self).deep_view(), r.deep_view()) == kept(
                old(self).deep_view(),
                codex_home@,
                (WarmThreadEntryModel { last_used: now, ..entry.deep_view() }),
            ),
            cache_is_valid(final(self).deep_view()),
    {
        let ghost start = self.slots.deep_view();
        let ghost home = codex_home@;
        let mut retired: Vec<WarmThreadEntry> = Vec::new();
        proof {
            lemma_empty_content(retired);
            lemma_home(start, home, 0);
        }
        if let Some(i) = self.find_home(&codex_home) {
            let old_slot = self.slots.remove(i);
            proof {
                assert(start[i as int] == old_slot.deep_view());
                assert(self.slots.deep_view() =~= start.remove(i as int));
                lemma_remove_keeps_distinct(start, i as int);
            }
            let old_entry = old_slot.entry;
            retired.push(old_entry);
            assert(retired.deep_view() =~= seq![start[i as int].entry]);
        }
        let ghost rest = self.slots.deep_view();
        let entry = WarmThreadEntry { last_used: now, ..entry };
        let slot = WarmSlot { codex_home, entry };
        self.slots.push(slot);
        let ghost full = self.slots.deep_view();
        let ghost first = retired.deep_view();
        proof {
            assert(full =~= rest.push(slot.deep_view()));
            assert(distinct_homes(full)) by {
                assert forall|a: int, b: int| 0 <= a < b < full.len() implies !same_path(
                    (#[trigger] full[a]).codex_home,
                    (#[trigger] full[b]).codex_home,
                ) by {
                    assert(full[a] == rest[a]);
                    if b < rest.len() {
                        assert(full[b] == rest[b]);
                    }
                }
            }
            lemma_evicted(full, first);
        }
        while self.slots.len() > WARM_THREAD_CACHE_LIMIT
            invariant
                evicted(full, first) == evicted(self.slots.deep_view(), retired.deep_view()),
            decreases self.slots.len(),
        {
            let ghost before = self.slots.deep_view();
            let ghost gone = retired.deep_view();
            let oldest: usize = self.find_oldest();
            let slot = self.slots.remove(oldest);
            proof {
                assert(before[oldest as int] == slot.deep_view());
                assert(self.slots.deep_view() =~= before.remove(oldest as int));
            }
            let entry = slot.entry;
            retired.push(entry);
            assert(retired.deep_view() =~= gone.push(entry.deep_view()));
        }
        retired
    }
}

/// The slots into which a thread is put, before any is let go.
spec fn with_slot(slots: Seq<WarmSlotModel>, home: Seq<char>, entry: WarmThreadEntryModel) -> Seq<
    WarmSlotModel,
> {
    let slot = WarmSlotModel { codex_home: home, entry };
    match home_position(slots, home, 0) {
        Some(i) => slots.remove(i).push(slot),
        None => slots.push(slot),
    }
}

/// Only the last of some slots is for a home, where no earlier one is.
proof fn lemma_last_is_found(slots: Seq<WarmSlotModel>, home: Seq<char>)
    requires
        slots.len() > 0,
        same_path(slots.last().codex_home, home),
        forall|k: int|
            0 <= k < slots.len() - 1 ==> !same_path((#[trigger] slots[k]).codex_home, home),
    ensures
        home_position(slots, home, 0) == Some(slots.len() - 1),
{
    lemma_home(slots, home, 0);
    assert(slots[slots.len() - 1] == slots.last());
}

/// A thread that was just kept is the one that is found for its context home, whether there was
/// room, the home had a thread before, or no kept thread was used after it.
pub proof fn law_kept_thread_is_found(
    slots: Seq<WarmSlotModel>,
    home: Seq<char>,
    entry: WarmThreadEntryModel,
)
    requires
        cache_is_valid(slots),
        slots.len() < WARM_THREAD_CACHE_LIMIT || home_position(slots, home, 0) is Some
            || forall|i: int|
            0 <= i < slots.len() ==> (#[trigger] slots[i]).entry.last_used <= entry.last_used,
    ensures
        ({
            let after = kept(slots, home, entry).0;
            home_position(after, home, 0) matches Some(i) && after[i].entry == entry
        }),
{
    lemma_home(slots, home, 0);
    let full = with_slot(slots, home, entry);
    match home_position(slots, home, 0) {
        Some(i) => {
            lemma_remove_keeps_distinct(slots, i);
            assert forall|k: int| 0 <= k < full.len() - 1 implies !same_path(
                (#[trigger] full[k]).codex_home,
                home,
            ) by {
                assert(full[k] == slots.remove(i)[k]);
            }
        },
        None => {
            assert forall|k: int| 0 <= k < full.len() - 1 implies !same_path(
                (#[trigger] full[k]).codex_home,
                home,
            ) by {
                assert(full[k] == slots[k]);
            }
        },
    }
    if full.len() <= WARM_THREAD_CACHE_LIMIT {
        lemma_last_is_found(full, home);
    } else {
        let oldest = oldest_position(full, 0, 1);
        let last = full.len() - 1;
        lemma_oldest(full, 0, 1);
        assert(full[0] == slots[0]);
        lemma_last_is_not_oldest(full, 0, 1);
        let after = full.remove(oldest);
        assert(after.len() == WARM_THREAD_CACHE_LIMIT);
        let retired = Seq::<WarmThreadEntryModel>::empty();
        assert(evicted(full, retired) == evicted(after, retired.push(full[oldest].entry)));
        assert forall|k: int| 0 <= k < after.len() - 1 implies !same_path(
            (#[trigger] after[k]).codex_home,
            home,
        ) by {
            let a = if k < oldest {
                k
            } else {
                k + 1
            };
            assert(after[k] == full[a]);
        }
        assert(after.last() == full[last]);
        lemma_last_is_found(after, home);
    }
}

/// The last slot is not the oldest where no other was used after it.
proof fn lemma_last_is_not_oldest(slots: Seq<WarmSlotModel>, best: int, i: int)
    requires
        0 <= best < i <= slots.len(),
        best < slots.len() - 1,
        forall|k: int|
            0 <= k < slots.len() - 1 ==> (#[trigger] slots[k]).entry.last_used
                <= slots.last().entry.last_used,
    ensures
        0 <= oldest_position(slots, best, i) < slots.len() - 1,
    decreases slots.len() - i,
{
    if i < slots.len() {
        assert(slots[best].entry.last_used <= slots.last().entry.last_used);
        if slots[i].entry.last_used < slots[best].entry.last_used {
            lemma_last_is_not_oldest(slots, i, i + 1);
        } else {
            lemma_last_is_not_oldest(slots, best, i + 1);
        }
    }
}

} // verus!
