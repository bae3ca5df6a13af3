//! Laws of how a turn is set up from what the host hands over.
use vstd::prelude::*;

use crate::config_text::{
    credential_setting, effort_setting, provider_config, tier_setting, tmux_setting, toml_body,
    toml_char, toml_string, wire_api_setting, ReasoningEffortModel, SshAuthenticationModel,
    SshCredentialModel, SshTmuxMode, WireApi,
};
use crate::oauth::{
    default_effort, default_preset, first_choosable, resolved_defaults, supports_effort,
    ModelPresetModel, OAuthDefaultsResolutionModel, ReasoningEffortPresetModel,
};
use crate::paths::rollout_path_check;
use crate::protocol::ResponseItemModel;
use crate::registry::TurnExitDisposition;
use crate::text::{decimal_text, lower_text, trim_text};
use crate::turn_args::{
    download_plan, if_given, optional, provider_of, required, server_mode_of, server_of, turn_plan,
    uploads_argument, CArgModel, ProviderArgumentsModel, ProviderAuthConfigModel,
    ServerArgumentsModel, ServerPlanModel, TurnArgumentsModel, TurnPlanModel,
};
use crate::turn_setup::{
    cleanup_outcome, pointed_rollout, pointer_to, prior_items, replay_keys_of, rollout_check,
    setup_of, without_agents, DecodedHistoryModel, DecodedPointerModel, FeaturePolicyModel,
    PersistedThreadPointerModel, SandboxMode,
};

verus! {

// ---------------------------------------------------------------------------------------------
// Arguments

/// A text is read as it is. A missing one is an error where it is required and empty otherwise,
/// and a blank one counts as not given. The error names the field.
pub proof fn law_arguments_are_read(field: Seq<char>, text: Seq<char>, error: Seq<char>)
    ensures
        required(CArgModel::Text(text), field) == Ok::<Seq<char>, Seq<char>>(text),
        optional(CArgModel::Text(text), field) == Ok::<Seq<char>, Seq<char>>(text),
        required(CArgModel::Null, field) == Err::<Seq<char>, Seq<char>>(
            field + " pointer was null"@,
        ),
        optional(CArgModel::Null, field) == Ok::<Seq<char>, Seq<char>>(Seq::empty()),
        required(CArgModel::NotUtf8 { error }, field) == Err::<Seq<char>, Seq<char>>(
            field + " was not valid UTF-8: "@ + error,
        ),
        optional(CArgModel::NotUtf8 { error }, field) == Err::<Seq<char>, Seq<char>>(
            field + " was not valid UTF-8: "@ + error,
        ),
        if_given(CArgModel::Null, field) == Ok::<Option<Seq<char>>, Seq<char>>(None),
        trim_text(text).len() == 0 ==> if_given(CArgModel::Text(text), field) == Ok::<
            Option<Seq<char>>,
            Seq<char>,
        >(None),
        trim_text(text).len() > 0 ==> if_given(CArgModel::Text(text), field) == Ok::<
            Option<Seq<char>>,
            Seq<char>,
        >(Some(text)),
{
    reveal_with_fuel(crate::text::trim_left, 1);
    reveal_with_fuel(crate::text::trim_right, 1);
    assert(field + (" was not valid UTF-8: "@ + error) =~= field + " was not valid UTF-8: "@
        + error);
}

/// A sign-in is taken over as it was given.
pub proof fn law_providers_are_taken_over(a: Seq<char>, b: Seq<char>, c: Seq<char>)
    ensures
        provider_of(
            ProviderArgumentsModel::ChatgptOAuth {
                access_token: CArgModel::Text(a),
                id_token: CArgModel::Text(b),
                account_id: CArgModel::Text(c),
            },
        ) == Ok::<ProviderAuthConfigModel, Seq<char>>(
            ProviderAuthConfigModel::ChatgptOAuth { access_token: a, id_token: b, account_id: c },
        ),
        provider_of(
            ProviderArgumentsModel::ApiKey {
                base_url: CArgModel::Text(a),
                api_key: CArgModel::Text(b),
                wire_api: CArgModel::Null,
            },
        ) == Ok::<ProviderAuthConfigModel, Seq<char>>(
            ProviderAuthConfigModel::ApiKey {
                base_url: a,
                api_key: b,
                wire_api: WireApi::Responses,
            },
        ),
        wire_api_setting(c) is Ok ==> provider_of(
            ProviderArgumentsModel::ApiKey {
                base_url: CArgModel::Text(a),
                api_key: CArgModel::Text(b),
                wire_api: CArgModel::Text(c),
            },
        ) == Ok::<ProviderAuthConfigModel, Seq<char>>(
            ProviderAuthConfigModel::ApiKey {
                base_url: a,
                api_key: b,
                wire_api: wire_api_setting(c)->Ok_0,
            },
        ),
{
}

/// Whether everything that is required of the arguments is there.
pub open spec fn given(arg: CArgModel) -> bool {
    arg is Text
}

/// Whether an argument is readable, or not there.
pub open spec fn readable(arg: CArgModel) -> bool {
    arg is Text || arg is Null
}

/// A plan of a turn holds every argument in its place. It succeeds exactly if the required
/// arguments are there, the optional ones are readable, and the provider, the uploads and the
/// server can be used.
pub proof fn law_plans_hold_the_arguments(args: TurnArgumentsModel)
    ensures
        ({
            let plan = turn_plan(args);
            let text = |arg: CArgModel|
                if arg is Text {
                    arg->Text_0
                } else {
                    Seq::empty()
                };
            &&& plan is Ok <==> {
                &&& provider_of(args.provider) is Ok
                &&& given(args.model) && given(args.prompt) && given(args.context_home)
                &&& readable(args.reasoning_effort) && readable(args.service_tier)
                &&& readable(args.history_json) && readable(args.workspace)
                &&& readable(args.dynamic_tools_json)
                &&& uploads_argument(args.uploads_json) is Ok
                &&& args.server is Some ==> server_of(args.server->0, text(args.workspace)) is Ok
            }
            &&& plan is Ok ==> {
                &&& plan->Ok_0.provider == provider_of(args.provider)->Ok_0
                &&& plan->Ok_0.model == text(args.model)
                &&& plan->Ok_0.prompt == text(args.prompt)
                &&& plan->Ok_0.context_home == text(args.context_home)
                &&& plan->Ok_0.reasoning_effort == text(args.reasoning_effort)
                &&& plan->Ok_0.service_tier == text(args.service_tier)
                &&& plan->Ok_0.history_json == text(args.history_json)
                &&& plan->Ok_0.workspace == text(args.workspace)
                &&& plan->Ok_0.dynamic_tools_json == text(args.dynamic_tools_json)
                &&& plan->Ok_0.uploads == uploads_argument(args.uploads_json)->Ok_0
                &&& args.server is None ==> plan->Ok_0.server is None
                &&& args.server is Some ==> plan->Ok_0.server == Some(
                    server_of(args.server->0, text(args.workspace))->Ok_0,
                )
            }
        }),
{
}

/// What is told of an argument that is missing or unreadable.
pub open spec fn argument_problem(arg: CArgModel, field: Seq<char>) -> Seq<char> {
    if arg is Null {
        field + " pointer was null"@
    } else {
        field + " was not valid UTF-8: "@ + arg->NotUtf8_error
    }
}

proof fn lemma_argument_problem(arg: CArgModel, field: Seq<char>)
    ensures
        required(arg, field) is Err <==> !given(arg),
        !given(arg) ==> required(arg, field) == Err::<Seq<char>, Seq<char>>(
            argument_problem(arg, field),
        ),
        optional(arg, field) is Err <==> !readable(arg),
        !readable(arg) ==> optional(arg, field) == Err::<Seq<char>, Seq<char>>(
            argument_problem(arg, field),
        ),
        if_given(arg, field) is Err <==> !readable(arg),
        !readable(arg) ==> if_given(arg, field) == Err::<Option<Seq<char>>, Seq<char>>(
            argument_problem(arg, field),
        ),
{
    if arg is NotUtf8 {
        let error = arg->NotUtf8_error;
        assert(field + (" was not valid UTF-8: "@ + error) =~= field + " was not valid UTF-8: "@
            + error);
    }
}

/// The first argument that is wrong is the one that is told.
pub proof fn law_first_wrong_argument_is_told(args: TurnArgumentsModel)
    requires
        turn_plan(args) is Err,
    ensures
        ({
            let told = turn_plan(args)->Err_0;
            let provider = provider_of(args.provider);
            let uploads = uploads_argument(args.uploads_json);
            let to_model = provider is Ok;
            let to_effort = to_model && given(args.model);
            let to_tier = to_effort && readable(args.reasoning_effort);
            let to_prompt = to_tier && readable(args.service_tier);
            let to_history = to_prompt && given(args.prompt);
            let to_home = to_history && readable(args.history_json);
            let to_workspace = to_home && given(args.context_home);
            let to_tools = to_workspace && readable(args.workspace);
            let to_uploads = to_tools && readable(args.dynamic_tools_json);
            let to_server = to_uploads && uploads is Ok;
            &&& provider is Err ==> told == provider->Err_0
            &&& to_model && !given(args.model) ==> told == argument_problem(args.model, "model"@)
            &&& to_effort && !readable(args.reasoning_effort) ==> told == argument_problem(
                args.reasoning_effort,
                "reasoning_effort"@,
            )
            &&& to_tier && !readable(args.service_tier) ==> told == argument_problem(
                args.service_tier,
                "service_tier"@,
            )
            &&& to_prompt && !given(args.prompt) ==> told == argument_problem(
                args.prompt,
                "prompt"@,
            )
            &&& to_history && !readable(args.history_json) ==> told == argument_problem(
                args.history_json,
                "history_json"@,
            )
            &&& to_home && !given(args.context_home) ==> told == argument_problem(
                args.context_home,
                "context_home_path"@,
            )
            &&& to_workspace && !readable(args.workspace) ==> told == argument_problem(
                args.workspace,
                "workspace_path"@,
            )
            &&& to_tools && !readable(args.dynamic_tools_json) ==> told == argument_problem(
                args.dynamic_tools_json,
                "dynamic_tools_json"@,
            )
            &&& to_uploads && uploads is Err ==> told == uploads->Err_0
            &&& to_server ==> args.server is Some && told == server_of(
                args.server->0,
                if args.workspace is Text {
                    args.workspace->Text_0
                } else {
                    Seq::empty()
                },
            )->Err_0
        }),
{
    lemma_argument_problem(args.model, "model"@);
    lemma_argument_problem(args.reasoning_effort, "reasoning_effort"@);
    lemma_argument_problem(args.service_tier, "service_tier"@);
    lemma_argument_problem(args.prompt, "prompt"@);
    lemma_argument_problem(args.history_json, "history_json"@);
    lemma_argument_problem(args.context_home, "context_home_path"@);
    lemma_argument_problem(args.workspace, "workspace_path"@);
    lemma_argument_problem(args.dynamic_tools_json, "dynamic_tools_json"@);
}

/// What is wrong with a sign-in is told argument by argument.
pub proof fn law_wrong_providers_are_told(a: CArgModel, b: CArgModel, c: CArgModel)
    ensures
        ({
            let account = provider_of(
                ProviderArgumentsModel::ChatgptOAuth {
                    access_token: a,
                    id_token: b,
                    account_id: c,
                },
            );
            let key = provider_of(
                ProviderArgumentsModel::ApiKey { base_url: a, api_key: b, wire_api: c },
            );
            let wrong = |problem: Seq<char>|
                Err::<ProviderAuthConfigModel, Seq<char>>(problem);
            &&& !given(a) ==> account == wrong(argument_problem(a, "access_token"@)) && key
                == wrong(argument_problem(a, "base_url"@))
            &&& given(a) && !given(b) ==> account == wrong(argument_problem(b, "id_token"@)) && key
                == wrong(argument_problem(b, "api_key"@))
            &&& given(a) && given(b) && !given(c) ==> account == wrong(
                argument_problem(c, "account_id"@),
            )
            &&& given(a) && given(b) && c is NotUtf8 ==> key == wrong(
                argument_problem(c, "wire_api"@),
            )
            &&& given(a) && given(b) && c is Text && wire_api_setting(c->Text_0) is Err ==> key
                == wrong(wire_api_setting(c->Text_0)->Err_0)
        }),
{
    lemma_argument_problem(a, "access_token"@);
    lemma_argument_problem(a, "base_url"@);
    lemma_argument_problem(b, "id_token"@);
    lemma_argument_problem(b, "api_key"@);
    lemma_argument_problem(c, "account_id"@);
    lemma_argument_problem(c, "wire_api"@);
}

/// What is wrong with a server is told argument by argument.
pub proof fn law_wrong_servers_are_told(args: ServerArgumentsModel, workspace: Seq<char>)
    requires
        server_of(args, workspace) is Err,
    ensures
        ({
            let told = server_of(args, workspace)->Err_0;
            let to_user = given(args.host);
            let to_method = to_user && given(args.user);
            let to_secret = to_method && given(args.auth_method);
            let to_connection = to_secret && given(args.secret);
            let to_session = to_connection && readable(args.connection_key);
            let to_print = to_session && readable(args.session_key);
            let to_mode = to_print && readable(args.fingerprint);
            &&& !given(args.host) ==> told == argument_problem(args.host, "ssh_host"@)
            &&& to_user && !given(args.user) ==> told == argument_problem(args.user, "ssh_user"@)
            &&& to_method && !given(args.auth_method) ==> told == argument_problem(
                args.auth_method,
                "ssh_auth_method"@,
            )
            &&& to_secret && !given(args.secret) ==> told == argument_problem(
                args.secret,
                "ssh_secret"@,
            )
            &&& to_connection && !readable(args.connection_key) ==> told == argument_problem(
                args.connection_key,
                "ssh_connection_key"@,
            )
            &&& to_session && !readable(args.session_key) ==> told == argument_problem(
                args.session_key,
                "ssh_session_key"@,
            )
            &&& to_print && !readable(args.fingerprint) ==> told == argument_problem(
                args.fingerprint,
                "ssh_fingerprint"@,
            )
            &&& to_mode && args.tmux_mode is NotUtf8 ==> told == argument_problem(
                args.tmux_mode,
                "ssh_tmux_mode"@,
            )
            &&& to_mode && args.tmux_mode is Text && tmux_setting(args.tmux_mode->Text_0) is Err
                ==> told == tmux_setting(args.tmux_mode->Text_0)->Err_0
            &&& to_mode && (args.tmux_mode is Null || (args.tmux_mode is Text && tmux_setting(
                args.tmux_mode->Text_0,
            ) is Ok)) ==> told == credential_setting(
                args.auth_method->Text_0,
                args.secret->Text_0,
            )->Err_0
        }),
{
    lemma_argument_problem(args.host, "ssh_host"@);
    lemma_argument_problem(args.user, "ssh_user"@);
    lemma_argument_problem(args.auth_method, "ssh_auth_method"@);
    lemma_argument_problem(args.secret, "ssh_secret"@);
    lemma_argument_problem(args.connection_key, "ssh_connection_key"@);
    lemma_argument_problem(args.session_key, "ssh_session_key"@);
    lemma_argument_problem(args.fingerprint, "ssh_fingerprint"@);
    lemma_argument_problem(args.tmux_mode, "ssh_tmux_mode"@);
}

/// What is wrong with a download is told argument by argument.
pub proof fn law_wrong_downloads_are_told(
    server: ServerArgumentsModel,
    workspace: CArgModel,
    remote_path: CArgModel,
    local_path: CArgModel,
)
    requires
        download_plan(server, workspace, remote_path, local_path) is Err,
    ensures
        ({
            let told = download_plan(server, workspace, remote_path, local_path)->Err_0;
            let to_user = given(server.host);
            let to_method = to_user && given(server.user);
            let to_secret = to_method && given(server.auth_method);
            let to_print = to_secret && given(server.secret);
            let to_workspace = to_print && readable(server.fingerprint);
            let to_remote = to_workspace && given(workspace);
            let to_local = to_remote && given(remote_path);
            &&& !given(server.host) ==> told == argument_problem(server.host, "ssh_host"@)
            &&& to_user && !given(server.user) ==> told == argument_problem(
                server.user,
                "ssh_user"@,
            )
            &&& to_method && !given(server.auth_method) ==> told == argument_problem(
                server.auth_method,
                "ssh_auth_method"@,
            )
            &&& to_secret && !given(server.secret) ==> told == argument_problem(
                server.secret,
                "ssh_secret"@,
            )
            &&& to_print && !readable(server.fingerprint) ==> told == argument_problem(
                server.fingerprint,
                "ssh_fingerprint"@,
            )
            &&& to_workspace && !given(workspace) ==> told == argument_problem(
                workspace,
                "workspace_path"@,
            )
            &&& to_remote && !given(remote_path) ==> told == argument_problem(
                remote_path,
                "remote_path"@,
            )
            &&& to_local && !given(local_path) ==> told == argument_problem(
                local_path,
                "local_path"@,
            )
            &&& to_local && given(local_path) ==> told == credential_setting(
                server.auth_method->Text_0,
                server.secret->Text_0,
            )->Err_0
        }),
{
    lemma_argument_problem(server.host, "ssh_host"@);
    lemma_argument_problem(server.user, "ssh_user"@);
    lemma_argument_problem(server.auth_method, "ssh_auth_method"@);
    lemma_argument_problem(server.secret, "ssh_secret"@);
    lemma_argument_problem(server.fingerprint, "ssh_fingerprint"@);
    lemma_argument_problem(workspace, "workspace_path"@);
    lemma_argument_problem(remote_path, "remote_path"@);
    lemma_argument_problem(local_path, "local_path"@);
}

/// A server is taken over as it was given. Without keys of its own its address stands for them,
/// for the session together with the workspace.
pub proof fn law_servers_are_taken_over(args: ServerArgumentsModel, workspace: Seq<char>)
    requires
        server_of(args, workspace) is Ok,
    ensures
        ({
            let plan = server_of(args, workspace)->Ok_0;
            let address = args.user->Text_0 + "@"@ + args.host->Text_0 + ":"@ + decimal_text(
                args.port as nat,
            );
            let named = |arg: CArgModel| arg is Text && trim_text(arg->Text_0).len() > 0;
            &&& given(args.host) && given(args.user) && given(args.auth_method) && given(
                args.secret,
            )
            &&& plan.host == args.host->Text_0
            &&& plan.user == args.user->Text_0
            &&& plan.port == args.port
            &&& named(args.connection_key) ==> plan.connection_key == args.connection_key->Text_0
            &&& !named(args.connection_key) ==> plan.connection_key == address
            &&& named(args.session_key) ==> plan.session_key == args.session_key->Text_0
            &&& !named(args.session_key) ==> plan.session_key == address + ":"@ + workspace
            &&& named(args.fingerprint) ==> plan.host_fingerprint == Some(args.fingerprint->Text_0)
            &&& !named(args.fingerprint) ==> plan.host_fingerprint is None
            &&& credential_setting(args.auth_method->Text_0, args.secret->Text_0) == Ok::<
                SshCredentialModel,
                Seq<char>,
            >(plan.credential)
            &&& args.tmux_mode is Null ==> plan.tmux_mode == SshTmuxMode::Required
            &&& args.tmux_mode is Text ==> tmux_setting(args.tmux_mode->Text_0) == Ok::<
                SshTmuxMode,
                Seq<char>,
            >(plan.tmux_mode)
        }),
{
    let plan = server_of(args, workspace)->Ok_0;
    let address = args.user->Text_0 + "@"@ + args.host->Text_0 + ":"@ + decimal_text(
        args.port as nat,
    );
    let direct = args.user->Text_0 + "@"@ + args.host->Text_0 + (":"@ + decimal_text(
        args.port as nat,
    ));
    assert(address =~= direct);
    assert(direct + (":"@ + workspace) =~= address + ":"@ + workspace);
    reveal_with_fuel(crate::text::trim_left, 1);
    reveal_with_fuel(crate::text::trim_right, 1);
}

/// A server is usable exactly if its required arguments are there, the others are readable, and
/// its settings are known.
pub proof fn law_usable_servers(args: ServerArgumentsModel, workspace: Seq<char>)
    ensures
        server_of(args, workspace) is Ok <==> {
            &&& given(args.host) && given(args.user) && given(args.auth_method) && given(
                args.secret,
            )
            &&& readable(args.connection_key) && readable(args.session_key) && readable(
                args.fingerprint,
            ) && readable(args.tmux_mode)
            &&& args.tmux_mode is Text ==> tmux_setting(args.tmux_mode->Text_0) is Ok
            &&& credential_setting(args.auth_method->Text_0, args.secret->Text_0) is Ok
        },
{
}

/// The turn reaches the server as planned, with the password or with the file of the key.
pub proof fn law_servers_are_reached_as_planned(plan: ServerPlanModel, key_path: Seq<char>)
    ensures
        ({
            let mode = server_mode_of(plan, key_path);
            &&& mode.connection_key == plan.connection_key
            &&& mode.session_key == plan.session_key
            &&& mode.host == plan.host
            &&& mode.port == plan.port
            &&& mode.user == plan.user
            &&& mode.host_fingerprint == plan.host_fingerprint
            &&& mode.tmux_mode == plan.tmux_mode
            &&& plan.credential is Password ==> mode.authentication
                == SshAuthenticationModel::Password(plan.credential->Password_0)
            &&& plan.credential is PrivateKey ==> mode.authentication
                == SshAuthenticationModel::PrivateKeyPath(key_path)
        }),
{
}

/// A download is planned from its arguments, each in its place.
pub proof fn law_downloads_are_planned(
    server: ServerArgumentsModel,
    workspace: CArgModel,
    remote_path: CArgModel,
    local_path: CArgModel,
)
    ensures
        ({
            let plan = download_plan(server, workspace, remote_path, local_path);
            &&& plan is Ok <==> {
                &&& given(server.host) && given(server.user) && given(server.auth_method) && given(
                    server.secret,
                )
                &&& readable(server.fingerprint)
                &&& given(workspace) && given(remote_path) && given(local_path)
                &&& credential_setting(server.auth_method->Text_0, server.secret->Text_0) is Ok
            }
            &&& plan is Ok ==> {
                &&& plan->Ok_0.host == server.host->Text_0
                &&& plan->Ok_0.user == server.user->Text_0
                &&& plan->Ok_0.workspace == workspace->Text_0
                &&& plan->Ok_0.remote_path == remote_path->Text_0
                &&& plan->Ok_0.local_path == local_path->Text_0
                &&& plan->Ok_0.credential == credential_setting(
                    server.auth_method->Text_0,
                    server.secret->Text_0,
                )->Ok_0
                &&& plan->Ok_0.host_fingerprint is Some <==> server.fingerprint is Text
                    && trim_text(server.fingerprint->Text_0).len() > 0
                &&& plan->Ok_0.host_fingerprint is Some ==> plan->Ok_0.host_fingerprint->0
                    == server.fingerprint->Text_0
            }
        }),
{
    reveal_with_fuel(crate::text::trim_left, 1);
    reveal_with_fuel(crate::text::trim_right, 1);
}

// ---------------------------------------------------------------------------------------------
// Settings

proof fn lemma_setting_names()
    ensures
        "responses"@.len() == 9,
        "chat_completions"@.len() == 16,
        "required"@.len() == 8 && "required"@[0] == 'r',
        "preferred"@.len() == 9,
        "disabled"@.len() == 8 && "disabled"@[0] == 'd',
        "off"@.len() == 3,
        "password"@.len() == 8,
        "private_key"@.len() == 11,
        "privatekey"@.len() == 10,
        "key"@.len() == 3,
        "fast"@.len() == 4,
{
    reveal_strlit("responses");
    reveal_strlit("chat_completions");
    reveal_strlit("required");
    reveal_strlit("preferred");
    reveal_strlit("disabled");
    reveal_strlit("off");
    reveal_strlit("password");
    reveal_strlit("private_key");
    reveal_strlit("privatekey");
    reveal_strlit("key");
    reveal_strlit("fast");
}

/// What the settings mean, whatever blanks stand around them, and for the server in any case.
pub proof fn law_settings(value: Seq<char>, secret: Seq<char>)
    ensures
        ({
            let plain = trim_text(value);
            let lower = lower_text(plain);
            &&& plain.len() == 0 || plain == "responses"@ ==> wire_api_setting(value) == Ok::<
                WireApi,
                Seq<char>,
            >(WireApi::Responses)
            &&& plain == "chat_completions"@ ==> wire_api_setting(value) == Ok::<
                WireApi,
                Seq<char>,
            >(WireApi::ChatCompletions)
            &&& plain.len() > 0 && plain != "responses"@ && plain != "chat_completions"@
                ==> wire_api_setting(value) is Err
            &&& lower.len() == 0 || lower == "required"@ ==> tmux_setting(value) == Ok::<
                SshTmuxMode,
                Seq<char>,
            >(SshTmuxMode::Required)
            &&& lower == "preferred"@ ==> tmux_setting(value) == Ok::<SshTmuxMode, Seq<char>>(
                SshTmuxMode::Preferred,
            )
            &&& lower == "disabled"@ || lower == "off"@ ==> tmux_setting(value) == Ok::<
                SshTmuxMode,
                Seq<char>,
            >(SshTmuxMode::Disabled)
            &&& lower.len() > 0 && lower != "required"@ && lower != "preferred"@ && lower
                != "disabled"@ && lower != "off"@ ==> tmux_setting(value) == Err::<
                SshTmuxMode,
                Seq<char>,
            >(
                "unsupported ssh tmux mode `"@ + lower
                    + "`; expected required, preferred, or disabled"@,
            )
            &&& lower == "password"@ ==> credential_setting(value, secret) == Ok::<
                SshCredentialModel,
                Seq<char>,
            >(SshCredentialModel::Password(secret))
            &&& lower == "private_key"@ || lower == "privatekey"@ || lower == "key"@
                ==> credential_setting(value, secret) == Ok::<SshCredentialModel, Seq<char>>(
                SshCredentialModel::PrivateKey(secret),
            )
            &&& lower != "password"@ && lower != "private_key"@ && lower != "privatekey"@ && lower
                != "key"@ ==> credential_setting(value, secret) == Err::<
                SshCredentialModel,
                Seq<char>,
            >(
                "unsupported ssh authentication method `"@ + lower
                    + "`; expected private_key or password"@,
            )
            &&& plain.len() == 0 ==> tier_setting(value) is None
            &&& plain == "fast"@ ==> tier_setting(value) == Some("priority"@)
            &&& plain.len() > 0 && plain != "fast"@ ==> tier_setting(value) == Some(plain)
            &&& plain.len() == 0 ==> effort_setting(value, None) == Ok::<
                Option<ReasoningEffortModel>,
                Seq<char>,
            >(None)
            &&& plain.len() > 0 ==> effort_setting(value, None) == Ok::<
                Option<ReasoningEffortModel>,
                Seq<char>,
            >(Some(ReasoningEffortModel { name: plain }))
            &&& plain.len() > 0 ==> effort_setting(value, Some(secret)) == Err::<
                Option<ReasoningEffortModel>,
                Seq<char>,
            >("invalid reasoning effort `"@ + plain + "`: "@ + secret)
        }),
{
    lemma_setting_names();
    let plain = trim_text(value);
    assert("invalid reasoning effort `"@ + plain + "`: "@ + secret
        =~= "invalid reasoning effort `"@ + plain + ("`: "@ + secret));
}

/// How a character stands in a TOML string: quotes, backslashes and the common control characters
/// behind a backslash, other control characters by their number, and everything else as it is.
pub proof fn law_toml_characters(c: char, text: Seq<char>)
    ensures
        toml_char('"') == seq!['\\', '"'],
        toml_char('\\') == seq!['\\', '\\'],
        toml_char('\n') == seq!['\\', 'n'],
        toml_char('\r') == seq!['\\', 'r'],
        toml_char('\t') == seq!['\\', 't'],
        ({
            let n = c as u32 as int;
            let control = n < 32 || 127 <= n < 160;
            let plain = c == '"' || c == '\\' || c == '\n' || c == '\r' || c == '\t';
            let digit = |d: char|
                if d <= '9' {
                    d as int - '0' as int
                } else {
                    d as int - 'A' as int + 10
                };
            &&& !control && !plain ==> toml_char(c) == seq![c]
            &&& control && !plain ==> {
                let written = toml_char(c);
                &&& written.len() == 6
                &&& written[0] == '\\' && written[1] == 'u' && written[2] == '0' && written[3]
                    == '0'
                &&& '0' <= written[4] <= '9'
                &&& '0' <= written[5] <= '9' || 'A' <= written[5] <= 'F'
                &&& n == 16 * digit(written[4]) + digit(written[5])
            }
        }),
        toml_body(Seq::empty()).len() == 0,
        toml_body(text.push(c)) == toml_body(text) + toml_char(c),
        toml_string(text) == seq!['"'] + toml_body(text) + seq!['"'],
{
    assert(text.push(c).drop_last() =~= text);
}

/// The configuration of a provider names its address and its protocol.
pub proof fn law_provider_configurations(base_url: Seq<char>)
    ensures
        ({
            let head = "model_provider = \"ios-apikey\"\n\n[model_providers.ios-apikey]\n\
            name = \"iOS API key\"\nbase_url = "@;
            let tail = "\"\nrequires_openai_auth = false\nsupports_websockets = false\n"@;
            &&& provider_config(base_url, WireApi::Responses) == head + toml_string(base_url)
                + "\nwire_api = \""@ + "responses"@ + tail
            &&& provider_config(base_url, WireApi::ChatCompletions) == head + toml_string(base_url)
                + "\nwire_api = \""@ + "chat_completions"@ + tail
        }),
{
    let head = "model_provider = \"ios-apikey\"\n\n[model_providers.ios-apikey]\n\
    name = \"iOS API key\"\nbase_url = "@;
    let tail = "\"\nrequires_openai_auth = false\nsupports_websockets = false\n"@;
    let url = toml_string(base_url);
    assert(provider_config(base_url, WireApi::Responses) =~= head + url + "\nwire_api = \""@
        + "responses"@ + tail);
    assert(provider_config(base_url, WireApi::ChatCompletions) =~= head + url + "\nwire_api = \""@
        + "chat_completions"@ + tail);
}

/// A turn is set up as planned: on a server it has a shell and is not confined, otherwise it has
/// none and stays in its workspace; agents and the host's questions are off in either case.
pub proof fn law_turns_are_set_up_as_planned(plan: TurnPlanModel)
    ensures
        ({
            let setup = setup_of(plan);
            let key = plan.provider is ApiKey;
            &&& setup.temporary_home <==> trim_text(plan.context_home).len() == 0
            &&& trim_text(plan.model).len() == 0 ==> setup.model_override is None
            &&& trim_text(plan.model).len() > 0 ==> setup.model_override == Some(plan.model)
            &&& plan.workspace.len() == 0 ==> setup.cwd is None
            &&& plan.workspace.len() > 0 ==> setup.cwd == Some(plan.workspace)
            &&& plan.server is Some ==> setup.sandbox_mode == SandboxMode::DangerFullAccess
            &&& plan.server is None ==> setup.sandbox_mode == SandboxMode::WorkspaceWrite
            &&& setup.service_tier == tier_setting(plan.service_tier)
            &&& !key ==> setup.model_provider is None && setup.config_toml is None
            &&& key ==> setup.model_provider == Some("ios-apikey"@) && setup.config_toml == Some(
                provider_config(plan.provider->base_url, plan.provider->wire_api),
            )
            &&& setup.features.shell_tool <==> plan.server is Some
            &&& setup.features.unified_exec <==> plan.server is Some
            &&& !setup.features.multi_agent_v2 && !setup.features.collab
            &&& !setup.features.agents_enabled && !setup.features.update_plan_enabled
            &&& !setup.features.request_user_input_enabled
        }),
{
}

/// Switching the agents off leaves everything else as it was.
pub proof fn law_agents_are_switched_off(policy: FeaturePolicyModel)
    ensures
        ({
            let after = without_agents(policy);
            &&& !after.agents_enabled && !after.multi_agent_v2 && !after.collab
            &&& after.shell_tool == policy.shell_tool
            &&& after.unified_exec == policy.unified_exec
            &&& after.update_plan_enabled == policy.update_plan_enabled
            &&& after.request_user_input_enabled == policy.request_user_input_enabled
        }),
{
}

// ---------------------------------------------------------------------------------------------
// History and pointers

/// The history of the host counts exactly if the turn is not resumed and the history is not blank.
pub proof fn law_history_counts_for_new_threads(
    history: Seq<char>,
    items: Seq<ResponseItemModel>,
    error: Seq<char>,
    decoded: DecodedHistoryModel,
)
    ensures
        prior_items(true, history, decoded) == Ok::<Seq<ResponseItemModel>, Seq<char>>(
            Seq::empty(),
        ),
        trim_text(history).len() == 0 ==> prior_items(false, history, decoded) == Ok::<
            Seq<ResponseItemModel>,
            Seq<char>,
        >(Seq::empty()),
        trim_text(history).len() > 0 ==> prior_items(
            false,
            history,
            DecodedHistoryModel::Items(items),
        ) == Ok::<Seq<ResponseItemModel>, Seq<char>>(items),
        trim_text(history).len() > 0 ==> prior_items(
            false,
            history,
            DecodedHistoryModel::Failed(error),
        ) == Err::<Seq<ResponseItemModel>, Seq<char>>("failed to parse history json: "@ + error),
{
}

/// The calls of a history are remembered once each, in the order in which they first come up.
pub proof fn law_calls_are_remembered(items: Seq<ResponseItemModel>, last: ResponseItemModel)
    ensures
        replay_keys_of(Seq::<ResponseItemModel>::empty()).len() == 0,
        ({
            let before = replay_keys_of(items);
            let after = replay_keys_of(items.push(last));
            let key = if last is FunctionCall {
                "function:"@ + last->FunctionCall_call_id
            } else {
                "custom:"@ + last->CustomToolCall_call_id
            };
            let call = last is FunctionCall || last is CustomToolCall;
            &&& call && !before.contains(key) ==> after == before.push(key)
            &&& !call || before.contains(key) ==> after == before
        }),
{
    assert(items.push(last).drop_last() =~= items);
}

/// A pointer leads to the rollout that it names, provided that this is a safe relative path; no
/// pointer leads nowhere, and what cannot be read is an error.
pub proof fn law_pointers_lead_to_rollouts(
    pointer: PersistedThreadPointerModel,
    path: Seq<char>,
    error: Seq<char>,
)
    ensures
        pointed_rollout(DecodedPointerModel::Missing) == Ok::<Option<Seq<char>>, Seq<char>>(None),
        rollout_path_check(pointer.rollout_path) is Ok ==> pointed_rollout(
            DecodedPointerModel::Pointer(pointer),
        ) == Ok::<Option<Seq<char>>, Seq<char>>(Some(pointer.rollout_path)),
        rollout_path_check(pointer.rollout_path) is Err ==> pointed_rollout(
            DecodedPointerModel::Pointer(pointer),
        ) == Err::<Option<Seq<char>>, Seq<char>>(
            rollout_path_check(pointer.rollout_path)->Err_0,
        ),
        pointed_rollout(DecodedPointerModel::Unreadable { path, error }) == Err::<
            Option<Seq<char>>,
            Seq<char>,
        >("failed to read model-context pointer "@ + path + ": "@ + error),
        pointed_rollout(DecodedPointerModel::Malformed { error }) == Err::<
            Option<Seq<char>>,
            Seq<char>,
        >("invalid model-context pointer: "@ + error),
{
    assert("failed to read model-context pointer "@ + path + ": "@ + error
        =~= "failed to read model-context pointer "@ + path + (": "@ + error));
}

/// A pointer is written for the thread and the rollout inside the home, and for no other.
pub proof fn law_pointers_are_written(
    home: Seq<char>,
    thread_id: Seq<char>,
    rollout: Seq<char>,
    relative: Seq<char>,
)
    ensures
        pointer_to(home, thread_id, rollout, None) == Err::<PersistedThreadPointerModel, Seq<char>>(
            "rollout path "@ + rollout + " is outside model-context home "@ + home,
        ),
        rollout_path_check(relative) is Ok ==> pointer_to(home, thread_id, rollout, Some(relative))
            == Ok::<PersistedThreadPointerModel, Seq<char>>(
            PersistedThreadPointerModel { version: 1, thread_id, rollout_path: relative },
        ),
        rollout_path_check(relative) is Err ==> pointer_to(home, thread_id, rollout, Some(relative))
            == Err::<PersistedThreadPointerModel, Seq<char>>(rollout_path_check(relative)->Err_0),
{
    assert("rollout path "@ + rollout + " is outside model-context home "@ + home
        =~= "rollout path "@ + rollout + (" is outside model-context home "@ + home));
}

/// A rollout is accepted exactly if it is there and belongs to the thread.
pub proof fn law_rollouts_belong_to_their_thread(
    rollout: Seq<char>,
    recorded: Seq<char>,
    thread_id: Seq<char>,
)
    ensures
        rollout_check(None, recorded, thread_id) == Err::<Seq<char>, Seq<char>>(
            "persistent model-context thread did not provide a rollout path"@,
        ),
        recorded == thread_id ==> rollout_check(Some(rollout), recorded, thread_id) == Ok::<
            Seq<char>,
            Seq<char>,
        >(rollout),
        recorded != thread_id ==> rollout_check(Some(rollout), recorded, thread_id) == Err::<
            Seq<char>,
            Seq<char>,
        >("persistent model-context rollout belongs to another thread"@),
{
}

/// The cleanup of a turn succeeds if the claim does and then, for the host, if the context was
/// flushed and either the turn had completed or the shutdown succeeded; after an interrupt, if
/// the turn was stopped.
pub proof fn law_cleanup(
    claim: Result<TurnExitDisposition, Seq<char>>,
    completed: bool,
    detached: bool,
    stopped: bool,
)
    ensures
        ({
            let result = cleanup_outcome(claim, completed, detached, stopped);
            let flush = "failed to "@ + "flush"@ + " persistent model context"@;
            let shutdown = "failed to "@ + "shutdown"@ + " persistent model context"@;
            &&& claim is Err ==> result == Err::<(), Seq<char>>(claim->Err_0)
            &&& claim == Ok::<TurnExitDisposition, Seq<char>>(TurnExitDisposition::UserInterrupt)
                ==> result == if stopped {
                Ok::<(), Seq<char>>(())
            } else {
                Err("failed to terminate interrupted model turn"@)
            }
            &&& claim == Ok::<TurnExitDisposition, Seq<char>>(TurnExitDisposition::HostDetach) ==> {
                &&& detached && (completed || stopped) ==> result is Ok
                &&& detached && !completed && !stopped ==> result == Err::<(), Seq<char>>(shutdown)
                &&& !detached && stopped ==> result == Err::<(), Seq<char>>(flush)
                &&& !detached && !stopped ==> result == Err::<(), Seq<char>>(
                    flush + "; additionally: "@ + shutdown,
                )
            }
        }),
{
}

// ---------------------------------------------------------------------------------------------
// Defaults of a sign-in

/// Whether a preset can be offered: it is shown, and it works with the sign-in.
pub open spec fn offered(preset: ModelPresetModel, chatgpt_mode: bool) -> bool {
    preset.show_in_picker && (chatgpt_mode || preset.supported_in_api)
}

proof fn lemma_first_offered(
    picker: Seq<ModelPresetModel>,
    chatgpt_mode: bool,
    default_only: bool,
    i: int,
    k: int,
)
    requires
        0 <= i <= k < picker.len(),
        offered(picker[k], chatgpt_mode),
        default_only ==> picker[k].is_default,
        forall|j: int|
            i <= j < k ==> !(offered(#[trigger] picker[j], chatgpt_mode) && (default_only
                ==> picker[j].is_default)),
    ensures
        first_choosable(picker, chatgpt_mode, default_only, i) == Some(picker[k]),
    decreases k - i,
{
    if i < k {
        assert(!(offered(picker[i], chatgpt_mode) && (default_only ==> picker[i].is_default)));
        lemma_first_offered(picker, chatgpt_mode, default_only, i + 1, k);
    }
}

proof fn lemma_none_offered(
    picker: Seq<ModelPresetModel>,
    chatgpt_mode: bool,
    default_only: bool,
    i: int,
)
    requires
        0 <= i,
        forall|j: int|
            i <= j < picker.len() ==> !(offered(#[trigger] picker[j], chatgpt_mode) && (default_only
                ==> picker[j].is_default)),
    ensures
        first_choosable(picker, chatgpt_mode, default_only, i) is None,
    decreases picker.len() - i,
{
    if i < picker.len() {
        assert(!(offered(picker[i], chatgpt_mode) && (default_only ==> picker[i].is_default)));
        lemma_none_offered(picker, chatgpt_mode, default_only, i + 1);
    }
}

/// The default model is the first that is offered as the default, or else the first that is
/// offered. Where none is, there is no default.
pub proof fn law_first_offered_model_is_the_default(
    picker: Seq<ModelPresetModel>,
    chatgpt_mode: bool,
    k: int,
)
    ensures
        0 <= k < picker.len() && offered(picker[k], chatgpt_mode) && picker[k].is_default && (
        forall|j: int|
            0 <= j < k ==> !(offered(#[trigger] picker[j], chatgpt_mode) && picker[j].is_default))
            ==> default_preset(picker, chatgpt_mode) == Ok::<ModelPresetModel, Seq<char>>(
            picker[k],
        ),
        0 <= k < picker.len() && offered(picker[k], chatgpt_mode) && (forall|j: int|
            0 <= j < k ==> !offered(#[trigger] picker[j], chatgpt_mode)) && (forall|j: int|
            0 <= j < picker.len() ==> !(offered(#[trigger] picker[j], chatgpt_mode)
                && picker[j].is_default)) ==> default_preset(picker, chatgpt_mode) == Ok::<
            ModelPresetModel,
            Seq<char>,
        >(picker[k]),
        (forall|j: int| 0 <= j < picker.len() ==> !offered(#[trigger] picker[j], chatgpt_mode))
            ==> default_preset(picker, chatgpt_mode) == Err::<ModelPresetModel, Seq<char>>(
            "OAuth model picker produced no usable model"@,
        ),
{
    if 0 <= k < picker.len() && offered(picker[k], chatgpt_mode) {
        if picker[k].is_default && (forall|j: int|
            0 <= j < k ==> !(offered(#[trigger] picker[j], chatgpt_mode)
                && picker[j].is_default)) {
            lemma_first_offered(picker, chatgpt_mode, true, 0, k);
        }
        if (forall|j: int| 0 <= j < k ==> !offered(#[trigger] picker[j], chatgpt_mode)) && (forall|
            j: int,
        |
            0 <= j < picker.len() ==> !(offered(#[trigger] picker[j], chatgpt_mode)
                && picker[j].is_default)) {
            lemma_none_offered(picker, chatgpt_mode, true, 0);
            lemma_first_offered(picker, chatgpt_mode, false, 0, k);
        }
    }
    if forall|j: int| 0 <= j < picker.len() ==> !offered(#[trigger] picker[j], chatgpt_mode) {
        lemma_none_offered(picker, chatgpt_mode, true, 0);
        lemma_none_offered(picker, chatgpt_mode, false, 0);
    }
}

/// The default effort is medium where that is supported, or else the declared one, or else the
/// one in the middle.
pub proof fn law_default_efforts(
    supported: Seq<ReasoningEffortPresetModel>,
    declared: Option<ReasoningEffortModel>,
)
    ensures
        ({
            let effort = default_effort(supported, declared);
            let medium = exists|k: int|
                0 <= k < supported.len() && (#[trigger] supported[k]).effort.name == "medium"@;
            let known = declared is Some && exists|k: int|
                0 <= k < supported.len() && (#[trigger] supported[k]).effort.name
                    == declared->0.name;
            &&& medium ==> effort is Ok && effort->Ok_0.name == "medium"@
            &&& !medium && known ==> effort is Ok && effort->Ok_0 == declared->0
            &&& !medium && !known && supported.len() > 0 ==> effort is Ok && effort->Ok_0
                == supported[supported.len() as int / 2].effort
            &&& supported.len() == 0 ==> effort == Err::<ReasoningEffortModel, Seq<char>>(
                "OAuth default model has no usable reasoning effort"@,
            )
        }),
{
    let wanted = ReasoningEffortModel { name: "medium"@ };
    if exists|k: int| 0 <= k < supported.len() && (#[trigger] supported[k]).effort.name
        == "medium"@ {
        let k = choose|k: int|
            0 <= k < supported.len() && (#[trigger] supported[k]).effort.name == "medium"@;
        assert(supported[k].effort == wanted);
        assert(supports_effort(supported, wanted));
    } else {
        assert(!supports_effort(supported, wanted));
    }
    if declared is Some {
        if exists|k: int| 0 <= k < supported.len() && (#[trigger] supported[k]).effort.name
            == declared->0.name {
            let k = choose|k: int|
                0 <= k < supported.len() && (#[trigger] supported[k]).effort.name
                    == declared->0.name;
            assert(supported[k].effort == declared->0);
            assert(supports_effort(supported, declared->0));
        } else {
            assert(!supports_effort(supported, declared->0));
        }
    }
}

/// The defaults of an account are told for that account and that time: the model and its effort,
/// or why there are none.
pub proof fn law_defaults_are_told(
    account: Seq<char>,
    at: u128,
    preset: ModelPresetModel,
    supported: Seq<ReasoningEffortPresetModel>,
    declared: Option<ReasoningEffortModel>,
)
    ensures
        ({
            let told = resolved_defaults(account, at, preset, supported, declared);
            let effort = default_effort(supported, declared);
            &&& effort is Ok ==> told == (OAuthDefaultsResolutionModel::Available {
                account_id: account,
                fetched_at_unix_ms: at,
                model_slug: preset.model,
                display_name: preset.display_name,
                default_reasoning_effort: effort->Ok_0.name,
            })
            &&& effort is Err ==> told == (OAuthDefaultsResolutionModel::Unavailable {
                account_id: account,
                fetched_at_unix_ms: at,
                reason: "OAuth default model `"@ + preset.model + "` "@ + effort->Err_0,
            })
        }),
{
    let effort = default_effort(supported, declared);
    if effort is Err {
        assert("OAuth default model `"@ + preset.model + "` "@ + effort->Err_0
            =~= "OAuth default model `"@ + preset.model + ("` "@ + effort->Err_0));
    }
}

} // verus!
