use codex_ios::bridge::{
    codex_ios_tool_discovery_contract_version, emit, emit_debug_stage, emit_item_started_events,
    emit_turn_result, finish_host_detach_cleanup, finish_turn_after_cleanup,
    finish_turn_with_cleanup, interrupted_model_turn_cleanup_error, ios_error_payload,
    model_context_resume_error_class, model_context_resume_error_reason,
    persistent_model_context_resume_error, persistent_model_context_storage_error,
    tool_discovery_event_json, BridgeEvent, CodexErrorInfo, ErrorEvent, ResumeError,
    RolloutReadError, TurnEnd, TurnFailure, KIND_CONTEXT_COMPACTION_STARTED, KIND_DONE, KIND_ERROR,
    KIND_ITEM_STARTED, KIND_STARTUP_STAGE, KIND_STRUCTURED_ERROR, KIND_TURN_ABORTED,
    KIND_TURN_STARTING,
};
use codex_ios::commands::{
    codex_interrupt_turn, codex_respond_dynamic_tool, codex_steer_turn,
    codex_steer_turn_with_uploads, delivery_code, interrupt_code, rejected_input_code, steer_code,
    SteerInputError, SteerResult,
};
use codex_ios::config_text::{
    api_key_provider_config, parse_reasoning_effort, parse_service_tier, parse_ssh_authentication,
    parse_tmux_mode, parse_wire_api, toml_basic_string, ReasoningEffort, SshAuthentication,
    SshCredential, SshTmuxMode, WireApi,
};
use codex_ios::dynamic_tools::{
    agentapp_browser_tool_names, parse_agentapp_dynamic_tools_json,
    parse_dynamic_tool_content_items, parse_dynamic_tool_response, DecodedTools,
    DynamicToolArgumentHandling, DynamicToolArgumentIdentity, DynamicToolArgumentPolicy,
    DynamicToolCallOutputContentItem, DynamicToolFunction, DynamicToolNamespace, DynamicToolSpec,
};
use codex_ios::context::ImageDetail;
use codex_ios::json::Json;
use codex_ios::oauth::{
    resolve_oauth_defaults, resolve_oauth_effort, resolve_oauth_preset, ModelPreset,
    OAuthDefaultsResolution, ReasoningEffortPreset,
};
use codex_ios::paths::{
    join_remote_workspace_path, validate_relative_rollout_path, validate_upload_relative_path,
};
use codex_ios::registry::{TurnBridge, TurnExitDisposition, TurnRegistry};
use codex_ios::turn_args::{
    plan_download, plan_turn, server_mode, CArg, ProviderArguments, ProviderAuthConfig,
    ServerArguments, ServerMode, TurnArguments,
};
use codex_ios::turn_setup::{
    check_rollout, cleanup_result, developer_instructions, disable_upstream_multi_agent, lock_step,
    prior_history, read_thread_pointer, replay_keys, turn_model, turn_setup, write_thread_pointer,
    DecodedHistory, DecodedPointer, FeaturePolicy, LockAttempt, LockStep, PersistedThreadPointer,
    SandboxMode,
};
use codex_ios::uploads::{
    is_supported_image_upload, parse_server_file_uploads, prompt_image_uploads,
    require_regular_files, steering_user_input, ServerFileUpload, UserInput,
};
use codex_ios::warm_cache::{
    warm_thread_configuration, warm_thread_fingerprint, FingerprintPart, WarmThreadCache,
    WarmThreadEntry,
};

fn json(text: &str) -> Json {
    Json::parse(text).expect("JSON")
}

fn text(value: &str) -> CArg {
    CArg::Text(value.to_string())
}

fn events_of(events: &[BridgeEvent]) -> Vec<(i32, &str)> {
    events.iter().map(|event| (event.kind, event.text.as_str())).collect()
}

fn oauth_preset(model: &str, is_default: bool) -> ModelPreset {
    ModelPreset {
        model: model.to_string(),
        display_name: model.to_string(),
        is_default,
        show_in_picker: true,
        supported_in_api: true,
    }
}

fn named(name: &str) -> ReasoningEffort {
    ReasoningEffort { name: name.to_string() }
}

fn effort(name: &str) -> ReasoningEffortPreset {
    ReasoningEffortPreset { effort: named(name), description: String::new() }
}

#[test]
fn structured_error_payload_preserves_usage_limit_classification() {
    let error = ErrorEvent {
        message: "Usage limit reached".to_string(),
        codex_error_info: Some(CodexErrorInfo::UsageLimitExceeded),
    };
    let rate_limits = json(
        r#"{"limit_id":"codex","limit_name":"Codex","primary":null,"secondary":null,
            "credits":null,"individual_limit":null,"spend_control_reached":false,
            "plan_type":null,"rate_limit_reached_type":"workspace_member_credits_depleted"}"#,
    );

    let payload = ios_error_payload(&error, &Some(rate_limits));

    assert_eq!(
        json(&payload),
        json(
            r#"{"contract_version":1,"code":"usage_limit_exceeded",
                "message":"Usage limit reached",
                "rate_limits":{"limit_id":"codex","limit_name":"Codex","primary":null,
                "secondary":null,"credits":null,"individual_limit":null,
                "spend_control_reached":false,"plan_type":null,
                "rate_limit_reached_type":"workspace_member_credits_depleted"}}"#
        )
    );
    assert_eq!(KIND_STRUCTURED_ERROR, 18);
}

#[test]
fn structured_unauthorized_error_does_not_attach_unrelated_rate_limits() {
    let error = ErrorEvent {
        message: "Sign in again".to_string(),
        codex_error_info: Some(CodexErrorInfo::Unauthorized),
    };
    let rate_limits = json(
        r#"{"limit_id":null,"limit_name":null,"primary":null,"secondary":null,
            "credits":null,"individual_limit":null,"spend_control_reached":null,
            "plan_type":null,"rate_limit_reached_type":"rate_limit_reached"}"#,
    );

    let payload = ios_error_payload(&error, &Some(rate_limits));

    assert_eq!(
        json(&payload),
        json(r#"{"contract_version":1,"code":"unauthorized","message":"Sign in again"}"#)
    );
}

#[test]
fn structured_errors_carry_the_http_status_where_it_is_known() {
    let error = ErrorEvent {
        message: "no connection".to_string(),
        codex_error_info: Some(CodexErrorInfo::HttpConnectionFailed {
            http_status_code: Some(502),
        }),
    };
    assert_eq!(
        json(&ios_error_payload(&error, &None)),
        json(
            r#"{"contract_version":1,"code":"http_connection_failed","http_status_code":502,
                "message":"no connection"}"#
        )
    );
}

#[test]
fn oauth_default_policy_prefers_flag_then_ranked_picker_and_concrete_effort() {
    let ranked = vec![
        oauth_preset("strongest", false),
        oauth_preset("default", true),
        oauth_preset("other-default", true),
    ];
    assert_eq!(resolve_oauth_preset(&ranked, true).unwrap().model, "default");
    let no_default = vec![oauth_preset("strongest", false), oauth_preset("weaker", false)];
    assert_eq!(resolve_oauth_preset(&no_default, true).unwrap().model, "strongest");
    let mut hidden = oauth_preset("hidden", true);
    hidden.show_in_picker = false;
    assert_eq!(
        resolve_oauth_preset(&[hidden, oauth_preset("visible", false)], true).unwrap().model,
        "visible"
    );
    assert_eq!(
        resolve_oauth_effort(&[effort("low"), effort("medium")], Some(named("low"))).unwrap(),
        named("medium")
    );
}

#[test]
fn oauth_default_policy_uses_production_auth_filter_for_ffi_resolution() {
    let mut chatgpt_default = oauth_preset("chatgpt-default", true);
    chatgpt_default.supported_in_api = false;
    let api_picker_model = oauth_preset("api-picker-model", false);

    assert_eq!(
        resolve_oauth_preset(&[chatgpt_default.clone(), api_picker_model.clone()], true)
            .unwrap()
            .model,
        "chatgpt-default"
    );
    assert_eq!(
        resolve_oauth_preset(&[chatgpt_default, api_picker_model], false).unwrap().model,
        "api-picker-model"
    );
}

#[test]
fn oauth_default_policy_falls_back_to_supported_default_then_middle_and_errors_empty() {
    assert_eq!(
        resolve_oauth_effort(&[effort("low"), effort("high")], Some(named("high"))).unwrap(),
        named("high")
    );
    assert_eq!(
        resolve_oauth_effort(&[effort("low"), effort("high")], Some(named("medium"))).unwrap(),
        named("high")
    );
    assert!(resolve_oauth_preset(&[], true).is_err());
    assert!(resolve_oauth_effort(&[], None).is_err());
}

#[test]
fn oauth_defaults_are_explicit_about_what_is_missing() {
    let preset = oauth_preset("model-a", true);
    assert_eq!(
        resolve_oauth_defaults(
            "account".to_string(),
            7,
            &preset,
            &[effort("low"), effort("medium")],
            None,
        ),
        OAuthDefaultsResolution::Available {
            account_id: "account".to_string(),
            fetched_at_unix_ms: 7,
            model_slug: "model-a".to_string(),
            display_name: "model-a".to_string(),
            default_reasoning_effort: "medium".to_string(),
        }
    );
    assert_eq!(
        resolve_oauth_defaults("account".to_string(), 7, &preset, &[], None),
        OAuthDefaultsResolution::Unavailable {
            account_id: "account".to_string(),
            fetched_at_unix_ms: 7,
            reason: "OAuth default model `model-a` OAuth default model has no usable reasoning \
                     effort"
                .to_string(),
        }
    );
    assert_eq!(
        resolve_oauth_preset(&[], true).unwrap_err(),
        "OAuth model picker produced no usable model"
    );
}

#[test]
fn startup_stage_uses_a_dedicated_event_kind() {
    let event = emit_debug_stage("thread_reused");
    assert_eq!((event.kind, event.text.as_str()), (KIND_STARTUP_STAGE, "thread_reused"));
}

#[test]
fn events_hold_no_nul_characters() {
    assert_eq!(emit(KIND_ERROR, "a\0b").text, "ab");
    assert_eq!(emit(KIND_ERROR, "a b").text, "a b");
}

fn oauth_provider(access_token: &str) -> ProviderAuthConfig {
    ProviderAuthConfig::ChatgptOAuth {
        access_token: access_token.to_string(),
        id_token: "id-a".to_string(),
        account_id: "account-a".to_string(),
    }
}

fn fingerprint(provider: &ProviderAuthConfig, tools: &str, server: &Option<ServerMode>) -> u64 {
    warm_thread_fingerprint(
        provider,
        "gpt-test",
        "medium",
        "default",
        "/workspace",
        tools,
        server,
        &None,
    )
}

#[test]
fn warm_thread_fingerprint_tracks_turn_configuration() {
    let provider = oauth_provider("access-a");
    let same = fingerprint(&provider, "[]", &None);
    assert_eq!(same, fingerprint(&provider, "[]", &None));
    assert_ne!(same, fingerprint(&oauth_provider("access-b"), "[]", &None));
    assert_ne!(same, fingerprint(&provider, r#"[{"name":"new_tool"}]"#, &None));
}

fn server(authentication: SshAuthentication) -> ServerMode {
    ServerMode {
        connection_key: "connection".to_string(),
        session_key: "session".to_string(),
        host: "host".to_string(),
        port: 22,
        user: "user".to_string(),
        authentication,
        host_fingerprint: None,
        tmux_mode: SshTmuxMode::Preferred,
    }
}

#[test]
fn private_keys_count_by_their_contents() {
    let key = Some(server(SshAuthentication::PrivateKeyPath("/tmp/key".to_string())));
    let parts = warm_thread_configuration(
        &oauth_provider("access-a"),
        "gpt-test",
        "medium",
        "default",
        "/workspace",
        "[]",
        &key,
        &Some(vec![1, 2]),
    );
    assert_eq!(parts.len(), 4 + 5 + 6 + 1 + 1 + 2);
    assert_eq!(parts[13], FingerprintPart::Port(22));
    assert_eq!(parts[18], FingerprintPart::Bytes(vec![1, 2]));
    let unread = warm_thread_configuration(
        &oauth_provider("access-a"),
        "gpt-test",
        "medium",
        "default",
        "/workspace",
        "[]",
        &key,
        &None,
    );
    assert_eq!(unread[18], FingerprintPart::Text("/tmp/key".to_string()));
}

fn warm(thread: u64, fingerprint: u64, last_used: u64) -> WarmThreadEntry {
    WarmThreadEntry {
        fingerprint,
        thread,
        thread_id: format!("thread-{thread}"),
        session_model: "model".to_string(),
        rollout_path: format!("rollout-{thread}"),
        last_used,
    }
}

#[test]
fn warm_threads_are_reused_only_for_the_same_configuration_and_rollout() {
    let mut cache = WarmThreadCache::new();
    assert!(cache.cache_warm_thread("home".to_string(), warm(1, 10, 0), 1).is_empty());
    let (fitting, stale) =
        cache.take_warm_thread(&"home".to_string(), 10, &Some("rollout-1".to_string()));
    assert_eq!(fitting, Some(warm(1, 10, 1)));
    assert_eq!(stale, None);
    assert_eq!(
        cache.take_warm_thread(&"home".to_string(), 10, &Some("rollout-1".to_string())),
        (None, None)
    );

    cache.cache_warm_thread("home".to_string(), warm(2, 10, 0), 2);
    let (fitting, stale) =
        cache.take_warm_thread(&"home".to_string(), 11, &Some("rollout-2".to_string()));
    assert_eq!(fitting, None);
    assert_eq!(stale, Some(warm(2, 10, 2)));

    cache.cache_warm_thread("home".to_string(), warm(3, 10, 0), 3);
    assert_eq!(cache.take_warm_thread(&"home".to_string(), 10, &None).0, None);
}

#[test]
fn warm_threads_are_found_under_every_spelling_of_their_paths() {
    let mut cache = WarmThreadCache::new();
    cache.cache_warm_thread("/a/b".to_string(), warm(1, 10, 0), 1);
    let replaced = cache.cache_warm_thread("/a//b/".to_string(), warm(2, 10, 0), 2);
    assert_eq!(replaced, vec![warm(1, 10, 1)]);
    let (fitting, stale) =
        cache.take_warm_thread(&"/a/./b".to_string(), 10, &Some("rollout-2/".to_string()));
    assert_eq!(fitting, Some(warm(2, 10, 2)));
    assert_eq!(stale, None);
    assert!(cache.slots.is_empty());
}

#[test]
fn the_warm_cache_lets_the_oldest_thread_go() {
    let mut cache = WarmThreadCache::new();
    for index in 0..12 {
        let retired =
            cache.cache_warm_thread(format!("home-{index}"), warm(index, 1, 0), 100 - index);
        assert!(retired.is_empty());
    }
    let retired = cache.cache_warm_thread("home-12".to_string(), warm(12, 1, 0), 200);
    assert_eq!(retired, vec![warm(11, 1, 89)]);
    assert_eq!(cache.slots.len(), 12);

    let replaced = cache.cache_warm_thread("home-3".to_string(), warm(33, 1, 0), 300);
    assert_eq!(replaced, vec![warm(3, 1, 97)]);
    assert_eq!(cache.slots.len(), 12);

    let (fitting, _) =
        cache.take_warm_thread(&"home-12".to_string(), 1, &Some("rollout-12".to_string()));
    assert_eq!(fitting, Some(warm(12, 1, 200)));
}

#[test]
fn pre_submit_interrupt_gate_is_idempotent_and_registry_guard_cleans_up() {
    let mut registry = TurnRegistry::new();
    let (handle, event) = registry.register_starting_turn();

    assert_eq!((event.kind, event.text), (KIND_TURN_STARTING, handle.to_string()));
    assert!(!registry.startup_interrupt_requested(handle).expect("startup state"));
    assert_eq!(codex_interrupt_turn(&mut registry, handle), Some(0));
    assert!(registry.startup_interrupt_requested(handle).expect("interrupted startup state"));
    assert_eq!(
        registry.claim_turn_exit_disposition(handle).expect("interrupt disposition"),
        TurnExitDisposition::UserInterrupt
    );
    assert_eq!(codex_interrupt_turn(&mut registry, handle), Some(0));
    assert!(matches!(
        registry.turns.get(&handle),
        Some(TurnBridge::Starting { interrupt_requested: true, cleanup_claimed: true })
    ));

    registry.remove(handle);
    assert_eq!(codex_interrupt_turn(&mut registry, handle), Some(6));
}

#[test]
fn host_detach_claim_rejects_a_late_stop_instead_of_reporting_false_success() {
    let mut registry = TurnRegistry::new();
    let (handle, _) = registry.register_starting_turn();

    assert_eq!(
        registry.claim_turn_exit_disposition(handle).expect("host detach claim"),
        TurnExitDisposition::HostDetach
    );
    assert_eq!(codex_interrupt_turn(&mut registry, handle), Some(6));
    assert!(!registry.startup_interrupt_requested(handle).expect("not interrupted"));
    assert_eq!(
        registry.claim_turn_exit_disposition(handle).unwrap_err(),
        "turn cleanup was already claimed"
    );
}

#[test]
fn an_interrupt_during_startup_survives_activation() {
    let mut registry = TurnRegistry::new();
    let (handle, _) = registry.register_starting_turn();
    let (other, _) = registry.register_starting_turn();
    assert_ne!(handle, other);
    assert_eq!(codex_interrupt_turn(&mut registry, handle), Some(0));
    assert_eq!(registry.activate_turn(handle), Ok(true));
    assert_eq!(registry.activate_turn(other), Ok(false));
    assert!(!registry.accepts_input(handle));
    assert!(registry.accepts_input(other));
    assert_eq!(
        registry.activate_turn(handle).unwrap_err(),
        "turn handle was already activated"
    );
    assert_eq!(
        registry.startup_interrupt_requested(handle).unwrap_err(),
        "turn handle was already activated"
    );
    assert_eq!(codex_interrupt_turn(&mut registry, other), None);
    assert_eq!(interrupt_code(true), 0);
    assert_eq!(interrupt_code(false), 7);
    registry.remove(other);
    assert_eq!(
        registry.activate_turn(other).unwrap_err(),
        "turn handle was removed during startup"
    );
    assert_eq!(
        registry.startup_interrupt_requested(other).unwrap_err(),
        "unknown or finished turn handle"
    );
}

#[test]
fn an_interrupted_startup_is_aborted() {
    let mut registry = TurnRegistry::new();
    let (handle, _) = registry.register_starting_turn();
    assert_eq!(registry.abort_interrupted_startup(handle, Ok(())), Ok(None));
    codex_interrupt_turn(&mut registry, handle);
    let event = registry.abort_interrupted_startup(handle, Ok(())).expect("abort").expect("event");
    assert_eq!((event.kind, event.text.as_str()), (KIND_TURN_ABORTED, ""));
    let problem = registry
        .abort_interrupted_startup(handle, Err(codex_ios::admission::AdmissionError::Ambiguous))
        .unwrap_err();
    assert_eq!(problem, "AgentApp turn admission is ambiguous.");
}

fn upload(local_path: &str, relative_path: &str) -> ServerFileUpload {
    ServerFileUpload {
        local_path: local_path.to_string(),
        relative_path: relative_path.to_string(),
    }
}

#[test]
fn prompt_image_limit_matches_agentapp_picker_without_silent_truncation() {
    let uploads = (0..10)
        .map(|index| ServerFileUpload {
            local_path: format!("/tmp/image-{index}.png"),
            relative_path: format!("uploads/image-{index}.png"),
        })
        .collect::<Vec<_>>();
    assert_eq!(
        prompt_image_uploads(&uploads).expect("picker-sized image batch").len(),
        10
    );

    let mut overflow = uploads;
    overflow.push(ServerFileUpload {
        local_path: "/tmp/image-10.png".to_string(),
        relative_path: "uploads/image-10.png".to_string(),
    });
    assert_eq!(
        prompt_image_uploads(&overflow).expect_err("overflow must be explicit"),
        "too many prompt images: received 11, maximum is 10"
    );
}

#[test]
fn steering_upload_manifest_requires_bounded_unique_regular_files() {
    let valid = r#"[
        {"local_path":"/tmp/up/first.png","relative_path":"uploads/first.png"},
        {"local_path":"/tmp/up/second.pdf","relative_path":"uploads/second.pdf"}
    ]"#;
    assert_eq!(parse_server_file_uploads(valid).expect("valid manifest").len(), 2);

    let relative_local =
        r#"[{"local_path":"relative.png","relative_path":"uploads/relative.png"}]"#;
    assert!(parse_server_file_uploads(relative_local)
        .expect_err("local path must be absolute")
        .contains("must be absolute"));

    let duplicate = r#"[
        {"local_path":"/tmp/up/first.png","relative_path":"uploads/duplicate.png"},
        {"local_path":"/tmp/up/second.pdf","relative_path":"uploads/duplicate.png"}
    ]"#;
    assert!(parse_server_file_uploads(duplicate)
        .expect_err("remote destination must be unique")
        .contains("was duplicated"));

    let malformed = r#"[{"local_path":"/tmp/up/first.png","relative_path":"uploads//first.png"}]"#;
    assert!(parse_server_file_uploads(malformed)
        .expect_err("remote path must be normalized")
        .contains("normalized relative path"));

    let entries = (0..33)
        .map(|index| {
            format!(
                r#"{{"local_path":"/tmp/up/first.png","relative_path":"uploads/{index}.png"}}"#
            )
        })
        .collect::<Vec<_>>();
    let too_many = format!("[{}]", entries.join(","));
    assert!(parse_server_file_uploads(&too_many)
        .expect_err("manifest count must be bounded")
        .contains("maximum is 32"));
}

#[test]
fn steering_upload_manifest_rejects_local_symlinks() {
    assert_eq!(require_regular_files(&vec![true, true]), Ok(()));
    let problem = require_regular_files(&vec![true, false]).expect_err("symlink must be rejected");
    assert!(problem.contains("regular non-symlink file"));
    assert_eq!(problem, "uploads_json[1].local_path must be a regular non-symlink file");
}

#[test]
fn upload_manifests_name_the_entry_that_cannot_be_used() {
    assert_eq!(parse_server_file_uploads("  "), Ok(vec![]));
    assert_eq!(
        parse_server_file_uploads("{}").unwrap_err(),
        "uploads_json must be a JSON array"
    );
    assert!(parse_server_file_uploads("{not-json")
        .unwrap_err()
        .starts_with("uploads_json was not valid JSON: "));
    assert_eq!(
        parse_server_file_uploads(r#"[{"relative_path":"a"}]"#).unwrap_err(),
        "uploads_json[0].local_path must be a string"
    );
    assert_eq!(
        parse_server_file_uploads(r#"[{"local_path":"/a"}]"#).unwrap_err(),
        "uploads_json[0].relative_path must be a string"
    );
    assert_eq!(
        parse_server_file_uploads(r#"[{"local_path":" ","relative_path":"a"}]"#).unwrap_err(),
        "uploads_json[0].local_path was empty"
    );
    assert_eq!(
        parse_server_file_uploads(r#"[{"local_path":"/a","relative_path":"../a"}]"#).unwrap_err(),
        "uploads_json[0].relative_path must not contain '..' segments"
    );
}

#[test]
fn upload_paths_stay_inside_the_workspace() {
    assert_eq!(validate_upload_relative_path("uploads/a.png"), Ok(()));
    assert_eq!(validate_upload_relative_path("").unwrap_err(), "was empty");
    assert_eq!(validate_upload_relative_path("/a").unwrap_err(), "must be relative");
    assert_eq!(
        validate_upload_relative_path("a/../b").unwrap_err(),
        "must not contain '..' segments"
    );
    assert_eq!(
        validate_upload_relative_path("a/./b").unwrap_err(),
        "must be a normalized relative path"
    );
    assert_eq!(join_remote_workspace_path("/work//", "a/b"), "/work/a/b");
    assert_eq!(join_remote_workspace_path("/", "a"), "a");
    assert_eq!(join_remote_workspace_path("", "a"), "a");
}

#[test]
fn images_are_known_by_the_extension_of_their_file_name() {
    for path in ["a.png", "a/b.JPG", "a.b.jpeg", "x/y.gif", "z.WebP", "a.png/", "./a.png"] {
        assert!(is_supported_image_upload(path), "{path}");
    }
    for path in ["", ".png", "a.pdf", "png", "a.png/b", "..", "a/..", "a.", "a/.png"] {
        assert!(!is_supported_image_upload(path), "{path}");
    }
}

#[test]
fn model_context_resume_errors_are_content_free_stable_classes() {
    for (error, expected) in [
        (RolloutReadError::ResourceExhausted, "resource_exhausted"),
        (RolloutReadError::DecodedBytesTooLarge, "decoded_bytes_limit"),
        (RolloutReadError::RecordTooLarge, "record_size_limit"),
        (RolloutReadError::TooManyRecords, "record_count_limit"),
        (RolloutReadError::TruncatedRecord, "truncated_record"),
        (RolloutReadError::InvalidUtf8, "invalid_utf8"),
        (RolloutReadError::MalformedJson, "malformed_json"),
        (RolloutReadError::CompressedData, "compressed_data"),
    ] {
        assert_eq!(model_context_resume_error_class(&ResumeError::RolloutRead(error)), expected);
    }
    assert_eq!(
        model_context_resume_error_class(&ResumeError::Fatal(
            "private structural detail".to_string()
        )),
        "invalid_or_unavailable"
    );
    let receipt_gap = ResumeError::Fatal(
        "background session private has completed nonempty write_stdin call private \
         without a durable stdout cursor receipt"
            .to_string(),
    );
    assert_eq!(model_context_resume_error_reason(&receipt_gap), "remote_write_receipt_gap");
    let restoration = ResumeError::Fatal(
        "committed background session private did not resolve to one exact descriptor".to_string(),
    );
    assert_eq!(model_context_resume_error_reason(&restoration), "remote_session_restoration");
    let restoration_message = persistent_model_context_resume_error("thread_resume", &restoration);
    assert_eq!(
        restoration_message,
        "failed to resume persistent model context \
         [invalid_or_unavailable;stage=thread_resume;reason=remote_session_restoration]"
    );
    assert!(!restoration_message.contains("background session private"));
    let public_message = persistent_model_context_resume_error("thread_resume", &receipt_gap);
    assert_eq!(
        public_message,
        "failed to resume persistent model context \
         [invalid_or_unavailable;stage=thread_resume;reason=remote_write_receipt_gap]"
    );
    assert!(!public_message.contains("background session private"));
    assert!(!public_message.contains("write_stdin call private"));
}

/// What the host sees of a turn that fails during its startup.
fn events_of_failed_startup(problem: String) -> Vec<BridgeEvent> {
    let (_, starting) = TurnRegistry::new().register_starting_turn();
    let mut events = vec![starting];
    events.extend(emit_turn_result(&TurnEnd::Failed(TurnFailure::from(problem))));
    events
}

#[test]
fn failed_model_context_resume_preserves_pointer_and_rollout() {
    let relative_rollout = "sessions/thread.jsonl";
    let events = events_of_failed_startup(persistent_model_context_resume_error(
        "execution_reconciliation",
        &ResumeError::RolloutRead(RolloutReadError::MalformedJson),
    ));
    assert_eq!(
        events.iter().map(|event| event.kind).collect::<Vec<_>>(),
        vec![KIND_TURN_STARTING, KIND_ERROR]
    );
    assert_eq!(
        events[1].text,
        "failed to resume persistent model context \
         [malformed_json;stage=execution_reconciliation;reason=rollout_read]"
    );
    assert!(
        !events[1].text.contains(relative_rollout),
        "public resume errors must not expose the rollout path"
    );
    assert!(
        !events[0].text.contains("not a valid rollout"),
        "public resume errors must not expose record content"
    );
}

#[test]
fn truncated_model_context_resume_preserves_typed_failure() {
    let events = events_of_failed_startup(persistent_model_context_resume_error(
        "execution_reconciliation",
        &ResumeError::RolloutRead(RolloutReadError::TruncatedRecord),
    ));
    assert_eq!(
        events.iter().map(|event| event.kind).collect::<Vec<_>>(),
        vec![KIND_TURN_STARTING, KIND_ERROR]
    );
    assert_eq!(
        events[1].text,
        "failed to resume persistent model context \
         [truncated_record;stage=execution_reconciliation;reason=rollout_read]"
    );
}

#[test]
fn persistent_model_context_storage_errors_hide_internal_details() {
    let private_detail = "/private/context/sessions/rollout.jsonl: malformed secret record";

    for operation in ["materialize", "validate"] {
        let public_message = persistent_model_context_storage_error(operation, private_detail);
        assert_eq!(
            public_message,
            format!("failed to {operation} persistent model context")
        );
        assert!(!public_message.contains(private_detail));
        assert!(!public_message.contains("/private/context"));
    }

    let public_message = interrupted_model_turn_cleanup_error(private_detail);
    assert_eq!(public_message, "failed to terminate interrupted model turn");
    assert!(!public_message.contains(private_detail));
    assert!(!public_message.contains("/private/context"));
}

fn end_of(result: Result<(), TurnFailure>) -> TurnEnd {
    match result {
        Ok(()) => TurnEnd::Finished,
        Err(failure) => TurnEnd::Failed(failure),
    }
}

#[test]
fn protected_turn_post_error_failures_never_cross_ffi() {
    let private_event_error =
        "event stream error: /private/context/rollout.jsonl contains secret arguments";
    let private_cleanup_error =
        "failed to finish model-context host detach: secret transport detail";
    let mut events = vec![emit(KIND_ERROR, "A protected turn failed.")];

    for (turn_result, cleanup_result) in [
        (Err(private_event_error.to_string()), Ok(())),
        (Ok(()), Err(private_cleanup_error.to_string())),
    ] {
        let result = finish_turn_with_cleanup(true, turn_result, cleanup_result);
        assert!(
            matches!(&result, Err(TurnFailure::ProtectedAlreadyReported)),
            "post-error failure must retain failure semantics"
        );
        events.extend(emit_turn_result(&end_of(result)));
    }

    assert_eq!(events_of(&events), vec![(KIND_ERROR, "A protected turn failed.")]);
    assert!(events.iter().all(|event| {
        !event.text.contains(private_event_error)
            && !event.text.contains(private_cleanup_error)
            && !event.text.contains("/private/context")
            && !event.text.contains("secret transport detail")
    }));
}

#[test]
fn done_is_emitted_only_after_successful_persistence_cleanup() {
    let (mut events, success) = finish_turn_after_cleanup(true, false, Ok(()), Ok(()));
    events.extend(emit_turn_result(&end_of(success)));
    assert_eq!(events_of(&events), vec![(KIND_DONE, "")]);

    let private_detail = "/private/context/rollout.jsonl: secret record";
    let cleanup_error = persistent_model_context_storage_error("shutdown", private_detail);
    let (mut events, failure) =
        finish_turn_after_cleanup(true, false, Ok(()), Err(cleanup_error));
    events.extend(emit_turn_result(&end_of(failure)));
    assert_eq!(
        events_of(&events),
        vec![(KIND_ERROR, "failed to shutdown persistent model context")]
    );
    assert!(events.iter().all(|event| !event.text.contains(private_detail)));
}

#[test]
fn completed_turn_survives_post_detach_shutdown_failure() {
    let private_detail = "/private/context/rollout.jsonl: secret SessionEnd failure";
    let shutdown_error = persistent_model_context_storage_error("shutdown", private_detail);
    let cleanup_result = finish_host_detach_cleanup(true, Ok(()), Err(shutdown_error));

    let (mut events, result) = finish_turn_after_cleanup(true, false, Ok(()), cleanup_result);
    events.extend(emit_turn_result(&end_of(result)));

    assert_eq!(events_of(&events), vec![(KIND_DONE, "")]);
    assert!(events.iter().all(|event| {
        !event.text.contains(private_detail) && !event.text.contains("/private/context")
    }));
}

#[test]
fn completed_turn_still_fails_when_host_detach_durability_barrier_fails() {
    let detach_error = persistent_model_context_storage_error(
        "flush",
        "/private/context/rollout.jsonl: secret flush failure",
    );
    let cleanup_result = finish_host_detach_cleanup(true, Err(detach_error), Ok(()));

    let (mut events, result) = finish_turn_after_cleanup(true, false, Ok(()), cleanup_result);
    events.extend(emit_turn_result(&end_of(result)));

    assert_eq!(
        events_of(&events),
        vec![(KIND_ERROR, "failed to flush persistent model context")]
    );
}

#[test]
fn bridge_never_emits_done_when_rollout_flush_and_shutdown_fail() {
    let cleanup = cleanup_result(Ok(TurnExitDisposition::HostDetach), true, false, false);
    let (mut events, result) = finish_turn_after_cleanup(true, false, Ok(()), cleanup);
    events.extend(emit_turn_result(&end_of(result)));
    assert!(!events.iter().any(|event| event.kind == KIND_DONE));
    let errors = events
        .iter()
        .filter(|event| event.kind == KIND_ERROR)
        .map(|event| event.text.as_str())
        .collect::<Vec<_>>();
    assert_eq!(errors.len(), 1);
    assert!(errors[0].contains("failed to flush persistent model context"));
    assert!(errors[0].contains("failed to shutdown persistent model context"));
    assert!(!errors[0].contains("/private/context"));
    assert!(!errors[0].contains("rollout.jsonl"));
}

#[test]
fn interrupted_turns_are_only_stopped() {
    assert_eq!(cleanup_result(Ok(TurnExitDisposition::UserInterrupt), false, false, true), Ok(()));
    assert_eq!(
        cleanup_result(Ok(TurnExitDisposition::UserInterrupt), false, true, false).unwrap_err(),
        "failed to terminate interrupted model turn"
    );
    assert_eq!(
        cleanup_result(Err("gone".to_string()), true, true, true).unwrap_err(),
        "gone"
    );
    assert_eq!(
        cleanup_result(Ok(TurnExitDisposition::HostDetach), false, true, false).unwrap_err(),
        "failed to shutdown persistent model context"
    );
}

#[test]
fn two_failures_are_told_together() {
    assert_eq!(
        finish_turn_with_cleanup(false, Err("a".to_string()), Err("b".to_string())),
        Err(TurnFailure::Public("a; additionally: b".to_string()))
    );
    assert_eq!(
        TurnFailure::from("a".to_string()),
        TurnFailure::Public("a".to_string())
    );
    assert_eq!(
        events_of(&emit_turn_result(&TurnEnd::Panicked)),
        vec![(KIND_ERROR, "panic during turn")]
    );
}

#[test]
fn password_authentication_preserves_secret_without_temp_file() {
    let secret = " password with spaces ".to_string();
    let credential = parse_ssh_authentication("password", secret.clone()).expect("password auth");
    match credential {
        SshCredential::Password(password) => assert_eq!(password, secret),
        SshCredential::PrivateKey(_) => panic!("expected password authentication"),
    }
}

#[test]
fn private_keys_are_known_by_three_names() {
    for method in ["private_key", " PrivateKey ", "key"] {
        assert_eq!(
            parse_ssh_authentication(method, "pem".to_string()),
            Ok(SshCredential::PrivateKey("pem".to_string()))
        );
    }
    assert_eq!(
        parse_ssh_authentication("Agent", "pem".to_string()).unwrap_err(),
        "unsupported ssh authentication method `agent`; expected private_key or password"
    );
}

#[test]
fn tmux_modes_parse_to_their_execution_policies() {
    assert_eq!(parse_tmux_mode("").expect("default mode"), SshTmuxMode::Required);
    assert_eq!(parse_tmux_mode("preferred").expect("preferred mode"), SshTmuxMode::Preferred);
    assert_eq!(parse_tmux_mode("off").expect("disabled alias"), SshTmuxMode::Disabled);
    assert!(parse_tmux_mode("sometimes").is_err());
    assert_eq!(
        parse_tmux_mode("Sometimes").unwrap_err(),
        "unsupported ssh tmux mode `sometimes`; expected required, preferred, or disabled"
    );
}

#[test]
fn reasoning_effort_supports_automatic_known_and_future_values() {
    assert_eq!(parse_reasoning_effort("", &None).unwrap(), None);
    assert_eq!(parse_reasoning_effort("xhigh", &None).unwrap(), Some(named("xhigh")));
    assert_eq!(parse_reasoning_effort("future-tier", &None).unwrap(), Some(named("future-tier")));
    assert_eq!(
        parse_reasoning_effort(" bad ", &Some("no".to_string())).unwrap_err(),
        "invalid reasoning effort `bad`: no"
    );
}

#[test]
fn wire_apis_and_tiers_are_read_from_settings() {
    assert_eq!(parse_wire_api(" "), Ok(WireApi::Responses));
    assert_eq!(parse_wire_api("responses"), Ok(WireApi::Responses));
    assert_eq!(parse_wire_api("chat_completions"), Ok(WireApi::ChatCompletions));
    assert_eq!(
        parse_wire_api("a\"b").unwrap_err(),
        "unsupported wire_api \"a\\\"b\"; expected \"responses\" or \"chat_completions\""
    );
    assert_eq!(parse_service_tier(" "), None);
    assert_eq!(parse_service_tier("fast"), Some("priority".to_string()));
    assert_eq!(parse_service_tier(" flex "), Some("flex".to_string()));
}

#[test]
fn provider_configurations_quote_their_url() {
    assert_eq!(
        toml_basic_string("a\"b\\c\n\r\t\u{1}\u{7f}\u{9f}é"),
        "\"a\\\"b\\\\c\\n\\r\\t\\u0001\\u007F\\u009Fé\""
    );
    assert_eq!(
        api_key_provider_config("http://localhost/v1", WireApi::ChatCompletions),
        "model_provider = \"ios-apikey\"\n\n[model_providers.ios-apikey]\nname = \"iOS API key\"\n\
         base_url = \"http://localhost/v1\"\nwire_api = \"chat_completions\"\n\
         requires_openai_auth = false\nsupports_websockets = false\n"
    );
}

fn function(name: &str, argument_handling: DynamicToolArgumentHandling) -> DynamicToolFunction {
    DynamicToolFunction { name: name.to_string(), argument_handling, body: Json::Null }
}

fn root(name: &str) -> DynamicToolSpec {
    DynamicToolSpec::Function(function(name, DynamicToolArgumentHandling::Persistent))
}

fn parsed(specs: Vec<DynamicToolSpec>) -> Result<Vec<DynamicToolSpec>, String> {
    parse_agentapp_dynamic_tools_json("[...]", &DecodedTools::Specs(specs))
}

#[test]
fn browser_argument_policy_is_bridge_owned_and_present_when_catalog_is_off() {
    let tools = parsed(vec![]).expect("Off catalog");
    assert_eq!(tools.len(), 1);
    let DynamicToolSpec::ArgumentPolicy(policy) = &tools[0] else {
        panic!("privacy-only policy");
    };
    assert!(policy.trusted);
    let names = agentapp_browser_tool_names();
    assert_eq!(names.len(), 7);
    assert_eq!(policy.tools.len(), names.len() * 3);
    for name in names {
        let identity = policy
            .tools
            .iter()
            .find(|identity| identity.name == name)
            .expect("canonical identity");
        assert!(
            identity.match_any_namespace,
            "canonical browser names stay protected across namespace shifts"
        );
        let suffix = name.strip_prefix("agentapp_browser_").expect("canonical browser prefix");
        assert!(policy.tools.contains(&DynamicToolArgumentIdentity {
            namespace: None,
            name: format!("browser.{suffix}"),
            match_any_namespace: true,
            match_case_insensitive: true,
        }));
        assert!(policy.tools.contains(&DynamicToolArgumentIdentity {
            namespace: Some("browser".to_string()),
            name: suffix.to_string(),
            match_any_namespace: false,
            match_case_insensitive: true,
        }));
    }
}

#[test]
fn bridge_marks_exact_browser_functions_transient_and_leaves_other_tools_persistent() {
    let names = agentapp_browser_tool_names();
    let mut specs = names.iter().map(|name| root(name)).collect::<Vec<_>>();
    specs.push(root("ordinary_tool"));
    let tools = parsed(specs).expect("bridge tools");

    let functions = tools
        .iter()
        .filter_map(|spec| match spec {
            DynamicToolSpec::Function(function) => Some(function),
            _ => None,
        })
        .collect::<Vec<_>>();
    assert_eq!(functions.len(), names.len() + 1);
    for function in functions {
        let expected = if names.contains(&function.name) {
            DynamicToolArgumentHandling::Transient
        } else {
            DynamicToolArgumentHandling::Persistent
        };
        assert_eq!(function.argument_handling, expected);
    }
}

#[test]
fn bridge_rejects_client_supplied_privacy_authority() {
    let client_policy = DynamicToolSpec::ArgumentPolicy(DynamicToolArgumentPolicy {
        trusted: false,
        tools: vec![DynamicToolArgumentIdentity {
            namespace: None,
            name: "exec_command".to_string(),
            match_any_namespace: true,
            match_case_insensitive: false,
        }],
    });
    assert!(parsed(vec![client_policy])
        .expect_err("client policy must fail")
        .contains("cannot supply argument privacy policies"));

    let transient = DynamicToolSpec::Function(function(
        "exec_command",
        DynamicToolArgumentHandling::Transient,
    ));
    assert!(parsed(vec![transient])
        .expect_err("client transient function must fail")
        .contains("cannot set transient argument handling"));
}

#[test]
fn bridge_reserves_browser_names_across_case_and_namespaces() {
    let tools = parsed(vec![root("AGENTAPP_BROWSER_ACT")]).expect("case variant tool");
    let DynamicToolSpec::Function(act) = &tools[0] else {
        panic!("function");
    };
    assert_eq!(act.argument_handling, DynamicToolArgumentHandling::Transient);

    for namespace in ["", "mcp_server"] {
        let collision = DynamicToolSpec::Namespace(DynamicToolNamespace {
            name: namespace.to_string(),
            tools: vec![function(
                "agentapp_browser_act",
                DynamicToolArgumentHandling::Persistent,
            )],
            body: Json::Null,
        });
        assert!(parsed(vec![collision])
            .expect_err("reserved browser name must not be namespaced")
            .contains("reserved for the root namespace"));
    }
}

#[test]
fn dynamic_tools_are_optional_and_must_decode() {
    let failed = DecodedTools::Failed("line 1".to_string());
    assert_eq!(parse_agentapp_dynamic_tools_json("  ", &failed).expect("none").len(), 1);
    assert_eq!(
        parse_agentapp_dynamic_tools_json("[", &failed).unwrap_err(),
        "failed to parse dynamic_tools_json: line 1"
    );
}

#[test]
fn tool_responses_are_read_from_text_or_content_items() {
    let response = parse_dynamic_tool_response(&json(r#"{"text":"42","success":false}"#)).unwrap();
    assert!(!response.success);
    assert_eq!(
        response.content_items,
        vec![DynamicToolCallOutputContentItem::InputText { text: "42".to_string() }]
    );
    let response = parse_dynamic_tool_response(&json("{}")).unwrap();
    assert!(response.success);
    assert_eq!(
        response.content_items,
        vec![DynamicToolCallOutputContentItem::InputText { text: String::new() }]
    );
    let items = parse_dynamic_tool_content_items(&json(
        r#"{"contentItems":[{"type":"inputText","text":"a"},
            {"type":"input_image","image_url":"data:x","detail":"high"},
            {"type":"inputImage","imageUrl":"data:y"}]}"#,
    ))
    .unwrap()
    .unwrap();
    assert_eq!(
        items,
        vec![
            DynamicToolCallOutputContentItem::InputText { text: "a".to_string() },
            DynamicToolCallOutputContentItem::InputImage {
                image_url: "data:x".to_string(),
                detail: Some(ImageDetail::High),
            },
            DynamicToolCallOutputContentItem::InputImage {
                image_url: "data:y".to_string(),
                detail: None,
            },
        ]
    );
    for bad in [
        r#"{"content_items":1}"#,
        r#"{"content_items":[{"text":"a"}]}"#,
        r#"{"content_items":[{"type":"other"}]}"#,
        r#"{"content_items":[{"type":"input_image","image_url":"x","detail":"best"}]}"#,
    ] {
        assert_eq!(parse_dynamic_tool_content_items(&json(bad)), Err(()), "{bad}");
    }
    assert_eq!(parse_dynamic_tool_content_items(&json("{}")), Ok(None));
}

#[test]
fn tool_replies_reach_only_live_turns() {
    let mut registry = TurnRegistry::new();
    let (handle, _) = registry.register_starting_turn();
    let id = text("call-1");
    let good = text(r#"{"text":"42","success":true}"#);
    let reply = |registry: &TurnRegistry, id: &CArg, response: &CArg| {
        codex_respond_dynamic_tool(registry, handle, id, response)
    };
    assert_eq!(reply(&registry, &CArg::Null, &good).unwrap_err(), 1);
    assert_eq!(reply(&registry, &id, &CArg::Null).unwrap_err(), 2);
    assert_eq!(reply(&registry, &id, &text("{")).unwrap_err(), 3);
    assert_eq!(reply(&registry, &id, &text(r#"{"content_items":1}"#)).unwrap_err(), 3);
    assert_eq!(reply(&registry, &id, &good).unwrap_err(), 6);
    registry.activate_turn(handle).unwrap();
    let taken = reply(&registry, &id, &good).unwrap();
    assert_eq!(taken.call_id, "call-1");
    assert!(!taken.response.contains_image());
    assert_eq!(delivery_code(true), 0);
    assert_eq!(delivery_code(false), 5);
    codex_interrupt_turn(&mut registry, handle);
    assert_eq!(reply(&registry, &id, &good).unwrap_err(), 6);
}

#[test]
fn steering_rejects_invalid_text_and_expired_handles() {
    let registry = TurnRegistry::new();
    assert_eq!(codex_steer_turn(&registry, 1, &CArg::Null).unwrap_err(), 1);
    assert_eq!(codex_steer_turn(&registry, 1, &text("   ")).unwrap_err(), 2);
    let change = text("Please change direction.");
    assert_eq!(codex_steer_turn(&registry, u64::MAX, &change).unwrap_err(), 6);
    assert_eq!(
        codex_steer_turn_with_uploads(&registry, u64::MAX, &change, &text("{not-json"))
            .unwrap_err(),
        8
    );
}

#[test]
fn starting_turn_handle_rejects_attachment_steering_until_ready() {
    let mut registry = TurnRegistry::new();
    let (handle, event) = registry.register_starting_turn();
    let said = text("Inspect this attachment.");
    let uploads = text("[]");

    assert_eq!(
        codex_steer_turn_with_uploads(&registry, handle, &said, &uploads).unwrap_err(),
        6
    );
    assert_eq!((event.kind, event.text), (KIND_TURN_STARTING, handle.to_string()));

    registry.activate_turn(handle).unwrap();
    let steering =
        codex_steer_turn_with_uploads(&registry, handle, &said, &uploads).expect("steering");
    assert_eq!(steering.input.len(), 1);
    assert!(steering.uploads.is_empty());
}

#[test]
fn steering_outcomes_have_their_codes() {
    assert_eq!(rejected_input_code(SteerInputError::NoActiveTurn), 6);
    assert_eq!(rejected_input_code(SteerInputError::ExpectedTurnMismatch), 6);
    assert_eq!(rejected_input_code(SteerInputError::ActiveTurnNotSteerable), 6);
    assert_eq!(rejected_input_code(SteerInputError::EmptyInput), 2);
    assert_eq!(steer_code(&SteerResult::Accepted), 0);
    assert_eq!(steer_code(&SteerResult::Rejected(SteerInputError::EmptyInput)), 2);
    assert_eq!(steer_code(&SteerResult::Panicked), 7);
}

#[test]
fn attachment_steering_builds_text_and_local_image_input_without_silent_truncation() {
    let uploads = vec![
        upload("/tmp/screenshot.png", "uploads/screenshot.png"),
        upload("/tmp/report.pdf", "uploads/report.pdf"),
    ];
    let input = steering_user_input("Please inspect both attachments.".to_string(), &uploads)
        .expect("valid steering input");
    assert_eq!(input.len(), 2);
    assert!(matches!(
        &input[0],
        UserInput::Text { text } if text == "Please inspect both attachments."
    ));
    assert!(matches!(
        &input[1],
        UserInput::LocalImage { path, .. } if path == "/tmp/screenshot.png"
    ));
}

#[test]
fn model_context_pointer_rejects_absolute_and_parent_paths() {
    assert!(validate_relative_rollout_path("sessions/thread.jsonl").is_ok());
    assert!(validate_relative_rollout_path("").is_err());
    assert!(validate_relative_rollout_path("/tmp/thread.jsonl").is_err());
    assert!(validate_relative_rollout_path("../thread.jsonl").is_err());
}

#[test]
fn model_context_pointer_round_trips_inside_context_home() {
    let pointer = write_thread_pointer(
        "/home",
        "thread-1".to_string(),
        "/home/sessions/2026/thread.jsonl",
        Some("sessions/2026/thread.jsonl".to_string()),
    )
    .expect("write pointer");
    assert_eq!(pointer.version, 1);
    assert_eq!(pointer.thread_id, "thread-1");
    assert_eq!(
        read_thread_pointer(&DecodedPointer::Pointer(pointer)).expect("read pointer"),
        Some("sessions/2026/thread.jsonl".to_string())
    );
    assert_eq!(read_thread_pointer(&DecodedPointer::Missing), Ok(None));
}

#[test]
fn model_context_pointer_refuses_rollouts_outside_context_home() {
    let error = write_thread_pointer("/home", "thread-1".to_string(), "/elsewhere", None)
        .expect_err("outside rollout must fail");
    assert!(error.contains("outside model-context home"));
    assert_eq!(error, "rollout path /elsewhere is outside model-context home /home");
}

#[test]
fn malformed_model_context_pointer_surfaces_error_without_replacement() {
    let error = read_thread_pointer(&DecodedPointer::Malformed { error: "key".to_string() })
        .expect_err("malformed pointer");
    let events = events_of_failed_startup(error);
    assert_eq!(
        events.iter().map(|event| event.kind).collect::<Vec<_>>(),
        vec![KIND_TURN_STARTING, KIND_ERROR]
    );
    assert!(events[1].text.contains("invalid model-context pointer"));
    let escape = PersistedThreadPointer {
        version: 1,
        thread_id: "thread-1".to_string(),
        rollout_path: "a/../../b".to_string(),
    };
    assert_eq!(
        read_thread_pointer(&DecodedPointer::Pointer(escape)).unwrap_err(),
        "rollout pointer contains an unsafe path component"
    );
    let unreadable = DecodedPointer::Unreadable {
        path: "/home/agentapp-thread.json".to_string(),
        error: "denied".to_string(),
    };
    assert_eq!(
        read_thread_pointer(&unreadable).unwrap_err(),
        "failed to read model-context pointer /home/agentapp-thread.json: denied"
    );
}

#[test]
fn rollouts_are_checked_before_a_pointer_is_written() {
    let id = "thread-1".to_string();
    assert_eq!(check_rollout(Some("/r".to_string()), &id, &id), Ok("/r".to_string()));
    assert_eq!(
        check_rollout(None, &id, &id).unwrap_err(),
        "persistent model-context thread did not provide a rollout path"
    );
    assert_eq!(
        check_rollout(Some("/r".to_string()), &"thread-2".to_string(), &id).unwrap_err(),
        "persistent model-context rollout belongs to another thread"
    );
}

#[test]
fn context_compaction_start_emits_dedicated_and_generic_events() {
    let compaction_json = "{\"item\":\"compaction\"}";
    let regular_json = "{\"item\":\"message\"}";
    let mut events = emit_item_started_events(&Some(compaction_json.to_string()), true);
    events.extend(emit_item_started_events(&Some(regular_json.to_string()), false));
    assert_eq!(
        events_of(&events),
        vec![
            (KIND_ITEM_STARTED, compaction_json),
            (KIND_CONTEXT_COMPACTION_STARTED, compaction_json),
            (KIND_ITEM_STARTED, regular_json),
        ]
    );
    assert!(emit_item_started_events(&None, true).is_empty());
}

#[test]
fn tool_discovery_event_is_versioned_and_content_free() {
    assert_eq!(codex_ios_tool_discovery_contract_version(), 1);
    let payload = tool_discovery_event_json("search_loaded");
    let Json::Object(members) = json(&payload) else {
        panic!("discovery object");
    };
    assert_eq!(members.len(), 2);
    assert_eq!(
        json(&payload),
        json(r#"{"contract_version":1,"event":"search_loaded"}"#)
    );
    assert_eq!(payload, r#"{"contract_version":1,"event":"search_loaded"}"#);
    for forbidden in [
        "prompt",
        "query",
        "arguments",
        "url",
        "credentials",
        "filename",
        "output",
        "conversation",
        "call_id",
        "turn_id",
        "node_id",
    ] {
        assert!(members.iter().all(|member| member.key != forbidden));
    }
}

fn arguments(server: Option<ServerArguments>) -> TurnArguments {
    TurnArguments {
        provider: ProviderArguments::ApiKey {
            base_url: text("http://localhost/v1"),
            api_key: text("key"),
            wire_api: CArg::Null,
        },
        model: text("model-a"),
        reasoning_effort: CArg::Null,
        service_tier: CArg::Null,
        prompt: text("hello"),
        history_json: CArg::Null,
        context_home: text("/home"),
        workspace: text("/work"),
        dynamic_tools_json: CArg::Null,
        uploads_json: CArg::Null,
        server,
    }
}

fn server_arguments() -> ServerArguments {
    ServerArguments {
        connection_key: CArg::Null,
        session_key: text("  "),
        host: text("example.org"),
        port: 2222,
        user: text("me"),
        auth_method: text("password"),
        secret: text("secret"),
        fingerprint: text(" "),
        tmux_mode: CArg::Null,
    }
}

#[test]
fn turns_are_planned_from_their_arguments() {
    let plan = plan_turn(&arguments(Some(server_arguments()))).expect("plan");
    assert_eq!(
        plan.provider,
        ProviderAuthConfig::ApiKey {
            base_url: "http://localhost/v1".to_string(),
            api_key: "key".to_string(),
            wire_api: WireApi::Responses,
        }
    );
    assert_eq!(plan.reasoning_effort, "");
    assert!(plan.uploads.is_empty());
    let server = plan.server.clone().expect("server");
    assert_eq!(server.connection_key, "me@example.org:2222");
    assert_eq!(server.session_key, "me@example.org:2222:/work");
    assert_eq!(server.host_fingerprint, None);
    assert_eq!(server.tmux_mode, SshTmuxMode::Required);
    let mode = server_mode(server, "/tmp/key".to_string());
    assert_eq!(mode.authentication, SshAuthentication::Password("secret".to_string()));

    let setup = turn_setup(&plan);
    assert_eq!(setup.sandbox_mode, SandboxMode::DangerFullAccess);
    assert!(setup.features.shell_tool && setup.features.unified_exec);
    assert!(!setup.features.agents_enabled);
    assert!(!setup.temporary_home);
    assert_eq!(setup.model_provider.as_deref(), Some("ios-apikey"));
    assert_eq!(setup.cwd.as_deref(), Some("/work"));
    assert!(setup.config_toml.expect("config").contains("wire_api = \"responses\""));
}

#[test]
fn the_first_argument_that_cannot_be_used_is_named() {
    let mut missing = arguments(None);
    missing.prompt = CArg::Null;
    assert_eq!(plan_turn(&missing).unwrap_err(), "prompt pointer was null");
    missing.model = CArg::NotUtf8 { error: "bad byte".to_string() };
    assert_eq!(plan_turn(&missing).unwrap_err(), "model was not valid UTF-8: bad byte");
    let mut login = arguments(None);
    login.provider = ProviderArguments::ChatgptOAuth {
        access_token: text("a"),
        id_token: text("b"),
        account_id: CArg::Null,
    };
    assert_eq!(plan_turn(&login).unwrap_err(), "account_id pointer was null");
    let mut server = server_arguments();
    server.tmux_mode = text("sometimes");
    assert_eq!(
        plan_turn(&arguments(Some(server))).unwrap_err(),
        "unsupported ssh tmux mode `sometimes`; expected required, preferred, or disabled"
    );
}

#[test]
fn downloads_are_planned_from_their_arguments() {
    let plan = plan_download(&server_arguments(), &text("/work"), &text("a"), &text("/tmp/a"))
        .expect("plan");
    assert_eq!(plan.host, "example.org");
    assert_eq!(plan.credential, SshCredential::Password("secret".to_string()));
    assert_eq!(plan.host_fingerprint, None);
    assert_eq!(
        plan_download(&server_arguments(), &text("/work"), &CArg::Null, &text("/tmp/a"))
            .unwrap_err(),
        "remote_path pointer was null"
    );
}

#[test]
fn local_turns_have_no_shell() {
    let mut args = arguments(None);
    args.context_home = text(" ");
    args.model = text(" ");
    args.workspace = CArg::Null;
    args.service_tier = text("fast");
    let plan = plan_turn(&args).expect("plan");
    let setup = turn_setup(&plan);
    assert_eq!(setup.sandbox_mode, SandboxMode::WorkspaceWrite);
    assert!(!setup.features.shell_tool && !setup.features.unified_exec);
    assert!(setup.temporary_home);
    assert_eq!(setup.model_override, None);
    assert_eq!(setup.cwd, None);
    assert_eq!(setup.service_tier.as_deref(), Some("priority"));
    assert_eq!(turn_model(&plan.model, &"session".to_string()), "session");
    assert_eq!(turn_model(&"m".to_string(), &"session".to_string()), "m");
    assert!(developer_instructions(false).contains("There is no shell"));
    assert!(developer_instructions(true).contains("ON THAT SERVER over SSH"));
}

#[test]
fn agentapp_policy_cannot_be_reenabled_by_model_multi_agent_defaults() {
    let mut policy = FeaturePolicy {
        shell_tool: true,
        unified_exec: true,
        multi_agent_v2: true,
        collab: true,
        agents_enabled: true,
        update_plan_enabled: false,
        request_user_input_enabled: false,
    };
    disable_upstream_multi_agent(&mut policy);
    assert!(!policy.agents_enabled);
    assert!(!policy.multi_agent_v2);
    assert!(!policy.collab);
    assert!(policy.shell_tool);
}

#[test]
fn histories_seed_only_new_threads() {
    let failed = || DecodedHistory::Failed("key".to_string());
    assert!(prior_history(true, "[1]", failed()).expect("resumed").is_empty());
    assert!(prior_history(false, " ", failed()).expect("blank").is_empty());
    assert_eq!(
        prior_history(false, "[1]", failed()).unwrap_err(),
        "failed to parse history json: key"
    );
    let call = |id: &str| codex_ios::protocol::ResponseItem::FunctionCall {
        id: None,
        name: "f".to_string(),
        namespace: None,
        arguments: "{}".to_string(),
        call_id: id.to_string(),
        internal_chat_message_metadata_passthrough: None,
    };
    let items = vec![call("a"), call("b"), call("a")];
    assert_eq!(replay_keys(&items), vec!["function:a".to_string(), "function:b".to_string()]);
}

#[test]
fn held_locks_are_tried_again_until_the_deadline() {
    assert!(matches!(lock_step(&LockAttempt::Acquired, true, "/l"), LockStep::Proceed));
    assert!(matches!(lock_step(&LockAttempt::Busy, false, "/l"), LockStep::Retry));
    assert!(matches!(
        lock_step(&LockAttempt::Busy, true, "/l"),
        LockStep::Fail { problem } if problem == "timed out acquiring model-context lock at /l"
    ));
    assert!(matches!(
        lock_step(&LockAttempt::Failed { error: "e".to_string() }, false, "/l"),
        LockStep::Fail { problem } if problem == "failed to acquire model-context lock: e"
    ));
}
