use codex_ios::capabilities::{
    finalize_tools, validate_model_input, CapabilityError, ProviderCapabilities,
    ProviderCapability, ToolDefinition, ToolExecutionKind,
};
use codex_ios::context::{
    AttachmentKind, CompactionMode, ContentPart, ContextCheckpoint, ContextContractError,
    ContextEvent, ContextEventPayload, ForkRequest, Message, MessageRole, MessageVisibility,
    ModelContextItem, ModelContextPayload, OpaquePayload, ProviderLineage, ProviderOpaqueItem,
    ToolPhase, ToolRecord,
};
use codex_ios::json::Json;
use codex_ios::projection::{prepare_fork, project_context, validate_events};

struct Scenario {
    name: &'static str,
    target: ProviderCapabilities,
    events: Vec<ContextEvent>,
    tools: Vec<ToolDefinition>,
    fork: Option<ForkRequest>,
    transcript: Vec<&'static str>,
    model: Vec<&'static str>,
    excluded: Vec<&'static str>,
    active_tools: Vec<&'static str>,
    fork_transcript: Vec<&'static str>,
    fork_model: Vec<&'static str>,
}

fn lineage(id: &str) -> ProviderLineage {
    ProviderLineage {
        provider: "openai".to_string(),
        protocol: "responses".to_string(),
        lineage_id: id.to_string(),
    }
}

fn capabilities(id: &str, supported: Vec<ProviderCapability>) -> ProviderCapabilities {
    ProviderCapabilities {
        lineage: lineage(id),
        model: "model-a".to_string(),
        max_context_tokens: 1000,
        supported,
    }
}

fn event(id: &str, sequence: u64, payload: ContextEventPayload) -> ContextEvent {
    ContextEvent {
        id: id.to_string(),
        conversation_id: "conversation-1".to_string(),
        turn_id: None,
        sequence,
        payload,
    }
}

fn text_message(role: MessageRole, visibility: MessageVisibility, text: &str) -> Message {
    Message {
        role,
        visibility,
        content: vec![ContentPart::Text { text: text.to_string() }],
        phase: None,
        route: None,
    }
}

fn said(id: &str, sequence: u64, role: MessageRole) -> ContextEvent {
    event(
        id,
        sequence,
        ContextEventPayload::Message(text_message(
            role,
            MessageVisibility::TranscriptAndModel,
            "text",
        )),
    )
}

fn opaque(id: &str, lineage_id: &str, bytes: &[u8]) -> ProviderOpaqueItem {
    ProviderOpaqueItem {
        lineage: lineage(lineage_id),
        provider_item_id: id.to_string(),
        kind: "codex.reasoning".to_string(),
        payload: OpaquePayload::new(bytes.to_vec()),
    }
}

fn opaque_event(id: &str, sequence: u64, lineage_id: &str) -> ContextEvent {
    event(
        id,
        sequence,
        ContextEventPayload::ProviderOpaque(opaque(id, lineage_id, b"fake-encrypted-reasoning")),
    )
}

fn tool_event(id: &str, sequence: u64) -> ContextEvent {
    event(
        id,
        sequence,
        ContextEventPayload::Tool(ToolRecord {
            call_id: "call-1".to_string(),
            name: "view_image".to_string(),
            phase: ToolPhase::Requested,
            data: Json::Null,
        }),
    )
}

fn checkpoint(
    event_id: &str,
    sequence: u64,
    through: u64,
    lineage_id: Option<&str>,
    replacement: Vec<ModelContextItem>,
) -> ContextEvent {
    event(
        event_id,
        sequence,
        ContextEventPayload::Compaction(ContextCheckpoint {
            id: "checkpoint-1".to_string(),
            conversation_id: "conversation-1".to_string(),
            through_sequence: through,
            lineage: lineage_id.map(lineage),
            mode: if lineage_id.is_some() {
                CompactionMode::ProviderNative
            } else {
                CompactionMode::Semantic
            },
            replacement,
        }),
    )
}

fn summary(id: &str) -> ModelContextItem {
    ModelContextItem {
        id: id.to_string(),
        source_sequence: None,
        payload: ModelContextPayload::Message(text_message(
            MessageRole::Assistant,
            MessageVisibility::ModelOnly,
            "summary",
        )),
    }
}

fn image_event(id: &str, sequence: u64) -> ContextEvent {
    event(
        id,
        sequence,
        ContextEventPayload::Message(Message {
            role: MessageRole::User,
            visibility: MessageVisibility::TranscriptAndModel,
            content: vec![ContentPart::Attachment {
                attachment_id: "photo".to_string(),
                media_type: "image/png".to_string(),
                kind: AttachmentKind::Image,
                image_detail: None,
            }],
            phase: None,
            route: None,
        }),
    )
}

fn local_tool(name: &str) -> ToolDefinition {
    ToolDefinition { name: name.to_string(), execution: ToolExecutionKind::LocalDynamic }
}

fn hosted_search() -> ToolDefinition {
    ToolDefinition {
        name: "web_search".to_string(),
        execution: ToolExecutionKind::ProviderHosted {
            capability: ProviderCapability::HostedWebSearch,
        },
    }
}

fn compaction_events() -> Vec<ContextEvent> {
    vec![
        said("compact-1", 1, MessageRole::User),
        said("compact-2", 2, MessageRole::Assistant),
        said("compact-3", 3, MessageRole::User),
        said("compact-4", 4, MessageRole::Assistant),
        checkpoint("compact-5", 5, 4, None, vec![summary("summary-window-1")]),
        said("compact-6", 6, MessageRole::User),
    ]
}

fn plain(
    name: &'static str,
    target: ProviderCapabilities,
    events: Vec<ContextEvent>,
    transcript: Vec<&'static str>,
    model: Vec<&'static str>,
) -> Scenario {
    Scenario {
        name,
        target,
        events,
        tools: vec![],
        fork: None,
        transcript,
        model,
        excluded: vec![],
        active_tools: vec![],
        fork_transcript: vec![],
        fork_model: vec![],
    }
}

fn scenarios() -> Vec<Scenario> {
    let mut fork_resume = plain(
        "fork_resume",
        capabilities("family-a", vec![]),
        vec![
            said("fork-1", 1, MessageRole::User),
            said("fork-2", 2, MessageRole::Assistant),
            said("fork-3", 3, MessageRole::User),
        ],
        vec!["fork-1", "fork-2", "fork-3"],
        vec!["fork-1", "fork-2", "fork-3"],
    );
    fork_resume.fork = Some(ForkRequest {
        source_conversation_id: "conversation-1".to_string(),
        target_conversation_id: "conversation-2".to_string(),
        through_sequence: 2,
    });
    fork_resume.fork_transcript = vec!["fork-1", "fork-2"];
    fork_resume.fork_model = vec!["fork-1", "fork-2"];

    let mut hosted = plain(
        "hosted_web_search",
        capabilities("family-a", vec![ProviderCapability::HostedWebSearch]),
        vec![said("search-1", 1, MessageRole::User)],
        vec!["search-1"],
        vec!["search-1"],
    );
    hosted.tools = vec![hosted_search()];
    hosted.active_tools = vec!["web_search"];

    let mut local = plain(
        "local_dynamic_tools",
        capabilities("family-a", vec![]),
        vec![said("tools-1", 1, MessageRole::User), tool_event("tools-2", 2)],
        vec!["tools-1"],
        vec!["tools-1", "tools-2"],
    );
    local.tools = vec![local_tool("read_file"), hosted_search(), local_tool("write_file")];
    local.active_tools = vec!["read_file", "write_file"];

    let mut switch = plain(
        "model_switch",
        capabilities("family-b", vec![]),
        vec![
            said("switch-1", 1, MessageRole::User),
            opaque_event("switch-2", 2, "family-a"),
            said("switch-3", 3, MessageRole::Assistant),
        ],
        vec!["switch-1", "switch-3"],
        vec!["switch-1", "switch-3"],
    );
    switch.excluded = vec!["switch-2"];

    vec![
        plain(
            "automatic_compaction",
            capabilities("family-a", vec![]),
            compaction_events(),
            vec!["compact-1", "compact-2", "compact-3", "compact-4", "compact-6"],
            vec!["summary-window-1", "compact-6"],
        ),
        plain(
            "encrypted_reasoning",
            capabilities("family-a", vec![ProviderCapability::OpaqueReasoning]),
            vec![
                said("reasoning-1", 1, MessageRole::User),
                opaque_event("reasoning-2", 2, "family-a"),
            ],
            vec!["reasoning-1"],
            vec!["reasoning-1", "reasoning-2"],
        ),
        fork_resume,
        hosted,
        plain(
            "image_input_and_view_image",
            capabilities("family-a", vec![ProviderCapability::ImageInput]),
            vec![image_event("image-1", 1), tool_event("image-2", 2)],
            vec!["image-1"],
            vec!["image-1", "image-2"],
        ),
        local,
        switch,
        plain(
            "text_continuation",
            capabilities("family-a", vec![]),
            vec![
                said("text-1", 1, MessageRole::User),
                said("text-2", 2, MessageRole::Assistant),
            ],
            vec!["text-1", "text-2"],
            vec!["text-1", "text-2"],
        ),
    ]
}

fn scenario(name: &str) -> Scenario {
    for found in scenarios() {
        if found.name == name {
            return found;
        }
    }
    panic!("no scenario {name}")
}

fn event_ids(events: &[ContextEvent]) -> Vec<&str> {
    events.iter().map(|event| event.id.as_str()).collect()
}

fn item_ids(items: &[ModelContextItem]) -> Vec<&str> {
    items.iter().map(|item| item.id.as_str()).collect()
}

#[test]
fn fixtures_cover_the_extraction_acceptance_matrix() {
    let mut names: Vec<&str> = scenarios().into_iter().map(|scenario| scenario.name).collect();
    names.sort();
    assert_eq!(
        names,
        [
            "automatic_compaction",
            "encrypted_reasoning",
            "fork_resume",
            "hosted_web_search",
            "image_input_and_view_image",
            "local_dynamic_tools",
            "model_switch",
            "text_continuation",
        ]
    );
}

#[test]
fn fixture_projections_and_tools_match_the_contract() {
    for scenario in scenarios() {
        let Ok(projection) = project_context(&scenario.events, &scenario.target.lineage) else {
            panic!("{}", scenario.name);
        };
        assert_eq!(event_ids(&projection.transcript), scenario.transcript, "{}", scenario.name);
        assert_eq!(item_ids(&projection.model_context), scenario.model, "{}", scenario.name);
        assert_eq!(
            projection.excluded_opaque_event_ids, scenario.excluded,
            "{}",
            scenario.name
        );
        assert!(validate_model_input(&scenario.target, &projection.model_context).is_ok());
        let active = finalize_tools(&scenario.target, &scenario.tools);
        assert_eq!(
            active.iter().map(|tool| tool.name.as_str()).collect::<Vec<_>>(),
            scenario.active_tools,
            "{}",
            scenario.name
        );
        if let Some(request) = scenario.fork {
            let Ok(fork) = prepare_fork(&scenario.events, &request, &scenario.target.lineage)
            else {
                panic!("{}", scenario.name);
            };
            assert_eq!(event_ids(&fork.transcript), scenario.fork_transcript);
            assert_eq!(item_ids(&fork.model_context), scenario.fork_model);
            assert_eq!(fork.target_conversation_id, "conversation-2");
            assert_eq!(fork.forked_at_sequence, 2);
        }
    }
}

#[test]
fn opaque_payload_is_exact_and_redacted_from_debug_output() {
    let scenario = scenario("encrypted_reasoning");
    let ContextEventPayload::ProviderOpaque(opaque) = &scenario.events[1].payload else {
        panic!("expected provider opaque event");
    };
    assert_eq!(opaque.payload.as_bytes(), b"fake-encrypted-reasoning");
    let shown = opaque.payload.redacted();
    assert!(!shown.contains("fake-encrypted"));
    assert_eq!(shown, "<redacted opaque payload: 24 bytes>");
    let copy = scenario.events[1].clone();
    assert!(copy == scenario.events[1]);
}

#[test]
fn compaction_changes_only_the_model_projection() {
    let scenario = scenario("automatic_compaction");
    let Ok(projection) = project_context(&scenario.events, &scenario.target.lineage) else {
        panic!("project compacted context");
    };
    assert_eq!(projection.transcript.len(), 5);
    assert_eq!(item_ids(&projection.model_context), ["summary-window-1", "compact-6"]);
    assert_eq!(projection.checkpoint_id.as_deref(), Some("checkpoint-1"));

    let without: Vec<ContextEvent> = scenario
        .events
        .into_iter()
        .filter(|event| !matches!(event.payload, ContextEventPayload::Compaction(_)))
        .collect();
    let Ok(plain) = project_context(&without, &scenario.target.lineage) else {
        panic!("project plain context");
    };
    assert!(plain.transcript == projection.transcript);
    assert_eq!(plain.model_context.len(), 5);
}

#[test]
fn switching_lineage_excludes_but_does_not_delete_opaque_state() {
    let scenario = scenario("model_switch");
    let Ok(switched) = project_context(&scenario.events, &scenario.target.lineage) else {
        panic!("project switched context");
    };
    assert_eq!(switched.excluded_opaque_event_ids, ["switch-2"]);

    let ContextEventPayload::ProviderOpaque(opaque) = &scenario.events[1].payload else {
        panic!("expected preserved opaque event");
    };
    let Ok(original) = project_context(&scenario.events, &opaque.lineage) else {
        panic!("re-project original provider lineage");
    };
    assert_eq!(item_ids(&original.model_context), ["switch-1", "switch-2", "switch-3"]);
}

#[test]
fn image_input_requires_a_model_capability() {
    let mut scenario = scenario("image_input_and_view_image");
    let Ok(projection) = project_context(&scenario.events, &scenario.target.lineage) else {
        panic!("project image context");
    };
    scenario.target.supported.retain(|capability| *capability != ProviderCapability::ImageInput);
    assert_eq!(
        validate_model_input(&scenario.target, &projection.model_context),
        Err(CapabilityError::Unsupported {
            model: scenario.target.model,
            capability: ProviderCapability::ImageInput,
        })
    );
}

#[test]
fn capability_errors_name_model_and_capability() {
    let error = CapabilityError::Unsupported {
        model: "model-a".to_string(),
        capability: ProviderCapability::ImageInput,
    };
    assert_eq!(error.message(), "model model-a does not support ImageInput");
}

#[test]
fn the_empty_journal_is_in_order() {
    assert_eq!(validate_events(&[]), Ok(()));
    let Ok(projection) = project_context(&[], &lineage("family-a")) else {
        panic!("project nothing");
    };
    assert!(projection.transcript.is_empty());
    assert!(projection.model_context.is_empty());
    assert_eq!(projection.checkpoint_id, None);
}

#[test]
fn journals_are_refused_with_their_first_problem() {
    let mut unnamed = vec![said("a", 1, MessageRole::User)];
    unnamed[0].conversation_id = String::new();
    let error = validate_events(&unnamed).unwrap_err();
    assert_eq!(error, ContextContractError::EmptyField { field: "conversation_id" });
    assert_eq!(error.message(), "conversation_id must not be empty");

    let mut strange = vec![said("a", 1, MessageRole::User), said("b", 2, MessageRole::User)];
    strange[1].conversation_id = "other".to_string();
    let error = validate_events(&strange).unwrap_err();
    assert_eq!(error.message(), "event b belongs to other, expected conversation-1");

    let repeated = vec![said("a", 4, MessageRole::User), said("b", 4, MessageRole::User)];
    let error = validate_events(&repeated).unwrap_err();
    assert_eq!(
        error,
        ContextContractError::NonIncreasingSequence { previous: 4, current: 4 }
    );
    assert_eq!(error.message(), "event sequence 4 must be greater than 4");

    let zero = vec![said("a", 0, MessageRole::User)];
    assert_eq!(
        validate_events(&zero),
        Err(ContextContractError::NonIncreasingSequence { previous: 0, current: 0 })
    );

    let twice = vec![said("a", 1, MessageRole::User), said("a", 2, MessageRole::User)];
    let error = validate_events(&twice).unwrap_err();
    assert_eq!(error.message(), "duplicate event id a");

    let late = vec![checkpoint("a", 3, 3, None, vec![])];
    let error = validate_events(&late).unwrap_err();
    assert_eq!(
        error.message(),
        "checkpoint checkpoint-1 is invalid: through_sequence must precede the checkpoint event"
    );

    let foreign = vec![checkpoint(
        "a",
        3,
        2,
        Some("family-a"),
        vec![ModelContextItem {
            id: "x".to_string(),
            source_sequence: None,
            payload: ModelContextPayload::ProviderOpaque(opaque("x", "family-b", b"bytes")),
        }],
    )];
    let error = validate_events(&foreign).unwrap_err();
    assert_eq!(
        error.message(),
        "checkpoint checkpoint-1 is invalid: opaque replacement does not match checkpoint lineage"
    );

    let empty = vec![event(
        "a",
        1,
        ContextEventPayload::ProviderOpaque(opaque("a", "family-a", b"")),
    )];
    assert_eq!(
        validate_events(&empty),
        Err(ContextContractError::EmptyField { field: "provider_opaque.payload" })
    );
}

#[test]
fn forks_are_refused_beyond_the_journal_and_for_other_conversations() {
    let events = vec![said("a", 1, MessageRole::User), said("b", 2, MessageRole::User)];
    let mut request = ForkRequest {
        source_conversation_id: "conversation-1".to_string(),
        target_conversation_id: "conversation-2".to_string(),
        through_sequence: 3,
    };
    let Err(error) = prepare_fork(&events, &request, &lineage("family-a")) else {
        panic!("out of range");
    };
    assert_eq!(
        error,
        ContextContractError::ForkOutOfRange { through_sequence: 3, last_sequence: 2 }
    );
    assert_eq!(error.message(), "fork sequence 3 exceeds available sequence 2");

    request.through_sequence = 1;
    request.source_conversation_id = "other".to_string();
    let Err(error) = prepare_fork(&events, &request, &lineage("family-a")) else {
        panic!("other conversation");
    };
    assert_eq!(
        error,
        ContextContractError::ConversationMismatch {
            event_id: "a".to_string(),
            expected: "other".to_string(),
            actual: "conversation-1".to_string(),
        }
    );
}

#[test]
fn a_fork_at_the_end_is_the_projection() {
    let events = compaction_events();
    let request = ForkRequest {
        source_conversation_id: "conversation-1".to_string(),
        target_conversation_id: "conversation-2".to_string(),
        through_sequence: 6,
    };
    let Ok(seed) = prepare_fork(&events, &request, &lineage("family-a")) else {
        panic!("fork");
    };
    let Ok(projection) = project_context(&events, &lineage("family-a")) else {
        panic!("project");
    };
    assert!(seed.transcript == projection.transcript);
    assert!(seed.model_context == projection.model_context);
}

#[test]
fn native_checkpoints_serve_only_their_lineage() {
    let events = vec![
        said("a", 1, MessageRole::User),
        checkpoint("b", 2, 1, Some("family-a"), vec![summary("native")]),
        said("c", 3, MessageRole::User),
    ];
    let Ok(own) = project_context(&events, &lineage("family-a")) else {
        panic!("own lineage");
    };
    assert_eq!(item_ids(&own.model_context), ["native", "c"]);
    let Ok(other) = project_context(&events, &lineage("family-b")) else {
        panic!("other lineage");
    };
    assert_eq!(item_ids(&other.model_context), ["a", "c"]);
    assert_eq!(other.checkpoint_id, None);
}

#[test]
fn hidden_messages_are_left_out_of_one_reading_each() {
    let mut note = said("note", 1, MessageRole::User);
    note.payload = ContextEventPayload::Message(text_message(
        MessageRole::User,
        MessageVisibility::TranscriptOnly,
        "note",
    ));
    let mut hint = said("hint", 2, MessageRole::System);
    hint.payload = ContextEventPayload::Message(text_message(
        MessageRole::System,
        MessageVisibility::ModelOnly,
        "hint",
    ));
    let Ok(projection) = project_context(&[note, hint], &lineage("family-a")) else {
        panic!("project");
    };
    assert_eq!(event_ids(&projection.transcript), ["note"]);
    assert_eq!(item_ids(&projection.model_context), ["hint"]);
}

#[test]
fn finalizing_tools_twice_changes_nothing() {
    let target = capabilities("family-a", vec![]);
    let requested = vec![local_tool("a"), hosted_search(), local_tool("b")];
    let once = finalize_tools(&target, &requested);
    let twice = finalize_tools(&target, &once);
    assert_eq!(once, twice);
    assert_eq!(once.len(), 2);
    assert!(!target.supports(&ProviderCapability::HostedWebSearch));
}
