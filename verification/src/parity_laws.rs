//! Laws of the audit of a prompt, and of how errors are told.
use vstd::prelude::*;

use crate::adapter::adapted_response;
use crate::codec::{
    id_of, metadata_of, serialization_view_of, turn_id_of, with_id, with_local_fields,
    with_metadata,
};
use crate::context::{
    AttachmentKind, ContextContractErrorModel, ContextEventModel, ModelContextItemModel,
    ProviderLineageModel, ToolPhase,
};
use crate::error::{
    adapter_error_code, adapter_error_text, attachment_kind_name, tool_phase_name,
    CodexAdapterErrorModel,
};
use crate::export_laws::is_identified;
use crate::outbound::prepared_of;
use crate::parity::{
    audit_report, audited, compare_report, equivalent, event_item, import_report, kind_name,
    rebuilt_prompt, rebuilt_verdict, routed_events, semantic_part, stage_name, with_envelope,
    AdapterEnv, CodexInputParityFailureModel, CodexInputParityReportModel, CodexInputParityStage,
};
use crate::projection::{contract_error_text, journal_problem, model_item};
use crate::protocol::{ResponseItemModel, WiredItemModel};
use crate::text::decimal_text;
use crate::types::{EventMetadataModel, ReadItemModel};

verus! {

// ---------------------------------------------------------------------------------------------
// The audit

/// An audit counts the items one by one: it counts the source, what was compared and what was
/// ignored, and it lists the failures in order.
pub proof fn law_audits_count(env: AdapterEnv, items: Seq<WiredItemModel>, n: nat)
    requires
        n < items.len() <= usize::MAX,
    ensures
        ({
            let before = audit_report(env, items, n);
            let after = audit_report(env, items, n + 1);
            let verdict = audited(env, n as usize, items[n as int]);
            let blank = audit_report(env, items, 0);
            &&& blank.source_items == items.len()
            &&& blank.compared_items == 0 && blank.ignored_items == 0
            &&& blank.failures.len() == 0
            &&& after.source_items == items.len()
            &&& after.compared_items == before.compared_items + if verdict is Matched
                || verdict is Differs {
                1int
            } else {
                0
            }
            &&& after.ignored_items == before.ignored_items + if verdict is Ignored {
                1int
            } else {
                0
            }
            &&& verdict is Matched || verdict is Ignored ==> after.failures == before.failures
            &&& verdict is Failed ==> after.failures == before.failures.push(verdict->Failed_0)
            &&& verdict is Differs ==> after.failures == before.failures.push(verdict->Differs_0)
        }),
{
    lemma_counts(env, items, n);
}

proof fn lemma_counts(env: AdapterEnv, items: Seq<WiredItemModel>, n: nat)
    requires
        n <= items.len() <= usize::MAX,
    ensures
        audit_report(env, items, n).source_items == items.len(),
        audit_report(env, items, n).compared_items + audit_report(env, items, n).ignored_items
            <= n,
    decreases n,
{
    if n > 0 {
        lemma_counts(env, items, (n - 1) as nat);
    }
}

/// A report finds a prompt equivalent exactly if nothing failed and every item was compared or
/// ignored.
pub proof fn law_equivalence(report: CodexInputParityReportModel)
    ensures
        equivalent(report) ==> report.failures.len() == 0,
        equivalent(report) ==> report.compared_items + report.ignored_items == report.source_items,
        report.failures.len() == 0 && report.compared_items + report.ignored_items
            == report.source_items ==> equivalent(report),
{
}

/// Whether a failure says where it happened, to what kind of item, and why.
pub open spec fn reports(
    failure: CodexInputParityFailureModel,
    index: usize,
    stage: CodexInputParityStage,
    item: ResponseItemModel,
    code: Seq<char>,
    reason: Seq<char>,
) -> bool {
    &&& failure.index == index
    &&& failure.stage == stage
    &&& failure.item_kind == kind_name(item)
    &&& failure.reason_code == code
    &&& failure.reason == reason
}

/// An item is audited by taking it over and sending it again. It matches exactly if it comes back
/// as it was, up to its id and its metadata where no original JSON goes along.
pub proof fn law_items_are_taken_over_and_sent(
    env: AdapterEnv,
    index: usize,
    wired: WiredItemModel,
    metadata: EventMetadataModel,
)
    requires
        metadata.event_id == "shadow:"@ + decimal_text(index as nat),
        serialization_view_of(wired.item) == wired.item,
    ensures
        ({
            let verdict = audited(env, index, wired);
            let taken = adapted_response(env.lineage, env.resolve, metadata, wired, None);
            let item = event_item(taken->Ok_0->Event_0)->0;
            let sent = prepared_of(
                env.lineage,
                env.materialize,
                ReadItemModel {
                    item: ModelContextItemModel {
                        source_sequence: Some((index + 1) as u64),
                        ..item
                    },
                    reading: wired.reading,
                },
            );
            let back = sent->Ok_0->Typed_item;
            let exact = sent->Ok_0->Typed_original_json is Some;
            let same = (exact && back == wired.item) || (!exact && semantic_part(back)
                == semantic_part(wired.item));
            &&& taken is Err ==> verdict is Failed && reports(
                verdict->Failed_0,
                index,
                CodexInputParityStage::Import,
                wired.item,
                adapter_error_code(taken->Err_0),
                adapter_error_text(taken->Err_0),
            )
            &&& taken is Ok && taken->Ok_0 is Ignored ==> verdict is Ignored
            &&& taken is Ok && taken->Ok_0 is Event ==> {
                &&& sent is Err ==> verdict is Failed && reports(
                    verdict->Failed_0,
                    index,
                    CodexInputParityStage::Export,
                    wired.item,
                    adapter_error_code(sent->Err_0),
                    adapter_error_text(sent->Err_0),
                )
                &&& sent is Ok && sent->Ok_0 is RawOpaque ==> verdict is Failed && reports(
                    verdict->Failed_0,
                    index,
                    CodexInputParityStage::Export,
                    wired.item,
                    "raw_transport_required"@,
                    "raw Codex request transport required"@,
                )
                &&& sent is Ok && sent->Ok_0 is Typed && same ==> verdict is Matched
                &&& sent is Ok && sent->Ok_0 is Typed && !same ==> verdict is Differs && reports(
                    verdict->Differs_0,
                    index,
                    CodexInputParityStage::Compare,
                    wired.item,
                    "projection_mismatch"@,
                    kind_name(wired.item) + " item changed across the neutral projection"@,
                )
            }
        }),
{
}

/// What counts of an item without original JSON is everything but its id and its metadata.
pub proof fn law_what_counts_of_an_item(a: ResponseItemModel, b: ResponseItemModel)
    requires
        is_identified(b),
    ensures
        semantic_part(a) == semantic_part(b) <==> with_metadata(
            with_id(a, id_of(b)),
            metadata_of(b),
        ) == b,
        semantic_part(with_id(b, None)) == semantic_part(b),
        semantic_part(with_metadata(b, None)) == semantic_part(b),
        id_of(semantic_part(b)) is None,
        metadata_of(semantic_part(b)) is None,
{
}

/// The names of the kinds of items.
pub proof fn law_kind_names(item: ResponseItemModel)
    ensures
        item is AdditionalTools ==> kind_name(item) == "additional_tools"@,
        item is Message ==> kind_name(item) == "message"@,
        item is AgentMessage && (forall|i: int|
            0 <= i < item->AgentMessage_content.len()
                ==> #[trigger] item->AgentMessage_content[i] is InputText) ==> kind_name(item)
            == "agent_message"@,
        item is AgentMessage && (exists|i: int|
            0 <= i < item->AgentMessage_content.len() && !(
            #[trigger] item->AgentMessage_content[i] is InputText)) ==> kind_name(item)
            == "encrypted_agent_message"@,
        item is Reasoning ==> kind_name(item) == "reasoning"@,
        item is LocalShellCall ==> kind_name(item) == "local_shell_call"@,
        item is FunctionCall ==> kind_name(item) == "function_call"@,
        item is ToolSearchCall ==> kind_name(item) == "tool_search_call"@,
        item is FunctionCallOutput ==> kind_name(item) == "function_call_output"@,
        item is CustomToolCall ==> kind_name(item) == "custom_tool_call"@,
        item is CustomToolCallOutput ==> kind_name(item) == "custom_tool_call_output"@,
        item is ToolSearchOutput ==> kind_name(item) == "tool_search_output"@,
        item is WebSearchCall ==> kind_name(item) == "web_search_call"@,
        item is ImageGenerationCall ==> kind_name(item) == "image_generation_call"@,
        item is Compaction ==> kind_name(item) == "compaction"@,
        item is CompactionTrigger ==> kind_name(item) == "compaction_trigger"@,
        item is ContextCompaction ==> kind_name(item) == "context_compaction"@,
        item is Other ==> kind_name(item) == "unknown"@,
{
}

// ---------------------------------------------------------------------------------------------
// The reconstruction

/// Each item of a prompt is taken over in order, as an event of its own: numbered from one, in its
/// turn, and of the conversation. What cannot be taken over is reported, and what has no place in
/// a journal is counted.
pub proof fn law_prompts_are_routed_in_order(
    env: AdapterEnv,
    conversation: Seq<char>,
    items: Seq<WiredItemModel>,
    n: nat,
)
    requires
        n < items.len() <= usize::MAX,
        n + 1 <= u64::MAX,
    ensures
        ({
            let wired = items[n as int];
            let metadata = EventMetadataModel {
                event_id: "route:"@ + decimal_text(n),
                conversation_id: conversation,
                turn_id: turn_id_of(wired.item),
                sequence: (n + 1) as u64,
            };
            let taken = adapted_response(env.lineage, env.resolve, metadata, wired, None);
            let before = routed_events(env, conversation, items, n);
            let after = routed_events(env, conversation, items, n + 1);
            let report = import_report(env, items, n);
            let longer = import_report(env, items, n + 1);
            &&& routed_events(env, conversation, items, 0).len() == 0
            &&& taken is Ok && taken->Ok_0 is Event ==> after == before.push(
                (n as usize, taken->Ok_0->Event_0),
            ) && longer == report
            &&& !(taken is Ok && taken->Ok_0 is Event) ==> after == before
            &&& taken is Ok && taken->Ok_0 is Ignored ==> longer.ignored_items
                == report.ignored_items + 1 && longer.failures == report.failures
            &&& taken is Err ==> longer.ignored_items == report.ignored_items
                && longer.failures.len() == report.failures.len() + 1
                && longer.failures.drop_last() == report.failures && reports(
                longer.failures.last(),
                n as usize,
                CodexInputParityStage::Import,
                wired.item,
                adapter_error_code(taken->Err_0),
                adapter_error_text(taken->Err_0),
            )
        }),
{
    lemma_import_counts(env, items, n);
    let report = import_report(env, items, n);
    let longer = import_report(env, items, n + 1);
    if longer.failures.len() > report.failures.len() {
        assert(longer.failures.drop_last() =~= report.failures);
    }
}

proof fn lemma_import_counts(env: AdapterEnv, items: Seq<WiredItemModel>, n: nat)
    requires
        n <= items.len() <= usize::MAX,
    ensures
        import_report(env, items, n).ignored_items <= n,
    decreases n,
{
    if n > 0 {
        lemma_import_counts(env, items, (n - 1) as nat);
    }
}

/// What is sent again is given the id and the turn of its source. It matches exactly if it then is
/// the source.
pub proof fn law_reconstructions_are_exact(
    env: AdapterEnv,
    index: usize,
    wired: WiredItemModel,
    item: ModelContextItemModel,
    rebuilt: ResponseItemModel,
)
    requires
        serialization_view_of(wired.item) == wired.item,
        is_identified(rebuilt),
    ensures
        ({
            let sent = prepared_of(
                env.lineage,
                env.materialize,
                ReadItemModel { item, reading: wired.reading },
            );
            let verdict = rebuilt_verdict(env, index, wired, item);
            let back = with_envelope(wired.item, rebuilt);
            &&& id_of(back) == id_of(wired.item)
            &&& turn_id_of(wired.item) is None ==> metadata_of(back) == metadata_of(rebuilt)
            &&& turn_id_of(wired.item) is Some && turn_id_of(rebuilt) is None ==> turn_id_of(back)
                == turn_id_of(wired.item)
            &&& turn_id_of(rebuilt) is Some ==> metadata_of(back) == metadata_of(rebuilt)
            &&& with_metadata(with_id(back, id_of(rebuilt)), metadata_of(rebuilt)) == rebuilt
            &&& sent is Err ==> verdict is Failed && reports(
                verdict->Failed_0,
                index,
                CodexInputParityStage::Export,
                wired.item,
                adapter_error_code(sent->Err_0),
                adapter_error_text(sent->Err_0),
            )
            &&& sent is Ok && sent->Ok_0 is RawOpaque ==> verdict is Failed && reports(
                verdict->Failed_0,
                index,
                CodexInputParityStage::Export,
                wired.item,
                "raw_transport_required"@,
                "raw Codex request transport required"@,
            )
            &&& sent is Ok && sent->Ok_0 is Typed && sent->Ok_0->Typed_item == rebuilt ==> {
                &&& back == wired.item ==> verdict is Matched
                &&& back != wired.item ==> verdict is Differs && reports(
                    verdict->Differs_0,
                    index,
                    CodexInputParityStage::Compare,
                    wired.item,
                    "reconstruction_mismatch"@,
                    kind_name(wired.item) + " item was not exactly reconstructable"@,
                )
            }
        }),
{
}

/// What the serializer leaves out of reasoning is taken from the source, and nothing else is.
pub proof fn law_only_local_content_is_restored(
    source: ResponseItemModel,
    rebuilt: ResponseItemModel,
)
    ensures
        ({
            let restored = with_local_fields(source, rebuilt);
            let left_out = serialization_view_of(source) != source;
            &&& !(source is Reasoning) || !(rebuilt is Reasoning) || !left_out ==> restored
                == rebuilt
            &&& source is Reasoning && rebuilt is Reasoning && left_out ==> restored == (
            ResponseItemModel::Reasoning {
                id: rebuilt->Reasoning_id,
                summary: rebuilt->Reasoning_summary,
                content: source->Reasoning_content,
                encrypted_content: rebuilt->Reasoning_encrypted_content,
                internal_chat_message_metadata_passthrough:
                    rebuilt->Reasoning_internal_chat_message_metadata_passthrough,
            })
        }),
{
}

/// A prompt is reconstructed exactly if everything is taken over, the journal of it is valid and
/// everything comes back as it was; otherwise the failures are reported.
pub proof fn law_what_is_reconstructed(
    env: AdapterEnv,
    conversation: Seq<char>,
    items: Seq<WiredItemModel>,
)
    ensures
        ({
            let rebuilt = rebuilt_prompt(env, conversation, items);
            let imports = import_report(env, items, items.len());
            let routed = routed_events(env, conversation, items, items.len());
            let events = routed.map_values(
                |r: (usize, ContextEventModel)| r.1,
            );
            let problem = journal_problem(events);
            let compared = compare_report(env, items, routed, imports, routed.len());
            &&& rebuilt is Ok <==> imports.failures.len() == 0 && problem is None
                && compared.failures.len() == 0
            &&& imports.failures.len() > 0 ==> rebuilt->Err_0 == imports
            &&& imports.failures.len() == 0 && problem is Some ==> {
                let told = rebuilt->Err_0.failures;
                &&& told.len() == 1
                &&& told[0].stage == CodexInputParityStage::Export
                &&& told[0].item_kind == "context"@
                &&& told[0].reason_code == "projection_failed"@
                &&& told[0].reason == "neutral context projection failed: "@ + contract_error_text(
                    problem->0,
                )
                &&& routed.len() > 0 ==> told[0].index == routed[0].0
            }
            &&& imports.failures.len() == 0 && problem is None && compared.failures.len() > 0
                ==> rebuilt->Err_0 == compared
        }),
{
}

/// The comparison goes through the events in order, each against its own source.
pub proof fn law_events_are_compared_in_order(
    env: AdapterEnv,
    items: Seq<WiredItemModel>,
    routed: Seq<(usize, ContextEventModel)>,
    imports: CodexInputParityReportModel,
    n: nat,
)
    requires
        n < routed.len(),
    ensures
        ({
            let before = compare_report(env, items, routed, imports, n);
            let after = compare_report(env, items, routed, imports, n + 1);
            let (index, event) = routed[n as int];
            let verdict = rebuilt_verdict(
                env,
                index,
                items[index as int],
                model_item(event)->0,
            );
            &&& compare_report(env, items, routed, imports, 0) == imports
            &&& after.source_items == before.source_items
            &&& verdict is Matched ==> after.failures == before.failures
            &&& verdict is Failed ==> after.failures == before.failures.push(verdict->Failed_0)
            &&& verdict is Differs ==> after.failures == before.failures.push(verdict->Differs_0)
            &&& verdict is Matched || verdict is Differs ==> before.compared_items < usize::MAX
                ==> after.compared_items == before.compared_items + 1
        }),
{
}

// ---------------------------------------------------------------------------------------------
// Errors

/// The codes of the adapter's errors.
pub proof fn law_adapter_error_codes(error: CodexAdapterErrorModel)
    ensures
        ({
            let code = adapter_error_code(error);
            &&& error is UnsupportedRole ==> code == "unsupported_role"@
            &&& error is UnresolvedAttachment ==> code == "unresolved_attachment"@
            &&& error is EmptyAttachmentField ==> code == "empty_attachment_field"@
            &&& error is MissingCallId ==> code == "missing_call_id"@
            &&& error is RawPayloadMismatch ==> code == "raw_payload_mismatch"@
            &&& error is RawPayloadRequired ==> code == "raw_payload_required"@
            &&& error is ProviderJson ==> code == "provider_json"@
            &&& error is InvalidCompactionSequence ==> code == "invalid_compaction_sequence"@
            &&& error is MissingRouteRecipient ==> code == "missing_route_recipient"@
            &&& error is UnsupportedRoutedContent ==> code == "unsupported_routed_content"@
            &&& error is UnsupportedAttachment ==> code == "unsupported_attachment"@
            &&& error is MissingAttachmentMaterializer ==> code
                == "missing_attachment_materializer"@
            &&& error is UnmaterializedAttachment ==> code == "unmaterialized_attachment"@
            &&& error is EmptyMaterializedAttachment ==> code == "empty_materialized_attachment"@
            &&& error is UnsupportedToolRecord ==> code == "unsupported_tool_record"@
            &&& error is IncompatibleLineage ==> code == "incompatible_lineage"@
            &&& error is OpaqueKindMismatch ==> code == "opaque_kind_mismatch"@
            &&& error is InvalidToolData ==> code == "invalid_tool_data"@
            &&& error is RawTransportRequired ==> code == "raw_transport_required"@
        }),
{
}

/// An error of the adapter says what went wrong with what, and of a provider's lineage nothing.
pub proof fn law_adapter_error_texts(a: Seq<char>, b: Seq<char>, c: Seq<char>)
    ensures
        adapter_error_text(CodexAdapterErrorModel::UnsupportedRole { role: a })
            == "unsupported message role "@ + a,
        adapter_error_text(
            CodexAdapterErrorModel::UnresolvedAttachment { kind: AttachmentKind::Image },
        ) == "could not resolve "@ + "Image"@ + " content to an application-owned attachment"@,
        adapter_error_text(
            CodexAdapterErrorModel::UnresolvedAttachment { kind: AttachmentKind::Audio },
        ) == "could not resolve "@ + "Audio"@ + " content to an application-owned attachment"@,
        adapter_error_text(CodexAdapterErrorModel::EmptyAttachmentField { field: a })
            == "resolved attachment "@ + a + " must not be empty"@,
        adapter_error_text(CodexAdapterErrorModel::MissingCallId { kind: a }) == a
            + " requires a call id or response item id"@,
        adapter_error_text(CodexAdapterErrorModel::RawPayloadRequired { kind: a })
            == "raw JSON is required to preserve "@ + a + " without loss"@,
        adapter_error_text(CodexAdapterErrorModel::ProviderJson { operation: a, message: b })
            == "could not "@ + a + " provider JSON: "@ + b,
        adapter_error_text(CodexAdapterErrorModel::MissingRouteRecipient { item_id: a })
            == "routed message "@ + a + " has no recipient"@,
        adapter_error_text(CodexAdapterErrorModel::UnmaterializedAttachment { attachment_id: a })
            == "could not materialize attachment "@ + a,
        adapter_error_text(
            CodexAdapterErrorModel::UnsupportedToolRecord {
                call_id: a,
                name: b,
                phase: ToolPhase::Failed,
            },
        ) == "tool record "@ + a + " of "@ + b + " cannot be sent in phase "@ + "Failed"@,
        adapter_error_text(
            CodexAdapterErrorModel::OpaqueKindMismatch {
                item_id: a,
                declared_kind: b,
                actual_kind: c,
            },
        ) == "opaque item "@ + a + " is declared as "@ + b + " but decodes to "@ + c,
        adapter_error_text(
            CodexAdapterErrorModel::InvalidToolData { call_id: a, field: b, message: c },
        ) == "tool record "@ + a + " has an invalid field "@ + b + ": "@ + c,
        adapter_error_text(CodexAdapterErrorModel::RawTransportRequired { item_id: a }) == "item "@
            + a + " requires the raw request transport"@,
        adapter_error_text(CodexAdapterErrorModel::UnsupportedRoutedContent { item_id: a })
            == "routed message "@ + a + " holds content that is not text"@,
        adapter_error_text(
            CodexAdapterErrorModel::UnsupportedAttachment { kind: AttachmentKind::File },
        ) == "File"@ + " attachments cannot be sent as provider input"@,
        adapter_error_text(
            CodexAdapterErrorModel::MissingAttachmentMaterializer { kind: AttachmentKind::Image },
        ) == "no materializer is set for "@ + "Image"@ + " attachments"@,
        adapter_error_text(CodexAdapterErrorModel::EmptyMaterializedAttachment)
            == "materialized attachment source must not be empty"@,
        adapter_error_text(CodexAdapterErrorModel::RawPayloadMismatch)
            == "raw JSON does not decode to the supplied response item"@,
        adapter_error_text(CodexAdapterErrorModel::InvalidCompactionSequence)
            == "a compaction event must have a positive sequence"@,
{
    assert("could not "@ + a + " provider JSON: "@ + b =~= "could not "@ + a + (
    " provider JSON: "@ + b));
    assert("tool record "@ + a + " of "@ + b + " cannot be sent in phase "@ + "Failed"@
        =~= "tool record "@ + a + (" of "@ + b + (" cannot be sent in phase "@ + "Failed"@)));
    assert("opaque item "@ + a + " is declared as "@ + b + " but decodes to "@ + c
        =~= "opaque item "@ + a + (" is declared as "@ + b + (" but decodes to "@ + c)));
    assert("tool record "@ + a + " has an invalid field "@ + b + ": "@ + c =~= "tool record "@ + a
        + (" has an invalid field "@ + b + (": "@ + c)));
}

/// The names that errors and reports use.
pub proof fn law_names_in_errors(
    item: Seq<char>,
    one: ProviderLineageModel,
    other: ProviderLineageModel,
)
    ensures
        attachment_kind_name(AttachmentKind::Image) == "Image"@,
        attachment_kind_name(AttachmentKind::Audio) == "Audio"@,
        attachment_kind_name(AttachmentKind::File) == "File"@,
        tool_phase_name(ToolPhase::Requested) == "Requested"@,
        tool_phase_name(ToolPhase::Completed) == "Completed"@,
        tool_phase_name(ToolPhase::Failed) == "Failed"@,
        stage_name(CodexInputParityStage::Import) == "import"@,
        stage_name(CodexInputParityStage::Export) == "export"@,
        stage_name(CodexInputParityStage::Compare) == "compare"@,
        adapter_error_text(
            CodexAdapterErrorModel::IncompatibleLineage {
                item_id: item,
                expected: one,
                actual: other,
            },
        ) == "opaque item "@ + item + " belongs to another provider lineage"@,
{
}

/// An error of a journal says what is wrong with it.
pub proof fn law_journal_error_texts(
    a: Seq<char>,
    b: Seq<char>,
    c: Seq<char>,
    first: u64,
    second: u64,
)
    ensures
        contract_error_text(ContextContractErrorModel::EmptyField { field: a }) == a
            + " must not be empty"@,
        contract_error_text(
            ContextContractErrorModel::ConversationMismatch { event_id: a, expected: b, actual: c },
        ) == "event "@ + a + " belongs to "@ + c + ", expected "@ + b,
        contract_error_text(
            ContextContractErrorModel::NonIncreasingSequence { previous: first, current: second },
        ) == "event sequence "@ + decimal_text(second as nat) + " must be greater than "@
            + decimal_text(first as nat),
        contract_error_text(ContextContractErrorModel::DuplicateEventId { event_id: a })
            == "duplicate event id "@ + a,
        contract_error_text(
            ContextContractErrorModel::InvalidCheckpoint { checkpoint_id: a, reason: b },
        ) == "checkpoint "@ + a + " is invalid: "@ + b,
        contract_error_text(
            ContextContractErrorModel::ForkOutOfRange {
                through_sequence: first,
                last_sequence: second,
            },
        ) == "fork sequence "@ + decimal_text(first as nat) + " exceeds available sequence "@
            + decimal_text(second as nat),
{
    let x = decimal_text(first as nat);
    let y = decimal_text(second as nat);
    assert("event "@ + a + " belongs to "@ + c + ", expected "@ + b =~= "event "@ + a + (
    " belongs to "@ + c + (", expected "@ + b)));
    assert("event sequence "@ + y + " must be greater than "@ + x =~= "event sequence "@ + y + (
    " must be greater than "@ + x));
    assert("checkpoint "@ + a + " is invalid: "@ + b =~= "checkpoint "@ + a + (" is invalid: "@
        + b));
    assert("fork sequence "@ + x + " exceeds available sequence "@ + y =~= "fork sequence "@ + x + (
    " exceeds available sequence "@ + y));
}

} // verus!
