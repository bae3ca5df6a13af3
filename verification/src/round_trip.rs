//! Laws: what the neutral contract takes over, it gives back.
use vstd::prelude::*;

use crate::adapter::{
    adapted_response, agent_message_of, canonical_content, canonical_part, checkpoint_of,
    content_part_of, custom_record, function_record, holds_opaque, message_of, output_json,
    output_record, plain_text, replacement_items, response_record, shell_record,
    Materialization, Resolution,
};
use crate::codec::{
    law_restore_undoes_serialization_view, law_role_names_read_back, opaque_kind_of, role_name,
    serialization_view_of,
};
use crate::context::{
    AttachmentKind, CompactionMode, ContentPartModel, ContextEventPayloadModel, MessagePhase,
    MessageRole, ModelContextItemModel, ModelContextPayloadModel, ProviderLineageModel,
};
use crate::error::CodexAdapterErrorModel;
use crate::json::{bool_or_null, member, member_in, text_member, text_or_null, JsonModel};
use crate::json::MemberModel;
use crate::lists::{collected, lemma_collected_ok};
use crate::outbound::{
    content_input_of, holds_stray_item, message_input_of, output_payload_of, prepared_of,
    routed_input_of, tool_input_of, typed_all,
};
use crate::parity::{
    audit_report, audited, equivalent, event_id_of, rebuilt_prompt, AdapterEnv,
    CodexInputParityStage, Verdict,
};
use crate::protocol::{
    AgentMessageInputContentModel, CompactedItemModel, ContentItemModel, DecodedToolModel,
    FunctionCallOutputBodyModel, FunctionCallOutputPayloadModel, LocalShellStatus,
    ResponseItemModel, WiredItemModel,
};
use crate::types::{
    typed_item, AdaptedRolloutItemModel, EventMetadataModel, PreparedCodexInputItemModel,
    ReadItemModel,
};

verus! {

/// The field names and kinds of tool records are all different.
pub(crate) proof fn lemma_names_differ()
    ensures
        "action"@ != "kind"@,
        "arguments"@ != "kind"@,
        "arguments"@ != "namespace"@,
        "input"@ != "kind"@,
        "input"@ != "namespace"@,
        "kind"@ != "namespace"@,
        "kind"@ != "output"@,
        "kind"@ != "success"@,
        "output"@ != "success"@,
        "function"@ != "custom"@,
        "function"@ != "local_shell"@,
        "custom"@ != "local_shell"@,
{
    reveal_strlit("action");
    reveal_strlit("arguments");
    reveal_strlit("input");
    reveal_strlit("kind");
    reveal_strlit("namespace");
    reveal_strlit("output");
    reveal_strlit("success");
    reveal_strlit("function");
    reveal_strlit("custom");
    reveal_strlit("local_shell");
    assert("action"@.len() == 6);
    assert("kind"@.len() == 4);
    assert("arguments"@[0] == 'a');
    assert("namespace"@[0] == 'n');
    assert("input"@.len() == 5);
    assert("output"@.len() == 6);
    assert("success"@.len() == 7);
    assert("function"@.len() == 8);
    assert("custom"@.len() == 6);
    assert("local_shell"@.len() == 11);
}

/// Looking a member up in an object of two members.
pub(crate) proof fn lemma_member2(a: MemberModel, b: MemberModel, key: Seq<char>)
    ensures
        member_in(seq![a, b], key) == if a.key == key {
            Some(a.value)
        } else if b.key == key {
            Some(b.value)
        } else {
            None
        },
{
    reveal_with_fuel(member_in, 3);
    assert(seq![a, b].drop_first() =~= seq![b]);
    assert(seq![b].drop_first() =~= Seq::empty());
}

/// Looking a member up in an object of three members.
pub(crate) proof fn lemma_member3(a: MemberModel, b: MemberModel, c: MemberModel, key: Seq<char>)
    ensures
        member_in(seq![a, b, c], key) == if a.key == key {
            Some(a.value)
        } else if b.key == key {
            Some(b.value)
        } else if c.key == key {
            Some(c.value)
        } else {
            None
        },
{
    reveal_with_fuel(member_in, 4);
    assert(seq![a, b, c].drop_first() =~= seq![b, c]);
    assert(seq![b, c].drop_first() =~= seq![c]);
    assert(seq![c].drop_first() =~= Seq::empty());
}

/// A requested function call comes back with its name, namespace, arguments and call id.
pub proof fn law_function_call_round_trip(
    name: Seq<char>,
    namespace: Option<Seq<char>>,
    arguments: Seq<char>,
    call_id: Seq<char>,
    decoded: DecodedToolModel,
)
    ensures
        tool_input_of(function_record(name, namespace, arguments, call_id), decoded) == Ok::<
            ResponseItemModel,
            CodexAdapterErrorModel,
        >(
            ResponseItemModel::FunctionCall {
                id: None,
                name,
                namespace,
                arguments,
                call_id,
                internal_chat_message_metadata_passthrough: None,
            },
        ),
{
    lemma_names_differ();
    let a = member("arguments"@, JsonModel::Text(arguments));
    let b = member("kind"@, JsonModel::Text("function"@));
    let c = member("namespace"@, text_or_null(namespace));
    lemma_member3(a, b, c, "kind"@);
    lemma_member3(a, b, c, "namespace"@);
    lemma_member3(a, b, c, "arguments"@);
}

/// A requested call of a custom tool comes back with its name, namespace, input and call id.
pub proof fn law_custom_call_round_trip(
    name: Seq<char>,
    namespace: Option<Seq<char>>,
    input: Seq<char>,
    call_id: Seq<char>,
    decoded: DecodedToolModel,
)
    ensures
        tool_input_of(custom_record(name, namespace, input, call_id), decoded) == Ok::<
            ResponseItemModel,
            CodexAdapterErrorModel,
        >(
            ResponseItemModel::CustomToolCall {
                id: None,
                status: None,
                call_id,
                name,
                namespace,
                input,
                internal_chat_message_metadata_passthrough: None,
            },
        ),
{
    lemma_names_differ();
    let a = member("input"@, JsonModel::Text(input));
    let b = member("kind"@, JsonModel::Text("custom"@));
    let c = member("namespace"@, text_or_null(namespace));
    lemma_member3(a, b, c, "kind"@);
    lemma_member3(a, b, c, "namespace"@);
    lemma_member3(a, b, c, "input"@);
}

/// Whether the provider's decoder reads an output body back as it was. A text needs no decoder.
pub open spec fn body_reads_back(
    body: FunctionCallOutputBodyModel,
    decoded: DecodedToolModel,
) -> bool {
    body matches FunctionCallOutputBodyModel::ContentItems(items) ==> decoded
        == DecodedToolModel::Value(items) && !(items is Text)
}

/// The result of a finished call comes back with its body and its success, failed or not.
pub proof fn law_output_round_trip(
    kind: Seq<char>,
    name: Seq<char>,
    call_id: Seq<char>,
    output: FunctionCallOutputPayloadModel,
    decoded: DecodedToolModel,
)
    requires
        body_reads_back(output.body, decoded),
    ensures
        output_payload_of(
            output_record(kind, name, call_id, output.body, output.success),
            decoded,
        ) == Ok::<FunctionCallOutputPayloadModel, CodexAdapterErrorModel>(output),
        text_member(
            output_record(kind, name, call_id, output.body, output.success).data,
            "kind"@,
        ) == Some(kind),
{
    lemma_names_differ();
    let a = member("kind"@, JsonModel::Text(kind));
    let b = member("output"@, output_json(output.body));
    let c = member("success"@, bool_or_null(output.success));
    lemma_member3(a, b, c, "kind"@);
    lemma_member3(a, b, c, "output"@);
    lemma_member3(a, b, c, "success"@);
}

/// Whether an item is a function call, or the output of one whose body the provider's decoder
/// reads back, without a transport envelope.
pub open spec fn bare_function_item(wired: WiredItemModel) -> bool {
    match wired.item {
        ResponseItemModel::FunctionCall {
            id,
            internal_chat_message_metadata_passthrough,
            ..
        } => id is None && internal_chat_message_metadata_passthrough is None,
        ResponseItemModel::FunctionCallOutput {
            id,
            output,
            internal_chat_message_metadata_passthrough,
            ..
        } => id is None && internal_chat_message_metadata_passthrough is None && body_reads_back(
            output.body,
            wired.reading.tool,
        ),
        _ => false,
    }
}

/// A function call, or its output, that is adapted and then prepared for the provider is the same
/// item again, with its name, namespace, arguments, call id, body and success.
pub proof fn law_function_items_come_back(
    lineage: ProviderLineageModel,
    resolve: Resolution,
    materialize: Option<Materialization>,
    metadata: EventMetadataModel,
    wired: WiredItemModel,
)
    requires
        bare_function_item(wired),
    ensures
        adapted_response(lineage, resolve, metadata, wired, None) matches Ok(
            AdaptedRolloutItemModel::Event(event),
        ) && event.id == metadata.event_id && event.sequence == metadata.sequence
            && (event.payload matches ContextEventPayloadModel::Tool(tool) && {
            let read = ReadItemModel {
                item: ModelContextItemModel {
                    id: event.id,
                    source_sequence: Some(event.sequence),
                    payload: ModelContextPayloadModel::Tool(tool),
                },
                reading: wired.reading,
            };
            &&& !holds_stray_item(lineage, read)
            &&& typed_all(lineage, materialize, seq![read]) == Ok::<
                Seq<ResponseItemModel>,
                CodexAdapterErrorModel,
            >(seq![wired.item])
        }),
{
    lemma_names_differ();
    match wired.item {
        ResponseItemModel::FunctionCall { name, namespace, arguments, call_id, .. } => {
            law_function_call_round_trip(name, namespace, arguments, call_id, wired.reading.tool);
        },
        ResponseItemModel::FunctionCallOutput { call_id, output, .. } => {
            law_output_round_trip(
                "function"@,
                "function_call"@,
                call_id,
                output,
                wired.reading.tool,
            );
        },
        _ => {},
    }
    let adapted = adapted_response(lineage, resolve, metadata, wired, None);
    let event = adapted->Ok_0->Event_0;
    let read = ReadItemModel {
        item: ModelContextItemModel {
            id: event.id,
            source_sequence: Some(event.sequence),
            payload: ModelContextPayloadModel::Tool(event.payload->Tool_0),
        },
        reading: wired.reading,
    };
    let prepare = |read: ReadItemModel| prepared_of(lineage, materialize, read);
    let typed = |p: PreparedCodexInputItemModel| typed_item(p);
    let prepared = PreparedCodexInputItemModel::Typed { item: wired.item, original_json: None };
    assert(prepare(read) == Ok::<PreparedCodexInputItemModel, CodexAdapterErrorModel>(prepared));
    lemma_collected_one(read, prepare);
    lemma_collected_one(prepared, typed);
}

/// Collecting from one element.
proof fn lemma_collected_one<A, B, E>(a: A, f: spec_fn(A) -> Result<B, E>)
    ensures
        f(a) matches Ok(b) ==> collected(seq![a], f) == Ok::<Seq<B>, E>(seq![b]),
{
    reveal_with_fuel(collected, 2);
    assert(seq![a].drop_last() =~= Seq::empty());
    if let Ok(b) = f(a) {
        assert(Seq::<B>::empty().push(b) =~= seq![b]);
    }
}

/// A shell call comes back with its call id, status and action.
pub proof fn law_shell_call_round_trip(
    id: Option<Seq<char>>,
    call_id: Seq<char>,
    status: LocalShellStatus,
    action: JsonModel,
)
    ensures
        shell_record(id, Some(call_id), status, action) matches Ok(record) && tool_input_of(
            record,
            DecodedToolModel::Value(action),
        ) == Ok::<ResponseItemModel, CodexAdapterErrorModel>(
            ResponseItemModel::LocalShellCall {
                id: None,
                call_id: Some(call_id),
                status,
                action,
                internal_chat_message_metadata_passthrough: None,
            },
        ),
{
    lemma_names_differ();
    let a = member("action"@, action);
    let b = member("kind"@, JsonModel::Text("local_shell"@));
    lemma_member2(a, b, "kind"@);
    lemma_member2(a, b, "action"@);
}

/// Whether media comes back from the application exactly as it was taken over.
pub open spec fn media_round_trips(
    resolve: Resolution,
    materialize: Option<Materialization>,
    source: Seq<char>,
    kind: AttachmentKind,
) -> bool {
    match (resolve(source, kind), materialize) {
        (Some(resolved), Some(materialize)) => source.len() > 0 && (materialize(
            resolved.attachment_id,
            resolved.media_type,
            kind,
        ) matches Some(materialized) && materialized.source == source),
        _ => true,
    }
}

/// A content item in the shape of its role comes back as it was: text always, media where the
/// application gives the same source back.
pub proof fn law_content_round_trip(
    resolve: Resolution,
    materialize: Option<Materialization>,
    role: MessageRole,
    item: ContentItemModel,
)
    requires
        canonical_part(role, item),
        content_part_of(resolve, item) is Ok,
        item is InputImage || item is InputAudio ==> materialize is Some,
        item matches ContentItemModel::InputImage { image_url, .. } ==> media_round_trips(
            resolve,
            materialize,
            image_url,
            AttachmentKind::Image,
        ),
        item matches ContentItemModel::InputAudio { audio_url } ==> media_round_trips(
            resolve,
            materialize,
            audio_url,
            AttachmentKind::Audio,
        ),
    ensures
        content_input_of(materialize, role, content_part_of(resolve, item)->Ok_0) == Ok::<
            ContentItemModel,
            CodexAdapterErrorModel,
        >(item),
{
}

/// Collecting over the results of a first pass undoes it, where the second function undoes the
/// first on every element.
proof fn lemma_collect_back<A, B, E>(
    items: Seq<A>,
    there: spec_fn(A) -> Result<B, E>,
    back: spec_fn(B) -> Result<A, E>,
)
    requires
        collected(items, there) is Ok,
        forall|i: int|
            0 <= i < items.len() ==> (there(#[trigger] items[i]) matches Ok(b) && back(b) == Ok::<
                A,
                E,
            >(items[i])),
    ensures
        collected(collected(items, there)->Ok_0, back) == Ok::<Seq<A>, E>(items),
    decreases items.len(),
{
    if items.len() > 0 {
        let front = items.drop_last();
        assert forall|i: int| 0 <= i < front.len() implies (there(#[trigger] front[i]) matches Ok(b)
            && back(b) == Ok::<A, E>(front[i])) by {
            assert(front[i] == items[i]);
        }
        lemma_collect_back(front, there, back);
        let out = collected(items, there)->Ok_0;
        let last = items[items.len() - 1];
        assert(there(last) is Ok);
        assert(out.drop_last() =~= collected(front, there)->Ok_0);
        assert(front.push(items.last()) =~= items);
    } else {
        assert(collected(items, there)->Ok_0 =~= Seq::<B>::empty());
        assert(items =~= Seq::<A>::empty());
    }
}

/// A message in the shape of its role comes back with its role, content and phase.
pub proof fn law_message_round_trip(
    resolve: Resolution,
    materialize: Option<Materialization>,
    item_id: Seq<char>,
    role: MessageRole,
    content: Seq<ContentItemModel>,
    phase: Option<MessagePhase>,
)
    requires
        canonical_content(role, content),
        message_of(resolve, role, content, phase) is Ok,
        forall|i: int|
            0 <= i < content.len() ==> {
                &&& #[trigger] content[i] is InputImage || content[i] is InputAudio
                    ==> materialize is Some
                &&& content[i] matches ContentItemModel::InputImage { image_url, .. }
                    ==> media_round_trips(resolve, materialize, image_url, AttachmentKind::Image)
                &&& content[i] matches ContentItemModel::InputAudio { audio_url }
                    ==> media_round_trips(resolve, materialize, audio_url, AttachmentKind::Audio)
            },
    ensures
        message_input_of(
            materialize,
            item_id,
            message_of(resolve, role, content, phase)->Ok_0,
        ) == Ok::<ResponseItemModel, CodexAdapterErrorModel>(
            ResponseItemModel::Message {
                id: None,
                role: role_name(role),
                content,
                phase,
                internal_chat_message_metadata_passthrough: None,
            },
        ),
{
    let there = |item: ContentItemModel| content_part_of(resolve, item);
    let back = |part: ContentPartModel| content_input_of(materialize, role, part);
    lemma_collected_ok(content, there);
    assert forall|i: int| 0 <= i < content.len() implies (there(#[trigger] content[i]) matches Ok(b)
        && back(b) == Ok::<ContentItemModel, CodexAdapterErrorModel>(content[i])) by {
        law_content_round_trip(resolve, materialize, role, content[i]);
    }
    lemma_collect_back(content, there, back);
}

/// A plain message between agents comes back with its author, recipient and text.
pub proof fn law_agent_message_round_trip(
    materialize: Option<Materialization>,
    item_id: Seq<char>,
    author: Seq<char>,
    recipient: Seq<char>,
    content: Seq<AgentMessageInputContentModel>,
)
    requires
        plain_text(content),
    ensures
        message_input_of(materialize, item_id, agent_message_of(author, recipient, content))
            == Ok::<ResponseItemModel, CodexAdapterErrorModel>(
            ResponseItemModel::AgentMessage {
                id: None,
                author,
                recipient,
                content,
                internal_chat_message_metadata_passthrough: None,
            },
        ),
{
    lemma_agent_content_back(item_id, content);
}

proof fn lemma_agent_content_back(
    item_id: Seq<char>,
    content: Seq<AgentMessageInputContentModel>,
)
    requires
        plain_text(content),
    ensures
        collected(
            content.map_values(
                |part: AgentMessageInputContentModel|
                    ContentPartModel::Text { text: part->InputText_text },
            ),
            |part: ContentPartModel| routed_input_of(item_id, part),
        ) == Ok::<Seq<AgentMessageInputContentModel>, CodexAdapterErrorModel>(content),
    decreases content.len(),
{
    let there = |part: AgentMessageInputContentModel|
        ContentPartModel::Text { text: part->InputText_text };
    let back = |part: ContentPartModel| routed_input_of(item_id, part);
    let parts = content.map_values(there);
    if content.len() > 0 {
        let front = content.drop_last();
        assert(plain_text(front)) by {
            assert forall|i: int| 0 <= i < front.len() implies #[trigger] front[i] is InputText by {
                assert(front[i] == content[i]);
            }
        }
        lemma_agent_content_back(item_id, front);
        assert(parts.drop_last() =~= front.map_values(there));
        assert(content[content.len() - 1] is InputText);
        assert(front.push(content.last()) =~= content);
    } else {
        assert(content =~= Seq::empty());
    }
}

/// The kinds of provider records are never taken for messages between agents.
proof fn lemma_kind_is_no_communication(item: ResponseItemModel)
    ensures
        opaque_kind_of(item) != "codex.inter_agent_communication"@,
{
    reveal_strlit("codex.inter_agent_communication");
    reveal_strlit("codex.additional_tools");
    reveal_strlit("codex.message");
    reveal_strlit("codex.agent_message.encrypted");
    reveal_strlit("codex.reasoning");
    reveal_strlit("codex.tool_search_call");
    reveal_strlit("codex.tool_search_output");
    reveal_strlit("codex.web_search_call");
    reveal_strlit("codex.image_generation_call");
    reveal_strlit("codex.compaction");
    reveal_strlit("codex.context_compaction");
    reveal_strlit("codex.unknown_response_item");
    assert("codex.inter_agent_communication"@.len() == 31);
}

/// Whatever is carried whole as a provider record is sent back unchanged: the audit finds it
/// matched.
pub proof fn law_provider_records_come_through(
    env: AdapterEnv,
    index: usize,
    wired: WiredItemModel,
)
    requires
        response_record(
            env.lineage,
            env.resolve,
            wired,
            None,
            event_id_of("shadow:"@, index),
        ) matches Ok(Some(ModelContextPayloadModel::ProviderOpaque(_))),
        serialization_view_of(wired.item) == wired.item,
    ensures
        audited(env, index, wired) == Verdict::Matched,
{
    lemma_kind_is_no_communication(wired.item);
    law_restore_undoes_serialization_view(wired.item);
    assert(opaque_kind_of(serialization_view_of(wired.item)) == opaque_kind_of(wired.item));
}

/// The audit reports an item that the provider's serializer would cut as not taken over, whatever
/// the decoder gives.
pub proof fn law_lossy_items_are_reported(env: AdapterEnv, index: usize, wired: WiredItemModel)
    requires
        serialization_view_of(wired.item) != wired.item,
    ensures
        audited(env, index, wired) matches Verdict::Failed(failure) && {
            &&& failure.index == index
            &&& failure.stage == CodexInputParityStage::Import
            &&& failure.item_kind == "reasoning"@
            &&& failure.reason_code == "raw_payload_required"@
        },
{
}

/// A function call always comes through the audit.
pub proof fn law_function_calls_come_through(env: AdapterEnv, index: usize, wired: WiredItemModel)
    requires
        wired.item is FunctionCall,
    ensures
        audited(env, index, wired) == Verdict::Matched,
{
    if let ResponseItemModel::FunctionCall { name, namespace, arguments, call_id, .. } =
        wired.item {
        law_function_call_round_trip(name, namespace, arguments, call_id, wired.reading.tool);
    }
}

/// A message of plain text in the shape of its role always comes through the audit.
pub proof fn law_text_messages_come_through(
    env: AdapterEnv,
    index: usize,
    wired: WiredItemModel,
    role: MessageRole,
)
    requires
        wired.item is Message,
        wired.item->Message_role == role_name(role),
        canonical_content(role, wired.item->Message_content),
        forall|i: int|
            0 <= i < wired.item->Message_content.len() ==> (
            #[trigger] wired.item->Message_content[i] is InputText
                || wired.item->Message_content[i] is OutputText),
    ensures
        audited(env, index, wired) == Verdict::Matched,
{
    let content = wired.item->Message_content;
    let there = |item: ContentItemModel| content_part_of(env.resolve, item);
    law_role_names_read_back(role);
    lemma_text_is_taken_over(env.resolve, content);
    law_message_round_trip(
        env.resolve,
        env.materialize,
        event_id_of("shadow:"@, index),
        role,
        content,
        wired.item->Message_phase,
    );
}

proof fn lemma_text_is_taken_over(resolve: Resolution, content: Seq<ContentItemModel>)
    requires
        forall|i: int|
            0 <= i < content.len() ==> (#[trigger] content[i] is InputText
                || content[i] is OutputText),
    ensures
        collected(content, |item: ContentItemModel| content_part_of(resolve, item)) is Ok,
    decreases content.len(),
{
    if content.len() > 0 {
        let front = content.drop_last();
        assert forall|i: int| 0 <= i < front.len() implies (#[trigger] front[i] is InputText
            || front[i] is OutputText) by {
            assert(front[i] == content[i]);
        }
        lemma_text_is_taken_over(resolve, front);
        assert(content[content.len() - 1] is InputText || content[content.len() - 1] is OutputText);
    }
}

/// An exact reconstruction, where there is one, is the prompt itself.
pub proof fn law_rebuilt_prompt_is_the_source(
    env: AdapterEnv,
    conversation_id: Seq<char>,
    items: Seq<WiredItemModel>,
)
    ensures
        rebuilt_prompt(env, conversation_id, items) matches Ok(rebuilt) ==> {
            &&& rebuilt.len() == items.len()
            &&& forall|i: int| 0 <= i < items.len() ==> #[trigger] rebuilt[i] == items[i].item
        },
{
}

/// Whether the audit finds nothing wrong with an item.
pub open spec fn passes(verdict: Verdict) -> bool {
    verdict is Ignored || verdict is Matched
}

/// An audit reports equivalence exactly if it finds nothing wrong with any item.
pub proof fn law_audit_is_equivalent_iff_all_pass(env: AdapterEnv, items: Seq<WiredItemModel>)
    requires
        items.len() <= usize::MAX,
    ensures
        equivalent(audit_report(env, items, items.len())) <==> forall|i: int|
            0 <= i < items.len() ==> passes(#[trigger] audited(env, i as usize, items[i])),
{
    lemma_audit_counts(env, items, items.len());
}

proof fn lemma_audit_counts(env: AdapterEnv, items: Seq<WiredItemModel>, n: nat)
    requires
        n <= items.len() <= usize::MAX,
    ensures
        ({
            let report = audit_report(env, items, n);
            &&& report.source_items == items.len()
            &&& report.compared_items + report.ignored_items <= n
            &&& report.failures.len() == 0 <==> forall|i: int|
                0 <= i < n ==> passes(#[trigger] audited(env, i as usize, items[i]))
            &&& report.failures.len() == 0 ==> report.compared_items + report.ignored_items == n
        }),
    decreases n,
{
    if n > 0 {
        let m = (n - 1) as nat;
        lemma_audit_counts(env, items, m);
        let verdict = audited(env, m as usize, items[m as int]);
        let before = audit_report(env, items, m);
        let report = audit_report(env, items, n);
        if report.failures.len() == 0 {
            assert(before.failures.len() == 0);
            assert forall|i: int| 0 <= i < n implies passes(
                #[trigger] audited(env, i as usize, items[i]),
            ) by {
                if i == m {
                    assert(passes(verdict));
                }
            }
        }
        if forall|i: int| 0 <= i < n ==> passes(#[trigger] audited(env, i as usize, items[i])) {
            assert(passes(audited(env, m as usize, items[m as int])));
            assert forall|i: int| 0 <= i < m implies passes(
                #[trigger] audited(env, i as usize, items[i]),
            ) by {}
        }
    }
}

/// A checkpoint is bound to the adapter's lineage exactly if it holds a provider record, all its
/// provider records are of that lineage, and it replaces only what came before its event.
pub proof fn law_checkpoint_binds_its_lineage(
    lineage: ProviderLineageModel,
    resolve: Resolution,
    metadata: EventMetadataModel,
    compacted: CompactedItemModel,
)
    ensures
        checkpoint_of(lineage, resolve, metadata, compacted) matches Ok(checkpoint) ==> {
            &&& checkpoint.conversation_id == metadata.conversation_id
            &&& checkpoint.through_sequence < metadata.sequence
            &&& (checkpoint.mode == CompactionMode::ProviderNative) == (checkpoint.lineage is Some)
            &&& (checkpoint.lineage is Some) == holds_opaque(checkpoint.replacement)
            &&& forall|i: int|
                0 <= i < checkpoint.replacement.len() ==> ((
                #[trigger] checkpoint.replacement[i]).payload matches ModelContextPayloadModel::ProviderOpaque(
                    opaque,
                ) ==> checkpoint.lineage == Some(opaque.lineage))
        },
{
    if let Ok(checkpoint) = checkpoint_of(lineage, resolve, metadata, compacted) {
        if let Some(history) = compacted.replacement_history {
            lemma_replacement_lineage(lineage, resolve, metadata.event_id, history);
        }
    }
}

proof fn lemma_replacement_lineage(
    lineage: ProviderLineageModel,
    resolve: Resolution,
    event_id: Seq<char>,
    history: Seq<WiredItemModel>,
)
    ensures
        replacement_items(lineage, resolve, event_id, history) matches Ok(items) ==> forall|i: int|
            0 <= i < items.len() ==> ((
            #[trigger] items[i]).payload matches ModelContextPayloadModel::ProviderOpaque(opaque)
                ==> opaque.lineage == lineage),
    decreases history.len(),
{
    if history.len() > 0 {
        lemma_replacement_lineage(lineage, resolve, event_id, history.drop_last());
    }
}

} // verus!
