//! Whether a prompt comes through the neutral contract unchanged.
use vstd::prelude::*;

use crate::adapter::{
    is_plain_text, plain_text, response_record, CodexContextAdapter, Materialization, Resolution,
};
use crate::attachment::{AttachmentMaterializer, AttachmentResolver};
use crate::codec::{
    event_payload_to_model, event_record, id_of, is_tool_or_control, item_of_record, opaque_kind,
    opaque_kind_of, provider_serialization_view, restore_local_only_fields, serialization_view_of,
    turn_id_of, with_id, with_local_fields, with_metadata, with_turn_id,
};
use crate::context::{
    ContextEvent, ContextEventModel, ContextEventPayload, ContextEventPayloadModel,
    ModelContextItem, ModelContextItemModel, ModelContextPayload, ModelContextPayloadModel,
    ProviderLineageModel,
};
use crate::error::{
    adapter_error_code, adapter_error_text, CodexAdapterError, CodexAdapterErrorModel,
};
use crate::lists::{lemma_empty_content, lemma_filter_step, outcome};
use crate::model::Modeled;
use crate::outbound::{holds_stray_item, prepared_of};
use crate::projection::{
    candidate_items, compatible, contract_error_text, journal_problem, kept_items,
    latest_checkpoint, model_item, model_item_after, project_context, projection_of,
    usable_checkpoint,
};
use crate::protocol::{
    DecodedItemModel, ResponseItem, ResponseItemModel, WiredItem, WiredItemModel,
};
use crate::text::{decimal, decimal_text, glue};
use crate::types::{
    event_with, AdaptedRolloutItem, EventMetadata, EventMetadataModel, PreparedCodexInputItem,
    PreparedCodexInputItemModel, ReadItemModel,
};

verus! {

/// Where an item failed on its way through the neutral contract.
#[derive(Clone, Copy, Debug, PartialEq, Eq, Structural)]
pub enum CodexInputParityStage {
    Import,
    Export,
    Compare,
}

impl DeepView for CodexInputParityStage {
    type V = CodexInputParityStage;

    open spec fn deep_view(&self) -> CodexInputParityStage {
        *self
    }
}

impl Modeled for CodexInputParityStage {
    fn duplicate(&self) -> (r: Self) {
        *self
    }

    fn same(&self, other: &Self) -> (r: bool) {
        *self == *other
    }
}

/// One item that did not come through unchanged.
#[derive(Debug, PartialEq, Eq)]
pub struct CodexInputParityFailure {
    pub index: usize,
    pub stage: CodexInputParityStage,
    /// Stable provider-item classification. Prompt contents are never shown.
    pub item_kind: &'static str,
    /// Stable content-free failure classification.
    pub reason_code: &'static str,
    /// Adapter classification only. Prompt contents are never shown.
    pub reason: String,
}

/// The mathematical content of a [`CodexInputParityFailure`].
pub struct CodexInputParityFailureModel {
    pub index: usize,
    pub stage: CodexInputParityStage,
    pub item_kind: Seq<char>,
    pub reason_code: Seq<char>,
    pub reason: Seq<char>,
}

impl DeepView for CodexInputParityFailure {
    type V = CodexInputParityFailureModel;

    open spec fn deep_view(&self) -> CodexInputParityFailureModel {
        CodexInputParityFailureModel {
            index: self.index,
            stage: self.stage,
            item_kind: self.item_kind.deep_view(),
            reason_code: self.reason_code.deep_view(),
            reason: self.reason.deep_view(),
        }
    }
}

impl Modeled for CodexInputParityFailure {
    fn duplicate(&self) -> (r: Self) {
        CodexInputParityFailure {
            index: self.index,
            stage: self.stage,
            item_kind: self.item_kind.duplicate(),
            reason_code: self.reason_code.duplicate(),
            reason: self.reason.duplicate(),
        }
    }

    fn same(&self, other: &Self) -> (r: bool) {
        self.index == other.index
            && self.stage == other.stage
            && self.item_kind.same(&other.item_kind)
            && self.reason_code.same(&other.reason_code)
            && self.reason.same(&other.reason)
    }
}

impl Clone for CodexInputParityFailure {
    fn clone(&self) -> (r: Self)
        ensures
            r.deep_view() == self.deep_view(),
    {
        self.duplicate()
    }
}

/// How a prompt came through the neutral contract.
#[derive(Debug, PartialEq, Eq)]
pub struct CodexInputParityReport {
    pub source_items: usize,
    pub compared_items: usize,
    pub ignored_items: usize,
    pub failures: Vec<CodexInputParityFailure>,
}

/// The mathematical content of a [`CodexInputParityReport`].
pub struct CodexInputParityReportModel {
    pub source_items: usize,
    pub compared_items: usize,
    pub ignored_items: usize,
    pub failures: Seq<CodexInputParityFailureModel>,
}

impl DeepView for CodexInputParityReport {
    type V = CodexInputParityReportModel;

    open spec fn deep_view(&self) -> CodexInputParityReportModel {
        CodexInputParityReportModel {
            source_items: self.source_items,
            compared_items: self.compared_items,
            ignored_items: self.ignored_items,
            failures: self.failures.deep_view(),
        }
    }
}

impl Modeled for CodexInputParityReport {
    fn duplicate(&self) -> (r: Self) {
        CodexInputParityReport {
            source_items: self.source_items,
            compared_items: self.compared_items,
            ignored_items: self.ignored_items,
            failures: self.failures.duplicate(),
        }
    }

    fn same(&self, other: &Self) -> (r: bool) {
        self.source_items == other.source_items
            && self.compared_items == other.compared_items
            && self.ignored_items == other.ignored_items
            && self.failures.same(&other.failures)
    }
}

impl Clone for CodexInputParityReport {
    fn clone(&self) -> (r: Self)
        ensures
            r.deep_view() == self.deep_view(),
    {
        self.duplicate()
    }
}

impl CodexInputParityStage {
    /// The name of the stage.
    pub fn as_str(self) -> (r: &'static str)
        ensures
            r@ == stage_name(self),
    {
        match self {
            CodexInputParityStage::Import => "import",
            CodexInputParityStage::Export => "export",
            CodexInputParityStage::Compare => "compare",
        }
    }
}

/// The name of a stage.
pub open spec fn stage_name(stage: CodexInputParityStage) -> Seq<char> {
    match stage {
        CodexInputParityStage::Import => "import"@,
        CodexInputParityStage::Export => "export"@,
        CodexInputParityStage::Compare => "compare"@,
    }
}

/// Whether nothing failed and every item was compared or ignored.
pub open spec fn equivalent(report: CodexInputParityReportModel) -> bool {
    report.failures.len() == 0 && report.source_items == report.compared_items
        + report.ignored_items
}

impl CodexInputParityReport {
    /// Whether nothing failed and every item was compared or ignored.
    pub fn is_equivalent(&self) -> (r: bool)
        ensures
            self.compared_items + self.ignored_items <= usize::MAX ==> r == equivalent(
                self.deep_view(),
            ),
            self.compared_items + self.ignored_items > usize::MAX ==> r == (self.failures@.len()
                == 0 && self.source_items == usize::MAX),
    {
        self.failures.len() == 0 && self.source_items == self.compared_items.saturating_add(
            self.ignored_items,
        )
    }

    /// The number of items that failed at a stage.
    pub fn failure_count(&self, stage: CodexInputParityStage) -> (r: usize)
        ensures
            r == self.deep_view().failures.filter(
                |failure: CodexInputParityFailureModel| failure.stage == stage,
            ).len(),
    {
        let ghost model = self.failures.deep_view();
        let ghost pred = |failure: CodexInputParityFailureModel| failure.stage == stage;
        let mut count: usize = 0;
        let mut i: usize = 0;
        proof {
            reveal(Seq::filter);
            assert(model.take(0).filter(pred) =~= Seq::empty());
        }
        while i < self.failures.len()
            invariant
                i <= self.failures@.len(),
                count <= i,
                model == self.failures.deep_view(),
                pred == (|failure: CodexInputParityFailureModel| failure.stage == stage),
                count == model.take(i as int).filter(pred).len(),
            decreases self.failures.len() - i,
        {
            proof {
                assert(model[i as int] == self.failures@[i as int].deep_view());
                lemma_filter_step(model, pred, i as int);
            }
            if self.failures[i].stage == stage {
                count = count + 1;
            }
            i = i + 1;
        }
        assert(model.take(model.len() as int) =~= model);
        count
    }
}

// ---------------------------------------------------------------------------------------------
// Verdicts on single items

/// The classification of an item.
pub open spec fn kind_name(item: ResponseItemModel) -> Seq<char> {
    match item {
        ResponseItemModel::AdditionalTools { .. } => "additional_tools"@,
        ResponseItemModel::Message { .. } => "message"@,
        ResponseItemModel::AgentMessage { content, .. } => if plain_text(content) {
            "agent_message"@
        } else {
            "encrypted_agent_message"@
        },
        ResponseItemModel::Reasoning { .. } => "reasoning"@,
        ResponseItemModel::LocalShellCall { .. } => "local_shell_call"@,
        ResponseItemModel::FunctionCall { .. } => "function_call"@,
        ResponseItemModel::ToolSearchCall { .. } => "tool_search_call"@,
        ResponseItemModel::FunctionCallOutput { .. } => "function_call_output"@,
        ResponseItemModel::CustomToolCall { .. } => "custom_tool_call"@,
        ResponseItemModel::CustomToolCallOutput { .. } => "custom_tool_call_output"@,
        ResponseItemModel::ToolSearchOutput { .. } => "tool_search_output"@,
        ResponseItemModel::WebSearchCall { .. } => "web_search_call"@,
        ResponseItemModel::ImageGenerationCall { .. } => "image_generation_call"@,
        ResponseItemModel::Compaction { .. } => "compaction"@,
        ResponseItemModel::CompactionTrigger => "compaction_trigger"@,
        ResponseItemModel::ContextCompaction { .. } => "context_compaction"@,
        ResponseItemModel::Other => "unknown"@,
    }
}

/// The classification of an item.
pub fn response_item_kind(item: &ResponseItem) -> (r: &'static str)
    ensures
        r@ == kind_name(item.deep_view()),
{
    match item {
        ResponseItem::AdditionalTools { .. } => "additional_tools",
        ResponseItem::Message { .. } => "message",
        ResponseItem::AgentMessage { content, .. } => if is_plain_text(content) {
            "agent_message"
        } else {
            "encrypted_agent_message"
        },
        ResponseItem::Reasoning { .. } => "reasoning",
        ResponseItem::LocalShellCall { .. } => "local_shell_call",
        ResponseItem::FunctionCall { .. } => "function_call",
        ResponseItem::ToolSearchCall { .. } => "tool_search_call",
        ResponseItem::FunctionCallOutput { .. } => "function_call_output",
        ResponseItem::CustomToolCall { .. } => "custom_tool_call",
        ResponseItem::CustomToolCallOutput { .. } => "custom_tool_call_output",
        ResponseItem::ToolSearchOutput { .. } => "tool_search_output",
        ResponseItem::WebSearchCall { .. } => "web_search_call",
        ResponseItem::ImageGenerationCall { .. } => "image_generation_call",
        ResponseItem::Compaction { .. } => "compaction",
        ResponseItem::CompactionTrigger => "compaction_trigger",
        ResponseItem::ContextCompaction { .. } => "context_compaction",
        ResponseItem::Other => "unknown",
    }
}

/// What was found of one item.
pub enum Verdict {
    /// A request control, which has no place in durable context.
    Ignored,
    /// The item could not be taken over or prepared.
    Failed(CodexInputParityFailureModel),
    /// The item came through unchanged.
    Matched,
    /// The item came through changed.
    Differs(CodexInputParityFailureModel),
}

/// The failure of an item with an adapter error.
pub open spec fn error_failure(
    index: usize,
    stage: CodexInputParityStage,
    item: ResponseItemModel,
    error: CodexAdapterErrorModel,
) -> CodexInputParityFailureModel {
    CodexInputParityFailureModel {
        index,
        stage,
        item_kind: kind_name(item),
        reason_code: adapter_error_code(error),
        reason: adapter_error_text(error),
    }
}

/// The failure of an item that only the raw transport can send.
pub open spec fn raw_failure(
    index: usize,
    item: ResponseItemModel,
) -> CodexInputParityFailureModel {
    CodexInputParityFailureModel {
        index,
        stage: CodexInputParityStage::Export,
        item_kind: kind_name(item),
        reason_code: "raw_transport_required"@,
        reason: "raw Codex request transport required"@,
    }
}

/// The failure of an item that came through changed.
pub open spec fn changed_failure(
    index: usize,
    item: ResponseItemModel,
    reason_code: Seq<char>,
    reason: Seq<char>,
) -> CodexInputParityFailureModel {
    CodexInputParityFailureModel {
        index,
        stage: CodexInputParityStage::Compare,
        item_kind: kind_name(item),
        reason_code,
        reason: kind_name(item) + reason,
    }
}

/// The content of an item without its transport envelope.
pub open spec fn semantic_part(item: ResponseItemModel) -> ResponseItemModel {
    with_metadata(with_id(item, None), None)
}

/// What was found of an item that was adapted as `payload` and prepared again.
pub open spec fn audit_verdict(
    index: usize,
    source: ResponseItemModel,
    prepared: Result<PreparedCodexInputItemModel, CodexAdapterErrorModel>,
) -> Verdict {
    match prepared {
        Err(error) => Verdict::Failed(
            error_failure(index, CodexInputParityStage::Export, source, error),
        ),
        Ok(PreparedCodexInputItemModel::RawOpaque { .. }) => Verdict::Failed(
            raw_failure(index, source),
        ),
        Ok(PreparedCodexInputItemModel::Typed { item, original_json }) => {
            let rebuilt = with_local_fields(source, item);
            let unchanged = if original_json is Some {
                source == rebuilt
            } else {
                semantic_part(source) == semantic_part(rebuilt)
            };
            if unchanged {
                Verdict::Matched
            } else {
                Verdict::Differs(
                    changed_failure(
                        index,
                        source,
                        "projection_mismatch"@,
                        " item changed across the neutral projection"@,
                    ),
                )
            }
        },
    }
}

/// The id of the event that stands for item `index`.
pub open spec fn event_id_of(prefix: Seq<char>, index: usize) -> Seq<char> {
    prefix + decimal_text(index as nat)
}

/// How an adapter reads and writes: its lineage, its resolver and its materializer.
pub struct AdapterEnv {
    pub lineage: ProviderLineageModel,
    pub resolve: Resolution,
    pub materialize: Option<Materialization>,
}

/// Whether an item holds text that the provider's serializer leaves out, so that only its original
/// JSON could carry it whole.
pub open spec fn is_lossy(item: ResponseItemModel) -> bool {
    serialization_view_of(item) != item
}

/// What an audit finds of one item. A lossy one counts as not taken over.
pub open spec fn audited(env: AdapterEnv, index: usize, wired: WiredItemModel) -> Verdict {
    let id = event_id_of("shadow:"@, index);
    if is_lossy(wired.item) {
        Verdict::Failed(
            error_failure(
                index,
                CodexInputParityStage::Import,
                wired.item,
                CodexAdapterErrorModel::RawPayloadRequired { kind: opaque_kind_of(wired.item) },
            ),
        )
    } else {
        match response_record(env.lineage, env.resolve, wired, None, id) {
            Err(error) => Verdict::Failed(
                error_failure(index, CodexInputParityStage::Import, wired.item, error),
            ),
            Ok(None) => Verdict::Ignored,
            Ok(Some(payload)) => audit_verdict(
                index,
                wired.item,
                prepared_of(
                    env.lineage,
                    env.materialize,
                    ReadItemModel {
                        item: item_of_record(payload, id, Some((index + 1) as u64)),
                        reading: wired.reading,
                    },
                ),
            ),
        }
    }
}

/// A report with one more verdict.
pub open spec fn tally(
    report: CodexInputParityReportModel,
    verdict: Verdict,
) -> CodexInputParityReportModel {
    match verdict {
        Verdict::Ignored => CodexInputParityReportModel {
            ignored_items: (report.ignored_items + 1) as usize,
            ..report
        },
        Verdict::Failed(failure) => CodexInputParityReportModel {
            failures: report.failures.push(failure),
            ..report
        },
        Verdict::Matched => CodexInputParityReportModel {
            compared_items: (report.compared_items + 1) as usize,
            ..report
        },
        Verdict::Differs(failure) => CodexInputParityReportModel {
            compared_items: (report.compared_items + 1) as usize,
            failures: report.failures.push(failure),
            ..report
        },
    }
}

/// The report before any item was looked at.
pub open spec fn blank_report(source_items: usize) -> CodexInputParityReportModel {
    CodexInputParityReportModel {
        source_items,
        compared_items: 0,
        ignored_items: 0,
        failures: Seq::empty(),
    }
}

/// The report on the first `n` items.
pub open spec fn audit_report(
    env: AdapterEnv,
    items: Seq<WiredItemModel>,
    n: nat,
) -> CodexInputParityReportModel
    decreases n,
{
    if n == 0 {
        blank_report(items.len() as usize)
    } else {
        tally(
            audit_report(env, items, (n - 1) as nat),
            audited(env, (n - 1) as usize, items[n - 1]),
        )
    }
}

/// A provider record made from an item decodes to the item's serialization view.
proof fn lemma_no_stray_item(env: AdapterEnv, wired: WiredItemModel, fallback_id: Seq<char>)
    requires
        response_record(env.lineage, env.resolve, wired, None, fallback_id) matches Ok(
            Some(ModelContextPayloadModel::ProviderOpaque(_)),
        ),
    ensures
        wired.reading.response == DecodedItemModel::Item(serialization_view_of(wired.item)),
        !is_tool_or_control(serialization_view_of(wired.item)),
{
}

fn adapter_failure(
    index: usize,
    stage: CodexInputParityStage,
    source: &ResponseItem,
    error: CodexAdapterError,
) -> (r: CodexInputParityFailure)
    ensures
        r.deep_view() == error_failure(index, stage, source.deep_view(), error.deep_view()),
{
    CodexInputParityFailure {
        index,
        stage,
        item_kind: response_item_kind(source),
        reason_code: error.diagnostic_code(),
        reason: error.message(),
    }
}

fn raw_transport_failure(index: usize, source: &ResponseItem) -> (r: CodexInputParityFailure)
    ensures
        r.deep_view() == raw_failure(index, source.deep_view()),
{
    CodexInputParityFailure {
        index,
        stage: CodexInputParityStage::Export,
        item_kind: response_item_kind(source),
        reason_code: "raw_transport_required",
        reason: "raw Codex request transport required".to_string(),
    }
}

fn mismatch_failure(
    index: usize,
    source: &ResponseItem,
    reason_code: &'static str,
    reason: &str,
) -> (r: CodexInputParityFailure)
    ensures
        r.deep_view() == changed_failure(index, source.deep_view(), reason_code@, reason@),
{
    CodexInputParityFailure {
        index,
        stage: CodexInputParityStage::Compare,
        item_kind: response_item_kind(source),
        reason_code,
        reason: glue(response_item_kind(source), reason),
    }
}

fn lossy_error(item: &ResponseItem) -> (r: Option<CodexAdapterError>)
    ensures
        r.deep_view() == if is_lossy(item.deep_view()) {
            Some(
                CodexAdapterErrorModel::RawPayloadRequired {
                    kind: opaque_kind_of(item.deep_view()),
                },
            )
        } else {
            None
        },
{
    if provider_serialization_view(item).same(item) {
        None
    } else {
        Some(CodexAdapterError::RawPayloadRequired { kind: opaque_kind(item) })
    }
}

/// The content of an item without its transport envelope.
pub fn normalize_semantic(item: ResponseItem) -> (r: ResponseItem)
    ensures
        r.deep_view() == semantic_part(item.deep_view()),
{
    let mut item = item;
    item.set_id(None);
    item.clear_internal_chat_message_metadata_passthrough();
    item
}

/// Whether a rebuilt item equals its source: entirely where its original JSON was kept, and up to
/// the transport envelope otherwise.
fn is_unchanged(source: &ResponseItem, rebuilt: ResponseItem, exact: bool) -> (r: bool)
    ensures
        r == if exact {
            source.deep_view() == rebuilt.deep_view()
        } else {
            semantic_part(source.deep_view()) == semantic_part(rebuilt.deep_view())
        },
{
    if exact {
        source.same(&rebuilt)
    } else {
        normalize_semantic(source.duplicate()).same(&normalize_semantic(rebuilt))
    }
}

/// The identity of the event that stands for item `index`.
pub open spec fn metadata_for(
    prefix: Seq<char>,
    index: usize,
    conversation_id: Seq<char>,
    item: ResponseItemModel,
) -> EventMetadataModel {
    EventMetadataModel {
        event_id: event_id_of(prefix, index),
        conversation_id,
        turn_id: turn_id_of(item),
        sequence: (index + 1) as u64,
    }
}

fn item_metadata(prefix: &str, index: usize, conversation_id: &str, item: &ResponseItem) -> (r:
    EventMetadata)
    requires
        index < usize::MAX,
    ensures
        r.deep_view() == metadata_for(prefix@, index, conversation_id@, item.deep_view()),
{
    EventMetadata {
        event_id: glue(prefix, decimal(index as u64).as_str()),
        conversation_id: conversation_id.to_owned(),
        turn_id: match item.turn_id() {
            Some(turn_id) => Some(turn_id.clone()),
            None => None,
        },
        sequence: index as u64 + 1,
    }
}

/// The model item of an event. A checkpoint is none.
pub open spec fn event_item(event: ContextEventModel) -> Option<ModelContextItemModel> {
    let payload = match event.payload {
        ContextEventPayloadModel::Message(message) => Some(
            ModelContextPayloadModel::Message(message),
        ),
        ContextEventPayloadModel::Tool(tool) => Some(ModelContextPayloadModel::Tool(tool)),
        ContextEventPayloadModel::ProviderOpaque(opaque) => Some(
            ModelContextPayloadModel::ProviderOpaque(opaque),
        ),
        ContextEventPayloadModel::Compaction(_) => None,
    };
    match payload {
        Some(payload) => Some(item_of_record(payload, event.id, Some(event.sequence))),
        None => None,
    }
}

fn event_to_model_item(event: Box<ContextEvent>) -> (r: Option<ModelContextItem>)
    ensures
        r.deep_view() == event_item(event.deep_view()),
{
    let event = *event;
    let payload = match event.payload {
        ContextEventPayload::Message(message) => ModelContextPayload::Message(message),
        ContextEventPayload::Tool(tool) => ModelContextPayload::Tool(tool),
        ContextEventPayload::ProviderOpaque(opaque) => ModelContextPayload::ProviderOpaque(opaque),
        ContextEventPayload::Compaction(_) => {
            return None;
        },
    };
    Some(event_payload_to_model(payload, event.id, Some(event.sequence)))
}

impl<'a, R: AttachmentResolver, M: AttachmentMaterializer> CodexContextAdapter<'a, R, M> {
    /// How this adapter reads and writes.
    pub open spec fn env(self) -> AdapterEnv {
        AdapterEnv {
            lineage: self.lineage.deep_view(),
            resolve: self.resolves(),
            materialize: self.materializes(),
        }
    }

    /// Audits a typed prompt through the neutral contract.
    ///
    /// The prompt is never changed, and neither message nor tool content enters the report. An
    /// item with text that the provider's serializer leaves out is reported as not taken over.
    pub fn audit_response_items(&self, conversation_id: &str, items: &[WiredItem]) -> (r:
        CodexInputParityReport)
        ensures
            r.deep_view() == audit_report(self.env(), items.deep_view(), items@.len()),
    {
        let ghost model = items.deep_view();
        let ghost env = self.env();
        let mut report = CodexInputParityReport {
            source_items: items.len(),
            compared_items: 0,
            ignored_items: 0,
            failures: Vec::new(),
        };
        let mut i: usize = 0;
        proof {
            lemma_empty_content(report.failures);
        }
        while i < items.len()
            invariant
                i <= items@.len() <= usize::MAX,
                model == items.deep_view(),
                model.len() == items@.len(),
                env == self.env(),
                report.compared_items + report.ignored_items <= i,
                report.deep_view() == audit_report(env, model, i as nat),
            decreases items.len() - i,
        {
            let wired = &items[i];
            let ghost before = report.deep_view();
            let ghost failures = report.failures;
            proof {
                assert(model[i as int] == wired.deep_view());
                assert(audit_report(env, model, (i + 1) as nat) == tally(
                    before,
                    audited(env, i, model[i as int]),
                ));
            }
            if let Some(error) = lossy_error(&wired.item) {
                let failure = adapter_failure(
                    i,
                    CodexInputParityStage::Import,
                    &wired.item,
                    error,
                );
                report.failures.push(failure);
                assert(report.failures.deep_view() =~= failures.deep_view().push(
                    failure.deep_view(),
                ));
                i = i + 1;
                continue;
            }
            let metadata = item_metadata("shadow:", i, conversation_id, &wired.item);
            let ghost id = metadata.event_id@;
            match self.adapt_response_item(metadata, wired, &None) {
                Err(error) => {
                    let failure = adapter_failure(
                        i,
                        CodexInputParityStage::Import,
                        &wired.item,
                        error,
                    );
                    report.failures.push(failure);
                    assert(report.failures.deep_view() =~= failures.deep_view().push(
                        failure.deep_view(),
                    ));
                },
                Ok(AdaptedRolloutItem::Ignored(_)) => {
                    report.ignored_items = report.ignored_items + 1;
                },
                Ok(AdaptedRolloutItem::Event(event)) => {
                    proof {
                        if event.payload.deep_view() is ProviderOpaque {
                            lemma_no_stray_item(env, wired.deep_view(), id);
                        }
                    }
                    let item = match event_to_model_item(event) {
                        Some(item) => item,
                        None => {
                            assert(false);
                            return report;
                        },
                    };
                    match self.prepare_model_input_item(&item, &wired.reading) {
                        Err(error) => {
                            let failure = adapter_failure(
                                i,
                                CodexInputParityStage::Export,
                                &wired.item,
                                error,
                            );
                            report.failures.push(failure);
                            assert(report.failures.deep_view() =~= failures.deep_view().push(
                                failure.deep_view(),
                            ));
                        },
                        Ok(PreparedCodexInputItem::RawOpaque { .. }) => {
                            let failure = raw_transport_failure(i, &wired.item);
                            report.failures.push(failure);
                            assert(report.failures.deep_view() =~= failures.deep_view().push(
                                failure.deep_view(),
                            ));
                        },
                        Ok(PreparedCodexInputItem::Typed { item, original_json }) => {
                            let mut rebuilt = item;
                            restore_local_only_fields(&wired.item, &mut rebuilt);
                            report.compared_items = report.compared_items + 1;
                            if !is_unchanged(&wired.item, rebuilt, original_json.is_some()) {
                                let failure = mismatch_failure(
                                    i,
                                    &wired.item,
                                    "projection_mismatch",
                                    " item changed across the neutral projection",
                                );
                                report.failures.push(failure);
                                assert(report.failures.deep_view() =~= failures.deep_view().push(
                                    failure.deep_view(),
                                ));
                            }
                        },
                    }
                },
            }
            i = i + 1;
        }
        report
    }
}

// ---------------------------------------------------------------------------------------------
// Exact reconstruction

/// The record that item `index` becomes on the exact route.
pub open spec fn routed_record(env: AdapterEnv, index: usize, wired: WiredItemModel) -> Result<
    Option<ModelContextPayloadModel>,
    CodexAdapterErrorModel,
> {
    response_record(env.lineage, env.resolve, wired, None, event_id_of("route:"@, index))
}

/// The event that stands for item `index` with the given record.
pub open spec fn routed_event(
    conversation_id: Seq<char>,
    index: usize,
    item: ResponseItemModel,
    payload: ModelContextPayloadModel,
) -> ContextEventModel {
    event_with(metadata_for("route:"@, index, conversation_id, item), event_record(payload))
}

/// The report after the first `n` items were taken over.
pub open spec fn import_report(
    env: AdapterEnv,
    items: Seq<WiredItemModel>,
    n: nat,
) -> CodexInputParityReportModel
    decreases n,
{
    if n == 0 {
        blank_report(items.len() as usize)
    } else {
        let before = import_report(env, items, (n - 1) as nat);
        let index = (n - 1) as usize;
        match routed_record(env, index, items[n - 1]) {
            Err(error) => tally(
                before,
                Verdict::Failed(
                    error_failure(index, CodexInputParityStage::Import, items[n - 1].item, error),
                ),
            ),
            Ok(None) => tally(before, Verdict::Ignored),
            Ok(Some(_)) => before,
        }
    }
}

/// The events for the first `n` items, each with the index of its item.
pub open spec fn routed_events(
    env: AdapterEnv,
    conversation_id: Seq<char>,
    items: Seq<WiredItemModel>,
    n: nat,
) -> Seq<(usize, ContextEventModel)>
    decreases n,
{
    if n == 0 {
        Seq::empty()
    } else {
        let before = routed_events(env, conversation_id, items, (n - 1) as nat);
        let index = (n - 1) as usize;
        match routed_record(env, index, items[n - 1]) {
            Ok(Some(payload)) => before.push(
                (index, routed_event(conversation_id, index, items[n - 1].item, payload)),
            ),
            _ => before,
        }
    }
}

/// The events alone.
pub open spec fn events_of(routed: Seq<(usize, ContextEventModel)>) -> Seq<ContextEventModel> {
    routed.map_values(|r: (usize, ContextEventModel)| r.1)
}

/// An item with the transport envelope of its source.
pub open spec fn with_envelope(
    source: ResponseItemModel,
    rebuilt: ResponseItemModel,
) -> ResponseItemModel {
    let named = with_id(with_local_fields(source, rebuilt), id_of(source));
    match turn_id_of(source) {
        Some(turn_id) => with_turn_id(named, turn_id),
        None => named,
    }
}

/// What was found of an item that was rebuilt from its event.
pub open spec fn rebuilt_verdict(
    env: AdapterEnv,
    index: usize,
    wired: WiredItemModel,
    item: ModelContextItemModel,
) -> Verdict {
    let read = ReadItemModel { item, reading: wired.reading };
    match prepared_of(env.lineage, env.materialize, read) {
        Err(error) => Verdict::Failed(
            error_failure(index, CodexInputParityStage::Export, wired.item, error),
        ),
        Ok(PreparedCodexInputItemModel::RawOpaque { .. }) => Verdict::Failed(
            raw_failure(index, wired.item),
        ),
        Ok(PreparedCodexInputItemModel::Typed { item, .. }) => if wired.item == with_envelope(
            wired.item,
            item,
        ) {
            Verdict::Matched
        } else {
            Verdict::Differs(
                changed_failure(
                    index,
                    wired.item,
                    "reconstruction_mismatch"@,
                    " item was not exactly reconstructable"@,
                ),
            )
        },
    }
}

/// The report after the first `n` events were compared with their items.
pub open spec fn compare_report(
    env: AdapterEnv,
    items: Seq<WiredItemModel>,
    routed: Seq<(usize, ContextEventModel)>,
    imports: CodexInputParityReportModel,
    n: nat,
) -> CodexInputParityReportModel
    decreases n,
{
    if n == 0 {
        imports
    } else {
        let (index, event) = routed[n - 1];
        tally(
            compare_report(env, items, routed, imports, (n - 1) as nat),
            rebuilt_verdict(env, index, items[index as int], model_item(event)->0),
        )
    }
}

/// The report where the events form no journal.
pub open spec fn journal_failure(
    imports: CodexInputParityReportModel,
    routed: Seq<(usize, ContextEventModel)>,
    reason: Seq<char>,
) -> CodexInputParityReportModel {
    tally(
        imports,
        Verdict::Failed(
            CodexInputParityFailureModel {
                index: if routed.len() > 0 {
                    routed[0].0
                } else {
                    0
                },
                stage: CodexInputParityStage::Export,
                item_kind: "context"@,
                reason_code: "projection_failed"@,
                reason: "neutral context projection failed: "@ + reason,
            },
        ),
    )
}

/// The prompt itself, where every item comes through exactly, and otherwise the report that says
/// which do not.
pub open spec fn rebuilt_prompt(
    env: AdapterEnv,
    conversation_id: Seq<char>,
    items: Seq<WiredItemModel>,
) -> Result<Seq<ResponseItemModel>, CodexInputParityReportModel> {
    let imports = import_report(env, items, items.len());
    let routed = routed_events(env, conversation_id, items, items.len());
    if imports.failures.len() > 0 {
        Err(imports)
    } else {
        match journal_problem(events_of(routed)) {
            Some(problem) => Err(journal_failure(imports, routed, contract_error_text(problem))),
            None => {
                let report = compare_report(env, items, routed, imports, routed.len());
                if report.failures.len() > 0 {
                    Err(report)
                } else {
                    Ok(items.map_values(|wired: WiredItemModel| wired.item))
                }
            },
        }
    }
}

/// The model is shown every adapted record, and a provider record belongs to the adapter's
/// lineage.
proof fn lemma_record_is_shown(
    env: AdapterEnv,
    conversation_id: Seq<char>,
    index: usize,
    wired: WiredItemModel,
)
    requires
        routed_record(env, index, wired) matches Ok(Some(_)),
        index < usize::MAX,
    ensures
        ({
            let payload = routed_record(env, index, wired)->Ok_0->0;
            let event = routed_event(conversation_id, index, wired.item, payload);
            &&& model_item(event) is Some
            &&& model_item(event)->0.payload == payload
            &&& model_item(event)->0.id == event.id
            &&& compatible(model_item(event)->0, env.lineage)
            &&& usable_checkpoint(event, env.lineage) is None
            &&& event.sequence > 0
        }),
{
}

/// Whether every event is shown to the model as it is.
spec fn all_shown(events: Seq<ContextEventModel>, lineage: ProviderLineageModel) -> bool {
    forall|i: int|
        0 <= i < events.len() ==> {
            &&& model_item(#[trigger] events[i]) is Some
            &&& compatible(model_item(events[i])->0, lineage)
            &&& usable_checkpoint(events[i], lineage) is None
            &&& events[i].sequence > 0
        }
}

/// Where every event is shown to the model, the projection keeps all of them in order.
proof fn lemma_projection_keeps_all(events: Seq<ContextEventModel>, lineage: ProviderLineageModel)
    requires
        all_shown(events, lineage),
    ensures
        latest_checkpoint(events, lineage) is None,
        projection_of(events, lineage).model_context == events.map_values(
            |e: ContextEventModel| model_item(e)->0,
        ),
{
    lemma_no_checkpoint(events, lineage);
    lemma_all_selected(events, lineage);
    let items = events.map_values(|e: ContextEventModel| model_item(e)->0);
    assert(candidate_items(events, lineage) =~= items);
    lemma_all_kept(items, lineage);
}

proof fn lemma_no_checkpoint(events: Seq<ContextEventModel>, lineage: ProviderLineageModel)
    requires
        all_shown(events, lineage),
    ensures
        latest_checkpoint(events, lineage) is None,
    decreases events.len(),
{
    if events.len() > 0 {
        assert(usable_checkpoint(events[events.len() - 1], lineage) is None);
        assert forall|i: int| 0 <= i < events.drop_last().len() implies {
            &&& model_item(#[trigger] events.drop_last()[i]) is Some
            &&& compatible(model_item(events.drop_last()[i])->0, lineage)
            &&& usable_checkpoint(events.drop_last()[i], lineage) is None
            &&& events.drop_last()[i].sequence > 0
        } by {
            assert(events.drop_last()[i] == events[i]);
        }
        lemma_no_checkpoint(events.drop_last(), lineage);
    }
}

proof fn lemma_all_selected(events: Seq<ContextEventModel>, lineage: ProviderLineageModel)
    requires
        all_shown(events, lineage),
    ensures
        events.filter_map(|e: ContextEventModel| model_item_after(e, 0)) == events.map_values(
            |e: ContextEventModel| model_item(e)->0,
        ),
    decreases events.len(),
{
    let select = |e: ContextEventModel| model_item_after(e, 0);
    let shown = |e: ContextEventModel| model_item(e)->0;
    if events.len() == 0 {
        reveal(Seq::filter_map);
        assert(events.filter_map(select) =~= events.map_values(shown));
    } else {
        let n = events.len() - 1;
        let front = events.take(n);
        assert forall|i: int| 0 <= i < front.len() implies {
            &&& model_item(#[trigger] front[i]) is Some
            &&& compatible(model_item(front[i])->0, lineage)
            &&& usable_checkpoint(front[i], lineage) is None
            &&& front[i].sequence > 0
        } by {
            assert(front[i] == events[i]);
        }
        lemma_all_selected(front, lineage);
        events.lemma_filter_map_take_succ(select, n);
        assert(events.take(n + 1) =~= events);
        assert(events[n].sequence > 0);
        assert(events.map_values(shown) =~= front.map_values(shown).push(shown(events[n])));
        assert(events.filter_map(select) =~= front.map_values(shown).push(shown(events[n])));
    }
}

proof fn lemma_all_kept(items: Seq<ModelContextItemModel>, lineage: ProviderLineageModel)
    requires
        forall|i: int| 0 <= i < items.len() ==> compatible(#[trigger] items[i], lineage),
    ensures
        kept_items(items, lineage) == items,
    decreases items.len(),
{
    reveal(Seq::filter);
    if items.len() > 0 {
        let front = items.drop_last();
        assert forall|i: int| 0 <= i < front.len() implies compatible(
            #[trigger] front[i],
            lineage,
        ) by {
            assert(front[i] == items[i]);
        }
        lemma_all_kept(front, lineage);
        assert(compatible(items[items.len() - 1], lineage));
        assert(front.push(items.last()) =~= items);
    }
}

/// The event for each adapted item is among the events.
proof fn lemma_routed_covers(
    env: AdapterEnv,
    conversation_id: Seq<char>,
    items: Seq<WiredItemModel>,
    n: nat,
    k: int,
) -> (j: int)
    requires
        0 <= k < n <= items.len() <= usize::MAX,
        routed_record(env, k as usize, items[k]) matches Ok(Some(_)),
    ensures
        0 <= j < routed_events(env, conversation_id, items, n).len(),
        routed_events(env, conversation_id, items, n)[j].0 == k,
    decreases n,
{
    if k == n - 1 {
        routed_events(env, conversation_id, items, n).len() - 1
    } else {
        lemma_routed_covers(env, conversation_id, items, (n - 1) as nat, k)
    }
}

/// Each event stands for the item whose index it carries.
proof fn lemma_routed_stands_for(
    env: AdapterEnv,
    conversation_id: Seq<char>,
    items: Seq<WiredItemModel>,
    n: nat,
    j: int,
)
    requires
        n <= items.len() <= usize::MAX,
        0 <= j < routed_events(env, conversation_id, items, n).len(),
    ensures
        ({
            let (index, event) = routed_events(env, conversation_id, items, n)[j];
            let record = routed_record(env, index, items[index as int]);
            &&& index < n
            &&& record matches Ok(Some(payload)) && event == routed_event(
                conversation_id,
                index,
                items[index as int].item,
                payload,
            )
        }),
    decreases n,
{
    let before = routed_events(env, conversation_id, items, (n - 1) as nat);
    if j < before.len() {
        lemma_routed_stands_for(env, conversation_id, items, (n - 1) as nat, j);
    }
}

/// Where nothing failed at import, every item was adapted or ignored.
proof fn lemma_clean_import(env: AdapterEnv, items: Seq<WiredItemModel>, n: nat, k: int)
    requires
        0 <= k < n <= items.len() <= usize::MAX,
        import_report(env, items, n).failures.len() == 0,
    ensures
        routed_record(env, k as usize, items[k]) is Ok,
    decreases n,
{
    if k < n - 1 {
        lemma_clean_import(env, items, (n - 1) as nat, k);
    }
}

/// All events of a prompt are shown to the model.
proof fn lemma_routed_all_shown(
    env: AdapterEnv,
    conversation_id: Seq<char>,
    items: Seq<WiredItemModel>,
)
    requires
        items.len() <= usize::MAX,
    ensures
        all_shown(
            events_of(routed_events(env, conversation_id, items, items.len())),
            env.lineage,
        ),
{
    let routed = routed_events(env, conversation_id, items, items.len());
    let events = events_of(routed);
    assert forall|j: int| 0 <= j < events.len() implies {
        &&& model_item(#[trigger] events[j]) is Some
        &&& compatible(model_item(events[j])->0, env.lineage)
        &&& usable_checkpoint(events[j], env.lineage) is None
        &&& events[j].sequence > 0
    } by {
        lemma_routed_stands_for(env, conversation_id, items, items.len(), j);
        let index = routed[j].0;
        lemma_record_is_shown(env, conversation_id, index, items[index as int]);
    }
}

/// Whether item `k` is a request control.
spec fn left_out(env: AdapterEnv, k: int, items: Seq<WiredItemModel>) -> bool {
    routed_record(env, k as usize, items[k]) matches Ok(None)
}

/// An item on the exact route.
enum RebuiltItem {
    Exact(ResponseItem),
    Failed(CodexInputParityFailure),
    Differs(CodexInputParityFailure),
}

impl<'a, R: AttachmentResolver, M: AttachmentMaterializer> CodexContextAdapter<'a, R, M> {
    fn rebuild_item(&self, index: usize, wired: &WiredItem, item: &ModelContextItem) -> (r:
        RebuiltItem)
        requires
            !holds_stray_item(
                self.lineage.deep_view(),
                (ReadItemModel { item: item.deep_view(), reading: wired.reading.deep_view() }),
            ),
        ensures
            rebuilt_verdict(self.env(), index, wired.deep_view(), item.deep_view()) == match r {
                RebuiltItem::Exact(_) => Verdict::Matched,
                RebuiltItem::Failed(failure) => Verdict::Failed(failure.deep_view()),
                RebuiltItem::Differs(failure) => Verdict::Differs(failure.deep_view()),
            },
            r matches RebuiltItem::Exact(rebuilt) ==> rebuilt.deep_view() == wired.item.deep_view(),
    {
        let source = &wired.item;
        match self.prepare_model_input_item(item, &wired.reading) {
            Err(error) => RebuiltItem::Failed(
                adapter_failure(index, CodexInputParityStage::Export, source, error),
            ),
            Ok(PreparedCodexInputItem::RawOpaque { .. }) => RebuiltItem::Failed(
                raw_transport_failure(index, source),
            ),
            Ok(PreparedCodexInputItem::Typed { item, .. }) => {
                let mut rebuilt = item;
                restore_local_only_fields(source, &mut rebuilt);
                rebuilt.set_id(
                    match source.id() {
                        Some(id) => Some(id.clone()),
                        None => None,
                    },
                );
                if let Some(turn_id) = source.turn_id() {
                    rebuilt.set_turn_id_if_missing(turn_id.as_str());
                }
                if source.same(&rebuilt) {
                    RebuiltItem::Exact(rebuilt)
                } else {
                    RebuiltItem::Differs(
                        mismatch_failure(
                            index,
                            source,
                            "reconstruction_mismatch",
                            " item was not exactly reconstructable",
                        ),
                    )
                }
            },
        }
    }

    /// Rebuilds a prompt through the neutral contract and returns it only when every
    /// reconstructed item is exactly equal to its source item. Request-control records are
    /// retained verbatim because they do not belong to durable model context.
    ///
    /// The source item supplies only its transient transport envelope, that is the provider's
    /// item id and the internal turn id, and its local-only reasoning text. The neutral payload
    /// owns the reconstructed content.
    pub fn rebuild_response_items_exact(&self, conversation_id: &str, items: &[WiredItem]) -> (r:
        Result<Vec<ResponseItem>, CodexInputParityReport>)
        ensures
            outcome(r) == rebuilt_prompt(self.env(), conversation_id@, items.deep_view()),
    {
        let ghost model = items.deep_view();
        let ghost env = self.env();
        let ghost conversation = conversation_id@;
        let mut rebuilt_items: Vec<Option<ResponseItem>> = Vec::new();
        let mut events: Vec<ContextEvent> = Vec::new();
        let mut indices: Vec<usize> = Vec::new();
        let mut report = CodexInputParityReport {
            source_items: items.len(),
            compared_items: 0,
            ignored_items: 0,
            failures: Vec::new(),
        };
        let mut i: usize = 0;
        proof {
            lemma_empty_content(report.failures);
            assert(events.deep_view() =~= events_of(routed_events(env, conversation, model, 0)));
        }
        while i < items.len()
            invariant
                i <= items@.len() <= usize::MAX,
                model == items.deep_view(),
                model.len() == items@.len(),
                env == self.env(),
                conversation == conversation_id@,
                report.source_items == model.len(),
                report.compared_items == 0,
                report.ignored_items + events@.len() + report.failures@.len() == i,
                report.deep_view() == import_report(env, model, i as nat),
                events.deep_view() == events_of(routed_events(env, conversation, model, i as nat)),
                events@.len() == indices@.len(),
                forall|j: int|
                    0 <= j < indices@.len() ==> (#[trigger] indices@[j]) == routed_events(
                        env,
                        conversation,
                        model,
                        i as nat,
                    )[j].0,
                rebuilt_items@.len() == i,
                forall|k: int|
                    0 <= k < i
                        && left_out(env, k, model) ==> (#[trigger] rebuilt_items@[k]) is Some,
                forall|k: int|
                    0 <= k < i ==> ((#[trigger] rebuilt_items@[k]) matches Some(x)
                        ==> x.deep_view() == model[k].item),
            decreases items.len() - i,
        {
            let wired = &items[i];
            let ghost failures = report.failures;
            let ghost old_events = events.deep_view();
            let ghost routed = routed_events(env, conversation, model, i as nat);
            assert(model[i as int] == wired.deep_view());
            let metadata = item_metadata("route:", i, conversation_id, &wired.item);
            match self.adapt_response_item(metadata, wired, &None) {
                Err(error) => {
                    let failure = adapter_failure(
                        i,
                        CodexInputParityStage::Import,
                        &wired.item,
                        error,
                    );
                    report.failures.push(failure);
                    rebuilt_items.push(None);
                    assert(report.failures.deep_view() =~= failures.deep_view().push(
                        failure.deep_view(),
                    ));
                },
                Ok(AdaptedRolloutItem::Ignored(_)) => {
                    report.ignored_items = report.ignored_items + 1;
                    rebuilt_items.push(Some(wired.item.duplicate()));
                },
                Ok(AdaptedRolloutItem::Event(event)) => {
                    indices.push(i);
                    events.push(*event);
                    rebuilt_items.push(None);
                    proof {
                        let now = routed_events(env, conversation, model, (i + 1) as nat);
                        assert(now == routed.push((i, event.deep_view())));
                        assert(events.deep_view() =~= old_events.push(event.deep_view()));
                        assert(events_of(now) =~= events_of(routed).push(event.deep_view()));
                    }
                },
            }
            i = i + 1;
        }
        if report.failures.len() > 0 {
            return Err(report);
        }
        let ghost routed = routed_events(env, conversation, model, model.len());
        let ghost imports = report.deep_view();
        let event_slice = events.as_slice();
        assert(event_slice.deep_view() =~= events_of(routed));
        let projection = match project_context(event_slice, &self.lineage) {
            Ok(projection) => projection,
            Err(error) => {
                let first: usize = if indices.len() > 0 {
                    indices[0]
                } else {
                    0
                };
                let ghost failures = report.failures;
                let failure = CodexInputParityFailure {
                    index: first,
                    stage: CodexInputParityStage::Export,
                    item_kind: "context",
                    reason_code: "projection_failed",
                    reason: glue(
                        "neutral context projection failed: ",
                        error.message().as_str(),
                    ),
                };
                report.failures.push(failure);
                assert(report.failures.deep_view() =~= failures.deep_view().push(
                    failure.deep_view(),
                ));
                return Err(report);
            },
        };
        // The projection keeps every event in order, so each model item belongs to the event at
        // the same position.
        proof {
            lemma_routed_all_shown(env, conversation, model);
            lemma_projection_keeps_all(events_of(routed), env.lineage);
        }
        let mut j: usize = 0;
        while j < indices.len()
            invariant
                j <= indices@.len(),
                model == items.deep_view(),
                model.len() == items@.len(),
                items@.len() <= usize::MAX,
                env == self.env(),
                routed == routed_events(env, conversation, model, model.len()),
                routed.len() == indices@.len(),
                imports == import_report(env, model, model.len()),
                imports.failures.len() == 0,
                imports.ignored_items + indices@.len() == model.len(),
                report.source_items == model.len(),
                report.ignored_items == imports.ignored_items,
                report.compared_items + report.ignored_items + (indices@.len() - j) <= model.len(),
                report.failures@.len() == 0 ==> report.compared_items == j,
                report.deep_view() == compare_report(env, model, routed, imports, j as nat),
                forall|q: int|
                    0 <= q < indices@.len() ==> (#[trigger] indices@[q]) == routed[q].0,
                projection.model_context.deep_view() == events_of(routed).map_values(
                    |e: ContextEventModel| model_item(e)->0,
                ),
                rebuilt_items@.len() == model.len(),
                forall|k: int|
                    0 <= k < model.len() && left_out(env, k, model) ==> (
                    #[trigger] rebuilt_items@[k]) is Some,
                forall|k: int|
                    0 <= k < model.len() ==> ((#[trigger] rebuilt_items@[k]) matches Some(x)
                        ==> x.deep_view() == model[k].item),
                report.failures@.len() == 0 ==> forall|q: int|
                    0 <= q < j ==> rebuilt_items@[(#[trigger] routed[q]).0 as int] is Some,
            decreases indices.len() - j,
        {
            let index: usize = indices[j];
            let ghost failures = report.failures;
            let ghost before_items = rebuilt_items@;
            proof {
                lemma_routed_stands_for(env, conversation, model, model.len(), j as int);
                lemma_record_is_shown(env, conversation, index, model[index as int]);
                assert(events_of(routed)[j as int] == routed[j as int].1);
                assert(projection.model_context.deep_view()[j as int] == model_item(
                    routed[j as int].1,
                )->0);
                assert(projection.model_context.deep_view().len()
                    == projection.model_context@.len());
                assert(model[index as int] == items@[index as int].deep_view());
                if model_item(routed[j as int].1)->0.payload is ProviderOpaque {
                    lemma_no_stray_item(env, model[index as int], event_id_of("route:"@, index));
                }
            }
            let item = &projection.model_context[j];
            assert(item.deep_view() == model_item(routed[j as int].1)->0);
            let wired = &items[index];
            match self.rebuild_item(index, wired, item) {
                RebuiltItem::Failed(failure) => {
                    report.failures.push(failure);
                    assert(report.failures.deep_view() =~= failures.deep_view().push(
                        failure.deep_view(),
                    ));
                },
                RebuiltItem::Differs(failure) => {
                    report.compared_items = report.compared_items + 1;
                    report.failures.push(failure);
                    assert(report.failures.deep_view() =~= failures.deep_view().push(
                        failure.deep_view(),
                    ));
                },
                RebuiltItem::Exact(rebuilt) => {
                    report.compared_items = report.compared_items + 1;
                    rebuilt_items.set(index, Some(rebuilt));
                    proof {
                        assert forall|q: int| 0 <= q < j + 1 && report.failures@.len() == 0 implies
                            rebuilt_items@[(#[trigger] routed[q]).0 as int] is Some by {
                            lemma_routed_stands_for(env, conversation, model, model.len(), q);
                        }
                    }
                },
            }
            j = j + 1;
        }
        if !report.is_equivalent() {
            return Err(report);
        }
        let mut out: Vec<ResponseItem> = Vec::new();
        let ghost expected = model.map_values(|wired: WiredItemModel| wired.item);
        proof {
            assert forall|k: int| 0 <= k < model.len() implies (
            #[trigger] rebuilt_items@[k]) is Some by {
                lemma_clean_import(env, model, model.len(), k);
                if routed_record(env, k as usize, model[k]) matches Ok(Some(_)) {
                    let q = lemma_routed_covers(env, conversation, model, model.len(), k);
                    assert(rebuilt_items@[routed[q].0 as int] is Some);
                }
            }
            lemma_empty_content(out);
            assert(expected.take(0) =~= Seq::empty());
        }
        let mut k: usize = 0;
        while k < rebuilt_items.len()
            invariant
                k <= rebuilt_items@.len(),
                rebuilt_items@.len() == model.len(),
                expected == model.map_values(|wired: WiredItemModel| wired.item),
                forall|q: int| 0 <= q < model.len() ==> (#[trigger] rebuilt_items@[q]) is Some,
                forall|q: int|
                    0 <= q < model.len() ==> ((#[trigger] rebuilt_items@[q]) matches Some(x)
                        ==> x.deep_view() == model[q].item),
                out.deep_view() == expected.take(k as int),
            decreases rebuilt_items.len() - k,
        {
            assert(rebuilt_items@[k as int] is Some);
            if let Some(item) = &rebuilt_items[k] {
                let ghost before = out.deep_view();
                out.push(item.duplicate());
                proof {
                    assert(out.deep_view() =~= before.push(item.deep_view()));
                    assert(expected.take(k + 1) =~= expected.take(k as int).push(
                        expected[k as int],
                    ));
                }
            }
            k = k + 1;
        }
        assert(expected.take(expected.len() as int) =~= expected);
        Ok(out)
    }
}

} // verus!
