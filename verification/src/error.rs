//! Errors of the provider adapter.
use vstd::prelude::*;

use crate::context::{AttachmentKind, ProviderLineage, ProviderLineageModel, ToolPhase};
use crate::model::Modeled;
use crate::text::{glue, glue3};

verus! {

/// Why a record cannot be taken over from, or prepared for, the provider.
#[derive(Debug, PartialEq, Eq)]
#[allow(inconsistent_fields)]
pub enum CodexAdapterError {
    UnsupportedRole { role: String },
    UnresolvedAttachment { kind: AttachmentKind },
    EmptyAttachmentField { field: &'static str },
    MissingCallId { kind: &'static str },
    RawPayloadMismatch,
    RawPayloadRequired { kind: &'static str },
    ProviderJson { operation: &'static str, message: String },
    InvalidCompactionSequence,
    MissingRouteRecipient { item_id: String },
    UnsupportedRoutedContent { item_id: String },
    UnsupportedAttachment { kind: AttachmentKind },
    MissingAttachmentMaterializer { kind: AttachmentKind },
    UnmaterializedAttachment { attachment_id: String },
    EmptyMaterializedAttachment,
    UnsupportedToolRecord { call_id: String, name: String, phase: ToolPhase },
    IncompatibleLineage { item_id: String, expected: ProviderLineage, actual: ProviderLineage },
    OpaqueKindMismatch { item_id: String, declared_kind: String, actual_kind: String },
    InvalidToolData { call_id: String, field: &'static str, message: String },
    RawTransportRequired { item_id: String },
}

/// The mathematical content of a [`CodexAdapterError`].
#[allow(inconsistent_fields)]
pub enum CodexAdapterErrorModel {
    UnsupportedRole { role: Seq<char> },
    UnresolvedAttachment { kind: AttachmentKind },
    EmptyAttachmentField { field: Seq<char> },
    MissingCallId { kind: Seq<char> },
    RawPayloadMismatch,
    RawPayloadRequired { kind: Seq<char> },
    ProviderJson { operation: Seq<char>, message: Seq<char> },
    InvalidCompactionSequence,
    MissingRouteRecipient { item_id: Seq<char> },
    UnsupportedRoutedContent { item_id: Seq<char> },
    UnsupportedAttachment { kind: AttachmentKind },
    MissingAttachmentMaterializer { kind: AttachmentKind },
    UnmaterializedAttachment { attachment_id: Seq<char> },
    EmptyMaterializedAttachment,
    UnsupportedToolRecord { call_id: Seq<char>, name: Seq<char>, phase: ToolPhase },
    IncompatibleLineage {
        item_id: Seq<char>,
        expected: ProviderLineageModel,
        actual: ProviderLineageModel,
    },
    OpaqueKindMismatch { item_id: Seq<char>, declared_kind: Seq<char>, actual_kind: Seq<char> },
    InvalidToolData { call_id: Seq<char>, field: Seq<char>, message: Seq<char> },
    RawTransportRequired { item_id: Seq<char> },
}

impl DeepView for CodexAdapterError {
    type V = CodexAdapterErrorModel;

    open spec fn deep_view(&self) -> CodexAdapterErrorModel {
        match self {
            CodexAdapterError::UnsupportedRole { role } => CodexAdapterErrorModel::UnsupportedRole {
                role: role.deep_view(),
            },
            CodexAdapterError::UnresolvedAttachment { kind } => {
                CodexAdapterErrorModel::UnresolvedAttachment { kind: *kind }
            },
            CodexAdapterError::EmptyAttachmentField { field } => {
                CodexAdapterErrorModel::EmptyAttachmentField { field: field.deep_view() }
            },
            CodexAdapterError::MissingCallId { kind } => CodexAdapterErrorModel::MissingCallId {
                kind: kind.deep_view(),
            },
            CodexAdapterError::RawPayloadMismatch => CodexAdapterErrorModel::RawPayloadMismatch,
            CodexAdapterError::RawPayloadRequired { kind } => {
                CodexAdapterErrorModel::RawPayloadRequired { kind: kind.deep_view() }
            },
            CodexAdapterError::ProviderJson { operation, message } => {
                CodexAdapterErrorModel::ProviderJson {
                    operation: operation.deep_view(),
                    message: message.deep_view(),
                }
            },
            CodexAdapterError::InvalidCompactionSequence => {
                CodexAdapterErrorModel::InvalidCompactionSequence
            },
            CodexAdapterError::MissingRouteRecipient { item_id } => {
                CodexAdapterErrorModel::MissingRouteRecipient { item_id: item_id.deep_view() }
            },
            CodexAdapterError::UnsupportedRoutedContent { item_id } => {
                CodexAdapterErrorModel::UnsupportedRoutedContent { item_id: item_id.deep_view() }
            },
            CodexAdapterError::UnsupportedAttachment { kind } => {
                CodexAdapterErrorModel::UnsupportedAttachment { kind: *kind }
            },
            CodexAdapterError::MissingAttachmentMaterializer { kind } => {
                CodexAdapterErrorModel::MissingAttachmentMaterializer { kind: *kind }
            },
            CodexAdapterError::UnmaterializedAttachment { attachment_id } => {
                CodexAdapterErrorModel::UnmaterializedAttachment {
                    attachment_id: attachment_id.deep_view(),
                }
            },
            CodexAdapterError::EmptyMaterializedAttachment => {
                CodexAdapterErrorModel::EmptyMaterializedAttachment
            },
            CodexAdapterError::UnsupportedToolRecord { call_id, name, phase } => {
                CodexAdapterErrorModel::UnsupportedToolRecord {
                    call_id: call_id.deep_view(),
                    name: name.deep_view(),
                    phase: *phase,
                }
            },
            CodexAdapterError::IncompatibleLineage { item_id, expected, actual } => {
                CodexAdapterErrorModel::IncompatibleLineage {
                    item_id: item_id.deep_view(),
                    expected: expected.deep_view(),
                    actual: actual.deep_view(),
                }
            },
            CodexAdapterError::OpaqueKindMismatch { item_id, declared_kind, actual_kind } => {
                CodexAdapterErrorModel::OpaqueKindMismatch {
                    item_id: item_id.deep_view(),
                    declared_kind: declared_kind.deep_view(),
                    actual_kind: actual_kind.deep_view(),
                }
            },
            CodexAdapterError::InvalidToolData { call_id, field, message } => {
                CodexAdapterErrorModel::InvalidToolData {
                    call_id: call_id.deep_view(),
                    field: field.deep_view(),
                    message: message.deep_view(),
                }
            },
            CodexAdapterError::RawTransportRequired { item_id } => {
                CodexAdapterErrorModel::RawTransportRequired { item_id: item_id.deep_view() }
            },
        }
    }
}

impl Modeled for CodexAdapterError {
    fn duplicate(&self) -> (r: Self) {
        match self {
            CodexAdapterError::UnsupportedRole { role } => CodexAdapterError::UnsupportedRole {
                role: role.duplicate(),
            },
            CodexAdapterError::UnresolvedAttachment { kind } => {
                CodexAdapterError::UnresolvedAttachment { kind: *kind }
            },
            CodexAdapterError::EmptyAttachmentField { field } => {
                CodexAdapterError::EmptyAttachmentField { field: field.duplicate() }
            },
            CodexAdapterError::MissingCallId { kind } => CodexAdapterError::MissingCallId {
                kind: kind.duplicate(),
            },
            CodexAdapterError::RawPayloadMismatch => CodexAdapterError::RawPayloadMismatch,
            CodexAdapterError::RawPayloadRequired { kind } => {
                CodexAdapterError::RawPayloadRequired { kind: kind.duplicate() }
            },
            CodexAdapterError::ProviderJson { operation, message } => {
                CodexAdapterError::ProviderJson {
                    operation: operation.duplicate(),
                    message: message.duplicate(),
                }
            },
            CodexAdapterError::InvalidCompactionSequence => {
                CodexAdapterError::InvalidCompactionSequence
            },
            CodexAdapterError::MissingRouteRecipient { item_id } => {
                CodexAdapterError::MissingRouteRecipient { item_id: item_id.duplicate() }
            },
            CodexAdapterError::UnsupportedRoutedContent { item_id } => {
                CodexAdapterError::UnsupportedRoutedContent { item_id: item_id.duplicate() }
            },
            CodexAdapterError::UnsupportedAttachment { kind } => {
                CodexAdapterError::UnsupportedAttachment { kind: *kind }
            },
            CodexAdapterError::MissingAttachmentMaterializer { kind } => {
                CodexAdapterError::MissingAttachmentMaterializer { kind: *kind }
            },
            CodexAdapterError::UnmaterializedAttachment { attachment_id } => {
                CodexAdapterError::UnmaterializedAttachment {
                    attachment_id: attachment_id.duplicate(),
                }
            },
            CodexAdapterError::EmptyMaterializedAttachment => {
                CodexAdapterError::EmptyMaterializedAttachment
            },
            CodexAdapterError::UnsupportedToolRecord { call_id, name, phase } => {
                CodexAdapterError::UnsupportedToolRecord {
                    call_id: call_id.duplicate(),
                    name: name.duplicate(),
                    phase: *phase,
                }
            },
            CodexAdapterError::IncompatibleLineage { item_id, expected, actual } => {
                CodexAdapterError::IncompatibleLineage {
                    item_id: item_id.duplicate(),
                    expected: expected.duplicate(),
                    actual: actual.duplicate(),
                }
            },
            CodexAdapterError::OpaqueKindMismatch { item_id, declared_kind, actual_kind } => {
                CodexAdapterError::OpaqueKindMismatch {
                    item_id: item_id.duplicate(),
                    declared_kind: declared_kind.duplicate(),
                    actual_kind: actual_kind.duplicate(),
                }
            },
            CodexAdapterError::InvalidToolData { call_id, field, message } => {
                CodexAdapterError::InvalidToolData {
                    call_id: call_id.duplicate(),
                    field: field.duplicate(),
                    message: message.duplicate(),
                }
            },
            CodexAdapterError::RawTransportRequired { item_id } => {
                CodexAdapterError::RawTransportRequired { item_id: item_id.duplicate() }
            },
        }
    }

    fn same(&self, other: &Self) -> (r: bool) {
        match (self, other) {
            (
                CodexAdapterError::UnsupportedRole { role },
                CodexAdapterError::UnsupportedRole { role: role_other },
            ) => role.same(role_other),
            (
                CodexAdapterError::UnresolvedAttachment { kind },
                CodexAdapterError::UnresolvedAttachment { kind: kind_other },
            ) => *kind == *kind_other,
            (
                CodexAdapterError::EmptyAttachmentField { field },
                CodexAdapterError::EmptyAttachmentField { field: field_other },
            ) => field.same(field_other),
            (
                CodexAdapterError::MissingCallId { kind },
                CodexAdapterError::MissingCallId { kind: kind_other },
            ) => kind.same(kind_other),
            (CodexAdapterError::RawPayloadMismatch, CodexAdapterError::RawPayloadMismatch) => true,
            (
                CodexAdapterError::RawPayloadRequired { kind },
                CodexAdapterError::RawPayloadRequired { kind: kind_other },
            ) => kind.same(kind_other),
            (
                CodexAdapterError::ProviderJson { operation, message },
                CodexAdapterError::ProviderJson {
                    operation: operation_other,
                    message: message_other,
                },
            ) => operation.same(operation_other) && message.same(message_other),
            (
                CodexAdapterError::InvalidCompactionSequence,
                CodexAdapterError::InvalidCompactionSequence,
            ) => true,
            (
                CodexAdapterError::MissingRouteRecipient { item_id },
                CodexAdapterError::MissingRouteRecipient { item_id: item_id_other },
            ) => item_id.same(item_id_other),
            (
                CodexAdapterError::UnsupportedRoutedContent { item_id },
                CodexAdapterError::UnsupportedRoutedContent { item_id: item_id_other },
            ) => item_id.same(item_id_other),
            (
                CodexAdapterError::UnsupportedAttachment { kind },
                CodexAdapterError::UnsupportedAttachment { kind: kind_other },
            ) => *kind == *kind_other,
            (
                CodexAdapterError::MissingAttachmentMaterializer { kind },
                CodexAdapterError::MissingAttachmentMaterializer { kind: kind_other },
            ) => *kind == *kind_other,
            (
                CodexAdapterError::UnmaterializedAttachment { attachment_id },
                CodexAdapterError::UnmaterializedAttachment { attachment_id: attachment_id_other },
            ) => attachment_id.same(attachment_id_other),
            (
                CodexAdapterError::EmptyMaterializedAttachment,
                CodexAdapterError::EmptyMaterializedAttachment,
            ) => true,
            (
                CodexAdapterError::UnsupportedToolRecord { call_id, name, phase },
                CodexAdapterError::UnsupportedToolRecord {
                    call_id: call_id_other,
                    name: name_other,
                    phase: phase_other,
                },
            ) => call_id.same(call_id_other) && name.same(name_other) && *phase == *phase_other,
            (
                CodexAdapterError::IncompatibleLineage { item_id, expected, actual },
                CodexAdapterError::IncompatibleLineage {
                    item_id: item_id_other,
                    expected: expected_other,
                    actual: actual_other,
                },
            ) => {
                item_id.same(item_id_other)
                    && expected.same(expected_other)
                    && actual.same(actual_other)
            },
            (
                CodexAdapterError::OpaqueKindMismatch { item_id, declared_kind, actual_kind },
                CodexAdapterError::OpaqueKindMismatch {
                    item_id: item_id_other,
                    declared_kind: declared_kind_other,
                    actual_kind: actual_kind_other,
                },
            ) => {
                item_id.same(item_id_other)
                    && declared_kind.same(declared_kind_other)
                    && actual_kind.same(actual_kind_other)
            },
            (
                CodexAdapterError::InvalidToolData { call_id, field, message },
                CodexAdapterError::InvalidToolData {
                    call_id: call_id_other,
                    field: field_other,
                    message: message_other,
                },
            ) => {
                call_id.same(call_id_other)
                    && field.same(field_other)
                    && message.same(message_other)
            },
            (
                CodexAdapterError::RawTransportRequired { item_id },
                CodexAdapterError::RawTransportRequired { item_id: item_id_other },
            ) => item_id.same(item_id_other),
            _ => false,
        }
    }
}

impl Clone for CodexAdapterError {
    fn clone(&self) -> (r: Self)
        ensures
            r.deep_view() == self.deep_view(),
    {
        self.duplicate()
    }
}


/// The name of an attachment kind.
pub open spec fn attachment_kind_name(kind: AttachmentKind) -> Seq<char> {
    match kind {
        AttachmentKind::Image => "Image"@,
        AttachmentKind::Audio => "Audio"@,
        AttachmentKind::File => "File"@,
    }
}

/// The name of a tool phase.
pub open spec fn tool_phase_name(phase: ToolPhase) -> Seq<char> {
    match phase {
        ToolPhase::Requested => "Requested"@,
        ToolPhase::Completed => "Completed"@,
        ToolPhase::Failed => "Failed"@,
    }
}

fn kind_name(kind: AttachmentKind) -> (r: &'static str)
    ensures
        r@ == attachment_kind_name(kind),
{
    match kind {
        AttachmentKind::Image => "Image",
        AttachmentKind::Audio => "Audio",
        AttachmentKind::File => "File",
    }
}

fn phase_name(phase: ToolPhase) -> (r: &'static str)
    ensures
        r@ == tool_phase_name(phase),
{
    match phase {
        ToolPhase::Requested => "Requested",
        ToolPhase::Completed => "Completed",
        ToolPhase::Failed => "Failed",
    }
}

/// The text of an error. It holds ids and classifications, never message or tool content.
pub open spec fn adapter_error_text(error: CodexAdapterErrorModel) -> Seq<char> {
    match error {
        CodexAdapterErrorModel::UnsupportedRole { role } => "unsupported message role "@ + role,
        CodexAdapterErrorModel::UnresolvedAttachment { kind } => "could not resolve "@
            + attachment_kind_name(kind) + " content to an application-owned attachment"@,
        CodexAdapterErrorModel::EmptyAttachmentField { field } => "resolved attachment "@ + field
            + " must not be empty"@,
        CodexAdapterErrorModel::MissingCallId { kind } => kind
            + " requires a call id or response item id"@,
        CodexAdapterErrorModel::RawPayloadMismatch =>
            "raw JSON does not decode to the supplied response item"@,
        CodexAdapterErrorModel::RawPayloadRequired { kind } =>
            "raw JSON is required to preserve "@ + kind + " without loss"@,
        CodexAdapterErrorModel::ProviderJson { operation, message } => "could not "@ + operation
            + (" provider JSON: "@ + message),
        CodexAdapterErrorModel::InvalidCompactionSequence =>
            "a compaction event must have a positive sequence"@,
        CodexAdapterErrorModel::MissingRouteRecipient { item_id } => "routed message "@ + item_id
            + " has no recipient"@,
        CodexAdapterErrorModel::UnsupportedRoutedContent { item_id } => "routed message "@ + item_id
            + " holds content that is not text"@,
        CodexAdapterErrorModel::UnsupportedAttachment { kind } => attachment_kind_name(kind)
            + " attachments cannot be sent as provider input"@,
        CodexAdapterErrorModel::MissingAttachmentMaterializer { kind } =>
            "no materializer is set for "@ + attachment_kind_name(kind) + " attachments"@,
        CodexAdapterErrorModel::UnmaterializedAttachment { attachment_id } =>
            "could not materialize attachment "@ + attachment_id,
        CodexAdapterErrorModel::EmptyMaterializedAttachment =>
            "materialized attachment source must not be empty"@,
        CodexAdapterErrorModel::UnsupportedToolRecord { call_id, name, phase } => "tool record "@
            + call_id + (" of "@ + name + (" cannot be sent in phase "@ + tool_phase_name(phase))),
        CodexAdapterErrorModel::IncompatibleLineage { item_id, expected, actual } =>
            "opaque item "@ + item_id + " belongs to another provider lineage"@,
        CodexAdapterErrorModel::OpaqueKindMismatch { item_id, declared_kind, actual_kind } =>
            "opaque item "@ + item_id + (" is declared as "@ + declared_kind + (" but decodes to "@
                + actual_kind)),
        CodexAdapterErrorModel::InvalidToolData { call_id, field, message } => "tool record "@
            + call_id + (" has an invalid field "@ + field + (": "@ + message)),
        CodexAdapterErrorModel::RawTransportRequired { item_id } => "item "@ + item_id
            + " requires the raw request transport"@,
    }
}

/// A stable classification of an error.
pub open spec fn adapter_error_code(error: CodexAdapterErrorModel) -> Seq<char> {
    match error {
        CodexAdapterErrorModel::UnsupportedRole { .. } => "unsupported_role"@,
        CodexAdapterErrorModel::UnresolvedAttachment { .. } => "unresolved_attachment"@,
        CodexAdapterErrorModel::EmptyAttachmentField { .. } => "empty_attachment_field"@,
        CodexAdapterErrorModel::MissingCallId { .. } => "missing_call_id"@,
        CodexAdapterErrorModel::RawPayloadMismatch => "raw_payload_mismatch"@,
        CodexAdapterErrorModel::RawPayloadRequired { .. } => "raw_payload_required"@,
        CodexAdapterErrorModel::ProviderJson { .. } => "provider_json"@,
        CodexAdapterErrorModel::InvalidCompactionSequence => "invalid_compaction_sequence"@,
        CodexAdapterErrorModel::MissingRouteRecipient { .. } => "missing_route_recipient"@,
        CodexAdapterErrorModel::UnsupportedRoutedContent { .. } => "unsupported_routed_content"@,
        CodexAdapterErrorModel::UnsupportedAttachment { .. } => "unsupported_attachment"@,
        CodexAdapterErrorModel::MissingAttachmentMaterializer { .. } =>
            "missing_attachment_materializer"@,
        CodexAdapterErrorModel::UnmaterializedAttachment { .. } => "unmaterialized_attachment"@,
        CodexAdapterErrorModel::EmptyMaterializedAttachment => "empty_materialized_attachment"@,
        CodexAdapterErrorModel::UnsupportedToolRecord { .. } => "unsupported_tool_record"@,
        CodexAdapterErrorModel::IncompatibleLineage { .. } => "incompatible_lineage"@,
        CodexAdapterErrorModel::OpaqueKindMismatch { .. } => "opaque_kind_mismatch"@,
        CodexAdapterErrorModel::InvalidToolData { .. } => "invalid_tool_data"@,
        CodexAdapterErrorModel::RawTransportRequired { .. } => "raw_transport_required"@,
    }
}

impl CodexAdapterError {
    /// The text of the error.
    pub fn message(&self) -> (r: String)
        ensures
            r@ == adapter_error_text(self.deep_view()),
    {
        match self {
            CodexAdapterError::UnsupportedRole { role } => glue("unsupported message role ", role),
            CodexAdapterError::UnresolvedAttachment { kind } => glue3(
                "could not resolve ",
                kind_name(*kind),
                " content to an application-owned attachment",
            ),
            CodexAdapterError::EmptyAttachmentField { field } => glue3(
                "resolved attachment ",
                field,
                " must not be empty",
            ),
            CodexAdapterError::MissingCallId { kind } => glue(
                kind,
                " requires a call id or response item id",
            ),
            CodexAdapterError::RawPayloadMismatch =>
                "raw JSON does not decode to the supplied response item".to_string(),
            CodexAdapterError::RawPayloadRequired { kind } => glue3(
                "raw JSON is required to preserve ",
                kind,
                " without loss",
            ),
            CodexAdapterError::ProviderJson { operation, message } => glue3(
                "could not ",
                operation,
                glue(" provider JSON: ", message).as_str(),
            ),
            CodexAdapterError::InvalidCompactionSequence =>
                "a compaction event must have a positive sequence".to_string(),
            CodexAdapterError::MissingRouteRecipient { item_id } => glue3(
                "routed message ",
                item_id,
                " has no recipient",
            ),
            CodexAdapterError::UnsupportedRoutedContent { item_id } => glue3(
                "routed message ",
                item_id,
                " holds content that is not text",
            ),
            CodexAdapterError::UnsupportedAttachment { kind } => glue(
                kind_name(*kind),
                " attachments cannot be sent as provider input",
            ),
            CodexAdapterError::MissingAttachmentMaterializer { kind } => glue3(
                "no materializer is set for ",
                kind_name(*kind),
                " attachments",
            ),
            CodexAdapterError::UnmaterializedAttachment { attachment_id } => glue(
                "could not materialize attachment ",
                attachment_id,
            ),
            CodexAdapterError::EmptyMaterializedAttachment =>
                "materialized attachment source must not be empty".to_string(),
            CodexAdapterError::UnsupportedToolRecord { call_id, name, phase } => glue3(
                "tool record ",
                call_id,
                glue3(
                    " of ",
                    name,
                    glue(" cannot be sent in phase ", phase_name(*phase)).as_str(),
                ).as_str(),
            ),
            CodexAdapterError::IncompatibleLineage { item_id, expected: _, actual: _ } => glue3(
                "opaque item ",
                item_id,
                " belongs to another provider lineage",
            ),
            CodexAdapterError::OpaqueKindMismatch { item_id, declared_kind, actual_kind } => glue3(
                "opaque item ",
                item_id,
                glue3(
                    " is declared as ",
                    declared_kind,
                    glue(" but decodes to ", actual_kind).as_str(),
                ).as_str(),
            ),
            CodexAdapterError::InvalidToolData { call_id, field, message } => glue3(
                "tool record ",
                call_id,
                glue3(" has an invalid field ", field, glue(": ", message).as_str()).as_str(),
            ),
            CodexAdapterError::RawTransportRequired { item_id } => glue3(
                "item ",
                item_id,
                " requires the raw request transport",
            ),
        }
    }

    /// A stable classification of the error, free of content.
    pub fn diagnostic_code(&self) -> (r: &'static str)
        ensures
            r@ == adapter_error_code(self.deep_view()),
    {
        match self {
            CodexAdapterError::UnsupportedRole { .. } => "unsupported_role",
            CodexAdapterError::UnresolvedAttachment { .. } => "unresolved_attachment",
            CodexAdapterError::EmptyAttachmentField { .. } => "empty_attachment_field",
            CodexAdapterError::MissingCallId { .. } => "missing_call_id",
            CodexAdapterError::RawPayloadMismatch => "raw_payload_mismatch",
            CodexAdapterError::RawPayloadRequired { .. } => "raw_payload_required",
            CodexAdapterError::ProviderJson { .. } => "provider_json",
            CodexAdapterError::InvalidCompactionSequence => "invalid_compaction_sequence",
            CodexAdapterError::MissingRouteRecipient { .. } => "missing_route_recipient",
            CodexAdapterError::UnsupportedRoutedContent { .. } => "unsupported_routed_content",
            CodexAdapterError::UnsupportedAttachment { .. } => "unsupported_attachment",
            CodexAdapterError::MissingAttachmentMaterializer { .. } =>
                "missing_attachment_materializer",
            CodexAdapterError::UnmaterializedAttachment { .. } => "unmaterialized_attachment",
            CodexAdapterError::EmptyMaterializedAttachment => "empty_materialized_attachment",
            CodexAdapterError::UnsupportedToolRecord { .. } => "unsupported_tool_record",
            CodexAdapterError::IncompatibleLineage { .. } => "incompatible_lineage",
            CodexAdapterError::OpaqueKindMismatch { .. } => "opaque_kind_mismatch",
            CodexAdapterError::InvalidToolData { .. } => "invalid_tool_data",
            CodexAdapterError::RawTransportRequired { .. } => "raw_transport_required",
        }
    }
}

} // verus!
