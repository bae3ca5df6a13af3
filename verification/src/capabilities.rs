//! What a provider's model can do, and which tools and inputs it is offered.
use vstd::prelude::*;

use crate::context::{
    AttachmentKind, ContentPart, ContentPartModel, ModelContextItem, ModelContextItemModel,
    ModelContextPayload, ModelContextPayloadModel, ProviderLineage, ProviderLineageModel,
};
use crate::lists::{lemma_empty_content, lemma_filter_step};
use crate::model::Modeled;
use crate::text::{glue, glue3};

verus! {

/// What a provider's model can do beyond plain text and local tools.
#[derive(Clone, Copy, Debug, PartialEq, Eq, Structural)]
pub enum ProviderCapability {
    ImageInput,
    NativeCompaction,
    OpaqueReasoning,
    HostedWebSearch,
}

impl DeepView for ProviderCapability {
    type V = ProviderCapability;

    open spec fn deep_view(&self) -> ProviderCapability {
        *self
    }
}

impl Modeled for ProviderCapability {
    fn duplicate(&self) -> (r: Self) {
        *self
    }

    fn same(&self, other: &Self) -> (r: bool) {
        *self == *other
    }
}

/// The model behind a lineage and what it can do.
#[derive(Debug, PartialEq, Eq)]
pub struct ProviderCapabilities {
    pub lineage: ProviderLineage,
    pub model: String,
    pub max_context_tokens: u64,
    pub supported: Vec<ProviderCapability>,
}

/// The mathematical content of a [`ProviderCapabilities`].
pub struct ProviderCapabilitiesModel {
    pub lineage: ProviderLineageModel,
    pub model: Seq<char>,
    pub max_context_tokens: u64,
    pub supported: Seq<ProviderCapability>,
}

impl DeepView for ProviderCapabilities {
    type V = ProviderCapabilitiesModel;

    open spec fn deep_view(&self) -> ProviderCapabilitiesModel {
        ProviderCapabilitiesModel {
            lineage: self.lineage.deep_view(),
            model: self.model.deep_view(),
            max_context_tokens: self.max_context_tokens,
            supported: self.supported.deep_view(),
        }
    }
}

impl Modeled for ProviderCapabilities {
    fn duplicate(&self) -> (r: Self) {
        ProviderCapabilities {
            lineage: self.lineage.duplicate(),
            model: self.model.duplicate(),
            max_context_tokens: self.max_context_tokens,
            supported: self.supported.duplicate(),
        }
    }

    fn same(&self, other: &Self) -> (r: bool) {
        self.lineage.same(&other.lineage)
            && self.model.same(&other.model)
            && self.max_context_tokens == other.max_context_tokens
            && self.supported.same(&other.supported)
    }
}

impl Clone for ProviderCapabilities {
    fn clone(&self) -> (r: Self)
        ensures
            r.deep_view() == self.deep_view(),
    {
        self.duplicate()
    }
}

/// Where a tool is executed.
#[derive(Debug, PartialEq, Eq)]
pub enum ToolExecutionKind {
    LocalDynamic,
    ProviderHosted { capability: ProviderCapability },
}

/// The mathematical content of a [`ToolExecutionKind`].
pub enum ToolExecutionKindModel {
    LocalDynamic,
    ProviderHosted { capability: ProviderCapability },
}

impl DeepView for ToolExecutionKind {
    type V = ToolExecutionKindModel;

    open spec fn deep_view(&self) -> ToolExecutionKindModel {
        match self {
            ToolExecutionKind::LocalDynamic => ToolExecutionKindModel::LocalDynamic,
            ToolExecutionKind::ProviderHosted { capability } => {
                ToolExecutionKindModel::ProviderHosted { capability: *capability }
            },
        }
    }
}

impl Modeled for ToolExecutionKind {
    fn duplicate(&self) -> (r: Self) {
        match self {
            ToolExecutionKind::LocalDynamic => ToolExecutionKind::LocalDynamic,
            ToolExecutionKind::ProviderHosted { capability } => ToolExecutionKind::ProviderHosted {
                capability: *capability,
            },
        }
    }

    fn same(&self, other: &Self) -> (r: bool) {
        match (self, other) {
            (ToolExecutionKind::LocalDynamic, ToolExecutionKind::LocalDynamic) => true,
            (
                ToolExecutionKind::ProviderHosted { capability },
                ToolExecutionKind::ProviderHosted { capability: capability_other },
            ) => *capability == *capability_other,
            _ => false,
        }
    }
}

impl Clone for ToolExecutionKind {
    fn clone(&self) -> (r: Self)
        ensures
            r.deep_view() == self.deep_view(),
    {
        self.duplicate()
    }
}

/// A tool that a request may offer to the model.
#[derive(Debug, PartialEq, Eq)]
pub struct ToolDefinition {
    pub name: String,
    pub execution: ToolExecutionKind,
}

/// The mathematical content of a [`ToolDefinition`].
pub struct ToolDefinitionModel {
    pub name: Seq<char>,
    pub execution: ToolExecutionKindModel,
}

impl DeepView for ToolDefinition {
    type V = ToolDefinitionModel;

    open spec fn deep_view(&self) -> ToolDefinitionModel {
        ToolDefinitionModel {
            name: self.name.deep_view(),
            execution: self.execution.deep_view(),
        }
    }
}

impl Modeled for ToolDefinition {
    fn duplicate(&self) -> (r: Self) {
        ToolDefinition {
            name: self.name.duplicate(),
            execution: self.execution.duplicate(),
        }
    }

    fn same(&self, other: &Self) -> (r: bool) {
        self.name.same(&other.name)
            && self.execution.same(&other.execution)
    }
}

impl Clone for ToolDefinition {
    fn clone(&self) -> (r: Self)
        ensures
            r.deep_view() == self.deep_view(),
    {
        self.duplicate()
    }
}

/// Why a request cannot be sent to a model.
#[derive(Debug, PartialEq, Eq)]
pub enum CapabilityError {
    Unsupported { model: String, capability: ProviderCapability },
}

/// The mathematical content of a [`CapabilityError`].
pub enum CapabilityErrorModel {
    Unsupported { model: Seq<char>, capability: ProviderCapability },
}

impl DeepView for CapabilityError {
    type V = CapabilityErrorModel;

    open spec fn deep_view(&self) -> CapabilityErrorModel {
        match self {
            CapabilityError::Unsupported { model, capability } => {
                CapabilityErrorModel::Unsupported {
                    model: model.deep_view(),
                    capability: *capability,
                }
            },
        }
    }
}

impl Modeled for CapabilityError {
    fn duplicate(&self) -> (r: Self) {
        match self {
            CapabilityError::Unsupported { model, capability } => CapabilityError::Unsupported {
                model: model.duplicate(),
                capability: *capability,
            },
        }
    }

    fn same(&self, other: &Self) -> (r: bool) {
        match (self, other) {
            (
                CapabilityError::Unsupported { model, capability },
                CapabilityError::Unsupported { model: model_other, capability: capability_other },
            ) => model.same(model_other) && *capability == *capability_other,
        }
    }
}

impl Clone for CapabilityError {
    fn clone(&self) -> (r: Self)
        ensures
            r.deep_view() == self.deep_view(),
    {
        self.duplicate()
    }
}


/// Whether a model has a capability.
pub open spec fn has_capability(
    capabilities: ProviderCapabilitiesModel,
    capability: ProviderCapability,
) -> bool {
    capabilities.supported.contains(capability)
}

/// Whether a tool can be offered: local tools always, hosted ones where the model can host them.
pub open spec fn tool_is_active(
    capabilities: ProviderCapabilitiesModel,
    tool: ToolDefinitionModel,
) -> bool {
    match tool.execution {
        ToolExecutionKindModel::LocalDynamic => true,
        ToolExecutionKindModel::ProviderHosted { capability } => has_capability(
            capabilities,
            capability,
        ),
    }
}

/// The tools that can be offered, in the order in which they were requested.
pub open spec fn active_tools(
    capabilities: ProviderCapabilitiesModel,
    requested: Seq<ToolDefinitionModel>,
) -> Seq<ToolDefinitionModel> {
    requested.filter(|tool: ToolDefinitionModel| tool_is_active(capabilities, tool))
}

/// Whether a part of a message is an image.
pub open spec fn is_image(part: ContentPartModel) -> bool {
    part matches ContentPartModel::Attachment { kind, .. } && kind == AttachmentKind::Image
}

/// Whether an item shows the model an image.
pub open spec fn shows_image(item: ModelContextItemModel) -> bool {
    item.payload matches ModelContextPayloadModel::Message(message) && exists|i: int|
        0 <= i < message.content.len() && is_image(#[trigger] message.content[i])
}

/// Whether any item shows the model an image.
pub open spec fn any_image(items: Seq<ModelContextItemModel>) -> bool {
    exists|i: int| 0 <= i < items.len() && shows_image(#[trigger] items[i])
}

/// The name of a capability.
pub open spec fn capability_name(capability: ProviderCapability) -> Seq<char> {
    match capability {
        ProviderCapability::ImageInput => "ImageInput"@,
        ProviderCapability::NativeCompaction => "NativeCompaction"@,
        ProviderCapability::OpaqueReasoning => "OpaqueReasoning"@,
        ProviderCapability::HostedWebSearch => "HostedWebSearch"@,
    }
}

impl ProviderCapabilities {
    /// Whether the model has a capability.
    pub fn supports(&self, capability: &ProviderCapability) -> (r: bool)
        ensures
            r == has_capability(self.deep_view(), *capability),
    {
        let ghost model = self.supported.deep_view();
        let mut i: usize = 0;
        while i < self.supported.len()
            invariant
                i <= self.supported@.len(),
                model == self.supported.deep_view(),
                model.len() == self.supported@.len(),
                forall|k: int| 0 <= k < i ==> #[trigger] model[k] != *capability,
            decreases self.supported.len() - i,
        {
            assert(model[i as int] == self.supported@[i as int]);
            if self.supported[i] == *capability {
                return true;
            }
            i = i + 1;
        }
        false
    }
}

impl CapabilityError {
    /// The text of the error.
    pub fn message(&self) -> (r: String)
        ensures
            ({
                let CapabilityErrorModel::Unsupported { model, capability } = self.deep_view();
                r@ == "model "@ + model + (" does not support "@ + capability_name(capability))
            }),
    {
        let CapabilityError::Unsupported { model, capability } = self;
        let name = match *capability {
            ProviderCapability::ImageInput => "ImageInput",
            ProviderCapability::NativeCompaction => "NativeCompaction",
            ProviderCapability::OpaqueReasoning => "OpaqueReasoning",
            ProviderCapability::HostedWebSearch => "HostedWebSearch",
        };
        glue3("model ", model.as_str(), glue(" does not support ", name).as_str())
    }
}

/// The tools that can be offered to a model, in the order in which they were requested.
pub fn finalize_tools(capabilities: &ProviderCapabilities, requested: &[ToolDefinition]) -> (r: Vec<
    ToolDefinition,
>)
    ensures
        r.deep_view() == active_tools(capabilities.deep_view(), requested.deep_view()),
{
    let ghost model = requested.deep_view();
    let ghost can = capabilities.deep_view();
    let ghost pred = |tool: ToolDefinitionModel| tool_is_active(can, tool);
    let mut out: Vec<ToolDefinition> = Vec::new();
    let mut i: usize = 0;
    proof {
        lemma_empty_content(out);
        reveal(Seq::filter);
        assert(model.take(0).filter(pred) =~= Seq::empty());
    }
    while i < requested.len()
        invariant
            i <= requested@.len(),
            model == requested.deep_view(),
            model.len() == requested@.len(),
            can == capabilities.deep_view(),
            pred == (|tool: ToolDefinitionModel| tool_is_active(can, tool)),
            out.deep_view() == model.take(i as int).filter(pred),
        decreases requested.len() - i,
    {
        let tool = &requested[i];
        proof {
            assert(model[i as int] == tool.deep_view());
            lemma_filter_step(model, pred, i as int);
        }
        let active = match &tool.execution {
            ToolExecutionKind::LocalDynamic => true,
            ToolExecutionKind::ProviderHosted { capability } => capabilities.supports(capability),
        };
        if active {
            let ghost before = out;
            out.push(tool.duplicate());
            assert(out.deep_view() =~= before.deep_view().push(tool.deep_view()));
        }
        i = i + 1;
    }
    assert(model.take(model.len() as int) =~= model);
    out
}

fn has_image(item: &ModelContextItem) -> (r: bool)
    ensures
        r == shows_image(item.deep_view()),
{
    match &item.payload {
        ModelContextPayload::Message(message) => {
            let ghost model = message.content.deep_view();
            let mut i: usize = 0;
            while i < message.content.len()
                invariant
                    i <= message.content@.len(),
                    model == message.content.deep_view(),
                    model.len() == message.content@.len(),
                    item.deep_view().payload == ModelContextPayloadModel::Message(
                        message.deep_view(),
                    ),
                    forall|k: int| 0 <= k < i ==> !is_image(#[trigger] model[k]),
                decreases message.content.len() - i,
            {
                assert(model[i as int] == message.content@[i as int].deep_view());
                if let ContentPart::Attachment { kind, .. } = &message.content[i] {
                    if *kind == AttachmentKind::Image {
                        assert(is_image(message.deep_view().content[i as int]));
                        return true;
                    }
                }
                i = i + 1;
            }
            false
        },
        _ => false,
    }
}

/// Refuses images for a model that takes none.
pub fn validate_model_input(capabilities: &ProviderCapabilities, items: &[ModelContextItem]) -> (r:
    Result<(), CapabilityError>)
    ensures
        r is Err <==> any_image(items.deep_view()) && !has_capability(
            capabilities.deep_view(),
            ProviderCapability::ImageInput,
        ),
        r matches Err(error) ==> error.deep_view() == (CapabilityErrorModel::Unsupported {
            model: capabilities.model@,
            capability: ProviderCapability::ImageInput,
        }),
{
    let ghost model = items.deep_view();
    let mut found = false;
    let mut i: usize = 0;
    while i < items.len()
        invariant
            i <= items@.len(),
            model == items.deep_view(),
            model.len() == items@.len(),
            found == exists|k: int| 0 <= k < i && shows_image(#[trigger] model[k]),
        decreases items.len() - i,
    {
        assert(model[i as int] == items@[i as int].deep_view());
        if has_image(&items[i]) {
            assert(shows_image(model[i as int]));
            found = true;
        }
        i = i + 1;
    }
    if found && !capabilities.supports(&ProviderCapability::ImageInput) {
        return Err(
            CapabilityError::Unsupported {
                model: capabilities.model.clone(),
                capability: ProviderCapability::ImageInput,
            },
        );
    }
    Ok(())
}

/// Local tools are always offered, whatever the model can do.
pub proof fn law_local_tools_stay(
    capabilities: ProviderCapabilitiesModel,
    requested: Seq<ToolDefinitionModel>,
    i: int,
)
    requires
        0 <= i < requested.len(),
        requested[i].execution is LocalDynamic,
    ensures
        active_tools(capabilities, requested).contains(requested[i]),
{
    broadcast use Seq::lemma_filter_contains;

    let pred = |tool: ToolDefinitionModel| tool_is_active(capabilities, tool);
    assert(pred(requested[i]));
}

/// Whatever is offered was requested and can be executed.
pub proof fn law_active_tools_are_executable(
    capabilities: ProviderCapabilitiesModel,
    requested: Seq<ToolDefinitionModel>,
)
    ensures
        forall|i: int|
            0 <= i < active_tools(capabilities, requested).len() ==> {
                &&& tool_is_active(
                    capabilities,
                    #[trigger] active_tools(capabilities, requested)[i],
                )
                &&& requested.contains(active_tools(capabilities, requested)[i])
            },
{
    let pred = |tool: ToolDefinitionModel| tool_is_active(capabilities, tool);
    assert forall|i: int| 0 <= i < requested.filter(pred).len() implies pred(
        #[trigger] requested.filter(pred)[i],
    ) && requested.contains(requested.filter(pred)[i]) by {
        requested.lemma_filter_pred(pred, i);
        requested.lemma_filter_contains_rev(pred, requested.filter(pred)[i]);
    }
}

/// Whether a list of tools is what is left of another after some were taken out.
pub open spec fn is_left_of(left: Seq<ToolDefinitionModel>, all: Seq<ToolDefinitionModel>) -> bool
    decreases all.len(),
{
    if left.len() == 0 {
        true
    } else if all.len() == 0 {
        false
    } else {
        ||| left.last() == all.last() && is_left_of(left.drop_last(), all.drop_last())
        ||| is_left_of(left, all.drop_last())
    }
}

/// Finalizing only removes tools: it adds none, changes none and keeps their order.
pub proof fn law_finalizing_only_removes(
    capabilities: ProviderCapabilitiesModel,
    requested: Seq<ToolDefinitionModel>,
)
    ensures
        is_left_of(active_tools(capabilities, requested), requested),
    decreases requested.len(),
{
    reveal(Seq::filter);
    if requested.len() > 0 {
        let front = requested.drop_last();
        law_finalizing_only_removes(capabilities, front);
        let kept = active_tools(capabilities, front);
        if tool_is_active(capabilities, requested.last()) {
            assert(kept.push(requested.last()).drop_last() =~= kept);
        }
    }
}

/// Offering the offered tools again changes nothing.
pub proof fn law_finalizing_twice_changes_nothing(
    capabilities: ProviderCapabilitiesModel,
    requested: Seq<ToolDefinitionModel>,
)
    ensures
        active_tools(capabilities, active_tools(capabilities, requested)) == active_tools(
            capabilities,
            requested,
        ),
    decreases requested.len(),
{
    reveal(Seq::filter);
    if requested.len() > 0 {
        let front = requested.drop_last();
        law_finalizing_twice_changes_nothing(capabilities, front);
        let kept = active_tools(capabilities, front);
        if tool_is_active(capabilities, requested.last()) {
            assert(kept.push(requested.last()).drop_last() =~= kept);
        }
    }
}

} // verus!
