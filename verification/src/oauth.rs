//! The defaults of an account: its model and its reasoning effort.
use vstd::prelude::*;

use crate::config_text::{ReasoningEffort, ReasoningEffortModel};
use crate::lists::outcome;
use crate::model::Modeled;
use crate::text::{glue, glue3, same_text};

verus! {

/// A model that an account may choose.
#[derive(Debug, PartialEq, Eq)]
pub struct ModelPreset {
    pub model: String,
    pub display_name: String,
    pub is_default: bool,
    pub show_in_picker: bool,
    pub supported_in_api: bool,
}

/// The mathematical content of a [`ModelPreset`].
pub struct ModelPresetModel {
    pub model: Seq<char>,
    pub display_name: Seq<char>,
    pub is_default: bool,
    pub show_in_picker: bool,
    pub supported_in_api: bool,
}

impl DeepView for ModelPreset {
    type V = ModelPresetModel;

    open spec fn deep_view(&self) -> ModelPresetModel {
        ModelPresetModel {
            model: self.model.deep_view(),
            display_name: self.display_name.deep_view(),
            is_default: self.is_default,
            show_in_picker: self.show_in_picker,
            supported_in_api: self.supported_in_api,
        }
    }
}

impl Modeled for ModelPreset {
    fn duplicate(&self) -> (r: Self) {
        ModelPreset {
            model: self.model.duplicate(),
            display_name: self.display_name.duplicate(),
            is_default: self.is_default,
            show_in_picker: self.show_in_picker,
            supported_in_api: self.supported_in_api,
        }
    }

    fn same(&self, other: &Self) -> (r: bool) {
        self.model.same(&other.model)
            && self.display_name.same(&other.display_name)
            && self.is_default == other.is_default
            && self.show_in_picker == other.show_in_picker
            && self.supported_in_api == other.supported_in_api
    }
}

impl Clone for ModelPreset {
    fn clone(&self) -> (r: Self)
        ensures
            r.deep_view() == self.deep_view(),
    {
        self.duplicate()
    }
}

/// A reasoning effort that a model supports.
#[derive(Debug, PartialEq, Eq)]
pub struct ReasoningEffortPreset {
    pub effort: ReasoningEffort,
    pub description: String,
}

/// The mathematical content of a [`ReasoningEffortPreset`].
pub struct ReasoningEffortPresetModel {
    pub effort: ReasoningEffortModel,
    pub description: Seq<char>,
}

impl DeepView for ReasoningEffortPreset {
    type V = ReasoningEffortPresetModel;

    open spec fn deep_view(&self) -> ReasoningEffortPresetModel {
        ReasoningEffortPresetModel {
            effort: self.effort.deep_view(),
            description: self.description.deep_view(),
        }
    }
}

impl Modeled for ReasoningEffortPreset {
    fn duplicate(&self) -> (r: Self) {
        ReasoningEffortPreset {
            effort: self.effort.duplicate(),
            description: self.description.duplicate(),
        }
    }

    fn same(&self, other: &Self) -> (r: bool) {
        self.effort.same(&other.effort)
            && self.description.same(&other.description)
    }
}

impl Clone for ReasoningEffortPreset {
    fn clone(&self) -> (r: Self)
        ensures
            r.deep_view() == self.deep_view(),
    {
        self.duplicate()
    }
}

/// The defaults of an account, or why there are none.
#[derive(Debug, PartialEq, Eq)]
pub enum OAuthDefaultsResolution {
    Available {
        account_id: String,
        fetched_at_unix_ms: u128,
        model_slug: String,
        display_name: String,
        default_reasoning_effort: String,
    },
    Unavailable { account_id: String, fetched_at_unix_ms: u128, reason: String },
}

/// The mathematical content of a [`OAuthDefaultsResolution`].
pub enum OAuthDefaultsResolutionModel {
    Available {
        account_id: Seq<char>,
        fetched_at_unix_ms: u128,
        model_slug: Seq<char>,
        display_name: Seq<char>,
        default_reasoning_effort: Seq<char>,
    },
    Unavailable { account_id: Seq<char>, fetched_at_unix_ms: u128, reason: Seq<char> },
}

impl DeepView for OAuthDefaultsResolution {
    type V = OAuthDefaultsResolutionModel;

    open spec fn deep_view(&self) -> OAuthDefaultsResolutionModel {
        match self {
            OAuthDefaultsResolution::Available {
                account_id,
                fetched_at_unix_ms,
                model_slug,
                display_name,
                default_reasoning_effort,
            } => OAuthDefaultsResolutionModel::Available {
                account_id: account_id.deep_view(),
                fetched_at_unix_ms: *fetched_at_unix_ms,
                model_slug: model_slug.deep_view(),
                display_name: display_name.deep_view(),
                default_reasoning_effort: default_reasoning_effort.deep_view(),
            },
            OAuthDefaultsResolution::Unavailable { account_id, fetched_at_unix_ms, reason } => {
                OAuthDefaultsResolutionModel::Unavailable {
                    account_id: account_id.deep_view(),
                    fetched_at_unix_ms: *fetched_at_unix_ms,
                    reason: reason.deep_view(),
                }
            },
        }
    }
}

impl Modeled for OAuthDefaultsResolution {
    fn duplicate(&self) -> (r: Self) {
        match self {
            OAuthDefaultsResolution::Available {
                account_id,
                fetched_at_unix_ms,
                model_slug,
                display_name,
                default_reasoning_effort,
            } => OAuthDefaultsResolution::Available {
                account_id: account_id.duplicate(),
                fetched_at_unix_ms: *fetched_at_unix_ms,
                model_slug: model_slug.duplicate(),
                display_name: display_name.duplicate(),
                default_reasoning_effort: default_reasoning_effort.duplicate(),
            },
            OAuthDefaultsResolution::Unavailable { account_id, fetched_at_unix_ms, reason } => {
                OAuthDefaultsResolution::Unavailable {
                    account_id: account_id.duplicate(),
                    fetched_at_unix_ms: *fetched_at_unix_ms,
                    reason: reason.duplicate(),
                }
            },
        }
    }

    fn same(&self, other: &Self) -> (r: bool) {
        match (self, other) {
            (
                OAuthDefaultsResolution::Available {
                    account_id,
                    fetched_at_unix_ms,
                    model_slug,
                    display_name,
                    default_reasoning_effort,
                },
                OAuthDefaultsResolution::Available {
                    account_id: account_id_other,
                    fetched_at_unix_ms: fetched_at_unix_ms_other,
                    model_slug: model_slug_other,
                    display_name: display_name_other,
                    default_reasoning_effort: default_reasoning_effort_other,
                },
            ) => {
                account_id.same(account_id_other)
                    && *fetched_at_unix_ms == *fetched_at_unix_ms_other
                    && model_slug.same(model_slug_other)
                    && display_name.same(display_name_other)
                    && default_reasoning_effort.same(default_reasoning_effort_other)
            },
            (
                OAuthDefaultsResolution::Unavailable { account_id, fetched_at_unix_ms, reason },
                OAuthDefaultsResolution::Unavailable {
                    account_id: account_id_other,
                    fetched_at_unix_ms: fetched_at_unix_ms_other,
                    reason: reason_other,
                },
            ) => {
                account_id.same(account_id_other)
                    && *fetched_at_unix_ms == *fetched_at_unix_ms_other
                    && reason.same(reason_other)
            },
            _ => false,
        }
    }
}

impl Clone for OAuthDefaultsResolution {
    fn clone(&self) -> (r: Self)
        ensures
            r.deep_view() == self.deep_view(),
    {
        self.duplicate()
    }
}


/// Whether an account may use a model: with a ChatGPT login any, with an API key those that the
/// API offers.
pub open spec fn available(preset: ModelPresetModel, chatgpt_mode: bool) -> bool {
    chatgpt_mode || preset.supported_in_api
}

/// Whether a model can be chosen.
pub open spec fn choosable(preset: ModelPresetModel, chatgpt_mode: bool) -> bool {
    available(preset, chatgpt_mode) && preset.show_in_picker
}

/// The first model, from `i` on, that can be chosen and, where asked for, is a default.
pub open spec fn first_choosable(
    picker: Seq<ModelPresetModel>,
    chatgpt_mode: bool,
    default_only: bool,
    i: int,
) -> Option<ModelPresetModel>
    decreases picker.len() - i,
{
    if i < 0 || i >= picker.len() {
        None
    } else if choosable(picker[i], chatgpt_mode) && (default_only ==> picker[i].is_default) {
        Some(picker[i])
    } else {
        first_choosable(picker, chatgpt_mode, default_only, i + 1)
    }
}

/// The model of an account: its first default, or else the first that can be chosen.
pub open spec fn default_preset(picker: Seq<ModelPresetModel>, chatgpt_mode: bool) -> Result<
    ModelPresetModel,
    Seq<char>,
> {
    match first_choosable(picker, chatgpt_mode, true, 0) {
        Some(preset) => Ok(preset),
        None => match first_choosable(picker, chatgpt_mode, false, 0) {
            Some(preset) => Ok(preset),
            None => Err("OAuth model picker produced no usable model"@),
        },
    }
}

fn find_preset(picker: &[ModelPreset], chatgpt_mode: bool, default_only: bool) -> (r: Option<
    ModelPreset,
>)
    ensures
        r.deep_view() == first_choosable(picker.deep_view(), chatgpt_mode, default_only, 0),
{
    let ghost model = picker.deep_view();
    let mut i: usize = 0;
    while i < picker.len()
        invariant
            i <= picker@.len(),
            model == picker.deep_view(),
            model.len() == picker@.len(),
            first_choosable(model, chatgpt_mode, default_only, 0) == first_choosable(
                model,
                chatgpt_mode,
                default_only,
                i as int,
            ),
        decreases picker.len() - i,
    {
        let preset = &picker[i];
        assert(model[i as int] == preset.deep_view());
        if (chatgpt_mode || preset.supported_in_api) && preset.show_in_picker && (!default_only
            || preset.is_default) {
            return Some(preset.duplicate());
        }
        i = i + 1;
    }
    None
}

/// The model of an account among the models of its picker. An explicit default wins; otherwise
/// the first model of the ranked picker does. Models that an API key cannot use are left out
/// unless the account is logged in with ChatGPT.
pub fn resolve_oauth_preset(picker: &[ModelPreset], chatgpt_mode: bool) -> (r: Result<
    ModelPreset,
    String,
>)
    ensures
        outcome(r) == default_preset(picker.deep_view(), chatgpt_mode),
{
    match find_preset(picker, chatgpt_mode, true) {
        Some(preset) => Ok(preset),
        None => match find_preset(picker, chatgpt_mode, false) {
            Some(preset) => Ok(preset),
            None => Err("OAuth model picker produced no usable model".to_string()),
        },
    }
}

/// Whether a model supports an effort.
pub open spec fn supports_effort(
    supported: Seq<ReasoningEffortPresetModel>,
    effort: ReasoningEffortModel,
) -> bool {
    exists|i: int| 0 <= i < supported.len() && (#[trigger] supported[i]).effort == effort
}

/// The effort of a model: medium where it is supported, else the declared default where that is
/// supported, else the one in the middle.
pub open spec fn default_effort(
    supported: Seq<ReasoningEffortPresetModel>,
    declared: Option<ReasoningEffortModel>,
) -> Result<ReasoningEffortModel, Seq<char>> {
    let medium = ReasoningEffortModel { name: "medium"@ };
    if supports_effort(supported, medium) {
        Ok(medium)
    } else if declared is Some && supports_effort(supported, declared->0) {
        Ok(declared->0)
    } else if supported.len() > 0 {
        Ok(supported[supported.len() as int / 2].effort)
    } else {
        Err("OAuth default model has no usable reasoning effort"@)
    }
}

fn has_effort(supported: &[ReasoningEffortPreset], name: &str) -> (r: bool)
    ensures
        r == supports_effort(supported.deep_view(), (ReasoningEffortModel { name: name@ })),
{
    let ghost model = supported.deep_view();
    let mut i: usize = 0;
    while i < supported.len()
        invariant
            i <= supported@.len(),
            model == supported.deep_view(),
            model.len() == supported@.len(),
            forall|k: int|
                0 <= k < i ==> (#[trigger] model[k]).effort != (ReasoningEffortModel {
                    name: name@,
                }),
        decreases supported.len() - i,
    {
        assert(model[i as int] == supported@[i as int].deep_view());
        if same_text(supported[i].effort.name.as_str(), name) {
            assert(supported.deep_view()[i as int].effort == (ReasoningEffortModel {
                name: name@,
            }));
            return true;
        }
        i = i + 1;
    }
    false
}

/// The effort of a model.
pub fn resolve_oauth_effort(
    supported: &[ReasoningEffortPreset],
    declared_default: Option<ReasoningEffort>,
) -> (r: Result<ReasoningEffort, String>)
    ensures
        outcome(r) == default_effort(supported.deep_view(), declared_default.deep_view()),
{
    if has_effort(supported, "medium") {
        return Ok(ReasoningEffort { name: "medium".to_string() });
    }
    if let Some(declared) = declared_default {
        if has_effort(supported, declared.name.as_str()) {
            return Ok(declared);
        }
    }
    if supported.len() > 0 {
        let middle: usize = supported.len() / 2;
        assert(supported.deep_view()[middle as int] == supported@[middle as int].deep_view());
        return Ok(supported[middle].effort.duplicate());
    }
    Err("OAuth default model has no usable reasoning effort".to_string())
}

/// The defaults of an account whose model is known.
pub open spec fn resolved_defaults(
    account_id: Seq<char>,
    fetched_at_unix_ms: u128,
    preset: ModelPresetModel,
    supported: Seq<ReasoningEffortPresetModel>,
    declared: Option<ReasoningEffortModel>,
) -> OAuthDefaultsResolutionModel {
    match default_effort(supported, declared) {
        Ok(effort) => OAuthDefaultsResolutionModel::Available {
            account_id,
            fetched_at_unix_ms,
            model_slug: preset.model,
            display_name: preset.display_name,
            default_reasoning_effort: effort.name,
        },
        Err(reason) => OAuthDefaultsResolutionModel::Unavailable {
            account_id,
            fetched_at_unix_ms,
            reason: "OAuth default model `"@ + preset.model + ("` "@ + reason),
        },
    }
}

/// The defaults of an account whose model is known. `supported` and `declared` are what the
/// catalog says of that model.
pub fn resolve_oauth_defaults(
    account_id: String,
    fetched_at_unix_ms: u128,
    preset: &ModelPreset,
    supported: &[ReasoningEffortPreset],
    declared: Option<ReasoningEffort>,
) -> (r: OAuthDefaultsResolution)
    ensures
        r.deep_view() == resolved_defaults(
            account_id@,
            fetched_at_unix_ms,
            preset.deep_view(),
            supported.deep_view(),
            declared.deep_view(),
        ),
{
    match resolve_oauth_effort(supported, declared) {
        Ok(effort) => OAuthDefaultsResolution::Available {
            account_id,
            fetched_at_unix_ms,
            model_slug: preset.model.clone(),
            display_name: preset.display_name.clone(),
            default_reasoning_effort: effort.name,
        },
        Err(reason) => OAuthDefaultsResolution::Unavailable {
            account_id,
            fetched_at_unix_ms,
            reason: glue3(
                "OAuth default model `",
                preset.model.as_str(),
                glue("` ", reason.as_str()).as_str(),
            ),
        },
    }
}

/// The model of an account can be chosen by it, and is a default where a default can be chosen.
pub proof fn law_default_preset_is_choosable(picker: Seq<ModelPresetModel>, chatgpt_mode: bool)
    ensures
        default_preset(picker, chatgpt_mode) is Ok <==> exists|i: int|
            0 <= i < picker.len() && choosable(#[trigger] picker[i], chatgpt_mode),
        default_preset(picker, chatgpt_mode) matches Ok(preset) ==> {
            &&& picker.contains(preset)
            &&& choosable(preset, chatgpt_mode)
            &&& (exists|i: int|
                0 <= i < picker.len() && choosable(#[trigger] picker[i], chatgpt_mode)
                    && picker[i].is_default) ==> preset.is_default
        },
{
    lemma_first_choosable(picker, chatgpt_mode, true, 0);
    lemma_first_choosable(picker, chatgpt_mode, false, 0);
}

proof fn lemma_first_choosable(
    picker: Seq<ModelPresetModel>,
    chatgpt_mode: bool,
    default_only: bool,
    i: int,
)
    requires
        0 <= i <= picker.len(),
    ensures
        first_choosable(picker, chatgpt_mode, default_only, i) matches Some(preset) ==> {
            &&& picker.contains(preset)
            &&& choosable(preset, chatgpt_mode)
            &&& default_only ==> preset.is_default
        },
        first_choosable(picker, chatgpt_mode, default_only, i) is None ==> forall|k: int|
            i <= k < picker.len() ==> !(choosable(#[trigger] picker[k], chatgpt_mode) && (
            default_only ==> picker[k].is_default)),
    decreases picker.len() - i,
{
    if i < picker.len() {
        lemma_first_choosable(picker, chatgpt_mode, default_only, i + 1);
    }
}

/// The effort of a model that supports any is one that it supports.
pub proof fn law_default_effort_is_supported(
    supported: Seq<ReasoningEffortPresetModel>,
    declared: Option<ReasoningEffortModel>,
)
    ensures
        default_effort(supported, declared) is Ok <==> supported.len() > 0,
        default_effort(supported, declared) matches Ok(effort) ==> supports_effort(
            supported,
            effort,
        ),
{
    if supported.len() > 0 {
        let middle = supported.len() as int / 2;
        assert(0 <= middle < supported.len());
        assert(supports_effort(supported, supported[middle].effort));
    }
}

} // verus!
