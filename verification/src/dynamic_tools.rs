//! Tools that the host executes, and the privacy of their arguments.
use vstd::prelude::*;

use crate::context::ImageDetail;
use crate::json::{member_of, text_member, Json, JsonModel};
use crate::lists::{lemma_empty_content, outcome};
use crate::model::Modeled;
use crate::text::{glue, glue3, is_blank, lower_ascii, lower_text, same_text, trim_text};

verus! {

/// Whether the arguments of a tool are kept.
#[derive(Clone, Copy, Debug, PartialEq, Eq, Structural)]
pub enum DynamicToolArgumentHandling {
    Persistent,
    Transient,
}

impl DeepView for DynamicToolArgumentHandling {
    type V = DynamicToolArgumentHandling;

    open spec fn deep_view(&self) -> DynamicToolArgumentHandling {
        *self
    }
}

impl Modeled for DynamicToolArgumentHandling {
    fn duplicate(&self) -> (r: Self) {
        *self
    }

    fn same(&self, other: &Self) -> (r: bool) {
        *self == *other
    }
}

/// A function that the host offers to the model. The rest of its description is carried as JSON.
#[derive(Debug, PartialEq, Eq)]
pub struct DynamicToolFunction {
    pub name: String,
    pub argument_handling: DynamicToolArgumentHandling,
    pub body: Json,
}

/// The mathematical content of a [`DynamicToolFunction`].
pub struct DynamicToolFunctionModel {
    pub name: Seq<char>,
    pub argument_handling: DynamicToolArgumentHandling,
    pub body: JsonModel,
}

impl DeepView for DynamicToolFunction {
    type V = DynamicToolFunctionModel;

    open spec fn deep_view(&self) -> DynamicToolFunctionModel {
        DynamicToolFunctionModel {
            name: self.name.deep_view(),
            argument_handling: self.argument_handling,
            body: self.body.deep_view(),
        }
    }
}

impl Modeled for DynamicToolFunction {
    fn duplicate(&self) -> (r: Self) {
        DynamicToolFunction {
            name: self.name.duplicate(),
            argument_handling: self.argument_handling,
            body: self.body.duplicate(),
        }
    }

    fn same(&self, other: &Self) -> (r: bool) {
        self.name.same(&other.name)
            && self.argument_handling == other.argument_handling
            && self.body.same(&other.body)
    }
}

impl Clone for DynamicToolFunction {
    fn clone(&self) -> (r: Self)
        ensures
            r.deep_view() == self.deep_view(),
    {
        self.duplicate()
    }
}

/// Functions that the host offers under one name.
#[derive(Debug, PartialEq, Eq)]
pub struct DynamicToolNamespace {
    pub name: String,
    pub tools: Vec<DynamicToolFunction>,
    pub body: Json,
}

/// The mathematical content of a [`DynamicToolNamespace`].
pub struct DynamicToolNamespaceModel {
    pub name: Seq<char>,
    pub tools: Seq<DynamicToolFunctionModel>,
    pub body: JsonModel,
}

impl DeepView for DynamicToolNamespace {
    type V = DynamicToolNamespaceModel;

    open spec fn deep_view(&self) -> DynamicToolNamespaceModel {
        DynamicToolNamespaceModel {
            name: self.name.deep_view(),
            tools: self.tools.deep_view(),
            body: self.body.deep_view(),
        }
    }
}

impl Modeled for DynamicToolNamespace {
    fn duplicate(&self) -> (r: Self) {
        DynamicToolNamespace {
            name: self.name.duplicate(),
            tools: self.tools.duplicate(),
            body: self.body.duplicate(),
        }
    }

    fn same(&self, other: &Self) -> (r: bool) {
        self.name.same(&other.name)
            && self.tools.same(&other.tools)
            && self.body.same(&other.body)
    }
}

impl Clone for DynamicToolNamespace {
    fn clone(&self) -> (r: Self)
        ensures
            r.deep_view() == self.deep_view(),
    {
        self.duplicate()
    }
}

/// The tools whose arguments a policy covers.
#[derive(Debug, PartialEq, Eq)]
pub struct DynamicToolArgumentIdentity {
    pub namespace: Option<String>,
    pub name: String,
    pub match_any_namespace: bool,
    pub match_case_insensitive: bool,
}

/// The mathematical content of a [`DynamicToolArgumentIdentity`].
pub struct DynamicToolArgumentIdentityModel {
    pub namespace: Option<Seq<char>>,
    pub name: Seq<char>,
    pub match_any_namespace: bool,
    pub match_case_insensitive: bool,
}

impl DeepView for DynamicToolArgumentIdentity {
    type V = DynamicToolArgumentIdentityModel;

    open spec fn deep_view(&self) -> DynamicToolArgumentIdentityModel {
        DynamicToolArgumentIdentityModel {
            namespace: self.namespace.deep_view(),
            name: self.name.deep_view(),
            match_any_namespace: self.match_any_namespace,
            match_case_insensitive: self.match_case_insensitive,
        }
    }
}

impl Modeled for DynamicToolArgumentIdentity {
    fn duplicate(&self) -> (r: Self) {
        DynamicToolArgumentIdentity {
            namespace: self.namespace.duplicate(),
            name: self.name.duplicate(),
            match_any_namespace: self.match_any_namespace,
            match_case_insensitive: self.match_case_insensitive,
        }
    }

    fn same(&self, other: &Self) -> (r: bool) {
        self.namespace.same(&other.namespace)
            && self.name.same(&other.name)
            && self.match_any_namespace == other.match_any_namespace
            && self.match_case_insensitive == other.match_case_insensitive
    }
}

impl Clone for DynamicToolArgumentIdentity {
    fn clone(&self) -> (r: Self)
        ensures
            r.deep_view() == self.deep_view(),
    {
        self.duplicate()
    }
}

/// A policy under which the arguments of some tools are not kept.
#[derive(Debug, PartialEq, Eq)]
pub struct DynamicToolArgumentPolicy {
    pub trusted: bool,
    pub tools: Vec<DynamicToolArgumentIdentity>,
}

/// The mathematical content of a [`DynamicToolArgumentPolicy`].
pub struct DynamicToolArgumentPolicyModel {
    pub trusted: bool,
    pub tools: Seq<DynamicToolArgumentIdentityModel>,
}

impl DeepView for DynamicToolArgumentPolicy {
    type V = DynamicToolArgumentPolicyModel;

    open spec fn deep_view(&self) -> DynamicToolArgumentPolicyModel {
        DynamicToolArgumentPolicyModel {
            trusted: self.trusted,
            tools: self.tools.deep_view(),
        }
    }
}

impl Modeled for DynamicToolArgumentPolicy {
    fn duplicate(&self) -> (r: Self) {
        DynamicToolArgumentPolicy {
            trusted: self.trusted,
            tools: self.tools.duplicate(),
        }
    }

    fn same(&self, other: &Self) -> (r: bool) {
        self.trusted == other.trusted
            && self.tools.same(&other.tools)
    }
}

impl Clone for DynamicToolArgumentPolicy {
    fn clone(&self) -> (r: Self)
        ensures
            r.deep_view() == self.deep_view(),
    {
        self.duplicate()
    }
}

/// What the host says of its tools.
#[derive(Debug, PartialEq, Eq)]
pub enum DynamicToolSpec {
    Function(DynamicToolFunction),
    Namespace(DynamicToolNamespace),
    ArgumentPolicy(DynamicToolArgumentPolicy),
}

/// The mathematical content of a [`DynamicToolSpec`].
pub enum DynamicToolSpecModel {
    Function(DynamicToolFunctionModel),
    Namespace(DynamicToolNamespaceModel),
    ArgumentPolicy(DynamicToolArgumentPolicyModel),
}

impl DeepView for DynamicToolSpec {
    type V = DynamicToolSpecModel;

    open spec fn deep_view(&self) -> DynamicToolSpecModel {
        match self {
            DynamicToolSpec::Function(x) => DynamicToolSpecModel::Function(x.deep_view()),
            DynamicToolSpec::Namespace(x) => DynamicToolSpecModel::Namespace(x.deep_view()),
            DynamicToolSpec::ArgumentPolicy(x) => DynamicToolSpecModel::ArgumentPolicy(
                x.deep_view(),
            ),
        }
    }
}

impl Modeled for DynamicToolSpec {
    fn duplicate(&self) -> (r: Self) {
        match self {
            DynamicToolSpec::Function(x) => DynamicToolSpec::Function(x.duplicate()),
            DynamicToolSpec::Namespace(x) => DynamicToolSpec::Namespace(x.duplicate()),
            DynamicToolSpec::ArgumentPolicy(x) => DynamicToolSpec::ArgumentPolicy(x.duplicate()),
        }
    }

    fn same(&self, other: &Self) -> (r: bool) {
        match (self, other) {
            (DynamicToolSpec::Function(x), DynamicToolSpec::Function(x_other)) => x.same(x_other),
            (DynamicToolSpec::Namespace(x), DynamicToolSpec::Namespace(x_other)) => x.same(x_other),
            (DynamicToolSpec::ArgumentPolicy(x), DynamicToolSpec::ArgumentPolicy(x_other)) => {
                x.same(x_other)
            },
            _ => false,
        }
    }
}

impl Clone for DynamicToolSpec {
    fn clone(&self) -> (r: Self)
        ensures
            r.deep_view() == self.deep_view(),
    {
        self.duplicate()
    }
}

/// One part of what a tool gives back to the model.
#[derive(Debug, PartialEq, Eq)]
pub enum DynamicToolCallOutputContentItem {
    InputText { text: String },
    InputImage { image_url: String, detail: Option<ImageDetail> },
}

/// The mathematical content of a [`DynamicToolCallOutputContentItem`].
pub enum DynamicToolCallOutputContentItemModel {
    InputText { text: Seq<char> },
    InputImage { image_url: Seq<char>, detail: Option<ImageDetail> },
}

impl DeepView for DynamicToolCallOutputContentItem {
    type V = DynamicToolCallOutputContentItemModel;

    open spec fn deep_view(&self) -> DynamicToolCallOutputContentItemModel {
        match self {
            DynamicToolCallOutputContentItem::InputText { text } => {
                DynamicToolCallOutputContentItemModel::InputText { text: text.deep_view() }
            },
            DynamicToolCallOutputContentItem::InputImage { image_url, detail } => {
                DynamicToolCallOutputContentItemModel::InputImage {
                    image_url: image_url.deep_view(),
                    detail: detail.deep_view(),
                }
            },
        }
    }
}

impl Modeled for DynamicToolCallOutputContentItem {
    fn duplicate(&self) -> (r: Self) {
        match self {
            DynamicToolCallOutputContentItem::InputText { text } => {
                DynamicToolCallOutputContentItem::InputText { text: text.duplicate() }
            },
            DynamicToolCallOutputContentItem::InputImage { image_url, detail } => {
                DynamicToolCallOutputContentItem::InputImage {
                    image_url: image_url.duplicate(),
                    detail: detail.duplicate(),
                }
            },
        }
    }

    fn same(&self, other: &Self) -> (r: bool) {
        match (self, other) {
            (
                DynamicToolCallOutputContentItem::InputText { text },
                DynamicToolCallOutputContentItem::InputText { text: text_other },
            ) => text.same(text_other),
            (
                DynamicToolCallOutputContentItem::InputImage { image_url, detail },
                DynamicToolCallOutputContentItem::InputImage {
                    image_url: image_url_other,
                    detail: detail_other,
                },
            ) => image_url.same(image_url_other) && detail.same(detail_other),
            _ => false,
        }
    }
}

impl Clone for DynamicToolCallOutputContentItem {
    fn clone(&self) -> (r: Self)
        ensures
            r.deep_view() == self.deep_view(),
    {
        self.duplicate()
    }
}

/// What a tool gives back to the model.
#[derive(Debug, PartialEq, Eq)]
pub struct DynamicToolResponse {
    pub content_items: Vec<DynamicToolCallOutputContentItem>,
    pub success: bool,
}

/// The mathematical content of a [`DynamicToolResponse`].
pub struct DynamicToolResponseModel {
    pub content_items: Seq<DynamicToolCallOutputContentItemModel>,
    pub success: bool,
}

impl DeepView for DynamicToolResponse {
    type V = DynamicToolResponseModel;

    open spec fn deep_view(&self) -> DynamicToolResponseModel {
        DynamicToolResponseModel {
            content_items: self.content_items.deep_view(),
            success: self.success,
        }
    }
}

impl Modeled for DynamicToolResponse {
    fn duplicate(&self) -> (r: Self) {
        DynamicToolResponse {
            content_items: self.content_items.duplicate(),
            success: self.success,
        }
    }

    fn same(&self, other: &Self) -> (r: bool) {
        self.content_items.same(&other.content_items)
            && self.success == other.success
    }
}

impl Clone for DynamicToolResponse {
    fn clone(&self) -> (r: Self)
        ensures
            r.deep_view() == self.deep_view(),
    {
        self.duplicate()
    }
}


// ---------------------------------------------------------------------------------------------
// Browser tools

/// What a browser tool does.
pub open spec fn browser_actions() -> Seq<Seq<char>> {
    seq!["create"@, "open"@, "list"@, "snapshot"@, "act"@, "screenshot"@, "close"@]
}

/// The name of a browser tool.
pub open spec fn browser_name(action: Seq<char>) -> Seq<char> {
    "agentapp_browser_"@ + action
}

/// Whether a name is that of a browser tool, in whatever case it is written.
pub open spec fn is_browser_name(name: Seq<char>) -> bool {
    exists|i: int|
        0 <= i < browser_actions().len() && lower_text(
            browser_name(#[trigger] browser_actions()[i]),
        ) == lower_text(name)
}

/// The tool under its own name. The name is reserved in every namespace: an answer must not
/// regain persistence merely by adding a namespace to it.
pub open spec fn canonical_identity(action: Seq<char>) -> DynamicToolArgumentIdentityModel {
    DynamicToolArgumentIdentityModel {
        namespace: None,
        name: browser_name(action),
        match_any_namespace: true,
        match_case_insensitive: true,
    }
}

/// The tool under its older dotted name.
pub open spec fn dotted_identity(action: Seq<char>) -> DynamicToolArgumentIdentityModel {
    DynamicToolArgumentIdentityModel {
        namespace: None,
        name: "browser."@ + action,
        match_any_namespace: true,
        match_case_insensitive: true,
    }
}

/// The tool in its older namespace.
pub open spec fn namespaced_identity(action: Seq<char>) -> DynamicToolArgumentIdentityModel {
    DynamicToolArgumentIdentityModel {
        namespace: Some("browser"@),
        name: action,
        match_any_namespace: false,
        match_case_insensitive: true,
    }
}

/// The policy under which no arguments of a browser tool are kept.
pub open spec fn browser_policy() -> DynamicToolArgumentPolicyModel {
    DynamicToolArgumentPolicyModel {
        trusted: true,
        tools: browser_actions().map_values(|a: Seq<char>| canonical_identity(a))
            + browser_actions().map_values(|a: Seq<char>| dotted_identity(a))
            + browser_actions().map_values(|a: Seq<char>| namespaced_identity(a)),
    }
}

/// The actions of the browser tools.
pub fn agentapp_browser_actions() -> (r: Vec<&'static str>)
    ensures
        r.deep_view() == browser_actions(),
{
    let r: Vec<&'static str> = vec![
        "create",
        "open",
        "list",
        "snapshot",
        "act",
        "screenshot",
        "close",
    ];
    assert(r.deep_view() =~= browser_actions());
    r
}

/// The names of the browser tools.
pub fn agentapp_browser_tool_names() -> (r: Vec<String>)
    ensures
        r.deep_view() == browser_actions().map_values(|a: Seq<char>| browser_name(a)),
{
    let actions = agentapp_browser_actions();
    let ghost model = browser_actions();
    let ghost name = |a: Seq<char>| browser_name(a);
    let mut out: Vec<String> = Vec::new();
    let mut i: usize = 0;
    assert(out.deep_view() =~= model.take(0).map_values(name));
    while i < actions.len()
        invariant
            i <= actions@.len(),
            model == actions.deep_view(),
            model.len() == actions@.len(),
            name == (|a: Seq<char>| browser_name(a)),
            out.deep_view() == model.take(i as int).map_values(name),
        decreases actions.len() - i,
    {
        let ghost before = out.deep_view();
        out.push(glue("agentapp_browser_", actions[i]));
        proof {
            assert(model[i as int] == actions@[i as int]@);
            assert(out.deep_view() =~= before.push(name(model[i as int])));
            assert(model.take(i + 1).map_values(name) =~= model.take(i as int).map_values(
                name,
            ).push(name(model[i as int])));
        }
        i = i + 1;
    }
    assert(model.take(model.len() as int) =~= model);
    out
}

fn names_browser_tool(name: &str) -> (r: bool)
    ensures
        r == is_browser_name(name@),
{
    let names = agentapp_browser_tool_names();
    let ghost model = names.deep_view();
    let lowered = lower_ascii(name);
    let mut i: usize = 0;
    while i < names.len()
        invariant
            i <= names@.len(),
            model == names.deep_view(),
            model.len() == names@.len(),
            model == browser_actions().map_values(|a: Seq<char>| browser_name(a)),
            lowered@ == lower_text(name@),
            forall|k: int|
                0 <= k < i ==> lower_text(browser_name(#[trigger] browser_actions()[k]))
                    != lower_text(name@),
        decreases names.len() - i,
    {
        assert(model[i as int] == names@[i as int]@);
        assert(model[i as int] == browser_name(browser_actions()[i as int]));
        if same_text(lower_ascii(names[i].as_str()).as_str(), lowered.as_str()) {
            return true;
        }
        i = i + 1;
    }
    false
}

/// The policy under which no arguments of a browser tool are kept.
pub fn trusted_agentapp_browser_argument_policy() -> (r: DynamicToolArgumentPolicy)
    ensures
        r.deep_view() == browser_policy(),
{
    let actions = agentapp_browser_actions();
    let ghost model = browser_actions();
    let ghost canonical = |a: Seq<char>| canonical_identity(a);
    let ghost dotted = |a: Seq<char>| dotted_identity(a);
    let ghost namespaced = |a: Seq<char>| namespaced_identity(a);
    let mut tools: Vec<DynamicToolArgumentIdentity> = Vec::new();
    let mut i: usize = 0;
    assert(tools.deep_view() =~= model.take(0).map_values(canonical));
    while i < actions.len()
        invariant
            i <= actions@.len(),
            model == actions.deep_view(),
            model.len() == actions@.len(),
            canonical == (|a: Seq<char>| canonical_identity(a)),
            tools.deep_view() == model.take(i as int).map_values(canonical),
        decreases actions.len() - i,
    {
        let ghost before = tools.deep_view();
        tools.push(
            DynamicToolArgumentIdentity {
                namespace: None,
                name: glue("agentapp_browser_", actions[i]),
                match_any_namespace: true,
                match_case_insensitive: true,
            },
        );
        proof {
            assert(model[i as int] == actions@[i as int]@);
            assert(tools.deep_view() =~= before.push(canonical(model[i as int])));
            assert(model.take(i + 1).map_values(canonical) =~= model.take(i as int).map_values(
                canonical,
            ).push(canonical(model[i as int])));
        }
        i = i + 1;
    }
    let ghost first = model.map_values(canonical);
    assert(model.take(model.len() as int) =~= model);
    i = 0;
    assert(tools.deep_view() =~= first + model.take(0).map_values(dotted));
    while i < actions.len()
        invariant
            i <= actions@.len(),
            model == actions.deep_view(),
            model.len() == actions@.len(),
            dotted == (|a: Seq<char>| dotted_identity(a)),
            tools.deep_view() == first + model.take(i as int).map_values(dotted),
        decreases actions.len() - i,
    {
        let ghost before = tools.deep_view();
        tools.push(
            DynamicToolArgumentIdentity {
                namespace: None,
                name: glue("browser.", actions[i]),
                match_any_namespace: true,
                match_case_insensitive: true,
            },
        );
        proof {
            assert(model[i as int] == actions@[i as int]@);
            assert(tools.deep_view() =~= before.push(dotted(model[i as int])));
            assert(model.take(i + 1).map_values(dotted) =~= model.take(i as int).map_values(
                dotted,
            ).push(dotted(model[i as int])));
            assert(tools.deep_view() =~= first + model.take(i + 1).map_values(dotted));
        }
        i = i + 1;
    }
    let ghost second = first + model.map_values(dotted);
    assert(model.take(model.len() as int) =~= model);
    i = 0;
    assert(tools.deep_view() =~= second + model.take(0).map_values(namespaced));
    while i < actions.len()
        invariant
            i <= actions@.len(),
            model == actions.deep_view(),
            model.len() == actions@.len(),
            namespaced == (|a: Seq<char>| namespaced_identity(a)),
            tools.deep_view() == second + model.take(i as int).map_values(namespaced),
        decreases actions.len() - i,
    {
        let ghost before = tools.deep_view();
        tools.push(
            DynamicToolArgumentIdentity {
                namespace: Some("browser".to_string()),
                name: actions[i].to_owned(),
                match_any_namespace: false,
                match_case_insensitive: true,
            },
        );
        proof {
            assert(model[i as int] == actions@[i as int]@);
            assert(tools.deep_view() =~= before.push(namespaced(model[i as int])));
            assert(model.take(i + 1).map_values(namespaced) =~= model.take(i as int).map_values(
                namespaced,
            ).push(namespaced(model[i as int])));
            assert(tools.deep_view() =~= second + model.take(i + 1).map_values(namespaced));
        }
        i = i + 1;
    }
    assert(model.take(model.len() as int) =~= model);
    DynamicToolArgumentPolicy { trusted: true, tools }
}

// ---------------------------------------------------------------------------------------------
// Admitting tools

/// A function of the root namespace: the arguments of a browser tool become transient.
pub open spec fn admitted_function(function: DynamicToolFunctionModel) -> Result<
    DynamicToolFunctionModel,
    Seq<char>,
> {
    if function.argument_handling == DynamicToolArgumentHandling::Transient {
        Err("dynamic_tools_json cannot set transient argument handling"@)
    } else if is_browser_name(function.name) {
        Ok(
            DynamicToolFunctionModel {
                argument_handling: DynamicToolArgumentHandling::Transient,
                ..function
            },
        )
    } else {
        Ok(function)
    }
}

/// What is wrong with a function inside a namespace.
pub open spec fn namespaced_function_problem(function: DynamicToolFunctionModel) -> Option<
    Seq<char>,
> {
    if function.argument_handling == DynamicToolArgumentHandling::Transient {
        Some("dynamic_tools_json cannot set transient argument handling"@)
    } else if is_browser_name(function.name) {
        Some(
            "AgentApp browser tool name "@ + function.name
                + " is reserved for the root namespace"@,
        )
    } else {
        None
    }
}

/// The first problem of the functions of a namespace, from `i` on.
pub open spec fn namespace_problem(tools: Seq<DynamicToolFunctionModel>, i: int) -> Option<
    Seq<char>,
>
    decreases tools.len() - i,
{
    if i < 0 || i >= tools.len() {
        None
    } else if namespaced_function_problem(tools[i]) is Some {
        namespaced_function_problem(tools[i])
    } else {
        namespace_problem(tools, i + 1)
    }
}

/// What the host says of a tool, as it is passed on. The host sets no privacy policies.
pub open spec fn admitted_spec(spec: DynamicToolSpecModel) -> Result<
    DynamicToolSpecModel,
    Seq<char>,
> {
    match spec {
        DynamicToolSpecModel::Function(function) => match admitted_function(function) {
            Ok(function) => Ok(DynamicToolSpecModel::Function(function)),
            Err(problem) => Err(problem),
        },
        DynamicToolSpecModel::Namespace(namespace) => match namespace_problem(namespace.tools, 0) {
            None => Ok(spec),
            Some(problem) => Err(problem),
        },
        DynamicToolSpecModel::ArgumentPolicy(_) => Err(
            "dynamic_tools_json cannot supply argument privacy policies"@,
        ),
    }
}

/// What the host says of its tools, as it is passed on.
pub open spec fn admitted_specs(specs: Seq<DynamicToolSpecModel>) -> Result<
    Seq<DynamicToolSpecModel>,
    Seq<char>,
> {
    crate::lists::collected(specs, |spec: DynamicToolSpecModel| admitted_spec(spec))
}

/// The tools of a turn: those of the host, and always the policy for the browser tools.
pub open spec fn turn_tools(specs: Seq<DynamicToolSpecModel>) -> Result<
    Seq<DynamicToolSpecModel>,
    Seq<char>,
> {
    match admitted_specs(specs) {
        Err(problem) => Err(problem),
        Ok(tools) => Ok(tools.push(DynamicToolSpecModel::ArgumentPolicy(browser_policy()))),
    }
}

fn admit_spec(spec: &DynamicToolSpec) -> (r: Result<DynamicToolSpec, String>)
    ensures
        outcome(r) == admitted_spec(spec.deep_view()),
{
    match spec {
        DynamicToolSpec::Function(function) => {
            if function.argument_handling == DynamicToolArgumentHandling::Transient {
                return Err(
                    "dynamic_tools_json cannot set transient argument handling".to_string(),
                );
            }
            let mut function = function.duplicate();
            if names_browser_tool(function.name.as_str()) {
                function.argument_handling = DynamicToolArgumentHandling::Transient;
            }
            Ok(DynamicToolSpec::Function(function))
        },
        DynamicToolSpec::Namespace(namespace) => {
            let ghost model = namespace.tools.deep_view();
            let mut i: usize = 0;
            while i < namespace.tools.len()
                invariant
                    i <= namespace.tools@.len(),
                    model == namespace.tools.deep_view(),
                    model.len() == namespace.tools@.len(),
                    spec.deep_view() == DynamicToolSpecModel::Namespace(namespace.deep_view()),
                    namespace_problem(model, 0) == namespace_problem(model, i as int),
                decreases namespace.tools.len() - i,
            {
                let function = &namespace.tools[i];
                assert(model[i as int] == function.deep_view());
                if function.argument_handling == DynamicToolArgumentHandling::Transient {
                    return Err(
                        "dynamic_tools_json cannot set transient argument handling".to_string(),
                    );
                }
                if names_browser_tool(function.name.as_str()) {
                    return Err(
                        glue3(
                            "AgentApp browser tool name ",
                            function.name.as_str(),
                            " is reserved for the root namespace",
                        ),
                    );
                }
                i = i + 1;
            }
            Ok(DynamicToolSpec::Namespace(namespace.duplicate()))
        },
        DynamicToolSpec::ArgumentPolicy(_) => Err(
            "dynamic_tools_json cannot supply argument privacy policies".to_string(),
        ),
    }
}

/// The tools of a turn: those of the host, and always the policy for the browser tools. The
/// bridge owns that policy. It is there even when no browser tool is offered, so that stale calls
/// and resumed histories stay protected.
pub fn agentapp_dynamic_tools(specs: &Vec<DynamicToolSpec>) -> (r: Result<
    Vec<DynamicToolSpec>,
    String,
>)
    ensures
        outcome(r) == turn_tools(specs.deep_view()),
{
    let ghost model = specs.deep_view();
    let ghost f = |spec: DynamicToolSpecModel| admitted_spec(spec);
    let mut out: Vec<DynamicToolSpec> = Vec::new();
    let mut i: usize = 0;
    proof {
        lemma_empty_content(out);
        assert(model.take(0) =~= Seq::empty());
    }
    while i < specs.len()
        invariant
            i <= specs@.len(),
            model == specs.deep_view(),
            model.len() == specs@.len(),
            f == (|spec: DynamicToolSpecModel| admitted_spec(spec)),
            crate::lists::collected(model.take(i as int), f) == Ok::<
                Seq<DynamicToolSpecModel>,
                Seq<char>,
            >(out.deep_view()),
        decreases specs.len() - i,
    {
        proof {
            assert(model[i as int] == specs@[i as int].deep_view());
            crate::lists::lemma_collected_step(model, f, i as int);
        }
        match admit_spec(&specs[i]) {
            Ok(spec) => {
                let ghost before = out.deep_view();
                out.push(spec);
                assert(out.deep_view() =~= before.push(spec.deep_view()));
            },
            Err(problem) => {
                proof {
                    crate::lists::lemma_collected_error(model, f, i + 1);
                }
                return Err(problem);
            },
        }
        i = i + 1;
    }
    assert(model.take(model.len() as int) =~= model);
    let ghost before = out.deep_view();
    let policy = DynamicToolSpec::ArgumentPolicy(trusted_agentapp_browser_argument_policy());
    out.push(policy);
    assert(out.deep_view() =~= before.push(policy.deep_view()));
    Ok(out)
}

/// What the decoder made of the text with the tools of the host.
pub enum DecodedTools {
    Specs(Vec<DynamicToolSpec>),
    Failed(String),
}

/// The tools of a turn, from the text with the tools of the host and what the decoder made of it.
/// A blank text offers none.
pub fn parse_agentapp_dynamic_tools_json(dynamic_tools_json: &str, decoded: &DecodedTools) -> (r:
    Result<Vec<DynamicToolSpec>, String>)
    ensures
        outcome(r) == if trim_text(dynamic_tools_json@).len() == 0 {
            turn_tools(Seq::empty())
        } else {
            match decoded {
                DecodedTools::Specs(specs) => turn_tools(specs.deep_view()),
                DecodedTools::Failed(error) => Err(
                    "failed to parse dynamic_tools_json: "@ + error@,
                ),
            }
        },
{
    if is_blank(dynamic_tools_json) {
        let none: Vec<DynamicToolSpec> = Vec::new();
        proof {
            lemma_empty_content(none);
        }
        return agentapp_dynamic_tools(&none);
    }
    match decoded {
        DecodedTools::Specs(specs) => agentapp_dynamic_tools(specs),
        DecodedTools::Failed(error) => Err(
            glue("failed to parse dynamic_tools_json: ", error.as_str()),
        ),
    }
}

// ---------------------------------------------------------------------------------------------
// Responses

/// The detail that a name stands for.
pub open spec fn detail_of(name: Option<Seq<char>>) -> Result<Option<ImageDetail>, ()> {
    match name {
        None => Ok(None),
        Some(name) => if name == "auto"@ {
            Ok(Some(ImageDetail::Auto))
        } else if name == "low"@ {
            Ok(Some(ImageDetail::Low))
        } else if name == "high"@ {
            Ok(Some(ImageDetail::High))
        } else if name == "original"@ {
            Ok(Some(ImageDetail::Original))
        } else {
            Err(())
        },
    }
}

/// A member under its name, or else under its other name.
pub open spec fn member_or(
    value: JsonModel,
    name: Seq<char>,
    other: Seq<char>,
) -> Option<JsonModel> {
    match member_of(value, name) {
        Some(found) => Some(found),
        None => member_of(value, other),
    }
}

/// One part of what a tool gave back.
pub open spec fn content_item_of(item: JsonModel) -> Result<
    DynamicToolCallOutputContentItemModel,
    (),
> {
    match text_member(item, "type"@) {
        None => Err(()),
        Some(kind) => if kind == "input_text"@ || kind == "inputText"@ {
            match text_member(item, "text"@) {
                None => Err(()),
                Some(text) => Ok(DynamicToolCallOutputContentItemModel::InputText { text }),
            }
        } else if kind == "input_image"@ || kind == "inputImage"@ {
            match member_or(item, "image_url"@, "imageUrl"@) {
                Some(JsonModel::Text(image_url)) => match detail_of(
                    text_member(item, "detail"@),
                ) {
                    Err(_) => Err(()),
                    Ok(detail) => Ok(
                        DynamicToolCallOutputContentItemModel::InputImage { image_url, detail },
                    ),
                },
                _ => Err(()),
            }
        } else {
            Err(())
        },
    }
}

/// The parts of what a tool gave back, where it gave parts.
pub open spec fn content_items_of(value: JsonModel) -> Result<
    Option<Seq<DynamicToolCallOutputContentItemModel>>,
    (),
> {
    match member_or(value, "content_items"@, "contentItems"@) {
        None => Ok(None),
        Some(JsonModel::Array(items)) => match crate::lists::collected(
            items,
            |item: JsonModel| content_item_of(item),
        ) {
            Ok(parts) => Ok(Some(parts)),
            Err(_) => Err(()),
        },
        Some(_) => Err(()),
    }
}

/// What a tool gave back. A tool that gave no parts gave a text.
pub open spec fn response_of(value: JsonModel) -> Result<DynamicToolResponseModel, ()> {
    let success = match member_of(value, "success"@) {
        Some(JsonModel::Bool(success)) => success,
        _ => true,
    };
    match content_items_of(value) {
        Err(_) => Err(()),
        Ok(Some(content_items)) => Ok(DynamicToolResponseModel { content_items, success }),
        Ok(None) => {
            let text = match text_member(value, "text"@) {
                Some(text) => text,
                None => Seq::empty(),
            };
            Ok(
                DynamicToolResponseModel {
                    content_items: seq![
                        DynamicToolCallOutputContentItemModel::InputText { text },
                    ],
                    success,
                },
            )
        },
    }
}

fn parse_detail(name: Option<&String>) -> (r: Result<Option<ImageDetail>, ()>)
    ensures
        r == detail_of(name.deep_view()),
{
    match name {
        None => Ok(None),
        Some(name) => {
            let name = name.as_str();
            if same_text(name, "auto") {
                Ok(Some(ImageDetail::Auto))
            } else if same_text(name, "low") {
                Ok(Some(ImageDetail::Low))
            } else if same_text(name, "high") {
                Ok(Some(ImageDetail::High))
            } else if same_text(name, "original") {
                Ok(Some(ImageDetail::Original))
            } else {
                Err(())
            }
        },
    }
}

fn get_or<'a>(value: &'a Json, name: &str, other: &str) -> (r: Option<&'a Json>)
    ensures
        r.deep_view() == member_or(value.deep_view(), name@, other@),
{
    match value.get(name) {
        Some(found) => Some(found),
        None => value.get(other),
    }
}

fn parse_content_item(item: &Json) -> (r: Result<DynamicToolCallOutputContentItem, ()>)
    ensures
        outcome(r) == content_item_of(item.deep_view()),
{
    let kind = match item.get_text("type") {
        Some(kind) => kind.as_str(),
        None => {
            return Err(());
        },
    };
    if same_text(kind, "input_text") || same_text(kind, "inputText") {
        match item.get_text("text") {
            Some(text) => Ok(DynamicToolCallOutputContentItem::InputText { text: text.clone() }),
            None => Err(()),
        }
    } else if same_text(kind, "input_image") || same_text(kind, "inputImage") {
        match get_or(item, "image_url", "imageUrl") {
            Some(Json::Text(image_url)) => match parse_detail(item.get_text("detail")) {
                Ok(detail) => Ok(
                    DynamicToolCallOutputContentItem::InputImage {
                        image_url: image_url.clone(),
                        detail,
                    },
                ),
                Err(_) => Err(()),
            },
            _ => Err(()),
        }
    } else {
        Err(())
    }
}

/// The parts of what a tool gave back, where it gave parts.
pub fn parse_dynamic_tool_content_items(value: &Json) -> (r: Result<
    Option<Vec<DynamicToolCallOutputContentItem>>,
    (),
>)
    ensures
        outcome(r) == content_items_of(value.deep_view()),
{
    let items = match get_or(value, "content_items", "contentItems") {
        None => {
            return Ok(None);
        },
        Some(Json::Array(items)) => items,
        Some(_) => {
            return Err(());
        },
    };
    let ghost model = items.deep_view();
    let ghost f = |item: JsonModel| content_item_of(item);
    let mut parts: Vec<DynamicToolCallOutputContentItem> = Vec::new();
    let mut i: usize = 0;
    proof {
        assert(Json::Array(*items).deep_view()->Array_0 =~= model);
        lemma_empty_content(parts);
        assert(model.take(0) =~= Seq::empty());
    }
    while i < items.len()
        invariant
            i <= items@.len(),
            model == items.deep_view(),
            model.len() == items@.len(),
            member_or(value.deep_view(), "content_items"@, "contentItems"@) == Some(
                JsonModel::Array(model),
            ),
            f == (|item: JsonModel| content_item_of(item)),
            crate::lists::collected(model.take(i as int), f) == Ok::<
                Seq<DynamicToolCallOutputContentItemModel>,
                (),
            >(parts.deep_view()),
        decreases items.len() - i,
    {
        proof {
            assert(model[i as int] == items@[i as int].deep_view());
            crate::lists::lemma_collected_step(model, f, i as int);
        }
        match parse_content_item(&items[i]) {
            Ok(part) => {
                let ghost before = parts.deep_view();
                parts.push(part);
                assert(parts.deep_view() =~= before.push(part.deep_view()));
            },
            Err(_) => {
                proof {
                    crate::lists::lemma_collected_error(model, f, i + 1);
                }
                return Err(());
            },
        }
        i = i + 1;
    }
    assert(model.take(model.len() as int) =~= model);
    Ok(Some(parts))
}

/// What a tool gave back. `text` defaults to nothing, and `success` to true.
pub fn parse_dynamic_tool_response(value: &Json) -> (r: Result<DynamicToolResponse, ()>)
    ensures
        outcome(r) == response_of(value.deep_view()),
{
    let success = match value.get("success") {
        Some(Json::Bool(success)) => *success,
        _ => true,
    };
    match parse_dynamic_tool_content_items(value) {
        Err(_) => Err(()),
        Ok(Some(content_items)) => Ok(DynamicToolResponse { content_items, success }),
        Ok(None) => {
            let text = match value.get_text("text") {
                Some(text) => text.clone(),
                None => String::new(),
            };
            let mut content_items: Vec<DynamicToolCallOutputContentItem> = Vec::new();
            let item = DynamicToolCallOutputContentItem::InputText { text };
            content_items.push(item);
            proof {
                assert(content_items.deep_view() =~= seq![item.deep_view()]);
                assert(text_member(value.deep_view(), "text"@) is None ==> text@ =~= Seq::empty());
            }
            Ok(DynamicToolResponse { content_items, success })
        },
    }
}

/// Whether what a tool gave back shows the model an image.
pub open spec fn shows_image(response: DynamicToolResponseModel) -> bool {
    exists|i: int|
        0 <= i < response.content_items.len() && #[trigger] response.content_items[i] is InputImage
}

impl DynamicToolResponse {
    /// Whether the response shows the model an image.
    pub fn contains_image(&self) -> (r: bool)
        ensures
            r == shows_image(self.deep_view()),
    {
        let ghost model = self.content_items.deep_view();
        let mut i: usize = 0;
        while i < self.content_items.len()
            invariant
                i <= self.content_items@.len(),
                model == self.content_items.deep_view(),
                model.len() == self.content_items@.len(),
                forall|k: int| 0 <= k < i ==> !(#[trigger] model[k] is InputImage),
            decreases self.content_items.len() - i,
        {
            assert(model[i as int] == self.content_items@[i as int].deep_view());
            if let DynamicToolCallOutputContentItem::InputImage { .. } = &self.content_items[i] {
                assert(self.deep_view().content_items[i as int] is InputImage);
                return true;
            }
            i = i + 1;
        }
        false
    }
}

// ---------------------------------------------------------------------------------------------
// Laws

/// The bridge owns the privacy of browser tools: among the tools of a turn every function with a
/// browser name is transient and every other one persistent, no namespace holds a browser name,
/// and the only policy is the trusted one at the end.
pub proof fn law_browser_arguments_are_never_kept(specs: Seq<DynamicToolSpecModel>)
    ensures
        turn_tools(specs) matches Ok(tools) ==> {
            &&& tools.len() == specs.len() + 1
            &&& tools.last() == DynamicToolSpecModel::ArgumentPolicy(browser_policy())
            &&& forall|i: int|
                0 <= i < specs.len() ==> match #[trigger] tools[i] {
                    DynamicToolSpecModel::Function(function) => (function.argument_handling
                        == DynamicToolArgumentHandling::Transient) == is_browser_name(
                        function.name,
                    ),
                    DynamicToolSpecModel::Namespace(namespace) => forall|k: int|
                        0 <= k < namespace.tools.len() ==> !is_browser_name(
                            (#[trigger] namespace.tools[k]).name,
                        ) && namespace.tools[k].argument_handling
                            == DynamicToolArgumentHandling::Persistent,
                    DynamicToolSpecModel::ArgumentPolicy(_) => false,
                }
        },
{
    let f = |spec: DynamicToolSpecModel| admitted_spec(spec);
    if let Ok(tools) = turn_tools(specs) {
        crate::lists::lemma_collected_ok(specs, f);
        let admitted = admitted_specs(specs)->Ok_0;
        assert forall|i: int| 0 <= i < specs.len() implies match #[trigger] tools[i] {
            DynamicToolSpecModel::Function(function) => (function.argument_handling
                == DynamicToolArgumentHandling::Transient) == is_browser_name(function.name),
            DynamicToolSpecModel::Namespace(namespace) => forall|k: int|
                0 <= k < namespace.tools.len() ==> !is_browser_name(
                    (#[trigger] namespace.tools[k]).name,
                ) && namespace.tools[k].argument_handling
                    == DynamicToolArgumentHandling::Persistent,
            DynamicToolSpecModel::ArgumentPolicy(_) => false,
        } by {
            assert(tools[i] == admitted[i]);
            assert(f(specs[i]) == Ok::<DynamicToolSpecModel, Seq<char>>(admitted[i]));
            if let DynamicToolSpecModel::Namespace(namespace) = specs[i] {
                lemma_namespace_clean(namespace.tools, 0);
            }
        }
    }
}

proof fn lemma_namespace_clean(tools: Seq<DynamicToolFunctionModel>, i: int)
    requires
        0 <= i <= tools.len(),
        namespace_problem(tools, i) is None,
    ensures
        forall|k: int|
            i <= k < tools.len() ==> namespaced_function_problem(#[trigger] tools[k]) is None,
    decreases tools.len() - i,
{
    if i < tools.len() {
        lemma_namespace_clean(tools, i + 1);
    }
}

/// With no tools of the host, the policy is all there is.
pub proof fn law_policy_is_there_without_tools()
    ensures
        turn_tools(Seq::empty()) == Ok::<Seq<DynamicToolSpecModel>, Seq<char>>(
            seq![DynamicToolSpecModel::ArgumentPolicy(browser_policy())],
        ),
        browser_policy().tools.len() == 3 * browser_actions().len(),
{
    assert(Seq::<DynamicToolSpecModel>::empty().push(
        DynamicToolSpecModel::ArgumentPolicy(browser_policy()),
    ) =~= seq![DynamicToolSpecModel::ArgumentPolicy(browser_policy())]);
}

} // verus!
