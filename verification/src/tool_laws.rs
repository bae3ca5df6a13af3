//! Laws of the host's tools, uploads and single prompts.
use vstd::prelude::*;

use crate::chat_stream::ResponseEventModel;
use crate::context::ImageDetail;
use crate::dynamic_tools::{
    admitted_spec, browser_actions, browser_policy, content_item_of, is_browser_name,
    namespace_problem, namespaced_function_problem, response_of, turn_tools,
    DynamicToolArgumentHandling, DynamicToolCallOutputContentItemModel, DynamicToolFunctionModel,
    DynamicToolNamespaceModel, DynamicToolSpecModel,
};
use crate::json::{member_of, JsonModel};
use crate::json_text::json_document;
use crate::lists::{collected, lemma_collected_ok};
use crate::paths::{rollout_path_check, trim_slashes, upload_path_check, workspace_path};
use crate::prompt::{
    answer_step, call_text, captured, chatgpt_backend, download_text, output_text_of,
    prompt_request, CallOutcomeModel, CommandCaptureModel, CommandReportModel, PromptStepModel,
};
use crate::protocol::{ContentItemModel, ResponseItemModel};
use crate::text::{decimal_text, lower_text, pieces, trim_text};
use crate::uploads::{
    file_name, first_irregular, images_of, manifest_text_uploads, manifest_uploads, prompt_images,
    supported_image, upload_entries, upload_entry, user_input, ServerFileUploadModel,
    UserInputModel,
};

verus! {

// ---------------------------------------------------------------------------------------------
// Tools of the host

/// The names that browser tools have, in any case.
pub open spec fn browser_tool(name: Seq<char>) -> bool {
    let lower = lower_text(name);
    ||| lower == lower_text("agentapp_browser_"@ + "create"@)
    ||| lower == lower_text("agentapp_browser_"@ + "open"@)
    ||| lower == lower_text("agentapp_browser_"@ + "list"@)
    ||| lower == lower_text("agentapp_browser_"@ + "snapshot"@)
    ||| lower == lower_text("agentapp_browser_"@ + "act"@)
    ||| lower == lower_text("agentapp_browser_"@ + "screenshot"@)
    ||| lower == lower_text("agentapp_browser_"@ + "close"@)
}

proof fn lemma_browser_tool(name: Seq<char>)
    ensures
        is_browser_name(name) <==> browser_tool(name),
{
    let actions = browser_actions();
    assert(actions[0] == "create"@);
    assert(actions[1] == "open"@);
    assert(actions[2] == "list"@);
    assert(actions[3] == "snapshot"@);
    assert(actions[4] == "act"@);
    assert(actions[5] == "screenshot"@);
    assert(actions[6] == "close"@);
}

/// A function of the host is taken as it is, but for a browser tool, whose arguments are never
/// kept. One that asks for that itself is refused, and so is a policy.
pub proof fn law_host_functions_are_taken(spec: DynamicToolSpecModel)
    requires
        !(spec is Namespace),
    ensures
        ({
            let taken = admitted_spec(spec);
            let function = spec->Function_0;
            let transient = function.argument_handling == DynamicToolArgumentHandling::Transient;
            &&& spec is ArgumentPolicy ==> taken == Err::<DynamicToolSpecModel, Seq<char>>(
                "dynamic_tools_json cannot supply argument privacy policies"@,
            )
            &&& spec is Function && transient ==> taken == Err::<DynamicToolSpecModel, Seq<char>>(
                "dynamic_tools_json cannot set transient argument handling"@,
            )
            &&& spec is Function && !transient && !browser_tool(function.name) ==> taken == Ok::<
                DynamicToolSpecModel,
                Seq<char>,
            >(spec)
            &&& spec is Function && !transient && browser_tool(function.name) ==> {
                &&& taken is Ok
                &&& taken->Ok_0 is Function
                &&& taken->Ok_0->Function_0.name == function.name
                &&& taken->Ok_0->Function_0.body == function.body
                &&& taken->Ok_0->Function_0.argument_handling
                    == DynamicToolArgumentHandling::Transient
            }
        }),
{
    if spec is Function {
        lemma_browser_tool(spec->Function_0.name);
    }
}

/// Why a function cannot stand in a namespace: it asks for what the bridge decides, or it has the
/// name of a browser tool.
pub open spec fn unfit_in_namespace(function: DynamicToolFunctionModel) -> bool {
    function.argument_handling == DynamicToolArgumentHandling::Transient || browser_tool(
        function.name,
    )
}

proof fn lemma_namespace_fits(tools: Seq<DynamicToolFunctionModel>, i: int)
    requires
        0 <= i <= tools.len(),
    ensures
        namespace_problem(tools, i) is None <==> forall|k: int|
            i <= k < tools.len() ==> !unfit_in_namespace(#[trigger] tools[k]),
    decreases tools.len() - i,
{
    if i < tools.len() {
        lemma_browser_tool(tools[i].name);
        lemma_namespace_fits(tools, i + 1);
        if unfit_in_namespace(tools[i]) {
            assert(namespace_problem(tools, i) is Some);
        } else {
            assert(namespace_problem(tools, i) == namespace_problem(tools, i + 1));
        }
    }
}

proof fn lemma_first_unfit(tools: Seq<DynamicToolFunctionModel>, i: int, k: int)
    requires
        0 <= i <= k < tools.len(),
        unfit_in_namespace(tools[k]),
        forall|j: int| i <= j < k ==> !unfit_in_namespace(#[trigger] tools[j]),
    ensures
        namespace_problem(tools, i) == namespaced_function_problem(tools[k]),
        namespace_problem(tools, i) is Some,
    decreases k - i,
{
    lemma_browser_tool(tools[i].name);
    if i < k {
        assert(!unfit_in_namespace(tools[i]));
        lemma_first_unfit(tools, i + 1, k);
    }
}

/// A namespace is taken as it is exactly if every function in it fits, and is refused otherwise
/// with the problem of the first that does not.
pub proof fn law_host_namespaces_are_taken(namespace: DynamicToolNamespaceModel, k: int)
    ensures
        ({
            let taken = admitted_spec(DynamicToolSpecModel::Namespace(namespace));
            let tools = namespace.tools;
            let fits = forall|j: int|
                0 <= j < tools.len() ==> !unfit_in_namespace(#[trigger] tools[j]);
            let first = 0 <= k < tools.len() && unfit_in_namespace(tools[k]) && forall|j: int|
                0 <= j < k ==> !unfit_in_namespace(#[trigger] tools[j]);
            let transient = tools[k].argument_handling == DynamicToolArgumentHandling::Transient;
            &&& fits ==> taken == Ok::<DynamicToolSpecModel, Seq<char>>(
                DynamicToolSpecModel::Namespace(namespace),
            )
            &&& first && transient ==> taken == Err::<DynamicToolSpecModel, Seq<char>>(
                "dynamic_tools_json cannot set transient argument handling"@,
            )
            &&& first && !transient ==> taken == Err::<DynamicToolSpecModel, Seq<char>>(
                "AgentApp browser tool name "@ + tools[k].name
                    + " is reserved for the root namespace"@,
            )
        }),
{
    let tools = namespace.tools;
    lemma_namespace_fits(tools, 0);
    if 0 <= k < tools.len() && unfit_in_namespace(tools[k]) && (forall|j: int|
        0 <= j < k ==> !unfit_in_namespace(#[trigger] tools[j])) {
        lemma_first_unfit(tools, 0, k);
        lemma_browser_tool(tools[k].name);
    }
}

/// The tools of a turn are the host's in their order, each as it was taken, and the policy.
pub proof fn law_host_tools_keep_their_order(specs: Seq<DynamicToolSpecModel>, k: int)
    ensures
        ({
            let tools = turn_tools(specs);
            let all = forall|i: int|
                0 <= i < specs.len() ==> admitted_spec(#[trigger] specs[i]) is Ok;
            &&& tools is Ok <==> all
            &&& tools is Ok ==> tools->Ok_0.len() == specs.len() + 1 && forall|i: int|
                0 <= i < specs.len() ==> admitted_spec(specs[i]) == Ok::<
                    DynamicToolSpecModel,
                    Seq<char>,
                >(#[trigger] tools->Ok_0[i])
            &&& 0 <= k < specs.len() && admitted_spec(specs[k]) is Err && (forall|i: int|
                0 <= i < k ==> admitted_spec(#[trigger] specs[i]) is Ok) ==> tools is Err
                && tools->Err_0 == admitted_spec(specs[k])->Err_0
        }),
{
    let f = |spec: DynamicToolSpecModel| admitted_spec(spec);
    crate::text_laws::law_lists_are_worked_through(specs, f, k);
    if 0 <= k < specs.len() && (forall|i: int|
        0 <= i < k ==> admitted_spec(#[trigger] specs[i]) is Ok) {
        assert forall|j: int| 0 <= j < k implies f(#[trigger] specs[j]) is Ok by {}
    }
    if forall|i: int| 0 <= i < specs.len() ==> admitted_spec(#[trigger] specs[i]) is Ok {
        assert forall|k: int| 0 <= k < specs.len() implies f(#[trigger] specs[k]) is Ok by {}
    }
    if turn_tools(specs) is Ok {
        lemma_collected_ok(specs, f);
        assert forall|i: int| 0 <= i < specs.len() implies admitted_spec(
            #[trigger] specs[i],
        ) is Ok by {
            assert(f(specs[i]) is Ok);
        }
        let tools = turn_tools(specs)->Ok_0;
        assert forall|i: int| 0 <= i < specs.len() implies admitted_spec(specs[i]) == Ok::<
            DynamicToolSpecModel,
            Seq<char>,
        >(#[trigger] tools[i]) by {
            assert(f(specs[i]) == Ok::<DynamicToolSpecModel, Seq<char>>(
                collected(specs, f)->Ok_0[i],
            ));
        }
    }
}

/// The policy is trusted and names every browser action three times: under the name of the tool
/// and with a dot, in any namespace, and in the namespace of the browser.
pub proof fn law_policy_names_every_action(i: int)
    requires
        0 <= i < 7,
    ensures
        ({
            let tools = browser_policy().tools;
            let action = seq![
                "create"@,
                "open"@,
                "list"@,
                "snapshot"@,
                "act"@,
                "screenshot"@,
                "close"@,
            ][i];
            &&& browser_policy().trusted
            &&& tools.len() == 21
            &&& tools[i].namespace is None
            &&& tools[i].name == "agentapp_browser_"@ + action
            &&& tools[i].match_any_namespace
            &&& tools[i].match_case_insensitive
            &&& tools[i + 7].namespace is None
            &&& tools[i + 7].name == "browser."@ + action
            &&& tools[i + 7].match_any_namespace
            &&& tools[i + 7].match_case_insensitive
            &&& tools[i + 14].namespace == Some("browser"@)
            &&& tools[i + 14].name == action
            &&& !tools[i + 14].match_any_namespace
            &&& tools[i + 14].match_case_insensitive
        }),
{
    assert(browser_actions().len() == 7);
}

// ---------------------------------------------------------------------------------------------
// Answers of the host

/// Whether a JSON value holds a text under a name.
pub open spec fn holds_text(value: JsonModel, key: Seq<char>, text: Seq<char>) -> bool {
    member_of(value, key) == Some(JsonModel::Text(text))
}

/// Text of an answer is read as that text, and an image as its address with its detail, in either
/// spelling. Nothing else is read.
pub proof fn law_answer_parts(item: JsonModel, text: Seq<char>)
    ensures
        (holds_text(item, "type"@, "input_text"@) || holds_text(item, "type"@, "inputText"@))
            && holds_text(item, "text"@, text) ==> content_item_of(item) == Ok::<
            DynamicToolCallOutputContentItemModel,
            (),
        >(DynamicToolCallOutputContentItemModel::InputText { text }),
        (holds_text(item, "type"@, "input_image"@) || holds_text(item, "type"@, "inputImage"@)) && (
        holds_text(item, "image_url"@, text) || (member_of(item, "image_url"@) is None
            && holds_text(item, "imageUrl"@, text))) ==> {
            let read = content_item_of(item);
            let image = |detail: Option<ImageDetail>|
                Ok::<DynamicToolCallOutputContentItemModel, ()>(
                    DynamicToolCallOutputContentItemModel::InputImage { image_url: text, detail },
                );
            &&& member_of(item, "detail"@) is None ==> read == image(None)
            &&& holds_text(item, "detail"@, "auto"@) ==> read == image(Some(ImageDetail::Auto))
            &&& holds_text(item, "detail"@, "low"@) ==> read == image(Some(ImageDetail::Low))
            &&& holds_text(item, "detail"@, "high"@) ==> read == image(Some(ImageDetail::High))
            &&& holds_text(item, "detail"@, "original"@) ==> read == image(
                Some(ImageDetail::Original),
            )
        },
        !holds_text(item, "type"@, "input_text"@) && !holds_text(item, "type"@, "inputText"@)
            && !holds_text(item, "type"@, "input_image"@) && !holds_text(
            item,
            "type"@,
            "inputImage"@,
        ) ==> content_item_of(item) is Err,
{
    reveal_strlit("input_text");
    reveal_strlit("inputText");
    reveal_strlit("input_image");
    reveal_strlit("inputImage");
    reveal_strlit("auto");
    reveal_strlit("low");
    reveal_strlit("high");
    reveal_strlit("original");
    assert("input_text"@.len() == 10 && "input_text"@[5] == '_');
    assert("inputText"@.len() == 9);
    assert("input_image"@.len() == 11);
    assert("inputImage"@.len() == 10 && "inputImage"@[5] == 'I');
    assert("auto"@.len() == 4 && "auto"@[0] == 'a');
    assert("low"@.len() == 3);
    assert("high"@.len() == 4 && "high"@[0] == 'h');
    assert("original"@.len() == 8);
}

/// An answer succeeded unless it says that it did not, and its content is the list that it gives,
/// part by part, or else its text.
pub proof fn law_answers_are_read(value: JsonModel, items: Seq<JsonModel>)
    ensures
        ({
            let read = response_of(value);
            let listed = member_of(value, "content_items"@) == Some(JsonModel::Array(items)) || (
            member_of(value, "content_items"@) is None && member_of(value, "contentItems"@) == Some(
                JsonModel::Array(items),
            ));
            let all = forall|i: int|
                0 <= i < items.len() ==> content_item_of(#[trigger] items[i]) is Ok;
            let unlisted = member_of(value, "content_items"@) is None && member_of(
                value,
                "contentItems"@,
            ) is None;
            &&& read is Ok ==> (read->Ok_0.success <==> member_of(value, "success"@) != Some(
                JsonModel::Bool(false),
            ))
            &&& listed ==> (read is Ok <==> all)
            &&& listed && read is Ok ==> read->Ok_0.content_items.len() == items.len() && forall|
                i: int,
            |
                0 <= i < items.len() ==> content_item_of(items[i]) == Ok::<
                    DynamicToolCallOutputContentItemModel,
                    (),
                >(#[trigger] read->Ok_0.content_items[i])
            &&& unlisted ==> read is Ok && read->Ok_0.content_items == seq![
                DynamicToolCallOutputContentItemModel::InputText {
                    text: if member_of(value, "text"@) is Some && member_of(
                        value,
                        "text"@,
                    )->0 is Text {
                        member_of(value, "text"@)->0->Text_0
                    } else {
                        Seq::empty()
                    },
                },
            ]
            &&& member_of(value, "content_items"@) is Some && !(member_of(
                value,
                "content_items"@,
            )->0 is Array) ==> read is Err
        }),
{
    let f = |item: JsonModel| content_item_of(item);
    crate::text_laws::law_lists_are_worked_through(items, f, 0);
    if forall|i: int| 0 <= i < items.len() ==> content_item_of(#[trigger] items[i]) is Ok {
        assert forall|k: int| 0 <= k < items.len() implies f(#[trigger] items[k]) is Ok by {}
    }
    if collected(items, f) is Ok {
        assert forall|i: int| 0 <= i < items.len() implies content_item_of(
            #[trigger] items[i],
        ) is Ok by {
            assert(f(items[i]) is Ok);
        }
        let parts = collected(items, f)->Ok_0;
        assert forall|i: int| 0 <= i < items.len() implies content_item_of(items[i]) == Ok::<
            DynamicToolCallOutputContentItemModel,
            (),
        >(#[trigger] parts[i]) by {
            assert(f(items[i]) == Ok::<DynamicToolCallOutputContentItemModel, ()>(parts[i]));
        }
    }
}

// ---------------------------------------------------------------------------------------------
// Uploads

/// The paths that uploads and rollouts may have: relative, and without a way up; for uploads also
/// without empty segments and without the current directory.
pub proof fn law_relative_paths(path: Seq<char>)
    ensures
        upload_path_check(path) is Ok <==> {
            &&& path.len() > 0
            &&& path[0] != '/'
            &&& forall|i: int|
                0 <= i < pieces(path, '/').len() ==> {
                    let segment = #[trigger] pieces(path, '/')[i];
                    segment.len() > 0 && segment != "."@ && segment != ".."@
                }
        },
        rollout_path_check(path) is Ok <==> {
            &&& path.len() > 0
            &&& path[0] != '/'
            &&& forall|i: int|
                0 <= i < pieces(path, '/').len() ==> #[trigger] pieces(path, '/')[i] != ".."@
        },
        path.len() == 0 ==> upload_path_check(path) == Err::<(), Seq<char>>("was empty"@),
        path.len() > 0 && path[0] == '/' ==> upload_path_check(path) == Err::<(), Seq<char>>(
            "must be relative"@,
        ),
        path.len() > 0 && path[0] != '/' && pieces(path, '/').contains(".."@) ==> upload_path_check(
            path,
        ) == Err::<(), Seq<char>>("must not contain '..' segments"@) && rollout_path_check(path)
            == Err::<(), Seq<char>>("rollout pointer contains an unsafe path component"@),
        path.len() > 0 && path[0] != '/' && !pieces(path, '/').contains(".."@) && (pieces(
            path,
            '/',
        ).contains("."@) || pieces(path, '/').contains(Seq::empty())) ==> upload_path_check(path)
            == Err::<(), Seq<char>>("must be a normalized relative path"@),
        path.len() == 0 || path[0] == '/' ==> rollout_path_check(path) == Err::<(), Seq<char>>(
            "rollout pointer must be a non-empty relative path"@,
        ),
{
    reveal_strlit("/");
    assert("/"@.len() == 1 && "/"@[0] == '/');
    assert(path.len() > 0 ==> ("/"@.is_prefix_of(path) <==> path[0] == '/')) by {
        if path.len() > 0 && path[0] == '/' {
            assert(path.take(1) =~= "/"@);
        }
        if "/"@.is_prefix_of(path) {
            assert(path.take(1)[0] == "/"@[0]);
        }
    }
    let segments = pieces(path, '/');
    assert forall|i: int| 0 <= i < segments.len() implies segments.contains(
        #[trigger] segments[i],
    ) by {}
    if segments.contains(Seq::<char>::empty()) {
        let k = choose|k: int| 0 <= k < segments.len() && segments[k] == Seq::<char>::empty();
        assert(segments[k].len() == 0);
    }
    assert forall|i: int| 0 <= i < segments.len() && (#[trigger] segments[i]).len()
        == 0 implies segments.contains(Seq::<char>::empty()) by {
        assert(segments[i] =~= Seq::<char>::empty());
    }
}

/// What an upload says is taken as it is: where it is and where it goes.
pub proof fn law_uploads_are_taken_in_order(entries: Seq<JsonModel>, last: JsonModel)
    ensures
        upload_entries(Seq::<JsonModel>::empty()) is Ok,
        upload_entries(Seq::<JsonModel>::empty())->Ok_0.len() == 0,
        ({
            let before = upload_entries(entries);
            let after = upload_entries(entries.push(last));
            let taken = after->Ok_0;
            let local = member_of(last, "local_path"@);
            let relative = member_of(last, "relative_path"@);
            let fits = local is Some && local->0 is Text && relative is Some && relative->0 is Text
                && trim_text(local->0->Text_0).len() > 0 && local->0->Text_0[0] == '/'
                && upload_path_check(relative->0->Text_0) is Ok && forall|i: int|
                0 <= i < before->Ok_0.len() ==> (#[trigger] before->Ok_0[i]).relative_path
                    != relative->0->Text_0;
            &&& before is Err ==> after == before
            &&& before is Ok ==> (after is Ok <==> fits)
            &&& before is Ok && after is Err ==> after->Err_0 == upload_entry(
                entries.len(),
                last,
                before->Ok_0,
            )->Err_0
            &&& before is Ok && after is Ok ==> taken.len() == before->Ok_0.len() + 1
                && taken.drop_last() == before->Ok_0 && taken.last() == (ServerFileUploadModel {
                local_path: local->0->Text_0,
                relative_path: relative->0->Text_0,
            })
        }),
{
    reveal_strlit("/");
    assert("/"@.len() == 1 && "/"@[0] == '/');
    assert(entries.push(last).drop_last() =~= entries);
    assert forall|s: Seq<char>| s.len() > 0 implies (#[trigger] "/"@.is_prefix_of(s) <==> s[0]
        == '/') by {
        if s[0] == '/' {
            assert(s.take(1) =~= "/"@);
        }
        if "/"@.is_prefix_of(s) {
            assert(s.take(1)[0] == "/"@[0]);
        }
    }
    let local = member_of(last, "local_path"@);
    if local is Some && local->0 is Text {
        crate::text_laws::law_trimming_cuts_blanks(local->0->Text_0);
    }
    if let Ok(earlier) = upload_entries(entries) {
        assert forall|x: ServerFileUploadModel| (#[trigger] earlier.push(x)).drop_last()
            == earlier by {
            assert(earlier.push(x).drop_last() =~= earlier);
        }
    }
}

/// What is wrong with an upload is told with its number and the field.
pub proof fn law_wrong_uploads_are_told(
    index: nat,
    entry: JsonModel,
    earlier: Seq<ServerFileUploadModel>,
    local: Seq<char>,
    relative: Seq<char>,
)
    ensures
        ({
            let read = upload_entry(index, entry, earlier);
            let at = "uploads_json["@ + decimal_text(index) + "]."@;
            let wrong = |problem: Seq<char>|
                read == Err::<ServerFileUploadModel, Seq<char>>(at + problem);
            let there = holds_text(entry, "local_path"@, local) && holds_text(
                entry,
                "relative_path"@,
                relative,
            );
            let rooted = local.len() > 0 && local[0] == '/';
            let checked = upload_path_check(relative);
            let taken = exists|i: int|
                0 <= i < earlier.len() && (#[trigger] earlier[i]).relative_path == relative;
            &&& !(member_of(entry, "local_path"@) is Some && member_of(
                entry,
                "local_path"@,
            )->0 is Text) ==> wrong("local_path"@ + " "@ + "must be a string"@)
            &&& holds_text(entry, "local_path"@, local) && !(member_of(
                entry,
                "relative_path"@,
            ) is Some && member_of(entry, "relative_path"@)->0 is Text) ==> wrong(
                "relative_path"@ + " "@ + "must be a string"@,
            )
            &&& there && trim_text(local).len() == 0 ==> wrong(
                "local_path"@ + " "@ + "was empty"@,
            )
            &&& there && trim_text(local).len() > 0 && !rooted ==> wrong(
                "local_path"@ + " "@ + "must be absolute"@,
            )
            &&& there && trim_text(local).len() > 0 && rooted && checked is Err ==> wrong(
                "relative_path"@ + " "@ + checked->Err_0,
            )
            &&& there && trim_text(local).len() > 0 && rooted && checked is Ok && taken ==> wrong(
                "relative_path"@ + " "@ + "was duplicated"@,
            )
        }),
{
    reveal_strlit("/");
    if local.len() > 0 && local[0] == '/' {
        assert(local.subrange(0, 1) =~= "/"@);
    }
    if "/"@.is_prefix_of(local) {
        assert(local.subrange(0, 1)[0] == "/"@[0]);
    }
    let at = "uploads_json["@ + decimal_text(index) + "]."@;
    assert forall|field: Seq<char>, problem: Seq<char>|
        #[trigger] crate::uploads::entry_problem(index, field, problem) == at + (field + " "@
            + problem) by {
        assert(crate::uploads::entry_problem(index, field, problem) =~= at + (field + " "@
            + problem));
    }
}

/// The first file that is not regular is the one that is told.
pub proof fn law_first_irregular_file(regular: Seq<bool>, i: int, k: int)
    requires
        0 <= i <= k <= regular.len(),
        forall|j: int| i <= j < k ==> #[trigger] regular[j],
    ensures
        k < regular.len() && !regular[k] ==> first_irregular(regular, i) == Some(k),
        k == regular.len() ==> first_irregular(regular, i) is None,
    decreases k - i,
{
    if i < k {
        assert(regular[i]);
        law_first_irregular_file(regular, i + 1, k);
    }
}

/// A manifest is a list of at most 32 uploads; a blank one is an empty list.
pub proof fn law_manifests(text: Seq<char>, manifest: JsonModel)
    ensures
        trim_text(text).len() == 0 ==> manifest_text_uploads(text) == Ok::<
            Seq<ServerFileUploadModel>,
            Seq<char>,
        >(Seq::empty()),
        trim_text(text).len() > 0 && json_document(trim_text(text)) is Err
            ==> manifest_text_uploads(text) == Err::<Seq<ServerFileUploadModel>, Seq<char>>(
            "uploads_json was not valid JSON: "@ + json_document(trim_text(text))->Err_0,
        ),
        trim_text(text).len() > 0 && json_document(trim_text(text)) is Ok ==> manifest_text_uploads(
            text,
        ) == manifest_uploads(json_document(trim_text(text))->Ok_0),
        !(manifest is Array) ==> manifest_uploads(manifest) == Err::<
            Seq<ServerFileUploadModel>,
            Seq<char>,
        >("uploads_json must be a JSON array"@),
        manifest is Array && manifest->Array_0.len() <= 32 ==> manifest_uploads(manifest)
            == upload_entries(manifest->Array_0),
        manifest is Array && manifest->Array_0.len() > 32 ==> manifest_uploads(manifest) == Err::<
            Seq<ServerFileUploadModel>,
            Seq<char>,
        >(
            "too many uploads: received "@ + decimal_text(manifest->Array_0.len())
                + ", maximum is 32"@,
        ),
{
}

/// Images are told by the extension of the file name, in any case.
pub proof fn law_images_have_extensions(path: Seq<char>, stem: Seq<char>, extension: Seq<char>)
    requires
        file_name(path) == Some(stem + "."@ + extension),
        stem.len() > 0,
        !extension.contains('.'),
    ensures
        supported_image(path) <==> {
            let lower = lower_text(extension);
            lower == "png"@ || lower == "jpg"@ || lower == "jpeg"@ || lower == "gif"@ || lower
                == "webp"@
        },
{
    reveal_strlit(".");
    let name = stem + "."@ + extension;
    let i = stem.len() as int;
    assert(name[i] == '.');
    assert forall|j: int| i < j < name.len() implies name[j] != '.' by {
        assert(name[j] == extension[j - i - 1]);
        assert(extension.contains(extension[j - i - 1]));
    }
    assert(crate::uploads::last_dot(name, i));
    assert(name.skip(i + 1) =~= extension);
    assert forall|k: int| crate::uploads::last_dot(name, k) implies k == i by {
        if k < i {
            assert(name[i] != '.');
        }
        if k > i {
            assert(name[k] != '.');
        }
    }
    assert forall|wanted: Seq<char>| lower_text(extension) == wanted implies
        #[trigger] crate::uploads::has_extension(name, wanted) by {}
}

/// A file without an extension is no image.
pub proof fn law_other_files_are_no_images(path: Seq<char>)
    ensures
        file_name(path) is None ==> !supported_image(path),
        file_name(path) is Some && !file_name(path)->0.contains('.') ==> !supported_image(path),
{
    if file_name(path) is Some {
        let name = file_name(path)->0;
        assert forall|i: int| crate::uploads::last_dot(name, i) implies name.contains('.') by {
            assert(name[i] == '.');
        }
    }
}

/// The images among some uploads are in their order, and at most 10 are shown.
pub proof fn law_images_keep_their_order(
    uploads: Seq<ServerFileUploadModel>,
    last: ServerFileUploadModel,
)
    ensures
        images_of(Seq::empty()).len() == 0,
        supported_image(last.relative_path) ==> images_of(uploads.push(last)) == images_of(
            uploads,
        ).push(last),
        !supported_image(last.relative_path) ==> images_of(uploads.push(last)) == images_of(
            uploads,
        ),
        images_of(uploads).len() <= 10 ==> prompt_images(uploads) == Ok::<
            Seq<ServerFileUploadModel>,
            Seq<char>,
        >(images_of(uploads)),
        images_of(uploads).len() > 10 ==> prompt_images(uploads) == Err::<
            Seq<ServerFileUploadModel>,
            Seq<char>,
        >(
            "too many prompt images: received "@ + decimal_text(images_of(uploads).len())
                + ", maximum is 10"@,
        ),
{
    reveal(Seq::filter);
    assert(images_of(Seq::empty()) =~= Seq::empty());
    assert(uploads.push(last).drop_last() =~= uploads);
}

/// The input of a turn is its text and then its images, each from its local file.
pub proof fn law_input_is_text_and_images(text: Seq<char>, images: Seq<ServerFileUploadModel>)
    ensures
        user_input(text, images).len() == images.len() + 1,
        user_input(text, images)[0] == (UserInputModel::Text { text }),
        forall|i: int|
            0 <= i < images.len() ==> #[trigger] images[i].local_path == user_input(
                text,
                images,
            )[i + 1]->LocalImage_path && user_input(text, images)[i + 1]
                == (UserInputModel::LocalImage {
                path: images[i].local_path,
                detail: Some(ImageDetail::Auto),
            }),
{
}

/// An upload goes into the workspace under its own path, whatever slashes end the workspace.
pub proof fn law_uploads_go_into_the_workspace(workspace: Seq<char>, relative_path: Seq<char>)
    ensures
        workspace.len() == 0 ==> workspace_path(workspace, relative_path) == relative_path,
        workspace.len() > 0 && workspace.last() != '/' ==> workspace_path(workspace, relative_path)
            == workspace + "/"@ + relative_path,
        workspace_path(workspace.push('/'), relative_path) == workspace_path(
            workspace,
            relative_path,
        ),
{
    assert(workspace.push('/').drop_last() =~= workspace);
    assert(trim_slashes(workspace.push('/')) == trim_slashes(workspace));
}

// ---------------------------------------------------------------------------------------------
// Single prompts

/// A single prompt is asked as the user's message, of the model that was named, without tools.
pub proof fn law_prompts_are_asked(model: Seq<char>, prompt: Seq<char>)
    ensures
        ({
            let request = prompt_request(model, prompt);
            let item = request.input[0];
            &&& request.model == model
            &&& request.instructions == "You are a helpful assistant."@
            &&& request.input.len() == 1
            &&& item is Message
            &&& item->Message_role == "user"@
            &&& item->Message_content == seq![ContentItemModel::InputText { text: prompt }]
            &&& item->Message_id is None
            &&& item->Message_phase is None
            &&& request.tools is None
            &&& request.tool_choice == "auto"@
            &&& !request.parallel_tool_calls
            &&& request.reasoning is None
            &&& !request.store
            &&& request.stream
            &&& request.included.len() == 0
            &&& request.service_tier is None
            &&& request.prompt_cache_key is None
            &&& request.text is None
            &&& request.client_metadata is None
        }),
{
}

/// How the provider of single prompts is reached.
pub proof fn law_prompts_reach_the_backend()
    ensures
        ({
            let backend = chatgpt_backend();
            &&& backend.name == "openai-codex"@
            &&& backend.base_url == "https://chatgpt.com/backend-api/codex"@
            &&& backend.headers.len() == 2
            &&& backend.headers[0].name == "originator"@
            &&& backend.headers[0].value == "codex_cli_rs"@
            &&& backend.headers[1].name == "user-agent"@
            &&& backend.headers[1].value == "codex_cli_rs/0.0.0 (iOS 26.5; arm64) CodexIOS"@
            &&& backend.max_attempts == 3
            &&& backend.base_delay_millis == 500
            &&& backend.retry_429 && backend.retry_5xx && backend.retry_transport
            &&& backend.stream_idle_timeout_secs == 60
        }),
{
}

/// The answer is what is streamed, piece by piece, or else the finished message of the assistant.
/// The completion ends it and a failure is told.
pub proof fn law_answers_add_up(
    text: Seq<char>,
    delta: Seq<char>,
    item: ResponseItemModel,
    event: ResponseEventModel,
)
    ensures
        answer_step(text, ResponseEventModel::OutputTextDelta(delta)) == (
            text + delta,
            PromptStepModel::Continue,
        ),
        event is Completed ==> answer_step(text, event) == (text, PromptStepModel::Finish),
        event is Created ==> answer_step(text, event) == (text, PromptStepModel::Continue),
        answer_step(text, ResponseEventModel::Failed { message: delta }) == (
            text,
            PromptStepModel::Fail { problem: "stream error: "@ + delta },
        ),
        item is Message && item->Message_role == "assistant"@ && text.len() == 0 ==> answer_step(
            text,
            ResponseEventModel::OutputItemDone(item),
        ) == (output_text_of(item->Message_content), PromptStepModel::Continue),
        !(item is Message && item->Message_role == "assistant"@) ==> answer_step(
            text,
            ResponseEventModel::OutputItemDone(item),
        ) == (text, PromptStepModel::Continue),
{
}

/// The text of a finished message is all its output, in order.
pub proof fn law_output_adds_up(content: Seq<ContentItemModel>, part: ContentItemModel)
    ensures
        output_text_of(Seq::<ContentItemModel>::empty()).len() == 0,
        part is OutputText ==> output_text_of(content.push(part)) == output_text_of(content)
            + part->OutputText_text,
        !(part is OutputText) ==> output_text_of(content.push(part)) == output_text_of(content),
{
    assert(content.push(part).drop_last() =~= content);
    assert(output_text_of(content) + Seq::<char>::empty() =~= output_text_of(content));
}

/// What a call gives back: its text, or the error behind a mark that tells it is one.
pub proof fn law_results_of_calls(text: Seq<char>, panic: Seq<char>)
    ensures
        call_text(CallOutcomeModel::Text(text), panic) == crate::bridge::without_nul(text),
        call_text(CallOutcomeModel::Failed(text), panic) == crate::bridge::without_nul(
            "ERROR: "@ + text,
        ),
        call_text(CallOutcomeModel::Panicked, panic) == crate::bridge::without_nul(
            "ERROR: "@ + panic,
        ),
        download_text(CallOutcomeModel::Text(text)).len() == 0,
        !("ERROR: "@ + text).contains('\0') ==> download_text(CallOutcomeModel::Failed(text))
            == "ERROR: "@ + text,
        ("ERROR: "@ + text).contains('\0') ==> download_text(CallOutcomeModel::Failed(text))
            == "ERROR: invalid download result"@,
        download_text(CallOutcomeModel::Panicked)
            == "ERROR: panic while downloading SSH workspace file"@,
{
    reveal_strlit("ERROR: panic while downloading SSH workspace file");
    let told = "ERROR: panic while downloading SSH workspace file"@;
    assert(!told.contains('\0'));
}

/// The output of a command is all that it writes, in order, and its status is the last reported.
pub proof fn law_commands_are_captured(
    capture: CommandCaptureModel,
    bytes: Seq<u8>,
    status: u32,
)
    ensures
        captured(capture, CommandReportModel::Output(bytes)) == (CommandCaptureModel {
            output: capture.output + bytes,
            exit_status: capture.exit_status,
        }),
        captured(capture, CommandReportModel::ExitStatus(status)) == (CommandCaptureModel {
            output: capture.output,
            exit_status: Some(status),
        }),
        captured(capture, CommandReportModel::Other) == capture,
{
}

} // verus!
