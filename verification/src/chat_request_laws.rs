//! Laws of chat requests: what each item, each tool and each field of a request becomes.
use vstd::prelude::*;

use crate::chat::{
    all_chat_tools, chat_function, chat_request, chat_role, chat_tools, content_text,
    conversion_start, convert_item, converted, item_text, namespaced_name, ChatMessageModel,
    Conversion, ResponsesApiRequestModel,
};
use crate::json::{member, member_of, JsonModel};
use crate::json_text::json_text;
use crate::protocol::{ContentItemModel, ResponseItemModel};
use crate::text::trim_text;

verus! {

/// A request with one more item at the end of its input.
pub open spec fn with_item(
    request: ResponsesApiRequestModel,
    item: ResponseItemModel,
) -> ResponsesApiRequestModel {
    ResponsesApiRequestModel { input: request.input.push(item), ..request }
}

/// Whether an item closes the message that collects tool calls.
pub open spec fn closes_calls(item: ResponseItemModel) -> bool {
    item is Message || item is FunctionCallOutput || item is CustomToolCallOutput
}

/// Whether some items end in tool calls that are still being collected: since the latest call
/// nothing closed their message.
pub open spec fn collects_calls(items: Seq<ResponseItemModel>) -> bool {
    exists|i: int|
        #![trigger items[i]]
        0 <= i < items.len() && (items[i] is FunctionCall || items[i] is CustomToolCall) && forall|
            j: int,
        |
            i < j < items.len() ==> !closes_calls(#[trigger] items[j])
}

proof fn lemma_appended(request: ResponsesApiRequestModel, item: ResponseItemModel)
    ensures
        converted(conversion_start(with_item(request, item)), with_item(request, item).input)
            == convert_item(converted(conversion_start(request), request.input), item),
{
    assert(request.input.push(item).drop_last() =~= request.input);
    assert(conversion_start(with_item(request, item)) == conversion_start(request));
}

proof fn lemma_collecting(start: Conversion, items: Seq<ResponseItemModel>)
    requires
        start.pending.len() == 0,
    ensures
        converted(start, items).pending.len() > 0 <==> collects_calls(items),
    decreases items.len(),
{
    if items.len() > 0 {
        let front = items.drop_last();
        let last = items.last();
        lemma_collecting(start, front);
        assert forall|j: int| 0 <= j < front.len() implies front[j] == items[j] by {}
        if last is FunctionCall || last is CustomToolCall {
            assert(items[items.len() - 1] == last);
            assert(collects_calls(items));
        } else if closes_calls(last) {
            assert(closes_calls(items[items.len() - 1]));
            assert(!collects_calls(items));
        } else {
            if collects_calls(front) {
                let i = choose|i: int|
                    #![trigger front[i]]
                    0 <= i < front.len() && (front[i] is FunctionCall || front[i] is CustomToolCall)
                        && forall|j: int|
                        i < j < front.len() ==> !closes_calls(#[trigger] front[j]);
                assert(items[i] == front[i]);
                assert forall|j: int| i < j < items.len() implies !closes_calls(
                    #[trigger] items[j],
                ) by {
                    if j < front.len() {
                        assert(front[j] == items[j]);
                    }
                }
                assert(collects_calls(items));
            }
            if collects_calls(items) {
                let i = choose|i: int|
                    #![trigger items[i]]
                    0 <= i < items.len() && (items[i] is FunctionCall || items[i] is CustomToolCall)
                        && forall|j: int|
                        i < j < items.len() ==> !closes_calls(#[trigger] items[j]);
                assert(i < front.len());
                assert(front[i] == items[i]);
                assert forall|j: int| i < j < front.len() implies !closes_calls(
                    #[trigger] front[j],
                ) by {
                    assert(front[j] == items[j]);
                }
                assert(collects_calls(front));
            }
        }
    }
}

/// The chat roles: the assistant stays the assistant, the system and the developer speak as the
/// system, and everybody else is the user.
pub proof fn law_chat_roles(role: Seq<char>)
    ensures
        chat_role("assistant"@) == "assistant"@,
        chat_role("user"@) == "user"@,
        chat_role("system"@) == "system"@,
        chat_role("developer"@) == "system"@,
        role != "assistant"@ && role != "system"@ && role != "developer"@ ==> chat_role(role)
            == "user"@,
{
    reveal_strlit("assistant");
    reveal_strlit("user");
    reveal_strlit("system");
    reveal_strlit("developer");
    assert("user"@.len() == 4);
    assert("system"@.len() == 6);
    assert("assistant"@.len() == 9 && "assistant"@[0] == 'a');
    assert("developer"@.len() == 9 && "developer"@[0] == 'd');
}

/// A message at the end of the input becomes one chat message at the end of the conversation,
/// under the role of who said it and with its text. One without text becomes none.
pub proof fn law_messages_are_sent_in_order(
    request: ResponsesApiRequestModel,
    item: ResponseItemModel,
)
    requires
        item is Message,
    ensures
        ({
            let before = chat_request(request);
            let after = chat_request(with_item(request, item));
            let text = content_text(item->Message_content);
            let role = item->Message_role;
            let sent = after.messages[after.messages.len() - 1];
            &&& text is None ==> after == before
            &&& text is Some ==> {
                &&& after.messages.len() == before.messages.len() + 1
                &&& after.messages.drop_last() == before.messages
                &&& sent.content == text
                &&& sent.tool_calls is None
                &&& sent.tool_call_id is None
                &&& role == "assistant"@ ==> sent.role == "assistant"@
                &&& role == "system"@ || role == "developer"@ ==> sent.role == "system"@
                &&& role != "assistant"@ && role != "system"@ && role != "developer"@ ==> sent.role
                    == "user"@
                &&& after.tools == before.tools
            }
        }),
{
    lemma_appended(request, item);
    law_chat_roles(item->Message_role);
    let before = chat_request(request);
    let after = chat_request(with_item(request, item));
    if content_text(item->Message_content) is Some {
        assert(after.messages.drop_last() =~= before.messages);
    }
}

/// The text of a message is the text of its parts, line by line in order: what was said, or where
/// its media is. Empty parts count for nothing.
pub proof fn law_message_text_is_all_of_it(
    content: Seq<ContentItemModel>,
    part: ContentItemModel,
)
    ensures
        content_text(Seq::<ContentItemModel>::empty()) is None,
        ({
            let text = match part {
                ContentItemModel::InputText { text } => text,
                ContentItemModel::OutputText { text } => text,
                ContentItemModel::InputImage { image_url, .. } => image_url,
                ContentItemModel::InputAudio { audio_url } => audio_url,
            };
            let counts = text.len() > 0 || part is InputImage || part is InputAudio;
            let before = content_text(content);
            let after = content_text(content.push(part));
            &&& !counts ==> after == before
            &&& counts && before is None ==> after == Some(text)
            &&& counts && before is Some ==> after == Some(before->0 + "\n"@ + text)
        }),
{
    let f = |item: ContentItemModel| item_text(item);
    let all = content.push(part);
    let n = content.len() as int;
    reveal(Seq::filter_map);
    assert(Seq::<ContentItemModel>::empty().filter_map(f) =~= Seq::empty());
    all.lemma_filter_map_take_succ(f, n);
    assert(all.take(n) =~= content);
    assert(all.take(n + 1) =~= all);
    let parts = content.filter_map(f);
    let more = all.filter_map(f);
    if let Some(text) = f(part) {
        assert(more =~= parts.push(text));
        assert(more.drop_last() =~= parts);
        assert(more.last() == text);
    } else {
        assert(more =~= parts);
    }
}

/// A tool call is sent under its id and its name with its input. It joins the calls right before
/// it, and starts a message of the assistant otherwise.
pub proof fn law_calls_are_sent_in_order(
    request: ResponsesApiRequestModel,
    item: ResponseItemModel,
)
    requires
        item is FunctionCall || item is CustomToolCall,
    ensures
        ({
            let before = chat_request(request);
            let after = chat_request(with_item(request, item));
            let sent = after.messages[after.messages.len() - 1];
            let calls = sent.tool_calls->0;
            let call = calls[calls.len() - 1];
            &&& after.tools == before.tools
            &&& after.messages.len() > 0
            &&& sent.role == "assistant"@
            &&& sent.content is None
            &&& sent.tool_call_id is None
            &&& sent.tool_calls is Some
            &&& calls.len() > 0
            &&& call.kind == "function"@
            &&& item is FunctionCall ==> {
                &&& call.id == item->FunctionCall_call_id
                &&& call.function.arguments == item->FunctionCall_arguments
                &&& call.function.name == namespaced_name(
                    item->FunctionCall_namespace,
                    item->FunctionCall_name,
                )
            }
            &&& item is CustomToolCall ==> {
                &&& call.id == item->CustomToolCall_call_id
                &&& call.function.arguments == item->CustomToolCall_input
                &&& call.function.name == namespaced_name(
                    item->CustomToolCall_namespace,
                    item->CustomToolCall_name,
                )
            }
            &&& collects_calls(request.input) ==> {
                &&& before.messages.len() == after.messages.len()
                &&& before.messages.drop_last() == after.messages.drop_last()
                &&& before.messages[before.messages.len() - 1].tool_calls == Some(
                    calls.drop_last(),
                )
            }
            &&& !collects_calls(request.input) ==> {
                &&& after.messages.drop_last() == before.messages
                &&& calls.len() == 1
            }
        }),
{
    lemma_appended(request, item);
    lemma_collecting(conversion_start(request), request.input);
    let end = converted(conversion_start(request), request.input);
    let before = chat_request(request);
    let after = chat_request(with_item(request, item));
    assert(after.messages.drop_last() =~= end.messages);
    let calls = after.messages[after.messages.len() - 1].tool_calls->0;
    assert(calls.drop_last() =~= end.pending);
    if collects_calls(request.input) {
        assert(before.messages.drop_last() =~= end.messages);
    }
}

/// A name is sent behind its namespace, where it has one that is not empty.
pub proof fn law_names_carry_their_namespace(namespace: Seq<char>, name: Seq<char>)
    ensures
        namespaced_name(None, name) == name,
        namespaced_name(Some(Seq::empty()), name) == name,
        namespace.len() > 0 ==> namespaced_name(Some(namespace), name) == namespace + "__"@ + name,
{
}

/// What a tool gave back is sent for its call, at the end of the conversation.
pub proof fn law_results_are_sent_in_order(
    request: ResponsesApiRequestModel,
    item: ResponseItemModel,
)
    requires
        item is FunctionCallOutput || item is CustomToolCallOutput,
    ensures
        ({
            let before = chat_request(request);
            let after = chat_request(with_item(request, item));
            let sent = after.messages[after.messages.len() - 1];
            let body = if item is FunctionCallOutput {
                item->FunctionCallOutput_output.body
            } else {
                item->CustomToolCallOutput_output.body
            };
            &&& after.tools == before.tools
            &&& after.messages.len() == before.messages.len() + 1
            &&& after.messages.drop_last() == before.messages
            &&& sent.role == "tool"@
            &&& sent.tool_calls is None
            &&& sent.tool_call_id == Some(
                if item is FunctionCallOutput {
                    item->FunctionCallOutput_call_id
                } else {
                    item->CustomToolCallOutput_call_id
                },
            )
            &&& sent.content is Some
            &&& body is Text ==> sent.content->0 == body->Text_0
            &&& body is ContentItems ==> sent.content->0 == json_text(body->ContentItems_0)
        }),
{
    lemma_appended(request, item);
    let before = chat_request(request);
    let after = chat_request(with_item(request, item));
    assert(after.messages.drop_last() =~= before.messages);
}

/// Tools that come up on the way are sent after the earlier ones, and no other kind of item is
/// sent at all.
pub proof fn law_other_items_are_not_sent(
    request: ResponsesApiRequestModel,
    item: ResponseItemModel,
)
    requires
        !closes_calls(item),
        !(item is FunctionCall),
        !(item is CustomToolCall),
    ensures
        ({
            let before = chat_request(request);
            let after = chat_request(with_item(request, item));
            let earlier = if before.tools is Some {
                before.tools->0
            } else {
                Seq::empty()
            };
            let later = if after.tools is Some {
                after.tools->0
            } else {
                Seq::empty()
            };
            &&& after.messages == before.messages
            &&& item is AdditionalTools ==> later == earlier + all_chat_tools(
                item->AdditionalTools_tools,
            )
            &&& !(item is AdditionalTools) ==> after == before
        }),
{
    lemma_appended(request, item);
    let end = converted(conversion_start(request), request.input);
    if item is AdditionalTools {
        let more = all_chat_tools(item->AdditionalTools_tools);
        assert(end.tools + more =~= Seq::<JsonModel>::empty() + end.tools + more);
        if end.tools.len() == 0 {
            assert(end.tools =~= Seq::<JsonModel>::empty());
        }
    }
}

/// The conversation starts with the instructions as the system's message, unless they are blank,
/// and the tools start with the request's. The other fields are the request's own; the answer is
/// always streamed, and no empty list of tools is sent.
pub proof fn law_requests_keep_their_fields(request: ResponsesApiRequestModel)
    ensures
        ({
            let chat = chat_request(request);
            &&& chat.model == request.model
            &&& chat.tool_choice == request.tool_choice
            &&& chat.parallel_tool_calls == request.parallel_tool_calls
            &&& chat.stream
            &&& chat.tools is Some ==> chat.tools->0.len() > 0
            &&& request.input.len() == 0 ==> {
                &&& trim_text(request.instructions).len() == 0 ==> chat.messages.len() == 0
                &&& trim_text(request.instructions).len() > 0 ==> chat.messages == seq![
                    ChatMessageModel {
                        role: "system"@,
                        content: Some(request.instructions),
                        tool_calls: None,
                        tool_call_id: None,
                    },
                ]
                &&& request.tools is None ==> chat.tools is None
                &&& request.tools is Some && all_chat_tools(request.tools->0).len() == 0
                    ==> chat.tools is None
                &&& request.tools is Some && all_chat_tools(request.tools->0).len() > 0
                    ==> chat.tools == Some(all_chat_tools(request.tools->0))
            }
        }),
{
}

// ---------------------------------------------------------------------------------------------
// Tools

/// Whether a tool is a function with a name.
pub open spec fn is_named_function(tool: JsonModel) -> bool {
    &&& member_of(tool, "type"@) == Some(JsonModel::Text("function"@))
    &&& member_of(tool, "name"@) is Some
    &&& member_of(tool, "name"@)->0 is Text
}

/// Whether a chat tool describes a function: under its name and its namespace, with its
/// description and its parameters, where it has them.
pub open spec fn describes(sent: JsonModel, namespace: Option<Seq<char>>, tool: JsonModel) -> bool {
    let name = member_of(tool, "name"@)->0->Text_0;
    let outer = sent->Object_0;
    let inner = outer[0].value->Object_0;
    &&& sent is Object
    &&& outer.len() == 2
    &&& outer[0].key == "function"@
    &&& outer[0].value is Object
    &&& outer[1] == member("type"@, JsonModel::Text("function"@))
    &&& inner.len() == 3
    &&& inner[0].key == "description"@
    &&& inner[0].value == if member_of(tool, "description"@) is Some {
        member_of(tool, "description"@)->0
    } else {
        JsonModel::Text(Seq::empty())
    }
    &&& inner[1].key == "name"@
    &&& inner[1].value == JsonModel::Text(
        if namespace is Some && namespace->0.len() > 0 {
            namespace->0 + "__"@ + name
        } else {
            name
        },
    )
    &&& inner[2].key == "parameters"@
    &&& inner[2].value == if member_of(tool, "parameters"@) is Some {
        member_of(tool, "parameters"@)->0
    } else {
        JsonModel::Object(
            seq![
                member("properties"@, JsonModel::Object(Seq::empty())),
                member("type"@, JsonModel::Text("object"@)),
            ],
        )
    }
}

/// A function is sent as it is described, and what is no named function is not.
pub proof fn law_functions_are_described(namespace: Option<Seq<char>>, tool: JsonModel)
    ensures
        is_named_function(tool) ==> chat_function(namespace, tool) is Some && describes(
            chat_function(namespace, tool)->0,
            namespace,
            tool,
        ),
        !is_named_function(tool) ==> chat_function(namespace, tool) is None,
{
}

/// The namespace that a tool gives to the functions in it.
pub open spec fn own_namespace(tool: JsonModel) -> Option<Seq<char>> {
    if member_of(tool, "name"@) is Some && member_of(tool, "name"@)->0 is Text {
        Some(member_of(tool, "name"@)->0->Text_0)
    } else {
        None
    }
}

/// A function becomes one chat tool. A namespace becomes one chat tool for each named function in
/// it, in order and under its name. Anything else becomes none.
pub proof fn law_tools_are_sent(tool: JsonModel, children: Seq<JsonModel>, last: JsonModel)
    ensures
        is_named_function(tool) ==> chat_tools(tool).len() == 1 && describes(
            chat_tools(tool)[0],
            None,
            tool,
        ),
        member_of(tool, "type"@) != Some(JsonModel::Text("function"@)) && member_of(tool, "type"@)
            != Some(JsonModel::Text("namespace"@)) ==> chat_tools(tool).len() == 0,
        member_of(tool, "type"@) == Some(JsonModel::Text("function"@)) && !is_named_function(tool)
            ==> chat_tools(tool).len() == 0,
        member_of(tool, "type"@) == Some(JsonModel::Text("namespace"@)) && member_of(tool, "tools"@)
            == Some(JsonModel::Array(children.push(last))) ==> {
            let before = functions_in(own_namespace(tool), children);
            &&& !is_named_function(last) ==> chat_tools(tool) == before
            &&& is_named_function(last) ==> chat_tools(tool).len() == before.len() + 1
                && chat_tools(tool).drop_last() == before && describes(
                chat_tools(tool)[before.len() as int],
                own_namespace(tool),
                last,
            )
        },
        member_of(tool, "type"@) == Some(JsonModel::Text("namespace"@)) && member_of(tool, "tools"@)
            == Some(JsonModel::Array(children)) ==> chat_tools(tool) == functions_in(
            own_namespace(tool),
            children,
        ),
        functions_in(own_namespace(tool), Seq::empty()).len() == 0,
        member_of(tool, "type"@) == Some(JsonModel::Text("namespace"@)) && !(member_of(
            tool,
            "tools"@,
        ) is Some && member_of(tool, "tools"@)->0 is Array) ==> chat_tools(tool).len() == 0,
{
    reveal_strlit("function");
    reveal_strlit("namespace");
    assert("function"@.len() == 8);
    assert("namespace"@.len() == 9);
    let namespace = own_namespace(tool);
    let f = |child: JsonModel| chat_function(namespace, child);
    lemma_functions_in(namespace, children);
    lemma_functions_in(namespace, children.push(last));
    assert(children.push(last).drop_last() =~= children);
    let before = functions_in(namespace, children);
    let after = functions_in(namespace, children.push(last));
    if is_named_function(last) {
        assert(after.drop_last() =~= before);
    }
    assert(member_of(tool, "type"@) == Some(JsonModel::Text("namespace"@)) && member_of(
        tool,
        "tools"@,
    ) == Some(JsonModel::Array(children.push(last))) ==> chat_tools(tool) == after);
}

/// The chat tools of some functions of a namespace, in order.
pub open spec fn functions_in(namespace: Option<Seq<char>>, children: Seq<JsonModel>) -> Seq<
    JsonModel,
>
    decreases children.len(),
{
    if children.len() == 0 {
        Seq::empty()
    } else if is_named_function(children.last()) {
        functions_in(namespace, children.drop_last()).push(
            chat_function(namespace, children.last())->0,
        )
    } else {
        functions_in(namespace, children.drop_last())
    }
}

proof fn lemma_functions_in(namespace: Option<Seq<char>>, children: Seq<JsonModel>)
    ensures
        children.filter_map(|child: JsonModel| chat_function(namespace, child)) == functions_in(
            namespace,
            children,
        ),
    decreases children.len(),
{
    let f = |child: JsonModel| chat_function(namespace, child);
    if children.len() == 0 {
        reveal(Seq::filter_map);
        assert(children.filter_map(f) =~= Seq::empty());
    } else {
        let n = children.len() - 1;
        lemma_functions_in(namespace, children.drop_last());
        children.lemma_filter_map_take_succ(f, n);
        assert(children.take(n) =~= children.drop_last());
        assert(children.take(n + 1) =~= children);
        law_functions_are_described(namespace, children.last());
    }
}

/// The tools are sent one after the other.
pub proof fn law_tools_are_sent_in_order(tools: Seq<JsonModel>, last: JsonModel)
    ensures
        all_chat_tools(Seq::<JsonModel>::empty()).len() == 0,
        all_chat_tools(tools.push(last)) == all_chat_tools(tools) + chat_tools(last),
{
    assert(tools.push(last).drop_last() =~= tools);
}

} // verus!
