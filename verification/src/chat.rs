//! Requests of the responses protocol in the form of the chat protocol.
use vstd::prelude::*;

use crate::json::{member, member_of, object2, object3, text_member, Json, JsonModel};
use crate::json_text::json_text;
use crate::lists::lemma_empty_content;
use crate::model::Modeled;
use crate::protocol::{
    ContentItem, ContentItemModel, FunctionCallOutputBody, FunctionCallOutputBodyModel,
    ResponseItem, ResponseItemModel,
};
use crate::text::{glue3, is_blank, join_with, joined, same_text, trim_text};

verus! {

/// An entry of the metadata that a client sends along.
#[derive(Debug, PartialEq, Eq)]
pub struct ClientMetadata {
    pub key: String,
    pub value: String,
}

/// The mathematical content of a [`ClientMetadata`].
pub struct ClientMetadataModel {
    pub key: Seq<char>,
    pub value: Seq<char>,
}

impl DeepView for ClientMetadata {
    type V = ClientMetadataModel;

    open spec fn deep_view(&self) -> ClientMetadataModel {
        ClientMetadataModel { key: self.key.deep_view(), value: self.value.deep_view() }
    }
}

impl Modeled for ClientMetadata {
    fn duplicate(&self) -> (r: Self) {
        ClientMetadata { key: self.key.duplicate(), value: self.value.duplicate() }
    }

    fn same(&self, other: &Self) -> (r: bool) {
        self.key.same(&other.key) && self.value.same(&other.value)
    }
}

impl Clone for ClientMetadata {
    fn clone(&self) -> (r: Self)
        ensures
            r.deep_view() == self.deep_view(),
    {
        self.duplicate()
    }
}

/// A request in the form of the responses protocol. The chat protocol takes over its model,
/// instructions, input and tools.
#[derive(Debug, PartialEq, Eq)]
pub struct ResponsesApiRequest {
    pub model: String,
    pub instructions: String,
    pub input: Vec<ResponseItem>,
    pub tools: Option<Vec<Json>>,
    pub tool_choice: String,
    pub parallel_tool_calls: bool,
    pub reasoning: Option<Json>,
    pub store: bool,
    pub stream: bool,
    /// The parts that the answer is asked to hold besides its items.
    pub included: Vec<String>,
    pub service_tier: Option<String>,
    pub prompt_cache_key: Option<String>,
    pub text: Option<Json>,
    pub client_metadata: Option<Vec<ClientMetadata>>,
}

/// The mathematical content of a [`ResponsesApiRequest`].
pub struct ResponsesApiRequestModel {
    pub model: Seq<char>,
    pub instructions: Seq<char>,
    pub input: Seq<ResponseItemModel>,
    pub tools: Option<Seq<JsonModel>>,
    pub tool_choice: Seq<char>,
    pub parallel_tool_calls: bool,
    pub reasoning: Option<JsonModel>,
    pub store: bool,
    pub stream: bool,
    pub included: Seq<Seq<char>>,
    pub service_tier: Option<Seq<char>>,
    pub prompt_cache_key: Option<Seq<char>>,
    pub text: Option<JsonModel>,
    pub client_metadata: Option<Seq<ClientMetadataModel>>,
}

impl DeepView for ResponsesApiRequest {
    type V = ResponsesApiRequestModel;

    open spec fn deep_view(&self) -> ResponsesApiRequestModel {
        ResponsesApiRequestModel {
            model: self.model.deep_view(),
            instructions: self.instructions.deep_view(),
            input: self.input.deep_view(),
            tools: self.tools.deep_view(),
            tool_choice: self.tool_choice.deep_view(),
            parallel_tool_calls: self.parallel_tool_calls,
            reasoning: self.reasoning.deep_view(),
            store: self.store,
            stream: self.stream,
            included: self.included.deep_view(),
            service_tier: self.service_tier.deep_view(),
            prompt_cache_key: self.prompt_cache_key.deep_view(),
            text: self.text.deep_view(),
            client_metadata: self.client_metadata.deep_view(),
        }
    }
}

impl Modeled for ResponsesApiRequest {
    fn duplicate(&self) -> (r: Self) {
        ResponsesApiRequest {
            model: self.model.duplicate(),
            instructions: self.instructions.duplicate(),
            input: self.input.duplicate(),
            tools: self.tools.duplicate(),
            tool_choice: self.tool_choice.duplicate(),
            parallel_tool_calls: self.parallel_tool_calls,
            reasoning: self.reasoning.duplicate(),
            store: self.store,
            stream: self.stream,
            included: self.included.duplicate(),
            service_tier: self.service_tier.duplicate(),
            prompt_cache_key: self.prompt_cache_key.duplicate(),
            text: self.text.duplicate(),
            client_metadata: self.client_metadata.duplicate(),
        }
    }

    fn same(&self, other: &Self) -> (r: bool) {
        self.model.same(&other.model)
            && self.instructions.same(&other.instructions)
            && self.input.same(&other.input)
            && self.tools.same(&other.tools)
            && self.tool_choice.same(&other.tool_choice)
            && self.parallel_tool_calls == other.parallel_tool_calls
            && self.reasoning.same(&other.reasoning)
            && self.store == other.store
            && self.stream == other.stream
            && self.included.same(&other.included)
            && self.service_tier.same(&other.service_tier)
            && self.prompt_cache_key.same(&other.prompt_cache_key)
            && self.text.same(&other.text)
            && self.client_metadata.same(&other.client_metadata)
    }
}

impl Clone for ResponsesApiRequest {
    fn clone(&self) -> (r: Self)
        ensures
            r.deep_view() == self.deep_view(),
    {
        self.duplicate()
    }
}

/// The function that a tool call names, with its arguments.
#[derive(Debug, PartialEq, Eq)]
pub struct ChatToolCallFunction {
    pub name: String,
    pub arguments: String,
}

/// The mathematical content of a [`ChatToolCallFunction`].
pub struct ChatToolCallFunctionModel {
    pub name: Seq<char>,
    pub arguments: Seq<char>,
}

impl DeepView for ChatToolCallFunction {
    type V = ChatToolCallFunctionModel;

    open spec fn deep_view(&self) -> ChatToolCallFunctionModel {
        ChatToolCallFunctionModel {
            name: self.name.deep_view(),
            arguments: self.arguments.deep_view(),
        }
    }
}

impl Modeled for ChatToolCallFunction {
    fn duplicate(&self) -> (r: Self) {
        ChatToolCallFunction {
            name: self.name.duplicate(),
            arguments: self.arguments.duplicate(),
        }
    }

    fn same(&self, other: &Self) -> (r: bool) {
        self.name.same(&other.name)
            && self.arguments.same(&other.arguments)
    }
}

impl Clone for ChatToolCallFunction {
    fn clone(&self) -> (r: Self)
        ensures
            r.deep_view() == self.deep_view(),
    {
        self.duplicate()
    }
}

/// A tool call of the chat protocol.
#[derive(Debug, PartialEq, Eq)]
pub struct ChatToolCall {
    pub id: String,
    pub kind: String,
    pub function: ChatToolCallFunction,
}

/// The mathematical content of a [`ChatToolCall`].
pub struct ChatToolCallModel {
    pub id: Seq<char>,
    pub kind: Seq<char>,
    pub function: ChatToolCallFunctionModel,
}

impl DeepView for ChatToolCall {
    type V = ChatToolCallModel;

    open spec fn deep_view(&self) -> ChatToolCallModel {
        ChatToolCallModel {
            id: self.id.deep_view(),
            kind: self.kind.deep_view(),
            function: self.function.deep_view(),
        }
    }
}

impl Modeled for ChatToolCall {
    fn duplicate(&self) -> (r: Self) {
        ChatToolCall {
            id: self.id.duplicate(),
            kind: self.kind.duplicate(),
            function: self.function.duplicate(),
        }
    }

    fn same(&self, other: &Self) -> (r: bool) {
        self.id.same(&other.id)
            && self.kind.same(&other.kind)
            && self.function.same(&other.function)
    }
}

impl Clone for ChatToolCall {
    fn clone(&self) -> (r: Self)
        ensures
            r.deep_view() == self.deep_view(),
    {
        self.duplicate()
    }
}

/// A message of the chat protocol.
#[derive(Debug, PartialEq, Eq)]
pub struct ChatMessage {
    pub role: String,
    pub content: Option<String>,
    pub tool_calls: Option<Vec<ChatToolCall>>,
    pub tool_call_id: Option<String>,
}

/// The mathematical content of a [`ChatMessage`].
pub struct ChatMessageModel {
    pub role: Seq<char>,
    pub content: Option<Seq<char>>,
    pub tool_calls: Option<Seq<ChatToolCallModel>>,
    pub tool_call_id: Option<Seq<char>>,
}

impl DeepView for ChatMessage {
    type V = ChatMessageModel;

    open spec fn deep_view(&self) -> ChatMessageModel {
        ChatMessageModel {
            role: self.role.deep_view(),
            content: self.content.deep_view(),
            tool_calls: self.tool_calls.deep_view(),
            tool_call_id: self.tool_call_id.deep_view(),
        }
    }
}

impl Modeled for ChatMessage {
    fn duplicate(&self) -> (r: Self) {
        ChatMessage {
            role: self.role.duplicate(),
            content: self.content.duplicate(),
            tool_calls: self.tool_calls.duplicate(),
            tool_call_id: self.tool_call_id.duplicate(),
        }
    }

    fn same(&self, other: &Self) -> (r: bool) {
        self.role.same(&other.role)
            && self.content.same(&other.content)
            && self.tool_calls.same(&other.tool_calls)
            && self.tool_call_id.same(&other.tool_call_id)
    }
}

impl Clone for ChatMessage {
    fn clone(&self) -> (r: Self)
        ensures
            r.deep_view() == self.deep_view(),
    {
        self.duplicate()
    }
}

/// A request of the chat protocol.
#[derive(Debug, PartialEq, Eq)]
pub struct ChatCompletionsRequest {
    pub model: String,
    pub messages: Vec<ChatMessage>,
    pub tools: Option<Vec<Json>>,
    pub tool_choice: String,
    pub parallel_tool_calls: bool,
    pub stream: bool,
}

/// The mathematical content of a [`ChatCompletionsRequest`].
pub struct ChatCompletionsRequestModel {
    pub model: Seq<char>,
    pub messages: Seq<ChatMessageModel>,
    pub tools: Option<Seq<JsonModel>>,
    pub tool_choice: Seq<char>,
    pub parallel_tool_calls: bool,
    pub stream: bool,
}

impl DeepView for ChatCompletionsRequest {
    type V = ChatCompletionsRequestModel;

    open spec fn deep_view(&self) -> ChatCompletionsRequestModel {
        ChatCompletionsRequestModel {
            model: self.model.deep_view(),
            messages: self.messages.deep_view(),
            tools: self.tools.deep_view(),
            tool_choice: self.tool_choice.deep_view(),
            parallel_tool_calls: self.parallel_tool_calls,
            stream: self.stream,
        }
    }
}

impl Modeled for ChatCompletionsRequest {
    fn duplicate(&self) -> (r: Self) {
        ChatCompletionsRequest {
            model: self.model.duplicate(),
            messages: self.messages.duplicate(),
            tools: self.tools.duplicate(),
            tool_choice: self.tool_choice.duplicate(),
            parallel_tool_calls: self.parallel_tool_calls,
            stream: self.stream,
        }
    }

    fn same(&self, other: &Self) -> (r: bool) {
        self.model.same(&other.model)
            && self.messages.same(&other.messages)
            && self.tools.same(&other.tools)
            && self.tool_choice.same(&other.tool_choice)
            && self.parallel_tool_calls == other.parallel_tool_calls
            && self.stream == other.stream
    }
}

impl Clone for ChatCompletionsRequest {
    fn clone(&self) -> (r: Self)
        ensures
            r.deep_view() == self.deep_view(),
    {
        self.duplicate()
    }
}


/// Whether a flag is off. A flag that is off is left out of an encoded request.
pub fn is_false(value: &bool) -> (r: bool)
    ensures
        r == !*value,
{
    !*value
}

// ---------------------------------------------------------------------------------------------
// Tools

/// The name under which the chat protocol knows a tool of a namespace.
pub open spec fn namespaced_name(namespace: Option<Seq<char>>, name: Seq<char>) -> Seq<char> {
    match namespace {
        Some(namespace) => if namespace.len() > 0 {
            namespace + "__"@ + name
        } else {
            name
        },
        None => name,
    }
}

/// The name under which the chat protocol knows a tool of a namespace.
pub fn namespaced_tool_name(namespace: Option<&String>, name: &str) -> (r: String)
    ensures
        r@ == namespaced_name(namespace.deep_view(), name@),
{
    match namespace {
        Some(namespace) => if namespace.as_str().is_empty() {
            name.to_owned()
        } else {
            glue3(namespace.as_str(), "__", name)
        },
        None => name.to_owned(),
    }
}

/// The schema of a tool that states none.
pub open spec fn default_parameters() -> JsonModel {
    JsonModel::Object(
        seq![
            member("properties"@, JsonModel::Object(Seq::empty())),
            member("type"@, JsonModel::Text("object"@)),
        ],
    )
}

/// The chat tool of a function, where the tool is a named function.
pub open spec fn chat_function(namespace: Option<Seq<char>>, tool: JsonModel) -> Option<JsonModel> {
    match (text_member(tool, "type"@), text_member(tool, "name"@)) {
        (Some(kind), Some(name)) => if kind == "function"@ {
            let description = match member_of(tool, "description"@) {
                Some(description) => description,
                None => JsonModel::Text(Seq::empty()),
            };
            let parameters = match member_of(tool, "parameters"@) {
                Some(parameters) => parameters,
                None => default_parameters(),
            };
            Some(
                JsonModel::Object(
                    seq![
                        member(
                            "function"@,
                            JsonModel::Object(
                                seq![
                                    member("description"@, description),
                                    member(
                                        "name"@,
                                        JsonModel::Text(namespaced_name(namespace, name)),
                                    ),
                                    member("parameters"@, parameters),
                                ],
                            ),
                        ),
                        member("type"@, JsonModel::Text("function"@)),
                    ],
                ),
            )
        } else {
            None
        },
        _ => None,
    }
}

/// The chat tools of a tool: itself, or the functions of a namespace.
pub open spec fn chat_tools(tool: JsonModel) -> Seq<JsonModel> {
    match text_member(tool, "type"@) {
        Some(kind) => if kind == "function"@ {
            match chat_function(None, tool) {
                Some(function) => seq![function],
                None => Seq::empty(),
            }
        } else if kind == "namespace"@ {
            match member_of(tool, "tools"@) {
                Some(JsonModel::Array(children)) => children.filter_map(
                    |child: JsonModel| chat_function(text_member(tool, "name"@), child),
                ),
                _ => Seq::empty(),
            }
        } else {
            Seq::empty()
        },
        None => Seq::empty(),
    }
}

/// The chat tools of many tools, in order.
pub open spec fn all_chat_tools(tools: Seq<JsonModel>) -> Seq<JsonModel>
    decreases tools.len(),
{
    if tools.len() == 0 {
        Seq::empty()
    } else {
        all_chat_tools(tools.drop_last()) + chat_tools(tools.last())
    }
}

/// The chat tool of a function, where the tool is a named function.
pub fn responses_function_to_chat_tool(namespace: Option<&String>, tool: &Json) -> (r: Option<Json>)
    ensures
        r.deep_view() == chat_function(namespace.deep_view(), tool.deep_view()),
{
    let is_function = match tool.get_text("type") {
        Some(kind) => same_text(kind.as_str(), "function"),
        None => false,
    };
    if !is_function {
        return None;
    }
    let name = match tool.get_text("name") {
        Some(name) => namespaced_tool_name(namespace, name.as_str()),
        None => {
            return None;
        },
    };
    let description = match tool.get("description") {
        Some(description) => description.duplicate(),
        None => Json::Text(String::new()),
    };
    let parameters = match tool.get("parameters") {
        Some(parameters) => parameters.duplicate(),
        None => {
            let properties = Json::Object(Vec::new());
            assert(properties.deep_view()->Object_0 =~= Seq::empty());
            object2("properties", properties, "type", Json::Text("object".to_string()))
        },
    };
    proof {
        assert(member_of(tool.deep_view(), "description"@) is None ==> description.deep_view()
            == JsonModel::Text(Seq::empty()));
    }
    Some(
        object2(
            "function",
            object3(
                "description",
                description,
                "name",
                Json::Text(name),
                "parameters",
                parameters,
            ),
            "type",
            Json::Text("function".to_string()),
        ),
    )
}

/// The chat tools of a tool: itself, or the functions of a namespace.
pub fn chat_tools_from_responses_tool(tool: &Json) -> (r: Vec<Json>)
    ensures
        r.deep_view() == chat_tools(tool.deep_view()),
{
    let mut out: Vec<Json> = Vec::new();
    proof {
        lemma_empty_content(out);
    }
    let kind = match tool.get_text("type") {
        Some(kind) => kind.as_str(),
        None => {
            return out;
        },
    };
    if same_text(kind, "function") {
        if let Some(function) = responses_function_to_chat_tool(None, tool) {
            out.push(function);
            assert(out.deep_view() =~= seq![function.deep_view()]);
        }
        return out;
    }
    if !same_text(kind, "namespace") {
        return out;
    }
    let namespace = tool.get_text("name");
    if let Some(Json::Array(children)) = tool.get("tools") {
        let ghost model = children.deep_view();
        let ghost select = |child: JsonModel| chat_function(namespace.deep_view(), child);
        proof {
            assert(Json::Array(*children).deep_view()->Array_0 =~= model);
            assert(member_of(tool.deep_view(), "tools"@) == Some(JsonModel::Array(model)));
            reveal(Seq::filter_map);
            assert(model.take(0).filter_map(select) =~= Seq::empty());
        }
        let mut i: usize = 0;
        while i < children.len()
            invariant
                i <= children@.len(),
                model == children.deep_view(),
                model.len() == children@.len(),
                select == (|child: JsonModel| chat_function(namespace.deep_view(), child)),
                out.deep_view() == model.take(i as int).filter_map(select),
            decreases children.len() - i,
        {
            let ghost before = out.deep_view();
            proof {
                assert(model[i as int] == children@[i as int].deep_view());
                model.lemma_filter_map_take_succ(select, i as int);
            }
            if let Some(function) = responses_function_to_chat_tool(namespace, &children[i]) {
                out.push(function);
                assert(out.deep_view() =~= before + seq![function.deep_view()]);
            }
            assert(out.deep_view() =~= model.take(i + 1).filter_map(select));
            i = i + 1;
        }
        proof {
            assert(model.take(model.len() as int) =~= model);
            assert(select =~= (|child: JsonModel|
                chat_function(text_member(tool.deep_view(), "name"@), child)));
        }
    }
    out
}

fn append_chat_tools(out: &mut Vec<Json>, tools: &Vec<Json>)
    ensures
        final(out).deep_view() == old(out).deep_view() + all_chat_tools(tools.deep_view()),
{
    let ghost start = out.deep_view();
    let ghost model = tools.deep_view();
    let mut i: usize = 0;
    assert(out.deep_view() =~= start + all_chat_tools(model.take(0)));
    while i < tools.len()
        invariant
            i <= tools@.len(),
            model == tools.deep_view(),
            model.len() == tools@.len(),
            out.deep_view() == start + all_chat_tools(model.take(i as int)),
        decreases tools.len() - i,
    {
        let mut more = chat_tools_from_responses_tool(&tools[i]);
        proof {
            assert(model[i as int] == tools@[i as int].deep_view());
            assert(model.take(i + 1).drop_last() =~= model.take(i as int));
            assert(model.take(i + 1).last() == model[i as int]);
        }
        let ghost before = out.deep_view();
        let ghost added = more.deep_view();
        out.append(&mut more);
        proof {
            assert(out.deep_view() =~= before + added);
            assert(out.deep_view() =~= start + all_chat_tools(model.take(i + 1)));
        }
        i = i + 1;
    }
    assert(model.take(model.len() as int) =~= model);
}

// ---------------------------------------------------------------------------------------------
// Messages

/// The text that stands for a content item in a chat message. Empty text is left out.
pub open spec fn item_text(item: ContentItemModel) -> Option<Seq<char>> {
    match item {
        ContentItemModel::InputText { text } => if text.len() == 0 {
            None
        } else {
            Some(text)
        },
        ContentItemModel::OutputText { text } => if text.len() == 0 {
            None
        } else {
            Some(text)
        },
        ContentItemModel::InputImage { image_url, .. } => Some(image_url),
        ContentItemModel::InputAudio { audio_url } => Some(audio_url),
    }
}

/// The text of a message's content, one line for each item, or nothing where no item has text.
pub open spec fn content_text(content: Seq<ContentItemModel>) -> Option<Seq<char>> {
    let parts = content.filter_map(|item: ContentItemModel| item_text(item));
    if parts.len() == 0 {
        None
    } else {
        Some(joined(parts, "\n"@))
    }
}

/// The text of a tool's output.
pub open spec fn output_text(body: FunctionCallOutputBodyModel) -> Seq<char> {
    match body {
        FunctionCallOutputBodyModel::Text(text) => text,
        FunctionCallOutputBodyModel::ContentItems(items) => json_text(items),
    }
}

/// The role of a message in the chat protocol.
pub open spec fn chat_role(role: Seq<char>) -> Seq<char> {
    if role == "assistant"@ {
        "assistant"@
    } else if role == "system"@ || role == "developer"@ {
        "system"@
    } else {
        "user"@
    }
}

/// A chat message that says something.
pub open spec fn text_message(role: Seq<char>, content: Seq<char>) -> ChatMessageModel {
    ChatMessageModel { role, content: Some(content), tool_calls: None, tool_call_id: None }
}

/// A chat message of the assistant that calls tools.
pub open spec fn calls_message(calls: Seq<ChatToolCallModel>) -> ChatMessageModel {
    ChatMessageModel {
        role: "assistant"@,
        content: None,
        tool_calls: Some(calls),
        tool_call_id: None,
    }
}

/// A chat message that answers a tool call.
pub open spec fn result_message(call_id: Seq<char>, content: Seq<char>) -> ChatMessageModel {
    ChatMessageModel {
        role: "tool"@,
        content: Some(content),
        tool_calls: None,
        tool_call_id: Some(call_id),
    }
}

/// A tool call of the chat protocol.
pub open spec fn function_call(
    call_id: Seq<char>,
    namespace: Option<Seq<char>>,
    name: Seq<char>,
    arguments: Seq<char>,
) -> ChatToolCallModel {
    ChatToolCallModel {
        id: call_id,
        kind: "function"@,
        function: ChatToolCallFunctionModel { name: namespaced_name(namespace, name), arguments },
    }
}

/// What has been made of the first items of a request: the messages, the tool calls that are not
/// yet part of a message, and the tools.
pub struct Conversion {
    pub messages: Seq<ChatMessageModel>,
    pub pending: Seq<ChatToolCallModel>,
    pub tools: Seq<JsonModel>,
}

/// The messages with the pending tool calls as one message of the assistant.
pub open spec fn flushed(messages: Seq<ChatMessageModel>, pending: Seq<ChatToolCallModel>) -> Seq<
    ChatMessageModel,
> {
    if pending.len() == 0 {
        messages
    } else {
        messages.push(calls_message(pending))
    }
}

/// What an item adds.
pub open spec fn convert_item(state: Conversion, item: ResponseItemModel) -> Conversion {
    let settled = flushed(state.messages, state.pending);
    match item {
        ResponseItemModel::AdditionalTools { tools, .. } => Conversion {
            tools: state.tools + all_chat_tools(tools),
            ..state
        },
        ResponseItemModel::Message { role, content, .. } => Conversion {
            messages: match content_text(content) {
                Some(text) => settled.push(text_message(chat_role(role), text)),
                None => settled,
            },
            pending: Seq::empty(),
            tools: state.tools,
        },
        ResponseItemModel::FunctionCall { name, namespace, arguments, call_id, .. } => Conversion {
            pending: state.pending.push(function_call(call_id, namespace, name, arguments)),
            ..state
        },
        ResponseItemModel::CustomToolCall { name, namespace, input, call_id, .. } => Conversion {
            pending: state.pending.push(function_call(call_id, namespace, name, input)),
            ..state
        },
        ResponseItemModel::FunctionCallOutput { call_id, output, .. } => Conversion {
            messages: settled.push(result_message(call_id, output_text(output.body))),
            pending: Seq::empty(),
            tools: state.tools,
        },
        ResponseItemModel::CustomToolCallOutput { call_id, output, .. } => Conversion {
            messages: settled.push(result_message(call_id, output_text(output.body))),
            pending: Seq::empty(),
            tools: state.tools,
        },
        _ => state,
    }
}

/// What the items make of a conversion that has begun.
pub open spec fn converted(start: Conversion, items: Seq<ResponseItemModel>) -> Conversion
    decreases items.len(),
{
    if items.len() == 0 {
        start
    } else {
        convert_item(converted(start, items.drop_last()), items.last())
    }
}

/// The conversion before the first item: the instructions, where there are any, and the tools.
pub open spec fn conversion_start(request: ResponsesApiRequestModel) -> Conversion {
    Conversion {
        messages: if trim_text(request.instructions).len() == 0 {
            Seq::empty()
        } else {
            seq![text_message("system"@, request.instructions)]
        },
        pending: Seq::empty(),
        tools: match request.tools {
            Some(tools) => all_chat_tools(tools),
            None => Seq::empty(),
        },
    }
}

/// The request in the form of the chat protocol.
pub open spec fn chat_request(request: ResponsesApiRequestModel) -> ChatCompletionsRequestModel {
    let end = converted(conversion_start(request), request.input);
    ChatCompletionsRequestModel {
        model: request.model,
        messages: flushed(end.messages, end.pending),
        tools: if end.tools.len() == 0 {
            None
        } else {
            Some(end.tools)
        },
        tool_choice: request.tool_choice,
        parallel_tool_calls: request.parallel_tool_calls,
        stream: true,
    }
}

/// The text of a message's content, one line for each item, or nothing where no item has text.
pub fn content_items_to_text(content: &Vec<ContentItem>) -> (r: Option<String>)
    ensures
        r.deep_view() == content_text(content.deep_view()),
{
    let ghost model = content.deep_view();
    let ghost select = |item: ContentItemModel| item_text(item);
    let mut parts: Vec<String> = Vec::new();
    let mut i: usize = 0;
    proof {
        reveal(Seq::filter_map);
        assert(parts.deep_view() =~= model.take(0).filter_map(select));
    }
    while i < content.len()
        invariant
            i <= content@.len(),
            model == content.deep_view(),
            model.len() == content@.len(),
            select == (|item: ContentItemModel| item_text(item)),
            parts.deep_view() == model.take(i as int).filter_map(select),
        decreases content.len() - i,
    {
        let ghost before = parts.deep_view();
        proof {
            assert(model[i as int] == content@[i as int].deep_view());
            model.lemma_filter_map_take_succ(select, i as int);
        }
        let text = match &content[i] {
            ContentItem::InputText { text } => text,
            ContentItem::OutputText { text } => text,
            ContentItem::InputImage { image_url, .. } => image_url,
            ContentItem::InputAudio { audio_url } => audio_url,
        };
        let is_media = matches!(
            &content[i],
            ContentItem::InputImage { .. } | ContentItem::InputAudio { .. }
        );
        if is_media || !text.as_str().is_empty() {
            parts.push(text.clone());
            assert(parts.deep_view() =~= before + seq![text@]);
        }
        assert(parts.deep_view() =~= model.take(i + 1).filter_map(select));
        i = i + 1;
    }
    assert(model.take(model.len() as int) =~= model);
    if parts.len() == 0 {
        None
    } else {
        Some(join_with(&parts, "\n"))
    }
}

fn body_text(body: &FunctionCallOutputBody) -> (r: String)
    ensures
        r@ == output_text(body.deep_view()),
{
    match body {
        FunctionCallOutputBody::Text(text) => text.clone(),
        FunctionCallOutputBody::ContentItems(items) => items.render(),
    }
}

fn flush_tool_calls(messages: &mut Vec<ChatMessage>, pending: Vec<ChatToolCall>) -> (r: Vec<
    ChatToolCall,
>)
    ensures
        final(messages).deep_view() == flushed(old(messages).deep_view(), pending.deep_view()),
        r.deep_view() == Seq::<ChatToolCallModel>::empty(),
{
    let empty: Vec<ChatToolCall> = Vec::new();
    proof {
        lemma_empty_content(empty);
    }
    if pending.len() == 0 {
        return empty;
    }
    let ghost before = messages.deep_view();
    let ghost calls = pending.deep_view();
    messages.push(
        ChatMessage {
            role: "assistant".to_string(),
            content: None,
            tool_calls: Some(pending),
            tool_call_id: None,
        },
    );
    assert(messages.deep_view() =~= before.push(calls_message(calls)));
    empty
}

fn push_text(messages: &mut Vec<ChatMessage>, role: &str, content: String)
    ensures
        final(messages).deep_view() == old(messages).deep_view().push(
            text_message(role@, content@),
        ),
{
    let ghost before = messages.deep_view();
    let message = ChatMessage {
        role: role.to_owned(),
        content: Some(content),
        tool_calls: None,
        tool_call_id: None,
    };
    messages.push(message);
    assert(messages.deep_view() =~= before.push(message.deep_view()));
}

fn push_result(messages: &mut Vec<ChatMessage>, call_id: &String, content: String)
    ensures
        final(messages).deep_view() == old(messages).deep_view().push(
            result_message(call_id@, content@),
        ),
{
    let ghost before = messages.deep_view();
    let message = ChatMessage {
        role: "tool".to_string(),
        content: Some(content),
        tool_calls: None,
        tool_call_id: Some(call_id.clone()),
    };
    messages.push(message);
    assert(messages.deep_view() =~= before.push(message.deep_view()));
}

fn push_call(
    pending: &mut Vec<ChatToolCall>,
    call_id: &String,
    namespace: &Option<String>,
    name: &String,
    arguments: &String,
)
    ensures
        final(pending).deep_view() == old(pending).deep_view().push(
            function_call(call_id@, namespace.deep_view(), name@, arguments@),
        ),
{
    let ghost before = pending.deep_view();
    let call = ChatToolCall {
        id: call_id.clone(),
        kind: "function".to_string(),
        function: ChatToolCallFunction {
            name: namespaced_tool_name(namespace.as_ref(), name.as_str()),
            arguments: arguments.clone(),
        },
    };
    pending.push(call);
    assert(pending.deep_view() =~= before.push(call.deep_view()));
}

/// Puts a request into the form of the chat protocol.
///
/// The model can emit several tool calls in one turn. The chat protocol wants those in a single
/// assistant message, immediately followed by one message for each result. Consecutive tool calls
/// are therefore held back and become one assistant message the moment an item arrives that is no
/// tool call. Tool calls without results at the end still go out as one message.
pub fn chat_request_from_responses_request(request: ResponsesApiRequest) -> (r:
    ChatCompletionsRequest)
    ensures
        r.deep_view() == chat_request(request.deep_view()),
{
    let ghost model = request.deep_view();
    let ghost start = conversion_start(model);
    let mut tools: Vec<Json> = Vec::new();
    let mut messages: Vec<ChatMessage> = Vec::new();
    let mut pending: Vec<ChatToolCall> = Vec::new();
    proof {
        lemma_empty_content(tools);
        lemma_empty_content(messages);
        lemma_empty_content(pending);
    }
    if let Some(offered) = &request.tools {
        append_chat_tools(&mut tools, offered);
        assert(tools.deep_view() =~= start.tools);
    }
    if !is_blank(request.instructions.as_str()) {
        push_text(&mut messages, "system", request.instructions);
        assert(messages.deep_view() =~= start.messages);
    }
    let input = request.input;
    let ghost items = model.input;
    let mut i: usize = 0;
    assert(items.take(0) =~= Seq::empty());
    while i < input.len()
        invariant
            i <= input@.len(),
            items == input.deep_view(),
            items.len() == input@.len(),
            ({
                let state = converted(start, items.take(i as int));
                &&& messages.deep_view() == state.messages
                &&& pending.deep_view() == state.pending
                &&& tools.deep_view() == state.tools
            }),
        decreases input.len() - i,
    {
        proof {
            assert(items[i as int] == input@[i as int].deep_view());
            assert(items.take(i + 1).drop_last() =~= items.take(i as int));
            assert(items.take(i + 1).last() == items[i as int]);
        }
        match &input[i] {
            ResponseItem::AdditionalTools { tools: more, .. } => {
                append_chat_tools(&mut tools, more);
            },
            ResponseItem::Message { role, content, .. } => {
                pending = flush_tool_calls(&mut messages, pending);
                if let Some(text) = content_items_to_text(content) {
                    let role = if same_text(role.as_str(), "assistant") {
                        "assistant"
                    } else if same_text(role.as_str(), "system") || same_text(
                        role.as_str(),
                        "developer",
                    ) {
                        "system"
                    } else {
                        "user"
                    };
                    push_text(&mut messages, role, text);
                }
            },
            ResponseItem::FunctionCall { name, namespace, arguments, call_id, .. } => {
                push_call(&mut pending, call_id, namespace, name, arguments);
            },
            ResponseItem::CustomToolCall { name, namespace, input: arguments, call_id, .. } => {
                push_call(&mut pending, call_id, namespace, name, arguments);
            },
            ResponseItem::FunctionCallOutput { call_id, output, .. } => {
                pending = flush_tool_calls(&mut messages, pending);
                push_result(&mut messages, call_id, body_text(&output.body));
            },
            ResponseItem::CustomToolCallOutput { call_id, output, .. } => {
                pending = flush_tool_calls(&mut messages, pending);
                push_result(&mut messages, call_id, body_text(&output.body));
            },
            _ => {},
        }
        i = i + 1;
    }
    proof {
        assert(items.take(items.len() as int) =~= items);
    }
    let rest = flush_tool_calls(&mut messages, pending);
    ChatCompletionsRequest {
        model: request.model,
        messages,
        tools: if tools.len() == 0 {
            None
        } else {
            Some(tools)
        },
        tool_choice: request.tool_choice,
        parallel_tool_calls: request.parallel_tool_calls,
        stream: true,
    }
}

} // verus!
