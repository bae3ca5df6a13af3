//! What the host may do to a turn under way: answer a tool call, steer it, interrupt it.
use vstd::prelude::*;

use crate::dynamic_tools::{
    parse_dynamic_tool_response, response_of, DynamicToolResponse, DynamicToolResponseModel,
};
use crate::json::Json;
use crate::json_text::json_document;
use crate::lists::{lemma_empty_content, outcome};
use crate::model::Modeled;
use crate::registry::{interrupt_requested, takes_input, TurnRegistry, Turns};
use crate::text::{is_blank, trim_text};
use crate::turn_args::{c_str_to_string, required, uploads_argument, CArg, CArgModel};
use crate::uploads::{
    parse_server_file_uploads, prompt_images, steering_user_input, user_input, ServerFileUpload,
    ServerFileUploadModel, UserInput, UserInputModel,
};

verus! {

/// Why the runtime refused to take input in.
#[derive(Clone, Copy, Debug, PartialEq, Eq, Structural)]
pub enum SteerInputError {
    NoActiveTurn,
    ExpectedTurnMismatch,
    ActiveTurnNotSteerable,
    EmptyInput,
}

impl DeepView for SteerInputError {
    type V = SteerInputError;

    open spec fn deep_view(&self) -> SteerInputError {
        *self
    }
}

impl Modeled for SteerInputError {
    fn duplicate(&self) -> (r: Self) {
        *self
    }

    fn same(&self, other: &Self) -> (r: bool) {
        *self == *other
    }
}

/// What became of handing input to the runtime.
#[derive(Debug, PartialEq, Eq)]
pub enum SteerResult {
    Accepted,
    Rejected(SteerInputError),
    Panicked,
}

/// The mathematical content of a [`SteerResult`].
pub enum SteerResultModel {
    Accepted,
    Rejected(SteerInputError),
    Panicked,
}

impl DeepView for SteerResult {
    type V = SteerResultModel;

    open spec fn deep_view(&self) -> SteerResultModel {
        match self {
            SteerResult::Accepted => SteerResultModel::Accepted,
            SteerResult::Rejected(x) => SteerResultModel::Rejected(*x),
            SteerResult::Panicked => SteerResultModel::Panicked,
        }
    }
}

impl Modeled for SteerResult {
    fn duplicate(&self) -> (r: Self) {
        match self {
            SteerResult::Accepted => SteerResult::Accepted,
            SteerResult::Rejected(x) => SteerResult::Rejected(*x),
            SteerResult::Panicked => SteerResult::Panicked,
        }
    }

    fn same(&self, other: &Self) -> (r: bool) {
        match (self, other) {
            (SteerResult::Accepted, SteerResult::Accepted) => true,
            (SteerResult::Rejected(x), SteerResult::Rejected(x_other)) => *x == *x_other,
            (SteerResult::Panicked, SteerResult::Panicked) => true,
            _ => false,
        }
    }
}

impl Clone for SteerResult {
    fn clone(&self) -> (r: Self)
        ensures
            r.deep_view() == self.deep_view(),
    {
        self.duplicate()
    }
}

/// What the host wants to say while a turn is under way.
#[derive(Debug, PartialEq, Eq)]
pub struct Steering {
    pub input: Vec<UserInput>,
    pub uploads: Vec<ServerFileUpload>,
}

/// The mathematical content of a [`Steering`].
pub struct SteeringModel {
    pub input: Seq<UserInputModel>,
    pub uploads: Seq<ServerFileUploadModel>,
}

impl DeepView for Steering {
    type V = SteeringModel;

    open spec fn deep_view(&self) -> SteeringModel {
        SteeringModel {
            input: self.input.deep_view(),
            uploads: self.uploads.deep_view(),
        }
    }
}

impl Modeled for Steering {
    fn duplicate(&self) -> (r: Self) {
        Steering {
            input: self.input.duplicate(),
            uploads: self.uploads.duplicate(),
        }
    }

    fn same(&self, other: &Self) -> (r: bool) {
        self.input.same(&other.input)
            && self.uploads.same(&other.uploads)
    }
}

impl Clone for Steering {
    fn clone(&self) -> (r: Self)
        ensures
            r.deep_view() == self.deep_view(),
    {
        self.duplicate()
    }
}

/// A response of the host to a tool call.
#[derive(Debug, PartialEq, Eq)]
pub struct ToolReply {
    pub call_id: String,
    pub response: DynamicToolResponse,
}

/// The mathematical content of a [`ToolReply`].
pub struct ToolReplyModel {
    pub call_id: Seq<char>,
    pub response: DynamicToolResponseModel,
}

impl DeepView for ToolReply {
    type V = ToolReplyModel;

    open spec fn deep_view(&self) -> ToolReplyModel {
        ToolReplyModel {
            call_id: self.call_id.deep_view(),
            response: self.response.deep_view(),
        }
    }
}

impl Modeled for ToolReply {
    fn duplicate(&self) -> (r: Self) {
        ToolReply {
            call_id: self.call_id.duplicate(),
            response: self.response.duplicate(),
        }
    }

    fn same(&self, other: &Self) -> (r: bool) {
        self.call_id.same(&other.call_id)
            && self.response.same(&other.response)
    }
}

impl Clone for ToolReply {
    fn clone(&self) -> (r: Self)
        ensures
            r.deep_view() == self.deep_view(),
    {
        self.duplicate()
    }
}


// ---------------------------------------------------------------------------------------------
// Answers to tool calls

/// The reply that the arguments hold, or the code of the first argument that cannot be used.
pub open spec fn reply_of(call_id: CArgModel, response_json: CArgModel) -> Result<
    ToolReplyModel,
    i32,
> {
    match required(call_id, "call_id"@) {
        Err(_) => Err(1i32),
        Ok(call_id) => match required(response_json, "response_json"@) {
            Err(_) => Err(2i32),
            Ok(text) => match json_document(text) {
                Err(_) => Err(3i32),
                Ok(value) => match response_of(value) {
                    Err(_) => Err(3i32),
                    Ok(response) => Ok(ToolReplyModel { call_id, response }),
                },
            },
        },
    }
}

/// Takes an answer to a tool call in: the reply to deliver to the turn, or the code of what is
/// wrong. 1 is a bad call id, 2 a bad response, 3 a response that is no answer, 6 a turn that
/// takes none.
pub fn codex_respond_dynamic_tool(
    registry: &TurnRegistry,
    handle: u64,
    call_id: &CArg,
    response_json: &CArg,
) -> (r: Result<ToolReply, i32>)
    ensures
        outcome(r) == match reply_of(call_id.deep_view(), response_json.deep_view()) {
            Err(code) => Err(code),
            Ok(reply) => if takes_input(registry.turns@, handle) {
                Ok(reply)
            } else {
                Err(6i32)
            },
        },
{
    let call_id = match c_str_to_string(call_id, "call_id") {
        Ok(call_id) => call_id,
        Err(_) => {
            return Err(1);
        },
    };
    let text = match c_str_to_string(response_json, "response_json") {
        Ok(text) => text,
        Err(_) => {
            return Err(2);
        },
    };
    let value = match Json::parse(text.as_str()) {
        Ok(value) => value,
        Err(_) => {
            return Err(3);
        },
    };
    let response = match parse_dynamic_tool_response(&value) {
        Ok(response) => response,
        Err(_) => {
            return Err(3);
        },
    };
    if !registry.accepts_input(handle) {
        return Err(6);
    }
    Ok(ToolReply { call_id, response })
}

/// The code of a delivery: 0 where the turn took the reply, 5 where it had already ended.
pub fn delivery_code(delivered: bool) -> (r: i32)
    ensures
        r == if delivered {
            0i32
        } else {
            5i32
        },
{
    if delivered {
        0
    } else {
        5
    }
}

// ---------------------------------------------------------------------------------------------
// Steering

/// What the host wants to say, or the code of the first argument that cannot be used.
pub open spec fn steering_of(text: CArgModel, uploads_json: CArgModel) -> Result<
    SteeringModel,
    i32,
> {
    match required(text, "text"@) {
        Err(_) => Err(1i32),
        Ok(text) => if trim_text(text).len() == 0 {
            Err(2i32)
        } else {
            match uploads_argument(uploads_json) {
                Err(_) => Err(8i32),
                Ok(uploads) => match prompt_images(uploads) {
                    Err(_) => Err(8i32),
                    Ok(images) => Ok(SteeringModel { input: user_input(text, images), uploads }),
                },
            }
        },
    }
}

/// Reads what the host wants to say. 1 is a bad text, 2 a blank one, 8 a manifest of uploads that
/// cannot be used.
pub fn read_steering(text: &CArg, uploads_json: &CArg) -> (r: Result<Steering, i32>)
    ensures
        outcome(r) == steering_of(text.deep_view(), uploads_json.deep_view()),
{
    let text = match c_str_to_string(text, "text") {
        Ok(text) => text,
        Err(_) => {
            return Err(1);
        },
    };
    if is_blank(text.as_str()) {
        return Err(2);
    }
    let uploads: Vec<ServerFileUpload> = match uploads_json {
        CArg::Null => {
            let none: Vec<ServerFileUpload> = Vec::new();
            proof {
                lemma_empty_content(none);
            }
            none
        },
        _ => match c_str_to_string(uploads_json, "uploads_json") {
            Err(_) => {
                return Err(8);
            },
            Ok(manifest) => match parse_server_file_uploads(manifest.as_str()) {
                Err(_) => {
                    return Err(8);
                },
                Ok(uploads) => uploads,
            },
        },
    };
    let uploads_slice = uploads.as_slice();
    assert(uploads_slice.deep_view() =~= uploads.deep_view());
    match steering_user_input(text, uploads_slice) {
        Err(_) => Err(8),
        Ok(input) => Ok(Steering { input, uploads }),
    }
}

/// Steers a turn with text and uploads: what to hand to the runtime, or the code of what is
/// wrong. Besides the codes of [`read_steering`], 6 is a turn that takes no input yet or any more.
pub fn codex_steer_turn_with_uploads(
    registry: &TurnRegistry,
    handle: u64,
    text: &CArg,
    uploads_json: &CArg,
) -> (r: Result<Steering, i32>)
    ensures
        outcome(r) == match steering_of(text.deep_view(), uploads_json.deep_view()) {
            Err(code) => Err(code),
            Ok(steering) => if takes_input(registry.turns@, handle) {
                Ok(steering)
            } else {
                Err(6i32)
            },
        },
{
    match read_steering(text, uploads_json) {
        Err(code) => Err(code),
        Ok(steering) => {
            if registry.accepts_input(handle) {
                Ok(steering)
            } else {
                Err(6)
            }
        },
    }
}

/// Steers a turn with text alone.
pub fn codex_steer_turn(registry: &TurnRegistry, handle: u64, text: &CArg) -> (r: Result<
    Steering,
    i32,
>)
    ensures
        outcome(r) == match steering_of(text.deep_view(), CArgModel::Null) {
            Err(code) => Err(code),
            Ok(steering) => if takes_input(registry.turns@, handle) {
                Ok(steering)
            } else {
                Err(6i32)
            },
        },
{
    codex_steer_turn_with_uploads(registry, handle, text, &CArg::Null)
}

/// The code of input that the runtime refused. These refusals leave the queue of input unchanged.
/// A turn that is announced may not have created its task yet: that it takes no input then is
/// kept apart from an unknown outcome.
pub open spec fn rejection_code(error: SteerInputError) -> i32 {
    match error {
        SteerInputError::EmptyInput => 2,
        _ => 6,
    }
}

/// The code of input that the runtime refused.
pub fn rejected_input_code(error: SteerInputError) -> (r: i32)
    ensures
        r == rejection_code(error),
{
    match error {
        SteerInputError::NoActiveTurn => 6,
        SteerInputError::ExpectedTurnMismatch => 6,
        SteerInputError::ActiveTurnNotSteerable => 6,
        SteerInputError::EmptyInput => 2,
    }
}

/// The code of handing input to the runtime: 0 where it was taken, 7 where the outcome is unknown.
pub fn steer_code(result: &SteerResult) -> (r: i32)
    ensures
        r == match result.deep_view() {
            SteerResultModel::Accepted => 0i32,
            SteerResultModel::Rejected(error) => rejection_code(error),
            SteerResultModel::Panicked => 7i32,
        },
{
    match result {
        SteerResult::Accepted => 0,
        SteerResult::Rejected(error) => rejected_input_code(*error),
        SteerResult::Panicked => 7,
    }
}

// ---------------------------------------------------------------------------------------------
// Interrupts

/// Interrupts a turn. Gives the code at once, or nothing where the thread of the turn has to be
/// told and [`interrupt_code`] follows. 0 says that the request is recorded, also for repeats; 6
/// is a turn that is unknown, finished or already being cleaned up.
pub fn codex_interrupt_turn(registry: &mut TurnRegistry, handle: u64) -> (r: Option<i32>)
    ensures
        final(registry).next_handle == old(registry).next_handle,
        match interrupt_requested(old(registry).turns@, handle) {
            Err(_) => r == Some(6i32) && final(registry).turns@ == old(registry).turns@,
            Ok((turns, tell)) => final(registry).turns@ == turns && r == if tell {
                None
            } else {
                Some(0i32)
            },
        },
{
    match registry.request_interrupt(handle) {
        Err(_) => Some(6),
        Ok(true) => None,
        Ok(false) => Some(0),
    }
}

/// The code of telling the thread of a turn to stop: 0 where it took the request, 7 where not.
pub fn interrupt_code(submitted: bool) -> (r: i32)
    ensures
        r == if submitted {
            0i32
        } else {
            7i32
        },
{
    if submitted {
        0
    } else {
        7
    }
}

/// A turn that is starting takes neither replies nor steering, and one that was interrupted takes
/// none any more.
pub proof fn law_only_live_turns_take_input(turns: Turns, handle: u64)
    ensures
        turns.contains_key(handle) && turns[handle] is Starting ==> !takes_input(turns, handle),
        interrupt_requested(turns, handle) matches Ok((after, _)) ==> !takes_input(after, handle),
{
}

} // verus!
