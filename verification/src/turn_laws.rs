//! Laws of a turn: what the host is told, what the runtime is given, and in which order.
use vstd::prelude::*;

use crate::bridge::{error_json, without_nul, ErrorEventModel};
use crate::commands::ToolReplyModel;
use crate::json::{member, JsonModel};
use crate::json_text::{json_document, json_text};
use crate::protocol::ResponseItemModel;
use crate::text::{decimal_text, pieces, trim_text};
use crate::turn_loop::{
    first_target, history_json, key_position, line_target, next_wait, on_message_of_turn,
    patch_target, turn_start, turn_step, ActionModel, LoopInputModel, Phase, Step,
    SubmitOutcomeModel, TurnEventModel, TurnLoopModel, TurnMsgModel, Wait,
};

verus! {

/// Whether an action tells the host a text under a number for its kind.
pub open spec fn says(action: ActionModel, kind: i32, text: Seq<char>) -> bool {
    action is Emit && action->Emit_0.kind == kind && action->Emit_0.text == without_nul(text)
}

/// Whether a step does one thing: it tells the host a text.
pub open spec fn only_says(step: Step, kind: i32, text: Seq<char>) -> bool {
    step.1.len() == 1 && says(step.1[0], kind, text)
}

/// A running turn once an event of its own has come: it is no longer waiting for an image.
pub open spec fn awake(state: TurnLoopModel) -> TurnLoopModel {
    TurnLoopModel { awaiting_prompt_image: false, awaiting_tool_image: false, ..state }
}

/// An event of the turn that is running, or of any turn while none is known.
pub open spec fn own_event(state: TurnLoopModel, event: TurnEventModel) -> bool {
    &&& state.expected_turn_id is Some ==> event.id == state.expected_turn_id->0
    &&& state.expected_turn_id is Some && event.msg is TurnComplete
        ==> event.msg->TurnComplete_turn_id == state.expected_turn_id->0
    &&& state.expected_turn_id is Some && event.msg is TurnAborted
        ==> event.msg->TurnAborted_turn_id == state.expected_turn_id
}

// ---------------------------------------------------------------------------------------------
// Answers of the host

/// An answer of the host is handed over exactly once and as it was received: for the same call,
/// with the same content and the same success. An image in it limits the time for that.
pub proof fn law_replies_are_handed_over(state: TurnLoopModel, reply: ToolReplyModel)
    requires
        state.phase == Phase::AwaitingTool,
    ensures
        ({
            let step = turn_step(state, LoopInputModel::ReplyReceived(reply));
            let image = exists|i: int|
                0 <= i < reply.response.content_items.len() && (
                #[trigger] reply.response.content_items[i]) is InputImage;
            let last = step.1[step.1.len() - 1];
            &&& step.1.len() > 0
            &&& last is SubmitReply
            &&& forall|i: int|
                0 <= i < step.1.len() - 1 ==> !(#[trigger] step.1[i] is SubmitReply)
            &&& last->SubmitReply_reply.call_id == reply.call_id
            &&& last->SubmitReply_reply.response.content_items == reply.response.content_items
            &&& last->SubmitReply_reply.response.success == reply.response.success
            &&& last->SubmitReply_timed <==> image
            &&& image ==> step.1.len() == 2 && says(
                step.1[0],
                5,
                "{\"tool\":\"dynamic_image_response_submit\",\"args\":{\"phase\":\"begin\"}}"@,
            ) && step.0 == (TurnLoopModel { phase: Phase::SubmittingImageReply, ..state })
            &&& !image ==> step.1.len() == 1 && step.0 == (TurnLoopModel {
                phase: Phase::SubmittingReply,
                ..state
            })
        }),
{
}

/// Once an answer is handed over the turn goes on, and waits for the model exactly if it showed an
/// image. A refused answer ends the turn, and an image that takes too long interrupts it.
pub proof fn law_submitted_replies_let_the_turn_go_on(
    state: TurnLoopModel,
    id: Seq<char>,
    error: Seq<char>,
)
    requires
        state.phase == Phase::SubmittingReply || state.phase == Phase::SubmittingImageReply,
    ensures
        ({
            let image = state.phase == Phase::SubmittingImageReply;
            let done = turn_step(
                state,
                LoopInputModel::ReplySubmitted(SubmitOutcomeModel::Done(id)),
            );
            let refused = turn_step(
                state,
                LoopInputModel::ReplySubmitted(SubmitOutcomeModel::Failed(error)),
            );
            let late = turn_step(
                state,
                LoopInputModel::ReplySubmitted(SubmitOutcomeModel::TimedOut),
            );
            &&& done.0 == (TurnLoopModel {
                phase: Phase::Streaming,
                awaiting_tool_image: image,
                ..state
            })
            &&& !image ==> done.1.len() == 0 && late == done
            &&& image ==> only_says(
                done,
                5,
                "{\"tool\":\"dynamic_image_response_submit\",\"args\":{\"phase\":\"end\"}}"@,
            )
            &&& refused.0 == (TurnLoopModel { phase: Phase::Finished, ..state })
            &&& refused.1 == seq![
                ActionModel::Finish {
                    problem: Some(
                        if image {
                            "failed to submit dynamic image tool response: "@ + error
                        } else {
                            "failed to submit dynamic tool response: "@ + error
                        },
                    ),
                },
            ]
            &&& image ==> {
                &&& late.0 == (TurnLoopModel {
                    phase: Phase::Interrupting,
                    awaiting_tool_image: true,
                    ..state
                })
                &&& late.1.len() == 2
                &&& says(late.1[0], 3, "timed out submitting image tool output to the model"@)
                &&& late.1[1] == ActionModel::RequestInterrupt
            }
        }),
{
}

/// While an answer is waited for, the turn ends with the runtime's abort, an error lets events
/// count again, a closed channel ends the turn, and nothing else counts.
pub proof fn law_paused_turns_wait(state: TurnLoopModel, event: TurnEventModel, error: Seq<char>)
    requires
        state.phase == Phase::AwaitingTool,
    ensures
        ({
            let step = turn_step(state, LoopInputModel::Event(event));
            let closed = turn_step(state, LoopInputModel::ReplyChannelClosed);
            let broken = turn_step(state, LoopInputModel::StreamFailed { error });
            &&& !own_event(state, event) ==> step == (state, Seq::<ActionModel>::empty())
            &&& own_event(state, event) && event.msg is TurnAborted ==> step.0 == (TurnLoopModel {
                phase: Phase::Finished,
                ..state
            }) && step.1.len() == 2 && says(step.1[0], 16, Seq::empty()) && step.1[1] == (
            ActionModel::Finish { problem: None })
            &&& own_event(state, event) && event.msg is Error ==> {
                &&& state.protected_error_emitted ==> step == (
                    TurnLoopModel { phase: Phase::Streaming, ..state },
                    Seq::<ActionModel>::empty(),
                )
                &&& !state.protected_error_emitted ==> only_says(
                    step,
                    18,
                    json_text(error_json(event.msg->Error_error, state.rate_limits)),
                ) && step.0 == (TurnLoopModel {
                    phase: Phase::Streaming,
                    protected_error_emitted: true,
                    draining: true,
                    ..state
                })
            }
            &&& !(event.msg is TurnAborted) && !(event.msg is Error) ==> step == (
                state,
                Seq::<ActionModel>::empty(),
            )
            &&& closed.0.phase == Phase::Finished
            &&& closed.1.len() == 2
            &&& says(closed.1[0], 3, "dynamic tool response channel closed"@)
            &&& closed.1[1] == (ActionModel::Finish { problem: None })
            &&& broken.1 == seq![
                ActionModel::Finish {
                    problem: Some("event stream error while awaiting tool: "@ + error),
                },
            ]
        }),
{
}

// ---------------------------------------------------------------------------------------------
// Beginning

/// A turn first hands its prompt over, with a limit on the time exactly if it shows an image. One
/// that was interrupted before is aborted and hands nothing over.
pub proof fn law_turns_begin_with_the_prompt(
    turn_handle: u64,
    replayed: Seq<Seq<char>>,
    images: bool,
)
    ensures
        ({
            let begun = turn_start(turn_handle, replayed, images, false);
            let stopped = turn_start(turn_handle, replayed, images, true);
            &&& begun.0.turn_handle == turn_handle
            &&& begun.0.phase == Phase::Prompting
            &&& begun.0.expected_turn_id is None
            &&& begun.0.replayed_tool_calls == replayed
            &&& begun.0.awaiting_prompt_image == images
            &&& !begun.0.awaiting_tool_image
            &&& !begun.0.interrupting && !begun.0.draining && !begun.0.protected_error_emitted
            &&& !begun.0.saw_message_delta && !begun.0.completed
            &&& begun.0.last_summary_index is None && begun.0.latest_agent_message is None
            &&& begun.0.rate_limits is None
            &&& begun.1.len() == 2
            &&& says(
                begun.1[0],
                19,
                if images {
                    "prompt_image_submit_begin"@
                } else {
                    "prompt_submit_begin"@
                },
            )
            &&& begun.1[1] == (ActionModel::SubmitPrompt { timed: images })
            &&& stopped.0 == (TurnLoopModel { phase: Phase::Finished, ..begun.0 })
            &&& stopped.1.len() == 2
            &&& says(stopped.1[0], 16, Seq::empty())
            &&& stopped.1[1] == (ActionModel::Finish { problem: None })
        }),
{
}

/// A prompt that was taken names the turn, which is then made active; one that was refused ends
/// the turn; one that took too long is told, and the turn is cancelled once it is active.
pub proof fn law_prompts_are_followed(
    state: TurnLoopModel,
    turn_id: Seq<char>,
    error: Seq<char>,
    interrupted: bool,
)
    requires
        state.phase == Phase::Prompting,
    ensures
        ({
            let done = turn_step(
                state,
                LoopInputModel::PromptSubmitted(SubmitOutcomeModel::Done(turn_id)),
            );
            let refused = turn_step(
                state,
                LoopInputModel::PromptSubmitted(SubmitOutcomeModel::Failed(error)),
            );
            let late = turn_step(
                state,
                LoopInputModel::PromptSubmitted(SubmitOutcomeModel::TimedOut),
            );
            let active = turn_step(done.0, LoopInputModel::Activated { interrupted });
            let active_late = turn_step(late.0, LoopInputModel::Activated { interrupted });
            &&& done.0 == (TurnLoopModel {
                phase: Phase::Activating,
                expected_turn_id: Some(turn_id),
                ..state
            })
            &&& done.1.len() == 2
            &&& says(
                done.1[0],
                19,
                if state.awaiting_prompt_image {
                    "prompt_image_submit_end"@
                } else {
                    "prompt_submit_end"@
                },
            )
            &&& done.1[1] == ActionModel::Activate
            &&& refused.1 == seq![
                ActionModel::Finish { problem: Some("failed to submit user input: "@ + error) },
            ]
            &&& late.0 == (TurnLoopModel { phase: Phase::ActivatingAfterTimeout, ..state })
            &&& late.1.len() == 2
            &&& says(late.1[0], 3, "timed out submitting prompt image input to the model"@)
            &&& late.1[1] == ActionModel::Activate
            &&& says(active.1[0], 8, decimal_text(state.turn_handle as nat))
            &&& !interrupted ==> active.1.len() == 1 && active.0 == (TurnLoopModel {
                phase: Phase::Streaming,
                ..done.0
            })
            &&& interrupted ==> active.1.len() == 2 && active.1[1] == ActionModel::Cancel
                && active.0 == (TurnLoopModel {
                phase: Phase::Cancelling,
                interrupting: true,
                ..done.0
            })
            &&& says(active_late.1[0], 8, decimal_text(state.turn_handle as nat))
            &&& active_late.1.len() == 2
            &&& active_late.1[1] == ActionModel::Cancel
            &&& active_late.0 == (TurnLoopModel {
                phase: Phase::Cancelling,
                interrupting: true,
                ..late.0
            })
        }),
{
}

/// A turn that cannot be made active, cancelled or interrupted ends with that problem; one that
/// can be goes on, and an interrupted one stays interrupted.
pub proof fn law_problems_end_turns(state: TurnLoopModel, problem: Seq<char>)
    ensures
        state.phase == Phase::Activating || state.phase == Phase::ActivatingAfterTimeout
            ==> turn_step(state, LoopInputModel::ActivationFailed { problem }).1 == seq![
            ActionModel::Finish { problem: Some(problem) },
        ],
        state.phase == Phase::Cancelling ==> turn_step(
            state,
            LoopInputModel::CancelSubmitted { error: Some(problem) },
        ).1 == seq![
            ActionModel::Finish {
                problem: Some("failed to interrupt submitted turn: "@ + problem),
            },
        ] && turn_step(state, LoopInputModel::CancelSubmitted { error: None }) == (
            TurnLoopModel { phase: Phase::Streaming, ..state },
            Seq::<ActionModel>::empty(),
        ),
        state.phase == Phase::Interrupting ==> turn_step(
            state,
            LoopInputModel::InterruptRequested { problem: Some(problem) },
        ).1 == seq![ActionModel::Finish { problem: Some(problem) }] && turn_step(
            state,
            LoopInputModel::InterruptRequested { problem: None },
        ) == (
            TurnLoopModel { phase: Phase::Streaming, interrupting: true, ..state },
            Seq::<ActionModel>::empty(),
        ),
        state.phase == Phase::Streaming ==> turn_step(
            state,
            LoopInputModel::StreamFailed { error: problem },
        ).1 == seq![
            ActionModel::Finish {
                problem: Some(
                    if state.interrupting && !state.draining {
                        "event stream error while interrupting: "@ + problem
                    } else {
                        "event stream error: "@ + problem
                    },
                ),
            },
        ],
{
}

// ---------------------------------------------------------------------------------------------
// Waiting

/// A turn waits with a limit exactly while an error or an image is pending, and the limit that ran
/// out decides what happens: after an error the turn ends, after an image it is interrupted.
pub proof fn law_limits(state: TurnLoopModel)
    requires
        state.phase == Phase::Streaming,
    ensures
        ({
            let step = turn_step(state, LoopInputModel::TimedOut);
            &&& state.draining ==> next_wait(state) == Wait::ErrorDrain && step.0 == (
            TurnLoopModel { phase: Phase::Finished, ..state }) && step.1 == seq![
                ActionModel::Finish { problem: None },
            ]
            &&& !state.draining && state.interrupting ==> next_wait(state) == Wait::Unlimited
                && step == (state, Seq::<ActionModel>::empty())
            &&& !state.draining && !state.interrupting && state.awaiting_prompt_image ==> {
                &&& next_wait(state) == Wait::PromptImage
                &&& step.0 == (TurnLoopModel { phase: Phase::Interrupting, ..state })
                &&& step.1.len() == 2
                &&& says(
                    step.1[0],
                    3,
                    "model did not produce an event after receiving prompt image input"@,
                )
                &&& step.1[1] == ActionModel::RequestInterrupt
            }
            &&& !state.draining && !state.interrupting && !state.awaiting_prompt_image
                && state.awaiting_tool_image ==> {
                &&& next_wait(state) == Wait::ToolImage
                &&& step.0 == (TurnLoopModel { phase: Phase::Interrupting, ..state })
                &&& step.1.len() == 2
                &&& says(
                    step.1[0],
                    3,
                    "model did not continue after receiving image tool output"@,
                )
                &&& step.1[1] == ActionModel::RequestInterrupt
            }
            &&& !state.draining && !state.interrupting && !state.awaiting_prompt_image
                && !state.awaiting_tool_image ==> next_wait(state) == Wait::Unlimited && step == (
                state,
                Seq::<ActionModel>::empty(),
            )
        }),
{
}

/// A paused turn waits for an event or an answer, and a turn that is doing something waits for
/// nothing.
pub proof fn law_only_streams_are_waited_for(state: TurnLoopModel)
    ensures
        next_wait(state) == Wait::EventOrReply <==> state.phase == Phase::AwaitingTool,
        next_wait(state) == Wait::Nothing <==> state.phase != Phase::AwaitingTool && state.phase
            != Phase::Streaming,
{
}

// ---------------------------------------------------------------------------------------------
// Events of the runtime

/// Events of another turn do nothing, and an event of the turn wakes it.
pub proof fn law_own_events_count(state: TurnLoopModel, event: TurnEventModel)
    requires
        state.phase == Phase::Streaming,
    ensures
        !own_event(state, event) ==> turn_step(state, LoopInputModel::Event(event)) == (
            state,
            Seq::<ActionModel>::empty(),
        ),
        own_event(state, event) ==> turn_step(state, LoopInputModel::Event(event))
            == on_message_of_turn(awake(state), event.msg) && !turn_step(
            state,
            LoopInputModel::Event(event),
        ).0.awaiting_prompt_image && !turn_step(
            state,
            LoopInputModel::Event(event),
        ).0.awaiting_tool_image,
{
}

/// Text of the model and of its reasoning is told as it comes, and a new section of the reasoning
/// is announced by a break.
pub proof fn law_streamed_text_is_told(
    state: TurnLoopModel,
    event: TurnEventModel,
    delta: Seq<char>,
    index: i64,
)
    requires
        state.phase == Phase::Streaming,
        own_event(state, event),
    ensures
        ({
            let step = turn_step(state, LoopInputModel::Event(event));
            &&& event.msg == (TurnMsgModel::AgentMessageContentDelta { delta }) ==> only_says(
                step,
                1,
                delta,
            ) && step.0 == (TurnLoopModel { saw_message_delta: true, ..awake(state) })
            &&& event.msg == (TurnMsgModel::ReasoningRawContentDelta { delta }) ==> only_says(
                step,
                0,
                delta,
            ) && step.0 == awake(state)
            &&& event.msg == TurnMsgModel::AgentReasoningSectionBreak ==> only_says(
                step,
                6,
                Seq::empty(),
            ) && step.0 == (TurnLoopModel { last_summary_index: None, ..awake(state) })
            &&& event.msg == (TurnMsgModel::ReasoningContentDelta {
                summary_index: index,
                delta,
            }) ==> {
                &&& step.0 == (TurnLoopModel { last_summary_index: Some(index), ..awake(state) })
                &&& state.last_summary_index is None || state.last_summary_index == Some(index)
                    ==> only_says(step, 0, delta)
                &&& state.last_summary_index is Some && state.last_summary_index->0 != index
                    ==> step.1.len() == 2 && says(step.1[0], 6, Seq::empty()) && says(
                    step.1[1],
                    0,
                    delta,
                )
            }
        }),
{
}

/// A finished message is remembered, and told exactly if nothing of it was streamed.
pub proof fn law_finished_messages_are_kept(
    state: TurnLoopModel,
    event: TurnEventModel,
    message: Seq<char>,
)
    requires
        state.phase == Phase::Streaming,
        own_event(state, event),
        event.msg == (TurnMsgModel::AgentMessage { message }),
    ensures
        ({
            let step = turn_step(state, LoopInputModel::Event(event));
            &&& step.0 == (TurnLoopModel {
                latest_agent_message: Some(message),
                saw_message_delta: false,
                ..awake(state)
            })
            &&& !state.saw_message_delta && message.len() > 0 ==> only_says(step, 1, message)
            &&& state.saw_message_delta || message.len() == 0 ==> step.1.len() == 0
        }),
{
}

/// Encoded reports are passed on under their kinds, and approvals are given as they are asked for.
pub proof fn law_reports_are_passed_on(
    state: TurnLoopModel,
    event: TurnEventModel,
    json: Seq<char>,
    is_compaction: bool,
    limits: Option<JsonModel>,
    id: Seq<char>,
    turn_id: Seq<char>,
    search: JsonModel,
)
    requires
        state.phase == Phase::Streaming,
        own_event(state, event),
    ensures
        ({
            let step = turn_step(state, LoopInputModel::Event(event));
            &&& event.msg == (TurnMsgModel::ItemStarted { json: Some(json), is_compaction }) ==> {
                &&& step.0 == awake(state)
                &&& says(step.1[0], 12, json)
                &&& !is_compaction ==> step.1.len() == 1
                &&& is_compaction ==> step.1.len() == 2 && says(step.1[1], 14, json)
            }
            &&& event.msg == (TurnMsgModel::ItemCompleted { json: Some(json) }) ==> only_says(
                step,
                13,
                json,
            ) && step.0 == awake(state)
            &&& event.msg == (TurnMsgModel::RawResponseCompleted { json: Some(json) })
                ==> only_says(step, 11, json) && step.0 == awake(state)
            &&& event.msg == (TurnMsgModel::TokenCount { json: Some(json), rate_limits: limits })
                ==> only_says(step, 10, json)
            &&& event.msg is TokenCount ==> step.0 == (TurnLoopModel {
                rate_limits: if event.msg->TokenCount_rate_limits is Some {
                    event.msg->TokenCount_rate_limits
                } else {
                    state.rate_limits
                },
                ..awake(state)
            })
            &&& (event.msg is ItemStarted && event.msg->ItemStarted_json is None) || (
            event.msg is ItemCompleted && event.msg->ItemCompleted_json is None) || (
            event.msg is RawResponseCompleted && event.msg->RawResponseCompleted_json is None) || (
            event.msg is TokenCount && event.msg->TokenCount_json is None) || event.msg is Other
                ==> step.1.len() == 0
            &&& event.msg is Other ==> step.0 == awake(state)
            &&& event.msg == TurnMsgModel::ContextCompacted ==> only_says(step, 9, "{}"@)
                && step.0 == awake(state)
            &&& event.msg == (TurnMsgModel::ExecApprovalRequest { approval_id: id, turn_id })
                ==> step == (awake(state), seq![ActionModel::ApproveExec { id, turn_id }])
            &&& event.msg == (TurnMsgModel::ApplyPatchApprovalRequest { call_id: id }) ==> step == (
                awake(state),
                seq![ActionModel::ApprovePatch { id }],
            )
            &&& event.msg == (TurnMsgModel::WebSearchEnd { search }) ==> step.0 == awake(state)
                && only_says(
                step,
                5,
                json_text(
                    JsonModel::Object(
                        seq![
                            member("args"@, search),
                            member("tool"@, JsonModel::Text("web_search"@)),
                        ],
                    ),
                ),
            )
        }),
{
}

/// A tool call that the host answers pauses the turn, and the host learns of the turn, the call,
/// the tool and the arguments.
pub proof fn law_dynamic_calls_reach_the_host(
    state: TurnLoopModel,
    event: TurnEventModel,
    call_id: Seq<char>,
    tool: Seq<char>,
    namespace: Option<Seq<char>>,
    arguments: JsonModel,
)
    requires
        state.phase == Phase::Streaming,
        own_event(state, event),
        event.msg == (TurnMsgModel::DynamicToolCallRequest { call_id, tool, namespace, arguments }),
    ensures
        ({
            let step = turn_step(state, LoopInputModel::Event(event));
            &&& step.0 == (TurnLoopModel { phase: Phase::AwaitingTool, ..awake(state) })
            &&& only_says(
                step,
                7,
                json_text(
                    JsonModel::Object(
                        seq![
                            member("arguments"@, arguments),
                            member("call_id"@, JsonModel::Text(call_id)),
                            member(
                                "namespace"@,
                                if namespace is Some {
                                    JsonModel::Text(namespace->0)
                                } else {
                                    JsonModel::Null
                                },
                            ),
                            member("tool"@, JsonModel::Text(tool)),
                            member(
                                "turn_handle"@,
                                JsonModel::Number(decimal_text(state.turn_handle as nat)),
                            ),
                        ],
                    ),
                ),
            )
        }),
{
}

proof fn lemma_key_found(keys: Seq<Seq<char>>, key: Seq<char>, i: int)
    requires
        0 <= i <= keys.len(),
    ensures
        match key_position(keys, key, i) {
            Some(k) => i <= k < keys.len() && keys[k] == key && forall|j: int|
                i <= j < k ==> #[trigger] keys[j] != key,
            None => forall|j: int| i <= j < keys.len() ==> #[trigger] keys[j] != key,
        },
    decreases keys.len() - i,
{
    if i < keys.len() && keys[i] != key {
        lemma_key_found(keys, key, i + 1);
    }
}

/// Whether a call is among those that a replayed history still has to report.
pub open spec fn is_replayed(state: TurnLoopModel, key: Seq<char>) -> bool {
    exists|i: int|
        0 <= i < state.replayed_tool_calls.len() && #[trigger] state.replayed_tool_calls[i] == key
}

/// A tool call that a replayed history reports is passed over and struck off the list of those
/// calls. Any other call is told with its name and what it works on.
pub proof fn law_replayed_calls_are_passed_over(
    state: TurnLoopModel,
    event: TurnEventModel,
    item: ResponseItemModel,
)
    requires
        state.phase == Phase::Streaming,
        own_event(state, event),
        event.msg == (TurnMsgModel::RawResponseItem { item }),
    ensures
        ({
            let step = turn_step(state, LoopInputModel::Event(event));
            let function = "function:"@ + item->FunctionCall_call_id;
            let custom = "custom:"@ + item->CustomToolCall_call_id;
            let key = if item is FunctionCall {
                function
            } else {
                custom
            };
            let replayed = (item is FunctionCall && is_replayed(state, function)) || (
            item is CustomToolCall && is_replayed(state, custom));
            &&& replayed ==> {
                &&& step.1.len() == 0
                &&& step.0 == (TurnLoopModel {
                    replayed_tool_calls: step.0.replayed_tool_calls,
                    ..awake(state)
                })
                &&& step.0.replayed_tool_calls.len() + 1 == state.replayed_tool_calls.len()
                &&& exists|i: int|
                    0 <= i < state.replayed_tool_calls.len() && #[trigger]
                    state.replayed_tool_calls[i] == key && step.0.replayed_tool_calls
                        == state.replayed_tool_calls.remove(i)
            }
            &&& !replayed ==> step.0 == awake(state)
            &&& !replayed && item is FunctionCall ==> only_says(
                step,
                5,
                json_text(
                    JsonModel::Object(
                        seq![
                            member(
                                "args"@,
                                if json_document(item->FunctionCall_arguments) is Ok {
                                    json_document(item->FunctionCall_arguments)->Ok_0
                                } else {
                                    JsonModel::Null
                                },
                            ),
                            member("tool"@, JsonModel::Text(item->FunctionCall_name)),
                        ],
                    ),
                ),
            )
            &&& !replayed && item is CustomToolCall ==> only_says(
                step,
                5,
                json_text(
                    JsonModel::Object(
                        seq![
                            member(
                                "args"@,
                                JsonModel::Object(
                                    seq![
                                        member(
                                            "path"@,
                                            JsonModel::Text(
                                                patch_target(item->CustomToolCall_input),
                                            ),
                                        ),
                                    ],
                                ),
                            ),
                            member("tool"@, JsonModel::Text(item->CustomToolCall_name)),
                        ],
                    ),
                ),
            )
            &&& item is ToolSearchCall ==> only_says(
                step,
                15,
                json_text(
                    JsonModel::Object(
                        seq![
                            member("contract_version"@, JsonModel::Number(decimal_text(1))),
                            member("event"@, JsonModel::Text("search_requested"@)),
                        ],
                    ),
                ),
            )
            &&& item is ToolSearchOutput ==> only_says(
                step,
                15,
                json_text(
                    JsonModel::Object(
                        seq![
                            member("contract_version"@, JsonModel::Number(decimal_text(1))),
                            member("event"@, JsonModel::Text("search_loaded"@)),
                        ],
                    ),
                ),
            )
            &&& !(item is FunctionCall) && !(item is CustomToolCall) && !(item is ToolSearchCall)
                && !(item is ToolSearchOutput) ==> step.1.len() == 0
        }),
{
    let keys = state.replayed_tool_calls;
    lemma_key_found(keys, "function:"@ + item->FunctionCall_call_id, 0);
    lemma_key_found(keys, "custom:"@ + item->CustomToolCall_call_id, 0);
    let step = turn_step(state, LoopInputModel::Event(event));
    assert(step == on_message_of_turn(awake(state), event.msg));
    assert(awake(state).replayed_tool_calls == keys);
    if item is FunctionCall {
        let key = "function:"@ + item->FunctionCall_call_id;
        if is_replayed(state, key) {
            let i = choose|i: int| 0 <= i < keys.len() && #[trigger] keys[i] == key;
            assert(keys[i] == key);
            let k = key_position(keys, key, 0)->0;
            assert(keys[k] == key && step.0.replayed_tool_calls == keys.remove(k));
        }
    } else if item is CustomToolCall {
        let key = "custom:"@ + item->CustomToolCall_call_id;
        if is_replayed(state, key) {
            let i = choose|i: int| 0 <= i < keys.len() && #[trigger] keys[i] == key;
            assert(keys[i] == key);
            let k = key_position(keys, key, 0)->0;
            assert(keys[k] == key && step.0.replayed_tool_calls == keys.remove(k));
        }
    }
}

/// What stands behind one of the markers that name a file, at the beginning of a line.
pub open spec fn names_file(line: Seq<char>, marker: Seq<char>, file: Seq<char>) -> bool {
    &&& marker == "*** Update File: "@ || marker == "*** Add File: "@ || marker
        == "*** Delete File: "@
    &&& trim_text(line).len() >= marker.len()
    &&& trim_text(line).take(marker.len() as int) == marker
    &&& file == trim_text(trim_text(line).skip(marker.len() as int))
}

proof fn lemma_first_target(lines: Seq<Seq<char>>, i: int, k: int)
    requires
        0 <= i <= k <= lines.len(),
        forall|j: int| i <= j < k ==> (#[trigger] line_target(lines[j])) is None,
    ensures
        first_target(lines, i) == first_target(lines, k),
    decreases k - i,
{
    if i < k {
        assert(line_target(lines[i]) is None);
        lemma_first_target(lines, i + 1, k);
    }
}

proof fn lemma_markers()
    ensures
        "*** Update File: "@.len() > 5 && "*** Update File: "@[4] == 'U',
        "*** Add File: "@.len() > 5 && "*** Add File: "@[4] == 'A',
        "*** Delete File: "@.len() > 5 && "*** Delete File: "@[4] == 'D',
{
    reveal_strlit("*** Update File: ");
    reveal_strlit("*** Add File: ");
    reveal_strlit("*** Delete File: ");
}

proof fn lemma_line_target(line: Seq<char>, marker: Seq<char>, file: Seq<char>)
    ensures
        names_file(line, marker, file) ==> line_target(line) == Some(file),
        line_target(line) is Some ==> exists|m: Seq<char>|
            #[trigger] names_file(line, m, line_target(line)->0),
{
    lemma_markers();
    let t = trim_text(line);
    let update = "*** Update File: "@;
    let add_file = "*** Add File: "@;
    let delete = "*** Delete File: "@;
    assert forall|m: Seq<char>| #[trigger] m.is_prefix_of(t) <==> (t.len() >= m.len() && t.take(
        m.len() as int,
    ) == m) by {
        if m.is_prefix_of(t) {
            assert(t.take(m.len() as int) =~= m);
        }
        if t.len() >= m.len() && t.take(m.len() as int) == m {
            assert forall|j: int| 0 <= j < m.len() implies m[j] == t[j] by {
                assert(t.take(m.len() as int)[j] == t[j]);
            }
            assert(m =~= t.subrange(0, m.len() as int));
        }
    }
    assert(update.is_prefix_of(t) ==> t[4] == 'U') by {
        if update.is_prefix_of(t) {
            assert(t.take(update.len() as int)[4] == t[4]);
        }
    }
    assert(add_file.is_prefix_of(t) ==> t[4] == 'A') by {
        if add_file.is_prefix_of(t) {
            assert(t.take(add_file.len() as int)[4] == t[4]);
        }
    }
    assert(delete.is_prefix_of(t) ==> t[4] == 'D') by {
        if delete.is_prefix_of(t) {
            assert(t.take(delete.len() as int)[4] == t[4]);
        }
    }
    if names_file(line, marker, file) {
        assert(marker.is_prefix_of(t));
    }
    if line_target(line) is Some {
        let found = line_target(line)->0;
        if update.is_prefix_of(t) {
            assert(names_file(line, update, found));
        } else if add_file.is_prefix_of(t) {
            assert(names_file(line, add_file, found));
        } else {
            assert(names_file(line, delete, found));
        }
    }
}

/// The file of a patch is the one that its first line with a marker names, and there is none where
/// no line has a marker.
pub proof fn law_first_named_file_is_the_target(
    input: Seq<char>,
    i: int,
    marker: Seq<char>,
    file: Seq<char>,
)
    ensures
        0 <= i < pieces(input, '\n').len() && names_file(pieces(input, '\n')[i], marker, file) && (
        forall|j: int, m: Seq<char>, f: Seq<char>|
            0 <= j < i ==> !#[trigger] names_file(pieces(input, '\n')[j], m, f)) ==> patch_target(
            input,
        ) == file,
        (forall|j: int, m: Seq<char>, f: Seq<char>|
            0 <= j < pieces(input, '\n').len() ==> !#[trigger] names_file(
                pieces(input, '\n')[j],
                m,
                f,
            )) ==> patch_target(input).len() == 0,
{
    let lines = pieces(input, '\n');
    if 0 <= i < lines.len() && names_file(lines[i], marker, file) && (forall|
        j: int,
        m: Seq<char>,
        f: Seq<char>,
    |
        0 <= j < i ==> !#[trigger] names_file(lines[j], m, f)) {
        assert forall|j: int| 0 <= j < i implies (#[trigger] line_target(lines[j])) is None by {
            lemma_line_target(lines[j], marker, file);
        }
        lemma_first_target(lines, 0, i);
        lemma_line_target(lines[i], marker, file);
    }
    if forall|j: int, m: Seq<char>, f: Seq<char>|
        0 <= j < lines.len() ==> !#[trigger] names_file(lines[j], m, f) {
        assert forall|j: int| 0 <= j < lines.len() implies (
        #[trigger] line_target(lines[j])) is None by {
            lemma_line_target(lines[j], marker, file);
        }
        lemma_first_target(lines, 0, lines.len() as int);
    }
}

// ---------------------------------------------------------------------------------------------
// Ending

/// The first error of a turn is told with what is known of it and starts the wait for the turn's
/// end; a later one changes nothing.
pub proof fn law_first_error_is_told(
    state: TurnLoopModel,
    event: TurnEventModel,
    error: ErrorEventModel,
)
    requires
        state.phase == Phase::Streaming,
        own_event(state, event),
        event.msg == (TurnMsgModel::Error { error }),
    ensures
        ({
            let step = turn_step(state, LoopInputModel::Event(event));
            &&& state.protected_error_emitted ==> step == (
                awake(state),
                Seq::<ActionModel>::empty(),
            )
            &&& !state.protected_error_emitted ==> only_says(
                step,
                18,
                json_text(error_json(error, state.rate_limits)),
            ) && step.0 == (TurnLoopModel {
                protected_error_emitted: true,
                draining: true,
                ..awake(state)
            })
        }),
{
}

/// A turn that completes without a failure ends with its latest message as the history. After a
/// failure, an error or an interrupt there is no history, and a failure that was not told is told
/// without its reason.
pub proof fn law_completion(state: TurnLoopModel, event: TurnEventModel, failed: bool)
    requires
        state.phase == Phase::Streaming,
        own_event(state, event),
        event.msg is TurnComplete,
        event.msg->TurnComplete_failed == failed,
    ensures
        ({
            let step = turn_step(state, LoopInputModel::Event(event));
            let clean = !failed && !state.interrupting && !state.protected_error_emitted;
            let last = step.1[step.1.len() - 1];
            &&& step.0 == (TurnLoopModel {
                phase: Phase::Finished,
                completed: state.completed || clean,
                protected_error_emitted: state.protected_error_emitted || failed,
                ..awake(state)
            })
            &&& step.1.len() > 0
            &&& last == (ActionModel::Finish { problem: None })
            &&& clean && state.latest_agent_message is None ==> step.1.len() == 1
            &&& clean && state.latest_agent_message is Some ==> step.1.len() == 2 && says(
                step.1[0],
                4,
                json_text(history_json(state.latest_agent_message->0)),
            )
            &&& failed && !state.protected_error_emitted ==> step.1.len() == 2 && says(
                step.1[0],
                18,
                json_text(
                    error_json(
                        ErrorEventModel {
                            message: "A protected turn failed."@,
                            codex_error_info: None,
                        },
                        state.rate_limits,
                    ),
                ),
            )
            &&& !clean && !(failed && !state.protected_error_emitted) ==> step.1.len() == 1
        }),
{
}

/// An aborted turn is told as aborted and ends.
pub proof fn law_aborts(state: TurnLoopModel, event: TurnEventModel)
    requires
        state.phase == Phase::Streaming,
        own_event(state, event),
        event.msg is TurnAborted,
    ensures
        ({
            let step = turn_step(state, LoopInputModel::Event(event));
            &&& step.0 == (TurnLoopModel { phase: Phase::Finished, ..awake(state) })
            &&& step.1.len() == 2
            &&& says(step.1[0], 16, Seq::empty())
            &&& step.1[1] == (ActionModel::Finish { problem: None })
        }),
{
}

/// The history holds the message alone, as output of the assistant.
pub proof fn law_history_holds_the_message(message: Seq<char>)
    ensures
        ({
            let items = history_json(message)->Array_0;
            let item = items[0]->Object_0;
            let parts = item[0].value->Array_0;
            let part = parts[0]->Object_0;
            &&& history_json(message) is Array
            &&& items.len() == 1
            &&& items[0] is Object
            &&& item.len() == 3
            &&& item[0].key == "content"@
            &&& item[0].value is Array
            &&& item[1] == member("role"@, JsonModel::Text("assistant"@))
            &&& item[2] == member("type"@, JsonModel::Text("message"@))
            &&& parts.len() == 1
            &&& parts[0] is Object
            &&& part.len() == 2
            &&& part[0] == member("text"@, JsonModel::Text(message))
            &&& part[1] == member("type"@, JsonModel::Text("output_text"@))
        }),
{
}

/// What a phase does not wait for changes nothing and does nothing.
pub proof fn law_unexpected_inputs_do_nothing(state: TurnLoopModel, input: LoopInputModel)
    requires
        input is PromptSubmitted ==> state.phase != Phase::Prompting,
        input is Activated || input is ActivationFailed ==> state.phase != Phase::Activating
            && state.phase != Phase::ActivatingAfterTimeout,
        input is CancelSubmitted ==> state.phase != Phase::Cancelling,
        input is Event || input is StreamFailed ==> state.phase != Phase::Streaming && state.phase
            != Phase::AwaitingTool,
        input is TimedOut ==> state.phase != Phase::Streaming,
        input is ReplyReceived || input is ReplyChannelClosed ==> state.phase
            != Phase::AwaitingTool,
        input is ReplySubmitted ==> state.phase != Phase::SubmittingReply && state.phase
            != Phase::SubmittingImageReply,
        input is InterruptRequested ==> state.phase != Phase::Interrupting,
    ensures
        turn_step(state, input) == (state, Seq::<ActionModel>::empty()),
{
}

} // verus!
