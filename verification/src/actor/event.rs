//! The events the runtime speaks: what its bus carries, and which of them a
//! conversation's actor handles.

use vstd::prelude::*;

use crate::agency::Wakeup;
use crate::block::{ApprovalChoice, Awaiting};

verus! {

/// Why a model stopped.
#[derive(Debug, Clone, Copy, PartialEq, Eq, Structural)]
pub enum StopReason {
    /// It had said what it had to say.
    EndTurn,
    /// It asked for tools.
    ToolUse,
    /// It ran out of tokens.
    MaxTokens,
}

/// A block as a user hands it in.
#[derive(Debug, Clone)]
pub enum InputBlock {
    Text { content: String },
    Quote { text: String },
    Code { language: Option<String>, content: String },
}

/// One event of the runtime.
#[derive(Debug, Clone)]
pub enum CoreEvent {
    /// A draft became a conversation.
    DraftPromoted { conversation_id: i64 },
    /// A user's blocks are to be appended.
    BlocksAppended { conversation_id: i64, blocks: Vec<InputBlock> },
    /// A tool call arrived out of band.
    ToolCallReceived { conversation_id: i64, tool_call_id: String, name: String, input: String },
    /// A human answered an approval request.
    ApprovalSubmitted {
        conversation_id: i64,
        request_block_id: i64,
        decision: ApprovalChoice,
        system_reason: Option<String>,
        user_reason: Option<String>,
    },
    /// The user wants the turn stopped.
    InterruptRequested { conversation_id: i64 },
    /// The user wants a latched conversation to go on.
    UnlatchRequested { conversation_id: i64 },
    /// The user wants every latched conversation to go on.
    UnlatchAll,
    /// The model's message ended.
    StreamDone {
        conversation_id: i64,
        stop_reason: Option<StopReason>,
        generation: Option<u64>,
    },
    /// A stream failed.
    StreamError { conversation_id: i64, error: String, generation: Option<u64> },
    /// A stream is over, with all it wrote.
    StreamClosed { conversation_id: i64, generation: Option<u64> },
    /// A block of a conversation changed.
    BlocksChanged { conversation_id: i64, block_id: i64 },
    /// What a conversation is doing.
    ConversationState {
        conversation_id: i64,
        latched: bool,
        work_due: bool,
        awaiting: Option<Awaiting>,
    },
    /// The list of conversations changed.
    ConversationsChanged,
    /// A tool call waits to be executed.
    ToolCallReady { conversation_id: i64, call_block_id: i64 },
    /// A title request waits to be fulfilled.
    MetadataRequestReady { conversation_id: i64, request_id: i64 },
}

impl CoreEvent {
    /// The conversation an event is about.
    pub open spec fn about(self) -> Option<i64> {
        match self {
            CoreEvent::DraftPromoted { conversation_id } => Some(conversation_id),
            CoreEvent::BlocksAppended { conversation_id, .. } => Some(conversation_id),
            CoreEvent::ToolCallReceived { conversation_id, .. } => Some(conversation_id),
            CoreEvent::ApprovalSubmitted { conversation_id, .. } => Some(conversation_id),
            CoreEvent::InterruptRequested { conversation_id } => Some(conversation_id),
            CoreEvent::UnlatchRequested { conversation_id } => Some(conversation_id),
            CoreEvent::UnlatchAll => None,
            CoreEvent::StreamDone { conversation_id, .. } => Some(conversation_id),
            CoreEvent::StreamError { conversation_id, .. } => Some(conversation_id),
            CoreEvent::StreamClosed { conversation_id, .. } => Some(conversation_id),
            CoreEvent::BlocksChanged { conversation_id, .. } => Some(conversation_id),
            CoreEvent::ConversationState { conversation_id, .. } => Some(conversation_id),
            CoreEvent::ConversationsChanged => None,
            CoreEvent::ToolCallReady { conversation_id, .. } => Some(conversation_id),
            CoreEvent::MetadataRequestReady { conversation_id, .. } => Some(conversation_id),
        }
    }

    /// The conversation the event is about; `None` for an event that is about
    /// all of them.
    pub fn conversation_id(&self) -> (id: Option<i64>)
        ensures
            id == self.about(),
    {
        match self {
            CoreEvent::DraftPromoted { conversation_id } => Some(*conversation_id),
            CoreEvent::BlocksAppended { conversation_id, .. } => Some(*conversation_id),
            CoreEvent::ToolCallReceived { conversation_id, .. } => Some(*conversation_id),
            CoreEvent::ApprovalSubmitted { conversation_id, .. } => Some(*conversation_id),
            CoreEvent::InterruptRequested { conversation_id } => Some(*conversation_id),
            CoreEvent::UnlatchRequested { conversation_id } => Some(*conversation_id),
            CoreEvent::UnlatchAll => None,
            CoreEvent::StreamDone { conversation_id, .. } => Some(*conversation_id),
            CoreEvent::StreamError { conversation_id, .. } => Some(*conversation_id),
            CoreEvent::StreamClosed { conversation_id, .. } => Some(*conversation_id),
            CoreEvent::BlocksChanged { conversation_id, .. } => Some(*conversation_id),
            CoreEvent::ConversationState { conversation_id, .. } => Some(*conversation_id),
            CoreEvent::ConversationsChanged => None,
            CoreEvent::ToolCallReady { conversation_id, .. } => Some(*conversation_id),
            CoreEvent::MetadataRequestReady { conversation_id, .. } => Some(*conversation_id),
        }
    }

    /// Whether a conversation's actor handles an event.
    pub open spec fn for_the_actor(self) -> bool {
        ||| self is DraftPromoted
        ||| self is BlocksAppended
        ||| self is ToolCallReceived
        ||| self is ApprovalSubmitted
        ||| self is InterruptRequested
        ||| self is UnlatchRequested
        ||| self is UnlatchAll
        ||| self is StreamDone
        ||| self is StreamError
        ||| self is StreamClosed
    }

    /// Whether a conversation's actor handles the event.
    pub fn accepts(&self) -> (handled: bool)
        ensures
            handled == self.for_the_actor(),
    {
        match self {
            CoreEvent::DraftPromoted { .. } => true,
            CoreEvent::BlocksAppended { .. } => true,
            CoreEvent::ToolCallReceived { .. } => true,
            CoreEvent::ApprovalSubmitted { .. } => true,
            CoreEvent::InterruptRequested { .. } => true,
            CoreEvent::UnlatchRequested { .. } => true,
            CoreEvent::UnlatchAll => true,
            CoreEvent::StreamDone { .. } => true,
            CoreEvent::StreamError { .. } => true,
            CoreEvent::StreamClosed { .. } => true,
            _ => false,
        }
    }

    /// The event a wakeup of a conversation's block is.
    pub open spec fn emitted(conversation_id: i64, wakeup: Wakeup) -> CoreEvent {
        match wakeup {
            Wakeup::ToolCallReady { call_block_id } => CoreEvent::ToolCallReady {
                conversation_id,
                call_block_id,
            },
            Wakeup::MetadataRequestReady { request_id } => CoreEvent::MetadataRequestReady {
                conversation_id,
                request_id,
            },
        }
    }

    /// The call a conversation's executor runs on an event.
    pub open spec fn executed(self, conversation: i64) -> Option<i64> {
        match self {
            CoreEvent::ToolCallReady { conversation_id, call_block_id } => if conversation_id
                == conversation {
                Some(call_block_id)
            } else {
                None
            },
            _ => None,
        }
    }

    /// The event a block's wakeup is emitted as.
    pub fn wakeup(conversation_id: i64, wakeup: Wakeup) -> (event: CoreEvent)
        ensures
            event == (match wakeup {
                Wakeup::ToolCallReady { call_block_id } => CoreEvent::ToolCallReady {
                    conversation_id,
                    call_block_id,
                },
                Wakeup::MetadataRequestReady { request_id } => CoreEvent::MetadataRequestReady {
                    conversation_id,
                    request_id,
                },
            }),
            event == CoreEvent::emitted(conversation_id, wakeup),
    {
        match wakeup {
            Wakeup::ToolCallReady { call_block_id } => CoreEvent::ToolCallReady {
                conversation_id,
                call_block_id,
            },
            Wakeup::MetadataRequestReady { request_id } => CoreEvent::MetadataRequestReady {
                conversation_id,
                request_id,
            },
        }
    }

    /// The call a conversation's executor runs on this event: the one a wakeup
    /// of its own conversation names.
    pub fn call_to_execute(&self, conversation: i64) -> (call: Option<i64>)
        ensures
            call == (match *self {
                CoreEvent::ToolCallReady { conversation_id, call_block_id } => if conversation_id
                    == conversation {
                    Some(call_block_id)
                } else {
                    None
                },
                _ => None,
            }),
            call == self.executed(conversation),
    {
        match self {
            CoreEvent::ToolCallReady { conversation_id, call_block_id } => if *conversation_id
                == conversation {
                Some(*call_block_id)
            } else {
                None
            },
            _ => None,
        }
    }
}

/// A call that wakes is executed in its own conversation and in no other, and a
/// title request that wakes executes none. What wakes is about its conversation
/// and no actor's to handle; and only a wakeup of a call executes anything.
pub proof fn a_call_is_executed_in_its_own_conversation(
    home: i64,
    wakeup: Wakeup,
    conversation: i64,
    event: CoreEvent,
)
    ensures
        CoreEvent::emitted(home, wakeup).about() == Some(home),
        !CoreEvent::emitted(home, wakeup).for_the_actor(),
        CoreEvent::emitted(home, wakeup).executed(conversation) is Some <==> conversation == home
            && wakeup is ToolCallReady,
        wakeup matches Wakeup::ToolCallReady { call_block_id } ==> CoreEvent::emitted(
            home,
            wakeup,
        ).executed(home) == Some(call_block_id),
        wakeup matches Wakeup::MetadataRequestReady { request_id } ==> CoreEvent::emitted(
            home,
            wakeup,
        ) == (CoreEvent::MetadataRequestReady { conversation_id: home, request_id }),
        event.executed(conversation) matches Some(call) ==> event == CoreEvent::emitted(
            conversation,
            Wakeup::ToolCallReady { call_block_id: call },
        ),
{
}

/// An event is about the conversation it names, whichever event it is, and
/// only an event that names none is about all of them.
pub proof fn an_event_is_about_the_conversation_it_names(event: CoreEvent)
    ensures
        event.about() is None <==> event is UnlatchAll || event is ConversationsChanged,
        event matches CoreEvent::DraftPromoted { conversation_id, .. } ==> event.about() == Some(
            conversation_id,
        ),
        event matches CoreEvent::BlocksAppended { conversation_id, .. } ==> event.about() == Some(
            conversation_id,
        ),
        event matches CoreEvent::ToolCallReceived { conversation_id, .. } ==> event.about() == Some(
            conversation_id,
        ),
        event matches CoreEvent::ApprovalSubmitted { conversation_id, .. } ==> event.about() == Some(
            conversation_id,
        ),
        event matches CoreEvent::InterruptRequested { conversation_id, .. } ==> event.about() == Some(
            conversation_id,
        ),
        event matches CoreEvent::UnlatchRequested { conversation_id, .. } ==> event.about() == Some(
            conversation_id,
        ),
        event matches CoreEvent::StreamDone { conversation_id, .. } ==> event.about() == Some(
            conversation_id,
        ),
        event matches CoreEvent::StreamError { conversation_id, .. } ==> event.about() == Some(
            conversation_id,
        ),
        event matches CoreEvent::StreamClosed { conversation_id, .. } ==> event.about() == Some(
            conversation_id,
        ),
        event matches CoreEvent::BlocksChanged { conversation_id, .. } ==> event.about() == Some(
            conversation_id,
        ),
        event matches CoreEvent::ConversationState { conversation_id, .. } ==> event.about() == Some(
            conversation_id,
        ),
        event matches CoreEvent::ToolCallReady { conversation_id, .. } ==> event.about() == Some(
            conversation_id,
        ),
        event matches CoreEvent::MetadataRequestReady { conversation_id, .. } ==> event.about() == Some(
            conversation_id,
        ),
{
}

} // verus!
