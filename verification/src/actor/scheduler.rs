//! The scheduler's tick: what one look at a conversation tells its actor, and
//! what is published of it.

use vstd::prelude::*;

use super::event::CoreEvent;
use crate::agency::ratchet::Outcome;

verus! {

/// What a scheduler tells its actor.
#[derive(Debug, Clone, Copy, PartialEq, Eq, Structural)]
pub enum SchedulerSignal {
    /// The frontier owes a turn.
    OwesTurn,
    /// The conversation is no more: its actor ends.
    ConversationGone,
}

/// What a drive over a conversation found.
#[derive(Debug, Clone, Copy, PartialEq, Eq, Structural)]
pub enum Driven {
    Ran { outcome: Outcome },
    ConversationGone,
}

/// What a tick read. A latched conversation is not driven; whether it is still
/// there is read all the same. `None` is a reading that failed.
#[derive(Debug, Clone, Copy, PartialEq, Eq, Structural)]
pub enum Reading {
    Latched { gone: Option<bool> },
    Driven { driven: Option<Driven> },
}

/// What a tick comes to.
#[derive(Debug, Clone, Copy, PartialEq, Eq, Structural)]
pub struct Tick {
    /// What the actor is told.
    pub signal: Option<SchedulerSignal>,
    /// Whether deferred work is walked.
    pub walk: bool,
    /// The drive's outcome, where one is to be published.
    pub outcome: Option<Outcome>,
}

/// What a reading comes to.
pub open spec fn tick(reading: Reading) -> Tick {
    match reading {
        Reading::Latched { gone } => Tick {
            signal: if gone == Some(true) {
                Some(SchedulerSignal::ConversationGone)
            } else {
                None
            },
            walk: false,
            outcome: None,
        },
        Reading::Driven { driven } => match driven {
            Some(Driven::Ran { outcome }) => Tick {
                signal: if outcome.owes_turn {
                    Some(SchedulerSignal::OwesTurn)
                } else {
                    None
                },
                walk: true,
                outcome: Some(outcome),
            },
            Some(Driven::ConversationGone) => Tick {
                signal: Some(SchedulerSignal::ConversationGone),
                walk: false,
                outcome: None,
            },
            None => Tick { signal: None, walk: true, outcome: None },
        },
    }
}

/// Take what a tick read. A drive that failed tells the actor nothing, and
/// deferred work goes on all the same.
pub fn scheduler_tick(reading: Reading) -> (result: Tick)
    ensures
        result == tick(reading),
{
    match reading {
        Reading::Latched { gone } => {
            let signal = if gone == Some(true) {
                Some(SchedulerSignal::ConversationGone)
            } else {
                None
            };
            Tick { signal, walk: false, outcome: None }
        },
        Reading::Driven { driven } => match driven {
            Some(Driven::Ran { outcome }) => {
                let signal = if outcome.owes_turn {
                    Some(SchedulerSignal::OwesTurn)
                } else {
                    None
                };
                Tick { signal, walk: true, outcome: Some(outcome) }
            },
            Some(Driven::ConversationGone) => Tick {
                signal: Some(SchedulerSignal::ConversationGone),
                walk: false,
                outcome: None,
            },
            None => Tick { signal: None, walk: true, outcome: None },
        },
    }
}

/// Whether work of the runtime's own is due, given what a drive came to.
pub open spec fn work_is_due(outcome: Option<Outcome>) -> bool {
    match outcome {
        Some(last) => last.owes_turn || last.parked,
        None => false,
    }
}

/// What is published of a conversation: whether it is latched, whether work of
/// the runtime's own is due, and what its frontier waits for.
pub fn conversation_state(conversation_id: i64, latched: bool, outcome: Option<Outcome>) -> (event:
    CoreEvent)
    ensures
        event == (CoreEvent::ConversationState {
            conversation_id,
            latched,
            work_due: match outcome {
                Some(last) => last.owes_turn || last.parked,
                None => false,
            },
            awaiting: match outcome {
                Some(last) => last.awaiting,
                None => None,
            },
        }),
        event matches CoreEvent::ConversationState { work_due, .. } && work_due == work_is_due(
            outcome,
        ),
{
    match outcome {
        Some(last) => CoreEvent::ConversationState {
            conversation_id,
            latched,
            work_due: last.owes_turn || last.parked,
            awaiting: last.awaiting,
        },
        None => CoreEvent::ConversationState {
            conversation_id,
            latched,
            work_due: false,
            awaiting: None,
        },
    }
}

/// A latched conversation is never driven: its tick owes no turn, walks no
/// deferred work and publishes no outcome.
pub proof fn a_latched_tick_drives_nothing(gone: Option<bool>)
    ensures
        tick(Reading::Latched { gone }).signal != Some(SchedulerSignal::OwesTurn),
        !tick(Reading::Latched { gone }).walk,
        tick(Reading::Latched { gone }).outcome is None,
{
}

/// An actor is told of an owed turn exactly where a drive went through and
/// found one.
pub proof fn a_turn_is_signalled_where_a_drive_owes_one(reading: Reading)
    ensures
        tick(reading).signal == Some(SchedulerSignal::OwesTurn) <==> (reading matches
            Reading::Driven { driven: Some(Driven::Ran { outcome }) } && outcome.owes_turn),
{
}

/// Work is due exactly where a drive went through with a turn owed, or stopped
/// at work that is not done; before any drive none is.
pub proof fn work_is_due_where_a_drive_left_some(outcome: Outcome)
    ensures
        !work_is_due(None),
        outcome.parked ==> work_is_due(Some(outcome)),
        outcome.owes_turn ==> work_is_due(Some(outcome)),
        !outcome.parked && !outcome.owes_turn ==> !work_is_due(Some(outcome)),
{
}

/// A tick ends the actor exactly where its reading found the conversation
/// gone; it walks deferred work exactly where the conversation is not latched
/// and not known to be gone; and it publishes the outcome of the drive that
/// went through, and no other.
pub proof fn a_tick_comes_to_what_was_read(reading: Reading)
    ensures
        tick(reading).signal == Some(SchedulerSignal::ConversationGone) <==> reading == (
        Reading::Latched { gone: Some(true) }) || reading == (Reading::Driven {
            driven: Some(Driven::ConversationGone),
        }),
        tick(reading).walk <==> reading is Driven && reading != (Reading::Driven {
            driven: Some(Driven::ConversationGone),
        }),
        forall|outcome: Outcome| #[trigger]
            tick(reading).outcome == Some(outcome) <==> reading == (Reading::Driven {
                driven: Some(Driven::Ran { outcome }),
            }),
{
}

/// A conversation that is gone ends its actor, latched or not.
pub proof fn a_gone_conversation_ends_its_actor()
    ensures
        tick(Reading::Latched { gone: Some(true) }).signal == Some(
            SchedulerSignal::ConversationGone,
        ),
        tick(Reading::Driven { driven: Some(Driven::ConversationGone) }).signal == Some(
            SchedulerSignal::ConversationGone,
        ),
{
}

} // verus!
