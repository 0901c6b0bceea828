//! A conversation's actor: the state between a dispatch and its close, and
//! what every event does to it.

use vstd::prelude::*;

use super::event::{CoreEvent, StopReason};
use crate::agency;
use crate::agency::model::Kind;
use crate::agency::ratchet;
use crate::agency::records;
use crate::agency::tool_call;
use crate::agency::tool_choice;
use crate::agency::{Agency, FromBlock, RuntimeKind, ToolCall, ToolChoice};
use crate::block;
use crate::block::Block;

verus! {

/// How a dispatch comes to its end.
#[derive(Debug, Clone, Copy, PartialEq, Eq, Structural)]
pub enum CloseEdge {
    /// The stream is over.
    Closed,
    /// The stream failed.
    Errored,
    /// An interrupt tore it down.
    Teardown,
}

impl CloseEdge {
    /// The status under which a turn's end is stored.
    pub open spec fn end_key(self) -> Option<Seq<char>> {
        match self {
            CloseEdge::Closed => Some(records::TURN_ENDED_CLOSED@),
            CloseEdge::Errored => Some(records::TURN_ENDED_ERRORED@),
            CloseEdge::Teardown => None,
        }
    }

    /// The status under which a turn's end is stored; an interrupt leaves a
    /// status of its own.
    pub fn turn_end_key(self) -> (key: Option<&'static str>)
        ensures
            block::str_view(key) == self.end_key(),
    {
        match self {
            CloseEdge::Closed => Some(records::TURN_ENDED_CLOSED),
            CloseEdge::Errored => Some(records::TURN_ENDED_ERRORED),
            CloseEdge::Teardown => None,
        }
    }
}

/// What an event is to the actor.
#[derive(Debug, Clone, Copy, PartialEq, Eq, Structural)]
pub enum Handling {
    PromoteDraft,
    AppendBlocks,
    RecordCall,
    SubmitApproval,
    Interrupt,
    Unlatch,
    /// Keep the reason the model stopped for.
    NoteStop { reason: Option<StopReason> },
    Close { edge: CloseEdge },
    /// Not the actor's, or from a stream that was torn down.
    Ignore,
}

/// A close that has begun.
#[derive(Debug, Clone, Copy, PartialEq, Eq, Structural)]
pub struct Closing {
    pub edge: CloseEdge,
    /// Whether the model stopped to use tools, so that the turn may go on.
    pub continuation_stop: bool,
    /// The turn whose identity has to be settled, where one is held.
    pub turn: Option<i64>,
}

/// A turn's end that has to be stored, as a status of the turn.
#[derive(Debug, Clone, Copy)]
pub struct TurnEnd {
    pub anchor: i64,
    pub status: &'static str,
}

/// What a close leaves to be done.
#[derive(Debug, Clone, Copy)]
pub struct Close {
    /// The turn's end to be stored, before anything else is looked at.
    pub end: Option<TurnEnd>,
    /// Whether the scheduler has to look again.
    pub recheck: bool,
}

/// What an interrupt leaves to be done.
#[derive(Debug, Clone, Copy, PartialEq, Eq, Structural)]
pub struct Interrupt {
    /// The turn its status belongs to, where a turn was open.
    pub anchor: Option<i64>,
    /// Whether a provider is bound that has to be told.
    pub tell_provider: bool,
    /// Whether the scheduler has to look again.
    pub recheck: bool,
}

/// Whether an owed turn can be looked at.
#[derive(Debug, Clone, Copy, PartialEq, Eq, Structural)]
pub enum Readiness {
    /// The conversation is latched: stand down.
    Latched,
    /// A stream is live: its close looks again.
    Deferred,
    /// Read the ledger and decide.
    Ready,
}

/// What the ledger says of an owed turn.
#[derive(Debug, Clone, Copy, PartialEq, Eq, Structural)]
pub enum Delivery {
    /// There is no row.
    Empty,
    /// The frontier owes no turn.
    NotOwed,
    /// The ledger does not open with its head: the turn is refused.
    Headless,
    /// A run of refused calls ends the turn.
    Exhausted { anchor: i64 },
    /// Dispatch, as the turn `anchor`.
    Dispatch { anchor: i64 },
}

/// What is said of a ledger that does not open with its head.
pub const HEADLESS_LEDGER: &'static str =
    "the ledger does not open with a system prompt, so no turn is dispatched for it";

/// A conversation's actor.
#[derive(Debug, Clone, Copy, PartialEq, Eq, Structural)]
pub struct ConversationActor {
    /// The conversation.
    pub id: i64,
    /// Whether the conversation is held: nothing drives it and nothing is
    /// dispatched.
    pub latched: bool,
    /// Whether a provider channel is held.
    pub bound: bool,
    /// Whether a stream is live.
    pub streaming: bool,
    /// Whether a turn fell due while a stream was live.
    pub owed_turn_deferred: bool,
    /// Which binding the live stream belongs to.
    pub stream_generation: u64,
    /// The turn the live stream's products are stamped with.
    pub turn_anchor: Option<i64>,
    /// The turn that is open, across its rounds.
    pub open_turn: Option<i64>,
    /// How many of the open turn's outcomes its dispatches have seen.
    pub answered_outcomes: usize,
    /// Why the live stream's message stopped, once it has.
    pub stream_stop: Option<StopReason>,
}

impl ConversationActor {
    /// A live stream has a channel and an open turn, and stamps its products
    /// with that turn; nothing is stamped otherwise. A turn is deferred only
    /// to a live stream's close.
    pub open spec fn wf(self) -> bool {
        &&& self.streaming ==> self.bound && self.open_turn is Some
        &&& self.streaming ==> self.turn_anchor == self.open_turn
        &&& !self.streaming ==> self.turn_anchor is None
        &&& self.owed_turn_deferred ==> self.streaming
    }

    /// Whether a stream signal is from the live binding.
    pub open spec fn owns(self, generation: Option<u64>) -> bool {
        match generation {
            Some(stamp) => stamp == self.stream_generation,
            None => true,
        }
    }

    /// What an event is to the actor.
    pub open spec fn handling(self, event: CoreEvent) -> Handling {
        match event {
            CoreEvent::DraftPromoted { .. } => Handling::PromoteDraft,
            CoreEvent::BlocksAppended { .. } => Handling::AppendBlocks,
            CoreEvent::ToolCallReceived { .. } => Handling::RecordCall,
            CoreEvent::ApprovalSubmitted { .. } => Handling::SubmitApproval,
            CoreEvent::InterruptRequested { .. } => Handling::Interrupt,
            CoreEvent::UnlatchRequested { .. } => Handling::Unlatch,
            CoreEvent::UnlatchAll => Handling::Unlatch,
            CoreEvent::StreamDone { stop_reason, generation, .. } => if self.owns(generation) {
                Handling::NoteStop { reason: stop_reason }
            } else {
                Handling::Ignore
            },
            CoreEvent::StreamError { generation, .. } => if self.owns(generation) {
                Handling::Close { edge: CloseEdge::Errored }
            } else {
                Handling::Ignore
            },
            CoreEvent::StreamClosed { generation, .. } => if self.owns(generation) {
                Handling::Close { edge: CloseEdge::Closed }
            } else {
                Handling::Ignore
            },
            _ => Handling::Ignore,
        }
    }

    /// Whether a turn's continuation is due: an outcome that no dispatch of
    /// the turn has seen, or a call that the system itself will answer.
    pub open spec fn due(self, ledger: Seq<Block>, anchor: i64) -> bool {
        tool_call::asking_outcomes(ledger, anchor) > self.answered_outcomes
            || tool_call::system_owes(ledger, anchor)
    }

    /// The actor once a close has begun.
    pub open spec fn closing(self, abandoned: bool) -> ConversationActor {
        ConversationActor {
            streaming: false,
            bound: self.bound && !abandoned,
            turn_anchor: None,
            stream_stop: None,
            ..self
        }
    }

    /// Whether a close of this stream may leave the turn open.
    pub open spec fn stops_to_continue(self, edge: CloseEdge, abandoned: bool) -> bool {
        edge is Closed && !abandoned && self.stream_stop == Some(StopReason::ToolUse)
    }

    /// Whether a turn stays open past a close. Where the ledger cannot be
    /// read, a stop for tools is taken at its word.
    pub open spec fn keeps(self, closing: Closing, ledger: Option<Seq<Block>>) -> bool {
        closing.continuation_stop && match ledger {
            Some(rows) => self.due(rows, closing.turn->0),
            None => true,
        }
    }

    /// The actor once a close has settled the turn it holds.
    pub open spec fn settled(
        self,
        closing: Closing,
        ledger: Option<Seq<Block>>,
    ) -> ConversationActor {
        if closing.turn is None || self.keeps(closing, ledger) {
            self
        } else {
            ConversationActor { open_turn: None, ..self }
        }
    }

    /// Whether a close stores the end of the turn it settles: the turn does
    /// not stay open, the edge has a status for it, and the turn's newest
    /// outcome is one nobody answered.
    pub open spec fn stores_end(self, closing: Closing, ledger: Option<Seq<Block>>) -> bool {
        &&& closing.turn is Some
        &&& !self.keeps(closing, ledger)
        &&& closing.edge.end_key() is Some
        &&& ledger matches Some(rows) && tool_call::unanswered_turn(rows) == closing.turn
    }

    /// The actor once a close is done with.
    pub open spec fn closed(self, edge: CloseEdge) -> ConversationActor {
        ConversationActor {
            latched: self.latched || edge is Errored,
            owed_turn_deferred: false,
            ..self
        }
    }

    /// A close, as it has begun.
    pub open spec fn begun(self, edge: CloseEdge, abandoned: bool) -> Closing {
        Closing {
            edge,
            continuation_stop: self.stops_to_continue(edge, abandoned),
            turn: self.open_turn,
        }
    }

    /// The actor after a whole close.
    pub open spec fn after_close(
        self,
        edge: CloseEdge,
        abandoned: bool,
        ledger: Option<Seq<Block>>,
    ) -> ConversationActor {
        self.closing(abandoned).settled(self.begun(edge, abandoned), ledger).closed(edge)
    }

    /// The turn an owed turn is dispatched as: the open one while its
    /// continuation is due, else what the ledger says.
    pub open spec fn dispatch_anchor(self, ledger: Seq<Block>, frontier: Block) -> i64 {
        if self.open_turn is Some && self.due(ledger, self.open_turn->0) {
            self.open_turn->0
        } else {
            ratchet::fresh_anchor(ledger, frontier)
        }
    }

    /// What a ledger says of an owed turn, given its frontier.
    pub open spec fn delivery_at<K: RuntimeKind>(
        self,
        ledger: Seq<Block>,
        frontier: Block,
        limit: usize,
    ) -> Delivery {
        let anchor = self.dispatch_anchor(ledger, frontier);
        if !ratchet::owes::<K>(frontier) {
            Delivery::NotOwed
        } else if !K::heads(K::read(ledger[0])) {
            Delivery::Headless
        } else if tool_call::refusal_run(ledger, anchor) >= limit {
            Delivery::Exhausted { anchor }
        } else {
            Delivery::Dispatch { anchor }
        }
    }

    /// The actor once a dispatch has been sent.
    pub open spec fn sent(self, ledger: Seq<Block>, anchor: i64) -> ConversationActor {
        ConversationActor {
            streaming: true,
            stream_stop: None,
            answered_outcomes: tool_call::asking_outcomes(ledger, anchor) as usize,
            open_turn: Some(anchor),
            turn_anchor: Some(anchor),
            ..self
        }
    }

    /// The actor once an interrupt has stopped its turn.
    pub open spec fn interrupted(self) -> ConversationActor {
        ConversationActor {
            latched: true,
            bound: false,
            streaming: false,
            owed_turn_deferred: false,
            turn_anchor: None,
            open_turn: None,
            stream_stop: None,
            ..self
        }
    }

    /// What an interrupt leaves to be done.
    pub open spec fn interruption(self, abandoned: bool) -> Interrupt {
        Interrupt {
            anchor: self.open_turn,
            tell_provider: self.bound && !abandoned,
            recheck: self.owed_turn_deferred,
        }
    }

    /// Whether an owed turn can be looked at.
    pub open spec fn readiness(self) -> Readiness {
        if self.latched {
            Readiness::Latched
        } else if self.streaming {
            Readiness::Deferred
        } else {
            Readiness::Ready
        }
    }

    /// The actor once it has been told of an owed turn.
    pub open spec fn told(self) -> ConversationActor {
        ConversationActor {
            owed_turn_deferred: self.owed_turn_deferred || self.readiness() is Deferred,
            ..self
        }
    }

    /// The actor once it is let go on.
    pub open spec fn unlatched(self) -> ConversationActor {
        ConversationActor { latched: false, ..self }
    }

    /// The actor once its model's message has stopped.
    pub open spec fn stopped(self, reason: Option<StopReason>) -> ConversationActor {
        ConversationActor { stream_stop: reason, ..self }
    }

    /// The actor once a forced end of its turn was tried.
    pub open spec fn ended(self, recorded: bool) -> ConversationActor {
        ConversationActor {
            open_turn: if recorded {
                None
            } else {
                self.open_turn
            },
            ..self
        }
    }

    /// The actor once its channel has been looked at.
    pub open spec fn checked(self, closed: bool) -> ConversationActor {
        ConversationActor { bound: self.bound && !closed, ..self }
    }

    /// The actor once it holds a fresh channel.
    pub open spec fn rebound(self) -> ConversationActor {
        ConversationActor {
            bound: true,
            stream_generation: (self.stream_generation + 1) as u64,
            ..self
        }
    }

    /// An actor at its start: latched, so that a process that comes up drives
    /// nothing until it is told to.
    pub fn new(id: i64) -> (actor: ConversationActor)
        ensures
            actor.wf(),
            actor.id == id,
            actor.latched,
            !actor.bound,
            !actor.streaming,
            actor.stream_generation == 0,
            actor.open_turn is None,
            actor.answered_outcomes == 0,
            actor.stream_stop is None,
    {
        ConversationActor {
            id,
            latched: true,
            bound: false,
            streaming: false,
            owed_turn_deferred: false,
            stream_generation: 0,
            turn_anchor: None,
            open_turn: None,
            answered_outcomes: 0,
            stream_stop: None,
        }
    }

    /// Whether a stream signal is from the live binding. A reader that was
    /// torn down winds down late, and its parting signals must not touch the
    /// turn that came after it.
    pub fn owns_stream_signal(&self, generation: Option<u64>) -> (owned: bool)
        ensures
            owned == self.owns(generation),
    {
        match generation {
            Some(stamp) => stamp == self.stream_generation,
            None => true,
        }
    }

    /// What an event is to the actor.
    pub fn handle(&self, event: &CoreEvent) -> (handling: Handling)
        ensures
            handling == self.handling(*event),
    {
        match event {
            CoreEvent::DraftPromoted { .. } => Handling::PromoteDraft,
            CoreEvent::BlocksAppended { .. } => Handling::AppendBlocks,
            CoreEvent::ToolCallReceived { .. } => Handling::RecordCall,
            CoreEvent::ApprovalSubmitted { .. } => Handling::SubmitApproval,
            CoreEvent::InterruptRequested { .. } => Handling::Interrupt,
            CoreEvent::UnlatchRequested { .. } => Handling::Unlatch,
            CoreEvent::UnlatchAll => Handling::Unlatch,
            CoreEvent::StreamDone { stop_reason, generation, .. } => if self.owns_stream_signal(
                *generation,
            ) {
                Handling::NoteStop { reason: *stop_reason }
            } else {
                Handling::Ignore
            },
            CoreEvent::StreamError { generation, .. } => if self.owns_stream_signal(*generation) {
                Handling::Close { edge: CloseEdge::Errored }
            } else {
                Handling::Ignore
            },
            CoreEvent::StreamClosed { generation, .. } => if self.owns_stream_signal(*generation) {
                Handling::Close { edge: CloseEdge::Closed }
            } else {
                Handling::Ignore
            },
            _ => Handling::Ignore,
        }
    }

    /// Take what promoting the draft came to: a conversation that goes on, or
    /// an error for the bus.
    pub fn handle_draft_promoted(&mut self, promoted: Result<(), String>) -> (event: Option<
        CoreEvent,
    >)
        requires
            old(self).wf(),
        ensures
            final(self).wf(),
            promoted is Ok ==> event is None && *final(self) == (ConversationActor {
                latched: false,
                ..*old(self)
            }),
            promoted is Ok ==> *final(self) == old(self).unlatched(),
            promoted is Err ==> *final(self) == *old(self) && event == Some(
                CoreEvent::StreamError {
                    conversation_id: old(self).id,
                    error: promoted->Err_0,
                    generation: None,
                },
            ),
    {
        match promoted {
            Ok(_) => {
                self.latched = false;
                None
            },
            Err(error) => Some(
                CoreEvent::StreamError { conversation_id: self.id, error, generation: None },
            ),
        }
    }

    /// Take what appending a user's blocks came to: a change of each block for
    /// the bus and a conversation that goes on, or an error for the bus.
    pub fn handle_blocks_appended(&mut self, written: Result<Vec<i64>, String>) -> (events: Vec<
        CoreEvent,
    >)
        requires
            old(self).wf(),
        ensures
            final(self).wf(),
            written is Ok ==> *final(self) == (ConversationActor { latched: false, ..*old(self) })
                && events@ == written->Ok_0@.map_values(
                |block_id: i64| CoreEvent::BlocksChanged {
                    conversation_id: old(self).id,
                    block_id,
                },
            ),
            written is Ok ==> *final(self) == old(self).unlatched(),
            written is Err ==> *final(self) == *old(self) && events@ == seq![
                CoreEvent::StreamError {
                    conversation_id: old(self).id,
                    error: written->Err_0,
                    generation: None,
                },
            ],
    {
        let mut events: Vec<CoreEvent> = Vec::new();
        match written {
            Ok(ids) => {
                let mut index: usize = 0;
                while index < ids.len()
                    invariant
                        index <= ids.len(),
                        *self == *old(self),
                        events@ == ids@.take(index as int).map_values(
                            |block_id: i64| CoreEvent::BlocksChanged {
                                conversation_id: self.id,
                                block_id,
                            },
                        ),
                    decreases ids.len() - index,
                {
                    events.push(
                        CoreEvent::BlocksChanged {
                            conversation_id: self.id,
                            block_id: ids[index],
                        },
                    );
                    index += 1;
                    assert(events@ =~= ids@.take(index as int).map_values(
                        |block_id: i64| CoreEvent::BlocksChanged {
                            conversation_id: self.id,
                            block_id,
                        },
                    ));
                }
                assert(ids@.take(index as int) =~= ids@);
                self.latched = false;
            },
            Err(error) => {
                events.push(
                    CoreEvent::StreamError { conversation_id: self.id, error, generation: None },
                );
            },
        }
        events
    }

    /// Let a held conversation go on.
    pub fn handle_unlatch(&mut self)
        requires
            old(self).wf(),
        ensures
            final(self).wf(),
            *final(self) == (ConversationActor { latched: false, ..*old(self) }),
            *final(self) == old(self).unlatched(),
    {
        self.latched = false;
    }

    /// Keep why the model's message stopped. A message that ended is no stream
    /// that closed: what the reader still writes belongs to the turn.
    pub fn handle_stream_done(&mut self, reason: Option<StopReason>)
        requires
            old(self).wf(),
        ensures
            final(self).wf(),
            *final(self) == (ConversationActor { stream_stop: reason, ..*old(self) }),
            *final(self) == old(self).stopped(reason),
    {
        self.stream_stop = reason;
    }

    /// Begin a close: the stream is over, and so is the binding of a reader
    /// that gave its turn up.
    pub fn begin_close(&mut self, edge: CloseEdge, abandoned: bool) -> (closing: Closing)
        ensures
            closing == old(self).begun(edge, abandoned),
            *final(self) == old(self).closing(abandoned),
    {
        self.streaming = false;
        if abandoned {
            self.bound = false;
        }
        self.turn_anchor = None;
        let continuation_stop = edge == CloseEdge::Closed && !abandoned && self.stream_stop
            == Some(StopReason::ToolUse);
        self.stream_stop = None;
        Closing { edge, continuation_stop, turn: self.open_turn }
    }

    /// Whether a turn's continuation is due.
    pub fn turn_continuation_due(&self, blocks: &[Block], anchor: i64) -> (due: bool)
        ensures
            due == self.due(blocks@, anchor),
    {
        ToolCall::outcomes_anchored_in(blocks, anchor) > self.answered_outcomes
            || ToolCall::system_owed_call_anchored_in(blocks, anchor)
    }

    /// Settle the turn a close holds, over the ledger as it stands, where it
    /// could be read: the turn stays open, or it ends, and then its end may
    /// have to be stored.
    pub fn settle_turn_identity(&mut self, closing: Closing, ledger: Option<&[Block]>) -> (end:
        Option<TurnEnd>)
        ensures
            *final(self) == old(self).settled(closing, rows(ledger)),
            match end {
                Some(stored) => old(self).stores_end(closing, rows(ledger)) && Some(stored.anchor)
                    == closing.turn && Some(stored.status@) == closing.edge.end_key(),
                None => !old(self).stores_end(closing, rows(ledger)),
            },
    {
        let anchor: i64 = match closing.turn {
            Some(anchor) => anchor,
            None => {
                return None;
            },
        };
        let blocks = match ledger {
            Some(blocks) => blocks,
            None => {
                if !closing.continuation_stop {
                    self.open_turn = None;
                }
                return None;
            },
        };
        if closing.continuation_stop && self.turn_continuation_due(blocks, anchor) {
            return None;
        }
        self.open_turn = None;
        let status = match closing.edge.turn_end_key() {
            Some(status) => status,
            None => {
                return None;
            },
        };
        match ToolCall::unanswered_outcome_anchor(blocks) {
            Some(turn) => if turn == anchor {
                Some(TurnEnd { anchor, status })
            } else {
                None
            },
            None => None,
        }
    }

    /// Be done with a close: a failure latches, and a turn that fell due
    /// meanwhile is looked at again, once.
    pub fn finish_close(&mut self, edge: CloseEdge) -> (recheck: bool)
        ensures
            *final(self) == old(self).closed(edge),
            recheck == old(self).owed_turn_deferred,
    {
        if edge == CloseEdge::Errored {
            self.latched = true;
        }
        let recheck = self.owed_turn_deferred;
        self.owed_turn_deferred = false;
        recheck
    }

    /// A whole close over a ledger that is at hand.
    pub fn close_dispatch(
        &mut self,
        edge: CloseEdge,
        abandoned: bool,
        ledger: Option<&[Block]>,
    ) -> (close: Close)
        requires
            old(self).wf(),
        ensures
            final(self).wf(),
            *final(self) == old(self).after_close(edge, abandoned, rows(ledger)),
            close.recheck == old(self).owed_turn_deferred,
            match close.end {
                Some(stored) => old(self).closing(abandoned).stores_end(
                    old(self).begun(edge, abandoned),
                    rows(ledger),
                ) && Some(stored.anchor) == old(self).open_turn && Some(stored.status@)
                    == edge.end_key(),
                None => !old(self).closing(abandoned).stores_end(
                    old(self).begun(edge, abandoned),
                    rows(ledger),
                ),
            },
    {
        let closing = self.begin_close(edge, abandoned);
        let end = self.settle_turn_identity(closing, ledger);
        let recheck = self.finish_close(edge);
        Close { end, recheck }
    }

    /// Stop the turn: the conversation is latched, the stream is torn down and
    /// its channel dropped. The status an interrupt leaves belongs to the turn
    /// it stopped.
    pub fn handle_interrupt(&mut self, abandoned: bool) -> (interrupt: Interrupt)
        requires
            old(self).wf(),
        ensures
            final(self).wf(),
            interrupt == (Interrupt {
                anchor: old(self).open_turn,
                tell_provider: old(self).bound && !abandoned,
                recheck: old(self).owed_turn_deferred,
            }),
            *final(self) == (ConversationActor {
                latched: true,
                bound: false,
                streaming: false,
                owed_turn_deferred: false,
                turn_anchor: None,
                open_turn: None,
                stream_stop: None,
                ..*old(self)
            }),
            interrupt == old(self).interruption(abandoned),
            *final(self) == old(self).interrupted(),
    {
        self.latched = true;
        let anchor = self.open_turn;
        let close = self.close_dispatch(CloseEdge::Teardown, abandoned, None);
        let tell_provider = self.bound;
        self.bound = false;
        Interrupt { anchor, tell_provider, recheck: close.recheck }
    }

    /// A turn is owed: whether it can be looked at now.
    pub fn blocks_ready(&mut self) -> (readiness: Readiness)
        requires
            old(self).wf(),
        ensures
            final(self).wf(),
            readiness == (if old(self).latched {
                Readiness::Latched
            } else if old(self).streaming {
                Readiness::Deferred
            } else {
                Readiness::Ready
            }),
            *final(self) == (ConversationActor {
                owed_turn_deferred: old(self).owed_turn_deferred || readiness is Deferred,
                ..*old(self)
            }),
            readiness == old(self).readiness(),
            *final(self) == old(self).told(),
    {
        if self.latched {
            return Readiness::Latched;
        }
        if self.streaming {
            self.owed_turn_deferred = true;
            return Readiness::Deferred;
        }
        Readiness::Ready
    }

    /// Whether a ledger opens with its head.
    pub fn does_the_ledger_open_with_its_head_kind<K: RuntimeKind>(blocks: &[Block]) -> (opens:
        bool)
        ensures
            opens == (blocks@.len() > 0 && K::heads(K::read(blocks@[0]))),
    {
        if blocks.len() == 0 {
            return false;
        }
        K::from_block(&blocks[0]).heads_the_ledger()
    }

    /// What is sent for a ledger that does not open with its head.
    pub fn refuse_the_turn_over_a_headless_ledger(&self) -> (event: CoreEvent)
        ensures
            event matches CoreEvent::StreamError { conversation_id, error, generation }
                && conversation_id == self.id && error@ == HEADLESS_LEDGER@ && generation is None,
    {
        CoreEvent::StreamError {
            conversation_id: self.id,
            error: HEADLESS_LEDGER.to_owned(),
            generation: None,
        }
    }

    /// What the ledger says of an owed turn. `limit` is how many refusals in a
    /// row end a turn.
    pub fn handle_blocks_ready<K: RuntimeKind>(&self, blocks: &[Block], limit: usize) -> (delivery:
        Delivery)
        ensures
            blocks@.len() == 0 ==> delivery is Empty,
            blocks@.len() > 0 ==> exists|at: int|
                0 <= at < blocks@.len() && #[trigger] ratchet::is_frontier::<K>(blocks@, at)
                    && delivery == self.delivery_at::<K>(blocks@, blocks@[at], limit),
    {
        let at: usize = match ratchet::frontier_position::<K>(blocks) {
            Some(at) => at,
            None => {
                return Delivery::Empty;
            },
        };
        let tail = &blocks[at];
        if !ratchet::frontier_owes_turn::<K>(tail) {
            return Delivery::NotOwed;
        }
        if !ConversationActor::does_the_ledger_open_with_its_head_kind::<K>(blocks) {
            return Delivery::Headless;
        }
        let anchor: i64 = match self.open_turn {
            Some(held) => if self.turn_continuation_due(blocks, held) {
                held
            } else {
                ratchet::fresh_turn_anchor(blocks, tail)
            },
            None => ratchet::fresh_turn_anchor(blocks, tail),
        };
        if ToolCall::trailing_refusal_run(blocks, anchor) >= limit {
            return Delivery::Exhausted { anchor };
        }
        Delivery::Dispatch { anchor }
    }

    /// The tools of the turn that the ledger's frontier summons: those the
    /// ledger's newest choice leaves, or none where the summons is to be
    /// answered in words alone.
    pub fn turn_tools<K: RuntimeKind>(blocks: &[Block], registered: &[String]) -> (tools: Vec<
        String,
    >)
        ensures
            blocks@.len() == 0 ==> tools@.len() == 0,
            blocks@.len() > 0 ==> exists|at: int|
                0 <= at < blocks@.len() && #[trigger] ratchet::is_frontier::<K>(blocks@, at)
                    && block::texts(tools@) == tools_at::<K>(
                    blocks@,
                    blocks@[at],
                    block::texts(registered@),
                ),
    {
        let at: usize = match ratchet::frontier_position::<K>(blocks) {
            Some(at) => at,
            None => {
                return Vec::new();
            },
        };
        if K::from_block(&blocks[at]).offers_tools() {
            ToolChoice::offered_tools(blocks, registered)
        } else {
            let none: Vec<String> = Vec::new();
            assert(block::texts(none@) =~= Seq::<Seq<char>>::empty());
            none
        }
    }

    /// Take whether a forced end could be stored. Only a stored end releases
    /// the turn; an end that was not stored is tried again.
    pub fn end_turn_if_recorded(&mut self, recorded: bool)
        requires
            old(self).wf(),
            !old(self).streaming,
        ensures
            final(self).wf(),
            *final(self) == (ConversationActor {
                open_turn: if recorded {
                    None
                } else {
                    old(self).open_turn
                },
                ..*old(self)
            }),
            *final(self) == old(self).ended(recorded),
    {
        if recorded {
            self.open_turn = None;
        }
    }

    /// Whether the channel at hand can be used, given whether its far end is
    /// closed. One that cannot is let go, and another has to be bound.
    pub fn ensure_provider(&mut self, closed: bool) -> (usable: bool)
        requires
            old(self).wf(),
            !old(self).streaming,
        ensures
            final(self).wf(),
            usable == (old(self).bound && !closed),
            *final(self) == (ConversationActor { bound: usable, ..*old(self) }),
            *final(self) == old(self).checked(closed),
    {
        if self.bound && !closed {
            return true;
        }
        self.bound = false;
        false
    }

    /// Take a fresh channel. Its signals carry a generation of their own.
    pub fn bind_provider(&mut self)
        requires
            old(self).wf(),
            !old(self).streaming,
            old(self).stream_generation < u64::MAX,
        ensures
            final(self).wf(),
            *final(self) == (ConversationActor {
                bound: true,
                stream_generation: (old(self).stream_generation + 1) as u64,
                ..*old(self)
            }),
            *final(self) == old(self).rebound(),
    {
        self.stream_generation = self.stream_generation + 1;
        self.turn_anchor = None;
        self.bound = true;
    }

    /// Take whether a dispatch of the turn `anchor` over a ledger could be
    /// sent.
    pub fn dispatched(&mut self, blocks: &[Block], anchor: i64, sent: bool)
        requires
            old(self).wf(),
            !old(self).streaming,
            old(self).bound,
        ensures
            final(self).wf(),
            *final(self) == (if sent {
                old(self).sent(blocks@, anchor)
            } else {
                *old(self)
            }),
    {
        if sent {
            self.turn_anchor = Some(anchor);
            self.streaming = true;
            self.stream_stop = None;
            self.answered_outcomes = ToolCall::outcomes_anchored_in(blocks, anchor);
            self.open_turn = Some(anchor);
        }
    }
}

/// The tools of the turn that a frontier summons.
pub open spec fn tools_at<K: RuntimeKind>(
    ledger: Seq<Block>,
    frontier: Block,
    registered: Seq<Seq<char>>,
) -> Seq<Seq<char>> {
    if K::tooled(K::read(frontier)) {
        tool_choice::offered(ledger, registered)
    } else {
        seq![]
    }
}

/// A turn that the harness asks for is offered no tools, whatever was chosen
/// and whatever is registered; every other turn is offered what the ledger's
/// choice leaves.
pub proof fn a_harness_turn_is_offered_nothing(
    ledger: Seq<Block>,
    frontier: Block,
    registered: Seq<Seq<char>>,
)
    ensures
        agency::read(frontier) is HarnessMessage ==> tools_at::<agency::BlockKind>(
            ledger,
            frontier,
            registered,
        ) == Seq::<Seq<char>>::empty(),
        !(agency::read(frontier) is HarnessMessage) ==> tools_at::<agency::BlockKind>(
            ledger,
            frontier,
            registered,
        ) == tool_choice::offered(ledger, registered),
{
}

/// The rows of a ledger, where it could be read.
pub open spec fn rows(ledger: Option<&[Block]>) -> Option<Seq<Block>> {
    match ledger {
        Some(blocks) => Some(blocks@),
        None => None,
    }
}

/// Only a failure latches: whatever else a close does, a conversation that was
/// not held goes on.
pub proof fn only_a_failure_latches(
    actor: ConversationActor,
    edge: CloseEdge,
    abandoned: bool,
    ledger: Option<Seq<Block>>,
)
    ensures
        actor.after_close(edge, abandoned, ledger).latched == (actor.latched || edge is Errored),
{
}

/// A turn stays open past a close only where the model stopped for tools, its
/// reader did not give the turn up, and the continuation is due or the ledger
/// could not be read.
pub proof fn a_turn_survives_only_a_stop_for_tools(
    actor: ConversationActor,
    edge: CloseEdge,
    abandoned: bool,
    ledger: Option<Seq<Block>>,
)
    requires
        actor.open_turn matches Some(anchor),
    ensures
        actor.after_close(edge, abandoned, ledger).open_turn is Some <==> edge is Closed
            && !abandoned && actor.stream_stop == Some(StopReason::ToolUse) && (match ledger {
            Some(rows) => actor.due(rows, actor.open_turn->0),
            None => true,
        }),
        actor.after_close(edge, abandoned, ledger).open_turn is Some ==> actor.after_close(
            edge,
            abandoned,
            ledger,
        ).open_turn == actor.open_turn,
{
}

/// A close is final: a second close of the same stream stores no end, asks for
/// no look again, and changes nothing but that a failure latches.
pub proof fn a_second_close_changes_nothing(
    actor: ConversationActor,
    edge: CloseEdge,
    again: CloseEdge,
    abandoned: bool,
    ledger: Option<Seq<Block>>,
    later: Option<Seq<Block>>,
)
    requires
        actor.after_close(edge, abandoned, ledger).open_turn is None,
    ensures
        ({
            let first = actor.after_close(edge, abandoned, ledger);
            let second = first.after_close(again, false, later);
            &&& second == (ConversationActor {
                latched: first.latched || again is Errored,
                ..first
            })
            &&& !first.owed_turn_deferred
            &&& !first.closing(false).stores_end(first.begun(again, false), later)
        }),
{
}

/// A signal from a stream that was torn down is nobody's: it is ignored
/// whichever of the three it is.
pub proof fn a_stale_signal_is_ignored(actor: ConversationActor, event: CoreEvent, stamp: u64)
    requires
        stamp != actor.stream_generation,
        match event {
            CoreEvent::StreamDone { generation, .. } => generation == Some(stamp),
            CoreEvent::StreamError { generation, .. } => generation == Some(stamp),
            CoreEvent::StreamClosed { generation, .. } => generation == Some(stamp),
            _ => false,
        },
    ensures
        actor.handling(event) is Ignore,
{
}

/// Every event an actor accepts has a handling, and it handles no other.
pub proof fn an_actor_handles_what_it_accepts(actor: ConversationActor, event: CoreEvent)
    ensures
        !event.for_the_actor() ==> actor.handling(event) is Ignore,
        event.for_the_actor() && !(event is StreamDone) && !(event is StreamError) && !(
        event is StreamClosed) ==> !(actor.handling(event) is Ignore),
{
}

/// A dispatch has seen every outcome of its turn: right after it, the turn's
/// continuation is due only for a call that the system will answer.
pub proof fn a_dispatch_has_seen_its_outcomes(
    actor: ConversationActor,
    ledger: Seq<Block>,
    anchor: i64,
)
    requires
        ledger.len() <= usize::MAX,
    ensures
        actor.sent(ledger, anchor).due(ledger, anchor) == tool_call::system_owes(ledger, anchor),
{
    asking_outcomes_are_rows(ledger, anchor);
}

proof fn asking_outcomes_are_rows(ledger: Seq<Block>, anchor: i64)
    ensures
        tool_call::asking_outcomes(ledger, anchor) <= ledger.len(),
    decreases ledger.len(),
{
    if ledger.len() > 0 {
        asking_outcomes_are_rows(ledger.drop_last(), anchor);
    }
}

/// An outcome that lands behind a dispatch makes the turn's continuation due,
/// unless it ends the turn.
pub proof fn a_later_outcome_is_due(
    actor: ConversationActor,
    ledger: Seq<Block>,
    anchor: i64,
    outcome: Block,
)
    requires
        ledger.len() <= usize::MAX,
        outcome.dispatch_anchor == Some(anchor),
        tool_call::asks_on(agency::read(outcome)),
    ensures
        actor.sent(ledger, anchor).due(ledger.push(outcome), anchor),
{
    asking_outcomes_are_rows(ledger, anchor);
    assert(ledger.push(outcome).drop_last() =~= ledger);
}

/// A turn that a row of the ledger holds open is resumed by whoever dispatches
/// next: an actor that holds the turn and one that has just come up dispatch
/// as the same turn, past any message that was absorbed behind the outcome.
pub proof fn a_fresh_actor_resumes_the_open_turn(
    held: ConversationActor,
    fresh: ConversationActor,
    ledger: Seq<Block>,
    frontier: Block,
    anchor: i64,
)
    requires
        tool_call::unanswered_turn(ledger) == Some(anchor),
        frontier.dispatch_anchor is None || frontier.dispatch_anchor == Some(anchor),
        held.open_turn == Some(anchor),
        fresh.open_turn is None,
    ensures
        held.dispatch_anchor(ledger, frontier) == anchor,
        fresh.dispatch_anchor(ledger, frontier) == anchor,
{
}

/// Each event has a handling of its own, whatever state the actor is in: what
/// promotes a draft, appends blocks, records a call, submits an approval or
/// interrupts is handled as that and as nothing else, and a conversation is let
/// go on by the two events that ask for it alone.
pub proof fn each_event_has_its_own_handling(actor: ConversationActor, event: CoreEvent)
    ensures
        actor.handling(event) is PromoteDraft <==> event is DraftPromoted,
        actor.handling(event) is AppendBlocks <==> event is BlocksAppended,
        actor.handling(event) is RecordCall <==> event is ToolCallReceived,
        actor.handling(event) is SubmitApproval <==> event is ApprovalSubmitted,
        actor.handling(event) is Interrupt <==> event is InterruptRequested,
        actor.handling(event) is Unlatch <==> event is UnlatchRequested || event is UnlatchAll,
{
}

/// A signal of the live stream is taken for what it is: the end of a message
/// as the reason it stopped for, a failure as a failed close, the end of the
/// stream as a close. A signal without a stamp is the live stream's, one with
/// a stamp is so where the stamp is the live one's, and no other event notes a
/// stop or closes anything.
pub proof fn a_live_signal_is_taken_for_what_it_is(actor: ConversationActor, event: CoreEvent)
    ensures
        match event {
            CoreEvent::StreamDone { stop_reason, generation, .. } => actor.handling(event) == if (
            generation matches Some(stamp) ==> stamp == actor.stream_generation) {
                Handling::NoteStop { reason: stop_reason }
            } else {
                Handling::Ignore
            },
            CoreEvent::StreamError { generation, .. } => actor.handling(event) == if (
            generation matches Some(stamp) ==> stamp == actor.stream_generation) {
                Handling::Close { edge: CloseEdge::Errored }
            } else {
                Handling::Ignore
            },
            CoreEvent::StreamClosed { generation, .. } => actor.handling(event) == if (
            generation matches Some(stamp) ==> stamp == actor.stream_generation) {
                Handling::Close { edge: CloseEdge::Closed }
            } else {
                Handling::Ignore
            },
            _ => !(actor.handling(event) is NoteStop) && !(actor.handling(event) is Close),
        },
{
}

/// The events that are published of a conversation are nobody's to handle.
pub proof fn what_is_published_is_not_handled(actor: ConversationActor, event: CoreEvent)
    ensures
        event is BlocksChanged || event is ConversationState || event is ConversationsChanged
            || event is ToolCallReady || event is MetadataRequestReady ==> actor.handling(
            event,
        ) is Ignore && !event.for_the_actor(),
        event is DraftPromoted || event is BlocksAppended || event is ToolCallReceived
            || event is ApprovalSubmitted || event is InterruptRequested
            || event is UnlatchRequested || event is UnlatchAll || event is StreamDone
            || event is StreamError || event is StreamClosed ==> event.for_the_actor(),
{
}

/// After a close no stream is live, nothing is stamped, nothing is deferred
/// and no reason to stop is remembered; the channel is kept unless its reader
/// gave up. What identifies the conversation, its binding and what its turns
/// have seen is as it was.
pub proof fn a_close_leaves_no_stream_behind(
    actor: ConversationActor,
    edge: CloseEdge,
    abandoned: bool,
    ledger: Option<Seq<Block>>,
)
    ensures
        ({
            let after = actor.after_close(edge, abandoned, ledger);
            &&& !after.streaming
            &&& after.turn_anchor is None
            &&& after.stream_stop is None
            &&& !after.owed_turn_deferred
            &&& after.bound <==> actor.bound && !abandoned
            &&& after.id == actor.id
            &&& after.stream_generation == actor.stream_generation
            &&& after.answered_outcomes == actor.answered_outcomes
            &&& actor.open_turn is None ==> after.open_turn is None
        }),
{
}

/// A close is made in three steps. The first ends the stream and touches no
/// turn; the second releases the turn, or keeps it where the model stopped for
/// tools and its continuation is due or the ledger could not be read; the third
/// latches a failure and forgets what was deferred.
pub proof fn a_close_is_made_in_three_steps(
    actor: ConversationActor,
    closing: Closing,
    edge: CloseEdge,
    abandoned: bool,
    ledger: Option<Seq<Block>>,
)
    ensures
        ({
            let over = actor.closing(abandoned);
            &&& !over.streaming && over.turn_anchor is None && over.stream_stop is None
            &&& over.bound <==> actor.bound && !abandoned
            &&& over.open_turn == actor.open_turn
            &&& over.latched == actor.latched
            &&& over.owed_turn_deferred == actor.owed_turn_deferred
            &&& over.answered_outcomes == actor.answered_outcomes
            &&& over.stream_generation == actor.stream_generation
            &&& over.id == actor.id
        }),
        ({
            let released = actor.settled(closing, ledger);
            &&& actor == (ConversationActor { open_turn: actor.open_turn, ..released })
            &&& closing.turn is None ==> released.open_turn == actor.open_turn
            &&& closing.turn is Some && !closing.continuation_stop ==> released.open_turn is None
            &&& closing.turn is Some && closing.continuation_stop && ledger is None
                ==> released.open_turn == actor.open_turn
            &&& closing.turn is Some && closing.continuation_stop && ledger is Some
                && actor.due(ledger->0, closing.turn->0) ==> released.open_turn == actor.open_turn
            &&& closing.turn is Some && ledger is Some && !actor.due(ledger->0, closing.turn->0)
                ==> released.open_turn is None
            &&& closing.turn is None ==> !actor.stores_end(closing, ledger)
            &&& actor.stores_end(closing, ledger) ==> ledger is Some && tool_call::unanswered_turn(
                ledger->0,
            ) == closing.turn && released.open_turn is None && !(closing.edge is Teardown)
            &&& closing.turn is Some && ledger is Some && tool_call::unanswered_turn(ledger->0)
                == closing.turn && !closing.continuation_stop && !(closing.edge is Teardown)
                ==> actor.stores_end(closing, ledger)
        }),
        ({
            let done = actor.closed(edge);
            &&& !done.owed_turn_deferred
            &&& done.latched <==> actor.latched || edge is Errored
            &&& actor == (ConversationActor {
                owed_turn_deferred: actor.owed_turn_deferred,
                latched: actor.latched,
                ..done
            })
        }),
{
}

/// An interrupt does what a teardown of the stream does, and holds the
/// conversation and lets its channel go besides: nothing is looked at until it
/// is let go on. Its status belongs to the turn that was open; a provider is
/// told of it unless it has gone.
pub proof fn an_interrupt_holds_the_conversation(actor: ConversationActor, abandoned: bool)
    ensures
        actor.interrupted() == (ConversationActor {
            latched: true,
            bound: false,
            ..actor.after_close(CloseEdge::Teardown, abandoned, None)
        }),
        actor.interrupted().open_turn is None,
        actor.interrupted().readiness() is Latched,
        actor.interrupted().told() == actor.interrupted(),
        actor.interrupted().unlatched().readiness() is Ready,
        actor.interruption(abandoned).anchor == actor.open_turn,
        actor.interruption(abandoned).tell_provider <==> actor.bound && !abandoned,
        actor.interruption(abandoned).recheck <==> actor.owed_turn_deferred,
        actor.interrupted().interrupted() == actor.interrupted(),
{
}

/// An owed turn is looked at exactly where the conversation is not held and no
/// stream is live. One that falls due during a live stream is remembered until
/// that stream's close, and only then; a held conversation remembers nothing.
pub proof fn an_owed_turn_waits_for_the_live_stream(actor: ConversationActor)
    ensures
        actor.readiness() is Ready <==> !actor.latched && !actor.streaming,
        actor.readiness() is Latched <==> actor.latched,
        actor.readiness() is Deferred <==> !actor.latched && actor.streaming,
        actor.told().owed_turn_deferred <==> actor.owed_turn_deferred || !actor.latched
            && actor.streaming,
        actor.told().readiness() == actor.readiness(),
        actor == (ConversationActor {
            owed_turn_deferred: actor.owed_turn_deferred,
            ..actor.told()
        }),
{
}

/// A conversation that is let go on changes in nothing else, and a stop that is
/// noted is the one its close goes by: a turn whose model stopped for anything
/// but tools ends with its stream.
pub proof fn a_stop_is_what_its_close_goes_by(
    actor: ConversationActor,
    reason: Option<StopReason>,
    ledger: Option<Seq<Block>>,
)
    ensures
        !actor.unlatched().latched,
        actor == (ConversationActor { latched: actor.latched, ..actor.unlatched() }),
        actor.stopped(reason).stream_stop == reason,
        actor == (ConversationActor { stream_stop: actor.stream_stop, ..actor.stopped(reason) }),
        reason != Some(StopReason::ToolUse) ==> actor.stopped(reason).after_close(
            CloseEdge::Closed,
            false,
            ledger,
        ).open_turn is None,
        reason == Some(StopReason::ToolUse) ==> actor.stopped(reason).after_close(
            CloseEdge::Closed,
            false,
            None,
        ).open_turn == actor.open_turn,
{
}

/// Only a recorded end releases the turn, and nothing else changes with it.
pub proof fn only_a_recorded_end_releases_the_turn(actor: ConversationActor, recorded: bool)
    ensures
        recorded ==> actor.ended(recorded).open_turn is None,
        !recorded ==> actor.ended(recorded) == actor,
        actor == (ConversationActor { open_turn: actor.open_turn, ..actor.ended(recorded) }),
{
}

/// A fresh channel makes every signal of the one before it stale, and its own
/// live; a channel whose far end is closed is let go, and one that is not is
/// kept. Neither touches anything else.
pub proof fn a_fresh_channel_outdates_the_one_before(
    actor: ConversationActor,
    closed: bool,
    conversation_id: i64,
)
    requires
        actor.stream_generation < u64::MAX,
    ensures
        actor.rebound().bound,
        actor.rebound().handling(
            CoreEvent::StreamClosed {
                conversation_id,
                generation: Some(actor.stream_generation),
            },
        ) is Ignore,
        actor.rebound().handling(
            CoreEvent::StreamClosed {
                conversation_id,
                generation: Some((actor.stream_generation + 1) as u64),
            },
        ) == (Handling::Close { edge: CloseEdge::Closed }),
        actor == (ConversationActor {
            bound: actor.bound,
            stream_generation: actor.stream_generation,
            ..actor.rebound()
        }),
        actor.checked(closed).bound <==> actor.bound && !closed,
        actor == (ConversationActor { bound: actor.bound, ..actor.checked(closed) }),
{
}

/// A close stores its turn's end exactly where a turn is open and does not
/// stay so, the edge is no teardown, the ledger could be read, and the newest
/// outcome there that asks on is the turn's and is unanswered.
pub proof fn a_close_stores_the_end_of_an_unanswered_turn(
    actor: ConversationActor,
    edge: CloseEdge,
    abandoned: bool,
    ledger: Option<Seq<Block>>,
)
    ensures
        actor.closing(abandoned).stores_end(actor.begun(edge, abandoned), ledger) <==> {
            &&& actor.open_turn is Some
            &&& actor.after_close(edge, abandoned, ledger).open_turn is None
            &&& edge is Closed || edge is Errored
            &&& ledger is Some
            &&& tool_call::unanswered_turn(ledger->0) == actor.open_turn
        },
        actor.begun(edge, abandoned).edge == edge,
        actor.begun(edge, abandoned).turn == actor.open_turn,
{
}

/// The end of a turn is stored under a status that says how it came: the
/// stream's own end or a failure. A teardown stores none.
pub proof fn each_edge_has_its_own_status(edge: CloseEdge)
    ensures
        edge is Closed ==> edge.end_key() == Some("turn_ended:closed"@),
        edge is Errored ==> edge.end_key() == Some("turn_ended:errored"@),
        edge is Teardown ==> edge.end_key() is None,
{
}

/// A turn's continuation is due over a call that the system will answer,
/// however many outcomes were seen; and with no such call it is due exactly
/// where an outcome has landed that no dispatch has seen.
pub proof fn a_continuation_is_due_over_owed_or_unseen_work(
    actor: ConversationActor,
    ledger: Seq<Block>,
    anchor: i64,
)
    ensures
        tool_call::system_owes(ledger, anchor) ==> actor.due(ledger, anchor),
        tool_call::asking_outcomes(ledger, anchor) > actor.answered_outcomes ==> actor.due(
            ledger,
            anchor,
        ),
        !tool_call::system_owes(ledger, anchor) && tool_call::asking_outcomes(ledger, anchor)
            <= actor.answered_outcomes ==> !actor.due(ledger, anchor),
{
}

/// A dispatch opens its turn: its products are stamped with the turn, the
/// stream is live, and nothing of an earlier message's stop is left. A close
/// that comes before the message has said why it stopped ends the turn.
pub proof fn a_dispatch_opens_its_turn(
    actor: ConversationActor,
    ledger: Seq<Block>,
    anchor: i64,
    edge: CloseEdge,
    abandoned: bool,
    later: Option<Seq<Block>>,
)
    requires
        ledger.len() <= usize::MAX,
    ensures
        ({
            let live = actor.sent(ledger, anchor);
            &&& live.streaming
            &&& live.open_turn == Some(anchor)
            &&& live.turn_anchor == Some(anchor)
            &&& live.stream_stop is None
            &&& live.answered_outcomes == tool_call::asking_outcomes(ledger, anchor)
            &&& live.id == actor.id
            &&& live.latched == actor.latched
            &&& live.bound == actor.bound
            &&& live.owed_turn_deferred == actor.owed_turn_deferred
            &&& live.stream_generation == actor.stream_generation
            &&& live.after_close(edge, abandoned, later).open_turn is None
        }),
{
    asking_outcomes_are_rows(ledger, anchor);
}

/// A turn is dispatched as the open one exactly while its continuation is
/// due; with no turn open, or none due, it is the ledger that says which.
pub proof fn an_open_turn_goes_on_while_it_is_due(
    actor: ConversationActor,
    ledger: Seq<Block>,
    frontier: Block,
)
    ensures
        actor.open_turn matches Some(held) ==> (actor.due(ledger, held) ==> actor.dispatch_anchor(
            ledger,
            frontier,
        ) == held),
        actor.open_turn matches Some(held) ==> (!actor.due(ledger, held)
            ==> actor.dispatch_anchor(ledger, frontier) == ratchet::fresh_anchor(ledger, frontier)),
        actor.open_turn is None ==> actor.dispatch_anchor(ledger, frontier)
            == ratchet::fresh_anchor(ledger, frontier),
{
}

/// A turn is dispatched exactly where the frontier owes one, the ledger opens
/// with a system prompt and the turn's last outcomes are not so many refusals
/// that it is exhausted. A ledger that does not open with one is refused
/// before anything is counted.
pub proof fn a_turn_is_dispatched_where_nothing_forbids_it(
    actor: ConversationActor,
    ledger: Seq<Block>,
    frontier: Block,
    limit: usize,
)
    requires
        ledger.len() > 0,
    ensures
        ({
            let delivery = actor.delivery_at::<agency::BlockKind>(ledger, frontier, limit);
            let anchor = actor.dispatch_anchor(ledger, frontier);
            let owed = ratchet::owes::<agency::BlockKind>(frontier);
            let headed = ledger[0].block_type@ == "system_prompt"@;
            let exhausted = tool_call::refusal_run(ledger, anchor) >= limit;
            &&& !(delivery is Empty)
            &&& delivery is NotOwed <==> !owed
            &&& delivery is Headless <==> owed && !headed
            &&& delivery == (Delivery::Exhausted { anchor }) <==> owed && headed && exhausted
            &&& delivery == (Delivery::Dispatch { anchor }) <==> owed && headed && !exhausted
        }),
{
    agency::rows::a_row_is_of_the_kind_its_type_names(ledger[0]);
    agency::block_kind::exactly_the_system_prompt_heads_a_ledger(agency::read(ledger[0]));
}

/// Whether a row stores the end of the turn `anchor`.
pub open spec fn is_turn_end(row: Block, anchor: i64) -> bool {
    row.dispatch_anchor == Some(anchor) && match agency::read(row) {
        Kind::Status { status, .. } => records::stores_turn_end(status),
        _ => false,
    }
}

/// What a close stores is the end of a turn, and the frontier reads through
/// it.
pub proof fn a_close_stores_a_turn_end(edge: CloseEdge)
    ensures
        edge.end_key() matches Some(status) ==> records::stores_turn_end(status),
{
}

/// A stored end is final: over a ledger whose newest row stores the end of a
/// turn, an actor that holds no turn dispatches nothing as that turn, whatever
/// the frontier is.
pub proof fn a_stored_end_is_final(
    actor: ConversationActor,
    ledger: Seq<Block>,
    end: Block,
    anchor: i64,
    at: int,
    limit: usize,
)
    requires
        is_turn_end(end, anchor),
        actor.open_turn is None,
        0 <= at <= ledger.len(),
        ratchet::is_frontier::<agency::BlockKind>(ledger.push(end), at),
    ensures
        actor.delivery_at::<agency::BlockKind>(ledger.push(end), ledger.push(end)[at], limit) != (
        Delivery::Dispatch { anchor }),
        actor.delivery_at::<agency::BlockKind>(ledger.push(end), ledger.push(end)[at], limit) != (
        Delivery::Exhausted { anchor }),
{
    let now = ledger.push(end);
    let last = ledger.len() as int;
    assert(now[last] == end);
    assert(ratchet::transparent::<agency::BlockKind>(now[last]));
    if ratchet::owes::<agency::BlockKind>(now[at]) {
        agency::block_kind::a_transparent_kind_asks_nothing(agency::read(end));
        assert(at != last);
        ratchet::the_frontier_never_revives_an_ended_turn::<agency::BlockKind>(
            now,
            at,
            last,
            anchor,
        );
        a_stored_end_leaves_no_turn_unanswered(ledger, end, anchor);
    }
}

proof fn a_stored_end_leaves_no_turn_unanswered(ledger: Seq<Block>, end: Block, anchor: i64)
    requires
        is_turn_end(end, anchor),
    ensures
        tool_call::unanswered_turn(ledger.push(end)) != Some(anchor),
{
    let now = ledger.push(end);
    assert(now.drop_last() =~= ledger);
    if tool_call::unanswered_turn(now) == Some(anchor) {
        tool_call::newest_asking_is_a_row(now);
        let at = tool_call::newest_asking(now)->0;
        assert(tool_call::closes(now[now.len() - 1], anchor));
    }
}

/// A message that a dead turn absorbed still gets its turn, as its own: where
/// the newest row stores the end of a turn, and all that stands between it and
/// a user's message are products of that turn, the frontier is the message.
pub proof fn an_absorbed_message_is_dispatched_as_its_own(
    ledger: Seq<Block>,
    end: Block,
    anchor: i64,
    message: int,
)
    requires
        is_turn_end(end, anchor),
        0 <= message < ledger.len(),
        ledger[message].dispatch_anchor is None,
        ledger[message].id != anchor,
        ratchet::owes::<agency::BlockKind>(ledger[message]),
        forall|i: int|
            message < i < ledger.len() ==> (#[trigger] ledger[i]).dispatch_anchor == Some(anchor)
                && !ratchet::transparent::<agency::BlockKind>(ledger[i]),
    ensures
        ratchet::is_frontier::<agency::BlockKind>(ledger.push(end), message),
{
    let now = ledger.push(end);
    let last = ledger.len() as int;
    assert(now[last] == end);
    assert(ratchet::transparent::<agency::BlockKind>(now[last]));
    if ratchet::transparent::<agency::BlockKind>(now[message]) {
        agency::block_kind::a_transparent_kind_asks_nothing(agency::read(now[message]));
    }
    assert forall|i: int| message < i < now.len() implies #[trigger] ratchet::in_ended_run::<
        agency::BlockKind,
    >(now, i) by {
        if i < last {
            assert(now[i] == ledger[i]);
            assert(ratchet::ended_from::<agency::BlockKind>(now, i + 1, anchor));
        }
    }
    assert(!ratchet::ended_from::<agency::BlockKind>(now, message + 1, now[message].id)) by {
        if ratchet::ended_from::<agency::BlockKind>(now, message + 1, now[message].id) {
            let i = choose|i: int|
                message + 1 <= i < now.len() && #[trigger] ratchet::transparent::<
                    agency::BlockKind,
                >(now[i]) && now[i].dispatch_anchor == Some(now[message].id);
            if i < last {
                assert(now[i] == ledger[i]);
            }
        }
    }
    ratchet::an_absorbed_message_still_owes::<agency::BlockKind>(now, message);
}

} // verus!
