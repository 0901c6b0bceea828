//! Block agency: every kind of block answers one small interface, and the
//! machinery that drives a ledger asks it blindly.
//!
//! Two axes, two traits. [`Agency`] answers orchestration: who owes the next
//! move, what work the block does, whether it is done. [`Projection`] answers
//! representation: what the block says to the model.

use vstd::prelude::*;

use crate::block::{Awaiting, Block};

pub mod ancestor_reference;
pub mod approval_decision;
pub mod approval_request;
pub mod block_kind;
pub mod code;
pub mod composite;
pub mod date_marker;
pub mod durability;
pub mod harness_message;
pub mod kinds;
pub mod metadata_title_request;
pub mod metadata_title_response;
pub mod model;
pub mod projection;
pub mod quote;
pub mod ratchet;
pub mod records;
pub mod redispatch;
pub mod rows;
pub mod system_prompt;
pub mod text;
pub mod thinking;
pub mod tool_call;
pub mod tool_choice;
pub mod tool_error;
pub mod tool_result;

pub use ancestor_reference::AncestorReference;
pub use approval_decision::ApprovalDecision;
pub use approval_request::ApprovalRequest;
pub use block_kind::BlockKind;
pub use code::Code;
pub use composite::Composite;
pub use date_marker::DateMarker;
pub use durability::check_descriptor_durability;
pub use harness_message::HarnessMessage;
pub use kinds::{
    concat_kinds, contains_kind, descriptor_kinds_claimed, kind_count, kinds_disjoint, str_eq,
    ContentDescriptor,
};
pub use metadata_title_request::MetadataTitleRequest;
pub use metadata_title_response::MetadataTitleResponse;
pub use projection::{
    render_code, render_quote, render_text, render_tool_error, render_tool_result, ContentPart,
    OpaquePayload, Projection,
};
pub use quote::Quote;
pub use records::{Status, Streaming, StreamingThinking, StreamingToolCall, Unknown};
pub use system_prompt::SystemPrompt;
pub use text::Text;
pub use thinking::Thinking;
pub use tool_call::{CallOutcome, ToolCall};
pub use tool_choice::ToolChoice;
pub use tool_error::ToolError;
pub use tool_result::ToolResult;

verus! {

/// The outcome of vetting a block before its work is done.
#[derive(Debug, Clone, PartialEq, Eq)]
pub enum GateDecision {
    /// Do the work.
    Proceed,
    /// Do not: the reason is recorded and the model plans anew.
    Refuse { reason: String },
    /// Not yet: clearance has been asked for out of band.
    Defer,
}

/// What a gate decided.
pub enum Verdict {
    Proceed,
    Refuse { reason: Seq<char> },
    Defer,
}

impl View for GateDecision {
    type V = Verdict;

    open spec fn view(&self) -> Verdict {
        match self {
            GateDecision::Proceed => Verdict::Proceed,
            GateDecision::Refuse { reason } => Verdict::Refuse { reason: reason@ },
            GateDecision::Defer => Verdict::Defer,
        }
    }
}

/// One of a conversation's two ledgers.
#[derive(Debug, Clone, Copy, PartialEq, Eq, Structural)]
pub enum LedgerName {
    Conversation,
    Metadata,
}

/// What a block asks a subsystem to do.
#[derive(Debug, Clone, Copy, PartialEq, Eq, Structural)]
pub enum Wakeup {
    /// The call in this row waits to be executed.
    ToolCallReady { call_block_id: i64 },
    /// The request in this row waits to be fulfilled.
    MetadataRequestReady { request_id: i64 },
}

/// What a block's work came to.
#[derive(Debug, Clone, Copy, PartialEq, Eq, Structural)]
pub struct Run {
    /// Whether the work is complete, so that a cursor may pass the block.
    pub done: bool,
    /// What is emitted, where anything is.
    pub wakeup: Option<Wakeup>,
}

/// Work that is complete and asks nobody for anything.
pub open spec fn inert() -> Run {
    Run { done: true, wakeup: None }
}

/// How a kind takes part in the driving of a ledger. A kind that says nothing
/// otherwise is inert.
///
/// A hook that reads a ledger is handed the rows it reads: which ledger that
/// is, [`run_reads`](Self::run_reads) says.
pub trait Agency: View + Sized {
    /// Who owes the kind's next move.
    open spec fn asks(kind: Self::V) -> Option<Awaiting> {
        None
    }

    /// Whether the row outlives the drive that confirmed it.
    open spec fn lasts(kind: Self::V) -> bool {
        true
    }

    /// Whether the frontier reads through the row.
    open spec fn see_through(kind: Self::V) -> bool {
        false
    }

    /// Whether a conversation opens with the row.
    open spec fn heads(kind: Self::V) -> bool {
        false
    }

    /// Whether the turn the row summons is offered tools.
    open spec fn tooled(kind: Self::V) -> bool {
        true
    }

    /// What vetting the row decides.
    open spec fn vetted(kind: Self::V) -> Verdict {
        Verdict::Proceed
    }

    /// Which ledger the row's work reads.
    open spec fn reads(kind: Self::V) -> Option<LedgerName> {
        None
    }

    /// What the row's work comes to over a ledger.
    open spec fn work(kind: Self::V, ledger: Seq<Block>) -> Run {
        inert()
    }

    /// The row the row's deferred work is routed to.
    open spec fn route(kind: Self::V, ledger: Seq<Block>) -> Option<i64> {
        None
    }

    /// What the row's deferred work emits over a ledger.
    open spec fn deferred(kind: Self::V, ledger: Seq<Block>) -> Option<Wakeup> {
        None
    }

    /// Who owes the next move, by the block's nature; `None` is no ask at all.
    fn awaiting(&self) -> (ask: Option<Awaiting>)
        ensures
            ask == Self::asks(self@),
    ;

    /// Whether the block's row outlives the drive that confirmed it. A row
    /// that does not is deleted by the finalization that replaces it, so a
    /// cursor must never come to rest on it.
    fn durable(&self) -> (lasts: bool)
        ensures
            lasts == Self::lasts(self@),
    ;

    /// Whether the owed-turn frontier reads through the block, so that what
    /// lies behind it answers instead.
    fn frontier_transparent(&self) -> (transparent: bool)
        ensures
            transparent == Self::see_through(self@),
    ;

    /// Whether a conversation opens with the block.
    fn heads_the_ledger(&self) -> (heads: bool)
        ensures
            heads == Self::heads(self@),
    ;

    /// Whether the turn the block summons is offered tools.
    fn offers_tools(&self) -> (offers: bool)
        ensures
            offers == Self::tooled(self@),
    ;

    /// Vet the block before its work. No kind of this library holds its own
    /// work back; the vetting of a tool call is its tool's.
    fn gate(&self) -> (decision: GateDecision)
        ensures
            decision@ == Self::vetted(self@),
    ;

    /// The ledger [`run`](Self::run) and [`run_post_gate`](Self::run_post_gate)
    /// are handed; `None` where they read none.
    fn run_reads(&self) -> (ledger: Option<LedgerName>)
        ensures
            ledger == Self::reads(self@),
    ;

    /// Do the block's own work and report whether it is done. Work that is not
    /// done is asked for again on the next drive, so it is safe to repeat.
    fn run(&self, ledger: &[Block]) -> (run: Run)
        ensures
            run == Self::work(self@, ledger@),
    ;

    /// The row the walk over deferred work goes to next. Answering `None` once
    /// nothing is left to do is what keeps the walk from repeating itself.
    fn post_gate_id(&self, ledger: &[Block]) -> (next: Option<i64>)
        ensures
            next == Self::route(self@, ledger@),
    ;

    /// The deferred work itself: what it emits.
    fn run_post_gate(&self, ledger: &[Block]) -> (wakeup: Option<Wakeup>)
        ensures
            wakeup == Self::deferred(self@, ledger@),
    ;
}

/// One leaf's parse contract: which stored strings are its own, and how a row
/// of one of them is read.
pub trait LeafKind: View + Sized {
    /// Whether a stored type string is this kind's.
    spec fn owns(stored: Seq<char>) -> bool;

    /// The stored type strings that are this kind's, in their order.
    spec fn names() -> Seq<Seq<char>>;

    /// The kind a row of one of its strings is.
    spec fn reading(block: Block) -> Self::V;

    /// The content tables the kind brings along; none, unless it says so.
    open spec fn tables() -> Seq<ContentDescriptor> {
        Seq::empty()
    }

    /// The stored type strings the kind parses from.
    fn kinds() -> (kinds: &'static [&'static str])
        ensures
            kinds::words(kinds@) == Self::names(),
            forall|stored: Seq<char>| #[trigger] kinds::claims(kinds@, stored) == Self::owns(stored),
    ;

    /// The content tables the kind brings along.
    fn descriptors() -> (tables: Vec<ContentDescriptor>)
        ensures
            tables@ == Self::tables(),
    ;

    /// Parse a row whose stored type is one of the kind's.
    fn parse(block: &Block) -> (kind: Self)
        ensures
            kind@ == Self::reading(*block),
    ;
}

/// How a stored row becomes a typed kind. Total: a type nobody owns resolves
/// to an inert fallback, so an old build reading a newer ledger fails safe.
pub trait FromBlock: View + Sized {
    /// Whether a stored type string resolves to a kind that owns it.
    spec fn resolves(stored: Seq<char>) -> bool;

    /// Every stored type string that resolves to a kind that owns it, one kind's
    /// after the other's.
    spec fn claimed() -> Seq<Seq<char>>;

    /// The kind a row is.
    spec fn read(block: Block) -> Self::V;

    /// The content tables of every composed kind; none, unless it says so.
    open spec fn tables() -> Seq<ContentDescriptor> {
        Seq::empty()
    }

    /// Every stored type string that resolves to a kind that owns it, in the
    /// order of the kinds.
    fn claimed_kinds() -> (kinds: Vec<&'static str>)
        ensures
            kinds::words(kinds@) == Self::claimed(),
            forall|stored: Seq<char>| #[trigger] kinds::claims(kinds@, stored) == Self::resolves(stored),
    ;

    /// The content tables of every kind the implementor composes.
    fn descriptors() -> (tables: Vec<ContentDescriptor>)
        ensures
            tables@ == Self::tables(),
    ;

    /// Resolve a stored row to its typed kind.
    fn from_block(block: &Block) -> (kind: Self)
        ensures
            kind@ == Self::read(*block),
    ;
}

/// A row, as the kind that owns its stored type reads it; unknown where no
/// kind of this library owns the type.
pub open spec fn read(block: Block) -> model::Kind {
    let stored = block.block_type@;
    if Text::owns(stored) {
        Text::reading(block)
    } else if Quote::owns(stored) {
        Quote::reading(block)
    } else if Code::owns(stored) {
        Code::reading(block)
    } else if Thinking::owns(stored) {
        Thinking::reading(block)
    } else if ToolCall::owns(stored) {
        ToolCall::reading(block)
    } else if ToolResult::owns(stored) {
        ToolResult::reading(block)
    } else if ToolError::owns(stored) {
        ToolError::reading(block)
    } else if Status::owns(stored) {
        Status::reading(block)
    } else if SystemPrompt::owns(stored) {
        SystemPrompt::reading(block)
    } else if Streaming::owns(stored) {
        Streaming::reading(block)
    } else if StreamingThinking::owns(stored) {
        StreamingThinking::reading(block)
    } else if StreamingToolCall::owns(stored) {
        StreamingToolCall::reading(block)
    } else if ApprovalRequest::owns(stored) {
        ApprovalRequest::reading(block)
    } else if ApprovalDecision::owns(stored) {
        ApprovalDecision::reading(block)
    } else if DateMarker::owns(stored) {
        DateMarker::reading(block)
    } else if HarnessMessage::owns(stored) {
        HarnessMessage::reading(block)
    } else if AncestorReference::owns(stored) {
        AncestorReference::reading(block)
    } else if ToolChoice::owns(stored) {
        ToolChoice::reading(block)
    } else if MetadataTitleRequest::owns(stored) {
        MetadataTitleRequest::reading(block)
    } else if MetadataTitleResponse::owns(stored) {
        MetadataTitleResponse::reading(block)
    } else {
        model::Kind::Unknown { role: block.role }
    }
}

/// What the machinery asks of the kind it is instantiated over.
pub trait RuntimeKind: Agency + Projection + FromBlock {

}

impl<K: Agency + Projection + FromBlock> RuntimeKind for K {

}

} // verus!
