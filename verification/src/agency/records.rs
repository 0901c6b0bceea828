//! The pure records: kinds that ask nothing and whose work is done by being
//! there.
//!
//! A record that carries a role groups under it and contributes nothing, so that a
//! record between two blocks of one role does not split their message.

use vstd::prelude::*;

use super::kinds::str_eq;
use super::model::Kind;
use super::projection::{ContentPart, Projection};
use super::{Agency, ContentDescriptor, GateDecision, LeafKind, LedgerName, Run, Wakeup};
use crate::block;
use crate::block::{Awaiting, Block, Role};

verus! {

/// A cap on the frontier, such as an interrupt: it has no ask, so no turn fires
/// past it.
///
/// A status that stores a turn's end is the exception. It is written behind
/// whatever the dead turn absorbed, and the frontier reads through it.
#[derive(Debug, Clone)]
pub struct Status {
    /// The role the row carries.
    pub role: Option<Role>,
    /// Which status it is.
    pub status: String,
}

impl View for Status {
    type V = Kind;

    open spec fn view(&self) -> Kind {
        Kind::Status { role: self.role, status: self.status@ }
    }
}

/// The status of a turn that closed over an outcome nobody answered.
pub const TURN_ENDED_CLOSED: &'static str = "turn_ended:closed";

/// The status of a turn that an error ended over an outcome nobody answered.
pub const TURN_ENDED_ERRORED: &'static str = "turn_ended:errored";

/// The status of a turn that a run of refused tool calls ended.
pub const TOOL_CALLS_EXHAUSTED: &'static str = "tool_calls_exhausted";

/// The status an interrupt leaves behind.
pub const INTERRUPTED: &'static str = "interrupted";

/// Whether a status stores a turn's end.
pub open spec fn stores_turn_end(status: Seq<char>) -> bool {
    status == TURN_ENDED_CLOSED@ || status == TURN_ENDED_ERRORED@ || status
        == TOOL_CALLS_EXHAUSTED@
}

impl Status {
    /// Whether the row stores a turn's end.
    pub fn records_turn_end(&self) -> (ends: bool)
        ensures
            ends == stores_turn_end(self.status@),
    {
        str_eq(self.status.as_str(), TURN_ENDED_CLOSED) || str_eq(
            self.status.as_str(),
            TURN_ENDED_ERRORED,
        ) || str_eq(self.status.as_str(), TOOL_CALLS_EXHAUSTED)
    }
}

/// The status an interrupt leaves stores no turn's end: it caps the frontier.
pub proof fn an_interrupt_caps_the_frontier(role: Option<Role>)
    ensures
        !stores_turn_end(INTERRUPTED@),
        !Status::see_through(Kind::Status { role, status: INTERRUPTED@ }),
        Status::asks(Kind::Status { role, status: INTERRUPTED@ }) is None,
{
    reveal_strlit("interrupted");
    reveal_strlit("turn_ended:closed");
    reveal_strlit("turn_ended:errored");
    reveal_strlit("tool_calls_exhausted");
    assert(INTERRUPTED@.len() == 11);
    assert(TURN_ENDED_CLOSED@.len() == 17);
    assert(TURN_ENDED_ERRORED@.len() == 18);
    assert(TOOL_CALLS_EXHAUSTED@.len() == 20);
}

impl LeafKind for Status {
    open spec fn owns(stored: Seq<char>) -> bool {
        stored == "status"@
    }

    open spec fn names() -> Seq<Seq<char>> {
        seq!["status"@]
    }

    open spec fn reading(block: Block) -> Kind {
        Kind::Status { role: block.role, status: block::text_or_empty(block, "status"@) }
    }

    fn kinds() -> (kinds: &'static [&'static str]) {
        let kinds: &'static [&'static str] = &["status"];
        assert(kinds@[0]@ == "status"@);
        kinds
    }

    fn descriptors() -> (tables: Vec<ContentDescriptor>) {
        Vec::new()
    }

    fn parse(block: &Block) -> (kind: Self) {
        Status { role: block.role, status: block::string_field(block, "status") }
    }
}

impl Agency for Status {
    open spec fn see_through(kind: Kind) -> bool {
        match kind {
            Kind::Status { status, .. } => stores_turn_end(status),
            _ => false,
        }
    }

    fn awaiting(&self) -> (ask: Option<Awaiting>) {
        None
    }

    fn durable(&self) -> (lasts: bool) {
        true
    }

    fn frontier_transparent(&self) -> (transparent: bool) {
        self.records_turn_end()
    }

    fn heads_the_ledger(&self) -> (heads: bool) {
        false
    }

    fn offers_tools(&self) -> (offers: bool) {
        true
    }

    fn gate(&self) -> (decision: GateDecision) {
        GateDecision::Proceed
    }

    fn run_reads(&self) -> (ledger: Option<LedgerName>) {
        None
    }

    fn run(&self, _ledger: &[Block]) -> (run: Run) {
        Run { done: true, wakeup: None }
    }

    fn post_gate_id(&self, _ledger: &[Block]) -> (next: Option<i64>) {
        None
    }

    fn run_post_gate(&self, _ledger: &[Block]) -> (wakeup: Option<Wakeup>) {
        None
    }
}

impl Projection for Status {
    open spec fn groups(kind: Kind) -> Option<Role> {
        match kind {
            Kind::Status { role, .. } => role,
            _ => None,
        }
    }

    fn group_role(&self) -> (role: Option<Role>) {
        self.role
    }

    fn llm_parts(&self) -> (parts: Option<Vec<ContentPart>>) {
        None
    }

    fn llm_text(&self) -> (text: Option<String>) {
        None
    }

    fn forces_parts(&self) -> (forces: bool) {
        false
    }
}

/// The tail of a text that is still streaming in. The finalization that replaces
/// it deletes the row.
#[derive(Debug, Clone, Copy)]
pub struct Streaming;

impl View for Streaming {
    type V = Kind;

    open spec fn view(&self) -> Kind {
        Kind::Streaming
    }
}

impl LeafKind for Streaming {
    open spec fn owns(stored: Seq<char>) -> bool {
        stored == "streaming"@
    }

    open spec fn names() -> Seq<Seq<char>> {
        seq!["streaming"@]
    }

    open spec fn reading(block: Block) -> Kind {
        Kind::Streaming
    }

    fn kinds() -> (kinds: &'static [&'static str]) {
        let kinds: &'static [&'static str] = &["streaming"];
        assert(kinds@[0]@ == "streaming"@);
        kinds
    }

    fn descriptors() -> (tables: Vec<ContentDescriptor>) {
        Vec::new()
    }

    fn parse(_block: &Block) -> (kind: Self) {
        Streaming
    }
}

impl Agency for Streaming {
    open spec fn lasts(kind: Kind) -> bool {
        false
    }

    fn awaiting(&self) -> (ask: Option<Awaiting>) {
        None
    }

    fn durable(&self) -> (lasts: bool) {
        false
    }

    fn frontier_transparent(&self) -> (transparent: bool) {
        false
    }

    fn heads_the_ledger(&self) -> (heads: bool) {
        false
    }

    fn offers_tools(&self) -> (offers: bool) {
        true
    }

    fn gate(&self) -> (decision: GateDecision) {
        GateDecision::Proceed
    }

    fn run_reads(&self) -> (ledger: Option<LedgerName>) {
        None
    }

    fn run(&self, _ledger: &[Block]) -> (run: Run) {
        Run { done: true, wakeup: None }
    }

    fn post_gate_id(&self, _ledger: &[Block]) -> (next: Option<i64>) {
        None
    }

    fn run_post_gate(&self, _ledger: &[Block]) -> (wakeup: Option<Wakeup>) {
        None
    }
}

impl Projection for Streaming {
    fn group_role(&self) -> (role: Option<Role>) {
        None
    }

    fn llm_parts(&self) -> (parts: Option<Vec<ContentPart>>) {
        None
    }

    fn llm_text(&self) -> (text: Option<String>) {
        None
    }

    fn forces_parts(&self) -> (forces: bool) {
        false
    }
}

/// The tail of reasoning that is still streaming in. The finalization that
/// replaces it deletes the row.
#[derive(Debug, Clone, Copy)]
pub struct StreamingThinking;

impl View for StreamingThinking {
    type V = Kind;

    open spec fn view(&self) -> Kind {
        Kind::StreamingThinking
    }
}

impl LeafKind for StreamingThinking {
    open spec fn owns(stored: Seq<char>) -> bool {
        stored == "streaming_thinking"@
    }

    open spec fn names() -> Seq<Seq<char>> {
        seq!["streaming_thinking"@]
    }

    open spec fn reading(block: Block) -> Kind {
        Kind::StreamingThinking
    }

    fn kinds() -> (kinds: &'static [&'static str]) {
        let kinds: &'static [&'static str] = &["streaming_thinking"];
        assert(kinds@[0]@ == "streaming_thinking"@);
        kinds
    }

    fn descriptors() -> (tables: Vec<ContentDescriptor>) {
        Vec::new()
    }

    fn parse(_block: &Block) -> (kind: Self) {
        StreamingThinking
    }
}

impl Agency for StreamingThinking {
    open spec fn lasts(kind: Kind) -> bool {
        false
    }

    fn awaiting(&self) -> (ask: Option<Awaiting>) {
        None
    }

    fn durable(&self) -> (lasts: bool) {
        false
    }

    fn frontier_transparent(&self) -> (transparent: bool) {
        false
    }

    fn heads_the_ledger(&self) -> (heads: bool) {
        false
    }

    fn offers_tools(&self) -> (offers: bool) {
        true
    }

    fn gate(&self) -> (decision: GateDecision) {
        GateDecision::Proceed
    }

    fn run_reads(&self) -> (ledger: Option<LedgerName>) {
        None
    }

    fn run(&self, _ledger: &[Block]) -> (run: Run) {
        Run { done: true, wakeup: None }
    }

    fn post_gate_id(&self, _ledger: &[Block]) -> (next: Option<i64>) {
        None
    }

    fn run_post_gate(&self, _ledger: &[Block]) -> (wakeup: Option<Wakeup>) {
        None
    }
}

impl Projection for StreamingThinking {
    fn group_role(&self) -> (role: Option<Role>) {
        None
    }

    fn llm_parts(&self) -> (parts: Option<Vec<ContentPart>>) {
        None
    }

    fn llm_text(&self) -> (text: Option<String>) {
        None
    }

    fn forces_parts(&self) -> (forces: bool) {
        false
    }
}

/// The tail of a tool call's input that is still streaming in. The finalization
/// that replaces it deletes the row.
#[derive(Debug, Clone, Copy)]
pub struct StreamingToolCall;

impl View for StreamingToolCall {
    type V = Kind;

    open spec fn view(&self) -> Kind {
        Kind::StreamingToolCall
    }
}

impl LeafKind for StreamingToolCall {
    open spec fn owns(stored: Seq<char>) -> bool {
        stored == "streaming_tool_call"@
    }

    open spec fn names() -> Seq<Seq<char>> {
        seq!["streaming_tool_call"@]
    }

    open spec fn reading(block: Block) -> Kind {
        Kind::StreamingToolCall
    }

    fn kinds() -> (kinds: &'static [&'static str]) {
        let kinds: &'static [&'static str] = &["streaming_tool_call"];
        assert(kinds@[0]@ == "streaming_tool_call"@);
        kinds
    }

    fn descriptors() -> (tables: Vec<ContentDescriptor>) {
        Vec::new()
    }

    fn parse(_block: &Block) -> (kind: Self) {
        StreamingToolCall
    }
}

impl Agency for StreamingToolCall {
    open spec fn lasts(kind: Kind) -> bool {
        false
    }

    fn awaiting(&self) -> (ask: Option<Awaiting>) {
        None
    }

    fn durable(&self) -> (lasts: bool) {
        false
    }

    fn frontier_transparent(&self) -> (transparent: bool) {
        false
    }

    fn heads_the_ledger(&self) -> (heads: bool) {
        false
    }

    fn offers_tools(&self) -> (offers: bool) {
        true
    }

    fn gate(&self) -> (decision: GateDecision) {
        GateDecision::Proceed
    }

    fn run_reads(&self) -> (ledger: Option<LedgerName>) {
        None
    }

    fn run(&self, _ledger: &[Block]) -> (run: Run) {
        Run { done: true, wakeup: None }
    }

    fn post_gate_id(&self, _ledger: &[Block]) -> (next: Option<i64>) {
        None
    }

    fn run_post_gate(&self, _ledger: &[Block]) -> (wakeup: Option<Wakeup>) {
        None
    }
}

impl Projection for StreamingToolCall {
    fn group_role(&self) -> (role: Option<Role>) {
        None
    }

    fn llm_parts(&self) -> (parts: Option<Vec<ContentPart>>) {
        None
    }

    fn llm_text(&self) -> (text: Option<String>) {
        None
    }

    fn forces_parts(&self) -> (forces: bool) {
        false
    }
}

/// A row of a type this build does not know: inert in every direction, so that
/// an old build reading a newer ledger fails safe.
#[derive(Debug, Clone, Copy)]
pub struct Unknown {
    /// The role the row carries.
    pub role: Option<Role>,
}

impl View for Unknown {
    type V = Kind;

    open spec fn view(&self) -> Kind {
        Kind::Unknown { role: self.role }
    }
}

impl Unknown {
    /// Read a row nobody owns.
    pub fn parse(block: &Block) -> (kind: Self)
        ensures
            kind@ == (Kind::Unknown { role: block.role }),
    {
        Unknown { role: block.role }
    }
}

impl Agency for Unknown {
    fn awaiting(&self) -> (ask: Option<Awaiting>) {
        None
    }

    fn durable(&self) -> (lasts: bool) {
        true
    }

    fn frontier_transparent(&self) -> (transparent: bool) {
        false
    }

    fn heads_the_ledger(&self) -> (heads: bool) {
        false
    }

    fn offers_tools(&self) -> (offers: bool) {
        true
    }

    fn gate(&self) -> (decision: GateDecision) {
        GateDecision::Proceed
    }

    fn run_reads(&self) -> (ledger: Option<LedgerName>) {
        None
    }

    fn run(&self, _ledger: &[Block]) -> (run: Run) {
        Run { done: true, wakeup: None }
    }

    fn post_gate_id(&self, _ledger: &[Block]) -> (next: Option<i64>) {
        None
    }

    fn run_post_gate(&self, _ledger: &[Block]) -> (wakeup: Option<Wakeup>) {
        None
    }
}

impl Projection for Unknown {
    open spec fn groups(kind: Kind) -> Option<Role> {
        match kind {
            Kind::Unknown { role, .. } => role,
            _ => None,
        }
    }

    fn group_role(&self) -> (role: Option<Role>) {
        self.role
    }

    fn llm_parts(&self) -> (parts: Option<Vec<ContentPart>>) {
        None
    }

    fn llm_text(&self) -> (text: Option<String>) {
        None
    }

    fn forces_parts(&self) -> (forces: bool) {
        false
    }
}

} // verus!
