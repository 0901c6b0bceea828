//! The conversation a thread continues.

use vstd::prelude::*;

use super::model;
use super::model::Kind;
use super::projection::{ContentPart, Projection};
use super::{Agency, ContentDescriptor, GateDecision, LeafKind, LedgerName, Run, Wakeup};
use crate::block;
use crate::block::{Awaiting, Block, Role};

verus! {

/// The conversation this thread continues, by its id.
///
/// A record, inert in every direction, and invisible to the model: an internal id
/// teaches a model nothing.
#[derive(Debug, Clone)]
pub struct AncestorReference {
    /// The conversation this one continues; zero where none is recorded.
    pub conversation_id: i64,
}

impl View for AncestorReference {
    type V = Kind;

    open spec fn view(&self) -> Kind {
        Kind::AncestorReference { conversation_id: self.conversation_id }
    }
}

impl LeafKind for AncestorReference {
    open spec fn owns(stored: Seq<char>) -> bool {
        stored == "ancestor_reference"@
    }

    open spec fn names() -> Seq<Seq<char>> {
        seq!["ancestor_reference"@]
    }

    open spec fn reading(block: Block) -> Kind {
        Kind::AncestorReference {
            conversation_id: model::int_or_zero(block, "ancestor_conversation_id"@),
        }
    }

    fn kinds() -> (kinds: &'static [&'static str]) {
        let kinds: &'static [&'static str] = &["ancestor_reference"];
        assert(kinds@[0]@ == "ancestor_reference"@);
        kinds
    }

    fn descriptors() -> (tables: Vec<ContentDescriptor>) {
        Vec::new()
    }

    fn parse(block: &Block) -> (kind: Self) {
        AncestorReference { conversation_id: block::i64_field(block, "ancestor_conversation_id") }
    }
}

impl Agency for AncestorReference {
    fn awaiting(&self) -> (ask: Option<Awaiting>) {
        None
    }

    fn durable(&self) -> (lasts: bool) {
        true
    }

    fn frontier_transparent(&self) -> (transparent: bool) {
        false
    }

    fn heads_the_ledger(&self) -> (heads: bool) {
        false
    }

    fn offers_tools(&self) -> (offers: bool) {
        true
    }

    fn gate(&self) -> (decision: GateDecision) {
        GateDecision::Proceed
    }

    fn run_reads(&self) -> (ledger: Option<LedgerName>) {
        None
    }

    fn run(&self, _ledger: &[Block]) -> (run: Run) {
        Run { done: true, wakeup: None }
    }

    fn post_gate_id(&self, _ledger: &[Block]) -> (next: Option<i64>) {
        None
    }

    fn run_post_gate(&self, _ledger: &[Block]) -> (wakeup: Option<Wakeup>) {
        None
    }
}

impl Projection for AncestorReference {
    fn group_role(&self) -> (role: Option<Role>) {
        None
    }

    fn llm_parts(&self) -> (parts: Option<Vec<ContentPart>>) {
        None
    }

    fn llm_text(&self) -> (text: Option<String>) {
        None
    }

    fn forces_parts(&self) -> (forces: bool) {
        false
    }
}

} // verus!
