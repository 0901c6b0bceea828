//! The harness's own message to the model.

use vstd::prelude::*;

use super::model::Kind;
use super::projection;
use super::projection::{ContentPart, Part, Projection};
use super::{Agency, ContentDescriptor, GateDecision, LeafKind, LedgerName, Run, Wakeup};
use crate::block;
use crate::block::{Awaiting, Block, Role};

verus! {

/// A message the harness itself puts to the model.
///
/// It asks the model for a turn whatever voice the row carries: a block of this
/// kind is there because something wanted a turn. The answer it wants is words,
/// so the turn it summons is offered no tools.
#[derive(Debug, Clone)]
pub struct HarnessMessage {
    /// Whose voice the block speaks in.
    pub role: Option<Role>,
    /// The instructions themselves.
    pub content: String,
}

impl View for HarnessMessage {
    type V = Kind;

    open spec fn view(&self) -> Kind {
        Kind::HarnessMessage { role: self.role, content: self.content@ }
    }
}

impl LeafKind for HarnessMessage {
    open spec fn owns(stored: Seq<char>) -> bool {
        stored == "harness_message"@
    }

    open spec fn names() -> Seq<Seq<char>> {
        seq!["harness_message"@]
    }

    open spec fn reading(block: Block) -> Kind {
        Kind::HarnessMessage { role: block.role, content: block::text_or_empty(block, "content"@) }
    }

    fn kinds() -> (kinds: &'static [&'static str]) {
        let kinds: &'static [&'static str] = &["harness_message"];
        assert(kinds@[0]@ == "harness_message"@);
        kinds
    }

    fn descriptors() -> (tables: Vec<ContentDescriptor>) {
        Vec::new()
    }

    fn parse(block: &Block) -> (kind: Self) {
        HarnessMessage { role: block.role, content: block::string_field(block, "content") }
    }
}

impl Agency for HarnessMessage {
    open spec fn asks(kind: Kind) -> Option<Awaiting> {
        Some(Awaiting::Model)
    }

    open spec fn tooled(kind: Kind) -> bool {
        false
    }

    fn awaiting(&self) -> (ask: Option<Awaiting>) {
        Some(Awaiting::Model)
    }

    fn durable(&self) -> (lasts: bool) {
        true
    }

    fn frontier_transparent(&self) -> (transparent: bool) {
        false
    }

    fn heads_the_ledger(&self) -> (heads: bool) {
        false
    }

    fn offers_tools(&self) -> (offers: bool) {
        false
    }

    fn gate(&self) -> (decision: GateDecision) {
        GateDecision::Proceed
    }

    fn run_reads(&self) -> (ledger: Option<LedgerName>) {
        None
    }

    fn run(&self, _ledger: &[Block]) -> (run: Run) {
        Run { done: true, wakeup: None }
    }

    fn post_gate_id(&self, _ledger: &[Block]) -> (next: Option<i64>) {
        None
    }

    fn run_post_gate(&self, _ledger: &[Block]) -> (wakeup: Option<Wakeup>) {
        None
    }
}

impl Projection for HarnessMessage {
    open spec fn groups(kind: Kind) -> Option<Role> {
        match kind {
            Kind::HarnessMessage { role, .. } => role,
            _ => None,
        }
    }

    open spec fn parts(kind: Kind) -> Option<Seq<Part>> {
        match kind {
            Kind::HarnessMessage { content, .. } => Some(seq![Part::Text { text: content }]),
            _ => None,
        }
    }

    open spec fn text(kind: Kind) -> Option<Seq<char>> {
        match kind {
            Kind::HarnessMessage { content, .. } => Some(content),
            _ => None,
        }
    }

    fn group_role(&self) -> (role: Option<Role>) {
        self.role
    }

    fn llm_parts(&self) -> (parts: Option<Vec<ContentPart>>) {
        projection::one_part(ContentPart::Text { text: projection::render_text(self.content.as_str()) })
    }

    fn llm_text(&self) -> (text: Option<String>) {
        Some(projection::render_text(self.content.as_str()))
    }

    fn forces_parts(&self) -> (forces: bool) {
        false
    }
}

} // verus!
