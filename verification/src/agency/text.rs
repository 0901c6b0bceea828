//! Prose.

use vstd::prelude::*;

use super::model::Kind;
use super::projection;
use super::projection::{ContentPart, Part, Projection};
use super::{Agency, ContentDescriptor, GateDecision, LeafKind, LedgerName, Run, Wakeup};
use crate::block;
use crate::block::{Awaiting, Block, Role};

verus! {

/// Prose, in whatever voice the row carries.
///
/// The user's prose asks the model for a turn. Prose in any other voice states
/// something and asks for nothing.
#[derive(Debug, Clone)]
pub struct Text {
    /// Whose voice the block speaks in.
    pub role: Option<Role>,
    /// The prose itself.
    pub content: String,
}

impl View for Text {
    type V = Kind;

    open spec fn view(&self) -> Kind {
        Kind::Text { role: self.role, content: self.content@ }
    }
}

impl LeafKind for Text {
    open spec fn owns(stored: Seq<char>) -> bool {
        stored == "text"@
    }

    open spec fn names() -> Seq<Seq<char>> {
        seq!["text"@]
    }

    open spec fn reading(block: Block) -> Kind {
        Kind::Text { role: block.role, content: block::text_or_empty(block, "content"@) }
    }

    fn kinds() -> (kinds: &'static [&'static str]) {
        let kinds: &'static [&'static str] = &["text"];
        assert(kinds@[0]@ == "text"@);
        kinds
    }

    fn descriptors() -> (tables: Vec<ContentDescriptor>) {
        Vec::new()
    }

    fn parse(block: &Block) -> (kind: Self) {
        Text { role: block.role, content: block::string_field(block, "content") }
    }
}

impl Agency for Text {
    open spec fn asks(kind: Kind) -> Option<Awaiting> {
        match kind {
            Kind::Text { role, .. } if role == Some(Role::User) => Some(Awaiting::Model),
            _ => None,
        }
    }

    fn awaiting(&self) -> (ask: Option<Awaiting>) {
        if self.role == Some(Role::User) {
            Some(Awaiting::Model)
        } else {
            None
        }
    }

    fn durable(&self) -> (lasts: bool) {
        true
    }

    fn frontier_transparent(&self) -> (transparent: bool) {
        false
    }

    fn heads_the_ledger(&self) -> (heads: bool) {
        false
    }

    fn offers_tools(&self) -> (offers: bool) {
        true
    }

    fn gate(&self) -> (decision: GateDecision) {
        GateDecision::Proceed
    }

    fn run_reads(&self) -> (ledger: Option<LedgerName>) {
        None
    }

    fn run(&self, _ledger: &[Block]) -> (run: Run) {
        Run { done: true, wakeup: None }
    }

    fn post_gate_id(&self, _ledger: &[Block]) -> (next: Option<i64>) {
        None
    }

    fn run_post_gate(&self, _ledger: &[Block]) -> (wakeup: Option<Wakeup>) {
        None
    }
}

impl Projection for Text {
    open spec fn groups(kind: Kind) -> Option<Role> {
        match kind {
            Kind::Text { role, .. } => role,
            _ => None,
        }
    }

    open spec fn parts(kind: Kind) -> Option<Seq<Part>> {
        match kind {
            Kind::Text { content, .. } => Some(seq![Part::Text { text: content }]),
            _ => None,
        }
    }

    open spec fn text(kind: Kind) -> Option<Seq<char>> {
        match kind {
            Kind::Text { content, .. } => Some(content),
            _ => None,
        }
    }

    fn group_role(&self) -> (role: Option<Role>) {
        self.role
    }

    fn llm_parts(&self) -> (parts: Option<Vec<ContentPart>>) {
        projection::one_part(ContentPart::Text { text: projection::render_text(self.content.as_str()) })
    }

    fn llm_text(&self) -> (text: Option<String>) {
        Some(projection::render_text(self.content.as_str()))
    }

    fn forces_parts(&self) -> (forces: bool) {
        false
    }
}

} // verus!
