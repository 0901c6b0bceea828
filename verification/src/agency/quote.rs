//! A quoted span of earlier blocks.

use vstd::prelude::*;

use super::model::Kind;
use super::projection;
use super::projection::{ContentPart, Part, Projection};
use super::{Agency, ContentDescriptor, GateDecision, LeafKind, LedgerName, Run, Wakeup};
use crate::block;
use crate::block::{Awaiting, Block, Role};

verus! {

/// A quoted span of earlier blocks. A user's quote asks the model for a turn.
#[derive(Debug, Clone)]
pub struct Quote {
    /// Whose voice the block speaks in.
    pub role: Option<Role>,
    /// The quoted span.
    pub text: String,
}

impl View for Quote {
    type V = Kind;

    open spec fn view(&self) -> Kind {
        Kind::Quote { role: self.role, text: self.text@ }
    }
}

impl LeafKind for Quote {
    open spec fn owns(stored: Seq<char>) -> bool {
        stored == "quote"@
    }

    open spec fn names() -> Seq<Seq<char>> {
        seq!["quote"@]
    }

    open spec fn reading(block: Block) -> Kind {
        Kind::Quote { role: block.role, text: block::text_or_empty(block, "text"@) }
    }

    fn kinds() -> (kinds: &'static [&'static str]) {
        let kinds: &'static [&'static str] = &["quote"];
        assert(kinds@[0]@ == "quote"@);
        kinds
    }

    fn descriptors() -> (tables: Vec<ContentDescriptor>) {
        Vec::new()
    }

    fn parse(block: &Block) -> (kind: Self) {
        Quote { role: block.role, text: block::string_field(block, "text") }
    }
}

impl Agency for Quote {
    open spec fn asks(kind: Kind) -> Option<Awaiting> {
        match kind {
            Kind::Quote { role, .. } if role == Some(Role::User) => Some(Awaiting::Model),
            _ => None,
        }
    }

    fn awaiting(&self) -> (ask: Option<Awaiting>) {
        if self.role == Some(Role::User) {
            Some(Awaiting::Model)
        } else {
            None
        }
    }

    fn durable(&self) -> (lasts: bool) {
        true
    }

    fn frontier_transparent(&self) -> (transparent: bool) {
        false
    }

    fn heads_the_ledger(&self) -> (heads: bool) {
        false
    }

    fn offers_tools(&self) -> (offers: bool) {
        true
    }

    fn gate(&self) -> (decision: GateDecision) {
        GateDecision::Proceed
    }

    fn run_reads(&self) -> (ledger: Option<LedgerName>) {
        None
    }

    fn run(&self, _ledger: &[Block]) -> (run: Run) {
        Run { done: true, wakeup: None }
    }

    fn post_gate_id(&self, _ledger: &[Block]) -> (next: Option<i64>) {
        None
    }

    fn run_post_gate(&self, _ledger: &[Block]) -> (wakeup: Option<Wakeup>) {
        None
    }
}

impl Projection for Quote {
    open spec fn groups(kind: Kind) -> Option<Role> {
        match kind {
            Kind::Quote { role, .. } => role,
            _ => None,
        }
    }

    open spec fn parts(kind: Kind) -> Option<Seq<Part>> {
        match kind {
            Kind::Quote { text, .. } => Some(seq![Part::Text { text: projection::quotation(projection::lines(text)) }]),
            _ => None,
        }
    }

    open spec fn text(kind: Kind) -> Option<Seq<char>> {
        match kind {
            Kind::Quote { text, .. } => Some(projection::quotation(projection::lines(text))),
            _ => None,
        }
    }

    fn group_role(&self) -> (role: Option<Role>) {
        self.role
    }

    fn llm_parts(&self) -> (parts: Option<Vec<ContentPart>>) {
        projection::one_part(ContentPart::Text { text: projection::render_quote(self.text.as_str()) })
    }

    fn llm_text(&self) -> (text: Option<String>) {
        Some(projection::render_quote(self.text.as_str()))
    }

    fn forces_parts(&self) -> (forces: bool) {
        false
    }
}

} // verus!
