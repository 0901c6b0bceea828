//! A code snippet.

use vstd::prelude::*;

use super::model::Kind;
use super::projection;
use super::projection::{ContentPart, Part, Projection};
use super::{Agency, ContentDescriptor, GateDecision, LeafKind, LedgerName, Run, Wakeup};
use crate::block;
use crate::block::{Awaiting, Block, Role};

verus! {

/// A code snippet. A user's snippet asks the model for a turn.
#[derive(Debug, Clone)]
pub struct Code {
    /// Whose voice the block speaks in.
    pub role: Option<Role>,
    /// The language, where one was recorded.
    pub language: Option<String>,
    /// The snippet itself.
    pub content: String,
}

impl View for Code {
    type V = Kind;

    open spec fn view(&self) -> Kind {
        Kind::Code {
            role: self.role,
            language: block::text_view(self.language),
            content: self.content@,
        }
    }
}

/// A snippet in its fence.
pub open spec fn fenced_code(language: Option<Seq<char>>, content: Seq<char>) -> Seq<char> {
    projection::fence(
        match language {
            Some(name) => name,
            None => seq![],
        },
        content,
    )
}

impl Code {
    /// The snippet in its fence, as it is shown in either mode.
    pub fn fenced(&self) -> (text: String)
        ensures
            text@ == fenced_code(block::text_view(self.language), self.content@),
    {
        match &self.language {
            Some(name) => projection::render_code(Some(name.as_str()), self.content.as_str()),
            None => projection::render_code(None, self.content.as_str()),
        }
    }
}

impl LeafKind for Code {
    open spec fn owns(stored: Seq<char>) -> bool {
        stored == "code"@
    }

    open spec fn names() -> Seq<Seq<char>> {
        seq!["code"@]
    }

    open spec fn reading(block: Block) -> Kind {
        Kind::Code {
            role: block.role,
            language: block::text_at(block, "language"@),
            content: block::text_or_empty(block, "content"@),
        }
    }

    fn kinds() -> (kinds: &'static [&'static str]) {
        let kinds: &'static [&'static str] = &["code"];
        assert(kinds@[0]@ == "code"@);
        kinds
    }

    fn descriptors() -> (tables: Vec<ContentDescriptor>) {
        Vec::new()
    }

    fn parse(block: &Block) -> (kind: Self) {
        Code {
            role: block.role,
            language: block::optional_string_field(block, "language"),
            content: block::string_field(block, "content"),
        }
    }
}

impl Agency for Code {
    open spec fn asks(kind: Kind) -> Option<Awaiting> {
        match kind {
            Kind::Code { role, .. } if role == Some(Role::User) => Some(Awaiting::Model),
            _ => None,
        }
    }

    fn awaiting(&self) -> (ask: Option<Awaiting>) {
        if self.role == Some(Role::User) {
            Some(Awaiting::Model)
        } else {
            None
        }
    }

    fn durable(&self) -> (lasts: bool) {
        true
    }

    fn frontier_transparent(&self) -> (transparent: bool) {
        false
    }

    fn heads_the_ledger(&self) -> (heads: bool) {
        false
    }

    fn offers_tools(&self) -> (offers: bool) {
        true
    }

    fn gate(&self) -> (decision: GateDecision) {
        GateDecision::Proceed
    }

    fn run_reads(&self) -> (ledger: Option<LedgerName>) {
        None
    }

    fn run(&self, _ledger: &[Block]) -> (run: Run) {
        Run { done: true, wakeup: None }
    }

    fn post_gate_id(&self, _ledger: &[Block]) -> (next: Option<i64>) {
        None
    }

    fn run_post_gate(&self, _ledger: &[Block]) -> (wakeup: Option<Wakeup>) {
        None
    }
}

impl Projection for Code {
    open spec fn groups(kind: Kind) -> Option<Role> {
        match kind {
            Kind::Code { role, .. } => role,
            _ => None,
        }
    }

    open spec fn parts(kind: Kind) -> Option<Seq<Part>> {
        match kind {
            Kind::Code { language, content, .. } => Some(seq![Part::Text { text: fenced_code(language, content) }]),
            _ => None,
        }
    }

    open spec fn text(kind: Kind) -> Option<Seq<char>> {
        match kind {
            Kind::Code { language, content, .. } => Some(fenced_code(language, content)),
            _ => None,
        }
    }

    fn group_role(&self) -> (role: Option<Role>) {
        self.role
    }

    fn llm_parts(&self) -> (parts: Option<Vec<ContentPart>>) {
        projection::one_part(ContentPart::Text { text: self.fenced() })
    }

    fn llm_text(&self) -> (text: Option<String>) {
        Some(self.fenced())
    }

    fn forces_parts(&self) -> (forces: bool) {
        false
    }
}

} // verus!
