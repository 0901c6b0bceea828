//! The conversation's system prompt.

use vstd::prelude::*;

use super::model::Kind;
use super::projection;
use super::projection::{ContentPart, Projection};
use super::{Agency, ContentDescriptor, GateDecision, LeafKind, LedgerName, Run, Wakeup};
use crate::block;
use crate::block::{Awaiting, Block, Role};

verus! {

/// The conversation's system prompt: the one kind a conversation opens with.
///
/// It groups under its role and speaks as text only.
#[derive(Debug, Clone)]
pub struct SystemPrompt {
    /// Whose voice the block speaks in.
    pub role: Option<Role>,
    /// The prompt itself.
    pub content: String,
}

impl View for SystemPrompt {
    type V = Kind;

    open spec fn view(&self) -> Kind {
        Kind::SystemPrompt { role: self.role, content: self.content@ }
    }
}

impl LeafKind for SystemPrompt {
    open spec fn owns(stored: Seq<char>) -> bool {
        stored == "system_prompt"@
    }

    open spec fn names() -> Seq<Seq<char>> {
        seq!["system_prompt"@]
    }

    open spec fn reading(block: Block) -> Kind {
        Kind::SystemPrompt { role: block.role, content: block::text_or_empty(block, "content"@) }
    }

    fn kinds() -> (kinds: &'static [&'static str]) {
        let kinds: &'static [&'static str] = &["system_prompt"];
        assert(kinds@[0]@ == "system_prompt"@);
        kinds
    }

    fn descriptors() -> (tables: Vec<ContentDescriptor>) {
        Vec::new()
    }

    fn parse(block: &Block) -> (kind: Self) {
        SystemPrompt { role: block.role, content: block::string_field(block, "content") }
    }
}

impl Agency for SystemPrompt {
    open spec fn heads(kind: Kind) -> bool {
        true
    }

    fn awaiting(&self) -> (ask: Option<Awaiting>) {
        None
    }

    fn durable(&self) -> (lasts: bool) {
        true
    }

    fn frontier_transparent(&self) -> (transparent: bool) {
        false
    }

    fn heads_the_ledger(&self) -> (heads: bool) {
        true
    }

    fn offers_tools(&self) -> (offers: bool) {
        true
    }

    fn gate(&self) -> (decision: GateDecision) {
        GateDecision::Proceed
    }

    fn run_reads(&self) -> (ledger: Option<LedgerName>) {
        None
    }

    fn run(&self, _ledger: &[Block]) -> (run: Run) {
        Run { done: true, wakeup: None }
    }

    fn post_gate_id(&self, _ledger: &[Block]) -> (next: Option<i64>) {
        None
    }

    fn run_post_gate(&self, _ledger: &[Block]) -> (wakeup: Option<Wakeup>) {
        None
    }
}

impl Projection for SystemPrompt {
    open spec fn groups(kind: Kind) -> Option<Role> {
        match kind {
            Kind::SystemPrompt { role, .. } => role,
            _ => None,
        }
    }

    open spec fn text(kind: Kind) -> Option<Seq<char>> {
        match kind {
            Kind::SystemPrompt { content, .. } => Some(content),
            _ => None,
        }
    }

    fn group_role(&self) -> (role: Option<Role>) {
        self.role
    }

    fn llm_parts(&self) -> (parts: Option<Vec<ContentPart>>) {
        None
    }

    fn llm_text(&self) -> (text: Option<String>) {
        Some(projection::render_text(self.content.as_str()))
    }

    fn forces_parts(&self) -> (forces: bool) {
        false
    }
}

} // verus!
