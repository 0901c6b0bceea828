//! A tool's answer.

use vstd::prelude::*;

use super::model::Kind;
use super::projection;
use super::projection::{ContentPart, Part, Projection};
use super::{Agency, ContentDescriptor, GateDecision, LeafKind, LedgerName, Run, Wakeup};
use crate::block;
use crate::block::{Awaiting, Block, Role};

verus! {

/// A tool's answer to a call.
///
/// It asks the model for a continuation, unless the row is stamped as ending the
/// turn: then it asks for nothing, and the frontier reads through it.
#[derive(Debug, Clone)]
pub struct ToolResult {
    /// Whose voice the block speaks in.
    pub role: Option<Role>,
    /// The provider's id for the call, as the provider gave it.
    pub tool_call_id: String,
    /// The row of the call this answers, where the row names one.
    pub call_block_id: Option<i64>,
    /// What the tool said.
    pub content: String,
    /// Whether the turn ends with this answer.
    pub ends_turn: bool,
}

impl View for ToolResult {
    type V = Kind;

    open spec fn view(&self) -> Kind {
        Kind::ToolResult {
            role: self.role,
            tool_call_id: self.tool_call_id@,
            call: self.call_block_id,
            content: self.content@,
            ends_turn: self.ends_turn,
        }
    }
}

impl LeafKind for ToolResult {
    open spec fn owns(stored: Seq<char>) -> bool {
        stored == "tool_result"@
    }

    open spec fn names() -> Seq<Seq<char>> {
        seq!["tool_result"@]
    }

    open spec fn reading(block: Block) -> Kind {
        Kind::ToolResult {
            role: block.role,
            tool_call_id: block::text_or_empty(block, "tool_call_id"@),
            call: block::row_at(block, "call_block_id"@),
            content: block::text_or_empty(block, "content"@),
            ends_turn: block::flag_at(block, "ends_turn"@),
        }
    }

    fn kinds() -> (kinds: &'static [&'static str]) {
        let kinds: &'static [&'static str] = &["tool_result"];
        assert(kinds@[0]@ == "tool_result"@);
        kinds
    }

    fn descriptors() -> (tables: Vec<ContentDescriptor>) {
        Vec::new()
    }

    fn parse(block: &Block) -> (kind: Self) {
        ToolResult {
            role: block.role,
            tool_call_id: block::string_field(block, "tool_call_id"),
            call_block_id: block::id_field(block, "call_block_id"),
            content: block::string_field(block, "content"),
            ends_turn: block::bool_field(block, "ends_turn"),
        }
    }
}

impl Agency for ToolResult {
    open spec fn asks(kind: Kind) -> Option<Awaiting> {
        match kind {
            Kind::ToolResult { ends_turn, .. } if !ends_turn => Some(Awaiting::Model),
            _ => None,
        }
    }

    open spec fn see_through(kind: Kind) -> bool {
        match kind {
            Kind::ToolResult { ends_turn, .. } => ends_turn,
            _ => false,
        }
    }

    fn awaiting(&self) -> (ask: Option<Awaiting>) {
        if self.ends_turn {
            None
        } else {
            Some(Awaiting::Model)
        }
    }

    fn durable(&self) -> (lasts: bool) {
        true
    }

    fn frontier_transparent(&self) -> (transparent: bool) {
        self.ends_turn
    }

    fn heads_the_ledger(&self) -> (heads: bool) {
        false
    }

    fn offers_tools(&self) -> (offers: bool) {
        true
    }

    fn gate(&self) -> (decision: GateDecision) {
        GateDecision::Proceed
    }

    fn run_reads(&self) -> (ledger: Option<LedgerName>) {
        None
    }

    fn run(&self, _ledger: &[Block]) -> (run: Run) {
        Run { done: true, wakeup: None }
    }

    fn post_gate_id(&self, _ledger: &[Block]) -> (next: Option<i64>) {
        None
    }

    fn run_post_gate(&self, _ledger: &[Block]) -> (wakeup: Option<Wakeup>) {
        None
    }
}

impl Projection for ToolResult {
    open spec fn groups(kind: Kind) -> Option<Role> {
        match kind {
            Kind::ToolResult { role, .. } => role,
            _ => None,
        }
    }

    open spec fn parts(kind: Kind) -> Option<Seq<Part>> {
        match kind {
            Kind::ToolResult { tool_call_id, content, .. } => Some(
                seq![Part::ToolResult { tool_use_id: tool_call_id, content }],
            ),
            _ => None,
        }
    }

    open spec fn text(kind: Kind) -> Option<Seq<char>> {
        match kind {
            Kind::ToolResult { content, .. } => Some(content),
            _ => None,
        }
    }

    open spec fn only_parts(kind: Kind) -> bool {
        true
    }

    fn group_role(&self) -> (role: Option<Role>) {
        self.role
    }

    fn llm_parts(&self) -> (parts: Option<Vec<ContentPart>>) {
        projection::one_part(
            ContentPart::ToolResult {
                tool_use_id: self.tool_call_id.clone(),
                content: projection::render_tool_result(self.content.as_str()),
            },
        )
    }

    fn llm_text(&self) -> (text: Option<String>) {
        Some(projection::render_tool_result(self.content.as_str()))
    }

    fn forces_parts(&self) -> (forces: bool) {
        true
    }
}

} // verus!
