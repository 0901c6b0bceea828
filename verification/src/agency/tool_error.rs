//! A tool's failure.

use vstd::prelude::*;

use super::model::Kind;
use super::projection;
use super::projection::{ContentPart, Part, Projection};
use super::{Agency, ContentDescriptor, GateDecision, LeafKind, LedgerName, Run, Wakeup};
use crate::block;
use crate::block::{Awaiting, Block, Role};

verus! {

/// A tool's failure, or a refusal to run it.
///
/// It always asks the model for a continuation: the model reads why and plans
/// anew.
#[derive(Debug, Clone)]
pub struct ToolError {
    /// Whose voice the block speaks in.
    pub role: Option<Role>,
    /// The provider's id for the call, as the provider gave it.
    pub tool_call_id: String,
    /// The row of the call this answers, where the row names one.
    pub call_block_id: Option<i64>,
    /// Why the call failed.
    pub error: String,
    /// Whether the call was refused rather than tried.
    pub refusal: bool,
}

impl View for ToolError {
    type V = Kind;

    open spec fn view(&self) -> Kind {
        Kind::ToolError {
            role: self.role,
            tool_call_id: self.tool_call_id@,
            call: self.call_block_id,
            error: self.error@,
            refusal: self.refusal,
        }
    }
}

impl ToolError {
    /// Whether the row records a refusal: a round the model spent for nothing
    /// but the reason.
    pub fn records_refusal(&self) -> (refused: bool)
        ensures
            refused == self.refusal,
    {
        self.refusal
    }
}

impl LeafKind for ToolError {
    open spec fn owns(stored: Seq<char>) -> bool {
        stored == "tool_error"@
    }

    open spec fn names() -> Seq<Seq<char>> {
        seq!["tool_error"@]
    }

    open spec fn reading(block: Block) -> Kind {
        Kind::ToolError {
            role: block.role,
            tool_call_id: block::text_or_empty(block, "tool_call_id"@),
            call: block::row_at(block, "call_block_id"@),
            error: block::text_or_empty(block, "error"@),
            refusal: block::flag_at(block, "refusal"@),
        }
    }

    fn kinds() -> (kinds: &'static [&'static str]) {
        let kinds: &'static [&'static str] = &["tool_error"];
        assert(kinds@[0]@ == "tool_error"@);
        kinds
    }

    fn descriptors() -> (tables: Vec<ContentDescriptor>) {
        Vec::new()
    }

    fn parse(block: &Block) -> (kind: Self) {
        ToolError {
            role: block.role,
            tool_call_id: block::string_field(block, "tool_call_id"),
            call_block_id: block::id_field(block, "call_block_id"),
            error: block::string_field(block, "error"),
            refusal: block::bool_field(block, "refusal"),
        }
    }
}

impl Agency for ToolError {
    open spec fn asks(kind: Kind) -> Option<Awaiting> {
        Some(Awaiting::Model)
    }

    fn awaiting(&self) -> (ask: Option<Awaiting>) {
        Some(Awaiting::Model)
    }

    fn durable(&self) -> (lasts: bool) {
        true
    }

    fn frontier_transparent(&self) -> (transparent: bool) {
        false
    }

    fn heads_the_ledger(&self) -> (heads: bool) {
        false
    }

    fn offers_tools(&self) -> (offers: bool) {
        true
    }

    fn gate(&self) -> (decision: GateDecision) {
        GateDecision::Proceed
    }

    fn run_reads(&self) -> (ledger: Option<LedgerName>) {
        None
    }

    fn run(&self, _ledger: &[Block]) -> (run: Run) {
        Run { done: true, wakeup: None }
    }

    fn post_gate_id(&self, _ledger: &[Block]) -> (next: Option<i64>) {
        None
    }

    fn run_post_gate(&self, _ledger: &[Block]) -> (wakeup: Option<Wakeup>) {
        None
    }
}

impl Projection for ToolError {
    open spec fn groups(kind: Kind) -> Option<Role> {
        match kind {
            Kind::ToolError { role, .. } => role,
            _ => None,
        }
    }

    open spec fn parts(kind: Kind) -> Option<Seq<Part>> {
        match kind {
            Kind::ToolError { tool_call_id, error, .. } => Some(
                seq![Part::ToolResult { tool_use_id: tool_call_id, content: error }],
            ),
            _ => None,
        }
    }

    open spec fn text(kind: Kind) -> Option<Seq<char>> {
        match kind {
            Kind::ToolError { error, .. } => Some(error),
            _ => None,
        }
    }

    open spec fn only_parts(kind: Kind) -> bool {
        true
    }

    fn group_role(&self) -> (role: Option<Role>) {
        self.role
    }

    fn llm_parts(&self) -> (parts: Option<Vec<ContentPart>>) {
        projection::one_part(
            ContentPart::ToolResult {
                tool_use_id: self.tool_call_id.clone(),
                content: projection::render_tool_error(self.error.as_str()),
            },
        )
    }

    fn llm_text(&self) -> (text: Option<String>) {
        Some(projection::render_tool_error(self.error.as_str()))
    }

    fn forces_parts(&self) -> (forces: bool) {
        true
    }
}

} // verus!
