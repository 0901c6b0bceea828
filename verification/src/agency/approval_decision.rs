//! The human's verdict on an approval request.

use vstd::prelude::*;

use super::kinds::str_eq;
use super::model::Kind;
use super::projection::{ContentPart, Projection};
#[allow(unused_imports)]
use super::rows;
use super::tool_call;
use super::{
    Agency, BlockKind, ContentDescriptor, FromBlock, GateDecision, LeafKind, LedgerName, Run,
    Wakeup,
};
use crate::agency;
use crate::block;
use crate::block::{ApprovalChoice, Awaiting, Block, Role};

verus! {

/// The human's verdict on an approval request.
#[derive(Debug, Clone, Copy)]
pub struct ApprovalDecision {
    /// The row this decision is.
    pub id: i64,
    /// The row of the request it answers, where it names one.
    pub for_block_id: Option<i64>,
    /// Whether the human approved.
    pub approved: bool,
}

impl View for ApprovalDecision {
    type V = Kind;

    open spec fn view(&self) -> Kind {
        Kind::ApprovalDecision {
            id: self.id,
            for_block_id: self.for_block_id,
            approved: self.approved,
        }
    }
}

/// Whether a row is a request that covers a call which still owes its body.
pub open spec fn covers_owed_call(ledger: Seq<Block>, request: i64) -> bool {
    match tool_call::row_from(ledger, 0, request) {
        Some(at) => match agency::read(ledger[at]) {
            Kind::ApprovalRequest { for_block_id, .. } => tool_call::owed(ledger, for_block_id),
            _ => false,
        },
        None => false,
    }
}

/// An approval routes to the request it names exactly while that row is a
/// request whose call still owes its outcome. A refusal, and a decision that
/// names no row, route nowhere.
pub proof fn an_approval_routes_to_its_request(block: Block, ledger: Seq<Block>, at: int)
    requires
        block.block_type@ == "approval_decision"@,
        block::row_at(block, "for_block_id"@) matches Some(request) ==> (0 <= at < ledger.len()
            && ledger[at].id == request && forall|i: int|
            0 <= i < at ==> (#[trigger] ledger[i]).id != request) || (forall|i: int|
            0 <= i < ledger.len() ==> (#[trigger] ledger[i]).id != request),
    ensures
        ({
            let next = BlockKind::route(agency::read(block), ledger);
            let named = block::row_at(block, "for_block_id"@);
            &&& next is Some ==> next == named
            &&& next is Some <==> named is Some && block::text_at(block, "decision"@) == Some(
                "approved"@,
            ) && 0 <= at < ledger.len() && Some(ledger[at].id) == named && ledger[at].block_type@
                == "approval_request"@ && (block::int_at(
                ledger[at],
                "for_block_id"@,
            ) matches Some(call) && tool_call::owed(ledger, call))
        }),
{
    rows::a_row_is_of_the_kind_its_type_names(block);
    rows::a_kind_holds_what_its_row_carries(block);
    if let Some(request) = block::row_at(block, "for_block_id"@) {
        tool_call::the_first_row_with_an_id_is_the_one_found(ledger, 0, request);
        if let Some(found) = tool_call::row_from(ledger, 0, request) {
            rows::a_row_is_of_the_kind_its_type_names(ledger[found]);
            rows::a_kind_holds_what_its_row_carries(ledger[found]);
            assert(ledger[found].id == request);
            assert(found == at);
        }
    }
}

impl LeafKind for ApprovalDecision {
    open spec fn owns(stored: Seq<char>) -> bool {
        stored == "approval_decision"@
    }

    open spec fn names() -> Seq<Seq<char>> {
        seq!["approval_decision"@]
    }

    open spec fn reading(block: Block) -> Kind {
        Kind::ApprovalDecision {
            id: block.id,
            for_block_id: block::row_at(block, "for_block_id"@),
            approved: block::text_at(block, "decision"@) == Some(ApprovalChoice::Approved.word()),
        }
    }

    fn kinds() -> (kinds: &'static [&'static str]) {
        let kinds: &'static [&'static str] = &["approval_decision"];
        assert(kinds@[0]@ == "approval_decision"@);
        kinds
    }

    fn descriptors() -> (tables: Vec<ContentDescriptor>) {
        Vec::new()
    }

    fn parse(block: &Block) -> (kind: Self) {
        let approved = match block::optional_string_field(block, "decision") {
            Some(word) => str_eq(word.as_str(), ApprovalChoice::Approved.as_str()),
            None => false,
        };
        ApprovalDecision { id: block.id, for_block_id: block::id_field(block, "for_block_id"), approved }
    }
}

impl Agency for ApprovalDecision {
    open spec fn asks(kind: Kind) -> Option<Awaiting> {
        Some(Awaiting::OutOfBand)
    }

    open spec fn route(kind: Kind, ledger: Seq<Block>) -> Option<i64> {
        match kind {
            Kind::ApprovalDecision { for_block_id: Some(request), approved, .. } => if approved
                && covers_owed_call(ledger, request) {
                Some(request)
            } else {
                None
            },
            _ => None,
        }
    }

    fn awaiting(&self) -> (ask: Option<Awaiting>) {
        Some(Awaiting::OutOfBand)
    }

    fn durable(&self) -> (lasts: bool) {
        true
    }

    fn frontier_transparent(&self) -> (transparent: bool) {
        false
    }

    fn heads_the_ledger(&self) -> (heads: bool) {
        false
    }

    fn offers_tools(&self) -> (offers: bool) {
        true
    }

    fn gate(&self) -> (decision: GateDecision) {
        GateDecision::Proceed
    }

    fn run_reads(&self) -> (ledger: Option<LedgerName>) {
        None
    }

    fn run(&self, _ledger: &[Block]) -> (run: Run) {
        Run { done: true, wakeup: None }
    }

    /// The request the decision answers, where it approves one whose call still owes
    /// its body.
    fn post_gate_id(&self, ledger: &[Block]) -> (next: Option<i64>) {
        if !self.approved {
            return None;
        }
        let answered: i64 = match self.for_block_id {
            Some(answered) => answered,
            None => {
                return None;
            },
        };
        let at: usize = match tool_call::row_position(ledger, answered) {
            Some(at) => at,
            None => {
                return None;
            },
        };
        match BlockKind::from_block(&ledger[at]) {
            BlockKind::ApprovalRequest(request) => match tool_call::unresolved_call_named(
                ledger,
                request.for_block_id,
            ) {
                Some(_) => Some(answered),
                None => None,
            },
            _ => None,
        }
    }

    fn run_post_gate(&self, _ledger: &[Block]) -> (wakeup: Option<Wakeup>) {
        None
    }
}

impl Projection for ApprovalDecision {
    fn group_role(&self) -> (role: Option<Role>) {
        None
    }

    fn llm_parts(&self) -> (parts: Option<Vec<ContentPart>>) {
        None
    }

    fn llm_text(&self) -> (text: Option<String>) {
        None
    }

    fn forces_parts(&self) -> (forces: bool) {
        false
    }
}

} // verus!
