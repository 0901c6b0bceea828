//! The system's ask for a human's clearance of a tool call.

use vstd::prelude::*;

use super::model;
use super::model::Kind;
use super::projection::{ContentPart, Projection};
#[allow(unused_imports)]
use super::rows;
use super::tool_call;
use super::{
    Agency, ApprovalDecision, BlockKind, ContentDescriptor, FromBlock, GateDecision, LeafKind,
    LedgerName, Run, Wakeup,
};
use crate::agency;
use crate::block;
use crate::block::{Awaiting, Block, Role};

verus! {

/// The system's ask for a human's clearance of a tool call.
#[derive(Debug, Clone, Copy)]
pub struct ApprovalRequest {
    /// The row this request is.
    pub id: i64,
    /// The row of the call it covers; zero where it names none.
    pub for_block_id: i64,
}

impl View for ApprovalRequest {
    type V = Kind;

    open spec fn view(&self) -> Kind {
        Kind::ApprovalRequest { id: self.id, for_block_id: self.for_block_id }
    }
}

/// The first request for a call, at or behind a position.
pub open spec fn request_from(ledger: Seq<Block>, from: int, call: i64) -> Option<int>
    decreases ledger.len() - from,
{
    if from < 0 || from >= ledger.len() {
        None
    } else {
        match agency::read(ledger[from]) {
            Kind::ApprovalRequest { for_block_id, .. } if for_block_id == call => Some(from),
            _ => request_from(ledger, from + 1, call),
        }
    }
}

/// The first decision on a request, at or behind a position.
pub open spec fn decision_from(ledger: Seq<Block>, from: int, request: i64) -> Option<int>
    decreases ledger.len() - from,
{
    if from < 0 || from >= ledger.len() {
        None
    } else {
        match agency::read(ledger[from]) {
            Kind::ApprovalDecision { for_block_id, .. } if for_block_id == Some(request) => Some(
                from,
            ),
            _ => decision_from(ledger, from + 1, request),
        }
    }
}

/// Where the decision on a request stands. A request that is no row has none.
pub open spec fn decision_at(ledger: Seq<Block>, request: i64) -> Option<int> {
    if request <= 0 {
        None
    } else {
        decision_from(ledger, 0, request)
    }
}

/// Whether a request was approved: the first decision on it speaks.
pub open spec fn approved(ledger: Seq<Block>, request: i64) -> bool {
    match decision_at(ledger, request) {
        Some(at) => match agency::read(ledger[at]) {
            Kind::ApprovalDecision { approved, .. } => approved,
            _ => false,
        },
        None => false,
    }
}

impl ApprovalRequest {
    /// The request that covers the call in row `call_block_id`, where one has
    /// landed.
    pub fn covering(ledger: &[Block], call_block_id: i64) -> (request: Option<Self>)
        ensures
            match request {
                Some(found) => call_block_id > 0 && (request_from(
                    ledger@,
                    0,
                    call_block_id,
                ) matches Some(at) && found@ == agency::read(ledger@[at])),
                None => call_block_id <= 0 || request_from(ledger@, 0, call_block_id) is None,
            },
    {
        if call_block_id <= 0 {
            return None;
        }
        let mut index: usize = 0;
        while index < ledger.len()
            invariant
                call_block_id > 0,
                index <= ledger.len(),
                request_from(ledger@, 0, call_block_id) == request_from(
                    ledger@,
                    index as int,
                    call_block_id,
                ),
            decreases ledger.len() - index,
        {
            if let BlockKind::ApprovalRequest(request) = BlockKind::from_block(&ledger[index]) {
                if request.for_block_id == call_block_id {
                    return Some(request);
                }
            }
            index += 1;
        }
        None
    }

    /// The decision on this request, where a human has made one.
    pub fn decision_in(&self, ledger: &[Block]) -> (decision: Option<ApprovalDecision>)
        ensures
            match decision {
                Some(found) => decision_at(ledger@, self.id) matches Some(at) && found@
                    == agency::read(ledger@[at]),
                None => decision_at(ledger@, self.id) is None,
            },
    {
        if self.id <= 0 {
            return None;
        }
        let mut index: usize = 0;
        while index < ledger.len()
            invariant
                self.id > 0,
                index <= ledger.len(),
                decision_from(ledger@, 0, self.id) == decision_from(
                    ledger@,
                    index as int,
                    self.id,
                ),
            decreases ledger.len() - index,
        {
            if let BlockKind::ApprovalDecision(decision) = BlockKind::from_block(&ledger[index]) {
                if decision.for_block_id == Some(self.id) {
                    return Some(decision);
                }
            }
            index += 1;
        }
        None
    }
}

proof fn the_first_request_is_found(ledger: Seq<Block>, from: int, call: i64)
    requires
        0 <= from,
    ensures
        match request_from(ledger, from, call) {
            Some(at) => from <= at < ledger.len() && agency::read(ledger[at]) is ApprovalRequest
                && model::int_or_zero(ledger[at], "for_block_id"@) == call && forall|i: int|
                from <= i < at && agency::read(#[trigger] ledger[i]) is ApprovalRequest
                    ==> model::int_or_zero(ledger[i], "for_block_id"@) != call,
            None => forall|i: int|
                from <= i < ledger.len() && agency::read(#[trigger] ledger[i]) is ApprovalRequest
                    ==> model::int_or_zero(ledger[i], "for_block_id"@) != call,
        },
    decreases ledger.len() - from,
{
    if from < ledger.len() {
        rows::a_kind_holds_what_its_row_carries(ledger[from]);
        the_first_request_is_found(ledger, from + 1, call);
    }
}

proof fn the_first_decision_is_found(ledger: Seq<Block>, from: int, request: i64)
    requires
        0 <= from,
    ensures
        match decision_from(ledger, from, request) {
            Some(at) => from <= at < ledger.len() && agency::read(ledger[at]) is ApprovalDecision
                && block::row_at(ledger[at], "for_block_id"@) == Some(request) && forall|i: int|
                from <= i < at && agency::read(#[trigger] ledger[i]) is ApprovalDecision
                    ==> block::row_at(ledger[i], "for_block_id"@) != Some(request),
            None => forall|i: int|
                from <= i < ledger.len() && agency::read(#[trigger] ledger[i]) is ApprovalDecision
                    ==> block::row_at(ledger[i], "for_block_id"@) != Some(request),
        },
    decreases ledger.len() - from,
{
    if from < ledger.len() {
        rows::a_kind_holds_what_its_row_carries(ledger[from]);
        the_first_decision_is_found(ledger, from + 1, request);
    }
}

/// A call is covered by the first request that names its row, and by none
/// where none names it.
pub proof fn a_call_is_covered_by_the_first_request_for_it(ledger: Seq<Block>, call: i64)
    requires
        call > 0,
    ensures
        match request_from(ledger, 0, call) {
            Some(at) => 0 <= at < ledger.len() && ledger[at].block_type@ == "approval_request"@
                && block::row_at(ledger[at], "for_block_id"@) == Some(call) && forall|i: int|
                0 <= i < at && (#[trigger] ledger[i]).block_type@ == "approval_request"@
                    ==> block::row_at(ledger[i], "for_block_id"@) != Some(call),
            None => forall|i: int|
                0 <= i < ledger.len() && (#[trigger] ledger[i]).block_type@ == "approval_request"@
                    ==> block::row_at(ledger[i], "for_block_id"@) != Some(call),
        },
{
    the_first_request_is_found(ledger, 0, call);
    assert forall|i: int| 0 <= i < ledger.len() implies (agency::read(
        #[trigger] ledger[i],
    ) is ApprovalRequest <==> ledger[i].block_type@ == "approval_request"@) by {
        rows::a_row_is_of_the_kind_its_type_names(ledger[i]);
    }
}

/// The first decision on a request speaks for good: the request is approved
/// exactly where that decision says so. A request that nobody has decided, or
/// that is no row, is not approved.
pub proof fn the_first_decision_on_a_request_speaks(ledger: Seq<Block>, request: i64, at: int)
    requires
        0 <= at <= ledger.len(),
        forall|i: int|
            0 <= i < at && (#[trigger] ledger[i]).block_type@ == "approval_decision"@
                ==> block::row_at(ledger[i], "for_block_id"@) != Some(request),
    ensures
        at < ledger.len() && ledger[at].block_type@ == "approval_decision"@ && block::row_at(
            ledger[at],
            "for_block_id"@,
        ) == Some(request) ==> decision_at(ledger, request) == Some(at) && (approved(
            ledger,
            request,
        ) <==> block::text_at(ledger[at], "decision"@) == Some("approved"@)),
        at == ledger.len() || request <= 0 ==> decision_at(ledger, request) is None && !approved(
            ledger,
            request,
        ),
{
    the_first_decision_is_found(ledger, 0, request);
    assert forall|i: int| 0 <= i < ledger.len() implies (agency::read(
        #[trigger] ledger[i],
    ) is ApprovalDecision <==> ledger[i].block_type@ == "approval_decision"@) by {
        rows::a_row_is_of_the_kind_its_type_names(ledger[i]);
    }
    if at < ledger.len() {
        rows::a_kind_holds_what_its_row_carries(ledger[at]);
    }
}

/// A request routes to the call it covers exactly while it is approved and the
/// call still owes its outcome.
pub proof fn an_approved_request_routes_to_its_call(block: Block, ledger: Seq<Block>)
    requires
        block.block_type@ == "approval_request"@,
    ensures
        BlockKind::route(agency::read(block), ledger) == (match block::int_at(
            block,
            "for_block_id"@,
        ) {
            Some(call) => if approved(ledger, block.id) && tool_call::owed(ledger, call) {
                Some(call)
            } else {
                None
            },
            None => None,
        }),
{
    rows::a_row_is_of_the_kind_its_type_names(block);
    rows::a_kind_holds_what_its_row_carries(block);
}

impl LeafKind for ApprovalRequest {
    open spec fn owns(stored: Seq<char>) -> bool {
        stored == "approval_request"@
    }

    open spec fn names() -> Seq<Seq<char>> {
        seq!["approval_request"@]
    }

    open spec fn reading(block: Block) -> Kind {
        Kind::ApprovalRequest {
            id: block.id,
            for_block_id: model::int_or_zero(block, "for_block_id"@),
        }
    }

    fn kinds() -> (kinds: &'static [&'static str]) {
        let kinds: &'static [&'static str] = &["approval_request"];
        assert(kinds@[0]@ == "approval_request"@);
        kinds
    }

    fn descriptors() -> (tables: Vec<ContentDescriptor>) {
        Vec::new()
    }

    fn parse(block: &Block) -> (kind: Self) {
        ApprovalRequest { id: block.id, for_block_id: block::i64_field(block, "for_block_id") }
    }
}

impl Agency for ApprovalRequest {
    open spec fn asks(kind: Kind) -> Option<Awaiting> {
        Some(Awaiting::OutOfBand)
    }

    open spec fn route(kind: Kind, ledger: Seq<Block>) -> Option<i64> {
        match kind {
            Kind::ApprovalRequest { id, for_block_id } => if approved(ledger, id)
                && tool_call::owed(ledger, for_block_id) {
                Some(for_block_id)
            } else {
                None
            },
            _ => None,
        }
    }

    fn awaiting(&self) -> (ask: Option<Awaiting>) {
        Some(Awaiting::OutOfBand)
    }

    fn durable(&self) -> (lasts: bool) {
        true
    }

    fn frontier_transparent(&self) -> (transparent: bool) {
        false
    }

    fn heads_the_ledger(&self) -> (heads: bool) {
        false
    }

    fn offers_tools(&self) -> (offers: bool) {
        true
    }

    fn gate(&self) -> (decision: GateDecision) {
        GateDecision::Proceed
    }

    fn run_reads(&self) -> (ledger: Option<LedgerName>) {
        None
    }

    fn run(&self, _ledger: &[Block]) -> (run: Run) {
        Run { done: true, wakeup: None }
    }

    /// The call, once a human has approved it and while it still owes its body. An
    /// unrelated outcome never closes the route, and the call's own closes it for
    /// good.
    fn post_gate_id(&self, ledger: &[Block]) -> (next: Option<i64>) {
        let approved = match self.decision_in(ledger) {
            Some(decision) => decision.approved,
            None => false,
        };
        if !approved {
            return None;
        }
        match tool_call::unresolved_call_named(ledger, self.for_block_id) {
            Some(_) => Some(self.for_block_id),
            None => None,
        }
    }

    fn run_post_gate(&self, _ledger: &[Block]) -> (wakeup: Option<Wakeup>) {
        None
    }
}

impl Projection for ApprovalRequest {
    fn group_role(&self) -> (role: Option<Role>) {
        None
    }

    fn llm_parts(&self) -> (parts: Option<Vec<ContentPart>>) {
        None
    }

    fn llm_text(&self) -> (text: Option<String>) {
        None
    }

    fn forces_parts(&self) -> (forces: bool) {
        false
    }
}

} // verus!
