//! The metadata ledger's ask for a derived title.

use std::collections::VecDeque;
use vstd::prelude::*;

use super::model::Kind;
use super::projection::{ContentPart, Projection};
#[allow(unused_imports)]
use super::rows;
use super::{
    Agency, BlockKind, ContentDescriptor, FromBlock, GateDecision, LeafKind, LedgerName, Run,
    Wakeup,
};
use crate::agency;
use crate::block::{Awaiting, Block, Role};

verus! {

/// The metadata ledger's ask for a derived title.
///
/// The system owes the derivation. Its work is not done until a response has
/// settled it, and asking again on every drive is the retry.
#[derive(Debug, Clone, Copy)]
pub struct MetadataTitleRequest {
    /// The row this request is.
    pub id: i64,
}

impl View for MetadataTitleRequest {
    type V = Kind;

    open spec fn view(&self) -> Kind {
        Kind::MetadataTitleRequest { id: self.id }
    }
}

/// The requests still open at the end of a ledger, the earliest first: a
/// request queues up, and a response takes the earliest one off.
pub open spec fn outstanding(ledger: Seq<Block>) -> Seq<i64>
    decreases ledger.len(),
{
    if ledger.len() == 0 {
        seq![]
    } else {
        let before = outstanding(ledger.drop_last());
        match agency::read(ledger.last()) {
            Kind::MetadataTitleRequest { id } => before.push(id),
            Kind::MetadataTitleResponse => if before.len() == 0 {
                before
            } else {
                before.drop_first()
            },
            _ => before,
        }
    }
}

/// Whether the row at a position is the response that settles a request.
pub open spec fn settles_at(ledger: Seq<Block>, at: int, id: i64) -> bool {
    let open = outstanding(ledger.take(at));
    agency::read(ledger[at]) is MetadataTitleResponse && open.len() > 0 && open[0] == id
}

/// Whether a response has settled a request.
pub open spec fn settled(ledger: Seq<Block>, id: i64) -> bool {
    exists|at: int| 0 <= at < ledger.len() && #[trigger] settles_at(ledger, at, id)
}

impl MetadataTitleRequest {
    /// Whether a response has settled this request.
    ///
    /// A response names no request, so the pairing is by position: first
    /// asked, first settled. One response settles one request.
    pub fn settled_in(&self, ledger: &[Block]) -> (answered: bool)
        ensures
            answered == settled(ledger@, self.id),
    {
        let mut open: VecDeque<i64> = VecDeque::new();
        let mut index: usize = 0;
        while index < ledger.len()
            invariant
                index <= ledger.len(),
                open@ == outstanding(ledger@.take(index as int)),
                forall|at: int| 0 <= at < index ==> !#[trigger] settles_at(ledger@, at, self.id),
            decreases ledger.len() - index,
        {
            assert(ledger@.take(index + 1).drop_last() =~= ledger@.take(index as int));
            assert(ledger@.take(index + 1).last() == ledger@[index as int]);
            match BlockKind::from_block(&ledger[index]) {
                BlockKind::MetadataTitleRequest(request) => {
                    open.push_back(request.id);
                },
                BlockKind::MetadataTitleResponse(_) => {
                    let taken: Option<i64> = open.pop_front();
                    if taken == Some(self.id) {
                        assert(settles_at(ledger@, index as int, self.id));
                        return true;
                    }
                },
                _ => {},
            }
            assert(!settles_at(ledger@, index as int, self.id));
            index += 1;
        }
        false
    }
}

/// One response settles one request.
pub proof fn one_response_settles_one_request(ledger: Seq<Block>, at: int, one: i64, other: i64)
    requires
        settles_at(ledger, at, one),
        settles_at(ledger, at, other),
    ensures
        one == other,
{
}

/// A request that is settled stays settled, whatever is appended.
pub proof fn a_settled_request_stays_settled(ledger: Seq<Block>, more: Seq<Block>, id: i64)
    requires
        settled(ledger, id),
    ensures
        settled(ledger + more, id),
{
    let at = choose|at: int| 0 <= at < ledger.len() && #[trigger] settles_at(ledger, at, id);
    let all = ledger + more;
    assert(all.take(at) =~= ledger.take(at));
    assert(settles_at(all, at, id));
}

/// Whether a request has left the queue, or stands in it before another.
spec fn goes_first(ledger: Seq<Block>, upto: int, one: i64, other: i64) -> bool {
    let open = outstanding(ledger.take(upto));
    ||| exists|at: int| 0 <= at < upto && #[trigger] settles_at(ledger, at, one)
    ||| exists|k: int| #[trigger] stands_before(open, k, one, other)
}

spec fn stands_before(open: Seq<i64>, k: int, one: i64, other: i64) -> bool {
    0 <= k < open.len() && open[k] == one && forall|m: int| 0 <= m <= k ==> open[m] != other
}

/// A request that waits in the queue was asked: a row of the ledger asked it.
pub proof fn a_queued_request_was_asked(ledger: Seq<Block>, id: i64)
    ensures
        outstanding(ledger).contains(id) ==> exists|i: int|
            0 <= i < ledger.len() && agency::read(#[trigger] ledger[i]) == (
            Kind::MetadataTitleRequest { id }),
    decreases ledger.len(),
{
    if ledger.len() > 0 && outstanding(ledger).contains(id) {
        let rest = ledger.drop_last();
        a_queued_request_was_asked(rest, id);
        let k = choose|k: int| 0 <= k < outstanding(ledger).len() && outstanding(ledger)[k] == id;
        match agency::read(ledger.last()) {
            Kind::MetadataTitleRequest { id: asked } => {
                if k == outstanding(ledger).len() - 1 {
                    assert(agency::read(ledger[ledger.len() - 1]) == (
                    Kind::MetadataTitleRequest { id }));
                } else {
                    assert(outstanding(rest)[k] == id);
                    let i = choose|i: int|
                        0 <= i < rest.len() && agency::read(#[trigger] rest[i]) == (
                        Kind::MetadataTitleRequest { id });
                    assert(ledger[i] == rest[i]);
                }
            },
            Kind::MetadataTitleResponse => {
                if outstanding(rest).len() > 0 {
                    assert(outstanding(rest)[k + 1] == id);
                } else {
                    assert(outstanding(rest)[k] == id);
                }
                let i = choose|i: int|
                    0 <= i < rest.len() && agency::read(#[trigger] rest[i]) == (
                    Kind::MetadataTitleRequest { id });
                assert(ledger[i] == rest[i]);
            },
            _ => {
                assert(outstanding(rest)[k] == id);
                let i = choose|i: int|
                    0 <= i < rest.len() && agency::read(#[trigger] rest[i]) == (
                    Kind::MetadataTitleRequest { id });
                assert(ledger[i] == rest[i]);
            },
        }
    }
}

proof fn an_earlier_request_goes_first(
    ledger: Seq<Block>,
    first: int,
    second: int,
    one: i64,
    other: i64,
    upto: int,
)
    requires
        0 <= first < second < ledger.len(),
        first < upto <= ledger.len(),
        agency::read(ledger[first]) == (Kind::MetadataTitleRequest { id: one }),
        agency::read(ledger[second]) == (Kind::MetadataTitleRequest { id: other }),
        one != other,
        forall|i: int|
            0 <= i < ledger.len() && agency::read(#[trigger] ledger[i]) == (
            Kind::MetadataTitleRequest { id: other }) ==> i == second,
    ensures
        goes_first(ledger, upto, one, other),
    decreases upto - first,
{
    let here = ledger.take(upto);
    let last = upto - 1;
    assert(here.drop_last() =~= ledger.take(last));
    assert(here.last() == ledger[last]);
    let before = outstanding(ledger.take(last));
    let after = outstanding(here);
    if last == first {
        assert(!before.contains(other)) by {
            a_queued_request_was_asked(ledger.take(last), other);
            if before.contains(other) {
                let i = choose|i: int|
                    0 <= i < last && agency::read(#[trigger] ledger.take(last)[i]) == (
                    Kind::MetadataTitleRequest { id: other });
                assert(ledger[i] == ledger.take(last)[i]);
            }
        }
        assert(after == before.push(one));
        assert(stands_before(after, after.len() - 1, one, other)) by {
            assert forall|m: int| 0 <= m <= after.len() - 1 implies after[m] != other by {
                if m < before.len() {
                    assert(before.contains(before[m]));
                }
            }
        }
    } else {
        an_earlier_request_goes_first(ledger, first, second, one, other, last);
        if exists|at: int| 0 <= at < last && #[trigger] settles_at(ledger, at, one) {
            let at = choose|at: int| 0 <= at < last && #[trigger] settles_at(ledger, at, one);
            assert(settles_at(ledger, at, one));
        } else {
            let k = choose|k: int| #[trigger] stands_before(before, k, one, other);
            match agency::read(ledger[last]) {
                Kind::MetadataTitleRequest { id } => {
                    assert(stands_before(after, k, one, other));
                },
                Kind::MetadataTitleResponse => {
                    if k == 0 {
                        assert(settles_at(ledger, last, one));
                    } else {
                        assert(stands_before(after, k - 1, one, other));
                    }
                },
                _ => {
                    assert(stands_before(after, k, one, other));
                },
            }
        }
    }
}

/// First asked, first settled: where a request was asked before another, and
/// each was asked once, the other is not settled before it.
pub proof fn first_asked_is_first_settled(
    ledger: Seq<Block>,
    first: int,
    second: int,
    one: i64,
    other: i64,
)
    requires
        0 <= first < second < ledger.len(),
        agency::read(ledger[first]) == (Kind::MetadataTitleRequest { id: one }),
        agency::read(ledger[second]) == (Kind::MetadataTitleRequest { id: other }),
        one != other,
        forall|i: int|
            0 <= i < ledger.len() && agency::read(#[trigger] ledger[i]) == (
            Kind::MetadataTitleRequest { id: other }) ==> i == second,
        settled(ledger, other),
    ensures
        settled(ledger, one),
{
    let at = choose|at: int| 0 <= at < ledger.len() && #[trigger] settles_at(ledger, at, other);
    let open = outstanding(ledger.take(at));
    a_queued_request_was_asked(ledger.take(at), other);
    assert(open.contains(open[0]));
    let i = choose|i: int|
        0 <= i < at && agency::read(#[trigger] ledger.take(at)[i]) == (Kind::MetadataTitleRequest {
            id: other,
        });
    assert(ledger.take(at)[i] == ledger[i]);
    an_earlier_request_goes_first(ledger, first, second, one, other, at);
    if exists|earlier: int| 0 <= earlier < at && #[trigger] settles_at(ledger, earlier, one) {
        let earlier = choose|earlier: int|
            0 <= earlier < at && #[trigger] settles_at(ledger, earlier, one);
        assert(settles_at(ledger, earlier, one));
    } else {
        let k = choose|k: int| #[trigger] stands_before(open, k, one, other);
        assert(open[0] != other);
    }
}

/// Requests queue up and responses take them off, row by row: a request goes to
/// the end of the queue, a response takes the earliest one off where there is
/// one, and no other row touches the queue.
pub proof fn title_requests_queue_up(ledger: Seq<Block>, row: Block)
    ensures
        outstanding(Seq::empty()).len() == 0,
        row.block_type@ == "title_request"@ ==> outstanding(ledger.push(row)) == outstanding(
            ledger,
        ).push(row.id),
        row.block_type@ == "title_response"@ && outstanding(ledger).len() > 0 ==> seq![
            outstanding(ledger)[0],
        ] + outstanding(ledger.push(row)) == outstanding(ledger),
        row.block_type@ == "title_response"@ && outstanding(ledger).len() == 0 ==> outstanding(
            ledger.push(row),
        ).len() == 0,
        row.block_type@ != "title_request"@ && row.block_type@ != "title_response"@
            ==> outstanding(ledger.push(row)) == outstanding(ledger),
{
    rows::a_row_is_of_the_kind_its_type_names(row);
    rows::a_kind_holds_what_its_row_carries(row);
    assert(ledger.push(row).drop_last() =~= ledger);
    let before = outstanding(ledger);
    if before.len() > 0 {
        assert(seq![before[0]] + before.drop_first() =~= before);
    }
}

/// A response settles the request at the head of the queue it finds, and that
/// one alone; a request that was settled stays so, and no other row settles
/// any. The work of a request is owed until then.
pub proof fn a_response_settles_the_head_of_the_queue(ledger: Seq<Block>, row: Block, id: i64)
    ensures
        !settled(Seq::empty(), id),
        settled(ledger.push(row), id) <==> settled(ledger, id) || row.block_type@
            == "title_response"@ && outstanding(ledger).len() > 0 && outstanding(ledger)[0] == id,
        BlockKind::work(Kind::MetadataTitleRequest { id }, ledger) == if settled(ledger, id) {
            Run { done: true, wakeup: None }
        } else {
            Run { done: false, wakeup: Some(Wakeup::MetadataRequestReady { request_id: id }) }
        },
{
    let now = ledger.push(row);
    let last = ledger.len() as int;
    rows::a_row_is_of_the_kind_its_type_names(row);
    assert(now.take(last) =~= ledger);
    assert(now[last] == row);
    assert forall|at: int| 0 <= at < last implies settles_at(now, at, id) == #[trigger] settles_at(
        ledger,
        at,
        id,
    ) by {
        assert(now.take(at) =~= ledger.take(at));
    }
    if settled(now, id) {
        let at = choose|at: int| 0 <= at < now.len() && #[trigger] settles_at(now, at, id);
        if at < last {
            assert(settles_at(ledger, at, id));
        }
    }
    if settled(ledger, id) {
        let at = choose|at: int| 0 <= at < ledger.len() && #[trigger] settles_at(ledger, at, id);
        assert(settles_at(now, at, id));
    }
    assert(settles_at(now, last, id) <==> row.block_type@ == "title_response"@ && outstanding(
        ledger,
    ).len() > 0 && outstanding(ledger)[0] == id);
}

impl LeafKind for MetadataTitleRequest {
    open spec fn owns(stored: Seq<char>) -> bool {
        stored == "title_request"@
    }

    open spec fn names() -> Seq<Seq<char>> {
        seq!["title_request"@]
    }

    open spec fn reading(block: Block) -> Kind {
        Kind::MetadataTitleRequest { id: block.id }
    }

    fn kinds() -> (kinds: &'static [&'static str]) {
        let kinds: &'static [&'static str] = &["title_request"];
        assert(kinds@[0]@ == "title_request"@);
        kinds
    }

    fn descriptors() -> (tables: Vec<ContentDescriptor>) {
        Vec::new()
    }

    fn parse(block: &Block) -> (kind: Self) {
        MetadataTitleRequest { id: block.id }
    }
}

impl Agency for MetadataTitleRequest {
    open spec fn asks(kind: Kind) -> Option<Awaiting> {
        Some(Awaiting::System)
    }

    open spec fn reads(kind: Kind) -> Option<LedgerName> {
        Some(LedgerName::Metadata)
    }

    open spec fn work(kind: Kind, ledger: Seq<Block>) -> Run {
        match kind {
            Kind::MetadataTitleRequest { id } => if settled(ledger, id) {
                Run { done: true, wakeup: None }
            } else {
                Run { done: false, wakeup: Some(Wakeup::MetadataRequestReady { request_id: id }) }
            },
            _ => Run { done: true, wakeup: None },
        }
    }

    fn awaiting(&self) -> (ask: Option<Awaiting>) {
        Some(Awaiting::System)
    }

    fn durable(&self) -> (lasts: bool) {
        true
    }

    fn frontier_transparent(&self) -> (transparent: bool) {
        false
    }

    fn heads_the_ledger(&self) -> (heads: bool) {
        false
    }

    fn offers_tools(&self) -> (offers: bool) {
        true
    }

    fn gate(&self) -> (decision: GateDecision) {
        GateDecision::Proceed
    }

    fn run_reads(&self) -> (ledger: Option<LedgerName>) {
        Some(LedgerName::Metadata)
    }

    fn run(&self, ledger: &[Block]) -> (run: Run) {
        if self.settled_in(ledger) {
            Run { done: true, wakeup: None }
        } else {
            Run { done: false, wakeup: Some(Wakeup::MetadataRequestReady { request_id: self.id }) }
        }
    }

    fn post_gate_id(&self, _ledger: &[Block]) -> (next: Option<i64>) {
        None
    }

    fn run_post_gate(&self, _ledger: &[Block]) -> (wakeup: Option<Wakeup>) {
        None
    }
}

impl Projection for MetadataTitleRequest {
    fn group_role(&self) -> (role: Option<Role>) {
        None
    }

    fn llm_parts(&self) -> (parts: Option<Vec<ContentPart>>) {
        None
    }

    fn llm_text(&self) -> (text: Option<String>) {
        None
    }

    fn forces_parts(&self) -> (forces: bool) {
        false
    }
}

} // verus!
