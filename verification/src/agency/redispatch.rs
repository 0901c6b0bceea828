//! The walk over deferred work.
//!
//! It starts at the newest block and follows each block's own route to the
//! next, as far as it goes; then the blocks' deferred work is done, from the
//! far end back. What is still owed the kinds say: a block that has nothing
//! left to do routes nowhere, and the walk repeats nothing.

use vstd::prelude::*;

use super::tool_call;
use super::RuntimeKind;
use crate::agency;
use crate::agency::approval_request;
use crate::agency::model::Kind;
use crate::agency::{Agency, BlockKind, FromBlock};
use crate::block::Block;

verus! {

/// Where a row routes to.
pub open spec fn next_row<K: RuntimeKind>(ledger: Seq<Block>, at: int) -> Option<i64> {
    K::route(K::read(ledger[at]), ledger)
}

/// Whether a row has been visited by a chain.
pub open spec fn visited(ledger: Seq<Block>, chain: Seq<int>, id: i64) -> bool {
    exists|k: int| 0 <= k < chain.len() && ledger[#[trigger] chain[k]].id == id
}

/// Whether each row of a chain routes to the next, and none comes twice.
pub open spec fn linked<K: RuntimeKind>(ledger: Seq<Block>, chain: Seq<int>) -> bool {
    &&& chain.len() > 0
    &&& chain[0] == ledger.len() - 1
    &&& forall|k: int| 0 <= k < chain.len() ==> 0 <= #[trigger] chain[k] < ledger.len()
    &&& forall|k: int|
        0 < k < chain.len() ==> link::<K>(ledger, chain, k)
    &&& forall|i: int, j: int|
        0 <= i < j < chain.len() ==> ledger[#[trigger] chain[i]].id
            != ledger[#[trigger] chain[j]].id
}

/// Whether the row before the `k`th of a chain routes to it.
pub open spec fn link<K: RuntimeKind>(ledger: Seq<Block>, chain: Seq<int>, k: int) -> bool {
    next_row::<K>(ledger, chain[k - 1]) matches Some(id) && tool_call::row_from(ledger, 0, id)
        == Some(chain[k])
}

/// Whether a chain ends: its last row routes nowhere, to a row that it has
/// visited, or to one that is not there.
pub open spec fn ends<K: RuntimeKind>(ledger: Seq<Block>, chain: Seq<int>) -> bool {
    match next_row::<K>(ledger, chain.last()) {
        Some(id) => visited(ledger, chain, id) || tool_call::row_from(ledger, 0, id) is None,
        None => true,
    }
}

/// Whether a chain of positions is the one a ledger's routes give, from its
/// newest row on.
pub open spec fn is_chain<K: RuntimeKind>(ledger: Seq<Block>, chain: Seq<int>) -> bool {
    linked::<K>(ledger, chain) && ends::<K>(ledger, chain)
}

/// The order in which a chain's deferred work is done: from the far end back.
/// A chain of the newest row alone has none.
pub open spec fn unwound(chain: Seq<int>) -> Seq<int> {
    if chain.len() <= 1 {
        seq![]
    } else {
        chain.reverse()
    }
}

/// The positions a list of indices names.
pub open spec fn positions(list: Seq<usize>) -> Seq<int> {
    list.map_values(|at: usize| at as int)
}

proof fn a_chain_fits_its_ledger<K: RuntimeKind>(ledger: Seq<Block>, chain: Seq<int>)
    requires
        linked::<K>(ledger, chain),
    ensures
        chain.len() <= ledger.len(),
{
    assert(chain.no_duplicates());
    chain.unique_seq_to_set();
    let all = vstd::set_lib::set_int_range(0, ledger.len() as int);
    vstd::set_lib::lemma_int_range(0, ledger.len() as int);
    assert(chain.to_set().subset_of(all)) by {
        assert forall|at: int| chain.to_set().contains(at) implies all.contains(at) by {
            let k = choose|k: int| 0 <= k < chain.len() && chain[k] == at;
            assert(0 <= chain[k] < ledger.len());
        }
    }
    vstd::set_lib::lemma_len_subset(chain.to_set(), all);
}

/// The chain of deferred work, as positions in the ledger, from the newest row
/// on. A ledger with no row has none.
pub fn chain<K: RuntimeKind>(ledger: &[Block]) -> (chain: Vec<usize>)
    ensures
        ledger@.len() == 0 ==> chain@.len() == 0,
        ledger@.len() > 0 ==> is_chain::<K>(ledger@, positions(chain@)),
{
    let mut chain: Vec<usize> = Vec::new();
    if ledger.len() == 0 {
        return chain;
    }
    let mut head: usize = ledger.len() - 1;
    chain.push(head);
    assert(linked::<K>(ledger@, positions(chain@)));
    loop
        invariant
            ledger@.len() > 0,
            linked::<K>(ledger@, positions(chain@)),
            chain@.len() > 0,
            head == chain@[chain@.len() - 1],
            head < ledger@.len(),
        ensures
            is_chain::<K>(ledger@, positions(chain@)),
        decreases ledger@.len() - chain@.len(),
    {
        let ghost before = positions(chain@);
        assert(before.last() == head);
        let next: i64 = match K::from_block(&ledger[head]).post_gate_id(ledger) {
            Some(next) => next,
            None => {
                break;
            },
        };
        let mut seen = false;
        let mut index: usize = 0;
        while index < chain.len()
            invariant
                index <= chain.len(),
                before == positions(chain@),
                linked::<K>(ledger@, before),
                seen == exists|k: int|
                    0 <= k < index && ledger@[#[trigger] before[k]].id == next,
            decreases chain.len() - index,
        {
            let at: usize = chain[index];
            assert(before[index as int] == at);
            assert(0 <= before[index as int] < ledger@.len());
            if ledger[at].id == next {
                assert(ledger@[before[index as int]].id == next);
                seen = true;
            }
            index += 1;
        }
        if seen {
            assert(visited(ledger@, before, next));
            break;
        }
        let at: usize = match tool_call::row_position(ledger, next) {
            Some(at) => at,
            None => {
                break;
            },
        };
        proof {
            tool_call::row_from_finds(ledger@, 0, next);
        }
        chain.push(at);
        head = at;
        proof {
            let now = positions(chain@);
            assert(now =~= before.push(at as int));
            assert forall|k: int| 0 < k < now.len() implies link::<K>(ledger@, now, k) by {
                if k < before.len() {
                    assert(link::<K>(ledger@, before, k));
                }
            }
            assert forall|i: int, j: int| 0 <= i < j < now.len() implies ledger@[#[trigger] now[i]].id
                != ledger@[#[trigger] now[j]].id by {
                if j < before.len() {
                    assert(ledger@[before[i]].id != ledger@[before[j]].id);
                } else {
                    assert(ledger@[before[i]].id != next);
                }
            }
            a_chain_fits_its_ledger::<K>(ledger@, now);
        }
    }
    chain
}

/// The rows whose deferred work is due, as positions in the ledger and in the
/// order in which it is done. Where the newest row routes nowhere there are
/// none.
pub fn walk<K: RuntimeKind>(ledger: &[Block]) -> (rows: Vec<usize>)
    ensures
        ledger@.len() == 0 ==> rows@.len() == 0,
        ledger@.len() > 0 ==> exists|chain: Seq<int>| #[trigger]
            is_chain::<K>(ledger@, chain) && positions(rows@) == unwound(chain),
{
    let chain = chain::<K>(ledger);
    let ghost whole = positions(chain@);
    let mut rows: Vec<usize> = Vec::new();
    if chain.len() <= 1 {
        assert(positions(rows@) =~= unwound(whole));
        return rows;
    }
    let mut index: usize = chain.len();
    while index > 0
        invariant
            index <= chain.len(),
            rows@.len() == chain.len() - index,
            forall|k: int|
                0 <= k < rows@.len() ==> #[trigger] rows@[k] == chain@[chain@.len() - 1 - k],
        decreases index,
    {
        index -= 1;
        rows.push(chain[index]);
    }
    assert(positions(rows@) =~= unwound(whole));
    rows
}

/// A ledger's routes give one chain.
pub proof fn a_ledger_has_one_chain<K: RuntimeKind>(
    ledger: Seq<Block>,
    one: Seq<int>,
    other: Seq<int>,
)
    requires
        is_chain::<K>(ledger, one),
        is_chain::<K>(ledger, other),
    ensures
        one == other,
{
    chains_agree::<K>(ledger, one, other, one.len());
    chains_agree::<K>(ledger, other, one, other.len());
    assert(one =~= other);
}

proof fn chains_agree<K: RuntimeKind>(
    ledger: Seq<Block>,
    one: Seq<int>,
    other: Seq<int>,
    count: nat,
)
    requires
        linked::<K>(ledger, one),
        is_chain::<K>(ledger, other),
        count <= one.len(),
    ensures
        count <= other.len(),
        forall|k: int| 0 <= k < count ==> one[k] == other[k],
    decreases count,
{
    if count > 0 {
        let last = (count - 1) as int;
        chains_agree::<K>(ledger, one, other, last as nat);
        if last > 0 {
            assert(link::<K>(ledger, one, last));
            assert(one[last - 1] == other[last - 1]);
            let id = next_row::<K>(ledger, one[last - 1])->0;
            tool_call::row_from_finds(ledger, 0, id);
            assert(ledger[one[last]].id == id);
            if other.len() == last {
                assert(other.last() == one[last - 1]);
                assert(visited(ledger, other, id));
                let k = choose|k: int| 0 <= k < other.len() && ledger[#[trigger] other[k]].id == id;
                assert(ledger[one[k]].id == ledger[one[last]].id);
                assert(false);
            }
            assert(link::<K>(ledger, other, last));
        }
    }
}

/// An approval sets a held call going: where the newest row approves a request
/// whose call still owes its body, and that row is the first decision on the
/// request, the walk does the call's deferred work first, then the request's,
/// then the decision's.
pub proof fn an_approval_walks_to_its_call(
    ledger: Seq<Block>,
    decision: int,
    request: int,
    call: int,
    chain: Seq<int>,
)
    requires
        0 <= request < ledger.len(),
        0 <= call < ledger.len(),
        decision == ledger.len() - 1,
        agency::read(ledger[decision]) matches Kind::ApprovalDecision {
            for_block_id,
            approved,
            ..
        } && approved && for_block_id == Some(ledger[request].id),
        tool_call::row_from(ledger, 0, ledger[request].id) == Some(request),
        agency::read(ledger[request]) matches Kind::ApprovalRequest { for_block_id, .. }
            && for_block_id == ledger[call].id,
        tool_call::row_from(ledger, 0, ledger[call].id) == Some(call),
        agency::read(ledger[call]) is ToolCall,
        tool_call::owed(ledger, ledger[call].id),
        approval_request::approved(ledger, ledger[request].id),
        ledger[decision].id != ledger[request].id,
        ledger[decision].id != ledger[call].id,
        ledger[request].id != ledger[call].id,
        is_chain::<BlockKind>(ledger, chain),
    ensures
        unwound(chain) == seq![call, request, decision],
{
    let whole = seq![decision, request, call];
    reading_keeps_the_row(ledger[request]);
    reading_keeps_the_row(ledger[call]);
    assert(next_row::<BlockKind>(ledger, decision) == Some(ledger[request].id));
    assert(next_row::<BlockKind>(ledger, request) == Some(ledger[call].id));
    assert(next_row::<BlockKind>(ledger, call) is None);
    assert(link::<BlockKind>(ledger, whole, 1));
    assert(link::<BlockKind>(ledger, whole, 2));
    assert(is_chain::<BlockKind>(ledger, whole));
    a_ledger_has_one_chain::<BlockKind>(ledger, chain, whole);
    assert(whole.reverse() =~= seq![call, request, decision]);
}

proof fn reading_keeps_the_row(block: Block)
    ensures
        agency::read(block) matches Kind::ApprovalRequest { id, .. } ==> id == block.id,
        agency::read(block) matches Kind::ToolCall { id, .. } ==> id == block.id,
{
}

/// An outcome closes the route: once the call has its outcome, nothing that
/// covers it has deferred work, and the walk from its approval does nothing.
pub proof fn a_resolved_call_is_walked_to_no_more(
    ledger: Seq<Block>,
    decision: int,
    request: int,
    chain: Seq<int>,
)
    requires
        0 <= request < ledger.len(),
        decision == ledger.len() - 1,
        agency::read(ledger[decision]) matches Kind::ApprovalDecision { for_block_id, .. }
            && for_block_id == Some(ledger[request].id),
        tool_call::row_from(ledger, 0, ledger[request].id) == Some(request),
        agency::read(ledger[request]) matches Kind::ApprovalRequest { for_block_id, .. }
            && !tool_call::owed(ledger, for_block_id),
        is_chain::<BlockKind>(ledger, chain),
    ensures
        unwound(chain) == Seq::<int>::empty(),
        BlockKind::route(BlockKind::read(ledger[request]), ledger) is None,
{
    assert(next_row::<BlockKind>(ledger, decision) is None);
    if chain.len() > 1 {
        assert(link::<BlockKind>(ledger, chain, 1));
    }
}

/// A chain follows the routes as far as they lead: it starts at the newest row,
/// each row routes to the next by its id, no id comes twice, and the last row
/// routes nowhere, to a row that is not there, or back to one of the chain.
pub proof fn a_chain_follows_the_routes<K: RuntimeKind>(ledger: Seq<Block>, chain: Seq<int>)
    requires
        is_chain::<K>(ledger, chain),
    ensures
        chain.len() > 0,
        chain[0] == ledger.len() - 1,
        forall|k: int| 0 <= k < chain.len() ==> 0 <= #[trigger] chain[k] < ledger.len(),
        forall|k: int|
            0 < k < chain.len() ==> K::route(K::read(ledger[chain[k - 1]]), ledger) == Some(
                ledger[#[trigger] chain[k]].id,
            ) && forall|i: int|
                0 <= i < chain[k] ==> (#[trigger] ledger[i]).id != ledger[chain[k]].id,
        forall|j: int, k: int|
            0 <= j < k < chain.len() ==> ledger[#[trigger] chain[j]].id
                != ledger[#[trigger] chain[k]].id,
        match K::route(K::read(ledger[chain.last()]), ledger) {
            Some(id) => (exists|k: int|
                0 <= k < chain.len() && ledger[#[trigger] chain[k]].id == id) || (forall|i: int|
                0 <= i < ledger.len() ==> (#[trigger] ledger[i]).id != id),
            None => true,
        },
{
    assert forall|k: int| 0 < k < chain.len() implies K::route(
        K::read(ledger[chain[k - 1]]),
        ledger,
    ) == Some(ledger[#[trigger] chain[k]].id) && forall|i: int|
        0 <= i < chain[k] ==> (#[trigger] ledger[i]).id != ledger[chain[k]].id by {
        assert(link::<K>(ledger, chain, k));
        let id = next_row::<K>(ledger, chain[k - 1])->0;
        tool_call::the_first_row_with_an_id_is_the_one_found(ledger, 0, id);
    }
    if let Some(id) = next_row::<K>(ledger, chain.last()) {
        tool_call::the_first_row_with_an_id_is_the_one_found(ledger, 0, id);
    }
}

/// A chain is undone from its far end back, every row of it once. A newest row
/// that routes nowhere is no chain, and nothing is done.
pub proof fn a_chain_is_undone_from_its_far_end(chain: Seq<int>)
    ensures
        chain.len() <= 1 ==> unwound(chain).len() == 0,
        chain.len() > 1 ==> unwound(chain).len() == chain.len() && forall|k: int|
            0 <= k < chain.len() ==> #[trigger] unwound(chain)[k] == chain[chain.len() - 1 - k],
{
}

} // verus!
