//! A kind composed with a delegate: what a consumer's kind is around the
//! library's own.
//!
//! The leaf is tried first, and the delegate reads whatever the leaf does not
//! claim. Every hook is answered by whichever of the two the row is. A
//! composite is itself a delegate, so compositions nest.

use vstd::prelude::*;

use super::kinds;
use super::kinds::contains_kind;
use super::projection::{ContentPart, Part, Projection};
use super::{
    Agency, ContentDescriptor, FromBlock, GateDecision, LeafKind, LedgerName, Run, Verdict, Wakeup,
};
use crate::block::{Awaiting, Block, Role};

verus! {

/// A row that the leaf claims, or one that the delegate reads.
#[derive(Debug, Clone)]
pub enum Composite<D, L> {
    /// The delegate's.
    Core(D),
    /// The leaf's.
    Leaf(L),
}

impl<D: View, L: View> View for Composite<D, L> {
    type V = Composite<D::V, L::V>;

    open spec fn view(&self) -> Composite<D::V, L::V> {
        match self {
            Composite::Core(core) => Composite::Core(core@),
            Composite::Leaf(leaf) => Composite::Leaf(leaf@),
        }
    }
}

impl<D: FromBlock, L: LeafKind> FromBlock for Composite<D, L> {
    open spec fn resolves(stored: Seq<char>) -> bool {
        D::resolves(stored) || L::owns(stored)
    }

    open spec fn claimed() -> Seq<Seq<char>> {
        D::claimed() + L::names()
    }

    open spec fn read(block: Block) -> Composite<D::V, L::V> {
        if L::owns(block.block_type@) {
            Composite::Leaf(L::reading(block))
        } else {
            Composite::Core(D::read(block))
        }
    }

    open spec fn tables() -> Seq<ContentDescriptor> {
        D::tables() + L::tables()
    }

    fn claimed_kinds() -> (kinds: Vec<&'static str>) {
        let core = D::claimed_kinds();
        let leaf = L::kinds();
        let sets: [&[&'static str]; 2] = [core.as_slice(), leaf];
        let kinds = kinds::concat_kinds(sets.as_slice());
        proof {
            assert(sets@[0]@ == core@);
            assert(sets@[1]@ == leaf@);
            assert forall|stored: Seq<char>| #[trigger]
                kinds::claims(kinds@, stored) == Self::resolves(stored) by {
                kinds::joined_claims_what_its_parts_claim(sets@, stored);
            }
            let lists = seq![D::claimed(), L::names()];
            kinds::joined_names_its_parts_in_order(sets@, lists);
            assert(kinds::in_a_row(lists) =~= D::claimed() + L::names()) by {
                reveal_with_fuel(kinds::in_a_row, 3);
                assert(lists.drop_last() =~= seq![D::claimed()]);
                assert(lists.drop_last().drop_last() =~= seq![]);
            }
        }
        kinds
    }

    fn descriptors() -> (tables: Vec<ContentDescriptor>) {
        let mut tables = D::descriptors();
        let more = L::descriptors();
        let ghost before = tables@;
        let mut index: usize = 0;
        assert(before + more@.take(0) =~= before);
        while index < more.len()
            invariant
                index <= more.len(),
                tables@ == before + more@.take(index as int),
            decreases more.len() - index,
        {
            tables.push(more[index]);
            index += 1;
            assert(tables@ =~= before + more@.take(index as int));
        }
        assert(more@.take(index as int) =~= more@);
        tables
    }

    fn from_block(block: &Block) -> (kind: Self) {
        if contains_kind(L::kinds(), block.block_type.as_str()) {
            Composite::Leaf(L::parse(block))
        } else {
            Composite::Core(D::from_block(block))
        }
    }
}

impl<D: Agency, L: Agency> Agency for Composite<D, L> {
    open spec fn asks(kind: Composite<D::V, L::V>) -> Option<Awaiting> {
        match kind {
            Composite::Core(core) => D::asks(core),
            Composite::Leaf(leaf) => L::asks(leaf),
        }
    }

    open spec fn lasts(kind: Composite<D::V, L::V>) -> bool {
        match kind {
            Composite::Core(core) => D::lasts(core),
            Composite::Leaf(leaf) => L::lasts(leaf),
        }
    }

    open spec fn see_through(kind: Composite<D::V, L::V>) -> bool {
        match kind {
            Composite::Core(core) => D::see_through(core),
            Composite::Leaf(leaf) => L::see_through(leaf),
        }
    }

    open spec fn heads(kind: Composite<D::V, L::V>) -> bool {
        match kind {
            Composite::Core(core) => D::heads(core),
            Composite::Leaf(leaf) => L::heads(leaf),
        }
    }

    open spec fn tooled(kind: Composite<D::V, L::V>) -> bool {
        match kind {
            Composite::Core(core) => D::tooled(core),
            Composite::Leaf(leaf) => L::tooled(leaf),
        }
    }

    open spec fn vetted(kind: Composite<D::V, L::V>) -> Verdict {
        match kind {
            Composite::Core(core) => D::vetted(core),
            Composite::Leaf(leaf) => L::vetted(leaf),
        }
    }

    open spec fn reads(kind: Composite<D::V, L::V>) -> Option<LedgerName> {
        match kind {
            Composite::Core(core) => D::reads(core),
            Composite::Leaf(leaf) => L::reads(leaf),
        }
    }

    open spec fn work(kind: Composite<D::V, L::V>, ledger: Seq<Block>) -> Run {
        match kind {
            Composite::Core(core) => D::work(core, ledger),
            Composite::Leaf(leaf) => L::work(leaf, ledger),
        }
    }

    open spec fn route(kind: Composite<D::V, L::V>, ledger: Seq<Block>) -> Option<i64> {
        match kind {
            Composite::Core(core) => D::route(core, ledger),
            Composite::Leaf(leaf) => L::route(leaf, ledger),
        }
    }

    open spec fn deferred(kind: Composite<D::V, L::V>, ledger: Seq<Block>) -> Option<Wakeup> {
        match kind {
            Composite::Core(core) => D::deferred(core, ledger),
            Composite::Leaf(leaf) => L::deferred(leaf, ledger),
        }
    }

    fn awaiting(&self) -> (ask: Option<Awaiting>) {
        match self {
            Composite::Core(core) => core.awaiting(),
            Composite::Leaf(leaf) => leaf.awaiting(),
        }
    }

    fn durable(&self) -> (lasts: bool) {
        match self {
            Composite::Core(core) => core.durable(),
            Composite::Leaf(leaf) => leaf.durable(),
        }
    }

    fn frontier_transparent(&self) -> (transparent: bool) {
        match self {
            Composite::Core(core) => core.frontier_transparent(),
            Composite::Leaf(leaf) => leaf.frontier_transparent(),
        }
    }

    fn heads_the_ledger(&self) -> (heads: bool) {
        match self {
            Composite::Core(core) => core.heads_the_ledger(),
            Composite::Leaf(leaf) => leaf.heads_the_ledger(),
        }
    }

    fn offers_tools(&self) -> (offers: bool) {
        match self {
            Composite::Core(core) => core.offers_tools(),
            Composite::Leaf(leaf) => leaf.offers_tools(),
        }
    }

    fn gate(&self) -> (decision: GateDecision) {
        match self {
            Composite::Core(core) => core.gate(),
            Composite::Leaf(leaf) => leaf.gate(),
        }
    }

    fn run_reads(&self) -> (ledger: Option<LedgerName>) {
        match self {
            Composite::Core(core) => core.run_reads(),
            Composite::Leaf(leaf) => leaf.run_reads(),
        }
    }

    fn run(&self, ledger: &[Block]) -> (run: Run) {
        match self {
            Composite::Core(core) => core.run(ledger),
            Composite::Leaf(leaf) => leaf.run(ledger),
        }
    }

    fn post_gate_id(&self, ledger: &[Block]) -> (next: Option<i64>) {
        match self {
            Composite::Core(core) => core.post_gate_id(ledger),
            Composite::Leaf(leaf) => leaf.post_gate_id(ledger),
        }
    }

    fn run_post_gate(&self, ledger: &[Block]) -> (wakeup: Option<Wakeup>) {
        match self {
            Composite::Core(core) => core.run_post_gate(ledger),
            Composite::Leaf(leaf) => leaf.run_post_gate(ledger),
        }
    }
}

impl<D: Projection, L: Projection> Projection for Composite<D, L> {
    open spec fn groups(kind: Composite<D::V, L::V>) -> Option<Role> {
        match kind {
            Composite::Core(core) => D::groups(core),
            Composite::Leaf(leaf) => L::groups(leaf),
        }
    }

    open spec fn parts(kind: Composite<D::V, L::V>) -> Option<Seq<Part>> {
        match kind {
            Composite::Core(core) => D::parts(core),
            Composite::Leaf(leaf) => L::parts(leaf),
        }
    }

    open spec fn text(kind: Composite<D::V, L::V>) -> Option<Seq<char>> {
        match kind {
            Composite::Core(core) => D::text(core),
            Composite::Leaf(leaf) => L::text(leaf),
        }
    }

    open spec fn only_parts(kind: Composite<D::V, L::V>) -> bool {
        match kind {
            Composite::Core(core) => D::only_parts(core),
            Composite::Leaf(leaf) => L::only_parts(leaf),
        }
    }

    fn group_role(&self) -> (role: Option<Role>) {
        match self {
            Composite::Core(core) => core.group_role(),
            Composite::Leaf(leaf) => leaf.group_role(),
        }
    }

    fn llm_parts(&self) -> (parts: Option<Vec<ContentPart>>) {
        match self {
            Composite::Core(core) => core.llm_parts(),
            Composite::Leaf(leaf) => leaf.llm_parts(),
        }
    }

    fn llm_text(&self) -> (text: Option<String>) {
        match self {
            Composite::Core(core) => core.llm_text(),
            Composite::Leaf(leaf) => leaf.llm_text(),
        }
    }

    fn forces_parts(&self) -> (forces: bool) {
        match self {
            Composite::Core(core) => core.forces_parts(),
            Composite::Leaf(leaf) => leaf.forces_parts(),
        }
    }
}

/// Composing leaves the delegate as it was: where the leaf claims nothing of
/// the delegate's, every row the delegate owns is read by the delegate, and
/// answers every hook as it did.
pub proof fn composing_leaves_the_delegate_as_it_was<
    D: FromBlock + Agency + Projection,
    L: LeafKind + Agency + Projection,
>(block: Block, ledger: Seq<Block>)
    requires
        D::resolves(block.block_type@),
        !L::owns(block.block_type@),
    ensures
        Composite::<D, L>::read(block) == Composite::<D::V, L::V>::Core(D::read(block)),
        Composite::<D, L>::asks(Composite::<D, L>::read(block)) == D::asks(D::read(block)),
        Composite::<D, L>::lasts(Composite::<D, L>::read(block)) == D::lasts(D::read(block)),
        Composite::<D, L>::see_through(Composite::<D, L>::read(block)) == D::see_through(
            D::read(block),
        ),
        Composite::<D, L>::work(Composite::<D, L>::read(block), ledger) == D::work(
            D::read(block),
            ledger,
        ),
        Composite::<D, L>::route(Composite::<D, L>::read(block), ledger) == D::route(
            D::read(block),
            ledger,
        ),
        Composite::<D, L>::deferred(Composite::<D, L>::read(block), ledger) == D::deferred(
            D::read(block),
            ledger,
        ),
        Composite::<D, L>::heads(Composite::<D, L>::read(block)) == D::heads(D::read(block)),
        Composite::<D, L>::tooled(Composite::<D, L>::read(block)) == D::tooled(D::read(block)),
        Composite::<D, L>::vetted(Composite::<D, L>::read(block)) == D::vetted(D::read(block)),
        Composite::<D, L>::reads(Composite::<D, L>::read(block)) == D::reads(D::read(block)),
        Composite::<D, L>::groups(Composite::<D, L>::read(block)) == D::groups(D::read(block)),
        Composite::<D, L>::parts(Composite::<D, L>::read(block)) == D::parts(D::read(block)),
        Composite::<D, L>::text(Composite::<D, L>::read(block)) == D::text(D::read(block)),
        Composite::<D, L>::only_parts(Composite::<D, L>::read(block)) == D::only_parts(
            D::read(block),
        ),
{
}

/// A composite claims nothing twice, where neither part does and the two claim
/// nothing in common.
pub proof fn a_composite_claims_nothing_twice<D: FromBlock, L: LeafKind>()
    requires
        D::claimed().no_duplicates(),
        L::names().no_duplicates(),
        forall|stored: Seq<char>|
            #![trigger D::claimed().contains(stored)]
            D::claimed().contains(stored) ==> !L::names().contains(stored),
    ensures
        Composite::<D, L>::claimed().no_duplicates(),
{
    let core = D::claimed();
    let leaf = L::names();
    let all = core + leaf;
    assert forall|i: int, j: int| 0 <= i < all.len() && 0 <= j < all.len() && i != j implies all[i]
        != all[j] by {
        if i < core.len() && j >= core.len() {
            assert(core.contains(core[i]));
            assert(leaf.contains(leaf[j - core.len()]));
        } else if j < core.len() && i >= core.len() {
            assert(core.contains(core[j]));
            assert(leaf.contains(leaf[i - core.len()]));
        }
    }
}

/// What nobody claims reaches the delegate's own fallback.
pub proof fn an_unclaimed_row_reaches_the_delegate<D: FromBlock, L: LeafKind>(block: Block)
    requires
        !Composite::<D, L>::resolves(block.block_type@),
    ensures
        Composite::<D, L>::read(block) == Composite::<D::V, L::V>::Core(D::read(block)),
{
}

/// A row that the leaf claims is read by the leaf, whoever else claims it, and
/// answers every hook as the leaf does.
pub proof fn a_leafs_row_answers_as_the_leaf_does<
    D: FromBlock + Agency + Projection,
    L: LeafKind + Agency + Projection,
>(block: Block, ledger: Seq<Block>)
    requires
        L::owns(block.block_type@),
    ensures
        Composite::<D, L>::read(block) == Composite::<D::V, L::V>::Leaf(L::reading(block)),
        ({
            let kind = Composite::<D, L>::read(block);
            let own = L::reading(block);
            &&& Composite::<D, L>::asks(kind) == L::asks(own)
            &&& Composite::<D, L>::lasts(kind) == L::lasts(own)
            &&& Composite::<D, L>::see_through(kind) == L::see_through(own)
            &&& Composite::<D, L>::heads(kind) == L::heads(own)
            &&& Composite::<D, L>::tooled(kind) == L::tooled(own)
            &&& Composite::<D, L>::vetted(kind) == L::vetted(own)
            &&& Composite::<D, L>::reads(kind) == L::reads(own)
            &&& Composite::<D, L>::work(kind, ledger) == L::work(own, ledger)
            &&& Composite::<D, L>::route(kind, ledger) == L::route(own, ledger)
            &&& Composite::<D, L>::deferred(kind, ledger) == L::deferred(own, ledger)
            &&& Composite::<D, L>::groups(kind) == L::groups(own)
            &&& Composite::<D, L>::parts(kind) == L::parts(own)
            &&& Composite::<D, L>::text(kind) == L::text(own)
            &&& Composite::<D, L>::only_parts(kind) == L::only_parts(own)
        }),
{
}

/// A composite claims what the delegate claims and then what the leaf claims,
/// and brings the tables of both along in the same order: nothing of either is
/// lost and nothing is added.
pub proof fn a_composite_claims_both_parts_in_order<D: FromBlock, L: LeafKind>(stored: Seq<char>)
    ensures
        Composite::<D, L>::resolves(stored) <==> D::resolves(stored) || L::owns(stored),
        Composite::<D, L>::claimed().len() == D::claimed().len() + L::names().len(),
        Composite::<D, L>::claimed().take(D::claimed().len() as int) == D::claimed(),
        Composite::<D, L>::claimed().skip(D::claimed().len() as int) == L::names(),
        <Composite<D, L> as FromBlock>::tables().len() == <D as FromBlock>::tables().len()
            + <L as LeafKind>::tables().len(),
        <Composite<D, L> as FromBlock>::tables().take(<D as FromBlock>::tables().len() as int)
            == <D as FromBlock>::tables(),
        <Composite<D, L> as FromBlock>::tables().skip(<D as FromBlock>::tables().len() as int)
            == <L as LeafKind>::tables(),
{
    let core = D::claimed();
    let tables = <D as FromBlock>::tables();
    assert((core + L::names()).take(core.len() as int) =~= core);
    assert((core + L::names()).skip(core.len() as int) =~= L::names());
    assert((tables + <L as LeafKind>::tables()).take(tables.len() as int) =~= tables);
    assert((tables + <L as LeafKind>::tables()).skip(tables.len() as int)
        =~= <L as LeafKind>::tables());
}

} // verus!
