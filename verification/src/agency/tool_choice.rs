//! Which tools a conversation has.

use vstd::prelude::*;

use super::kinds::str_eq;
use super::model::Kind;
use super::projection::{ContentPart, Projection};
use super::ratchet;
#[allow(unused_imports)]
use super::rows;
use super::{
    Agency, BlockKind, ContentDescriptor, FromBlock, GateDecision, LeafKind, LedgerName, Run,
    Wakeup,
};
use crate::agency;
use crate::block;
use crate::block::{Awaiting, Block, Role};

verus! {

/// The tools a conversation has, recorded in its own ledger.
///
/// The newest record speaks. A ledger without one has made no choice, which is
/// another answer than an empty one: no record means every registered tool, an
/// empty record means none.
#[derive(Debug, Clone)]
pub struct ToolChoice {
    /// The names, in the order they were recorded.
    pub names: Vec<String>,
}

impl View for ToolChoice {
    type V = Kind;

    open spec fn view(&self) -> Kind {
        Kind::ToolChoice { names: block::texts(self.names@) }
    }
}

/// The newest recorded choice.
pub open spec fn newest_choice(ledger: Seq<Block>) -> Option<int>
    decreases ledger.len(),
{
    if ledger.len() == 0 {
        None
    } else if agency::read(ledger.last()) is ToolChoice {
        Some(ledger.len() - 1)
    } else {
        newest_choice(ledger.drop_last())
    }
}

impl ToolChoice {
    /// The newest choice a ledger records, where it records one.
    pub fn newest_in(ledger: &[Block]) -> (choice: Option<Self>)
        ensures
            match choice {
                Some(found) => newest_choice(ledger@) matches Some(at) && found@ == agency::read(
                    ledger@[at],
                ),
                None => newest_choice(ledger@) is None,
            },
    {
        let mut index: usize = ledger.len();
        assert(ledger@.take(index as int) =~= ledger@);
        while index > 0
            invariant
                index <= ledger.len(),
                newest_choice(ledger@) == newest_choice(ledger@.take(index as int)),
            decreases index,
        {
            assert(ledger@.take(index as int).drop_last() =~= ledger@.take(index - 1));
            if let BlockKind::ToolChoice(choice) = BlockKind::from_block(&ledger[index - 1]) {
                return Some(choice);
            }
            index -= 1;
        }
        None
    }
}

/// The newest choice speaks: an appended choice is the one that is read, and
/// any other appended row changes nothing.
pub proof fn the_newest_choice_speaks(ledger: Seq<Block>, row: Block)
    ensures
        agency::read(row) is ToolChoice ==> newest_choice(ledger.push(row)) == Some(
            ledger.len() as int,
        ),
        !(agency::read(row) is ToolChoice) ==> newest_choice(ledger.push(row)) == newest_choice(
            ledger,
        ),
{
    assert(ledger.push(row).drop_last() =~= ledger);
}

/// The registered names that a choice names too, in the registry's order.
pub open spec fn chosen(registered: Seq<Seq<char>>, names: Seq<Seq<char>>) -> Seq<Seq<char>>
    decreases registered.len(),
{
    if registered.len() == 0 {
        seq![]
    } else {
        let rest = chosen(registered.drop_last(), names);
        if names.contains(registered.last()) {
            rest.push(registered.last())
        } else {
            rest
        }
    }
}

/// The tools a turn over a ledger is offered: those of the newest choice that
/// are registered, or every registered one where no choice was recorded.
pub open spec fn offered(ledger: Seq<Block>, registered: Seq<Seq<char>>) -> Seq<Seq<char>> {
    match newest_choice(ledger) {
        Some(at) => match agency::read(ledger[at]) {
            Kind::ToolChoice { names } => chosen(registered, names),
            _ => registered,
        },
        None => registered,
    }
}

/// The names a choice records, where one is recorded.
spec fn recorded_names(choice: Option<ToolChoice>) -> Option<Seq<Seq<char>>> {
    match choice {
        Some(found) => Some(block::texts(found.names@)),
        None => None,
    }
}

impl ToolChoice {
    /// Whether the choice names a tool.
    pub fn names_tool(&self, name: &str) -> (named: bool)
        ensures
            named == block::texts(self.names@).contains(name@),
    {
        let mut index: usize = 0;
        while index < self.names.len()
            invariant
                index <= self.names.len(),
                forall|i: int| 0 <= i < index ==> block::texts(self.names@)[i] != name@,
            decreases self.names.len() - index,
        {
            if str_eq(self.names[index].as_str(), name) {
                assert(block::texts(self.names@)[index as int] == name@);
                return true;
            }
            index += 1;
        }
        false
    }

    /// The tools a turn over a ledger is offered. A recorded name that nobody
    /// registered any more is offered to nobody.
    pub fn offered_tools(ledger: &[Block], registered: &[String]) -> (tools: Vec<String>)
        ensures
            block::texts(tools@) == offered(ledger@, block::texts(registered@)),
    {
        let choice = ToolChoice::newest_in(ledger);
        let mut tools: Vec<String> = Vec::new();
        let mut index: usize = 0;
        let ghost names = recorded_names(choice);
        assert(block::texts(tools@) =~= block::texts(registered@.take(0)));
        proof {
            newest_choice_is_one(ledger@);
        }
        while index < registered.len()
            invariant
                index <= registered.len(),
                names == recorded_names(choice),
                match names {
                    Some(list) => block::texts(tools@) == chosen(
                        block::texts(registered@.take(index as int)),
                        list,
                    ),
                    None => block::texts(tools@) == block::texts(registered@.take(index as int)),
                },
            decreases registered.len() - index,
        {
            let name = &registered[index];
            let ghost before = block::texts(tools@);
            let ghost upto = block::texts(registered@.take(index + 1));
            assert(upto.drop_last() =~= block::texts(registered@.take(index as int)));
            assert(upto.last() == name@);
            let wanted = match &choice {
                Some(found) => found.names_tool(name.as_str()),
                None => true,
            };
            if wanted {
                tools.push(name.clone());
                assert(block::texts(tools@) =~= before.push(name@));
                assert(upto =~= block::texts(registered@.take(index as int)).push(name@));
            }
            index += 1;
        }
        assert(registered@.take(index as int) =~= registered@);
        tools
    }
}

proof fn newest_choice_is_one(ledger: Seq<Block>)
    ensures
        newest_choice(ledger) matches Some(at) ==> 0 <= at < ledger.len() && agency::read(
            ledger[at],
        ) is ToolChoice,
    decreases ledger.len(),
{
    if ledger.len() > 0 {
        newest_choice_is_one(ledger.drop_last());
    }
}

/// An empty choice is a choice: a turn over a ledger whose newest choice names
/// nothing is offered nothing.
pub proof fn an_empty_choice_offers_nothing(
    ledger: Seq<Block>,
    choice: Block,
    registered: Seq<Seq<char>>,
)
    requires
        agency::read(choice) == (Kind::ToolChoice { names: Seq::empty() }),
    ensures
        offered(ledger.push(choice), registered) == Seq::<Seq<char>>::empty(),
    decreases registered.len(),
{
    the_newest_choice_speaks(ledger, choice);
    if registered.len() > 0 {
        an_empty_choice_offers_nothing(ledger, choice, registered.drop_last());
    }
}

/// A choice can be recorded anywhere: behind a message that owes a turn, a
/// choice of no turn leaves the turn owed.
pub proof fn a_recorded_choice_leaves_an_owed_turn_owed(
    ledger: Seq<Block>,
    at: int,
    choice: Block,
)
    requires
        0 <= at < ledger.len(),
        ratchet::is_frontier::<BlockKind>(ledger, at),
        ratchet::owes::<BlockKind>(ledger[at]),
        agency::read(choice) is ToolChoice,
        choice.dispatch_anchor is None,
    ensures
        ratchet::is_frontier::<BlockKind>(ledger.push(choice), at),
        ratchet::owes::<BlockKind>(ledger.push(choice)[at]),
{
    if ratchet::transparent::<BlockKind>(ledger[at]) {
        agency::block_kind::a_transparent_kind_asks_nothing(agency::read(ledger[at]));
    }
    assert(ratchet::transparent::<BlockKind>(choice));
    ratchet::a_record_of_no_turn_leaves_the_frontier::<BlockKind>(ledger, at, choice);
}

/// Nothing is offered that is not registered.
pub proof fn only_registered_tools_are_offered(
    ledger: Seq<Block>,
    registered: Seq<Seq<char>>,
    name: Seq<char>,
)
    requires
        offered(ledger, registered).contains(name),
    ensures
        registered.contains(name),
{
    newest_choice_is_one(ledger);
    if let Some(at) = newest_choice(ledger) {
        if let Kind::ToolChoice { names } = agency::read(ledger[at]) {
            chosen_names_are_registered(registered, names, name);
        }
    }
}

proof fn chosen_names_are_registered(
    registered: Seq<Seq<char>>,
    names: Seq<Seq<char>>,
    name: Seq<char>,
)
    ensures
        chosen(registered, names).contains(name) ==> registered.contains(name) && names.contains(
            name,
        ),
    decreases registered.len(),
{
    if registered.len() > 0 && chosen(registered, names).contains(name) {
        let init = registered.drop_last();
        chosen_names_are_registered(init, names, name);
        let list = chosen(registered, names);
        let k = choose|k: int| 0 <= k < list.len() && list[k] == name;
        if chosen(init, names).contains(name) {
            let i = choose|i: int| 0 <= i < init.len() && init[i] == name;
            assert(registered[i] == name);
        } else {
            if names.contains(registered.last()) {
                if k < chosen(init, names).len() {
                    assert(chosen(init, names)[k] == name);
                }
                assert(registered[registered.len() - 1] == name);
            } else {
                assert(chosen(init, names)[k] == name);
            }
        }
    }
}

/// A choice keeps the registered tools that it names, in the order in which
/// they were registered: a tool is kept or not whatever stands beside it.
pub proof fn a_choice_keeps_the_registered_tools_it_names(
    one: Seq<Seq<char>>,
    other: Seq<Seq<char>>,
    names: Seq<Seq<char>>,
)
    ensures
        chosen(one + other, names) == chosen(one, names) + chosen(other, names),
        one.len() == 1 && names.contains(one[0]) ==> chosen(one, names) == one,
        one.len() == 1 && !names.contains(one[0]) ==> chosen(one, names).len() == 0,
        one.len() == 0 ==> chosen(one, names).len() == 0,
    decreases other.len(),
{
    if one.len() == 1 {
        assert(chosen(one.drop_last(), names) =~= seq![]);
        assert(names.contains(one[0]) ==> chosen(one, names) =~= one);
    }
    if other.len() == 0 {
        assert(one + other =~= one);
        assert(chosen(one, names) + chosen(other, names) =~= chosen(one, names));
    } else {
        a_choice_keeps_the_registered_tools_it_names(one, other.drop_last(), names);
        assert((one + other).drop_last() =~= one + other.drop_last());
        assert(chosen(one + other, names) =~= chosen(one, names) + chosen(other, names));
    }
}

/// What a turn is offered follows the ledger row by row. A row that records a
/// choice leaves the registered tools that it names, whatever was chosen
/// before; any other row changes nothing; and where nothing was ever recorded
/// every registered tool is offered.
pub proof fn what_is_offered_follows_the_newest_choice(
    ledger: Seq<Block>,
    row: Block,
    registered: Seq<Seq<char>>,
)
    ensures
        offered(Seq::empty(), registered) == registered,
        row.block_type@ == "tool_choice"@ ==> offered(ledger.push(row), registered) == chosen(
            registered,
            block::texts_at(row, "names"@),
        ),
        row.block_type@ != "tool_choice"@ ==> offered(ledger.push(row), registered) == offered(
            ledger,
            registered,
        ),
{
    rows::a_row_is_of_the_kind_its_type_names(row);
    rows::a_kind_holds_what_its_row_carries(row);
    the_newest_choice_speaks(ledger, row);
    newest_choice_is_one(ledger);
    if let Some(at) = newest_choice(ledger) {
        assert(ledger.push(row)[at] == ledger[at]);
    }
}

impl LeafKind for ToolChoice {
    open spec fn owns(stored: Seq<char>) -> bool {
        stored == "tool_choice"@
    }

    open spec fn names() -> Seq<Seq<char>> {
        seq!["tool_choice"@]
    }

    open spec fn reading(block: Block) -> Kind {
        Kind::ToolChoice { names: block::texts_at(block, "names"@) }
    }

    fn kinds() -> (kinds: &'static [&'static str]) {
        let kinds: &'static [&'static str] = &["tool_choice"];
        assert(kinds@[0]@ == "tool_choice"@);
        kinds
    }

    fn descriptors() -> (tables: Vec<ContentDescriptor>) {
        Vec::new()
    }

    fn parse(block: &Block) -> (kind: Self) {
        ToolChoice { names: block::string_list_field(block, "names") }
    }
}

impl Agency for ToolChoice {
    open spec fn see_through(kind: Kind) -> bool {
        true
    }

    fn awaiting(&self) -> (ask: Option<Awaiting>) {
        None
    }

    fn durable(&self) -> (lasts: bool) {
        true
    }

    /// The record may be appended behind a message nobody has answered, and must not
    /// bury it.
    fn frontier_transparent(&self) -> (transparent: bool) {
        true
    }

    fn heads_the_ledger(&self) -> (heads: bool) {
        false
    }

    fn offers_tools(&self) -> (offers: bool) {
        true
    }

    fn gate(&self) -> (decision: GateDecision) {
        GateDecision::Proceed
    }

    fn run_reads(&self) -> (ledger: Option<LedgerName>) {
        None
    }

    fn run(&self, _ledger: &[Block]) -> (run: Run) {
        Run { done: true, wakeup: None }
    }

    fn post_gate_id(&self, _ledger: &[Block]) -> (next: Option<i64>) {
        None
    }

    fn run_post_gate(&self, _ledger: &[Block]) -> (wakeup: Option<Wakeup>) {
        None
    }
}

impl Projection for ToolChoice {
    fn group_role(&self) -> (role: Option<Role>) {
        None
    }

    fn llm_parts(&self) -> (parts: Option<Vec<ContentPart>>) {
        None
    }

    fn llm_text(&self) -> (text: Option<String>) {
        None
    }

    fn forces_parts(&self) -> (forces: bool) {
        false
    }
}

} // verus!
