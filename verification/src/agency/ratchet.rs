//! The ratchet: the one place a processed cursor moves.
//!
//! A drive runs a ledger's blocks forward from the persisted cursor and stops
//! at the first whose work is not done. It names no kind. What happens between
//! two steps, the block's own work and the writing of the cursor, is its
//! caller's: [`Drive`] says which block is next, takes what its work came to,
//! and says what cursor to write.

use vstd::prelude::*;

#[allow(unused_imports)]
use super::block_kind;
use super::model::Kind;
#[allow(unused_imports)]
use super::rows;
use super::tool_call;
use super::{Agency, BlockKind, FromBlock, LedgerName, Run, RuntimeKind, ToolCall, Wakeup};
use crate::agency;
#[allow(unused_imports)]
use crate::block;
use crate::block::{Awaiting, Block};

verus! {

/// One of the ledgers a drive runs over. The machinery is one; which rows it
/// lists and which cursor it moves its source says.
pub trait LedgerSource {
    /// The ledger the source is.
    spec fn names(&self) -> LedgerName;

    /// The ledger whose rows are listed, and whose cursor is read and written.
    fn ledger(&self) -> (name: LedgerName)
        ensures
            name == self.names(),
    ;
}

/// The conversation's own ledger.
pub struct ConversationLedger;

impl LedgerSource for ConversationLedger {
    open spec fn names(&self) -> LedgerName {
        LedgerName::Conversation
    }

    fn ledger(&self) -> (name: LedgerName) {
        LedgerName::Conversation
    }
}

/// The ledger of what is derived about a conversation.
pub struct MetadataLedger;

impl LedgerSource for MetadataLedger {
    open spec fn names(&self) -> LedgerName {
        LedgerName::Metadata
    }

    fn ledger(&self) -> (name: LedgerName) {
        LedgerName::Metadata
    }
}

/// The two sources are of the two ledgers, each of its own.
pub proof fn each_source_is_of_its_own_ledger(one: ConversationLedger, other: MetadataLedger)
    ensures
        one.names() is Conversation,
        other.names() is Metadata,
{
}

/// The result of one drive over a ledger.
#[derive(Debug, Clone, Copy, PartialEq, Eq, Structural)]
pub struct Outcome {
    /// The cursor after the drive: the last durable row it confirmed, or the
    /// one it began with.
    pub cursor: i64,
    /// Whether the drive went through and the frontier awaits the model.
    pub owes_turn: bool,
    /// Whether the drive stopped before the end.
    pub parked: bool,
    /// The frontier's own ask.
    pub awaiting: Option<Awaiting>,
}

/// What a block's work came to.
#[derive(Debug, Clone, Copy, PartialEq, Eq, Structural)]
pub enum Report {
    /// The work is complete.
    Done,
    /// The work is still owed.
    Owed,
    /// The work failed.
    Failed,
}

/// The first row whose id is not below a cursor, at or behind a position.
pub open spec fn reaching_from(ledger: Seq<Block>, from: int, cursor: i64) -> Option<int>
    decreases ledger.len() - from,
{
    if from < 0 || from >= ledger.len() {
        None
    } else if ledger[from].id >= cursor {
        Some(from)
    } else {
        reaching_from(ledger, from + 1, cursor)
    }
}

/// Where a drive resumes: at the cursor's own row; where that is gone, at the
/// first row that reaches the cursor; and else at the start.
pub open spec fn resume_point(ledger: Seq<Block>, cursor: i64) -> int {
    match tool_call::row_from(ledger, 0, cursor) {
        Some(own) => own,
        None => match reaching_from(ledger, 0, cursor) {
            Some(at) => at,
            None => 0,
        },
    }
}

/// Where a drive resumes.
///
/// A cursor names a row, and where that row stands the ledger says: the ids
/// need not ascend, since a thread may open with fresh rows in front of
/// inherited ones.
pub fn resume_at(ledger: &[Block], cursor: i64) -> (at: usize)
    ensures
        at == resume_point(ledger@, cursor),
        ledger@.len() > 0 ==> at < ledger@.len(),
{
    if let Some(own) = tool_call::row_position(ledger, cursor) {
        return own;
    }
    let mut index: usize = 0;
    while index < ledger.len()
        invariant
            index <= ledger.len(),
            tool_call::row_from(ledger@, 0, cursor) is None,
            reaching_from(ledger@, 0, cursor) == reaching_from(ledger@, index as int, cursor),
        decreases ledger.len() - index,
    {
        if ledger[index].id >= cursor {
            return index;
        }
        index += 1;
    }
    0
}

/// Whether a block awaits the model.
pub open spec fn owes<K: RuntimeKind>(block: Block) -> bool {
    K::asks(K::read(block)) == Some(Awaiting::Model)
}

/// The owed-turn decision over the frontier's block.
pub fn frontier_owes_turn<K: RuntimeKind>(tail: &Block) -> (owed: bool)
    ensures
        owed == owes::<K>(*tail),
{
    K::from_block(tail).awaiting() == Some(Awaiting::Model)
}

/// Whether the frontier reads through a block.
pub open spec fn transparent<K: RuntimeKind>(block: Block) -> bool {
    K::see_through(K::read(block))
}

/// Whether a transparent row at or behind a position ends the turn `anchor`.
pub open spec fn ended_from<K: RuntimeKind>(
    snapshot: Seq<Block>,
    from: int,
    anchor: i64,
) -> bool {
    exists|i: int|
        from <= i < snapshot.len() && #[trigger] transparent::<K>(snapshot[i])
            && snapshot[i].dispatch_anchor == Some(anchor)
}

/// Whether the row at a position belongs to the trailing run of turns that
/// stored rows have ended: it stores such an end, or it is a product of a turn
/// that a row behind it ends.
pub open spec fn in_ended_run<K: RuntimeKind>(snapshot: Seq<Block>, at: int) -> bool {
    transparent::<K>(snapshot[at]) || (snapshot[at].dispatch_anchor matches Some(anchor)
        && ended_from::<K>(snapshot, at + 1, anchor))
}

/// Whether everything behind a position belongs to that run.
pub open spec fn only_ended_behind<K: RuntimeKind>(snapshot: Seq<Block>, at: int) -> bool {
    forall|i: int| at < i < snapshot.len() ==> #[trigger] in_ended_run::<K>(snapshot, i)
}

/// Whether the row at a position is the first, from the end, that is not of
/// the run.
pub open spec fn stops_walk<K: RuntimeKind>(snapshot: Seq<Block>, at: int) -> bool {
    &&& 0 <= at < snapshot.len()
    &&& only_ended_behind::<K>(snapshot, at)
    &&& !in_ended_run::<K>(snapshot, at)
}

/// Whether a position is the frontier of a snapshot.
///
/// It is the last row that is not of a trailing run of ended turns. Where
/// that row is the very summons of an ended turn, or where there is no such
/// row, the frontier rests on the tail.
pub open spec fn is_frontier<K: RuntimeKind>(snapshot: Seq<Block>, at: int) -> bool {
    ||| stops_walk::<K>(snapshot, at) && !ended_from::<K>(snapshot, at + 1, snapshot[at].id)
    ||| at == snapshot.len() - 1 && rests_on_tail::<K>(snapshot)
}

/// Whether nothing in a snapshot may owe a turn but its tail.
pub open spec fn rests_on_tail<K: RuntimeKind>(snapshot: Seq<Block>) -> bool {
    ||| only_ended_behind::<K>(snapshot, -1)
    ||| exists|stop: int| #[trigger]
        stops_walk::<K>(snapshot, stop) && ended_from::<K>(
            snapshot,
            stop + 1,
            snapshot[stop].id,
        )
}

fn holds(list: &Vec<i64>, id: i64) -> (found: bool)
    ensures
        found == list@.contains(id),
{
    let mut index: usize = 0;
    while index < list.len()
        invariant
            index <= list.len(),
            forall|i: int| 0 <= i < index ==> list@[i] != id,
        decreases list.len() - index,
    {
        if list[index] == id {
            assert(list@[index as int] == id);
            return true;
        }
        index += 1;
    }
    false
}

/// The position of the frontier's block.
pub fn frontier_position<K: RuntimeKind>(snapshot: &[Block]) -> (at: Option<usize>)
    ensures
        match at {
            Some(index) => index < snapshot.len() && is_frontier::<K>(snapshot@, index as int),
            None => snapshot.len() == 0,
        },
{
    if snapshot.len() == 0 {
        return None;
    }
    let mut ended: Vec<i64> = Vec::new();
    let mut index: usize = snapshot.len();
    while index > 0
        invariant
            index <= snapshot.len(),
            snapshot.len() > 0,
            only_ended_behind::<K>(snapshot@, index - 1),
            forall|anchor: i64| #[trigger]
                ended@.contains(anchor) <==> ended_from::<K>(snapshot@, index as int, anchor),
        decreases index,
    {
        let at: usize = index - 1;
        let block = &snapshot[at];
        let ghost before = ended@;
        if K::from_block(block).frontier_transparent() {
            if let Some(anchor) = block.dispatch_anchor {
                if !holds(&ended, anchor) {
                    ended.push(anchor);
                }
            }
            proof {
                assert(transparent::<K>(snapshot@[at as int]));
                assert(in_ended_run::<K>(snapshot@, at as int));
                assert forall|anchor: i64| #[trigger]
                    ended@.contains(anchor) <==> ended_from::<K>(
                        snapshot@,
                        at as int,
                        anchor,
                    ) by {
                    if ended@.contains(anchor) {
                        if before.contains(anchor) {
                            let i = choose|i: int|
                                index <= i < snapshot@.len() && #[trigger] transparent::<K>(
                                    snapshot@[i],
                                ) && snapshot@[i].dispatch_anchor == Some(anchor);
                            assert(transparent::<K>(snapshot@[i]));
                        }
                    }
                    if ended_from::<K>(snapshot@, at as int, anchor) {
                        let i = choose|i: int|
                            at <= i < snapshot@.len() && #[trigger] transparent::<K>(snapshot@[i])
                                && snapshot@[i].dispatch_anchor == Some(anchor);
                        if i > at {
                            assert(ended_from::<K>(snapshot@, index as int, anchor));
                            assert(before.contains(anchor));
                            let k = choose|k: int| 0 <= k < before.len() && before[k] == anchor;
                            assert(ended@[k] == anchor);
                        } else {
                            if !before.contains(anchor) {
                                assert(ended@[ended@.len() - 1] == anchor);
                            }
                        }
                    }
                }
            }
            index = at;
            continue;
        }
        proof {
            assert(!transparent::<K>(snapshot@[at as int]));
            assert forall|anchor: i64|
                ended_from::<K>(snapshot@, at as int, anchor) == ended_from::<K>(
                    snapshot@,
                    index as int,
                    anchor,
                ) by {
                if ended_from::<K>(snapshot@, at as int, anchor) {
                    let i = choose|i: int|
                        at <= i < snapshot@.len() && #[trigger] transparent::<K>(snapshot@[i])
                            && snapshot@[i].dispatch_anchor == Some(anchor);
                    assert(i >= index);
                }
                if ended_from::<K>(snapshot@, index as int, anchor) {
                    let i = choose|i: int|
                        index <= i < snapshot@.len() && #[trigger] transparent::<K>(snapshot@[i])
                            && snapshot@[i].dispatch_anchor == Some(anchor);
                    assert(transparent::<K>(snapshot@[i]));
                }
            }
        }
        if let Some(anchor) = block.dispatch_anchor {
            if holds(&ended, anchor) {
                assert(in_ended_run::<K>(snapshot@, at as int));
                index = at;
                continue;
            }
        }
        assert(stops_walk::<K>(snapshot@, at as int));
        if holds(&ended, block.id) {
            return Some(snapshot.len() - 1);
        }
        return Some(at);
    }
    Some(snapshot.len() - 1)
}

/// The block the frontier decision reads: the tail, read through the trailing
/// run of turns that stored rows have ended.
///
/// A message a dead turn absorbed stands in front of the row that stores the
/// turn's end, and is still owed its turn; the dead turn's own products and
/// its own summons are not.
pub fn frontier_block<K: RuntimeKind>(snapshot: &[Block]) -> (frontier: Option<&Block>)
    ensures
        match frontier {
            Some(block) => exists|at: int|
                0 <= at < snapshot.len() && #[trigger] is_frontier::<K>(snapshot@, at) && *block
                    == snapshot@[at],
            None => snapshot.len() == 0,
        },
{
    match frontier_position::<K>(snapshot) {
        Some(at) => Some(&snapshot[at]),
        None => None,
    }
}

/// The turn a fresh dispatch belongs to: the tail's own, where the tail is a
/// turn's product; else the turn of the newest outcome nobody has answered;
/// else a turn that the tail itself starts.
pub open spec fn fresh_anchor(snapshot: Seq<Block>, tail: Block) -> i64 {
    match tail.dispatch_anchor {
        Some(anchor) => anchor,
        None => match tool_call::unanswered_turn(snapshot) {
            Some(anchor) => anchor,
            None => tail.id,
        },
    }
}

/// The turn a fresh dispatch over a snapshot belongs to. The ledger says it,
/// and no memory of an actor's does: a released turn is resumed by whoever
/// dispatches next.
pub fn fresh_turn_anchor(snapshot: &[Block], tail: &Block) -> (anchor: i64)
    ensures
        anchor == fresh_anchor(snapshot@, *tail),
{
    match tail.dispatch_anchor {
        Some(anchor) => anchor,
        None => match ToolCall::unanswered_outcome_anchor(snapshot) {
            Some(anchor) => anchor,
            None => tail.id,
        },
    }
}

/// Where a drive stands.
pub struct Driving {
    /// The rows the drive walks.
    pub ledger: Seq<Block>,
    /// The row it is at.
    pub at: int,
    /// The cursor it has reached.
    pub cursor: i64,
    /// Whether it has stopped at a row whose work is not done.
    pub parked: bool,
}

impl Driving {
    /// Whether a row is still to be run.
    pub open spec fn running(self) -> bool {
        !self.parked && self.at < self.ledger.len()
    }

    /// The cursor that has to be written once the row at hand has reported:
    /// its id, where it is done, outlives the drive, and is not the cursor
    /// already.
    pub open spec fn write<K: RuntimeKind>(self, report: Report) -> Option<i64> {
        let block = self.ledger[self.at];
        if report is Done && K::lasts(K::read(block)) && self.cursor != block.id {
            Some(block.id)
        } else {
            None
        }
    }

    /// Where the drive stands once the row at hand has reported.
    pub open spec fn after<K: RuntimeKind>(self, report: Report) -> Driving {
        if report is Done {
            Driving {
                at: self.at + 1,
                cursor: match self.write::<K>(report) {
                    Some(id) => id,
                    None => self.cursor,
                },
                ..self
            }
        } else {
            Driving { parked: true, ..self }
        }
    }

    /// Where the drive stands once the rows to come have reported, one after
    /// the other; reports beyond its end change nothing.
    pub open spec fn through<K: RuntimeKind>(self, reports: Seq<Report>) -> Driving
        decreases reports.len(),
    {
        if reports.len() == 0 || !self.running() {
            self
        } else {
            self.after::<K>(reports[0]).through::<K>(reports.drop_first())
        }
    }

    /// The cursors written while the rows to come report, in their order.
    pub open spec fn writes<K: RuntimeKind>(self, reports: Seq<Report>) -> Seq<i64>
        decreases reports.len(),
    {
        if reports.len() == 0 || !self.running() {
            seq![]
        } else {
            let rest = self.after::<K>(reports[0]).writes::<K>(reports.drop_first());
            match self.write::<K>(reports[0]) {
                Some(id) => seq![id] + rest,
                None => rest,
            }
        }
    }

    /// The rows whose ids those cursors are, in their order.
    pub open spec fn written_rows<K: RuntimeKind>(self, reports: Seq<Report>) -> Seq<int>
        decreases reports.len(),
    {
        if reports.len() == 0 || !self.running() {
            seq![]
        } else {
            let rest = self.after::<K>(reports[0]).written_rows::<K>(reports.drop_first());
            if self.write::<K>(reports[0]) is Some {
                seq![self.at] + rest
            } else {
                rest
            }
        }
    }
}

/// A drive at its beginning.
pub open spec fn drive_start(ledger: Seq<Block>, cursor: i64) -> Driving {
    Driving { ledger, at: resume_point(ledger, cursor), cursor, parked: false }
}

/// What a drive that has ended comes to, given the frontier's block.
pub open spec fn drive_outcome<K: RuntimeKind>(
    cursor: i64,
    parked: bool,
    frontier: Option<Block>,
) -> Outcome {
    Outcome {
        cursor,
        owes_turn: !parked && match frontier {
            Some(block) => owes::<K>(block),
            None => false,
        },
        parked,
        awaiting: match frontier {
            Some(block) => K::asks(K::read(block)),
            None => None,
        },
    }
}

/// One drive over a ledger, step by step.
///
/// The caller runs the block at hand, hands in its report, writes the cursor
/// it is told to write, and goes on; a cursor that cannot be written ends the
/// drive. The block's own work is thus always committed before the cursor
/// passes it, so that a crash between the two repeats work that is done and
/// never skips work that is not.
pub struct Drive {
    ledger: Vec<Block>,
    at: usize,
    cursor: i64,
    parked: bool,
}

impl View for Drive {
    type V = Driving;

    closed spec fn view(&self) -> Driving {
        Driving {
            ledger: self.ledger@,
            at: self.at as int,
            cursor: self.cursor,
            parked: self.parked,
        }
    }
}

impl Drive {
    /// A drive that is at a row of its ledger or at the end.
    pub open spec fn wf(&self) -> bool {
        0 <= self@.at <= self@.ledger.len()
    }

    /// Begin a drive, inclusively, at the persisted cursor.
    pub fn begin(ledger: Vec<Block>, cursor: i64) -> (drive: Drive)
        ensures
            drive.wf(),
            drive@ == drive_start(ledger@, cursor),
    {
        let at: usize = resume_at(&ledger, cursor);
        Drive { ledger, at, cursor, parked: false }
    }

    /// The block whose work is next; `None` once the drive has ended.
    pub fn current(&self) -> (block: Option<&Block>)
        requires
            self.wf(),
        ensures
            match block {
                Some(next) => self@.running() && *next == self@.ledger[self@.at],
                None => !self@.running(),
            },
    {
        if !self.parked && self.at < self.ledger.len() {
            Some(&self.ledger[self.at])
        } else {
            None
        }
    }

    /// Take the report of the block at hand, and say which cursor has to be
    /// written before the drive goes on. A row that does not outlive the drive
    /// is confirmed and never anchored.
    pub fn report<K: RuntimeKind>(&mut self, report: Report) -> (cursor: Option<i64>)
        requires
            old(self).wf(),
            old(self)@.running(),
        ensures
            final(self).wf(),
            cursor == old(self)@.write::<K>(report),
            final(self)@ == old(self)@.after::<K>(report),
    {
        match report {
            Report::Done => {
                assert(self.at < self.ledger.len());
                let block = &self.ledger[self.at];
                let mut write: Option<i64> = None;
                if K::from_block(block).durable() && self.cursor != block.id {
                    write = Some(block.id);
                    self.cursor = block.id;
                }
                self.at = self.at + 1;
                write
            },
            _ => {
                self.parked = true;
                None
            },
        }
    }

    /// What the drive comes to, given the frontier's block as it stands now. A
    /// drive that parked owes no turn, whatever the frontier asks.
    pub fn outcome<K: RuntimeKind>(&self, frontier: Option<&Block>) -> (outcome: Outcome)
        ensures
            outcome == drive_outcome::<K>(
                self@.cursor,
                self@.parked,
                match frontier {
                    Some(block) => Some(*block),
                    None => None,
                },
            ),
    {
        outcome_at::<K>(self.cursor, self.parked, frontier)
    }
}

fn outcome_at<K: RuntimeKind>(cursor: i64, parked: bool, frontier: Option<&Block>) -> (outcome:
    Outcome)
    ensures
        outcome == drive_outcome::<K>(
            cursor,
            parked,
            match frontier {
                Some(block) => Some(*block),
                None => None,
            },
        ),
{
    let (awaiting, owed) = match frontier {
        Some(block) => (K::from_block(block).awaiting(), frontier_owes_turn::<K>(block)),
        None => (None, false),
    };
    Outcome { cursor, owes_turn: !parked && owed, parked, awaiting }
}

/// What a block's work came to, as a report.
pub open spec fn report_of(run: Run) -> Report {
    if run.done {
        Report::Done
    } else {
        Report::Owed
    }
}

/// The reports of the rows from a position on, where their work reads the rows
/// `seen`.
pub open spec fn reports_over<K: RuntimeKind>(
    ledger: Seq<Block>,
    from: int,
    seen: Seq<Block>,
) -> Seq<Report> {
    Seq::new(
        (ledger.len() - from) as nat,
        |i: int| report_of(K::work(K::read(ledger[from + i]), seen)),
    )
}

/// What the rows from one position up to another ask for, in their order, where
/// their work reads the rows `seen`.
pub open spec fn wakeups_over<K: RuntimeKind>(
    ledger: Seq<Block>,
    from: int,
    upto: int,
    seen: Seq<Block>,
) -> Seq<Wakeup>
    decreases upto - from,
{
    if upto <= from {
        seq![]
    } else {
        let before = wakeups_over::<K>(ledger, from, upto - 1, seen);
        match K::work(K::read(ledger[upto - 1]), seen).wakeup {
            Some(wakeup) => before.push(wakeup),
            None => before,
        }
    }
}

/// What a drive over rows that are at hand did.
#[derive(Debug, Clone)]
pub struct Pass {
    /// The cursor it reached.
    pub cursor: i64,
    /// Whether it stopped before the end.
    pub parked: bool,
    /// The cursors to be written, in their order.
    pub writes: Vec<i64>,
    /// What the rows it ran ask for, in their order.
    pub wakeups: Vec<Wakeup>,
}

impl Pass {
    /// What the drive comes to, given the frontier's block as it stands now.
    pub fn outcome<K: RuntimeKind>(&self, frontier: Option<&Block>) -> (outcome: Outcome)
        ensures
            outcome == drive_outcome::<K>(
                self.cursor,
                self.parked,
                match frontier {
                    Some(block) => Some(*block),
                    None => None,
                },
            ),
    {
        outcome_at::<K>(self.cursor, self.parked, frontier)
    }
}

/// Drive rows that are at hand, inclusively, from the persisted cursor: each
/// row's work is done over the rows `seen`, and the drive stops at the first
/// that is not done. Whatever a row that was run asks for is asked for, whether
/// its work is done or not.
pub fn drive_ledger<K: RuntimeKind>(ledger: Vec<Block>, cursor: i64, seen: &[Block]) -> (pass: Pass)
    ensures
        ({
            let start = drive_start(ledger@, cursor);
            let reports = reports_over::<K>(ledger@, start.at, seen@);
            let end = start.through::<K>(reports);
            &&& pass.cursor == end.cursor
            &&& pass.parked == end.parked
            &&& pass.writes@ == start.writes::<K>(reports)
            &&& pass.wakeups@ == wakeups_over::<K>(
                ledger@,
                start.at,
                if end.parked {
                    end.at + 1
                } else {
                    end.at
                },
                seen@,
            )
        }),
{
    let ghost rows = ledger@;
    let ghost start = drive_start(rows, cursor);
    let ghost all = reports_over::<K>(rows, start.at, seen@);
    let mut drive = Drive::begin(ledger, cursor);
    let mut writes: Vec<i64> = Vec::new();
    let mut wakeups: Vec<Wakeup> = Vec::new();
    let mut going = true;
    assert(writes@ + start.writes::<K>(all) =~= start.writes::<K>(all));
    while going
        invariant
            drive.wf(),
            drive@.ledger == rows,
            start == drive_start(rows, cursor),
            all == reports_over::<K>(rows, start.at, seen@),
            start.at <= drive@.at,
            going ==> !drive@.parked && wakeups@ == wakeups_over::<K>(
                rows,
                start.at,
                drive@.at,
                seen@,
            ) && start.through::<K>(all)
                == drive@.through::<K>(reports_over::<K>(rows, drive@.at, seen@))
                && start.writes::<K>(all) == writes@ + drive@.writes::<K>(
                reports_over::<K>(rows, drive@.at, seen@),
            ),
            !going ==> start.through::<K>(all) == drive@ && start.writes::<K>(all) == writes@
                && wakeups@ == wakeups_over::<K>(
                rows,
                start.at,
                if drive@.parked {
                    drive@.at + 1
                } else {
                    drive@.at
                },
                seen@,
            ),
        decreases rows.len() - drive@.at, (if going {
            1int
        } else {
            0int
        }),
    {
        let ghost reports = reports_over::<K>(rows, drive@.at, seen@);
        let run = match drive.current() {
            Some(block) => K::from_block(block).run(seen),
            None => {
                assert(writes@ + drive@.writes::<K>(reports) =~= writes@);
                going = false;
                continue;
            },
        };
        let ghost here = drive@;
        if let Some(wakeup) = run.wakeup {
            wakeups.push(wakeup);
        }
        assert(wakeups@ == wakeups_over::<K>(rows, start.at, here.at + 1, seen@));
        let report = if run.done {
            Report::Done
        } else {
            Report::Owed
        };
        assert(reports[0] == report);
        assert(reports.drop_first() =~= reports_over::<K>(rows, here.at + 1, seen@));
        let write = drive.report::<K>(report);
        let ghost before = writes@;
        if let Some(id) = write {
            writes.push(id);
        }
        proof {
            let rest = drive@.writes::<K>(reports.drop_first());
            assert(here.writes::<K>(reports) =~= writes@.skip(before.len() as int) + rest);
            assert(start.writes::<K>(all) =~= writes@ + rest);
        }
        if !run.done {
            going = false;
            assert(drive@.through::<K>(reports.drop_first()) == drive@);
            assert(writes@ + drive@.writes::<K>(reports.drop_first()) =~= writes@);
        }
    }
    let Drive { cursor, parked, .. } = drive;
    Pass { cursor, parked, writes, wakeups }
}

/// Whether the tail alone cannot answer for the frontier, so that the whole
/// ledger has to be read: whether the tail is read through.
pub fn tail_needs_snapshot<K: RuntimeKind>(tail: Option<&Block>) -> (needs: bool)
    ensures
        needs == match tail {
            Some(block) => transparent::<K>(*block),
            None => false,
        },
{
    match tail {
        Some(block) => K::from_block(block).frontier_transparent(),
        None => false,
    }
}

proof fn ended_run_grows_from_behind<K: RuntimeKind>(snapshot: Seq<Block>, a: int, b: int)
    requires
        stops_walk::<K>(snapshot, a),
        stops_walk::<K>(snapshot, b),
    ensures
        a == b,
{
    if a < b {
        assert(in_ended_run::<K>(snapshot, b));
    }
    if b < a {
        assert(in_ended_run::<K>(snapshot, a));
    }
}

/// A snapshot has one frontier.
pub proof fn a_snapshot_has_one_frontier<K: RuntimeKind>(snapshot: Seq<Block>, a: int, b: int)
    requires
        is_frontier::<K>(snapshot, a),
        is_frontier::<K>(snapshot, b),
    ensures
        a == b,
{
    if stops_walk::<K>(snapshot, a) && !ended_from::<K>(snapshot, a + 1, snapshot[a].id) {
        if only_ended_behind::<K>(snapshot, -1) {
            assert(in_ended_run::<K>(snapshot, a));
        }
        assert forall|stop: int| #[trigger] stops_walk::<K>(snapshot, stop) implies stop == a by {
            ended_run_grows_from_behind::<K>(snapshot, stop, a);
        }
    }
    if stops_walk::<K>(snapshot, b) && !ended_from::<K>(snapshot, b + 1, snapshot[b].id) {
        if only_ended_behind::<K>(snapshot, -1) {
            assert(in_ended_run::<K>(snapshot, b));
        }
        assert forall|stop: int| #[trigger] stops_walk::<K>(snapshot, stop) implies stop == b by {
            ended_run_grows_from_behind::<K>(snapshot, stop, b);
        }
    }
}

/// A tail that is not read through is itself the frontier: the one-row read
/// and the read of the whole ledger agree.
pub proof fn an_opaque_tail_is_the_frontier<K: RuntimeKind>(snapshot: Seq<Block>)
    requires
        snapshot.len() > 0,
        !transparent::<K>(snapshot.last()),
    ensures
        is_frontier::<K>(snapshot, snapshot.len() - 1),
{
    let last = snapshot.len() - 1;
    assert(!ended_from::<K>(snapshot, last + 1, snapshot[last].id));
    assert(stops_walk::<K>(snapshot, last));
}

/// A frontier that is not the tail belongs to no turn that a stored row behind
/// it has ended, and is the summons of none: a dead turn is never dispatched
/// again.
pub proof fn the_frontier_never_revives_an_ended_turn<K: RuntimeKind>(
    snapshot: Seq<Block>,
    at: int,
    end: int,
    anchor: i64,
)
    requires
        is_frontier::<K>(snapshot, at),
        at < end < snapshot.len(),
        transparent::<K>(snapshot[end]),
        snapshot[end].dispatch_anchor == Some(anchor),
    ensures
        snapshot[at].dispatch_anchor != Some(anchor),
        snapshot[at].id != anchor,
{
    assert(ended_from::<K>(snapshot, at + 1, anchor));
}

/// A message that nobody has dispatched yet owes its turn however many stored
/// ends of other turns, and products of those turns, stand behind it.
pub proof fn an_absorbed_message_still_owes<K: RuntimeKind>(snapshot: Seq<Block>, at: int)
    requires
        0 <= at < snapshot.len(),
        !transparent::<K>(snapshot[at]),
        snapshot[at].dispatch_anchor is None,
        only_ended_behind::<K>(snapshot, at),
        !ended_from::<K>(snapshot, at + 1, snapshot[at].id),
    ensures
        is_frontier::<K>(snapshot, at),
{
    assert(stops_walk::<K>(snapshot, at));
}

proof fn a_record_of_no_turn_ends_none<K: RuntimeKind>(
    snapshot: Seq<Block>,
    record: Block,
    from: int,
    anchor: i64,
)
    requires
        record.dispatch_anchor is None,
        from >= 0,
    ensures
        ended_from::<K>(snapshot.push(record), from, anchor) == ended_from::<K>(
            snapshot,
            from,
            anchor,
        ),
{
    let now = snapshot.push(record);
    if ended_from::<K>(now, from, anchor) {
        let i = choose|i: int|
            from <= i < now.len() && #[trigger] transparent::<K>(now[i]) && now[i].dispatch_anchor
                == Some(anchor);
        assert(now[i] == snapshot[i]);
    }
    if ended_from::<K>(snapshot, from, anchor) {
        let i = choose|i: int|
            from <= i < snapshot.len() && #[trigger] transparent::<K>(snapshot[i])
                && snapshot[i].dispatch_anchor == Some(anchor);
        assert(now[i] == snapshot[i]);
    }
}

/// A row that is read through and belongs to no turn, appended behind a
/// frontier that is not itself read through, leaves the frontier where it was:
/// a message nobody has answered yet still owes its turn.
pub proof fn a_record_of_no_turn_leaves_the_frontier<K: RuntimeKind>(
    snapshot: Seq<Block>,
    at: int,
    record: Block,
)
    requires
        0 <= at < snapshot.len(),
        is_frontier::<K>(snapshot, at),
        !transparent::<K>(snapshot[at]),
        transparent::<K>(record),
        record.dispatch_anchor is None,
    ensures
        is_frontier::<K>(snapshot.push(record), at),
{
    let now = snapshot.push(record);
    let last = snapshot.len() - 1;
    if at == last {
        an_opaque_tail_is_the_frontier::<K>(snapshot);
        assert(stops_walk::<K>(snapshot, at)) by {
            assert(!ended_from::<K>(snapshot, at + 1, snapshot[at].id));
        }
    }
    assert(stops_walk::<K>(snapshot, at));
    assert(now[at] == snapshot[at]);
    a_record_of_no_turn_ends_none::<K>(snapshot, record, at + 1, snapshot[at].id);
    if let Some(anchor) = snapshot[at].dispatch_anchor {
        a_record_of_no_turn_ends_none::<K>(snapshot, record, at + 1, anchor);
    }
    assert forall|i: int| at < i < now.len() implies #[trigger] in_ended_run::<K>(now, i) by {
        if i <= last {
            assert(in_ended_run::<K>(snapshot, i));
            assert(now[i] == snapshot[i]);
            if let Some(anchor) = snapshot[i].dispatch_anchor {
                a_record_of_no_turn_ends_none::<K>(snapshot, record, i + 1, anchor);
            }
        } else {
            assert(now[i] == record);
        }
    }
    assert(stops_walk::<K>(now, at));
}

/// A drive that parked owes no turn.
pub proof fn a_parked_drive_owes_no_turn<K: RuntimeKind>(cursor: i64, frontier: Option<Block>)
    ensures
        !drive_outcome::<K>(cursor, true, frontier).owes_turn,
{
}

/// A drive that owes a turn has a frontier that awaits the model.
pub proof fn an_owed_turn_is_the_frontiers_ask<K: RuntimeKind>(
    cursor: i64,
    parked: bool,
    frontier: Option<Block>,
)
    ensures
        drive_outcome::<K>(cursor, parked, frontier).owes_turn ==> drive_outcome::<K>(
            cursor,
            parked,
            frontier,
        ).awaiting == Some(Awaiting::Model),
{
}

/// Whether a row of a ledger is durable and has an id.
pub open spec fn anchors<K: RuntimeKind>(ledger: Seq<Block>, at: int, id: i64) -> bool {
    ledger[at].id == id && K::lasts(K::read(ledger[at]))
}

/// A drive moves its cursor only onto durable rows that it has passed, and it
/// passes no row that was not done.
pub proof fn a_cursor_comes_to_rest_on_durable_rows_only<K: RuntimeKind>(
    drive: Driving,
    reports: Seq<Report>,
)
    requires
        0 <= drive.at <= drive.ledger.len(),
    ensures
        ({
            let end = drive.through::<K>(reports);
            &&& end.ledger == drive.ledger
            &&& drive.at <= end.at <= drive.ledger.len()
            &&& end.at - drive.at <= reports.len()
            &&& end.cursor == drive.cursor || exists|i: int|
                drive.at <= i < end.at && #[trigger] anchors::<K>(drive.ledger, i, end.cursor)
            &&& forall|k: int|
                0 <= k < end.at - drive.at ==> (#[trigger] reports[k]) is Done
        }),
    decreases reports.len(),
{
    if reports.len() > 0 && drive.running() {
        let next = drive.after::<K>(reports[0]);
        let rest = reports.drop_first();
        if reports[0] is Done {
            a_cursor_comes_to_rest_on_durable_rows_only::<K>(next, rest);
            let end = next.through::<K>(rest);
            if end.cursor != drive.cursor {
                if end.cursor == next.cursor {
                    assert(anchors::<K>(drive.ledger, drive.at, end.cursor));
                }
            }
            assert forall|k: int| 0 <= k < end.at - drive.at implies (#[trigger] reports[k]) is Done by {
                if k > 0 {
                    assert(rest[k - 1] == reports[k]);
                }
            }
        } else {
            assert(next.through::<K>(rest) == next);
        }
    }
}

/// Whether every row up to one, counted from where a drive began, reported its
/// work done.
pub open spec fn done_upto(reports: Seq<Report>, last: int) -> bool {
    last < reports.len() && forall|i: int| 0 <= i <= last ==> (#[trigger] reports[i]) is Done
}

/// A drive may be cut off behind any cursor it wrote, and skips nothing: every
/// cursor is the id of a durable row, and that row's work and the work of every
/// row before it were done. Cursors are written in the ledger's order, none is
/// the one that is held already, and the last is where the drive's cursor ends.
pub proof fn a_written_cursor_skips_nothing<K: RuntimeKind>(drive: Driving, reports: Seq<Report>)
    requires
        0 <= drive.at,
    ensures
        ({
            let end = drive.through::<K>(reports);
            let writes = drive.writes::<K>(reports);
            let rows = drive.written_rows::<K>(reports);
            &&& rows.len() == writes.len()
            &&& forall|k: int|
                0 <= k < rows.len() ==> drive.at <= #[trigger] rows[k] < end.at && anchors::<K>(
                    drive.ledger,
                    rows[k],
                    writes[k],
                ) && done_upto(reports, rows[k] - drive.at)
            &&& forall|j: int, k: int|
                0 <= j < k < rows.len() ==> #[trigger] rows[j] < #[trigger] rows[k]
            &&& writes.len() > 0 ==> writes[0] != drive.cursor
            &&& forall|k: int| 0 < k < writes.len() ==> #[trigger] writes[k] != writes[k - 1]
            &&& end.cursor == (if writes.len() == 0 {
                drive.cursor
            } else {
                writes.last()
            })
        }),
    decreases reports.len(),
{
    if reports.len() > 0 && drive.running() {
        let next = drive.after::<K>(reports[0]);
        let rest = reports.drop_first();
        if reports[0] is Done {
            a_written_cursor_skips_nothing::<K>(next, rest);
            let rows = drive.written_rows::<K>(reports);
            let later = next.written_rows::<K>(rest);
            let first = rows.len() - later.len();
            let writes = drive.writes::<K>(reports);
            let more = next.writes::<K>(rest);
            assert forall|k: int| 0 <= k < rows.len() implies drive.at <= #[trigger] rows[k]
                < drive.through::<K>(reports).at && anchors::<K>(
                drive.ledger,
                rows[k],
                writes[k],
            ) && done_upto(reports, rows[k] - drive.at) by {
                if k >= first {
                    assert(rows[k] == later[k - first]);
                    assert(writes[k] == more[k - first]);
                    assert forall|i: int| 0 <= i <= rows[k] - drive.at implies (
                    #[trigger] reports[i]) is Done by {
                        if i > 0 {
                            assert(rest[i - 1] == reports[i]);
                        }
                    }
                } else {
                    a_cursor_comes_to_rest_on_durable_rows_only::<K>(next, rest);
                }
            }
            assert forall|k: int| 0 < k < writes.len() implies #[trigger] writes[k] != writes[k
                - 1] by {
                assert(writes[k] == more[k - first]);
                if k > first {
                    assert(writes[k - 1] == more[k - first - 1]);
                }
            }
            assert forall|j: int, k: int| 0 <= j < k < rows.len() implies #[trigger] rows[j]
                < #[trigger] rows[k] by {
                assert(rows[k] == later[k - first]);
                if j >= first {
                    assert(rows[j] == later[j - first]);
                }
            }
        } else {
            assert(next.through::<K>(rest) == next);
            assert(next.writes::<K>(rest) == Seq::<i64>::empty());
            assert(next.written_rows::<K>(rest) == Seq::<int>::empty());
        }
    }
}

/// A drive that meets work which is not done stays at that row, and its cursor
/// with it.
pub proof fn a_parked_drive_stays_where_it_is<K: RuntimeKind>(
    drive: Driving,
    report: Report,
    reports: Seq<Report>,
)
    requires
        drive.running(),
        !(report is Done),
    ensures
        drive.after::<K>(report).through::<K>(reports) == (Driving { parked: true, ..drive }),
        drive.after::<K>(report).writes::<K>(reports) == Seq::<i64>::empty(),
{
}

/// So many rows that all report their work done.
pub open spec fn all_done(count: nat) -> Seq<Report> {
    Seq::new(count, |i: int| Report::Done)
}

/// Whether every durable row from a position on is the cursor's own.
pub open spec fn quiet<K: RuntimeKind>(ledger: Seq<Block>, from: int, cursor: i64) -> bool {
    forall|i: int|
        from <= i < ledger.len() && K::lasts(K::read(#[trigger] ledger[i])) ==> ledger[i].id
            == cursor
}

proof fn a_quiet_drive_writes_nothing<K: RuntimeKind>(drive: Driving, count: nat)
    requires
        0 <= drive.at <= drive.ledger.len(),
        quiet::<K>(drive.ledger, drive.at, drive.cursor),
    ensures
        drive.writes::<K>(all_done(count)) == Seq::<i64>::empty(),
        drive.through::<K>(all_done(count)).cursor == drive.cursor,
    decreases count,
{
    let reports = all_done(count);
    if count > 0 && drive.running() {
        assert(reports.drop_first() =~= all_done((count - 1) as nat));
        let next = drive.after::<K>(reports[0]);
        assert(drive.write::<K>(reports[0]) is None) by {
            assert(drive.ledger[drive.at] == drive.ledger[drive.at]);
        }
        a_quiet_drive_writes_nothing::<K>(next, (count - 1) as nat);
    }
}

proof fn a_drive_that_goes_through_leaves_quiet<K: RuntimeKind>(drive: Driving, count: nat)
    requires
        0 <= drive.at <= drive.ledger.len(),
        !drive.parked,
        count >= drive.ledger.len() - drive.at,
    ensures
        ({
            let end = drive.through::<K>(all_done(count)).cursor;
            ||| end == drive.cursor && quiet::<K>(drive.ledger, drive.at, end)
            ||| exists|i: int|
                drive.at <= i < drive.ledger.len() && #[trigger] anchors::<K>(
                    drive.ledger,
                    i,
                    end,
                ) && quiet::<K>(drive.ledger, i, end)
        }),
    decreases drive.ledger.len() - drive.at,
{
    let reports = all_done(count);
    if drive.running() {
        assert(reports.drop_first() =~= all_done((count - 1) as nat));
        let next = drive.after::<K>(reports[0]);
        a_drive_that_goes_through_leaves_quiet::<K>(next, (count - 1) as nat);
        let end = drive.through::<K>(reports).cursor;
        assert(end == next.through::<K>(all_done((count - 1) as nat)).cursor);
        let here = drive.ledger[drive.at];
        if end == next.cursor && quiet::<K>(drive.ledger, next.at, end) {
            if K::lasts(K::read(here)) {
                assert(here.id == end);
                assert(anchors::<K>(drive.ledger, drive.at, end));
                assert(quiet::<K>(drive.ledger, drive.at, end));
            } else {
                assert(quiet::<K>(drive.ledger, drive.at, end));
            }
        }
    }
}

/// A drive that heard from every row and did not park went through: it is at
/// the end of the ledger, and every row's work was done.
pub proof fn a_drive_that_did_not_park_went_through<K: RuntimeKind>(
    drive: Driving,
    reports: Seq<Report>,
)
    requires
        0 <= drive.at <= drive.ledger.len(),
        reports.len() == drive.ledger.len() - drive.at,
        !drive.through::<K>(reports).parked,
    ensures
        drive.through::<K>(reports).at == drive.ledger.len(),
        reports == all_done(reports.len()),
    decreases reports.len(),
{
    if reports.len() > 0 && drive.running() {
        let next = drive.after::<K>(reports[0]);
        let rest = reports.drop_first();
        if reports[0] is Done {
            a_drive_that_did_not_park_went_through::<K>(next, rest);
            assert(reports =~= seq![Report::Done] + rest);
            assert(reports =~= all_done(reports.len()));
        } else {
            assert(next.through::<K>(rest) == next);
        }
    }
}

/// A turn is owed only at the end of the ledger: where a drive that heard from
/// every row owes one, every row's work was done, the cursor has come to the
/// last row that lasts, and the frontier awaits the model.
pub proof fn a_turn_is_owed_only_at_the_end_of_the_ledger<K: RuntimeKind>(
    drive: Driving,
    reports: Seq<Report>,
    frontier: Option<Block>,
)
    requires
        0 <= drive.at <= drive.ledger.len(),
        reports.len() == drive.ledger.len() - drive.at,
        ({
            let end = drive.through::<K>(reports);
            drive_outcome::<K>(end.cursor, end.parked, frontier).owes_turn
        }),
    ensures
        ({
            let end = drive.through::<K>(reports);
            &&& end.at == drive.ledger.len()
            &&& forall|k: int| 0 <= k < reports.len() ==> (#[trigger] reports[k]) is Done
            &&& frontier matches Some(block) && owes::<K>(block)
            &&& {
                ||| end.cursor == drive.cursor && quiet::<K>(drive.ledger, drive.at, end.cursor)
                ||| exists|i: int|
                    drive.at <= i < drive.ledger.len() && #[trigger] anchors::<K>(
                        drive.ledger,
                        i,
                        end.cursor,
                    ) && quiet::<K>(drive.ledger, i, end.cursor)
            }
        }),
{
    a_drive_that_did_not_park_went_through::<K>(drive, reports);
    a_drive_that_goes_through_leaves_quiet::<K>(drive, reports.len());
}

proof fn a_row_is_found_where_its_id_is_the_only_one(
    ledger: Seq<Block>,
    from: int,
    at: int,
)
    requires
        0 <= from <= at < ledger.len(),
        forall|i: int, j: int|
            0 <= i < j < ledger.len() ==> (#[trigger] ledger[i]).id != (#[trigger] ledger[j]).id,
    ensures
        tool_call::row_from(ledger, from, ledger[at].id) == Some(at),
    decreases at - from,
{
    if from < at {
        assert(ledger[from].id != ledger[at].id);
        a_row_is_found_where_its_id_is_the_only_one(ledger, from + 1, at);
    }
}

proof fn a_resume_point_is_in_the_ledger(ledger: Seq<Block>, cursor: i64)
    ensures
        0 <= resume_point(ledger, cursor) <= ledger.len(),
{
    tool_call::row_from_finds(ledger, 0, cursor);
    reaching_row_is_in_the_ledger(ledger, 0, cursor);
}

proof fn reaching_row_is_in_the_ledger(ledger: Seq<Block>, from: int, cursor: i64)
    requires
        0 <= from,
    ensures
        reaching_from(ledger, from, cursor) matches Some(at) ==> from <= at < ledger.len()
            && ledger[at].id >= cursor,
    decreases ledger.len() - from,
{
    if from < ledger.len() {
        reaching_row_is_in_the_ledger(ledger, from + 1, cursor);
    }
}

/// Driving again what a drive went through changes nothing: in a ledger whose
/// rows have ids of their own, the second drive writes no cursor and ends at
/// the one it began with.
pub proof fn driving_again_changes_nothing<K: RuntimeKind>(
    ledger: Seq<Block>,
    cursor: i64,
    first: nat,
    second: nat,
)
    requires
        forall|i: int, j: int|
            0 <= i < j < ledger.len() ==> (#[trigger] ledger[i]).id != (#[trigger] ledger[j]).id,
        first >= ledger.len() - resume_point(ledger, cursor),
    ensures
        ({
            let end = drive_start(ledger, cursor).through::<K>(all_done(first)).cursor;
            let again = drive_start(ledger, end);
            &&& again.writes::<K>(all_done(second)) == Seq::<i64>::empty()
            &&& again.through::<K>(all_done(second)).cursor == end
        }),
{
    let start = drive_start(ledger, cursor);
    a_resume_point_is_in_the_ledger(ledger, cursor);
    a_drive_that_goes_through_leaves_quiet::<K>(start, first);
    let end = start.through::<K>(all_done(first)).cursor;
    let again = drive_start(ledger, end);
    if end == start.cursor && quiet::<K>(ledger, start.at, end) {
        a_quiet_drive_writes_nothing::<K>(again, second);
    } else {
        let i = choose|i: int|
            start.at <= i < ledger.len() && #[trigger] anchors::<K>(ledger, i, end) && quiet::<K>(
                ledger,
                i,
                end,
            );
        a_row_is_found_where_its_id_is_the_only_one(ledger, 0, i);
        assert(again.at == i);
        a_quiet_drive_writes_nothing::<K>(again, second);
    }
}

/// A cursor whose row is gone never makes a drive resume past a row that comes
/// at or after it, in a ledger whose ids ascend.
pub proof fn a_vanished_cursor_skips_nothing(ledger: Seq<Block>, cursor: i64, at: int)
    requires
        forall|i: int, j: int|
            0 <= i < j < ledger.len() ==> (#[trigger] ledger[i]).id < (#[trigger] ledger[j]).id,
        0 <= at < ledger.len(),
        ledger[at].id >= cursor,
    ensures
        resume_point(ledger, cursor) <= at,
{
    tool_call::row_from_finds(ledger, 0, cursor);
    reaching_row_comes_first(ledger, 0, cursor, at);
}

proof fn reaching_row_comes_first(ledger: Seq<Block>, from: int, cursor: i64, at: int)
    requires
        0 <= from <= at < ledger.len(),
        ledger[at].id >= cursor,
    ensures
        reaching_from(ledger, from, cursor) matches Some(found) && found <= at,
    decreases at - from,
{
    if from < at {
        reaching_row_comes_first(ledger, from + 1, cursor, at);
    }
}

/// A drive that meets work which is not done parks.
pub proof fn owed_work_parks_a_drive<K: RuntimeKind>(
    drive: Driving,
    reports: Seq<Report>,
    k: int,
)
    requires
        !drive.parked,
        0 <= drive.at,
        0 <= k < reports.len(),
        reports.len() <= drive.ledger.len() - drive.at,
        !(reports[k] is Done),
    ensures
        drive.through::<K>(reports).parked,
    decreases reports.len(),
{
    let next = drive.after::<K>(reports[0]);
    let rest = reports.drop_first();
    if reports[0] is Done {
        assert(rest[k - 1] == reports[k]);
        owed_work_parks_a_drive::<K>(next, rest, k - 1);
    } else {
        assert(next.through::<K>(rest) == next);
    }
}

/// A call that dangles holds every turn: while a regular call at or behind the
/// cursor has no outcome, the drive parks and owes no turn, whatever the
/// frontier asks.
pub proof fn a_dangling_call_holds_the_turn(
    ledger: Seq<Block>,
    cursor: i64,
    at: int,
    frontier: Option<Block>,
)
    requires
        resume_point(ledger, cursor) <= at < ledger.len(),
        agency::read(ledger[at]) matches Kind::ToolCall { id, tool_call_id, interactive, .. }
            && !interactive && !tool_call::resolved(ledger, id, tool_call_id),
    ensures
        ({
            let start = drive_start(ledger, cursor);
            let end = start.through::<BlockKind>(
                reports_over::<BlockKind>(ledger, start.at, ledger),
            );
            &&& end.parked
            &&& !drive_outcome::<BlockKind>(end.cursor, end.parked, frontier).owes_turn
        }),
{
    let start = drive_start(ledger, cursor);
    let reports = reports_over::<BlockKind>(ledger, start.at, ledger);
    a_resume_point_is_in_the_ledger(ledger, cursor);
    assert(reports[at - start.at] is Owed);
    owed_work_parks_a_drive::<BlockKind>(start, reports, at - start.at);
}

/// A drive resumes at the first row that has the cursor's id; where none has,
/// at the first row whose id is above it; and where none is, at the start.
pub proof fn a_drive_resumes_at_its_cursor(ledger: Seq<Block>, cursor: i64, at: int)
    requires
        0 <= at < ledger.len(),
    ensures
        ledger[at].id == cursor && (forall|i: int|
            0 <= i < at ==> (#[trigger] ledger[i]).id != cursor) ==> resume_point(ledger, cursor)
            == at,
        ledger[at].id > cursor && (forall|i: int|
            0 <= i < at ==> (#[trigger] ledger[i]).id < cursor) && (forall|i: int|
            at < i < ledger.len() ==> (#[trigger] ledger[i]).id != cursor) ==> resume_point(
            ledger,
            cursor,
        ) == at,
        (forall|i: int| 0 <= i < ledger.len() ==> (#[trigger] ledger[i]).id < cursor)
            ==> resume_point(ledger, cursor) == 0,
{
    tool_call::the_first_row_with_an_id_is_the_one_found(ledger, 0, cursor);
    reaching_row_is_in_the_ledger(ledger, 0, cursor);
    if ledger[at].id >= cursor {
        reaching_row_comes_first(ledger, 0, cursor, at);
    }
    if let Some(own) = tool_call::row_from(ledger, 0, cursor) {
        assert(ledger[own].id == cursor);
    }
    if let Some(found) = reaching_from(ledger, 0, cursor) {
        assert(ledger[found].id >= cursor);
    }
}

/// A drive starts where it resumes, with the cursor it was handed, and has not
/// stopped.
pub proof fn a_drive_starts_with_its_cursor<K: RuntimeKind>(ledger: Seq<Block>, cursor: i64)
    ensures
        drive_start(ledger, cursor).at == resume_point(ledger, cursor),
        drive_start(ledger, cursor).cursor == cursor,
        drive_start(ledger, cursor).ledger == ledger,
        drive_start(ledger, cursor).running() <==> ledger.len() > 0,
        drive_start(ledger, cursor).through::<K>(Seq::empty()) == drive_start(ledger, cursor),
        drive_start(ledger, cursor).writes::<K>(Seq::empty()).len() == 0,
{
    tool_call::row_from_finds(ledger, 0, cursor);
    reaching_row_is_in_the_ledger(ledger, 0, cursor);
}

/// The frontier is the last row that is neither read through nor a product of
/// a turn that a row behind it ends. Where that row is itself the summons of
/// such a turn, or where there is none, the frontier rests on the tail.
pub proof fn the_frontier_is_the_last_row_of_no_ended_turn<K: RuntimeKind>(
    snapshot: Seq<Block>,
    at: int,
)
    requires
        -1 <= at < snapshot.len(),
        snapshot.len() > 0,
        at >= 0 ==> !K::see_through(K::read(snapshot[at])) && forall|j: int|
            at < j < snapshot.len() && K::see_through(K::read(#[trigger] snapshot[j]))
                && snapshot[j].dispatch_anchor is Some ==> snapshot[j].dispatch_anchor
                != snapshot[at].dispatch_anchor,
        forall|i: int|
            at < i < snapshot.len() ==> K::see_through(K::read(#[trigger] snapshot[i])) || (
            snapshot[i].dispatch_anchor is Some && exists|j: int|
                i < j < snapshot.len() && K::see_through(K::read(#[trigger] snapshot[j]))
                    && snapshot[j].dispatch_anchor == snapshot[i].dispatch_anchor),
    ensures
        at >= 0 && (forall|j: int|
            at < j < snapshot.len() && K::see_through(K::read(#[trigger] snapshot[j]))
                ==> snapshot[j].dispatch_anchor != Some(snapshot[at].id)) ==> is_frontier::<K>(
            snapshot,
            at,
        ),
        at < 0 || (exists|j: int|
            at < j < snapshot.len() && K::see_through(K::read(#[trigger] snapshot[j]))
                && snapshot[j].dispatch_anchor == Some(snapshot[at].id)) ==> is_frontier::<K>(
            snapshot,
            snapshot.len() - 1,
        ),
{
    assert forall|i: int| at < i < snapshot.len() implies #[trigger] in_ended_run::<K>(
        snapshot,
        i,
    ) by {
        assert(snapshot[i].id == snapshot[i].id);
        if !K::see_through(K::read(snapshot[i])) {
            let j = choose|j: int|
                i < j < snapshot.len() && K::see_through(K::read(#[trigger] snapshot[j]))
                    && snapshot[j].dispatch_anchor == snapshot[i].dispatch_anchor;
            assert(transparent::<K>(snapshot[j]));
            assert(ended_from::<K>(snapshot, i + 1, snapshot[i].dispatch_anchor->0));
        }
    }
    assert(only_ended_behind::<K>(snapshot, at));
    if at >= 0 {
        assert(!in_ended_run::<K>(snapshot, at)) by {
            if let Some(anchor) = snapshot[at].dispatch_anchor {
                if ended_from::<K>(snapshot, at + 1, anchor) {
                    let j = choose|j: int|
                        at + 1 <= j < snapshot.len() && #[trigger] transparent::<K>(snapshot[j])
                            && snapshot[j].dispatch_anchor == Some(anchor);
                    assert(K::see_through(K::read(snapshot[j])));
                }
            }
        }
        assert(stops_walk::<K>(snapshot, at));
        let id = snapshot[at].id;
        if ended_from::<K>(snapshot, at + 1, id) {
            let j = choose|j: int|
                at + 1 <= j < snapshot.len() && #[trigger] transparent::<K>(snapshot[j])
                    && snapshot[j].dispatch_anchor == Some(id);
            assert(K::see_through(K::read(snapshot[j])));
        }
        if exists|j: int|
            at < j < snapshot.len() && K::see_through(K::read(#[trigger] snapshot[j]))
                && snapshot[j].dispatch_anchor == Some(id) {
            let j = choose|j: int|
                at < j < snapshot.len() && K::see_through(K::read(#[trigger] snapshot[j]))
                    && snapshot[j].dispatch_anchor == Some(id);
            assert(transparent::<K>(snapshot[j]));
            assert(ended_from::<K>(snapshot, at + 1, id));
        }
    }
}

/// A turn is owed exactly where the drive did not park and the frontier awaits
/// the model. The frontier's ask is told whether the drive parked or not, and
/// the cursor is the one the drive reached.
pub proof fn an_outcome_tells_what_the_drive_came_to<K: RuntimeKind>(
    cursor: i64,
    parked: bool,
    frontier: Option<Block>,
)
    ensures
        ({
            let outcome = drive_outcome::<K>(cursor, parked, frontier);
            &&& outcome.cursor == cursor
            &&& outcome.parked == parked
            &&& frontier is None ==> outcome.awaiting is None && !outcome.owes_turn
            &&& frontier matches Some(block) ==> outcome.awaiting == K::asks(K::read(block))
                && (outcome.owes_turn <==> !parked && K::asks(K::read(block)) == Some(
                Awaiting::Model,
            ))
        }),
{
}

/// A row whose work is done is passed, and the cursor comes to its id, unless
/// it is a row that does not last; a row whose work is owed or has failed
/// stops the drive where it stands.
pub proof fn a_drive_passes_what_is_done(drive: Driving, report: Report)
    requires
        0 <= drive.at < drive.ledger.len(),
        !drive.parked,
    ensures
        ({
            let block = drive.ledger[drive.at];
            let next = drive.after::<BlockKind>(report);
            let lasts = block.block_type@ != "streaming"@ && block.block_type@
                != "streaming_thinking"@ && block.block_type@ != "streaming_tool_call"@;
            &&& next.ledger == drive.ledger
            &&& report is Done ==> next.at == drive.at + 1 && !next.parked && next.cursor == if lasts {
                block.id
            } else {
                drive.cursor
            }
            &&& !(report is Done) ==> next.at == drive.at && next.parked && next.cursor
                == drive.cursor
            &&& drive.write::<BlockKind>(report) is Some <==> report is Done && lasts && block.id
                != drive.cursor
            &&& drive.write::<BlockKind>(report) matches Some(id) ==> id == block.id
        }),
{
    rows::a_row_is_of_the_kind_its_type_names(drive.ledger[drive.at]);
    block_kind::exactly_the_streaming_kinds_are_ephemeral(
        agency::read(drive.ledger[drive.at]),
    );
}

/// A report is made of each row, in the order of the ledger, and says whether
/// its work is done.
pub proof fn each_row_reports_on_its_work<K: RuntimeKind>(
    ledger: Seq<Block>,
    from: int,
    seen: Seq<Block>,
)
    requires
        0 <= from <= ledger.len(),
    ensures
        reports_over::<K>(ledger, from, seen).len() == ledger.len() - from,
        forall|i: int|
            0 <= i < ledger.len() - from ==> !((#[trigger] reports_over::<K>(
                ledger,
                from,
                seen,
            )[i]) is Failed) && (reports_over::<K>(ledger, from, seen)[i] is Done <==> K::work(
                K::read(ledger[from + i]),
                seen,
            ).done),
{
}

/// What a run of rows asks for is what each of them asks for: nothing is lost,
/// nothing is added, and an earlier row's comes before a later one's.
pub proof fn rows_ask_for_what_each_of_them_asks_for<K: RuntimeKind>(
    ledger: Seq<Block>,
    from: int,
    mid: int,
    upto: int,
    seen: Seq<Block>,
)
    requires
        from <= mid <= upto,
    ensures
        wakeups_over::<K>(ledger, from, upto, seen) == wakeups_over::<K>(ledger, from, mid, seen)
            + wakeups_over::<K>(ledger, mid, upto, seen),
        upto == from ==> wakeups_over::<K>(ledger, from, upto, seen).len() == 0,
        upto == from + 1 ==> wakeups_over::<K>(ledger, from, upto, seen) == (match K::work(
            K::read(ledger[from]),
            seen,
        ).wakeup {
            Some(wakeup) => seq![wakeup],
            None => seq![],
        }),
    decreases upto - mid,
{
    if upto == from + 1 {
        assert(wakeups_over::<K>(ledger, from, upto - 1, seen) =~= seq![]);
        assert(wakeups_over::<K>(ledger, from, upto, seen) =~= (match K::work(
            K::read(ledger[from]),
            seen,
        ).wakeup {
            Some(wakeup) => seq![wakeup],
            None => seq![],
        }));
    }
    if mid < upto {
        rows_ask_for_what_each_of_them_asks_for::<K>(ledger, from, mid, upto - 1, seen);
    }
    assert(wakeups_over::<K>(ledger, from, upto, seen) =~= wakeups_over::<K>(
        ledger,
        from,
        mid,
        seen,
    ) + wakeups_over::<K>(ledger, mid, upto, seen));
}

/// A message behind an outcome that nobody answered joins that outcome's turn,
/// whatever stood before; with nothing unanswered it starts a turn of its own;
/// and a turn's own product stays with its turn.
pub proof fn a_message_joins_the_turn_that_is_unanswered(
    ledger: Seq<Block>,
    outcome: Block,
    message: Block,
)
    requires
        outcome.block_type@ == "tool_error"@ || outcome.block_type@ == "tool_result"@
            && !block::flag_at(outcome, "ends_turn"@),
        message.block_type@ != "tool_error"@,
        message.block_type@ != "tool_result"@,
        message.dispatch_anchor is None,
    ensures
        fresh_anchor(ledger.push(outcome).push(message), message) == (match outcome.dispatch_anchor {
            Some(anchor) => anchor,
            None => message.id,
        }),
        tool_call::unanswered_turn(ledger) is None ==> fresh_anchor(ledger.push(message), message)
            == message.id,
        forall|tail: Block|
            tail.dispatch_anchor is Some ==> Some(#[trigger] fresh_anchor(ledger, tail))
                == tail.dispatch_anchor,
        forall|tail: Block|
            tail.dispatch_anchor is None && tool_call::unanswered_turn(ledger) is Some ==> Some(
                #[trigger] fresh_anchor(ledger, tail),
            ) == tool_call::unanswered_turn(ledger),
        forall|tail: Block|
            tail.dispatch_anchor is None && tool_call::unanswered_turn(ledger) is None
                ==> #[trigger] fresh_anchor(ledger, tail) == tail.id,
{
    tool_call::an_outcome_that_asks_on_reopens_its_turn(ledger, outcome);
    tool_call::any_other_row_reopens_nothing(ledger.push(outcome), message);
    tool_call::any_other_row_reopens_nothing(ledger, message);
}

} // verus!
