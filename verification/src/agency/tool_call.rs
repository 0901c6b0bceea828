//! A model's request for tool work, and what the ledger says of such requests.

use serde_json::Value;
use vstd::prelude::*;

use super::kinds::str_eq;
use super::model::Kind;
use super::projection;
use super::projection::{ContentPart, Part, Projection};
#[allow(unused_imports)]
use super::rows;
use super::{
    Agency, BlockKind, ContentDescriptor, FromBlock, GateDecision, LeafKind, LedgerName, Run,
    ToolError, ToolResult, Wakeup,
};
use crate::agency;
use crate::block;
use crate::block::{Awaiting, Block, Role};
use crate::clock;
use crate::clock::Instant;
use crate::json;

verus! {

/// A model's request for tool work.
///
/// A regular call owes the system its execution: its work is not done until an
/// outcome of its own follows it in the ledger, and parking there is what keeps a
/// fresh turn from starting while a call still dangles. An interactive call owes
/// the user the reply, and the system does nothing.
#[derive(Debug, Clone)]
pub struct ToolCall {
    /// The row this call is.
    pub id: i64,
    /// Whose voice the block speaks in.
    pub role: Option<Role>,
    /// The provider's id for the call. Empty where none was recorded.
    pub tool_call_id: String,
    /// The tool's registered name.
    pub name: String,
    /// The input as it was stored; read as JSON only where it is projected.
    pub input: String,
    /// Whether the user, not the system, answers the call.
    pub interactive: bool,
}

impl View for ToolCall {
    type V = Kind;

    open spec fn view(&self) -> Kind {
        Kind::ToolCall {
            id: self.id,
            role: self.role,
            tool_call_id: self.tool_call_id@,
            name: self.name@,
            input: self.input@,
            interactive: self.interactive,
        }
    }
}

/// What a call came to.
#[derive(Debug, Clone)]
pub enum CallOutcome {
    Result(ToolResult),
    Error(ToolError),
}

impl View for CallOutcome {
    type V = Kind;

    open spec fn view(&self) -> Kind {
        match self {
            CallOutcome::Result(result) => result@,
            CallOutcome::Error(error) => error@,
        }
    }
}

/// The first row with an id, at or behind a position.
pub open spec fn row_from(ledger: Seq<Block>, from: int, id: i64) -> Option<int>
    decreases ledger.len() - from,
{
    if from < 0 || from >= ledger.len() {
        None
    } else if ledger[from].id == id {
        Some(from)
    } else {
        row_from(ledger, from + 1, id)
    }
}

/// Whether a kind is an outcome of the call in row `id`.
///
/// An outcome names the row of the call it answers, and that decides: two
/// calls may carry one provider's id. Only an outcome that names no row is
/// matched by the provider's id.
pub open spec fn answers(kind: Kind, id: i64, tool_call_id: Seq<char>) -> bool {
    match kind {
        Kind::ToolResult { tool_call_id: echo, call, .. } => match call {
            Some(row) => row == id,
            None => echo == tool_call_id,
        },
        Kind::ToolError { tool_call_id: echo, call, .. } => match call {
            Some(row) => row == id,
            None => echo == tool_call_id,
        },
        _ => false,
    }
}

/// The first outcome of a call, at or behind a position.
pub open spec fn answer_from(
    ledger: Seq<Block>,
    from: int,
    id: i64,
    tool_call_id: Seq<char>,
) -> Option<int>
    decreases ledger.len() - from,
{
    if from < 0 || from >= ledger.len() {
        None
    } else if answers(agency::read(ledger[from]), id, tool_call_id) {
        Some(from)
    } else {
        answer_from(ledger, from + 1, id, tool_call_id)
    }
}

/// Where a call's outcome stands: the first one behind the call's own row. A
/// call that was recorded without a provider's id has none.
pub open spec fn outcome_at(ledger: Seq<Block>, id: i64, tool_call_id: Seq<char>) -> Option<int> {
    if tool_call_id.len() == 0 {
        None
    } else {
        match row_from(ledger, 0, id) {
            Some(own) => answer_from(ledger, own + 1, id, tool_call_id),
            None => None,
        }
    }
}

/// Whether a call has its outcome.
pub open spec fn resolved(ledger: Seq<Block>, id: i64, tool_call_id: Seq<char>) -> bool {
    outcome_at(ledger, id, tool_call_id) is Some
}

/// Whether a row is a call that still owes its outcome.
pub open spec fn owed(ledger: Seq<Block>, id: i64) -> bool {
    id > 0 && match row_from(ledger, 0, id) {
        Some(at) => match agency::read(ledger[at]) {
            Kind::ToolCall { id: row, tool_call_id, .. } => !resolved(ledger, row, tool_call_id),
            _ => false,
        },
        None => false,
    }
}

/// Whether a kind is a call the system itself will answer.
pub open spec fn owed_by_system(ledger: Seq<Block>, kind: Kind) -> bool {
    match kind {
        Kind::ToolCall { id, tool_call_id, interactive, .. } => !interactive && tool_call_id.len()
            > 0 && !resolved(ledger, id, tool_call_id),
        _ => false,
    }
}

/// Whether a row is a call of the turn `anchor` that the system itself will
/// answer.
pub open spec fn system_owes_at(ledger: Seq<Block>, anchor: i64, at: int) -> bool {
    ledger[at].dispatch_anchor == Some(anchor) && owed_by_system(ledger, agency::read(ledger[at]))
}

/// Whether the system itself owes the turn `anchor` an outcome.
pub open spec fn system_owes(ledger: Seq<Block>, anchor: i64) -> bool {
    exists|at: int| 0 <= at < ledger.len() && #[trigger] system_owes_at(ledger, anchor, at)
}

/// Whether a kind is an outcome that asks the model for a continuation.
pub open spec fn asks_on(kind: Kind) -> bool {
    match kind {
        Kind::ToolResult { ends_turn, .. } => !ends_turn,
        Kind::ToolError { .. } => true,
        _ => false,
    }
}

/// How many outcomes of the turn `anchor` ask for a continuation.
pub open spec fn asking_outcomes(ledger: Seq<Block>, anchor: i64) -> nat
    decreases ledger.len(),
{
    if ledger.len() == 0 {
        0
    } else {
        asking_outcomes(ledger.drop_last(), anchor) + if ledger.last().dispatch_anchor == Some(
            anchor,
        ) && asks_on(agency::read(ledger.last())) {
            1nat
        } else {
            0nat
        }
    }
}

/// How many calls at the end of a ledger were recorded at or after an instant,
/// of one tool where one is named. The first call recorded before the instant
/// ends the count; a call whose stamp names no instant is passed over.
pub open spec fn calls_since(
    ledger: Seq<Block>,
    start: Instant,
    of_tool: Option<Seq<char>>,
) -> nat
    decreases ledger.len(),
{
    if ledger.len() == 0 {
        0
    } else {
        let rest = ledger.drop_last();
        match agency::read(ledger.last()) {
            Kind::ToolCall { name, .. } => match clock::stamped(ledger.last().created_at@) {
                Some(at) => if at.reaches(start) {
                    calls_since(rest, start, of_tool) + if of_tool is None || of_tool == Some(
                        name,
                    ) {
                        1nat
                    } else {
                        0nat
                    }
                } else {
                    0
                },
                None => calls_since(rest, start, of_tool),
            },
            _ => calls_since(rest, start, of_tool),
        }
    }
}

/// How many calls a window that ends at `now` holds.
pub open spec fn calls_in_window(
    ledger: Seq<Block>,
    now: Instant,
    seconds: i64,
    of_tool: Option<Seq<char>>,
) -> nat {
    match clock::window_start(now, seconds) {
        Some(start) => calls_since(ledger, start, of_tool),
        None => 0,
    }
}

/// How many calls were recorded in the so many seconds that end at `now`, by
/// the clock's own seconds.
pub open spec fn calls_in_seconds(
    ledger: Seq<Block>,
    now: Instant,
    seconds: i64,
    of_tool: Option<Seq<char>>,
) -> nat {
    match clock::instant_of(clock::second_before(now.secs, now.nanos, seconds)) {
        Some(start) => calls_since(ledger, start, of_tool),
        None => 0,
    }
}

/// How many of the last outcomes of the turn `anchor` are refusals, counted
/// back from the newest until one is not. Nothing at or before the anchor's
/// own row belongs to the turn.
pub open spec fn refusal_run(ledger: Seq<Block>, anchor: i64) -> nat
    decreases ledger.len(),
{
    if ledger.len() == 0 || ledger.last().id <= anchor {
        0
    } else if ledger.last().dispatch_anchor != Some(anchor) {
        refusal_run(ledger.drop_last(), anchor)
    } else {
        match agency::read(ledger.last()) {
            Kind::ToolError { refusal, .. } => if refusal {
                1 + refusal_run(ledger.drop_last(), anchor)
            } else {
                0
            },
            Kind::ToolResult { .. } => 0,
            _ => refusal_run(ledger.drop_last(), anchor),
        }
    }
}

/// The newest outcome that asks for a continuation.
pub open spec fn newest_asking(ledger: Seq<Block>) -> Option<int>
    decreases ledger.len(),
{
    if ledger.len() == 0 {
        None
    } else if asks_on(agency::read(ledger.last())) {
        Some(ledger.len() - 1)
    } else {
        newest_asking(ledger.drop_last())
    }
}

/// Whether a row answers or closes the turn `anchor`: its text, or a status.
pub open spec fn closes(block: Block, anchor: i64) -> bool {
    block.dispatch_anchor == Some(anchor) && (agency::read(block) is Text || agency::read(
        block,
    ) is Status)
}

/// Whether nothing from a position on answers or closes the turn `anchor`.
pub open spec fn open_from(ledger: Seq<Block>, from: int, anchor: i64) -> bool {
    forall|i: int| from <= i < ledger.len() ==> !closes(#[trigger] ledger[i], anchor)
}

/// The turn that the newest asking outcome belongs to, where nothing behind
/// that outcome has answered or closed it.
pub open spec fn unanswered_turn(ledger: Seq<Block>) -> Option<i64> {
    match newest_asking(ledger) {
        Some(at) => match ledger[at].dispatch_anchor {
            Some(anchor) => if open_from(ledger, at + 1, anchor) {
                Some(anchor)
            } else {
                None
            },
            None => None,
        },
        None => None,
    }
}

/// What a call's input is to the model: the value it parses to, or the stored
/// text as it is.
pub open spec fn call_input(input: Seq<char>, parsed: Option<Value>) -> Value {
    match parsed {
        Some(value) => value,
        None => json::text_value(input),
    }
}

/// The position of the first row with an id.
pub fn row_position(ledger: &[Block], id: i64) -> (at: Option<usize>)
    ensures
        match at {
            Some(index) => row_from(ledger@, 0, id) == Some(index as int) && index < ledger.len(),
            None => row_from(ledger@, 0, id) is None,
        },
{
    let mut index: usize = 0;
    while index < ledger.len()
        invariant
            index <= ledger.len(),
            row_from(ledger@, 0, id) == row_from(ledger@, index as int, id),
        decreases ledger.len() - index,
    {
        if ledger[index].id == id {
            return Some(index);
        }
        index += 1;
    }
    None
}

/// The call in row `id`, where there is one that still owes its outcome.
pub fn unresolved_call_named(ledger: &[Block], id: i64) -> (call: Option<ToolCall>)
    ensures
        match call {
            Some(found) => owed(ledger@, id) && found@ == agency::read(
                ledger@[row_from(ledger@, 0, id)->0],
            ),
            None => !owed(ledger@, id),
        },
{
    if id <= 0 {
        return None;
    }
    let at: usize = match row_position(ledger, id) {
        Some(at) => at,
        None => {
            return None;
        },
    };
    match BlockKind::from_block(&ledger[at]) {
        BlockKind::ToolCall(call) => if call.resolved_in(ledger) {
            None
        } else {
            Some(call)
        },
        _ => None,
    }
}

/// Whether a block is a tool outcome that asks the model for a continuation:
/// every error does, and every result but one that ends the turn.
pub fn outcome_asks_for_a_continuation(block: &Block) -> (asks: bool)
    ensures
        asks == asks_on(agency::read(*block)),
{
    match BlockKind::from_block(block) {
        BlockKind::ToolResult(result) => !result.ends_turn,
        BlockKind::ToolError(_) => true,
        _ => false,
    }
}

impl ToolCall {
    /// Whether a kind is an outcome of this call.
    fn is_answered_by(&self, kind: &BlockKind) -> (answered: bool)
        ensures
            answered == answers(kind@, self.id, self.tool_call_id@),
    {
        match kind {
            BlockKind::ToolResult(result) => match result.call_block_id {
                Some(row) => row == self.id,
                None => str_eq(result.tool_call_id.as_str(), self.tool_call_id.as_str()),
            },
            BlockKind::ToolError(error) => match error.call_block_id {
                Some(row) => row == self.id,
                None => str_eq(error.tool_call_id.as_str(), self.tool_call_id.as_str()),
            },
            _ => false,
        }
    }

    /// Whether an outcome of this call follows it in the ledger. The one
    /// resolution predicate: whoever asks whether a call is answered asks
    /// here.
    pub fn resolved_in(&self, ledger: &[Block]) -> (answered: bool)
        ensures
            answered == resolved(ledger@, self.id, self.tool_call_id@),
    {
        self.outcome_position_in(ledger).is_some()
    }

    /// Where this call's outcome stands in the ledger.
    pub fn outcome_position_in(&self, ledger: &[Block]) -> (at: Option<usize>)
        ensures
            match at {
                Some(index) => outcome_at(ledger@, self.id, self.tool_call_id@) == Some(
                    index as int,
                ) && index < ledger.len(),
                None => outcome_at(ledger@, self.id, self.tool_call_id@) is None,
            },
    {
        if self.tool_call_id.as_str().is_empty() {
            return None;
        }
        let own: usize = match row_position(ledger, self.id) {
            Some(own) => own,
            None => {
                return None;
            },
        };
        let mut index: usize = own + 1;
        while index < ledger.len()
            invariant
                own < index <= ledger.len(),
                answer_from(ledger@, own + 1, self.id, self.tool_call_id@) == answer_from(
                    ledger@,
                    index as int,
                    self.id,
                    self.tool_call_id@,
                ),
                outcome_at(ledger@, self.id, self.tool_call_id@) == answer_from(
                    ledger@,
                    own + 1,
                    self.id,
                    self.tool_call_id@,
                ),
            decreases ledger.len() - index,
        {
            if self.is_answered_by(&BlockKind::from_block(&ledger[index])) {
                return Some(index);
            }
            index += 1;
        }
        None
    }

    /// What this call came to, where it has come to anything yet.
    pub fn outcome_in(&self, ledger: &[Block]) -> (outcome: Option<CallOutcome>)
        ensures
            match outcome {
                Some(found) => outcome_at(ledger@, self.id, self.tool_call_id@) matches Some(at)
                    && found@ == agency::read(ledger@[at]),
                None => outcome_at(ledger@, self.id, self.tool_call_id@) is None,
            },
    {
        match self.outcome_position_in(ledger) {
            Some(at) => {
                proof {
                    outcome_answers(ledger@, self.id, self.tool_call_id@);
                }
                match BlockKind::from_block(&ledger[at]) {
                    BlockKind::ToolResult(result) => Some(CallOutcome::Result(result)),
                    BlockKind::ToolError(error) => Some(CallOutcome::Error(error)),
                    _ => None,
                }
            },
            None => None,
        }
    }

    /// Whether the ledger holds a call of the turn `anchor` whose outcome the
    /// system itself still owes. An interactive call waits for the user, who
    /// may never answer, and a call without a provider's id can never be
    /// answered: neither is a continuation that is due.
    pub fn system_owed_call_anchored_in(ledger: &[Block], anchor: i64) -> (owes: bool)
        ensures
            owes == system_owes(ledger@, anchor),
    {
        let mut index: usize = 0;
        while index < ledger.len()
            invariant
                index <= ledger.len(),
                forall|at: int| 0 <= at < index ==> !#[trigger] system_owes_at(ledger@, anchor, at),
            decreases ledger.len() - index,
        {
            let block = &ledger[index];
            if block.dispatch_anchor == Some(anchor) {
                if let BlockKind::ToolCall(call) = BlockKind::from_block(block) {
                    if !call.interactive && !call.tool_call_id.as_str().is_empty()
                        && !call.resolved_in(ledger) {
                        assert(system_owes_at(ledger@, anchor, index as int));
                        return true;
                    }
                }
            }
            assert(!system_owes_at(ledger@, anchor, index as int));
            index += 1;
        }
        false
    }

    /// How many outcomes of the turn `anchor` ask for a continuation. One
    /// continuation answers every outcome its dispatch saw, so a count above
    /// what was seen is a continuation still due.
    pub fn outcomes_anchored_in(ledger: &[Block], anchor: i64) -> (count: usize)
        ensures
            count == asking_outcomes(ledger@, anchor),
    {
        let mut count: usize = 0;
        let mut index: usize = 0;
        while index < ledger.len()
            invariant
                count <= index <= ledger.len(),
                count == asking_outcomes(ledger@.take(index as int), anchor),
            decreases ledger.len() - index,
        {
            let block = &ledger[index];
            assert(ledger@.take(index + 1).drop_last() =~= ledger@.take(index as int));
            if block.dispatch_anchor == Some(anchor) && outcome_asks_for_a_continuation(block) {
                count += 1;
            }
            index += 1;
        }
        assert(ledger@.take(index as int) =~= ledger@);
        count
    }

    /// How many calls the ledger recorded inside the trailing `seconds`, of
    /// one tool where `of_tool` names one. A fold over the rows, so that it
    /// survives a restart as the spending it bounds does.
    pub fn calls_in_trailing_window(
        ledger: &[Block],
        seconds: i64,
        of_tool: Option<&str>,
    ) -> (count: usize)
        ensures
            exists|now: Instant|
                now.readable() && count == #[trigger] calls_in_window(
                    ledger@,
                    now,
                    seconds,
                    block::str_view(of_tool),
                ) && (-clock::LONGEST_SPAN <= seconds <= clock::LONGEST_SPAN ==> count
                    == calls_in_seconds(ledger@, now, seconds, block::str_view(of_tool))),
    {
        let now = clock::now_instant();
        ToolCall::calls_in_window_ending(ledger, now, seconds, of_tool)
    }

    /// How many calls the ledger recorded inside the `seconds` that end at
    /// `now`. The walk runs backward and stops at the first call before the
    /// window, so it never touches the history behind it.
    pub fn calls_in_window_ending(
        ledger: &[Block],
        now: Instant,
        seconds: i64,
        of_tool: Option<&str>,
    ) -> (count: usize)
        ensures
            count == calls_in_window(
                ledger@,
                now,
                seconds,
                block::str_view(of_tool),
            ),
            now.readable() && -clock::LONGEST_SPAN <= seconds <= clock::LONGEST_SPAN ==> count
                == calls_in_seconds(ledger@, now, seconds, block::str_view(of_tool)),
    {
        let start = match clock::cutoff(now, seconds) {
            Some(start) => start,
            None => {
                return 0;
            },
        };
        let ghost wanted = block::str_view(of_tool);
        let mut count: usize = 0;
        let mut index: usize = ledger.len();
        assert(ledger@.take(index as int) =~= ledger@);
        while index > 0
            invariant
                index <= ledger.len(),
                count <= ledger.len() - index,
                wanted == block::str_view(of_tool),
                calls_since(ledger@, start, wanted) == count + calls_since(
                    ledger@.take(index as int),
                    start,
                    wanted,
                ),
            ensures
                count == calls_since(ledger@, start, wanted),
            decreases index,
        {
            assert(ledger@.take(index as int).drop_last() =~= ledger@.take(index - 1));
            let block = &ledger[index - 1];
            if let BlockKind::ToolCall(call) = BlockKind::from_block(block) {
                if let Some(at) = clock::parse_stamp(block.created_at.as_str()) {
                    if at.at_or_after(start) {
                        let wants = match of_tool {
                            Some(name) => str_eq(call.name.as_str(), name),
                            None => true,
                        };
                        if wants {
                            count += 1;
                        }
                    } else {
                        break;
                    }
                }
            }
            index -= 1;
        }
        count
    }

    /// How many of the last outcomes of the turn `anchor` are refusals. Every
    /// refusal counts, whoever refused: the model is spending rounds on
    /// reasons. An ordinary outcome ends the run.
    pub fn trailing_refusal_run(ledger: &[Block], anchor: i64) -> (run: usize)
        ensures
            run == refusal_run(ledger@, anchor),
    {
        let mut run: usize = 0;
        let mut index: usize = ledger.len();
        assert(ledger@.take(index as int) =~= ledger@);
        while index > 0
            invariant
                index <= ledger.len(),
                run <= ledger.len() - index,
                refusal_run(ledger@, anchor) == run + refusal_run(
                    ledger@.take(index as int),
                    anchor,
                ),
            ensures
                run == refusal_run(ledger@, anchor),
            decreases index,
        {
            assert(ledger@.take(index as int).drop_last() =~= ledger@.take(index - 1));
            let block = &ledger[index - 1];
            if block.id <= anchor {
                break;
            }
            if block.dispatch_anchor == Some(anchor) {
                match BlockKind::from_block(block) {
                    BlockKind::ToolError(error) => {
                        if !error.records_refusal() {
                            break;
                        }
                        run += 1;
                    },
                    BlockKind::ToolResult(_) => {
                        break;
                    },
                    _ => {},
                }
            }
            index -= 1;
        }
        run
    }

    /// The turn whose newest asking outcome nobody has answered: the turn a
    /// fresh dispatch resumes. A result that ends its turn is looked past, and
    /// an outcome of no turn resumes none.
    pub fn unanswered_outcome_anchor(ledger: &[Block]) -> (turn: Option<i64>)
        ensures
            turn == unanswered_turn(ledger@),
    {
        let mut index: usize = ledger.len();
        assert(ledger@.take(index as int) =~= ledger@);
        while index > 0
            invariant
                index <= ledger.len(),
                newest_asking(ledger@) == newest_asking(ledger@.take(index as int)),
            decreases index,
        {
            assert(ledger@.take(index as int).drop_last() =~= ledger@.take(index - 1));
            if outcome_asks_for_a_continuation(&ledger[index - 1]) {
                let at: usize = index - 1;
                assert(newest_asking(ledger@) == Some(at as int));
                let anchor: i64 = match ledger[at].dispatch_anchor {
                    Some(anchor) => anchor,
                    None => {
                        return None;
                    },
                };
                let mut later: usize = at + 1;
                while later < ledger.len()
                    invariant
                        at < later <= ledger.len(),
                        newest_asking(ledger@) == Some(at as int),
                        ledger@[at as int].dispatch_anchor == Some(anchor),
                        forall|i: int| at < i < later ==> !closes(#[trigger] ledger@[i], anchor),
                    decreases ledger.len() - later,
                {
                    let block = &ledger[later];
                    if block.dispatch_anchor == Some(anchor) {
                        let closing = match BlockKind::from_block(block) {
                            BlockKind::Text(_) => true,
                            BlockKind::Status(_) => true,
                            _ => false,
                        };
                        if closing {
                            assert(closes(ledger@[later as int], anchor));
                            return None;
                        }
                    }
                    later += 1;
                }
                return Some(anchor);
            }
            index -= 1;
        }
        None
    }

    /// What this call's input is to the model, given what it parses to. Input
    /// that is no JSON rides as a JSON string, as it was stored.
    pub fn input_value(&self, parsed: Option<Value>) -> (input: Value)
        ensures
            input == call_input(self.input@, parsed),
            match parsed {
                Some(value) => input == value,
                None => json::json(input) == json::Json::Text(self.input@),
            },
    {
        match parsed {
            Some(value) => value,
            None => json::string_value(self.input.clone()),
        }
    }
}

proof fn answer_from_answers(ledger: Seq<Block>, from: int, id: i64, tool_call_id: Seq<char>)
    requires
        0 <= from,
    ensures
        answer_from(ledger, from, id, tool_call_id) matches Some(at) ==> from <= at < ledger.len()
            && answers(agency::read(ledger[at]), id, tool_call_id) && forall|i: int|
            from <= i < at ==> !answers(agency::read(#[trigger] ledger[i]), id, tool_call_id),
        answer_from(ledger, from, id, tool_call_id) is None ==> forall|i: int|
            from <= i < ledger.len() ==> !answers(
                agency::read(#[trigger] ledger[i]),
                id,
                tool_call_id,
            ),
    decreases ledger.len() - from,
{
    if from < ledger.len() && !answers(agency::read(ledger[from]), id, tool_call_id) {
        answer_from_answers(ledger, from + 1, id, tool_call_id);
    }
}

/// A row that is found stands where it was looked for, and has the id.
pub proof fn row_from_finds(ledger: Seq<Block>, from: int, id: i64)
    requires
        0 <= from,
    ensures
        row_from(ledger, from, id) matches Some(at) ==> from <= at < ledger.len() && ledger[at].id
            == id,
    decreases ledger.len() - from,
{
    if from < ledger.len() && ledger[from].id != id {
        row_from_finds(ledger, from + 1, id);
    }
}

/// What resolves a call is an outcome of that call, and it stands behind the
/// call's own row.
pub proof fn outcome_answers(ledger: Seq<Block>, id: i64, tool_call_id: Seq<char>)
    ensures
        outcome_at(ledger, id, tool_call_id) matches Some(at) ==> 0 <= at < ledger.len()
            && answers(agency::read(ledger[at]), id, tool_call_id) && (row_from(
            ledger,
            0,
            id,
        ) matches Some(own) && own < at),
{
    row_from_finds(ledger, 0, id);
    if let Some(own) = row_from(ledger, 0, id) {
        answer_from_answers(ledger, own + 1, id, tool_call_id);
    }
}

proof fn row_stays(ledger: Seq<Block>, more: Seq<Block>, from: int, id: i64)
    requires
        0 <= from,
        row_from(ledger, from, id) is Some,
    ensures
        row_from(ledger + more, from, id) == row_from(ledger, from, id),
    decreases ledger.len() - from,
{
    assert((ledger + more)[from] == ledger[from]);
    if ledger[from].id != id {
        row_stays(ledger, more, from + 1, id);
    }
}

proof fn answer_stays(
    ledger: Seq<Block>,
    more: Seq<Block>,
    from: int,
    id: i64,
    tool_call_id: Seq<char>,
)
    requires
        0 <= from,
        answer_from(ledger, from, id, tool_call_id) is Some,
    ensures
        answer_from(ledger + more, from, id, tool_call_id) == answer_from(
            ledger,
            from,
            id,
            tool_call_id,
        ),
    decreases ledger.len() - from,
{
    assert((ledger + more)[from] == ledger[from]);
    if !answers(agency::read(ledger[from]), id, tool_call_id) {
        answer_stays(ledger, more, from + 1, id, tool_call_id);
    }
}

/// A call that has its outcome keeps it: whatever is appended, the outcome is
/// the one it was.
pub proof fn an_outcome_is_for_good(
    ledger: Seq<Block>,
    more: Seq<Block>,
    id: i64,
    tool_call_id: Seq<char>,
)
    requires
        resolved(ledger, id, tool_call_id),
    ensures
        resolved(ledger + more, id, tool_call_id),
        outcome_at(ledger + more, id, tool_call_id) == outcome_at(ledger, id, tool_call_id),
{
    row_stays(ledger, more, 0, id);
    let own = row_from(ledger, 0, id)->0;
    row_from_finds(ledger, 0, id);
    answer_stays(ledger, more, own + 1, id, tool_call_id);
}

/// A call is resolved through an outcome of its own: where every outcome in
/// the ledger names the row of its call, an outcome that names another row
/// settles nothing, though both calls carry one provider's id.
pub proof fn a_shared_id_settles_nothing(
    ledger: Seq<Block>,
    id: i64,
    tool_call_id: Seq<char>,
)
    requires
        forall|i: int|
            0 <= i < ledger.len() ==> (match agency::read(#[trigger] ledger[i]) {
                Kind::ToolResult { call, .. } => call is Some && call != Some(id),
                Kind::ToolError { call, .. } => call is Some && call != Some(id),
                _ => true,
            }),
    ensures
        !resolved(ledger, id, tool_call_id),
{
    outcome_answers(ledger, id, tool_call_id);
}

/// A call that was recorded without a provider's id is never resolved, and is
/// never one that the system owes.
pub proof fn a_call_without_an_id_is_never_resolved(ledger: Seq<Block>, kind: Kind)
    requires
        kind matches Kind::ToolCall { tool_call_id, .. } && tool_call_id.len() == 0,
    ensures
        kind matches Kind::ToolCall { id, tool_call_id, .. } && !resolved(ledger, id, tool_call_id),
        !owed_by_system(ledger, kind),
{
}

/// The newest outcome that asks for a continuation is a row of the ledger that
/// asks for one.
pub proof fn newest_asking_is_a_row(ledger: Seq<Block>)
    ensures
        newest_asking(ledger) matches Some(at) ==> 0 <= at < ledger.len() && asks_on(
            agency::read(ledger[at]),
        ),
    decreases ledger.len(),
{
    if ledger.len() > 0 && !asks_on(agency::read(ledger.last())) {
        newest_asking_is_a_row(ledger.drop_last());
    }
}

/// A stored end closes its turn: once a status or a text of the turn is
/// appended, the turn's outcome resumes nothing.
pub proof fn a_stored_end_closes_its_turn(ledger: Seq<Block>, end: Block)
    requires
        unanswered_turn(ledger) matches Some(anchor) && closes(end, anchor),
    ensures
        unanswered_turn(ledger.push(end)) is None,
{
    let now = ledger.push(end);
    newest_asking_is_a_row(ledger);
    assert(now.drop_last() =~= ledger);
    let at = newest_asking(ledger)->0;
    assert(newest_asking(now) == Some(at));
    assert(now[at] == ledger[at]);
    assert(closes(now[now.len() - 1], ledger[at].dispatch_anchor->0));
}

/// What belongs to another turn, or to none, leaves an unanswered turn as it
/// is, unless it is an outcome that asks on.
pub proof fn an_absorbed_row_leaves_the_turn_unanswered(ledger: Seq<Block>, row: Block)
    requires
        unanswered_turn(ledger) matches Some(anchor) && row.dispatch_anchor != Some(anchor),
        !asks_on(agency::read(row)),
    ensures
        unanswered_turn(ledger.push(row)) == unanswered_turn(ledger),
{
    let now = ledger.push(row);
    newest_asking_is_a_row(ledger);
    assert(now.drop_last() =~= ledger);
    let at = newest_asking(ledger)->0;
    let anchor = ledger[at].dispatch_anchor->0;
    assert(newest_asking(now) == Some(at));
    assert forall|i: int| at + 1 <= i < now.len() implies !closes(#[trigger] now[i], anchor) by {
        if i < ledger.len() {
            assert(!closes(ledger[i], anchor));
        }
    }
}

/// Refusals of a turn lengthen its run by one each, an ordinary outcome of the
/// turn ends it, and what belongs to no turn, or to another, leaves it as it
/// is.
pub proof fn a_refusal_run_counts_the_last_refusals(ledger: Seq<Block>, anchor: i64, row: Block)
    requires
        row.id > anchor,
    ensures
        row.dispatch_anchor != Some(anchor) ==> refusal_run(ledger.push(row), anchor)
            == refusal_run(ledger, anchor),
        row.dispatch_anchor == Some(anchor) ==> (match agency::read(row) {
            Kind::ToolError { refusal, .. } => refusal_run(ledger.push(row), anchor) == if refusal {
                refusal_run(ledger, anchor) + 1
            } else {
                0
            },
            Kind::ToolResult { .. } => refusal_run(ledger.push(row), anchor) == 0,
            _ => refusal_run(ledger.push(row), anchor) == refusal_run(ledger, anchor),
        }),
{
    assert(ledger.push(row).drop_last() =~= ledger);
}

/// One tool's calls in a window are among all the calls in it.
pub proof fn one_tools_calls_are_among_all(ledger: Seq<Block>, start: Instant, name: Seq<char>)
    ensures
        calls_since(ledger, start, Some(name)) <= calls_since(ledger, start, None),
        calls_since(ledger, start, None) <= ledger.len(),
    decreases ledger.len(),
{
    if ledger.len() > 0 {
        one_tools_calls_are_among_all(ledger.drop_last(), start, name);
    }
}

/// A row is found by its id: the first that has it, and none where none has.
pub proof fn the_first_row_with_an_id_is_the_one_found(ledger: Seq<Block>, from: int, id: i64)
    requires
        0 <= from,
    ensures
        match row_from(ledger, from, id) {
            Some(at) => from <= at < ledger.len() && ledger[at].id == id && forall|i: int|
                from <= i < at ==> (#[trigger] ledger[i]).id != id,
            None => forall|i: int| from <= i < ledger.len() ==> (#[trigger] ledger[i]).id != id,
        },
    decreases ledger.len() - from,
{
    if from < ledger.len() && ledger[from].id != id {
        the_first_row_with_an_id_is_the_one_found(ledger, from + 1, id);
    }
}

/// An outcome settles its call, whichever it is: a result or an error behind
/// the call's row that names that row, whatever else it carries, resolves the
/// call, and the call's work is done and emits nothing.
pub proof fn an_outcome_settles_its_call(ledger: Seq<Block>, own: int, at: int)
    requires
        0 <= own < at < ledger.len(),
        ledger[own].block_type@ == "tool_call"@,
        forall|i: int| 0 <= i < own ==> (#[trigger] ledger[i]).id != ledger[own].id,
        block::text_or_empty(ledger[own], "tool_call_id"@).len() > 0,
        ledger[at].block_type@ == "tool_result"@ || ledger[at].block_type@ == "tool_error"@,
        block::row_at(ledger[at], "call_block_id"@) == Some(ledger[own].id),
    ensures
        resolved(ledger, ledger[own].id, block::text_or_empty(ledger[own], "tool_call_id"@)),
        BlockKind::work(agency::read(ledger[own]), ledger) == (Run { done: true, wakeup: None }),
        BlockKind::deferred(agency::read(ledger[own]), ledger) is None,
        !owed(ledger, ledger[own].id),
        forall|anchor: i64| !#[trigger] system_owes_at(ledger, anchor, own),
{
    let id = ledger[own].id;
    let named = block::text_or_empty(ledger[own], "tool_call_id"@);
    rows::a_row_is_of_the_kind_its_type_names(ledger[own]);
    rows::a_row_is_of_the_kind_its_type_names(ledger[at]);
    rows::a_kind_holds_what_its_row_carries(ledger[own]);
    rows::a_kind_holds_what_its_row_carries(ledger[at]);
    the_first_row_with_an_id_is_the_one_found(ledger, 0, id);
    assert(row_from(ledger, 0, id) == Some(own));
    answer_from_answers(ledger, own + 1, id, named);
}

/// An outcome that names no row settles the call whose provider's id it
/// echoes, whichever outcome it is.
pub proof fn an_outcome_of_no_row_settles_the_call_it_echoes(
    ledger: Seq<Block>,
    own: int,
    at: int,
)
    requires
        0 <= own < at < ledger.len(),
        ledger[own].block_type@ == "tool_call"@,
        forall|i: int| 0 <= i < own ==> (#[trigger] ledger[i]).id != ledger[own].id,
        block::text_or_empty(ledger[own], "tool_call_id"@).len() > 0,
        ledger[at].block_type@ == "tool_result"@ || ledger[at].block_type@ == "tool_error"@,
        block::row_at(ledger[at], "call_block_id"@) is None,
        block::text_or_empty(ledger[at], "tool_call_id"@) == block::text_or_empty(
            ledger[own],
            "tool_call_id"@,
        ),
    ensures
        resolved(ledger, ledger[own].id, block::text_or_empty(ledger[own], "tool_call_id"@)),
        BlockKind::work(agency::read(ledger[own]), ledger) == (Run { done: true, wakeup: None }),
        BlockKind::deferred(agency::read(ledger[own]), ledger) is None,
        !owed(ledger, ledger[own].id),
{
    let id = ledger[own].id;
    let named = block::text_or_empty(ledger[own], "tool_call_id"@);
    rows::a_row_is_of_the_kind_its_type_names(ledger[own]);
    rows::a_row_is_of_the_kind_its_type_names(ledger[at]);
    rows::a_kind_holds_what_its_row_carries(ledger[own]);
    rows::a_kind_holds_what_its_row_carries(ledger[at]);
    the_first_row_with_an_id_is_the_one_found(ledger, 0, id);
    assert(row_from(ledger, 0, id) == Some(own));
    answer_from_answers(ledger, own + 1, id, named);
}

/// Nothing else settles a call: where no row behind it is a result or an error
/// that names its row, or that names none and echoes its provider's id, the
/// call still owes its outcome. The system is asked to execute it, unless it
/// is the user's to answer.
pub proof fn a_call_that_nothing_answers_is_owed(ledger: Seq<Block>, own: int)
    requires
        0 <= own < ledger.len(),
        ledger[own].block_type@ == "tool_call"@,
        forall|i: int| 0 <= i < own ==> (#[trigger] ledger[i]).id != ledger[own].id,
        forall|at: int|
            own < at < ledger.len() && ((#[trigger] ledger[at]).block_type@ == "tool_result"@
                || ledger[at].block_type@ == "tool_error"@) ==> (match block::row_at(
                ledger[at],
                "call_block_id"@,
            ) {
                Some(row) => row != ledger[own].id,
                None => block::text_or_empty(ledger[at], "tool_call_id"@) != block::text_or_empty(
                    ledger[own],
                    "tool_call_id"@,
                ),
            }),
    ensures
        !resolved(ledger, ledger[own].id, block::text_or_empty(ledger[own], "tool_call_id"@)),
        owed(ledger, ledger[own].id) <==> ledger[own].id > 0,
        BlockKind::work(agency::read(ledger[own]), ledger) == if block::flag_at(
            ledger[own],
            "interactive"@,
        ) {
            Run { done: true, wakeup: None }
        } else {
            Run {
                done: false,
                wakeup: Some(Wakeup::ToolCallReady { call_block_id: ledger[own].id }),
            }
        },
        BlockKind::deferred(agency::read(ledger[own]), ledger) == BlockKind::work(
            agency::read(ledger[own]),
            ledger,
        ).wakeup,
        ledger[own].dispatch_anchor matches Some(anchor) ==> (!block::flag_at(
            ledger[own],
            "interactive"@,
        ) && block::text_or_empty(ledger[own], "tool_call_id"@).len() > 0 ==> system_owes(
            ledger,
            anchor,
        )),
{
    let id = ledger[own].id;
    let named = block::text_or_empty(ledger[own], "tool_call_id"@);
    rows::a_row_is_of_the_kind_its_type_names(ledger[own]);
    rows::a_kind_holds_what_its_row_carries(ledger[own]);
    the_first_row_with_an_id_is_the_one_found(ledger, 0, id);
    assert(row_from(ledger, 0, id) == Some(own));
    answer_from_answers(ledger, own + 1, id, named);
    if let Some(at) = answer_from(ledger, own + 1, id, named) {
        rows::a_row_is_of_the_kind_its_type_names(ledger[at]);
        rows::a_kind_holds_what_its_row_carries(ledger[at]);
    }
    if let Some(anchor) = ledger[own].dispatch_anchor {
        assert(system_owes_at(ledger, anchor, own) <==> owed_by_system(
            ledger,
            agency::read(ledger[own]),
        ));
    }
}

/// A call's outcome is the first row behind it that settles it.
pub proof fn the_first_row_that_settles_a_call_is_its_outcome(
    ledger: Seq<Block>,
    own: int,
    at: int,
)
    requires
        0 <= own < at < ledger.len(),
        ledger[own].block_type@ == "tool_call"@,
        forall|i: int| 0 <= i < own ==> (#[trigger] ledger[i]).id != ledger[own].id,
        block::text_or_empty(ledger[own], "tool_call_id"@).len() > 0,
        ledger[at].block_type@ == "tool_result"@ || ledger[at].block_type@ == "tool_error"@,
        match block::row_at(ledger[at], "call_block_id"@) {
            Some(row) => row == ledger[own].id,
            None => block::text_or_empty(ledger[at], "tool_call_id"@) == block::text_or_empty(
                ledger[own],
                "tool_call_id"@,
            ),
        },
        forall|i: int|
            own < i < at && ((#[trigger] ledger[i]).block_type@ == "tool_result"@
                || ledger[i].block_type@ == "tool_error"@) ==> (match block::row_at(
                ledger[i],
                "call_block_id"@,
            ) {
                Some(row) => row != ledger[own].id,
                None => block::text_or_empty(ledger[i], "tool_call_id"@) != block::text_or_empty(
                    ledger[own],
                    "tool_call_id"@,
                ),
            }),
    ensures
        outcome_at(
            ledger,
            ledger[own].id,
            block::text_or_empty(ledger[own], "tool_call_id"@),
        ) == Some(at),
{
    let id = ledger[own].id;
    let named = block::text_or_empty(ledger[own], "tool_call_id"@);
    rows::a_row_is_of_the_kind_its_type_names(ledger[at]);
    rows::a_kind_holds_what_its_row_carries(ledger[at]);
    the_first_row_with_an_id_is_the_one_found(ledger, 0, id);
    assert(row_from(ledger, 0, id) == Some(own));
    answer_from_answers(ledger, own + 1, id, named);
    if let Some(first) = answer_from(ledger, own + 1, id, named) {
        rows::a_row_is_of_the_kind_its_type_names(ledger[first]);
        rows::a_kind_holds_what_its_row_carries(ledger[first]);
    }
}

/// Of two outcomes of one call the earlier one speaks.
pub proof fn the_earliest_outcome_is_the_calls(
    ledger: Seq<Block>,
    id: i64,
    tool_call_id: Seq<char>,
    at: int,
)
    requires
        0 <= at < ledger.len(),
        resolved(ledger.take(at + 1), id, tool_call_id),
    ensures
        outcome_at(ledger, id, tool_call_id) matches Some(first) && first <= at,
{
    an_outcome_is_for_good(ledger.take(at + 1), ledger.skip(at + 1), id, tool_call_id);
    assert(ledger.take(at + 1) + ledger.skip(at + 1) =~= ledger);
    outcome_answers(ledger.take(at + 1), id, tool_call_id);
}

/// What is owed is a call: a row that is none, or that is not there, owes
/// nothing.
pub proof fn only_a_call_is_owed(ledger: Seq<Block>, id: i64)
    requires
        owed(ledger, id),
    ensures
        id > 0,
        exists|own: int|
            0 <= own < ledger.len() && (#[trigger] ledger[own]).id == id
                && ledger[own].block_type@ == "tool_call"@ && !resolved(
                ledger,
                id,
                block::text_or_empty(ledger[own], "tool_call_id"@),
            ),
{
    the_first_row_with_an_id_is_the_one_found(ledger, 0, id);
    let own = row_from(ledger, 0, id)->0;
    rows::a_row_is_of_the_kind_its_type_names(ledger[own]);
    rows::a_kind_holds_what_its_row_carries(ledger[own]);
    assert(ledger[own].id == id);
}

/// What the system owes a turn is a call of that turn with a provider's id,
/// which is not the user's to answer and which no outcome has settled.
pub proof fn the_system_owes_only_calls_of_the_turn(ledger: Seq<Block>, anchor: i64)
    requires
        system_owes(ledger, anchor),
    ensures
        exists|own: int|
            0 <= own < ledger.len() && (#[trigger] ledger[own]).dispatch_anchor == Some(anchor)
                && ledger[own].block_type@ == "tool_call"@ && !block::flag_at(
                ledger[own],
                "interactive"@,
            ) && block::text_or_empty(ledger[own], "tool_call_id"@).len() > 0 && !resolved(
                ledger,
                ledger[own].id,
                block::text_or_empty(ledger[own], "tool_call_id"@),
            ),
{
    let own = choose|at: int|
        0 <= at < ledger.len() && #[trigger] system_owes_at(ledger, anchor, at);
    rows::a_row_is_of_the_kind_its_type_names(ledger[own]);
    rows::a_kind_holds_what_its_row_carries(ledger[own]);
    assert(ledger[own].dispatch_anchor == Some(anchor));
}

/// An outcome that asks on makes its turn the unanswered one: every error
/// does, and every result but one that ends its turn, whatever stands before
/// it.
pub proof fn an_outcome_that_asks_on_reopens_its_turn(ledger: Seq<Block>, row: Block)
    requires
        row.block_type@ == "tool_error"@ || row.block_type@ == "tool_result"@ && !block::flag_at(
            row,
            "ends_turn"@,
        ),
    ensures
        newest_asking(ledger.push(row)) == Some(ledger.len() as int),
        unanswered_turn(ledger.push(row)) == row.dispatch_anchor,
        row.dispatch_anchor matches Some(anchor) ==> asking_outcomes(ledger.push(row), anchor)
            == asking_outcomes(ledger, anchor) + 1,
        forall|other: i64|
            row.dispatch_anchor != Some(other) ==> #[trigger] asking_outcomes(
                ledger.push(row),
                other,
            ) == asking_outcomes(ledger, other),
{
    rows::a_row_is_of_the_kind_its_type_names(row);
    rows::a_kind_holds_what_its_row_carries(row);
    assert(ledger.push(row).drop_last() =~= ledger);
}

/// Any other row leaves the newest asking outcome and every count of them as
/// they were. It closes the unanswered turn exactly where it is a text or a
/// status of that turn.
pub proof fn any_other_row_reopens_nothing(ledger: Seq<Block>, row: Block)
    requires
        row.block_type@ != "tool_error"@,
        row.block_type@ == "tool_result"@ ==> block::flag_at(row, "ends_turn"@),
    ensures
        newest_asking(ledger.push(row)) == newest_asking(ledger),
        unanswered_turn(ledger.push(row)) == if (row.block_type@ == "text"@ || row.block_type@
            == "status"@) && row.dispatch_anchor is Some && row.dispatch_anchor == unanswered_turn(
            ledger,
        ) {
            None
        } else {
            unanswered_turn(ledger)
        },
        forall|anchor: i64| #[trigger]
            asking_outcomes(ledger.push(row), anchor) == asking_outcomes(ledger, anchor),
{
    let now = ledger.push(row);
    rows::a_row_is_of_the_kind_its_type_names(row);
    rows::a_kind_holds_what_its_row_carries(row);
    assert(now.drop_last() =~= ledger);
    newest_asking_is_a_row(ledger);
    if let Some(at) = newest_asking(ledger) {
        assert(now[at] == ledger[at]);
        if let Some(anchor) = ledger[at].dispatch_anchor {
            assert(now[ledger.len() as int] == row);
            if open_from(ledger, at + 1, anchor) && !closes(row, anchor) {
                assert forall|i: int| at + 1 <= i < now.len() implies !closes(
                    #[trigger] now[i],
                    anchor,
                ) by {
                    if i < ledger.len() {
                        assert(!closes(ledger[i], anchor));
                    }
                }
            }
            if !open_from(ledger, at + 1, anchor) {
                let i = choose|i: int|
                    at + 1 <= i < ledger.len() && closes(#[trigger] ledger[i], anchor);
                assert(closes(now[i], anchor));
            }
        }
    }
}

/// Before anything is recorded nothing asks, nothing was called and nothing
/// was refused.
pub proof fn an_empty_ledger_counts_nothing(
    anchor: i64,
    start: Instant,
    of_tool: Option<Seq<char>>,
)
    ensures
        newest_asking(Seq::empty()) is None,
        unanswered_turn(Seq::empty()) is None,
        asking_outcomes(Seq::empty(), anchor) == 0,
        refusal_run(Seq::empty(), anchor) == 0,
        calls_since(Seq::empty(), start, of_tool) == 0,
        !system_owes(Seq::empty(), anchor),
{
}

/// A window is counted row by row. A row that is no call leaves the count as
/// it was, whatever its type and its role, and so does a call without a
/// readable stamp. A call stamped in the window adds one where its tool is
/// wanted. Nothing before a call stamped ahead of the window counts.
pub proof fn a_window_is_counted_row_by_row(
    ledger: Seq<Block>,
    start: Instant,
    of_tool: Option<Seq<char>>,
    row: Block,
)
    ensures
        row.block_type@ != "tool_call"@ ==> calls_since(ledger.push(row), start, of_tool)
            == calls_since(ledger, start, of_tool),
        row.block_type@ == "tool_call"@ ==> (match clock::stamped(row.created_at@) {
            None => calls_since(ledger.push(row), start, of_tool) == calls_since(
                ledger,
                start,
                of_tool,
            ),
            Some(at) => {
                let inside = at.secs > start.secs || at.secs == start.secs && at.nanos
                    >= start.nanos;
                let wanted = of_tool is None || of_tool == Some(
                    block::text_or_empty(row, "name"@),
                );
                &&& inside && wanted ==> calls_since(ledger.push(row), start, of_tool)
                    == calls_since(ledger, start, of_tool) + 1
                &&& inside && !wanted ==> calls_since(ledger.push(row), start, of_tool)
                    == calls_since(ledger, start, of_tool)
                &&& !inside ==> calls_since(ledger.push(row), start, of_tool) == 0
            },
        }),
{
    rows::a_row_is_of_the_kind_its_type_names(row);
    rows::a_kind_holds_what_its_row_carries(row);
    assert(ledger.push(row).drop_last() =~= ledger);
}

/// A window counts from where it begins, and one that begins nowhere counts
/// nothing.
pub proof fn a_window_counts_from_its_start(
    ledger: Seq<Block>,
    now: Instant,
    seconds: i64,
    of_tool: Option<Seq<char>>,
)
    ensures
        clock::window_start(now, seconds) matches Some(start) ==> calls_in_window(
            ledger,
            now,
            seconds,
            of_tool,
        ) == calls_since(ledger, start, of_tool),
        clock::window_start(now, seconds) is None ==> calls_in_window(
            ledger,
            now,
            seconds,
            of_tool,
        ) == 0,
        forall|start: Instant|
            start.secs + seconds == now.secs && start.nanos == now.nanos && now.readable()
                && clock::EARLIEST_SECOND <= start.secs <= clock::LATEST_SECOND
                ==> calls_in_seconds(ledger, now, seconds, of_tool) == #[trigger] calls_since(
                ledger,
                start,
                of_tool,
            ),
{
    assert forall|start: Instant|
        start.secs + seconds == now.secs && start.nanos == now.nanos && now.readable()
            && clock::EARLIEST_SECOND <= start.secs
            <= clock::LATEST_SECOND implies calls_in_seconds(ledger, now, seconds, of_tool)
        == #[trigger] calls_since(ledger, start, of_tool) by {
        assert(clock::instant_of(clock::second_before(now.secs, now.nanos, seconds)) == Some(
            start,
        ));
    }
}

/// A run of refusals is counted row by row. A refusal of the turn lengthens
/// it, any other outcome of the turn ends it, and no other row of any turn
/// touches it. A row at or before the turn's own ends the walk.
pub proof fn a_run_of_refusals_is_counted_row_by_row(ledger: Seq<Block>, anchor: i64, row: Block)
    ensures
        row.id <= anchor ==> refusal_run(ledger.push(row), anchor) == 0,
        row.id > anchor && row.dispatch_anchor == Some(anchor) && row.block_type@ == "tool_error"@
            && block::flag_at(row, "refusal"@) ==> refusal_run(ledger.push(row), anchor)
            == refusal_run(ledger, anchor) + 1,
        row.id > anchor && row.dispatch_anchor == Some(anchor) && (row.block_type@
            == "tool_result"@ || row.block_type@ == "tool_error"@ && !block::flag_at(
            row,
            "refusal"@,
        )) ==> refusal_run(ledger.push(row), anchor) == 0,
        row.id > anchor && (row.dispatch_anchor != Some(anchor) || row.block_type@
            != "tool_result"@ && row.block_type@ != "tool_error"@) ==> refusal_run(
            ledger.push(row),
            anchor,
        ) == refusal_run(ledger, anchor),
{
    rows::a_row_is_of_the_kind_its_type_names(row);
    rows::a_kind_holds_what_its_row_carries(row);
    assert(ledger.push(row).drop_last() =~= ledger);
}

impl LeafKind for ToolCall {
    open spec fn owns(stored: Seq<char>) -> bool {
        stored == "tool_call"@
    }

    open spec fn names() -> Seq<Seq<char>> {
        seq!["tool_call"@]
    }

    open spec fn reading(block: Block) -> Kind {
        Kind::ToolCall {
            id: block.id,
            role: block.role,
            tool_call_id: block::text_or_empty(block, "tool_call_id"@),
            name: block::text_or_empty(block, "name"@),
            input: block::text_or_empty(block, "input"@),
            interactive: block::flag_at(block, "interactive"@),
        }
    }

    fn kinds() -> (kinds: &'static [&'static str]) {
        let kinds: &'static [&'static str] = &["tool_call"];
        assert(kinds@[0]@ == "tool_call"@);
        kinds
    }

    fn descriptors() -> (tables: Vec<ContentDescriptor>) {
        Vec::new()
    }

    fn parse(block: &Block) -> (kind: Self) {
        ToolCall {
            id: block.id,
            role: block.role,
            tool_call_id: block::string_field(block, "tool_call_id"),
            name: block::string_field(block, "name"),
            input: block::string_field(block, "input"),
            interactive: block::bool_field(block, "interactive"),
        }
    }
}

impl Agency for ToolCall {
    open spec fn asks(kind: Kind) -> Option<Awaiting> {
        match kind {
            Kind::ToolCall { interactive, .. } => Some(
                if interactive {
                    Awaiting::User
                } else {
                    Awaiting::System
                },
            ),
            _ => None,
        }
    }

    open spec fn reads(kind: Kind) -> Option<LedgerName> {
        match kind {
            Kind::ToolCall { interactive, .. } if !interactive => Some(LedgerName::Conversation),
            _ => None,
        }
    }

    open spec fn work(kind: Kind, ledger: Seq<Block>) -> Run {
        match kind {
            Kind::ToolCall { id, tool_call_id, interactive, .. } => if interactive || resolved(
                ledger,
                id,
                tool_call_id,
            ) {
                Run { done: true, wakeup: None }
            } else {
                Run { done: false, wakeup: Some(Wakeup::ToolCallReady { call_block_id: id }) }
            },
            _ => Run { done: true, wakeup: None },
        }
    }

    open spec fn deferred(kind: Kind, ledger: Seq<Block>) -> Option<Wakeup> {
        ToolCall::work(kind, ledger).wakeup
    }

    fn awaiting(&self) -> (ask: Option<Awaiting>) {
        if self.interactive {
            Some(Awaiting::User)
        } else {
            Some(Awaiting::System)
        }
    }

    fn durable(&self) -> (lasts: bool) {
        true
    }

    fn frontier_transparent(&self) -> (transparent: bool) {
        false
    }

    fn heads_the_ledger(&self) -> (heads: bool) {
        false
    }

    fn offers_tools(&self) -> (offers: bool) {
        true
    }

    fn gate(&self) -> (decision: GateDecision) {
        GateDecision::Proceed
    }

    fn run_reads(&self) -> (ledger: Option<LedgerName>) {
        if self.interactive {
            None
        } else {
            Some(LedgerName::Conversation)
        }
    }

    fn run(&self, ledger: &[Block]) -> (run: Run) {
        if self.interactive || self.resolved_in(ledger) {
            Run { done: true, wakeup: None }
        } else {
            Run { done: false, wakeup: Some(Wakeup::ToolCallReady { call_block_id: self.id }) }
        }
    }

    fn post_gate_id(&self, _ledger: &[Block]) -> (next: Option<i64>) {
        None
    }

    /// The deferred work is the call's own work: one path to execution, so that a
    /// call can never run twice.
    fn run_post_gate(&self, ledger: &[Block]) -> (wakeup: Option<Wakeup>) {
        self.run(ledger).wakeup
    }
}

impl Projection for ToolCall {
    open spec fn groups(kind: Kind) -> Option<Role> {
        match kind {
            Kind::ToolCall { role, .. } => role,
            _ => None,
        }
    }

    open spec fn parts(kind: Kind) -> Option<Seq<Part>> {
        match kind {
            Kind::ToolCall { tool_call_id, name, input, .. } => Some(
                seq![
                    Part::ToolUse {
                        id: tool_call_id,
                        name,
                        input: call_input(input, json::parsed_json(input)),
                    },
                ],
            ),
            _ => None,
        }
    }

    open spec fn only_parts(kind: Kind) -> bool {
        true
    }

    fn group_role(&self) -> (role: Option<Role>) {
        self.role
    }

    fn llm_parts(&self) -> (parts: Option<Vec<ContentPart>>) {
        let parsed = match json::parse_json(self.input.as_str()) {
            Ok(value) => Some(value),
            Err(_) => None,
        };
        projection::one_part(
            ContentPart::ToolUse {
                id: self.tool_call_id.clone(),
                name: self.name.clone(),
                input: self.input_value(parsed),
            },
        )
    }

    fn llm_text(&self) -> (text: Option<String>) {
        None
    }

    fn forces_parts(&self) -> (forces: bool) {
        true
    }
}

} // verus!
