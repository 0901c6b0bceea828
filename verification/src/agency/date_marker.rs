//! The ledger's own calendar.

use vstd::prelude::*;

use super::model::Kind;
use super::projection;
use super::projection::{ContentPart, Part, Projection};
use super::{Agency, ContentDescriptor, GateDecision, LeafKind, LedgerName, Run, Wakeup};
use crate::block;
use crate::block::{Awaiting, Block, Role};
use crate::clock;

verus! {

/// The machine's local date at the moment user blocks were appended.
///
/// Inert, because it stands before the message that owes the turn. To the model it
/// is a line of the system's.
#[derive(Debug, Clone)]
pub struct DateMarker {
    /// The recorded local date, as year, month and day.
    pub date: String,
    /// The abbreviation of the zone, where one was recorded.
    pub tz_abbrev: Option<String>,
    /// The name of the zone, where one was recorded.
    pub tz_name: Option<String>,
    /// The minute the marker was written. A fact about the row which the model is
    /// never told: a stated time is read as the present and goes stale.
    pub written_at: Option<String>,
}

impl View for DateMarker {
    type V = Kind;

    open spec fn view(&self) -> Kind {
        Kind::DateMarker {
            date: self.date@,
            tz_abbrev: block::text_view(self.tz_abbrev),
            tz_name: block::text_view(self.tz_name),
            written_at: block::text_view(self.written_at),
        }
    }
}

/// What a marker says of its day: the date, and the weekday where the date is
/// one.
pub open spec fn day_clause(date: Seq<char>, day: Option<i32>) -> Seq<char> {
    "Current date: "@ + date + match day {
        Some(number) => " ("@ + clock::weekday_of(number) + ")"@,
        None => seq![],
    }
}

/// What a marker says of its zone, where it knows of one.
pub open spec fn zone_clause(abbrev: Option<Seq<char>>, name: Option<Seq<char>>) -> Seq<char> {
    match (abbrev, name) {
        (Some(short), Some(long)) => ", timezone "@ + short + " ("@ + long + ")"@,
        (Some(zone), None) => ", timezone "@ + zone,
        (None, Some(zone)) => ", timezone "@ + zone,
        (None, None) => seq![],
    }
}

/// The line a marker is projected as.
pub open spec fn date_line(
    date: Seq<char>,
    day: Option<i32>,
    abbrev: Option<Seq<char>>,
    name: Option<Seq<char>>,
) -> Seq<char> {
    day_clause(date, day) + zone_clause(abbrev, name)
}

impl DateMarker {
    /// The marker's line. Its date and its zone are clauses of their own: a
    /// date that is none keeps the bare text, and a row without a zone says
    /// nothing of one.
    pub fn line(&self) -> (line: String)
        ensures
            line@ == date_line(
                self.date@,
                clock::calendar_day(self.date@),
                block::text_view(self.tz_abbrev),
                block::text_view(self.tz_name),
            ),
    {
        self.line_for(clock::parse_day(self.date.as_str()))
    }

    /// The marker's line, given the day its date names.
    pub fn line_for(&self, day: Option<i32>) -> (line: String)
        ensures
            line@ == date_line(
                self.date@,
                day,
                block::text_view(self.tz_abbrev),
                block::text_view(self.tz_name),
            ),
    {
        let mut line = String::new();
        line.append("Current date: ");
        line.append(self.date.as_str());
        if let Some(number) = day {
            line.append(" (");
            line.append(clock::weekday(number));
            line.append(")");
        }
        assert(line@ =~= day_clause(self.date@, day));
        match (&self.tz_abbrev, &self.tz_name) {
            (Some(short), Some(long)) => {
                line.append(", timezone ");
                line.append(short.as_str());
                line.append(" (");
                line.append(long.as_str());
                line.append(")");
            },
            (Some(zone), None) => {
                line.append(", timezone ");
                line.append(zone.as_str());
            },
            (None, Some(zone)) => {
                line.append(", timezone ");
                line.append(zone.as_str());
            },
            (None, None) => {},
        }
        assert(line@ =~= date_line(
            self.date@,
            day,
            block::text_view(self.tz_abbrev),
            block::text_view(self.tz_name),
        ));
        line
    }
}

/// The minute a marker was written never reaches the model: two markers that
/// differ in nothing else say the same in both modes.
pub proof fn the_written_minute_is_never_projected(
    date: Seq<char>,
    tz_abbrev: Option<Seq<char>>,
    tz_name: Option<Seq<char>>,
    one: Option<Seq<char>>,
    other: Option<Seq<char>>,
)
    ensures
        DateMarker::text(Kind::DateMarker { date, tz_abbrev, tz_name, written_at: one })
            == DateMarker::text(Kind::DateMarker { date, tz_abbrev, tz_name, written_at: other }),
        DateMarker::parts(Kind::DateMarker { date, tz_abbrev, tz_name, written_at: one })
            == DateMarker::parts(Kind::DateMarker { date, tz_abbrev, tz_name, written_at: other }),
{
}

impl LeafKind for DateMarker {
    open spec fn owns(stored: Seq<char>) -> bool {
        stored == "date_marker"@
    }

    open spec fn names() -> Seq<Seq<char>> {
        seq!["date_marker"@]
    }

    open spec fn reading(block: Block) -> Kind {
        Kind::DateMarker {
            date: block::text_or_empty(block, "date"@),
            tz_abbrev: block::text_at(block, "tz_abbrev"@),
            tz_name: block::text_at(block, "tz_name"@),
            written_at: block::text_at(block, "written_at"@),
        }
    }

    fn kinds() -> (kinds: &'static [&'static str]) {
        let kinds: &'static [&'static str] = &["date_marker"];
        assert(kinds@[0]@ == "date_marker"@);
        kinds
    }

    fn descriptors() -> (tables: Vec<ContentDescriptor>) {
        Vec::new()
    }

    fn parse(block: &Block) -> (kind: Self) {
        DateMarker {
            date: block::string_field(block, "date"),
            tz_abbrev: block::optional_string_field(block, "tz_abbrev"),
            tz_name: block::optional_string_field(block, "tz_name"),
            written_at: block::optional_string_field(block, "written_at"),
        }
    }
}

impl Agency for DateMarker {
    fn awaiting(&self) -> (ask: Option<Awaiting>) {
        None
    }

    fn durable(&self) -> (lasts: bool) {
        true
    }

    fn frontier_transparent(&self) -> (transparent: bool) {
        false
    }

    fn heads_the_ledger(&self) -> (heads: bool) {
        false
    }

    fn offers_tools(&self) -> (offers: bool) {
        true
    }

    fn gate(&self) -> (decision: GateDecision) {
        GateDecision::Proceed
    }

    fn run_reads(&self) -> (ledger: Option<LedgerName>) {
        None
    }

    fn run(&self, _ledger: &[Block]) -> (run: Run) {
        Run { done: true, wakeup: None }
    }

    fn post_gate_id(&self, _ledger: &[Block]) -> (next: Option<i64>) {
        None
    }

    fn run_post_gate(&self, _ledger: &[Block]) -> (wakeup: Option<Wakeup>) {
        None
    }
}

impl Projection for DateMarker {
    open spec fn groups(kind: Kind) -> Option<Role> {
        Some(Role::System)
    }

    open spec fn parts(kind: Kind) -> Option<Seq<Part>> {
        match DateMarker::text(kind) {
            Some(text) => Some(seq![Part::Text { text }]),
            None => None,
        }
    }

    open spec fn text(kind: Kind) -> Option<Seq<char>> {
        match kind {
            Kind::DateMarker { date, tz_abbrev, tz_name, .. } => Some(
                date_line(date, clock::calendar_day(date), tz_abbrev, tz_name),
            ),
            _ => None,
        }
    }

    fn group_role(&self) -> (role: Option<Role>) {
        Some(Role::System)
    }

    fn llm_parts(&self) -> (parts: Option<Vec<ContentPart>>) {
        projection::one_part(ContentPart::Text { text: self.line() })
    }

    fn llm_text(&self) -> (text: Option<String>) {
        Some(self.line())
    }

    fn forces_parts(&self) -> (forces: bool) {
        false
    }
}

} // verus!
