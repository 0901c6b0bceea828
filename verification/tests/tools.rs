//! What a ledger says of tool calls: which are answered, how many fall into a
//! window, how long a run of refusals is, and which turn is unanswered.

use agent_ledger::agency::tool_call::{outcome_asks_for_a_continuation, unresolved_call_named};
use agent_ledger::agency::{BlockKind, CallOutcome, FromBlock, ToolCall};
use agent_ledger::block::{
    bool_field, i64_field, id_field, optional_string_field, string_field, string_list_field, Block,
    Role,
};
use agent_ledger::clock::{
    cutoff, now_instant, parse_stamp, Instant, EARLIEST_SECOND, LATEST_SECOND, LONGEST_SPAN,
};
use serde_json::Value;

fn text(value: &str) -> Value {
    Value::String(value.into())
}

fn row(id: i64, block_type: &str, anchor: Option<i64>, fields: &[(&str, Value)]) -> Block {
    let mut map = serde_json::Map::new();
    for (key, value) in fields {
        map.insert((*key).to_string(), value.clone());
    }
    Block {
        id,
        role: None,
        block_type: block_type.into(),
        created_at: String::new(),
        dispatch_anchor: anchor,
        fields: map,
    }
}

fn call(id: i64, anchor: i64, tool_call_id: &str) -> Block {
    row(
        id,
        "tool_call",
        Some(anchor),
        &[
            ("tool_call_id", text(tool_call_id)),
            ("name", text("echo")),
            ("input", text("{}")),
        ],
    )
}

fn result(id: i64, anchor: i64, tool_call_id: &str, call: i64) -> Block {
    row(
        id,
        "tool_result",
        Some(anchor),
        &[
            ("tool_call_id", text(tool_call_id)),
            ("content", text("ok")),
            ("call_block_id", Value::from(call)),
        ],
    )
}

fn failure(id: i64, anchor: i64, tool_call_id: &str, call: i64, refusal: bool) -> Block {
    row(
        id,
        "tool_error",
        Some(anchor),
        &[
            ("tool_call_id", text(tool_call_id)),
            ("error", text("no")),
            ("call_block_id", Value::from(call)),
            ("refusal", Value::Bool(refusal)),
        ],
    )
}

fn stamped(id: i64, name: &str, at: &str) -> Block {
    let mut block = row(
        id,
        "tool_call",
        None,
        &[("tool_call_id", text("c")), ("name", text(name))],
    );
    block.created_at = at.into();
    block
}

fn at(stamp: &str) -> Instant {
    parse_stamp(stamp).expect("a stamp")
}

#[test]
fn a_window_counts_instants_and_not_texts() {
    let now = at("2026-09-01T12:00:00Z");
    let ledger = [
        stamped(1, "echo", "2026-09-01T13:58:59+02:00"),
        stamped(2, "echo", "2026-09-01T11:59:00Z"),
        row(3, "text", None, &[]),
        stamped(4, "park", "2026-09-01T13:59:30+02:00"),
    ];
    let count = |seconds: i64, of_tool: Option<&str>| {
        ToolCall::calls_in_window_ending(&ledger, now, seconds, of_tool)
    };
    assert_eq!(count(60, None), 2, "the edge counts, and an offset is taken off");
    assert_eq!(count(59, None), 1);
    assert_eq!(count(60, Some("park")), 1);
    assert_eq!(count(60, Some("boom")), 0);
    assert_eq!(count(3600, None), 3);
    assert_eq!(count(3600, Some("echo")), 2);
    assert_eq!(count(LONGEST_SPAN, None), 0, "no clock reaches that far back");
    assert_eq!(count(i64::MAX, None), 0, "an absurd span is a window of nothing");
}

#[test]
fn an_unreadable_stamp_neither_counts_nor_ends_the_walk() {
    let now = at("2026-09-01T12:00:00Z");
    let ledger = [
        stamped(1, "echo", "2026-09-01T11:59:30Z"),
        stamped(2, "echo", "yesterday"),
        stamped(3, "echo", "2026-09-01T11:59:40Z"),
    ];
    assert_eq!(ToolCall::calls_in_window_ending(&ledger, now, 60, None), 2);
}

#[test]
fn the_walk_ends_at_the_first_call_before_the_window() {
    let now = at("2026-09-01T12:00:00Z");
    let ledger = [
        stamped(1, "echo", "2026-09-01T11:59:30Z"),
        stamped(2, "park", "2026-09-01T10:00:00Z"),
        stamped(3, "echo", "2026-09-01T11:59:40Z"),
    ];
    assert_eq!(
        ToolCall::calls_in_window_ending(&ledger, now, 60, Some("echo")),
        1
    );
}

#[test]
fn the_trailing_window_ends_now() {
    let ledger = [
        stamped(1, "echo", "1999-01-01T00:00:00Z"),
        stamped(2, "echo", "2999-01-01T00:00:00Z"),
    ];
    assert_eq!(ToolCall::calls_in_trailing_window(&ledger, 60, None), 1);
    let now = now_instant();
    assert!(now.at_or_after(at("2020-01-01T00:00:00Z")));
    assert!(now.secs <= LATEST_SECOND && now.nanos < 1_000_000_000);
}

#[test]
fn a_cutoff_is_so_many_seconds_before() {
    let now = Instant {
        secs: 1_000,
        nanos: 7,
    };
    assert_eq!(
        cutoff(now, 60),
        Some(Instant {
            secs: 940,
            nanos: 7
        })
    );
    assert_eq!(cutoff(now, LONGEST_SPAN), None, "out of the clock's range");
    assert_eq!(
        cutoff(now, i64::MAX),
        Some(now),
        "a span too long to be held counts as none"
    );
    let last = Instant {
        secs: LATEST_SECOND,
        nanos: 0,
    };
    assert_eq!(cutoff(last, 0), Some(last));
    assert_eq!(cutoff(last, -1), None);
    let first = Instant {
        secs: EARLIEST_SECOND,
        nanos: 0,
    };
    assert_eq!(cutoff(first, 0), Some(first));
    assert_eq!(cutoff(first, 1), None);
    let beyond = Instant {
        secs: LATEST_SECOND + 10,
        nanos: 0,
    };
    assert_eq!(cutoff(beyond, 10), None, "the clock cannot stand there");
}

#[test]
fn a_stamp_is_read_with_its_offset() {
    assert_eq!(
        parse_stamp("1970-01-01T02:00:01.5+02:00"),
        Some(Instant {
            secs: 1,
            nanos: 500_000_000
        })
    );
    assert_eq!(parse_stamp("1970-01-01 noon"), None);
}

#[test]
fn a_refusal_run_counts_back_to_the_first_other_outcome() {
    let mut ledger = vec![
        call(11, 9, "a"),
        failure(12, 9, "a", 11, true),
        call(13, 9, "b"),
        failure(14, 9, "b", 13, true),
    ];
    assert_eq!(ToolCall::trailing_refusal_run(&ledger, 9), 2);
    assert_eq!(
        ToolCall::trailing_refusal_run(&ledger, 8),
        0,
        "another turn's refusals are not this one's"
    );
    ledger.push(call(15, 9, "c"));
    ledger.push(result(16, 9, "c", 15));
    assert_eq!(ToolCall::trailing_refusal_run(&ledger, 9), 0);
    ledger.push(call(17, 9, "d"));
    ledger.push(failure(18, 9, "d", 17, true));
    assert_eq!(ToolCall::trailing_refusal_run(&ledger, 9), 1);
}

#[test]
fn a_turns_outcomes_are_counted_by_their_anchor() {
    let mut parked = result(4, 9, "b", 3);
    parked.fields.insert("ends_turn".into(), Value::Bool(true));
    let ledger = [
        call(1, 9, "a"),
        result(2, 9, "a", 1),
        call(3, 9, "b"),
        parked,
        call(5, 8, "c"),
        failure(6, 8, "c", 5, false),
    ];
    assert_eq!(ToolCall::outcomes_anchored_in(&ledger, 9), 1);
    assert_eq!(ToolCall::outcomes_anchored_in(&ledger, 8), 1);
    assert_eq!(ToolCall::outcomes_anchored_in(&ledger, 7), 0);
    assert!(outcome_asks_for_a_continuation(&ledger[1]));
    assert!(!outcome_asks_for_a_continuation(&ledger[3]));
    assert!(outcome_asks_for_a_continuation(&ledger[5]));
    assert!(!outcome_asks_for_a_continuation(&ledger[0]));
}

#[test]
fn the_system_owes_an_unanswered_call_of_the_turn() {
    let mut interactive = call(2, 9, "b");
    interactive
        .fields
        .insert("interactive".into(), Value::Bool(true));
    let ledger = [call(1, 9, "a"), interactive, call(3, 8, "c")];
    assert!(ToolCall::system_owed_call_anchored_in(&ledger, 9));
    assert!(ToolCall::system_owed_call_anchored_in(&ledger, 8));
    assert!(!ToolCall::system_owed_call_anchored_in(&ledger, 7));
    assert!(
        !ToolCall::system_owed_call_anchored_in(&ledger[1..2], 9),
        "an interactive call is the user's"
    );
    let answered = [call(1, 9, "a"), result(2, 9, "a", 1)];
    assert!(!ToolCall::system_owed_call_anchored_in(&answered, 9));
}

#[test]
fn a_call_is_named_while_it_is_owed() {
    let ledger = [call(1, 9, "a"), call(2, 9, "b"), result(3, 9, "a", 1)];
    assert!(unresolved_call_named(&ledger, 1).is_none());
    assert_eq!(unresolved_call_named(&ledger, 2).map(|call| call.id), Some(2));
    assert!(unresolved_call_named(&ledger, 3).is_none());
    assert!(unresolved_call_named(&ledger, 0).is_none());
    assert!(unresolved_call_named(&ledger, 44).is_none());
}

#[test]
fn the_newest_unanswered_outcome_names_its_turn() {
    let mut ledger = vec![call(1, 9, "a"), result(2, 9, "a", 1)];
    assert_eq!(ToolCall::unanswered_outcome_anchor(&ledger), Some(9));
    let mut absorbed = row(3, "text", None, &[("content", text("hi"))]);
    absorbed.role = Some(Role::User);
    ledger.push(absorbed);
    assert_eq!(
        ToolCall::unanswered_outcome_anchor(&ledger),
        Some(9),
        "an absorbed line leaves the turn unanswered"
    );
    let mut answer = row(4, "text", Some(9), &[("content", text("done"))]);
    answer.role = Some(Role::Assistant);
    ledger.push(answer);
    assert_eq!(ToolCall::unanswered_outcome_anchor(&ledger), None);
    assert_eq!(ToolCall::unanswered_outcome_anchor(&[]), None);
}

#[test]
fn an_outcome_is_read_as_what_it_is() {
    let ledger = [
        call(1, 9, "a"),
        result(2, 9, "a", 1),
        call(3, 9, "b"),
        failure(4, 9, "b", 3, false),
        call(5, 9, "c"),
    ];
    let outcome = |at: usize| match BlockKind::from_block(&ledger[at]) {
        BlockKind::ToolCall(call) => call.outcome_in(&ledger),
        other => panic!("{other:?}"),
    };
    assert!(matches!(outcome(0), Some(CallOutcome::Result(_))));
    assert!(matches!(outcome(2), Some(CallOutcome::Error(_))));
    assert!(outcome(4).is_none());
}

#[test]
fn a_calls_input_falls_back_to_its_text() {
    let call = match BlockKind::from_block(&call(1, 9, "a")) {
        BlockKind::ToolCall(call) => call,
        other => panic!("{other:?}"),
    };
    assert_eq!(call.input_value(None), text("{}"));
    assert_eq!(call.input_value(Some(Value::from(3))), Value::from(3));
}

#[test]
fn fields_are_read_by_their_types() {
    let block = row(
        1,
        "text",
        None,
        &[
            ("text", text("hi")),
            ("empty", text("")),
            ("number", Value::from(7)),
            ("zero", Value::from(0)),
            ("flag", Value::Bool(true)),
            ("list", Value::Array(vec![text("a"), Value::Null, text("b")])),
            ("null", Value::Null),
        ],
    );
    assert_eq!(string_field(&block, "text"), "hi");
    assert_eq!(string_field(&block, "number"), "");
    assert_eq!(string_field(&block, "absent"), "");
    assert_eq!(optional_string_field(&block, "text"), Some("hi".to_owned()));
    assert_eq!(optional_string_field(&block, "null"), None);
    assert_eq!(i64_field(&block, "number"), 7);
    assert_eq!(i64_field(&block, "text"), 0);
    assert_eq!(id_field(&block, "number"), Some(7));
    assert_eq!(id_field(&block, "zero"), None);
    assert!(bool_field(&block, "flag"));
    assert!(!bool_field(&block, "number"));
    assert_eq!(string_list_field(&block, "list"), vec!["a", "b"]);
    assert!(string_list_field(&block, "text").is_empty());
}
