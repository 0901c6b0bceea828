//! What each kind says to the model.

use agent_ledger::agency::{
    render_code, render_quote, render_text, render_tool_error, render_tool_result, BlockKind,
    ContentPart, DateMarker, FromBlock, LeafKind, Projection, Thinking,
};
use agent_ledger::block::{Block, Role};
use serde_json::Value;

fn marker(date: &str, abbrev: Option<&str>, name: Option<&str>, at: Option<&str>) -> Block {
    let mut fields = serde_json::Map::new();
    fields.insert("date".into(), Value::String(date.into()));
    for (key, value) in [("tz_abbrev", abbrev), ("tz_name", name), ("written_at", at)] {
        fields.insert(
            key.into(),
            value.map_or(Value::Null, |v| Value::String(v.into())),
        );
    }
    Block {
        id: 1,
        role: None,
        block_type: "date_marker".into(),
        created_at: String::new(),
        dispatch_anchor: None,
        fields,
    }
}

fn line(block: &Block) -> String {
    DateMarker::parse(block).llm_text().unwrap()
}

const PRE_SLICE_LINE: &str = "Current date: 2026-08-27 (Thursday)";

#[test]
fn the_projected_line_degrades_clause_by_clause() {
    assert_eq!(
        line(&marker(
            "2026-08-27",
            Some("CEST"),
            Some("Europe/Berlin"),
            Some("22:41")
        )),
        "Current date: 2026-08-27 (Thursday), timezone CEST (Europe/Berlin)"
    );
    assert_eq!(
        line(&marker("2026-08-27", Some("CEST"), None, Some("22:41"))),
        "Current date: 2026-08-27 (Thursday), timezone CEST",
        "no IANA name: the abbreviation carries the zone alone"
    );
    assert_eq!(
        line(&marker(
            "2026-08-27",
            None,
            Some("Europe/Berlin"),
            Some("22:41")
        )),
        "Current date: 2026-08-27 (Thursday), timezone Europe/Berlin",
        "no abbreviation: the name carries the zone alone, unparenthesized"
    );
    assert_eq!(
        line(&marker("2026-08-27", None, None, Some("22:41"))),
        PRE_SLICE_LINE,
        "no zone at all: the clause drops out"
    );
    assert_eq!(
        line(&marker("2026-08-27", None, None, None)),
        PRE_SLICE_LINE,
        "every pre-slice row renders as it always did"
    );
}

#[test]
fn the_written_minute_is_parsed_and_never_projected() {
    for zone in [
        (Some("CEST"), Some("Europe/Berlin")),
        (Some("CEST"), None),
        (None, Some("Europe/Berlin")),
        (None, None),
    ] {
        let (abbrev, name) = zone;
        assert_eq!(
            line(&marker("2026-08-27", abbrev, name, Some("22:41"))),
            line(&marker("2026-08-27", abbrev, name, None)),
            "the minute changes no line"
        );
    }
    assert_eq!(
        DateMarker::parse(&marker("2026-08-27", None, None, Some("22:41"))).written_at,
        Some("22:41".to_owned()),
        "the row's own label is still read off the row"
    );
}

#[test]
fn an_unparseable_date_keeps_the_bare_degrade_and_its_clauses() {
    assert_eq!(
        line(&marker(
            "not-a-date",
            Some("CEST"),
            Some("Europe/Berlin"),
            Some("22:41")
        )),
        "Current date: not-a-date, timezone CEST (Europe/Berlin)"
    );
    assert_eq!(
        line(&marker("not-a-date", None, None, None)),
        "Current date: not-a-date"
    );
}

#[test]
fn absent_fields_and_null_fields_are_the_same_line() {
    let mut fields = serde_json::Map::new();
    fields.insert("date".into(), Value::String("2026-08-27".into()));
    let bare = Block {
        id: 1,
        role: None,
        block_type: "date_marker".into(),
        created_at: String::new(),
        dispatch_anchor: None,
        fields,
    };
    assert_eq!(line(&bare), PRE_SLICE_LINE);
}

#[test]
fn every_weekday_has_its_name() {
    for (date, day) in [
        ("2026-08-24", "Monday"),
        ("2026-08-25", "Tuesday"),
        ("2026-08-26", "Wednesday"),
        ("2026-08-27", "Thursday"),
        ("2026-08-28", "Friday"),
        ("2026-08-29", "Saturday"),
        ("2026-08-30", "Sunday"),
        ("0001-01-01", "Monday"),
        ("2024-02-29", "Thursday"),
    ] {
        assert_eq!(
            line(&marker(date, None, None, None)),
            format!("Current date: {date} ({day})")
        );
    }
    for date in ["-0044-03-15", "0000-01-01", "-262143-01-01", "1582-10-15", "+262142-12-31"] {
        let day = chrono::NaiveDate::parse_from_str(date, "%Y-%m-%d").unwrap();
        assert_eq!(
            line(&marker(date, None, None, None)),
            format!("Current date: {date} ({})", day.format("%A"))
        );
    }
    assert_eq!(
        line(&marker("2023-02-29", None, None, None)),
        "Current date: 2023-02-29",
        "a day that is not on the calendar has no weekday"
    );
}

#[test]
fn a_quote_marks_each_line() {
    assert_eq!(render_quote(""), "");
    assert_eq!(render_quote("one"), "> one");
    assert_eq!(render_quote("one\ntwo"), "> one\n> two");
    assert_eq!(render_quote("one\r\ntwo\n"), "> one\n> two");
    assert_eq!(render_quote("one\n\ntwo\r"), "> one\n> \n> two\r");
    assert_eq!(render_quote("\n"), "> ");
    assert_eq!(render_quote("käse\nbrot"), "> käse\n> brot");
    for text in ["a\r\n\r\nb", "\r\n", "x\n\r", "\n\n\n", "a\rb\nc", "end\r\n"] {
        let expected = text
            .lines()
            .map(|line| format!("> {line}"))
            .collect::<Vec<_>>()
            .join("\n");
        assert_eq!(render_quote(text), expected);
    }
}

#[test]
fn the_other_renderings_are_what_they_were() {
    assert_eq!(render_text("hi"), "hi");
    assert_eq!(render_tool_result("out"), "out");
    assert_eq!(render_tool_error("no"), "no");
    assert_eq!(render_code(Some("rust"), "fn f() {}"), "```rust\nfn f() {}\n```");
    assert_eq!(render_code(None, "x"), "```\nx\n```");
}

fn block(block_type: &str, role: Option<Role>, fields: &[(&str, Value)]) -> BlockKind {
    let mut row = marker("", None, None, None);
    row.block_type = block_type.into();
    row.role = role;
    row.fields = serde_json::Map::new();
    for (key, value) in fields {
        row.fields.insert((*key).to_string(), value.clone());
    }
    BlockKind::from_block(&row)
}

fn text(value: &str) -> Value {
    Value::String(value.into())
}

#[test]
fn prose_is_said_in_both_modes() {
    for kind in ["text", "harness_message"] {
        let prose = block(kind, Some(Role::User), &[("content", text("hi"))]);
        assert_eq!(prose.group_role(), Some(Role::User));
        assert_eq!(
            prose.llm_parts(),
            Some(vec![ContentPart::Text { text: "hi".into() }])
        );
        assert_eq!(prose.llm_text(), Some("hi".into()));
        assert!(!prose.forces_parts());
    }
    let quote = block("quote", Some(Role::User), &[("text", text("a\nb"))]);
    assert_eq!(quote.llm_text(), Some("> a\n> b".into()));
    let code = block(
        "code",
        None,
        &[("content", text("x")), ("language", text("py"))],
    );
    assert_eq!(code.llm_text(), Some("```py\nx\n```".into()));
}

#[test]
fn a_system_prompt_speaks_as_text_only() {
    let prompt = block("system_prompt", Some(Role::System), &[("content", text("be"))]);
    assert_eq!(prompt.group_role(), Some(Role::System));
    assert_eq!(prompt.llm_parts(), None);
    assert_eq!(prompt.llm_text(), Some("be".into()));
}

#[test]
fn reasoning_is_a_part_and_never_text() {
    let payload = Value::Array(vec![Value::from(1)]);
    let thinking = block(
        "thinking",
        Some(Role::Assistant),
        &[("content", text("hm")), ("opaque", payload.clone())],
    );
    match thinking.llm_parts() {
        Some(parts) => match &parts[..] {
            [ContentPart::Reasoning { text, opaque }] => {
                assert_eq!(text, "hm");
                assert_eq!(opaque.as_ref().unwrap().value, payload);
            }
            other => panic!("expected one reasoning part, got {other:?}"),
        },
        None => panic!("reasoning is said as a part"),
    }
    assert_eq!(thinking.llm_text(), None);
    let bare = block("thinking", None, &[("opaque", Value::Null)]);
    assert!(matches!(
        bare.llm_parts().unwrap()[..],
        [ContentPart::Reasoning { opaque: None, .. }]
    ));
}

#[test]
fn a_calls_input_is_parsed_where_it_parses() {
    let parsed = block(
        "tool_call",
        None,
        &[
            ("tool_call_id", text("c1")),
            ("name", text("echo")),
            ("input", text("{\"n\": 7}")),
        ],
    );
    let mut object = serde_json::Map::new();
    object.insert("n".into(), Value::from(7));
    assert_eq!(
        parsed.llm_parts(),
        Some(vec![ContentPart::ToolUse {
            id: "c1".into(),
            name: "echo".into(),
            input: Value::Object(object),
        }])
    );
    assert_eq!(parsed.llm_text(), None);
    assert!(parsed.forces_parts());

    let raw = block("tool_call", None, &[("input", text("{not json"))]);
    assert_eq!(
        raw.llm_parts(),
        Some(vec![ContentPart::ToolUse {
            id: String::new(),
            name: String::new(),
            input: text("{not json"),
        }])
    );
}

#[test]
fn tool_outcomes_answer_their_call() {
    let result = block(
        "tool_result",
        Some(Role::Tool),
        &[("tool_call_id", text("c1")), ("content", text("out"))],
    );
    assert_eq!(
        result.llm_parts(),
        Some(vec![ContentPart::ToolResult {
            tool_use_id: "c1".into(),
            content: "out".into(),
        }])
    );
    let error = block(
        "tool_error",
        Some(Role::Tool),
        &[("tool_call_id", text("c1")), ("error", text("no"))],
    );
    assert_eq!(
        error.llm_parts(),
        Some(vec![ContentPart::ToolResult {
            tool_use_id: "c1".into(),
            content: "no".into(),
        }])
    );
    assert!(result.forces_parts() && error.forces_parts());
}

#[test]
fn records_and_tails_are_invisible() {
    for kind in [
        "streaming",
        "streaming_thinking",
        "streaming_tool_call",
        "approval_request",
        "approval_decision",
        "ancestor_reference",
        "tool_choice",
        "title_request",
        "title_response",
    ] {
        let record = block(kind, Some(Role::Assistant), &[]);
        assert_eq!(record.group_role(), None, "{kind}");
        assert_eq!(record.llm_parts(), None, "{kind}");
        assert_eq!(record.llm_text(), None, "{kind}");
    }
    for kind in ["status", "something_else"] {
        let record = block(kind, Some(Role::Assistant), &[]);
        assert_eq!(record.group_role(), Some(Role::Assistant), "{kind}");
        assert_eq!(record.llm_parts(), None, "{kind}");
        assert_eq!(record.llm_text(), None, "{kind}");
    }
}

#[test]
fn a_payload_that_does_not_read_is_let_go() {
    let mut row = marker("", None, None, None);
    row.block_type = "thinking".into();
    row.role = Some(Role::Assistant);
    row.fields = serde_json::Map::new();
    row.fields.insert("content".into(), text("hm"));
    row.fields.insert("opaque".into(), Value::from(3));
    let kept = Thinking::parse(&row).with_payload_read(true);
    assert_eq!(kept.opaque.unwrap().value, Value::from(3));
    let degraded = Thinking::parse(&row).with_payload_read(false);
    assert_eq!(degraded.opaque, None);
    assert_eq!(degraded.content, "hm");
    assert_eq!(degraded.role, Some(Role::Assistant));
}
