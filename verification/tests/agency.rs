//! What each kind answers: who owes its next move, whether its own work is
//! done, and where its deferred work is routed.

use agent_ledger::agency::{
    Agency, BlockKind, CallOutcome, FromBlock, GateDecision, HarnessMessage, LeafKind, Projection,
    Run, SystemPrompt, ToolChoice, Wakeup,
};
use agent_ledger::block::{ApprovalChoice, Awaiting, Block, Role};
use serde_json::Value;

const INERT_TYPES: [&str; 7] = [
    "thinking",
    "system_prompt",
    "status",
    "streaming",
    "streaming_thinking",
    "streaming_tool_call",
    "date_marker",
];

const AUTHORED_TYPES: [&str; 3] = ["text", "quote", "code"];

const UNREGISTERED_TYPE: &str = "holographic_block";

const DONE: Run = Run {
    done: true,
    wakeup: None,
};

fn bare_block(block_type: &str, role: Option<Role>) -> Block {
    Block {
        id: 1,
        role,
        block_type: block_type.into(),
        created_at: String::new(),
        dispatch_anchor: None,
        fields: serde_json::Map::new(),
    }
}

fn kind(block_type: &str, role: Option<Role>) -> BlockKind {
    BlockKind::from_block(&bare_block(block_type, role))
}

fn row(id: i64, block_type: &str, fields: &[(&str, Value)]) -> Block {
    let mut block = bare_block(block_type, None);
    block.id = id;
    for (key, value) in fields {
        block.fields.insert((*key).to_string(), value.clone());
    }
    block
}

fn text(value: &str) -> Value {
    Value::String(value.into())
}

fn call_row(id: i64, tool_call_id: &str) -> Block {
    row(
        id,
        "tool_call",
        &[
            ("tool_call_id", text(tool_call_id)),
            ("name", text("read_file")),
            ("input", text("{}")),
        ],
    )
}

fn result_row(id: i64, tool_call_id: &str, call: i64) -> Block {
    row(
        id,
        "tool_result",
        &[
            ("tool_call_id", text(tool_call_id)),
            ("content", text("ok")),
            ("call_block_id", Value::from(call)),
        ],
    )
}

fn error_row(id: i64, tool_call_id: &str, call: i64, error: &str) -> Block {
    row(
        id,
        "tool_error",
        &[
            ("tool_call_id", text(tool_call_id)),
            ("error", text(error)),
            ("call_block_id", Value::from(call)),
        ],
    )
}

fn block_named(ledger: &[Block], block_id: i64) -> &Block {
    ledger
        .iter()
        .find(|block| block.id == block_id)
        .expect("the ledger holds the block")
}

fn stored_kind(ledger: &[Block], block_id: i64) -> BlockKind {
    BlockKind::from_block(block_named(ledger, block_id))
}

fn wakeup(call_block_id: i64) -> Run {
    Run {
        done: false,
        wakeup: Some(Wakeup::ToolCallReady { call_block_id }),
    }
}

#[test]
fn every_stored_type_parses_to_its_variant() {
    assert!(matches!(kind("text", None), BlockKind::Text(_)));
    assert!(matches!(kind("quote", None), BlockKind::Quote(_)));
    assert!(matches!(kind("code", None), BlockKind::Code(_)));
    assert!(matches!(kind("thinking", None), BlockKind::Thinking(_)));
    assert!(matches!(kind("tool_call", None), BlockKind::ToolCall(_)));
    assert!(matches!(
        kind("tool_result", None),
        BlockKind::ToolResult(_)
    ));
    assert!(matches!(kind("tool_error", None), BlockKind::ToolError(_)));
    assert!(matches!(kind("status", None), BlockKind::Status(_)));
    assert!(matches!(
        kind("system_prompt", None),
        BlockKind::SystemPrompt(_)
    ));
    assert!(matches!(kind("streaming", None), BlockKind::Streaming(_)));
    assert!(matches!(
        kind("streaming_thinking", None),
        BlockKind::StreamingThinking(_)
    ));
    assert!(matches!(
        kind("streaming_tool_call", None),
        BlockKind::StreamingToolCall(_)
    ));
    assert!(matches!(
        kind("approval_request", None),
        BlockKind::ApprovalRequest(_)
    ));
    assert!(matches!(
        kind("approval_decision", None),
        BlockKind::ApprovalDecision(_)
    ));
    assert!(matches!(
        kind("date_marker", None),
        BlockKind::DateMarker(_)
    ));
    assert!(matches!(
        kind("title_request", None),
        BlockKind::MetadataTitleRequest(_)
    ));
    assert!(matches!(
        kind("title_response", None),
        BlockKind::MetadataTitleResponse(_)
    ));
    assert!(matches!(
        kind("harness_message", None),
        BlockKind::HarnessMessage(_)
    ));
    assert!(matches!(
        kind("ancestor_reference", None),
        BlockKind::AncestorReference(_)
    ));
    assert!(matches!(
        kind("tool_choice", None),
        BlockKind::ToolChoice(_)
    ));
    assert!(matches!(
        kind(UNREGISTERED_TYPE, None),
        BlockKind::Unknown(_)
    ));
}

#[test]
fn user_authored_blocks_await_the_model() {
    for block_type in AUTHORED_TYPES {
        assert_eq!(
            kind(block_type, Some(Role::User)).awaiting(),
            Some(Awaiting::Model)
        );
    }
}

#[test]
fn non_user_authored_blocks_await_nothing() {
    for block_type in AUTHORED_TYPES {
        for role in [
            Some(Role::Assistant),
            Some(Role::System),
            Some(Role::Tool),
            None,
        ] {
            assert_eq!(kind(block_type, role).awaiting(), None);
        }
    }
}

#[test]
fn the_harness_message_asks_the_model_for_a_turn() {
    for role in [Some(Role::System), None] {
        assert_eq!(
            kind(HarnessMessage::kinds()[0], role).awaiting(),
            Some(Awaiting::Model),
            "the ask is the KIND's, not the voice's"
        );
    }
}

#[test]
fn the_tool_choice_is_a_record_and_behaves_like_one() {
    let recorded = kind(ToolChoice::kinds()[0], None);
    assert_eq!(recorded.awaiting(), None, "a record asks nobody");
    assert_eq!(
        recorded.llm_parts(),
        None,
        "a record shows the model nothing"
    );
    assert_eq!(recorded.llm_text(), None);
    assert!(
        recorded.frontier_transparent(),
        "the frontier reads through it, or a message behind one is owed by nobody"
    );
}

#[test]
fn system_voiced_prose_states_and_asks_for_nothing() {
    for block_type in AUTHORED_TYPES {
        assert_eq!(
            kind(block_type, Some(Role::System)).awaiting(),
            None,
            "{block_type} in the harness's voice summons nothing"
        );
    }
}

#[test]
fn inert_kinds_have_no_ask() {
    for block_type in INERT_TYPES {
        assert_eq!(kind(block_type, Some(Role::Assistant)).awaiting(), None);
    }
}

#[test]
fn tool_outcomes_await_the_model() {
    assert_eq!(kind("tool_result", None).awaiting(), Some(Awaiting::Model));
    assert_eq!(kind("tool_error", None).awaiting(), Some(Awaiting::Model));
}

#[test]
fn metadata_request_awaits_the_system_and_the_response_awaits_nothing() {
    assert_eq!(
        kind("title_request", None).awaiting(),
        Some(Awaiting::System)
    );
    assert_eq!(kind("title_response", None).awaiting(), None);
}

#[test]
fn regular_call_awaits_the_system_interactive_awaits_the_user() {
    assert_eq!(
        kind("tool_call", Some(Role::Assistant)).awaiting(),
        Some(Awaiting::System)
    );

    let mut block = bare_block("tool_call", Some(Role::Assistant));
    block
        .fields
        .insert("interactive".into(), serde_json::Value::Bool(true));
    assert_eq!(
        BlockKind::from_block(&block).awaiting(),
        Some(Awaiting::User)
    );
}

#[test]
fn inert_and_model_owed_kinds_run_done_and_silent() {
    for block_type in INERT_TYPES.into_iter().chain(AUTHORED_TYPES).chain([
        "tool_result",
        "tool_error",
        UNREGISTERED_TYPE,
    ]) {
        assert_eq!(
            kind(block_type, Some(Role::User)).run(&[]),
            DONE,
            "{block_type} must run trivially done"
        );
    }
}

#[test]
fn every_kind_defaults_gate_and_post_gate_inert() {
    for block_type in INERT_TYPES.into_iter().chain(AUTHORED_TYPES).chain([
        "tool_call",
        "tool_result",
        "tool_error",
        UNREGISTERED_TYPE,
    ]) {
        let k = kind(block_type, Some(Role::User));
        assert_eq!(k.gate(), GateDecision::Proceed);
        assert_eq!(k.post_gate_id(&[]), None);
        let deferred = if block_type == "tool_call" {
            Some(Wakeup::ToolCallReady { call_block_id: 1 })
        } else {
            None
        };
        assert_eq!(k.run_post_gate(&[]), deferred);
    }
}

#[test]
fn unknown_type_is_fully_inert() {
    let k = kind(UNREGISTERED_TYPE, Some(Role::User));
    assert!(matches!(k, BlockKind::Unknown(_)));
    assert_eq!(k.awaiting(), None);
    assert_eq!(k.run(&[]), DONE);
}

#[test]
fn exactly_the_streaming_kinds_are_ephemeral() {
    for stored in ["streaming", "streaming_thinking", "streaming_tool_call"] {
        assert!(
            !kind(stored, Some(Role::Assistant)).durable(),
            "{stored} must be ephemeral: its row is deleted at finalize, so a \
             cursor anchored on it dies with it"
        );
    }
    for stored in ["text", "thinking", "status", "tool_call", UNREGISTERED_TYPE] {
        assert!(
            kind(stored, Some(Role::Assistant)).durable(),
            "{stored} is a durable row and the cursor may anchor on it"
        );
    }
}

#[test]
fn exactly_the_system_prompt_heads_the_ledger() {
    for stored in BlockKind::claimed_kinds()
        .iter()
        .copied()
        .chain([UNREGISTERED_TYPE])
    {
        assert_eq!(
            kind(stored, None).heads_the_ledger(),
            stored == SystemPrompt::kinds()[0],
            "{stored} answers for itself whether a conversation opens with it"
        );
    }
}

#[test]
fn unresolved_tool_call_parks_and_emits_the_wakeup() {
    let ledger = vec![call_row(7, "call_1")];
    let call = stored_kind(&ledger, 7);
    assert_eq!(call.awaiting(), Some(Awaiting::System));
    assert_eq!(call.run(&ledger), wakeup(7));
}

#[test]
fn matching_result_settles_the_call_silently() {
    let ledger = vec![call_row(7, "call_1"), result_row(8, "call_1", 7)];
    assert_eq!(stored_kind(&ledger, 7).run(&ledger), DONE);
}

#[test]
fn matching_error_settles_the_call_silently() {
    let ledger = vec![call_row(7, "call_1"), error_row(8, "call_1", 7, "boom")];
    assert_eq!(stored_kind(&ledger, 7).run(&ledger), DONE);
}

#[test]
fn unrelated_result_never_settles_a_call() {
    let ledger = vec![
        call_row(1, "call_1"),
        call_row(2, "call_2"),
        result_row(3, "call_2", 2),
        call_row(4, "call_3"),
        error_row(5, "call_3", 4, "boom"),
    ];
    assert_eq!(stored_kind(&ledger, 1).run(&ledger), wakeup(1));
}

#[test]
fn a_result_preceding_the_call_does_not_settle_it() {
    let ledger = vec![
        call_row(1, "call_1"),
        result_row(2, "call_1", 1),
        call_row(3, "call_1"),
    ];
    assert_eq!(stored_kind(&ledger, 3).run(&ledger), wakeup(3));
}

#[test]
fn two_calls_sharing_one_echo_resolve_only_through_their_own_result() {
    let mut ledger = vec![
        call_row(1, "dup"),
        call_row(2, "dup"),
        result_row(3, "dup", 1),
    ];
    let call_kind = |id: i64| match BlockKind::from_block(block_named(&ledger, id)) {
        BlockKind::ToolCall(call) => call,
        _ => panic!("expected a tool call"),
    };
    let first = call_kind(1);
    let second = call_kind(2);
    assert!(
        first.resolved_in(&ledger),
        "the first call takes its own result"
    );
    assert!(
        !second.resolved_in(&ledger),
        "and the shared echo does not settle the second call"
    );

    ledger.push(error_row(4, "dup", 2, "boom"));
    assert!(matches!(
        first.outcome_in(&ledger),
        Some(CallOutcome::Result(result)) if result.content == "ok"
    ));
    assert!(matches!(
        second.outcome_in(&ledger),
        Some(CallOutcome::Error(error)) if error.error == "boom"
    ));
}

#[test]
fn the_outcome_reading_answers_result_error_and_pending() {
    let ledger = vec![
        call_row(1, "pending"),
        call_row(2, "done"),
        call_row(3, "broken"),
        result_row(4, "done", 2),
        error_row(5, "broken", 3, "it broke"),
    ];
    let outcome = |id: i64| {
        let BlockKind::ToolCall(call) = BlockKind::from_block(block_named(&ledger, id)) else {
            panic!("expected a tool call");
        };
        call.outcome_in(&ledger)
    };
    assert!(outcome(1).is_none(), "nothing has answered it yet");
    assert!(matches!(outcome(2), Some(CallOutcome::Result(_))));
    assert!(matches!(outcome(3), Some(CallOutcome::Error(_))));
}

#[test]
fn an_outcome_that_names_no_row_is_matched_by_the_providers_id() {
    let mut result = result_row(2, "call_1", 0);
    result.fields.remove("call_block_id");
    let ledger = vec![call_row(1, "call_1"), result];
    assert_eq!(stored_kind(&ledger, 1).run(&ledger), DONE);
}

#[test]
fn a_call_without_an_id_matches_nothing() {
    let mut result = result_row(2, "", 0);
    result.fields.remove("call_block_id");
    result.fields.remove("tool_call_id");
    let ledger = vec![row(1, "tool_call", &[]), result];
    assert_eq!(stored_kind(&ledger, 1).run(&ledger), wakeup(1));
}

#[test]
fn interactive_call_runs_done_and_stays_silent() {
    let mut block = bare_block("tool_call", Some(Role::Assistant));
    block.fields.insert(
        "tool_call_id".into(),
        serde_json::Value::String("call_1".into()),
    );
    block
        .fields
        .insert("interactive".into(), serde_json::Value::Bool(true));
    let call = BlockKind::from_block(&block);

    assert_eq!(call.awaiting(), Some(Awaiting::User));
    assert_eq!(call.run_reads(), None);
    assert_eq!(call.run(&[]), DONE);
}

#[test]
fn approval_blocks_await_an_out_of_band_action_and_run_inert() {
    for block_type in ["approval_request", "approval_decision"] {
        let k = kind(block_type, Some(Role::User));
        assert_eq!(k.awaiting(), Some(Awaiting::OutOfBand));
        assert_eq!(k.run(&[]), DONE, "{block_type} runs inert-true");
    }
}

/// A call in row 1, its approval request in row 2, and the decision, where
/// there is one, in row 3.
fn approval_chain(decision: Option<ApprovalChoice>) -> Vec<Block> {
    let mut ledger = vec![
        call_row(1, "call_1"),
        row(2, "approval_request", &[("for_block_id", Value::from(1))]),
    ];
    if let Some(choice) = decision {
        ledger.push(row(
            3,
            "approval_decision",
            &[
                ("for_block_id", Value::from(2)),
                ("decision", text(choice.as_str())),
            ],
        ));
    }
    ledger
}

fn post_gate_of(ledger: &[Block], block_id: i64) -> Option<i64> {
    stored_kind(ledger, block_id).post_gate_id(ledger)
}

#[test]
fn undecided_request_routes_nowhere() {
    let ledger = approval_chain(None);
    assert_eq!(post_gate_of(&ledger, 2), None);
}

#[test]
fn approved_chain_routes_decision_to_request_to_call() {
    let ledger = approval_chain(Some(ApprovalChoice::Approved));
    assert_eq!(post_gate_of(&ledger, 3), Some(2));
    assert_eq!(post_gate_of(&ledger, 2), Some(1));
}

#[test]
fn denied_chain_routes_nowhere() {
    let ledger = approval_chain(Some(ApprovalChoice::Denied));
    assert_eq!(post_gate_of(&ledger, 3), None);
    assert_eq!(post_gate_of(&ledger, 2), None);
}

#[test]
fn resolved_call_closes_the_approved_route() {
    let mut ledger = approval_chain(Some(ApprovalChoice::Approved));
    ledger.push(result_row(4, "call_1", 1));
    assert_eq!(post_gate_of(&ledger, 3), None);
    assert_eq!(post_gate_of(&ledger, 2), None);
}

#[test]
fn unrelated_result_does_not_close_the_approval_route() {
    let mut ledger = approval_chain(Some(ApprovalChoice::Approved));
    ledger.push(call_row(4, "call_2"));
    ledger.push(result_row(5, "call_2", 4));
    assert_eq!(post_gate_of(&ledger, 3), Some(2));
    assert_eq!(post_gate_of(&ledger, 2), Some(1));
}

#[test]
fn tool_call_run_post_gate_is_its_own_run() {
    let mut ledger = vec![call_row(1, "call_1")];
    let call = stored_kind(&ledger, 1);
    assert_eq!(
        call.run_post_gate(&ledger),
        Some(Wakeup::ToolCallReady { call_block_id: 1 })
    );

    ledger.push(result_row(2, "call_1", 1));
    assert_eq!(call.run_post_gate(&ledger), None);
}

#[test]
fn re_driving_an_unresolved_call_re_emits_until_the_result_lands() {
    let mut ledger = vec![call_row(1, "call_1")];
    let call = stored_kind(&ledger, 1);
    for _ in 0..3 {
        assert_eq!(call.run(&ledger), wakeup(1));
    }
    ledger.push(result_row(2, "call_1", 1));
    assert_eq!(call.run(&ledger), DONE);
}

#[test]
fn the_claim_lists_every_stored_type_once() {
    let claimed = BlockKind::claimed_kinds();
    assert_eq!(claimed.len(), 20);
    assert_eq!(claimed[0], "text");
    assert_eq!(claimed[19], "title_response");
    for (at, one) in claimed.iter().enumerate() {
        assert!(!claimed[at + 1..].contains(one), "{one} is claimed twice");
    }
}
