//! Drives over ledgers: where they resume, what they confirm, where they park
//! and what their frontier owes.

use agent_ledger::agency::ratchet::{
    drive_ledger, fresh_turn_anchor, frontier_block, frontier_owes_turn, resume_at,
    tail_needs_snapshot, ConversationLedger, Drive, LedgerSource, MetadataLedger, Outcome, Report,
};
use agent_ledger::agency::{redispatch, BlockKind, LedgerName, Wakeup};
use agent_ledger::block::{Awaiting, Block, Role};
use serde_json::Value;

fn ledger(ids: &[i64]) -> Vec<Block> {
    ids.iter()
        .map(|id| Block {
            id: *id,
            role: None,
            block_type: "text".into(),
            created_at: String::new(),
            dispatch_anchor: None,
            fields: serde_json::Map::new(),
        })
        .collect()
}

#[test]
fn an_ascending_ledger_resumes_at_the_cursors_own_block() {
    let ledger = ledger(&[1, 2, 3, 4]);
    assert_eq!(resume_at(&ledger, 0), 0, "nothing confirmed re-derives");
    assert_eq!(resume_at(&ledger, 3), 2);
    assert_eq!(resume_at(&ledger, 4), 3);
}

#[test]
fn a_ledger_whose_ids_descend_at_a_seam_still_resumes_at_the_cursor() {
    let ledger = ledger(&[100, 101, 102, 7, 8, 9]);
    assert_eq!(
        resume_at(&ledger, 9),
        5,
        "the cursor's own block is where the drive resumes"
    );
    assert_eq!(resume_at(&ledger, 8), 4);
}

#[test]
fn a_vanished_cursor_lands_on_what_followed_it() {
    let ledger = ledger(&[1, 2, 5, 6]);
    assert_eq!(resume_at(&ledger, 3), 2, "the block that followed it");
    assert_eq!(resume_at(&ledger, 99), 0, "past everything re-derives");
}

#[test]
fn a_vanished_inherited_cursor_re_derives_the_whole_compacted_thread() {
    let ledger = ledger(&[100, 101, 102, 7, 9]);
    let at = resume_at(&ledger, 8);
    assert_eq!(
        at, 0,
        "the id scan cannot see the seam, so the re-drive starts at the front"
    );
    assert!(
        ledger[at..].iter().any(|block| block.id == 9),
        "the block that followed the vanished row is inside the re-driven span, \
         which is the property the fallback owes"
    );
}

/// A conversation's two ledgers and their cursors, in memory.
struct Oracle {
    blocks: Vec<Block>,
    cursor: i64,
    metadata: Vec<Block>,
    metadata_cursor: i64,
    next_id: i64,
    wakeups: Vec<Wakeup>,
    writes: usize,
}

fn text(value: &str) -> Value {
    Value::String(value.into())
}

impl Oracle {
    fn new() -> Self {
        Self {
            blocks: Vec::new(),
            cursor: 0,
            metadata: Vec::new(),
            metadata_cursor: 0,
            next_id: 1,
            wakeups: Vec::new(),
            writes: 0,
        }
    }

    fn make(&mut self, block_type: &str, role: Option<Role>, fields: &[(&str, Value)]) -> Block {
        let mut block = ledger(&[self.next_id]).remove(0);
        self.next_id += 1;
        block.block_type = block_type.into();
        block.role = role;
        for (key, value) in fields {
            block.fields.insert((*key).to_string(), value.clone());
        }
        block
    }

    fn push(&mut self, block_type: &str, role: Option<Role>, fields: &[(&str, Value)]) -> i64 {
        let block = self.make(block_type, role, fields);
        let id = block.id;
        self.blocks.push(block);
        id
    }

    fn anchored(&mut self, id: i64, anchor: i64) -> i64 {
        let block = self.blocks.iter_mut().find(|block| block.id == id).unwrap();
        block.dispatch_anchor = Some(anchor);
        id
    }

    fn user_text(&mut self, content: &str) -> i64 {
        self.push("text", Some(Role::User), &[("content", text(content))])
    }

    fn assistant_text(&mut self, content: &str) -> i64 {
        self.push("text", Some(Role::Assistant), &[("content", text(content))])
    }

    fn status(&mut self, status: &str) -> i64 {
        self.push("status", None, &[("status", text(status))])
    }

    fn call(&mut self, tool_call_id: &str) -> i64 {
        self.push(
            "tool_call",
            Some(Role::Assistant),
            &[("tool_call_id", text(tool_call_id))],
        )
    }

    fn result(&mut self, tool_call_id: &str) -> i64 {
        let call = self
            .blocks
            .iter()
            .find(|block| {
                block.block_type == "tool_call" && block.fields["tool_call_id"] == tool_call_id
            })
            .unwrap()
            .id;
        self.push(
            "tool_result",
            Some(Role::Tool),
            &[
                ("tool_call_id", text(tool_call_id)),
                ("content", text("ok")),
                ("call_block_id", Value::from(call)),
            ],
        )
    }

    fn frontier(rows: &[Block]) -> Option<&Block> {
        let tail = rows.last();
        if tail_needs_snapshot::<BlockKind>(tail) {
            frontier_block::<BlockKind>(rows)
        } else {
            tail
        }
    }

    fn drive(&mut self) -> Outcome {
        let pass = drive_ledger::<BlockKind>(self.blocks.clone(), self.cursor, &self.blocks);
        self.writes += pass.writes.len();
        if let Some(last) = pass.writes.last() {
            self.cursor = *last;
        }
        self.wakeups.extend(&pass.wakeups);
        pass.outcome::<BlockKind>(Self::frontier(&self.blocks))
    }

    fn drive_metadata(&mut self) -> Outcome {
        let pass =
            drive_ledger::<BlockKind>(self.metadata.clone(), self.metadata_cursor, &self.metadata);
        if let Some(last) = pass.writes.last() {
            self.metadata_cursor = *last;
        }
        self.wakeups.extend(&pass.wakeups);
        pass.outcome::<BlockKind>(Self::frontier(&self.metadata))
    }

    fn metadata_row(&mut self, block_type: &str) -> i64 {
        let block = self.make(block_type, None, &[]);
        let id = block.id;
        self.metadata.push(block);
        id
    }

    fn expect_wakeup(&mut self, call_block_id: i64) {
        assert_eq!(
            self.wakeups.remove(0),
            Wakeup::ToolCallReady { call_block_id }
        );
    }

    fn expect_request_wakeup(&mut self, request_id: i64) {
        assert_eq!(
            self.wakeups.remove(0),
            Wakeup::MetadataRequestReady { request_id }
        );
    }

    fn expect_silence(&self) {
        assert!(self.wakeups.is_empty());
    }
}

#[test]
fn staggered_later_results_never_fire_while_the_earliest_dangles() {
    let mut o = Oracle::new();
    let user = o.user_text("run three things");
    let c1 = o.call("c1");
    o.call("c2");
    o.call("c3");

    let outcome = o.drive();
    assert!(!outcome.owes_turn);
    assert!(outcome.parked);
    assert_eq!(
        outcome.cursor, user,
        "cursor parks at or before the dangling first call"
    );
    o.expect_wakeup(c1);
    o.expect_silence();

    o.result("c3");
    o.result("c2");
    let outcome = o.drive();
    assert!(
        !outcome.owes_turn,
        "a later sibling's result must not green-light the turn"
    );
    assert!(outcome.parked);
    assert_eq!(outcome.cursor, user);
    o.expect_wakeup(c1);
    o.expect_silence();

    let r1 = o.result("c1");
    let outcome = o.drive();
    assert!(outcome.owes_turn);
    assert!(!outcome.parked);
    assert_eq!(outcome.cursor, r1);
    o.expect_silence();

    o.assistant_text("done");
    let outcome = o.drive();
    assert!(!outcome.owes_turn);
    assert!(!outcome.parked);
}

#[test]
fn in_order_resolution_first_result_alone_does_not_fire() {
    let mut o = Oracle::new();
    o.user_text("two calls");
    let c1 = o.call("c1");
    let c2 = o.call("c2");

    o.drive();
    o.expect_wakeup(c1);

    o.result("c1");
    let outcome = o.drive();
    assert!(!outcome.owes_turn, "the first result alone must not fire");
    assert!(outcome.parked);
    assert_eq!(outcome.cursor, c1, "cursor confirmed the resolved call");
    o.expect_wakeup(c2);
    o.expect_silence();

    let r2 = o.result("c2");
    let outcome = o.drive();
    assert!(outcome.owes_turn);
    assert_eq!(outcome.cursor, r2);
}

#[test]
fn single_call_parks_then_fires_on_its_result() {
    let mut o = Oracle::new();
    o.user_text("one call");
    let c1 = o.call("c1");

    let outcome = o.drive();
    assert!(!outcome.owes_turn);
    assert!(outcome.parked);
    o.expect_wakeup(c1);

    let r1 = o.result("c1");
    let outcome = o.drive();
    assert!(outcome.owes_turn);
    assert!(!outcome.parked);
    assert_eq!(outcome.cursor, r1);
    o.expect_silence();
}

#[test]
fn crash_behind_a_persisted_block_re_drives_without_duplicating() {
    let mut o = Oracle::new();
    let user = o.user_text("hi");
    let c1 = o.call("c1");
    o.drive();
    o.expect_wakeup(c1);

    let r1 = o.result("c1");
    assert_eq!(o.cursor, user);
    let before = o.blocks.len();

    let outcome = o.drive();
    assert_eq!(o.blocks.len(), before, "re-drive appends nothing");
    assert_eq!(outcome.cursor, r1, "cursor caught up to the tail");
    assert!(outcome.owes_turn);
    o.expect_silence();
}

#[test]
fn full_ledger_inclusive_redrive_repeated_changes_nothing() {
    let mut o = Oracle::new();
    o.user_text("hi");
    o.call("c1");
    o.result("c1");
    let tail = o.assistant_text("done");

    let mut outcomes = Vec::new();
    for _ in 0..3 {
        o.cursor = 0;
        outcomes.push(o.drive());
    }
    assert!(outcomes.iter().all(|out| *out == outcomes[0]));
    assert_eq!(outcomes[0].cursor, tail);
    assert!(!outcomes[0].owes_turn, "an assistant tail rests");
    o.expect_silence();
}

#[test]
fn driving_again_writes_no_cursor() {
    let mut o = Oracle::new();
    o.user_text("hi");
    o.call("c1");
    o.result("c1");
    let first = o.drive();
    assert_eq!(o.writes, 3);
    let second = o.drive();
    assert_eq!(o.writes, 3, "the second drive confirmed nothing anew");
    assert_eq!(first, second);
}

#[test]
fn legacy_cursor_zero_re_derives_cleanly() {
    let mut o = Oracle::new();
    o.user_text("hi");
    o.call("c1");
    o.result("c1");
    o.assistant_text("done");
    let user2 = o.user_text("and now?");

    assert_eq!(o.cursor, 0);
    let outcome = o.drive();
    assert!(outcome.owes_turn);
    assert!(!outcome.parked);
    assert_eq!(outcome.cursor, user2);
    o.expect_silence();
}

#[test]
fn stale_anchor_re_derives_from_the_start() {
    let mut o = Oracle::new();
    let user = o.user_text("hi");

    o.cursor = 999_999;
    let outcome = o.drive();
    assert_eq!(outcome.cursor, user);
    assert!(outcome.owes_turn);
    o.expect_silence();
}

fn long_history(o: &mut Oracle) -> i64 {
    let mut last = 0;
    for turn in 0..20 {
        o.user_text(&format!("ask {turn}"));
        last = o.assistant_text(&format!("answer {turn}"));
    }
    last
}

#[test]
fn the_cursor_never_anchors_on_a_streaming_row() {
    let mut o = Oracle::new();
    let durable_tail = long_history(&mut o);
    assert_eq!(o.drive().cursor, durable_tail);

    let streaming = o.push("streaming", Some(Role::Assistant), &[]);

    let outcome = o.drive();
    assert!(!outcome.parked, "an ephemeral tail parks nothing");
    assert_ne!(
        outcome.cursor, streaming,
        "the cursor must not anchor to a row its finalization will delete"
    );
    assert_eq!(outcome.cursor, durable_tail);
    assert_eq!(o.cursor, durable_tail);
}

#[test]
fn a_streaming_finalize_costs_one_cursor_write_not_the_ledger_length() {
    let mut o = Oracle::new();
    let durable_tail = long_history(&mut o);
    o.drive();

    o.push("streaming", Some(Role::Assistant), &[]);
    o.drive();
    assert_eq!(o.cursor, durable_tail);

    o.blocks.pop();
    let finalized = o.assistant_text("streamed and settled");

    let before = o.writes;
    let outcome = o.drive();
    assert_eq!(outcome.cursor, finalized);
    assert_eq!(
        o.writes - before,
        1,
        "only the newly appended tail was confirmed"
    );
}

#[test]
fn a_vanished_anchor_re_drives_only_the_tail_after_it() {
    let mut o = Oracle::new();
    long_history(&mut o);
    o.drive();

    let streaming = o.push("streaming", Some(Role::Assistant), &[]);
    o.cursor = streaming;
    o.blocks.pop();
    let finalized = o.assistant_text("streamed and settled");

    let before = o.writes;
    let outcome = o.drive();
    assert_eq!(outcome.cursor, finalized, "the drive caught up to the tail");
    assert_eq!(
        o.writes - before,
        1,
        "the vanished anchor cost the tail after it, not the history"
    );
}

#[test]
fn user_text_tail_fires() {
    let mut o = Oracle::new();
    let user = o.user_text("hello");
    let outcome = o.drive();
    assert!(outcome.owes_turn);
    assert!(!outcome.parked);
    assert_eq!(outcome.cursor, user);
}

#[test]
fn the_ratchet_sails_past_a_date_marker() {
    let mut o = Oracle::new();
    o.push("date_marker", None, &[("date", text("2026-08-27"))]);
    let user = o.user_text("hi");

    let outcome = o.drive();
    assert!(outcome.owes_turn, "the marker never masks the owed turn");
    assert!(!outcome.parked, "…and never parks the cursor");
    assert_eq!(
        outcome.cursor, user,
        "the cursor drained past the marker to the tail"
    );
    o.expect_silence();
}

#[test]
fn assistant_text_tail_rests() {
    let mut o = Oracle::new();
    o.user_text("hello");
    let tail = o.assistant_text("hi");
    let outcome = o.drive();
    assert!(!outcome.owes_turn);
    assert!(!outcome.parked);
    assert_eq!(outcome.cursor, tail);
}

#[test]
fn interrupted_status_tail_caps_the_frontier() {
    let mut o = Oracle::new();
    o.user_text("hello");
    let tail = o.status("interrupted");
    let outcome = o.drive();
    assert!(!outcome.owes_turn, "no turn fires past a status cap");
    assert!(!outcome.parked, "the cap is cursor-inert — nothing is owed");
    assert_eq!(outcome.cursor, tail);
}

#[test]
fn a_cap_committed_during_the_drive_caps_the_frontier() {
    let mut o = Oracle::new();
    let user = o.user_text("hello");

    let pass = drive_ledger::<BlockKind>(o.blocks.clone(), o.cursor, &o.blocks);
    o.cursor = *pass.writes.last().unwrap();
    let cap = o.status("interrupted");
    let outcome = pass.outcome::<BlockKind>(Oracle::frontier(&o.blocks));

    assert!(
        !outcome.owes_turn,
        "no turn fires past a cap the drive had not seen when it started"
    );
    assert_eq!(outcome.awaiting, None, "the frontier reads the fresh tail");
    assert!(!outcome.parked, "parked stays the drive's own answer");
    assert_eq!(outcome.cursor, user, "the cap itself is not yet confirmed");

    let outcome = o.drive();
    assert!(!outcome.owes_turn);
    assert_eq!(outcome.cursor, cap);
}

#[test]
fn user_message_after_a_status_cap_fires_again() {
    let mut o = Oracle::new();
    o.user_text("hello");
    o.status("interrupted");
    assert!(!o.drive().owes_turn);

    let user = o.user_text("continue");
    let outcome = o.drive();
    assert!(outcome.owes_turn);
    assert_eq!(outcome.cursor, user);
}

#[test]
fn approval_request_tail_rests() {
    let mut o = Oracle::new();
    o.user_text("go");
    let call = o.call("c1");
    o.result("c1");
    let request = o.push(
        "approval_request",
        None,
        &[("for_block_id", Value::from(call))],
    );

    let outcome = o.drive();
    assert!(
        !outcome.owes_turn,
        "a tail awaiting a human's out-of-band action never fires a turn"
    );
    assert_eq!(outcome.awaiting, Some(Awaiting::OutOfBand));
    assert!(!outcome.parked, "the request is cursor-inert");
    assert_eq!(outcome.cursor, request);
    o.expect_silence();
}

#[test]
fn empty_ledger_rests() {
    let mut o = Oracle::new();
    let outcome = o.drive();
    assert_eq!(
        outcome,
        Outcome {
            cursor: 0,
            owes_turn: false,
            parked: false,
            awaiting: None
        }
    );
}

#[test]
fn model_owed_tail_behind_a_dangling_call_waits_for_the_drain() {
    let mut o = Oracle::new();
    o.user_text("go");
    let c1 = o.call("c1");
    o.call("other");
    o.result("other");

    let outcome = o.drive();
    assert!(
        !outcome.owes_turn,
        "the tail is model-owed but the cursor never reached it"
    );
    assert!(outcome.parked);
    o.expect_wakeup(c1);

    let r1 = o.result("c1");
    let outcome = o.drive();
    assert!(outcome.owes_turn);
    assert_eq!(outcome.cursor, r1);
    o.expect_silence();
}

#[test]
fn mid_ledger_model_owed_block_behind_later_dangling_call_does_not_fire() {
    let mut o = Oracle::new();
    o.user_text("go");
    o.call("c1");
    let r1 = o.result("c1");
    let c2 = o.call("c2");

    let outcome = o.drive();
    assert!(!outcome.owes_turn);
    assert!(outcome.parked);
    assert_eq!(
        outcome.cursor, r1,
        "cursor confirmed the resolved pair, parked on the second call"
    );
    o.expect_wakeup(c2);
    o.expect_silence();
}

#[test]
fn title_request_parks_the_metadata_ratchet_until_its_response() {
    let mut o = Oracle::new();
    let request = o.metadata_row("title_request");

    for _ in 0..3 {
        let outcome = o.drive_metadata();
        assert!(outcome.parked);
        assert!(!outcome.owes_turn);
        assert_eq!(outcome.cursor, 0, "the cursor stays before the request");
        o.expect_request_wakeup(request);
        o.expect_silence();
    }
    assert_eq!(o.metadata_cursor, 0);

    let response = o.metadata_row("title_response");
    let outcome = o.drive_metadata();
    assert!(!outcome.parked);
    assert!(
        !outcome.owes_turn,
        "the metadata frontier never owes a model turn"
    );
    assert_eq!(outcome.cursor, response);
    assert_eq!(o.metadata_cursor, response);
    o.expect_silence();

    let outcome = o.drive_metadata();
    assert_eq!(outcome.cursor, response);
    o.expect_silence();
}

#[test]
fn one_response_settles_one_request_and_the_next_still_parks() {
    let mut o = Oracle::new();
    let first = o.metadata_row("title_request");
    let second = o.metadata_row("title_request");
    o.metadata_row("title_response");

    let outcome = o.drive_metadata();
    assert!(outcome.parked, "the second request is still outstanding");
    assert_eq!(
        outcome.cursor, first,
        "the response settled the first request, and only it"
    );
    o.expect_request_wakeup(second);
    o.expect_silence();

    let second_response = o.metadata_row("title_response");
    let outcome = o.drive_metadata();
    assert!(!outcome.parked);
    assert_eq!(outcome.cursor, second_response);
    o.expect_silence();
}

#[test]
fn unknown_metadata_type_is_inert_and_confirmed() {
    let mut o = Oracle::new();
    let row = o.metadata_row("summary_request");

    let outcome = o.drive_metadata();
    assert!(!outcome.parked);
    assert_eq!(outcome.cursor, row);
    o.expect_silence();
}

#[test]
fn the_two_cursors_never_interact() {
    let mut o = Oracle::new();

    o.user_text("hi");
    let request = o.metadata_row("title_request");
    let reply = o.assistant_text("yo");

    let outcome = o.drive();
    assert_eq!(outcome.cursor, reply);
    assert_eq!(
        o.metadata_cursor, 0,
        "the conversation drive never touches the metadata cursor"
    );
    o.expect_silence();

    let outcome = o.drive_metadata();
    assert!(outcome.parked);
    o.expect_request_wakeup(request);
    assert_eq!(
        o.cursor, reply,
        "the metadata drive never touches the conversation cursor"
    );

    let response = o.metadata_row("title_response");
    let user2 = o.user_text("more");

    let outcome = o.drive_metadata();
    assert_eq!(outcome.cursor, response);
    assert_eq!(o.cursor, reply, "conversation cursor still untouched");

    let outcome = o.drive();
    assert_eq!(outcome.cursor, user2);
    assert_eq!(
        o.metadata_cursor, response,
        "metadata cursor still untouched"
    );
    o.expect_silence();
}

#[test]
fn a_drive_writes_durable_done_rows_in_order() {
    let mut o = Oracle::new();
    let first = o.user_text("hi");
    o.push("streaming", Some(Role::Assistant), &[]);
    let third = o.assistant_text("yo");
    o.call("c1");
    o.user_text("more");
    let pass = drive_ledger::<BlockKind>(o.blocks.clone(), first, &o.blocks);
    assert_eq!(
        pass.writes,
        vec![third],
        "not the cursor it holds, not the tail that goes, not the call that is owed"
    );
    assert_eq!(pass.cursor, third);
    assert!(pass.parked);
}

#[test]
fn the_two_ledgers_are_told_apart() {
    assert_eq!(ConversationLedger.ledger(), LedgerName::Conversation);
    assert_eq!(MetadataLedger.ledger(), LedgerName::Metadata);
}

#[test]
fn a_drive_steps_and_parks_on_a_failure() {
    let mut o = Oracle::new();
    let first = o.user_text("hi");
    o.user_text("again");
    let mut drive = Drive::begin(o.blocks.clone(), 0);
    assert_eq!(drive.current().unwrap().id, first);
    assert_eq!(drive.report::<BlockKind>(Report::Done), Some(first));
    assert_eq!(drive.report::<BlockKind>(Report::Failed), None);
    assert!(drive.current().is_none(), "a failure parks the drive");
    let outcome = drive.outcome::<BlockKind>(o.blocks.last());
    assert_eq!(
        outcome,
        Outcome {
            cursor: first,
            owes_turn: false,
            parked: true,
            awaiting: Some(Awaiting::Model),
        }
    );
}

#[test]
fn a_message_absorbed_by_a_dead_turn_is_the_frontier() {
    let mut o = Oracle::new();
    let summons = o.user_text("go");
    let call = o.call("c1");
    o.anchored(call, summons);
    let absorbed = o.user_text("and this");
    let result = o.result("c1");
    o.anchored(result, summons);
    let marker = o.status("turn_ended:closed");
    o.anchored(marker, summons);

    let frontier = frontier_block::<BlockKind>(&o.blocks).unwrap();
    assert_eq!(frontier.id, absorbed);
    assert!(frontier_owes_turn::<BlockKind>(frontier));
    assert_eq!(fresh_turn_anchor(&o.blocks, frontier), absorbed);
}

#[test]
fn a_dead_turns_own_summons_is_not_dispatched_again() {
    let mut o = Oracle::new();
    let summons = o.user_text("go");
    let call = o.call("c1");
    o.anchored(call, summons);
    let result = o.result("c1");
    o.anchored(result, summons);
    let marker = o.status("turn_ended:errored");
    o.anchored(marker, summons);

    let frontier = frontier_block::<BlockKind>(&o.blocks).unwrap();
    assert_eq!(frontier.id, marker, "the frontier rests on the marker");
    assert!(!frontier_owes_turn::<BlockKind>(frontier));
}

#[test]
fn a_tool_choice_does_not_bury_the_message_behind_it() {
    let mut o = Oracle::new();
    let user = o.user_text("hi");
    o.push("tool_choice", None, &[("names", Value::Array(vec![]))]);
    assert_eq!(frontier_block::<BlockKind>(&o.blocks).unwrap().id, user);
    assert!(o.drive().owes_turn);
}

#[test]
fn a_released_turn_is_resumed_past_an_absorbed_message() {
    let mut o = Oracle::new();
    let summons = o.user_text("go");
    let call = o.call("c1");
    o.anchored(call, summons);
    let result = o.result("c1");
    o.anchored(result, summons);
    o.user_text("absorbed");

    let frontier = frontier_block::<BlockKind>(&o.blocks).unwrap();
    assert_eq!(fresh_turn_anchor(&o.blocks, frontier), summons);
}

#[test]
fn an_approval_walks_from_its_decision_to_the_call() {
    let mut o = Oracle::new();
    let call = o.call("c1");
    let request = o.push(
        "approval_request",
        None,
        &[("for_block_id", Value::from(call))],
    );
    assert!(redispatch::walk::<BlockKind>(&o.blocks).is_empty());
    o.push(
        "approval_decision",
        None,
        &[
            ("for_block_id", Value::from(request)),
            ("decision", text("approved")),
        ],
    );
    assert_eq!(redispatch::walk::<BlockKind>(&o.blocks), vec![0, 1, 2]);

    o.result("c1");
    assert!(
        redispatch::walk::<BlockKind>(&o.blocks).is_empty(),
        "the outcome closes the route"
    );
    assert!(redispatch::walk::<BlockKind>(&[]).is_empty());
}
