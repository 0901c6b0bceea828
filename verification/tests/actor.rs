//! A conversation's actor over a ledger in memory: what it dispatches and as
//! which turn, what its closes keep and what they store.

use agent_ledger::actor::event::{CoreEvent, StopReason};
use agent_ledger::actor::turn::{
    Close, CloseEdge, ConversationActor, Delivery, Handling, Readiness, HEADLESS_LEDGER,
};
use agent_ledger::agency::{BlockKind, ToolChoice};
use agent_ledger::block::{Block, Role};
use serde_json::Value;

const LIMIT: usize = 5;

fn text(value: &str) -> Value {
    Value::String(value.into())
}

/// One conversation: its ledger, its actor and how often it was told to look
/// again.
struct Talk {
    blocks: Vec<Block>,
    actor: ConversationActor,
    rechecks: usize,
    requests: usize,
}

fn fresh_actor() -> ConversationActor {
    let mut actor = ConversationActor::new(1);
    actor.handle_unlatch();
    actor
}

impl Talk {
    fn new() -> Self {
        let mut talk = Self {
            blocks: Vec::new(),
            actor: fresh_actor(),
            rechecks: 0,
            requests: 0,
        };
        talk.push("system_prompt", None, None, &[("content", text("be brief"))]);
        talk
    }

    fn push(
        &mut self,
        block_type: &str,
        role: Option<Role>,
        anchor: Option<i64>,
        fields: &[(&str, Value)],
    ) -> i64 {
        let id = self.blocks.len() as i64 + 1;
        let mut map = serde_json::Map::new();
        for (key, value) in fields {
            map.insert((*key).to_string(), value.clone());
        }
        self.blocks.push(Block {
            id,
            role,
            block_type: block_type.into(),
            created_at: String::new(),
            dispatch_anchor: anchor,
            fields: map,
        });
        id
    }

    fn user(&mut self, content: &str) -> i64 {
        self.push("text", Some(Role::User), None, &[("content", text(content))])
    }

    fn answer(&mut self, content: &str, anchor: Option<i64>) -> i64 {
        self.push(
            "text",
            Some(Role::Assistant),
            anchor,
            &[("content", text(content))],
        )
    }

    fn call(&mut self, id: &str, anchor: i64, interactive: bool) -> i64 {
        self.push(
            "tool_call",
            Some(Role::Assistant),
            Some(anchor),
            &[
                ("tool_call_id", text(id)),
                ("name", text("echo")),
                ("input", text("{}")),
                ("interactive", Value::Bool(interactive)),
            ],
        )
    }

    fn result(&mut self, id: &str, call: i64, ends_turn: bool) -> i64 {
        let anchor = self.blocks[call as usize - 1].dispatch_anchor;
        self.push(
            "tool_result",
            Some(Role::User),
            anchor,
            &[
                ("tool_call_id", text(id)),
                ("content", text("ok")),
                ("call_block_id", Value::from(call)),
                ("ends_turn", Value::Bool(ends_turn)),
            ],
        )
    }

    fn failure(&mut self, id: &str, call: i64, refusal: bool) -> i64 {
        let anchor = self.blocks[call as usize - 1].dispatch_anchor;
        self.push(
            "tool_error",
            Some(Role::User),
            anchor,
            &[
                ("tool_call_id", text(id)),
                ("error", text("no")),
                ("call_block_id", Value::from(call)),
                ("refusal", Value::Bool(refusal)),
            ],
        )
    }

    fn refused_rounds(&mut self, tag: &str, anchor: i64, count: usize) {
        for round in 0..count {
            let id = format!("{tag}-{round}");
            let call = self.call(&id, anchor, false);
            self.failure(&id, call, true);
        }
    }

    /// A turn is owed: look, and dispatch or end it.
    fn deliver(&mut self) -> Option<Delivery> {
        if self.actor.blocks_ready() != Readiness::Ready {
            return None;
        }
        let delivery = self
            .actor
            .handle_blocks_ready::<BlockKind>(&self.blocks, LIMIT);
        match delivery {
            Delivery::Dispatch { anchor } => {
                if !self.actor.ensure_provider(false) {
                    self.actor.bind_provider();
                }
                self.actor.dispatched(&self.blocks, anchor, true);
                self.requests += 1;
            }
            Delivery::Exhausted { anchor } => {
                self.push(
                    "status",
                    None,
                    Some(anchor),
                    &[("status", text("tool_calls_exhausted"))],
                );
                self.actor.end_turn_if_recorded(true);
            }
            _ => {}
        }
        Some(delivery)
    }

    /// Close the live stream, and store the end the close asks for.
    fn close(&mut self, edge: CloseEdge, abandoned: bool) -> Close {
        let close = self
            .actor
            .close_dispatch(edge, abandoned, Some(&self.blocks));
        if let Some(end) = close.end {
            self.push(
                "status",
                None,
                Some(end.anchor),
                &[("status", text(end.status))],
            );
        }
        if close.recheck {
            self.rechecks += 1;
        }
        close
    }

    fn stop(&mut self, reason: StopReason) -> Close {
        self.actor.handle_stream_done(Some(reason));
        self.close(CloseEdge::Closed, false)
    }

    fn markers(&self) -> Vec<(String, Option<i64>)> {
        self.blocks
            .iter()
            .filter(|block| block.block_type == "status")
            .map(|block| {
                (
                    block.fields["status"].as_str().unwrap().to_owned(),
                    block.dispatch_anchor,
                )
            })
            .collect()
    }
}

/// A summons, dispatched, with its stream live.
fn summoned() -> (Talk, i64) {
    let mut talk = Talk::new();
    let summons = talk.user("summons");
    assert_eq!(
        talk.deliver(),
        Some(Delivery::Dispatch { anchor: summons })
    );
    (talk, summons)
}

/// One round whose call has its result.
fn one_recorded_round() -> (Talk, i64) {
    let mut talk = Talk::new();
    let summons = talk.user("summons");
    let call = talk.call("call-r1", summons, false);
    talk.result("call-r1", call, false);
    (talk, summons)
}

#[test]
fn any_abandoned_mark_retires_the_binding_at_the_close() {
    let (mut talk, _) = summoned();
    assert!(talk.actor.bound);
    talk.close(CloseEdge::Closed, true);
    assert!(
        !talk.actor.bound,
        "the close retires the binding on any mark"
    );
}

#[test]
fn the_dispatch_state_closes_on_the_named_edges_only() {
    let (mut talk, _) = summoned();
    talk.actor.handle_stream_done(Some(StopReason::EndTurn));
    assert!(
        talk.actor.streaming,
        "message-end no longer settles the dispatch state"
    );
    assert_eq!(talk.deliver(), None);
    assert!(
        talk.actor.owed_turn_deferred,
        "a mid-turn delivery defers instead of dropping"
    );
    talk.close(CloseEdge::Closed, false);
    assert!(!talk.actor.streaming, "the closed signal is a close edge");
    assert!(!talk.actor.latched, "a normal close never re-latches");
    assert_eq!(talk.rechecks, 1, "the close re-runs the owed-turn check");
    assert!(
        !talk.actor.owed_turn_deferred,
        "the close consumes the deferral"
    );

    talk.deliver();
    assert!(talk.actor.streaming);
    talk.close(CloseEdge::Closed, false);
    assert_eq!(talk.rechecks, 1, "an undisturbed close nudges nothing");

    talk.deliver();
    talk.close(CloseEdge::Errored, false);
    assert!(!talk.actor.streaming);
    assert!(talk.actor.latched, "only the error edge latches");
}

#[test]
fn the_turn_identity_survives_only_a_tool_use_close() {
    let (mut talk, summons) = summoned();
    talk.call("call-open", summons, false);
    let base = talk.actor;

    talk.stop(StopReason::ToolUse);
    assert!(!talk.actor.streaming, "the stream itself closes");
    assert_eq!(
        talk.actor.open_turn,
        Some(summons),
        "a tool-use stop leaves the turn's identity open"
    );

    talk.actor = base;
    talk.close(CloseEdge::Closed, false);
    assert_eq!(
        talk.actor.open_turn, None,
        "a close with no recorded stop ends the turn"
    );

    talk.actor = base;
    talk.stop(StopReason::EndTurn);
    assert_eq!(talk.actor.open_turn, None, "the end-turn stop ends the turn");

    talk.actor = base;
    talk.actor.handle_stream_done(Some(StopReason::ToolUse));
    talk.close(CloseEdge::Errored, false);
    assert_eq!(talk.actor.open_turn, None, "the error edge ends the turn");

    talk.actor = base;
    talk.actor.handle_stream_done(Some(StopReason::ToolUse));
    talk.close(CloseEdge::Closed, true);
    assert_eq!(
        talk.actor.open_turn, None,
        "the abandoned close ends the turn"
    );

    talk.actor = base;
    talk.actor.handle_stream_done(Some(StopReason::ToolUse));
    let interrupt = talk.actor.handle_interrupt(false);
    assert_eq!(interrupt.anchor, Some(summons));
    assert!(interrupt.tell_provider);
    assert_eq!(talk.actor.open_turn, None, "the teardown ends the turn");
    assert!(talk.actor.latched, "and an interrupt holds the conversation");
    assert!(!talk.actor.bound);
}

#[test]
fn an_unread_ledger_takes_a_stop_for_tools_at_its_word() {
    let (mut talk, summons) = summoned();
    talk.actor.handle_stream_done(Some(StopReason::ToolUse));
    let close = talk.actor.close_dispatch(CloseEdge::Closed, false, None);
    assert!(close.end.is_none());
    assert_eq!(talk.actor.open_turn, Some(summons));

    let (mut talk, _) = summoned();
    talk.actor.handle_stream_done(Some(StopReason::MaxTokens));
    talk.actor.close_dispatch(CloseEdge::Closed, false, None);
    assert_eq!(talk.actor.open_turn, None);
}

#[test]
fn a_tool_use_close_ends_a_turn_owed_no_continuation() {
    let (mut talk, _) = summoned();
    talk.answer("hi", None);
    talk.stop(StopReason::ToolUse);
    assert_eq!(
        talk.actor.open_turn, None,
        "a tool-use close with nothing owing ends the turn"
    );

    let (mut talk, summons) = summoned();
    talk.call("call-other", summons + 1000, false);
    talk.stop(StopReason::ToolUse);
    assert_eq!(
        talk.actor.open_turn, None,
        "another turn's unresolved call keeps nothing"
    );
}

#[test]
fn a_lost_rounds_close_ends_the_turn_even_with_a_model_owed_tail() {
    let (mut talk, _) = summoned();
    talk.answer("hi", None);
    let absorbed = talk.user("absorbed");
    talk.stop(StopReason::ToolUse);
    assert_eq!(talk.actor.open_turn, None);
    talk.deliver();
    assert_eq!(
        talk.actor.turn_anchor,
        Some(absorbed),
        "the absorbed message's turn anchors on itself"
    );
    assert_eq!(talk.actor.open_turn, Some(absorbed));
}

#[test]
fn a_parked_interactive_call_does_not_hold_the_identity() {
    let (mut talk, summons) = summoned();
    talk.call("call-interactive", summons, true);
    talk.stop(StopReason::ToolUse);
    assert_eq!(
        talk.actor.open_turn, None,
        "a parked interactive call ends the identity"
    );
    let fresh = talk.user("fresh");
    talk.deliver();
    assert_eq!(
        talk.actor.turn_anchor,
        Some(fresh),
        "the fresh summons' turn never inherits the parked turn's identity"
    );

    let (mut talk, summons) = summoned();
    talk.call("", summons, false);
    talk.stop(StopReason::ToolUse);
    assert_eq!(
        talk.actor.open_turn, None,
        "a call no outcome can ever match ends the identity"
    );
}

#[test]
fn a_tool_use_close_keeps_the_turn_only_while_a_continuation_is_due() {
    let (mut talk, summons) = summoned();
    let call = talk.call("call-1", summons, false);
    talk.stop(StopReason::ToolUse);
    assert_eq!(
        talk.actor.open_turn,
        Some(summons),
        "an unresolved call bearing the turn's anchor keeps the identity"
    );

    talk.result("call-1", call, false);
    talk.user("absorbed");
    talk.stop(StopReason::ToolUse);
    assert_eq!(
        talk.actor.open_turn,
        Some(summons),
        "an outcome above the answered mark keeps the identity"
    );

    talk.deliver();
    assert!(talk.actor.streaming, "the continuation dispatched");
    assert_eq!(talk.actor.open_turn, Some(summons));
    assert_eq!(
        talk.actor.turn_anchor,
        Some(summons),
        "the absorbed message never re-anchors the continuation"
    );
    talk.stop(StopReason::ToolUse);
    assert_eq!(
        talk.actor.open_turn, None,
        "with every outcome answered and no call owed, the close ends the turn"
    );
}

#[test]
fn an_approval_resume_keeps_its_summons_past_an_absorbed_message() {
    let (mut talk, summons) = summoned();
    let call = talk.call("call-appr", summons, true);
    talk.stop(StopReason::ToolUse);
    assert_eq!(talk.actor.open_turn, None);
    talk.result("call-appr", call, false);
    talk.user("absorbed");
    talk.deliver();
    assert_eq!(
        talk.actor.turn_anchor,
        Some(summons),
        "the resumed continuation anchors the original summons"
    );
    assert_eq!(talk.actor.open_turn, Some(summons));
}

#[test]
fn a_fresh_actor_derives_the_open_turn_from_the_ledger_alone() {
    let (mut talk, summons) = one_recorded_round();
    talk.user("absorbed");
    talk.deliver();
    assert_eq!(talk.actor.turn_anchor, Some(summons));
    assert_eq!(talk.actor.open_turn, Some(summons));
}

#[test]
fn an_answered_outcome_never_captures_the_next_summons() {
    let (mut talk, summons) = one_recorded_round();
    talk.answer("done", Some(summons));
    let fresh = talk.user("fresh");
    talk.deliver();
    assert_eq!(talk.actor.turn_anchor, Some(fresh));
    assert_eq!(talk.actor.open_turn, Some(fresh));
}

#[test]
fn an_interrupted_turns_outcome_never_captures_the_next_summons() {
    let (mut talk, summons) = one_recorded_round();
    talk.push(
        "status",
        None,
        Some(summons),
        &[("status", text("interrupted"))],
    );
    let fresh = talk.user("fresh");
    talk.deliver();
    assert_eq!(talk.actor.turn_anchor, Some(fresh));
    assert_eq!(talk.actor.open_turn, Some(fresh));
}

#[test]
fn a_round_two_interactive_park_writes_the_turns_end() {
    let (mut talk, summons) = one_recorded_round();
    talk.deliver();
    assert_eq!(
        talk.actor.open_turn,
        Some(summons),
        "round two is the same turn"
    );
    assert_eq!(
        talk.actor.answered_outcomes, 1,
        "the round-one outcome is answered by this dispatch"
    );
    talk.call("call-r2", summons, true);
    talk.stop(StopReason::ToolUse);
    assert_eq!(talk.actor.open_turn, None);
    assert_eq!(
        talk.markers(),
        vec![("turn_ended:closed".to_owned(), Some(summons))]
    );
    let fresh = talk.user("fresh");
    talk.deliver();
    assert_eq!(talk.actor.turn_anchor, Some(fresh));
    assert_eq!(talk.actor.open_turn, Some(fresh));
}

#[test]
fn a_lost_round_two_writes_the_turns_end() {
    let (mut talk, summons) = one_recorded_round();
    talk.deliver();
    assert_eq!(talk.actor.open_turn, Some(summons));
    talk.stop(StopReason::ToolUse);
    assert_eq!(talk.actor.open_turn, None);
    assert_eq!(
        talk.markers(),
        vec![("turn_ended:closed".to_owned(), Some(summons))]
    );
    let fresh = talk.user("fresh");
    talk.deliver();
    assert_eq!(talk.actor.turn_anchor, Some(fresh));
}

#[test]
fn an_abandoned_close_after_a_result_writes_the_turns_end() {
    let (mut talk, summons) = one_recorded_round();
    talk.deliver();
    talk.actor.handle_stream_done(Some(StopReason::ToolUse));
    talk.close(CloseEdge::Closed, true);
    assert_eq!(talk.actor.open_turn, None);
    assert_eq!(
        talk.markers(),
        vec![("turn_ended:closed".to_owned(), Some(summons))]
    );
    let fresh = talk.user("fresh");
    talk.deliver();
    assert_eq!(talk.actor.turn_anchor, Some(fresh));
}

#[test]
fn an_error_close_after_a_result_writes_the_turns_end() {
    let (mut talk, summons) = one_recorded_round();
    talk.deliver();
    talk.close(CloseEdge::Errored, false);
    assert_eq!(talk.actor.open_turn, None);
    assert!(talk.actor.latched, "the error edge still latches");
    assert_eq!(
        talk.markers(),
        vec![("turn_ended:errored".to_owned(), Some(summons))]
    );
    talk.actor.handle_unlatch();
    let fresh = talk.user("fresh");
    talk.deliver();
    assert_eq!(talk.actor.turn_anchor, Some(fresh));
}

#[test]
fn the_captured_summons_shape_resolves_to_two_turns() {
    let (mut talk, summons) = one_recorded_round();
    talk.deliver();
    let call = talk.call("call-r2", summons, true);
    talk.stop(StopReason::ToolUse);
    let fresh = talk.user("fresh");
    talk.deliver();
    assert_eq!(
        talk.actor.turn_anchor,
        Some(fresh),
        "the once-captured summons has an identity of its own"
    );
    talk.answer("answered", Some(fresh));
    talk.stop(StopReason::EndTurn);
    assert_eq!(talk.actor.open_turn, None);
    talk.result("call-r2", call, false);
    talk.deliver();
    assert_eq!(
        talk.actor.turn_anchor,
        Some(summons),
        "the approval's outcome still resumes the original turn"
    );
    assert_eq!(talk.actor.open_turn, Some(summons));
    assert_eq!(
        talk.markers(),
        vec![("turn_ended:closed".to_owned(), Some(summons))],
        "one end, one marker: the answered fresh turn wrote none"
    );
}

#[test]
fn the_turn_end_marker_precedes_the_closes_re_check() {
    let (mut talk, summons) = one_recorded_round();
    talk.deliver();
    assert_eq!(talk.actor.open_turn, Some(summons));
    let absorbed = talk.user("absorbed");
    talk.deliver();
    assert!(talk.actor.owed_turn_deferred);
    talk.stop(StopReason::ToolUse);
    assert_eq!(talk.actor.open_turn, None);
    assert_eq!(talk.rechecks, 1, "the close nudged the scheduler once");
    let marker = talk.blocks.last().unwrap();
    assert_eq!(
        (marker.block_type.as_str(), marker.dispatch_anchor),
        ("status", Some(summons))
    );
    assert!(marker.id > absorbed);
    talk.deliver();
    assert!(talk.actor.streaming);
    assert_eq!(talk.actor.turn_anchor, Some(absorbed));
    assert_eq!(talk.actor.open_turn, Some(absorbed));
    talk.answer("answered", Some(absorbed));
    talk.stop(StopReason::EndTurn);
    assert_eq!(talk.actor.open_turn, None);
    assert_eq!(talk.deliver(), Some(Delivery::NotOwed));
    assert!(
        !talk.actor.streaming,
        "the absorbed line's turn fires exactly once"
    );
    assert_eq!(
        talk.markers(),
        vec![("turn_ended:closed".to_owned(), Some(summons))],
        "one end, one marker"
    );
}

#[test]
fn the_stand_down_rests_when_nothing_owed_sits_behind_the_marker() {
    let (mut talk, summons) = one_recorded_round();
    talk.deliver();
    talk.stop(StopReason::ToolUse);
    assert_eq!(
        talk.markers(),
        vec![("turn_ended:closed".to_owned(), Some(summons))]
    );
    talk.deliver();
    assert!(
        !talk.actor.streaming,
        "the dead turn's outcome never summons through its own marker"
    );
    assert_eq!(talk.actor.open_turn, None);
}

#[test]
fn an_error_close_dispatches_the_line_absorbed_in_the_tool_window() {
    let (mut talk, summons) = summoned();
    let call = talk.call("call-r1", summons, false);
    let absorbed = talk.user("absorbed");
    talk.deliver();
    assert!(talk.actor.owed_turn_deferred);
    talk.result("call-r1", call, false);
    talk.close(CloseEdge::Errored, false);
    assert_eq!(talk.actor.open_turn, None);
    assert_eq!(
        talk.markers(),
        vec![("turn_ended:errored".to_owned(), Some(summons))]
    );
    assert_eq!(talk.rechecks, 1);
    talk.actor.handle_unlatch();
    talk.deliver();
    assert!(
        talk.actor.streaming,
        "the absorbed line's turn dispatches past the outcome-plus-marker pair"
    );
    assert_eq!(talk.actor.turn_anchor, Some(absorbed));
    assert_eq!(talk.actor.open_turn, Some(absorbed));
}

#[test]
fn a_restart_over_a_marked_end_starts_the_next_summons_fresh() {
    let (mut talk, summons) = one_recorded_round();
    talk.deliver();
    talk.stop(StopReason::ToolUse);
    assert_eq!(
        talk.markers(),
        vec![("turn_ended:closed".to_owned(), Some(summons))]
    );
    let fresh = talk.user("fresh");
    talk.actor = fresh_actor();
    talk.deliver();
    assert_eq!(talk.actor.turn_anchor, Some(fresh));
    assert_eq!(talk.actor.open_turn, Some(fresh));
}

#[test]
fn latched_owed_turn_delivery_stands_down_until_unlatched() {
    let mut talk = Talk::new();
    talk.user("hi");
    talk.actor = ConversationActor::new(1);
    assert_eq!(talk.actor.blocks_ready(), Readiness::Latched);
    talk.deliver();
    assert_eq!(talk.requests, 0, "a latched delivery fires nothing");
    assert!(!talk.actor.bound, "a latched delivery binds nothing either");
    talk.actor.handle_unlatch();
    talk.deliver();
    assert_eq!(talk.requests, 1);
}

#[test]
fn the_forced_end_releases_the_turn_without_latching() {
    let mut talk = Talk::new();
    let summons = talk.user("summons");
    talk.refused_rounds("spent", summons, LIMIT);
    talk.actor.open_turn = Some(summons);
    assert_eq!(
        talk.deliver(),
        Some(Delivery::Exhausted { anchor: summons })
    );
    assert_eq!(talk.requests, 0, "the dispatch stood down before it spent");
    assert_eq!(
        talk.markers(),
        vec![("tool_calls_exhausted".to_owned(), Some(summons))]
    );
    assert_eq!(
        talk.actor.open_turn, None,
        "the append released the identity"
    );
    assert!(!talk.actor.latched, "a decision is not an error");
    assert!(!talk.actor.streaming, "nothing was dispatched");
    let fresh = talk.user("again");
    talk.deliver();
    assert!(
        talk.actor.streaming,
        "the ended turn never stopped the conversation"
    );
    assert_eq!(talk.actor.open_turn, Some(fresh));
    assert_eq!(talk.actor.turn_anchor, Some(fresh));
}

#[test]
fn a_forced_end_that_was_not_stored_keeps_the_turn() {
    let mut actor = fresh_actor();
    actor.open_turn = Some(7);
    actor.end_turn_if_recorded(false);
    assert_eq!(actor.open_turn, Some(7));
}

#[test]
fn an_ordinary_error_between_refusals_resets_the_run() {
    let mut talk = Talk::new();
    let summons = talk.user("summons");
    talk.refused_rounds("spent", summons, LIMIT - 1);
    let call = talk.call("ordinary", summons, false);
    talk.failure("ordinary", call, false);
    talk.refused_rounds("after", summons, 1);
    talk.actor.open_turn = Some(summons);
    talk.deliver();
    assert!(
        talk.markers().is_empty(),
        "one refusal behind an ordinary failure is not a run"
    );
    assert_eq!(talk.actor.open_turn, Some(summons), "the turn lives on");
    assert!(talk.actor.streaming, "and its continuation dispatched");
}

#[test]
fn the_forced_end_survives_a_restart_that_cleared_the_held_identity() {
    let mut talk = Talk::new();
    let summons = talk.user("summons");
    talk.refused_rounds("spent", summons, LIMIT);
    assert_eq!(
        talk.actor.open_turn, None,
        "a rebooted actor holds no identity"
    );
    talk.deliver();
    assert_eq!(talk.requests, 0, "the reboot spent nothing");
    assert_eq!(
        talk.markers(),
        vec![("tool_calls_exhausted".to_owned(), Some(summons))],
        "the end is anchored on the turn the ledger still owed"
    );
}

#[test]
fn a_ledger_that_does_not_open_with_a_prompt_dispatches_nothing() {
    let mut talk = Talk::new();
    talk.blocks.clear();
    talk.user("summons");
    assert_eq!(talk.deliver(), Some(Delivery::Headless));
    assert!(!talk.actor.streaming, "nothing was dispatched");
    assert_eq!(talk.requests, 0, "the refusal spent nothing");
    match talk.actor.refuse_the_turn_over_a_headless_ledger() {
        CoreEvent::StreamError {
            conversation_id,
            error,
            generation,
        } => {
            assert_eq!(conversation_id, 1);
            assert_eq!(generation, None);
            assert!(
                error.contains("does not open with a system prompt"),
                "the error says what the ledger's shape is: {error}"
            );
            assert_eq!(error, HEADLESS_LEDGER);
        }
        other => panic!("{other:?}"),
    }
}

#[test]
fn an_empty_ledger_owes_nothing() {
    let actor = fresh_actor();
    assert_eq!(
        actor.handle_blocks_ready::<BlockKind>(&[], LIMIT),
        Delivery::Empty
    );
    assert!(!ConversationActor::does_the_ledger_open_with_its_head_kind::<BlockKind>(&[]));
}

fn offered(talk: &Talk, registered: &[&str]) -> Vec<String> {
    let registered: Vec<String> = registered.iter().map(|name| (*name).to_owned()).collect();
    assert_eq!(
        ToolChoice::offered_tools(&talk.blocks, &registered),
        ConversationActor::turn_tools::<BlockKind>(&talk.blocks, &registered),
        "no row but the harness's own ask is answered without tools"
    );
    ToolChoice::offered_tools(&talk.blocks, &registered)
}

const REGISTRY: [&str; 4] = ["echo", "hang", "park", "boom"];

#[test]
fn a_ledger_that_opens_with_its_prompt_dispatches_as_before() {
    let (talk, _) = summoned();
    assert_eq!(talk.blocks[0].block_type, "system_prompt");
    assert_eq!(talk.requests, 1);
    assert_eq!(offered(&talk, &REGISTRY), REGISTRY);
}

fn choice(talk: &mut Talk, names: &[&str]) {
    let names = names.iter().map(|name| text(name)).collect();
    talk.push("tool_choice", None, None, &[("names", Value::Array(names))]);
}

#[test]
fn a_recorded_choice_offers_exactly_the_tools_it_names() {
    let mut talk = Talk::new();
    choice(&mut talk, &["echo", "park"]);
    assert_eq!(offered(&talk, &REGISTRY), vec!["echo", "park"]);
}

#[test]
fn an_empty_recorded_choice_offers_nothing() {
    let mut talk = Talk::new();
    choice(&mut talk, &[]);
    assert!(offered(&talk, &REGISTRY).is_empty());
}

#[test]
fn a_conversation_with_no_recorded_choice_is_offered_the_registry() {
    let talk = Talk::new();
    assert_eq!(offered(&talk, &REGISTRY), REGISTRY);
}

#[test]
fn a_recorded_name_the_registry_lost_is_offered_to_nobody() {
    let mut talk = Talk::new();
    choice(&mut talk, &["echo", "departed"]);
    assert_eq!(offered(&talk, &REGISTRY), vec!["echo"]);
}

#[test]
fn the_newest_recorded_choice_replaces_the_ones_before_it() {
    let mut talk = Talk::new();
    choice(&mut talk, &["echo", "park"]);
    talk.user("hi");
    choice(&mut talk, &["boom"]);
    assert_eq!(offered(&talk, &REGISTRY), vec!["boom"]);
}

#[test]
fn a_choice_recorded_behind_a_message_leaves_its_turn_owed() {
    let mut talk = Talk::new();
    let summons = talk.user("hi");
    choice(&mut talk, &["echo"]);
    choice(&mut talk, &["park"]);
    assert_eq!(talk.deliver(), Some(Delivery::Dispatch { anchor: summons }));
}

#[test]
fn a_turn_the_harness_asks_for_is_offered_nothing() {
    let mut talk = Talk::new();
    talk.push(
        "harness_message",
        Some(Role::System),
        None,
        &[("content", text("sum this up"))],
    );
    let registered = vec!["echo".to_owned()];
    assert!(ConversationActor::turn_tools::<BlockKind>(&talk.blocks, &registered).is_empty());
    assert!(ConversationActor::turn_tools::<BlockKind>(&[], &registered).is_empty());
    assert!(matches!(talk.deliver(), Some(Delivery::Dispatch { .. })));
}

#[test]
fn a_run_of_unresolvable_calls_in_a_toolless_conversation_ends_the_turn() {
    let mut talk = Talk::new();
    let summons = talk.user("summons");
    choice(&mut talk, &[]);
    talk.refused_rounds("toolless", summons, LIMIT);
    talk.actor.open_turn = Some(summons);
    talk.deliver();
    assert_eq!(talk.requests, 0);
    assert_eq!(
        talk.markers(),
        vec![("tool_calls_exhausted".to_owned(), Some(summons))]
    );
    assert_eq!(talk.actor.open_turn, None);
    assert!(!talk.actor.streaming);
}

#[test]
fn a_park_round_ends_the_turn_and_the_next_summons_starts_fresh() {
    let (mut talk, summons) = summoned();
    let call = talk.call("p1", summons, false);
    talk.result("p1", call, true);
    talk.stop(StopReason::ToolUse);
    assert!(talk.markers().is_empty(), "with no marker beside it");
    assert_eq!(
        talk.deliver(),
        Some(Delivery::NotOwed),
        "the park resolution dispatched no continuation"
    );
    let again = talk.user("again");
    assert_eq!(talk.deliver(), Some(Delivery::Dispatch { anchor: again }));
}

#[test]
fn a_park_result_landing_after_the_close_still_ends_the_turn() {
    let (mut talk, summons) = summoned();
    let call = talk.call("p1", summons, false);
    talk.stop(StopReason::ToolUse);
    assert_eq!(
        talk.actor.open_turn,
        Some(summons),
        "the close ran first, and its call is still owed"
    );
    talk.result("p1", call, true);
    assert_eq!(talk.deliver(), Some(Delivery::NotOwed));
    let again = talk.user("again");
    assert_eq!(talk.deliver(), Some(Delivery::Dispatch { anchor: again }));
}

#[test]
fn a_park_call_beside_a_sibling_silences_only_its_own_outcome() {
    let (mut talk, summons) = summoned();
    let park = talk.call("p1", summons, false);
    let echo = talk.call("e1", summons, false);
    talk.result("p1", park, true);
    talk.stop(StopReason::ToolUse);
    assert_eq!(talk.deliver(), Some(Delivery::NotOwed));
    talk.result("e1", echo, false);
    assert_eq!(
        talk.deliver(),
        Some(Delivery::Dispatch { anchor: summons }),
        "the sibling's outcome summoned exactly one continuation of the turn"
    );
    assert_eq!(talk.requests, 2);
}

#[test]
fn a_message_absorbed_into_a_park_round_is_never_buried() {
    let (mut talk, summons) = summoned();
    let park = talk.call("p1", summons, false);
    let absorbed = talk.user("absorbed");
    talk.result("p1", park, true);
    talk.stop(StopReason::ToolUse);
    assert_eq!(
        talk.deliver(),
        Some(Delivery::Dispatch { anchor: absorbed }),
        "the line's turn anchors on itself, never on the turn that ended over it"
    );
    assert_eq!(talk.requests, 2);
}

#[test]
fn a_two_call_round_never_dispatches_around_a_dangling_sibling() {
    let (mut talk, summons) = summoned();
    let first = talk.call("c1", summons, false);
    talk.call("c2", summons, false);
    talk.result("c1", first, false);
    talk.stop(StopReason::ToolUse);
    assert_eq!(
        talk.actor.open_turn,
        Some(summons),
        "the dangling sibling holds the turn"
    );
}

#[test]
fn a_channel_whose_far_end_closed_is_bound_anew() {
    let (mut talk, _) = summoned();
    let first = talk.actor.stream_generation;
    talk.stop(StopReason::EndTurn);
    assert!(!talk.actor.ensure_provider(true), "a dead channel is let go");
    talk.actor.bind_provider();
    assert_eq!(talk.actor.stream_generation, first + 1);
    assert!(talk.actor.ensure_provider(false));
}

#[test]
fn a_dispatch_that_was_not_sent_opens_no_turn() {
    let mut talk = Talk::new();
    let summons = talk.user("hi");
    talk.actor.bind_provider();
    let before = talk.actor;
    talk.actor.dispatched(&talk.blocks, summons, false);
    assert_eq!(talk.actor, before);
}

#[test]
fn a_torn_down_readers_signals_touch_nothing() {
    let (talk, _) = summoned();
    let live = talk.actor.stream_generation;
    for generation in [Some(live + 1), Some(live - 1)] {
        assert_eq!(
            talk.actor.handle(&CoreEvent::StreamClosed {
                conversation_id: 1,
                generation,
            }),
            Handling::Ignore
        );
        assert_eq!(
            talk.actor.handle(&CoreEvent::StreamError {
                conversation_id: 1,
                error: "late".into(),
                generation,
            }),
            Handling::Ignore
        );
        assert_eq!(
            talk.actor.handle(&CoreEvent::StreamDone {
                conversation_id: 1,
                stop_reason: None,
                generation,
            }),
            Handling::Ignore
        );
    }
}

#[test]
fn each_event_has_its_handling() {
    let (talk, _) = summoned();
    let live = Some(talk.actor.stream_generation);
    let handle = |event: CoreEvent| talk.actor.handle(&event);
    assert_eq!(
        handle(CoreEvent::DraftPromoted { conversation_id: 1 }),
        Handling::PromoteDraft
    );
    assert_eq!(
        handle(CoreEvent::BlocksAppended {
            conversation_id: 1,
            blocks: Vec::new(),
        }),
        Handling::AppendBlocks
    );
    assert_eq!(
        handle(CoreEvent::InterruptRequested { conversation_id: 1 }),
        Handling::Interrupt
    );
    assert_eq!(handle(CoreEvent::UnlatchAll), Handling::Unlatch);
    assert_eq!(
        handle(CoreEvent::UnlatchRequested { conversation_id: 1 }),
        Handling::Unlatch
    );
    assert_eq!(
        handle(CoreEvent::StreamDone {
            conversation_id: 1,
            stop_reason: Some(StopReason::ToolUse),
            generation: live,
        }),
        Handling::NoteStop {
            reason: Some(StopReason::ToolUse)
        }
    );
    assert_eq!(
        handle(CoreEvent::StreamError {
            conversation_id: 1,
            error: "boom".into(),
            generation: None,
        }),
        Handling::Close {
            edge: CloseEdge::Errored
        }
    );
    assert_eq!(
        handle(CoreEvent::StreamClosed {
            conversation_id: 1,
            generation: live,
        }),
        Handling::Close {
            edge: CloseEdge::Closed
        }
    );
    assert_eq!(
        handle(CoreEvent::BlocksChanged {
            conversation_id: 1,
            block_id: 2,
        }),
        Handling::Ignore
    );
}

#[test]
fn a_second_close_of_a_stream_changes_nothing() {
    let (mut talk, summons) = one_recorded_round();
    talk.deliver();
    talk.stop(StopReason::ToolUse);
    let after = talk.actor;
    let again = talk.close(CloseEdge::Closed, false);
    assert!(again.end.is_none());
    assert!(!again.recheck);
    assert_eq!(talk.actor, after);
    assert_eq!(
        talk.markers(),
        vec![("turn_ended:closed".to_owned(), Some(summons))]
    );
}

#[test]
fn a_promoted_draft_goes_on_and_a_failed_one_is_reported() {
    let mut actor = ConversationActor::new(9);
    assert!(actor.latched);
    match actor.handle_draft_promoted(Err("no disk".into())) {
        Some(CoreEvent::StreamError {
            conversation_id,
            error,
            generation,
        }) => assert_eq!((conversation_id, error.as_str(), generation), (9, "no disk", None)),
        other => panic!("{other:?}"),
    }
    assert!(actor.latched);
    assert!(actor.handle_draft_promoted(Ok(())).is_none());
    assert!(!actor.latched);
}

#[test]
fn appended_blocks_are_announced_one_by_one() {
    let mut actor = ConversationActor::new(9);
    let events = actor.handle_blocks_appended(Ok(vec![4, 5]));
    assert!(!actor.latched);
    let seen: Vec<(i64, i64)> = events
        .iter()
        .map(|event| match event {
            CoreEvent::BlocksChanged {
                conversation_id,
                block_id,
            } => (*conversation_id, *block_id),
            other => panic!("{other:?}"),
        })
        .collect();
    assert_eq!(seen, vec![(9, 4), (9, 5)]);

    let mut actor = ConversationActor::new(9);
    let events = actor.handle_blocks_appended(Err("no disk".into()));
    assert_eq!(events.len(), 1);
    assert!(matches!(
        &events[0],
        CoreEvent::StreamError { conversation_id: 9, error, generation: None } if error == "no disk"
    ));
    assert!(actor.latched);
}

#[test]
fn an_interrupt_with_nothing_open_has_no_turn_to_stamp() {
    let mut actor = fresh_actor();
    let interrupt = actor.handle_interrupt(false);
    assert_eq!(interrupt.anchor, None);
    assert!(!interrupt.tell_provider);
    assert!(!interrupt.recheck);
    assert!(actor.latched);
}

#[test]
fn an_interrupt_while_the_result_is_owed_stamps_the_held_turns_summoner() {
    let (mut talk, summons) = summoned();
    talk.call("c1", summons, false);
    talk.stop(StopReason::ToolUse);
    assert_eq!(talk.actor.open_turn, Some(summons));
    let interrupt = talk.actor.handle_interrupt(false);
    assert_eq!(interrupt.anchor, Some(summons));
}

#[test]
fn an_abandoned_reader_is_told_nothing_by_an_interrupt() {
    let (mut talk, _) = summoned();
    let interrupt = talk.actor.handle_interrupt(true);
    assert!(!interrupt.tell_provider);
    assert!(!talk.actor.bound);
}

#[test]
fn the_end_keys_are_the_stored_statuses() {
    assert_eq!(
        CloseEdge::Closed.turn_end_key(),
        Some("turn_ended:closed")
    );
    assert_eq!(
        CloseEdge::Errored.turn_end_key(),
        Some("turn_ended:errored")
    );
    assert_eq!(CloseEdge::Teardown.turn_end_key(), None);
}
