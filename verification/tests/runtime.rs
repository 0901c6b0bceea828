//! What surrounds the actors: the scheduler's ticks, routing, announcements,
//! provider faults and the bundled context.

use agent_ledger::actor::context::{
    bind_tool_alone, set_window_alone, RuntimeContext, ToolCallWindow, ToolRegistry, ToolRunner,
    ToolWindowBound,
};
use std::sync::Arc;
use agent_ledger::actor::event::CoreEvent;
use agent_ledger::actor::provider::{required, BindFault};
use agent_ledger::actor::routing::{route_event, Route};
use agent_ledger::actor::scheduler::{
    conversation_state, scheduler_tick, Driven, Reading, SchedulerSignal, Tick,
};
use agent_ledger::actor::watch::{
    block_announcements, block_lookup, conversations_announcement, junction_announcements, Lookup,
};
use agent_ledger::agency::ratchet::Outcome;
use agent_ledger::agency::Wakeup;
use agent_ledger::block::Awaiting;

const QUIET: Tick = Tick {
    signal: None,
    walk: false,
    outcome: None,
};

fn outcome(owes_turn: bool, parked: bool) -> Outcome {
    Outcome {
        cursor: 3,
        owes_turn,
        parked,
        awaiting: Some(Awaiting::Model),
    }
}

#[test]
fn latched_conversation_is_never_driven() {
    assert_eq!(scheduler_tick(Reading::Latched { gone: Some(false) }), QUIET);
    assert_eq!(
        scheduler_tick(Reading::Latched { gone: None }),
        QUIET,
        "a failed reading tells the actor nothing"
    );
}

#[test]
fn unlatched_tick_drives_and_signals_the_owed_turn() {
    let found = outcome(true, false);
    let tick = scheduler_tick(Reading::Driven {
        driven: Some(Driven::Ran { outcome: found }),
    });
    assert_eq!(tick.signal, Some(SchedulerSignal::OwesTurn));
    assert!(tick.walk);
    assert_eq!(tick.outcome, Some(found));
}

#[test]
fn unlatched_tick_parks_without_signalling() {
    let found = outcome(false, true);
    let tick = scheduler_tick(Reading::Driven {
        driven: Some(Driven::Ran { outcome: found }),
    });
    assert_eq!(tick.signal, None, "a parked drive never signals a turn");
    assert!(tick.walk);
    assert_eq!(tick.outcome, Some(found));
}

#[test]
fn unlatch_plus_one_tick_resumes() {
    assert_eq!(scheduler_tick(Reading::Latched { gone: Some(false) }), QUIET);
    let tick = scheduler_tick(Reading::Driven {
        driven: Some(Driven::Ran {
            outcome: outcome(true, false),
        }),
    });
    assert_eq!(tick.signal, Some(SchedulerSignal::OwesTurn));
}

#[test]
fn a_gone_conversation_signals_the_actor_and_drives_nothing() {
    let gone = Tick {
        signal: Some(SchedulerSignal::ConversationGone),
        walk: false,
        outcome: None,
    };
    assert_eq!(
        scheduler_tick(Reading::Driven {
            driven: Some(Driven::ConversationGone),
        }),
        gone
    );
    assert_eq!(
        scheduler_tick(Reading::Latched { gone: Some(true) }),
        gone,
        "a latched set is told the conversation is gone too"
    );
}

#[test]
fn a_failed_drive_still_walks() {
    assert_eq!(
        scheduler_tick(Reading::Driven { driven: None }),
        Tick {
            signal: None,
            walk: true,
            outcome: None,
        }
    );
}

#[test]
fn a_state_says_what_is_due() {
    match conversation_state(7, false, Some(outcome(false, true))) {
        CoreEvent::ConversationState {
            conversation_id,
            latched,
            work_due,
            awaiting,
        } => {
            assert_eq!(conversation_id, 7);
            assert!(!latched);
            assert!(work_due);
            assert_eq!(awaiting, Some(Awaiting::Model));
        }
        other => panic!("{other:?}"),
    }
    match conversation_state(7, true, None) {
        CoreEvent::ConversationState {
            latched,
            work_due,
            awaiting,
            ..
        } => {
            assert!(latched);
            assert!(!work_due);
            assert_eq!(awaiting, None);
        }
        other => panic!("{other:?}"),
    }
}

#[test]
fn routing_forgets_a_set_whose_actor_ended() {
    let routes = [Route {
        conversation_id: 5,
        closed: true,
    }];
    let plan = route_event(&routes, &CoreEvent::UnlatchAll);
    assert_eq!(plan.forgotten, vec![5], "the ended set is forgotten");
    assert_eq!(plan.started, None);
    assert!(plan.recipients.is_empty());

    let plan = route_event(&[], &CoreEvent::UnlatchRequested { conversation_id: 5 });
    assert_eq!(plan.started, Some(5), "a fresh set is spawned for the id");
    assert_eq!(plan.recipients, vec![5]);
}

#[test]
fn an_event_to_all_reaches_every_live_actor() {
    let routes = [
        Route {
            conversation_id: 1,
            closed: false,
        },
        Route {
            conversation_id: 2,
            closed: true,
        },
        Route {
            conversation_id: 3,
            closed: false,
        },
    ];
    let plan = route_event(&routes, &CoreEvent::UnlatchAll);
    assert_eq!(plan.recipients, vec![1, 3]);
    assert_eq!(plan.forgotten, vec![2]);
    let plan = route_event(&routes, &CoreEvent::ConversationsChanged);
    assert!(plan.recipients.is_empty(), "no actor handles it");
    let plan = route_event(&routes, &CoreEvent::InterruptRequested { conversation_id: 2 });
    assert_eq!(plan.started, Some(2));
    assert_eq!(plan.recipients, vec![2]);
    let plan = route_event(
        &routes,
        &CoreEvent::ToolCallReady {
            conversation_id: 1,
            call_block_id: 4,
        },
    );
    assert_eq!(plan.started, None);
    assert!(plan.recipients.is_empty());
}

fn pairs(events: &[CoreEvent]) -> Vec<(i64, i64)> {
    events
        .iter()
        .map(|event| match event {
            CoreEvent::BlocksChanged {
                conversation_id,
                block_id,
            } => (*conversation_id, *block_id),
            other => panic!("{other:?}"),
        })
        .collect()
}

#[test]
fn a_junction_change_names_the_conversation_on_its_own_row() {
    let (source, fork, block) = (1, 2, 9);
    assert_eq!(
        block_lookup("conversation_blocks", &["block_text"]),
        Lookup::Junction
    );
    let seen = pairs(&junction_announcements(Some((fork, block))));
    assert_eq!(seen, vec![(fork, block)]);
    assert!(!seen.iter().any(|(conversation, _)| *conversation == source));
}

#[test]
fn a_shared_blocks_change_is_announced_to_every_conversation() {
    assert_eq!(block_lookup("block_text", &["block_text"]), Lookup::Holders);
    assert_eq!(block_lookup("blocks", &[]), Lookup::Holders);
    assert_eq!(block_lookup("settings", &["block_text"]), Lookup::Nothing);
    assert_eq!(pairs(&block_announcements(9, &[1, 2])), vec![(1, 9), (2, 9)]);
}

#[test]
fn a_junction_row_gone_by_read_time_announces_nothing() {
    assert!(junction_announcements(None).is_empty());
}

#[test]
fn a_change_of_conversations_is_announced_once() {
    assert!(matches!(
        conversations_announcement("conversations"),
        Some(CoreEvent::ConversationsChanged)
    ));
    assert!(conversations_announcement("conversation_blocks").is_none());
}

#[test]
fn a_wakeup_reaches_its_own_conversations_executor() {
    let event = CoreEvent::wakeup(4, Wakeup::ToolCallReady { call_block_id: 11 });
    assert_eq!(event.conversation_id(), Some(4));
    assert_eq!(event.call_to_execute(4), Some(11));
    assert_eq!(event.call_to_execute(5), None);
    assert!(!event.accepts());
    let event = CoreEvent::wakeup(4, Wakeup::MetadataRequestReady { request_id: 12 });
    assert!(matches!(
        event,
        CoreEvent::MetadataRequestReady {
            conversation_id: 4,
            request_id: 12,
        }
    ));
    assert_eq!(event.call_to_execute(4), None);
}

#[test]
fn each_bind_fault_says_what_is_missing() {
    let faults = [
        (
            BindFault::Unread {
                error: "locked".into(),
            },
            "locked",
        ),
        (BindFault::ConversationNotFound, "conversation not found"),
        (
            BindFault::ProviderNotFound {
                provider_id: "p1".into(),
            },
            "provider p1 not found",
        ),
        (
            BindFault::UnknownProviderType {
                provider_type: "abacus".into(),
            },
            "unknown provider type: abacus",
        ),
        (
            BindFault::ConfigNotFound {
                provider_id: "p1".into(),
            },
            "provider p1 config not found",
        ),
    ];
    for (fault, said) in faults {
        assert_eq!(fault.text(), said);
        assert!(matches!(
            fault.event(3),
            CoreEvent::StreamError { conversation_id: 3, error, generation: None } if error == said
        ));
    }
}

#[test]
fn a_lookup_gives_the_thing_or_the_fault() {
    assert!(matches!(
        required(Ok(Some(5)), BindFault::ConversationNotFound),
        Ok(5)
    ));
    assert!(matches!(
        required::<i64>(Ok(None), BindFault::ConversationNotFound),
        Err(BindFault::ConversationNotFound)
    ));
    assert!(matches!(
        required::<i64>(Err("locked".into()), BindFault::ConversationNotFound),
        Err(BindFault::Unread { error }) if error == "locked"
    ));
}

fn registry() -> ToolRegistry {
    let mut registry = ToolRegistry::new();
    registry.register("echo".into());
    registry.register("park".into());
    registry
}

#[test]
fn a_context_starts_with_the_defaults() {
    let ctx = RuntimeContext::new(1u8, 2u16, 3u32, registry());
    assert!(ctx.title_derivation());
    assert_eq!((*ctx.store(), *ctx.bus(), *ctx.providers()), (1, 2, 3));
    assert_eq!(ctx.runner().window(), ToolCallWindow::default());
    assert_eq!(ctx.runner().window().calls, 60);
    assert_eq!(ctx.runner().window().consecutive_limit, 5);
    assert_eq!(ctx.runner().tool_window("echo"), None);
    assert_eq!(ctx.runner().registry().names(), ["echo", "park"]);
    assert!(ctx.runner().registry().holds("park"));
    assert!(!ctx.runner().registry().holds("boom"));
    let agency = ctx.agency(8);
    assert_eq!((agency.conversation_id, agency.store, agency.bus), (8, 1, 2));
    assert!(!ctx.without_title_derivation().title_derivation());
}

#[test]
fn the_last_bound_on_a_tool_is_the_one_it_has() {
    let window = ToolCallWindow {
        calls: 1,
        ..ToolCallWindow::default()
    };
    let ctx = RuntimeContext::new((), (), (), registry())
        .with_tool_window("echo".into(), 1, 60)
        .and_then(|ctx| ctx.with_tool_window("park".into(), 0, 5))
        .and_then(|ctx| ctx.with_tool_window("echo".into(), 2, 30))
        .and_then(|ctx| ctx.with_tool_call_window(window))
        .ok()
        .expect("the context is held alone");
    let copy = ctx.clone();
    for ctx in [ctx, copy] {
        assert_eq!(
            ctx.runner().tool_window("echo"),
            Some(ToolWindowBound {
                calls: 2,
                seconds: 30,
            })
        );
        assert_eq!(
            ctx.runner().tool_window("park"),
            Some(ToolWindowBound {
                calls: 0,
                seconds: 5,
            })
        );
        assert_eq!(ctx.runner().tool_window("boom"), None);
        assert_eq!(ctx.runner().window(), window);
    }
}

#[test]
fn a_shared_context_takes_no_bound() {
    let ctx = RuntimeContext::new((), (), (), registry());
    let copy = ctx.clone();
    let ctx = ctx
        .with_tool_window("echo".into(), 1, 60)
        .err()
        .expect("a clone was taken");
    assert_eq!(ctx.runner().tool_window("echo"), None);
    let ctx = ctx
        .with_tool_call_window(ToolCallWindow {
            calls: 1,
            ..ToolCallWindow::default()
        })
        .err()
        .expect("a clone was taken");
    assert_eq!(ctx.runner().window(), ToolCallWindow::default());
    drop(copy);

    let held = Arc::clone(ctx.runner());
    let ctx = ctx
        .with_tool_window("echo".into(), 1, 60)
        .err()
        .expect("the runner is held");
    drop(held);

    let weak = Arc::downgrade(ctx.runner());
    let ctx = ctx
        .with_tool_window("echo".into(), 1, 60)
        .err()
        .expect("the runner can be held");
    drop(weak);

    let ctx = ctx
        .with_tool_window("echo".into(), 1, 60)
        .ok()
        .expect("the context is held alone again");
    let copy = ctx.clone();
    assert!(
        Arc::ptr_eq(ctx.runner(), copy.runner()),
        "there is one runner"
    );
    assert_eq!(
        copy.runner().tool_window("echo"),
        Some(ToolWindowBound {
            calls: 1,
            seconds: 60,
        })
    );
}

#[test]
fn only_a_runner_held_alone_is_changed() {
    let bound = ToolWindowBound {
        calls: 3,
        seconds: 9,
    };
    let window = ToolCallWindow {
        calls: 2,
        ..ToolCallWindow::default()
    };
    let mut runner = ToolRunner::new(registry());
    assert!(!bind_tool_alone(None, "echo".into(), bound));
    assert!(bind_tool_alone(Some(&mut runner), "echo".into(), bound));
    assert_eq!(runner.tool_window("echo"), Some(bound));
    assert_eq!(runner.tool_window("park"), None);
    assert!(!set_window_alone(None, window));
    assert!(set_window_alone(Some(&mut runner), window));
    assert_eq!(runner.window(), window);
}
