//! Which actors an event goes to.

use vstd::prelude::*;

use super::event::CoreEvent;

verus! {

/// The actor of a conversation, as the router knows it.
#[derive(Debug, Clone, Copy, PartialEq, Eq, Structural)]
pub struct Route {
    pub conversation_id: i64,
    /// Whether the actor has ended.
    pub closed: bool,
}

/// What is done with an event.
#[derive(Debug, Clone)]
pub struct RoutePlan {
    /// The conversations whose actors have ended, which are forgotten.
    pub forgotten: Vec<i64>,
    /// The conversation an actor is started for, before anything is sent.
    pub started: Option<i64>,
    /// The conversations whose actors get the event.
    pub recipients: Vec<i64>,
}

/// The conversations whose actors have ended, or have not.
pub open spec fn conversations(routes: Seq<Route>, closed: bool) -> Seq<i64>
    decreases routes.len(),
{
    if routes.len() == 0 {
        seq![]
    } else {
        let rest = conversations(routes.drop_last(), closed);
        if routes.last().closed == closed {
            rest.push(routes.last().conversation_id)
        } else {
            rest
        }
    }
}

/// The conversation an event starts an actor for: the one it is about, where
/// no actor lives.
pub open spec fn starts(routes: Seq<Route>, event: CoreEvent) -> Option<i64> {
    match event.about() {
        Some(id) => if conversations(routes, false).contains(id) {
            None
        } else {
            Some(id)
        },
        None => None,
    }
}

/// The conversations whose actors get an event: the one it is about, or all of
/// them; and none where no actor handles it.
pub open spec fn receives(routes: Seq<Route>, event: CoreEvent) -> Seq<i64> {
    if !event.for_the_actor() {
        seq![]
    } else {
        match event.about() {
            Some(id) => seq![id],
            None => conversations(routes, false),
        }
    }
}

fn conversations_of(routes: &[Route], closed: bool) -> (ids: Vec<i64>)
    ensures
        ids@ == conversations(routes@, closed),
{
    let mut ids: Vec<i64> = Vec::new();
    let mut index: usize = 0;
    while index < routes.len()
        invariant
            index <= routes.len(),
            ids@ == conversations(routes@.take(index as int), closed),
        decreases routes.len() - index,
    {
        assert(routes@.take(index + 1).drop_last() =~= routes@.take(index as int));
        if routes[index].closed == closed {
            ids.push(routes[index].conversation_id);
        }
        index += 1;
    }
    assert(routes@.take(index as int) =~= routes@);
    ids
}

/// Route an event: forget the actors that have ended, start one for a
/// conversation that has none, and hand the event to whoever handles it. A
/// conversation whose actor ended gets a fresh one with its next event.
pub fn route_event(routes: &[Route], event: &CoreEvent) -> (plan: RoutePlan)
    ensures
        plan.forgotten@ == conversations(routes@, true),
        plan.started == starts(routes@, *event),
        plan.recipients@ == receives(routes@, *event),
{
    let forgotten = conversations_of(routes, true);
    let live = conversations_of(routes, false);
    let accepted = event.accepts();
    match event.conversation_id() {
        Some(id) => {
            let mut found = false;
            let mut index: usize = 0;
            while index < live.len()
                invariant
                    index <= live.len(),
                    found == exists|i: int| 0 <= i < index && #[trigger] live@[i] == id,
                decreases live.len() - index,
            {
                if live[index] == id {
                    found = true;
                }
                index += 1;
            }
            assert(found == live@.contains(id));
            let mut recipients: Vec<i64> = Vec::new();
            if accepted {
                recipients.push(id);
            }
            assert(recipients@ =~= receives(routes@, *event));
            let started = if found {
                None
            } else {
                Some(id)
            };
            RoutePlan { forgotten, started, recipients }
        },
        None => {
            let recipients = if accepted {
                live
            } else {
                Vec::new()
            };
            assert(recipients@ =~= receives(routes@, *event));
            RoutePlan { forgotten, started: None, recipients }
        },
    }
}

/// An event about a conversation reaches that conversation's actor alone, and
/// finds one there.
pub proof fn an_event_reaches_its_own_conversation(
    routes: Seq<Route>,
    event: CoreEvent,
    id: i64,
)
    requires
        event.about() == Some(id),
    ensures
        conversations(routes, false).contains(id) || starts(routes, event) == Some(id),
        forall|to: i64| receives(routes, event).contains(to) ==> to == id,
        event.for_the_actor() ==> receives(routes, event) == seq![id],
{
    assert forall|to: i64| receives(routes, event).contains(to) implies to == id by {
        if event.for_the_actor() {
            assert(receives(routes, event) == seq![id]);
        }
    }
}

proof fn a_conversation_listed_has_a_route(routes: Seq<Route>, closed: bool, id: i64)
    ensures
        conversations(routes, closed).contains(id) ==> exists|i: int|
            0 <= i < routes.len() && (#[trigger] routes[i]).conversation_id == id
                && routes[i].closed == closed,
    decreases routes.len(),
{
    if routes.len() > 0 && conversations(routes, closed).contains(id) {
        let rest = routes.drop_last();
        a_conversation_listed_has_a_route(rest, closed, id);
        let list = conversations(routes, closed);
        let k = choose|k: int| 0 <= k < list.len() && list[k] == id;
        if conversations(rest, closed).contains(id) {
            let i = choose|i: int|
                0 <= i < rest.len() && (#[trigger] rest[i]).conversation_id == id && rest[i].closed
                    == closed;
            assert(routes[i] == rest[i]);
        } else {
            if k < conversations(rest, closed).len() {
                assert(conversations(rest, closed)[k] == id);
            }
            assert(routes[routes.len() - 1].conversation_id == id);
        }
    }
}

/// No event goes to an actor that has ended: where a conversation has one
/// route, and that route is closed, the conversation's next event starts an
/// actor anew, and an event to all passes it by.
pub proof fn an_ended_actor_gets_nothing(routes: Seq<Route>, event: CoreEvent, at: int)
    requires
        0 <= at < routes.len(),
        routes[at].closed,
        forall|i: int|
            0 <= i < routes.len() && (#[trigger] routes[i]).conversation_id
                == routes[at].conversation_id ==> i == at,
    ensures
        event.about() == Some(routes[at].conversation_id) ==> starts(routes, event)
            == event.about(),
        event.about() is None ==> !receives(routes, event).contains(routes[at].conversation_id),
{
    a_conversation_listed_has_a_route(routes, false, routes[at].conversation_id);
}

/// Conversations are listed route by route, in the order of the routes: the
/// list of the live ones and the list of the ended ones hold each its own, and
/// one route stands in one of the two.
pub proof fn conversations_are_listed_route_by_route(
    one: Seq<Route>,
    other: Seq<Route>,
    closed: bool,
)
    ensures
        conversations(one + other, closed) == conversations(one, closed) + conversations(
            other,
            closed,
        ),
        one.len() == 1 && one[0].closed == closed ==> conversations(one, closed) == seq![
            one[0].conversation_id,
        ],
        one.len() == 1 && one[0].closed != closed ==> conversations(one, closed).len() == 0,
        one.len() == 0 ==> conversations(one, closed).len() == 0,
    decreases other.len(),
{
    if one.len() == 1 {
        assert(conversations(one.drop_last(), closed) =~= seq![]);
        assert(one[0].closed == closed ==> conversations(one, closed) =~= seq![
            one[0].conversation_id,
        ]);
    }
    if other.len() == 0 {
        assert(one + other =~= one);
        assert(conversations(one, closed) + conversations(other, closed) =~= conversations(
            one,
            closed,
        ));
    } else {
        conversations_are_listed_route_by_route(one, other.drop_last(), closed);
        assert((one + other).drop_last() =~= one + other.drop_last());
        assert(conversations(one + other, closed) =~= conversations(one, closed) + conversations(
            other,
            closed,
        ));
    }
}

proof fn a_route_lists_its_conversation(routes: Seq<Route>, at: int)
    requires
        0 <= at < routes.len(),
    ensures
        conversations(routes, routes[at].closed).contains(routes[at].conversation_id),
{
    let closed = routes[at].closed;
    let id = routes[at].conversation_id;
    let before = routes.take(at);
    let own = seq![routes[at]];
    let behind = routes.skip(at + 1);
    conversations_are_listed_route_by_route(before + own, behind, closed);
    conversations_are_listed_route_by_route(before, own, closed);
    conversations_are_listed_route_by_route(own, behind, closed);
    assert(before + own + behind =~= routes);
    assert(conversations(routes, closed)[conversations(before, closed).len() as int] == id);
}

/// An actor is started exactly where an event is about a conversation that has
/// no live route, and then for that conversation.
pub proof fn an_actor_is_started_where_none_lives(routes: Seq<Route>, event: CoreEvent)
    ensures
        starts(routes, event) is Some ==> starts(routes, event) == event.about(),
        event.about() is None ==> starts(routes, event) is None,
        event.about() matches Some(id) ==> (starts(routes, event) is None <==> exists|i: int|
            0 <= i < routes.len() && (#[trigger] routes[i]).conversation_id == id
                && !routes[i].closed),
{
    if let Some(id) = event.about() {
        a_conversation_listed_has_a_route(routes, false, id);
        if exists|i: int|
            0 <= i < routes.len() && (#[trigger] routes[i]).conversation_id == id
                && !routes[i].closed {
            let i = choose|i: int|
                0 <= i < routes.len() && (#[trigger] routes[i]).conversation_id == id
                    && !routes[i].closed;
            a_route_lists_its_conversation(routes, i);
        }
    }
}

/// What is for all reaches every live actor and no other; what no actor
/// handles reaches none.
pub proof fn what_is_for_all_reaches_every_live_actor(routes: Seq<Route>, event: CoreEvent, to: i64)
    ensures
        event is UnlatchAll ==> (receives(routes, event).contains(to) <==> exists|i: int|
            0 <= i < routes.len() && (#[trigger] routes[i]).conversation_id == to
                && !routes[i].closed),
        event is UnlatchAll ==> receives(routes, event) == conversations(routes, false),
        event is BlocksChanged || event is ConversationState || event is ConversationsChanged
            || event is ToolCallReady || event is MetadataRequestReady ==> receives(
            routes,
            event,
        ).len() == 0,
{
    a_conversation_listed_has_a_route(routes, false, to);
    if exists|i: int|
        0 <= i < routes.len() && (#[trigger] routes[i]).conversation_id == to && !routes[i].closed {
        let i = choose|i: int|
            0 <= i < routes.len() && (#[trigger] routes[i]).conversation_id == to
                && !routes[i].closed;
        a_route_lists_its_conversation(routes, i);
    }
}

} // verus!
