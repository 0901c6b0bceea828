//! What the runtime is made of: its collaborators, bundled once, and the
//! bounds on its tools.

use std::sync::Arc;
use vstd::prelude::*;

use crate::agency::kinds::str_eq;
use crate::block;

verus! {

/// The collaborators a block's hook may reach.
pub struct AgencyCtx<S, B> {
    /// The conversation whose ledger is driven.
    pub conversation_id: i64,
    /// The store's handle.
    pub store: S,
    /// The event bus.
    pub bus: B,
}

impl<S: Clone, B: Clone> Clone for AgencyCtx<S, B> {
    fn clone(&self) -> (copy: Self)
        ensures
            copy.conversation_id == self.conversation_id,
            cloned(self.store, copy.store),
            cloned(self.bus, copy.bus),
    {
        AgencyCtx {
            conversation_id: self.conversation_id,
            store: self.store.clone(),
            bus: self.bus.clone(),
        }
    }
}

/// The tools a process has, by name and in the order they were registered.
#[derive(Debug)]
pub struct ToolRegistry {
    names: Vec<String>,
}

impl View for ToolRegistry {
    type V = Seq<Seq<char>>;

    closed spec fn view(&self) -> Seq<Seq<char>> {
        block::texts(self.names@)
    }
}

impl ToolRegistry {
    /// A registry with no tool.
    pub fn new() -> (registry: ToolRegistry)
        ensures
            registry@ == Seq::<Seq<char>>::empty(),
    {
        let registry = ToolRegistry { names: Vec::new() };
        assert(registry@ =~= Seq::<Seq<char>>::empty());
        registry
    }

    /// Whether a tool is registered.
    pub fn holds(&self, name: &str) -> (held: bool)
        ensures
            held == self@.contains(name@),
    {
        let mut index: usize = 0;
        while index < self.names.len()
            invariant
                index <= self.names.len(),
                forall|i: int| 0 <= i < index ==> self@[i] != name@,
            decreases self.names.len() - index,
        {
            if str_eq(self.names[index].as_str(), name) {
                assert(self@[index as int] == name@);
                return true;
            }
            index += 1;
        }
        false
    }

    /// Register a tool under a name that no other has.
    pub fn register(&mut self, name: String)
        requires
            !old(self)@.contains(name@),
        ensures
            final(self)@ == old(self)@.push(name@),
    {
        let ghost before = self@;
        self.names.push(name);
        assert(self@ =~= before.push(name@));
    }

    /// The registered names.
    pub fn names(&self) -> (names: &[String])
        ensures
            block::texts(names@) == self@,
    {
        self.names.as_slice()
    }
}

/// How much a conversation may spend on tool calls.
#[derive(Debug, Clone, Copy, PartialEq, Eq, Structural)]
pub struct ToolCallWindow {
    /// How many calls may run inside the span.
    pub calls: usize,
    /// The span, in seconds.
    pub seconds: i64,
    /// How many refusals in a row end a turn.
    pub consecutive_limit: usize,
}

impl Default for ToolCallWindow {
    fn default() -> (window: Self)
        ensures
            window == (ToolCallWindow { calls: 60, seconds: 60, consecutive_limit: 5 }),
    {
        ToolCallWindow { calls: 60, seconds: 60, consecutive_limit: 5 }
    }
}

/// How often one tool may be called.
#[derive(Debug, Clone, Copy, PartialEq, Eq, Structural)]
pub struct ToolWindowBound {
    /// How many calls may run inside the span; none where it is zero.
    pub calls: usize,
    /// The span, in seconds.
    pub seconds: i64,
}

/// The bounds on single tools, by name. Every name is bound once.
#[derive(Debug)]
pub struct ToolRunner {
    registry: ToolRegistry,
    window: ToolCallWindow,
    names: Vec<String>,
    bounds: Vec<ToolWindowBound>,
}

/// What a list of names and a list of bounds say: the bound of each name.
pub open spec fn bound_map(
    names: Seq<Seq<char>>,
    bounds: Seq<ToolWindowBound>,
) -> Map<Seq<char>, ToolWindowBound> {
    Map::new(
        |name: Seq<char>| names.contains(name),
        |name: Seq<char>| bounds[names.index_of(name)],
    )
}

impl ToolRunner {
    /// The names a call can resolve against.
    pub closed spec fn registered(&self) -> Seq<Seq<char>> {
        self.registry@
    }

    /// The conversation's own window.
    pub closed spec fn conversation_window(&self) -> ToolCallWindow {
        self.window
    }

    /// The bounds on single tools, by name.
    pub closed spec fn tool_bounds(&self) -> Map<Seq<char>, ToolWindowBound> {
        bound_map(block::texts(self.names@), self.bounds@)
    }

    /// Whether every bound is of one tool, and every bound tool has one bound.
    pub closed spec fn wf(&self) -> bool {
        self.names@.len() == self.bounds@.len() && block::texts(self.names@).no_duplicates()
    }

    /// A runner over a registry: the conversation's window is the default one,
    /// and no single tool is bound.
    pub fn new(registry: ToolRegistry) -> (runner: ToolRunner)
        ensures
            runner.wf(),
            runner.registered() == registry@,
            runner.conversation_window() == (ToolCallWindow {
                calls: 60,
                seconds: 60,
                consecutive_limit: 5,
            }),
            runner.tool_bounds() == Map::<Seq<char>, ToolWindowBound>::empty(),
    {
        let runner = ToolRunner {
            registry,
            window: ToolCallWindow::default(),
            names: Vec::new(),
            bounds: Vec::new(),
        };
        assert(runner.tool_bounds() =~= Map::<Seq<char>, ToolWindowBound>::empty());
        runner
    }

    /// The registry the runner resolves calls against.
    pub fn registry(&self) -> (registry: &ToolRegistry)
        ensures
            registry@ == self.registered(),
    {
        &self.registry
    }

    /// The conversation's own window.
    pub fn window(&self) -> (window: ToolCallWindow)
        ensures
            window == self.conversation_window(),
    {
        self.window
    }

    /// Set the conversation's own window.
    pub fn set_window(&mut self, window: ToolCallWindow)
        requires
            old(self).wf(),
        ensures
            final(self).wf(),
            final(self).conversation_window() == window,
            final(self).registered() == old(self).registered(),
            final(self).tool_bounds() == old(self).tool_bounds(),
    {
        self.window = window;
    }

    fn bound_position(&self, name: &str) -> (at: Option<usize>)
        requires
            self.wf(),
        ensures
            match at {
                Some(index) => index < self.names@.len() && block::texts(self.names@)[index as int]
                    == name@,
                None => !block::texts(self.names@).contains(name@),
            },
    {
        let mut index: usize = 0;
        while index < self.names.len()
            invariant
                index <= self.names.len(),
                forall|i: int| 0 <= i < index ==> block::texts(self.names@)[i] != name@,
            decreases self.names.len() - index,
        {
            if str_eq(self.names[index].as_str(), name) {
                return Some(index);
            }
            index += 1;
        }
        None
    }

    /// The bound of a tool, where it has one.
    pub fn tool_window(&self, name: &str) -> (bound: Option<ToolWindowBound>)
        requires
            self.wf(),
        ensures
            bound == (if self.tool_bounds().dom().contains(name@) {
                Some(self.tool_bounds()[name@])
            } else {
                None
            }),
    {
        match self.bound_position(name) {
            Some(at) => {
                proof {
                    let names = block::texts(self.names@);
                    assert(names.contains(name@));
                    assert(names[names.index_of(name@)] == name@);
                }
                Some(self.bounds[at])
            },
            None => None,
        }
    }

    /// Bind a tool, in place of the bound it had.
    pub fn set_tool_window(&mut self, name: String, bound: ToolWindowBound)
        requires
            old(self).wf(),
        ensures
            final(self).wf(),
            final(self).tool_bounds() == old(self).tool_bounds().insert(name@, bound),
            final(self).registered() == old(self).registered(),
            final(self).conversation_window() == old(self).conversation_window(),
    {
        let ghost names = block::texts(self.names@);
        let ghost bounds = self.bounds@;
        let ghost wanted = name@;
        match self.bound_position(name.as_str()) {
            Some(at) => {
                self.bounds.set(at, bound);
                proof {
                    assert(names.contains(wanted));
                    assert(names.index_of(wanted) == at);
                    assert forall|other: Seq<char>| names.contains(other) && other != wanted implies names.index_of(
                        other,
                    ) != at by {
                        assert(names[names.index_of(other)] == other);
                    }
                    assert(self.tool_bounds() =~= bound_map(names, bounds).insert(wanted, bound));
                }
            },
            None => {
                self.names.push(name);
                self.bounds.push(bound);
                proof {
                    let now = block::texts(self.names@);
                    assert(now =~= names.push(wanted));
                    assert(now[names.len() as int] == wanted);
                    assert(now.contains(wanted));
                    assert forall|other: Seq<char>|
                        now.contains(other) == (names.contains(other) || other == wanted) by {
                        if names.contains(other) {
                            let i = names.index_of(other);
                            assert(now[i] == other);
                        }
                        if now.contains(other) && other != wanted {
                            let i = now.index_of(other);
                            assert(names[i] == other);
                        }
                    }
                    assert forall|other: Seq<char>| names.contains(other) implies now.index_of(
                        other,
                    ) == names.index_of(other) by {
                        assert(names[names.index_of(other)] == other);
                        assert(now[names.index_of(other)] == other);
                        assert(now[now.index_of(other)] == other);
                    }
                    assert(now.index_of(wanted) == names.len()) by {
                        assert(now[now.index_of(wanted)] == wanted);
                        if now.index_of(wanted) < names.len() {
                            assert(names[now.index_of(wanted)] == wanted);
                        }
                    }
                    assert(self.tool_bounds() =~= bound_map(names, bounds).insert(wanted, bound));
                }
            },
        }
    }
}

/// `Arc::get_mut`: the value behind a pointer, to be changed in place, where no
/// other pointer to it is held; what is left there is what the pointer then
/// holds. Nothing, and no change, where another is held. Who holds one is not
/// seen here, so when that is the case is left unsaid.
#[verifier::external_body]
fn sole_mut<T>(shared: &mut Arc<T>) -> (inner: Option<&mut T>)
    ensures
        match inner {
            Some(held) => *held == **old(shared) && **final(shared) == *final(held),
            None => *final(shared) == *old(shared),
        },
{
    Arc::get_mut(shared)
}

/// Set the conversation's window on a runner that is held alone; whether it was.
pub fn set_window_alone(runner: Option<&mut ToolRunner>, window: ToolCallWindow) -> (set: bool)
    requires
        runner matches Some(held) ==> held.wf(),
    ensures
        set == (runner is Some),
        runner matches Some(held) ==> final(held).wf() && final(held).conversation_window()
            == window && final(held).registered() == held.registered()
            && final(held).tool_bounds() == held.tool_bounds(),
{
    match runner {
        Some(held) => {
            held.set_window(window);
            true
        },
        None => false,
    }
}

/// Bind a tool on a runner that is held alone; whether it was.
pub fn bind_tool_alone(runner: Option<&mut ToolRunner>, name: String, bound: ToolWindowBound) -> (
    set: bool)
    requires
        runner matches Some(held) ==> held.wf(),
    ensures
        set == (runner is Some),
        runner matches Some(held) ==> final(held).wf() && final(held).tool_bounds()
            == held.tool_bounds().insert(name@, bound) && final(held).registered()
            == held.registered() && final(held).conversation_window()
            == held.conversation_window(),
{
    match runner {
        Some(held) => {
            held.set_tool_window(name, bound);
            true
        },
        None => false,
    }
}

/// Everything the runtime owns: the store, the bus, the providers, and the one
/// runner over the consumer's tools, which every clone of the context shares.
pub struct RuntimeContext<S, B, P> {
    store: S,
    bus: B,
    providers: P,
    runner: Arc<ToolRunner>,
    title_derivation: bool,
}

impl<S, B, P> RuntimeContext<S, B, P> {
    /// The store's handle.
    pub closed spec fn spec_store(&self) -> S {
        self.store
    }

    /// The event bus.
    pub closed spec fn spec_bus(&self) -> B {
        self.bus
    }

    /// The providers.
    pub closed spec fn spec_providers(&self) -> P {
        self.providers
    }

    /// The tool runner.
    pub closed spec fn spec_runner(&self) -> ToolRunner {
        *self.runner
    }

    /// Whether titles are derived.
    pub closed spec fn derives_titles(&self) -> bool {
        self.title_derivation
    }

    /// A context whose runner is well formed.
    pub open spec fn wf(&self) -> bool {
        self.spec_runner().wf()
    }

    /// Whether a context has another's collaborators: its store, its bus and
    /// its providers.
    pub open spec fn shares(&self, other: Self) -> bool {
        &&& self.spec_store() == other.spec_store()
        &&& self.spec_bus() == other.spec_bus()
        &&& self.spec_providers() == other.spec_providers()
    }

    /// Bundle the collaborators. The runner is made here, so that there is one,
    /// and titles are derived.
    pub fn new(store: S, bus: B, providers: P, tools: ToolRegistry) -> (context: Self)
        ensures
            context.wf(),
            context.spec_store() == store,
            context.spec_bus() == bus,
            context.spec_providers() == providers,
            context.spec_runner().registered() == tools@,
            context.spec_runner().conversation_window() == (ToolCallWindow {
                calls: 60,
                seconds: 60,
                consecutive_limit: 5,
            }),
            context.spec_runner().tool_bounds() == Map::<Seq<char>, ToolWindowBound>::empty(),
            context.derives_titles(),
    {
        RuntimeContext {
            store,
            bus,
            providers,
            runner: Arc::new(ToolRunner::new(tools)),
            title_derivation: true,
        }
    }

    /// The same context, in which no title is ever derived.
    pub fn without_title_derivation(self) -> (context: Self)
        requires
            self.wf(),
        ensures
            context.wf(),
            context.shares(self),
            context.spec_runner() == self.spec_runner(),
            !context.derives_titles(),
    {
        RuntimeContext { title_derivation: false, ..self }
    }

    /// The same context with another window for a conversation's calls. A
    /// context whose runner is shared is refused and handed back as it was.
    pub fn with_tool_call_window(self, window: ToolCallWindow) -> (context: Result<Self, Self>)
        requires
            self.wf(),
        ensures
            match context {
                Ok(set) => {
                    &&& set.wf()
                    &&& set.shares(self)
                    &&& set.derives_titles() == self.derives_titles()
                    &&& set.spec_runner().registered() == self.spec_runner().registered()
                    &&& set.spec_runner().conversation_window() == window
                    &&& set.spec_runner().tool_bounds() == self.spec_runner().tool_bounds()
                },
                Err(kept) => kept == self,
            },
    {
        let mut context = self;
        if set_window_alone(sole_mut(&mut context.runner), window) {
            Ok(context)
        } else {
            Err(context)
        }
    }

    /// The same context with one tool bound to a window of its own. The tool
    /// is a registered one and the window has a span; a tool that was bound
    /// before is bound anew. A bound of no calls is one that always refuses.
    ///
    /// Every bound is set before the context is shared. One of which a clone
    /// was taken, or whose runner is held elsewhere, is refused and handed back
    /// as it was: the others would never see the bound.
    pub fn with_tool_window(self, name: String, calls: usize, seconds: i64) -> (context: Result<
        Self,
        Self,
    >)
        requires
            self.wf(),
            seconds > 0,
            self.spec_runner().registered().contains(name@),
        ensures
            match context {
                Ok(bound) => {
                    &&& bound.wf()
                    &&& bound.shares(self)
                    &&& bound.derives_titles() == self.derives_titles()
                    &&& bound.spec_runner().registered() == self.spec_runner().registered()
                    &&& bound.spec_runner().conversation_window()
                        == self.spec_runner().conversation_window()
                    &&& bound.spec_runner().tool_bounds()
                        == self.spec_runner().tool_bounds().insert(
                        name@,
                        (ToolWindowBound { calls, seconds }),
                    )
                },
                Err(kept) => kept == self,
            },
    {
        let mut context = self;
        let bound = ToolWindowBound { calls, seconds };
        if bind_tool_alone(sole_mut(&mut context.runner), name, bound) {
            Ok(context)
        } else {
            Err(context)
        }
    }

    /// Whether titles are derived.
    pub fn title_derivation(&self) -> (derives: bool)
        ensures
            derives == self.derives_titles(),
    {
        self.title_derivation
    }

    /// The store's handle.
    pub fn store(&self) -> (store: &S)
        ensures
            *store == self.spec_store(),
    {
        &self.store
    }

    /// The event bus.
    pub fn bus(&self) -> (bus: &B)
        ensures
            *bus == self.spec_bus(),
    {
        &self.bus
    }

    /// The providers.
    pub fn providers(&self) -> (providers: &P)
        ensures
            *providers == self.spec_providers(),
    {
        &self.providers
    }

    /// The one tool runner.
    pub fn runner(&self) -> (runner: &Arc<ToolRunner>)
        ensures
            **runner == self.spec_runner(),
    {
        &self.runner
    }
}

impl<S: Clone, B: Clone, P> RuntimeContext<S, B, P> {
    /// What a hook of a conversation's blocks may reach.
    pub fn agency(&self, conversation_id: i64) -> (ctx: AgencyCtx<S, B>)
        ensures
            ctx.conversation_id == conversation_id,
            cloned(self.spec_store(), ctx.store),
            cloned(self.spec_bus(), ctx.bus),
    {
        AgencyCtx { conversation_id, store: self.store.clone(), bus: self.bus.clone() }
    }
}

impl<S: Clone, B: Clone, P: Clone> Clone for RuntimeContext<S, B, P> {
    fn clone(&self) -> (copy: Self)
        ensures
            cloned(self.spec_store(), copy.spec_store()),
            cloned(self.spec_bus(), copy.spec_bus()),
            cloned(self.spec_providers(), copy.spec_providers()),
            copy.spec_runner() == self.spec_runner(),
            copy.derives_titles() == self.derives_titles(),
    {
        RuntimeContext {
            store: self.store.clone(),
            bus: self.bus.clone(),
            providers: self.providers.clone(),
            runner: self.runner.clone(),
            title_derivation: self.title_derivation,
        }
    }
}

/// A tool has the bound it was given last, and the bounds of the others stay
/// as they were.
pub proof fn the_last_bound_holds(
    bounds: Map<Seq<char>, ToolWindowBound>,
    name: Seq<char>,
    other: Seq<char>,
    first: ToolWindowBound,
    last: ToolWindowBound,
)
    requires
        other != name,
    ensures
        bounds.insert(name, first).insert(name, last) == bounds.insert(name, last),
        bounds.insert(name, last)[name] == last,
        bounds.insert(name, last).dom().contains(other) == bounds.dom().contains(other),
        bounds.dom().contains(other) ==> bounds.insert(name, last)[other] == bounds[other],
{
    assert(bounds.insert(name, first).insert(name, last) =~= bounds.insert(name, last));
}

} // verus!
