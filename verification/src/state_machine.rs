//! Entity-scoped finite state machines described by data.
//!
//! A [`State`] owns up to three hooks and a list of guarded transitions whose
//! order is their priority. A [`StateMachine`] owns the states by id together
//! with the id of the active one, and is only ever made by a
//! [`StateMachineBuilder`], which validates the graph.
//!
//! Guards and hooks are values of caller-chosen types: a guard reads a
//! context, a hook changes it. What both do is fixed by a spec function over
//! the view of the context, so the contracts of this module say exactly which
//! hooks an update runs, in which order, and which state is active
//! afterwards.

use std::collections::HashMap;
use vstd::prelude::*;
use vstd::std_specs::iter::IteratorSpec;

verus! {

/// A primitive predicate over a context. What it says is stated over the
/// view of the context.
pub trait Guard {
    /// The context that the predicate reads.
    type Ctx: View;

    /// Whether the predicate is true of `ctx`.
    spec fn holds(&self, ctx: <Self::Ctx as View>::V) -> bool;

    /// Evaluates the predicate.
    fn test(&self, ctx: &Self::Ctx) -> (r: bool)
        ensures
            r == self.holds(ctx@),
    ;
}

/// A state hook: a deterministic change of a context. What it does is stated
/// over the view of the context.
pub trait Hook {
    /// The context that the hook changes.
    type Ctx: View;

    /// The context that the hook leaves behind when it starts from `ctx`.
    spec fn effect(&self, ctx: <Self::Ctx as View>::V) -> <Self::Ctx as View>::V;

    /// Runs the hook.
    fn run(&self, ctx: &mut Self::Ctx)
        ensures
            final(ctx)@ == self.effect(old(ctx)@),
    ;
}

/// A transition guard: a primitive predicate or a combination of guards.
pub enum Condition<G> {
    /// True exactly when the primitive predicate is.
    Is(G),
    /// True exactly when the inner guard is false.
    Not(Box<Condition<G>>),
    /// True exactly when both inner guards are.
    Both(Box<Condition<G>>, Box<Condition<G>>),
    /// True of every context.
    Always,
}

impl<G: Guard> Condition<G> {
    /// Whether the guard is true of `ctx`.
    pub open spec fn holds(&self, ctx: <G::Ctx as View>::V) -> bool
        decreases self,
    {
        match self {
            Condition::Is(g) => g.holds(ctx),
            Condition::Not(inner) => !inner.holds(ctx),
            Condition::Both(left, right) => left.holds(ctx) && right.holds(ctx),
            Condition::Always => true,
        }
    }

    /// Evaluates the guard.
    pub fn test(&self, ctx: &G::Ctx) -> (r: bool)
        ensures
            r == self.holds(ctx@),
        decreases self,
    {
        match self {
            Condition::Is(g) => g.test(ctx),
            Condition::Not(inner) => !inner.test(ctx),
            Condition::Both(left, right) => left.test(ctx) && right.test(ctx),
            Condition::Always => true,
        }
    }
}

/// The guard that is true exactly when `condition` is false.
pub fn invert_condition<G>(condition: Condition<G>) -> (r: Condition<G>)
    ensures
        r == Condition::Not(Box::new(condition)),
{
    Condition::Not(Box::new(condition))
}

/// The guard that is true exactly when both `condition1` and `condition2` are.
pub fn and_condition<G>(condition1: Condition<G>, condition2: Condition<G>) -> (r: Condition<G>)
    ensures
        r == Condition::Both(Box::new(condition1), Box::new(condition2)),
{
    Condition::Both(Box::new(condition1), Box::new(condition2))
}

/// One entry of a state's transition table.
pub struct Transition<G> {
    /// Id of the state that becomes active when the guard is true.
    pub target: usize,
    /// The guard of the transition.
    pub guard: Condition<G>,
}

/// A state: optional hooks and the transitions that lead out of it.
///
/// The order of `transitions` is their priority: the first whose guard is
/// true decides.
pub struct State<G, H> {
    /// Runs when the state becomes active.
    pub on_enter: Option<H>,
    /// Runs on every update while the state is active.
    pub on_update: Option<H>,
    /// Runs when the state stops being active.
    pub on_exit: Option<H>,
    /// Guarded transitions, most urgent first.
    pub transitions: Vec<Transition<G>>,
}

/// What a [`State`] holds, with the transition table as a sequence.
pub struct StateView<G, H> {
    pub on_enter: Option<H>,
    pub on_update: Option<H>,
    pub on_exit: Option<H>,
    pub transitions: Seq<Transition<G>>,
}

impl<G, H> View for State<G, H> {
    type V = StateView<G, H>;

    open spec fn view(&self) -> StateView<G, H> {
        StateView {
            on_enter: self.on_enter,
            on_update: self.on_update,
            on_exit: self.on_exit,
            transitions: self.transitions@,
        }
    }
}

/// The state without hooks and without transitions.
pub open spec fn blank<G, H>() -> StateView<G, H> {
    StateView { on_enter: None, on_update: None, on_exit: None, transitions: Seq::empty() }
}

/// The target of the first transition in `transitions` whose guard is true of
/// `ctx`, if there is one.
pub open spec fn first_match<G: Guard>(
    transitions: Seq<Transition<G>>,
    ctx: <G::Ctx as View>::V,
) -> Option<usize>
    decreases transitions.len(),
{
    if transitions.len() == 0 {
        None
    } else if transitions[0].guard.holds(ctx) {
        Some(transitions[0].target)
    } else {
        first_match(transitions.drop_first(), ctx)
    }
}

/// `first_match` is `None` exactly when no guard is true; otherwise it names
/// the target of the true guard with the smallest index.
pub proof fn lemma_first_match<G: Guard>(
    transitions: Seq<Transition<G>>,
    ctx: <G::Ctx as View>::V,
)
    ensures
        first_match(transitions, ctx) is None <==> forall|i: int|
            0 <= i < transitions.len() ==> !(#[trigger] transitions[i]).guard.holds(ctx),
        first_match(transitions, ctx) is Some ==> exists|i: int|
            0 <= i < transitions.len() && (#[trigger] transitions[i]).guard.holds(ctx)
                && first_match(transitions, ctx) == Some(transitions[i].target) && forall|j: int|
                0 <= j < i ==> !(#[trigger] transitions[j]).guard.holds(ctx),
    decreases transitions.len(),
{
    if transitions.len() == 0 {
    } else if transitions[0].guard.holds(ctx) {
        assert(forall|j: int| 0 <= j < 0 ==> !(#[trigger] transitions[j]).guard.holds(ctx));
    } else {
        let rest = transitions.drop_first();
        lemma_first_match(rest, ctx);
        assert(forall|i: int| 0 <= i < rest.len() ==> rest[i] == transitions[i + 1]);
        if first_match(rest, ctx) is Some {
            let i = choose|i: int|
                0 <= i < rest.len() && (#[trigger] rest[i]).guard.holds(ctx) && first_match(
                    rest,
                    ctx,
                ) == Some(rest[i].target) && forall|j: int|
                    0 <= j < i ==> !(#[trigger] rest[j]).guard.holds(ctx);
            assert(transitions[i + 1].guard.holds(ctx));
            assert forall|j: int| 0 <= j < i + 1 implies !(#[trigger] transitions[j]).guard.holds(
                ctx,
            ) by {
                if j > 0 {
                    assert(rest[j - 1] == transitions[j]);
                }
            }
        } else {
            assert forall|i: int| 0 <= i < transitions.len() implies !(
            #[trigger] transitions[i]).guard.holds(ctx) by {
                if i > 0 {
                    assert(rest[i - 1] == transitions[i]);
                }
            }
        }
    }
}

impl<G, H> State<G, H> {
    /// A state without hooks and without transitions.
    pub fn new() -> (r: Self)
        ensures
            r@ == blank::<G, H>(),
    {
        State { on_enter: None, on_update: None, on_exit: None, transitions: Vec::new() }
    }

    /// The same state with `on_enter` as its enter hook.
    pub fn on_enter(self, on_enter: H) -> (r: Self)
        ensures
            r@ == (StateView { on_enter: Some(on_enter), ..self@ }),
    {
        State { on_enter: Some(on_enter), ..self }
    }

    /// The same state with `on_update` as its update hook.
    pub fn on_update(self, on_update: H) -> (r: Self)
        ensures
            r@ == (StateView { on_update: Some(on_update), ..self@ }),
    {
        State { on_update: Some(on_update), ..self }
    }

    /// The same state with `on_exit` as its exit hook.
    pub fn on_exit(self, on_exit: H) -> (r: Self)
        ensures
            r@ == (StateView { on_exit: Some(on_exit), ..self@ }),
    {
        State { on_exit: Some(on_exit), ..self }
    }

    /// The same state with one more transition, of lower priority than all
    /// those it already has.
    pub fn add_transition(self, state_id: usize, condition: Condition<G>) -> (r: Self)
        ensures
            r@ == (StateView {
                transitions: self@.transitions.push(
                    Transition { target: state_id, guard: condition },
                ),
                ..self@
            }),
    {
        let mut state = self;
        state.transitions.push(Transition { target: state_id, guard: condition });
        state
    }

    /// Evaluates the guards in priority order and returns the target of the
    /// first that is true.
    pub fn first_true(&self, ctx: &G::Ctx) -> (r: Option<usize>) where G: Guard
        ensures
            r == first_match(self@.transitions, ctx@),
    {
        let mut i: usize = 0;
        assert(self.transitions@.skip(0) == self.transitions@);
        while i < self.transitions.len()
            invariant
                i <= self.transitions.len(),
                first_match(self.transitions@, ctx@) == first_match(
                    self.transitions@.skip(i as int),
                    ctx@,
                ),
            decreases self.transitions.len() - i,
        {
            let ghost rest = self.transitions@.skip(i as int);
            assert(rest[0] == self.transitions@[i as int]);
            assert(rest.drop_first() == self.transitions@.skip(i + 1));
            if self.transitions[i].guard.test(ctx) {
                return Some(self.transitions[i].target);
            }
            i += 1;
        }
        None
    }
}

/// How many of `transitions` lead to `target`.
pub open spec fn count_to<G>(transitions: Seq<Transition<G>>, target: usize) -> nat
    decreases transitions.len(),
{
    if transitions.len() == 0 {
        0
    } else {
        count_to(transitions.drop_last(), target) + if transitions.last().target == target {
            1nat
        } else {
            0nat
        }
    }
}

/// How often `entry` occurs in `transitions`.
pub open spec fn occurs<G>(transitions: Seq<Transition<G>>, entry: Transition<G>) -> nat
    decreases transitions.len(),
{
    if transitions.len() == 0 {
        0
    } else {
        occurs(transitions.drop_last(), entry) + if transitions.last() == entry {
            1nat
        } else {
            0nat
        }
    }
}

/// The targets of `transitions` that are not in `ids`, in table order, one
/// entry for each such transition.
pub open spec fn dangling<G>(transitions: Seq<Transition<G>>, ids: Set<usize>) -> Seq<usize>
    decreases transitions.len(),
{
    if transitions.len() == 0 {
        Seq::empty()
    } else if ids.contains(transitions.last().target) {
        dangling(transitions.drop_last(), ids)
    } else {
        dangling(transitions.drop_last(), ids).push(transitions.last().target)
    }
}

/// The transition table that validation leaves of `transitions` when `ids`
/// are the registered states: the transitions to registered states, in
/// table order. The priority among them is what it was.
pub open spec fn pruned<G>(transitions: Seq<Transition<G>>, ids: Set<usize>) -> Seq<Transition<G>>
    decreases transitions.len(),
{
    if transitions.len() == 0 {
        Seq::empty()
    } else if ids.contains(transitions.last().target) {
        pruned(transitions.drop_last(), ids).push(transitions.last())
    } else {
        pruned(transitions.drop_last(), ids)
    }
}

/// Whether `places` picks, in rising order, the transitions of `transitions`
/// that `kept` holds: `kept[i]` is `transitions[places[i]]`.
pub open spec fn picks<G>(
    places: Seq<int>,
    transitions: Seq<Transition<G>>,
    kept: Seq<Transition<G>>,
) -> bool {
    &&& places.len() == kept.len()
    &&& forall|i: int|
        0 <= i < places.len() ==> 0 <= #[trigger] places[i] < transitions.len() && kept[i]
            == transitions[places[i]]
    &&& forall|i: int, j: int|
        0 <= i < j < places.len() ==> #[trigger] places[i] < #[trigger] places[j]
}

/// The places in `transitions` of the transitions to states in `ids`, in
/// rising order.
pub open spec fn kept_places<G>(transitions: Seq<Transition<G>>, ids: Set<usize>) -> Seq<int>
    decreases transitions.len(),
{
    if transitions.len() == 0 {
        Seq::empty()
    } else if ids.contains(transitions.last().target) {
        kept_places(transitions.drop_last(), ids).push(transitions.len() - 1)
    } else {
        kept_places(transitions.drop_last(), ids)
    }
}

/// Validation removes the transitions to unregistered states and nothing
/// else, and moves nothing: what is left leads to registered states only;
/// it is picked from the table at rising places, so of two transitions that
/// stay the one that came first still comes first; every transition to a
/// registered state is still there, as often as before; and a table without
/// transitions to unregistered states is left as it is.
pub proof fn lemma_pruned<G>(transitions: Seq<Transition<G>>, ids: Set<usize>)
    ensures
        forall|i: int|
            0 <= i < pruned(transitions, ids).len() ==> ids.contains(
                (#[trigger] pruned(transitions, ids)[i]).target,
            ),
        picks(kept_places(transitions, ids), transitions, pruned(transitions, ids)),
        forall|entry: Transition<G>|
            ids.contains(entry.target) ==> #[trigger] occurs(pruned(transitions, ids), entry)
                == occurs(transitions, entry),
        forall|target: usize|
            ids.contains(target) ==> #[trigger] count_to(pruned(transitions, ids), target)
                == count_to(transitions, target),
        pruned(transitions, ids).len() + dangling(transitions, ids).len() == transitions.len(),
        (forall|i: int| 0 <= i < transitions.len() ==> ids.contains(
            (#[trigger] transitions[i]).target,
        )) ==> pruned(transitions, ids) == transitions,
    decreases transitions.len(),
{
    if transitions.len() > 0 {
        let front = transitions.drop_last();
        let last = transitions.last();
        let kept = pruned(transitions, ids);
        let places = kept_places(transitions, ids);
        lemma_pruned(front, ids);
        let kept_front = pruned(front, ids);
        let places_front = kept_places(front, ids);
        assert(forall|i: int| 0 <= i < front.len() ==> front[i] == transitions[i]);
        if ids.contains(last.target) {
            assert(kept.drop_last() == kept_front);
            assert forall|i: int| 0 <= i < kept.len() implies ids.contains(
                (#[trigger] kept[i]).target,
            ) by {
                if i < kept_front.len() {
                    assert(kept[i] == kept_front[i]);
                }
            }
            assert(picks(places, transitions, kept)) by {
                assert forall|i: int| 0 <= i < places.len() implies 0 <= #[trigger] places[i]
                    < transitions.len() && kept[i] == transitions[places[i]] by {
                    if i < places_front.len() {
                        assert(places[i] == places_front[i]);
                        assert(kept[i] == kept_front[i]);
                    }
                }
                assert forall|i: int, j: int| 0 <= i < j < places.len() implies #[trigger] places[i]
                    < #[trigger] places[j] by {
                    assert(places[i] == places_front[i]);
                    if j < places_front.len() {
                        assert(places[j] == places_front[j]);
                    }
                }
            }
            assert forall|entry: Transition<G>| ids.contains(entry.target) implies #[trigger] occurs(
                kept,
                entry,
            ) == occurs(transitions, entry) by {
                assert(occurs(kept_front, entry) == occurs(front, entry));
            }
            assert forall|target: usize| ids.contains(target) implies #[trigger] count_to(
                kept,
                target,
            ) == count_to(transitions, target) by {
                assert(count_to(kept_front, target) == count_to(front, target));
            }
            if forall|i: int| 0 <= i < transitions.len() ==> ids.contains(
                (#[trigger] transitions[i]).target,
            ) {
                assert(kept_front == front);
                assert(kept == transitions);
            }
        } else {
            assert(picks(places, transitions, kept)) by {
                assert forall|i: int| 0 <= i < places.len() implies 0 <= #[trigger] places[i]
                    < transitions.len() && kept[i] == transitions[places[i]] by {
                    assert(places[i] == places_front[i]);
                }
            }
            assert forall|entry: Transition<G>| ids.contains(entry.target) implies #[trigger] occurs(
                kept,
                entry,
            ) == occurs(transitions, entry) by {
                assert(occurs(kept_front, entry) == occurs(front, entry));
            }
            assert forall|target: usize| ids.contains(target) implies #[trigger] count_to(
                kept,
                target,
            ) == count_to(transitions, target) by {
                assert(count_to(kept_front, target) == count_to(front, target));
            }
            assert(!ids.contains(transitions[transitions.len() - 1].target));
        }
    }
}

/// Id of the synthetic state in which every machine starts. Callers register
/// their own states under other ids.
pub const READY_STATE: usize = usize::MAX;

/// One hook invocation, named by the hook and the id of the state that owns it.
pub enum Call {
    /// The exit hook of the state.
    Exit(usize),
    /// The enter hook of the state.
    Enter(usize),
    /// The update hook of the state.
    Update(usize),
}

/// The context after `hook` ran on `ctx`; a missing hook changes nothing.
pub open spec fn apply<H: Hook>(hook: Option<H>, ctx: <H::Ctx as View>::V) -> <H::Ctx as View>::V {
    match hook {
        Some(h) => h.effect(ctx),
        None => ctx,
    }
}

/// The states of `states` by id, each as its view.
pub open spec fn views<G, H>(states: Map<usize, State<G, H>>) -> Map<usize, StateView<G, H>> {
    Map::new(|id: usize| states.contains_key(id), |id: usize| states[id]@)
}

/// Whether every transition of every state in `states` leads to a state in
/// `states`.
pub open spec fn closed_graph<G, H>(states: Map<usize, StateView<G, H>>) -> bool {
    forall|id: usize, i: int|
        states.contains_key(id) && 0 <= i < states[id].transitions.len() ==> states.contains_key(
            #[trigger] states[id].transitions[i].target,
        )
}

/// The hook that `call` names among `states`.
pub open spec fn hook_of<G, H>(states: Map<usize, StateView<G, H>>, call: Call) -> Option<H> {
    match call {
        Call::Exit(id) => states[id].on_exit,
        Call::Enter(id) => states[id].on_enter,
        Call::Update(id) => states[id].on_update,
    }
}

/// The context after the hooks named by `calls` ran on `ctx`, first to last.
pub open spec fn replay<G, H: Hook>(
    states: Map<usize, StateView<G, H>>,
    calls: Seq<Call>,
    ctx: <H::Ctx as View>::V,
) -> <H::Ctx as View>::V
    decreases calls.len(),
{
    if calls.len() == 0 {
        ctx
    } else {
        replay(states, calls.drop_first(), apply(hook_of(states, calls[0]), ctx))
    }
}

/// The id that is active after an update on `ctx` of a machine with the
/// states `states` and the active state `active`: the target of the first
/// true guard of the active state, or `active` itself when no guard is true.
pub open spec fn successor<G: Guard, H>(
    states: Map<usize, StateView<G, H>>,
    active: usize,
    ctx: <G::Ctx as View>::V,
) -> usize {
    match first_match(states[active].transitions, ctx) {
        Some(target) => target,
        None => active,
    }
}

/// The hooks that an update invokes when it moves from `active` to `next`,
/// in order. A change of state exits the old state and enters the new one;
/// the update hook of the state that is active at the end always comes last.
pub open spec fn calls_between(active: usize, next: usize) -> Seq<Call> {
    if next != active {
        seq![Call::Exit(active), Call::Enter(next), Call::Update(next)]
    } else {
        seq![Call::Update(next)]
    }
}

/// An update that stays in `active` runs the update hook of `active` and
/// nothing else.
pub proof fn lemma_replay_stay<G, H: Hook>(
    states: Map<usize, StateView<G, H>>,
    active: usize,
    ctx: <H::Ctx as View>::V,
)
    ensures
        replay(states, calls_between(active, active), ctx) == apply(states[active].on_update, ctx),
{
    let calls = calls_between(active, active);
    let c1 = apply(hook_of(states, calls[0]), ctx);
    assert(calls.drop_first().len() == 0);
    assert(replay(states, calls.drop_first(), c1) == c1);
}

/// An update that moves from `active` to another state `next` runs the exit
/// hook of `active`, then the enter hook of `next`, then the update hook of
/// `next`, each once.
pub proof fn lemma_replay_change<G, H: Hook>(
    states: Map<usize, StateView<G, H>>,
    active: usize,
    next: usize,
    ctx: <H::Ctx as View>::V,
)
    requires
        next != active,
    ensures
        replay(states, calls_between(active, next), ctx) == apply(
            states[next].on_update,
            apply(states[next].on_enter, apply(states[active].on_exit, ctx)),
        ),
{
    let calls = calls_between(active, next);
    let c1 = apply(hook_of(states, calls[0]), ctx);
    let c2 = apply(hook_of(states, calls[1]), c1);
    let c3 = apply(hook_of(states, calls[2]), c2);
    let t1 = calls.drop_first();
    let t2 = t1.drop_first();
    let t3 = t2.drop_first();
    assert(t1[0] == calls[1]);
    assert(t2[0] == calls[2]);
    assert(t3.len() == 0);
    assert(replay(states, t3, c3) == c3);
    assert(replay(states, t2, c2) == c3);
    assert(replay(states, t1, c1) == c3);
}

/// A validated state graph together with the id of its active state.
pub struct StateMachine<G, H> {
    states: HashMap<usize, State<G, H>>,
    active_state: usize,
}

impl<G, H> StateMachine<G, H> {
    #[verifier::type_invariant]
    spec fn inv(self) -> bool {
        self.wf()
    }

    /// The states of the machine by id.
    pub closed spec fn states(&self) -> Map<usize, StateView<G, H>> {
        views(self.states@)
    }

    /// The id of the active state.
    pub closed spec fn active(&self) -> usize {
        self.active_state
    }

    /// What the builder guarantees of every machine: the active state exists
    /// and no transition leaves the graph.
    pub open spec fn wf(&self) -> bool {
        &&& self.states().contains_key(self.active())
        &&& closed_graph(self.states())
    }

    /// The id of the state that is active after an update on `ctx`.
    pub open spec fn next_active(&self, ctx: <G::Ctx as View>::V) -> usize where G: Guard {
        successor(self.states(), self.active(), ctx)
    }

    /// The hooks that an update on `ctx` invokes, in order.
    pub open spec fn calls(&self, ctx: <G::Ctx as View>::V) -> Seq<Call> where G: Guard {
        calls_between(self.active(), self.next_active(ctx))
    }

    /// The id of the active state.
    pub fn active_state(&self) -> (r: usize)
        ensures
            r == self.active(),
    {
        self.active_state
    }

    /// One tick of the machine: takes the first transition of the active
    /// state whose guard is true of the context as it is on entry, runs the
    /// exit and enter hooks if that changes the state, and then runs the
    /// update hook of the state that is now active.
    pub fn update(&mut self, ctx: &mut G::Ctx) where G: Guard, H: Hook<Ctx = G::Ctx>
        ensures
            final(self).states() == old(self).states(),
            final(self).active() == old(self).next_active(old(ctx)@),
            final(ctx)@ == replay(old(self).states(), old(self).calls(old(ctx)@), old(ctx)@),
            final(self).wf(),
    {
        broadcast use vstd::std_specs::hash::group_hash_axioms;

        proof {
            use_type_invariant(&*self);
        }
        let ghost states = self.states();
        let ghost start = ctx@;
        let current = self.states.get(&self.active_state).unwrap();
        let fired = current.first_true(ctx);
        let mut next = self.active_state;
        if let Some(target) = fired {
            proof {
                let table = states[self.active_state].transitions;
                lemma_first_match(table, start);
                let i = choose|i: int|
                    0 <= i < table.len() && (#[trigger] table[i]).guard.holds(start)
                        && first_match(table, start) == Some(table[i].target);
                assert(states.contains_key(states[self.active_state].transitions[i].target));
            }
            next = target;
        }
        if next != self.active_state {
            if let Some(hook) = &current.on_exit {
                hook.run(ctx);
            }
            let entered = self.states.get(&next).unwrap();
            if let Some(hook) = &entered.on_enter {
                hook.run(ctx);
            }
            if let Some(hook) = &entered.on_update {
                hook.run(ctx);
            }
            proof {
                lemma_replay_change(states, self.active_state, next, start);
            }
            self.active_state = next;
        } else {
            if let Some(hook) = &current.on_update {
                hook.run(ctx);
            }
            proof {
                lemma_replay_stay(states, next, start);
            }
        }
    }
}

/// Priority. If a guard of the active state is true of `ctx` and none before
/// it in the table is, an update makes its target the active state, whatever
/// the guards after it say. In particular, of two transitions whose guards
/// are both true the first one is taken.
pub proof fn law_priority<G: Guard, H>(
    machine: StateMachine<G, H>,
    ctx: <G::Ctx as View>::V,
    index: int,
)
    requires
        machine.wf(),
        0 <= index < machine.states()[machine.active()].transitions.len(),
        machine.states()[machine.active()].transitions[index].guard.holds(ctx),
        forall|j: int|
            0 <= j < index ==> !(#[trigger] machine.states()[machine.active()].transitions[j]).guard.holds(
                ctx,
            ),
    ensures
        machine.next_active(ctx) == machine.states()[machine.active()].transitions[index].target,
{
    let table = machine.states()[machine.active()].transitions;
    lemma_first_match(table, ctx);
    assert(table[index].guard.holds(ctx));
    let i = choose|i: int|
        0 <= i < table.len() && (#[trigger] table[i]).guard.holds(ctx) && first_match(table, ctx)
            == Some(table[i].target) && forall|j: int|
            0 <= j < i ==> !(#[trigger] table[j]).guard.holds(ctx);
    if i < index {
        assert(!table[i].guard.holds(ctx));
    }
    if index < i {
        assert(!table[index].guard.holds(ctx));
    }
}

/// Priority of two. In a state whose table is `[first, second]`, with both
/// guards true of `ctx`, an update leads to the target of `first`.
pub proof fn law_first_of_two<G: Guard, H>(
    machine: StateMachine<G, H>,
    ctx: <G::Ctx as View>::V,
    first: Transition<G>,
    second: Transition<G>,
)
    requires
        machine.wf(),
        machine.states()[machine.active()].transitions == seq![first, second],
        first.guard.holds(ctx),
        second.guard.holds(ctx),
    ensures
        machine.next_active(ctx) == first.target,
{
    law_priority(machine, ctx, 0);
}

/// Enter on build. A machine built from states among which the ready state
/// was left as the builder made it, and with an initial state other than the
/// ready state, enters the initial state on its first update: the enter hook
/// of the initial state runs once, then its update hook, and nothing else
/// changes the context.
pub proof fn law_enter_on_build<G: Guard, H: Hook<Ctx = G::Ctx>>(
    registered: Map<usize, StateView<G, H>>,
    init: usize,
    machine: StateMachine<G, H>,
    ctx: <G::Ctx as View>::V,
)
    requires
        registered.contains_key(init),
        registered.contains_key(READY_STATE),
        registered[READY_STATE] == blank::<G, H>(),
        init != READY_STATE,
        machine.states() == built(registered, init),
        machine.active() == READY_STATE,
    ensures
        machine.next_active(ctx) == init,
        machine.calls(ctx) == seq![
            Call::Exit(READY_STATE),
            Call::Enter(init),
            Call::Update(init),
        ],
        replay(machine.states(), machine.calls(ctx), ctx) == apply(
            registered[init].on_update,
            apply(registered[init].on_enter, ctx),
        ),
{
    let table = machine.states()[READY_STATE].transitions;
    assert(pruned(registered[READY_STATE].transitions, registered.dom()) == Seq::<
        Transition<G>,
    >::empty());
    assert(table == seq![forced::<G>(init)]);
    assert(table[0].guard.holds(ctx));
    lemma_replay_change(machine.states(), READY_STATE, init, ctx);
}

/// No-op. If no guard of the active state is true of `ctx`, an update leaves
/// the state active and runs its update hook only: neither an exit hook nor
/// an enter hook is invoked.
pub proof fn law_no_guard_no_change<G: Guard, H: Hook<Ctx = G::Ctx>>(
    machine: StateMachine<G, H>,
    ctx: <G::Ctx as View>::V,
)
    requires
        machine.wf(),
        forall|i: int|
            0 <= i < machine.states()[machine.active()].transitions.len() ==> !(
            #[trigger] machine.states()[machine.active()].transitions[i]).guard.holds(ctx),
    ensures
        machine.next_active(ctx) == machine.active(),
        machine.calls(ctx) == seq![Call::Update(machine.active())],
        replay(machine.states(), machine.calls(ctx), ctx) == apply(
            machine.states()[machine.active()].on_update,
            ctx,
        ),
{
    lemma_first_match(machine.states()[machine.active()].transitions, ctx);
    lemma_replay_stay(machine.states(), machine.active(), ctx);
}

/// Self-transition. If the transition that an update takes leads to the
/// active state itself, the update runs the update hook of that state only:
/// neither its exit hook nor its enter hook is invoked.
pub proof fn law_self_transition<G: Guard, H: Hook<Ctx = G::Ctx>>(
    machine: StateMachine<G, H>,
    ctx: <G::Ctx as View>::V,
)
    requires
        machine.wf(),
        first_match(machine.states()[machine.active()].transitions, ctx) == Some(
            machine.active(),
        ),
    ensures
        machine.next_active(ctx) == machine.active(),
        machine.calls(ctx) == seq![Call::Update(machine.active())],
        replay(machine.states(), machine.calls(ctx), ctx) == apply(
            machine.states()[machine.active()].on_update,
            ctx,
        ),
{
    lemma_replay_stay(machine.states(), machine.active(), ctx);
}

/// Collects the keys of `map`, each once, in no particular order.
pub(crate) fn keys_of<V>(map: &HashMap<usize, V>) -> (keys: Vec<usize>)
    ensures
        keys@.no_duplicates(),
        keys@.to_set() == map@.dom(),
{
    broadcast use vstd::std_specs::hash::group_hash_axioms;

    let mut keys: Vec<usize> = Vec::new();
    let iter = map.keys();
    let ghost all = iter.remaining();
    assert(all.unref().to_set() == map@.dom());
    for key in it: iter
        invariant
            it.seq() == all,
            keys@.len() == it.index(),
            forall|i: int| 0 <= i < keys@.len() ==> keys@[i] == *all[i],
    {
        keys.push(*key);
    }
    assert(keys@ == all.unref());
    keys
}

/// Lists the targets of the transitions of `transitions` that lead to no
/// state of `states`.
fn collect_dangling<G, H>(
    transitions: &Vec<Transition<G>>,
    states: &HashMap<usize, State<G, H>>,
) -> (removals: Vec<usize>)
    ensures
        removals@ == dangling(transitions@, states@.dom()),
{
    broadcast use vstd::std_specs::hash::group_hash_axioms;

    let mut removals: Vec<usize> = Vec::new();
    let mut i: usize = 0;
    while i < transitions.len()
        invariant
            i <= transitions.len(),
            removals@ == dangling(transitions@.take(i as int), states@.dom()),
        decreases transitions.len() - i,
    {
        let ghost seen = transitions@.take(i + 1);
        assert(seen.drop_last() == transitions@.take(i as int));
        assert(seen.last() == transitions@[i as int]);
        let target = transitions[i].target;
        if !states.contains_key(&target) {
            removals.push(target);
        }
        i += 1;
    }
    assert(transitions@.take(i as int) == transitions@);
    removals
}

/// Removes from `transitions` every transition that leads neither to `own`
/// nor to a state of `others`, and leaves the rest in their order.
fn prune<G, H>(
    transitions: &mut Vec<Transition<G>>,
    others: &HashMap<usize, State<G, H>>,
    own: usize,
)
    ensures
        final(transitions)@ == pruned(old(transitions)@, others@.dom().insert(own)),
{
    broadcast use vstd::std_specs::hash::group_hash_axioms;

    let ghost table = transitions@;
    let ghost ids = others@.dom().insert(own);
    let ghost mut seen: int = 0;
    let mut i: usize = 0;
    assert(table.take(0) == Seq::<Transition<G>>::empty());
    assert(table.skip(0) == table);
    assert(Seq::<Transition<G>>::empty() + table == table);
    while i < transitions.len()
        invariant
            table == old(transitions)@,
            ids == others@.dom().insert(own),
            0 <= seen <= table.len(),
            i == pruned(table.take(seen), ids).len(),
            transitions@ == pruned(table.take(seen), ids) + table.skip(seen),
        decreases table.len() - seen,
    {
        let ghost kept = pruned(table.take(seen), ids);
        assert(seen < table.len());
        assert(transitions@[i as int] == table.skip(seen)[0]);
        let ghost more = table.take(seen + 1);
        assert(more.drop_last() == table.take(seen));
        assert(more.last() == table[seen]);
        let target = transitions[i].target;
        if target == own || others.contains_key(&target) {
            assert(kept.push(table[seen]) + table.skip(seen + 1) == kept + table.skip(seen));
            i += 1;
        } else {
            let _ = transitions.remove(i);
            assert(transitions@ == kept + table.skip(seen + 1));
        }
        proof {
            seen = seen + 1;
        }
    }
    assert(seen == table.len()) by {
        assert(transitions@.len() == i + (table.len() - seen));
    }
    assert(table.take(seen) == table);
    assert(table.skip(seen) == Seq::<Transition<G>>::empty());
    assert(pruned(table, ids) + Seq::<Transition<G>>::empty() == pruned(table, ids));
}

/// The state `state` as validation leaves it when `ids` are the registered
/// states: the hooks stay, the transition table is pruned.
pub open spec fn validated<G, H>(state: StateView<G, H>, ids: Set<usize>) -> StateView<G, H> {
    StateView { transitions: pruned(state.transitions, ids), ..state }
}

/// The transition that leads from the ready state to the initial state
/// `init` whatever the context.
pub open spec fn forced<G>(init: usize) -> Transition<G> {
    Transition { target: init, guard: Condition::Always }
}

/// The states of the machine that is built from the registered `states` with
/// `init` as the initial state: every state validated, and the ready state
/// given one more transition, of the lowest priority, that is always taken
/// and leads to `init`.
pub open spec fn built<G, H>(states: Map<usize, StateView<G, H>>, init: usize) -> Map<
    usize,
    StateView<G, H>,
> {
    Map::new(
        |id: usize| states.contains_key(id),
        |id: usize|
            if id == READY_STATE {
                StateView {
                    transitions: pruned(states[id].transitions, states.dom()).push(forced(init)),
                    ..states[id]
                }
            } else {
                validated(states[id], states.dom())
            },
    )
}

/// What validation finds in the transition table of one state.
#[derive(Debug, Clone, Copy, PartialEq, Eq, Structural)]
pub struct Findings {
    /// The number of transitions that lead back to the state itself.
    pub self_transitions: usize,
    /// The number of transitions that lead to unregistered states.
    pub dangling: usize,
}

/// Collects states under caller-chosen ids and builds a validated machine.
pub struct StateMachineBuilder<G, H> {
    states: HashMap<usize, State<G, H>>,
}

impl<G, H> StateMachineBuilder<G, H> {
    #[verifier::type_invariant]
    spec fn inv(self) -> bool {
        self.states@.contains_key(READY_STATE)
    }

    /// The registered states by id.
    pub closed spec fn states(&self) -> Map<usize, StateView<G, H>> {
        views(self.states@)
    }

    /// A builder that holds the ready state only, without hooks or
    /// transitions.
    pub fn new() -> (r: Self)
        ensures
            r.states() == Map::<usize, StateView<G, H>>::empty().insert(READY_STATE, blank()),
    {
        broadcast use vstd::std_specs::hash::group_hash_axioms;

        let mut states: HashMap<usize, State<G, H>> = HashMap::new();
        let _ = states.insert(READY_STATE, State::new());
        assert(views(states@) == Map::<usize, StateView<G, H>>::empty().insert(
            READY_STATE,
            blank(),
        ));
        Self { states }
    }

    /// Registers `state` under `id`. A state registered under the same id
    /// before is replaced.
    pub fn add_state(self, id: usize, state: State<G, H>) -> (r: Self)
        ensures
            r.states() == self.states().insert(id, state@),
    {
        broadcast use vstd::std_specs::hash::group_hash_axioms;

        proof {
            use_type_invariant(&self);
        }
        let mut states = self.states;
        let ghost before = states@;
        let _ = states.insert(id, state);
        assert(views(states@) == views(before).insert(id, state@));
        Self { states }
    }

    /// Whether a state is registered under `id`.
    pub fn has_state(&self, id: usize) -> (r: bool)
        ensures
            r == self.states().contains_key(id),
    {
        broadcast use vstd::std_specs::hash::group_hash_axioms;

        self.states.contains_key(&id)
    }

    /// What validation would find in the state registered under `id`, as
    /// the states are registered now: how many of its transitions lead back
    /// to the state itself, which is allowed, stays where it is, and never
    /// changes the state, and how many lead to unregistered states and would
    /// be removed. `None` if no state is registered under `id`.
    pub fn findings(&self, id: usize) -> (r: Option<Findings>)
        ensures
            r is Some == self.states().contains_key(id),
            r matches Some(found) ==> found.self_transitions == count_to(
                self.states()[id].transitions,
                id,
            ) && found.dangling == dangling(
                self.states()[id].transitions,
                self.states().dom(),
            ).len(),
    {
        broadcast use vstd::std_specs::hash::group_hash_axioms;

        match self.states.get(&id) {
            None => None,
            Some(state) => {
                assert(views(self.states@).dom() == self.states@.dom());
                let removals = collect_dangling(&state.transitions, &self.states);
                let mut own: usize = 0;
                let mut i: usize = 0;
                assert(state.transitions@.take(0) == Seq::<Transition<G>>::empty());
                while i < state.transitions.len()
                    invariant
                        i <= state.transitions.len(),
                        own == count_to(state.transitions@.take(i as int), id),
                        own <= i,
                    decreases state.transitions.len() - i,
                {
                    let ghost seen = state.transitions@.take(i + 1);
                    assert(seen.drop_last() == state.transitions@.take(i as int));
                    assert(seen.last() == state.transitions@[i as int]);
                    if state.transitions[i].target == id {
                        own += 1;
                    }
                    i += 1;
                }
                assert(state.transitions@.take(i as int) == state.transitions@);
                Some(Findings { self_transitions: own, dangling: removals.len() })
            },
        }
    }

    /// Validates the graph and builds the machine, which starts in the ready
    /// state and enters `init_state_id` on its first update.
    pub fn build(self, init_state_id: usize) -> (machine: StateMachine<G, H>)
        requires
            self.states().contains_key(init_state_id),
        ensures
            machine.active() == READY_STATE,
            machine.states() == built(self.states(), init_state_id),
            machine.wf(),
    {
        broadcast use vstd::std_specs::hash::group_hash_axioms;

        proof {
            use_type_invariant(&self);
        }
        let mut states = self.states;
        let ghost registered = states@;
        let ghost ids_set = registered.dom();
        let ids = keys_of(&states);
        let mut n: usize = 0;
        while n < ids.len()
            invariant
                n <= ids.len(),
                ids@.no_duplicates(),
                ids@.to_set() == ids_set,
                ids_set == registered.dom(),
                states@.dom() == ids_set,
                forall|k: int|
                    0 <= k < n ==> (#[trigger] states@[ids@[k]])@ == validated(
                        registered[ids@[k]]@,
                        ids_set,
                    ),
                forall|k: int| n <= k < ids.len() ==> #[trigger] states@[ids@[k]] == registered[ids@[k]],
            decreases ids.len() - n,
        {
            let id = ids[n];
            assert(ids@.to_set().contains(ids@[n as int]));
            let ghost before = states@;
            let mut state = states.remove(&id).unwrap();
            assert(states@.dom().insert(id) == ids_set);
            prune(&mut state.transitions, &states, id);
            let _ = states.insert(id, state);
            assert(states@.dom() == ids_set);
            assert forall|k: int| 0 <= k < n + 1 implies (#[trigger] states@[ids@[k]])@
                == validated(registered[ids@[k]]@, ids_set) by {
                if k < n {
                    assert(ids@[k] != ids@[n as int]);
                    assert(states@[ids@[k]] == before[ids@[k]]);
                }
            }
            assert forall|k: int| n + 1 <= k < ids.len() implies #[trigger] states@[ids@[k]]
                == registered[ids@[k]] by {
                assert(ids@[k] != ids@[n as int]);
                assert(states@[ids@[k]] == before[ids@[k]]);
            }
            n += 1;
        }
        let ghost pruned_all = states@;
        let mut ready = states.remove(&READY_STATE).unwrap();
        ready.transitions.push(Transition { target: init_state_id, guard: Condition::Always });
        let _ = states.insert(READY_STATE, ready);
        proof {
            let result = views(states@);
            let expected = built(views(registered), init_state_id);
            assert forall|id: usize| result.contains_key(id) implies #[trigger] result[id]
                == expected[id] by {
                assert(ids@.to_set().contains(id));
                let k = choose|k: int| 0 <= k < ids@.len() && ids@[k] == id;
                assert(pruned_all[ids@[k]]@ == validated(registered[ids@[k]]@, ids_set));
                assert(views(registered).dom() == ids_set);
            }
            assert(result.dom() == expected.dom());
            assert(result == expected);
            assert forall|id: usize, i: int|
                result.contains_key(id) && 0 <= i < result[id].transitions.len()
                    implies result.contains_key(#[trigger] result[id].transitions[i].target) by {
                let table = views(registered)[id].transitions;
                lemma_pruned(table, ids_set);
                if i < pruned(table, ids_set).len() {
                    assert(ids_set.contains(pruned(table, ids_set)[i].target));
                }
            }
        }
        StateMachine { states, active_state: READY_STATE }
    }
}

} // verus!
