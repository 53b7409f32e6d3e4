//! The loop that drives an engine over the actions that come in.

use vstd::prelude::*;

verus! {

/// A state machine that a runtime loop drives: it turns a state and an
/// action into the next state and a result, and says which states end the
/// run.
pub trait Engine<A, R, S> {
    /// Whether a step from `state` on `action` can end in `next` and hand
    /// out `result`.
    spec fn steps(&self, state: S, action: A, next: S, result: R) -> bool;

    /// Whether `state` ends the run.
    spec fn ends(&self, state: S) -> bool;

    fn reduce(&self, state: S, action: A) -> (r: (S, R))
        ensures
            self.steps(state, action, r.0, r.1),
    ;

    fn is_final(&self, state: &S) -> (r: bool)
        ensures
            r == self.ends(*state),
    ;
}

/// The state in which step `i` of a run starts: the first state, or the one
/// in which the step before ended.
pub open spec fn state_before<S>(init: S, states: Seq<S>, i: int) -> S {
    if i == 0 {
        init
    } else {
        states[i - 1]
    }
}

/// Whether the result of the step at a position was taken by whoever
/// listens: what `accepted` says at that position, and yes where it says
/// nothing.
pub open spec fn send_ok(accepted: Seq<bool>, at: int) -> bool {
    at >= accepted.len() || accepted[at]
}

/// Whether a step at a position is the last of a run: it ended in a final
/// state, or its result was not taken.
pub open spec fn is_last_step<A, R, S, E: Engine<A, R, S>>(
    engine: E,
    accepted: Seq<bool>,
    states: Seq<S>,
    at: int,
) -> bool {
    engine.ends(states[at]) || !send_ok(accepted, at)
}

/// Whether a run that starts in `init` with `actions` waiting, and whose
/// results are taken as `accepted` says, can pass through `states` and hand
/// out `results`: the actions are taken in order and each gives one result;
/// no step but the last ends in a final state or has its result refused;
/// and actions are left over only where the last step did.
pub open spec fn is_run_sending<A, R, S, E: Engine<A, R, S>>(
    engine: E,
    init: S,
    actions: Seq<A>,
    accepted: Seq<bool>,
    states: Seq<S>,
    results: Seq<R>,
) -> bool {
    &&& states.len() == results.len()
    &&& results.len() <= actions.len()
    &&& forall|i: int|
        0 <= i < results.len() ==> engine.steps(
            state_before(init, states, i),
            #[trigger] actions[i],
            states[i],
            results[i],
        )
    &&& forall|i: int|
        0 <= i < results.len() - 1 ==> !#[trigger] is_last_step(engine, accepted, states, i)
    &&& results.len() < actions.len() ==> results.len() > 0 && is_last_step(
        engine,
        accepted,
        states,
        results.len() - 1,
    )
}

/// Whether a run in which every result is taken can pass through `states`
/// and hand out `results`.
pub open spec fn is_run<A, R, S, E: Engine<A, R, S>>(
    engine: E,
    init: S,
    actions: Seq<A>,
    states: Seq<S>,
    results: Seq<R>,
) -> bool {
    is_run_sending(engine, init, actions, Seq::empty(), states, results)
}

/// What the loop decides after an action: the next state, the result to
/// send, and whether the state ends the run.
pub fn runtime_step<A, R, S, E: Engine<A, R, S>>(engine: &E, state: S, action: A) -> (r: (
    S,
    R,
    bool,
))
    ensures
        engine.steps(state, action, r.0, r.1),
        r.2 == engine.ends(r.0),
{
    let (next, result) = engine.reduce(state, action);
    let stop = engine.is_final(&next);
    (next, result, stop)
}

/// Whether the loop stops after a step: its result was not taken, or its
/// state ends the run.
pub fn stops_after(sent: bool, stop: bool) -> (r: bool)
    ensures
        r == (!sent || stop),
{
    !sent || stop
}

/// Drives the engine over the actions that wait, in order, until one of
/// them ends the run, a result is not taken, or no action is left.
/// `accepted` says for each step whether its result is taken; a step that
/// it says nothing of has its result taken. Hands back the last state and
/// the results that were handed out, one for each action taken.
pub fn runtime_loop_sending<A, R, S, E: Engine<A, R, S>>(
    engine: &E,
    initstate: S,
    actions: Vec<A>,
    accepted: &Vec<bool>,
) -> (r: (S, Vec<R>))
    ensures
        exists|states: Seq<S>| #[trigger]
            is_run_sending(*engine, initstate, actions@, accepted@, states, r.1@) && r.0
                == state_before(initstate, states, states.len() as int),
{
    let ghost all = actions@;
    let ghost mut states: Seq<S> = Seq::empty();
    let mut waiting = actions;
    let mut state = initstate;
    let mut results: Vec<R> = Vec::new();
    let mut stopped = false;
    while !stopped && waiting.len() > 0
        invariant
            results@.len() == states.len(),
            results@.len() + waiting@.len() == all.len(),
            waiting@ == all.subrange(results@.len() as int, all.len() as int),
            state == state_before(initstate, states, states.len() as int),
            forall|i: int|
                0 <= i < results@.len() ==> engine.steps(
                    state_before(initstate, states, i),
                    #[trigger] all[i],
                    states[i],
                    results@[i],
                ),
            forall|i: int|
                0 <= i < results@.len() - 1 ==> !#[trigger] is_last_step(
                    *engine,
                    accepted@,
                    states,
                    i,
                ),
            results@.len() > 0 ==> stopped == is_last_step(
                *engine,
                accepted@,
                states,
                results@.len() - 1,
            ),
            results@.len() == 0 ==> !stopped,
        decreases waiting@.len() + (if stopped { 0int } else { 1int }),
    {
        let at = results.len();
        let sent = if at < accepted.len() {
            accepted[at]
        } else {
            true
        };
        let action = waiting.remove(0);
        let (next, result, stop) = runtime_step(engine, state, action);
        state = next;
        results.push(result);
        stopped = stops_after(sent, stop);
        proof {
            let before = states;
            states = states.push(state);
            assert forall|i: int| 0 <= i < results@.len() - 1 implies !#[trigger] is_last_step(
                *engine,
                accepted@,
                states,
                i,
            ) by {
                assert(states[i] == before[i]);
                assert(is_last_step(*engine, accepted@, before, i) == is_last_step(
                    *engine,
                    accepted@,
                    states,
                    i,
                ));
            }
        }
    }
    let r = (state, results);
    assert(is_run_sending(*engine, initstate, all, accepted@, states, r.1@));
    r
}

/// Drives the engine over the actions that wait, in order, until one of
/// them ends the run or none is left. Hands back the last state and the
/// results, one for each action taken.
pub fn runtime_loop<A, R, S, E: Engine<A, R, S>>(engine: &E, initstate: S, actions: Vec<A>) -> (r:
    (S, Vec<R>))
    ensures
        exists|states: Seq<S>| #[trigger]
            is_run(*engine, initstate, actions@, states, r.1@) && r.0 == state_before(
                initstate,
                states,
                states.len() as int,
            ),
{
    let every: Vec<bool> = Vec::new();
    let r = runtime_loop_sending(engine, initstate, actions, &every);
    proof {
        let states = choose|states: Seq<S>| #[trigger]
            is_run_sending(*engine, initstate, actions@, every@, states, r.1@) && r.0
                == state_before(initstate, states, states.len() as int);
        assert(every@ =~= Seq::<bool>::empty());
        assert(is_run(*engine, initstate, actions@, states, r.1@));
    }
    r
}

/// A run stops with the first result that is not taken: no action after it
/// gives a result.
pub proof fn law_refused_result_ends_the_run<A, R, S, E: Engine<A, R, S>>(
    engine: E,
    init: S,
    actions: Seq<A>,
    accepted: Seq<bool>,
    states: Seq<S>,
    results: Seq<R>,
    at: int,
)
    requires
        is_run_sending(engine, init, actions, accepted, states, results),
        0 <= at < results.len(),
        !send_ok(accepted, at),
    ensures
        results.len() == at + 1,
{
    if at < results.len() - 1 {
        assert(!is_last_step(engine, accepted, states, at));
    }
}

/// A run hands out one result for each action that it took: as many as
/// there are actions up to and including the first that ended in a final
/// state, and as many as there are actions where none did.
pub proof fn law_one_result_per_action<A, R, S, E: Engine<A, R, S>>(
    engine: E,
    init: S,
    actions: Seq<A>,
    states: Seq<S>,
    results: Seq<R>,
)
    requires
        is_run(engine, init, actions, states, results),
    ensures
        forall|i: int|
            0 <= i < states.len() && engine.ends(#[trigger] states[i]) ==> results.len() == i + 1,
        (forall|i: int| 0 <= i < states.len() ==> !engine.ends(#[trigger] states[i]))
            ==> results.len() == actions.len(),
{
    let every = Seq::<bool>::empty();
    assert forall|i: int| 0 <= i < states.len() && engine.ends(
        #[trigger] states[i],
    ) implies results.len() == i + 1 by {
        if i < results.len() - 1 {
            assert(!is_last_step(engine, every, states, i));
        }
    }
    if results.len() < actions.len() {
        assert(is_last_step(engine, every, states, results.len() - 1));
    }
}

/// The results of a run stand in the order of the actions that gave them:
/// the result at a position is the one of the step on the action at that
/// position, from the state that the steps before it led to.
pub proof fn law_results_in_order<A, R, S, E: Engine<A, R, S>>(
    engine: E,
    init: S,
    actions: Seq<A>,
    states: Seq<S>,
    results: Seq<R>,
    at: int,
)
    requires
        is_run(engine, init, actions, states, results),
        0 <= at < results.len(),
    ensures
        engine.steps(state_before(init, states, at), actions[at], states[at], results[at]),
{
}

} // verus!
