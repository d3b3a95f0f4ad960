//! Coroutines: computations that run a step at a time, each time the game
//! asks, until they give a value.  Useful for loading assets.

use vstd::prelude::*;
use crate::error::GameError;

verus! {

/// Where a coroutine stands: still running the computation `F`, or done.
#[derive(Debug)]
pub enum CoroutineState<F> {
    /// The computation is still running.
    Future(F),
    /// The computation gave its value.
    Finished,
}

/// A computation `F` that is advanced one step at a time.
#[derive(Debug)]
pub struct Coroutine<F> {
    state: CoroutineState<F>,
}

impl<F> Coroutine<F> {
    /// Where the coroutine stands.
    pub closed spec fn spec_state(&self) -> CoroutineState<F> {
        self.state
    }

    /// A coroutine that runs `fut`.
    pub fn new(fut: F) -> (c: Self)
        ensures
            c.spec_state() == CoroutineState::Future(fut),
    {
        Coroutine { state: CoroutineState::Future(fut) }
    }

    /// Whether the coroutine has given its value.
    pub fn is_finished(&self) -> (b: bool)
        ensures
            b == (self.spec_state() is Finished),
    {
        match &self.state {
            CoroutineState::Future(_) => false,
            CoroutineState::Finished => true,
        }
    }

    /// Advances the coroutine by one step of `step`, which runs the
    /// computation a little and gives it back with its value, if it has one
    /// now.  The value, if any, is returned, and the coroutine is finished
    /// from then on; a finished coroutine is not run again and gives `None`.
    pub fn poll<T, S: FnOnce(F) -> (F, Option<T>)>(&mut self, step: S) -> (r: Option<T>)
        requires
            old(self).spec_state() matches CoroutineState::Future(f) ==> call_requires(step, (f,)),
        ensures
            match old(self).spec_state() {
                CoroutineState::Finished => r is None && final(self).spec_state() is Finished,
                CoroutineState::Future(f) => exists|g: F| {
                    &&& #[trigger] call_ensures(step, (f,), (g, r))
                    &&& final(self).spec_state() == (if r is Some {
                        CoroutineState::Finished
                    } else {
                        CoroutineState::Future(g)
                    })
                },
            },
            poll_moves(old(self).spec_state(), r, final(self).spec_state()),
    {
        let mut state = CoroutineState::Finished;
        std::mem::swap(&mut state, &mut self.state);
        match state {
            CoroutineState::Future(f) => {
                let (g, out) = step(f);
                match out {
                    Some(v) => Some(v),
                    None => {
                        self.state = CoroutineState::Future(g);
                        None
                    },
                }
            },
            CoroutineState::Finished => None,
        }
    }
}

/// What one poll does to where a coroutine stands: from `before` it gave
/// `r` and came to `after`.  A finished coroutine gives nothing and stays
/// finished; a running one is finished exactly when it gives a value.
pub open spec fn poll_moves<F, T>(before: CoroutineState<F>, r: Option<T>, after: CoroutineState<F>) -> bool {
    match before {
        CoroutineState::Finished => r is None && after is Finished,
        CoroutineState::Future(_) => (r is Some <==> after is Finished),
    }
}

/// Over any run of polls, where `states[i]` is where the coroutine stood
/// before poll `i` and `results[i]` is what that poll gave, a coroutine
/// gives a value at most once: every poll after the one that gave it gives
/// nothing and leaves the coroutine finished.
pub proof fn lemma_value_given_at_most_once<F, T>(states: Seq<CoroutineState<F>>, results: Seq<Option<T>>)
    requires
        states.len() == results.len() + 1,
        forall|i: int| 0 <= i < results.len() ==> #[trigger] poll_moves(states[i], results[i], states[i + 1]),
    ensures
        forall|i: int, j: int| 0 <= i < j < results.len() && (#[trigger] results[i]) is Some
            ==> (#[trigger] results[j]) is None && states[j + 1] is Finished,
{
    assert forall|i: int, j: int| 0 <= i < j < results.len() && (#[trigger] results[i]) is Some
        implies (#[trigger] results[j]) is None && states[j + 1] is Finished by {
        assert(poll_moves(states[i], results[i], states[i + 1]));
        lemma_finished_stays(states, results, i + 1, j);
        assert(poll_moves(states[j], results[j], states[j + 1]));
    }
}

/// A coroutine finished before poll `from` is still finished before poll
/// `to`.
proof fn lemma_finished_stays<F, T>(states: Seq<CoroutineState<F>>, results: Seq<Option<T>>, from: int, to: int)
    requires
        states.len() == results.len() + 1,
        forall|i: int| 0 <= i < results.len() ==> #[trigger] poll_moves(states[i], results[i], states[i + 1]),
        0 <= from <= to < states.len(),
        states[from] is Finished,
    ensures
        states[to] is Finished,
    decreases to - from,
{
    if from < to {
        assert(poll_moves(states[from], results[from], states[from + 1]));
        lemma_finished_stays(states, results, from + 1, to);
    }
}

/// A coroutine that loads a `T`, or fails, and the `T` it loaded.
#[derive(Debug)]
pub struct Loading<T, F> {
    coroutine: Coroutine<F>,
    result: Option<T>,
}

impl<T, F> Loading<T, F> {
    /// The coroutine.
    pub closed spec fn spec_coroutine(&self) -> Coroutine<F> {
        self.coroutine
    }

    /// What was loaded, if anything yet.
    pub closed spec fn spec_result(&self) -> Option<T> {
        self.result
    }

    /// Loads with `coroutine`; nothing is loaded yet.
    pub fn new(coroutine: Coroutine<F>) -> (l: Self)
        ensures
            l.spec_coroutine() == coroutine,
            l.spec_result() is None,
    {
        Loading { coroutine, result: None }
    }

    /// Advances the coroutine by one step of `step`.  Where it gives a value,
    /// an error is returned as it is, and a loaded `T` is kept and returned.
    /// Else `None` is returned, also where something was loaded before.
    pub fn poll<S: FnOnce(F) -> (F, Option<Result<T, GameError>>)>(&mut self, step: S) -> (r: Result<&Option<T>, GameError>)
        requires
            old(self).spec_coroutine().spec_state() matches CoroutineState::Future(f) ==> call_requires(step, (f,)),
        ensures
            match old(self).spec_coroutine().spec_state() {
                CoroutineState::Finished => r matches Ok(o) && o is None
                    && final(self).spec_result() == old(self).spec_result()
                    && final(self).spec_coroutine().spec_state() is Finished,
                CoroutineState::Future(f) => exists|g: F, out: Option<Result<T, GameError>>| {
                    &&& #[trigger] call_ensures(step, (f,), (g, out))
                    &&& final(self).spec_coroutine().spec_state() == (if out is Some {
                        CoroutineState::Finished
                    } else {
                        CoroutineState::Future(g)
                    })
                    &&& match out {
                        Some(Ok(v)) => r matches Ok(o) && *o == Some(v) && final(self).spec_result() == Some(v),
                        Some(Err(e)) => r == Err::<&Option<T>, GameError>(e)
                            && final(self).spec_result() == old(self).spec_result(),
                        None => r matches Ok(o) && o is None
                            && final(self).spec_result() == old(self).spec_result(),
                    }
                },
            },
    {
        match self.coroutine.poll(step) {
            Some(Ok(v)) => {
                self.result = Some(v);
                Ok(&self.result)
            },
            Some(Err(e)) => Err(e),
            None => Ok(&None),
        }
    }

    /// What was loaded, if anything yet.
    pub fn result(&self) -> (r: &Option<T>)
        ensures
            *r == self.spec_result(),
    {
        &self.result
    }

    /// What was loaded, if anything yet, to change.
    pub fn result_mut(&mut self) -> (r: &mut Option<T>)
        ensures
            *r == old(self).spec_result(),
            final(self).spec_result() == *final(r),
            final(self).spec_coroutine() == old(self).spec_coroutine(),
    {
        &mut self.result
    }
}

/// A step that, run the first time, is not ready yet, and from then on is.
#[derive(Debug, Copy, Clone, PartialEq, Eq, Structural)]
pub struct YieldOp(pub bool);

impl YieldOp {
    /// Runs the step: `true` where it is ready.  The first run only marks
    /// it as run, and is not ready.
    pub fn poll(&mut self) -> (ready: bool)
        ensures
            (*final(self), ready) == yield_poll(*old(self)),
    {
        if !self.0 {
            self.0 = true;
            return false;
        }
        true
    }
}

/// What one poll of a [`YieldOp`] does: it is marked as run, and is ready
/// exactly when it had been run before.
pub open spec fn yield_poll(y: YieldOp) -> (YieldOp, bool) {
    (YieldOp(true), y.0)
}

/// The step after `k` polls, starting from `y`.
pub open spec fn yield_after(y: YieldOp, k: nat) -> YieldOp
    decreases k,
{
    if k == 0 {
        y
    } else {
        yield_poll(yield_after(y, (k - 1) as nat)).0
    }
}

/// A step that waits one poll before it is ready: a coroutine that awaits
/// it gives the game a turn.
pub fn yield_now() -> (y: YieldOp)
    ensures
        y == YieldOp(false),
{
    YieldOp(false)
}

/// The step that [`yield_now`] gives waits exactly one poll: polled after
/// `k` earlier polls, it is ready exactly when `k > 0`.
pub proof fn lemma_yield_waits_one_poll(k: nat)
    ensures
        yield_poll(yield_after(YieldOp(false), k)).1 == (k > 0),
    decreases k,
{
    if k > 0 {
        lemma_yield_waits_one_poll((k - 1) as nat);
    }
}

} // verus!
