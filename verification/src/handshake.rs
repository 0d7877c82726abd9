//! The handshake driver: a state machine that carries a synchronous
//! handshake's partial progress across any number of suspensions.
//!
//! The engine's synchronous handshake entry point answers one of three ways:
//! a completed engine, a continuation capturing the in-progress state after a
//! would-block, or a hard failure.  The driver stores that answer between
//! polls and, on each poll, either delivers a terminal result or asks the
//! caller to run the stored continuation once more.  Exactly one synchronous
//! engine call happens per poll; no retry loop spins inside a poll.

use vstd::prelude::*;

use crate::blocking::Poll;
use crate::errors::Error;

verus! {

/// What one synchronous handshake call returned.  `C` is the engine's
/// continuation type, `E` the completed-engine type, `D` the engine's
/// diagnostic type; all three are opaque to the driver.
#[derive(Debug, PartialEq, Eq)]
pub enum HandshakeStep<C, E, D> {
    /// The handshake completed; the engine is ready for application data.
    Done(E),
    /// The transport would block; the continuation resumes the handshake
    /// exactly where it stopped.
    WouldBlock(C),
    /// A hard failure (certificate, protocol); carries the engine's
    /// diagnostic unchanged.
    Failure(D),
}

/// The handshake's stored state between polls.
#[derive(Debug, PartialEq, Eq)]
pub enum Handshake<C, E, D> {
    /// The handshake is part-way done; the continuation resumes it.
    InProgress(C),
    /// Terminal: the handshake succeeded and this engine is to be delivered.
    Completed(E),
    /// Terminal: this error is to be delivered.
    Failed(Error<D>),
}

/// The state a handshake call's answer puts the driver in.
pub open spec fn spec_from_step<C, E, D>(step: HandshakeStep<C, E, D>) -> Handshake<C, E, D> {
    match step {
        HandshakeStep::Done(e) => Handshake::Completed(e),
        HandshakeStep::WouldBlock(c) => Handshake::InProgress(c),
        HandshakeStep::Failure(d) => Handshake::Failed(Error::HandshakeFailure(d)),
    }
}

impl<C, E, D> Handshake<C, E, D> {
    /// True exactly when the handshake still has a stored continuation, that
    /// is, when its last engine call reported would-block.
    pub fn was_pending(&self) -> (r: bool)
        ensures
            r == (self is InProgress),
    {
        if let Handshake::InProgress(_) = self {
            true
        } else {
            false
        }
    }

    /// Files one handshake call's answer as driver state: completion and hard
    /// failure are terminal, a would-block stores the continuation.
    pub fn from_step(step: HandshakeStep<C, E, D>) -> (s: Self)
        ensures
            s == spec_from_step(step),
    {
        match step {
            HandshakeStep::Done(e) => Handshake::Completed(e),
            HandshakeStep::WouldBlock(c) => Handshake::InProgress(c),
            HandshakeStep::Failure(d) => Handshake::Failed(Error::HandshakeFailure(d)),
        }
    }
}

impl<C, E, D> From<HandshakeStep<C, E, D>> for Handshake<C, E, D> {
    /// The conversion [`Handshake::from_step`] makes, as the std trait.
    fn from(step: HandshakeStep<C, E, D>) -> (s: Self) {
        Handshake::from_step(step)
    }
}

impl<C, E, D> vstd::std_specs::convert::FromSpecImpl<HandshakeStep<C, E, D>> for Handshake<C, E, D> {
    open spec fn obeys_from_spec() -> bool {
        true
    }

    open spec fn from_spec(step: HandshakeStep<C, E, D>) -> Self {
        spec_from_step(step)
    }
}

/// What a poll must do next, decided from the stored state alone.
#[derive(Debug, PartialEq, Eq)]
pub enum PollAction<C, E, D> {
    /// The result is already terminal: hand it to the awaiting caller now.
    Deliver(Result<E, Error<D>>),
    /// Run one synchronous handshake call on this continuation, then file its
    /// answer with [`PendingTlsStream::finish_poll`].
    RunHandshake(C),
}

/// A TLS connection whose handshake has been started and not yet delivered.
///
/// The driver owns the handshake state and a model of the bridge's transient
/// suspension-context reference: `context_attached` is true exactly while a
/// poll has the current suspension context attached, and every poll clears it
/// again on each of its exit paths.
pub struct PendingTlsStream<C, E, D> {
    /// The stored handshake state.  Delivering a terminal result moves it out
    /// and leaves `Failed(RepeatedPoll)`, so a later poll fails distinctly
    /// instead of re-running the engine or returning stale data.
    pub inner: Handshake<C, E, D>,
    /// Whether the suspension context is attached right now; false whenever
    /// no poll is mid-flight.
    pub context_attached: bool,
}

/// The first half of one poll, decided from the stored state: terminal states
/// deliver at once (leaving the context detached), an in-progress state hands
/// the continuation out for exactly one engine call (context attached).
pub open spec fn spec_begin_poll<C, E, D>(s: Handshake<C, E, D>) -> (Handshake<C, E, D>, PollAction<C, E, D>) {
    match s {
        Handshake::InProgress(c) => (
            Handshake::Failed(Error::RepeatedPoll),
            PollAction::RunHandshake(c),
        ),
        Handshake::Completed(e) => (Handshake::Failed(Error::RepeatedPoll), PollAction::Deliver(Ok(e))),
        Handshake::Failed(err) => (Handshake::Failed(Error::RepeatedPoll), PollAction::Deliver(Err(err))),
    }
}

/// The second half of one poll, applied to the engine call's answer: a
/// would-block suspends with the continuation stored, anything else is
/// delivered now and leaves the driver consumed.
pub open spec fn spec_finish_poll<C, E, D>(step: HandshakeStep<C, E, D>) -> (Handshake<C, E, D>, Poll<Result<E, Error<D>>>) {
    match step {
        HandshakeStep::Done(e) => (Handshake::Failed(Error::RepeatedPoll), Poll::Ready(Ok(e))),
        HandshakeStep::WouldBlock(c) => (Handshake::InProgress(c), Poll::Pending),
        HandshakeStep::Failure(d) => (
            Handshake::Failed(Error::RepeatedPoll),
            Poll::Ready(Err(Error::HandshakeFailure(d))),
        ),
    }
}

/// One whole poll of the driver: the state it leaves behind and the poll
/// outcome the caller sees.  When the stored state is terminal the engine is
/// not called and `step` is ignored; otherwise `step` is what the single
/// engine call of this poll returned.
pub open spec fn spec_poll<C, E, D>(
    s: Handshake<C, E, D>,
    step: HandshakeStep<C, E, D>,
) -> (Handshake<C, E, D>, Poll<Result<E, Error<D>>>) {
    match s {
        Handshake::InProgress(_) => spec_finish_poll(step),
        Handshake::Completed(e) => (Handshake::Failed(Error::RepeatedPoll), Poll::Ready(Ok(e))),
        Handshake::Failed(err) => (Handshake::Failed(Error::RepeatedPoll), Poll::Ready(Err(err))),
    }
}

impl<C, E, D> PendingTlsStream<C, E, D> {
    /// Starts a driver from the initial handshake call's answer, with no
    /// suspension context attached.
    pub fn new(step: HandshakeStep<C, E, D>) -> (s: Self)
        ensures
            s.inner == spec_from_step(step),
            !s.context_attached,
    {
        PendingTlsStream { inner: Handshake::from_step(step), context_attached: false }
    }

    /// Opens one poll.  Requires that no poll is mid-flight on this driver:
    /// the suspension context must be attached only for the duration of a
    /// single poll.
    ///
    /// A terminal state is moved out and delivered with the context still
    /// detached; an in-progress state attaches the context and hands the
    /// continuation out for exactly one engine call, whose answer must then
    /// be filed with [`Self::finish_poll`].  Either way the slot left behind
    /// is `Failed(RepeatedPoll)`, so a poll after delivery fails distinctly.
    pub fn begin_poll(&mut self) -> (a: PollAction<C, E, D>)
        requires
            !old(self).context_attached,
        ensures
            (final(self).inner, a) == spec_begin_poll(old(self).inner),
            final(self).context_attached == (old(self).inner is InProgress),
    {
        let mut taken = Handshake::Failed(Error::RepeatedPoll);
        core::mem::swap(&mut self.inner, &mut taken);
        match taken {
            Handshake::InProgress(c) => {
                self.context_attached = true;
                PollAction::RunHandshake(c)
            }
            Handshake::Completed(e) => PollAction::Deliver(Ok(e)),
            Handshake::Failed(err) => PollAction::Deliver(Err(err)),
        }
    }

    /// Closes the poll opened by a [`Self::begin_poll`] that handed a
    /// continuation out, filing the engine call's answer.  The suspension
    /// context is cleared on every exit path: success, would-block and hard
    /// error alike.
    pub fn finish_poll(&mut self, step: HandshakeStep<C, E, D>) -> (p: Poll<Result<E, Error<D>>>)
        requires
            old(self).context_attached,
        ensures
            (final(self).inner, p) == spec_finish_poll(step),
            !final(self).context_attached,
    {
        self.context_attached = false;
        match step {
            HandshakeStep::Done(e) => {
                self.inner = Handshake::Failed(Error::RepeatedPoll);
                Poll::Ready(Ok(e))
            }
            HandshakeStep::WouldBlock(c) => {
                self.inner = Handshake::InProgress(c);
                Poll::Pending
            }
            HandshakeStep::Failure(d) => {
                self.inner = Handshake::Failed(Error::RepeatedPoll);
                Poll::Ready(Err(Error::HandshakeFailure(d)))
            }
        }
    }
}

/// The poll outcomes of a whole run of the driver: poll `i` of the run sees
/// `steps[i]` as its engine call's answer (ignored where no engine call is
/// made, that is, where the stored state is already terminal).
pub open spec fn run_outputs<C, E, D>(
    s: Handshake<C, E, D>,
    steps: Seq<HandshakeStep<C, E, D>>,
) -> Seq<Poll<Result<E, Error<D>>>>
    decreases steps.len(),
{
    if steps.len() == 0 {
        Seq::empty()
    } else {
        seq![spec_poll(s, steps[0]).1] + run_outputs(spec_poll(s, steps[0]).0, steps.drop_first())
    }
}

/// The state the driver stores after a whole run.
pub open spec fn run_state<C, E, D>(
    s: Handshake<C, E, D>,
    steps: Seq<HandshakeStep<C, E, D>>,
) -> Handshake<C, E, D>
    decreases steps.len(),
{
    if steps.len() == 0 {
        s
    } else {
        run_state(spec_poll(s, steps[0]).0, steps.drop_first())
    }
}

/// How many synchronous engine calls a whole run makes: one for each poll
/// that finds the handshake in progress, none for a poll that finds a
/// terminal state.
pub open spec fn run_engine_calls<C, E, D>(
    s: Handshake<C, E, D>,
    steps: Seq<HandshakeStep<C, E, D>>,
) -> nat
    decreases steps.len(),
{
    if steps.len() == 0 {
        0
    } else {
        (if s is InProgress {
            1nat
        } else {
            0nat
        }) + run_engine_calls(spec_poll(s, steps[0]).0, steps.drop_first())
    }
}

/// However long the transport keeps reporting would-block, the driver reaches
/// a terminal state on the first poll whose engine call does not report
/// would-block: every earlier poll suspends, that poll delivers exactly what
/// the engine answered, and the run makes exactly one synchronous engine call
/// per poll.
pub proof fn lemma_driver_resolves<C, E, D>(c0: C, steps: Seq<HandshakeStep<C, E, D>>)
    requires
        steps.len() >= 1,
        forall|i: int| 0 <= i < steps.len() - 1 ==> steps[i] is WouldBlock,
        !(steps[steps.len() - 1] is WouldBlock),
    ensures
        run_outputs(Handshake::InProgress(c0), steps).len() == steps.len(),
        forall|i: int|
            0 <= i < steps.len() - 1 ==> run_outputs(Handshake::InProgress(c0), steps)[i] == Poll::<
                Result<E, Error<D>>,
            >::Pending,
        (steps[steps.len() - 1] matches HandshakeStep::Done(e) ==> run_outputs(
            Handshake::InProgress(c0),
            steps,
        )[steps.len() - 1] == Poll::<Result<E, Error<D>>>::Ready(Ok(e))),
        (steps[steps.len() - 1] matches HandshakeStep::Failure(d) ==> run_outputs(
            Handshake::InProgress(c0),
            steps,
        )[steps.len() - 1] == Poll::<Result<E, Error<D>>>::Ready(Err(Error::HandshakeFailure(d)))),
        run_state(Handshake::InProgress(c0), steps) == Handshake::<C, E, D>::Failed(
            Error::RepeatedPoll,
        ),
        run_engine_calls(Handshake::InProgress(c0), steps) == steps.len(),
    decreases steps.len(),
{
    let s0 = Handshake::InProgress(c0);
    let next = spec_poll(s0, steps[0]).0;
    let out0 = spec_poll(s0, steps[0]).1;
    let tail = steps.drop_first();
    assert(run_outputs(s0, steps) == seq![out0] + run_outputs(next, tail));
    assert(run_state(s0, steps) == run_state(next, tail));
    assert(run_engine_calls(s0, steps) == 1nat + run_engine_calls(next, tail));
    if steps.len() == 1 {
        assert(run_outputs(next, tail) =~= Seq::<Poll<Result<E, Error<D>>>>::empty());
        assert(run_state(next, tail) == next);
        assert(run_engine_calls(next, tail) == 0);
        assert(run_outputs(s0, steps)[0] == out0);
    } else {
        assert(steps[0] is WouldBlock);
        match steps[0] {
            HandshakeStep::WouldBlock(c1) => {
                assert(next == Handshake::<C, E, D>::InProgress(c1));
                lemma_driver_resolves(c1, tail);
                assert(run_outputs(next, tail).len() == tail.len());
                assert(run_outputs(s0, steps).len() == steps.len());
                assert forall|i: int| 0 <= i < steps.len() - 1 implies run_outputs(s0, steps)[i]
                    == Poll::<Result<E, Error<D>>>::Pending by {
                    if i > 0 {
                        assert(tail[i - 1] is WouldBlock);
                        assert(run_outputs(s0, steps)[i] == run_outputs(next, tail)[i - 1]);
                    }
                }
                assert(run_outputs(s0, steps)[steps.len() - 1] == run_outputs(next, tail)[tail.len()
                    - 1]);
            }
            _ => {}
        }
    }
}

/// Once a poll has delivered a terminal result, every later poll fails with
/// `RepeatedPoll`: the engine is never re-run and no stale result is
/// returned.
pub proof fn lemma_repeated_poll<C, E, D>(
    s: Handshake<C, E, D>,
    step1: HandshakeStep<C, E, D>,
    step2: HandshakeStep<C, E, D>,
)
    ensures
        spec_poll(s, step1).1 is Ready ==> spec_poll(spec_poll(s, step1).0, step2) == (
            Handshake::<C, E, D>::Failed(Error::RepeatedPoll),
            Poll::<Result<E, Error<D>>>::Ready(Err(Error::RepeatedPoll)),
        ),
{
}

/// A hard handshake failure is delivered with the engine's diagnostic
/// unchanged, so causes the engine distinguishes (an expired certificate, a
/// self-signed one, an untrusted root) stay distinguishable in the delivered
/// error.
pub proof fn lemma_failure_diagnostic_preserved<C, E, D>(c1: C, c2: C, d1: D, d2: D)
    requires
        d1 != d2,
    ensures
        spec_poll(Handshake::<C, E, D>::InProgress(c1), HandshakeStep::Failure(d1)).1 == Poll::<
            Result<E, Error<D>>,
        >::Ready(Err(Error::HandshakeFailure(d1))),
        spec_poll(Handshake::<C, E, D>::InProgress(c1), HandshakeStep::Failure(d1)).1 != spec_poll(
            Handshake::<C, E, D>::InProgress(c2),
            HandshakeStep::Failure(d2),
        ).1,
{
}

/// The two halves of a poll compose to [`spec_poll`]: when `begin` delivers,
/// the poll is over with that result; when it hands a continuation out, the
/// poll ends as `finish` files the engine's answer.
pub proof fn lemma_poll_composes<C, E, D>(s: Handshake<C, E, D>, step: HandshakeStep<C, E, D>)
    ensures
        (spec_begin_poll(s).1 matches PollAction::Deliver(r) ==> spec_poll(s, step) == (
            spec_begin_poll(s).0,
            Poll::<Result<E, Error<D>>>::Ready(r),
        )),
        spec_begin_poll(s).1 is RunHandshake ==> spec_poll(s, step) == spec_finish_poll(step),
{
}

} // verus!
