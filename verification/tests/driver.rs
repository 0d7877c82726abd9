//! Tests of the handshake driver: suspension, resumption, delivery, and the
//! repeated-poll guard.

use tls_async::Error;
use tls_async::Handshake;
use tls_async::HandshakeStep;
use tls_async::PendingTlsStream;
use tls_async::Poll;
use tls_async::PollAction;

type Driver = PendingTlsStream<u32, u32, String>;

#[test]
fn immediate_completion_is_delivered() {
    let mut driver: Driver = PendingTlsStream::new(HandshakeStep::Done(7));
    assert!(!driver.context_attached);
    let action = driver.begin_poll();
    assert_eq!(action, PollAction::Deliver(Ok(7)));
    assert!(!driver.context_attached);
}

#[test]
fn immediate_failure_is_delivered() {
    let mut driver: Driver =
        PendingTlsStream::new(HandshakeStep::Failure(String::from("bad record mac")));
    let action = driver.begin_poll();
    assert_eq!(
        action,
        PollAction::Deliver(Err(Error::HandshakeFailure(String::from("bad record mac"))))
    );
    assert!(!driver.context_attached);
}

#[test]
fn would_blocks_suspend_until_engine_completes() {
    // The transport blocks twice mid-handshake; the third engine call
    // completes.  Each poll runs exactly one engine call.
    let mut driver: Driver = PendingTlsStream::new(HandshakeStep::WouldBlock(0));
    let mut engine_calls: usize = 0;

    for round in 1u32..3u32 {
        let action = driver.begin_poll();
        assert_eq!(action, PollAction::RunHandshake(round - 1));
        assert!(driver.context_attached);
        engine_calls += 1;
        let outcome = driver.finish_poll(HandshakeStep::WouldBlock(round));
        assert_eq!(outcome, Poll::Pending);
        assert!(!driver.context_attached);
    }

    let action = driver.begin_poll();
    assert_eq!(action, PollAction::RunHandshake(2));
    engine_calls += 1;
    let outcome = driver.finish_poll(HandshakeStep::Done(42));
    assert_eq!(outcome, Poll::Ready(Ok(42)));
    assert!(!driver.context_attached);
    assert_eq!(engine_calls, 3);
}

#[test]
fn hard_failure_after_suspensions() {
    let mut driver: Driver = PendingTlsStream::new(HandshakeStep::WouldBlock(0));
    let action = driver.begin_poll();
    assert!(matches!(action, PollAction::RunHandshake(_)));
    let outcome = driver.finish_poll(HandshakeStep::WouldBlock(1));
    assert_eq!(outcome, Poll::Pending);
    let action = driver.begin_poll();
    assert!(matches!(action, PollAction::RunHandshake(_)));
    let outcome = driver.finish_poll(HandshakeStep::Failure(String::from("handshake failure")));
    assert_eq!(
        outcome,
        Poll::Ready(Err(Error::HandshakeFailure(String::from("handshake failure"))))
    );
    assert!(!driver.context_attached);
}

#[test]
fn poll_after_success_fails_with_repeated_poll() {
    let mut driver: Driver = PendingTlsStream::new(HandshakeStep::Done(5));
    let action = driver.begin_poll();
    assert_eq!(action, PollAction::Deliver(Ok(5)));
    // The result was delivered; polling again must fail distinctly, not
    // re-run the engine or return the stale engine.
    let action = driver.begin_poll();
    assert_eq!(action, PollAction::Deliver(Err(Error::RepeatedPoll)));
    // And it stays that way.
    let action = driver.begin_poll();
    assert_eq!(action, PollAction::Deliver(Err(Error::RepeatedPoll)));
}

#[test]
fn poll_after_failure_fails_with_repeated_poll() {
    let mut driver: Driver =
        PendingTlsStream::new(HandshakeStep::Failure(String::from("unknown ca")));
    let action = driver.begin_poll();
    assert_eq!(
        action,
        PollAction::Deliver(Err(Error::HandshakeFailure(String::from("unknown ca"))))
    );
    let action = driver.begin_poll();
    assert_eq!(action, PollAction::Deliver(Err(Error::RepeatedPoll)));
}

#[test]
fn context_is_cleared_on_every_poll_exit() {
    // Success path.
    let mut driver: Driver = PendingTlsStream::new(HandshakeStep::WouldBlock(0));
    driver.begin_poll();
    driver.finish_poll(HandshakeStep::Done(1));
    assert!(!driver.context_attached);

    // Would-block path.
    let mut driver: Driver = PendingTlsStream::new(HandshakeStep::WouldBlock(0));
    driver.begin_poll();
    driver.finish_poll(HandshakeStep::WouldBlock(1));
    assert!(!driver.context_attached);

    // Hard-error path.
    let mut driver: Driver = PendingTlsStream::new(HandshakeStep::WouldBlock(0));
    driver.begin_poll();
    driver.finish_poll(HandshakeStep::Failure(String::from("internal error")));
    assert!(!driver.context_attached);

    // A fresh driver starts with no stale context either.
    let driver: Driver = PendingTlsStream::new(HandshakeStep::WouldBlock(0));
    assert!(!driver.context_attached);
}

#[test]
fn certificate_failures_stay_distinguishable() {
    // The engine distinguishes an expired certificate, a self-signed one and
    // an untrusted root in its diagnostic; the driver must deliver each
    // diagnostic unchanged, so the causes stay distinguishable.
    let diagnostics = [
        String::from("certificate has expired"),
        String::from("self-signed certificate"),
        String::from("unable to get local issuer certificate"),
    ];
    let mut delivered = Vec::new();
    for diagnostic in diagnostics.iter() {
        let mut driver: Driver = PendingTlsStream::new(HandshakeStep::WouldBlock(0));
        driver.begin_poll();
        let outcome = driver.finish_poll(HandshakeStep::Failure(diagnostic.clone()));
        assert_eq!(
            outcome,
            Poll::Ready(Err(Error::HandshakeFailure(diagnostic.clone())))
        );
        delivered.push(outcome);
    }
    assert_ne!(delivered[0], delivered[1]);
    assert_ne!(delivered[0], delivered[2]);
    assert_ne!(delivered[1], delivered[2]);
}

#[test]
fn was_pending_reports_stored_continuation() {
    let pending: Handshake<u32, u32, String> = Handshake::InProgress(9);
    assert!(pending.was_pending());
    let done: Handshake<u32, u32, String> = Handshake::Completed(9);
    assert!(!done.was_pending());
    let failed: Handshake<u32, u32, String> = Handshake::Failed(Error::RepeatedPoll);
    assert!(!failed.was_pending());
}

#[test]
fn from_step_files_each_answer() {
    let s: Handshake<u32, u32, String> = Handshake::from_step(HandshakeStep::Done(3));
    assert_eq!(s, Handshake::Completed(3));
    let s: Handshake<u32, u32, String> = Handshake::from_step(HandshakeStep::WouldBlock(4));
    assert_eq!(s, Handshake::InProgress(4));
    let s: Handshake<u32, u32, String> =
        Handshake::from_step(HandshakeStep::Failure(String::from("wrong version number")));
    assert_eq!(
        s,
        Handshake::Failed(Error::HandshakeFailure(String::from("wrong version number")))
    );
    let s: Handshake<u32, u32, String> = Handshake::from(HandshakeStep::WouldBlock(6));
    assert_eq!(s, Handshake::InProgress(6));
}

#[test]
fn error_variants_are_distinct() {
    let construction: Error<String> = Error::ConstructionError(String::from("no ciphers"));
    let handshake: Error<String> = Error::HandshakeFailure(String::from("no ciphers"));
    let repeated: Error<String> = Error::RepeatedPoll;
    let io: Error<String> = Error::IOError(String::from("no ciphers"));
    assert_ne!(construction, handshake);
    assert_ne!(construction, io);
    assert_ne!(handshake, io);
    assert_ne!(repeated, construction);
    assert_ne!(repeated, handshake);
    assert_ne!(repeated, io);
}
