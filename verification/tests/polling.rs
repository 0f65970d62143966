use telemetry_bridge::poller::{Poller, PollerAction, PollerEvent};
use telemetry_bridge::target::TargetAddress;

#[test]
fn failing_sink_terminates_after_one_push() {
    let mut poller = Poller::new();
    let mut pushes: usize = 0;
    // A full cycle whose push is rejected by the sink.
    let a = poller.step(PollerEvent::CycleStart);
    assert_eq!(a, PollerAction::AttemptConnect);
    let a = poller.step(PollerEvent::ConnectEstablished);
    assert_eq!(a, PollerAction::EmitRecord);
    pushes += 1;
    let a = poller.step(PollerEvent::PushRejected);
    assert_eq!(a, PollerAction::Stop);
    assert!(poller.is_terminated());
    // Whatever is reported afterwards, the loop stays terminated and never
    // asks for another push.
    for e in [
        PollerEvent::CycleStart,
        PollerEvent::ConnectEstablished,
        PollerEvent::PushRejected,
        PollerEvent::Cancelled,
    ] {
        let a = poller.step(e);
        assert_eq!(a, PollerAction::Stop);
        assert!(poller.is_terminated());
    }
    assert_eq!(pushes, 1);
}

#[test]
fn always_timing_out_store_keeps_the_loop_retrying() {
    let mut poller = Poller::new();
    let mut connects: usize = 0;
    for _ in 0..100 {
        let a = poller.step(PollerEvent::CycleStart);
        assert_eq!(a, PollerAction::AttemptConnect);
        connects += 1;
        // The attempt times out: straight back to idle, no sleep, no push.
        let a = poller.step(PollerEvent::ConnectTimedOut);
        assert_eq!(a, PollerAction::Proceed);
        assert!(!poller.is_terminated());
    }
    assert_eq!(connects, 100);
}

#[test]
fn failed_connection_earns_the_inter_tick_sleep() {
    let mut poller = Poller::new();
    let a = poller.step(PollerEvent::CycleStart);
    assert_eq!(a, PollerAction::AttemptConnect);
    let a = poller.step(PollerEvent::ConnectFailed);
    assert_eq!(a, PollerAction::Sleep);
    let a = poller.step(PollerEvent::CooldownElapsed);
    assert_eq!(a, PollerAction::Proceed);
    assert!(!poller.is_terminated());
}

#[test]
fn successful_cycle_sleeps_then_starts_anew() {
    let mut poller = Poller::new();
    let a = poller.step(PollerEvent::CycleStart);
    assert_eq!(a, PollerAction::AttemptConnect);
    let a = poller.step(PollerEvent::ConnectEstablished);
    assert_eq!(a, PollerAction::EmitRecord);
    let a = poller.step(PollerEvent::PushAccepted);
    assert_eq!(a, PollerAction::Sleep);
    let a = poller.step(PollerEvent::CooldownElapsed);
    assert_eq!(a, PollerAction::Proceed);
    // The next cycle begins from idle again.
    let a = poller.step(PollerEvent::CycleStart);
    assert_eq!(a, PollerAction::AttemptConnect);
}

#[test]
fn one_push_per_established_connection() {
    let mut poller = Poller::new();
    let mut establishes: usize = 0;
    let mut pushes: usize = 0;
    // Three cycles: established, timed out, established again.
    let events = [
        PollerEvent::CycleStart,
        PollerEvent::ConnectEstablished,
        PollerEvent::PushAccepted,
        PollerEvent::CooldownElapsed,
        PollerEvent::CycleStart,
        PollerEvent::ConnectTimedOut,
        PollerEvent::CycleStart,
        PollerEvent::ConnectEstablished,
        PollerEvent::PushAccepted,
    ];
    for e in events {
        if e == PollerEvent::ConnectEstablished {
            establishes += 1;
        }
        if poller.step(e) == PollerAction::EmitRecord {
            pushes += 1;
        }
    }
    assert_eq!(pushes, establishes);
    assert_eq!(pushes, 2);
}

#[test]
fn cancellation_is_honored_at_the_cooldown_boundary() {
    let mut poller = Poller::new();
    poller.step(PollerEvent::CycleStart);
    poller.step(PollerEvent::ConnectFailed);
    let a = poller.step(PollerEvent::Cancelled);
    assert_eq!(a, PollerAction::Stop);
    assert!(poller.is_terminated());
}

#[test]
fn fresh_poller_is_idle() {
    let poller = Poller::new();
    assert!(!poller.is_terminated());
}

#[test]
fn redirect_takes_effect_on_the_next_attempt_only() {
    let mut target = TargetAddress::new();
    assert_eq!(target.get(), "");
    target.set("10.0.0.2:1735".to_owned());
    // An attempt begins: it reads its own copy of the address.
    let in_flight = target.get();
    assert_eq!(in_flight, "10.0.0.2:1735");
    // The operator redirects mid-run.
    target.set("10.0.0.9:1735".to_owned());
    // The attempt already in flight still targets the old address ...
    assert_eq!(in_flight, "10.0.0.2:1735");
    // ... and the next attempt reads the new one.
    assert_eq!(target.get(), "10.0.0.9:1735");
}

#[test]
fn last_write_wins() {
    let mut target = TargetAddress::new();
    target.set("a".to_owned());
    target.set("b".to_owned());
    target.set("c".to_owned());
    assert_eq!(target.get(), "c");
}
