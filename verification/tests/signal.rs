use drone::signal::{Observation, OperationError, SignalFuture, Signals};

type Look = Observation<u32, String>;

fn nothing() -> Look {
    Observation { operation: None, signal: None }
}

fn signal(kind: Signals) -> Look {
    Observation { operation: None, signal: Some(kind) }
}

fn done(value: u32) -> Look {
    Observation { operation: Some(Ok(value)), signal: None }
}

#[test]
fn a_completed_operation_gives_its_own_result() {
    let race = SignalFuture::new();
    assert_eq!(race.poll(done(7)), Some(Ok(7)));
    let failed: Look = Observation { operation: Some(Err("broken".to_string())), signal: None };
    assert_eq!(race.poll(failed), Some(Err(OperationError::Failed("broken".to_string()))));
}

#[test]
fn completion_wins_over_a_signal_at_the_same_moment() {
    let race = SignalFuture::new();
    let both: Look = Observation { operation: Some(Ok(1)), signal: Some(Signals::SigTerm) };
    assert_eq!(race.poll(both), Some(Ok(1)));
}

#[test]
fn a_signal_interrupts_a_pending_operation() {
    let race = SignalFuture::new();
    for kind in [Signals::SigInt, Signals::SigQuit, Signals::SigTerm, Signals::SigBreak] {
        assert_eq!(race.poll(signal(kind)), Some(Err(OperationError::Interrupted(kind))));
    }
    assert_eq!(race.poll(nothing()), None);
}

#[test]
fn the_ignored_kind_is_passed_over() {
    let race = SignalFuture::with_signals(true);
    assert_eq!(race.ignore, Some(Signals::SigInt));
    assert!(race.ignores(Signals::SigInt));
    assert!(!race.ignores(Signals::SigTerm));
    assert_eq!(race.poll(signal(Signals::SigInt)), None);
    assert_eq!(
        race.poll(signal(Signals::SigQuit)),
        Some(Err(OperationError::Interrupted(Signals::SigQuit)))
    );
    let plain = SignalFuture::with_signals(false);
    assert_eq!(plain.ignore, None);
    assert_eq!(
        plain.poll(signal(Signals::SigInt)),
        Some(Err(OperationError::Interrupted(Signals::SigInt)))
    );
}

#[test]
fn a_wait_ends_with_the_first_deciding_look() {
    let race = SignalFuture::with_signals(true);
    assert_eq!(race.wait(vec![nothing(), nothing(), done(3), signal(Signals::SigTerm)]), Some(Ok(3)));
    assert_eq!(
        race.wait(vec![nothing(), signal(Signals::SigTerm), done(3)]),
        Some(Err(OperationError::Interrupted(Signals::SigTerm)))
    );
    assert_eq!(
        race.wait(vec![signal(Signals::SigInt), signal(Signals::SigInt), nothing(), done(9)]),
        Some(Ok(9))
    );
    assert_eq!(
        race.wait(vec![signal(Signals::SigInt), signal(Signals::SigQuit), done(9)]),
        Some(Err(OperationError::Interrupted(Signals::SigQuit)))
    );
    assert_eq!(race.wait(vec![nothing(), signal(Signals::SigInt)]), None);
    assert_eq!(race.wait(Vec::<Look>::new()), None);
}
