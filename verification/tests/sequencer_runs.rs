//! Full-run scenarios for the actuation sequencer, driven by a mock channel
//! that answers each dispensed action from scripted bank states.

use relay_pulse::bank::CoilBank;
use relay_pulse::errors::{ConnectionError, RunError, TransactionError};
use relay_pulse::sequencer::{begin_run, Action, Outcome, Sequencer, Step};

fn bank_of(bits: [bool; 8]) -> CoilBank {
    CoilBank::from_coils(bits.to_vec()).unwrap()
}

/// Answers every read from the scripted banks in order, acknowledges every
/// write, and lets every wait elapse without blocking.
fn drive(seq: &mut Sequencer, banks: &[[bool; 8]]) {
    let mut next_bank = 0;
    while let Some(action) = seq.pending_action() {
        let outcome = match action {
            Action::ReadBank => {
                let b = bank_of(banks[next_bank]);
                next_bank += 1;
                Outcome::Bank(b)
            }
            Action::SetCoil { .. } => Outcome::Ack,
            Action::Wait { .. } => Outcome::Waited,
        };
        seq.advance(outcome);
    }
}

#[test]
fn successful_run_dispenses_fixed_trace() {
    let mut seq = begin_run(Ok(()), 3, 0).unwrap();
    assert_eq!(seq.step, Step::ReadInitial);
    assert!(seq.log.is_empty());
    drive(
        &mut seq,
        &[
            [false; 8],
            [false, false, false, true, false, false, false, false],
            [false; 8],
        ],
    );
    assert_eq!(seq.step, Step::Done);
    assert_eq!(
        seq.log,
        vec![
            Action::ReadBank,
            Action::SetCoil { index: 3, value: true },
            Action::ReadBank,
            Action::Wait { secs: 0 },
            Action::SetCoil { index: 3, value: false },
            Action::ReadBank,
        ]
    );
    let report = seq.finish().unwrap();
    assert_eq!(report.pre_state, false);
    assert_eq!(report.after_on_state, true);
    assert_eq!(report.after_off_state, false);
}

#[test]
fn run_reports_states_at_each_step() {
    let mut seq = begin_run(Ok(()), 0, 5).unwrap();
    let on = [true, false, false, false, false, false, false, false];
    drive(&mut seq, &[[false; 8], on, [false; 8]]);
    assert_eq!(seq.pre_state, Some(false));
    assert_eq!(seq.after_on_state, Some(true));
    assert_eq!(seq.after_off_state, Some(false));
    assert_eq!(seq.log[3], Action::Wait { secs: 5 });
}

#[test]
fn hold_wait_matches_configured_duration_not_observed_state() {
    // Two runs that observe opposite relay states after the on-write must
    // dispense the same wait, of exactly the configured duration.
    let mut observed_on = begin_run(Ok(()), 2, 7).unwrap();
    drive(
        &mut observed_on,
        &[
            [false; 8],
            [false, false, true, false, false, false, false, false],
            [false; 8],
        ],
    );
    let mut observed_off = begin_run(Ok(()), 2, 7).unwrap();
    drive(&mut observed_off, &[[false; 8], [false; 8], [false; 8]]);
    assert_eq!(observed_on.log[3], Action::Wait { secs: 7 });
    assert_eq!(observed_off.log[3], Action::Wait { secs: 7 });
    assert_eq!(observed_on.log, observed_off.log);
}

#[test]
fn write_on_failure_aborts_with_channel_error_unmodified() {
    let mut seq = begin_run(Ok(()), 3, 10).unwrap();
    seq.advance(Outcome::Bank(bank_of([false; 8])));
    assert_eq!(
        seq.pending_action(),
        Some(Action::SetCoil { index: 3, value: true })
    );
    let channel_error = TransactionError::Transport {
        detail: "device timeout".to_string(),
    };
    seq.advance(Outcome::Fault(channel_error.clone()));
    assert_eq!(seq.step, Step::Failed);
    // Terminal at once: nothing further is dispensed, so no off-write and no
    // after-on or after-off read ever occurs.
    assert_eq!(seq.pending_action(), None);
    assert_eq!(
        seq.log,
        vec![Action::ReadBank, Action::SetCoil { index: 3, value: true }]
    );
    assert_eq!(seq.finish().unwrap_err(), channel_error);
}

#[test]
fn initial_read_failure_aborts_before_any_write() {
    let mut seq = begin_run(Ok(()), 0, 1).unwrap();
    let channel_error = TransactionError::MalformedResponse { coil_count: 3 };
    seq.advance(Outcome::Fault(channel_error.clone()));
    assert_eq!(seq.step, Step::Failed);
    assert_eq!(seq.pending_action(), None);
    assert_eq!(seq.log, vec![Action::ReadBank]);
    assert_eq!(seq.finish().unwrap_err(), channel_error);
}

#[test]
fn failed_open_never_starts_a_run() {
    let error = ConnectionError {
        detail: "permission denied".to_string(),
    };
    let result = begin_run(Err(error.clone()), 0, 10);
    match result {
        Err(RunError::Connection(e)) => assert_eq!(e, error),
        other => panic!("expected a connection error, got {other:?}"),
    }
}

#[test]
fn relay_index_eight_is_rejected_before_any_wire_operation() {
    let result = begin_run(Ok(()), 8, 10);
    match result {
        Err(RunError::RelayIndexOutOfRange { index }) => assert_eq!(index, 8),
        other => panic!("expected an out-of-range error, got {other:?}"),
    }
    let direct = Sequencer::new(255, 0);
    match direct {
        Err(RunError::RelayIndexOutOfRange { index }) => assert_eq!(index, 255),
        other => panic!("expected an out-of-range error, got {other:?}"),
    }
}

#[test]
fn boundary_relay_seven_extracts_last_bit() {
    let mut seq = begin_run(Ok(()), 7, 0).unwrap();
    let only_seven_on = [false, false, false, false, false, false, false, true];
    let only_six_on = [false, false, false, false, false, false, true, false];
    drive(&mut seq, &[only_seven_on, only_seven_on, only_six_on]);
    assert_eq!(seq.step, Step::Done);
    let report = seq.finish().unwrap();
    assert_eq!(report.pre_state, true);
    assert_eq!(report.after_on_state, true);
    // The neighbouring bit at index 6 must not leak into index 7's report.
    assert_eq!(report.after_off_state, false);
}
