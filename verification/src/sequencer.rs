//! The actuation sequencer: one fixed, non-branching run of a single relay
//! through read -> on -> read -> wait -> off -> read. The sequencer itself
//! performs no I/O: it dispenses one action at a time, and the driver feeds
//! back the outcome of performing it. Any transaction failure is terminal;
//! the sequence aborts at that point with the channel's error, unmodified,
//! and no compensating action is taken.

use vstd::prelude::*;

use crate::bank::{BANK_SIZE, CoilBank};
use crate::errors::{ConnectionError, RunError, TransactionError};

verus! {

/// One action the driver must perform on the wire (or on the clock) before
/// the sequence can advance.
#[derive(Clone, Copy, Debug, PartialEq, Eq, Structural)]
pub enum Action {
    /// Read the eight-coil bank starting at coil address 0.
    ReadBank,
    /// Write `value` to the single coil at `index`.
    SetCoil { index: u8, value: bool },
    /// Block for `secs` seconds; no cancellation exists.
    Wait { secs: u16 },
}

/// What performing an action yielded.
pub enum Outcome {
    /// A bank read returned these eight coil states.
    Bank(CoilBank),
    /// A single-coil write was acknowledged by the device.
    Ack,
    /// The wait elapsed in full.
    Waited,
    /// The transaction failed; terminal for the run.
    Fault(TransactionError),
}

/// Where the run stands: each active step names the operation about to be
/// performed; `Done` and `Failed` are terminal.
#[derive(Clone, Copy, Debug, PartialEq, Eq, Structural)]
pub enum Step {
    ReadInitial,
    SetOn,
    ReadAfterOn,
    Hold,
    SetOff,
    ReadAfterOff,
    Done,
    Failed,
}

/// A step at which an action is still pending.
pub open spec fn is_active(step: Step) -> bool {
    !(step is Done) && !(step is Failed)
}

/// How many actions a failure-free run has completed on reaching `step`.
/// Meaningful for every step but `Failed`.
pub open spec fn completed_actions(step: Step) -> int {
    match step {
        Step::ReadInitial => 0,
        Step::SetOn => 1,
        Step::ReadAfterOn => 2,
        Step::Hold => 3,
        Step::SetOff => 4,
        Step::ReadAfterOff => 5,
        Step::Done => 6,
        Step::Failed => 0,
    }
}

/// The full action trace of a successful run: three bank reads and two
/// single-coil writes — on, then off — around one wait, in this fixed order.
pub open spec fn full_trace(relay_index: u8, hold_secs: u16) -> Seq<Action> {
    seq![
        Action::ReadBank,
        Action::SetCoil { index: relay_index, value: true },
        Action::ReadBank,
        Action::Wait { secs: hold_secs },
        Action::SetCoil { index: relay_index, value: false },
        Action::ReadBank,
    ]
}

/// The action pending at an active step of a run over `relay_index` with
/// hold duration `hold_secs`. Meaningful only for active steps.
pub open spec fn action_at(step: Step, relay_index: u8, hold_secs: u16) -> Action
    recommends
        is_active(step),
{
    match step {
        Step::SetOn => Action::SetCoil { index: relay_index, value: true },
        Step::Hold => Action::Wait { secs: hold_secs },
        Step::SetOff => Action::SetCoil { index: relay_index, value: false },
        _ => Action::ReadBank,
    }
}

/// The step the run moves to when the pending action of `step` ends in
/// `outcome`: a fault is terminal at once, anything else moves one step down
/// the fixed sequence.
pub open spec fn next_step_of(step: Step, outcome: Outcome) -> Step {
    if outcome is Fault {
        Step::Failed
    } else {
        match step {
            Step::ReadInitial => Step::SetOn,
            Step::SetOn => Step::ReadAfterOn,
            Step::ReadAfterOn => Step::Hold,
            Step::Hold => Step::SetOff,
            Step::SetOff => Step::ReadAfterOff,
            Step::ReadAfterOff => Step::Done,
            Step::Done => Step::Done,
            Step::Failed => Step::Failed,
        }
    }
}

/// The failure recorded after an outcome: a fault stores the channel's error
/// exactly as it came; anything else leaves the record untouched.
pub open spec fn failure_after(
    failure: Option<TransactionError>,
    outcome: Outcome,
) -> Option<TransactionError> {
    match outcome {
        Outcome::Fault(e) => Some(e),
        _ => failure,
    }
}

/// The coil state a bank outcome reports for `relay_index`, if any.
pub open spec fn observed_bit(outcome: Outcome, relay_index: u8) -> Option<bool> {
    match outcome {
        Outcome::Bank(b) => Some(b@[relay_index as int]),
        _ => None,
    }
}

/// Drives one relay through the fixed six-action sequence. The driver
/// repeatedly asks for the pending action, performs it, and hands back the
/// outcome; the sequencer records every dispensed action, the coil state
/// reported by each read, and the first (and only) failure.
#[derive(Debug)]
pub struct Sequencer {
    /// Which coil within the eight-coil bank the run acts on; always < 8.
    pub relay_index: u8,
    /// Seconds the relay is held energized between the on- and off-writes.
    pub hold_secs: u16,
    /// Where the run stands.
    pub step: Step,
    /// Every action dispensed so far, in order, a failed one included.
    pub log: Vec<Action>,
    /// The relay's state reported by the initial bank read.
    pub pre_state: Option<bool>,
    /// The relay's state reported by the read after the on-write.
    pub after_on_state: Option<bool>,
    /// The relay's state reported by the read after the off-write.
    pub after_off_state: Option<bool>,
    /// The channel's error, exactly as it came, once a step has failed.
    pub failure: Option<TransactionError>,
}

impl Sequencer {
    /// Well-formedness: the relay index lies inside the bank; off the failure
    /// path the log is exactly the completed prefix of the fixed trace and
    /// each reported state is present exactly once its read has completed;
    /// on it, the channel's error is recorded.
    pub open spec fn wf(self) -> bool {
        &&& (self.relay_index as usize) < BANK_SIZE
        &&& (self.step is Failed ==> self.failure is Some)
        &&& (!(self.step is Failed) ==> {
            &&& self.failure is None
            &&& self.log@ == full_trace(self.relay_index, self.hold_secs).take(
                completed_actions(self.step),
            )
            &&& (self.pre_state is Some <==> completed_actions(self.step) >= 1)
            &&& (self.after_on_state is Some <==> completed_actions(self.step) >= 3)
            &&& (self.after_off_state is Some <==> completed_actions(self.step) >= 6)
        })
    }

    /// The action pending at the current step, if the run is still active.
    pub open spec fn pending_of(self) -> Option<Action> {
        if is_active(self.step) {
            Some(action_at(self.step, self.relay_index, self.hold_secs))
        } else {
            None
        }
    }

    /// Whether `outcome` is one that performing the pending action can
    /// yield: a read yields a well-formed bank or a fault, a write an
    /// acknowledgment or a fault, and a wait always elapses.
    pub open spec fn outcome_fits(self, outcome: Outcome) -> bool {
        match self.step {
            Step::ReadInitial | Step::ReadAfterOn | Step::ReadAfterOff => match outcome {
                Outcome::Bank(b) => b.wf(),
                Outcome::Fault(_) => true,
                _ => false,
            },
            Step::SetOn | Step::SetOff => outcome is Ack || outcome is Fault,
            Step::Hold => outcome is Waited,
            Step::Done | Step::Failed => false,
        }
    }

    /// Starts a run for `relay_index` with hold duration `hold_secs`. An
    /// index outside the eight-coil bank is a configuration error, rejected
    /// before any wire operation; otherwise the run stands at the initial
    /// read with nothing dispensed yet.
    pub fn new(relay_index: u8, hold_secs: u16) -> (r: Result<Sequencer, RunError>)
        ensures
            (relay_index as usize) < BANK_SIZE ==> (r matches Ok(s) && {
                &&& s.wf()
                &&& s.step is ReadInitial
                &&& s.relay_index == relay_index
                &&& s.hold_secs == hold_secs
                &&& s.log@.len() == 0
                &&& s.pre_state is None
                &&& s.after_on_state is None
                &&& s.after_off_state is None
                &&& s.failure is None
            }),
            (relay_index as usize) >= BANK_SIZE ==> r == Err::<Sequencer, RunError>(
                RunError::RelayIndexOutOfRange { index: relay_index },
            ),
    {
        if (relay_index as usize) < BANK_SIZE {
            let s = Sequencer {
                relay_index,
                hold_secs,
                step: Step::ReadInitial,
                log: Vec::new(),
                pre_state: None,
                after_on_state: None,
                after_off_state: None,
                failure: None,
            };
            proof {
                assert(s.log@ =~= full_trace(relay_index, hold_secs).take(0));
            }
            Ok(s)
        } else {
            Err(RunError::RelayIndexOutOfRange { index: relay_index })
        }
    }

    /// The action the driver must perform next, or `None` once the run is
    /// terminal.
    pub fn pending_action(&self) -> (r: Option<Action>)
        ensures
            r == self.pending_of(),
    {
        match self.step {
            Step::ReadInitial | Step::ReadAfterOn | Step::ReadAfterOff => Some(Action::ReadBank),
            Step::SetOn => Some(Action::SetCoil { index: self.relay_index, value: true }),
            Step::Hold => Some(Action::Wait { secs: self.hold_secs }),
            Step::SetOff => Some(Action::SetCoil { index: self.relay_index, value: false }),
            Step::Done | Step::Failed => None,
        }
    }

    /// Advances the run by one step: the pending action is logged as
    /// dispensed; a fault moves the run to `Failed` holding the channel's
    /// error unmodified; a successful outcome moves it one step down the
    /// fixed sequence, recording the coil state a bank read reported. The
    /// control flow never branches on the observed state.
    pub fn advance(&mut self, outcome: Outcome)
        requires
            old(self).wf(),
            is_active(old(self).step),
            old(self).outcome_fits(outcome),
        ensures
            final(self).wf(),
            final(self).relay_index == old(self).relay_index,
            final(self).hold_secs == old(self).hold_secs,
            final(self).step == next_step_of(old(self).step, outcome),
            final(self).log@ == old(self).log@.push(
                action_at(old(self).step, old(self).relay_index, old(self).hold_secs),
            ),
            final(self).failure == failure_after(old(self).failure, outcome),
            final(self).pre_state == (if old(self).step is ReadInitial && outcome is Bank {
                observed_bit(outcome, old(self).relay_index)
            } else {
                old(self).pre_state
            }),
            final(self).after_on_state == (if old(self).step is ReadAfterOn && outcome is Bank {
                observed_bit(outcome, old(self).relay_index)
            } else {
                old(self).after_on_state
            }),
            final(self).after_off_state == (if old(self).step is ReadAfterOff && outcome is Bank {
                observed_bit(outcome, old(self).relay_index)
            } else {
                old(self).after_off_state
            }),
    {
        let action = match self.step {
            Step::ReadInitial | Step::ReadAfterOn | Step::ReadAfterOff => Action::ReadBank,
            Step::SetOn => Action::SetCoil { index: self.relay_index, value: true },
            Step::Hold => Action::Wait { secs: self.hold_secs },
            Step::SetOff => Action::SetCoil { index: self.relay_index, value: false },
            Step::Done | Step::Failed => {
                proof {
                    assert(false);
                }
                Action::ReadBank
            },
        };
        self.log.push(action);
        match outcome {
            Outcome::Fault(e) => {
                self.failure = Some(e);
                self.step = Step::Failed;
            },
            Outcome::Bank(b) => {
                let bit = b.bit(self.relay_index);
                match self.step {
                    Step::ReadInitial => {
                        self.pre_state = Some(bit);
                        self.step = Step::SetOn;
                    },
                    Step::ReadAfterOn => {
                        self.after_on_state = Some(bit);
                        self.step = Step::Hold;
                    },
                    Step::ReadAfterOff => {
                        self.after_off_state = Some(bit);
                        self.step = Step::Done;
                    },
                    _ => {
                        proof {
                            assert(false);
                        }
                    },
                }
            },
            Outcome::Ack => {
                match self.step {
                    Step::SetOn => {
                        self.step = Step::ReadAfterOn;
                    },
                    Step::SetOff => {
                        self.step = Step::ReadAfterOff;
                    },
                    _ => {
                        proof {
                            assert(false);
                        }
                    },
                }
            },
            Outcome::Waited => {
                match self.step {
                    Step::Hold => {
                        self.step = Step::SetOff;
                    },
                    _ => {
                        proof {
                            assert(false);
                        }
                    },
                }
            },
        }
        proof {
            if !(self.step is Failed) {
                let k = completed_actions(old(self).step);
                let trace = full_trace(self.relay_index, self.hold_secs);
                assert(old(self).log@ == trace.take(k));
                assert(action == trace[k]);
                assert(self.log@ =~= trace.take(completed_actions(self.step)));
            }
        }
    }

    /// Consumes a terminal run: a completed run yields the three reported
    /// coil states; a failed one yields the channel's error, unmodified.
    pub fn finish(self) -> (r: Result<RunReport, TransactionError>)
        requires
            self.wf(),
            !is_active(self.step),
        ensures
            self.step is Done ==> (r matches Ok(rep) && {
                &&& Some(rep.pre_state) == self.pre_state
                &&& Some(rep.after_on_state) == self.after_on_state
                &&& Some(rep.after_off_state) == self.after_off_state
            }),
            self.step is Failed ==> (r matches Err(e) && Some(e) == self.failure),
    {
        match self.step {
            Step::Failed => Err(self.failure.unwrap()),
            _ => {
                let pre_state = self.pre_state.unwrap();
                let after_on_state = self.after_on_state.unwrap();
                let after_off_state = self.after_off_state.unwrap();
                Ok(RunReport { pre_state, after_on_state, after_off_state })
            },
        }
    }
}

/// The three coil states a completed run reported for its relay.
#[derive(Clone, Copy, Debug, PartialEq, Eq, Structural)]
pub struct RunReport {
    /// State before any write.
    pub pre_state: bool,
    /// State after the on-write.
    pub after_on_state: bool,
    /// State after the off-write.
    pub after_off_state: bool,
}

/// A run that reaches `Done` has dispensed exactly two single-coil writes —
/// on, then off, in that order — and exactly three bank reads — before,
/// after-on and after-off — with nothing between or after them but the one
/// wait of the configured hold duration, for every relay index and hold
/// duration a run can be built with.
pub proof fn lemma_done_run_trace(s: Sequencer)
    requires
        s.wf(),
        s.step is Done,
    ensures
        s.log@ == full_trace(s.relay_index, s.hold_secs),
        s.log@.len() == 6,
        s.log@[0] == Action::ReadBank,
        s.log@[1] == (Action::SetCoil { index: s.relay_index, value: true }),
        s.log@[2] == Action::ReadBank,
        s.log@[3] == (Action::Wait { secs: s.hold_secs }),
        s.log@[4] == (Action::SetCoil { index: s.relay_index, value: false }),
        s.log@[5] == Action::ReadBank,
{
    let trace = full_trace(s.relay_index, s.hold_secs);
    assert(trace.take(6) =~= trace);
}

/// The hold step does not depend on the relay state the after-on read
/// reported: whatever bank the read returned, the run moves to `Hold`, and
/// the action dispensed there is a wait of exactly the configured hold
/// duration — never of the observed state.
pub proof fn lemma_hold_independent_of_observed_state(
    relay_index: u8,
    hold_secs: u16,
    b1: CoilBank,
    b2: CoilBank,
)
    ensures
        next_step_of(Step::ReadAfterOn, Outcome::Bank(b1)) == Step::Hold,
        next_step_of(Step::ReadAfterOn, Outcome::Bank(b1)) == next_step_of(
            Step::ReadAfterOn,
            Outcome::Bank(b2),
        ),
        action_at(Step::Hold, relay_index, hold_secs) == (Action::Wait { secs: hold_secs }),
{
}

/// If the write-on step fails, the sequence aborts at once: the run becomes
/// terminal with nothing further pending, so the off-write and the after-on
/// and after-off reads are never dispensed — the log ends at the failed
/// on-write — and the failure recorded is the channel's error, unmodified.
pub proof fn lemma_write_on_failure_aborts(s: Sequencer, e: TransactionError)
    requires
        s.wf(),
        s.step is SetOn,
    ensures
        next_step_of(s.step, Outcome::Fault(e)) == Step::Failed,
        failure_after(s.failure, Outcome::Fault(e)) == Some(e),
        !is_active(Step::Failed),
        s.log@.push(action_at(s.step, s.relay_index, s.hold_secs)) =~= seq![
            Action::ReadBank,
            Action::SetCoil { index: s.relay_index, value: true },
        ],
{
    let trace = full_trace(s.relay_index, s.hold_secs);
    assert(s.log@ == trace.take(1));
}

/// Decision at the session's opening step: if the serial channel could not be
/// opened, the run aborts with that connection error and no sequencer is ever
/// created, so no read or write is dispensed; otherwise the run starts,
/// subject to relay-index validation.
pub fn begin_run(
    opened: Result<(), ConnectionError>,
    relay_index: u8,
    hold_secs: u16,
) -> (r: Result<Sequencer, RunError>)
    ensures
        opened matches Err(e) ==> r == Err::<Sequencer, RunError>(RunError::Connection(e)),
        opened is Ok && (relay_index as usize) < BANK_SIZE ==> (r matches Ok(s) && {
            &&& s.wf()
            &&& s.step is ReadInitial
            &&& s.relay_index == relay_index
            &&& s.hold_secs == hold_secs
            &&& s.log@.len() == 0
        }),
        opened is Ok && (relay_index as usize) >= BANK_SIZE ==> r == Err::<Sequencer, RunError>(
            RunError::RelayIndexOutOfRange { index: relay_index },
        ),
{
    match opened {
        Err(e) => Err(RunError::Connection(e)),
        Ok(()) => Sequencer::new(relay_index, hold_secs),
    }
}

} // verus!
