//! The riddle-lifecycle state machine. Each call takes one event (a trigger,
//! or what an outside operation returned) and hands back what to do next;
//! the caller performs that work and feeds its result back in.
use vstd::prelude::*;
use crate::chain::{ChainError, Confirmation, SolvedEvent, TxHandle};
use crate::commitment::{commit, commitment_of};
use crate::riddle::{GenerationError, Riddle};

verus! {

/// Where the driver stands. Hashing the answer happens within the step that
/// leaves `Generating`, so no state waits on it.
#[derive(Debug, Clone, Copy, PartialEq, Eq, Structural)]
pub enum Phase {
    Idle,
    Generating,
    Submitting,
    AwaitingConfirmation,
    Done,
    Failed,
    /// The solved-event subscription was lost; nothing more is started.
    Halted,
}

impl Phase {
    /// No cycle is in progress and a trigger may start one.
    pub open spec fn is_resting(self) -> bool {
        self is Idle || self is Done || self is Failed
    }

    /// A cycle is in progress.
    pub open spec fn in_progress(self) -> bool {
        self is Generating || self is Submitting || self is AwaitingConfirmation
    }
}

/// What the driver is told.
#[derive(Debug)]
pub enum Event {
    /// A cycle was requested: at startup, or on a solved event.
    Trigger,
    /// What riddle generation returned.
    Generated(Result<Riddle, GenerationError>),
    /// What publishing the riddle returned.
    Submitted(Result<TxHandle, ChainError>),
    /// What waiting for the transaction's inclusion returned.
    Confirmed(Result<Confirmation, ChainError>),
    /// The solved-event subscription failed or ended.
    SubscriptionLost(String),
}

/// The stage at which a cycle failed, with its cause.
#[derive(Debug, PartialEq, Eq)]
pub enum Failure {
    Generation(GenerationError),
    Submission(ChainError),
    Confirmation(ChainError),
}

/// How a cycle ended.
#[derive(Debug, PartialEq, Eq)]
pub enum Outcome {
    Done(Confirmation),
    Failed(Failure),
}

/// The outside work to perform next.
#[derive(Debug, PartialEq, Eq)]
pub enum Command {
    /// Ask the text-generation service for a riddle.
    Generate,
    /// Set the contract's riddle text and answer commitment in one transaction.
    Publish { text: String, commitment: [u8; 32] },
    /// Wait until the transaction is included.
    AwaitConfirmation(TxHandle),
    /// Nothing to do until the next event.
    Wait,
    /// Stop serving: the error is fatal.
    Halt(ChainError),
}

/// A step's result: the cycle that just ended, if one did, and the next command.
#[derive(Debug, PartialEq, Eq)]
pub struct Directive {
    pub report: Option<Outcome>,
    pub command: Command,
}

/// The lifecycle driver: its phase, and how many triggers wait for the
/// cycle in progress to end.
#[derive(Debug, Clone, Copy, PartialEq, Eq, Structural)]
pub struct Driver {
    pub phase: Phase,
    pub pending: u64,
}

/// The step leaves the driver as it was and asks for nothing.
pub open spec fn ignores(d: Driver, d2: Driver, r: Directive) -> bool {
    d2 == d && r.report is None && r.command is Wait
}

/// The step ends the cycle in progress with `outcome` and, if a trigger is
/// waiting, starts the next cycle at once.
pub open spec fn finishes(d: Driver, outcome: Outcome, d2: Driver, r: Directive) -> bool {
    &&& r.report == Some(outcome)
    &&& if d.pending > 0 {
        d2 == Driver { phase: Phase::Generating, pending: (d.pending - 1) as u64 } && r.command
            is Generate
    } else {
        &&& d2.pending == 0
        &&& d2.phase == if outcome is Done {
            Phase::Done
        } else {
            Phase::Failed
        }
        &&& r.command is Wait
    }
}

/// One step of the driver: from `d`, event `ev` leads to `d2` and directive `r`.
pub open spec fn step_spec(d: Driver, ev: Event, d2: Driver, r: Directive) -> bool {
    match ev {
        Event::Trigger => if d.phase.is_resting() {
            d2 == Driver { phase: Phase::Generating, pending: d.pending } && r.report is None
                && r.command is Generate
        } else if d.phase.in_progress() {
            d2 == Driver { phase: d.phase, pending: (d.pending + 1) as u64 } && r.report is None
                && r.command is Wait
        } else {
            ignores(d, d2, r)
        },
        Event::Generated(res) => if d.phase is Generating {
            match res {
                Ok(riddle) => {
                    &&& d2 == Driver { phase: Phase::Submitting, pending: d.pending }
                    &&& r.report is None
                    &&& r.command is Publish
                    &&& r.command->text@ == riddle.text@
                    &&& r.command->commitment@ == commitment_of(riddle.answer@)
                },
                Err(e) => finishes(d, Outcome::Failed(Failure::Generation(e)), d2, r),
            }
        } else {
            ignores(d, d2, r)
        },
        Event::Submitted(res) => if d.phase is Submitting {
            match res {
                Ok(h) => d2 == Driver { phase: Phase::AwaitingConfirmation, pending: d.pending }
                    && r.report is None && r.command == Command::AwaitConfirmation(h),
                Err(e) => finishes(d, Outcome::Failed(Failure::Submission(e)), d2, r),
            }
        } else {
            ignores(d, d2, r)
        },
        Event::Confirmed(res) => if d.phase is AwaitingConfirmation {
            match res {
                Ok(c) => finishes(d, Outcome::Done(c), d2, r),
                Err(e) => finishes(d, Outcome::Failed(Failure::Confirmation(e)), d2, r),
            }
        } else {
            ignores(d, d2, r)
        },
        Event::SubscriptionLost(cause) => d2 == Driver { phase: Phase::Halted, pending: d.pending }
            && r.report is None && r.command == Command::Halt(ChainError::ConnectionLost(cause)),
    }
}

impl Driver {
    /// A driver with no cycle run yet.
    pub fn new() -> (r: Driver)
        ensures
            r == (Driver { phase: Phase::Idle, pending: 0 }),
    {
        Driver { phase: Phase::Idle, pending: 0 }
    }

    fn in_progress(&self) -> (r: bool)
        ensures
            r == self.phase.in_progress(),
    {
        match self.phase {
            Phase::Generating | Phase::Submitting | Phase::AwaitingConfirmation => true,
            _ => false,
        }
    }

    fn is_resting(&self) -> (r: bool)
        ensures
            r == self.phase.is_resting(),
    {
        match self.phase {
            Phase::Idle | Phase::Done | Phase::Failed => true,
            _ => false,
        }
    }

    fn finish(&mut self, outcome: Outcome) -> (r: Directive)
        requires
            old(self).phase.in_progress(),
        ensures
            finishes(*old(self), outcome, *final(self), r),
    {
        if self.pending > 0 {
            self.pending = self.pending - 1;
            self.phase = Phase::Generating;
            Directive { report: Some(outcome), command: Command::Generate }
        } else {
            self.phase = match outcome {
                Outcome::Done(_) => Phase::Done,
                Outcome::Failed(_) => Phase::Failed,
            };
            Directive { report: Some(outcome), command: Command::Wait }
        }
    }

    /// Takes one event and says what to do next. Triggers that arrive while a
    /// cycle is in progress are counted and served one at a time afterwards.
    pub fn step(&mut self, ev: Event) -> (r: Directive)
        requires
            ev is Trigger && old(self).phase.in_progress() ==> old(self).pending < u64::MAX,
        ensures
            step_spec(*old(self), ev, *final(self), r),
    {
        let ignore = Directive { report: None, command: Command::Wait };
        match ev {
            Event::Trigger => {
                if self.is_resting() {
                    self.phase = Phase::Generating;
                    Directive { report: None, command: Command::Generate }
                } else if self.in_progress() {
                    self.pending = self.pending + 1;
                    ignore
                } else {
                    ignore
                }
            },
            Event::Generated(res) => {
                if self.phase != Phase::Generating {
                    return ignore;
                }
                match res {
                    Ok(riddle) => {
                        let commitment = commit(riddle.answer.as_str());
                        self.phase = Phase::Submitting;
                        Directive {
                            report: None,
                            command: Command::Publish { text: riddle.text, commitment },
                        }
                    },
                    Err(e) => self.finish(Outcome::Failed(Failure::Generation(e))),
                }
            },
            Event::Submitted(res) => {
                if self.phase != Phase::Submitting {
                    return ignore;
                }
                match res {
                    Ok(h) => {
                        self.phase = Phase::AwaitingConfirmation;
                        Directive { report: None, command: Command::AwaitConfirmation(h) }
                    },
                    Err(e) => self.finish(Outcome::Failed(Failure::Submission(e))),
                }
            },
            Event::Confirmed(res) => {
                if self.phase != Phase::AwaitingConfirmation {
                    return ignore;
                }
                match res {
                    Ok(c) => self.finish(Outcome::Done(c)),
                    Err(e) => self.finish(Outcome::Failed(Failure::Confirmation(e))),
                }
            },
            Event::SubscriptionLost(cause) => {
                self.phase = Phase::Halted;
                Directive { report: None, command: Command::Halt(ChainError::ConnectionLost(cause)) }
            },
        }
    }
}

/// A generation failure ends the cycle as failed at the generation stage and
/// never asks for a publish.
pub proof fn lemma_generation_failure_skips_publish(
    d: Driver,
    e: GenerationError,
    d2: Driver,
    r: Directive,
)
    requires
        d.phase is Generating,
        step_spec(d, Event::Generated(Err(e)), d2, r),
    ensures
        !(r.command is Publish),
        r.report == Some(Outcome::Failed(Failure::Generation(e))),
        d.pending == 0 ==> d2.phase is Failed,
{
}

/// A failed cycle leaves nothing behind: a trigger after it starts a cycle
/// exactly as a trigger on a fresh driver does.
pub proof fn lemma_failure_leaves_no_trace(
    d: Driver,
    e: ChainError,
    d2: Driver,
    r: Directive,
    d3: Driver,
    r3: Directive,
    fresh: Driver,
    rf: Directive,
)
    requires
        d.phase is AwaitingConfirmation,
        d.pending == 0,
        step_spec(d, Event::Confirmed(Err(e)), d2, r),
        step_spec(d2, Event::Trigger, d3, r3),
        step_spec(Driver { phase: Phase::Idle, pending: 0 }, Event::Trigger, fresh, rf),
    ensures
        d2.phase is Failed,
        d3 == fresh,
        r3 == rf,
{
}

/// From any state where no cycle runs and no trigger waits (a failed cycle
/// included), a trigger whose generation, publish and confirmation succeed
/// reaches `Done` and reports the confirmation.
pub proof fn lemma_cycle_reaches_done(
    d0: Driver,
    riddle: Riddle,
    h: TxHandle,
    c: Confirmation,
    d1: Driver,
    r1: Directive,
    d2: Driver,
    r2: Directive,
    d3: Driver,
    r3: Directive,
    d4: Driver,
    r4: Directive,
)
    requires
        d0.phase.is_resting(),
        d0.pending == 0,
        step_spec(d0, Event::Trigger, d1, r1),
        step_spec(d1, Event::Generated(Ok(riddle)), d2, r2),
        step_spec(d2, Event::Submitted(Ok(h)), d3, r3),
        step_spec(d3, Event::Confirmed(Ok(c)), d4, r4),
    ensures
        r1.command is Generate,
        r2.command is Publish,
        r3.command == Command::AwaitConfirmation(h),
        d4 == (Driver { phase: Phase::Done, pending: 0 }),
        r4.report == Some(Outcome::Done(c)),
{
}

/// A trigger that arrives while a cycle is in progress starts nothing: the
/// cycle keeps its phase and the trigger waits its turn.
pub proof fn lemma_busy_trigger_waits(d: Driver, d2: Driver, r: Directive)
    requires
        d.phase.in_progress(),
        d.pending < u64::MAX,
        step_spec(d, Event::Trigger, d2, r),
    ensures
        d2.phase == d.phase,
        d2.pending == d.pending + 1,
        r.command is Wait,
{
}

/// Two triggers that arrive while a cycle awaits confirmation wait for it;
/// when it ends, however it ends, exactly one of them starts the next cycle
/// and the other stays queued behind it.
pub proof fn lemma_two_triggers_run_in_turn(
    d: Driver,
    d1: Driver,
    r1: Directive,
    d2: Driver,
    r2: Directive,
    res: Result<Confirmation, ChainError>,
    d3: Driver,
    r3: Directive,
)
    requires
        d.phase is AwaitingConfirmation,
        d.pending == 0,
        step_spec(d, Event::Trigger, d1, r1),
        step_spec(d1, Event::Trigger, d2, r2),
        step_spec(d2, Event::Confirmed(res), d3, r3),
    ensures
        r1.command is Wait,
        r2.command is Wait,
        d2 == (Driver { phase: Phase::AwaitingConfirmation, pending: 2 }),
        r3.report is Some,
        r3.command is Generate,
        d3 == (Driver { phase: Phase::Generating, pending: 1 }),
{
}

/// Cycles never overlap: a new cycle starts only when none is in progress,
/// or in the very step that ends the one in progress, taking one waiting trigger.
pub proof fn lemma_cycles_never_overlap(d: Driver, ev: Event, d2: Driver, r: Directive)
    requires
        step_spec(d, ev, d2, r),
        r.command is Generate,
    ensures
        d.phase.is_resting() || (d.phase.in_progress() && r.report is Some && d.pending > 0
            && d2.pending == d.pending - 1),
        d2.phase is Generating,
{
}

/// Losing the subscription is fatal: the driver halts with a connection-loss
/// error and, from then on, ignores everything but another such loss.
pub proof fn lemma_subscription_loss_halts(
    d: Driver,
    cause: String,
    d2: Driver,
    r: Directive,
    ev: Event,
    d3: Driver,
    r3: Directive,
)
    requires
        step_spec(d, Event::SubscriptionLost(cause), d2, r),
        !(ev is SubscriptionLost),
        step_spec(d2, ev, d3, r3),
    ensures
        r.command == Command::Halt(ChainError::ConnectionLost(cause)),
        d2.phase is Halted,
        d3 == d2,
        r3.command is Wait,
{
}

/// The event for one item of the solved-event subscription: a solved event
/// triggers a cycle; an error, or the end of the stream, loses the subscription.
pub fn subscription_event(item: Option<Result<SolvedEvent, String>>) -> (r: Event)
    ensures
        item matches Some(Ok(_)) ==> r is Trigger,
        item matches Some(Err(cause)) ==> r == Event::SubscriptionLost(cause),
        item is None ==> r is SubscriptionLost,
{
    match item {
        Some(Ok(_)) => Event::Trigger,
        Some(Err(cause)) => Event::SubscriptionLost(cause),
        None => Event::SubscriptionLost("solved-event subscription ended".to_owned()),
    }
}

} // verus!
