use onchain_riddle_robot::chain::{
    confirmation_from_receipt, ChainError, Confirmation, Receipt, SolvedEvent, TxHandle,
};
use onchain_riddle_robot::commitment::commit;
use onchain_riddle_robot::driver::{
    subscription_event, Command, Driver, Event, Failure, Outcome, Phase,
};
use onchain_riddle_robot::riddle::{GenerationError, Riddle};

fn riddle(text: &str, answer: &str) -> Riddle {
    Riddle { text: text.to_string(), answer: answer.to_string() }
}

fn handle(n: u8) -> TxHandle {
    TxHandle { hash: [n; 32] }
}

#[test]
fn full_cycle_reaches_done() {
    let mut d = Driver::new();
    assert_eq!(d.phase, Phase::Idle);
    assert_eq!(d.step(Event::Trigger).command, Command::Generate);
    assert_eq!(d.phase, Phase::Generating);
    let r = d.step(Event::Generated(Ok(riddle("What has keys but no locks?", "piano"))));
    assert_eq!(
        r.command,
        Command::Publish { text: "What has keys but no locks?".to_string(), commitment: commit("piano") }
    );
    assert_eq!(d.phase, Phase::Submitting);
    let r = d.step(Event::Submitted(Ok(handle(7))));
    assert_eq!(r.command, Command::AwaitConfirmation(handle(7)));
    assert_eq!(d.phase, Phase::AwaitingConfirmation);
    let c = Confirmation { tx_hash: [7; 32] };
    let r = d.step(Event::Confirmed(Ok(c)));
    assert_eq!(r.report, Some(Outcome::Done(c)));
    assert_eq!(r.command, Command::Wait);
    assert_eq!(d, Driver { phase: Phase::Done, pending: 0 });
}

#[test]
fn publish_commits_to_answer_not_text() {
    let mut d = Driver::new();
    d.step(Event::Trigger);
    let r = d.step(Event::Generated(Ok(riddle("Riddle?", "echo"))));
    match r.command {
        Command::Publish { text, commitment } => {
            assert_eq!(text, "Riddle?");
            assert_eq!(commitment, commit("echo"));
            assert_ne!(commitment, commit("Riddle?"));
        }
        other => panic!("expected a publish, got {:?}", other),
    }
}

#[test]
fn generation_failure_fails_without_publish() {
    let mut d = Driver::new();
    d.step(Event::Trigger);
    let r = d.step(Event::Generated(Err(GenerationError::Unparsable)));
    assert_eq!(r.report, Some(Outcome::Failed(Failure::Generation(GenerationError::Unparsable))));
    assert_eq!(r.command, Command::Wait);
    assert_eq!(d.phase, Phase::Failed);
}

#[test]
fn submission_rejection_fails_cycle() {
    let mut d = Driver::new();
    d.step(Event::Trigger);
    d.step(Event::Generated(Ok(riddle("Riddle?", "answer"))));
    let err = ChainError::SubmissionRejected("insufficient funds".to_string());
    let r = d.step(Event::Submitted(Err(err)));
    assert_eq!(
        r.report,
        Some(Outcome::Failed(Failure::Submission(ChainError::SubmissionRejected(
            "insufficient funds".to_string()
        ))))
    );
    assert_eq!(d.phase, Phase::Failed);
}

#[test]
fn revert_then_new_trigger_reaches_done() {
    let mut d = Driver::new();
    d.step(Event::Trigger);
    d.step(Event::Generated(Ok(riddle("First?", "one"))));
    d.step(Event::Submitted(Ok(handle(1))));
    let r = d.step(Event::Confirmed(Err(ChainError::ConfirmationFailed("reverted".to_string()))));
    assert!(matches!(r.report, Some(Outcome::Failed(Failure::Confirmation(_)))));
    assert_eq!(d.phase, Phase::Failed);

    assert_eq!(d.step(Event::Trigger).command, Command::Generate);
    assert_eq!(d, Driver { phase: Phase::Generating, pending: 0 });
    d.step(Event::Generated(Ok(riddle("Second?", "two"))));
    d.step(Event::Submitted(Ok(handle(2))));
    let c = Confirmation { tx_hash: [2; 32] };
    let r = d.step(Event::Confirmed(Ok(c)));
    assert_eq!(r.report, Some(Outcome::Done(c)));
    assert_eq!(d.phase, Phase::Done);
}

/// Drives the driver like a caller would, with outside work that records
/// when each cycle is in progress, and checks that no two windows overlap.
#[test]
fn triggers_during_confirmation_run_one_after_another() {
    let mut d = Driver::new();
    let mut in_progress = false;
    let mut cycles_started = 0;
    let mut cycles_ended = 0;

    let mut observe = |r: &onchain_riddle_robot::driver::Directive,
                       in_progress: &mut bool,
                       started: &mut i32,
                       ended: &mut i32| {
        if r.report.is_some() {
            assert!(*in_progress);
            *in_progress = false;
            *ended += 1;
        }
        if r.command == Command::Generate {
            assert!(!*in_progress, "a cycle started while another was in progress");
            *in_progress = true;
            *started += 1;
        }
    };

    let r = d.step(Event::Trigger);
    observe(&r, &mut in_progress, &mut cycles_started, &mut cycles_ended);
    d.step(Event::Generated(Ok(riddle("First?", "one"))));
    d.step(Event::Submitted(Ok(handle(1))));
    assert_eq!(d.phase, Phase::AwaitingConfirmation);

    for _ in 0..2 {
        let r = d.step(Event::Trigger);
        assert_eq!(r.command, Command::Wait);
        assert_eq!(d.phase, Phase::AwaitingConfirmation);
    }
    assert_eq!(d.pending, 2);

    let mut confirmations = 0u8;
    let mut r = d.step(Event::Confirmed(Ok(Confirmation { tx_hash: [1; 32] })));
    observe(&r, &mut in_progress, &mut cycles_started, &mut cycles_ended);
    while r.command == Command::Generate {
        confirmations += 1;
        d.step(Event::Generated(Ok(riddle("Next?", "next"))));
        d.step(Event::Submitted(Ok(handle(10 + confirmations))));
        r = d.step(Event::Confirmed(Ok(Confirmation { tx_hash: [10 + confirmations; 32] })));
        observe(&r, &mut in_progress, &mut cycles_started, &mut cycles_ended);
    }
    assert_eq!(confirmations, 2);
    assert_eq!(cycles_started, 3);
    assert_eq!(cycles_ended, 3);
    assert!(!in_progress);
    assert_eq!(d, Driver { phase: Phase::Done, pending: 0 });
}

#[test]
fn connection_loss_halts() {
    let mut d = Driver::new();
    let r = d.step(subscription_event(Some(Err("socket closed".to_string()))));
    assert_eq!(r.command, Command::Halt(ChainError::ConnectionLost("socket closed".to_string())));
    assert_eq!(d.phase, Phase::Halted);
    let r = d.step(Event::Trigger);
    assert_eq!(r.command, Command::Wait);
    assert_eq!(d.phase, Phase::Halted);
}

#[test]
fn end_of_stream_is_connection_loss() {
    let mut d = Driver::new();
    let r = d.step(subscription_event(None));
    assert!(matches!(r.command, Command::Halt(ChainError::ConnectionLost(_))));
    assert_eq!(d.phase, Phase::Halted);
}

#[test]
fn solved_event_triggers_cycle() {
    let ev = subscription_event(Some(Ok(SolvedEvent { solver: [9; 20] })));
    assert!(matches!(ev, Event::Trigger));
    let mut d = Driver { phase: Phase::Done, pending: 0 };
    assert_eq!(d.step(ev).command, Command::Generate);
}

#[test]
fn stale_results_are_ignored() {
    let mut d = Driver::new();
    let r = d.step(Event::Submitted(Ok(handle(3))));
    assert_eq!(r.command, Command::Wait);
    assert!(r.report.is_none());
    assert_eq!(d, Driver::new());
    let r = d.step(Event::Confirmed(Ok(Confirmation { tx_hash: [3; 32] })));
    assert_eq!(r.command, Command::Wait);
    assert_eq!(d, Driver::new());
}

#[test]
fn receipt_with_success_confirms() {
    let rc = Receipt { tx_hash: [4; 32], status: Some(1) };
    assert_eq!(confirmation_from_receipt(Some(rc)), Ok(Confirmation { tx_hash: [4; 32] }));
    let rc = Receipt { tx_hash: [5; 32], status: None };
    assert_eq!(confirmation_from_receipt(Some(rc)), Ok(Confirmation { tx_hash: [5; 32] }));
}

#[test]
fn reverted_receipt_fails() {
    let rc = Receipt { tx_hash: [4; 32], status: Some(0) };
    assert!(matches!(confirmation_from_receipt(Some(rc)), Err(ChainError::ConfirmationFailed(_))));
}

#[test]
fn missing_receipt_fails() {
    assert!(matches!(confirmation_from_receipt(None), Err(ChainError::ConfirmationFailed(_))));
}
