use chat_responder::handler::Handler;
use chat_responder::model::{Effect, InboundMessage, ReferencedMessage, Step, Target};
use chat_responder::run::{Outcome, Report, Run};

fn handler() -> Handler {
    Handler::new(1001, 2002, 3003).unwrap()
}

fn sob_reply() -> InboundMessage {
    InboundMessage {
        author_id: 1001,
        channel_id: 77,
        content: ",sob".to_string(),
        referenced_message: Some(ReferencedMessage { content: "M".to_string() }),
    }
}

#[test]
fn empty_run_has_nothing_pending() {
    let mut run = Run::new(Vec::new());
    assert!(run.pending().is_none());
    assert_eq!(run.complete(Outcome::Failed), Report::Silent);
    assert_eq!(run.complete(Outcome::Succeeded), Report::Silent);
    assert!(run.pending().is_none());
}

#[test]
fn failed_reaction_does_not_prevent_the_deletion() {
    let mut run = Run::new(handler().message(&sob_reply()));
    assert!(matches!(run.pending(), Some(Effect::React { target: Target::Referenced, .. })));
    assert_eq!(
        run.complete(Outcome::Failed),
        Report::Error("Failed to add reaction".to_string())
    );
    assert_eq!(run.pending(), Some(&Effect::Delete { target: Target::Triggering }));
    assert_eq!(
        run.complete(Outcome::Failed),
        Report::Error("Failed to delete command message".to_string())
    );
    assert!(run.pending().is_none());
}

#[test]
fn successful_reaction_is_noted_and_deletion_follows() {
    let mut run = Run::new(handler().message(&sob_reply()));
    assert_eq!(run.complete(Outcome::Succeeded), Report::Info("Added sob reaction".to_string()));
    assert_eq!(run.pending(), Some(&Effect::Delete { target: Target::Triggering }));
    assert_eq!(run.complete(Outcome::Succeeded), Report::Silent);
    assert!(run.pending().is_none());
    assert_eq!(run.complete(Outcome::Failed), Report::Silent);
}

#[test]
fn pending_does_not_move_the_run() {
    let run = Run::new(handler().message(&sob_reply()));
    let first = run.pending().cloned();
    assert_eq!(run.pending().cloned(), first);
}

#[test]
fn every_step_is_tried_whatever_the_outcomes() {
    for outcomes in [
        [Outcome::Failed, Outcome::Failed, Outcome::Failed, Outcome::Failed],
        [Outcome::Succeeded, Outcome::Failed, Outcome::Succeeded, Outcome::Failed],
        [Outcome::Succeeded, Outcome::Succeeded, Outcome::Succeeded, Outcome::Succeeded],
    ] {
        let mut msg = sob_reply();
        msg.content = ",type".to_string();
        let plan = handler().message(&msg);
        let mut run = Run::new(plan.clone());
        let mut tried = Vec::new();
        let mut turn = 0;
        while let Some(effect) = run.pending() {
            tried.push(effect.clone());
            run.complete(outcomes[turn]);
            turn += 1;
        }
        let planned: Vec<Effect> = plan.iter().map(|s| s.effect.clone()).collect();
        assert_eq!(tried, planned);
    }
}

#[test]
fn steps_without_notes_report_nothing() {
    let quiet = Step { effect: Effect::StopTyping, on_failure: None, on_success: None };
    let mut run = Run::new(vec![quiet.clone(), quiet]);
    assert_eq!(run.complete(Outcome::Failed), Report::Silent);
    assert_eq!(run.complete(Outcome::Succeeded), Report::Silent);
}
