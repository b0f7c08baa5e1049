use cleanup::{Backend, DeletionBatch, Interactive, SelectStep, SelectionGate, WizardAction, WizardStep};

#[test]
fn empty_candidates_are_never_prompted() {
    assert_eq!(SelectionGate::plan(0), SelectStep::NothingFound);
    assert_eq!(SelectionGate::plan(3), SelectStep::Prompt);
    assert!(SelectionGate::chosen(0, Some(vec![0, 1])).is_empty());
}

#[test]
fn failed_prompt_selects_nothing() {
    assert!(SelectionGate::chosen(4, None).is_empty());
    assert!(!SelectionGate::confirmed(None));
    assert!(SelectionGate::confirmed(Some(true)));
    assert!(!SelectionGate::confirmed(Some(false)));
}

#[test]
fn selection_keeps_chosen_order() {
    assert_eq!(SelectionGate::chosen(4, Some(vec![3, 0, 7, 2])), vec![3, 0, 2]);
}

#[test]
fn one_failure_does_not_stop_the_batch() {
    let n = 5;
    let failing = 2;
    let mut batch = DeletionBatch::new(n);
    let mut attempts = Vec::new();
    while let Some(k) = batch.next() {
        attempts.push(k);
        batch.record(k != failing);
    }
    assert_eq!(attempts, vec![0, 1, 2, 3, 4]);
    assert!(batch.is_done());
    assert_eq!(batch.succeeded, n - 1);
    assert_eq!(batch.failed, 1);
}

#[test]
fn empty_batch_is_done_at_once() {
    let batch = DeletionBatch::new(0);
    assert!(batch.is_done());
    assert_eq!(batch.next(), None);
}

#[test]
fn wizard_visits_backends_in_order() {
    let mut step = Interactive::start();
    let mut actions = Vec::new();
    let mut cleaned = Vec::new();
    let replies = [true, false, true];
    let mut asked = 0;
    loop {
        let action = Interactive::action(step);
        actions.push(action);
        if action == WizardAction::Stop {
            break;
        }
        let yes = match action {
            WizardAction::Ask(_) => {
                asked += 1;
                replies[asked - 1]
            }
            _ => false,
        };
        let (next, clean) = Interactive::advance(step, yes);
        if let Some(b) = clean {
            cleaned.push(b);
        }
        step = next;
    }
    assert_eq!(
        actions,
        vec![
            WizardAction::ShowStatus,
            WizardAction::Ask(Backend::Rust),
            WizardAction::Ask(Backend::Solana),
            WizardAction::Ask(Backend::Simulator),
            WizardAction::ShowStatus,
            WizardAction::Stop,
        ]
    );
    assert_eq!(cleaned, vec![Backend::Rust, Backend::Simulator]);
    assert_eq!(step, WizardStep::Finished);
    assert_eq!(Interactive::prompt_text(Backend::Solana), "Clean up Solana installations?");
}
