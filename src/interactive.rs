use vstd::prelude::*;

verus! {

/// One of the three inventoried backends.
#[derive(Debug, Clone, Copy, PartialEq, Eq, Structural)]
pub enum Backend {
    Rust,
    Solana,
    Simulator,
}

/// Where the cleanup wizard stands.
#[derive(Debug, Clone, Copy, PartialEq, Eq, Structural)]
pub enum WizardStep {
    Summary,
    Confirm(Backend),
    FinalSummary,
    Finished,
}

/// What the caller does in a step of the wizard.
#[derive(Debug, Clone, Copy, PartialEq, Eq, Structural)]
pub enum WizardAction {
    ShowStatus,
    Ask(Backend),
    Stop,
}

pub open spec fn action_of(step: WizardStep) -> WizardAction {
    match step {
        WizardStep::Summary => WizardAction::ShowStatus,
        WizardStep::Confirm(b) => WizardAction::Ask(b),
        WizardStep::FinalSummary => WizardAction::ShowStatus,
        WizardStep::Finished => WizardAction::Stop,
    }
}

/// The step after `step`: the summary, then each backend in a fixed order,
/// then the summary again. The reply does not change the order.
pub open spec fn step_after(step: WizardStep) -> WizardStep {
    match step {
        WizardStep::Summary => WizardStep::Confirm(Backend::Rust),
        WizardStep::Confirm(Backend::Rust) => WizardStep::Confirm(Backend::Solana),
        WizardStep::Confirm(Backend::Solana) => WizardStep::Confirm(Backend::Simulator),
        WizardStep::Confirm(Backend::Simulator) => WizardStep::FinalSummary,
        WizardStep::FinalSummary => WizardStep::Finished,
        WizardStep::Finished => WizardStep::Finished,
    }
}

/// The backend whose cleanup runs after the reply `yes` in `step`.
pub open spec fn cleanup_after(step: WizardStep, yes: bool) -> Option<Backend> {
    match step {
        WizardStep::Confirm(b) => if yes {
            Some(b)
        } else {
            None
        },
        _ => None,
    }
}

/// The cleanup wizard.
pub struct Interactive;

impl Interactive {
    pub fn start() -> (r: WizardStep)
        ensures
            r == WizardStep::Summary,
    {
        WizardStep::Summary
    }

    /// What to do in `step`.
    pub fn action(step: WizardStep) -> (r: WizardAction)
        ensures
            r == action_of(step),
    {
        match step {
            WizardStep::Summary => WizardAction::ShowStatus,
            WizardStep::Confirm(b) => WizardAction::Ask(b),
            WizardStep::FinalSummary => WizardAction::ShowStatus,
            WizardStep::Finished => WizardAction::Stop,
        }
    }

    /// The next step, and the backend to clean up now, if any, after the
    /// operator replied `yes` or not in `step`.
    pub fn advance(step: WizardStep, yes: bool) -> (r: (WizardStep, Option<Backend>))
        ensures
            r.0 == step_after(step),
            r.1 == cleanup_after(step, yes),
    {
        match step {
            WizardStep::Summary => (WizardStep::Confirm(Backend::Rust), None),
            WizardStep::Confirm(b) => {
                let next = match b {
                    Backend::Rust => WizardStep::Confirm(Backend::Solana),
                    Backend::Solana => WizardStep::Confirm(Backend::Simulator),
                    Backend::Simulator => WizardStep::FinalSummary,
                };
                (next, if yes {
                    Some(b)
                } else {
                    None
                })
            },
            WizardStep::FinalSummary => (WizardStep::Finished, None),
            WizardStep::Finished => (WizardStep::Finished, None),
        }
    }

    /// The question put for `backend`.
    pub fn prompt_text(backend: Backend) -> (r: &'static str)
        ensures
            backend == Backend::Rust ==> r@ == "Clean up Rust toolchains?"@,
            backend == Backend::Solana ==> r@ == "Clean up Solana installations?"@,
            backend == Backend::Simulator ==> r@ == "Clean up Simulator installations?"@,
    {
        match backend {
            Backend::Rust => "Clean up Rust toolchains?",
            Backend::Solana => "Clean up Solana installations?",
            Backend::Simulator => "Clean up Simulator installations?",
        }
    }
}

} // verus!
