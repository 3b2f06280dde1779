//! The run as a whole: what is left to do once the repository has been
//! inspected, how a run ends, and the exit code of each ending.

use std::path::PathBuf;
use vstd::prelude::*;
use vstd::string::StringExecFns;
use crate::check_submodules::{
    check_submodules, lemma_inspection_outcomes, CheckError, DiagnosticView, RepositoryProbeView,
    SubmodulesDiagnostic, spec_incomplete, spec_inspect, spec_inspection_view,
};
use crate::config::EffectiveConfig;
use crate::confirmation::{needs_confirmation, spec_needs_confirmation, ConfirmationOutcome};

verus! {

/// How a run ended.
#[derive(Clone, Copy, Debug, PartialEq, Eq, Structural)]
pub enum ProgramOutcome {
    /// The operator was asked, with this outcome.
    Success(ConfirmationOutcome),
    /// The inspection failed in a strict run.
    CheckError,
    /// There was nothing to ask.
    NoConfirmationNeeded,
}

/// What is left to do once the inspection is over.
#[derive(Debug)]
pub enum Pending {
    /// The operator has to confirm the commit, with this diagnostic shown.
    Question(SubmodulesDiagnostic),
    /// The run ends: the inspection failed.
    Failed(CheckError),
    /// The run ends: there is nothing to ask.
    Clear,
}

/// A `Pending` as a mathematical value.
pub enum PendingView {
    Question(DiagnosticView),
    Failed(CheckError),
    Clear,
}

impl View for Pending {
    type V = PendingView;

    open spec fn view(&self) -> PendingView {
        match *self {
            Pending::Question(diagnostic) => PendingView::Question(diagnostic@),
            Pending::Failed(error) => PendingView::Failed(error),
            Pending::Clear => PendingView::Clear,
        }
    }
}

impl EffectiveConfig {
    /// Whether the settings ask for a confirmation at all; where they do
    /// not, the repository is not even inspected.
    pub open spec fn spec_wants_inspection(self) -> bool {
        self.confirm_staging || self.confirm_not_staging
    }

    /// Whether the repository has to be inspected under these settings.
    pub fn wants_inspection(&self) -> (wanted: bool)
        ensures
            wanted == self.spec_wants_inspection(),
    {
        self.confirm_staging || self.confirm_not_staging
    }
}

/// What is left to do after an inspection that ended with `inspection`:
/// a failure ends the run, a diagnostic leads to the question exactly if
/// the settings ask for one of its findings, and everything else leaves
/// nothing to ask.
pub open spec fn spec_after_inspection(
    config: EffectiveConfig,
    inspection: Result<Option<DiagnosticView>, CheckError>,
) -> PendingView {
    match inspection {
        Err(error) => PendingView::Failed(error),
        Ok(None) => PendingView::Clear,
        Ok(Some(diagnostic)) => if spec_needs_confirmation(diagnostic, config) {
            PendingView::Question(diagnostic)
        } else {
            PendingView::Clear
        },
    }
}

/// What is left to do under `config` once the repository has been probed:
/// nothing where the settings ask for no confirmation, else what follows
/// from the inspection.
pub open spec fn spec_pending(config: EffectiveConfig, probe: RepositoryProbeView) -> PendingView {
    if config.spec_wants_inspection() {
        spec_after_inspection(config, spec_inspect(config.strict, probe))
    } else {
        PendingView::Clear
    }
}

/// How a run ends: with the operator's answer where the question is
/// pending, else as the inspection left it.
pub open spec fn spec_conclude(pending: PendingView, answer: Option<bool>) -> ProgramOutcome {
    match pending {
        PendingView::Question(_) => ProgramOutcome::Success(
            ConfirmationOutcome::spec_from_answer(answer),
        ),
        PendingView::Failed(_) => ProgramOutcome::CheckError,
        PendingView::Clear => ProgramOutcome::NoConfirmationNeeded,
    }
}

/// How a whole run ends, given the settings, what probing the repository
/// brings to light and what the prompt would return.
pub open spec fn spec_run(
    config: EffectiveConfig,
    probe: RepositoryProbeView,
    answer: Option<bool>,
) -> ProgramOutcome {
    spec_conclude(spec_pending(config, probe), answer)
}

impl ProgramOutcome {
    /// The exit code of a run that ended this way.
    pub open spec fn spec_exit_code(self) -> u8 {
        match self {
            ProgramOutcome::Success(outcome) => outcome.spec_exit_code(),
            ProgramOutcome::CheckError => 3,
            ProgramOutcome::NoConfirmationNeeded => 0,
        }
    }

    /// The exit code of a run that ended this way.
    pub fn to_exit_code(&self) -> (code: u8)
        ensures
            code == self.spec_exit_code(),
    {
        match self {
            ProgramOutcome::Success(outcome) => outcome.to_exit_code(),
            ProgramOutcome::CheckError => 3,
            ProgramOutcome::NoConfirmationNeeded => 0,
        }
    }
}

impl Pending {
    /// The notice that goes to the error stream before the run goes on:
    /// the reason of a failed inspection, and nothing otherwise.
    pub open spec fn spec_notice(pending: PendingView) -> Option<Seq<char>> {
        match pending {
            PendingView::Failed(error) => Some("Submodule check error: "@ + error.spec_message()),
            _ => None,
        }
    }

    /// The notice that goes to the error stream before the run goes on.
    pub fn notice(&self) -> (text: Option<String>)
        ensures
            match Pending::spec_notice(self@) {
                Some(expected) => text matches Some(t) && t@ == expected,
                None => text is None,
            },
    {
        match self {
            Pending::Failed(error) => {
                let mut text = String::from_str("Submodule check error: ");
                let reason = error.message();
                text.append(reason.as_str());
                Some(text)
            },
            _ => None,
        }
    }

    /// Ends the run. `answer` is what the prompt returned, `None` where it
    /// failed or was interrupted; it counts only where the question is
    /// pending.
    pub fn conclude(&self, answer: Option<bool>) -> (outcome: ProgramOutcome)
        ensures
            outcome == spec_conclude(self@, answer),
    {
        match self {
            Pending::Question(_) => ProgramOutcome::Success(
                ConfirmationOutcome::from_answer(answer),
            ),
            Pending::Failed(_) => ProgramOutcome::CheckError,
            Pending::Clear => ProgramOutcome::NoConfirmationNeeded,
        }
    }
}

/// Decides what is left to do after an inspection.
pub fn after_inspection(
    config: &EffectiveConfig,
    inspection: Result<Option<SubmodulesDiagnostic>, CheckError>,
) -> (pending: Pending)
    ensures
        pending@ == spec_after_inspection(*config, spec_inspection_view(inspection)),
{
    match inspection {
        Err(error) => Pending::Failed(error),
        Ok(None) => Pending::Clear,
        Ok(Some(diagnostic)) => {
            if needs_confirmation(&diagnostic, config) {
                Pending::Question(diagnostic)
            } else {
                Pending::Clear
            }
        },
    }
}

/// Runs the checks that come before the question: inspects the repository
/// at `path`, unless the settings ask for no confirmation, and decides what
/// is left to do.
///
/// The result is what follows from whatever probing the repository brought
/// to light. Where the settings ask for no confirmation nothing is pending,
/// and a run that is not strict never ends in a failure.
pub fn run_checks(config: &EffectiveConfig, path: &PathBuf) -> (pending: Pending)
    ensures
        exists|probe: RepositoryProbeView| pending@ == #[trigger] spec_pending(*config, probe),
        !config.spec_wants_inspection() ==> pending@ is Clear,
        !config.strict ==> !(pending@ is Failed),
{
    if config.wants_inspection() {
        let inspection = check_submodules(config.strict, path);
        proof {
            let probe = choose|probe: RepositoryProbeView| #[trigger]
                spec_inspect(config.strict, probe) == spec_inspection_view(inspection);
            assert(spec_after_inspection(*config, spec_inspection_view(inspection))
                == spec_pending(*config, probe));
        }
        after_inspection(config, inspection)
    } else {
        proof {
            assert(spec_pending(*config, RepositoryProbeView::Unopenable) is Clear);
        }
        Pending::Clear
    }
}

/// Settings that ask for no confirmation never lead to the question,
/// whatever the diagnostic holds, and the run ends with nothing to confirm,
/// whatever the state of the repository.
pub proof fn lemma_confirmation_switched_off(
    config: EffectiveConfig,
    diagnostic: DiagnosticView,
    probe: RepositoryProbeView,
    answer: Option<bool>,
)
    requires
        !config.confirm_staging,
        !config.confirm_not_staging,
    ensures
        !spec_needs_confirmation(diagnostic, config),
        spec_after_inspection(config, Ok(Some(diagnostic))) is Clear,
        spec_run(config, probe, answer) == ProgramOutcome::NoConfirmationNeeded,
{
}

/// A repository without submodules never leads to the question: the run
/// ends with nothing to confirm under every setting.
pub proof fn lemma_no_submodules_never_asks(config: EffectiveConfig, answer: Option<bool>)
    ensures
        spec_pending(config, RepositoryProbeView::Submodules(Seq::empty())) is Clear,
        spec_run(config, RepositoryProbeView::Submodules(Seq::empty()), answer)
            == ProgramOutcome::NoConfirmationNeeded,
{
}

/// An inspection that cannot be completed never blocks a run that is not
/// strict: it ends with nothing to confirm and the exit code 0. In a strict
/// run that inspects at all it ends in a check error and the exit code 3.
pub proof fn lemma_incomplete_inspection(
    config: EffectiveConfig,
    probe: RepositoryProbeView,
    answer: Option<bool>,
)
    requires
        spec_incomplete(probe),
    ensures
        !config.strict ==> spec_run(config, probe, answer) == ProgramOutcome::NoConfirmationNeeded
            && spec_run(config, probe, answer).spec_exit_code() == 0,
        config.strict && config.spec_wants_inspection() ==> spec_run(config, probe, answer)
            == ProgramOutcome::CheckError && spec_run(config, probe, answer).spec_exit_code()
            == 3,
{
    lemma_inspection_outcomes(config.strict, probe);
}

/// Where the question is pending the operator's answer decides the exit
/// code: 0 for a yes, 1 for a no, 2 for a prompt that was interrupted.
pub proof fn lemma_answer_decides_exit_code(diagnostic: DiagnosticView, answer: Option<bool>)
    ensures
        spec_conclude(PendingView::Question(diagnostic), answer).spec_exit_code() == match answer {
            Some(true) => 0u8,
            Some(false) => 1u8,
            None => 2u8,
        },
{
}

/// A run asks the operator exactly if the inspection gave a diagnostic and
/// the settings ask for one of its findings.
pub proof fn lemma_question_iff_needed(config: EffectiveConfig, probe: RepositoryProbeView)
    ensures
        spec_pending(config, probe) is Question <==> (spec_inspect(config.strict, probe) matches Ok(
            Some(diagnostic),
        ) && spec_needs_confirmation(diagnostic, config)),
{
}

} // verus!
