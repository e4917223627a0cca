//! How a launch attempt can end, and what is printed when it has ended.

use crate::location::{spec_display, texts, Location, LocationView};
use vstd::prelude::*;
use vstd::string::*;

verus! {

/// Why a launch attempt failed. Each kind carries a message for a human
/// reader and nothing else.
#[derive(Clone, Debug, PartialEq, Eq)]
pub enum LaunchError {
    /// The companion executable does not exist where it is expected.
    PathNotFound(String),
    /// The companion process could not be started, ended at once, or its
    /// status could not be read.
    ProcessError(String),
}

/// Mathematical value of a [`LaunchError`].
pub enum LaunchErrorView {
    PathNotFound(Seq<char>),
    ProcessError(Seq<char>),
}

impl View for LaunchError {
    type V = LaunchErrorView;

    open spec fn view(&self) -> LaunchErrorView {
        match self {
            LaunchError::PathNotFound(text) => LaunchErrorView::PathNotFound(text@),
            LaunchError::ProcessError(text) => LaunchErrorView::ProcessError(text@),
        }
    }
}

impl LaunchErrorView {
    /// The message that the error carries.
    pub open spec fn message(self) -> Seq<char> {
        match self {
            LaunchErrorView::PathNotFound(text) => text,
            LaunchErrorView::ProcessError(text) => text,
        }
    }
}

/// The error for a companion executable that is missing at `target`.
pub open spec fn spec_not_found(target: LocationView) -> LaunchErrorView {
    LaunchErrorView::PathNotFound("Python agent not found at: "@ + spec_display(target))
}

/// The error for a companion process that ended during the wait, with the
/// exit status as the operating system words it.
pub open spec fn spec_exited_early(status: Seq<char>) -> LaunchErrorView {
    LaunchErrorView::ProcessError("Python agent exited early with status: "@ + status)
}

/// The error for a status check that the operating system refused.
pub open spec fn spec_status_unknown(reason: Seq<char>) -> LaunchErrorView {
    LaunchErrorView::ProcessError("Failed to check agent status: "@ + reason)
}

/// The error for an operating-system failure that is passed on in its own
/// words.
pub open spec fn spec_os_failure(reason: Seq<char>) -> LaunchErrorView {
    LaunchErrorView::ProcessError(reason)
}

impl LaunchError {
    /// The error for a companion executable that is missing at `target`.
    pub fn not_found(target: &Location) -> (error: LaunchError)
        ensures
            error@ == spec_not_found(target@),
    {
        let shown = target.display();
        LaunchError::PathNotFound(String::from_str("Python agent not found at: ").concat(shown.as_str()))
    }

    /// The error for a companion process that ended during the wait.
    pub fn exited_early(status: &str) -> (error: LaunchError)
        ensures
            error@ == spec_exited_early(status@),
    {
        LaunchError::ProcessError(
            String::from_str("Python agent exited early with status: ").concat(status),
        )
    }

    /// The error for a status check that the operating system refused.
    pub fn status_unknown(reason: &str) -> (error: LaunchError)
        ensures
            error@ == spec_status_unknown(reason@),
    {
        LaunchError::ProcessError(String::from_str("Failed to check agent status: ").concat(reason))
    }

    /// The error for an operating-system failure, in the system's own words.
    pub fn os_failure(reason: String) -> (error: LaunchError)
        ensures
            error@ == spec_os_failure(reason@),
    {
        LaunchError::ProcessError(reason)
    }

    /// The message that the error carries.
    pub fn message(&self) -> (text: String)
        ensures
            text@ == self@.message(),
    {
        match self {
            LaunchError::PathNotFound(text) => text.clone(),
            LaunchError::ProcessError(text) => text.clone(),
        }
    }

    /// Whether the error says that the companion executable is missing.
    pub fn is_path_not_found(&self) -> (answer: bool)
        ensures
            answer == (self@ is PathNotFound),
    {
        match self {
            LaunchError::PathNotFound(_) => true,
            LaunchError::ProcessError(_) => false,
        }
    }
}

/// How a launch attempt ended.
#[derive(Clone, Debug, PartialEq, Eq)]
pub enum Outcome {
    /// The companion process was started and was still running after the
    /// wait.
    Running,
    /// Nothing was started: the companion is taken to be running already.
    AssumedRunning,
    /// The attempt failed.
    Failed(LaunchError),
}

/// Mathematical value of an [`Outcome`].
pub enum OutcomeView {
    Running,
    AssumedRunning,
    Failed(LaunchErrorView),
}

impl View for Outcome {
    type V = OutcomeView;

    open spec fn view(&self) -> OutcomeView {
        match self {
            Outcome::Running => OutcomeView::Running,
            Outcome::AssumedRunning => OutcomeView::AssumedRunning,
            Outcome::Failed(error) => OutcomeView::Failed(error@),
        }
    }
}

/// What the shell prints when a launch attempt has ended, and whether its
/// own setup goes on.
#[derive(Clone, Debug, PartialEq, Eq)]
pub struct Report {
    /// Lines for standard output, in order.
    pub stdout: Vec<String>,
    /// Lines for standard error, in order.
    pub stderr: Vec<String>,
    /// Whether the shell's setup counts as successful.
    pub setup_ok: bool,
}

/// Mathematical value of a [`Report`].
pub struct ReportView {
    pub stdout: Seq<Seq<char>>,
    pub stderr: Seq<Seq<char>>,
    pub setup_ok: bool,
}

impl View for Report {
    type V = ReportView;

    open spec fn view(&self) -> ReportView {
        ReportView {
            stdout: texts(self.stdout@),
            stderr: texts(self.stderr@),
            setup_ok: self.setup_ok,
        }
    }
}

/// The address at which the companion process serves.
pub open spec fn endpoint() -> Seq<char> {
    "http://localhost:8000"@
}

/// The report for each outcome. A failure is printed and otherwise ignored:
/// setup succeeds whatever the outcome.
pub open spec fn spec_report(outcome: OutcomeView) -> ReportView {
    match outcome {
        OutcomeView::Running => ReportView {
            stdout: seq![
                "✓ Python agent started successfully"@,
                "🌐 Agent available at "@ + endpoint(),
            ],
            stderr: Seq::empty(),
            setup_ok: true,
        },
        OutcomeView::AssumedRunning => ReportView {
            stdout: seq!["Assuming Python agent is already running at "@ + endpoint()],
            stderr: Seq::empty(),
            setup_ok: true,
        },
        OutcomeView::Failed(error) => ReportView {
            stdout: Seq::empty(),
            stderr: seq![
                "❌ Failed to start Python agent: "@ + error.message(),
                "Please ensure the Python agent is built and available."@,
            ],
            setup_ok: true,
        },
    }
}

/// The report for `outcome`.
pub fn report(outcome: &Outcome) -> (report: Report)
    ensures
        report@ == spec_report(outcome@),
{
    let mut stdout: Vec<String> = Vec::new();
    let mut stderr: Vec<String> = Vec::new();
    match outcome {
        Outcome::Running => {
            stdout.push(String::from_str("✓ Python agent started successfully"));
            stdout.push(String::from_str("🌐 Agent available at ").concat("http://localhost:8000"));
        },
        Outcome::AssumedRunning => {
            stdout.push(
                String::from_str("Assuming Python agent is already running at ").concat(
                    "http://localhost:8000",
                ),
            );
        },
        Outcome::Failed(error) => {
            let message = error.message();
            stderr.push(String::from_str("❌ Failed to start Python agent: ").concat(message.as_str()));
            stderr.push(String::from_str("Please ensure the Python agent is built and available."));
        },
    }
    let report = Report { stdout, stderr, setup_ok: true };
    assert(report@.stdout =~= spec_report(outcome@).stdout);
    assert(report@.stderr =~= spec_report(outcome@).stderr);
    report
}

/// Setup succeeds whatever the outcome of the launch attempt.
pub proof fn law_setup_always_succeeds(outcome: OutcomeView)
    ensures
        spec_report(outcome).setup_ok,
{
}

/// A failure puts its message on standard error and nothing on standard
/// output; every other outcome prints to standard output alone.
pub proof fn law_failures_go_to_stderr(outcome: OutcomeView)
    ensures
        outcome is Failed <==> spec_report(outcome).stderr.len() > 0,
        outcome is Failed <==> spec_report(outcome).stdout.len() == 0,
{
}

} // verus!
