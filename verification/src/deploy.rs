//! The deployment script: how it is called and what its end means.
//!
//! The script is run by the caller, as a process of its own, with the tag as
//! its only argument. The library names the command and reads the report of
//! how the process ended.

use vstd::prelude::*;
use vstd::utf8::{decode_utf8, valid_utf8};
use crate::text::join;

verus! {

/// The command that deploys a release: the script, and the tag as its one
/// argument. The tag comes from the network and is handed over as it is, an
/// argument of its own and never part of a command line.
#[derive(Clone, Debug, PartialEq, Eq)]
pub struct Invocation {
    pub script_path: String,
    pub tag: String,
}

/// The mathematical content of an [`Invocation`].
pub struct InvocationView {
    pub script_path: Seq<char>,
    pub tag: Seq<char>,
}

impl View for Invocation {
    type V = InvocationView;

    open spec fn view(&self) -> InvocationView {
        InvocationView { script_path: self.script_path@, tag: self.tag@ }
    }
}

/// How the attempt to run the script ended, as the caller saw it.
#[derive(Clone, Debug, PartialEq, Eq)]
pub enum ProcessReport {
    /// The process could not be started; the text says why.
    NotStarted(String),
    /// The process ran to its end. `success` says whether its exit status
    /// was zero.
    Exited { success: bool, stdout: Vec<u8>, stderr: Vec<u8> },
    /// The process was still running when the caller's wait ran out, and was
    /// ended by force.
    TimedOut,
}

/// The mathematical content of a [`ProcessReport`].
pub enum ProcessReportView {
    NotStarted(Seq<char>),
    Exited { success: bool, stdout: Seq<u8>, stderr: Seq<u8> },
    TimedOut,
}

impl View for ProcessReport {
    type V = ProcessReportView;

    open spec fn view(&self) -> ProcessReportView {
        match self {
            ProcessReport::NotStarted(why) => ProcessReportView::NotStarted(why@),
            ProcessReport::Exited { success, stdout, stderr } => ProcessReportView::Exited {
                success: *success,
                stdout: stdout@,
                stderr: stderr@,
            },
            ProcessReport::TimedOut => ProcessReportView::TimedOut,
        }
    }
}

/// Why a deployment failed.
#[derive(Clone, Debug, PartialEq, Eq)]
pub enum InvokeError {
    /// The process never started; the text is the launch failure.
    Launch(String),
    /// The script ended with a status other than zero; the text is what it
    /// wrote to its error stream.
    NonzeroExit(String),
    /// The script did not end in time.
    Timeout,
}

/// The mathematical content of an [`InvokeError`].
pub enum InvokeErrorView {
    Launch(Seq<char>),
    NonzeroExit(Seq<char>),
    Timeout,
}

impl View for InvokeError {
    type V = InvokeErrorView;

    open spec fn view(&self) -> InvokeErrorView {
        match self {
            InvokeError::Launch(why) => InvokeErrorView::Launch(why@),
            InvokeError::NonzeroExit(stderr) => InvokeErrorView::NonzeroExit(stderr@),
            InvokeError::Timeout => InvokeErrorView::Timeout,
        }
    }
}

/// The outcome of one deployment: what the script printed, or why it failed.
#[derive(Clone, Debug, PartialEq, Eq)]
pub enum DeploymentOutcome {
    Success(String),
    Failure(String),
}

/// The mathematical content of a [`DeploymentOutcome`].
pub enum DeploymentOutcomeView {
    Success(Seq<char>),
    Failure(Seq<char>),
}

impl View for DeploymentOutcome {
    type V = DeploymentOutcomeView;

    open spec fn view(&self) -> DeploymentOutcomeView {
        match self {
            DeploymentOutcome::Success(output) => DeploymentOutcomeView::Success(output@),
            DeploymentOutcome::Failure(reason) => DeploymentOutcomeView::Failure(reason@),
        }
    }
}

/// The text that `String::from_utf8_lossy` makes of `bytes`: the text that
/// the bytes encode, with the replacement character in place of every part
/// that is not UTF-8.
pub uninterp spec fn utf8_lossy(bytes: Seq<u8>) -> Seq<char>;

/// Calls `String::from_utf8_lossy` and takes the text as its own. Trusted:
/// the text is a function of the bytes alone, and bytes that are UTF-8 give
/// the text they encode.
#[verifier::external_body]
fn lossy_text(bytes: &[u8]) -> (text: String)
    ensures
        text@ == utf8_lossy(bytes@),
        valid_utf8(bytes@) ==> text@ == decode_utf8(bytes@),
{
    String::from_utf8_lossy(bytes).into_owned()
}

/// The text of what a script wrote: the text that the bytes encode where
/// they are UTF-8, and what [`utf8_lossy`] makes of them where they are not.
pub open spec fn output_text(bytes: Seq<u8>) -> Seq<char> {
    if valid_utf8(bytes) {
        decode_utf8(bytes)
    } else {
        utf8_lossy(bytes)
    }
}

/// What a report means. Only an exit with status zero is a success, and
/// gives what the script printed. A failure carries the error stream of a
/// script that ran, or the reason why none did.
pub open spec fn interpret_spec(report: ProcessReportView) -> Result<Seq<char>, InvokeErrorView> {
    match report {
        ProcessReportView::NotStarted(why) => Err(InvokeErrorView::Launch(why)),
        ProcessReportView::Exited { success, stdout, stderr } => if success {
            Ok(output_text(stdout))
        } else {
            Err(InvokeErrorView::NonzeroExit(output_text(stderr)))
        },
        ProcessReportView::TimedOut => Err(InvokeErrorView::Timeout),
    }
}

/// The mathematical content of what [`interpret`] returns.
pub open spec fn result_view(result: Result<String, InvokeError>) -> Result<
    Seq<char>,
    InvokeErrorView,
> {
    match result {
        Ok(output) => Ok(output@),
        Err(error) => Err(error@),
    }
}

/// Reads the report of one run of the script.
///
/// The result is `Ok` exactly for a process that exited with status zero,
/// and then holds its standard output as text. Every other report is an
/// error: a launch failure with its description, an exit with another status
/// with the text of the error stream, a timeout as such. Output that is UTF-8
/// is kept as it is; in any other, each part that is not UTF-8 gives way to
/// the replacement character.
pub fn interpret(report: ProcessReport) -> (result: Result<String, InvokeError>)
    ensures
        result_view(result) == interpret_spec(report@),
        result is Ok <==> report matches ProcessReport::Exited { success: true, .. },
{
    match report {
        ProcessReport::NotStarted(why) => Err(InvokeError::Launch(why)),
        ProcessReport::Exited { success, stdout, stderr } => {
            if success {
                Ok(lossy_text(stdout.as_slice()))
            } else {
                Err(InvokeError::NonzeroExit(lossy_text(stderr.as_slice())))
            }
        },
        ProcessReport::TimedOut => Err(InvokeError::Timeout),
    }
}

/// The failure in words.
pub open spec fn describe_spec(error: InvokeErrorView) -> Seq<char> {
    match error {
        InvokeErrorView::Launch(why) => "Failed to execute deployment script: "@ + why,
        InvokeErrorView::NonzeroExit(stderr) => "Deployment script failed: "@ + stderr,
        InvokeErrorView::Timeout => "Deployment script timed out"@,
    }
}

impl InvokeError {
    /// The failure in words. What the script wrote to its error stream, or
    /// why it could not be started, is part of them, unchanged.
    pub fn describe(&self) -> (text: String)
        ensures
            text@ == describe_spec(self@),
    {
        match self {
            InvokeError::Launch(why) => join("Failed to execute deployment script: ", why.as_str()),
            InvokeError::NonzeroExit(stderr) => join("Deployment script failed: ", stderr.as_str()),
            InvokeError::Timeout => "Deployment script timed out".to_owned(),
        }
    }
}

/// The outcome that a result stands for.
pub open spec fn outcome_spec(result: Result<Seq<char>, InvokeErrorView>) -> DeploymentOutcomeView {
    match result {
        Ok(output) => DeploymentOutcomeView::Success(output),
        Err(error) => DeploymentOutcomeView::Failure(describe_spec(error)),
    }
}

impl DeploymentOutcome {
    /// The outcome that `result` stands for: success with the script's
    /// output, or failure with the reason in words.
    pub fn from_result(result: Result<String, InvokeError>) -> (outcome: DeploymentOutcome)
        ensures
            outcome@ == outcome_spec(result_view(result)),
    {
        match result {
            Ok(output) => DeploymentOutcome::Success(output),
            Err(error) => DeploymentOutcome::Failure(error.describe()),
        }
    }

    /// The outcome of the run that `report` tells of.
    pub fn from_report(report: ProcessReport) -> (outcome: DeploymentOutcome)
        ensures
            outcome@ == outcome_spec(interpret_spec(report@)),
    {
        DeploymentOutcome::from_result(interpret(report))
    }
}

/// Runs the deployment once, with `run` as the means to start the script and
/// wait for its end, and reads what came of it.
///
/// `run` is called exactly once, with `invocation`. Nothing is retried, and
/// no wait is cut short here: a bound on the time belongs to `run`, which
/// reports `TimedOut` where it applied one.
pub fn invoke<R>(invocation: &Invocation, run: R) -> (result: Result<String, InvokeError>) where
    R: FnOnce(&Invocation) -> ProcessReport,

    requires
        run.requires((invocation,)),
    ensures
        exists|report: ProcessReport| #[trigger]
            run.ensures((invocation,), report) && result_view(result) == interpret_spec(report@),
{
    let report = run(invocation);
    assert(run.ensures((invocation,), report));
    interpret(report)
}

} // verus!
