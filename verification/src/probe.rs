//! Asking a binary for its version.
//!
//! The binary is run with `--version` and, if that does not succeed, with
//! `-V`. The host runs the process; what to run and what to make of the
//! outcome is decided here. That a binary tells no version is an ordinary
//! outcome, not a fault.

use vstd::prelude::*;
use vstd::string::StringExecFns;
use crate::token::{extract_version_token, version_token};

verus! {

broadcast use vstd::string::group_string_axioms;

/// The flag tried first.
pub const LONG_VERSION_FLAG: &'static str = "--version";

/// The flag tried second.
pub const SHORT_VERSION_FLAG: &'static str = "-V";

/// The two runs of a probe, in the order in which they are made.
#[derive(Clone, Copy, Debug, PartialEq, Eq, Structural)]
pub enum ProbeAttempt {
    LongFlag,
    ShortFlag,
}

/// What a finished process left behind.
#[derive(Clone, Debug, PartialEq, Eq)]
pub struct ProbeOutput {
    /// The exit code, where the process ended with one.
    pub status: Option<i32>,
    pub stdout: String,
    pub stderr: String,
}

/// The mathematical value of a `ProbeOutput`.
pub struct ProbeOutputView {
    pub status: Option<i32>,
    pub stdout: Seq<char>,
    pub stderr: Seq<char>,
}

impl View for ProbeOutput {
    type V = ProbeOutputView;

    open spec fn view(&self) -> ProbeOutputView {
        ProbeOutputView { status: self.status, stdout: self.stdout@, stderr: self.stderr@ }
    }
}

/// What follows a run.
#[derive(Clone, Debug, PartialEq, Eq)]
pub enum ProbeStep {
    /// Run the binary once more, with this attempt's flag.
    Run(ProbeAttempt),
    /// The probe is over, with the version that the binary told, if any.
    Done(Option<String>),
}

/// The mathematical value of a `ProbeStep`.
pub enum ProbeStepView {
    Run(ProbeAttempt),
    Done(Option<Seq<char>>),
}

impl View for ProbeStep {
    type V = ProbeStepView;

    open spec fn view(&self) -> ProbeStepView {
        match self {
            ProbeStep::Run(attempt) => ProbeStepView::Run(*attempt),
            ProbeStep::Done(Some(version)) => ProbeStepView::Done(Some(version@)),
            ProbeStep::Done(None) => ProbeStepView::Done(None),
        }
    }
}

/// The flag of an attempt.
pub open spec fn flag_of(attempt: ProbeAttempt) -> Seq<char> {
    match attempt {
        ProbeAttempt::LongFlag => LONG_VERSION_FLAG@,
        ProbeAttempt::ShortFlag => SHORT_VERSION_FLAG@,
    }
}

/// Standard output, followed by standard error on a line of its own where
/// neither is empty.
pub open spec fn combined_output(stdout: Seq<char>, stderr: Seq<char>) -> Seq<char> {
    if stdout.len() > 0 && stderr.len() > 0 {
        stdout + seq!['\n'] + stderr
    } else if stdout.len() > 0 {
        stdout
    } else {
        stderr
    }
}

/// A run succeeded: the process could be run and ended with exit code zero.
pub open spec fn succeeded(outcome: Option<ProbeOutputView>) -> bool {
    outcome matches Some(output) && output.status == Some(0i32)
}

/// What follows the run `attempt` that ended in `outcome`. The first run that
/// succeeds ends the probe, with the version token of its output; a run that
/// does not succeed is followed by the next one, and the last one by the end
/// of the probe without a version.
pub open spec fn probe_step_of(
    attempt: ProbeAttempt,
    outcome: Option<ProbeOutputView>,
) -> ProbeStepView {
    if succeeded(outcome) {
        ProbeStepView::Done(version_token(combined_output(outcome->0.stdout, outcome->0.stderr)))
    } else {
        match attempt {
            ProbeAttempt::LongFlag => ProbeStepView::Run(ProbeAttempt::ShortFlag),
            ProbeAttempt::ShortFlag => ProbeStepView::Done(None),
        }
    }
}

/// What a whole probe tells, where `long` and `short` are what the runs with
/// the two flags end in.
pub open spec fn probe_result_of(
    long: Option<ProbeOutputView>,
    short: Option<ProbeOutputView>,
) -> Option<Seq<char>> {
    if succeeded(long) {
        version_token(combined_output(long->0.stdout, long->0.stderr))
    } else if succeeded(short) {
        version_token(combined_output(short->0.stdout, short->0.stderr))
    } else {
        None
    }
}

/// A probe that follows `probe_step_of` from its first run tells
/// `probe_result_of`, and makes the second run only when the first did not
/// succeed.
pub proof fn lemma_probe_run(long: Option<ProbeOutputView>, short: Option<ProbeOutputView>)
    ensures
        succeeded(long) ==> probe_step_of(ProbeAttempt::LongFlag, long) == ProbeStepView::Done(
            probe_result_of(long, short),
        ),
        !succeeded(long) ==> probe_step_of(ProbeAttempt::LongFlag, long) == ProbeStepView::Run(
            ProbeAttempt::ShortFlag,
        ) && probe_step_of(ProbeAttempt::ShortFlag, short) == ProbeStepView::Done(
            probe_result_of(long, short),
        ),
{
}

/// The flag to run the binary with at `attempt`.
pub fn version_flag(attempt: ProbeAttempt) -> (flag: &'static str)
    ensures
        flag@ == flag_of(attempt),
{
    match attempt {
        ProbeAttempt::LongFlag => LONG_VERSION_FLAG,
        ProbeAttempt::ShortFlag => SHORT_VERSION_FLAG,
    }
}

/// The first run of a probe.
pub fn probe_start() -> (attempt: ProbeAttempt)
    ensures
        attempt == ProbeAttempt::LongFlag,
{
    ProbeAttempt::LongFlag
}

/// Everything a process wrote, as one text.
pub fn combine_output(stdout: &str, stderr: &str) -> (text: String)
    ensures
        text@ == combined_output(stdout@, stderr@),
{
    let out_empty = stdout.unicode_len() == 0;
    let err_empty = stderr.unicode_len() == 0;
    if !out_empty && !err_empty {
        let mut text = String::from_str(stdout);
        text.push('\n');
        text.append(stderr);
        text
    } else if !out_empty {
        String::from_str(stdout)
    } else {
        String::from_str(stderr)
    }
}

/// The step that follows the run `attempt`, which ended in `outcome`:
/// `None` where the binary could not be run at all.
pub fn probe_next(attempt: ProbeAttempt, outcome: &Option<ProbeOutput>) -> (step: ProbeStep)
    ensures
        step@ == probe_step_of(
            attempt,
            match outcome {
                Some(output) => Some(output@),
                None => None,
            },
        ),
{
    match outcome {
        Some(output) => {
            if let Some(code) = output.status {
                if code == 0 {
                    let text = combine_output(output.stdout.as_str(), output.stderr.as_str());
                    return ProbeStep::Done(extract_version_token(text.as_str()));
                }
            }
        },
        None => {},
    }
    match attempt {
        ProbeAttempt::LongFlag => ProbeStep::Run(ProbeAttempt::ShortFlag),
        ProbeAttempt::ShortFlag => ProbeStep::Done(None),
    }
}

} // verus!
