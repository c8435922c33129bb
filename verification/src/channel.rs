//! The alternate channel: the server as a package of the host's package
//! manager, run by the host's script interpreter.
//!
//! The host looks versions up and installs; which version to want, when to
//! install, and when a failure can be lived with is decided here.

use vstd::prelude::*;
use vstd::string::StringExecFns;
use crate::command::{augment_path, env_views, with_search_path, Command, CommandView};
use crate::order::{same_version, versions_match};
use crate::text::{char_is_digit, copy_strings, is_digit, string_views, to_chars};

verus! {

broadcast use vstd::string::group_string_axioms;

/// The specifier that asks for whatever version is newest.
pub const LATEST: &'static str = "latest";

/// The version of the package that the configuration asks for.
#[derive(Clone, Debug, PartialEq, Eq)]
pub enum VersionSpec {
    /// The newest version that the registry has.
    Latest,
    /// This version and no other.
    Exact(String),
    /// Whatever this channel or tag points at.
    Channel(String),
}

/// The mathematical value of a `VersionSpec`.
pub enum VersionSpecView {
    Latest,
    Exact(Seq<char>),
    Channel(Seq<char>),
}

impl View for VersionSpec {
    type V = VersionSpecView;

    open spec fn view(&self) -> VersionSpecView {
        match self {
            VersionSpec::Latest => VersionSpecView::Latest,
            VersionSpec::Exact(v) => VersionSpecView::Exact(v@),
            VersionSpec::Channel(c) => VersionSpecView::Channel(c@),
        }
    }
}

/// The view of an optional string.
pub open spec fn opt_view(s: Option<String>) -> Option<Seq<char>> {
    match s {
        Some(s) => Some(s@),
        None => None,
    }
}

/// The view of the outcome of a lookup: a string, or the host's error
/// message.
pub open spec fn lookup_view(r: Result<String, String>) -> Result<Seq<char>, Seq<char>> {
    match r {
        Ok(s) => Ok(s@),
        Err(e) => Err(e@),
    }
}

/// What a specifier means: the word `latest`, a version where it starts with
/// a digit, and a channel otherwise.
pub open spec fn spec_kind_of(specifier: Seq<char>) -> VersionSpecView {
    if specifier == LATEST@ {
        VersionSpecView::Latest
    } else if specifier.len() > 0 && is_digit(specifier[0]) {
        VersionSpecView::Exact(specifier)
    } else {
        VersionSpecView::Channel(specifier)
    }
}

/// Reads the configured version specifier.
pub fn classify_spec(specifier: &str) -> (spec: VersionSpec)
    ensures
        spec@ == spec_kind_of(specifier@),
{
    let owned = String::from_str(specifier);
    if owned == String::from_str(LATEST) {
        return VersionSpec::Latest;
    }
    let chars = to_chars(specifier);
    if chars.len() > 0 && char_is_digit(chars[0]) {
        VersionSpec::Exact(owned)
    } else {
        VersionSpec::Channel(owned)
    }
}

// ---------------------------------------------------------------------------
// Installing
// ---------------------------------------------------------------------------

/// What the installer does next.
#[derive(Clone, Debug, PartialEq, Eq)]
pub enum InstallStep {
    /// Ask the registry for the newest version.
    QueryLatest,
    /// Install `version`. Should that fail, `keep_installed` says whether the
    /// version already installed is used in its place.
    Install { version: String, keep_installed: bool },
    /// Nothing to install: what is installed is used.
    Ready,
    /// Give up, with the host's message.
    Fail(String),
}

/// The mathematical value of an `InstallStep`.
pub enum InstallStepView {
    QueryLatest,
    Install { version: Seq<char>, keep_installed: bool },
    Ready,
    Fail(Seq<char>),
}

impl View for InstallStep {
    type V = InstallStepView;

    open spec fn view(&self) -> InstallStepView {
        match self {
            InstallStep::QueryLatest => InstallStepView::QueryLatest,
            InstallStep::Install { version, keep_installed } => InstallStepView::Install {
                version: version@,
                keep_installed: *keep_installed,
            },
            InstallStep::Ready => InstallStepView::Ready,
            InstallStep::Fail(message) => InstallStepView::Fail(message@),
        }
    }
}

/// The first step for `spec`, where `installed` is the version installed now.
///
/// `latest` needs the registry's answer first. An exact version is installed
/// unless it is the one installed, and nothing else will do in its place. A
/// channel is always installed anew, and what is installed will do if that
/// fails.
pub open spec fn first_step_of(
    spec: VersionSpecView,
    installed: Option<Seq<char>>,
) -> InstallStepView {
    match spec {
        VersionSpecView::Latest => InstallStepView::QueryLatest,
        VersionSpecView::Exact(version) => if installed == Some(version) {
            InstallStepView::Ready
        } else {
            InstallStepView::Install { version, keep_installed: false }
        },
        VersionSpecView::Channel(channel) => InstallStepView::Install {
            version: channel,
            keep_installed: installed is Some,
        },
    }
}

/// The step after the registry was asked for the newest version.
///
/// The newest version is installed unless it is the one installed. Where the
/// registry gave no answer, what is installed is used; with nothing
/// installed, the installer gives up with the registry's error.
pub open spec fn step_after_query_of(
    installed: Option<Seq<char>>,
    latest: Result<Seq<char>, Seq<char>>,
) -> InstallStepView {
    match latest {
        Ok(version) => if installed == Some(version) {
            InstallStepView::Ready
        } else {
            InstallStepView::Install { version, keep_installed: installed is Some }
        },
        Err(error) => if installed is Some {
            InstallStepView::Ready
        } else {
            InstallStepView::Fail(error)
        },
    }
}

/// How an installation ended: a failure is passed over exactly where
/// something is installed that may be kept.
pub open spec fn step_after_install_of(
    keep_installed: bool,
    outcome: Result<(), Seq<char>>,
) -> InstallStepView {
    match outcome {
        Ok(_) => InstallStepView::Ready,
        Err(error) => if keep_installed {
            InstallStepView::Ready
        } else {
            InstallStepView::Fail(error)
        },
    }
}

fn is_installed(installed: &Option<String>, version: &String) -> (r: bool)
    ensures
        r == (opt_view(*installed) == Some(version@)),
{
    match installed {
        Some(have) => *have == *version,
        None => false,
    }
}

/// The first step of the installer.
pub fn first_step(spec: &VersionSpec, installed: &Option<String>) -> (step: InstallStep)
    ensures
        step@ == first_step_of(spec@, opt_view(*installed)),
{
    match spec {
        VersionSpec::Latest => InstallStep::QueryLatest,
        VersionSpec::Exact(version) => {
            if is_installed(installed, version) {
                InstallStep::Ready
            } else {
                InstallStep::Install { version: version.clone(), keep_installed: false }
            }
        },
        VersionSpec::Channel(channel) => InstallStep::Install {
            version: channel.clone(),
            keep_installed: installed.is_some(),
        },
    }
}

/// The step after `QueryLatest`, where `latest` is the registry's answer.
pub fn step_after_query(installed: &Option<String>, latest: Result<String, String>) -> (step:
    InstallStep)
    ensures
        step@ == step_after_query_of(opt_view(*installed), lookup_view(latest)),
{
    match latest {
        Ok(version) => {
            if is_installed(installed, &version) {
                InstallStep::Ready
            } else {
                InstallStep::Install { version, keep_installed: installed.is_some() }
            }
        },
        Err(error) => {
            if installed.is_some() {
                InstallStep::Ready
            } else {
                InstallStep::Fail(error)
            }
        },
    }
}

/// The step after `Install`, where `outcome` is how the installation ended.
pub fn step_after_install(keep_installed: bool, outcome: Result<(), String>) -> (step: InstallStep)
    ensures
        step@ == step_after_install_of(
            keep_installed,
            match outcome {
                Ok(_) => Ok(()),
                Err(e) => Err(e@),
            },
        ),
{
    match outcome {
        Ok(_) => InstallStep::Ready,
        Err(error) => {
            if keep_installed {
                InstallStep::Ready
            } else {
                InstallStep::Fail(error)
            }
        },
    }
}

/// Why the installed package cannot be run.
#[derive(Clone, Debug, PartialEq, Eq)]
pub enum ChannelError {
    /// The package's entry point is not where an installation puts it.
    MissingEntryPoint { path: String },
}

/// What `entry_point_command` returns.
pub open spec fn entry_point_command_of(
    interpreter: Seq<char>,
    entry_point: Seq<char>,
    entry_point_exists: bool,
    extra_args: Seq<Seq<char>>,
    env: Seq<(Seq<char>, Seq<char>)>,
) -> Result<CommandView, Seq<char>> {
    if entry_point_exists {
        Ok(
            CommandView {
                command: interpreter,
                args: seq![entry_point] + extra_args,
                env: with_search_path(env),
            },
        )
    } else {
        Err(entry_point)
    }
}

/// The command that runs the installed package: the interpreter, with the
/// package's entry point as its first argument and `extra_args` after it.
/// Fails where the entry point is not on disk.
pub fn entry_point_command(
    interpreter: &str,
    entry_point: &str,
    entry_point_exists: bool,
    extra_args: &Vec<String>,
    env: &Vec<(String, String)>,
) -> (r: Result<Command, ChannelError>)
    ensures
        match r {
            Ok(command) => entry_point_command_of(
                interpreter@,
                entry_point@,
                entry_point_exists,
                string_views(extra_args@),
                env_views(env@),
            ) == Ok::<CommandView, Seq<char>>(command@),
            Err(ChannelError::MissingEntryPoint { path }) => entry_point_command_of(
                interpreter@,
                entry_point@,
                entry_point_exists,
                string_views(extra_args@),
                env_views(env@),
            ) == Err::<CommandView, Seq<char>>(path@),
        },
{
    if !entry_point_exists {
        return Err(ChannelError::MissingEntryPoint { path: String::from_str(entry_point) });
    }
    let mut args: Vec<String> = Vec::new();
    args.push(String::from_str(entry_point));
    let mut rest = copy_strings(extra_args);
    let ghost first = string_views(args@);
    let ghost others = string_views(rest@);
    args.append(&mut rest);
    assert(string_views(args@) =~= first + others);
    assert(first =~= seq![entry_point@]);
    Ok(Command { command: String::from_str(interpreter), args, env: augment_path(env) })
}

// ---------------------------------------------------------------------------
// Trusting a binary found on the search path
// ---------------------------------------------------------------------------

/// What a binary found on the search path has to tell of itself to be used.
#[derive(Clone, Debug, PartialEq, Eq)]
pub enum PathBinaryTarget {
    /// Exactly this version.
    MatchVersion(String),
    /// Any version: the wanted one could not be found out.
    AllowWhenUnverifiable,
    /// Nothing will do.
    Reject,
}

/// The mathematical value of a `PathBinaryTarget`.
pub enum PathBinaryTargetView {
    MatchVersion(Seq<char>),
    AllowWhenUnverifiable,
    Reject,
}

impl View for PathBinaryTarget {
    type V = PathBinaryTargetView;

    open spec fn view(&self) -> PathBinaryTargetView {
        match self {
            PathBinaryTarget::MatchVersion(v) => PathBinaryTargetView::MatchVersion(v@),
            PathBinaryTarget::AllowWhenUnverifiable => PathBinaryTargetView::AllowWhenUnverifiable,
            PathBinaryTarget::Reject => PathBinaryTargetView::Reject,
        }
    }
}

/// The target that follows from the configured specifier, where `latest` is
/// the registry's answer to the question for the newest version.
///
/// An exact version is the target itself. For `latest` the target is the
/// newest version, and any version where the registry did not tell it. What a
/// channel points at may have moved on, so no binary on the search path is
/// taken for it.
pub open spec fn path_binary_target_of(
    spec: VersionSpecView,
    latest: Result<Seq<char>, Seq<char>>,
) -> PathBinaryTargetView {
    match spec {
        VersionSpecView::Exact(version) => PathBinaryTargetView::MatchVersion(version),
        VersionSpecView::Latest => match latest {
            Ok(version) => PathBinaryTargetView::MatchVersion(version),
            Err(_) => PathBinaryTargetView::AllowWhenUnverifiable,
        },
        VersionSpecView::Channel(_) => PathBinaryTargetView::Reject,
    }
}

/// Whether the registry has to be asked before `path_binary_target` is
/// called: only `latest` depends on its answer.
pub fn needs_latest(spec: &VersionSpec) -> (r: bool)
    ensures
        r == (spec@ is Latest),
{
    match spec {
        VersionSpec::Latest => true,
        _ => false,
    }
}

/// The target for binaries found on the search path.
pub fn path_binary_target(spec: &VersionSpec, latest: &Result<String, String>) -> (target:
    PathBinaryTarget)
    ensures
        target@ == path_binary_target_of(spec@, lookup_view(*latest)),
{
    match spec {
        VersionSpec::Exact(version) => PathBinaryTarget::MatchVersion(version.clone()),
        VersionSpec::Latest => match latest {
            Ok(version) => PathBinaryTarget::MatchVersion(version.clone()),
            Err(_) => PathBinaryTarget::AllowWhenUnverifiable,
        },
        VersionSpec::Channel(_) => PathBinaryTarget::Reject,
    }
}

/// A binary is taken only if it told a version, and that version meets the
/// target. The version asked for is met by that version alone, however it is
/// written; no newer or older one will do.
pub open spec fn target_accepts(target: PathBinaryTargetView, probed: Option<Seq<char>>) -> bool {
    match (target, probed) {
        (_, None) => false,
        (PathBinaryTargetView::MatchVersion(expected), Some(version)) => versions_match(
            version,
            expected,
        ),
        (PathBinaryTargetView::AllowWhenUnverifiable, Some(_)) => true,
        (PathBinaryTargetView::Reject, Some(_)) => false,
    }
}

/// Whether a binary that told the version `probed` is taken.
pub fn accepts_path_binary(target: &PathBinaryTarget, probed: &Option<String>) -> (r: bool)
    ensures
        r == target_accepts(target@, opt_view(*probed)),
{
    match probed {
        None => false,
        Some(version) => match target {
            PathBinaryTarget::MatchVersion(expected) => same_version(
                version.as_str(),
                expected.as_str(),
            ),
            PathBinaryTarget::AllowWhenUnverifiable => true,
            PathBinaryTarget::Reject => false,
        },
    }
}

} // verus!
