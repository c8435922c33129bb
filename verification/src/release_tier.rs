//! The attempt at the newest release: take its binary from the cache, or
//! download it, unpack it, and clear the cache of older releases.
//!
//! Like the resolver, the attempt asks its host to do one thing at a time and
//! decides from the reply what comes next. `release_outcome_of` says what a
//! whole attempt gives; `lemma_release_attempt` proves that the steps agree
//! with it.

use vstd::prelude::*;
use vstd::string::StringExecFns;
use crate::cache::{cache_dir_name, cache_dir_name_of};
use crate::release::{fetch_plan_of, needs_executable_mark, plan_fetch, select_asset,
    selected_asset, Arch, Asset, AssetError, AssetView, Download, DownloadView, Platform,
    ReleaseInfo, ReleaseView};
use crate::resolver::{ReleaseOutcome, ReleaseOutcomeView};

verus! {

broadcast use vstd::string::group_string_axioms;

/// What the host is asked to do, together with what the attempt has to keep
/// until the reply comes.
#[derive(Clone, Debug, PartialEq, Eq)]
pub enum ReleaseAttempt {
    /// Fetch the metadata of the newest release.
    Metadata { platform: Platform, arch: Arch },
    /// Look for the binary in `dir`, the cache directory of the release.
    Lookup { platform: Platform, dir: String, asset: Asset },
    /// Make `download`. Afterwards the binary is at `target`, or has to be
    /// looked for in `dir` where `target` is `None`.
    Download { platform: Platform, dir: String, download: Download, target: Option<String> },
    /// Look for the binary in `dir`, into which the archive was unpacked.
    Locate { platform: Platform, dir: String },
    /// Mark `binary` executable.
    MarkExecutable { dir: String, binary: String },
    /// Remove every cache directory but `dir`; it does not matter whether
    /// that succeeds.
    Prune { dir: String, binary: String },
}

/// The mathematical value of a `ReleaseAttempt`.
pub enum ReleaseAttemptView {
    Metadata { platform: Platform, arch: Arch },
    Lookup { platform: Platform, dir: Seq<char>, asset: AssetView },
    Download {
        platform: Platform,
        dir: Seq<char>,
        download: DownloadView,
        target: Option<Seq<char>>,
    },
    Locate { platform: Platform, dir: Seq<char> },
    MarkExecutable { dir: Seq<char>, binary: Seq<char> },
    Prune { dir: Seq<char>, binary: Seq<char> },
}

impl View for ReleaseAttempt {
    type V = ReleaseAttemptView;

    open spec fn view(&self) -> ReleaseAttemptView {
        match self {
            ReleaseAttempt::Metadata { platform, arch } => ReleaseAttemptView::Metadata {
                platform: *platform,
                arch: *arch,
            },
            ReleaseAttempt::Lookup { platform, dir, asset } => ReleaseAttemptView::Lookup {
                platform: *platform,
                dir: dir@,
                asset: asset@,
            },
            ReleaseAttempt::Download { platform, dir, download, target } => {
                ReleaseAttemptView::Download {
                    platform: *platform,
                    dir: dir@,
                    download: download@,
                    target: match target {
                        Some(t) => Some(t@),
                        None => None,
                    },
                }
            },
            ReleaseAttempt::Locate { platform, dir } => ReleaseAttemptView::Locate {
                platform: *platform,
                dir: dir@,
            },
            ReleaseAttempt::MarkExecutable { dir, binary } => ReleaseAttemptView::MarkExecutable {
                dir: dir@,
                binary: binary@,
            },
            ReleaseAttempt::Prune { dir, binary } => ReleaseAttemptView::Prune {
                dir: dir@,
                binary: binary@,
            },
        }
    }
}

/// What the host reports back.
#[derive(Debug, PartialEq, Eq)]
pub enum ReleaseReply {
    /// The newest release, or why the registry did not tell it.
    Metadata(Result<ReleaseInfo, String>),
    /// The path of the binary in the directory searched, if it is there.
    Binary(Option<String>),
    /// How the download ended.
    Downloaded(Result<(), String>),
    /// How marking the binary ended.
    Marked(Result<(), String>),
    /// The cache was cleared, as far as it could be.
    Pruned,
}

/// The mathematical value of a `ReleaseReply`.
pub enum ReleaseReplyView {
    Metadata(Result<ReleaseView, Seq<char>>),
    Binary(Option<Seq<char>>),
    Downloaded(Result<(), Seq<char>>),
    Marked(Result<(), Seq<char>>),
    Pruned,
}

impl View for ReleaseReply {
    type V = ReleaseReplyView;

    open spec fn view(&self) -> ReleaseReplyView {
        match self {
            ReleaseReply::Metadata(Ok(release)) => ReleaseReplyView::Metadata(Ok(release@)),
            ReleaseReply::Metadata(Err(error)) => ReleaseReplyView::Metadata(Err(error@)),
            ReleaseReply::Binary(Some(path)) => ReleaseReplyView::Binary(Some(path@)),
            ReleaseReply::Binary(None) => ReleaseReplyView::Binary(None),
            ReleaseReply::Downloaded(Ok(_)) => ReleaseReplyView::Downloaded(Ok(())),
            ReleaseReply::Downloaded(Err(error)) => ReleaseReplyView::Downloaded(Err(error@)),
            ReleaseReply::Marked(Ok(_)) => ReleaseReplyView::Marked(Ok(())),
            ReleaseReply::Marked(Err(error)) => ReleaseReplyView::Marked(Err(error@)),
            ReleaseReply::Pruned => ReleaseReplyView::Pruned,
        }
    }
}

/// Where the attempt stands after a step.
#[derive(Clone, Debug, PartialEq, Eq)]
pub enum ReleaseStep {
    /// The host is to do what the attempt says, and to hand the reply to
    /// `release_next` together with the attempt.
    Ask(ReleaseAttempt),
    /// The attempt is over.
    Done(ReleaseOutcome),
}

/// The mathematical value of a `ReleaseStep`.
pub enum ReleaseStepView {
    Ask(ReleaseAttemptView),
    Done(ReleaseOutcomeView),
}

impl View for ReleaseStep {
    type V = ReleaseStepView;

    open spec fn view(&self) -> ReleaseStepView {
        match self {
            ReleaseStep::Ask(attempt) => ReleaseStepView::Ask(attempt@),
            ReleaseStep::Done(outcome) => ReleaseStepView::Done(outcome@),
        }
    }
}

/// The message for a release that lacks the asset called `name`.
pub open spec fn missing_asset_message(name: Seq<char>) -> Seq<char> {
    "release has no asset named "@ + name
}

/// The message for an archive that did not unpack a binary into `dir`.
pub open spec fn missing_binary_message(dir: Seq<char>) -> Seq<char> {
    "no server binary in "@ + dir
}

/// The step once the binary is on disk at `binary`: mark it where the
/// platform asks for that, and clear the cache.
pub open spec fn step_after_located(
    platform: Platform,
    dir: Seq<char>,
    binary: Seq<char>,
) -> ReleaseStepView {
    if needs_executable_mark(platform) {
        ReleaseStepView::Ask(ReleaseAttemptView::MarkExecutable { dir, binary })
    } else {
        ReleaseStepView::Ask(ReleaseAttemptView::Prune { dir, binary })
    }
}

/// The attempt is over without a binary.
pub open spec fn failed(message: Seq<char>) -> ReleaseStepView {
    ReleaseStepView::Done(ReleaseOutcomeView::Failed(message))
}

/// The attempt is over with the binary at `path`.
pub open spec fn finished(path: Seq<char>) -> ReleaseStepView {
    ReleaseStepView::Done(ReleaseOutcomeView::Binary(path))
}

/// The step once the registry has told the newest release: look into its
/// cache directory, if it has the platform's asset.
pub open spec fn step_after_metadata(
    release: ReleaseView,
    platform: Platform,
    arch: Arch,
) -> ReleaseStepView {
    match selected_asset(release, platform, arch) {
        Ok(asset) => ReleaseStepView::Ask(
            ReleaseAttemptView::Lookup { platform, dir: cache_dir_name_of(release.version), asset },
        ),
        Err(None) => ReleaseStepView::Done(ReleaseOutcomeView::Unsupported),
        Err(Some(name)) => failed(missing_asset_message(name)),
    }
}

/// The step once the release's cache directory has turned out to hold no
/// binary: download the asset.
pub open spec fn step_to_download(
    platform: Platform,
    dir: Seq<char>,
    asset: AssetView,
) -> ReleaseStepView {
    let plan = fetch_plan_of(asset, dir, platform, false);
    ReleaseStepView::Ask(
        ReleaseAttemptView::Download {
            platform,
            dir,
            download: plan.download->0,
            target: plan.binary_path,
        },
    )
}

/// The step that the reply to the attempt's request leads to. A reply to
/// another request changes nothing: the request stands.
pub open spec fn release_next_of(
    attempt: ReleaseAttemptView,
    reply: ReleaseReplyView,
) -> ReleaseStepView {
    match attempt {
        ReleaseAttemptView::Metadata { platform, arch } => match reply {
            ReleaseReplyView::Metadata(Ok(release)) => step_after_metadata(release, platform, arch),
            ReleaseReplyView::Metadata(Err(error)) => failed(error),
            _ => ReleaseStepView::Ask(attempt),
        },
        ReleaseAttemptView::Lookup { platform, dir, asset } => match reply {
            ReleaseReplyView::Binary(Some(path)) => finished(path),
            ReleaseReplyView::Binary(None) => step_to_download(platform, dir, asset),
            _ => ReleaseStepView::Ask(attempt),
        },
        ReleaseAttemptView::Download { platform, dir, target, .. } => match reply {
            ReleaseReplyView::Downloaded(Ok(_)) => match target {
                Some(path) => step_after_located(platform, dir, path),
                None => ReleaseStepView::Ask(ReleaseAttemptView::Locate { platform, dir }),
            },
            ReleaseReplyView::Downloaded(Err(error)) => failed(error),
            _ => ReleaseStepView::Ask(attempt),
        },
        ReleaseAttemptView::Locate { platform, dir } => match reply {
            ReleaseReplyView::Binary(Some(path)) => step_after_located(platform, dir, path),
            ReleaseReplyView::Binary(None) => failed(missing_binary_message(dir)),
            _ => ReleaseStepView::Ask(attempt),
        },
        ReleaseAttemptView::MarkExecutable { dir, binary } => match reply {
            ReleaseReplyView::Marked(Ok(_)) => ReleaseStepView::Ask(
                ReleaseAttemptView::Prune { dir, binary },
            ),
            ReleaseReplyView::Marked(Err(error)) => failed(error),
            _ => ReleaseStepView::Ask(attempt),
        },
        ReleaseAttemptView::Prune { binary, .. } => match reply {
            ReleaseReplyView::Pruned => finished(binary),
            _ => ReleaseStepView::Ask(attempt),
        },
    }
}

// ---------------------------------------------------------------------------
// A whole attempt
// ---------------------------------------------------------------------------

/// Everything that the host could report during one attempt.
pub struct ReleaseFindings {
    /// The registry's answer.
    pub metadata: Result<ReleaseView, Seq<char>>,
    /// The binary in the release's cache directory before any download.
    pub cached: Option<Seq<char>>,
    /// How a download would end.
    pub download: Result<(), Seq<char>>,
    /// The binary in the directory after an archive was unpacked into it.
    pub unpacked: Option<Seq<char>>,
    /// How marking the binary would end.
    pub mark: Result<(), Seq<char>>,
}

/// The outcome of a whole attempt.
///
/// Without an answer of the registry the attempt fails with the registry's
/// error. A platform for which no release is built is unsupported; a release
/// without the platform's asset is a failure. A binary already in the
/// release's cache directory is the result, and nothing is downloaded.
/// Otherwise the asset is downloaded; the binary is then where a single file
/// was put, or where it is found after unpacking; it is marked executable
/// where the platform asks for that; and each of these can fail the attempt.
pub open spec fn release_outcome_of(
    platform: Platform,
    arch: Arch,
    findings: ReleaseFindings,
) -> ReleaseOutcomeView {
    match findings.metadata {
        Err(error) => ReleaseOutcomeView::Failed(error),
        Ok(release) => match selected_asset(release, platform, arch) {
            Err(None) => ReleaseOutcomeView::Unsupported,
            Err(Some(name)) => ReleaseOutcomeView::Failed(missing_asset_message(name)),
            Ok(asset) => {
                let dir = cache_dir_name_of(release.version);
                let plan = fetch_plan_of(asset, dir, platform, false);
                let located = if plan.binary_path is Some {
                    plan.binary_path
                } else {
                    findings.unpacked
                };
                if findings.cached is Some {
                    ReleaseOutcomeView::Binary(findings.cached->0)
                } else if findings.download is Err {
                    ReleaseOutcomeView::Failed(findings.download->Err_0)
                } else if located is None {
                    ReleaseOutcomeView::Failed(missing_binary_message(dir))
                } else if needs_executable_mark(platform) && findings.mark is Err {
                    ReleaseOutcomeView::Failed(findings.mark->Err_0)
                } else {
                    ReleaseOutcomeView::Binary(located->0)
                }
            },
        },
    }
}

/// The reply that the host gives to the request of `attempt`.
pub open spec fn reply_of(
    findings: ReleaseFindings,
    attempt: ReleaseAttemptView,
) -> ReleaseReplyView {
    match attempt {
        ReleaseAttemptView::Metadata { .. } => ReleaseReplyView::Metadata(findings.metadata),
        ReleaseAttemptView::Lookup { .. } => ReleaseReplyView::Binary(findings.cached),
        ReleaseAttemptView::Download { .. } => ReleaseReplyView::Downloaded(findings.download),
        ReleaseAttemptView::Locate { .. } => ReleaseReplyView::Binary(findings.unpacked),
        ReleaseAttemptView::MarkExecutable { .. } => ReleaseReplyView::Marked(findings.mark),
        ReleaseAttemptView::Prune { .. } => ReleaseReplyView::Pruned,
    }
}

/// Where an attempt that stands at `step` ends, if the host replies by
/// `findings` and the attempt is over after at most `steps` more replies.
pub open spec fn release_run_of(
    step: ReleaseStepView,
    findings: ReleaseFindings,
    steps: nat,
) -> Option<ReleaseOutcomeView>
    decreases steps,
{
    match step {
        ReleaseStepView::Done(outcome) => Some(outcome),
        ReleaseStepView::Ask(attempt) => if steps == 0 {
            None
        } else {
            release_run_of(
                release_next_of(attempt, reply_of(findings, attempt)),
                findings,
                (steps - 1) as nat,
            )
        },
    }
}

/// An attempt whose requests are carried out is over after at most six
/// replies, and ends in `release_outcome_of`.
pub proof fn lemma_release_attempt(platform: Platform, arch: Arch, findings: ReleaseFindings)
    ensures
        release_run_of(
            ReleaseStepView::Ask(ReleaseAttemptView::Metadata { platform, arch }),
            findings,
            6,
        ) == Some(release_outcome_of(platform, arch, findings)),
{
    reveal_with_fuel(release_run_of, 7);
}

/// The cache is cleared only after the download of a new release, and then
/// every directory but the new release's is removed.
pub proof fn lemma_prune_follows_download(attempt: ReleaseAttemptView, reply: ReleaseReplyView)
    ensures
        release_next_of(attempt, reply) matches ReleaseStepView::Ask(
            ReleaseAttemptView::Prune { dir, .. },
        ) ==> match attempt {
            ReleaseAttemptView::Download { dir: d, .. } => d == dir,
            ReleaseAttemptView::Locate { dir: d, .. } => d == dir,
            ReleaseAttemptView::MarkExecutable { dir: d, .. } => d == dir,
            ReleaseAttemptView::Prune { dir: d, .. } => d == dir,
            _ => false,
        },
{
}

/// The first request of an attempt.
pub fn release_begin(platform: Platform, arch: Arch) -> (step: ReleaseStep)
    ensures
        step@ == ReleaseStepView::Ask(ReleaseAttemptView::Metadata { platform, arch }),
{
    ReleaseStep::Ask(ReleaseAttempt::Metadata { platform, arch })
}

fn after_located(platform: Platform, dir: String, binary: String) -> (step: ReleaseStep)
    ensures
        step@ == step_after_located(platform, dir@, binary@),
{
    match platform {
        Platform::Windows => ReleaseStep::Ask(ReleaseAttempt::Prune { dir, binary }),
        _ => ReleaseStep::Ask(ReleaseAttempt::MarkExecutable { dir, binary }),
    }
}

fn after_metadata(release: ReleaseInfo, platform: Platform, arch: Arch) -> (step: ReleaseStep)
    ensures
        step@ == step_after_metadata(release@, platform, arch),
{
    match select_asset(&release, platform, arch) {
        Ok(asset) => ReleaseStep::Ask(
            ReleaseAttempt::Lookup {
                platform,
                dir: cache_dir_name(release.version.as_str()),
                asset,
            },
        ),
        Err(AssetError::Unsupported) => ReleaseStep::Done(ReleaseOutcome::Unsupported),
        Err(AssetError::Missing { name }) => {
            let mut message = String::from_str("release has no asset named ");
            message.append(name.as_str());
            ReleaseStep::Done(ReleaseOutcome::Failed(message))
        },
    }
}

fn to_download(platform: Platform, dir: String, asset: Asset) -> (step: ReleaseStep)
    ensures
        step@ == step_to_download(platform, dir@, asset@),
{
    let plan = plan_fetch(&asset, dir.as_str(), platform, false);
    match plan.download {
        Some(download) => ReleaseStep::Ask(
            ReleaseAttempt::Download { platform, dir, download, target: plan.binary_path },
        ),
        None => ReleaseStep::Ask(ReleaseAttempt::Lookup { platform, dir, asset }),
    }
}

/// Takes the host's reply to the request of `attempt`.
pub fn release_next(attempt: ReleaseAttempt, reply: ReleaseReply) -> (step: ReleaseStep)
    ensures
        step@ == release_next_of(attempt@, reply@),
{
    match attempt {
        ReleaseAttempt::Metadata { platform, arch } => match reply {
            ReleaseReply::Metadata(Ok(release)) => after_metadata(release, platform, arch),
            ReleaseReply::Metadata(Err(error)) => ReleaseStep::Done(ReleaseOutcome::Failed(error)),
            _ => ReleaseStep::Ask(ReleaseAttempt::Metadata { platform, arch }),
        },
        ReleaseAttempt::Lookup { platform, dir, asset } => match reply {
            ReleaseReply::Binary(Some(path)) => ReleaseStep::Done(ReleaseOutcome::Binary(path)),
            ReleaseReply::Binary(None) => to_download(platform, dir, asset),
            _ => ReleaseStep::Ask(ReleaseAttempt::Lookup { platform, dir, asset }),
        },
        ReleaseAttempt::Download { platform, dir, download, target } => match reply {
            ReleaseReply::Downloaded(Ok(_)) => match target {
                Some(path) => after_located(platform, dir, path),
                None => ReleaseStep::Ask(ReleaseAttempt::Locate { platform, dir }),
            },
            ReleaseReply::Downloaded(Err(error)) => ReleaseStep::Done(
                ReleaseOutcome::Failed(error),
            ),
            _ => ReleaseStep::Ask(ReleaseAttempt::Download { platform, dir, download, target }),
        },
        ReleaseAttempt::Locate { platform, dir } => match reply {
            ReleaseReply::Binary(Some(path)) => after_located(platform, dir, path),
            ReleaseReply::Binary(None) => {
                let mut message = String::from_str("no server binary in ");
                message.append(dir.as_str());
                ReleaseStep::Done(ReleaseOutcome::Failed(message))
            },
            _ => ReleaseStep::Ask(ReleaseAttempt::Locate { platform, dir }),
        },
        ReleaseAttempt::MarkExecutable { dir, binary } => match reply {
            ReleaseReply::Marked(Ok(_)) => ReleaseStep::Ask(ReleaseAttempt::Prune { dir, binary }),
            ReleaseReply::Marked(Err(error)) => ReleaseStep::Done(ReleaseOutcome::Failed(error)),
            _ => ReleaseStep::Ask(ReleaseAttempt::MarkExecutable { dir, binary }),
        },
        ReleaseAttempt::Prune { dir, binary } => match reply {
            ReleaseReply::Pruned => ReleaseStep::Done(ReleaseOutcome::Binary(binary)),
            _ => ReleaseStep::Ask(ReleaseAttempt::Prune { dir, binary }),
        },
    }
}

} // verus!
