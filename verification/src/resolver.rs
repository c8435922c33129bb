//! Finding the server: the sources are tried in a fixed order, and the first
//! one that has a usable binary wins.
//!
//! The resolver does no work on disk or on the network itself. It asks its
//! host one question per source, and decides from the answer whether the
//! search is over or which source comes next. `outcome_of` says what a whole
//! resolution gives; `lemma_resolution` proves that the steps agree with it.

use vstd::prelude::*;
use crate::channel::{accepts_path_binary, opt_view, target_accepts, PathBinaryTarget,
    PathBinaryTargetView};
use crate::command::{Command, CommandView};

verus! {

/// A source of the server, in the order in which the sources are tried.
#[derive(Clone, Copy, Debug, PartialEq, Eq, Structural)]
pub enum Tier {
    /// The path that the configuration names.
    Override,
    /// A binary built in a checkout of the server next to this one.
    DevBuild,
    /// The path that the last resolution gave, if it is still a file.
    ValidatedCache,
    /// The newest release, from the cache or downloaded.
    LatestRelease,
    /// Any release in the cache.
    AnyCached,
    /// A binary on the search path that tells an acceptable version.
    AmbientPath,
    /// The package of the alternate channel.
    AltChannel,
}

/// A binary, and the source that it came from.
#[derive(Clone, Debug, PartialEq, Eq)]
pub struct ResolvedBinary {
    pub path: String,
    pub tier: Tier,
}

/// The mathematical value of a `ResolvedBinary`.
pub struct ResolvedBinaryView {
    pub path: Seq<char>,
    pub tier: Tier,
}

impl View for ResolvedBinary {
    type V = ResolvedBinaryView;

    open spec fn view(&self) -> ResolvedBinaryView {
        ResolvedBinaryView { path: self.path@, tier: self.tier }
    }
}

/// What a resolution found.
#[derive(Clone, Debug, PartialEq, Eq)]
pub enum Resolved {
    /// A binary to run.
    Binary(ResolvedBinary),
    /// The alternate channel's command, which is run as it is.
    Command(Command),
}

/// The mathematical value of a `Resolved`.
pub enum ResolvedView {
    Binary(ResolvedBinaryView),
    Command(CommandView),
}

impl View for Resolved {
    type V = ResolvedView;

    open spec fn view(&self) -> ResolvedView {
        match self {
            Resolved::Binary(b) => ResolvedView::Binary(b@),
            Resolved::Command(c) => ResolvedView::Command(c@),
        }
    }
}

/// Why a resolution found nothing.
#[derive(Clone, Debug, PartialEq, Eq)]
pub enum ResolveError {
    /// No release is built for this platform and architecture, so no other
    /// source can have a binary either.
    Unsupported,
    /// Every source failed. `release_error` is what went wrong with the
    /// newest release.
    Exhausted { release_error: String },
}

/// The mathematical value of a `ResolveError`.
pub enum ResolveErrorView {
    Unsupported,
    Exhausted { release_error: Seq<char> },
}

impl View for ResolveError {
    type V = ResolveErrorView;

    open spec fn view(&self) -> ResolveErrorView {
        match self {
            ResolveError::Unsupported => ResolveErrorView::Unsupported,
            ResolveError::Exhausted { release_error } => ResolveErrorView::Exhausted {
                release_error: release_error@,
            },
        }
    }
}

/// How the attempt at the newest release ended.
#[derive(Clone, Debug, PartialEq, Eq)]
pub enum ReleaseOutcome {
    /// The release's binary is at this path.
    Binary(String),
    /// No release is built for this platform and architecture.
    Unsupported,
    /// Anything else went wrong; the message says what.
    Failed(String),
}

/// The mathematical value of a `ReleaseOutcome`.
pub enum ReleaseOutcomeView {
    Binary(Seq<char>),
    Unsupported,
    Failed(Seq<char>),
}

impl View for ReleaseOutcome {
    type V = ReleaseOutcomeView;

    open spec fn view(&self) -> ReleaseOutcomeView {
        match self {
            ReleaseOutcome::Binary(p) => ReleaseOutcomeView::Binary(p@),
            ReleaseOutcome::Unsupported => ReleaseOutcomeView::Unsupported,
            ReleaseOutcome::Failed(e) => ReleaseOutcomeView::Failed(e@),
        }
    }
}

/// A binary found on the search path, with the version that a probe of it
/// told, if it told one.
#[derive(Clone, Debug, PartialEq, Eq)]
pub struct PathCandidate {
    pub path: String,
    pub version: Option<String>,
}

/// The mathematical value of a `PathCandidate`.
pub struct PathCandidateView {
    pub path: Seq<char>,
    pub version: Option<Seq<char>>,
}

impl View for PathCandidate {
    type V = PathCandidateView;

    open spec fn view(&self) -> PathCandidateView {
        PathCandidateView { path: self.path@, version: opt_view(self.version) }
    }
}

/// What the host finds out for one source.
#[derive(Debug, PartialEq, Eq)]
pub enum Answer {
    /// The newest development build, if there is one.
    DevBuild(Option<String>),
    /// Whether the remembered path is still a file.
    Remembered(bool),
    /// How the attempt at the newest release ended.
    LatestRelease(ReleaseOutcome),
    /// The binary of the best cached release, if any has one.
    AnyCached(Option<String>),
    /// The binary of the server's name on the search path, if there is one,
    /// and what it has to tell of itself to be used.
    AmbientPath { candidate: Option<PathCandidate>, target: PathBinaryTarget },
    /// The alternate channel's command, or why there is none.
    AltChannel(Result<Command, String>),
}

/// The mathematical value of an `Answer`.
pub enum AnswerView {
    DevBuild(Option<Seq<char>>),
    Remembered(bool),
    LatestRelease(ReleaseOutcomeView),
    AnyCached(Option<Seq<char>>),
    AmbientPath { candidate: Option<PathCandidateView>, target: PathBinaryTargetView },
    AltChannel(Result<CommandView, Seq<char>>),
}

impl View for Answer {
    type V = AnswerView;

    open spec fn view(&self) -> AnswerView {
        match self {
            Answer::DevBuild(found) => AnswerView::DevBuild(opt_view(*found)),
            Answer::Remembered(exists) => AnswerView::Remembered(*exists),
            Answer::LatestRelease(outcome) => AnswerView::LatestRelease(outcome@),
            Answer::AnyCached(found) => AnswerView::AnyCached(opt_view(*found)),
            Answer::AmbientPath { candidate, target } => AnswerView::AmbientPath {
                candidate: match candidate {
                    Some(c) => Some(c@),
                    None => None,
                },
                target: target@,
            },
            Answer::AltChannel(result) => AnswerView::AltChannel(
                match result {
                    Ok(c) => Ok(c@),
                    Err(e) => Err(e@),
                },
            ),
        }
    }
}

/// The resolver's memory: the path that the last resolution gave, where it
/// came from a source that is tried after the remembered path.
#[derive(Clone, Debug, PartialEq, Eq)]
pub struct Resolver {
    pub remembered: Option<String>,
}

/// A resolution under way: the source whose answer is awaited, and what went
/// wrong with the newest release, once that is known.
#[derive(Clone, Debug, PartialEq, Eq)]
pub struct Resolution {
    pub waiting_for: Tier,
    pub release_error: Option<String>,
}

/// The mathematical value of a `Resolution`.
pub struct ResolutionView {
    pub waiting_for: Tier,
    pub release_error: Option<Seq<char>>,
}

impl View for Resolution {
    type V = ResolutionView;

    open spec fn view(&self) -> ResolutionView {
        ResolutionView {
            waiting_for: self.waiting_for,
            release_error: opt_view(self.release_error),
        }
    }
}

/// Where a resolution stands after a step.
#[derive(Debug, PartialEq, Eq)]
pub enum Step {
    /// The host is to find out the answer for `resolution.waiting_for`, and
    /// to hand it to `advance` together with `resolution`.
    Ask(Resolution),
    /// The resolution is over.
    Done(Result<Resolved, ResolveError>),
}

/// The mathematical value of a `Step`.
pub enum StepView {
    Ask(ResolutionView),
    Done(Result<ResolvedView, ResolveErrorView>),
}

impl View for Step {
    type V = StepView;

    open spec fn view(&self) -> StepView {
        match self {
            Step::Ask(resolution) => StepView::Ask(resolution@),
            Step::Done(Ok(resolved)) => StepView::Done(Ok(resolved@)),
            Step::Done(Err(error)) => StepView::Done(Err(error@)),
        }
    }
}

/// A step of a resolution: the memory after it, and where the resolution
/// stands.
pub struct Transition {
    pub remembered: Option<Seq<char>>,
    pub step: StepView,
}

/// The step that leaves `remembered` in the memory and the resolution at
/// `step`.
pub open spec fn step_to(remembered: Option<Seq<char>>, step: StepView) -> Transition {
    Transition { remembered, step }
}

/// The resolution is over with the binary at `path`, which `tier` gave.
pub open spec fn found(remembered: Option<Seq<char>>, path: Seq<char>, tier: Tier) -> Transition {
    Transition {
        remembered,
        step: StepView::Done(Ok(ResolvedView::Binary(ResolvedBinaryView { path, tier }))),
    }
}

/// The resolution goes on with `tier`.
pub open spec fn ask(
    remembered: Option<Seq<char>>,
    tier: Tier,
    release_error: Option<Seq<char>>,
) -> Transition {
    Transition {
        remembered,
        step: StepView::Ask(ResolutionView { waiting_for: tier, release_error }),
    }
}

/// The first step. A configured path is the result as it stands; without
/// one, the first question is for a development build.
pub open spec fn begin_of(
    remembered: Option<Seq<char>>,
    override_path: Option<Seq<char>>,
) -> Transition {
    match override_path {
        Some(path) => found(remembered, path, Tier::Override),
        None => ask(remembered, Tier::DevBuild, None),
    }
}

/// The step that the answer to the pending question leads to. An answer to
/// another question changes nothing: the question stands.
pub open spec fn advance_of(
    remembered: Option<Seq<char>>,
    resolution: ResolutionView,
    answer: AnswerView,
) -> Transition {
    let release_error = resolution.release_error;
    match (resolution.waiting_for, answer) {
        (Tier::DevBuild, AnswerView::DevBuild(Some(path))) => found(
            remembered,
            path,
            Tier::DevBuild,
        ),
        (Tier::DevBuild, AnswerView::DevBuild(None)) => if remembered is Some {
            ask(remembered, Tier::ValidatedCache, release_error)
        } else {
            ask(remembered, Tier::LatestRelease, release_error)
        },
        (Tier::ValidatedCache, AnswerView::Remembered(exists)) => if exists && remembered is Some {
            found(remembered, remembered->0, Tier::ValidatedCache)
        } else {
            ask(remembered, Tier::LatestRelease, release_error)
        },
        (Tier::LatestRelease, AnswerView::LatestRelease(ReleaseOutcomeView::Binary(path))) => found(
            Some(path),
            path,
            Tier::LatestRelease,
        ),
        (Tier::LatestRelease, AnswerView::LatestRelease(ReleaseOutcomeView::Unsupported)) => Transition {
            remembered,
            step: StepView::Done(Err(ResolveErrorView::Unsupported)),
        },
        (Tier::LatestRelease, AnswerView::LatestRelease(ReleaseOutcomeView::Failed(error))) => ask(
            remembered,
            Tier::AnyCached,
            Some(error),
        ),
        (Tier::AnyCached, AnswerView::AnyCached(Some(path))) => found(
            Some(path),
            path,
            Tier::AnyCached,
        ),
        (Tier::AnyCached, AnswerView::AnyCached(None)) => ask(
            remembered,
            Tier::AmbientPath,
            release_error,
        ),
        (Tier::AmbientPath, AnswerView::AmbientPath { candidate, target }) => if candidate is Some
            && target_accepts(target, candidate->0.version) {
            found(Some(candidate->0.path), candidate->0.path, Tier::AmbientPath)
        } else {
            ask(remembered, Tier::AltChannel, release_error)
        },
        (Tier::AltChannel, AnswerView::AltChannel(Ok(command))) => Transition {
            remembered,
            step: StepView::Done(Ok(ResolvedView::Command(command))),
        },
        (Tier::AltChannel, AnswerView::AltChannel(Err(_))) => Transition {
            remembered,
            step: StepView::Done(
                Err(
                    ResolveErrorView::Exhausted {
                        release_error: match release_error {
                            Some(error) => error,
                            None => Seq::empty(),
                        },
                    },
                ),
            ),
        },
        _ => Transition { remembered, step: StepView::Ask(resolution) },
    }
}

// ---------------------------------------------------------------------------
// A whole resolution
// ---------------------------------------------------------------------------

/// Everything that the host could find out during one resolution: for each
/// source the answer that it would give if asked.
pub struct Findings {
    pub dev_build: Option<Seq<char>>,
    pub remembered_exists: bool,
    pub release: ReleaseOutcomeView,
    pub cached: Option<Seq<char>>,
    pub candidate: Option<PathCandidateView>,
    pub target: PathBinaryTargetView,
    pub alt_channel: Result<CommandView, Seq<char>>,
}

/// What a resolution ends in, and what is remembered after it.
pub struct Outcome {
    pub remembered: Option<Seq<char>>,
    pub result: Result<ResolvedView, ResolveErrorView>,
}

/// The result of a whole resolution: the first source in the order of `Tier`
/// that has a binary gives the result. The sources after the newest release
/// are only reached when the attempt at it failed for another reason than an
/// unsupported platform; and if they all fail too, the error is the one of
/// that attempt. A path from the newest release or a later source is
/// remembered.
pub open spec fn outcome_of(
    remembered: Option<Seq<char>>,
    override_path: Option<Seq<char>>,
    findings: Findings,
) -> Outcome {
    let binary = |path: Seq<char>, tier: Tier|
        Ok::<ResolvedView, ResolveErrorView>(
            ResolvedView::Binary(ResolvedBinaryView { path, tier }),
        );
    if override_path is Some {
        Outcome { remembered, result: binary(override_path->0, Tier::Override) }
    } else if findings.dev_build is Some {
        Outcome { remembered, result: binary(findings.dev_build->0, Tier::DevBuild) }
    } else if remembered is Some && findings.remembered_exists {
        Outcome { remembered, result: binary(remembered->0, Tier::ValidatedCache) }
    } else {
        match findings.release {
            ReleaseOutcomeView::Binary(path) => Outcome {
                remembered: Some(path),
                result: binary(path, Tier::LatestRelease),
            },
            ReleaseOutcomeView::Unsupported => Outcome {
                remembered,
                result: Err(ResolveErrorView::Unsupported),
            },
            ReleaseOutcomeView::Failed(release_error) => if findings.cached is Some {
                Outcome {
                    remembered: findings.cached,
                    result: binary(findings.cached->0, Tier::AnyCached),
                }
            } else if findings.candidate is Some && target_accepts(
                findings.target,
                findings.candidate->0.version,
            ) {
                Outcome {
                    remembered: Some(findings.candidate->0.path),
                    result: binary(findings.candidate->0.path, Tier::AmbientPath),
                }
            } else {
                match findings.alt_channel {
                    Ok(command) => Outcome {
                        remembered,
                        result: Ok(ResolvedView::Command(command)),
                    },
                    Err(_) => Outcome {
                        remembered,
                        result: Err(ResolveErrorView::Exhausted { release_error }),
                    },
                }
            },
        }
    }
}

/// The answer that the host gives for `tier`.
pub open spec fn answer_of(findings: Findings, tier: Tier) -> AnswerView {
    match tier {
        Tier::Override | Tier::DevBuild => AnswerView::DevBuild(findings.dev_build),
        Tier::ValidatedCache => AnswerView::Remembered(findings.remembered_exists),
        Tier::LatestRelease => AnswerView::LatestRelease(findings.release),
        Tier::AnyCached => AnswerView::AnyCached(findings.cached),
        Tier::AmbientPath => AnswerView::AmbientPath {
            candidate: findings.candidate,
            target: findings.target,
        },
        Tier::AltChannel => AnswerView::AltChannel(findings.alt_channel),
    }
}

/// Where a resolution that stands at `transition` ends, if the host answers
/// by `findings` and the resolution is over after at most `steps` more
/// answers.
pub open spec fn run_of(transition: Transition, findings: Findings, steps: nat) -> Option<Outcome>
    decreases steps,
{
    match transition.step {
        StepView::Done(result) => Some(Outcome { remembered: transition.remembered, result }),
        StepView::Ask(resolution) => if steps == 0 {
            None
        } else {
            run_of(
                advance_of(
                    transition.remembered,
                    resolution,
                    answer_of(findings, resolution.waiting_for),
                ),
                findings,
                (steps - 1) as nat,
            )
        },
    }
}

/// A resolution whose questions are answered truthfully is over after at
/// most six answers, and ends in `outcome_of`.
pub proof fn lemma_resolution(
    remembered: Option<Seq<char>>,
    override_path: Option<Seq<char>>,
    findings: Findings,
)
    ensures
        run_of(begin_of(remembered, override_path), findings, 6) == Some(
            outcome_of(remembered, override_path, findings),
        ),
{
    reveal_with_fuel(run_of, 7);
}

/// The place of a source in the order.
pub open spec fn tier_rank(tier: Tier) -> nat {
    match tier {
        Tier::Override => 1,
        Tier::DevBuild => 2,
        Tier::ValidatedCache => 3,
        Tier::LatestRelease => 4,
        Tier::AnyCached => 5,
        Tier::AmbientPath => 6,
        Tier::AltChannel => 7,
    }
}

/// `answer` is an answer to the question for `tier`.
pub open spec fn fits(tier: Tier, answer: AnswerView) -> bool {
    match (tier, answer) {
        (Tier::DevBuild, AnswerView::DevBuild(_)) => true,
        (Tier::ValidatedCache, AnswerView::Remembered(_)) => true,
        (Tier::LatestRelease, AnswerView::LatestRelease(_)) => true,
        (Tier::AnyCached, AnswerView::AnyCached(_)) => true,
        (Tier::AmbientPath, AnswerView::AmbientPath { .. }) => true,
        (Tier::AltChannel, AnswerView::AltChannel(_)) => true,
        _ => false,
    }
}

/// The sources are asked in the order of `Tier`: an answer that fits the
/// question ends the resolution or leads to a later source, and the
/// remembered path is only asked for where there is one. An answer that does
/// not fit leaves everything as it was.
pub proof fn lemma_tiers_in_order(
    remembered: Option<Seq<char>>,
    resolution: ResolutionView,
    answer: AnswerView,
)
    ensures
        match advance_of(remembered, resolution, answer).step {
            StepView::Ask(next) => if fits(resolution.waiting_for, answer) {
                tier_rank(resolution.waiting_for) < tier_rank(next.waiting_for) && (
                next.waiting_for == Tier::ValidatedCache ==> remembered is Some)
            } else {
                next == resolution
            },
            StepView::Done(_) => fits(resolution.waiting_for, answer),
        },
        !fits(resolution.waiting_for, answer) ==> advance_of(
            remembered,
            resolution,
            answer,
        ).remembered == remembered,
{
}

/// Only the newest release can end a resolution for want of support, and the
/// sources after it are reached only once its error is known.
pub proof fn lemma_release_error_is_kept(
    remembered: Option<Seq<char>>,
    resolution: ResolutionView,
    answer: AnswerView,
)
    requires
        tier_rank(resolution.waiting_for) > 4 ==> resolution.release_error is Some,
    ensures
        match advance_of(remembered, resolution, answer).step {
            StepView::Ask(next) => tier_rank(next.waiting_for) > 4 ==> next.release_error is Some
                && (tier_rank(resolution.waiting_for) > 4 ==> next.release_error
                == resolution.release_error),
            StepView::Done(Err(ResolveErrorView::Unsupported)) => resolution.waiting_for
                == Tier::LatestRelease,
            StepView::Done(Err(ResolveErrorView::Exhausted { release_error })) => Some(
                release_error,
            ) == resolution.release_error,
            StepView::Done(Ok(_)) => true,
        },
{
}

impl Resolver {
    /// A resolver that remembers nothing.
    pub fn new() -> (resolver: Resolver)
        ensures
            resolver.remembered is None,
    {
        Resolver { remembered: None }
    }

    /// Starts a resolution, where `override_path` is the path that the
    /// configuration names, if it names one.
    pub fn begin(&mut self, override_path: Option<String>) -> (step: Step)
        ensures
            begin_of(opt_view(old(self).remembered), opt_view(override_path)) == step_to(
                opt_view(final(self).remembered),
                step@,
            ),
    {
        match override_path {
            Some(path) => Step::Done(
                Ok(Resolved::Binary(ResolvedBinary { path, tier: Tier::Override })),
            ),
            None => Step::Ask(Resolution { waiting_for: Tier::DevBuild, release_error: None }),
        }
    }

    /// Takes the host's answer to the question that `resolution` waits for.
    pub fn advance(&mut self, resolution: Resolution, answer: Answer) -> (step: Step)
        ensures
            advance_of(opt_view(old(self).remembered), resolution@, answer@) == step_to(
                opt_view(final(self).remembered),
                step@,
            ),
    {
        let Resolution { waiting_for, release_error } = resolution;
        match (waiting_for, answer) {
            (Tier::DevBuild, Answer::DevBuild(Some(path))) => Step::Done(
                Ok(Resolved::Binary(ResolvedBinary { path, tier: Tier::DevBuild })),
            ),
            (Tier::DevBuild, Answer::DevBuild(None)) => {
                let next = if self.remembered.is_some() {
                    Tier::ValidatedCache
                } else {
                    Tier::LatestRelease
                };
                Step::Ask(Resolution { waiting_for: next, release_error })
            },
            (Tier::ValidatedCache, Answer::Remembered(exists)) => {
                match copy_of(&self.remembered) {
                    Some(path) => {
                        if exists {
                            Step::Done(
                                Ok(
                                    Resolved::Binary(
                                        ResolvedBinary { path, tier: Tier::ValidatedCache },
                                    ),
                                ),
                            )
                        } else {
                            Step::Ask(
                                Resolution { waiting_for: Tier::LatestRelease, release_error },
                            )
                        }
                    },
                    None => Step::Ask(
                        Resolution { waiting_for: Tier::LatestRelease, release_error },
                    ),
                }
            },
            (Tier::LatestRelease, Answer::LatestRelease(ReleaseOutcome::Binary(path))) => {
                self.remembered = Some(path.clone());
                Step::Done(Ok(Resolved::Binary(ResolvedBinary { path, tier: Tier::LatestRelease })))
            },
            (Tier::LatestRelease, Answer::LatestRelease(ReleaseOutcome::Unsupported)) => Step::Done(
                Err(ResolveError::Unsupported),
            ),
            (Tier::LatestRelease, Answer::LatestRelease(ReleaseOutcome::Failed(error))) => Step::Ask(
                Resolution { waiting_for: Tier::AnyCached, release_error: Some(error) },
            ),
            (Tier::AnyCached, Answer::AnyCached(Some(path))) => {
                self.remembered = Some(path.clone());
                Step::Done(Ok(Resolved::Binary(ResolvedBinary { path, tier: Tier::AnyCached })))
            },
            (Tier::AnyCached, Answer::AnyCached(None)) => Step::Ask(
                Resolution { waiting_for: Tier::AmbientPath, release_error },
            ),
            (Tier::AmbientPath, Answer::AmbientPath { candidate, target }) => {
                match candidate {
                    Some(found) => {
                        if accepts_path_binary(&target, &found.version) {
                            let path = found.path;
                            self.remembered = Some(path.clone());
                            Step::Done(
                                Ok(
                                    Resolved::Binary(
                                        ResolvedBinary { path, tier: Tier::AmbientPath },
                                    ),
                                ),
                            )
                        } else {
                            Step::Ask(
                                Resolution { waiting_for: Tier::AltChannel, release_error },
                            )
                        }
                    },
                    None => Step::Ask(
                        Resolution { waiting_for: Tier::AltChannel, release_error },
                    ),
                }
            },
            (Tier::AltChannel, Answer::AltChannel(Ok(command))) => Step::Done(
                Ok(Resolved::Command(command)),
            ),
            (Tier::AltChannel, Answer::AltChannel(Err(_))) => {
                let release_error = match release_error {
                    Some(error) => error,
                    None => String::new(),
                };
                Step::Done(Err(ResolveError::Exhausted { release_error }))
            },
            (waiting_for, _) => Step::Ask(Resolution { waiting_for, release_error }),
        }
    }
}

/// A copy of an optional string.
fn copy_of(s: &Option<String>) -> (out: Option<String>)
    ensures
        opt_view(out) == opt_view(*s),
{
    match s {
        Some(s) => Some(s.clone()),
        None => None,
    }
}

} // verus!
