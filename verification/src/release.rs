//! Published releases: which asset fits the platform, and how to fetch it.

use vstd::prelude::*;
use vstd::string::StringExecFns;
use crate::text::{ends_with, has_suffix, join_path, joined, to_chars};

verus! {

broadcast use vstd::string::group_string_axioms;

/// Name of the server binary, without a platform's extension.
pub const BINARY_NAME: &'static str = "css-variable-lsp";

/// Whether the newest release may be a pre-release: it may not.
pub const ALLOW_PRE_RELEASES: bool = false;

/// Whether a release without assets is passed over for the newest one that
/// has some: it is.
pub const REQUIRE_ASSETS: bool = true;

/// An operating system that the host runs on.
#[derive(Clone, Copy, Debug, PartialEq, Eq, Structural)]
pub enum Platform {
    Mac,
    Linux,
    Windows,
}

/// A processor architecture that the host runs on.
#[derive(Clone, Copy, Debug, PartialEq, Eq, Structural)]
pub enum Arch {
    Aarch64,
    X86,
    X8664,
}

/// A downloadable file of a release.
#[derive(Clone, Debug, PartialEq, Eq)]
pub struct Asset {
    pub name: String,
    pub download_url: String,
}

/// The mathematical value of an `Asset`.
pub struct AssetView {
    pub name: Seq<char>,
    pub download_url: Seq<char>,
}

impl View for Asset {
    type V = AssetView;

    open spec fn view(&self) -> AssetView {
        AssetView { name: self.name@, download_url: self.download_url@ }
    }
}

/// A published release: its version and its assets, in the order published.
#[derive(Clone, Debug, PartialEq, Eq)]
pub struct ReleaseInfo {
    pub version: String,
    pub assets: Vec<Asset>,
}

/// The mathematical value of a `ReleaseInfo`.
pub struct ReleaseView {
    pub version: Seq<char>,
    pub assets: Seq<AssetView>,
}

impl View for ReleaseInfo {
    type V = ReleaseView;

    open spec fn view(&self) -> ReleaseView {
        ReleaseView { version: self.version@, assets: self.assets@.map_values(|a: Asset| a@) }
    }
}

/// Why no asset of a release can be used.
#[derive(Clone, Debug, PartialEq, Eq)]
pub enum AssetError {
    /// No release is built for this platform and architecture.
    Unsupported,
    /// The release holds no asset of the name given.
    Missing { name: String },
}

/// How a platform is written in an asset name.
pub open spec fn platform_token(platform: Platform) -> Seq<char> {
    match platform {
        Platform::Mac => "macos"@,
        Platform::Linux => "linux"@,
        Platform::Windows => "windows"@,
    }
}

/// How an architecture is written in an asset name, where releases are built
/// for it.
pub open spec fn arch_token(arch: Arch) -> Option<Seq<char>> {
    match arch {
        Arch::Aarch64 => Some("aarch64"@),
        Arch::X8664 => Some("x86_64"@),
        Arch::X86 => None,
    }
}

/// The extension of a platform's asset: a tar archive where the platform is
/// POSIX, a zipped executable elsewhere.
pub open spec fn asset_extension(platform: Platform) -> Seq<char> {
    match platform {
        Platform::Windows => ".zip"@,
        _ => ".tar.gz"@,
    }
}

/// The name of the asset built for `platform` and `arch`, if one is built.
pub open spec fn asset_name_of(platform: Platform, arch: Arch) -> Option<Seq<char>> {
    match arch_token(arch) {
        Some(token) => Some(
            BINARY_NAME@ + "-"@ + platform_token(platform) + "-"@ + token + asset_extension(
                platform,
            ),
        ),
        None => None,
    }
}

/// The name of the asset built for `platform` and `arch`; `None` where no
/// release is built for them.
pub fn asset_name(platform: Platform, arch: Arch) -> (name: Option<String>)
    ensures
        match name {
            Some(n) => asset_name_of(platform, arch) == Some(n@),
            None => asset_name_of(platform, arch) is None,
        },
{
    let token = match arch {
        Arch::Aarch64 => "aarch64",
        Arch::X8664 => "x86_64",
        Arch::X86 => { return None; },
    };
    let mut name = String::from_str(BINARY_NAME);
    name.append("-");
    name.append(
        match platform {
            Platform::Mac => "macos",
            Platform::Linux => "linux",
            Platform::Windows => "windows",
        },
    );
    name.append("-");
    name.append(token);
    name.append(
        match platform {
            Platform::Windows => ".zip",
            _ => ".tar.gz",
        },
    );
    Some(name)
}

/// Position of the first asset called `name`.
pub open spec fn first_named(assets: Seq<AssetView>, name: Seq<char>) -> Option<int>
    decreases assets.len(),
{
    if assets.len() == 0 {
        None
    } else if assets[0].name == name {
        Some(0)
    } else {
        match first_named(assets.drop_first(), name) {
            Some(i) => Some(i + 1),
            None => None,
        }
    }
}

/// `first_named` finds the least position that holds the name, and finds one
/// whenever the name occurs.
pub proof fn lemma_first_named(assets: Seq<AssetView>, name: Seq<char>)
    ensures
        match first_named(assets, name) {
            Some(i) => 0 <= i < assets.len() && assets[i].name == name && forall|j: int|
                0 <= j < i ==> assets[j].name != name,
            None => forall|j: int| 0 <= j < assets.len() ==> assets[j].name != name,
        },
    decreases assets.len(),
{
    if assets.len() > 0 && assets[0].name != name {
        let rest = assets.drop_first();
        lemma_first_named(rest, name);
        match first_named(rest, name) {
            Some(i) => {
                assert forall|j: int| 0 <= j < i + 1 implies assets[j].name != name by {
                    if j > 0 {
                        assert(assets[j] == rest[j - 1]);
                    }
                }
            },
            None => {
                assert forall|j: int| 0 <= j < assets.len() implies assets[j].name != name by {
                    if j > 0 {
                        assert(assets[j] == rest[j - 1]);
                    }
                }
            },
        }
    }
}

/// What `select_asset` returns.
pub open spec fn selected_asset(release: ReleaseView, platform: Platform, arch: Arch) -> Result<
    AssetView,
    Option<Seq<char>>,
> {
    match asset_name_of(platform, arch) {
        None => Err(None),
        Some(name) => match first_named(release.assets, name) {
            Some(i) => Ok(release.assets[i]),
            None => Err(Some(name)),
        },
    }
}

/// The asset of `release` that is built for `platform` and `arch`: the first
/// one whose name is exactly the name that `asset_name` gives.
pub fn select_asset(release: &ReleaseInfo, platform: Platform, arch: Arch) -> (r: Result<
    Asset,
    AssetError,
>)
    ensures
        match r {
            Ok(asset) => selected_asset(release@, platform, arch) == Ok::<
                AssetView,
                Option<Seq<char>>,
            >(asset@),
            Err(AssetError::Unsupported) => selected_asset(release@, platform, arch) == Err::<
                AssetView,
                Option<Seq<char>>,
            >(None),
            Err(AssetError::Missing { name }) => selected_asset(release@, platform, arch) == Err::<
                AssetView,
                Option<Seq<char>>,
            >(Some(name@)),
        },
{
    let name = match asset_name(platform, arch) {
        Some(n) => n,
        None => { return Err(AssetError::Unsupported); },
    };
    let ghost all = release@.assets;
    let mut i: usize = 0;
    assert(all.skip(0) =~= all);
    while i < release.assets.len()
        invariant
            i <= release.assets.len(),
            all == release@.assets,
            asset_name_of(platform, arch) == Some(name@),
            first_named(all, name@) == match first_named(all.skip(i as int), name@) {
                Some(k) => Some(k + i),
                None => None,
            },
        decreases release.assets.len() - i,
    {
        let asset = &release.assets[i];
        assert(all.skip(i as int)[0] == asset@);
        if asset.name == name {
            let found = Asset {
                name: asset.name.clone(),
                download_url: asset.download_url.clone(),
            };
            return Ok(found);
        }
        assert(all.skip(i as int).drop_first() =~= all.skip(i + 1));
        i += 1;
    }
    Err(AssetError::Missing { name })
}

// ---------------------------------------------------------------------------
// Fetching an asset
// ---------------------------------------------------------------------------

/// How a downloaded file is packed.
#[derive(Clone, Copy, Debug, PartialEq, Eq, Structural)]
pub enum FileKind {
    /// A gzipped tar archive.
    GzipTar,
    /// A zip archive.
    Zip,
    /// One gzipped file.
    Gzip,
    /// One file as it is.
    Uncompressed,
}

/// One download: from where, to where, and how the file is packed.
#[derive(Clone, Debug, PartialEq, Eq)]
pub struct Download {
    pub url: String,
    pub path: String,
    pub kind: FileKind,
}

/// The mathematical value of a `Download`.
pub struct DownloadView {
    pub url: Seq<char>,
    pub path: Seq<char>,
    pub kind: FileKind,
}

impl View for Download {
    type V = DownloadView;

    open spec fn view(&self) -> DownloadView {
        DownloadView { url: self.url@, path: self.path@, kind: self.kind }
    }
}

/// What has to be done to have an asset's binary on disk.
#[derive(Clone, Debug, PartialEq, Eq)]
pub struct FetchPlan {
    /// The download to make, if one has to be made.
    pub download: Option<Download>,
    /// Where the binary is afterwards, if that is known beforehand. An archive
    /// is unpacked into the destination, and the binary has to be looked for
    /// there.
    pub binary_path: Option<String>,
    /// Whether the binary has to be marked executable.
    pub mark_executable: bool,
}

/// The mathematical value of a `FetchPlan`.
pub struct FetchPlanView {
    pub download: Option<DownloadView>,
    pub binary_path: Option<Seq<char>>,
    pub mark_executable: bool,
}

impl View for FetchPlan {
    type V = FetchPlanView;

    open spec fn view(&self) -> FetchPlanView {
        FetchPlanView {
            download: match self.download {
                Some(d) => Some(d@),
                None => None,
            },
            binary_path: match self.binary_path {
                Some(p) => Some(p@),
                None => None,
            },
            mark_executable: self.mark_executable,
        }
    }
}

/// How the asset called `name` is packed, going by its extension.
pub open spec fn file_kind_of(name: Seq<char>) -> FileKind {
    if has_suffix(name, ".tar.gz"@) {
        FileKind::GzipTar
    } else if has_suffix(name, ".zip"@) {
        FileKind::Zip
    } else if has_suffix(name, ".gz"@) {
        FileKind::Gzip
    } else {
        FileKind::Uncompressed
    }
}

/// An archive holds the binary among other files; the other kinds are the
/// binary itself.
pub open spec fn is_archive(kind: FileKind) -> bool {
    kind == FileKind::GzipTar || kind == FileKind::Zip
}

/// The file name of the server binary on `platform`.
pub open spec fn binary_file_name_of(platform: Platform) -> Seq<char> {
    match platform {
        Platform::Windows => BINARY_NAME@ + ".exe"@,
        _ => BINARY_NAME@,
    }
}

/// Only Windows runs a file that is not marked executable.
pub open spec fn needs_executable_mark(platform: Platform) -> bool {
    platform != Platform::Windows
}

/// What `plan_fetch` returns.
pub open spec fn fetch_plan_of(
    asset: AssetView,
    destination: Seq<char>,
    platform: Platform,
    target_exists: bool,
) -> FetchPlanView {
    let kind = file_kind_of(asset.name);
    let target = joined(destination, binary_file_name_of(platform));
    if is_archive(kind) {
        FetchPlanView {
            download: Some(DownloadView { url: asset.download_url, path: destination, kind }),
            binary_path: None,
            mark_executable: needs_executable_mark(platform),
        }
    } else {
        FetchPlanView {
            download: if target_exists {
                None
            } else {
                Some(DownloadView { url: asset.download_url, path: target, kind })
            },
            binary_path: Some(target),
            mark_executable: needs_executable_mark(platform),
        }
    }
}

/// How the asset called `name` is packed.
pub fn file_kind(name: &str) -> (kind: FileKind)
    ensures
        kind == file_kind_of(name@),
{
    let chars = to_chars(name);
    if ends_with(&chars, &to_chars(".tar.gz")) {
        FileKind::GzipTar
    } else if ends_with(&chars, &to_chars(".zip")) {
        FileKind::Zip
    } else if ends_with(&chars, &to_chars(".gz")) {
        FileKind::Gzip
    } else {
        FileKind::Uncompressed
    }
}

/// The file name of the server binary on `platform`.
pub fn binary_file_name(platform: Platform) -> (name: String)
    ensures
        name@ == binary_file_name_of(platform),
{
    let mut name = String::from_str(BINARY_NAME);
    if let Platform::Windows = platform {
        name.append(".exe");
    }
    name
}

/// Plans the fetch of `asset` into the directory `destination`.
///
/// An archive is downloaded and unpacked into `destination`. Any other asset
/// is the binary itself: it goes to the binary's own path inside
/// `destination`, and is not downloaded again when `target_exists` says that
/// a file is already there. The result is marked executable wherever the
/// platform asks for that.
pub fn plan_fetch(asset: &Asset, destination: &str, platform: Platform, target_exists: bool) -> (plan:
    FetchPlan)
    ensures
        plan@ == fetch_plan_of(asset@, destination@, platform, target_exists),
{
    let kind = file_kind(asset.name.as_str());
    let mark_executable = match platform {
        Platform::Windows => false,
        _ => true,
    };
    match kind {
        FileKind::GzipTar | FileKind::Zip => FetchPlan {
            download: Some(
                Download {
                    url: asset.download_url.clone(),
                    path: String::from_str(destination),
                    kind,
                },
            ),
            binary_path: None,
            mark_executable,
        },
        _ => {
            let file_name = binary_file_name(platform);
            let target = join_path(destination, file_name.as_str());
            let download = if target_exists {
                None
            } else {
                Some(Download { url: asset.download_url.clone(), path: target.clone(), kind })
            };
            FetchPlan { download, binary_path: Some(target), mark_executable }
        },
    }
}

} // verus!
