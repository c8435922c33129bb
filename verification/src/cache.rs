//! The on-disk cache of downloaded releases: one directory per version, all
//! in the working directory and all named with the same prefix.

use vstd::prelude::*;
use vstd::string::StringExecFns;
use crate::order::{is_lower, lex_lt, chars_lt, lemma_lex_asymmetric, lemma_lex_cotransitive,
    lemma_precedes_asymmetric, lemma_precedes_cotransitive, precedes};
use crate::semver::{parse, parse_spec, strip_v, Semver, SemverView};
use crate::text::{char_is_alnum, char_is_space, copy_range, has_prefix, is_alnum, is_space,
    same_chars, starts_with, string_of, string_views, to_chars};

verus! {

broadcast use vstd::string::group_string_axioms;

/// Every cache directory name begins with this.
pub const CACHE_DIR_PREFIX: &'static str = "css-variable-lsp-";

/// Stands in for a version that is empty once normalized.
pub const EMPTY_VERSION_NAME: &'static str = "unknown";

/// Characters that a directory name keeps as they are.
pub open spec fn is_name_char(c: char) -> bool {
    is_alnum(c) || c == '.' || c == '_' || c == '-'
}

/// `s` without the white space at its start.
pub open spec fn trim_start(s: Seq<char>) -> Seq<char>
    decreases s.len(),
{
    if s.len() > 0 && is_space(s[0]) {
        trim_start(s.drop_first())
    } else {
        s
    }
}

/// `s` without the white space at its end.
pub open spec fn trim_end(s: Seq<char>) -> Seq<char>
    decreases s.len(),
{
    if s.len() > 0 && is_space(s.last()) {
        trim_end(s.drop_last())
    } else {
        s
    }
}

/// A version as it is written in a directory name: without one leading `v`
/// or `V`, and then without surrounding white space.
pub open spec fn normalized(version: Seq<char>) -> Seq<char> {
    trim_end(trim_start(strip_v(version)))
}

/// The character that stands for `c` in a directory name.
pub open spec fn name_char(c: char) -> char {
    if is_name_char(c) {
        c
    } else {
        '_'
    }
}

/// `s` with every character that a directory name does not keep replaced by
/// `_`.
pub open spec fn sanitized(s: Seq<char>) -> Seq<char> {
    s.map_values(|c: char| name_char(c))
}

/// The part of the directory name that follows the prefix.
pub open spec fn version_dir_suffix(version: Seq<char>) -> Seq<char> {
    if normalized(version).len() == 0 {
        EMPTY_VERSION_NAME@
    } else {
        sanitized(normalized(version))
    }
}

/// The name of the cache directory of `version`.
pub open spec fn cache_dir_name_of(version: Seq<char>) -> Seq<char> {
    CACHE_DIR_PREFIX@ + version_dir_suffix(version)
}

/// The name of the directory that caches the release `version`.
pub fn cache_dir_name(version: &str) -> (name: String)
    ensures
        name@ == cache_dir_name_of(version@),
{
    let chars = to_chars(version);
    let start: usize = if chars.len() > 0 && (chars[0] == 'v' || chars[0] == 'V') {
        1
    } else {
        0
    };
    let stripped = copy_range(&chars, start, chars.len());
    assert(stripped@ =~= strip_v(version@));
    let mut lo: usize = 0;
    assert(stripped@.skip(0) =~= stripped@);
    while lo < stripped.len() && char_is_space(stripped[lo])
        invariant
            lo <= stripped.len(),
            trim_start(stripped@) == trim_start(stripped@.skip(lo as int)),
        decreases stripped.len() - lo,
    {
        assert(stripped@.skip(lo as int).drop_first() =~= stripped@.skip(lo + 1));
        lo += 1;
    }
    let mid = copy_range(&stripped, lo, stripped.len());
    assert(mid@ =~= stripped@.skip(lo as int));
    assert(mid@ == trim_start(stripped@));
    let mut hi: usize = mid.len();
    assert(mid@.take(hi as int) =~= mid@);
    while hi > 0 && char_is_space(mid[hi - 1])
        invariant
            hi <= mid.len(),
            trim_end(mid@) == trim_end(mid@.take(hi as int)),
        decreases hi,
    {
        assert(mid@.take(hi as int).drop_last() =~= mid@.take(hi - 1));
        hi -= 1;
    }
    assert(mid@.take(hi as int) == normalized(version@));
    let mut name = String::from_str(CACHE_DIR_PREFIX);
    if hi == 0 {
        name.append(EMPTY_VERSION_NAME);
        return name;
    }
    let ghost kept = mid@.take(hi as int);
    let mut i: usize = 0;
    while i < hi
        invariant
            i <= hi <= mid.len(),
            kept == mid@.take(hi as int),
            name@ == CACHE_DIR_PREFIX@ + sanitized(kept).take(i as int),
        decreases hi - i,
    {
        let c = mid[i];
        let keep = char_is_alnum(c) || c == '.' || c == '_' || c == '-';
        name.push(if keep { c } else { '_' });
        assert(sanitized(kept).take(i + 1) =~= sanitized(kept).take(i as int).push(
            name_char(c),
        ));
        i += 1;
        assert(name@ =~= CACHE_DIR_PREFIX@ + sanitized(kept).take(i as int));
    }
    assert(sanitized(kept).take(hi as int) =~= sanitized(kept));
    name
}

/// Where no character had to be replaced, the directory name gives the
/// normalized version back: two versions whose normalized forms are not empty
/// and hold only characters that a directory name keeps share a directory
/// only if their normalized forms are the same.
pub proof fn lemma_cache_dir_name_injective(a: Seq<char>, b: Seq<char>)
    requires
        normalized(a).len() > 0,
        normalized(b).len() > 0,
        forall|i: int| 0 <= i < normalized(a).len() ==> is_name_char(#[trigger] normalized(a)[i]),
        forall|i: int| 0 <= i < normalized(b).len() ==> is_name_char(#[trigger] normalized(b)[i]),
        cache_dir_name_of(a) == cache_dir_name_of(b),
    ensures
        normalized(a) == normalized(b),
{
    let p = CACHE_DIR_PREFIX@;
    let x = normalized(a);
    let y = normalized(b);
    assert(sanitized(x) =~= x);
    assert(sanitized(y) =~= y);
    assert((p + x).skip(p.len() as int) =~= x);
    assert((p + y).skip(p.len() as int) =~= y);
}

// ---------------------------------------------------------------------------
// Listing and ranking the cached versions
// ---------------------------------------------------------------------------

/// One entry of a directory listing.
#[derive(Clone, Debug, PartialEq, Eq)]
pub struct DirEntry {
    pub name: String,
    pub is_dir: bool,
}

/// The mathematical value of a `DirEntry`.
pub struct DirEntryView {
    pub name: Seq<char>,
    pub is_dir: bool,
}

impl View for DirEntry {
    type V = DirEntryView;

    open spec fn view(&self) -> DirEntryView {
        DirEntryView { name: self.name@, is_dir: self.is_dir }
    }
}

/// A cache directory found in the working directory.
#[derive(Clone, Debug, PartialEq, Eq)]
pub struct CachedVersionDir {
    /// The directory's name.
    pub raw_name: String,
    /// Its path, relative to the working directory.
    pub path: String,
    /// The version that the name carries after the prefix, if it is one.
    pub parsed_semver: Option<Semver>,
}

/// The mathematical value of a `CachedVersionDir`.
pub struct CachedDirView {
    pub raw_name: Seq<char>,
    pub path: Seq<char>,
    pub parsed_semver: Option<SemverView>,
}

impl View for CachedVersionDir {
    type V = CachedDirView;

    open spec fn view(&self) -> CachedDirView {
        CachedDirView {
            raw_name: self.raw_name@,
            path: self.path@,
            parsed_semver: match self.parsed_semver {
                Some(v) => Some(v@),
                None => None,
            },
        }
    }
}

/// The views of the entries of a listing.
pub open spec fn entry_views(entries: Seq<DirEntry>) -> Seq<DirEntryView> {
    entries.map_values(|e: DirEntry| e@)
}

/// The views of a list of cache directories.
pub open spec fn dir_views(dirs: Seq<CachedVersionDir>) -> Seq<CachedDirView> {
    dirs.map_values(|d: CachedVersionDir| d@)
}

/// `entry` is a directory whose name starts with `prefix`.
pub open spec fn is_cache_dir(entry: DirEntryView, prefix: Seq<char>) -> bool {
    entry.is_dir && has_prefix(entry.name, prefix)
}

/// What is known of the cache directory called `name`.
pub open spec fn cached_dir_of(name: Seq<char>, prefix: Seq<char>) -> CachedDirView {
    CachedDirView {
        raw_name: name,
        path: name,
        parsed_semver: parse_spec(name.skip(prefix.len() as int)),
    }
}

/// The cache directories among `entries`, in the order of the listing.
pub open spec fn cached_dirs(entries: Seq<DirEntryView>, prefix: Seq<char>) -> Seq<CachedDirView>
    decreases entries.len(),
{
    if entries.len() == 0 {
        Seq::empty()
    } else if is_cache_dir(entries.last(), prefix) {
        cached_dirs(entries.drop_last(), prefix).push(cached_dir_of(entries.last().name, prefix))
    } else {
        cached_dirs(entries.drop_last(), prefix)
    }
}

/// `x` is tried before `y`: a directory with a version before one without;
/// among those with a version the higher version first; where that does not
/// decide, the name that is lexicographically greater first.
pub open spec fn ranks_before(x: CachedDirView, y: CachedDirView) -> bool {
    match (x.parsed_semver, y.parsed_semver) {
        (Some(a), Some(b)) => precedes(b, a) || (!precedes(a, b) && lex_lt(
            y.raw_name,
            x.raw_name,
        )),
        (Some(_), None) => true,
        (None, Some(_)) => false,
        (None, None) => lex_lt(y.raw_name, x.raw_name),
    }
}

/// No directory of `dirs` comes after one that it ranks before.
pub open spec fn is_ranked(dirs: Seq<CachedDirView>) -> bool {
    forall|i: int, j: int| 0 <= i < j < dirs.len() ==> !ranks_before(dirs[j], dirs[i])
}

/// Of two directories at most one ranks before the other.
pub proof fn lemma_ranks_asymmetric(x: CachedDirView, y: CachedDirView)
    ensures
        ranks_before(x, y) ==> !ranks_before(y, x),
{
    lemma_lex_asymmetric(x.raw_name, y.raw_name);
    lemma_lex_asymmetric(y.raw_name, x.raw_name);
    if let (Some(a), Some(b)) = (x.parsed_semver, y.parsed_semver) {
        lemma_precedes_asymmetric(a, b);
        lemma_precedes_asymmetric(b, a);
    }
}

/// Ranking before is transitive.
pub proof fn lemma_ranks_transitive(x: CachedDirView, y: CachedDirView, z: CachedDirView)
    requires
        ranks_before(x, y),
        ranks_before(y, z),
    ensures
        ranks_before(x, z),
{
    lemma_lex_cotransitive(z.raw_name, x.raw_name, y.raw_name);
    lemma_lex_asymmetric(y.raw_name, x.raw_name);
    if let (Some(a), Some(b), Some(c)) = (x.parsed_semver, y.parsed_semver, z.parsed_semver) {
        lemma_precedes_cotransitive(c, b, a);
        lemma_precedes_cotransitive(a, b, c);
        lemma_precedes_cotransitive(c, a, b);
        lemma_precedes_cotransitive(b, c, a);
        lemma_precedes_cotransitive(a, c, b);
        lemma_precedes_cotransitive(b, a, c);
        lemma_precedes_asymmetric(a, b);
        lemma_precedes_asymmetric(b, c);
        lemma_precedes_asymmetric(a, c);
    }
}

/// Whether `x` is tried before `y`.
pub fn dir_ranks_before(x: &CachedVersionDir, y: &CachedVersionDir) -> (r: bool)
    ensures
        r == ranks_before(x@, y@),
{
    match (&x.parsed_semver, &y.parsed_semver) {
        (Some(a), Some(b)) => {
            if is_lower(b, a) {
                true
            } else if is_lower(a, b) {
                false
            } else {
                chars_lt(&to_chars(y.raw_name.as_str()), &to_chars(x.raw_name.as_str()))
            }
        },
        (Some(_), None) => true,
        (None, Some(_)) => false,
        (None, None) => chars_lt(&to_chars(y.raw_name.as_str()), &to_chars(x.raw_name.as_str())),
    }
}

/// Puts `dir` into the ranked list `dirs`, behind every directory that it
/// does not rank before.
pub fn insert_ranked(dirs: &mut Vec<CachedVersionDir>, dir: CachedVersionDir)
    requires
        is_ranked(dir_views(old(dirs)@)),
    ensures
        is_ranked(dir_views(final(dirs)@)),
        dir_views(final(dirs)@).to_multiset() == dir_views(old(dirs)@).to_multiset().insert(dir@),
        final(dirs)@.len() == old(dirs)@.len() + 1,
{
    let ghost before = dir_views(dirs@);
    let mut pos: usize = 0;
    while pos < dirs.len() && !dir_ranks_before(&dir, &dirs[pos])
        invariant
            pos <= dirs.len(),
            dirs@ == old(dirs)@,
            before == dir_views(dirs@),
            forall|k: int| 0 <= k < pos ==> !ranks_before(dir@, #[trigger] before[k]),
        decreases dirs.len() - pos,
    {
        assert(before[pos as int] == dirs@[pos as int]@);
        pos += 1;
    }
    let ghost item = dir@;
    proof {
        if pos < dirs.len() {
            assert(before[pos as int] == dirs@[pos as int]@);
            assert(ranks_before(item, before[pos as int]));
        }
    }
    dirs.insert(pos, dir);
    proof {
        let after = dir_views(dirs@);
        assert(after =~= before.insert(pos as int, item));
        vstd::seq_lib::to_multiset_insert(before, pos as int, item);
        assert forall|i: int, j: int| 0 <= i < j < after.len() implies !ranks_before(
            after[j],
            after[i],
        ) by {
            if j == pos {
                assert(after[i] == before[i]);
            } else if i == pos {
                assert(after[j] == before[j - 1]);
                if ranks_before(after[j], item) {
                    lemma_ranks_transitive(after[j], item, before[pos as int]);
                    lemma_ranks_asymmetric(before[pos as int], before[pos as int]);
                }
            } else {
                let bi = if i < pos { i } else { i - 1 };
                let bj = if j < pos { j } else { j - 1 };
                assert(after[i] == before[bi]);
                assert(after[j] == before[bj]);
            }
        }
    }
}

/// The cache directories among `entries` (the listing of the working
/// directory), best candidate first.
pub fn list_cached_versions(entries: &Vec<DirEntry>, prefix: &str) -> (dirs: Vec<CachedVersionDir>)
    ensures
        is_ranked(dir_views(dirs@)),
        dir_views(dirs@).to_multiset() == cached_dirs(entry_views(entries@), prefix@).to_multiset(),
        dirs@.len() == cached_dirs(entry_views(entries@), prefix@).len(),
{
    let prefix_chars = to_chars(prefix);
    let ghost all = entry_views(entries@);
    let mut dirs: Vec<CachedVersionDir> = Vec::new();
    let mut i: usize = 0;
    assert(all.take(0) =~= Seq::<DirEntryView>::empty());
    assert(dir_views(dirs@) =~= Seq::<CachedDirView>::empty());
    while i < entries.len()
        invariant
            i <= entries.len(),
            all == entry_views(entries@),
            prefix_chars@ == prefix@,
            is_ranked(dir_views(dirs@)),
            dir_views(dirs@).to_multiset() == cached_dirs(
                all.take(i as int),
                prefix@,
            ).to_multiset(),
            dirs@.len() == cached_dirs(all.take(i as int), prefix@).len(),
        decreases entries.len() - i,
    {
        let entry = &entries[i];
        let name_chars = to_chars(entry.name.as_str());
        proof {
            assert(all.take(i + 1).drop_last() =~= all.take(i as int));
            assert(all.take(i + 1).last() == entry@);
        }
        if entry.is_dir && starts_with(&name_chars, &prefix_chars) {
            let suffix = string_of(&name_chars, prefix_chars.len(), name_chars.len());
            assert(suffix@ =~= entry.name@.skip(prefix@.len() as int));
            let dir = CachedVersionDir {
                raw_name: entry.name.clone(),
                path: entry.name.clone(),
                parsed_semver: parse(suffix.as_str()),
            };
            assert(dir@ == cached_dir_of(entry.name@, prefix@));
            proof {
                vstd::seq_lib::to_multiset_build(
                    cached_dirs(all.take(i as int), prefix@),
                    dir@,
                );
            }
            insert_ranked(&mut dirs, dir);
        }
        i += 1;
    }
    assert(all.take(entries.len() as int) =~= all);
    dirs
}

/// The names that `prune` removes: every cache directory but `keep`.
pub open spec fn prune_targets_of(
    entries: Seq<DirEntryView>,
    prefix: Seq<char>,
    keep: Seq<char>,
) -> Seq<Seq<char>>
    decreases entries.len(),
{
    if entries.len() == 0 {
        Seq::empty()
    } else if is_cache_dir(entries.last(), prefix) && entries.last().name != keep {
        prune_targets_of(entries.drop_last(), prefix, keep).push(entries.last().name)
    } else {
        prune_targets_of(entries.drop_last(), prefix, keep)
    }
}

/// The directories to delete so that, of the cache directories among
/// `entries`, only `keep_name` stays. They come in the order of the listing.
pub fn prune_targets(entries: &Vec<DirEntry>, prefix: &str, keep_name: &str) -> (names: Vec<String>)
    ensures
        string_views(names@) == prune_targets_of(entry_views(entries@), prefix@, keep_name@),
{
    let prefix_chars = to_chars(prefix);
    let keep_chars = to_chars(keep_name);
    let ghost all = entry_views(entries@);
    let mut names: Vec<String> = Vec::new();
    let mut i: usize = 0;
    assert(all.take(0) =~= Seq::<DirEntryView>::empty());
    assert(string_views(names@) =~= Seq::<Seq<char>>::empty());
    while i < entries.len()
        invariant
            i <= entries.len(),
            all == entry_views(entries@),
            prefix_chars@ == prefix@,
            keep_chars@ == keep_name@,
            string_views(names@) == prune_targets_of(all.take(i as int), prefix@, keep_name@),
        decreases entries.len() - i,
    {
        let entry = &entries[i];
        let name_chars = to_chars(entry.name.as_str());
        proof {
            assert(all.take(i + 1).drop_last() =~= all.take(i as int));
            assert(all.take(i + 1).last() == entry@);
        }
        if entry.is_dir && starts_with(&name_chars, &prefix_chars) && !same_chars(
            &name_chars,
            &keep_chars,
        ) {
            let ghost before = string_views(names@);
            names.push(entry.name.clone());
            assert(string_views(names@) =~= before.push(entry.name@));
        }
        i += 1;
    }
    assert(all.take(entries.len() as int) =~= all);
    names
}

} // verus!
