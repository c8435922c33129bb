//! Development builds: a binary that was just built in a checkout of the
//! server next to the working directory. Only people who work on the server
//! have one.

use vstd::prelude::*;
use vstd::string::StringExecFns;
use crate::release::{binary_file_name, binary_file_name_of, Platform};
use crate::text::string_views;

verus! {

broadcast use vstd::string::group_string_axioms;

/// A checkout one level up.
pub const NEAR_CHECKOUT: &'static str = "../css-variable-lsp";

/// A checkout two levels up.
pub const FAR_CHECKOUT: &'static str = "../../css-variable-lsp";

/// Where an optimized build puts its binary, inside a checkout.
pub const RELEASE_PROFILE: &'static str = "/target/release/";

/// Where an unoptimized build puts its binary, inside a checkout.
pub const DEBUG_PROFILE: &'static str = "/target/debug/";

/// A development build found on disk.
#[derive(Clone, Debug, PartialEq, Eq)]
pub struct BuildCandidate {
    pub path: String,
    /// When the file was last modified, in seconds since the epoch.
    pub modified: u64,
}

/// The mathematical value of a `BuildCandidate`.
pub struct BuildCandidateView {
    pub path: Seq<char>,
    pub modified: u64,
}

impl View for BuildCandidate {
    type V = BuildCandidateView;

    open spec fn view(&self) -> BuildCandidateView {
        BuildCandidateView { path: self.path@, modified: self.modified }
    }
}

/// The views of a list of candidates.
pub open spec fn candidate_views(found: Seq<BuildCandidate>) -> Seq<BuildCandidateView> {
    found.map_values(|c: BuildCandidate| c@)
}

/// The places where a development build of the server for `platform` may
/// be: both checkouts, in each the optimized build before the other.
pub open spec fn dev_build_locations_of(platform: Platform) -> Seq<Seq<char>> {
    let name = binary_file_name_of(platform);
    seq![
        NEAR_CHECKOUT@ + RELEASE_PROFILE@ + name,
        NEAR_CHECKOUT@ + DEBUG_PROFILE@ + name,
        FAR_CHECKOUT@ + RELEASE_PROFILE@ + name,
        FAR_CHECKOUT@ + DEBUG_PROFILE@ + name,
    ]
}

fn location(checkout: &str, profile: &str, name: &str) -> (path: String)
    ensures
        path@ == checkout@ + profile@ + name@,
{
    let mut path = String::from_str(checkout);
    path.append(profile);
    path.append(name);
    path
}

/// The places to look at for a development build.
pub fn dev_build_locations(platform: Platform) -> (paths: Vec<String>)
    ensures
        string_views(paths@) == dev_build_locations_of(platform),
{
    let name = binary_file_name(platform);
    let mut paths: Vec<String> = Vec::new();
    paths.push(location(NEAR_CHECKOUT, RELEASE_PROFILE, name.as_str()));
    paths.push(location(NEAR_CHECKOUT, DEBUG_PROFILE, name.as_str()));
    paths.push(location(FAR_CHECKOUT, RELEASE_PROFILE, name.as_str()));
    paths.push(location(FAR_CHECKOUT, DEBUG_PROFILE, name.as_str()));
    assert(string_views(paths@) =~= dev_build_locations_of(platform));
    paths
}

/// Position of the candidate that was modified last; of several modified at
/// the same time, the first.
pub open spec fn newest_index(found: Seq<BuildCandidateView>) -> Option<int>
    decreases found.len(),
{
    if found.len() == 0 {
        None
    } else {
        match newest_index(found.drop_last()) {
            Some(i) => if found.last().modified > found[i].modified {
                Some(found.len() - 1)
            } else {
                Some(i)
            },
            None => Some(found.len() - 1),
        }
    }
}

/// `newest_index` picks a candidate whenever there is one; none was modified
/// later, and none before it was modified as late.
pub proof fn lemma_newest_index(found: Seq<BuildCandidateView>)
    ensures
        found.len() == 0 <==> newest_index(found) is None,
        newest_index(found) matches Some(i) ==> {
            &&& 0 <= i < found.len()
            &&& forall|j: int| 0 <= j < found.len() ==> found[j].modified <= found[i].modified
            &&& forall|j: int| 0 <= j < i ==> found[j].modified < found[i].modified
        },
    decreases found.len(),
{
    if found.len() > 0 {
        let rest = found.drop_last();
        lemma_newest_index(rest);
        match newest_index(rest) {
            Some(k) => {
                let i = newest_index(found)->0;
                assert forall|j: int| 0 <= j < found.len() implies found[j].modified
                    <= found[i].modified by {
                    if j < rest.len() {
                        assert(found[j] == rest[j]);
                    }
                }
                assert forall|j: int| 0 <= j < i implies found[j].modified
                    < found[i].modified by {
                    assert(found[j] == rest[j]);
                }
            },
            None => {},
        }
    }
}

/// The path of the newest of the development builds found.
pub fn newest_build(found: &Vec<BuildCandidate>) -> (path: Option<String>)
    ensures
        match newest_index(candidate_views(found@)) {
            Some(i) => path matches Some(p) && p@ == found@[i].path@,
            None => path is None,
        },
{
    if found.len() == 0 {
        return None;
    }
    let ghost all = candidate_views(found@);
    let mut best: usize = 0;
    let mut i: usize = 1;
    proof {
        assert(all.take(1).drop_last() =~= Seq::<BuildCandidateView>::empty());
        assert(newest_index(all.take(1).drop_last()) is None);
    }
    while i < found.len()
        invariant
            1 <= i <= found.len(),
            best < i,
            all == candidate_views(found@),
            newest_index(all.take(i as int)) == Some(best as int),
        decreases found.len() - i,
    {
        proof {
            assert(all.take(i + 1).drop_last() =~= all.take(i as int));
            assert(all.take(i + 1).last() == found@[i as int]@);
            assert(all.take(i + 1)[best as int] == found@[best as int]@);
        }
        if found[i].modified > found[best].modified {
            best = i;
        }
        i += 1;
    }
    assert(all.take(found.len() as int) =~= all);
    Some(found[best].path.clone())
}

} // verus!
