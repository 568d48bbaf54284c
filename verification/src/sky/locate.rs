//! Finding the `sky` executable.

use vstd::prelude::*;
use crate::sky::rpc::ToolError;

verus! {

/// Where a candidate's path starts.
#[derive(Debug, Clone, Copy, PartialEq, Eq, Structural)]
pub enum SkyBase {
    /// The file that `SKY_BIN` names.
    Explicit,
    /// The directory that `SKY_STANDALONE_ROOT` names.
    StandaloneRoot,
    /// The directory that `SKY_ROOT` names.
    Root,
    WorkingDir,
    /// The `sky` on the search path.
    SearchPath,
    Home,
}

/// A file that may be the executable: `suffix` below `base`, or `base` itself.
#[derive(Debug, Clone, Copy)]
pub struct SkyCandidate {
    pub base: SkyBase,
    pub suffix: &'static str,
}

/// Which bases the environment gives.
#[derive(Debug, Clone, Copy, PartialEq, Eq, Structural)]
pub struct SkyPlaces {
    pub explicit: bool,
    pub standalone_root: bool,
    pub root: bool,
    pub working_dir: bool,
    pub search_path: bool,
    pub home: bool,
}

/// The candidates named outright.
pub open spec fn explicit_candidates(places: SkyPlaces) -> Seq<SkyCandidate> {
    if places.explicit {
        seq![SkyCandidate { base: SkyBase::Explicit, suffix: "" }]
    } else {
        seq![]
    }
}

/// The candidate below the configured root.
pub open spec fn root_candidates(places: SkyPlaces) -> Seq<SkyCandidate> {
    if places.standalone_root {
        seq![SkyCandidate { base: SkyBase::StandaloneRoot, suffix: "bin/sky" }]
    } else if places.root {
        seq![SkyCandidate { base: SkyBase::Root, suffix: "bin/sky" }]
    } else {
        seq![]
    }
}

/// The candidates near the working directory.
pub open spec fn nearby_candidates(places: SkyPlaces) -> Seq<SkyCandidate> {
    if places.working_dir {
        seq![
            SkyCandidate { base: SkyBase::WorkingDir, suffix: "bin/sky" },
            SkyCandidate { base: SkyBase::WorkingDir, suffix: "sky-re/bin/sky" },
            SkyCandidate { base: SkyBase::WorkingDir, suffix: "../sky-re/bin/sky" },
        ]
    } else {
        seq![]
    }
}

/// The candidate on the search path.
pub open spec fn search_path_candidates(places: SkyPlaces) -> Seq<SkyCandidate> {
    if places.search_path {
        seq![SkyCandidate { base: SkyBase::SearchPath, suffix: "" }]
    } else {
        seq![]
    }
}

/// The candidates in the home directory.
pub open spec fn home_candidates(places: SkyPlaces) -> Seq<SkyCandidate> {
    if places.home {
        seq![
            SkyCandidate { base: SkyBase::Home, suffix: "sky-re/bin/sky" },
            SkyCandidate { base: SkyBase::Home, suffix: "code/sky-re/bin/sky" },
            SkyCandidate { base: SkyBase::Home, suffix: "src/sky-re/bin/sky" },
            SkyCandidate { base: SkyBase::Home, suffix: "Projects/sky-re/bin/sky" },
            SkyCandidate { base: SkyBase::Home, suffix: "dev/sky-re/bin/sky" },
        ]
    } else {
        seq![]
    }
}

/// The candidates in the order in which they are tried.
pub open spec fn candidates(places: SkyPlaces) -> Seq<SkyCandidate> {
    explicit_candidates(places) + root_candidates(places) + nearby_candidates(places)
        + search_path_candidates(places) + home_candidates(places)
}

fn push_explicit(r: &mut Vec<SkyCandidate>, places: SkyPlaces)
    ensures
        final(r)@ == old(r)@ + explicit_candidates(places),
{
    if places.explicit {
        r.push(SkyCandidate { base: SkyBase::Explicit, suffix: "" });
    }
    proof {
        assert(r@ =~= old(r)@ + explicit_candidates(places));
    }
}

fn push_root(r: &mut Vec<SkyCandidate>, places: SkyPlaces)
    ensures
        final(r)@ == old(r)@ + root_candidates(places),
{
    if places.standalone_root {
        r.push(SkyCandidate { base: SkyBase::StandaloneRoot, suffix: "bin/sky" });
    } else if places.root {
        r.push(SkyCandidate { base: SkyBase::Root, suffix: "bin/sky" });
    }
    proof {
        assert(r@ =~= old(r)@ + root_candidates(places));
    }
}

fn push_nearby(r: &mut Vec<SkyCandidate>, places: SkyPlaces)
    ensures
        final(r)@ == old(r)@ + nearby_candidates(places),
{
    if places.working_dir {
        r.push(SkyCandidate { base: SkyBase::WorkingDir, suffix: "bin/sky" });
        r.push(SkyCandidate { base: SkyBase::WorkingDir, suffix: "sky-re/bin/sky" });
        r.push(SkyCandidate { base: SkyBase::WorkingDir, suffix: "../sky-re/bin/sky" });
    }
    proof {
        assert(r@ =~= old(r)@ + nearby_candidates(places));
    }
}

fn push_search_path(r: &mut Vec<SkyCandidate>, places: SkyPlaces)
    ensures
        final(r)@ == old(r)@ + search_path_candidates(places),
{
    if places.search_path {
        r.push(SkyCandidate { base: SkyBase::SearchPath, suffix: "" });
    }
    proof {
        assert(r@ =~= old(r)@ + search_path_candidates(places));
    }
}

fn push_home(r: &mut Vec<SkyCandidate>, places: SkyPlaces)
    ensures
        final(r)@ == old(r)@ + home_candidates(places),
{
    if places.home {
        r.push(SkyCandidate { base: SkyBase::Home, suffix: "sky-re/bin/sky" });
        r.push(SkyCandidate { base: SkyBase::Home, suffix: "code/sky-re/bin/sky" });
        r.push(SkyCandidate { base: SkyBase::Home, suffix: "src/sky-re/bin/sky" });
        r.push(SkyCandidate { base: SkyBase::Home, suffix: "Projects/sky-re/bin/sky" });
        r.push(SkyCandidate { base: SkyBase::Home, suffix: "dev/sky-re/bin/sky" });
    }
    proof {
        assert(r@ =~= old(r)@ + home_candidates(places));
    }
}

/// The candidates in the order in which they are tried.
pub fn sky_candidates(places: SkyPlaces) -> (r: Vec<SkyCandidate>)
    ensures
        r@ == candidates(places),
{
    let mut r: Vec<SkyCandidate> = Vec::new();
    push_explicit(&mut r, places);
    proof {
        assert(r@ =~= explicit_candidates(places));
    }
    push_root(&mut r, places);
    push_nearby(&mut r, places);
    push_search_path(&mut r, places);
    push_home(&mut r, places);
    r
}

/// The first candidate that is there, where any is.
pub open spec fn first_present(present: Seq<bool>) -> Option<int>
    decreases present.len(),
{
    if present.len() == 0 {
        None
    } else {
        match first_present(present.drop_last()) {
            Some(i) => Some(i),
            None => if present.last() {
                Some(present.len() - 1)
            } else {
                None
            },
        }
    }
}

/// Picks the executable: the index of the first candidate that is there.
pub fn sky_bin(present: &Vec<bool>) -> (r: Result<usize, ToolError>)
    ensures
        match r {
            Ok(i) => first_present(present@) == Some(i as int),
            Err(error) => first_present(present@) is None && (error matches ToolError::Custom {
                code,
                message,
            } && code@ == "sky_not_found"@ && message@
                == "sky-standalone not found. Clone agustif/sky-re, run examples/setup.sh, set SKY_STANDALONE_ROOT."@),
        },
{
    let mut i: usize = 0;
    while i < present.len()
        invariant
            i <= present@.len(),
            first_present(present@.take(i as int)) is None,
        decreases present@.len() - i,
    {
        proof {
            assert(present@.take(i + 1).drop_last() =~= present@.take(i as int));
        }
        if present[i] {
            proof {
                lemma_first_present_stays(present@, i + 1);
            }
            return Ok(i);
        }
        i = i + 1;
    }
    proof {
        assert(present@.take(i as int) =~= present@);
    }
    Err(
        ToolError::Custom {
            code: "sky_not_found".to_owned(),
            message: "sky-standalone not found. Clone agustif/sky-re, run examples/setup.sh, set SKY_STANDALONE_ROOT.".to_owned(),
        },
    )
}

proof fn lemma_first_present_stays(present: Seq<bool>, k: int)
    requires
        0 <= k <= present.len(),
        first_present(present.take(k)) is Some,
    ensures
        first_present(present) == first_present(present.take(k)),
    decreases present.len() - k,
{
    if k == present.len() {
        assert(present.take(k) =~= present);
    } else {
        assert(present.take(k + 1).drop_last() =~= present.take(k));
        lemma_first_present_stays(present, k + 1);
    }
}

/// What is picked is there, and nothing before it is.
pub proof fn law_earliest_candidate_wins(present: Seq<bool>)
    ensures
        match first_present(present) {
            Some(i) => 0 <= i < present.len() && present[i] && forall|j: int|
                0 <= j < i ==> !present[j],
            None => forall|j: int| 0 <= j < present.len() ==> !present[j],
        },
    decreases present.len(),
{
    if present.len() > 0 {
        law_earliest_candidate_wins(present.drop_last());
        assert forall|j: int| 0 <= j < present.len() - 1 implies present[j]
            == present.drop_last()[j] by {}
        if first_present(present) is None {
            assert forall|j: int| 0 <= j < present.len() implies !present[j] by {
                if j < present.len() - 1 {
                    assert(!present.drop_last()[j]);
                }
            }
        }
    }
}

/// A file named outright is used wherever it is there.
pub proof fn law_explicit_file_wins(places: SkyPlaces, present: Seq<bool>)
    requires
        places.explicit,
        present.len() == candidates(places).len(),
        present[0],
    ensures
        first_present(present) == Some(0int),
        candidates(places)[0].base == SkyBase::Explicit,
{
    law_earliest_candidate_wins(present);
    if first_present(present)->0 > 0 {
        assert(!present[0]);
    }
}

/// The candidates are those of the places that the environment gives: the file
/// named outright, then the configured root, the standalone one before the other,
/// then the working directory, the search path, and the home directory last.
pub proof fn law_candidates_come_in_order(places: SkyPlaces)
    ensures
        candidates(places) == (if places.explicit {
            seq![SkyCandidate { base: SkyBase::Explicit, suffix: "" }]
        } else {
            seq![]
        }) + (if places.standalone_root {
            seq![SkyCandidate { base: SkyBase::StandaloneRoot, suffix: "bin/sky" }]
        } else if places.root {
            seq![SkyCandidate { base: SkyBase::Root, suffix: "bin/sky" }]
        } else {
            seq![]
        }) + (if places.working_dir {
            seq![
                SkyCandidate { base: SkyBase::WorkingDir, suffix: "bin/sky" },
                SkyCandidate { base: SkyBase::WorkingDir, suffix: "sky-re/bin/sky" },
                SkyCandidate { base: SkyBase::WorkingDir, suffix: "../sky-re/bin/sky" },
            ]
        } else {
            seq![]
        }) + (if places.search_path {
            seq![SkyCandidate { base: SkyBase::SearchPath, suffix: "" }]
        } else {
            seq![]
        }) + (if places.home {
            seq![
                SkyCandidate { base: SkyBase::Home, suffix: "sky-re/bin/sky" },
                SkyCandidate { base: SkyBase::Home, suffix: "code/sky-re/bin/sky" },
                SkyCandidate { base: SkyBase::Home, suffix: "src/sky-re/bin/sky" },
                SkyCandidate { base: SkyBase::Home, suffix: "Projects/sky-re/bin/sky" },
                SkyCandidate { base: SkyBase::Home, suffix: "dev/sky-re/bin/sky" },
            ]
        } else {
            seq![]
        }),
{
}

} // verus!
