//! The ancestor walk that picks the root of a package tree.
//!
//! The caller reports, for every ancestor directory of the start
//! directory (nearest first), whether a manifest file is there and what
//! it holds. The walk ranks each one: the first workspace manifest wins
//! outright; otherwise the last (topmost) named package wins; otherwise
//! there is no root and the caller falls back to the start directory.
//! A manifest that cannot be read or parsed is treated as absent: no
//! failure during the walk is ever fatal to it.

use vstd::prelude::*;

use crate::codec::toml_doc;
use crate::manifest::{spec_package_name, spec_workspace, CargoManifest, ManifestClass};

verus! {

/// What the caller found at one ancestor directory.
pub enum ManifestProbe {
    /// No manifest file in this directory.
    Absent,
    /// A manifest file is there but could not be read; it is treated as
    /// absent and the walk continues.
    Unreadable,
    /// The manifest file's text.
    Found(String),
}

/// How one probe steers the walk.
#[derive(Clone, Copy, PartialEq, Eq, Structural, Debug)]
pub enum WalkStep {
    /// A workspace manifest: its directory is the root; stop at once.
    Stop,
    /// A package manifest: a candidate root, superseded by any candidate
    /// or workspace found further up.
    Candidate,
    /// No manifest, or one that cannot be read or parsed: walk on.
    Skip,
}

/// The step a probe induces: manifests that cannot be read or do not
/// parse are treated as absent, never fatal to the walk.
pub open spec fn spec_step(p: ManifestProbe) -> WalkStep {
    match p {
        ManifestProbe::Absent => WalkStep::Skip,
        ManifestProbe::Unreadable => WalkStep::Skip,
        ManifestProbe::Found(text) => match toml_doc(text@) {
            None => WalkStep::Skip,
            Some(m) => if spec_workspace(m) {
                WalkStep::Stop
            } else if spec_package_name(m) is Some {
                WalkStep::Candidate
            } else {
                WalkStep::Skip
            },
        },
    }
}

/// The walk from position `i` on, with `cand` the best candidate found
/// so far.
pub open spec fn resolve_from(ps: Seq<ManifestProbe>, i: int, cand: Option<int>) -> Option<int>
    decreases ps.len() - i,
{
    if i < 0 || i >= ps.len() {
        cand
    } else {
        match spec_step(ps[i]) {
            WalkStep::Stop => Some(i),
            WalkStep::Candidate => resolve_from(ps, i + 1, Some(i)),
            WalkStep::Skip => resolve_from(ps, i + 1, cand),
        }
    }
}

/// The position of the probe whose directory anchors the tree, if any.
pub open spec fn spec_resolve(ps: Seq<ManifestProbe>) -> Option<int> {
    resolve_from(ps, 0, None)
}

/// Runs the walk over the probes, nearest ancestor first, and returns
/// the position of the chosen root's probe.
pub fn resolve_root(probes: &Vec<ManifestProbe>) -> (r: Option<usize>)
    ensures
        match r {
            Some(i) => i < probes@.len() && spec_resolve(probes@) == Some(i as int),
            None => spec_resolve(probes@) is None,
        },
{
    let n = probes.len();
    let mut cand: Option<usize> = None;
    let mut i: usize = 0;
    while i < n
        invariant
            n == probes@.len(),
            i <= n,
            spec_resolve(probes@) == resolve_from(
                probes@,
                i as int,
                match cand {
                    Some(c) => Some(c as int),
                    None => None::<int>,
                },
            ),
            cand matches Some(c) ==> c < n,
        decreases n - i,
    {
        match &probes[i] {
            ManifestProbe::Absent => {},
            ManifestProbe::Unreadable => {},
            ManifestProbe::Found(text) => {
                match CargoManifest::from_str(text.as_str()) {
                    Ok(m) => {
                        match m.classify() {
                            ManifestClass::Workspace => {
                                return Some(i);
                            },
                            ManifestClass::Package => {
                                cand = Some(i);
                            },
                            ManifestClass::Neither => {},
                        }
                    },
                    Err(_) => {},
                }
            },
        }
        i = i + 1;
    }
    cand
}

/// The walk reaches `w` unchanged where everything before `w` lets it
/// pass, and stops there if `w` is a workspace manifest.
proof fn lemma_resolve_from_reaches(ps: Seq<ManifestProbe>, i: int, cand: Option<int>, w: int)
    requires
        0 <= i <= w < ps.len(),
        spec_step(ps[w]) == WalkStep::Stop,
        forall|j: int|
            i <= j < w ==> (#[trigger] spec_step(ps[j])) == WalkStep::Candidate || spec_step(
                ps[j],
            ) == WalkStep::Skip,
    ensures
        resolve_from(ps, i, cand) == Some(w),
    decreases w - i,
{
    if i < w {
        match spec_step(ps[i]) {
            WalkStep::Candidate => lemma_resolve_from_reaches(ps, i + 1, Some(i), w),
            WalkStep::Skip => lemma_resolve_from_reaches(ps, i + 1, cand, w),
            _ => {},
        }
    }
}

/// Law: in a tree with a workspace manifest above the start directory,
/// the walk picks exactly that workspace manifest's position, no matter
/// how many package manifests sit in between.
pub proof fn lemma_resolve_stops_at_workspace(ps: Seq<ManifestProbe>, w: int)
    requires
        0 <= w < ps.len(),
        spec_step(ps[w]) == WalkStep::Stop,
        forall|j: int|
            0 <= j < w ==> (#[trigger] spec_step(ps[j])) == WalkStep::Candidate || spec_step(
                ps[j],
            ) == WalkStep::Skip,
    ensures
        spec_resolve(ps) == Some(w),
{
    lemma_resolve_from_reaches(ps, 0, None, w);
}

/// The topmost candidate from position `i` on.
pub open spec fn last_candidate(ps: Seq<ManifestProbe>, i: int) -> Option<int>
    decreases ps.len() - i,
{
    if i < 0 || i >= ps.len() {
        None
    } else {
        let rest = last_candidate(ps, i + 1);
        if rest is Some {
            rest
        } else if spec_step(ps[i]) == WalkStep::Candidate {
            Some(i)
        } else {
            None
        }
    }
}

/// What `last_candidate` finds is a candidate with none above it.
proof fn lemma_last_candidate(ps: Seq<ManifestProbe>, i: int)
    requires
        0 <= i,
    ensures
        match last_candidate(ps, i) {
            Some(w) => i <= w < ps.len() && spec_step(ps[w]) == WalkStep::Candidate && forall|
                j: int,
            |
                w < j < ps.len() ==> (#[trigger] spec_step(ps[j])) != WalkStep::Candidate,
            None => forall|j: int|
                i <= j < ps.len() ==> (#[trigger] spec_step(ps[j])) != WalkStep::Candidate,
        },
    decreases ps.len() - i,
{
    if i < ps.len() {
        lemma_last_candidate(ps, i + 1);
    }
}

/// Without workspace manifests, the walk returns the topmost candidate,
/// or the candidate it came in with.
proof fn lemma_resolve_from_no_stop(ps: Seq<ManifestProbe>, i: int, cand: Option<int>)
    requires
        0 <= i,
        forall|j: int|
            i <= j < ps.len() ==> (#[trigger] spec_step(ps[j])) == WalkStep::Candidate
                || spec_step(ps[j]) == WalkStep::Skip,
    ensures
        resolve_from(ps, i, cand) == match last_candidate(ps, i) {
            Some(w) => Some(w),
            None => cand,
        },
    decreases ps.len() - i,
{
    if i < ps.len() {
        match spec_step(ps[i]) {
            WalkStep::Candidate => lemma_resolve_from_no_stop(ps, i + 1, Some(i)),
            WalkStep::Skip => lemma_resolve_from_no_stop(ps, i + 1, cand),
            _ => {},
        }
        lemma_last_candidate(ps, i + 1);
    }
}

/// Law: in a tree whose ancestor chain holds only package-declaring (or
/// absent) manifests, the walk picks the topmost package manifest's
/// position: a candidate with no candidate above it.
pub proof fn lemma_resolve_topmost_package(ps: Seq<ManifestProbe>)
    requires
        forall|j: int|
            0 <= j < ps.len() ==> (#[trigger] spec_step(ps[j])) == WalkStep::Candidate
                || spec_step(ps[j]) == WalkStep::Skip,
        exists|j: int| 0 <= j < ps.len() && (#[trigger] spec_step(ps[j])) == WalkStep::Candidate,
    ensures
        spec_resolve(ps) matches Some(w) && spec_step(ps[w]) == WalkStep::Candidate && forall|
            j: int,
        |
            w < j < ps.len() ==> (#[trigger] spec_step(ps[j])) != WalkStep::Candidate,
{
    lemma_resolve_from_no_stop(ps, 0, None);
    lemma_last_candidate(ps, 0);
}

/// Law: in a tree with no usable manifest anywhere above the start
/// directory, the walk yields no candidate at all, and the caller's
/// fallback (the start directory itself) is used.
pub proof fn lemma_resolve_nothing(ps: Seq<ManifestProbe>)
    requires
        forall|j: int| 0 <= j < ps.len() ==> (#[trigger] spec_step(ps[j])) == WalkStep::Skip,
    ensures
        spec_resolve(ps) is None,
{
    lemma_resolve_from_no_stop(ps, 0, None);
    lemma_last_candidate(ps, 0);
}

} // verus!
