//! The release catalog and the build store, held in memory.
//!
//! Releases are kept most recent version first. Each release holds its
//! builds in the order in which they were started, and a build gets its id
//! from one counter for the whole catalog, so within a release the ids grow.

use crate::record::{build_views, text_view, time_view, Build, BuildStatus, BuildView};
use crate::text::{alike, same_text, texts_alike};
use crate::version::{admits, is_exact_version, semver_newer, ReqVersion, ReqVersionView, Version};
use vstd::prelude::*;
use vstd::string::StringExecFns;

verus! {

/// Whether `i` is the first place of `s` at which `p` holds.
pub open spec fn is_first<A>(s: Seq<A>, p: spec_fn(A) -> bool, i: int) -> bool {
    &&& 0 <= i < s.len()
    &&& p(s[i])
    &&& forall|j: int| 0 <= j < i ==> !p(#[trigger] s[j])
}

/// The first place of `s` at which `p` holds, if there is one.
pub open spec fn first_index<A>(s: Seq<A>, p: spec_fn(A) -> bool) -> Option<int> {
    if exists|i: int| is_first(s, p, i) {
        Some(choose|i: int| is_first(s, p, i))
    } else {
        None
    }
}

/// A place at which `p` holds and before which it does not is the first one.
pub proof fn lemma_first_index_found<A>(s: Seq<A>, p: spec_fn(A) -> bool, i: int)
    requires
        is_first(s, p, i),
    ensures
        first_index(s, p) == Some(i),
{
    let k = choose|k: int| is_first(s, p, k);
    assert(is_first(s, p, k));
    if k < i {
        assert(!p(s[k]));
    }
    if i < k {
        assert(!p(s[i]));
    }
}

/// Where `p` holds nowhere there is no first place.
pub proof fn lemma_first_index_missing<A>(s: Seq<A>, p: spec_fn(A) -> bool)
    requires
        forall|j: int| 0 <= j < s.len() ==> !p(#[trigger] s[j]),
    ensures
        first_index(s, p) is None,
{
}

/// Two sequences on which two tests agree place by place have the same
/// first place.
pub proof fn lemma_first_index_alike<A, B>(
    s: Seq<A>,
    p: spec_fn(A) -> bool,
    t: Seq<B>,
    q: spec_fn(B) -> bool,
)
    requires
        s.len() == t.len(),
        forall|i: int| 0 <= i < s.len() ==> p(#[trigger] s[i]) == q(t[i]),
    ensures
        first_index(s, p) == first_index(t, q),
{
    if exists|i: int| is_first(s, p, i) {
        let i = choose|i: int| is_first(s, p, i);
        assert(q(t[i]));
        assert forall|j: int| 0 <= j < i implies !q(#[trigger] t[j]) by {
            assert(!p(s[j]));
        }
        lemma_first_index_found(t, q, i);
    } else if exists|i: int| is_first(t, q, i) {
        let i = choose|i: int| is_first(t, q, i);
        assert(p(s[i]));
        assert forall|j: int| 0 <= j < i implies !p(#[trigger] s[j]) by {
            assert(!q(t[j]));
        }
        assert(is_first(s, p, i));
    }
}

/// The test that picks the flags that are set.
pub open spec fn is_set() -> spec_fn(bool) -> bool {
    |flag: bool| flag
}

/// The first place at which a flag is set.
pub fn first_set(flags: &Vec<bool>) -> (at: Option<usize>)
    ensures
        at is Some <==> first_index(flags@, is_set()) is Some,
        at matches Some(i) ==> i < flags@.len() && first_index(flags@, is_set()) == Some(i as int),
{
    let mut i: usize = 0;
    while i < flags.len()
        invariant
            0 <= i <= flags@.len(),
            forall|k: int| 0 <= k < i ==> !is_set()(#[trigger] flags@[k]),
        decreases flags@.len() - i,
    {
        if flags[i] {
            proof {
                lemma_first_index_found(flags@, is_set(), i as int);
            }
            return Some(i);
        }
        i += 1;
    }
    proof {
        lemma_first_index_missing(flags@, is_set());
    }
    None
}

/// What is known of a release when a specifier is resolved: whether it is
/// a shown release of the crate asked for, and whether its version
/// satisfies the specifier.
#[derive(Debug, Clone, Copy, PartialEq, Eq)]
pub struct Candidate {
    pub shown: bool,
    pub admitted: bool,
}

/// The test that picks the shown candidates that satisfy the specifier.
pub open spec fn fits() -> spec_fn(Candidate) -> bool {
    |c: Candidate| c.shown && c.admitted
}

/// The test that picks the shown candidates.
pub open spec fn is_shown() -> spec_fn(Candidate) -> bool {
    |c: Candidate| c.shown
}

/// The place of the candidate that answers: the first one that is shown and
/// satisfies the specifier; where there is none and the most recent release
/// was asked for, the first one that is shown.
pub open spec fn pick(candidates: Seq<Candidate>, wants_latest: bool) -> Option<int> {
    match first_index(candidates, fits()) {
        Some(i) => Some(i),
        None => if wants_latest {
            first_index(candidates, is_shown())
        } else {
            None
        },
    }
}

/// Picks the candidate that answers.
pub fn pick_release(candidates: &Vec<Candidate>, wants_latest: bool) -> (at: Option<usize>)
    ensures
        at is Some <==> pick(candidates@, wants_latest) is Some,
        at matches Some(i) ==> i < candidates@.len() && pick(candidates@, wants_latest) == Some(
            i as int,
        ),
{
    let mut i: usize = 0;
    while i < candidates.len()
        invariant
            0 <= i <= candidates@.len(),
            forall|k: int| 0 <= k < i ==> !fits()(#[trigger] candidates@[k]),
        decreases candidates@.len() - i,
    {
        if candidates[i].shown && candidates[i].admitted {
            proof {
                lemma_first_index_found(candidates@, fits(), i as int);
            }
            return Some(i);
        }
        i += 1;
    }
    proof {
        lemma_first_index_missing(candidates@, fits());
    }
    if !wants_latest {
        return None;
    }
    let mut i: usize = 0;
    while i < candidates.len()
        invariant
            0 <= i <= candidates@.len(),
            first_index(candidates@, fits()) is None,
            wants_latest,
            forall|k: int| 0 <= k < i ==> !is_shown()(#[trigger] candidates@[k]),
        decreases candidates@.len() - i,
    {
        if candidates[i].shown {
            proof {
                lemma_first_index_found(candidates@, is_shown(), i as int);
            }
            return Some(i);
        }
        i += 1;
    }
    proof {
        lemma_first_index_missing(candidates@, is_shown());
    }
    None
}

/// A release as mathematics: the crate's name, the version's text and the
/// builds in the order in which they were started.
pub struct ReleaseView {
    pub name: Seq<char>,
    pub version: Seq<char>,
    pub builds: Seq<BuildView>,
}

/// The test that picks the finished builds.
pub open spec fn finished() -> spec_fn(BuildView) -> bool {
    |b: BuildView| b.finished()
}

/// The builds that are shown: those that have ended, latest first.
pub open spec fn newest_first(builds: Seq<BuildView>) -> Seq<BuildView> {
    builds.filter(finished()).reverse()
}

/// Whether the ids grow along the sequence.
pub open spec fn ascending(builds: Seq<BuildView>) -> bool {
    forall|i: int, j: int| 0 <= i < j < builds.len() ==> builds[i].id < builds[j].id
}

/// Whether the ids fall along the sequence.
pub open spec fn descending(builds: Seq<BuildView>) -> bool {
    forall|i: int, j: int| 0 <= i < j < builds.len() ==> builds[i].id > builds[j].id
}

/// The test that picks the release of a crate with a version.
pub open spec fn is_release(name: Seq<char>, version: Seq<char>) -> spec_fn(ReleaseView) -> bool {
    |r: ReleaseView| r.name == name && r.version == version
}

/// Whether a release has a build that has ended. A release without one is
/// not shown and answers to no specifier.
pub open spec fn visible(r: ReleaseView) -> bool {
    exists|i: int| 0 <= i < r.builds.len() && (#[trigger] r.builds[i]).finished()
}

/// The test that picks the shown releases of a crate that satisfy a
/// specifier. The crate's name is matched without regard to case.
pub open spec fn candidate(name: Seq<char>, req: ReqVersionView) -> spec_fn(ReleaseView) -> bool {
    |r: ReleaseView| alike(r.name, name) && visible(r) && admits(req, r.version)
}

/// The test that picks the shown releases of a crate. The crate's name is
/// matched without regard to case.
pub open spec fn shown(name: Seq<char>) -> spec_fn(ReleaseView) -> bool {
    |r: ReleaseView| alike(r.name, name) && visible(r)
}

/// The place of the release that answers to a specifier: the first shown
/// release of the crate that satisfies it; where none does and the most
/// recent release was asked for, the first shown release of the crate.
pub open spec fn resolve(releases: Seq<ReleaseView>, name: Seq<char>, req: ReqVersionView) -> Option<
    int,
> {
    match first_index(releases, candidate(name, req)) {
        Some(i) => Some(i),
        None => if req.wants_latest() {
            first_index(releases, shown(name))
        } else {
            None
        },
    }
}

/// What the catalog answers to a specifier: the version of the release of
/// [`resolve`], and its spelling of the crate's name where that is not the
/// spelling asked for.
pub open spec fn lookup(releases: Seq<ReleaseView>, name: Seq<char>, req: ReqVersionView) -> Option<
    MatchedReleaseView,
> {
    match resolve(releases, name, req) {
        Some(i) => Some(
            MatchedReleaseView {
                corrected_name: if releases[i].name == name {
                    None
                } else {
                    Some(releases[i].name)
                },
                version: releases[i].version,
            },
        ),
        None => None,
    }
}

/// The build history of a release: its finished builds, latest first; empty
/// where the catalog has no such release.
pub open spec fn build_history(releases: Seq<ReleaseView>, name: Seq<char>, version: Seq<char>) -> Seq<
    BuildView,
> {
    match first_index(releases, is_release(name, version)) {
        Some(i) => newest_first(releases[i].builds),
        None => Seq::empty(),
    }
}

/// Whether the catalog holds the release of a crate with a version.
pub open spec fn holds_release(releases: Seq<ReleaseView>, name: Seq<char>, version: Seq<char>) -> bool {
    first_index(releases, is_release(name, version)) is Some
}

/// What holds of every catalog: within a release the ids of the builds
/// grow, no release is filed twice, and every version is an exact version.
pub open spec fn well_formed(releases: Seq<ReleaseView>) -> bool {
    &&& forall|i: int| 0 <= i < releases.len() ==> ascending((#[trigger] releases[i]).builds)
    &&& forall|i: int, j: int|
        0 <= i < j < releases.len() ==> !((#[trigger] releases[i]).name == (
        #[trigger] releases[j]).name && releases[i].version == releases[j].version)
    &&& forall|i: int|
        0 <= i < releases.len() ==> is_exact_version((#[trigger] releases[i]).version)
}

/// The test that picks the releases before which a new release of the given
/// version is filed: those whose version is not greater than it.
pub open spec fn not_newer_than(version: Seq<char>) -> spec_fn(ReleaseView) -> bool {
    |r: ReleaseView| !semver_newer(r.version, version)
}

/// The place at which a new release is filed.
pub open spec fn filing_place(releases: Seq<ReleaseView>, version: Seq<char>) -> int {
    match first_index(releases, not_newer_than(version)) {
        Some(i) => i,
        None => releases.len() as int,
    }
}

/// Picking the finished builds keeps the ids growing, and picks nothing
/// that was not there.
pub proof fn lemma_finished_ascending(builds: Seq<BuildView>)
    requires
        ascending(builds),
    ensures
        ascending(builds.filter(finished())),
        forall|i: int|
            0 <= i < builds.filter(finished()).len() ==> builds.contains(
                #[trigger] builds.filter(finished())[i],
            ) && builds.filter(finished())[i].finished(),
    decreases builds.len(),
{
    reveal(Seq::filter);
    if builds.len() > 0 {
        let rest = builds.drop_last();
        let last = builds.last();
        assert(ascending(rest));
        lemma_finished_ascending(rest);
        let kept = rest.filter(finished());
        assert forall|i: int| 0 <= i < kept.len() implies builds.contains(#[trigger] kept[i])
            && kept[i].id < last.id by {
            assert(rest.contains(kept[i]));
            let k = choose|k: int| 0 <= k < rest.len() && rest[k] == kept[i];
            assert(builds[k] == kept[i]);
        }
        assert(builds[builds.len() - 1] == last);
    }
}

/// The shown builds of a release come latest first, and none of them is
/// still running.
pub proof fn lemma_newest_first(builds: Seq<BuildView>)
    requires
        ascending(builds),
    ensures
        descending(newest_first(builds)),
        forall|i: int|
            0 <= i < newest_first(builds).len() ==> (#[trigger] newest_first(builds)[i]).finished(),
{
    lemma_finished_ascending(builds);
    let kept = builds.filter(finished());
    let shown = newest_first(builds);
    assert forall|i: int| 0 <= i < shown.len() implies (#[trigger] shown[i]).finished() by {
        assert(shown[i] == kept[kept.len() - 1 - i]);
    }
    assert forall|i: int, j: int| 0 <= i < j < shown.len() implies shown[i].id > shown[j].id by {
        assert(shown[i] == kept[kept.len() - 1 - i]);
        assert(shown[j] == kept[kept.len() - 1 - j]);
    }
}

/// A release of a crate, with the builds made of it.
#[derive(Debug)]
pub struct Release {
    name: String,
    version: Version,
    builds: Vec<Build>,
}

impl View for Release {
    type V = ReleaseView;

    closed spec fn view(&self) -> ReleaseView {
        ReleaseView { name: self.name@, version: self.version@, builds: build_views(self.builds@) }
    }
}

/// What the catalog found for a specifier: the version of the release, and
/// the stored spelling of the crate's name where the request spelled it
/// otherwise.
#[derive(Debug, PartialEq, Eq)]
pub struct MatchedRelease {
    pub corrected_name: Option<String>,
    pub version: Version,
}

/// What the catalog found, as mathematics.
pub struct MatchedReleaseView {
    pub corrected_name: Option<Seq<char>>,
    pub version: Seq<char>,
}

impl View for MatchedRelease {
    type V = MatchedReleaseView;

    open spec fn view(&self) -> MatchedReleaseView {
        MatchedReleaseView {
            corrected_name: text_view(self.corrected_name),
            version: self.version@,
        }
    }
}

/// The releases of all crates and their builds.
#[derive(Debug)]
pub struct Catalog {
    releases: Vec<Release>,
    next_id: i32,
}

impl View for Catalog {
    type V = Seq<ReleaseView>;

    closed spec fn view(&self) -> Seq<ReleaseView> {
        self.releases@.map_values(|r: Release| r@)
    }
}

/// Whether the ids of a release's builds stay under the next id to hand out.
spec fn ids_below(r: ReleaseView, next_id: int) -> bool {
    forall|i: int| 0 <= i < r.builds.len() ==> (#[trigger] r.builds[i]).id < next_id
}

/// Whether some build of the list has ended.
fn has_finished_build(builds: &Vec<Build>) -> (b: bool)
    ensures
        b == exists|i: int|
            0 <= i < builds@.len() && (#[trigger] build_views(builds@)[i]).finished(),
{
    let mut i: usize = 0;
    while i < builds.len()
        invariant
            0 <= i <= builds@.len(),
            forall|k: int| 0 <= k < i ==> !(#[trigger] build_views(builds@)[k]).finished(),
        decreases builds@.len() - i,
    {
        if !builds[i].build_status.is_in_progress() {
            assert(build_views(builds@)[i as int].finished());
            return true;
        }
        i += 1;
    }
    false
}

/// The finished builds of a list, latest first.
fn finished_newest_first(builds: &Vec<Build>) -> (shown: Vec<Build>)
    ensures
        build_views(shown@) == newest_first(build_views(builds@)),
{
    let ghost all = build_views(builds@);
    let mut shown: Vec<Build> = Vec::new();
    let mut i: usize = 0;
    assert(all.take(0) =~= Seq::<BuildView>::empty());
    proof {
        reveal(Seq::filter);
    }
    assert(build_views(shown@) =~= newest_first(all.take(0)));
    while i < builds.len()
        invariant
            0 <= i <= builds@.len(),
            all == build_views(builds@),
            build_views(shown@) == newest_first(all.take(i as int)),
        decreases builds@.len() - i,
    {
        let ghost before = all.take(i as int);
        let ghost kept = before.filter(finished());
        proof {
            assert(all.take(i + 1) =~= before.push(all[i as int]));
            before.lemma_filter_push(all[i as int], finished());
        }
        if !builds[i].build_status.is_in_progress() {
            let ghost old_shown = shown@;
            shown.insert(0, builds[i].clone());
            proof {
                assert(kept.push(all[i as int]).reverse() =~= kept.reverse().insert(
                    0,
                    all[i as int],
                ));
                assert(build_views(shown@) =~= build_views(old_shown).insert(0, all[i as int]));
            }
        }
        i += 1;
    }
    assert(all.take(builds@.len() as int) =~= all);
    shown
}

impl Catalog {
    #[verifier::type_invariant]
    spec fn valid(self) -> bool {
        &&& well_formed(self@)
        &&& forall|r: int| 0 <= r < self@.len() ==> ids_below(#[trigger] self@[r], self.next_id as int)
    }

    /// The id that the next build gets.
    pub closed spec fn next_build_id(&self) -> int {
        self.next_id as int
    }

    /// A catalog without releases; the first build gets the id 1.
    pub fn new() -> (catalog: Catalog)
        ensures
            catalog@ == Seq::<ReleaseView>::empty(),
            catalog.next_build_id() == 1,
    {
        let catalog = Catalog { releases: Vec::new(), next_id: 1 };
        assert(catalog@ =~= Seq::<ReleaseView>::empty());
        catalog
    }

    /// The place of the release of a crate with a version.
    fn find_release(&self, name: &str, version: &Version) -> (found: Option<usize>)
        ensures
            found is Some <==> first_index(self@, is_release(name@, version@)) is Some,
            found matches Some(at) ==> at < self.releases@.len() && first_index(
                self@,
                is_release(name@, version@),
            ) == Some(at as int),
    {
        let mut i: usize = 0;
        while i < self.releases.len()
            invariant
                0 <= i <= self.releases@.len(),
                forall|k: int| 0 <= k < i ==> !is_release(name@, version@)(#[trigger] self@[k]),
            decreases self.releases@.len() - i,
        {
            let r = &self.releases[i];
            if same_text(r.name.as_str(), name) && r.version.same(version) {
                proof {
                    lemma_first_index_found(self@, is_release(name@, version@), i as int);
                }
                return Some(i);
            }
            i += 1;
        }
        proof {
            lemma_first_index_missing(self@, is_release(name@, version@));
        }
        None
    }

    /// Whether the catalog holds the release of a crate with a version.
    pub fn has_release(&self, name: &str, version: &Version) -> (b: bool)
        ensures
            b == holds_release(self@, name@, version@),
            b == exists|i: int|
                0 <= i < self@.len() && (#[trigger] self@[i]).name == name@ && self@[i].version
                    == version@,
    {
        let found = self.find_release(name, version);
        proof {
            match first_index(self@, is_release(name@, version@)) {
                Some(i) => {
                    assert(is_first(self@, is_release(name@, version@), i));
                    assert(self@[i].name == name@ && self@[i].version == version@);
                },
                None => {
                    if exists|i: int|
                        0 <= i < self@.len() && (#[trigger] self@[i]).name == name@
                            && self@[i].version == version@ {
                        let i = choose|i: int|
                            0 <= i < self@.len() && (#[trigger] self@[i]).name == name@
                                && self@[i].version == version@;
                        lemma_first_exists(self@, is_release(name@, version@), i);
                    }
                },
            }
        }
        found.is_some()
    }

    /// The release that answers to a specifier, if there is one. The crate's
    /// name is matched without regard to case; where the release spells it
    /// otherwise than the request, the answer gives the stored spelling.
    pub fn match_version(&self, name: &str, req: &ReqVersion) -> (found: Option<MatchedRelease>)
        ensures
            found is Some <==> lookup(self@, name@, req@) is Some,
            found matches Some(m) ==> lookup(self@, name@, req@) == Some(m@),
            resolve(self@, name@, req@) matches Some(i) ==> 0 <= i < self@.len(),
            well_formed(self@),
    {
        proof {
            use_type_invariant(self);
        }
        let mut candidates: Vec<Candidate> = Vec::new();
        let mut i: usize = 0;
        while i < self.releases.len()
            invariant
                0 <= i <= self.releases@.len(),
                candidates@.len() == i,
                forall|k: int|
                    0 <= k < i ==> (#[trigger] candidates@[k]).shown == shown(name@)(self@[k])
                        && candidates@[k].admitted == admits(req@, self@[k].version),
            decreases self.releases@.len() - i,
        {
            let r = &self.releases[i];
            proof {
                assert(self@[i as int] == r@);
                assert(r@.builds.len() == r.builds@.len());
            }
            let c = Candidate {
                shown: texts_alike(r.name.as_str(), name) && has_finished_build(&r.builds),
                admitted: req.admits(&r.version),
            };
            candidates.push(c);
            i += 1;
        }
        proof {
            lemma_first_index_alike(self@, candidate(name@, req@), candidates@, fits());
            lemma_first_index_alike(self@, shown(name@), candidates@, is_shown());
        }
        match pick_release(&candidates, req.wants_latest()) {
            Some(at) => {
                let r = &self.releases[at];
                assert(self@[at as int] == r@);
                let corrected_name = if same_text(r.name.as_str(), name) {
                    None
                } else {
                    Some(r.name.clone())
                };
                Some(MatchedRelease { corrected_name, version: r.version.clone() })
            },
            None => None,
        }
    }

    /// Files a release without builds. Releases are kept most recent first:
    /// the new one goes before the first release whose version is not
    /// greater than its own. A release that the catalog already holds is
    /// not filed again.
    pub fn add_release(&mut self, name: &str, version: &Version) -> (added: bool)
        ensures
            added == first_index(old(self)@, is_release(name@, version@)) is None,
            added ==> final(self)@ == old(self)@.insert(
                filing_place(old(self)@, version@),
                ReleaseView { name: name@, version: version@, builds: Seq::empty() },
            ),
            !added ==> final(self)@ == old(self)@,
            final(self).next_build_id() == old(self).next_build_id(),
    {
        if self.find_release(name, version).is_some() {
            return false;
        }
        let mut not_newer: Vec<bool> = Vec::new();
        let mut i: usize = 0;
        while i < self.releases.len()
            invariant
                0 <= i <= self.releases@.len(),
                not_newer@.len() == i,
                forall|k: int|
                    0 <= k < i ==> #[trigger] not_newer@[k] == not_newer_than(version@)(self@[k]),
            decreases self.releases@.len() - i,
        {
            not_newer.push(!self.releases[i].version.newer_than(version));
            i += 1;
        }
        proof {
            use_type_invariant(&*self);
            lemma_first_index_alike(self@, not_newer_than(version@), not_newer@, is_set());
        }
        let at = match first_set(&not_newer) {
            Some(at) => at,
            None => self.releases.len(),
        };
        let release = Release {
            name: String::from_str(name),
            version: version.clone(),
            builds: Vec::new(),
        };
        assert(release@.builds =~= Seq::<BuildView>::empty());
        let ghost before = self@;
        let ghost after = before.insert(at as int, release@);
        let mut releases: Vec<Release> = Vec::new();
        core::mem::swap(&mut self.releases, &mut releases);
        assert(self@ =~= Seq::<ReleaseView>::empty());
        releases.insert(at, release);
        proof {
            assert(releases@.map_values(|r: Release| r@) =~= after);
            assert forall|i: int, j: int| 0 <= i < j < after.len() implies !((
            #[trigger] after[i]).name == (#[trigger] after[j]).name && after[i].version
                == after[j].version) by {
                let a = if i < at { i } else { i - 1 };
                let b = if j < at { j } else { j - 1 };
                if i != at && j != at {
                    assert(after[i] == before[a] && after[j] == before[b]);
                } else if i == at {
                    assert(after[j] == before[b]);
                    if is_release(name@, version@)(before[b]) {
                        lemma_first_exists(before, is_release(name@, version@), b);
                    }
                } else {
                    assert(after[i] == before[a]);
                    if is_release(name@, version@)(before[a]) {
                        lemma_first_exists(before, is_release(name@, version@), a);
                    }
                }
            }
            assert forall|i: int| 0 <= i < after.len() implies ascending(
                (#[trigger] after[i]).builds,
            ) && is_exact_version(after[i].version) && ids_below(after[i], self.next_id as int) by {
                if i != at {
                    let a = if i < at { i } else { i - 1 };
                    assert(after[i] == before[a]);
                }
            }
        }
        core::mem::swap(&mut self.releases, &mut releases);
        true
    }

    /// Records a build of a release under the id that it carries. It is
    /// refused, and nothing recorded, where the catalog has no such release,
    /// or where the id is not at least the next id to hand out and below the
    /// greatest one: ids are never used twice, and they grow.
    pub fn record_build(&mut self, name: &str, version: &Version, build: Build) -> (recorded: bool)
        ensures
            recorded <==> holds_release(old(self)@, name@, version@) && old(self).next_build_id()
                <= build.id < i32::MAX,
            !recorded ==> final(self)@ == old(self)@ && final(self).next_build_id() == old(
                self,
            ).next_build_id(),
            recorded ==> {
                &&& final(self).next_build_id() == build.id + 1
                &&& first_index(old(self)@, is_release(name@, version@)) matches Some(at)
                &&& 0 <= at < old(self)@.len()
                &&& final(self)@ == old(self)@.update(
                    at,
                    ReleaseView {
                        name: old(self)@[at].name,
                        version: old(self)@[at].version,
                        builds: old(self)@[at].builds.push(build@),
                    },
                )
            },
    {
        let at = match self.find_release(name, version) {
            Some(at) => at,
            None => {
                return false;
            },
        };
        if build.id < self.next_id || build.id == i32::MAX {
            return false;
        }
        proof {
            use_type_invariant(&*self);
        }
        let ghost low = self.next_id as int;
        let n = build.id;
        let ghost before = self@;
        self.next_id = n + 1;
        let mut releases: Vec<Release> = Vec::new();
        core::mem::swap(&mut self.releases, &mut releases);
        assert(self@ =~= Seq::<ReleaseView>::empty());
        let mut release = releases.remove(at);
        let ghost old_release = release@;
        release.builds.push(build);
        releases.insert(at, release);
        proof {
            let after = before.update(at as int, release@);
            assert(old_release == before[at as int]);
            assert(release@.builds =~= old_release.builds.push(build@));
            assert(releases@.map_values(|r: Release| r@) =~= after);
            assert(ids_below(old_release, low));
            assert forall|i: int| 0 <= i < after.len() implies ascending(
                (#[trigger] after[i]).builds,
            ) && is_exact_version(after[i].version) && ids_below(after[i], n + 1) by {
                if i != at {
                    assert(after[i] == before[i]);
                    assert(ids_below(before[i], low));
                } else {
                    assert(ascending(old_release.builds));
                }
            }
            assert forall|i: int, j: int| 0 <= i < j < after.len() implies !((
            #[trigger] after[i]).name == (#[trigger] after[j]).name && after[i].version
                == after[j].version) by {
                assert(after[i].name == before[i].name && after[i].version == before[i].version);
                assert(after[j].name == before[j].name && after[j].version == before[j].version);
            }
        }
        core::mem::swap(&mut self.releases, &mut releases);
        true
    }

    /// Records a new build of a release, under the next id. `None`, and
    /// nothing recorded, where the catalog has no such release or the ids
    /// have run out.
    pub fn add_build(
        &mut self,
        name: &str,
        version: &Version,
        build_status: BuildStatus,
        rustc_version: Option<String>,
        docsrs_version: Option<String>,
        build_time: Option<i64>,
        errors: Option<String>,
    ) -> (id: Option<i32>)
        ensures
            id is Some <==> holds_release(old(self)@, name@, version@) && old(
                self,
            ).next_build_id() < i32::MAX,
            id is None ==> final(self)@ == old(self)@ && final(self).next_build_id() == old(
                self,
            ).next_build_id(),
            id matches Some(n) ==> {
                &&& n == old(self).next_build_id()
                &&& final(self).next_build_id() == n + 1
                &&& first_index(old(self)@, is_release(name@, version@)) matches Some(at)
                &&& 0 <= at < old(self)@.len()
                &&& final(self)@ == old(self)@.update(
                    at,
                    ReleaseView {
                        name: old(self)@[at].name,
                        version: old(self)@[at].version,
                        builds: old(self)@[at].builds.push(
                            BuildView {
                                id: n as int,
                                rustc_version: text_view(rustc_version),
                                docsrs_version: text_view(docsrs_version),
                                build_status,
                                build_time: time_view(build_time),
                                errors: text_view(errors),
                            },
                        ),
                    },
                )
            },
    {
        let n = self.next_id;
        let build = Build { id: n, rustc_version, docsrs_version, build_status, build_time, errors };
        if self.record_build(name, version, build) {
            Some(n)
        } else {
            None
        }
    }

    /// The build history of a release: its finished builds, latest first.
    /// Where the catalog has no such release the history is empty.
    pub fn get_builds(&self, name: &str, version: &Version) -> (history: Vec<Build>)
        ensures
            build_views(history@) == build_history(self@, name@, version@),
            forall|i: int|
                0 <= i < history@.len() ==> (#[trigger] history@[i]).build_status
                    != BuildStatus::InProgress,
            forall|i: int, j: int|
                0 <= i < j < history@.len() ==> (#[trigger] history@[i]).id > (
                #[trigger] history@[j]).id,
            well_formed(self@),
    {
        proof {
            use_type_invariant(self);
        }
        match self.find_release(name, version) {
            Some(at) => {
                let history = finished_newest_first(&self.releases[at].builds);
                proof {
                    use_type_invariant(self);
                    let all = self@[at as int].builds;
                    assert(all == build_views(self.releases@[at as int].builds@));
                    lemma_newest_first(all);
                    assert forall|i: int| 0 <= i < history@.len() implies (
                    #[trigger] history@[i]).build_status != BuildStatus::InProgress by {
                        assert(build_views(history@)[i].finished());
                    }
                    assert forall|i: int, j: int| 0 <= i < j < history@.len() implies (
                    #[trigger] history@[i]).id > (#[trigger] history@[j]).id by {
                        assert(build_views(history@)[i].id > build_views(history@)[j].id);
                    }
                }
                history
            },
            None => {
                let history: Vec<Build> = Vec::new();
                assert(build_views(history@) =~= Seq::<BuildView>::empty());
                history
            },
        }
    }
}

/// Where `p` holds somewhere there is a first place.
pub proof fn lemma_first_exists<A>(s: Seq<A>, p: spec_fn(A) -> bool, i: int)
    requires
        0 <= i < s.len(),
        p(s[i]),
    ensures
        first_index(s, p) is Some,
    decreases i,
{
    if forall|j: int| 0 <= j < i ==> !p(#[trigger] s[j]) {
        assert(is_first(s, p, i));
    } else {
        let j = choose|j: int| 0 <= j < i && p(#[trigger] s[j]);
        lemma_first_exists(s, p, j);
    }
}

} // verus!
