//! The build listing of a release: which release a request means, whether
//! the request is sent on to another path, and what is shown.

use crate::catalog::{
    build_history, candidate, finished, first_index, is_first, is_release, lemma_first_exists,
    lemma_first_index_found, lemma_first_index_missing, lookup, newest_first, resolve, shown,
    visible, well_formed, Catalog, MatchedRelease, MatchedReleaseView, ReleaseView,
};
use crate::record::{
    api_builds, api_projection, api_views, build_views, ApiBuild, Build, BuildStatus,
};
use crate::response::{CachePolicy, Outage, Rejection, RejectionView};
use crate::text::alike;
use crate::version::{
    admits, is_exact_version, parse_req_version, ReqVersion, ReqVersionView, Version,
};
use vstd::prelude::*;
use vstd::string::StringExecFns;

verus! {

/// The two forms of the build listing.
#[derive(Debug, Clone, Copy, PartialEq, Eq)]
pub enum ListingKind {
    /// The page for people.
    Page,
    /// The feed for programs.
    Json,
}

impl ListingKind {
    /// The last segment of the listing's path.
    pub open spec fn suffix(self) -> Seq<char> {
        match self {
            ListingKind::Page => "builds"@,
            ListingKind::Json => "builds.json"@,
        }
    }

    /// The last segment of the listing's path.
    pub fn suffix_str(&self) -> (s: &'static str)
        ensures
            s@ == self.suffix(),
    {
        match self {
            ListingKind::Page => "builds",
            ListingKind::Json => "builds.json",
        }
    }
}

/// The path of the build listing of a crate under a version specifier.
pub open spec fn listing_path(name: Seq<char>, version: Seq<char>, kind: ListingKind) -> Seq<char> {
    "/crate/"@ + name + "/"@ + version + "/"@ + kind.suffix()
}

/// The path of the build listing of a crate under a version specifier.
pub fn builds_path(name: &str, version: &str, kind: ListingKind) -> (path: String)
    ensures
        path@ == listing_path(name@, version@, kind),
{
    let mut path = String::from_str("/crate/");
    path.append(name);
    path.append("/");
    path.append(version);
    path.append("/");
    path.append(kind.suffix_str());
    path
}

/// What the catalog answered, as mathematics.
pub open spec fn found_view(found: Result<Option<MatchedRelease>, Outage>) -> Result<
    Option<MatchedReleaseView>,
    Outage,
> {
    match found {
        Ok(Some(m)) => Ok(Some(m@)),
        Ok(None) => Ok(None),
        Err(e) => Err(e),
    }
}

/// The version whose builds are listed, or why they are not, given what the
/// catalog answered to the specifier.
///
/// No release is "not found". A release under another spelling of the name
/// is a name mismatch, and the request is sent on to the path that spells
/// the name as it is stored. Otherwise the release is served under its
/// canonical specifier only: a request that was spelled otherwise is sent
/// on to the path with the canonical specifier, and that answer may be kept
/// forever.
pub open spec fn resolution(
    name: Seq<char>,
    requested: ReqVersionView,
    found: Result<Option<MatchedReleaseView>, Outage>,
    kind: ListingKind,
) -> Result<Seq<char>, RejectionView> {
    match found {
        Err(_) => Err(RejectionView::StorageFailure),
        Ok(None) => Err(RejectionView::VersionNotFound),
        Ok(Some(m)) => match m.corrected_name {
            Some(stored) => Err(
                RejectionView::CrateNameMismatch {
                    corrected_name: stored,
                    path: listing_path(stored, requested.text(), kind),
                },
            ),
            None => {
                let canonical = requested.canonical(m.version);
                if canonical == requested {
                    Ok(m.version)
                } else {
                    Err(
                        RejectionView::Redirect {
                            path: listing_path(name, canonical.text(), kind),
                            cache_policy: CachePolicy::ForeverInCdn,
                        },
                    )
                }
            },
        },
    }
}

/// Decides which version's builds are listed, given what the catalog
/// answered to the specifier.
pub fn resolve_listing(
    name: &str,
    requested: &ReqVersion,
    found: Result<Option<MatchedRelease>, Outage>,
    kind: ListingKind,
) -> (r: Result<Version, Rejection>)
    ensures
        match resolution(name@, requested@, found_view(found), kind) {
            Ok(v) => r matches Ok(version) && version@ == v,
            Err(why) => r matches Err(e) && e@ == why,
        },
{
    let matched = match found {
        Err(_) => {
            return Err(Rejection::StorageFailure);
        },
        Ok(None) => {
            return Err(Rejection::VersionNotFound);
        },
        Ok(Some(m)) => m,
    };
    if let Some(stored) = matched.corrected_name {
        let text = requested.to_string();
        let path = builds_path(stored.as_str(), text.as_str(), kind);
        return Err(Rejection::CrateNameMismatch { corrected_name: stored, path });
    }
    let canonical = requested.canonical(&matched.version);
    if canonical.same(requested) {
        Ok(matched.version)
    } else {
        let text = canonical.to_string();
        Err(
            Rejection::Redirect {
                path: builds_path(name, text.as_str(), kind),
                cache_policy: CachePolicy::ForeverInCdn,
            },
        )
    }
}

/// The build listing as a page: the full records, latest first.
#[derive(Debug, PartialEq, Eq)]
pub struct BuildsPage {
    pub builds: Vec<Build>,
    pub canonical_url: String,
    pub use_direct_platform_links: bool,
}

impl BuildsPage {
    /// The status code of the answer.
    pub fn status(&self) -> (code: u16)
        ensures
            code == 200,
    {
        200
    }

    /// The page shows work that changes from one reload to the next, so it
    /// is not cached at all.
    pub fn cache_policy(&self) -> (policy: CachePolicy)
        ensures
            policy == CachePolicy::NoCaching,
    {
        CachePolicy::NoCaching
    }
}

/// The build listing as a feed: the records in their public form, in the
/// order of the history.
#[derive(Debug, PartialEq, Eq)]
pub struct BuildsFeed {
    pub builds: Vec<ApiBuild>,
}

impl BuildsFeed {
    /// The status code of the answer.
    pub fn status(&self) -> (code: u16)
        ensures
            code == 200,
    {
        200
    }

    /// The feed is never stored, and every read asks again.
    pub fn cache_policy(&self) -> (policy: CachePolicy)
        ensures
            policy == CachePolicy::NoStoreMustRevalidate,
    {
        CachePolicy::NoStoreMustRevalidate
    }

    /// The origins that may read the feed: all of them.
    pub fn allow_origin(&self) -> (origins: &'static str)
        ensures
            origins@ == "*"@,
    {
        "*"
    }
}

/// The page that lists a build history of a crate.
pub fn builds_page(name: &str, builds: Vec<Build>) -> (page: BuildsPage)
    ensures
        page.builds == builds,
        page.canonical_url@ == listing_path(name@, "latest"@, ListingKind::Page),
        page.use_direct_platform_links,
{
    BuildsPage {
        builds,
        canonical_url: builds_path(name, "latest", ListingKind::Page),
        use_direct_platform_links: true,
    }
}

/// The feed that lists a build history: no error logs, and each status
/// reduced to whether the build succeeded.
pub fn builds_feed(builds: &Vec<Build>) -> (feed: BuildsFeed)
    ensures
        api_views(feed.builds@) == api_projection(build_views(builds@)),
        feed.builds@.len() == builds@.len(),
        forall|i: int|
            0 <= i < builds@.len() ==> (#[trigger] feed.builds@[i]).build_status == (
            builds@[i].build_status == BuildStatus::Success),
{
    BuildsFeed { builds: api_builds(builds) }
}

/// The version whose builds a request is shown, or why it is shown none:
/// the specifier is read, the catalog is asked, and [`resolution`] decides.
/// A malformed specifier is "not found".
pub open spec fn listing_outcome(
    releases: Seq<ReleaseView>,
    name: Seq<char>,
    specifier: Seq<char>,
    kind: ListingKind,
) -> Result<Seq<char>, RejectionView> {
    match parse_req_version(specifier) {
        None => Err(RejectionView::VersionNotFound),
        Some(req) => resolution(name, req, Ok(lookup(releases, name, req)), kind),
    }
}

/// Finds the version whose builds a request is shown, in the catalog.
pub fn resolve_version(name: &str, specifier: &str, catalog: &Catalog, kind: ListingKind) -> (r:
    Result<Version, Rejection>)
    ensures
        match listing_outcome(catalog@, name@, specifier@, kind) {
            Ok(v) => r matches Ok(version) && version@ == v,
            Err(why) => r matches Err(e) && e@ == why,
        },
{
    match ReqVersion::parse(specifier) {
        None => Err(Rejection::VersionNotFound),
        Some(requested) => {
            let found = catalog.match_version(name, &requested);
            resolve_listing(name, &requested, Ok(found), kind)
        },
    }
}

/// The release that answers to a specifier is a shown release of the
/// crate, and in a well-formed catalog its build history is that of the
/// release itself, which is not empty.
pub proof fn lemma_resolved_history(
    releases: Seq<ReleaseView>,
    name: Seq<char>,
    req: ReqVersionView,
    i: int,
)
    requires
        well_formed(releases),
        resolve(releases, name, req) == Some(i),
    ensures
        0 <= i < releases.len(),
        alike(releases[i].name, name),
        visible(releases[i]),
        !req.wants_latest() ==> admits(req, releases[i].version),
        build_history(releases, releases[i].name, releases[i].version) == newest_first(
            releases[i].builds,
        ),
        build_history(releases, releases[i].name, releases[i].version).len() > 0,
{
    if first_index(releases, candidate(name, req)) is Some {
        assert(is_first(releases, candidate(name, req), i));
    } else {
        assert(is_first(releases, shown(name), i));
    }
    let version = releases[i].version;
    let stored = releases[i].name;
    assert(is_first(releases, is_release(stored, version), i));
    lemma_first_index_found(releases, is_release(stored, version), i);
    let builds = releases[i].builds;
    let k = choose|k: int| 0 <= k < builds.len() && (#[trigger] builds[k]).finished();
    builds.lemma_filter_contains(finished(), k);
    let kept = builds.filter(finished());
    assert(kept.contains(builds[k]));
    assert(kept.len() > 0);
}

/// Serves the page that lists the builds of a release.
pub fn build_list_handler(name: &str, req_version: &str, catalog: &Catalog) -> (r: Result<
    BuildsPage,
    Rejection,
>)
    ensures
        match listing_outcome(catalog@, name@, req_version@, ListingKind::Page) {
            Ok(v) => r matches Ok(page) && build_views(page.builds@) == build_history(
                catalog@,
                name@,
                v,
            ) && page.canonical_url@ == listing_path(name@, "latest"@, ListingKind::Page)
                && page.use_direct_platform_links,
            Err(why) => r matches Err(e) && e@ == why,
        },
        r matches Ok(page) ==> {
            &&& page.builds@.len() > 0
            &&& forall|i: int|
                0 <= i < page.builds@.len() ==> (#[trigger] page.builds@[i]).build_status
                    != BuildStatus::InProgress
            &&& forall|i: int, j: int|
                0 <= i < j < page.builds@.len() ==> (#[trigger] page.builds@[i]).id > (
                #[trigger] page.builds@[j]).id
        },
        r matches Err(e) ==> e@.status() == 404 || e@.status() == 302,
{
    let version = match resolve_version(name, req_version, catalog, ListingKind::Page) {
        Ok(version) => version,
        Err(why) => {
            return Err(why);
        },
    };
    let builds = catalog.get_builds(name, &version);
    proof {
        let req = parse_req_version(req_version@).unwrap();
        let i = resolve(catalog@, name@, req).unwrap();
        lemma_resolved_history(catalog@, name@, req, i);
        assert(build_views(builds@).len() == builds@.len());
    }
    Ok(builds_page(name, builds))
}

/// Serves the feed that lists the builds of a release.
pub fn build_list_json_handler(name: &str, req_version: &str, catalog: &Catalog) -> (r: Result<
    BuildsFeed,
    Rejection,
>)
    ensures
        match listing_outcome(catalog@, name@, req_version@, ListingKind::Json) {
            Ok(v) => r matches Ok(feed) && api_views(feed.builds@) == api_projection(
                build_history(catalog@, name@, v),
            ),
            Err(why) => r matches Err(e) && e@ == why,
        },
        r matches Ok(feed) ==> {
            &&& feed.builds@.len() > 0
            &&& forall|i: int, j: int|
                0 <= i < j < feed.builds@.len() ==> (#[trigger] feed.builds@[i]).id > (
                #[trigger] feed.builds@[j]).id
        },
        r matches Err(e) ==> e@.status() == 404 || e@.status() == 302,
{
    let version = match resolve_version(name, req_version, catalog, ListingKind::Json) {
        Ok(version) => version,
        Err(why) => {
            return Err(why);
        },
    };
    let builds = catalog.get_builds(name, &version);
    let feed = builds_feed(&builds);
    proof {
        let req = parse_req_version(req_version@).unwrap();
        let i = resolve(catalog@, name@, req).unwrap();
        lemma_resolved_history(catalog@, name@, req, i);
        assert(build_views(builds@).len() == builds@.len());
        assert forall|i: int, j: int| 0 <= i < j < feed.builds@.len() implies (
        #[trigger] feed.builds@[i]).id > (#[trigger] feed.builds@[j]).id by {
            assert(api_views(feed.builds@)[i] == build_views(builds@)[i].api());
            assert(api_views(feed.builds@)[j] == build_views(builds@)[j].api());
            assert(builds@[i].id > builds@[j].id);
        }
    }
    Ok(feed)
}

/// A release of which no build has ended is not listed: asked for by its
/// exact version, it is "not found", with the status 404.
pub proof fn lemma_unbuilt_release_not_found(
    releases: Seq<ReleaseView>,
    name: Seq<char>,
    version: Seq<char>,
    kind: ListingKind,
)
    requires
        is_exact_version(version),
        forall|i: int|
            0 <= i < releases.len() && alike((#[trigger] releases[i]).name, name)
                && releases[i].version == version ==> !visible(releases[i]),
    ensures
        listing_outcome(releases, name, version, kind) == Err::<Seq<char>, RejectionView>(
            RejectionView::VersionNotFound,
        ),
        RejectionView::VersionNotFound.status() == 404,
{
    let req = ReqVersionView::Exact(version);
    assert(parse_req_version(version) == Some(req));
    lemma_first_index_missing(releases, candidate(name, req));
}

/// A malformed specifier is "not found", with the status 404; and whatever
/// the specifier, a listing that is refused is refused with "not found" or
/// with a redirect, never with a server error.
pub proof fn lemma_malformed_not_found(
    releases: Seq<ReleaseView>,
    name: Seq<char>,
    specifier: Seq<char>,
    kind: ListingKind,
)
    ensures
        parse_req_version(specifier) is None ==> listing_outcome(releases, name, specifier, kind)
            == Err::<Seq<char>, RejectionView>(RejectionView::VersionNotFound),
        RejectionView::VersionNotFound.status() == 404,
        listing_outcome(releases, name, specifier, kind) matches Err(why) ==> why.status() == 404
            || why.status() == 302,
{
}

/// A request under the canonical specifier is served; a request under any
/// other specifier that finds a release is sent on to the path with the
/// canonical specifier, with an answer that may be kept forever; and the
/// request that follows it there is served, not sent on again.
pub proof fn lemma_redirect_leads_to_listing(
    releases: Seq<ReleaseView>,
    name: Seq<char>,
    specifier: Seq<char>,
    kind: ListingKind,
)
    requires
        well_formed(releases),
        forall|i: int|
            0 <= i < releases.len() && alike((#[trigger] releases[i]).name, name)
                ==> releases[i].name == name,
        parse_req_version(specifier) is Some,
        resolve(releases, name, parse_req_version(specifier).unwrap()) is Some,
    ensures
        ({
            let req = parse_req_version(specifier).unwrap();
            let found = releases[resolve(releases, name, req).unwrap()].version;
            let canonical = req.canonical(found);
            &&& canonical == req ==> listing_outcome(releases, name, specifier, kind) == Ok::<
                Seq<char>,
                RejectionView,
            >(found)
            &&& canonical != req ==> listing_outcome(releases, name, specifier, kind) == Err::<
                Seq<char>,
                RejectionView,
            >(
                RejectionView::Redirect {
                    path: listing_path(name, canonical.text(), kind),
                    cache_policy: CachePolicy::ForeverInCdn,
                },
            )
            &&& listing_outcome(releases, name, canonical.text(), kind) is Ok
            &&& !req.wants_latest() ==> listing_outcome(releases, name, canonical.text(), kind)
                == Ok::<Seq<char>, RejectionView>(found)
        }),
{
    let req = parse_req_version(specifier).unwrap();
    let i = resolve(releases, name, req).unwrap();
    let found = releases[i].version;
    let canonical = req.canonical(found);
    lemma_resolved_history(releases, name, req, i);
    if req.wants_latest() {
        assert(canonical == ReqVersionView::Latest);
        assert(parse_req_version(canonical.text()) == Some(canonical));
        assert(shown(name)(releases[i]));
        lemma_first_exists(releases, shown(name), i);
        assert(resolve(releases, name, canonical) is Some);
    } else {
        assert(canonical == ReqVersionView::Exact(found));
        assert(is_exact_version(found));
        assert(parse_req_version(found) == Some(canonical));
        assert(candidate(name, canonical)(releases[i]));
        lemma_first_exists(releases, candidate(name, canonical), i);
        let j = first_index(releases, candidate(name, canonical)).unwrap();
        assert(is_first(releases, candidate(name, canonical), j));
        assert(releases[j].version == found);
    }
}

} // verus!
