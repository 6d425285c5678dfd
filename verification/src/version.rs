//! Version numbers and version specifiers, as texts that the `semver` crate
//! reads.

use crate::text::same_text;
use vstd::prelude::*;
use vstd::string::StringExecFns;

verus! {

/// Whether `semver::Version::parse` accepts the text.
pub uninterp spec fn semver_is_version(text: Seq<char>) -> bool;

/// Whether `semver::VersionReq::parse` accepts the text.
pub uninterp spec fn semver_is_req(text: Seq<char>) -> bool;

/// Whether `semver::VersionReq::parse` reads the text as the requirement
/// that admits every release, `semver::VersionReq::STAR`.
pub uninterp spec fn semver_is_any(text: Seq<char>) -> bool;

/// Whether both texts parse, the first as a requirement and the second as a
/// version, and `semver::VersionReq::matches` holds of them.
pub uninterp spec fn semver_matches(req: Seq<char>, version: Seq<char>) -> bool;

/// Whether both texts parse as versions and the first is greater than the
/// second in the total order of `semver::Version`.
pub uninterp spec fn semver_newer(a: Seq<char>, b: Seq<char>) -> bool;

/// Calls `semver::Version::parse` and reports whether it succeeded.
#[verifier::external_body]
fn is_version(text: &str) -> (ok: bool)
    ensures
        ok == semver_is_version(text@),
{
    semver::Version::parse(text).is_ok()
}

/// Calls `semver::VersionReq::parse` and reports whether it succeeded.
#[verifier::external_body]
fn is_req(text: &str) -> (ok: bool)
    ensures
        ok == semver_is_req(text@),
{
    semver::VersionReq::parse(text).is_ok()
}

/// Calls `semver::VersionReq::parse` and compares what it read with
/// `semver::VersionReq::STAR`; a text that does not parse gives `false`.
#[verifier::external_body]
fn is_any(text: &str) -> (any: bool)
    ensures
        any == semver_is_any(text@),
{
    match semver::VersionReq::parse(text) {
        Ok(req) => req == semver::VersionReq::STAR,
        Err(_) => false,
    }
}

/// Parses both texts with `semver` and calls `semver::VersionReq::matches`;
/// where either does not parse the answer is `false`.
#[verifier::external_body]
fn req_matches(req: &str, version: &str) -> (m: bool)
    ensures
        m == semver_matches(req@, version@),
{
    match (semver::VersionReq::parse(req), semver::Version::parse(version)) {
        (Ok(r), Ok(v)) => r.matches(&v),
        _ => false,
    }
}

/// Parses both texts with `semver::Version::parse` and compares the versions
/// with `>`; where either does not parse the answer is `false`.
#[verifier::external_body]
fn version_newer(a: &str, b: &str) -> (newer: bool)
    ensures
        newer == semver_newer(a@, b@),
{
    match (semver::Version::parse(a), semver::Version::parse(b)) {
        (Ok(x), Ok(y)) => x > y,
        _ => false,
    }
}

/// Whether a text is an exact version: one that `semver` accepts as a
/// version. The alias `latest` is reserved and never read as a version.
pub open spec fn is_exact_version(text: Seq<char>) -> bool {
    text != "latest"@ && semver_is_version(text)
}

/// An exact version number.
#[derive(Debug, PartialEq, Eq)]
pub struct Version {
    text: String,
}

impl View for Version {
    type V = Seq<char>;

    closed spec fn view(&self) -> Seq<char> {
        self.text@
    }
}

impl Clone for Version {
    fn clone(&self) -> (copy: Version)
        ensures
            copy@ == self@,
            is_exact_version(copy@),
    {
        proof {
            use_type_invariant(self);
        }
        Version { text: self.text.clone() }
    }
}

impl Version {
    #[verifier::type_invariant]
    spec fn valid(self) -> bool {
        is_exact_version(self.text@)
    }

    /// Reads an exact version; `None` where the text is not one.
    pub fn parse(text: &str) -> (r: Option<Version>)
        ensures
            r is Some <==> is_exact_version(text@),
            r matches Some(v) ==> v@ == text@,
    {
        if !same_text(text, "latest") && is_version(text) {
            Some(Version { text: String::from_str(text) })
        } else {
            None
        }
    }

    /// The version as it is written.
    pub fn as_str(&self) -> (s: &str)
        ensures
            s@ == self@,
            is_exact_version(s@),
    {
        proof {
            use_type_invariant(self);
        }
        self.text.as_str()
    }

    /// The version as an owned text.
    pub fn to_string(&self) -> (s: String)
        ensures
            s@ == self@,
    {
        self.text.clone()
    }

    /// Whether two versions are written alike.
    pub fn same(&self, other: &Version) -> (b: bool)
        ensures
            b == (self@ == other@),
    {
        self.text == other.text
    }

    /// Whether this version is greater than `other` in the order of `semver`.
    pub fn newer_than(&self, other: &Version) -> (b: bool)
        ensures
            b == semver_newer(self@, other@),
    {
        version_newer(self.text.as_str(), other.text.as_str())
    }
}

/// A version requirement: a text that `semver` accepts as one, such as
/// `^1.2` or `>=0.3, <0.5`.
#[derive(Debug, PartialEq, Eq)]
pub struct VersionReq {
    text: String,
}

impl View for VersionReq {
    type V = Seq<char>;

    closed spec fn view(&self) -> Seq<char> {
        self.text@
    }
}

impl Clone for VersionReq {
    fn clone(&self) -> (copy: VersionReq)
        ensures
            copy@ == self@,
    {
        proof {
            use_type_invariant(self);
        }
        VersionReq { text: self.text.clone() }
    }
}

impl VersionReq {
    #[verifier::type_invariant]
    spec fn valid(self) -> bool {
        semver_is_req(self.text@)
    }

    /// Reads a requirement; `None` where the text is not one.
    pub fn parse(text: &str) -> (r: Option<VersionReq>)
        ensures
            r is Some <==> semver_is_req(text@),
            r matches Some(q) ==> q@ == text@,
    {
        if is_req(text) {
            Some(VersionReq { text: String::from_str(text) })
        } else {
            None
        }
    }

    /// The requirement as it is written.
    pub fn as_str(&self) -> (s: &str)
        ensures
            s@ == self@,
            semver_is_req(s@),
    {
        proof {
            use_type_invariant(self);
        }
        self.text.as_str()
    }

    /// Whether the requirement admits every release.
    pub fn is_any(&self) -> (b: bool)
        ensures
            b == semver_is_any(self@),
    {
        is_any(self.text.as_str())
    }

    /// Whether the requirement admits the version.
    pub fn matches(&self, version: &Version) -> (b: bool)
        ensures
            b == semver_matches(self@, version@),
    {
        req_matches(self.text.as_str(), version.as_str())
    }
}

/// What a request names as its version: an exact version, the alias
/// `latest`, or a requirement.
#[derive(Debug, PartialEq, Eq)]
pub enum ReqVersion {
    Exact(Version),
    Latest,
    Semver(VersionReq),
}

/// A request's version as mathematics: the variant and the text it carries.
pub enum ReqVersionView {
    Exact(Seq<char>),
    Latest,
    Semver(Seq<char>),
}

impl View for ReqVersion {
    type V = ReqVersionView;

    open spec fn view(&self) -> ReqVersionView {
        match self {
            ReqVersion::Exact(v) => ReqVersionView::Exact(v@),
            ReqVersion::Latest => ReqVersionView::Latest,
            ReqVersion::Semver(q) => ReqVersionView::Semver(q@),
        }
    }
}

impl Clone for ReqVersion {
    fn clone(&self) -> (copy: ReqVersion)
        ensures
            copy@ == self@,
    {
        match self {
            ReqVersion::Exact(v) => ReqVersion::Exact(v.clone()),
            ReqVersion::Latest => ReqVersion::Latest,
            ReqVersion::Semver(q) => ReqVersion::Semver(q.clone()),
        }
    }
}

impl ReqVersionView {
    /// The text that stands for this specifier in a path.
    pub open spec fn text(self) -> Seq<char> {
        match self {
            ReqVersionView::Exact(v) => v,
            ReqVersionView::Latest => "latest"@,
            ReqVersionView::Semver(q) => q,
        }
    }

    /// Whether the specifier asks for the most recent release: the alias
    /// itself, or a requirement that admits every release.
    pub open spec fn wants_latest(self) -> bool {
        match self {
            ReqVersionView::Exact(_) => false,
            ReqVersionView::Latest => true,
            ReqVersionView::Semver(q) => semver_is_any(q),
        }
    }

    /// The specifier under which a release found for this one is served:
    /// `latest` where the most recent release was asked for, else the exact
    /// version of the release.
    pub open spec fn canonical(self, matched: Seq<char>) -> ReqVersionView {
        if self.wants_latest() {
            ReqVersionView::Latest
        } else {
            ReqVersionView::Exact(matched)
        }
    }
}

/// Whether a version satisfies a specifier: for an exact version the
/// version itself, for the alias what the requirement `*` admits, for a
/// requirement what it admits.
pub open spec fn admits(req: ReqVersionView, version: Seq<char>) -> bool {
    match req {
        ReqVersionView::Exact(v) => version == v,
        ReqVersionView::Latest => semver_matches("*"@, version),
        ReqVersionView::Semver(q) => semver_matches(q, version),
    }
}

/// The three kinds of specifier.
#[derive(Debug, Clone, Copy, PartialEq, Eq)]
pub enum SpecifierKind {
    Exact,
    Latest,
    Semver,
}

/// The kind of a specifier, given whether `semver` reads it as a version
/// and whether it reads it as a requirement: the alias comes first, then a
/// version, then a requirement; anything else is malformed.
pub open spec fn specifier_kind(text: Seq<char>, is_version: bool, is_req: bool) -> Option<
    SpecifierKind,
> {
    if text == "latest"@ {
        Some(SpecifierKind::Latest)
    } else if is_version {
        Some(SpecifierKind::Exact)
    } else if is_req {
        Some(SpecifierKind::Semver)
    } else {
        None
    }
}

/// How a specifier is read: by its kind, with its text.
pub open spec fn parse_req_version(text: Seq<char>) -> Option<ReqVersionView> {
    match specifier_kind(text, semver_is_version(text), semver_is_req(text)) {
        Some(SpecifierKind::Latest) => Some(ReqVersionView::Latest),
        Some(SpecifierKind::Exact) => Some(ReqVersionView::Exact(text)),
        Some(SpecifierKind::Semver) => Some(ReqVersionView::Semver(text)),
        None => None,
    }
}

/// Tells the kind of a specifier, given whether `semver` reads it as a
/// version and whether it reads it as a requirement.
pub fn classify_specifier(text: &str, is_version: bool, is_req: bool) -> (kind: Option<
    SpecifierKind,
>)
    ensures
        kind == specifier_kind(text@, is_version, is_req),
{
    if same_text(text, "latest") {
        Some(SpecifierKind::Latest)
    } else if is_version {
        Some(SpecifierKind::Exact)
    } else if is_req {
        Some(SpecifierKind::Semver)
    } else {
        None
    }
}

/// The specifier under which a release is served: `latest` where the most
/// recent release was asked for, else the exact version of the release.
pub fn canonical_specifier(wants_latest: bool, matched: &Version) -> (c: ReqVersion)
    ensures
        c@ == if wants_latest {
            ReqVersionView::Latest
        } else {
            ReqVersionView::Exact(matched@)
        },
{
    if wants_latest {
        ReqVersion::Latest
    } else {
        ReqVersion::Exact(matched.clone())
    }
}

impl ReqVersion {
    /// Reads a specifier; `None` where it is malformed.
    pub fn parse(text: &str) -> (r: Option<ReqVersion>)
        ensures
            r is Some <==> parse_req_version(text@) is Some,
            r matches Some(req) ==> Some(req@) == parse_req_version(text@),
    {
        match classify_specifier(text, is_version(text), is_req(text)) {
            Some(SpecifierKind::Latest) => Some(ReqVersion::Latest),
            Some(SpecifierKind::Exact) => Some(
                ReqVersion::Exact(Version { text: String::from_str(text) }),
            ),
            Some(SpecifierKind::Semver) => Some(
                ReqVersion::Semver(VersionReq { text: String::from_str(text) }),
            ),
            None => None,
        }
    }

    /// The text that stands for this specifier in a path.
    pub fn to_string(&self) -> (s: String)
        ensures
            s@ == self@.text(),
    {
        match self {
            ReqVersion::Exact(v) => v.to_string(),
            ReqVersion::Latest => String::from_str("latest"),
            ReqVersion::Semver(q) => String::from_str(q.as_str()),
        }
    }

    /// Whether the specifier asks for the most recent release.
    pub fn wants_latest(&self) -> (b: bool)
        ensures
            b == self@.wants_latest(),
    {
        match self {
            ReqVersion::Exact(_) => false,
            ReqVersion::Latest => true,
            ReqVersion::Semver(q) => q.is_any(),
        }
    }

    /// The specifier under which a release found for this one is served.
    pub fn canonical(&self, matched: &Version) -> (c: ReqVersion)
        ensures
            c@ == self@.canonical(matched@),
    {
        canonical_specifier(self.wants_latest(), matched)
    }

    /// Whether a version satisfies the specifier.
    pub fn admits(&self, version: &Version) -> (b: bool)
        ensures
            b == admits(self@, version@),
    {
        match self {
            ReqVersion::Exact(v) => version.same(v),
            ReqVersion::Latest => req_matches("*", version.as_str()),
            ReqVersion::Semver(q) => q.matches(version),
        }
    }

    /// Whether two specifiers are the same variant with the same text.
    pub fn same(&self, other: &ReqVersion) -> (b: bool)
        ensures
            b == (self@ == other@),
    {
        match (self, other) {
            (ReqVersion::Exact(a), ReqVersion::Exact(b)) => a.same(b),
            (ReqVersion::Latest, ReqVersion::Latest) => true,
            (ReqVersion::Semver(a), ReqVersion::Semver(b)) => same_text(a.as_str(), b.as_str()),
            _ => false,
        }
    }
}

} // verus!
