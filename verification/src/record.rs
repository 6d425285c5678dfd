//! Build records and the two forms in which they are shown.

use vstd::prelude::*;

verus! {

/// How a build attempt ended, or that it has not ended yet.
#[derive(Debug, Clone, Copy, PartialEq, Eq)]
pub enum BuildStatus {
    Success,
    Failure,
    InProgress,
}

impl BuildStatus {
    /// Whether the build succeeded.
    pub fn is_success(&self) -> (b: bool)
        ensures
            b == (*self == BuildStatus::Success),
    {
        match self {
            BuildStatus::Success => true,
            _ => false,
        }
    }

    /// Whether the build is still running.
    pub fn is_in_progress(&self) -> (b: bool)
        ensures
            b == (*self == BuildStatus::InProgress),
    {
        match self {
            BuildStatus::InProgress => true,
            _ => false,
        }
    }
}

/// One attempt to build the documentation of a release.
///
/// `id` grows with the order in which builds were started. `build_time` is
/// in microseconds since the Unix epoch.
#[derive(Debug, PartialEq, Eq)]
pub struct Build {
    pub id: i32,
    pub rustc_version: Option<String>,
    pub docsrs_version: Option<String>,
    pub build_status: BuildStatus,
    pub build_time: Option<i64>,
    pub errors: Option<String>,
}

/// A build record as mathematics.
pub struct BuildView {
    pub id: int,
    pub rustc_version: Option<Seq<char>>,
    pub docsrs_version: Option<Seq<char>>,
    pub build_status: BuildStatus,
    pub build_time: Option<int>,
    pub errors: Option<Seq<char>>,
}

/// A build record as the public feed shows it: no error log, and the status
/// reduced to whether the build succeeded.
#[derive(Debug, PartialEq, Eq)]
pub struct ApiBuild {
    pub id: i32,
    pub rustc_version: Option<String>,
    pub docsrs_version: Option<String>,
    pub build_status: bool,
    pub build_time: Option<i64>,
}

/// A record of the public feed as mathematics.
pub struct ApiBuildView {
    pub id: int,
    pub rustc_version: Option<Seq<char>>,
    pub docsrs_version: Option<Seq<char>>,
    pub build_status: bool,
    pub build_time: Option<int>,
}

/// The characters of an optional text.
pub open spec fn text_view(text: Option<String>) -> Option<Seq<char>> {
    match text {
        Some(s) => Some(s@),
        None => None,
    }
}

/// The value of an optional time.
pub open spec fn time_view(time: Option<i64>) -> Option<int> {
    match time {
        Some(t) => Some(t as int),
        None => None,
    }
}

/// A copy of an optional text.
pub fn clone_text(text: &Option<String>) -> (copy: Option<String>)
    ensures
        text_view(copy) == text_view(*text),
{
    match text {
        Some(s) => Some(s.clone()),
        None => None,
    }
}

impl View for Build {
    type V = BuildView;

    open spec fn view(&self) -> BuildView {
        BuildView {
            id: self.id as int,
            rustc_version: text_view(self.rustc_version),
            docsrs_version: text_view(self.docsrs_version),
            build_status: self.build_status,
            build_time: time_view(self.build_time),
            errors: text_view(self.errors),
        }
    }
}

impl View for ApiBuild {
    type V = ApiBuildView;

    open spec fn view(&self) -> ApiBuildView {
        ApiBuildView {
            id: self.id as int,
            rustc_version: text_view(self.rustc_version),
            docsrs_version: text_view(self.docsrs_version),
            build_status: self.build_status,
            build_time: time_view(self.build_time),
        }
    }
}

impl BuildView {
    /// The record as the public feed shows it.
    pub open spec fn api(self) -> ApiBuildView {
        ApiBuildView {
            id: self.id,
            rustc_version: self.rustc_version,
            docsrs_version: self.docsrs_version,
            build_status: self.build_status == BuildStatus::Success,
            build_time: self.build_time,
        }
    }

    /// Whether the build has ended.
    pub open spec fn finished(self) -> bool {
        self.build_status != BuildStatus::InProgress
    }
}

impl Clone for Build {
    fn clone(&self) -> (copy: Build)
        ensures
            copy@ == self@,
    {
        Build {
            id: self.id,
            rustc_version: clone_text(&self.rustc_version),
            docsrs_version: clone_text(&self.docsrs_version),
            build_status: self.build_status,
            build_time: self.build_time,
            errors: clone_text(&self.errors),
        }
    }
}

impl Clone for ApiBuild {
    fn clone(&self) -> (copy: ApiBuild)
        ensures
            copy@ == self@,
    {
        ApiBuild {
            id: self.id,
            rustc_version: clone_text(&self.rustc_version),
            docsrs_version: clone_text(&self.docsrs_version),
            build_status: self.build_status,
            build_time: self.build_time,
        }
    }
}

impl Build {
    /// The record as the public feed shows it.
    pub fn to_api(&self) -> (api: ApiBuild)
        ensures
            api@ == self@.api(),
            api.build_status == (self.build_status == BuildStatus::Success),
    {
        ApiBuild {
            id: self.id,
            rustc_version: clone_text(&self.rustc_version),
            docsrs_version: clone_text(&self.docsrs_version),
            build_status: self.build_status.is_success(),
            build_time: self.build_time,
        }
    }
}

/// The records of a list as mathematics, in the list's order.
pub open spec fn build_views(builds: Seq<Build>) -> Seq<BuildView> {
    builds.map_values(|b: Build| b@)
}

/// The records of a public feed as mathematics, in the feed's order.
pub open spec fn api_views(builds: Seq<ApiBuild>) -> Seq<ApiBuildView> {
    builds.map_values(|b: ApiBuild| b@)
}

/// The public feed of a build history: each record in its feed form, in the
/// same order.
pub open spec fn api_projection(builds: Seq<BuildView>) -> Seq<ApiBuildView> {
    builds.map_values(|b: BuildView| b.api())
}

/// Projects a build history into the public feed.
pub fn api_builds(builds: &Vec<Build>) -> (feed: Vec<ApiBuild>)
    ensures
        api_views(feed@) == api_projection(build_views(builds@)),
        feed@.len() == builds@.len(),
        forall|i: int|
            0 <= i < builds@.len() ==> (#[trigger] feed@[i]).build_status == (builds@[i].build_status
                == BuildStatus::Success),
{
    let mut feed: Vec<ApiBuild> = Vec::new();
    let mut i: usize = 0;
    while i < builds.len()
        invariant
            0 <= i <= builds@.len(),
            feed@.len() == i,
            forall|k: int| 0 <= k < i ==> (#[trigger] feed@[k])@ == builds@[k]@.api(),
        decreases builds@.len() - i,
    {
        feed.push(builds[i].to_api());
        i += 1;
    }
    assert(api_views(feed@) =~= api_projection(build_views(builds@)));
    feed
}

} // verus!
