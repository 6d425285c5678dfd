use web_builds::catalog::Catalog;
use web_builds::listing::{
    build_list_handler, build_list_json_handler, builds_path, resolve_listing, ListingKind,
};
use web_builds::catalog::MatchedRelease;
use web_builds::record::{api_builds, Build, BuildStatus};
use web_builds::response::{CachePolicy, Outage, Rejection};
use web_builds::text::{same_text, texts_alike, to_lower};
use web_builds::version::{ReqVersion, Version};

const T0: i64 = 1_546_300_800_000_000;

struct FakeBuild {
    rustc_version: Option<String>,
    docsrs_version: Option<String>,
    build_status: BuildStatus,
    errors: Option<String>,
}

fn fake_build(rustc_version: &str, docsrs_version: &str) -> FakeBuild {
    FakeBuild {
        rustc_version: Some(rustc_version.to_string()),
        docsrs_version: Some(docsrs_version.to_string()),
        build_status: BuildStatus::Success,
        errors: None,
    }
}

fn successful(mut build: FakeBuild, yes: bool) -> FakeBuild {
    build.build_status = if yes { BuildStatus::Success } else { BuildStatus::Failure };
    build
}

fn with_status(mut build: FakeBuild, status: BuildStatus) -> FakeBuild {
    build.build_status = status;
    build
}

fn fake_release(catalog: &mut Catalog, name: &str, version: &str, builds: Vec<FakeBuild>) {
    let version = Version::parse(version).unwrap();
    assert!(catalog.add_release(name, &version));
    for (i, b) in builds.into_iter().enumerate() {
        let id = catalog.add_build(
            name,
            &version,
            b.build_status,
            b.rustc_version,
            b.docsrs_version,
            Some(T0 + 1_000_000 * i as i64),
            b.errors,
        );
        assert!(id.is_some());
    }
}

fn fake_release_that_failed_before_build(
    catalog: &mut Catalog,
    name: &str,
    version: &str,
    errors: &str,
) {
    let version = Version::parse(version).unwrap();
    assert!(catalog.add_release(name, &version));
    let id = catalog.add_build(
        name,
        &version,
        BuildStatus::Failure,
        None,
        None,
        None,
        Some(errors.to_string()),
    );
    assert!(id.is_some());
}

fn four_builds() -> Vec<FakeBuild> {
    vec![
        fake_build("rustc (blabla 2019-01-01)", "docs.rs 1.0.0"),
        successful(fake_build("rustc (blabla 2020-01-01)", "docs.rs 2.0.0"), false),
        fake_build("rustc (blabla 2021-01-01)", "docs.rs 3.0.0"),
        with_status(
            fake_build("rustc (blabla 2022-01-01)", "docs.rs 4.0.0"),
            BuildStatus::InProgress,
        ),
    ]
}

fn json_time(micros: Option<i64>) -> serde_json::Value {
    let time = chrono::DateTime::<chrono::Utc>::from_timestamp_micros(micros.unwrap()).unwrap();
    serde_json::to_value(time).unwrap()
}

#[test]
fn build_list_empty_build() {
    let mut catalog = Catalog::new();
    fake_release_that_failed_before_build(&mut catalog, "foo", "0.1.0", "some errors");

    let page = build_list_handler("foo", "0.1.0", &catalog).unwrap();
    assert_eq!(page.status(), 200);
    assert_eq!(page.cache_policy(), CachePolicy::NoCaching);

    let rows = &page.builds;
    assert_eq!(rows.len(), 1);
    let missing = [
        rows[0].rustc_version.is_none(),
        rows[0].docsrs_version.is_none(),
        rows[0].build_time.is_none(),
    ];
    assert_eq!(missing.iter().filter(|&&m| m).count(), 3);
    assert_eq!(rows[0].errors.as_deref(), Some("some errors"));
    assert_eq!(rows[0].build_status, BuildStatus::Failure);
}

#[test]
fn build_list() {
    let mut catalog = Catalog::new();
    fake_release(&mut catalog, "foo", "0.1.0", four_builds());

    let page = build_list_handler("foo", "0.1.0", &catalog).unwrap();
    assert_eq!(page.cache_policy(), CachePolicy::NoCaching);

    let rows = &page.builds;
    assert_eq!(rows.len(), 3);
    assert_eq!(rows[0].rustc_version.as_deref(), Some("rustc (blabla 2021-01-01)"));
    assert_eq!(rows[0].docsrs_version.as_deref(), Some("docs.rs 3.0.0"));
    assert_eq!(rows[1].rustc_version.as_deref(), Some("rustc (blabla 2020-01-01)"));
    assert_eq!(rows[1].docsrs_version.as_deref(), Some("docs.rs 2.0.0"));
    assert_eq!(rows[2].rustc_version.as_deref(), Some("rustc (blabla 2019-01-01)"));
    assert_eq!(rows[2].docsrs_version.as_deref(), Some("docs.rs 1.0.0"));
}

#[test]
fn build_list_json() {
    let mut catalog = Catalog::new();
    fake_release(&mut catalog, "foo", "0.1.0", four_builds());

    let feed = build_list_json_handler("foo", "0.1.0", &catalog).unwrap();
    assert_eq!(feed.cache_policy(), CachePolicy::NoStoreMustRevalidate);
    assert_eq!(feed.allow_origin(), "*");
    let value = &feed.builds;

    assert_eq!(value.len(), 3);

    assert_eq!(value[0].build_status, true);
    assert_eq!(value[0].docsrs_version.as_deref(), Some("docs.rs 3.0.0"));
    assert_eq!(value[0].rustc_version.as_deref(), Some("rustc (blabla 2021-01-01)"));
    assert!(serde_json::to_value(value[0].id).unwrap().is_i64());
    assert!(serde_json::from_value::<chrono::DateTime<chrono::Utc>>(json_time(
        value[0].build_time
    ))
    .is_ok());

    assert_eq!(value[1].build_status, false);
    assert_eq!(value[1].docsrs_version.as_deref(), Some("docs.rs 2.0.0"));
    assert_eq!(value[1].rustc_version.as_deref(), Some("rustc (blabla 2020-01-01)"));
    assert!(serde_json::to_value(value[1].id).unwrap().is_i64());
    assert!(serde_json::from_value::<chrono::DateTime<chrono::Utc>>(json_time(
        value[1].build_time
    ))
    .is_ok());

    assert_eq!(value[2].build_status, true);
    assert_eq!(value[2].docsrs_version.as_deref(), Some("docs.rs 1.0.0"));
    assert_eq!(value[2].rustc_version.as_deref(), Some("rustc (blabla 2019-01-01)"));
    assert!(serde_json::to_value(value[2].id).unwrap().is_i64());
    assert!(serde_json::from_value::<chrono::DateTime<chrono::Utc>>(json_time(
        value[2].build_time
    ))
    .is_ok());

    assert!(
        json_time(value[1].build_time).as_str().unwrap()
            < json_time(value[0].build_time).as_str().unwrap()
    );
    assert!(
        json_time(value[2].build_time).as_str().unwrap()
            < json_time(value[1].build_time).as_str().unwrap()
    );
}

#[test]
fn build_empty_list() {
    let mut catalog = Catalog::new();
    fake_release(&mut catalog, "foo", "0.1.0", vec![]);

    let response = build_list_handler("foo", "0.1.0", &catalog);

    assert_eq!(response.unwrap_err().status(), 404);
}

#[test]
fn latest_200() {
    let mut catalog = Catalog::new();
    fake_release(
        &mut catalog,
        "aquarelle",
        "0.1.0",
        vec![fake_build("rustc (blabla 2019-01-01)", "docs.rs 1.0.0")],
    );
    fake_release(
        &mut catalog,
        "aquarelle",
        "0.2.0",
        vec![fake_build("rustc (blabla 2019-01-01)", "docs.rs 1.0.0")],
    );

    let resp = build_list_handler("aquarelle", "latest", &catalog);
    let page = resp.unwrap();
    assert_eq!(page.status(), 200);
    assert!(builds_path("aquarelle", "latest", ListingKind::Page)
        .ends_with("/crate/aquarelle/latest/builds"));
    assert!(page.canonical_url.contains("/crate/aquarelle/latest/builds"));
    assert!(page.canonical_url.contains("/crate/aquarelle/latest"));
    assert!(page.use_direct_platform_links);
    assert_eq!(page.builds.len(), 1);

    let resp_json = build_list_json_handler("aquarelle", "latest", &catalog);
    let feed = resp_json.unwrap();
    assert_eq!(feed.status(), 200);
    assert!(builds_path("aquarelle", "latest", ListingKind::Json)
        .ends_with("/crate/aquarelle/latest/builds.json"));
}

#[test]
fn crate_version_not_found() {
    let mut catalog = Catalog::new();
    fake_release(
        &mut catalog,
        "foo",
        "0.1.0",
        vec![fake_build("rustc (blabla 2019-01-01)", "docs.rs 1.0.0")],
    );

    let resp = build_list_handler("foo", "0.2.0", &catalog);
    assert!(builds_path("foo", "0.2.0", ListingKind::Page).ends_with("/crate/foo/0.2.0/builds"));
    assert_eq!(resp.unwrap_err().status(), 404);
}

#[test]
fn invalid_semver() {
    let mut catalog = Catalog::new();
    fake_release(
        &mut catalog,
        "foo",
        "0.1.0",
        vec![fake_build("rustc (blabla 2019-01-01)", "docs.rs 1.0.0")],
    );

    let resp = build_list_handler("foo", "0,1,0", &catalog);
    assert!(builds_path("foo", "0,1,0", ListingKind::Page).ends_with("/crate/foo/0,1,0/builds"));
    assert_eq!(resp.unwrap_err().status(), 404);
}

#[test]
fn latest_is_the_greatest_version_whatever_the_filing_order() {
    let mut catalog = Catalog::new();
    fake_release(&mut catalog, "aquarelle", "0.2.0", vec![fake_build("r2", "d2")]);
    fake_release(&mut catalog, "aquarelle", "0.1.0", vec![fake_build("r1", "d1")]);
    fake_release(&mut catalog, "aquarelle", "0.10.0", vec![fake_build("r10", "d10")]);
    fake_release(&mut catalog, "other", "9.0.0", vec![fake_build("r9", "d9")]);

    let page = build_list_handler("aquarelle", "latest", &catalog).unwrap();
    assert_eq!(page.builds.len(), 1);
    assert_eq!(page.builds[0].rustc_version.as_deref(), Some("r10"));

    let found = catalog.match_version("aquarelle", &ReqVersion::Latest).unwrap();
    assert_eq!(found.version.as_str(), "0.10.0");
    assert_eq!(found.corrected_name, None);
}

#[test]
fn latest_skips_prereleases_unless_there_is_nothing_else() {
    let mut catalog = Catalog::new();
    fake_release(&mut catalog, "foo", "1.0.0-beta.1", vec![fake_build("rb", "db")]);
    let found = catalog.match_version("foo", &ReqVersion::Latest).unwrap();
    assert_eq!(found.version.as_str(), "1.0.0-beta.1");
    let any = ReqVersion::parse("*").unwrap();
    assert_eq!(catalog.match_version("foo", &any).unwrap().version.as_str(), "1.0.0-beta.1");
    let caret = ReqVersion::parse("^1").unwrap();
    assert_eq!(catalog.match_version("foo", &caret), None);

    fake_release(&mut catalog, "foo", "0.9.0", vec![fake_build("r9", "d9")]);
    let found = catalog.match_version("foo", &ReqVersion::Latest).unwrap();
    assert_eq!(found.version.as_str(), "0.9.0");
}

#[test]
fn latest_skips_releases_without_finished_builds() {
    let mut catalog = Catalog::new();
    fake_release(&mut catalog, "foo", "0.1.0", vec![fake_build("r1", "d1")]);
    fake_release(&mut catalog, "foo", "0.2.0", vec![]);
    fake_release(
        &mut catalog,
        "foo",
        "0.3.0",
        vec![with_status(fake_build("r3", "d3"), BuildStatus::InProgress)],
    );

    let found = catalog.match_version("foo", &ReqVersion::Latest).unwrap();
    assert_eq!(found.version.as_str(), "0.1.0");
    assert_eq!(build_list_handler("foo", "0.2.0", &catalog).unwrap_err().status(), 404);
    assert_eq!(
        build_list_handler("foo", "0.3.0", &catalog),
        Err(Rejection::VersionNotFound)
    );
    assert_eq!(
        build_list_json_handler("foo", "0.3.0", &catalog),
        Err(Rejection::VersionNotFound)
    );
}

#[test]
fn requirement_is_sent_on_to_the_exact_version() {
    let mut catalog = Catalog::new();
    fake_release(&mut catalog, "foo", "0.1.0", vec![fake_build("r1", "d1")]);
    fake_release(&mut catalog, "foo", "0.1.5", vec![fake_build("r15", "d15")]);
    fake_release(&mut catalog, "foo", "0.2.0", vec![fake_build("r2", "d2")]);

    assert_eq!(
        build_list_handler("foo", "^0.1", &catalog),
        Err(Rejection::Redirect {
            path: "/crate/foo/0.1.5/builds".to_string(),
            cache_policy: CachePolicy::ForeverInCdn,
        })
    );
    assert_eq!(
        build_list_json_handler("foo", "~0.1.0", &catalog),
        Err(Rejection::Redirect {
            path: "/crate/foo/0.1.5/builds.json".to_string(),
            cache_policy: CachePolicy::ForeverInCdn,
        })
    );
    let redirect = build_list_handler("foo", "=0.1.0", &catalog).unwrap_err();
    assert_eq!(redirect.status(), 302);
    assert_eq!(redirect.body(), None);

    let page = build_list_handler("foo", "0.1.5", &catalog).unwrap();
    assert_eq!(page.builds[0].rustc_version.as_deref(), Some("r15"));
}

#[test]
fn any_release_is_sent_on_to_latest() {
    let mut catalog = Catalog::new();
    fake_release(&mut catalog, "foo", "0.1.0", vec![fake_build("r1", "d1")]);

    for spelled in ["*", "x", "X", " *"] {
        assert_eq!(
            build_list_handler("foo", spelled, &catalog),
            Err(Rejection::Redirect {
                path: "/crate/foo/latest/builds".to_string(),
                cache_policy: CachePolicy::ForeverInCdn,
            })
        );
        assert_eq!(
            build_list_json_handler("foo", spelled, &catalog),
            Err(Rejection::Redirect {
                path: "/crate/foo/latest/builds.json".to_string(),
                cache_policy: CachePolicy::ForeverInCdn,
            })
        );
    }
    assert!(build_list_handler("foo", "latest", &catalog).is_ok());
    assert_eq!(
        build_list_handler("foo", "0.1.0 ", &catalog),
        Err(Rejection::Redirect {
            path: "/crate/foo/0.1.0/builds".to_string(),
            cache_policy: CachePolicy::ForeverInCdn,
        })
    );
}

#[test]
fn malformed_specifiers_are_not_found() {
    let mut catalog = Catalog::new();
    fake_release(&mut catalog, "foo", "0.1.0", vec![fake_build("r1", "d1")]);
    for spelled in ["", "newest", "0.1.0.0", "a.b.c", "01.0.0", "0.1.0-", "*, 1", "=="] {
        assert_eq!(ReqVersion::parse(spelled), None);
        assert_eq!(
            build_list_handler("foo", spelled, &catalog),
            Err(Rejection::VersionNotFound)
        );
        assert_eq!(
            build_list_json_handler("foo", spelled, &catalog).unwrap_err().status(),
            404
        );
    }
}

#[test]
fn unknown_crate_is_not_found() {
    let mut catalog = Catalog::new();
    fake_release(&mut catalog, "foo", "0.1.0", vec![fake_build("r1", "d1")]);
    assert_eq!(build_list_handler("bar", "0.1.0", &catalog), Err(Rejection::VersionNotFound));
    assert_eq!(build_list_handler("fo", "latest", &catalog), Err(Rejection::VersionNotFound));
    assert_eq!(build_list_handler("foo_", "latest", &catalog), Err(Rejection::VersionNotFound));
    assert_eq!(build_list_handler("foo", "=0.1.0", &catalog).unwrap_err().status(), 302);
}

#[test]
fn another_spelling_of_the_name_is_sent_on_to_the_stored_one() {
    let mut catalog = Catalog::new();
    fake_release(&mut catalog, "Foo-Bar", "0.1.0", vec![fake_build("r1", "d1")]);

    let rejection = build_list_handler("foo-bar", "0.1.0", &catalog).unwrap_err();
    assert_eq!(
        rejection,
        Rejection::CrateNameMismatch {
            corrected_name: "Foo-Bar".to_string(),
            path: "/crate/Foo-Bar/0.1.0/builds".to_string(),
        }
    );
    assert_eq!(rejection.status(), 302);
    assert_eq!(rejection.location().as_deref(), Some("/crate/Foo-Bar/0.1.0/builds"));
    assert_eq!(rejection.body(), None);
    assert_eq!(
        build_list_json_handler("FOO-BAR", "latest", &catalog),
        Err(Rejection::CrateNameMismatch {
            corrected_name: "Foo-Bar".to_string(),
            path: "/crate/Foo-Bar/latest/builds.json".to_string(),
        })
    );
    assert_eq!(
        build_list_handler("foo-bar", "^0.1", &catalog).unwrap_err().location().as_deref(),
        Some("/crate/Foo-Bar/^0.1/builds")
    );
    assert_eq!(build_list_handler("foo_bar", "0.1.0", &catalog), Err(Rejection::VersionNotFound));
    assert_eq!(build_list_handler("foo-bar", "0.2.0", &catalog), Err(Rejection::VersionNotFound));

    let found = catalog.match_version("foo-BAR", &ReqVersion::Latest).unwrap();
    assert_eq!(found.corrected_name.as_deref(), Some("Foo-Bar"));
    assert_eq!(found.version.as_str(), "0.1.0");
    assert!(build_list_handler("Foo-Bar", "0.1.0", &catalog).is_ok());
    assert!(!catalog.has_release("foo-bar", &Version::parse("0.1.0").unwrap()));
    assert!(catalog.get_builds("foo-bar", &Version::parse("0.1.0").unwrap()).is_empty());
}

#[test]
fn texts_are_compared_with_and_without_case() {
    assert!(same_text("serde", "serde"));
    assert!(!same_text("serde", "Serde"));
    assert!(!same_text("serde", "serd"));
    assert!(same_text("", ""));
    assert!(texts_alike("serde", "SeRdE"));
    assert!(texts_alike("a-Z_09", "A-z_09"));
    assert!(texts_alike("", ""));
    assert!(!texts_alike("serde", "serd"));
    assert!(!texts_alike("foo-bar", "foo_bar"));
    assert!(!texts_alike("[", "{"));
    assert!(!texts_alike("@", "`"));
    assert!(texts_alike("\u{e9}t\u{e9}", "\u{e9}T\u{e9}"));
    assert!(!texts_alike("\u{c9}", "\u{e9}"));
    assert_eq!(to_lower('A'), 'a');
    assert_eq!(to_lower('Z'), 'z');
    assert_eq!(to_lower('q'), 'q');
    assert_eq!(to_lower('@'), '@');
    assert_eq!(to_lower('['), '[');
    assert_eq!(to_lower('\u{c9}'), '\u{c9}');
}

#[test]
fn resolver_decides_on_what_the_catalog_answers() {
    let exact = ReqVersion::parse("1.2.3").unwrap();
    let v = |text: &str| Version::parse(text).unwrap();
    let found = |text: &str| {
        Ok(Some(MatchedRelease { corrected_name: None, version: v(text) }))
    };

    assert_eq!(resolve_listing("foo", &exact, found("1.2.3"), ListingKind::Page), Ok(v("1.2.3")));
    assert_eq!(
        resolve_listing("foo", &exact, found("1.2.5"), ListingKind::Page),
        Err(Rejection::Redirect {
            path: "/crate/foo/1.2.5/builds".to_string(),
            cache_policy: CachePolicy::ForeverInCdn,
        })
    );
    assert_eq!(
        resolve_listing("foo", &ReqVersion::Latest, found("1.2.5"), ListingKind::Json),
        Ok(v("1.2.5"))
    );
    assert_eq!(
        resolve_listing("foo", &exact, Ok(None), ListingKind::Page),
        Err(Rejection::VersionNotFound)
    );
    assert_eq!(
        resolve_listing("foo", &exact, Err(Outage), ListingKind::Page),
        Err(Rejection::StorageFailure)
    );
    let renamed = Ok(Some(MatchedRelease {
        corrected_name: Some("Foo".to_string()),
        version: v("1.2.3"),
    }));
    assert_eq!(
        resolve_listing("foo", &exact, renamed, ListingKind::Page),
        Err(Rejection::CrateNameMismatch {
            corrected_name: "Foo".to_string(),
            path: "/crate/Foo/1.2.3/builds".to_string(),
        })
    );
}

#[test]
fn history_is_newest_first_without_running_builds() {
    let mut catalog = Catalog::new();
    let v1 = Version::parse("0.1.0").unwrap();
    let v2 = Version::parse("0.2.0").unwrap();
    assert!(catalog.add_release("foo", &v1));
    assert!(catalog.add_release("foo", &v2));
    assert!(!catalog.add_release("foo", &v1));
    let mut ids = vec![];
    for (version, status) in [
        (&v1, BuildStatus::Success),
        (&v2, BuildStatus::Failure),
        (&v1, BuildStatus::InProgress),
        (&v1, BuildStatus::Failure),
        (&v2, BuildStatus::InProgress),
        (&v1, BuildStatus::Success),
    ] {
        ids.push(catalog.add_build("foo", version, status, None, None, None, None).unwrap());
    }
    assert_eq!(ids, vec![1, 2, 3, 4, 5, 6]);
    assert_eq!(
        catalog.add_build(
            "foo",
            &Version::parse("0.3.0").unwrap(),
            BuildStatus::Success,
            None,
            None,
            None,
            None
        ),
        None
    );

    let history = catalog.get_builds("foo", &v1);
    let shown: Vec<(i32, BuildStatus)> = history.iter().map(|b| (b.id, b.build_status)).collect();
    assert_eq!(
        shown,
        vec![(6, BuildStatus::Success), (4, BuildStatus::Failure), (1, BuildStatus::Success)]
    );
    for pair in history.windows(2) {
        assert!(pair[0].id > pair[1].id);
    }
    let history = catalog.get_builds("foo", &v2);
    assert_eq!(history.iter().map(|b| b.id).collect::<Vec<_>>(), vec![2]);
    assert!(catalog.get_builds("bar", &v1).is_empty());
    assert!(catalog.has_release("foo", &v2));
    assert!(!catalog.has_release("bar", &v2));
}

#[test]
fn feed_drops_the_errors_and_reduces_the_status() {
    let builds = vec![
        Build {
            id: 7,
            rustc_version: Some("rustc 1.70".to_string()),
            docsrs_version: None,
            build_status: BuildStatus::Failure,
            build_time: Some(T0),
            errors: Some("it broke".to_string()),
        },
        Build {
            id: 3,
            rustc_version: None,
            docsrs_version: Some("docs.rs 1".to_string()),
            build_status: BuildStatus::Success,
            build_time: None,
            errors: None,
        },
        Build {
            id: 2,
            rustc_version: None,
            docsrs_version: None,
            build_status: BuildStatus::InProgress,
            build_time: None,
            errors: None,
        },
    ];
    let feed = api_builds(&builds);
    assert_eq!(feed.len(), 3);
    for (record, build) in feed.iter().zip(builds.iter()) {
        assert_eq!(record.id, build.id);
        assert_eq!(record.rustc_version, build.rustc_version);
        assert_eq!(record.docsrs_version, build.docsrs_version);
        assert_eq!(record.build_time, build.build_time);
        assert_eq!(record.build_status, build.build_status == BuildStatus::Success);
        assert_eq!(record, &build.to_api());
    }
    assert_eq!(
        feed.iter().map(|b| b.build_status).collect::<Vec<_>>(),
        vec![false, true, false]
    );
    assert_eq!(builds[0].clone(), builds[0]);
}

#[test]
fn paths_of_the_listings() {
    assert_eq!(builds_path("foo", "1.0.0", ListingKind::Page), "/crate/foo/1.0.0/builds");
    assert_eq!(builds_path("foo", "latest", ListingKind::Json), "/crate/foo/latest/builds.json");
    assert_eq!(ListingKind::Page.suffix_str(), "builds");
    assert_eq!(ListingKind::Json.suffix_str(), "builds.json");
}
