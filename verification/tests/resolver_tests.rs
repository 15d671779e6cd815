use self_updater::error::Error;
use self_updater::github::{GithubApi, PageFetch, ScriptedBackend};
use self_updater::release::{GithubAsset, GithubRelease};
use self_updater::version::SimpleComparator;

fn release(tag: &str, name: &str) -> GithubRelease {
    GithubRelease {
        tag_name: tag.to_string(),
        target_commitish: "main".to_string(),
        name: name.to_string(),
        prerelease: false,
        assets: Vec::new(),
        body: String::new(),
    }
}

fn release_full(tag: &str, branch: &str, prerelease: bool, asset_names: &[&str]) -> GithubRelease {
    GithubRelease {
        tag_name: tag.to_string(),
        target_commitish: branch.to_string(),
        name: format!("release {}", tag),
        prerelease,
        assets: asset_names
            .iter()
            .map(|n| GithubAsset {
                name: n.to_string(),
                url: format!("https://example.invalid/{}", n),
            })
            .collect(),
        body: String::new(),
    }
}

fn clone_release(r: &GithubRelease) -> GithubRelease {
    GithubRelease {
        tag_name: r.tag_name.clone(),
        target_commitish: r.target_commitish.clone(),
        name: r.name.clone(),
        prerelease: r.prerelease,
        assets: r
            .assets
            .iter()
            .map(|a| GithubAsset { name: a.name.clone(), url: a.url.clone() })
            .collect(),
        body: r.body.clone(),
    }
}

#[test]
fn pagination_concatenates_until_first_empty_page() {
    let mut backend = ScriptedBackend::new(vec![
        Ok(vec![release("1.0.0", "a"), release("1.1.0", "b")]),
        Ok(vec![release("1.2.0", "c")]),
        Ok(Vec::new()),
        Ok(vec![release("9.9.9", "never fetched")]),
    ]);
    let api = GithubApi::new("owner", "repo");
    let all = api.get_all(&mut backend).unwrap();
    let tags: Vec<&str> = all.iter().map(|r| r.tag_name.as_str()).collect();
    assert_eq!(tags, vec!["1.0.0", "1.1.0", "1.2.0"]);
    assert_eq!(backend.requests(), 3);
}

#[test]
fn pagination_ends_past_the_scripted_pages() {
    let mut backend = ScriptedBackend::new(vec![Ok(vec![release("1.0.0", "a")])]);
    let api = GithubApi::new("owner", "repo");
    let all = api.get_all(&mut backend).unwrap();
    assert_eq!(all.len(), 1);
    assert_eq!(backend.requests(), 2);
}

#[test]
fn page_failure_aborts_with_that_pages_error() {
    let mut backend = ScriptedBackend::new(vec![
        Ok(vec![release("1.0.0", "a")]),
        Err("page two is on fire".to_string()),
        Ok(vec![release("1.1.0", "b")]),
    ]);
    let api = GithubApi::new("owner", "repo");
    let err = api.get_all(&mut backend).unwrap_err();
    match err {
        Error::Backend(msg) => assert_eq!(msg, "page two is on fire"),
        _ => panic!("expected the failing page's own error"),
    }
    // the failing page ends the fetch: nothing after it is requested
    assert_eq!(backend.requests(), 2);
}

#[test]
fn get_all_returns_releases_unfiltered() {
    // filtering is resolution's business; the fetch returns everything
    let pre = release_full("2.0.0-beta", "main", true, &[]);
    let stable = release_full("1.0.0", "main", false, &[]);
    let mut backend = ScriptedBackend::new(vec![Ok(vec![
        clone_release(&stable),
        clone_release(&pre),
    ])]);
    let api = GithubApi::new("owner", "repo");
    let all = api.get_all(&mut backend).unwrap();
    let tags: Vec<&str> = all.iter().map(|r| r.tag_name.as_str()).collect();
    assert_eq!(tags, vec!["1.0.0", "2.0.0-beta"]);
}

#[test]
fn page_fetch_walks_pages_and_stops_on_the_empty_one() {
    let mut fetch = PageFetch::new();
    assert_eq!(fetch.next_request(), (1, 100));
    assert!(!fetch.note_page(vec![release("1.0.0", "a")]).unwrap());
    assert_eq!(fetch.next_request(), (2, 100));
    assert!(!fetch.note_page(vec![release("1.1.0", "b"), release("1.2.0", "c")]).unwrap());
    assert_eq!(fetch.next_request(), (3, 100));
    assert!(fetch.note_page(Vec::new()).unwrap());
    assert_eq!(fetch.next_request(), (3, 100));
    let all = fetch.into_releases();
    let tags: Vec<&str> = all.iter().map(|r| r.tag_name.as_str()).collect();
    assert_eq!(tags, vec!["1.0.0", "1.1.0", "1.2.0"]);
}

#[test]
fn release_page_url_names_host_repository_and_page() {
    let api = GithubApi::new("owner", "repo");
    assert_eq!(
        api.release_page_url(7, 100),
        "https://api.github.com/repos/owner/repo/releases?per_page=100&page=7"
    );
    let custom = GithubApi::new("o", "r").api_url("github.example.invalid");
    assert_eq!(
        custom.release_page_url(1, 30),
        "https://github.example.invalid/repos/o/r/releases?per_page=30&page=1"
    );
}

#[test]
fn auth_header_prefixes_the_token() {
    let api = GithubApi::new("owner", "repo").auth_token("SECRET-REDACTED");
    assert_eq!(api.auth_header().unwrap(), "token SECRET-REDACTED");
    assert!(GithubApi::new("owner", "repo").auth_header().is_none());
}

#[test]
fn send_picks_numerically_newest_tag() {
    let mut backend = ScriptedBackend::new(vec![Ok(vec![
        release("0.9.0", "a"),
        release("1.10.0", "b"),
        release("1.2.0", "c"),
    ])]);
    let api = GithubApi::new("owner", "repo");
    let latest = api.send(&mut backend, &None::<SimpleComparator>).unwrap();
    assert_eq!(latest.tag_name, "1.10.0");
    assert_eq!(latest.name, "b");
}

#[test]
fn get_latest_matches_send() {
    let mut backend =
        ScriptedBackend::new(vec![Ok(vec![release("0.1.0", "a"), release("0.2.0", "b")])]);
    let api = GithubApi::new("owner", "repo");
    let latest = api.get_latest(&mut backend, &None::<SimpleComparator>).unwrap();
    assert_eq!(latest.tag_name, "0.2.0");
}

#[test]
fn equal_tags_keep_first_fetched_release() {
    let mut backend = ScriptedBackend::new(vec![Ok(vec![
        release("1.0.0", "first"),
        release("1.0.0", "second"),
    ])]);
    let api = GithubApi::new("owner", "repo");
    let latest = api.send(&mut backend, &None::<SimpleComparator>).unwrap();
    assert_eq!(latest.name, "first");
}

#[test]
fn unparseable_tags_compare_equal_so_fetch_order_decides() {
    let mut backend = ScriptedBackend::new(vec![Ok(vec![
        release("nightly-a", "first"),
        release("nightly-b", "second"),
    ])]);
    let api = GithubApi::new("owner", "repo");
    let latest = api.send(&mut backend, &None::<SimpleComparator>).unwrap();
    assert_eq!(latest.name, "first");
}

#[test]
fn no_matching_release_is_reported() {
    let mut backend = ScriptedBackend::new(vec![Ok(Vec::new())]);
    let api = GithubApi::new("owner", "repo");
    let err = api.send(&mut backend, &None::<SimpleComparator>).unwrap_err();
    assert!(matches!(err, Error::NoRelease));
}

#[test]
fn prerelease_excluded_unless_allowed() {
    let pre = release_full("2.0.0-beta", "main", true, &["tool.exe"]);
    let stable = release_full("1.0.0", "main", false, &["tool.exe"]);
    let mut backend = ScriptedBackend::new(vec![Ok(vec![
        clone_release(&stable),
        clone_release(&pre),
    ])]);

    let api = GithubApi::new("owner", "repo");
    assert!(!api.filter_release(&pre));
    assert!(api.filter_release(&stable));
    let latest = api.send(&mut backend, &None::<SimpleComparator>).unwrap();
    assert_eq!(latest.tag_name, "1.0.0");

    let allowing = GithubApi::new("owner", "repo").prerelease(true);
    assert!(allowing.filter_release(&pre));
}

#[test]
fn filter_requires_every_criterion() {
    let r = release_full("1.2.3", "main", false, &["tool-linux", "tool-windows"]);

    assert!(GithubApi::new("o", "r").specific_tag("1.2.3").filter_release(&r));
    assert!(!GithubApi::new("o", "r").specific_tag("1.2.4").filter_release(&r));

    assert!(GithubApi::new("o", "r").branch("main").filter_release(&r));
    assert!(!GithubApi::new("o", "r").branch("dev").filter_release(&r));

    assert!(GithubApi::new("o", "r").asset_name("tool-windows").filter_release(&r));
    assert!(!GithubApi::new("o", "r").asset_name("tool-mac").filter_release(&r));

    let all = GithubApi::new("o", "r").specific_tag("1.2.3").branch("main").asset_name(
        "tool-linux",
    );
    assert!(all.filter_release(&r));

    let one_off = GithubApi::new("o", "r").specific_tag("1.2.3").branch("dev").asset_name(
        "tool-linux",
    );
    assert!(!one_off.filter_release(&r));
}

#[test]
fn match_releases_keeps_fetch_order() {
    let api = GithubApi::new("o", "r").branch("main");
    let list = vec![
        release_full("1.0.0", "main", false, &[]),
        release_full("1.1.0", "dev", false, &[]),
        release_full("1.2.0", "main", false, &[]),
    ];
    let matched = api.match_releases(&list);
    let tags: Vec<&str> = matched.iter().map(|r| r.tag_name.as_str()).collect();
    assert_eq!(tags, vec!["1.0.0", "1.2.0"]);
}

#[test]
fn get_newer_returns_release_only_when_strictly_newer() {
    let mut backend = ScriptedBackend::new(vec![Ok(vec![release("1.2.0", "same")])]);
    let api = GithubApi::new("owner", "repo").current_version("1.2.0");
    let r = api.get_newer(&mut backend, &None::<SimpleComparator>).unwrap();
    assert!(r.is_none());

    let mut backend = ScriptedBackend::new(vec![Ok(vec![release("1.3.0", "newer")])]);
    let api = GithubApi::new("owner", "repo").current_version("1.2.0");
    let r = api.get_newer(&mut backend, &None::<SimpleComparator>).unwrap();
    assert_eq!(r.unwrap().tag_name, "1.3.0");
}

#[test]
fn get_newer_without_baseline_returns_resolved_release() {
    let mut backend = ScriptedBackend::new(vec![Ok(vec![release("0.0.1", "tiny")])]);
    let api = GithubApi::new("owner", "repo");
    let r = api.get_newer(&mut backend, &None::<SimpleComparator>).unwrap();
    assert_eq!(r.unwrap().tag_name, "0.0.1");
}

#[test]
fn resolve_from_selects_without_fetching() {
    let api = GithubApi::new("owner", "repo");
    let list = vec![release("1.0.0", "a"), release("2.0.0", "b"), release("1.5.0", "c")];
    let latest = api.resolve_from(&list, &None::<SimpleComparator>).unwrap();
    assert_eq!(latest.tag_name, "2.0.0");

    let err = api.resolve_from(&Vec::new(), &None::<SimpleComparator>).unwrap_err();
    assert!(matches!(err, Error::NoRelease));
}

#[test]
fn supplying_the_default_comparator_explicitly_matches_the_default() {
    let api = GithubApi::new("owner", "repo");
    let list = vec![release("1.2.0", "a"), release("1.10.0", "b")];
    let latest = api.resolve_from(&list, &Some(SimpleComparator)).unwrap();
    assert_eq!(latest.tag_name, "1.10.0");
}

#[test]
fn newer_than_current_needs_strictly_greater() {
    let api = GithubApi::new("owner", "repo").current_version("1.2.0");
    assert!(api.is_newer_than_current("1.3.0", &None::<SimpleComparator>));
    assert!(!api.is_newer_than_current("1.2.0", &None::<SimpleComparator>));
    assert!(!api.is_newer_than_current("1.1.9", &None::<SimpleComparator>));
    // unparseable tags compare equal to anything, so they are never newer
    assert!(!api.is_newer_than_current("nightly", &None::<SimpleComparator>));

    let no_baseline = GithubApi::new("owner", "repo");
    assert!(no_baseline.is_newer_than_current("0.0.1", &None::<SimpleComparator>));
}

#[test]
fn error_constructors_build_their_variants() {
    assert!(matches!(Error::no_release(), Error::NoRelease));
    match Error::http("418 I'm a teapot") {
        Error::Http(code) => assert_eq!(code, "418 I'm a teapot"),
        _ => panic!("expected an http error"),
    }
}

#[test]
fn builders_feed_getters() {
    let api = GithubApi::new("owner", "repo").api_url("api.example.invalid").auth_token(
        "SECRET-REDACTED",
    );
    assert_eq!(api.get_owner(), "owner");
    assert_eq!(api.get_repo(), "repo");
    assert_eq!(api.get_api_url().unwrap(), "api.example.invalid");
    assert_eq!(api.get_auth_token().unwrap(), "SECRET-REDACTED");

    let bare = GithubApi::new("owner", "repo");
    assert!(bare.get_api_url().is_none());
    assert!(bare.get_auth_token().is_none());
    assert!(bare.get_current_version().is_none());

    let with_version = GithubApi::new("owner", "repo").current_version("3.1.4");
    assert_eq!(with_version.get_current_version().unwrap(), "3.1.4");
}

#[test]
fn asset_getters_expose_name_and_url() {
    let a = GithubAsset {
        name: "tool.exe".to_string(),
        url: "https://example.invalid/tool.exe".to_string(),
    };
    assert_eq!(a.get_name(), "tool.exe");
    assert_eq!(a.get_download_url(), "https://example.invalid/tool.exe");
}
