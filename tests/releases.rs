use axoupdater::errors::AxoupdateError;
use axoupdater::release::{
    is_installable, GazenotAsset, GazenotRelease, GithubAsset, GithubRelease, Platform, Release,
    ReleaseSourceType,
};
use axoupdater::resolve::{newest_first_order, FetchStep, Lookup, ReleaseLookup};
use axoupdater::version::Version;

fn v(s: &str) -> Version {
    Version::parse(s).ok().unwrap()
}

fn gh(tag: &str, prerelease: bool, asset_names: &[&str]) -> GithubRelease {
    GithubRelease {
        tag_name: tag.to_string(),
        name: tag.to_string(),
        url: String::new(),
        assets: asset_names
            .iter()
            .map(|n| GithubAsset {
                url: format!("https://api.example.com/{n}"),
                browser_download_url: format!("https://dl.example.com/{tag}/{n}"),
                name: n.to_string(),
            })
            .collect(),
        prerelease,
    }
}

fn release(tag: &str, prerelease: bool) -> Release {
    Release::try_from_github("axolotlsay", gh(tag, prerelease, &["axolotlsay-installer.sh", "axolotlsay-installer.ps1"]))
        .ok()
        .unwrap()
}

fn lookup(backend: ReleaseSourceType, l: Lookup) -> ReleaseLookup {
    ReleaseLookup {
        backend,
        owner: "axodotdev".to_string(),
        name: "axolotlsay".to_string(),
        app_name: "axolotlsay".to_string(),
        token: None,
        lookup: l,
    }
}

fn text(v: &Version) -> String {
    let mut s = format!("{}.{}.{}", v.major(), v.minor(), v.patch());
    if !v.pre().is_empty() {
        s.push('-');
        s.push_str(v.pre());
    }
    s
}

#[test]
fn versions_parse_and_order() {
    assert!(v("1.0.0").is_older_than(&v("1.1.0")));
    assert!(!v("1.1.0").is_older_than(&v("1.0.0")));
    assert!(v("1.0.0-alpha").is_older_than(&v("1.0.0-beta")));
    assert!(v("1.0.0-beta.2").is_older_than(&v("1.0.0-beta.11")));
    assert!(v("1.0.0-rc.1").is_older_than(&v("1.0.0")));
    assert_eq!(v("1.0.0").compare(&v("1.0.0")), 0);
    assert_eq!(v("2.0.0").compare(&v("1.9.9")), 1);
    assert!(v("1.2.3").same_as(&v("1.2.3")));
    assert!(!v("1.2.3").same_as(&v("1.2.3+build5")));
    let x = v("3.4.5-beta.1+b7");
    assert_eq!((x.major(), x.minor(), x.patch(), x.pre(), x.build()), (3, 4, 5, "beta.1", "b7"));
}

#[test]
fn unparsable_version_is_a_version_error() {
    assert!(matches!(Version::parse("1.x"), Err(AxoupdateError::Version { text }) if text == "1.x"));
}

#[test]
fn tag_version_strips_prefixes() {
    assert_eq!(text(&release("v1.2.3", false).version), "1.2.3");
    assert_eq!(text(&release("1.2.3", false).version), "1.2.3");
    assert_eq!(text(&release("axolotlsay-v0.2.115", false).version), "0.2.115");
    assert_eq!(text(&release("axolotlsay/v2.0.0-beta.1", true).version), "2.0.0-beta.1");
}

#[test]
fn github_release_keeps_fields() {
    let r = release("v0.2.116", false);
    assert_eq!(r.tag_name, "v0.2.116");
    assert_eq!(r.name, "v0.2.116");
    assert_eq!(r.url, "");
    assert_eq!(r.assets.len(), 2);
    assert_eq!(r.assets[0].name, "axolotlsay-installer.sh");
    assert_eq!(r.assets[0].browser_download_url, "https://dl.example.com/v0.2.116/axolotlsay-installer.sh");
    assert_eq!(r.assets[0].url, "https://api.example.com/axolotlsay-installer.sh");
}

#[test]
fn bad_tag_is_a_tag_error() {
    let r = Release::try_from_github("axolotlsay", gh("nightly", false, &[]));
    assert!(matches!(r, Err(AxoupdateError::Axotag { tag }) if tag == "nightly"));
}

#[test]
fn gazenot_release_reads_version_text() {
    let r = Release::from_gazenot("axolotlsay", GazenotRelease {
        tag_name: "v1.5.0".to_string(),
        version: "1.5.0".to_string(),
        name: "1.5.0".to_string(),
        assets: vec![GazenotAsset {
            browser_download_url: "https://dl.example.com/x-installer.sh".to_string(),
            name: "axolotlsay-installer.sh".to_string(),
        }],
        prerelease: false,
    })
    .ok()
    .unwrap();
    assert_eq!(text(&r.version), "1.5.0");
    assert_eq!(r.assets[0].url, "https://dl.example.com/x-installer.sh");
    let bad = Release::from_gazenot("axolotlsay", GazenotRelease {
        tag_name: "v1".to_string(),
        version: "one".to_string(),
        name: String::new(),
        assets: vec![],
        prerelease: false,
    });
    assert!(matches!(bad, Err(AxoupdateError::Axotag { tag }) if tag == "v1"));
}

#[test]
fn gazenot_version_comes_from_the_tag() {
    let r = Release::from_gazenot("axolotlsay", GazenotRelease {
        tag_name: "v1.5.0".to_string(),
        version: "1.4.0".to_string(),
        name: String::new(),
        assets: vec![],
        prerelease: false,
    })
    .ok()
    .unwrap();
    assert_eq!(text(&r.version), "1.5.0");
    let r = Release::from_gazenot("axolotlsay", GazenotRelease {
        tag_name: "axolotlsay-v0.2.115".to_string(),
        version: "unreadable".to_string(),
        name: String::new(),
        assets: vec![],
        prerelease: false,
    })
    .ok()
    .unwrap();
    assert_eq!(text(&r.version), "0.2.115");
}

#[test]
fn latest_ranks_prereleases_by_precedence() {
    let l = lookup(ReleaseSourceType::GitHub, Lookup::LatestMaybePrerelease);
    let r = l
        .resolve_from_list(
            vec![release("v2.0.0-beta.11", true), release("v2.0.0-beta.2", true), release("v2.0.0-alpha", true)],
            Platform::Unix,
        )
        .ok()
        .unwrap();
    assert_eq!(r.tag_name, "v2.0.0-beta.11");
}

#[test]
fn build_metadata_does_not_rank() {
    assert_eq!(v("1.0.0+b1").compare(&v("1.0.0+b2")), 0);
    assert!(!v("1.0.0+zzz").is_older_than(&v("1.0.0+aaa")));
    assert!(!v("1.0.0+aaa").is_older_than(&v("1.0.0+zzz")));
}

#[test]
fn tag_version_is_semver_of_tag_without_v() {
    for tag in ["v1.2.3", "0.9.0-rc.2", "v10.0.1+b3"] {
        let r = release(tag, false);
        let stripped = tag.strip_prefix('v').unwrap_or(tag);
        assert!(r.version.same_as(&v(stripped)));
    }
}

#[test]
fn installable_needs_prefix_and_extension() {
    let r = release("v1.0.0", false);
    assert!(is_installable(&r, "axolotlsay", Platform::Unix));
    assert!(is_installable(&r, "axolotlsay", Platform::Windows));
    assert!(!is_installable(&r, "other", Platform::Unix));
    let only_ps = Release::try_from_github("axolotlsay", gh("v1.0.0", false, &["axolotlsay-installer.ps1"])).ok().unwrap();
    assert!(!is_installable(&only_ps, "axolotlsay", Platform::Unix));
}

#[test]
fn latest_picks_highest_stable() {
    let l = lookup(ReleaseSourceType::GitHub, Lookup::Latest);
    let r = l.resolve_from_list(vec![release("v1.0.0", false), release("v1.1.0", false)], Platform::Unix).ok().unwrap();
    assert_eq!(r.tag_name, "v1.1.0");
}

#[test]
fn latest_skips_prereleases_but_maybe_prerelease_does_not() {
    let list = || vec![release("v2.0.0-beta.1", true), release("v1.5.0", false)];
    let stable = lookup(ReleaseSourceType::GitHub, Lookup::Latest).resolve_from_list(list(), Platform::Unix).ok().unwrap();
    assert_eq!(text(&stable.version), "1.5.0");
    let any = lookup(ReleaseSourceType::GitHub, Lookup::LatestMaybePrerelease).resolve_from_list(list(), Platform::Unix).ok().unwrap();
    assert_eq!(text(&any.version), "2.0.0-beta.1");
}

#[test]
fn latest_without_installable_release_fails() {
    let l = lookup(ReleaseSourceType::GitHub, Lookup::Latest);
    let r = l.resolve_from_list(vec![release("v2.0.0-beta.1", true)], Platform::Unix);
    assert!(matches!(r, Err(AxoupdateError::NoStableReleases { app_name }) if app_name == "axolotlsay"));
    let uninstallable = Release::try_from_github("axolotlsay", gh("v3.0.0", false, &["notes.txt"])).ok().unwrap();
    let r = l.resolve_from_list(vec![uninstallable], Platform::Unix);
    assert!(matches!(r, Err(AxoupdateError::NoStableReleases { .. })));
}

#[test]
fn specific_version_found_or_version_not_found() {
    let l = lookup(ReleaseSourceType::GitHub, Lookup::SpecificVersion(v("0.2.115"), "0.2.115".to_string()));
    let r = l.resolve_from_list(vec![release("v0.2.116", false), release("v0.2.115", false)], Platform::Unix).ok().unwrap();
    assert_eq!(r.tag_name, "v0.2.115");
    let r = l.resolve_from_list(vec![release("v0.2.116", false)], Platform::Unix);
    assert!(matches!(r, Err(AxoupdateError::VersionNotFound { version, .. }) if version == "0.2.115"));
}

#[test]
fn specific_tag_scan_or_release_not_found() {
    let l = lookup(ReleaseSourceType::Axo, Lookup::SpecificTag("v0.2.115".to_string()));
    let r = l.resolve_from_list(vec![release("v0.2.115", false), release("v0.2.116", false)], Platform::Unix).ok().unwrap();
    assert_eq!(r.tag_name, "v0.2.115");
    let r = l.resolve_from_list(vec![release("v0.2.116", false)], Platform::Unix);
    assert!(matches!(r, Err(AxoupdateError::ReleaseNotFound { name, app_name }) if name == "axolotlsay" && app_name == "axolotlsay"));
}

#[test]
fn axo_lists_are_reversed_github_lists_kept() {
    let axo = newest_first_order(ReleaseSourceType::Axo, vec![release("v1.0.0", false), release("v1.1.0", false), release("v1.2.0", false)]);
    let tags: Vec<&str> = axo.iter().map(|r| r.tag_name.as_str()).collect();
    assert_eq!(tags, vec!["v1.2.0", "v1.1.0", "v1.0.0"]);
    let gh = newest_first_order(ReleaseSourceType::GitHub, vec![release("v1.2.0", false), release("v1.0.0", false)]);
    let tags: Vec<&str> = gh.iter().map(|r| r.tag_name.as_str()).collect();
    assert_eq!(tags, vec!["v1.2.0", "v1.0.0"]);
}

#[test]
fn equal_versions_resolve_to_newest_listed() {
    let l = lookup(ReleaseSourceType::GitHub, Lookup::Latest);
    let r = l.resolve_from_list(vec![release("v1.1.0", false), release("axolotlsay-v1.1.0", false)], Platform::Unix).ok().unwrap();
    assert_eq!(r.tag_name, "axolotlsay-v1.1.0");
}

#[test]
fn fetch_steps_and_urls() {
    let latest = lookup(ReleaseSourceType::GitHub, Lookup::Latest);
    assert!(latest.first_fetch() == FetchStep::LatestEndpoint);
    assert_eq!(latest.github_url(FetchStep::LatestEndpoint), "https://api.github.com/repos/axodotdev/axolotlsay/releases/latest");
    assert_eq!(latest.github_url(FetchStep::FullList), "https://api.github.com/repos/axodotdev/axolotlsay/releases");
    let tag = lookup(ReleaseSourceType::GitHub, Lookup::SpecificTag("v0.2.115".to_string()));
    assert!(tag.first_fetch() == FetchStep::TagEndpoint);
    assert_eq!(tag.github_url(FetchStep::TagEndpoint), "https://api.github.com/repos/axodotdev/axolotlsay/releases/tags/v0.2.115");
    assert!(lookup(ReleaseSourceType::Axo, Lookup::Latest).first_fetch() == FetchStep::FullList);
    assert!(lookup(ReleaseSourceType::GitHub, Lookup::LatestMaybePrerelease).first_fetch() == FetchStep::FullList);
}

#[test]
fn failed_fetch_errors() {
    let tag = lookup(ReleaseSourceType::GitHub, Lookup::SpecificTag("v9".to_string()));
    assert!(tag.failed_fetch_error(FetchStep::LatestEndpoint).is_none());
    assert!(matches!(tag.failed_fetch_error(FetchStep::TagEndpoint), Some(AxoupdateError::VersionNotFound { version, .. }) if version == "v9"));
    assert!(matches!(tag.failed_fetch_error(FetchStep::FullList), Some(AxoupdateError::ReleaseNotFound { .. })));
}

#[test]
fn latest_endpoint_needs_an_installer() {
    let l = lookup(ReleaseSourceType::GitHub, Lookup::Latest);
    assert!(l.accept_latest_endpoint(release("v1.0.0", false), Platform::Unix).is_some());
    let bare = Release::try_from_github("axolotlsay", gh("v1.0.0", false, &["source.tar.gz"])).ok().unwrap();
    assert!(l.accept_latest_endpoint(bare, Platform::Unix).is_none());
}

#[test]
fn backend_names() {
    assert_eq!(ReleaseSourceType::GitHub.to_string(), "github");
    assert_eq!(ReleaseSourceType::Axo.to_string(), "axodotdev");
}
