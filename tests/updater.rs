use axoupdater::decision::is_update_needed;
use axoupdater::errors::AxoupdateError;
use axoupdater::release::{GithubAsset, GithubRelease, Platform, Release, ReleaseSource, ReleaseSourceType, UpdateRequest};
use axoupdater::resolve::Lookup;
use axoupdater::updater::{
    get_app_name, get_config_path, receipt_is_for_executable, receipt_path, restore_failed, AxoUpdater, ConfigSources,
    InstallReceipt, InstallerSource, UpdateCheck,
};
use axoupdater::paths::strip_bin;
use axoupdater::version::Version;

fn v(s: &str) -> Version {
    Version::parse(s).ok().unwrap()
}

fn source() -> ReleaseSource {
    ReleaseSource {
        release_type: ReleaseSourceType::GitHub,
        owner: "axodotdev".to_string(),
        name: "axolotlsay".to_string(),
        app_name: "axolotlsay".to_string(),
    }
}

fn receipt(version: &str, prefix: &str) -> InstallReceipt {
    InstallReceipt {
        install_prefix: prefix.to_string(),
        binaries: vec!["axolotlsay".to_string()],
        source: source(),
        version: version.to_string(),
    }
}

fn release(tag: &str, assets: &[&str]) -> Release {
    Release::try_from_github(
        "axolotlsay",
        GithubRelease {
            tag_name: tag.to_string(),
            name: tag.to_string(),
            url: String::new(),
            assets: assets
                .iter()
                .map(|n| GithubAsset {
                    url: String::new(),
                    browser_download_url: format!("https://dl.example.com/{n}"),
                    name: n.to_string(),
                })
                .collect(),
            prerelease: false,
        },
    )
    .ok()
    .unwrap()
}

fn loaded(version: &str) -> AxoUpdater {
    let mut u = AxoUpdater::new_for("axolotlsay");
    u.load_receipt(receipt(version, "/home/me/.cargo/bin")).ok().unwrap();
    u
}

#[test]
fn update_decision_table() {
    let latest = UpdateRequest::Latest;
    assert!(!is_update_needed(&v("1.0.0"), &v("1.0.0"), &latest));
    assert!(is_update_needed(&v("1.0.0"), &v("1.1.0"), &latest));
    assert!(!is_update_needed(&v("1.1.0"), &v("1.0.0"), &latest));
    let specific = UpdateRequest::SpecificVersion("1.0.0".to_string());
    assert!(is_update_needed(&v("1.1.0"), &v("1.0.0"), &specific));
    assert!(!is_update_needed(&v("1.0.0"), &v("1.0.0"), &specific));
    let tag = UpdateRequest::SpecificTag("v1.0.0".to_string());
    assert!(is_update_needed(&v("1.1.0"), &v("1.0.0"), &tag));
    assert!(is_update_needed(&v("1.0.0-beta.1"), &v("1.0.0"), &UpdateRequest::LatestMaybePrerelease));
}

#[test]
fn bails_out_with_default_name() {
    let r = AxoUpdater::new_for_updater_executable(Some("axoupdater".to_string()));
    assert!(matches!(r, Err(AxoupdateError::UpdateSelf)));
    let r = AxoUpdater::new_for_updater_executable(None);
    assert!(matches!(r, Err(AxoupdateError::NoAppName)));
    let u = AxoUpdater::new_for_updater_executable(Some("axolotlsay".to_string())).ok().unwrap();
    assert_eq!(u.name, Some("axolotlsay".to_string()));
}

#[test]
fn app_name_detection() {
    assert_eq!(get_app_name(Some("given".to_string()), Some("/x/other-update".to_string())), Some("given".to_string()));
    assert_eq!(get_app_name(None, Some("/usr/local/bin/axolotlsay-update".to_string())), Some("axolotlsay".to_string()));
    assert_eq!(get_app_name(None, Some("C:/tools/axolotlsay-update.exe".to_string())), Some("axolotlsay".to_string()));
    assert_eq!(get_app_name(None, Some("axoupdater".to_string())), Some("axoupdater".to_string()));
    assert_eq!(get_app_name(None, None), None);
}

#[test]
fn receipt_loading() {
    let mut nameless = AxoUpdater::new();
    assert!(matches!(nameless.load_receipt(receipt("1.0.0", "/p")), Err(AxoupdateError::NoAppNamePassed)));
    let mut u = AxoUpdater::new_for("axolotlsay");
    assert!(matches!(u.load_receipt(receipt("one", "/p")), Err(AxoupdateError::Version { .. })));
    assert!(u.load_receipt(receipt("0.2.115", "/home/me/.cargo/bin")).is_ok());
    assert_eq!(u.install_prefix_root().ok().unwrap(), "/home/me/.cargo");
    assert_eq!(u.source.as_ref().unwrap().owner, "axodotdev");
}

#[test]
fn config_path_precedence() {
    let all = || ConfigSources {
        working_dir_override: Some("/cwd".to_string()),
        path_override: Some("/explicit".to_string()),
        platform_config_dir: Some("/home/me/.config".to_string()),
    };
    assert_eq!(get_config_path(all(), "axolotlsay").ok().unwrap(), "/cwd");
    let mut s = all();
    s.working_dir_override = None;
    assert_eq!(get_config_path(s, "axolotlsay").ok().unwrap(), "/explicit");
    let s = ConfigSources { working_dir_override: None, path_override: None, platform_config_dir: Some("/home/me/.config".to_string()) };
    assert_eq!(get_config_path(s, "axolotlsay").ok().unwrap(), "/home/me/.config/axolotlsay");
    let none = ConfigSources { working_dir_override: None, path_override: None, platform_config_dir: None };
    assert!(matches!(get_config_path(none, "axolotlsay"), Err(AxoupdateError::NoHome)));
    let s = ConfigSources { working_dir_override: None, path_override: Some("/cfg".to_string()), platform_config_dir: None };
    assert_eq!(receipt_path(s, "axolotlsay").ok().unwrap(), "/cfg/axolotlsay-receipt.json");
    let none = ConfigSources { working_dir_override: None, path_override: None, platform_config_dir: None };
    assert!(matches!(receipt_path(none, "axolotlsay"), Err(AxoupdateError::ConfigFetchFailed { app_name }) if app_name == "axolotlsay"));
}

#[test]
fn bin_components_are_stripped() {
    assert_eq!(strip_bin("/home/me/.cargo/bin".to_string()), "/home/me/.cargo");
    assert_eq!(strip_bin("/opt/app".to_string()), "/opt/app");
    assert_eq!(strip_bin("bin".to_string()), "");
}

#[test]
fn ownership_guard_compares_roots() {
    assert!(receipt_is_for_executable("/home/me/.cargo/bin/axolotlsay", "/home/me/.cargo"));
    assert!(receipt_is_for_executable("/opt/app/axolotlsay", "/opt/app"));
    assert!(!receipt_is_for_executable("/usr/bin/axolotlsay", "/home/me/.cargo"));
    let u = loaded("1.0.0");
    assert!(u.check_receipt_is_for_this_executable("/home/me/.cargo/bin/axolotlsay", "/home/me/.cargo"));
}

#[test]
fn foreign_executable_needs_no_update_and_no_fetch() {
    let u = loaded("1.0.0");
    assert!(matches!(u.is_update_needed(false), Ok(UpdateCheck::Decided(false))));
    assert!(matches!(u.is_update_needed(true), Ok(UpdateCheck::NeedRelease)));
}

#[test]
fn update_check_uses_cached_release() {
    let mut u = loaded("1.0.0");
    u.set_requested_release(release("v1.1.0", &["axolotlsay-installer.sh"]));
    assert!(matches!(u.is_update_needed(true), Ok(UpdateCheck::Decided(true))));
    u.configure_version_specifier(UpdateRequest::SpecificVersion("1.0.0".to_string()));
    u.set_requested_release(release("v1.0.0", &["axolotlsay-installer.sh"]));
    assert!(matches!(u.is_update_needed(true), Ok(UpdateCheck::Decided(false))));
    assert_eq!(u.query_new_version().unwrap().minor(), 0);
}

#[test]
fn update_check_needs_current_version() {
    let u = AxoUpdater::new_for("axolotlsay");
    assert!(matches!(u.is_update_needed(true), Err(AxoupdateError::NotConfigured { missing_field }) if missing_field == "current_version"));
}

#[test]
fn release_lookup_validates_configuration() {
    let u = AxoUpdater::new();
    assert!(matches!(u.release_lookup(), Err(AxoupdateError::NotConfigured { missing_field }) if missing_field == "app_name"));
    let u = AxoUpdater::new_for("axolotlsay");
    assert!(matches!(u.release_lookup(), Err(AxoupdateError::NotConfigured { missing_field }) if missing_field == "source"));
    let mut u = loaded("1.0.0");
    u.set_github_token("ghp_example_token");
    u.configure_version_specifier(UpdateRequest::SpecificVersion("0.2.115".to_string()));
    let l = u.release_lookup().ok().unwrap();
    assert!(matches!(&l.lookup, Lookup::SpecificVersion(v, t) if v.patch() == 115 && t == "0.2.115"));
    assert_eq!(l.token, Some("ghp_example_token".to_string()));
    u.configure_version_specifier(UpdateRequest::SpecificVersion("latest".to_string()));
    assert!(matches!(u.release_lookup(), Err(AxoupdateError::Version { .. })));
}

#[test]
fn install_plan_picks_platform_installer() {
    let mut u = loaded("1.0.0");
    u.set_requested_release(release("v1.1.0", &["axolotlsay-installer.ps1", "axolotlsay-installer.sh"]));
    u.disable_installer_stdout();
    let plan = u.plan_install(Platform::Unix).ok().unwrap();
    assert!(matches!(&plan.installer, InstallerSource::Download(url) if url == "https://dl.example.com/axolotlsay-installer.sh"));
    assert_eq!(plan.staged_file_name, "installer.sh");
    assert_eq!(plan.install_root, "/home/me/.cargo");
    assert!(!plan.relocate_self && !plan.via_interpreter);
    assert!(!plan.show_stdout && plan.show_stderr);
    let win = u.plan_install(Platform::Windows).ok().unwrap();
    assert!(matches!(&win.installer, InstallerSource::Download(url) if url == "https://dl.example.com/axolotlsay-installer.ps1"));
    assert_eq!(win.staged_file_name, "installer.ps1");
    assert!(win.relocate_self && win.via_interpreter);
}

#[test]
fn install_plan_override_and_missing_installer() {
    let mut u = loaded("1.0.0");
    u.set_requested_release(release("v1.1.0", &["notes.txt"]));
    assert!(matches!(u.plan_install(Platform::Unix), Err(AxoupdateError::NoInstallerForPackage)));
    u.configure_installer_path("/tmp/my-installer.sh".to_string());
    let plan = u.plan_install(Platform::Unix).ok().unwrap();
    assert!(matches!(&plan.installer, InstallerSource::Local(p) if p == "/tmp/my-installer.sh"));
    u.use_release_installer();
    assert!(u.plan_install(Platform::Unix).is_err());
    let fresh = AxoUpdater::new_for("axolotlsay");
    assert!(matches!(fresh.plan_install(Platform::Unix), Err(AxoupdateError::NotConfigured { .. })));
}

#[test]
fn failed_installer_after_relocation_restores() {
    let mut u = loaded("1.0.0");
    u.set_requested_release(release("v1.1.0", &["axolotlsay-installer.sh"]));
    let failed = u.finish_run(Err(AxoupdateError::Axoprocess { message: "exit 1".to_string() }), true, "/home/me/.cargo".to_string());
    assert!(failed.restore_self);
    assert!(matches!(failed.result, Err(AxoupdateError::Axoprocess { .. })));
    let failed_unmoved = u.finish_run(Err(AxoupdateError::Io { message: "spawn".to_string() }), false, "/r".to_string());
    assert!(!failed_unmoved.restore_self);
    let ok = u.finish_run(Ok(()), true, "/home/me/.cargo".to_string());
    assert!(!ok.restore_self);
    let res = ok.result.ok().unwrap();
    assert_eq!(res.new_version_tag, "v1.1.0");
    assert_eq!(res.new_version.minor(), 1);
    assert_eq!(res.old_version.unwrap().minor(), 0);
    assert_eq!(res.install_prefix, "/home/me/.cargo");
}

#[test]
fn output_switches() {
    let mut u = AxoUpdater::new_for("axolotlsay");
    u.disable_installer_output();
    u.set_requested_release(release("v1.1.0", &["axolotlsay-installer.sh"]));
    u.load_receipt(receipt("1.0.0", "/opt/app")).ok().unwrap();
    let p = u.plan_install(Platform::Unix).ok().unwrap();
    assert!(!p.show_stdout && !p.show_stderr);
    u.enable_installer_output();
    u.disable_installer_stderr();
    let p = u.plan_install(Platform::Unix).ok().unwrap();
    assert!(p.show_stdout && !p.show_stderr);
    u.enable_installer_stderr();
    u.enable_installer_stdout();
    let p = u.plan_install(Platform::Unix).ok().unwrap();
    assert!(p.show_stdout && p.show_stderr);
    u.set_current_version(v("0.9.0"));
    u.set_release_source(source());
    assert!(matches!(u.is_update_needed(true), Ok(UpdateCheck::Decided(true))));
}

#[test]
fn restore_failure_is_layered_on_installer_error() {
    let e = restore_failed(AxoupdateError::Axoprocess { message: "exit 3".to_string() }, "rename failed".to_string());
    match e {
        AxoupdateError::RestoreFailed { installer_error, message } => {
            assert!(matches!(*installer_error, AxoupdateError::Axoprocess { message } if message == "exit 3"));
            assert_eq!(message, "rename failed");
        }
        _ => panic!("expected a layered restore failure"),
    }
}

#[test]
fn token_is_kept() {
    let mut u = AxoUpdater::new_for("axolotlsay");
    assert!(u.github_token().is_none());
    u.set_github_token("ghp_example_token");
    assert_eq!(u.github_token().map(|t| t.as_str()), Some("ghp_example_token"));
}

#[test]
fn local_installer_plan_without_installer_asset() {
    let mut u = loaded("1.0.0");
    u.set_requested_release(release("v1.1.0", &[]));
    u.configure_installer_path("/opt/installer.sh".to_string());
    let plan = u.plan_install(Platform::Unix).ok().unwrap();
    assert!(matches!(&plan.installer, InstallerSource::Local(p) if p == "/opt/installer.sh"));
    assert_eq!(plan.install_root, "/home/me/.cargo");
}

#[test]
fn run_plan_only_when_update_needed() {
    let mut u = loaded("1.0.0");
    u.set_requested_release(release("v1.1.0", &["notes.txt", "axolotlsay-installer.sh", "other-installer.sh"]));
    assert!(matches!(u.plan_run(false, Platform::Unix), Ok(None)));
    let plan = u.plan_run(true, Platform::Unix).ok().unwrap().unwrap();
    assert!(matches!(&plan.installer, InstallerSource::Download(url) if url == "https://dl.example.com/axolotlsay-installer.sh"));
    let mut bare = loaded("1.0.0");
    bare.set_requested_release(release("v1.1.0", &["notes.txt"]));
    assert!(matches!(bare.plan_run(true, Platform::Unix), Err(AxoupdateError::NoInstallerForPackage)));
}
