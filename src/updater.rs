use vstd::prelude::*;

use crate::decision::{is_update_needed as decide, update_needed};
use crate::errors::AxoupdateError;
use crate::paths::{
    bin_stripped, executable_root, file_name, file_name_of, join, joined, parent,
    paths_equal, same_path, strip_bin,
};
use crate::release::{script_extension, script_extension_chars, Platform, Release, ReleaseSource, UpdateRequest};
use crate::resolve::{Lookup, ReleaseLookup};
use crate::text::{chars_of, ends_with, has_suffix, push_text, string_of, strip_suffix, without_suffix};
use crate::version::{semver_of, Version, VersionModel};

verus! {

/// The environment variable that makes an installer use exactly the given
/// install directory.
pub const FORCE_INSTALL_DIR_VAR: &'static str = "CARGO_DIST_FORCE_INSTALL_DIR";

/// The environment variable removed before the installer runs, since it makes
/// PowerShell misbehave when the parent shell is PowerShell Core.
pub const PS_MODULE_PATH_VAR: &'static str = "PSModulePath";

/// Information read from an install receipt.
pub struct InstallReceipt {
    /// The path this app has been installed to.
    pub install_prefix: String,
    /// A list of binaries installed by this app.
    pub binaries: Vec<String>,
    /// Information about where this release was fetched from.
    pub source: ReleaseSource,
    /// Installed version.
    pub version: String,
}

/// The outcome of a completed update.
pub struct UpdateResult {
    /// The version before the update.
    pub old_version: Option<Version>,
    /// The version installed.
    pub new_version: Version,
    /// The tag the new version was created from.
    pub new_version_tag: String,
    /// The root that the installer was told to install to.
    pub install_prefix: String,
}

/// The answer to "is an update needed?", or what must be fetched to give it.
pub enum UpdateCheck {
    /// The answer.
    Decided(bool),
    /// The requested release must be resolved first (see `release_lookup`).
    NeedRelease,
}

/// Where the installer script comes from.
pub enum InstallerSource {
    /// A local installer chosen by the caller; nothing is downloaded.
    Local(String),
    /// Download the release's installer from this URL.
    Download(String),
}

/// How to stage and run the installer.
pub struct InstallPlan {
    /// Where the installer comes from.
    pub installer: InstallerSource,
    /// The file name a downloaded installer is saved under in the staging directory.
    pub staged_file_name: String,
    /// Move the running executable aside before the installer runs (the
    /// platform does not let a running executable be overwritten).
    pub relocate_self: bool,
    /// Run the script through the platform's script interpreter rather than directly.
    pub via_interpreter: bool,
    /// Show the installer's standard output.
    pub show_stdout: bool,
    /// Show the installer's standard error.
    pub show_stderr: bool,
    /// The install root the installer is forced to use.
    pub install_root: String,
}

/// What follows the installer run.
pub struct RunFinish {
    /// Move the relocated executable back to its original path.
    pub restore_self: bool,
    /// The result of the update.
    pub result: Result<UpdateResult, AxoupdateError>,
}

/// Where the receipt's directory may come from, in order of precedence.
pub struct ConfigSources {
    /// The working directory, when the working-directory override is set.
    pub working_dir_override: Option<String>,
    /// An explicit config path from the environment.
    pub path_override: Option<String>,
    /// The platform's per-user config root (local app data on Windows,
    /// `~/.config` elsewhere), when it is known.
    pub platform_config_dir: Option<String>,
}

pub open spec fn updater_default_name() -> Seq<char> {
    seq!['a', 'x', 'o', 'u', 'p', 'd', 'a', 't', 'e', 'r']
}

pub open spec fn exe_suffix() -> Seq<char> {
    seq!['.', 'e', 'x', 'e']
}

pub open spec fn update_suffix() -> Seq<char> {
    seq!['-', 'u', 'p', 'd', 'a', 't', 'e']
}

pub open spec fn receipt_suffix() -> Seq<char> {
    "-receipt.json"@
}

/// The application name: an explicit override, else the invoked program's
/// file name without `.exe` and then without `-update`.
pub open spec fn app_name_of(name_override: Option<Seq<char>>, arg0: Option<Seq<char>>) -> Option<Seq<char>> {
    match name_override {
        Some(n) => Some(n),
        None => match arg0 {
            None => None,
            Some(p) => match file_name_of(p) {
                None => None,
                Some(f) => Some(strip_suffix(strip_suffix(f, exe_suffix()), update_suffix())),
            },
        },
    }
}

pub open spec fn opt_view(o: Option<String>) -> Option<Seq<char>> {
    match o {
        Some(s) => Some(s@),
        None => None,
    }
}

/// Determines the application's name from the name override variable or the
/// program's invocation path.
pub fn get_app_name(name_override: Option<String>, arg0: Option<String>) -> (r: Option<String>)
    ensures
        opt_view(r) == app_name_of(opt_view(name_override), opt_view(arg0)),
{
    match name_override {
        Some(n) => Some(n),
        None => match arg0 {
            None => None,
            Some(p) => match file_name(p.as_str()) {
                None => None,
                Some(f) => {
                    let exe: Vec<char> = vec!['.', 'e', 'x', 'e'];
                    let upd: Vec<char> = vec!['-', 'u', 'p', 'd', 'a', 't', 'e'];
                    assert(exe@ =~= exe_suffix());
                    assert(upd@ =~= update_suffix());
                    let a = without_suffix(chars_of(f.as_str()), &exe);
                    let b = without_suffix(a, &upd);
                    Some(string_of(&b))
                },
            },
        },
    }
}

/// The directory the receipt is read from: the working directory when that
/// override is set, else the explicit path, else the platform config root
/// joined with the app's name.
pub open spec fn config_path_of(src: ConfigSources, app_name: Seq<char>) -> Option<Seq<char>> {
    match src.working_dir_override {
        Some(w) => Some(w@),
        None => match src.path_override {
            Some(p) => Some(p@),
            None => match src.platform_config_dir {
                Some(h) => Some(joined(h@, app_name)),
                None => None,
            },
        },
    }
}

/// Resolves the config directory by precedence; `NoHome` when nothing is known.
pub fn get_config_path(src: ConfigSources, app_name: &str) -> (r: Result<String, AxoupdateError>)
    ensures
        match r {
            Ok(p) => config_path_of(src, app_name@) == Some(p@),
            Err(e) => config_path_of(src, app_name@) is None && e is NoHome,
        },
{
    match src.working_dir_override {
        Some(w) => Ok(w),
        None => match src.path_override {
            Some(p) => Ok(p),
            None => match src.platform_config_dir {
                Some(h) => Ok(join(h.as_str(), app_name)),
                None => Err(AxoupdateError::NoHome),
            },
        },
    }
}

/// The receipt file's path: `<config dir>/<app_name>-receipt.json`; a config
/// directory that cannot be determined is `ConfigFetchFailed`.
pub fn receipt_path(src: ConfigSources, app_name: &str) -> (r: Result<String, AxoupdateError>)
    ensures
        match r {
            Ok(p) => exists|d: Seq<char>| config_path_of(src, app_name@) == Some(d) && p@ == joined(d, app_name@ + receipt_suffix()),
            Err(e) => config_path_of(src, app_name@) is None && (e matches AxoupdateError::ConfigFetchFailed { app_name: n } && n@ == app_name@),
        },
{
    match get_config_path(src, app_name) {
        Ok(dir) => {
            proof {
                reveal_strlit("-receipt.json");
            }
            let mut f = chars_of(app_name);
            push_text(&mut f, "-receipt.json");
            let file = string_of(&f);
            let r = join(dir.as_str(), file.as_str());
            assert(file@ == app_name@ + receipt_suffix());
            assert(config_path_of(src, app_name@) == Some(dir@));
            Ok(r)
        },
        Err(_) => Err(AxoupdateError::ConfigFetchFailed { app_name: app_name.to_string() }),
    }
}

/// Whether an executable belongs to the installation whose root is given
/// (both paths canonical).
pub fn receipt_is_for_executable(exe_path: &str, install_root: &str) -> (r: bool)
    ensures
        r == same_path(executable_root(exe_path@), install_root@),
{
    let dir = match parent(exe_path) {
        Some(d) => d,
        None => exe_path.to_string(),
    };
    let root = strip_bin(dir);
    paths_equal(root.as_str(), install_root)
}

/// The update restores the relocated executable exactly when it was moved
/// aside and the installer failed.
pub open spec fn restore_needed(relocated: bool, installer_ok: bool) -> bool {
    relocated && !installer_ok
}

/// A self-updater session.
pub struct AxoUpdater {
    /// The name of the program to update, if specified.
    pub name: Option<String>,
    /// Information about where updates should be fetched from.
    pub source: Option<ReleaseSource>,
    version_specifier: UpdateRequest,
    requested_release: Option<Release>,
    current_version: Option<Version>,
    install_prefix: Option<String>,
    print_installer_stdout: bool,
    print_installer_stderr: bool,
    installer_path: Option<String>,
    github_token: Option<String>,
}

impl Default for AxoUpdater {
    fn default() -> (r: AxoUpdater)
        ensures
            r.is_fresh(),
            r.spec_name() is None,
    {
        AxoUpdater::new()
    }
}

impl AxoUpdater {
    /// The version to update from.
    pub closed spec fn spec_current_version(&self) -> Option<VersionModel> {
        match self.current_version {
            Some(v) => Some(v@),
            None => None,
        }
    }

    /// The name of the app to update.
    pub closed spec fn spec_name(&self) -> Option<String> {
        self.name
    }

    /// Where releases are fetched from.
    pub closed spec fn spec_source(&self) -> Option<ReleaseSource> {
        self.source
    }

    /// The release resolved in this session.
    pub closed spec fn spec_requested_release(&self) -> Option<Release> {
        self.requested_release
    }

    /// The version request.
    pub closed spec fn spec_version_specifier(&self) -> UpdateRequest {
        self.version_specifier
    }

    /// The install prefix recorded in the receipt.
    pub closed spec fn spec_install_prefix(&self) -> Option<Seq<char>> {
        opt_view(self.install_prefix)
    }

    /// Whether the installer's standard output is shown.
    pub closed spec fn spec_show_stdout(&self) -> bool {
        self.print_installer_stdout
    }

    /// Whether the installer's standard error is shown.
    pub closed spec fn spec_show_stderr(&self) -> bool {
        self.print_installer_stderr
    }

    /// The local installer to use instead of the release's.
    pub closed spec fn spec_installer_path(&self) -> Option<Seq<char>> {
        opt_view(self.installer_path)
    }

    /// The bearer token for release queries.
    pub closed spec fn spec_token(&self) -> Option<Seq<char>> {
        opt_view(self.github_token)
    }

    /// Nothing but the name is configured.
    pub closed spec fn is_fresh(&self) -> bool {
        &&& self.source is None
        &&& self.spec_version_specifier() is Latest
        &&& self.spec_requested_release() is None
        &&& self.spec_current_version() is None
        &&& self.spec_install_prefix() is None
        &&& self.spec_show_stdout()
        &&& self.spec_show_stderr()
        &&& self.spec_installer_path() is None
        &&& self.spec_token() is None
    }

    fn fresh(name: Option<String>) -> (r: AxoUpdater)
        ensures
            r.is_fresh(),
            r.spec_name() == name,
    {
        AxoUpdater {
            name,
            source: None,
            version_specifier: UpdateRequest::Latest,
            requested_release: None,
            current_version: None,
            install_prefix: None,
            print_installer_stdout: true,
            print_installer_stderr: true,
            installer_path: None,
            github_token: None,
        }
    }

    /// An updater with nothing configured; at least the name and source must
    /// be set before it can update.
    pub fn new() -> (r: AxoUpdater)
        ensures
            r.is_fresh(),
            r.spec_name() is None,
    {
        AxoUpdater::fresh(None)
    }

    /// An updater for the app of this name.
    pub fn new_for(app_name: &str) -> (r: AxoUpdater)
        ensures
            r.is_fresh(),
            r.spec_name() matches Some(n) && n@ == app_name@,
    {
        AxoUpdater::fresh(Some(app_name.to_string()))
    }

    /// An updater for the name detected for this standalone updater (see
    /// `get_app_name`). No name is `NoAppName`; the updater's own default
    /// name is `UpdateSelf`, since it means the updater was not installed
    /// under the app's name.
    pub fn new_for_updater_executable(detected: Option<String>) -> (r: Result<AxoUpdater, AxoupdateError>)
        ensures
            detected is None ==> r matches Err(AxoupdateError::NoAppName),
            detected matches Some(n) && n@ == updater_default_name() ==> r matches Err(AxoupdateError::UpdateSelf),
            detected matches Some(n) && n@ != updater_default_name() ==> (r matches Ok(u) && u.is_fresh() && u.spec_name() == detected),
    {
        match detected {
            None => Err(AxoupdateError::NoAppName),
            Some(n) => {
                let d: Vec<char> = vec!['a', 'x', 'o', 'u', 'p', 'd', 'a', 't', 'e', 'r'];
                assert(d@ =~= updater_default_name());
                let own = string_of(&d);
                if n == own {
                    Err(AxoupdateError::UpdateSelf)
                } else {
                    Ok(AxoUpdater::fresh(Some(n)))
                }
            },
        }
    }

    /// Sets where releases are fetched from.
    pub fn set_release_source(&mut self, source: ReleaseSource)
        ensures
            final(self).spec_source() == Some(source),
            final(self).spec_name() == old(self).spec_name(),
            final(self).spec_current_version() == old(self).spec_current_version(),
            final(self).spec_requested_release() == old(self).spec_requested_release(),
            final(self).spec_version_specifier() == old(self).spec_version_specifier(),
            final(self).spec_install_prefix() == old(self).spec_install_prefix(),
    {
        self.source = Some(source);
    }

    /// Takes source, current version and install prefix from an install
    /// receipt. Without a configured name this is `NoAppNamePassed`; a version
    /// that does not parse is a `Version` error. On error nothing changes.
    pub fn load_receipt(&mut self, receipt: InstallReceipt) -> (r: Result<(), AxoupdateError>)
        ensures
            old(self).spec_name() is None ==> (r matches Err(AxoupdateError::NoAppNamePassed) && *final(self) == *old(self)),
            old(self).spec_name() is Some && semver_of(receipt.version@) is None ==> (r matches Err(AxoupdateError::Version { text }) && text@ == receipt.version@ && *final(self) == *old(self)),
            old(self).spec_name() is Some && semver_of(receipt.version@) is Some ==> {
                &&& r is Ok
                &&& final(self).spec_source() == Some(receipt.source)
                &&& final(self).spec_current_version() == semver_of(receipt.version@)
                &&& final(self).spec_install_prefix() == Some(receipt.install_prefix@)
                &&& final(self).spec_name() == old(self).spec_name()
                &&& final(self).spec_requested_release() == old(self).spec_requested_release()
                &&& final(self).spec_version_specifier() == old(self).spec_version_specifier()
            },
    {
        if self.name.is_none() {
            return Err(AxoupdateError::NoAppNamePassed);
        }
        let v = match Version::parse(receipt.version.as_str()) {
            Ok(v) => v,
            Err(e) => {
                return Err(e);
            },
        };
        self.source = Some(receipt.source);
        self.current_version = Some(v);
        self.install_prefix = Some(receipt.install_prefix);
        Ok(())
    }

    /// Sets the version to update from.
    pub fn set_current_version(&mut self, version: Version)
        ensures
            final(self).spec_current_version() == Some(version@),
            final(self).spec_name() == old(self).spec_name(),
            final(self).spec_source() == old(self).spec_source(),
            final(self).spec_requested_release() == old(self).spec_requested_release(),
            final(self).spec_version_specifier() == old(self).spec_version_specifier(),
            final(self).spec_install_prefix() == old(self).spec_install_prefix(),
    {
        self.current_version = Some(version);
    }

    /// Shows the installer's standard output.
    pub fn enable_installer_stdout(&mut self)
        ensures
            final(self).spec_show_stdout(),
            final(self).spec_show_stderr() == old(self).spec_show_stderr(),
    {
        self.print_installer_stdout = true;
    }

    /// Hides the installer's standard output.
    pub fn disable_installer_stdout(&mut self)
        ensures
            !final(self).spec_show_stdout(),
            final(self).spec_show_stderr() == old(self).spec_show_stderr(),
    {
        self.print_installer_stdout = false;
    }

    /// Shows the installer's standard error.
    pub fn enable_installer_stderr(&mut self)
        ensures
            final(self).spec_show_stderr(),
            final(self).spec_show_stdout() == old(self).spec_show_stdout(),
    {
        self.print_installer_stderr = true;
    }

    /// Hides the installer's standard error.
    pub fn disable_installer_stderr(&mut self)
        ensures
            !final(self).spec_show_stderr(),
            final(self).spec_show_stdout() == old(self).spec_show_stdout(),
    {
        self.print_installer_stderr = false;
    }

    /// Shows all of the installer's output.
    pub fn enable_installer_output(&mut self)
        ensures
            final(self).spec_show_stdout(),
            final(self).spec_show_stderr(),
    {
        self.print_installer_stdout = true;
        self.print_installer_stderr = true;
    }

    /// Hides all of the installer's output.
    pub fn disable_installer_output(&mut self)
        ensures
            !final(self).spec_show_stdout(),
            !final(self).spec_show_stderr(),
    {
        self.print_installer_stdout = false;
        self.print_installer_stderr = false;
    }

    /// Uses this local installer instead of the release's.
    pub fn configure_installer_path(&mut self, path: String)
        ensures
            final(self).spec_installer_path() == Some(path@),
    {
        self.installer_path = Some(path);
    }

    /// Uses the release's own installer (the default).
    pub fn use_release_installer(&mut self)
        ensures
            final(self).spec_installer_path() is None,
    {
        self.installer_path = None;
    }

    /// Replaces the version request.
    pub fn configure_version_specifier(&mut self, version_specifier: UpdateRequest)
        ensures
            final(self).spec_version_specifier() == version_specifier,
            final(self).spec_current_version() == old(self).spec_current_version(),
            final(self).spec_requested_release() == old(self).spec_requested_release(),
    {
        self.version_specifier = version_specifier;
    }

    /// Attaches this bearer token to every release query.
    pub fn set_github_token(&mut self, token: &str)
        ensures
            final(self).spec_token() == Some(token@),
    {
        self.github_token = Some(token.to_string());
    }

    /// The receipt's install prefix without a trailing `bin` component.
    pub fn install_prefix_root(&self) -> (r: Result<String, AxoupdateError>)
        ensures
            match self.spec_install_prefix() {
                Some(p) => r matches Ok(root) && root@ == bin_stripped(p),
                None => r matches Err(AxoupdateError::NotConfigured { missing_field }) && missing_field@ == "install_prefix"@,
            },
    {
        match &self.install_prefix {
            Some(p) => Ok(strip_bin(p.clone())),
            None => {
                proof {
                    reveal_strlit("install_prefix");
                }
                Err(AxoupdateError::NotConfigured { missing_field: "install_prefix".to_string() })
            },
        }
    }

    /// Whether the running executable comes from the installation the receipt
    /// describes: `exe_path` is the executable's canonical path and
    /// `install_root` the canonical form of `install_prefix_root`.
    pub fn check_receipt_is_for_this_executable(&self, exe_path: &str, install_root: &str) -> (r: bool)
        ensures
            r == same_path(executable_root(exe_path@), install_root@),
    {
        receipt_is_for_executable(exe_path, install_root)
    }

    /// Answers whether an update is needed. A running copy that does not come
    /// from the receipt's installation needs none, and nothing is fetched for
    /// it. Otherwise the current version must be known, and the release is
    /// resolved once per session.
    pub fn is_update_needed(&self, receipt_is_for_this_executable: bool) -> (r: Result<UpdateCheck, AxoupdateError>)
        ensures
            !receipt_is_for_this_executable ==> r matches Ok(UpdateCheck::Decided(false)),
            receipt_is_for_this_executable && self.spec_current_version() is None ==> (r matches Err(AxoupdateError::NotConfigured { missing_field }) && missing_field@ == "current_version"@),
            receipt_is_for_this_executable && self.spec_current_version() is Some && self.spec_requested_release() is None ==> r matches Ok(UpdateCheck::NeedRelease),
            receipt_is_for_this_executable && self.spec_current_version() is Some && self.spec_requested_release() is Some ==> (r matches Ok(UpdateCheck::Decided(b))
                && b == update_needed(self.spec_current_version()->Some_0, self.spec_requested_release()->Some_0.version@, self.spec_version_specifier())),
    {
        if !receipt_is_for_this_executable {
            return Ok(UpdateCheck::Decided(false));
        }
        let current = match &self.current_version {
            Some(v) => v,
            None => {
                proof {
                    reveal_strlit("current_version");
                }
                return Err(AxoupdateError::NotConfigured { missing_field: "current_version".to_string() });
            },
        };
        match &self.requested_release {
            None => Ok(UpdateCheck::NeedRelease),
            Some(release) => Ok(UpdateCheck::Decided(decide(current, &release.version, &self.version_specifier))),
        }
    }

    /// What to resolve: the backend and repository of the source, the app's
    /// name, the token and the request with its version read.
    pub fn release_lookup(&self) -> (r: Result<ReleaseLookup, AxoupdateError>)
        ensures
            self.spec_name() is None ==> (r matches Err(AxoupdateError::NotConfigured { missing_field }) && missing_field@ == "app_name"@),
            self.spec_name() is Some && self.spec_source() is None ==> (r matches Err(AxoupdateError::NotConfigured { missing_field }) && missing_field@ == "source"@),
            r matches Ok(l) ==> self.spec_source() matches Some(s) && l.backend == s.release_type && l.owner@ == s.owner@
                && l.name@ == s.name@ && l.app_name@ == s.app_name@ && opt_view(l.token) == self.spec_token()
                && match (self.spec_version_specifier(), l.lookup) {
                    (UpdateRequest::Latest, Lookup::Latest) => true,
                    (UpdateRequest::LatestMaybePrerelease, Lookup::LatestMaybePrerelease) => true,
                    (UpdateRequest::SpecificVersion(t), Lookup::SpecificVersion(v, text)) => text@ == t@ && semver_of(t@) == Some(v@),
                    (UpdateRequest::SpecificTag(t), Lookup::SpecificTag(u)) => u@ == t@,
                    _ => false,
                },
            self.spec_name() is Some && self.spec_source() is Some ==> (r is Err <==> (self.spec_version_specifier() matches UpdateRequest::SpecificVersion(t) && semver_of(t@) is None)),
            self.spec_name() is Some && self.spec_source() is Some ==> match self.spec_version_specifier() {
                UpdateRequest::SpecificVersion(t) => semver_of(t@) is None ==> (r matches Err(AxoupdateError::Version { text }) && text@ == t@),
                _ => true,
            },
    {
        if self.name.is_none() {
            proof {
                reveal_strlit("app_name");
            }
            return Err(AxoupdateError::NotConfigured { missing_field: "app_name".to_string() });
        }
        let source = match &self.source {
            Some(s) => s,
            None => {
                proof {
                    reveal_strlit("source");
                }
                return Err(AxoupdateError::NotConfigured { missing_field: "source".to_string() });
            },
        };
        let lookup = match &self.version_specifier {
            UpdateRequest::Latest => Lookup::Latest,
            UpdateRequest::LatestMaybePrerelease => Lookup::LatestMaybePrerelease,
            UpdateRequest::SpecificVersion(t) => match Version::parse(t.as_str()) {
                Ok(v) => Lookup::SpecificVersion(v, t.clone()),
                Err(e) => {
                    return Err(e);
                },
            },
            UpdateRequest::SpecificTag(t) => Lookup::SpecificTag(t.clone()),
        };
        Ok(
            ReleaseLookup {
                backend: source.release_type,
                owner: source.owner.clone(),
                name: source.name.clone(),
                app_name: source.app_name.clone(),
                token: self.github_token.clone(),
                lookup,
            },
        )
    }

    /// The bearer token for release queries and downloads.
    pub fn github_token(&self) -> (r: Option<&String>)
        ensures
            match r {
                Some(t) => self.spec_token() == Some(t@),
                None => self.spec_token() is None,
            },
    {
        match &self.github_token {
            Some(t) => Some(t),
            None => None,
        }
    }

    /// Keeps the resolved release for the rest of the session.
    pub fn set_requested_release(&mut self, release: Release)
        ensures
            final(self).spec_requested_release() == Some(release),
            final(self).spec_current_version() == old(self).spec_current_version(),
            final(self).spec_version_specifier() == old(self).spec_version_specifier(),
            final(self).spec_install_prefix() == old(self).spec_install_prefix(),
            final(self).spec_name() == old(self).spec_name(),
            final(self).spec_source() == old(self).spec_source(),
    {
        self.requested_release = Some(release);
    }

    /// The version of the resolved release, if one was resolved.
    pub fn query_new_version(&self) -> (r: Option<&Version>)
        ensures
            match self.spec_requested_release() {
                Some(rel) => r matches Some(v) && v@ == rel.version@,
                None => r is None,
            },
    {
        match &self.requested_release {
            Some(rel) => Some(&rel.version),
            None => None,
        }
    }

    /// An installer plan can be made: the release is resolved, the install
    /// prefix is known, and a local installer is configured or the release has
    /// an asset named like this platform's installer.
    pub open spec fn plan_possible(&self, platform: Platform) -> bool {
        &&& self.spec_requested_release() is Some
        &&& self.spec_install_prefix() is Some
        &&& (self.spec_installer_path() is Some || exists|i: int|
            0 <= i < self.spec_requested_release()->Some_0.assets@.len() && ends_with(
                #[trigger] self.spec_requested_release()->Some_0.assets@[i].name@,
                installer_suffix(platform),
            ))
    }

    /// What an installer plan holds: the install root is the receipt's prefix
    /// without a trailing `bin`; the running executable is moved aside and the
    /// script run through the interpreter on Windows; output goes as
    /// configured; the installer is the configured local one, else the first
    /// asset named like this platform's installer.
    pub open spec fn plan_fits(&self, platform: Platform, plan: InstallPlan) -> bool {
        &&& self.spec_requested_release() is Some
        &&& self.spec_install_prefix() matches Some(p) && plan.install_root@ == bin_stripped(p)
        &&& plan.relocate_self == (platform == Platform::Windows)
        &&& plan.via_interpreter == (platform == Platform::Windows)
        &&& plan.show_stdout == self.spec_show_stdout()
        &&& plan.show_stderr == self.spec_show_stderr()
        &&& plan.staged_file_name@ == installer_word() + script_extension(platform)
        &&& match self.spec_installer_path() {
            Some(p) => plan.installer matches InstallerSource::Local(q) && q@ == p,
            None => plan.installer matches InstallerSource::Download(url) && exists|i: int|
                0 <= i < self.spec_requested_release()->Some_0.assets@.len()
                && ends_with(self.spec_requested_release()->Some_0.assets@[i].name@, installer_suffix(platform))
                && url@ == self.spec_requested_release()->Some_0.assets@[i].browser_download_url@
                && forall|j: int| 0 <= j < i ==> !ends_with(#[trigger] self.spec_requested_release()->Some_0.assets@[j].name@, installer_suffix(platform)),
        }
    }

    /// Plans the installer run for the resolved release: a configured local
    /// installer, else the first asset named `...-installer` plus the
    /// platform's script extension (none is `NoInstallerForPackage`); the
    /// install root is the receipt's prefix without a trailing `bin`.
    pub fn plan_install(&self, platform: Platform) -> (r: Result<InstallPlan, AxoupdateError>)
        ensures
            self.spec_requested_release() is None ==> (r matches Err(AxoupdateError::NotConfigured { missing_field }) && missing_field@ == "requested_release"@),
            r matches Ok(plan) ==> self.plan_fits(platform, plan),
            self.spec_requested_release() is Some && self.spec_installer_path() is None && (forall|i: int|
                0 <= i < self.spec_requested_release()->Some_0.assets@.len() ==> !ends_with(#[trigger] self.spec_requested_release()->Some_0.assets@[i].name@, installer_suffix(platform)))
                ==> r matches Err(AxoupdateError::NoInstallerForPackage),
            self.spec_requested_release() is Some && self.spec_install_prefix() is None && (self.spec_installer_path() is Some || exists|i: int|
                0 <= i < self.spec_requested_release()->Some_0.assets@.len() && ends_with(#[trigger] self.spec_requested_release()->Some_0.assets@[i].name@, installer_suffix(platform)))
                ==> (r matches Err(AxoupdateError::NotConfigured { missing_field }) && missing_field@ == "install_prefix"@),
            self.plan_possible(platform) ==> r is Ok,
    {
        let release = match &self.requested_release {
            Some(rel) => rel,
            None => {
                proof {
                    reveal_strlit("requested_release");
                }
                return Err(AxoupdateError::NotConfigured { missing_field: "requested_release".to_string() });
            },
        };
        let installer = match &self.installer_path {
            Some(p) => InstallerSource::Local(p.clone()),
            None => {
                let mut suffix: Vec<char> = vec!['-', 'i', 'n', 's', 't', 'a', 'l', 'l', 'e', 'r'];
                let mut ext = script_extension_chars(platform);
                suffix.append(&mut ext);
                assert(suffix@ =~= installer_suffix(platform));
                let mut i: usize = 0;
                while i < release.assets.len() && !has_suffix(&chars_of(release.assets[i].name.as_str()), &suffix)
                    invariant
                        i <= release.assets.len(),
                        suffix@ == installer_suffix(platform),
                        forall|j: int| 0 <= j < i ==> !ends_with(#[trigger] release.assets@[j].name@, installer_suffix(platform)),
                    decreases release.assets.len() - i,
                {
                    i = i + 1;
                }
                let found: Option<usize> = if i < release.assets.len() { Some(i) } else { None };
                match found {
                    Some(k) => InstallerSource::Download(release.assets[k].browser_download_url.clone()),
                    None => {
                        return Err(AxoupdateError::NoInstallerForPackage);
                    },
                }
            },
        };
        let install_root = match self.install_prefix_root() {
            Ok(root) => root,
            Err(e) => {
                return Err(e);
            },
        };
        let mut file: Vec<char> = vec!['i', 'n', 's', 't', 'a', 'l', 'l', 'e', 'r'];
        let mut ext = script_extension_chars(platform);
        file.append(&mut ext);
        assert(file@ =~= installer_word() + script_extension(platform));
        let windows = match platform {
            Platform::Windows => true,
            Platform::Unix => false,
        };
        Ok(
            InstallPlan {
                installer,
                staged_file_name: string_of(&file),
                relocate_self: windows,
                via_interpreter: windows,
                show_stdout: self.print_installer_stdout,
                show_stderr: self.print_installer_stderr,
                install_root,
            },
        )
    }

    /// The step after the update check: nothing to do (`None`) when no update
    /// is needed, else the installer plan (see `plan_install`).
    pub fn plan_run(&self, update_needed: bool, platform: Platform) -> (r: Result<Option<InstallPlan>, AxoupdateError>)
        ensures
            !update_needed ==> r matches Ok(None),
            update_needed ==> (r is Ok <==> self.plan_possible(platform)),
            update_needed ==> !(r matches Ok(None)),
            r matches Ok(Some(plan)) ==> self.plan_fits(platform, plan),
    {
        if !update_needed {
            return Ok(None);
        }
        match self.plan_install(platform) {
            Ok(plan) => Ok(Some(plan)),
            Err(e) => Err(e),
        }
    }

    /// Concludes the run once the installer finished. When the executable was
    /// moved aside and the installer failed, it is moved back, and the
    /// installer's error is the result; otherwise the result records the
    /// previous version, the new version and tag, and the install root used.
    pub fn finish_run(&self, installer: Result<(), AxoupdateError>, relocated: bool, install_root: String) -> (r: RunFinish)
        ensures
            r.restore_self == restore_needed(relocated, installer is Ok),
            installer is Err ==> r.result == Err::<UpdateResult, AxoupdateError>(installer->Err_0),
            installer is Ok && self.spec_requested_release() is None ==> r.result matches Err(AxoupdateError::NotConfigured { .. }),
            installer is Ok && self.spec_requested_release() is Some ==> (r.result matches Ok(u) && {
                &&& u.new_version@ == self.spec_requested_release()->Some_0.version@
                &&& u.new_version_tag@ == self.spec_requested_release()->Some_0.tag_name@
                &&& u.install_prefix@ == install_root@
                &&& match self.spec_current_version() {
                    Some(v) => u.old_version matches Some(o) && o@ == v,
                    None => u.old_version is None,
                }
            }),
    {
        match installer {
            Err(e) => RunFinish { restore_self: relocated, result: Err(e) },
            Ok(()) => {
                let result = match &self.requested_release {
                    Some(release) => {
                        let old_version = match &self.current_version {
                            Some(v) => Some(v.duplicate()),
                            None => None,
                        };
                        Ok(
                            UpdateResult {
                                old_version,
                                new_version: release.version.duplicate(),
                                new_version_tag: release.tag_name.clone(),
                                install_prefix: install_root,
                            },
                        )
                    },
                    None => {
                        proof {
                            reveal_strlit("requested_release");
                        }
                        Err(AxoupdateError::NotConfigured { missing_field: "requested_release".to_string() })
                    },
                };
                RunFinish { restore_self: false, result }
            },
        }
    }
}

/// The error of a run whose installer failed and whose executable could not be
/// moved back afterwards: the restore failure layered onto the installer's error,
/// which stays as it was.
pub fn restore_failed(installer_error: AxoupdateError, message: String) -> (r: AxoupdateError)
    ensures
        r matches AxoupdateError::RestoreFailed { installer_error: e, message: m } && *e == installer_error && m@ == message@,
{
    AxoupdateError::RestoreFailed { installer_error: Box::new(installer_error), message }
}

/// The start of a staged installer's file name.
pub open spec fn installer_word() -> Seq<char> {
    seq!['i', 'n', 's', 't', 'a', 'l', 'l', 'e', 'r']
}

/// The end of an installer asset's name on a platform: `-installer.sh` or `-installer.ps1`.
pub open spec fn installer_suffix(p: Platform) -> Seq<char> {
    seq!['-', 'i', 'n', 's', 't', 'a', 'l', 'l', 'e', 'r'] + script_extension(p)
}

/// If the installer fails after the running executable was moved aside, the
/// executable is moved back to its original path; if it succeeds, or nothing
/// was moved, no move back happens.
pub proof fn failed_install_restores(relocated: bool, installer_ok: bool)
    ensures
        relocated && !installer_ok ==> restore_needed(relocated, installer_ok),
        installer_ok ==> !restore_needed(relocated, installer_ok),
        !relocated ==> !restore_needed(relocated, installer_ok),
{
}

} // verus!
