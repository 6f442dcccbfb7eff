use vstd::prelude::*;

verus! {

/// Every error that the updater reports.
#[derive(Debug)]
pub enum AxoupdateError {
    /// A network request failed.
    Reqwest { message: String },
    /// A filesystem or process operation failed.
    Io { message: String },
    /// A native path could not be represented as UTF-8.
    CaminoConversionFailed { path: String },
    /// The home directory lookup failed.
    Homedir { message: String },
    /// The installer process could not be run or failed.
    Axoprocess { message: String },
    /// A release tag could not be parsed.
    Axotag { tag: String },
    /// The alternate release service failed.
    Gazenot { message: String },
    /// A version string could not be parsed.
    Version { text: String },
    /// The release backend is not available in this build.
    BackendDisabled { backend: String },
    /// The config directory holding the receipt could not be determined.
    ConfigFetchFailed { app_name: String },
    /// The install receipt could not be read.
    ReceiptLoadFailed { app_name: String },
    /// The application name could not be autodetected.
    NoAppName,
    /// No application name was configured before the receipt was loaded.
    NoAppNamePassed,
    /// The home directory is unknown.
    NoHome,
    /// The release has no installer for this platform.
    NoInstallerForPackage,
    /// No installable release was found.
    NoStableReleases { app_name: String },
    /// The release list could not be found.
    ReleaseNotFound { name: String, app_name: String },
    /// The requested version or tag does not exist.
    VersionNotFound { name: String, app_name: String, version: String },
    /// The updater runs under its own default name.
    UpdateSelf,
    /// A required setting is missing.
    NotConfigured { missing_field: String },
    /// The installer failed, and moving the running executable back to its
    /// original path failed too.
    RestoreFailed { installer_error: Box<AxoupdateError>, message: String },
}

} // verus!
