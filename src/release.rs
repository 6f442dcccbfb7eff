use vstd::prelude::*;

use crate::errors::AxoupdateError;
use crate::text::{chars_of, ends_with, has_prefix, has_suffix, starts_with};
use crate::version::{model_cmp, semver_of, Version, VersionModel};

verus! {

/// The platform family an installer is run on.
#[derive(Clone, Copy, Debug, PartialEq, Eq, Structural)]
pub enum Platform {
    /// Linux, macOS and the other Unix-family systems: shell-script installers.
    Unix,
    /// Windows: PowerShell installers.
    Windows,
}

/// Where a release is hosted.
#[derive(Clone, Copy, Debug, PartialEq, Eq, Structural)]
pub enum ReleaseSourceType {
    /// GitHub Releases.
    GitHub,
    /// Axo Releases.
    Axo,
}

impl ReleaseSourceType {
    /// The backend's name as it appears in messages.
    pub fn to_string(&self) -> (r: String)
        ensures
            r@ == backend_name(*self),
    {
        let v: Vec<char> = match self {
            ReleaseSourceType::GitHub => vec!['g', 'i', 't', 'h', 'u', 'b'],
            ReleaseSourceType::Axo => vec!['a', 'x', 'o', 'd', 'o', 't', 'd', 'e', 'v'],
        };
        assert(v@ =~= backend_name(*self));
        crate::text::string_of(&v)
    }
}

pub open spec fn backend_name(t: ReleaseSourceType) -> Seq<char> {
    match t {
        ReleaseSourceType::GitHub => seq!['g', 'i', 't', 'h', 'u', 'b'],
        ReleaseSourceType::Axo => seq!['a', 'x', 'o', 'd', 'o', 't', 'd', 'e', 'v'],
    }
}

/// Information about the source of an app's releases.
#[derive(Clone, Debug)]
pub struct ReleaseSource {
    /// Which hosting service to query for new releases.
    pub release_type: ReleaseSourceType,
    /// Owner, in GitHub name-with-owner format.
    pub owner: String,
    /// Name, in GitHub name-with-owner format.
    pub name: String,
    /// The app's name; this can be distinct from the repository name.
    pub app_name: String,
}

/// Which release an update should move to.
#[derive(Clone, Debug)]
pub enum UpdateRequest {
    /// The newest stable release.
    Latest,
    /// The newest release, prereleases included.
    LatestMaybePrerelease,
    /// Exactly this version (upgrade or downgrade).
    SpecificVersion(String),
    /// Exactly this tag (upgrade or downgrade).
    SpecificTag(String),
}

/// One downloadable file of a GitHub release, as the API reports it.
#[derive(Clone, Debug)]
pub struct GithubAsset {
    /// The API URL of the asset.
    pub url: String,
    /// The URL the asset can be downloaded from.
    pub browser_download_url: String,
    /// The asset's file name.
    pub name: String,
}

/// A GitHub release, as the API reports it.
#[derive(Clone, Debug)]
pub struct GithubRelease {
    /// The tag this release represents.
    pub tag_name: String,
    /// The name of the release.
    pub name: String,
    /// The URL at which this release lists.
    pub url: String,
    /// All assets associated with this release.
    pub assets: Vec<GithubAsset>,
    /// Whether this release is a prerelease.
    pub prerelease: bool,
}

/// One downloadable file of an Axo release.
#[derive(Clone, Debug)]
pub struct GazenotAsset {
    /// The URL the asset can be downloaded from.
    pub browser_download_url: String,
    /// The asset's file name.
    pub name: String,
}

/// An Axo release, as the release service reports it.
#[derive(Clone, Debug)]
pub struct GazenotRelease {
    /// The tag this release represents.
    pub tag_name: String,
    /// The release's version, as the service writes it (the tag is what counts).
    pub version: String,
    /// The name of the release.
    pub name: String,
    /// All assets associated with this release.
    pub assets: Vec<GazenotAsset>,
    /// Whether this release is a prerelease.
    pub prerelease: bool,
}

/// A downloadable file of a release.
#[derive(Clone, Debug)]
pub struct Asset {
    /// The URL at which this asset can be found.
    pub url: String,
    /// The URL at which this asset can be downloaded.
    pub browser_download_url: String,
    /// This asset's file name.
    pub name: String,
}

/// A release of the application, from either backend.
#[derive(Debug)]
pub struct Release {
    /// The tag this release represents.
    pub tag_name: String,
    /// The version this release represents.
    pub version: Version,
    /// The name of the release.
    pub name: String,
    /// The URL at which this release lists.
    pub url: String,
    /// All assets associated with this release.
    pub assets: Vec<Asset>,
    /// Whether this release is a prerelease.
    pub prerelease: bool,
}

/// The version that axotag's `parse_tag` reads from a tag, given the one
/// package name it may carry (`v1.2.3`, `app-v1.2.3`, `app/v1.2.3`, ...).
pub uninterp spec fn tag_version(package: Seq<char>, tag: Seq<char>) -> Option<VersionModel>;

/// A tag with one leading `v` removed, if it has one.
pub open spec fn without_v(tag: Seq<char>) -> Seq<char> {
    if tag.len() > 0 && tag[0] == 'v' {
        tag.drop_first()
    } else {
        tag
    }
}

/// A tag that names no package: no `/` in it, and it does not start with the
/// package's name. Its version is the rest after an optional `v`.
pub open spec fn plain_tag(package: Seq<char>, tag: Seq<char>) -> bool {
    !tag.contains('/') && !starts_with(tag, package)
}

#[verifier::external_type_specification]
#[verifier::external_body]
pub struct ExTagError(axotag::errors::TagError);

/// Relies on `axotag::parse_tag` with a single package of unknown version:
/// it yields a version for the tag or an error, never `ReleaseType::None`; for a
/// tag that names no package it parses the tag after one optional `v` with
/// semver's `Version::from_str`.
#[verifier::external_body]
fn parse_tag_version(package: &str, tag: &str) -> (r: Result<
    Option<(u64, u64, u64, String, String)>,
    axotag::errors::TagError,
>)
    ensures
        match r {
            Ok(Some(p)) => tag_version(package@, tag@) == Some(crate::version::parts_model(p))
                && crate::version::prerelease_accepts(p.3@) && crate::version::build_metadata_accepts(
                p.4@,
            ) && (plain_tag(package@, tag@) ==> semver_of(without_v(tag@)) == Some(
                crate::version::parts_model(p),
            )),
            Ok(None) => false,
            Err(_) => tag_version(package@, tag@) is None && (plain_tag(package@, tag@) ==> semver_of(
                without_v(tag@),
            ) is None),
        },
{
    let packages = [axotag::Package { name: package.to_owned(), version: None }];
    let announce = axotag::parse_tag(&packages, tag)?;
    let v = match announce.release {
        axotag::ReleaseType::None => return Ok(None),
        axotag::ReleaseType::Version(v) => v,
        axotag::ReleaseType::Package { version, .. } => version,
    };
    Ok(Some((v.major, v.minor, v.patch, v.pre.as_str().to_string(), v.build.as_str().to_string())))
}

/// The fields of an asset as text.
pub open spec fn asset_view(a: Asset) -> (Seq<char>, Seq<char>, Seq<char>) {
    (a.url@, a.browser_download_url@, a.name@)
}

impl Asset {
    pub fn duplicate(&self) -> (r: Asset)
        ensures
            asset_view(r) == asset_view(*self),
    {
        Asset {
            url: self.url.clone(),
            browser_download_url: self.browser_download_url.clone(),
            name: self.name.clone(),
        }
    }
}

/// The version a tag carries, read by axotag; a tag it cannot read is an `Axotag` error.
fn version_from_tag(package: &str, tag: &str) -> (r: Result<Version, AxoupdateError>)
    ensures
        match r {
            Ok(v) => tag_version(package@, tag@) == Some(v@) && (plain_tag(package@, tag@) ==> semver_of(without_v(tag@)) == Some(v@)),
            Err(e) => tag_version(package@, tag@) is None && (plain_tag(package@, tag@) ==> semver_of(without_v(tag@)) is None)
                && (e matches AxoupdateError::Axotag { tag: t } && t@ == tag@),
        },
{
    match parse_tag_version(package, tag) {
        Ok(Some(p)) => Ok(Version::from_parts(p)),
        Ok(None) => Err(AxoupdateError::Axotag { tag: tag.to_string() }),
        Err(_) => Err(AxoupdateError::Axotag { tag: tag.to_string() }),
    }
}

impl Release {
    /// Builds a release from GitHub data; the version is read from the tag.
    pub fn try_from_github(package_name: &str, release: GithubRelease) -> (r: Result<
        Release,
        AxoupdateError,
    >)
        ensures
            match r {
                Ok(rel) => {
                    &&& tag_version(package_name@, release.tag_name@) == Some(rel.version@)
                    &&& plain_tag(package_name@, release.tag_name@) ==> semver_of(without_v(release.tag_name@)) == Some(rel.version@)
                    &&& rel.tag_name@ == release.tag_name@
                    &&& rel.name@ == release.name@
                    &&& rel.url@ == Seq::<char>::empty()
                    &&& rel.prerelease == release.prerelease
                    &&& rel.assets@.len() == release.assets@.len()
                    &&& forall|i: int|
                        0 <= i < rel.assets@.len() ==> asset_view(#[trigger] rel.assets@[i]) == (
                            release.assets@[i].url@,
                            release.assets@[i].browser_download_url@,
                            release.assets@[i].name@,
                        )
                },
                Err(e) => tag_version(package_name@, release.tag_name@) is None && (e matches AxoupdateError::Axotag { tag } && tag@ == release.tag_name@)
                    && (plain_tag(package_name@, release.tag_name@) ==> semver_of(without_v(release.tag_name@)) is None),
            },
    {
        let version = match version_from_tag(package_name, release.tag_name.as_str()) {
            Ok(v) => v,
            Err(e) => {
                return Err(e);
            },
        };
        let mut assets: Vec<Asset> = Vec::new();
        let mut i: usize = 0;
        while i < release.assets.len()
            invariant
                i <= release.assets.len(),
                assets@.len() == i,
                forall|j: int|
                    0 <= j < i ==> asset_view(#[trigger] assets@[j]) == (
                        release.assets@[j].url@,
                        release.assets@[j].browser_download_url@,
                        release.assets@[j].name@,
                    ),
            decreases release.assets.len() - i,
        {
            let a = &release.assets[i];
            assets.push(
                Asset {
                    url: a.url.clone(),
                    browser_download_url: a.browser_download_url.clone(),
                    name: a.name.clone(),
                },
            );
            i = i + 1;
        }
        Ok(
            Release {
                tag_name: release.tag_name,
                version,
                name: release.name,
                url: String::new(),
                assets,
                prerelease: release.prerelease,
            },
        )
    }

    /// Builds a release from Axo Releases data. The version is read from the
    /// tag, as for GitHub; the service's separate version text plays no part.
    pub fn from_gazenot(package_name: &str, release: GazenotRelease) -> (r: Result<Release, AxoupdateError>)
        ensures
            match r {
                Ok(rel) => {
                    &&& tag_version(package_name@, release.tag_name@) == Some(rel.version@)
                    &&& plain_tag(package_name@, release.tag_name@) ==> semver_of(without_v(release.tag_name@)) == Some(rel.version@)
                    &&& rel.tag_name@ == release.tag_name@
                    &&& rel.name@ == release.name@
                    &&& rel.url@ == Seq::<char>::empty()
                    &&& rel.prerelease == release.prerelease
                    &&& rel.assets@.len() == release.assets@.len()
                    &&& forall|i: int|
                        0 <= i < rel.assets@.len() ==> asset_view(#[trigger] rel.assets@[i]) == (
                            release.assets@[i].browser_download_url@,
                            release.assets@[i].browser_download_url@,
                            release.assets@[i].name@,
                        )
                },
                Err(e) => tag_version(package_name@, release.tag_name@) is None
                    && (plain_tag(package_name@, release.tag_name@) ==> semver_of(without_v(release.tag_name@)) is None)
                    && (e matches AxoupdateError::Axotag { tag } && tag@ == release.tag_name@),
            },
    {
        let version = match version_from_tag(package_name, release.tag_name.as_str()) {
            Ok(v) => v,
            Err(e) => {
                return Err(e);
            },
        };
        let mut assets: Vec<Asset> = Vec::new();
        let mut i: usize = 0;
        while i < release.assets.len()
            invariant
                i <= release.assets.len(),
                assets@.len() == i,
                forall|j: int|
                    0 <= j < i ==> asset_view(#[trigger] assets@[j]) == (
                        release.assets@[j].browser_download_url@,
                        release.assets@[j].browser_download_url@,
                        release.assets@[j].name@,
                    ),
            decreases release.assets.len() - i,
        {
            let a = &release.assets[i];
            assets.push(
                Asset {
                    url: a.browser_download_url.clone(),
                    browser_download_url: a.browser_download_url.clone(),
                    name: a.name.clone(),
                },
            );
            i = i + 1;
        }
        Ok(
            Release {
                tag_name: release.tag_name,
                version,
                name: release.name,
                url: String::new(),
                assets,
                prerelease: release.prerelease,
            },
        )
    }

    /// The version this release represents.
    pub fn version(&self) -> (r: &Version)
        ensures
            r@ == self.version@,
    {
        &self.version
    }

    /// A copy of this release.
    pub fn duplicate(&self) -> (r: Release)
        ensures
            release_view(r) == release_view(*self),
    {
        let mut assets: Vec<Asset> = Vec::new();
        let mut i: usize = 0;
        while i < self.assets.len()
            invariant
                i <= self.assets.len(),
                assets@.len() == i,
                forall|j: int|
                    0 <= j < i ==> asset_view(#[trigger] assets@[j]) == asset_view(self.assets@[j]),
            decreases self.assets.len() - i,
        {
            assets.push(self.assets[i].duplicate());
            i = i + 1;
        }
        let r = Release {
            tag_name: self.tag_name.clone(),
            version: self.version.duplicate(),
            name: self.name.clone(),
            url: self.url.clone(),
            assets,
            prerelease: self.prerelease,
        };
        assert(r.assets@.map_values(|a: Asset| asset_view(a)) =~= self.assets@.map_values(
            |a: Asset| asset_view(a),
        ));
        r
    }
}

/// The content of a release as plain values.
pub open spec fn release_view(r: Release) -> (
    Seq<char>,
    VersionModel,
    Seq<char>,
    Seq<char>,
    Seq<(Seq<char>, Seq<char>, Seq<char>)>,
    bool,
) {
    (r.tag_name@, r.version@, r.name@, r.url@, r.assets@.map_values(|a: Asset| asset_view(a)), r.prerelease)
}

/// The start of every installer asset's name: `{app_name}-installer`.
pub open spec fn installer_prefix(app_name: Seq<char>) -> Seq<char> {
    app_name + seq!['-', 'i', 'n', 's', 't', 'a', 'l', 'l', 'e', 'r']
}

/// The file extension of installer scripts on a platform.
pub open spec fn script_extension(p: Platform) -> Seq<char> {
    match p {
        Platform::Unix => seq!['.', 's', 'h'],
        Platform::Windows => seq!['.', 'p', 's', '1'],
    }
}

/// An asset name that is this platform's installer for the app.
pub open spec fn is_installer_name(name: Seq<char>, app_name: Seq<char>, p: Platform) -> bool {
    starts_with(name, installer_prefix(app_name)) && ends_with(name, script_extension(p))
}

/// A release that carries an installer for the app on this platform.
pub open spec fn installable(r: Release, app_name: Seq<char>, p: Platform) -> bool {
    exists|i: int| 0 <= i < r.assets@.len() && is_installer_name(#[trigger] r.assets@[i].name@, app_name, p)
}

/// The characters of `{app_name}-installer`.
pub(crate) fn installer_prefix_chars(app_name: &str) -> (r: Vec<char>)
    ensures
        r@ == installer_prefix(app_name@),
{
    let mut v = chars_of(app_name);
    let mut tail: Vec<char> = vec!['-', 'i', 'n', 's', 't', 'a', 'l', 'l', 'e', 'r'];
    v.append(&mut tail);
    v
}

/// The characters of the platform's script extension.
pub(crate) fn script_extension_chars(p: Platform) -> (r: Vec<char>)
    ensures
        r@ == script_extension(p),
{
    let v: Vec<char> = match p {
        Platform::Unix => vec!['.', 's', 'h'],
        Platform::Windows => vec!['.', 'p', 's', '1'],
    };
    assert(v@ =~= script_extension(p));
    v
}

/// Whether the release carries an installer: `prefix` and `ext` are the
/// characters of the installer prefix and script extension.
pub(crate) fn has_installer(r: &Release, prefix: &Vec<char>, ext: &Vec<char>, Ghost(app_name): Ghost<Seq<char>>, Ghost(p): Ghost<Platform>) -> (b: bool)
    requires
        prefix@ == installer_prefix(app_name),
        ext@ == script_extension(p),
    ensures
        b == installable(*r, app_name, p),
{
    let mut i: usize = 0;
    while i < r.assets.len()
        invariant
            i <= r.assets.len(),
            prefix@ == installer_prefix(app_name),
            ext@ == script_extension(p),
            forall|j: int| 0 <= j < i ==> !is_installer_name(#[trigger] r.assets@[j].name@, app_name, p),
        decreases r.assets.len() - i,
    {
        let name = chars_of(r.assets[i].name.as_str());
        if has_prefix(&name, prefix) && has_suffix(&name, ext) {
            return true;
        }
        i = i + 1;
    }
    false
}

/// Whether a release carries this platform's installer for the app.
pub fn is_installable(r: &Release, app_name: &str, p: Platform) -> (b: bool)
    ensures
        b == installable(*r, app_name@, p),
{
    let prefix = installer_prefix_chars(app_name);
    let ext = script_extension_chars(p);
    has_installer(r, &prefix, &ext, Ghost(app_name@), Ghost(p))
}

/// A release that the latest-release search may pick.
pub open spec fn eligible(r: Release, app_name: Seq<char>, p: Platform, allow_prerelease: bool) -> bool {
    installable(r, app_name, p) && (allow_prerelease || !r.prerelease)
}

/// Position `q` holds the latest eligible release: eligible, with no eligible
/// release of higher precedence, and every later eligible one of lower
/// precedence (of equals, the last listed).
pub open spec fn is_latest(
    rs: Seq<Release>,
    q: int,
    app_name: Seq<char>,
    p: Platform,
    allow_prerelease: bool,
) -> bool {
    &&& 0 <= q < rs.len()
    &&& eligible(rs[q], app_name, p, allow_prerelease)
    &&& forall|j: int| 0 <= j < rs.len() && eligible(#[trigger] rs[j], app_name, p, allow_prerelease)
        ==> model_cmp(rs[j].version@, rs[q].version@) <= 0
    &&& forall|j: int| q < j < rs.len() && eligible(#[trigger] rs[j], app_name, p, allow_prerelease)
        ==> model_cmp(rs[j].version@, rs[q].version@) < 0
}

/// Position of the latest eligible release: installable on this platform and,
/// unless `allow_prerelease`, not a prerelease.
pub fn latest_release_index(
    releases: &Vec<Release>,
    app_name: &str,
    p: Platform,
    allow_prerelease: bool,
) -> (r: Option<usize>)
    ensures
        r matches Some(i) ==> is_latest(releases@, i as int, app_name@, p, allow_prerelease),
        r is None <==> forall|j: int| 0 <= j < releases@.len() ==> !eligible(#[trigger] releases@[j], app_name@, p, allow_prerelease),
{
    let prefix = installer_prefix_chars(app_name);
    let ext = script_extension_chars(p);
    let mut idx: Vec<usize> = Vec::new();
    let mut parts: Vec<(u64, u64, u64, String, String)> = Vec::new();
    let mut i: usize = 0;
    while i < releases.len()
        invariant
            i <= releases.len(),
            prefix@ == installer_prefix(app_name@),
            ext@ == script_extension(p),
            idx@.len() == parts@.len(),
            forall|k: int| 0 <= k < idx@.len() ==> {
                &&& (#[trigger] idx@[k]) < i
                &&& eligible(releases@[idx@[k] as int], app_name@, p, allow_prerelease)
                &&& crate::version::parts_model(parts@[k]) == releases@[idx@[k] as int].version@
                &&& crate::version::prerelease_accepts(parts@[k].3@)
            },
            forall|a: int, b: int| 0 <= a < b < idx@.len() ==> idx@[a] < idx@[b],
            forall|j: int| 0 <= j < i && eligible(#[trigger] releases@[j], app_name@, p, allow_prerelease)
                ==> exists|k: int| 0 <= k < idx@.len() && idx@[k] == j,
        decreases releases.len() - i,
    {
        let r = &releases[i];
        if has_installer(r, &prefix, &ext, Ghost(app_name@), Ghost(p)) && (allow_prerelease || !r.prerelease) {
            let ghost old_idx = idx@;
            idx.push(i);
            parts.push(r.version.parts());
            proof {
                assert forall|j: int| 0 <= j < i + 1 && eligible(#[trigger] releases@[j], app_name@, p, allow_prerelease)
                    implies exists|k: int| 0 <= k < idx@.len() && idx@[k] == j by {
                    if j == i {
                        assert(idx@[idx@.len() - 1] == j);
                    } else {
                        let k = choose|k: int| 0 <= k < old_idx.len() && old_idx[k] == j;
                        assert(idx@[k] == j);
                    }
                }
            }
        }
        i = i + 1;
    }
    assert forall|k: int| 0 <= k < parts@.len() implies crate::version::prerelease_accepts(#[trigger] parts@[k].3@) by {
        assert(idx@[k] < i);
    }
    match crate::version::precedence_max_position(&parts) {
        None => {
            proof {
                assert forall|j: int| 0 <= j < releases@.len() implies !eligible(#[trigger] releases@[j], app_name@, p, allow_prerelease) by {
                    if eligible(releases@[j], app_name@, p, allow_prerelease) {
                        let k = choose|k: int| 0 <= k < idx@.len() && idx@[k] == j;
                    }
                }
            }
            None
        },
        Some(k) => {
            let q = idx[k];
            proof {
                assert forall|j: int| 0 <= j < releases@.len() && eligible(#[trigger] releases@[j], app_name@, p, allow_prerelease)
                    implies model_cmp(releases@[j].version@, releases@[q as int].version@) <= 0 by {
                    let m = choose|m: int| 0 <= m < idx@.len() && idx@[m] == j;
                    assert(crate::version::parts_model(parts@[m]) == releases@[j].version@);
                }
                assert forall|j: int| q < j < releases@.len() && eligible(#[trigger] releases@[j], app_name@, p, allow_prerelease)
                    implies model_cmp(releases@[j].version@, releases@[q as int].version@) < 0 by {
                    let m = choose|m: int| 0 <= m < idx@.len() && idx@[m] == j;
                    if m <= k {
                        if m < k {
                            assert(idx@[m] < idx@[k as int]);
                        }
                    }
                    assert(m > k);
                    assert(crate::version::parts_model(parts@[m]) == releases@[j].version@);
                }
            }
            Some(q)
        },
    }
}

/// Position of the first installable release whose version equals `version`.
pub fn release_index_for_version(
    releases: &Vec<Release>,
    version: &Version,
    app_name: &str,
    p: Platform,
) -> (r: Option<usize>)
    ensures
        match r {
            Some(i) => i < releases@.len() && releases@[i as int].version@ == version@ && installable(releases@[i as int], app_name@, p)
                && forall|j: int| 0 <= j < i ==> !(#[trigger] releases@[j].version@ == version@ && installable(releases@[j], app_name@, p)),
            None => forall|j: int| 0 <= j < releases@.len() ==> !(#[trigger] releases@[j].version@ == version@ && installable(releases@[j], app_name@, p)),
        },
{
    let prefix = installer_prefix_chars(app_name);
    let ext = script_extension_chars(p);
    let mut i: usize = 0;
    while i < releases.len()
        invariant
            i <= releases.len(),
            prefix@ == installer_prefix(app_name@),
            ext@ == script_extension(p),
            forall|j: int| 0 <= j < i ==> !(#[trigger] releases@[j].version@ == version@ && installable(releases@[j], app_name@, p)),
        decreases releases.len() - i,
    {
        if releases[i].version.same_as(version) && has_installer(&releases[i], &prefix, &ext, Ghost(app_name@), Ghost(p)) {
            return Some(i);
        }
        i = i + 1;
    }
    None
}

/// Position of the first release whose tag is exactly `tag`.
pub fn release_index_for_tag(releases: &Vec<Release>, tag: &str) -> (r: Option<usize>)
    ensures
        match r {
            Some(i) => i < releases@.len() && releases@[i as int].tag_name@ == tag@
                && forall|j: int| 0 <= j < i ==> (#[trigger] releases@[j].tag_name@) != tag@,
            None => forall|j: int| 0 <= j < releases@.len() ==> (#[trigger] releases@[j].tag_name@) != tag@,
        },
{
    let t = tag.to_string();
    let mut i: usize = 0;
    while i < releases.len()
        invariant
            i <= releases.len(),
            t@ == tag@,
            forall|j: int| 0 <= j < i ==> (#[trigger] releases@[j].tag_name@) != tag@,
        decreases releases.len() - i,
    {
        if releases[i].tag_name == t {
            return Some(i);
        }
        i = i + 1;
    }
    None
}

} // verus!
