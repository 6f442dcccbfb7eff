use vstd::prelude::*;

use crate::errors::AxoupdateError;

verus! {

/// The mathematical content of a semantic version.
pub struct VersionModel {
    pub major: nat,
    pub minor: nat,
    pub patch: nat,
    pub pre: Seq<char>,
    pub build: Seq<char>,
}

/// What `semver::Prerelease::new` accepts.
pub uninterp spec fn prerelease_accepts(s: Seq<char>) -> bool;

/// What `semver::BuildMetadata::new` accepts.
pub uninterp spec fn build_metadata_accepts(s: Seq<char>) -> bool;

/// semver's order on the pre-release parts of two versions: -1, 0 or 1.
pub uninterp spec fn pre_order(a_pre: Seq<char>, b_pre: Seq<char>) -> int;

/// The version that `semver::Version::from_str` reads from a text, if any.
pub uninterp spec fn semver_of(s: Seq<char>) -> Option<VersionModel>;

/// Semantic-version precedence, three-way: major, minor and patch
/// numerically; then equal pre-release texts are equal, a release is above any
/// prerelease of the same numbers, and other pre-release parts go as semver
/// orders them. Build metadata plays no part.
pub open spec fn model_cmp(a: VersionModel, b: VersionModel) -> int {
    if a.major != b.major {
        if a.major < b.major { -1 } else { 1 }
    } else if a.minor != b.minor {
        if a.minor < b.minor { -1 } else { 1 }
    } else if a.patch != b.patch {
        if a.patch < b.patch { -1 } else { 1 }
    } else if a.pre == b.pre {
        0
    } else if a.pre.len() == 0 && b.pre.len() > 0 {
        1
    } else if a.pre.len() > 0 && b.pre.len() == 0 {
        -1
    } else {
        pre_order(a.pre, b.pre)
    }
}

/// `a` has lower precedence than `b`.
pub open spec fn version_lt(a: VersionModel, b: VersionModel) -> bool {
    model_cmp(a, b) < 0
}

/// The parts of a version as plain values, checked by semver.
pub open spec fn parts_model(p: (u64, u64, u64, String, String)) -> VersionModel {
    VersionModel { major: p.0 as nat, minor: p.1 as nat, patch: p.2 as nat, pre: p.3@, build: p.4@ }
}

/// The pre-release and build texts of the parts are ones semver accepts.
pub open spec fn parts_accepted(p: (u64, u64, u64, String, String)) -> bool {
    prerelease_accepts(p.3@) && build_metadata_accepts(p.4@)
}

#[verifier::external_type_specification]
#[verifier::external_body]
pub struct ExSemverError(axotag::semver::Error);

/// Relies on `semver::Version::from_str` to read a version, and on
/// `Prerelease::as_str` / `BuildMetadata::as_str` giving back text that
/// `Prerelease::new` / `BuildMetadata::new` accept.
#[verifier::external_body]
fn parse_semver(s: &str) -> (r: Result<(u64, u64, u64, String, String), axotag::semver::Error>)
    ensures
        match r {
            Ok(p) => semver_of(s@) == Some(parts_model(p)) && prerelease_accepts(p.3@)
                && build_metadata_accepts(p.4@),
            Err(_) => semver_of(s@) is None,
        },
{
    let v = s.parse::<axotag::semver::Version>()?;
    Ok((v.major, v.minor, v.patch, v.pre.as_str().to_string(), v.build.as_str().to_string()))
}

/// Relies on semver's `Ord` for `Prerelease`, the pre-release part of
/// `Version::cmp_precedence`.
#[verifier::external_body]
fn semver_pre_cmp(a_pre: &str, b_pre: &str) -> (r: i8)
    requires
        prerelease_accepts(a_pre@),
        prerelease_accepts(b_pre@),
    ensures
        r as int == pre_order(a_pre@, b_pre@),
        -1 <= r <= 1,
{
    let a = axotag::semver::Prerelease::new(a_pre).unwrap();
    let b = axotag::semver::Prerelease::new(b_pre).unwrap();
    match a.cmp(&b) {
        std::cmp::Ordering::Less => -1,
        std::cmp::Ordering::Equal => 0,
        std::cmp::Ordering::Greater => 1,
    }
}

/// Relies on `Iterator::max_by_key` with semver's precedence key (major, minor,
/// patch, `Prerelease`, whose `Ord` is a total order): the position of an
/// element no other element exceeds, and of equal maxima the last one.
#[verifier::external_body]
pub(crate) fn precedence_max_position(vs: &Vec<(u64, u64, u64, String, String)>) -> (r: Option<usize>)
    requires
        forall|k: int| 0 <= k < vs@.len() ==> prerelease_accepts(#[trigger] vs@[k].3@),
    ensures
        r is None <==> vs@.len() == 0,
        r matches Some(i) ==> i < vs@.len() && (forall|j: int|
            0 <= j < vs@.len() ==> model_cmp(parts_model(#[trigger] vs@[j]), parts_model(vs@[i as int])) <= 0)
            && (forall|j: int| i < j < vs@.len() ==> model_cmp(parts_model(#[trigger] vs@[j]), parts_model(vs@[i as int])) < 0),
{
    let keys: Vec<(u64, u64, u64, axotag::semver::Prerelease)> = vs
        .iter()
        .map(|p| (p.0, p.1, p.2, axotag::semver::Prerelease::new(&p.3).unwrap()))
        .collect();
    keys.iter().enumerate().max_by_key(|(_, k)| *k).map(|(i, _)| i)
}

/// A semantic version whose pre-release and build texts are valid for semver.
#[derive(Debug)]
pub struct Version {
    major: u64,
    minor: u64,
    patch: u64,
    pre: String,
    build: String,
}

impl View for Version {
    type V = VersionModel;

    closed spec fn view(&self) -> VersionModel {
        VersionModel {
            major: self.major as nat,
            minor: self.minor as nat,
            patch: self.patch as nat,
            pre: self.pre@,
            build: self.build@,
        }
    }
}

impl Version {
    #[verifier::type_invariant]
    closed spec fn inv(&self) -> bool {
        prerelease_accepts(self.pre@) && build_metadata_accepts(self.build@)
    }

    pub(crate) fn from_parts(p: (u64, u64, u64, String, String)) -> (r: Version)
        requires
            parts_accepted(p),
        ensures
            r@ == parts_model(p),
    {
        Version { major: p.0, minor: p.1, patch: p.2, pre: p.3, build: p.4 }
    }

    /// Reads a semantic version such as `1.2.3-beta.1+build5`.
    pub fn parse(s: &str) -> (r: Result<Version, AxoupdateError>)
        ensures
            match r {
                Ok(v) => semver_of(s@) == Some(v@),
                Err(e) => semver_of(s@) is None && (e matches AxoupdateError::Version { text } && text@ == s@),
            },
    {
        match parse_semver(s) {
            Ok(p) => Ok(Version::from_parts(p)),
            Err(_) => Err(AxoupdateError::Version { text: s.to_string() }),
        }
    }

    /// The three-way precedence of `self` against `other`: -1, 0 or 1.
    pub fn compare(&self, other: &Version) -> (r: i8)
        ensures
            r as int == model_cmp(self@, other@),
            -1 <= r <= 1,
    {
        proof {
            use_type_invariant(self);
            use_type_invariant(other);
        }
        if self.major != other.major {
            if self.major < other.major { -1 } else { 1 }
        } else if self.minor != other.minor {
            if self.minor < other.minor { -1 } else { 1 }
        } else if self.patch != other.patch {
            if self.patch < other.patch { -1 } else { 1 }
        } else if self.pre == other.pre {
            0
        } else if self.pre.as_str().is_empty() && !other.pre.as_str().is_empty() {
            1
        } else if !self.pre.as_str().is_empty() && other.pre.as_str().is_empty() {
            -1
        } else {
            semver_pre_cmp(self.pre.as_str(), other.pre.as_str())
        }
    }

    /// `self` has strictly lower precedence than `other`.
    pub fn is_older_than(&self, other: &Version) -> (r: bool)
        ensures
            r == version_lt(self@, other@),
    {
        self.compare(other) < 0
    }

    /// All five parts are identical.
    pub fn same_as(&self, other: &Version) -> (r: bool)
        ensures
            r == (self@ == other@),
    {
        self.major == other.major && self.minor == other.minor && self.patch == other.patch
            && self.pre == other.pre && self.build == other.build
    }

    /// The parts of this version as plain values.
    pub(crate) fn parts(&self) -> (p: (u64, u64, u64, String, String))
        ensures
            parts_model(p) == self@,
            prerelease_accepts(p.3@),
            build_metadata_accepts(p.4@),
    {
        proof {
            use_type_invariant(self);
        }
        (self.major, self.minor, self.patch, self.pre.clone(), self.build.clone())
    }

    /// A copy of this version.
    pub fn duplicate(&self) -> (r: Version)
        ensures
            r@ == self@,
    {
        proof {
            use_type_invariant(self);
        }
        Version {
            major: self.major,
            minor: self.minor,
            patch: self.patch,
            pre: self.pre.clone(),
            build: self.build.clone(),
        }
    }

    pub fn major(&self) -> (r: u64)
        ensures
            r as nat == self@.major,
    {
        self.major
    }

    pub fn minor(&self) -> (r: u64)
        ensures
            r as nat == self@.minor,
    {
        self.minor
    }

    pub fn patch(&self) -> (r: u64)
        ensures
            r as nat == self@.patch,
    {
        self.patch
    }

    pub fn pre(&self) -> (r: &str)
        ensures
            r@ == self@.pre,
    {
        self.pre.as_str()
    }

    pub fn build(&self) -> (r: &str)
        ensures
            r@ == self@.build,
    {
        self.build.as_str()
    }
}

} // verus!
