use vstd::prelude::*;

use crate::errors::AxoupdateError;
use crate::link::{get_next_url, next_link};
use crate::release::{
    eligible, installable, is_latest, latest_release_index, release_index_for_tag,
    release_index_for_version, is_installable, Platform, Release, ReleaseSourceType,
};
use crate::text::{chars_of, contains_at_range, has_substring, push_text, string_of};
use crate::version::Version;

verus! {

/// A version request with its version already read.
pub enum Lookup {
    /// The newest stable release.
    Latest,
    /// The newest release, prereleases included.
    LatestMaybePrerelease,
    /// Exactly this version; the text is the one the caller gave.
    SpecificVersion(Version, String),
    /// Exactly this tag.
    SpecificTag(String),
}

/// Everything the resolver needs to find one release.
pub struct ReleaseLookup {
    /// Which backend hosts the releases.
    pub backend: ReleaseSourceType,
    /// Owner, in GitHub name-with-owner format.
    pub owner: String,
    /// Name, in GitHub name-with-owner format.
    pub name: String,
    /// The app's name.
    pub app_name: String,
    /// A bearer token to attach to every request.
    pub token: Option<String>,
    /// What to look for.
    pub lookup: Lookup,
}

/// The request the resolver makes first.
#[derive(PartialEq, Eq, Structural)]
pub enum FetchStep {
    /// GitHub's "latest stable release" endpoint.
    LatestEndpoint,
    /// GitHub's "release by tag" endpoint.
    TagEndpoint,
    /// The full, paginated release list.
    FullList,
}

pub open spec fn first_step(backend: ReleaseSourceType, lookup: Lookup) -> FetchStep {
    match (backend, lookup) {
        (ReleaseSourceType::GitHub, Lookup::Latest) => FetchStep::LatestEndpoint,
        (ReleaseSourceType::GitHub, Lookup::SpecificTag(_)) => FetchStep::TagEndpoint,
        _ => FetchStep::FullList,
    }
}

/// The GitHub REST API root.
pub open spec fn github_api() -> Seq<char> {
    "https://api.github.com/repos/"@
}

pub open spec fn releases_path() -> Seq<char> {
    "/releases"@
}

pub open spec fn latest_path() -> Seq<char> {
    "/releases/latest"@
}

pub open spec fn tags_path() -> Seq<char> {
    "/releases/tags/"@
}

/// `rel="next"`, which marks a header that has a continuation.
pub open spec fn rel_next() -> Seq<char> {
    "rel=\"next\""@
}

/// Backends deliver releases in their own order: GitHub newest first, Axo
/// Releases oldest first. The resolver works on newest-first lists.
pub open spec fn newest_first(backend: ReleaseSourceType, rs: Seq<Release>) -> Seq<Release> {
    match backend {
        ReleaseSourceType::GitHub => rs,
        ReleaseSourceType::Axo => rs.reverse(),
    }
}

/// The URL that `page` continues to, if any: only a header that carries
/// `rel="next"` continues.
pub open spec fn continuation(header: Option<Seq<char>>) -> Option<Seq<char>> {
    match header {
        Some(h) => if has_substring(h, rel_next()) {
            next_link(h)
        } else {
            None
        },
        None => None,
    }
}

/// Where the release list continues, given the `Link` header of a page.
pub fn next_page(link_header: Option<&str>) -> (r: Option<String>)
    ensures
        match r {
            Some(u) => continuation(match link_header { Some(h) => Some(h@), None => None }) == Some(u@),
            None => continuation(match link_header { Some(h) => Some(h@), None => None }) is None,
        },
{
    match link_header {
        None => None,
        Some(h) => {
            let v = chars_of(h);
            proof {
                reveal_strlit("rel=\"next\"");
            }
            let pat = chars_of("rel=\"next\"");
            assert(v@.subrange(0, v@.len() as int) =~= v@);
            if contains_at_range(&v, 0, v.len(), &pat) {
                get_next_url(h)
            } else {
                None
            }
        },
    }
}

impl ReleaseLookup {
    /// The request to make first: GitHub's own endpoints where they serve the
    /// request, the full list otherwise.
    pub fn first_fetch(&self) -> (r: FetchStep)
        ensures
            r == first_step(self.backend, self.lookup),
    {
        match (&self.backend, &self.lookup) {
            (ReleaseSourceType::GitHub, Lookup::Latest) => FetchStep::LatestEndpoint,
            (ReleaseSourceType::GitHub, Lookup::SpecificTag(_)) => FetchStep::TagEndpoint,
            _ => FetchStep::FullList,
        }
    }

    /// The GitHub URL of a request: the list's first page, the latest release,
    /// or the release of the requested tag.
    pub fn github_url(&self, step: FetchStep) -> (r: String)
        ensures
            r@ == github_api() + self.owner@ + seq!['/'] + self.name@ + match step {
                FetchStep::LatestEndpoint => latest_path(),
                FetchStep::TagEndpoint => tags_path() + match self.lookup {
                    Lookup::SpecificTag(t) => t@,
                    _ => Seq::empty(),
                },
                FetchStep::FullList => releases_path(),
            },
    {
        proof {
            reveal_strlit("https://api.github.com/repos/");
            reveal_strlit("/");
            reveal_strlit("/releases");
            reveal_strlit("/releases/latest");
            reveal_strlit("/releases/tags/");
        }
        let mut v = chars_of("https://api.github.com/repos/");
        push_text(&mut v, self.owner.as_str());
        push_text(&mut v, "/");
        push_text(&mut v, self.name.as_str());
        match step {
            FetchStep::LatestEndpoint => push_text(&mut v, "/releases/latest"),
            FetchStep::TagEndpoint => {
                push_text(&mut v, "/releases/tags/");
                match &self.lookup {
                    Lookup::SpecificTag(t) => push_text(&mut v, t.as_str()),
                    _ => {},
                }
            },
            FetchStep::FullList => push_text(&mut v, "/releases"),
        }
        assert(v@ =~= github_api() + self.owner@ + seq!['/'] + self.name@ + match step {
            FetchStep::LatestEndpoint => latest_path(),
            FetchStep::TagEndpoint => tags_path() + match self.lookup {
                Lookup::SpecificTag(t) => t@,
                _ => Seq::empty(),
            },
            FetchStep::FullList => releases_path(),
        });
        string_of(&v)
    }

    /// The error a failed request ends in: none for the latest-release
    /// endpoint (the full list is tried next), `VersionNotFound` for the tag
    /// endpoint and `ReleaseNotFound` for the list.
    pub fn failed_fetch_error(&self, step: FetchStep) -> (r: Option<AxoupdateError>)
        ensures
            step == FetchStep::LatestEndpoint ==> r is None,
            step == FetchStep::TagEndpoint ==> (r matches Some(AxoupdateError::VersionNotFound { name, app_name, version })
                && name@ == self.name@ && app_name@ == self.app_name@ && version@ == match self.lookup {
                    Lookup::SpecificTag(t) => t@,
                    _ => Seq::empty(),
                }),
            step == FetchStep::FullList ==> (r matches Some(AxoupdateError::ReleaseNotFound { name, app_name })
                && name@ == self.name@ && app_name@ == self.app_name@),
    {
        match step {
            FetchStep::LatestEndpoint => None,
            FetchStep::TagEndpoint => {
                let version = match &self.lookup {
                    Lookup::SpecificTag(t) => t.clone(),
                    _ => String::new(),
                };
                Some(AxoupdateError::VersionNotFound { name: self.name.clone(), app_name: self.app_name.clone(), version })
            },
            FetchStep::FullList => Some(
                AxoupdateError::ReleaseNotFound { name: self.name.clone(), app_name: self.app_name.clone() },
            ),
        }
    }

    /// Judges what the latest-release endpoint returned: kept only if it
    /// carries an installer for this platform, else the full list is scanned.
    pub fn accept_latest_endpoint(&self, candidate: Release, platform: Platform) -> (r: Option<Release>)
        ensures
            installable(candidate, self.app_name@, platform) ==> r == Some(candidate),
            !installable(candidate, self.app_name@, platform) ==> r is None,
    {
        if is_installable(&candidate, self.app_name.as_str(), platform) {
            Some(candidate)
        } else {
            None
        }
    }

    /// Picks the requested release out of the full release list, as the
    /// backend delivered it.
    pub fn resolve_from_list(&self, releases: Vec<Release>, platform: Platform) -> (r: Result<Release, AxoupdateError>)
        ensures
            ({
                let rs = newest_first(self.backend, releases@);
                match self.lookup {
                    Lookup::Latest => match r {
                        Ok(rel) => exists|q: int| is_latest(rs, q, self.app_name@, platform, false) && rel == rs[q],
                        Err(e) => (forall|j: int| 0 <= j < rs.len() ==> !eligible(#[trigger] rs[j], self.app_name@, platform, false))
                            && (e matches AxoupdateError::NoStableReleases { app_name } && app_name@ == self.app_name@),
                    },
                    Lookup::LatestMaybePrerelease => match r {
                        Ok(rel) => exists|q: int| is_latest(rs, q, self.app_name@, platform, true) && rel == rs[q],
                        Err(e) => (forall|j: int| 0 <= j < rs.len() ==> !eligible(#[trigger] rs[j], self.app_name@, platform, true))
                            && (e matches AxoupdateError::NoStableReleases { app_name } && app_name@ == self.app_name@),
                    },
                    Lookup::SpecificVersion(v, text) => match r {
                        Ok(rel) => exists|q: int| 0 <= q < rs.len() && rel == rs[q] && rs[q].version@ == v@
                            && installable(rs[q], self.app_name@, platform)
                            && forall|j: int| 0 <= j < q ==> !(#[trigger] rs[j].version@ == v@ && installable(rs[j], self.app_name@, platform)),
                        Err(e) => (forall|j: int| 0 <= j < rs.len() ==> !(#[trigger] rs[j].version@ == v@ && installable(rs[j], self.app_name@, platform)))
                            && (e matches AxoupdateError::VersionNotFound { name, app_name, version }
                            && name@ == self.name@ && app_name@ == self.app_name@ && version@ == text@),
                    },
                    Lookup::SpecificTag(t) => match r {
                        Ok(rel) => exists|q: int| 0 <= q < rs.len() && rel == rs[q] && rs[q].tag_name@ == t@
                            && forall|j: int| 0 <= j < q ==> (#[trigger] rs[j].tag_name@) != t@,
                        Err(e) => (forall|j: int| 0 <= j < rs.len() ==> (#[trigger] rs[j].tag_name@) != t@)
                            && (e matches AxoupdateError::ReleaseNotFound { name, app_name }
                            && name@ == self.name@ && app_name@ == self.app_name@),
                    },
                }
            }),
    {
        let mut rs = newest_first_order(self.backend, releases);
        match &self.lookup {
            Lookup::Latest | Lookup::LatestMaybePrerelease => {
                let allow = match &self.lookup {
                    Lookup::LatestMaybePrerelease => true,
                    _ => false,
                };
                match latest_release_index(&rs, self.app_name.as_str(), platform, allow) {
                    Some(i) => Ok(rs.remove(i)),
                    None => Err(AxoupdateError::NoStableReleases { app_name: self.app_name.clone() }),
                }
            },
            Lookup::SpecificVersion(v, text) => {
                match release_index_for_version(&rs, v, self.app_name.as_str(), platform) {
                    Some(i) => Ok(rs.remove(i)),
                    None => Err(
                        AxoupdateError::VersionNotFound {
                            name: self.name.clone(),
                            app_name: self.app_name.clone(),
                            version: text.clone(),
                        },
                    ),
                }
            },
            Lookup::SpecificTag(t) => {
                match release_index_for_tag(&rs, t.as_str()) {
                    Some(i) => Ok(rs.remove(i)),
                    None => Err(
                        AxoupdateError::ReleaseNotFound { name: self.name.clone(), app_name: self.app_name.clone() },
                    ),
                }
            },
        }
    }
}

/// Puts a backend's release list newest first.
pub fn newest_first_order(backend: ReleaseSourceType, releases: Vec<Release>) -> (r: Vec<Release>)
    ensures
        r@ == newest_first(backend, releases@),
{
    match backend {
        ReleaseSourceType::GitHub => releases,
        ReleaseSourceType::Axo => {
            let ghost orig = releases@;
            let n = releases.len();
            let mut src = releases;
            let mut out: Vec<Release> = Vec::new();
            while src.len() > 0
                invariant
                    n == orig.len(),
                    out@.len() + src@.len() == n,
                    src@ == orig.take(src@.len() as int),
                    forall|j: int| 0 <= j < out@.len() ==> out@[j] == orig[n - 1 - j],
                decreases src@.len(),
            {
                let ghost k = src@.len();
                let x = src.pop().unwrap();
                assert(x == orig[k - 1]);
                out.push(x);
                assert(src@ =~= orig.take(src@.len() as int));
            }
            assert(out@ =~= orig.reverse());
            out
        },
    }
}

} // verus!
