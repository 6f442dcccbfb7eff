use vstd::prelude::*;

use crate::release::UpdateRequest;
use crate::version::{model_cmp, version_lt, Version, VersionModel};

verus! {

/// The update rule: the `Latest` requests only ever move forward; the specific
/// requests move to any other version, older ones included.
pub open spec fn update_needed(current: VersionModel, candidate: VersionModel, request: UpdateRequest) -> bool {
    match request {
        UpdateRequest::Latest | UpdateRequest::LatestMaybePrerelease => version_lt(current, candidate),
        UpdateRequest::SpecificVersion(_) | UpdateRequest::SpecificTag(_) => current != candidate,
    }
}

/// Whether moving from `current` to `candidate` is an update under `request`.
pub fn is_update_needed(current: &Version, candidate: &Version, request: &UpdateRequest) -> (r: bool)
    ensures
        r == update_needed(current@, candidate@, *request),
{
    match request {
        UpdateRequest::Latest | UpdateRequest::LatestMaybePrerelease => current.is_older_than(candidate),
        UpdateRequest::SpecificVersion(_) | UpdateRequest::SpecificTag(_) => !current.same_as(candidate),
    }
}

/// Under a `Latest` request the running version is never replaced by itself,
/// and never by a version of lower major, minor or patch numbers.
pub proof fn latest_never_downgrades(current: VersionModel, candidate: VersionModel, request: UpdateRequest)
    requires
        request is Latest || request is LatestMaybePrerelease,
    ensures
        current == candidate ==> !update_needed(current, candidate, request),
        (candidate.major, candidate.minor, candidate.patch) != (current.major, current.minor, current.patch)
            ==> (update_needed(current, candidate, request) <==> model_cmp(current, candidate) == -1),
        candidate.major < current.major ==> !update_needed(current, candidate, request),
{
}

/// Under a specific request any different version is an update, older or
/// newer, and the same version is not.
pub proof fn specific_moves_anywhere(current: VersionModel, candidate: VersionModel, request: UpdateRequest)
    requires
        request is SpecificVersion || request is SpecificTag,
    ensures
        update_needed(current, candidate, request) <==> current != candidate,
{
}

} // verus!
