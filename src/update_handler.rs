//! Where updates are looked for, and what an update check reports.
use vstd::prelude::*;

verus! {

/// The update description of the latest release.
pub const RELEASE_ENDPOINT: &'static str =
    "https://github.com/Takadayoo/vrchat-group-manager/releases/latest/download/latest.json";

/// The update description of the latest pre-release.
pub const PRERELEASE_ENDPOINT: &'static str =
    "https://github.com/Takadayoo/vrchat-group-manager/releases/download/pre-release/latest.json";

/// An update that is available: its version and its release notes.
#[derive(Debug, Clone)]
pub struct UpdateInfo {
    pub version: String,
    pub body: Option<String>,
}

/// The update description to look for updates in: pre-releases only where asked for.
pub fn get_endpoint(include_prerelease: bool) -> (r: &'static str)
    ensures
        r@ == (if include_prerelease {
            PRERELEASE_ENDPOINT@
        } else {
            RELEASE_ENDPOINT@
        }),
{
    if include_prerelease {
        PRERELEASE_ENDPOINT
    } else {
        RELEASE_ENDPOINT
    }
}

} // verus!
