//! Release metadata of the engine, as published on GitHub.
use vstd::prelude::*;
use crate::text::text_eq;

verus! {

#[derive(Default, Debug, Clone, PartialEq)]
/// A release as the GitHub API describes it.
pub struct LatestRelease {
    pub url: String,
    pub assets_url: String,
    pub upload_url: String,
    pub html_url: String,
    pub id: i64,
    pub author: ReleaseAuthor,
    pub node_id: String,
    pub tag_name: String,
    pub target_commitish: String,
    pub name: String,
    pub draft: bool,
    pub prerelease: bool,
    pub created_at: String,
    pub published_at: String,
    pub assets: Vec<ReleaseAsset>,
    pub tarball_url: String,
    pub zipball_url: String,
    pub body: String,
    pub reactions: ReleaseReactions,
    pub mentions_count: i64,
}

#[derive(Default, Debug, Clone, PartialEq)]
/// The author of a release.
pub struct ReleaseAuthor {
    pub login: String,
    pub id: i64,
    pub node_id: String,
    pub avatar_url: String,
    pub gravatar_id: String,
    pub url: String,
    pub html_url: String,
    pub followers_url: String,
    pub following_url: String,
    pub gists_url: String,
    pub starred_url: String,
    pub subscriptions_url: String,
    pub organizations_url: String,
    pub repos_url: String,
    pub events_url: String,
    pub received_events_url: String,
    pub type_field: String,
    pub site_admin: bool,
}

#[derive(Default, Debug, Clone, PartialEq)]
/// A file attached to a release.
pub struct ReleaseAsset {
    pub url: String,
    pub id: i64,
    pub node_id: String,
    pub name: String,
    pub label: String,
    pub uploader: Uploader,
    pub content_type: String,
    pub state: String,
    pub size: i64,
    pub download_count: i64,
    pub created_at: String,
    pub updated_at: String,
    pub browser_download_url: String,
}

#[derive(Default, Debug, Clone, PartialEq)]
/// The uploader of a release file.
pub struct Uploader {
    pub login: String,
    pub id: i64,
    pub node_id: String,
    pub avatar_url: String,
    pub gravatar_id: String,
    pub url: String,
    pub html_url: String,
    pub followers_url: String,
    pub following_url: String,
    pub gists_url: String,
    pub starred_url: String,
    pub subscriptions_url: String,
    pub organizations_url: String,
    pub repos_url: String,
    pub events_url: String,
    pub received_events_url: String,
    pub type_field: String,
    pub site_admin: bool,
}

#[derive(Default, Debug, Clone, PartialEq)]
/// Reaction counts of a release.
pub struct ReleaseReactions {
    pub url: String,
    pub total_count: i64,
    pub n1: i64,
    pub n12: i64,
    pub laugh: i64,
    pub hooray: i64,
    pub confused: i64,
    pub heart: i64,
    pub rocket: i64,
    pub eyes: i64,
}

/// The position of the first asset of `release` named `name`.
pub fn find_asset(release: &LatestRelease, name: &str) -> (r: Option<usize>)
    ensures
        match r {
            Some(k) => k < release.assets@.len() && release.assets@[k as int].name@ == name@
                && forall|m: int| 0 <= m < k ==> release.assets@[m].name@ != name@,
            None => forall|m: int|
                0 <= m < release.assets@.len() ==> release.assets@[m].name@ != name@,
        },
{
    let mut k: usize = 0;
    while k < release.assets.len()
        invariant
            k <= release.assets@.len(),
            forall|m: int| 0 <= m < k ==> release.assets@[m].name@ != name@,
        decreases release.assets@.len() - k,
    {
        if text_eq(release.assets[k].name.as_str(), name) {
            return Some(k);
        }
        k = k + 1;
    }
    None
}

} // verus!
