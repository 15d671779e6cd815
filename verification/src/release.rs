//! Releases and their downloadable assets, as served by a release
//! backend, together with their mathematical views.

use vstd::prelude::*;

verus! {

/// Mathematical view of an asset: its two strings as character sequences.
#[verifier::ext_equal]
pub struct AssetView {
    pub name: Seq<char>,
    pub url: Seq<char>,
}

/// A single downloadable file attached to a release.
#[derive(Debug)]
pub struct GithubAsset {
    pub name: String,
    pub url: String,
}

impl View for GithubAsset {
    type V = AssetView;

    open spec fn view(&self) -> AssetView {
        AssetView { name: self.name@, url: self.url@ }
    }
}

impl Clone for GithubAsset {
    fn clone(&self) -> (r: Self)
        ensures
            r@ == self@,
    {
        GithubAsset { name: self.name.clone(), url: self.url.clone() }
    }
}

impl GithubAsset {
    /// The asset's file name.
    pub fn get_name(&self) -> (r: &str)
        ensures
            r@ == self@.name,
    {
        self.name.as_str()
    }

    /// The URL the asset's bytes are served from.
    pub fn get_download_url(&self) -> (r: &str)
        ensures
            r@ == self@.url,
    {
        self.url.as_str()
    }
}

/// The views of a sequence of assets.
pub open spec fn assets_view(s: Seq<GithubAsset>) -> Seq<AssetView> {
    s.map_values(|a: GithubAsset| a@)
}

/// Mathematical view of a release record.
#[verifier::ext_equal]
pub struct ReleaseView {
    pub tag_name: Seq<char>,
    pub target_commitish: Seq<char>,
    pub name: Seq<char>,
    pub prerelease: bool,
    pub assets: Seq<AssetView>,
    pub body: Seq<char>,
}

/// One tagged publication of the project, with its assets. Never mutated
/// after it is fetched.
#[derive(Debug)]
pub struct GithubRelease {
    pub tag_name: String,
    pub target_commitish: String,
    pub name: String,
    pub prerelease: bool,
    pub assets: Vec<GithubAsset>,
    pub body: String,
}

impl View for GithubRelease {
    type V = ReleaseView;

    open spec fn view(&self) -> ReleaseView {
        ReleaseView {
            tag_name: self.tag_name@,
            target_commitish: self.target_commitish@,
            name: self.name@,
            prerelease: self.prerelease,
            assets: assets_view(self.assets@),
            body: self.body@,
        }
    }
}

fn clone_assets(v: &Vec<GithubAsset>) -> (r: Vec<GithubAsset>)
    ensures
        assets_view(r@) == assets_view(v@),
{
    let mut r: Vec<GithubAsset> = Vec::new();
    let mut i: usize = 0;
    while i < v.len()
        invariant
            i <= v@.len(),
            r@.len() == i,
            forall|k: int| 0 <= k < i ==> (#[trigger] r@[k])@ == v@[k]@,
        decreases v@.len() - i,
    {
        let c = v[i].clone();
        r.push(c);
        i = i + 1;
    }
    proof {
        assert(assets_view(r@) =~= assets_view(v@));
    }
    r
}

impl Clone for GithubRelease {
    fn clone(&self) -> (r: Self)
        ensures
            r@ == self@,
    {
        let r = GithubRelease {
            tag_name: self.tag_name.clone(),
            target_commitish: self.target_commitish.clone(),
            name: self.name.clone(),
            prerelease: self.prerelease,
            assets: clone_assets(&self.assets),
            body: self.body.clone(),
        };
        proof {
            assert(r@ =~= self@);
        }
        r
    }
}

/// The views of a sequence of releases.
pub open spec fn releases_view(s: Seq<GithubRelease>) -> Seq<ReleaseView> {
    s.map_values(|r: GithubRelease| r@)
}

pub(crate) fn clone_releases(v: &Vec<GithubRelease>) -> (r: Vec<GithubRelease>)
    ensures
        releases_view(r@) == releases_view(v@),
{
    let mut r: Vec<GithubRelease> = Vec::new();
    let mut i: usize = 0;
    while i < v.len()
        invariant
            i <= v@.len(),
            r@.len() == i,
            forall|k: int| 0 <= k < i ==> (#[trigger] r@[k])@ == v@[k]@,
        decreases v@.len() - i,
    {
        let c = v[i].clone();
        r.push(c);
        i = i + 1;
    }
    proof {
        assert(releases_view(r@) =~= releases_view(v@));
    }
    r
}

} // verus!
