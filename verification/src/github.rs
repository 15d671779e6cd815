//! Release resolution: selection criteria, filtering, paginated fetching
//! through a pluggable backend, and the choice of the newest matching
//! release.

use vstd::prelude::*;
use vstd::string::StringExecFns;
use core::cmp::Ordering;
use crate::error::Error;
use crate::release::{GithubRelease, ReleaseView, releases_view};
use crate::version::{SimpleTag, TagComparator, decimal_string, spec_decimal, spec_simple_cmp};

verus! {

/// The view of an optional configuration string.
pub open spec fn opt_view(o: Option<String>) -> Option<Seq<char>> {
    match o {
        Some(s) => Some(s@),
        None => None,
    }
}

/// Mathematical view of the selection criteria.
#[verifier::ext_equal]
pub struct ApiView {
    pub api_url: Option<Seq<char>>,
    pub owner: Seq<char>,
    pub repo: Seq<char>,
    pub auth_token: Option<Seq<char>>,
    pub branch: Option<Seq<char>>,
    pub prerelease: bool,
    pub specific_tag: Option<Seq<char>>,
    pub current_version: Option<Seq<char>>,
    pub asset_name: Option<Seq<char>>,
}

/// The selection criteria for one resolution run: which repository to
/// look at and which releases qualify. Built once by the caller and not
/// mutated while resolving.
pub struct GithubApi {
    api_url: Option<String>,
    owner: String,
    repo: String,
    auth_token: Option<String>,
    branch: Option<String>,
    prerelease: bool,
    specific_tag: Option<String>,
    current_version: Option<String>,
    asset_name: Option<String>,
}

impl View for GithubApi {
    type V = ApiView;

    closed spec fn view(&self) -> ApiView {
        ApiView {
            api_url: opt_view(self.api_url),
            owner: self.owner@,
            repo: self.repo@,
            auth_token: opt_view(self.auth_token),
            branch: opt_view(self.branch),
            prerelease: self.prerelease,
            specific_tag: opt_view(self.specific_tag),
            current_version: opt_view(self.current_version),
            asset_name: opt_view(self.asset_name),
        }
    }
}

/// A release passes the filter exactly when every stated criterion holds:
/// prereleases are allowed or it is none, and each required tag, branch
/// and asset name is either not required or present.
pub open spec fn spec_filter(c: ApiView, r: ReleaseView) -> bool {
    &&& c.prerelease || !r.prerelease
    &&& match c.specific_tag {
        Some(t) => r.tag_name == t,
        None => true,
    }
    &&& match c.branch {
        Some(b) => r.target_commitish == b,
        None => true,
    }
    &&& match c.asset_name {
        Some(n) => exists|k: int| 0 <= k < r.assets.len() && (#[trigger] r.assets[k]).name == n,
        None => true,
    }
}

/// The subsequence of releases that pass the filter, in fetch order.
pub open spec fn spec_matching(c: ApiView, s: Seq<ReleaseView>) -> Seq<ReleaseView>
    decreases s.len(),
{
    if s.len() == 0 {
        Seq::empty()
    } else {
        let rest = spec_matching(c, s.drop_last());
        if spec_filter(c, s.last()) {
            rest.push(s.last())
        } else {
            rest
        }
    }
}

/// The order two tag strings get from an optional caller-supplied
/// comparator, the default triple comparison standing in when none is
/// supplied.
pub open spec fn effective_cmp<C: TagComparator>(
    sf: Option<C>,
    a: Seq<char>,
    b: Seq<char>,
) -> Ordering {
    match sf {
        Some(c) => c.cmp_spec(a, b),
        None => spec_simple_cmp(a, b),
    }
}

/// The index of the release a resolution run selects: the first release
/// whose tag no later release's tag strictly exceeds. A later release
/// displaces an earlier choice only when its tag compares strictly
/// greater, so equal tags keep the earliest-fetched release.
pub open spec fn best_idx<C: TagComparator>(s: Seq<ReleaseView>, sf: Option<C>) -> int
    decreases s.len(),
{
    if s.len() <= 1 {
        0
    } else {
        let prev = best_idx(s.drop_last(), sf);
        if effective_cmp(sf, s.last().tag_name, s[prev].tag_name) == Ordering::Greater {
            s.len() - 1
        } else {
            prev
        }
    }
}

/// The selected index lies inside the sequence.
pub proof fn lemma_best_idx_bounds<C: TagComparator>(s: Seq<ReleaseView>, sf: Option<C>)
    requires
        s.len() > 0,
    ensures
        0 <= best_idx(s, sf) < s.len(),
    decreases s.len(),
{
    if s.len() > 1 {
        lemma_best_idx_bounds(s.drop_last(), sf);
    }
}

/// The tie-break is stable: when every pair of tags in the list compares
/// equal, the selected release is the earliest-fetched one.
pub proof fn lemma_select_stable<C: TagComparator>(s: Seq<ReleaseView>, sf: Option<C>)
    requires
        s.len() > 0,
        forall|i: int, j: int|
            #![trigger s[i], s[j]]
            0 <= i < s.len() && 0 <= j < s.len() ==> effective_cmp(sf, s[i].tag_name, s[j].tag_name)
                == Ordering::Equal,
    ensures
        best_idx(s, sf) == 0,
    decreases s.len(),
{
    if s.len() > 1 {
        lemma_best_idx_bounds(s.drop_last(), sf);
        lemma_select_stable(s.drop_last(), sf);
        let prev = best_idx(s.drop_last(), sf);
        assert(s.drop_last()[prev] == s[prev]);
        assert(effective_cmp(sf, s.last().tag_name, s[prev].tag_name) == Ordering::Equal);
    }
}

/// Under the default comparator the selection is maximal: no release in
/// the list has a tag that compares strictly greater than the selected
/// release's tag.
pub proof fn lemma_select_maximal<C: TagComparator>(s: Seq<ReleaseView>, sf: Option<C>)
    requires
        s.len() > 0,
        sf is None,
    ensures
        forall|j: int|
            0 <= j < s.len() ==> spec_simple_cmp(
                (#[trigger] s[j]).tag_name,
                s[best_idx(s, sf)].tag_name,
            ) != Ordering::Greater,
    decreases s.len(),
{
    lemma_best_idx_bounds(s, sf);
    if s.len() > 1 {
        lemma_select_maximal(s.drop_last(), sf);
        lemma_best_idx_bounds(s.drop_last(), sf);
        let prev = best_idx(s.drop_last(), sf);
        let b = best_idx(s, sf);
        assert(forall|j: int| 0 <= j < s.len() - 1 ==> s.drop_last()[j] == s[j]);
        assert forall|j: int|
            0 <= j < s.len() implies spec_simple_cmp(s[j].tag_name, s[b].tag_name)
            != Ordering::Greater by {
            if j < s.len() - 1 {
                assert(spec_simple_cmp(s.drop_last()[j].tag_name, s.drop_last()[prev].tag_name)
                    != Ordering::Greater);
            }
        }
    }
}

/// A source of release pages: the hosting service itself in the
/// embedding application, or a scripted backend in tests. Pages are
/// 1-based; an empty page ends pagination.
pub trait ReleaseBackend {
    /// The page this backend serves for a configuration, or the error
    /// with which the request for that page fails.
    spec fn page_spec(&self, api: ApiView, page: int, per_page: int) -> Result<
        Seq<ReleaseView>,
        Error,
    >;

    /// The page requests made to this backend so far: page number and
    /// page size of each, in request order.
    spec fn request_log(&self) -> Seq<(int, int)>;

    /// Requests one page of releases. A request appends itself to the
    /// request log and leaves the served pages unchanged.
    fn fetch_page(&mut self, api: &GithubApi, page: u64, per_page: u64) -> (r: Result<
        Vec<GithubRelease>,
        Error,
    >)
        ensures
            forall|a: ApiView, p: int, pp: int|
                #[trigger] final(self).page_spec(a, p, pp) == old(self).page_spec(a, p, pp),
            final(self).request_log() == old(self).request_log().push(
                (page as int, per_page as int),
            ),
            (match r {
                Ok(v) => old(self).page_spec(api@, page as int, per_page as int) == Ok::<
                    _,
                    Error,
                >(releases_view(v@)),
                Err(e) => old(self).page_spec(api@, page as int, per_page as int) == Err::<
                    Seq<ReleaseView>,
                    _,
                >(e) && !(e is NoRelease),
            }),
    ;
}

/// The served pages of two backend states agree everywhere: what a page
/// request leaves unchanged.
pub open spec fn pages_unchanged<B: ReleaseBackend>(b0: B, b1: B) -> bool {
    forall|a: ApiView, p: int, pp: int| #[trigger] b1.page_spec(a, p, pp) == b0.page_spec(a, p, pp)
}

/// The requests a pagination run makes for pages 1 through `k`, in
/// order, each with page size 100.
pub open spec fn page_requests(k: int) -> Seq<(int, int)>
    decreases k,
{
    if k <= 0 {
        Seq::empty()
    } else {
        page_requests(k - 1).push((k, 100))
    }
}

/// A failed pagination run: no complete pagination exists, some page
/// request failed with exactly the returned error (or pagination never
/// reached an empty page within the page counter), pages 1 through the
/// failing one were requested, and nothing after it.
pub open spec fn fetch_err_post<B: ReleaseBackend>(b0: B, b1: B, api: ApiView, e: Error) -> bool {
    &&& !(e is NoRelease)
    &&& (forall|n: int| 0 <= n < u64::MAX - 1 ==> !complete_fetch(b0, api, n))
    &&& exists|p: int|
        #![trigger page_requests(p)]
        {
            &&& 1 <= p <= u64::MAX
            &&& (forall|q: int| 1 <= q < p ==> page_nonempty(b0, api, q))
            &&& b1.request_log() == b0.request_log() + page_requests(p)
            &&& (b0.page_spec(api, p, 100) == Err::<Seq<ReleaseView>, _>(e) || (p == u64::MAX
                && page_nonempty(b0, api, p) && e is Backend))
        }
}

/// A backend that serves a fixed script of pages and counts the requests
/// made to it: the interchangeable stand-in for a hosting service that
/// tests and dry runs use. A scripted `Err` entry makes that page request
/// fail with a backend error carrying exactly that message; pages past
/// the end of the script are empty.
pub struct ScriptedBackend {
    pages: Vec<Result<Vec<GithubRelease>, String>>,
    requests: u64,
    log: Ghost<Seq<(int, int)>>,
}

impl ScriptedBackend {
    /// The scripted pages.
    pub closed spec fn pages_spec(&self) -> Seq<Result<Vec<GithubRelease>, String>> {
        self.pages@
    }

    /// How many page requests were made so far (saturating).
    pub closed spec fn requests_spec(&self) -> u64 {
        self.requests
    }

    /// A backend serving exactly the given pages, in order.
    pub fn new(pages: Vec<Result<Vec<GithubRelease>, String>>) -> (r: Self)
        ensures
            r.pages_spec() == pages@,
            r.requests_spec() == 0,
            r.request_log() == Seq::<(int, int)>::empty(),
    {
        ScriptedBackend { pages, requests: 0, log: Ghost(Seq::empty()) }
    }

    /// How many page requests were made so far (saturating).
    pub fn requests(&self) -> (r: u64)
        ensures
            r == self.requests_spec(),
    {
        self.requests
    }
}

impl ReleaseBackend for ScriptedBackend {
    open spec fn page_spec(&self, api: ApiView, page: int, per_page: int) -> Result<
        Seq<ReleaseView>,
        Error,
    > {
        if 1 <= page && page <= self.pages_spec().len() {
            match self.pages_spec()[page - 1] {
                Ok(v) => Ok(releases_view(v@)),
                Err(m) => Err(Error::Backend(m)),
            }
        } else {
            Ok(Seq::<ReleaseView>::empty())
        }
    }

    closed spec fn request_log(&self) -> Seq<(int, int)> {
        self.log@
    }

    fn fetch_page(&mut self, api: &GithubApi, page: u64, per_page: u64) -> (r: Result<
        Vec<GithubRelease>,
        Error,
    >)
        ensures
            final(self).pages_spec() == old(self).pages_spec(),
            final(self).requests_spec() == (if old(self).requests_spec() < u64::MAX {
                old(self).requests_spec() + 1
            } else {
                u64::MAX as int
            }),
    {
        if self.requests < u64::MAX {
            self.requests = self.requests + 1;
        }
        self.log = Ghost(self.log@.push((page as int, per_page as int)));
        if 1 <= page && page <= self.pages.len() as u64 {
            let idx = (page - 1) as usize;
            match &self.pages[idx] {
                Ok(v) => Ok(crate::release::clone_releases(v)),
                Err(m) => Err(Error::Backend(m.clone())),
            }
        } else {
            proof {
                assert(releases_view(Seq::<GithubRelease>::empty()) =~= Seq::<
                    ReleaseView,
                >::empty());
            }
            Ok(Vec::new())
        }
    }
}

/// Whether a backend serves a non-empty page at `p`.
pub open spec fn page_nonempty<B: ReleaseBackend>(b: B, api: ApiView, p: int) -> bool {
    match b.page_spec(api, p, 100) {
        Ok(s) => s.len() > 0,
        Err(_) => false,
    }
}

/// Pagination runs to completion with exactly `n` non-empty pages
/// followed by an empty one.
pub open spec fn complete_fetch<B: ReleaseBackend>(b: B, api: ApiView, n: int) -> bool {
    &&& 0 <= n
    &&& forall|q: int| 1 <= q <= n ==> page_nonempty(b, api, q)
    &&& b.page_spec(api, n + 1, 100) == Ok::<_, Error>(Seq::<ReleaseView>::empty())
}

/// The concatenation, in request order, of the releases on pages 1
/// through `n`.
pub open spec fn pages_prefix<B: ReleaseBackend>(b: B, api: ApiView, n: int) -> Seq<ReleaseView>
    decreases n,
{
    if n <= 0 {
        Seq::empty()
    } else {
        pages_prefix(b, api, n - 1) + (match b.page_spec(api, n, 100) {
            Ok(s) => s,
            Err(_) => Seq::<ReleaseView>::empty(),
        })
    }
}

/// The releases a complete pagination run leaves after filtering.
pub open spec fn matching_view<B: ReleaseBackend>(b: B, api: ApiView, n: int) -> Seq<ReleaseView> {
    spec_matching(api, pages_prefix(b, api, n))
}

/// What resolving the newest release through a backend guarantees, for
/// backend states before (`b0`) and after (`b1`) the call: the served
/// pages are untouched; on success pagination completed after some `n`
/// non-empty pages, exactly pages 1 through `n+1` were requested, and the
/// result is the selected element of the filtered concatenation; a
/// no-matching-release error comes exactly when that filtered
/// concatenation is empty; any other error is a failed pagination run.
pub open spec fn resolve_post<B: ReleaseBackend, C: TagComparator>(
    b0: B,
    b1: B,
    api: ApiView,
    sf: Option<C>,
    r: Result<GithubRelease, Error>,
) -> bool {
    &&& pages_unchanged(b0, b1)
    &&& match r {
        Ok(rel) => exists|n: int|
            #[trigger] complete_fetch(b0, api, n) && matching_view(b0, api, n).len() > 0 && rel@
                == matching_view(b0, api, n)[best_idx(matching_view(b0, api, n), sf)]
                && b1.request_log() == b0.request_log() + page_requests(n + 1),
        Err(e) => {
            &&& (e is NoRelease ==> exists|n: int|
                #[trigger] complete_fetch(b0, api, n) && matching_view(b0, api, n).len() == 0
                    && b1.request_log() == b0.request_log() + page_requests(n + 1))
            &&& (!(e is NoRelease) ==> fetch_err_post(b0, b1, api, e))
        },
    }
}

/// What deciding on a newer release through a backend guarantees: as
/// `resolve_post`, with the resolved release returned exactly when its
/// tag compares strictly greater than the configured current version
/// (or no current version is configured).
pub open spec fn newer_post<B: ReleaseBackend, C: TagComparator>(
    b0: B,
    b1: B,
    api: ApiView,
    sf: Option<C>,
    r: Result<Option<GithubRelease>, Error>,
) -> bool {
    &&& pages_unchanged(b0, b1)
    &&& match r {
        Ok(opt) => exists|n: int|
            #[trigger] complete_fetch(b0, api, n) && matching_view(b0, api, n).len() > 0
                && b1.request_log() == b0.request_log() + page_requests(n + 1) && ({
                let best = matching_view(b0, api, n)[best_idx(matching_view(b0, api, n), sf)];
                match api.current_version {
                    Some(cur) => {
                        if effective_cmp(sf, best.tag_name, cur) == Ordering::Greater {
                            opt matches Some(rel) && rel@ == best
                        } else {
                            opt is None
                        }
                    },
                    None => opt matches Some(rel) && rel@ == best,
                }
            }),
        Err(e) => {
            &&& (e is NoRelease ==> exists|n: int|
                #[trigger] complete_fetch(b0, api, n) && matching_view(b0, api, n).len() == 0
                    && b1.request_log() == b0.request_log() + page_requests(n + 1))
            &&& (!(e is NoRelease) ==> fetch_err_post(b0, b1, api, e))
        },
    }
}

impl GithubApi {
    /// Criteria for the releases of one repository, with no further
    /// requirements: no prereleases, any tag, any branch, any assets.
    pub fn new(owner: &str, repo: &str) -> (r: Self)
        ensures
            r@ == (ApiView {
                api_url: None,
                owner: owner@,
                repo: repo@,
                auth_token: None,
                branch: None,
                prerelease: false,
                specific_tag: None,
                current_version: None,
                asset_name: None,
            }),
    {
        GithubApi {
            api_url: None,
            owner: owner.to_owned(),
            repo: repo.to_owned(),
            auth_token: None,
            branch: None,
            prerelease: false,
            specific_tag: None,
            current_version: None,
            asset_name: None,
        }
    }

    /// Sets a custom service url.
    pub fn api_url(self, api_url: &str) -> (r: Self)
        ensures
            r@ == (ApiView { api_url: Some(api_url@), ..self@ }),
    {
        let mut s = self;
        s.api_url = Some(api_url.to_owned());
        s
    }

    /// Sets the authentication token attached to backend requests.
    pub fn auth_token(self, auth_token: &str) -> (r: Self)
        ensures
            r@ == (ApiView { auth_token: Some(auth_token@), ..self@ }),
    {
        let mut s = self;
        s.auth_token = Some(auth_token.to_owned());
        s
    }

    /// Requires releases to come from the given branch.
    pub fn branch(self, branch: &str) -> (r: Self)
        ensures
            r@ == (ApiView { branch: Some(branch@), ..self@ }),
    {
        let mut s = self;
        s.branch = Some(branch.to_owned());
        s
    }

    /// Sets whether prereleases are included.
    pub fn prerelease(self, prerelease: bool) -> (r: Self)
        ensures
            r@ == (ApiView { prerelease: prerelease, ..self@ }),
    {
        let mut s = self;
        s.prerelease = prerelease;
        s
    }

    /// Requires a specific version tag.
    pub fn specific_tag(self, specific_tag: &str) -> (r: Self)
        ensures
            r@ == (ApiView { specific_tag: Some(specific_tag@), ..self@ }),
    {
        let mut s = self;
        s.specific_tag = Some(specific_tag.to_owned());
        s
    }

    /// Sets the version the program currently runs, the baseline that
    /// decides whether a resolved release counts as newer.
    pub fn current_version(self, current_version: &str) -> (r: Self)
        ensures
            r@ == (ApiView { current_version: Some(current_version@), ..self@ }),
    {
        let mut s = self;
        s.current_version = Some(current_version.to_owned());
        s
    }

    /// Requires releases to carry an asset of the given name.
    pub fn asset_name(self, asset_name: &str) -> (r: Self)
        ensures
            r@ == (ApiView { asset_name: Some(asset_name@), ..self@ }),
    {
        let mut s = self;
        s.asset_name = Some(asset_name.to_owned());
        s
    }

    /// The repository owner these criteria point at.
    pub fn get_owner(&self) -> (r: &str)
        ensures
            r@ == self@.owner,
    {
        self.owner.as_str()
    }

    /// The repository these criteria point at.
    pub fn get_repo(&self) -> (r: &str)
        ensures
            r@ == self@.repo,
    {
        self.repo.as_str()
    }

    /// The custom service url, when one was set.
    pub fn get_api_url(&self) -> (r: Option<&String>)
        ensures
            (match r {
                Some(s) => self@.api_url == Some(s@),
                None => self@.api_url is None,
            }),
    {
        self.api_url.as_ref()
    }

    /// The configured current version, when one was set.
    pub fn get_current_version(&self) -> (r: Option<&String>)
        ensures
            (match r {
                Some(s) => self@.current_version == Some(s@),
                None => self@.current_version is None,
            }),
    {
        self.current_version.as_ref()
    }

    /// The authentication token, when one was set.
    pub fn get_auth_token(&self) -> (r: Option<&String>)
        ensures
            (match r {
                Some(s) => self@.auth_token == Some(s@),
                None => self@.auth_token is None,
            }),
    {
        self.auth_token.as_ref()
    }

    /// The url to request one page of releases from: the configured
    /// service host (or the default one), the repository path, and the
    /// page parameters.
    pub fn release_page_url(&self, page: u64, per_page: u64) -> (r: String)
        ensures
            r@ == spec_page_url(self@, page as nat, per_page as nat),
    {
        let mut s = String::new();
        s.append("https://");
        match &self.api_url {
            Some(u) => s.append(u.as_str()),
            None => s.append("api.github.com"),
        }
        s.append("/repos/");
        s.append(self.owner.as_str());
        s.append("/");
        s.append(self.repo.as_str());
        s.append("/releases?per_page=");
        let pp = decimal_string(per_page);
        s.append(pp.as_str());
        s.append("&page=");
        let p = decimal_string(page);
        s.append(p.as_str());
        proof {
            assert(s@ =~= spec_page_url(self@, page as nat, per_page as nat));
        }
        s
    }

    /// The authorization header value for the configured token, when one
    /// was set: the word `token`, a space, and the token.
    pub fn auth_header(&self) -> (r: Option<String>)
        ensures
            (match r {
                Some(v) => self@.auth_token matches Some(t) && v@ == "token "@ + t,
                None => self@.auth_token is None,
            }),
    {
        match &self.auth_token {
            Some(token) => {
                let mut s = String::new();
                s.append("token ");
                s.append(token.as_str());
                proof {
                    assert(s@ =~= "token "@ + token@);
                }
                Some(s)
            },
            None => None,
        }
    }

    /// Whether one release passes these criteria.
    pub fn filter_release(&self, e: &GithubRelease) -> (r: bool)
        ensures
            r == spec_filter(self@, e@),
    {
        if !self.prerelease && e.prerelease {
            return false;
        }
        let specific_tag = match &self.specific_tag {
            Some(tag) => *tag == e.tag_name,
            None => true,
        };
        let branch = match &self.branch {
            Some(branch) => *branch == e.target_commitish,
            None => true,
        };
        let asset_name = match &self.asset_name {
            Some(asset_name) => {
                let present = has_asset_named(&e.assets, asset_name);
                proof {
                    if present {
                        let k = choose|k: int|
                            0 <= k < e.assets@.len() && (#[trigger] e.assets@[k])@.name
                                == asset_name@;
                        assert(e@.assets[k].name == asset_name@);
                    } else {
                        assert forall|k: int|
                            0 <= k < e@.assets.len() implies (#[trigger] e@.assets[k]).name
                            != asset_name@ by {
                            assert(e@.assets[k] == e.assets@[k]@);
                        }
                    }
                }
                present
            },
            None => true,
        };
        specific_tag && branch && asset_name
    }

    /// The releases of a list that pass these criteria, in their
    /// original order.
    pub fn match_releases(&self, releases: &Vec<GithubRelease>) -> (r: Vec<GithubRelease>)
        ensures
            releases_view(r@) == spec_matching(self@, releases_view(releases@)),
    {
        let ghost all = releases_view(releases@);
        let mut r: Vec<GithubRelease> = Vec::new();
        let mut i: usize = 0;
        proof {
            assert(releases_view(r@) =~= spec_matching(self@, all.take(0)));
        }
        while i < releases.len()
            invariant
                i <= releases@.len(),
                all == releases_view(releases@),
                releases_view(r@) == spec_matching(self@, all.take(i as int)),
            decreases releases@.len() - i,
        {
            let ghost pre = releases_view(r@);
            let e = &releases[i];
            proof {
                assert(all.take(i as int + 1).drop_last() =~= all.take(i as int));
                assert(all.take(i as int + 1).last() == e@);
            }
            if self.filter_release(e) {
                r.push(e.clone());
                proof {
                    assert(releases_view(r@) =~= pre.push(e@));
                }
            }
            i = i + 1;
        }
        proof {
            assert(all.take(releases@.len() as int) =~= all);
        }
        r
    }
}

/// The tag order used for one run: the supplied comparator, or the
/// default one when none is supplied.
fn cmp_tags<C: TagComparator>(sort_func: &Option<C>, a: &str, b: &str) -> (r: Ordering)
    ensures
        r == effective_cmp(*sort_func, a@, b@),
{
    match sort_func {
        Some(c) => c.compare(a, b),
        None => SimpleTag::simple_compare(a, b),
    }
}

/// Picks the index of the newest release of a non-empty list, keeping
/// the earliest-fetched release among equal tags.
fn select_best<C: TagComparator>(matching: &Vec<GithubRelease>, sort_func: &Option<C>) -> (idx:
    usize)
    requires
        matching@.len() > 0,
    ensures
        idx == best_idx(releases_view(matching@), *sort_func),
        idx < matching@.len(),
{
    let ghost mv = releases_view(matching@);
    let mut best: usize = 0;
    let mut i: usize = 1;
    proof {
        assert(mv.take(1).len() == 1);
    }
    while i < matching.len()
        invariant
            1 <= i <= matching@.len(),
            best < i,
            mv == releases_view(matching@),
            best == best_idx(mv.take(i as int), *sort_func),
        decreases matching@.len() - i,
    {
        proof {
            lemma_best_idx_bounds::<C>(mv.take(i as int), *sort_func);
            assert(mv.take(i as int + 1).drop_last() =~= mv.take(i as int));
            assert(mv.take(i as int + 1).last() == mv[i as int]);
        }
        let cand = &matching[i];
        let cur = &matching[best];
        let ord = cmp_tags(sort_func, cand.tag_name.as_str(), cur.tag_name.as_str());
        match ord {
            Ordering::Greater => {
                best = i;
            },
            _ => {
            },
        }
        i = i + 1;
    }
    proof {
        assert(mv.take(matching@.len() as int) =~= mv);
    }
    best
}

impl GithubApi {
    /// Fetches every page the backend serves, in request order, starting
    /// at page 1 and stopping at the first empty page. Fails on the
    /// first failing page request; no partial result is returned.
    fn fetch_all_pages<B: ReleaseBackend>(&self, backend: &mut B) -> (r: Result<
        Vec<GithubRelease>,
        Error,
    >)
        ensures
            pages_unchanged(*old(backend), *final(backend)),
            (match r {
                Ok(v) => exists|n: int|
                    #[trigger] complete_fetch(*old(backend), self@, n) && releases_view(v@)
                        == pages_prefix(*old(backend), self@, n) && final(backend).request_log()
                        == old(backend).request_log() + page_requests(n + 1),
                Err(e) => fetch_err_post(*old(backend), *final(backend), self@, e),
            }),
    {
        let ghost b0: B = *backend;
        let mut releases: Vec<GithubRelease> = Vec::new();
        let mut page: u64 = 1;
        proof {
            assert(b0.request_log() + page_requests(0) =~= b0.request_log());
        }
        loop
            invariant
                b0 == *old(backend),
                pages_unchanged(b0, *backend),
                backend.request_log() == b0.request_log() + page_requests(page - 1),
                1 <= page <= u64::MAX,
                forall|q: int| 1 <= q < page ==> page_nonempty(b0, self@, q),
                releases_view(releases@) == pages_prefix(b0, self@, page - 1),
            decreases u64::MAX - page,
        {
            let r = backend.fetch_page(self, page, 100);
            proof {
                assert(page_requests(page as int) == page_requests(page - 1).push(
                    (page as int, 100),
                ));
                assert(backend.request_log() =~= b0.request_log() + page_requests(page as int));
            }
            match r {
                Ok(mut fetched) => {
                    if fetched.len() == 0 {
                        proof {
                            assert(releases_view(fetched@) =~= Seq::<ReleaseView>::empty());
                            assert(complete_fetch(b0, self@, page - 1));
                        }
                        return Ok(releases);
                    }
                    proof {
                        assert(releases_view(releases@ + fetched@) =~= releases_view(releases@)
                            + releases_view(fetched@));
                        assert(pages_prefix(b0, self@, page as int) == pages_prefix(
                            b0,
                            self@,
                            page - 1,
                        ) + releases_view(fetched@));
                    }
                    releases.append(&mut fetched);
                    if page == u64::MAX {
                        proof {
                            assert forall|n: int|
                                0 <= n < u64::MAX - 1 implies !complete_fetch(b0, self@, n) by {
                                if complete_fetch(b0, self@, n) {
                                    assert(page_nonempty(b0, self@, n + 1));
                                }
                            }
                            assert(page_nonempty(b0, self@, u64::MAX as int));
                        }
                        return Err(Error::Backend("page count limit reached".to_owned()));
                    }
                    page = page + 1;
                },
                Err(e) => {
                    proof {
                        assert forall|n: int|
                            0 <= n < u64::MAX - 1 implies !complete_fetch(b0, self@, n) by {
                            if complete_fetch(b0, self@, n) {
                                if n + 1 < page {
                                    assert(page_nonempty(b0, self@, n + 1));
                                } else if n + 1 == page {
                                    assert(b0.page_spec(self@, page as int, 100) matches Err(_));
                                } else {
                                    assert(page_nonempty(b0, self@, page as int));
                                }
                            }
                        }
                        assert(b0.page_spec(self@, page as int, 100) == Err::<
                            Seq<ReleaseView>,
                            _,
                        >(e));
                    }
                    return Err(e);
                },
            }
        }
    }

    /// Resolves the newest release that passes these criteria: fetches
    /// every page, filters, and selects by tag order, earliest-fetched
    /// first among equal tags. Fails with the backend's error when a page
    /// request fails, and reports that no release matches when filtering
    /// leaves nothing.
    pub fn send<B: ReleaseBackend, C: TagComparator>(
        &self,
        backend: &mut B,
        sort_func: &Option<C>,
    ) -> (r: Result<GithubRelease, Error>)
        ensures
            resolve_post(*old(backend), *final(backend), self@, *sort_func, r),
    {
        let all = match self.fetch_all_pages(backend) {
            Ok(v) => v,
            Err(e) => {
                return Err(e);
            },
        };
        let ghost n = choose|n: int|
            #[trigger] complete_fetch(*old(backend), self@, n) && releases_view(all@) == pages_prefix(
                *old(backend),
                self@,
                n,
            ) && backend.request_log() == old(backend).request_log() + page_requests(n + 1);
        let r = self.resolve_from(&all, sort_func);
        proof {
            assert(spec_matching(self@, releases_view(all@)) == matching_view(
                *old(backend),
                self@,
                n,
            ));
        }
        r
    }

    /// Resolves the newest release of an already fetched list: filters it
    /// and selects by tag order, earliest-fetched first among equal tags.
    /// Reports that no release matches when filtering leaves nothing.
    pub fn resolve_from<C: TagComparator>(
        &self,
        releases: &Vec<GithubRelease>,
        sort_func: &Option<C>,
    ) -> (r: Result<GithubRelease, Error>)
        ensures
            (match r {
                Ok(rel) => ({
                    let m = spec_matching(self@, releases_view(releases@));
                    m.len() > 0 && rel@ == m[best_idx(m, *sort_func)]
                }),
                Err(e) => e is NoRelease && spec_matching(self@, releases_view(releases@)).len()
                    == 0,
            }),
    {
        let matching = self.match_releases(releases);
        if matching.len() == 0 {
            return Err(Error::NoRelease);
        }
        let idx = select_best(&matching, sort_func);
        let chosen = &matching[idx];
        Ok(chosen.clone())
    }

    /// Whether a resolved tag counts as newer than the configured current
    /// version: it must compare strictly greater; with no current version
    /// configured, anything counts as newer.
    pub fn is_newer_than_current<C: TagComparator>(&self, tag: &str, sort_func: &Option<C>) -> (r:
        bool)
        ensures
            r == (match self@.current_version {
                Some(cur) => effective_cmp(*sort_func, tag@, cur) == Ordering::Greater,
                None => true,
            }),
    {
        match &self.current_version {
            Some(current_version) => {
                let ord = cmp_tags(sort_func, tag, current_version.as_str());
                matches!(ord, Ordering::Greater)
            },
            None => true,
        }
    }

    /// Resolves the newest matching release; the same as `send`.
    pub fn get_latest<B: ReleaseBackend, C: TagComparator>(
        &self,
        backend: &mut B,
        sort_func: &Option<C>,
    ) -> (r: Result<GithubRelease, Error>)
        ensures
            resolve_post(*old(backend), *final(backend), self@, *sort_func, r),
    {
        self.send(backend, sort_func)
    }

    /// Fetches every page and returns every release the backend serves,
    /// unfiltered and in fetch order: page order, then in-page order. The
    /// fetch is all-or-nothing; a failing page request fails the whole
    /// call with that request's error. Filtering happens only in
    /// resolution.
    pub fn get_all<B: ReleaseBackend>(&self, backend: &mut B) -> (r: Result<
        Vec<GithubRelease>,
        Error,
    >)
        ensures
            pages_unchanged(*old(backend), *final(backend)),
            (match r {
                Ok(v) => exists|n: int|
                    #[trigger] complete_fetch(*old(backend), self@, n) && releases_view(v@)
                        == pages_prefix(*old(backend), self@, n) && final(backend).request_log()
                        == old(backend).request_log() + page_requests(n + 1),
                Err(e) => fetch_err_post(*old(backend), *final(backend), self@, e),
            }),
    {
        self.fetch_all_pages(backend)
    }

    /// Resolves the newest matching release and returns it only when it
    /// is newer than the configured current version; with no current
    /// version configured, any resolved release counts as newer.
    pub fn get_newer<B: ReleaseBackend, C: TagComparator>(
        &self,
        backend: &mut B,
        sort_func: &Option<C>,
    ) -> (r: Result<Option<GithubRelease>, Error>)
        ensures
            newer_post(*old(backend), *final(backend), self@, *sort_func, r),
    {
        let latest = match self.send(backend, sort_func) {
            Ok(rel) => rel,
            Err(e) => {
                return Err(e);
            },
        };
        let is_newer = self.is_newer_than_current(latest.tag_name.as_str(), sort_func);
        if is_newer {
            Ok(Some(latest))
        } else {
            Ok(None)
        }
    }
}

/// The url of one page request: the configured service host (or the
/// default one), the repository path, and the page parameters.
pub open spec fn spec_page_url(api: ApiView, page: nat, per_page: nat) -> Seq<char> {
    "https://"@ + (match api.api_url {
        Some(u) => u,
        None => "api.github.com"@,
    }) + "/repos/"@ + api.owner + "/"@ + api.repo + "/releases?per_page="@ + spec_decimal(per_page)
        + "&page="@ + spec_decimal(page)
}

/// Pagination driven from outside: for a page source that cannot be
/// written against `ReleaseBackend` (such as the live HTTP client in the
/// embedding application), this holds the decisions of the fetch loop —
/// which page to request next, when to stop, and how the fetched pages
/// accumulate — while the caller performs each request.
pub struct PageFetch {
    /// The releases accumulated so far, in fetch order.
    pub releases: Vec<GithubRelease>,
    /// The next page to request, 1-based.
    pub next_page: u64,
}

impl PageFetch {
    /// A fetch about to request page 1.
    pub fn new() -> (r: Self)
        ensures
            r.releases@ == Seq::<GithubRelease>::empty(),
            r.next_page == 1,
    {
        PageFetch { releases: Vec::new(), next_page: 1 }
    }

    /// The request to make next: page number and page size.
    pub fn next_request(&self) -> (r: (u64, u64))
        ensures
            r == (self.next_page, 100u64),
    {
        (self.next_page, 100)
    }

    /// Takes in the page the caller fetched. An empty page ends the fetch
    /// with `Ok(true)`; a non-empty page is appended in order and the
    /// next request moves one page on. The call fails, changing nothing,
    /// only when the page counter is exhausted.
    pub fn note_page(&mut self, fetched: Vec<GithubRelease>) -> (r: Result<bool, Error>)
        ensures
            (match r {
                Ok(done) => {
                    &&& (done <==> fetched@.len() == 0)
                    &&& (done ==> final(self).releases@ == old(self).releases@
                        && final(self).next_page == old(self).next_page)
                    &&& (!done ==> final(self).releases@ == old(self).releases@ + fetched@
                        && final(self).next_page == old(self).next_page + 1)
                },
                Err(e) => e is Backend && fetched@.len() > 0 && old(self).next_page == u64::MAX
                    && final(self).releases@ == old(self).releases@
                    && final(self).next_page == old(self).next_page,
            }),
    {
        let mut fetched = fetched;
        if fetched.len() == 0 {
            return Ok(true);
        }
        if self.next_page == u64::MAX {
            return Err(Error::Backend("page count limit reached".to_owned()));
        }
        self.releases.append(&mut fetched);
        self.next_page = self.next_page + 1;
        Ok(false)
    }

    /// The accumulated releases, ending the fetch.
    pub fn into_releases(self) -> (r: Vec<GithubRelease>)
        ensures
            r@ == self.releases@,
    {
        self.releases
    }
}

/// A release marked as a prerelease is excluded whenever prereleases are
/// not allowed, whatever the other criteria say.
pub proof fn lemma_filter_excludes_prerelease(c: ApiView, r: ReleaseView)
    requires
        !c.prerelease,
        r.prerelease,
    ensures
        !spec_filter(c, r),
{
}

fn has_asset_named(assets: &Vec<crate::release::GithubAsset>, name: &String) -> (r: bool)
    ensures
        r == (exists|k: int|
            0 <= k < assets@.len() && (#[trigger] assets@[k])@.name == name@),
{
    let mut i: usize = 0;
    while i < assets.len()
        invariant
            i <= assets@.len(),
            forall|k: int| 0 <= k < i ==> (#[trigger] assets@[k])@.name != name@,
        decreases assets@.len() - i,
    {
        if assets[i].name == *name {
            return true;
        }
        i = i + 1;
    }
    false
}

} // verus!
