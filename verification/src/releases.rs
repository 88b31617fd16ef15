//! The release listing: model, flat record, and fetcher.

use vstd::prelude::*;

use crate::encode::urlencoded_of;
use crate::model::{opt_view, UserRef};
use crate::pagination::{
    emitted_items, keep_following, opt_int, page_continues, pages_walked, walk, Page, Stamped,
};
use crate::text::{dec_int_spec, dec_of_i64, is_valid_segment, join, join_spec, seq_views,
    valid_segment};
use crate::{
    build_repo_route, build_reponame, repo_route, reponame_of, Params,
    RepositryAware, UrlConstructor, PAGE_SIZE_CAP,
};

verus! {

/// A release asset: only what the flattener reads.
pub struct AssetRef {
    pub id: i64,
    pub name: String,
    pub browser_download_url: String,
}

/// One release resource as the listing endpoint returns it.
pub struct ReleaseModel {
    pub url: String,
    pub html_url: String,
    pub assets_url: String,
    pub upload_url: String,
    pub tarball_url: String,
    pub zipball_url: String,
    pub id: i64,
    pub node_id: String,
    pub tag_name: String,
    pub target_commitish: String,
    pub name: Option<String>,
    pub body: Option<String>,
    pub draft: bool,
    pub prerelease: bool,
    pub created_at: i64,
    pub published_at: i64,
    pub author: UserRef,
    pub assets: Vec<AssetRef>,
}

impl Stamped for ReleaseModel {
    open spec fn stamp(&self) -> Option<int> {
        Some(self.created_at as int)
    }

    fn cutoff_stamp(&self) -> (r: Option<i64>) {
        Some(self.created_at)
    }
}

/// One asset as `id;name;download-url`.
pub open spec fn asset_texts_of(assets: Seq<AssetRef>) -> Seq<Seq<char>> {
    assets.map_values(
        |a: AssetRef| dec_int_spec(a.id as int) + ";"@ + a.name@ + ";"@ + a.browser_download_url@,
    )
}

/// The assets' texts, in order, as [`asset_texts_of`] says.
pub fn asset_texts(assets: &Vec<AssetRef>) -> (r: Vec<String>)
    ensures
        seq_views(r@) == asset_texts_of(assets@),
{
    let mut r: Vec<String> = Vec::new();
    let mut i: usize = 0;
    while i < assets.len()
        invariant
            i <= assets@.len(),
            r@.len() == i,
            forall|j: int|
                0 <= j < i ==> (#[trigger] r@[j])@ == dec_int_spec(assets@[j].id as int) + ";"@
                    + assets@[j].name@ + ";"@ + assets@[j].browser_download_url@,
        decreases assets@.len() - i,
    {
        let a = &assets[i];
        let mut s = dec_of_i64(a.id);
        s.append(";");
        s.append(a.name.as_str());
        s.append(";");
        s.append(a.browser_download_url.as_str());
        proof {
            assert(s@ =~= dec_int_spec(assets@[i as int].id as int) + ";"@ + assets@[i as int].name@
                + ";"@ + assets@[i as int].browser_download_url@);
        }
        r.push(s);
        i = i + 1;
    }
    proof {
        assert(seq_views(r@) =~= asset_texts_of(assets@));
    }
    r
}

/// The flat row of one release.
pub struct ReleaseRec {
    pub url: String,
    pub html_url: String,
    pub assets_url: String,
    pub upload_url: String,
    pub tarball_url: String,
    pub zipball_url: String,
    pub id: i64,
    pub node_id: String,
    pub tag_name: String,
    pub target_commitish: String,
    pub name: Option<String>,
    pub body: Option<String>,
    pub draft: bool,
    pub prerelease: bool,
    pub created_at: i64,
    pub published_at: i64,
    pub author_id: i64,
    pub assets: String,
    pub sdc_repository: String,
}

impl ReleaseRec {
    /// The flattening contract: scalar and string fields copied; the author
    /// flattened to its id; each asset to `id;name;download-url`, the assets
    /// joined by commas; the repository tag stamped on.
    pub open spec fn matches_model(self, m: ReleaseModel, repo: Seq<char>) -> bool {
        &&& self.url@ == m.url@
        &&& self.html_url@ == m.html_url@
        &&& self.assets_url@ == m.assets_url@
        &&& self.upload_url@ == m.upload_url@
        &&& self.tarball_url@ == m.tarball_url@
        &&& self.zipball_url@ == m.zipball_url@
        &&& self.id == m.id
        &&& self.node_id@ == m.node_id@
        &&& self.tag_name@ == m.tag_name@
        &&& self.target_commitish@ == m.target_commitish@
        &&& opt_view(self.name) == opt_view(m.name)
        &&& opt_view(self.body) == opt_view(m.body)
        &&& self.draft == m.draft
        &&& self.prerelease == m.prerelease
        &&& self.created_at == m.created_at
        &&& self.published_at == m.published_at
        &&& self.author_id == m.author.id
        &&& self.assets@ == join_spec(asset_texts_of(m.assets@), ","@)
        &&& self.sdc_repository@ == repo
    }

    /// Flattens one release, as [`ReleaseRec::matches_model`] says.
    pub fn from_model(m: ReleaseModel, repo: &String) -> (r: ReleaseRec)
        ensures
            r.matches_model(m, repo@),
    {
        let texts = asset_texts(&m.assets);
        let assets_joined = join(&texts, ",");
        ReleaseRec {
            url: m.url,
            html_url: m.html_url,
            assets_url: m.assets_url,
            upload_url: m.upload_url,
            tarball_url: m.tarball_url,
            zipball_url: m.zipball_url,
            id: m.id,
            node_id: m.node_id,
            tag_name: m.tag_name,
            target_commitish: m.target_commitish,
            name: m.name,
            body: m.body,
            draft: m.draft,
            prerelease: m.prerelease,
            created_at: m.created_at,
            published_at: m.published_at,
            author_id: m.author.id,
            assets: assets_joined,
            sdc_repository: repo.clone(),
        }
    }
}

impl RepositryAware for ReleaseRec {
    open spec fn repository_set(old_rec: Self, new_rec: Self, name: Seq<char>) -> bool {
        new_rec.sdc_repository@ == name && new_rec == (ReleaseRec {
            sdc_repository: new_rec.sdc_repository,
            ..old_rec
        })
    }

    fn set_repository(&mut self, name: String) {
        self.sdc_repository = name;
    }
}

/// Fetch plan for the releases of one repository.
pub struct ReleaseFetcher {
    pub owner: String,
    pub name: String,
}

impl ReleaseFetcher {
    pub fn new(owner: String, name: String) -> (r: Self)
        ensures
            r.owner@ == owner@,
            r.name@ == name@,
    {
        ReleaseFetcher { owner, name }
    }

    /// Releases take no since threshold; no cutoff applies.
    pub open spec fn threshold_spec(&self) -> Option<int> {
        None
    }

    pub fn threshold(&self) -> (r: Option<i64>)
        ensures
            opt_int(r) == self.threshold_spec(),
    {
        None
    }

    /// Flattens a batch of releases in order, stamping the repository tag.
    pub fn map_items(&self, items: Vec<ReleaseModel>) -> (r: Vec<ReleaseRec>)
        ensures
            r@.len() == items@.len(),
            forall|i: int|
                0 <= i < items@.len() ==> (#[trigger] r@[i]).matches_model(
                    items@[i],
                    self.reponame_spec(),
                ),
    {
        let repo = self.reponame();
        let ghost orig = items@;
        let mut items = items;
        let mut recs: Vec<ReleaseRec> = Vec::new();
        while items.len() > 0
            invariant
                recs@.len() + items@.len() == orig.len(),
                items@ =~= orig.skip(recs@.len() as int),
                repo@ == self.reponame_spec(),
                forall|i: int|
                    0 <= i < recs@.len() ==> (#[trigger] recs@[i]).matches_model(
                        orig[i],
                        self.reponame_spec(),
                    ),
            decreases items@.len(),
        {
            let ghost k = recs@.len() as int;
            let m = items.remove(0);
            recs.push(ReleaseRec::from_model(m, &repo));
            proof {
                assert(m == orig[k]);
                assert(items@ =~= orig.skip(k + 1));
            }
        }
        recs
    }

    /// Maps one fetched page and decides continuation.
    pub fn map_page(&self, page: Page<ReleaseModel>) -> (r: (Vec<ReleaseRec>, Option<String>))
        ensures
            r.0@.len() == page.items@.len(),
            forall|i: int|
                0 <= i < page.items@.len() ==> (#[trigger] r.0@[i]).matches_model(
                    page.items@[i],
                    self.reponame_spec(),
                ),
            page_continues(page.items@, self.threshold_spec()) ==> r.1 == page.next,
            !page_continues(page.items@, self.threshold_spec()) ==> r.1 is None,
    {
        let keep = keep_following(&page.items, &self.threshold());
        let next = if keep {
            page.next
        } else {
            None
        };
        (self.map_items(page.items), next)
    }

    /// The whole walk over a fetched chain of pages.
    pub fn emit(&self, pages: Vec<Page<ReleaseModel>>) -> (r: (Vec<ReleaseRec>, usize))
        ensures
            r.0@.len() == emitted_items(pages@, self.threshold_spec()).len(),
            forall|i: int|
                0 <= i < r.0@.len() ==> (#[trigger] r.0@[i]).matches_model(
                    emitted_items(pages@, self.threshold_spec())[i],
                    self.reponame_spec(),
                ),
            r.1 as int == pages_walked(pages@, self.threshold_spec()),
    {
        let (items, fetched) = walk(pages, self.threshold());
        (self.map_items(items), fetched)
    }
}

impl UrlConstructor for ReleaseFetcher {
    open spec fn reponame_spec(&self) -> Seq<char> {
        reponame_of(self.owner@, self.name@)
    }

    open spec fn entrypoint_spec(&self) -> Option<Seq<char>> {
        if valid_segment(self.owner@) && valid_segment(self.name@) {
            Some(
                repo_route(
                    self.owner@,
                    self.name@,
                    "releases"@,
                    urlencoded_of(
                        (Params {
                            per_page: Some(PAGE_SIZE_CAP),
                            state: None,
                            since: None,
                            filter: None,
                        }).pairs_spec(),
                    ),
                ),
            )
        } else {
            None
        }
    }

    fn reponame(&self) -> (r: String) {
        build_reponame(self.owner.as_str(), self.name.as_str())
    }

    fn entrypoint(&self) -> (r: Option<String>) {
        if !is_valid_segment(self.owner.as_str()) || !is_valid_segment(self.name.as_str()) {
            return None;
        }
        let params = Params {
            per_page: Some(PAGE_SIZE_CAP),
            state: None,
            since: None,
            filter: None,
        };
        let q = params.to_query();
        Some(build_repo_route(self.owner.as_str(), self.name.as_str(), "releases", q.as_str()))
    }
}

} // verus!
