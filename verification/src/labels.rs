//! The issue-label listing: model, flat record, and fetcher.

use vstd::prelude::*;

use crate::model::opt_view;
use crate::pagination::{
    emitted_items, keep_following, opt_int, page_continues, pages_walked, walk, Page, Stamped,
};
use crate::text::{is_valid_segment, valid_segment};
use crate::{
    build_repo_route, build_reponame, repo_route, reponame_of, Params,
    RepositryAware, UrlConstructor, PAGE_SIZE_CAP,
};
use crate::encode::urlencoded_of;

verus! {

/// One label resource as the listing endpoint returns it.
pub struct LabelModel {
    pub id: i64,
    pub node_id: String,
    pub url: String,
    pub name: String,
    pub description: Option<String>,
    pub color: String,
    pub default: bool,
}

impl Stamped for LabelModel {
    /// Labels carry no timestamp; they never stop a walk.
    open spec fn stamp(&self) -> Option<int> {
        None
    }

    fn cutoff_stamp(&self) -> (r: Option<i64>) {
        None
    }
}

/// The flat row of one label.
pub struct LabelRec {
    pub id: i64,
    pub node_id: String,
    pub url: String,
    pub name: String,
    pub description: Option<String>,
    pub color: String,
    pub default: bool,
    pub sdc_repository: String,
}

impl LabelRec {
    /// The flattening contract: every field copied from the model, the
    /// repository tag stamped on.
    pub open spec fn matches_model(self, m: LabelModel, repo: Seq<char>) -> bool {
        &&& self.id == m.id
        &&& self.node_id@ == m.node_id@
        &&& self.url@ == m.url@
        &&& self.name@ == m.name@
        &&& opt_view(self.description) == opt_view(m.description)
        &&& self.color@ == m.color@
        &&& self.default == m.default
        &&& self.sdc_repository@ == repo
    }

    /// Flattens one label, as [`LabelRec::matches_model`] says.
    pub fn from_model(m: LabelModel, repo: &String) -> (r: LabelRec)
        ensures
            r.matches_model(m, repo@),
    {
        LabelRec {
            id: m.id,
            node_id: m.node_id,
            url: m.url,
            name: m.name,
            description: m.description,
            color: m.color,
            default: m.default,
            sdc_repository: repo.clone(),
        }
    }
}

impl RepositryAware for LabelRec {
    open spec fn repository_set(old_rec: Self, new_rec: Self, name: Seq<char>) -> bool {
        new_rec.sdc_repository@ == name && new_rec == (LabelRec {
            sdc_repository: new_rec.sdc_repository,
            ..old_rec
        })
    }

    fn set_repository(&mut self, name: String) {
        self.sdc_repository = name;
    }
}

/// Fetch plan for the labels of one repository.
pub struct LabelFetcher {
    pub owner: String,
    pub name: String,
}

impl LabelFetcher {
    pub fn new(owner: String, name: String) -> (r: Self)
        ensures
            r.owner@ == owner@,
            r.name@ == name@,
    {
        LabelFetcher { owner, name }
    }

    /// Labels have no timestamps, so no cutoff applies.
    pub open spec fn threshold_spec(&self) -> Option<int> {
        None
    }

    pub fn threshold(&self) -> (r: Option<i64>)
        ensures
            opt_int(r) == self.threshold_spec(),
    {
        None
    }

    /// Flattens a batch of labels in order, stamping the repository tag.
    pub fn map_items(&self, items: Vec<LabelModel>) -> (r: Vec<LabelRec>)
        ensures
            r@.len() == items@.len(),
            forall|i: int|
                0 <= i < items@.len() ==> (#[trigger] r@[i]).matches_model(
                    items@[i],
                    self.reponame_spec(),
                ),
    {
        let repo = self.reponame();
        let ghost orig = items@;
        let mut items = items;
        let mut recs: Vec<LabelRec> = Vec::new();
        while items.len() > 0
            invariant
                recs@.len() + items@.len() == orig.len(),
                items@ =~= orig.skip(recs@.len() as int),
                repo@ == self.reponame_spec(),
                forall|i: int|
                    0 <= i < recs@.len() ==> (#[trigger] recs@[i]).matches_model(
                        orig[i],
                        self.reponame_spec(),
                    ),
            decreases items@.len(),
        {
            let ghost k = recs@.len() as int;
            let ghost prev = items@;
            let m = items.remove(0);
            recs.push(LabelRec::from_model(m, &repo));
            proof {
                assert(m == orig[k]);
                assert(items@ =~= orig.skip(k + 1));
            }
        }
        recs
    }

    /// Maps one fetched page and decides continuation: the flat records of
    /// every item, and the next link to follow (`None` when pagination ends).
    pub fn map_page(&self, page: Page<LabelModel>) -> (r: (Vec<LabelRec>, Option<String>))
        ensures
            r.0@.len() == page.items@.len(),
            forall|i: int|
                0 <= i < page.items@.len() ==> (#[trigger] r.0@[i]).matches_model(
                    page.items@[i],
                    self.reponame_spec(),
                ),
            page_continues(page.items@, self.threshold_spec()) ==> r.1 == page.next,
            !page_continues(page.items@, self.threshold_spec()) ==> r.1 is None,
    {
        let keep = keep_following(&page.items, &self.threshold());
        let next = if keep {
            page.next
        } else {
            None
        };
        (self.map_items(page.items), next)
    }

    /// The whole walk over a fetched chain of pages: every record of every
    /// fetched page, in order, and the number of pages fetched.
    pub fn emit(&self, pages: Vec<Page<LabelModel>>) -> (r: (Vec<LabelRec>, usize))
        ensures
            r.0@.len() == emitted_items(pages@, self.threshold_spec()).len(),
            forall|i: int|
                0 <= i < r.0@.len() ==> (#[trigger] r.0@[i]).matches_model(
                    emitted_items(pages@, self.threshold_spec())[i],
                    self.reponame_spec(),
                ),
            r.1 as int == pages_walked(pages@, self.threshold_spec()),
    {
        let (items, fetched) = walk(pages, self.threshold());
        (self.map_items(items), fetched)
    }
}

impl UrlConstructor for LabelFetcher {
    open spec fn reponame_spec(&self) -> Seq<char> {
        reponame_of(self.owner@, self.name@)
    }

    open spec fn entrypoint_spec(&self) -> Option<Seq<char>> {
        if valid_segment(self.owner@) && valid_segment(self.name@) {
            Some(
                repo_route(
                    self.owner@,
                    self.name@,
                    "labels"@,
                    urlencoded_of(
                        (Params {
                            per_page: Some(PAGE_SIZE_CAP),
                            state: None,
                            since: None,
                            filter: None,
                        }).pairs_spec(),
                    ),
                ),
            )
        } else {
            None
        }
    }

    fn reponame(&self) -> (r: String) {
        build_reponame(self.owner.as_str(), self.name.as_str())
    }

    fn entrypoint(&self) -> (r: Option<String>) {
        if !is_valid_segment(self.owner.as_str()) || !is_valid_segment(self.name.as_str()) {
            return None;
        }
        let params = Params {
            per_page: Some(PAGE_SIZE_CAP),
            state: None,
            since: None,
            filter: None,
        };
        let q = params.to_query();
        Some(build_repo_route(self.owner.as_str(), self.name.as_str(), "labels", q.as_str()))
    }
}

} // verus!
