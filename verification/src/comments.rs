//! The issue-comment listing: model, flat record, and fetcher. Comments are
//! filtered server-side by the `since` query parameter; no client-side
//! cutoff applies.

use vstd::prelude::*;

use crate::encode::urlencoded_of;
use crate::model::{opt_view, UserRef};
use crate::pagination::{
    emitted_items, keep_following, opt_int, page_continues, pages_walked, walk, Page, Stamped,
};
use crate::text::{is_valid_segment, valid_segment};
use crate::{
    build_repo_route, build_reponame, check_since_in_range, repo_route,
    reponame_of, since_in_range, Params, RepositryAware, UrlConstructor, PAGE_SIZE_CAP,
};

verus! {

/// One issue comment as the listing endpoint returns it.
pub struct CommentModel {
    pub id: u64,
    pub node_id: String,
    pub url: String,
    pub html_url: String,
    pub body: Option<String>,
    pub body_text: Option<String>,
    pub body_html: Option<String>,
    pub user: UserRef,
    pub created_at: i64,
    pub updated_at: Option<i64>,
}

impl Stamped for CommentModel {
    open spec fn stamp(&self) -> Option<int> {
        Some(self.created_at as int)
    }

    fn cutoff_stamp(&self) -> (r: Option<i64>) {
        Some(self.created_at)
    }
}

/// The flat row of one issue comment.
pub struct CommentRec {
    pub id: u64,
    pub node_id: String,
    pub url: String,
    pub html_url: String,
    pub body: Option<String>,
    pub body_text: Option<String>,
    pub body_html: Option<String>,
    pub user_id: i64,
    pub created_at: i64,
    pub updated_at: Option<i64>,
    pub sdc_repository: String,
}

impl CommentRec {
    /// The flattening contract: every field copied, the author flattened to
    /// its id, the repository tag stamped on.
    pub open spec fn matches_model(self, m: CommentModel, repo: Seq<char>) -> bool {
        &&& self.id == m.id
        &&& self.node_id@ == m.node_id@
        &&& self.url@ == m.url@
        &&& self.html_url@ == m.html_url@
        &&& opt_view(self.body) == opt_view(m.body)
        &&& opt_view(self.body_text) == opt_view(m.body_text)
        &&& opt_view(self.body_html) == opt_view(m.body_html)
        &&& self.user_id == m.user.id
        &&& self.created_at == m.created_at
        &&& self.updated_at == m.updated_at
        &&& self.sdc_repository@ == repo
    }

    /// Flattens one comment, as [`CommentRec::matches_model`] says.
    pub fn from_model(m: CommentModel, repo: &String) -> (r: CommentRec)
        ensures
            r.matches_model(m, repo@),
    {
        CommentRec {
            id: m.id,
            node_id: m.node_id,
            url: m.url,
            html_url: m.html_url,
            body: m.body,
            body_text: m.body_text,
            body_html: m.body_html,
            user_id: m.user.id,
            created_at: m.created_at,
            updated_at: m.updated_at,
            sdc_repository: repo.clone(),
        }
    }
}

impl RepositryAware for CommentRec {
    open spec fn repository_set(old_rec: Self, new_rec: Self, name: Seq<char>) -> bool {
        new_rec.sdc_repository@ == name && new_rec == (CommentRec {
            sdc_repository: new_rec.sdc_repository,
            ..old_rec
        })
    }

    fn set_repository(&mut self, name: String) {
        self.sdc_repository = name;
    }
}

/// Fetch plan for the issue comments of one repository.
pub struct CommentFetcher {
    pub owner: String,
    pub name: String,
    pub since: Option<i64>,
}

impl CommentFetcher {
    pub fn new(owner: String, name: String, since: Option<i64>) -> (r: Self)
        ensures
            r.owner@ == owner@,
            r.name@ == name@,
            r.since == since,
    {
        CommentFetcher { owner, name, since }
    }

    /// The platform filters comments server-side through the `since`
    /// parameter, so no client-side cutoff applies.
    pub open spec fn threshold_spec(&self) -> Option<int> {
        None
    }

    pub fn threshold(&self) -> (r: Option<i64>)
        ensures
            opt_int(r) == self.threshold_spec(),
    {
        None
    }

    /// Flattens a batch of comments in order, stamping the repository tag.
    pub fn map_items(&self, items: Vec<CommentModel>) -> (r: Vec<CommentRec>)
        ensures
            r@.len() == items@.len(),
            forall|i: int|
                0 <= i < items@.len() ==> (#[trigger] r@[i]).matches_model(
                    items@[i],
                    self.reponame_spec(),
                ),
    {
        let repo = self.reponame();
        let ghost orig = items@;
        let mut items = items;
        let mut recs: Vec<CommentRec> = Vec::new();
        while items.len() > 0
            invariant
                recs@.len() + items@.len() == orig.len(),
                items@ =~= orig.skip(recs@.len() as int),
                repo@ == self.reponame_spec(),
                forall|i: int|
                    0 <= i < recs@.len() ==> (#[trigger] recs@[i]).matches_model(
                        orig[i],
                        self.reponame_spec(),
                    ),
            decreases items@.len(),
        {
            let ghost k = recs@.len() as int;
            let m = items.remove(0);
            recs.push(CommentRec::from_model(m, &repo));
            proof {
                assert(m == orig[k]);
                assert(items@ =~= orig.skip(k + 1));
            }
        }
        recs
    }

    /// Maps one fetched page and decides continuation.
    pub fn map_page(&self, page: Page<CommentModel>) -> (r: (Vec<CommentRec>, Option<String>))
        ensures
            r.0@.len() == page.items@.len(),
            forall|i: int|
                0 <= i < page.items@.len() ==> (#[trigger] r.0@[i]).matches_model(
                    page.items@[i],
                    self.reponame_spec(),
                ),
            page_continues(page.items@, self.threshold_spec()) ==> r.1 == page.next,
            !page_continues(page.items@, self.threshold_spec()) ==> r.1 is None,
    {
        let keep = keep_following(&page.items, &self.threshold());
        let next = if keep {
            page.next
        } else {
            None
        };
        (self.map_items(page.items), next)
    }

    /// The whole walk over a fetched chain of pages.
    pub fn emit(&self, pages: Vec<Page<CommentModel>>) -> (r: (Vec<CommentRec>, usize))
        ensures
            r.0@.len() == emitted_items(pages@, self.threshold_spec()).len(),
            forall|i: int|
                0 <= i < r.0@.len() ==> (#[trigger] r.0@[i]).matches_model(
                    emitted_items(pages@, self.threshold_spec())[i],
                    self.reponame_spec(),
                ),
            r.1 as int == pages_walked(pages@, self.threshold_spec()),
    {
        let (items, fetched) = walk(pages, self.threshold());
        (self.map_items(items), fetched)
    }
}

impl UrlConstructor for CommentFetcher {
    open spec fn reponame_spec(&self) -> Seq<char> {
        reponame_of(self.owner@, self.name@)
    }

    open spec fn entrypoint_spec(&self) -> Option<Seq<char>> {
        if valid_segment(self.owner@) && valid_segment(self.name@) && since_in_range(self.since) {
            Some(
                repo_route(
                    self.owner@,
                    self.name@,
                    "issues/comments"@,
                    urlencoded_of(
                        (Params {
                            per_page: Some(PAGE_SIZE_CAP),
                            state: None,
                            since: self.since,
                            filter: None,
                        }).pairs_spec(),
                    ),
                ),
            )
        } else {
            None
        }
    }

    fn reponame(&self) -> (r: String) {
        build_reponame(self.owner.as_str(), self.name.as_str())
    }

    fn entrypoint(&self) -> (r: Option<String>) {
        if !is_valid_segment(self.owner.as_str()) || !is_valid_segment(self.name.as_str())
            || !check_since_in_range(&self.since) {
            return None;
        }
        let params = Params {
            per_page: Some(PAGE_SIZE_CAP),
            state: None,
            since: self.since,
            filter: None,
        };
        let q = params.to_query();
        Some(
            build_repo_route(
                self.owner.as_str(),
                self.name.as_str(),
                "issues/comments",
                q.as_str(),
            ),
        )
    }
}

} // verus!
