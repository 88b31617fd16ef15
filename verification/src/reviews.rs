//! Pull-request reviews, fetched in two phases. First the pull listing is
//! walked (ordered by update time, newest first) with the client-side cutoff,
//! collecting every emitted pull's number in memory; then, for each collected
//! number, that pull's reviews are walked to exhaustion, each row marked with
//! its pull's number and the repository tag.

use vstd::prelude::*;

use crate::encode::urlencoded_of;
use crate::model::{opt_view, UserRef};
use crate::pagination::{
    emitted_items, keep_following, opt_int, page_continues, pages_walked, walk, Page, Stamped,
};
use crate::pulls::pull_listing_tail;
use crate::text::{dec_nat_spec, dec_of_u64, is_valid_segment, valid_segment};
use crate::{
    build_repo_route, build_reponame, repo_route, reponame_of, Params,
    RepositryAware, UrlConstructor, PAGE_SIZE_CAP,
};

verus! {

/// One pull request as the listing endpoint returns it: only what the review
/// walk reads.
pub struct PullRequest {
    pub number: u64,
    pub created_at: i64,
    pub updated_at: Option<i64>,
}

impl Stamped for PullRequest {
    /// The update time, falling back to the creation time.
    open spec fn stamp(&self) -> Option<int> {
        match self.updated_at {
            Some(u) => Some(u as int),
            None => Some(self.created_at as int),
        }
    }

    fn cutoff_stamp(&self) -> (r: Option<i64>) {
        match self.updated_at {
            Some(u) => Some(u),
            None => Some(self.created_at),
        }
    }
}

/// One review as the review listing returns it.
pub struct Review {
    pub id: u64,
    pub node_id: String,
    pub html_url: String,
    pub user: UserRef,
    pub body: Option<String>,
    pub commit_id: Option<String>,
    pub state: Option<String>,
    pub pull_request_url: Option<String>,
    pub submitted_at: Option<i64>,
    pub author_association: Option<String>,
}

impl Stamped for Review {
    /// Review walks run to exhaustion; no cutoff reads this.
    open spec fn stamp(&self) -> Option<int> {
        None
    }

    fn cutoff_stamp(&self) -> (r: Option<i64>) {
        None
    }
}

/// The flat row of one review.
pub struct ReviewRec {
    pub id: u64,
    pub node_id: String,
    pub html_url: String,
    pub user_id: i64,
    pub body: Option<String>,
    pub commit_id: Option<String>,
    pub state: Option<String>,
    pub pull_request_url: Option<String>,
    pub submitted_at: Option<i64>,
    pub author_association: Option<String>,
    pub pull_request_number: Option<u64>,
    pub sdc_repository: String,
}

impl ReviewRec {
    /// The flattening contract: every field copied, the author flattened to
    /// its id, the owning pull's number and the repository tag stamped on.
    pub open spec fn matches_model(
        self,
        m: Review,
        number: Option<u64>,
        repo: Seq<char>,
    ) -> bool {
        &&& self.id == m.id
        &&& self.node_id@ == m.node_id@
        &&& self.html_url@ == m.html_url@
        &&& self.user_id == m.user.id
        &&& opt_view(self.body) == opt_view(m.body)
        &&& opt_view(self.commit_id) == opt_view(m.commit_id)
        &&& opt_view(self.state) == opt_view(m.state)
        &&& opt_view(self.pull_request_url) == opt_view(m.pull_request_url)
        &&& self.submitted_at == m.submitted_at
        &&& opt_view(self.author_association) == opt_view(m.author_association)
        &&& self.pull_request_number == number
        &&& self.sdc_repository@ == repo
    }

    /// Flattens one review, as [`ReviewRec::matches_model`] says.
    pub fn from_model(m: Review, number: Option<u64>, repo: &String) -> (r: ReviewRec)
        ensures
            r.matches_model(m, number, repo@),
    {
        ReviewRec {
            id: m.id,
            node_id: m.node_id,
            html_url: m.html_url,
            user_id: m.user.id,
            body: m.body,
            commit_id: m.commit_id,
            state: m.state,
            pull_request_url: m.pull_request_url,
            submitted_at: m.submitted_at,
            author_association: m.author_association,
            pull_request_number: number,
            sdc_repository: repo.clone(),
        }
    }
}

impl RepositryAware for ReviewRec {
    open spec fn repository_set(old_rec: Self, new_rec: Self, name: Seq<char>) -> bool {
        new_rec.sdc_repository@ == name && new_rec == (ReviewRec {
            sdc_repository: new_rec.sdc_repository,
            ..old_rec
        })
    }

    fn set_repository(&mut self, name: String) {
        self.sdc_repository = name;
    }
}

/// Fetch plan for the reviews of every pull request of one repository.
pub struct ReviewFetcher {
    pub owner: String,
    pub name: String,
    pub since: Option<i64>,
}

impl ReviewFetcher {
    pub fn new(owner: String, name: String, since: Option<i64>) -> (r: Self)
        ensures
            r.owner@ == owner@,
            r.name@ == name@,
            r.since == since,
    {
        ReviewFetcher { owner, name, since }
    }

    /// The client-side cutoff threshold of the pull-collection phase.
    pub open spec fn threshold_spec(&self) -> Option<int> {
        opt_int(self.since)
    }

    pub fn threshold(&self) -> (r: Option<i64>)
        ensures
            opt_int(r) == self.threshold_spec(),
    {
        self.since
    }

    pub open spec fn reponame_spec(&self) -> Seq<char> {
        reponame_of(self.owner@, self.name@)
    }

    pub fn reponame(&self) -> (r: String)
        ensures
            r@ == self.reponame_spec(),
    {
        build_reponame(self.owner.as_str(), self.name.as_str())
    }

    /// The pull listing route: every state, newest update first. `None`
    /// exactly when the owner or repository name is malformed.
    pub open spec fn entrypoint_spec(&self) -> Option<Seq<char>> {
        if valid_segment(self.owner@) && valid_segment(self.name@) {
            Some(
                repo_route(
                    self.owner@,
                    self.name@,
                    "pulls"@,
                    urlencoded_of(
                        (Params {
                            per_page: Some(PAGE_SIZE_CAP),
                            state: None,
                            since: None,
                            filter: None,
                        }).pairs_spec(),
                    ) + pull_listing_tail(),
                ),
            )
        } else {
            None
        }
    }

    /// The entrypoint route, as [`ReviewFetcher::entrypoint_spec`] says.
    pub fn entrypoint(&self) -> (r: Option<String>)
        ensures
            match (r, self.entrypoint_spec()) {
                (Some(u), Some(v)) => u@ == v,
                (None, None) => true,
                _ => false,
            },
    {
        if !is_valid_segment(self.owner.as_str()) || !is_valid_segment(self.name.as_str()) {
            return None;
        }
        let params = Params {
            per_page: Some(PAGE_SIZE_CAP),
            state: None,
            since: None,
            filter: None,
        };
        let mut q = params.to_query();
        q.append("&state=all&sort=updated&direction=desc");
        Some(build_repo_route(self.owner.as_str(), self.name.as_str(), "pulls", q.as_str()))
    }

    /// The review listing route of one pull. `None` exactly when the owner
    /// or repository name is malformed.
    pub open spec fn reviews_route_spec(&self, number: u64) -> Option<Seq<char>> {
        if valid_segment(self.owner@) && valid_segment(self.name@) {
            Some(
                repo_route(
                    self.owner@,
                    self.name@,
                    "pulls/"@ + dec_nat_spec(number as int) + "/reviews"@,
                    urlencoded_of(
                        (Params {
                            per_page: Some(PAGE_SIZE_CAP),
                            state: None,
                            since: None,
                            filter: None,
                        }).pairs_spec(),
                    ),
                ),
            )
        } else {
            None
        }
    }

    /// The review route, as [`ReviewFetcher::reviews_route_spec`] says.
    pub fn reviews_route(&self, number: u64) -> (r: Option<String>)
        ensures
            match (r, self.reviews_route_spec(number)) {
                (Some(u), Some(v)) => u@ == v,
                (None, None) => true,
                _ => false,
            },
    {
        if !is_valid_segment(self.owner.as_str()) || !is_valid_segment(self.name.as_str()) {
            return None;
        }
        let params = Params {
            per_page: Some(PAGE_SIZE_CAP),
            state: None,
            since: None,
            filter: None,
        };
        let q = params.to_query();
        let mut path = String::from_str("pulls/");
        let num = dec_of_u64(number);
        path.append(num.as_str());
        path.append("/reviews");
        proof {
            assert(path@ =~= "pulls/"@ + dec_nat_spec(number as int) + "/reviews"@);
        }
        Some(build_repo_route(self.owner.as_str(), self.name.as_str(), path.as_str(), q.as_str()))
    }

    /// Phase one, page by page: collects the pull numbers of one fetched
    /// page, in order, and decides continuation by the cutoff.
    pub fn map_pull_page(&self, page: Page<PullRequest>) -> (r: (Vec<u64>, Option<String>))
        ensures
            r.0@ == page.items@.map_values(|p: PullRequest| p.number),
            page_continues(page.items@, self.threshold_spec()) ==> r.1 == page.next,
            !page_continues(page.items@, self.threshold_spec()) ==> r.1 is None,
    {
        let keep = keep_following(&page.items, &self.threshold());
        let next = if keep {
            page.next
        } else {
            None
        };
        let mut numbers: Vec<u64> = Vec::new();
        let mut i: usize = 0;
        while i < page.items.len()
            invariant
                i <= page.items@.len(),
                numbers@.len() == i,
                forall|j: int| 0 <= j < i ==> numbers@[j] == page.items@[j].number,
            decreases page.items@.len() - i,
        {
            numbers.push(page.items[i].number);
            i = i + 1;
        }
        proof {
            assert(numbers@ =~= page.items@.map_values(|p: PullRequest| p.number));
        }
        (numbers, next)
    }

    /// Phase one: the whole walk over a fetched chain of pull pages,
    /// collecting the number of every emitted pull, in order, with the
    /// cutoff deciding how far the chain is followed.
    pub fn collect_pull_numbers(&self, pages: Vec<Page<PullRequest>>) -> (r: (Vec<u64>, usize))
        ensures
            r.0@ == emitted_items(pages@, self.threshold_spec()).map_values(
                |p: PullRequest| p.number,
            ),
            r.1 as int == pages_walked(pages@, self.threshold_spec()),
    {
        let (pulls, fetched) = walk(pages, self.threshold());
        let mut numbers: Vec<u64> = Vec::new();
        let mut i: usize = 0;
        while i < pulls.len()
            invariant
                i <= pulls@.len(),
                numbers@.len() == i,
                forall|j: int| 0 <= j < i ==> numbers@[j] == pulls@[j].number,
            decreases pulls@.len() - i,
        {
            numbers.push(pulls[i].number);
            i = i + 1;
        }
        proof {
            assert(numbers@ =~= pulls@.map_values(|p: PullRequest| p.number));
        }
        (numbers, fetched)
    }

    /// Flattens a batch of one pull's reviews in order, marking each row
    /// with the pull's number and the repository tag.
    pub fn map_items(&self, number: u64, items: Vec<Review>) -> (r: Vec<ReviewRec>)
        ensures
            r@.len() == items@.len(),
            forall|i: int|
                0 <= i < items@.len() ==> (#[trigger] r@[i]).matches_model(
                    items@[i],
                    Some(number),
                    self.reponame_spec(),
                ),
    {
        let repo = self.reponame();
        let ghost orig = items@;
        let mut items = items;
        let mut recs: Vec<ReviewRec> = Vec::new();
        while items.len() > 0
            invariant
                recs@.len() + items@.len() == orig.len(),
                items@ =~= orig.skip(recs@.len() as int),
                repo@ == self.reponame_spec(),
                forall|i: int|
                    0 <= i < recs@.len() ==> (#[trigger] recs@[i]).matches_model(
                        orig[i],
                        Some(number),
                        self.reponame_spec(),
                    ),
            decreases items@.len(),
        {
            let ghost k = recs@.len() as int;
            let m = items.remove(0);
            recs.push(ReviewRec::from_model(m, Some(number), &repo));
            proof {
                assert(m == orig[k]);
                assert(items@ =~= orig.skip(k + 1));
            }
        }
        recs
    }

    /// Maps one fetched review page of one pull: review walks run to
    /// exhaustion, so the next link is always followed.
    pub fn map_review_page(&self, number: u64, page: Page<Review>) -> (r: (
        Vec<ReviewRec>,
        Option<String>,
    ))
        ensures
            r.0@.len() == page.items@.len(),
            forall|i: int|
                0 <= i < page.items@.len() ==> (#[trigger] r.0@[i]).matches_model(
                    page.items@[i],
                    Some(number),
                    self.reponame_spec(),
                ),
            r.1 == page.next,
    {
        let next = page.next;
        (self.map_items(number, page.items), next)
    }

    /// Phase two, for one collected pull: the whole walk over that pull's
    /// fetched review pages.
    pub fn emit_reviews(&self, number: u64, pages: Vec<Page<Review>>) -> (r: (
        Vec<ReviewRec>,
        usize,
    ))
        ensures
            r.0@.len() == emitted_items(pages@, None).len(),
            forall|i: int|
                0 <= i < r.0@.len() ==> (#[trigger] r.0@[i]).matches_model(
                    emitted_items(pages@, None)[i],
                    Some(number),
                    self.reponame_spec(),
                ),
            r.1 as int == pages_walked(pages@, None),
    {
        let (items, fetched) = walk(pages, None);
        (self.map_items(number, items), fetched)
    }
}

} // verus!
