//! The issue listing: model, flat record, and fetcher. Issues are filtered
//! server-side by the `since` query parameter, so the walker follows every
//! next link; no client-side cutoff applies.

use vstd::prelude::*;

use crate::encode::{json_string_array_of, json_array_of_strings, urlencoded_of};
use crate::labels::LabelModel;
use crate::model::{logins_of, opt_milestone_title, opt_user_id, opt_view, user_logins,
    MilestoneRef, UserRef};
use crate::pagination::{
    emitted_items, keep_following, opt_int, page_continues, pages_walked, walk, Page, Stamped,
};
use crate::text::{is_valid_segment, join, join_spec, seq_views, valid_segment};
use crate::{
    build_repo_route, build_reponame, check_since_in_range, repo_route,
    reponame_of, since_in_range, Params, RepositryAware, StateFilter, UrlConstructor,
    PAGE_SIZE_CAP,
};

verus! {

/// One issue resource as the listing endpoint returns it.
pub struct IssueModel {
    pub id: i64,
    pub node_id: String,
    pub url: String,
    pub repository_url: String,
    pub labels_url: String,
    pub comments_url: String,
    pub events_url: String,
    pub html_url: String,
    pub number: i64,
    pub state: String,
    pub title: String,
    pub body: Option<String>,
    pub body_text: Option<String>,
    pub body_html: Option<String>,
    pub user: UserRef,
    pub labels: Vec<LabelModel>,
    pub assignee: Option<UserRef>,
    pub assignees: Vec<UserRef>,
    pub author_association: String,
    pub milestone: Option<MilestoneRef>,
    pub locked: bool,
    pub active_lock_reason: Option<String>,
    pub comments: u32,
    pub pull_request: Option<String>,
    pub closed_at: Option<i64>,
    pub created_at: i64,
    pub updated_at: i64,
}

impl Stamped for IssueModel {
    open spec fn stamp(&self) -> Option<int> {
        Some(self.created_at as int)
    }

    fn cutoff_stamp(&self) -> (r: Option<i64>) {
        Some(self.created_at)
    }
}

/// The names of a sequence of labels.
pub open spec fn label_names_of(labels: Seq<LabelModel>) -> Seq<Seq<char>> {
    labels.map_values(|l: LabelModel| l.name@)
}

/// The label names, in order, as [`label_names_of`] says.
pub fn label_names(labels: &Vec<LabelModel>) -> (r: Vec<String>)
    ensures
        seq_views(r@) == label_names_of(labels@),
{
    let mut r: Vec<String> = Vec::new();
    let mut i: usize = 0;
    while i < labels.len()
        invariant
            i <= labels@.len(),
            r@.len() == i,
            forall|j: int| 0 <= j < i ==> (#[trigger] r@[j])@ == labels@[j].name@,
        decreases labels@.len() - i,
    {
        r.push(labels[i].name.clone());
        i = i + 1;
    }
    proof {
        assert(seq_views(r@) =~= label_names_of(labels@));
    }
    r
}

/// The flat row of one issue.
pub struct IssueRec {
    pub id: i64,
    pub node_id: String,
    pub url: String,
    pub repository_url: String,
    pub labels_url: String,
    pub comments_url: String,
    pub events_url: String,
    pub html_url: String,
    pub number: i64,
    pub state: String,
    pub title: String,
    pub body: Option<String>,
    pub body_text: Option<String>,
    pub body_html: Option<String>,
    pub user_id: i64,
    pub labels: String,
    pub assignee_id: Option<i64>,
    pub assignees: String,
    pub author_association: String,
    pub milestone: Option<String>,
    pub locked: bool,
    pub active_lock_reason: Option<String>,
    pub comments: u32,
    pub pull_request: Option<String>,
    pub closed_at: Option<i64>,
    pub created_at: i64,
    pub updated_at: i64,
    pub sdc_repository: String,
}

impl IssueRec {
    /// The flattening contract: scalar and string fields copied; the author,
    /// assignee and milestone flattened to their id or title; the labels to
    /// the JSON array of their names; the assignees to their logins joined
    /// by commas; the repository tag stamped on.
    pub open spec fn matches_model(self, m: IssueModel, repo: Seq<char>) -> bool {
        &&& self.id == m.id
        &&& self.node_id@ == m.node_id@
        &&& self.url@ == m.url@
        &&& self.repository_url@ == m.repository_url@
        &&& self.labels_url@ == m.labels_url@
        &&& self.comments_url@ == m.comments_url@
        &&& self.events_url@ == m.events_url@
        &&& self.html_url@ == m.html_url@
        &&& self.number == m.number
        &&& self.state@ == m.state@
        &&& self.title@ == m.title@
        &&& opt_view(self.body) == opt_view(m.body)
        &&& opt_view(self.body_text) == opt_view(m.body_text)
        &&& opt_view(self.body_html) == opt_view(m.body_html)
        &&& self.user_id == m.user.id
        &&& self.labels@ == json_string_array_of(label_names_of(m.labels@))
        &&& self.assignee_id == opt_user_id(m.assignee)
        &&& self.assignees@ == join_spec(logins_of(m.assignees@), ","@)
        &&& self.author_association@ == m.author_association@
        &&& opt_view(self.milestone) == opt_milestone_title(m.milestone)
        &&& self.locked == m.locked
        &&& opt_view(self.active_lock_reason) == opt_view(m.active_lock_reason)
        &&& self.comments == m.comments
        &&& opt_view(self.pull_request) == opt_view(m.pull_request)
        &&& self.closed_at == m.closed_at
        &&& self.created_at == m.created_at
        &&& self.updated_at == m.updated_at
        &&& self.sdc_repository@ == repo
    }

    /// Flattens one issue, as [`IssueRec::matches_model`] says.
    pub fn from_model(m: IssueModel, repo: &String) -> (r: IssueRec)
        ensures
            r.matches_model(m, repo@),
    {
        let names = label_names(&m.labels);
        let labels_json = json_array_of_strings(&names);
        let logins = user_logins(&m.assignees);
        let assignees_joined = join(&logins, ",");
        let assignee_id = match &m.assignee {
            Some(user) => Some(user.id),
            None => None,
        };
        let milestone = match m.milestone {
            Some(ms) => Some(ms.title),
            None => None,
        };
        IssueRec {
            id: m.id,
            node_id: m.node_id,
            url: m.url,
            repository_url: m.repository_url,
            labels_url: m.labels_url,
            comments_url: m.comments_url,
            events_url: m.events_url,
            html_url: m.html_url,
            number: m.number,
            state: m.state,
            title: m.title,
            body: m.body,
            body_text: m.body_text,
            body_html: m.body_html,
            user_id: m.user.id,
            labels: labels_json,
            assignee_id,
            assignees: assignees_joined,
            author_association: m.author_association,
            milestone,
            locked: m.locked,
            active_lock_reason: m.active_lock_reason,
            comments: m.comments,
            pull_request: m.pull_request,
            closed_at: m.closed_at,
            created_at: m.created_at,
            updated_at: m.updated_at,
            sdc_repository: repo.clone(),
        }
    }
}

impl RepositryAware for IssueRec {
    open spec fn repository_set(old_rec: Self, new_rec: Self, name: Seq<char>) -> bool {
        new_rec.sdc_repository@ == name && new_rec == (IssueRec {
            sdc_repository: new_rec.sdc_repository,
            ..old_rec
        })
    }

    fn set_repository(&mut self, name: String) {
        self.sdc_repository = name;
    }
}

/// Fetch plan for the issues of one repository: every state, optionally only
/// those updated since a threshold (enforced server-side by the `since`
/// parameter).
pub struct IssueFetcher {
    pub owner: String,
    pub name: String,
    pub since: Option<i64>,
}

impl IssueFetcher {
    pub fn new(owner: String, name: String, since: Option<i64>) -> (r: Self)
        ensures
            r.owner@ == owner@,
            r.name@ == name@,
            r.since == since,
    {
        IssueFetcher { owner, name, since }
    }

    /// The platform filters issues server-side through the `since`
    /// parameter, so no client-side cutoff applies.
    pub open spec fn threshold_spec(&self) -> Option<int> {
        None
    }

    pub fn threshold(&self) -> (r: Option<i64>)
        ensures
            opt_int(r) == self.threshold_spec(),
    {
        None
    }

    /// Flattens a batch of issues in order, stamping the repository tag.
    pub fn map_items(&self, items: Vec<IssueModel>) -> (r: Vec<IssueRec>)
        ensures
            r@.len() == items@.len(),
            forall|i: int|
                0 <= i < items@.len() ==> (#[trigger] r@[i]).matches_model(
                    items@[i],
                    self.reponame_spec(),
                ),
    {
        let repo = self.reponame();
        let ghost orig = items@;
        let mut items = items;
        let mut recs: Vec<IssueRec> = Vec::new();
        while items.len() > 0
            invariant
                recs@.len() + items@.len() == orig.len(),
                items@ =~= orig.skip(recs@.len() as int),
                repo@ == self.reponame_spec(),
                forall|i: int|
                    0 <= i < recs@.len() ==> (#[trigger] recs@[i]).matches_model(
                        orig[i],
                        self.reponame_spec(),
                    ),
            decreases items@.len(),
        {
            let ghost k = recs@.len() as int;
            let m = items.remove(0);
            recs.push(IssueRec::from_model(m, &repo));
            proof {
                assert(m == orig[k]);
                assert(items@ =~= orig.skip(k + 1));
            }
        }
        recs
    }

    /// Maps one fetched page and decides continuation.
    pub fn map_page(&self, page: Page<IssueModel>) -> (r: (Vec<IssueRec>, Option<String>))
        ensures
            r.0@.len() == page.items@.len(),
            forall|i: int|
                0 <= i < page.items@.len() ==> (#[trigger] r.0@[i]).matches_model(
                    page.items@[i],
                    self.reponame_spec(),
                ),
            page_continues(page.items@, self.threshold_spec()) ==> r.1 == page.next,
            !page_continues(page.items@, self.threshold_spec()) ==> r.1 is None,
    {
        let keep = keep_following(&page.items, &self.threshold());
        let next = if keep {
            page.next
        } else {
            None
        };
        (self.map_items(page.items), next)
    }

    /// The whole walk over a fetched chain of pages: every record of every
    /// fetched page, in order, and the number of pages fetched.
    pub fn emit(&self, pages: Vec<Page<IssueModel>>) -> (r: (Vec<IssueRec>, usize))
        ensures
            r.0@.len() == emitted_items(pages@, self.threshold_spec()).len(),
            forall|i: int|
                0 <= i < r.0@.len() ==> (#[trigger] r.0@[i]).matches_model(
                    emitted_items(pages@, self.threshold_spec())[i],
                    self.reponame_spec(),
                ),
            r.1 as int == pages_walked(pages@, self.threshold_spec()),
    {
        let (items, fetched) = walk(pages, self.threshold());
        (self.map_items(items), fetched)
    }
}

impl UrlConstructor for IssueFetcher {
    open spec fn reponame_spec(&self) -> Seq<char> {
        reponame_of(self.owner@, self.name@)
    }

    open spec fn entrypoint_spec(&self) -> Option<Seq<char>> {
        if valid_segment(self.owner@) && valid_segment(self.name@) && since_in_range(self.since) {
            Some(
                repo_route(
                    self.owner@,
                    self.name@,
                    "issues"@,
                    urlencoded_of(
                        (Params {
                            per_page: Some(PAGE_SIZE_CAP),
                            state: Some(StateFilter::All),
                            since: self.since,
                            filter: None,
                        }).pairs_spec(),
                    ),
                ),
            )
        } else {
            None
        }
    }

    fn reponame(&self) -> (r: String) {
        build_reponame(self.owner.as_str(), self.name.as_str())
    }

    fn entrypoint(&self) -> (r: Option<String>) {
        if !is_valid_segment(self.owner.as_str()) || !is_valid_segment(self.name.as_str())
            || !check_since_in_range(&self.since) {
            return None;
        }
        let params = Params {
            per_page: Some(PAGE_SIZE_CAP),
            state: Some(StateFilter::All),
            since: self.since,
            filter: None,
        };
        let q = params.to_query();
        Some(build_repo_route(self.owner.as_str(), self.name.as_str(), "issues", q.as_str()))
    }
}

} // verus!
