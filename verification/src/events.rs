//! The issue-event listing: model, flat record, and fetcher. The event
//! endpoint takes no `since` parameter, so the incremental cutoff is applied
//! client-side: after each page, pagination stops when the page's last event
//! was created strictly before the threshold. Events arrive newest first
//! only by the caller's ordering assumption; the engine does not verify it.

use vstd::prelude::*;

use crate::encode::urlencoded_of;
use crate::model::{opt_milestone_title, opt_user_id, opt_view, MilestoneRef, UserRef};
use crate::pagination::{
    emitted_items, keep_following, opt_int, page_continues, pages_walked, walk, Page, Stamped,
};
use crate::text::{is_valid_segment, valid_segment};
use crate::{
    build_repo_route, build_reponame, repo_route, reponame_of, Params,
    RepositryAware, UrlConstructor, PAGE_SIZE_CAP,
};

verus! {

/// A nested label reference inside an event.
pub struct Label {
    pub name: String,
    pub color: String,
}

/// A nested project-card reference inside an event.
pub struct ProjectCardRef {
    pub url: String,
}

/// A nested issue reference: only what the flattener reads.
pub struct IssueRef {
    pub id: i64,
}

/// One issue event as the listing endpoint returns it.
pub struct IssueEvent {
    pub id: Option<i64>,
    pub node_id: Option<String>,
    pub url: Option<String>,
    pub actor: UserRef,
    pub assignee: Option<UserRef>,
    pub assigner: Option<UserRef>,
    pub review_requester: Option<UserRef>,
    pub requested_reviewer: Option<UserRef>,
    pub label: Option<Label>,
    pub milestone: Option<MilestoneRef>,
    pub project_card: Option<ProjectCardRef>,
    pub event: Option<String>,
    pub commit_id: Option<String>,
    pub commit_url: Option<String>,
    pub created_at: i64,
    pub issue: IssueRef,
}

impl Stamped for IssueEvent {
    open spec fn stamp(&self) -> Option<int> {
        Some(self.created_at as int)
    }

    fn cutoff_stamp(&self) -> (r: Option<i64>) {
        Some(self.created_at)
    }
}

/// The name of an optional label reference.
pub open spec fn opt_label_name(l: Option<Label>) -> Option<Seq<char>> {
    match l {
        Some(label) => Some(label.name@),
        None => None,
    }
}

/// The url of an optional project-card reference.
pub open spec fn opt_card_url(c: Option<ProjectCardRef>) -> Option<Seq<char>> {
    match c {
        Some(card) => Some(card.url@),
        None => None,
    }
}

/// The flat row of one issue event.
pub struct EventRec {
    pub id: Option<i64>,
    pub node_id: Option<String>,
    pub url: Option<String>,
    pub actor_id: i64,
    pub assignee_id: Option<i64>,
    pub assigner_id: Option<i64>,
    pub review_requester_id: Option<i64>,
    pub requested_reviewer_id: Option<i64>,
    pub label: Option<String>,
    pub milestone_title: Option<String>,
    pub project_card_url: Option<String>,
    pub event: Option<String>,
    pub commit_id: Option<String>,
    pub commit_url: Option<String>,
    pub created_at: i64,
    pub issue_id: i64,
    pub sdc_repository: String,
}

impl EventRec {
    /// The flattening contract: every nested reference flattened to its id,
    /// name, title or url; scalar fields copied; the repository tag stamped
    /// on.
    pub open spec fn matches_model(self, m: IssueEvent, repo: Seq<char>) -> bool {
        &&& self.id == m.id
        &&& opt_view(self.node_id) == opt_view(m.node_id)
        &&& opt_view(self.url) == opt_view(m.url)
        &&& self.actor_id == m.actor.id
        &&& self.assignee_id == opt_user_id(m.assignee)
        &&& self.assigner_id == opt_user_id(m.assigner)
        &&& self.review_requester_id == opt_user_id(m.review_requester)
        &&& self.requested_reviewer_id == opt_user_id(m.requested_reviewer)
        &&& opt_view(self.label) == opt_label_name(m.label)
        &&& opt_view(self.milestone_title) == opt_milestone_title(m.milestone)
        &&& opt_view(self.project_card_url) == opt_card_url(m.project_card)
        &&& opt_view(self.event) == opt_view(m.event)
        &&& opt_view(self.commit_id) == opt_view(m.commit_id)
        &&& opt_view(self.commit_url) == opt_view(m.commit_url)
        &&& self.created_at == m.created_at
        &&& self.issue_id == m.issue.id
        &&& self.sdc_repository@ == repo
    }

    /// Flattens one event, as [`EventRec::matches_model`] says.
    pub fn from_model(m: IssueEvent, repo: &String) -> (r: EventRec)
        ensures
            r.matches_model(m, repo@),
    {
        let assignee_id = match &m.assignee {
            Some(u) => Some(u.id),
            None => None,
        };
        let assigner_id = match &m.assigner {
            Some(u) => Some(u.id),
            None => None,
        };
        let review_requester_id = match &m.review_requester {
            Some(u) => Some(u.id),
            None => None,
        };
        let requested_reviewer_id = match &m.requested_reviewer {
            Some(u) => Some(u.id),
            None => None,
        };
        let label = match m.label {
            Some(l) => Some(l.name),
            None => None,
        };
        let milestone_title = match m.milestone {
            Some(ms) => Some(ms.title),
            None => None,
        };
        let project_card_url = match m.project_card {
            Some(c) => Some(c.url),
            None => None,
        };
        EventRec {
            id: m.id,
            node_id: m.node_id,
            url: m.url,
            actor_id: m.actor.id,
            assignee_id,
            assigner_id,
            review_requester_id,
            requested_reviewer_id,
            label,
            milestone_title,
            project_card_url,
            event: m.event,
            commit_id: m.commit_id,
            commit_url: m.commit_url,
            created_at: m.created_at,
            issue_id: m.issue.id,
            sdc_repository: repo.clone(),
        }
    }
}

impl RepositryAware for EventRec {
    open spec fn repository_set(old_rec: Self, new_rec: Self, name: Seq<char>) -> bool {
        new_rec.sdc_repository@ == name && new_rec == (EventRec {
            sdc_repository: new_rec.sdc_repository,
            ..old_rec
        })
    }

    fn set_repository(&mut self, name: String) {
        self.sdc_repository = name;
    }
}

/// Fetch plan for the issue events of one repository: the endpoint has no
/// `since` parameter, so the threshold is enforced by the client-side
/// page-level cutoff.
pub struct IssueEventFetcher {
    pub owner: String,
    pub name: String,
    pub since: Option<i64>,
}

impl IssueEventFetcher {
    pub fn new(owner: String, name: String, since: Option<i64>) -> (r: Self)
        ensures
            r.owner@ == owner@,
            r.name@ == name@,
            r.since == since,
    {
        IssueEventFetcher { owner, name, since }
    }

    /// The client-side cutoff threshold: the caller's since timestamp.
    pub open spec fn threshold_spec(&self) -> Option<int> {
        opt_int(self.since)
    }

    pub fn threshold(&self) -> (r: Option<i64>)
        ensures
            opt_int(r) == self.threshold_spec(),
    {
        self.since
    }

    /// Flattens a batch of events in order, stamping the repository tag.
    pub fn map_items(&self, items: Vec<IssueEvent>) -> (r: Vec<EventRec>)
        ensures
            r@.len() == items@.len(),
            forall|i: int|
                0 <= i < items@.len() ==> (#[trigger] r@[i]).matches_model(
                    items@[i],
                    self.reponame_spec(),
                ),
    {
        let repo = self.reponame();
        let ghost orig = items@;
        let mut items = items;
        let mut recs: Vec<EventRec> = Vec::new();
        while items.len() > 0
            invariant
                recs@.len() + items@.len() == orig.len(),
                items@ =~= orig.skip(recs@.len() as int),
                repo@ == self.reponame_spec(),
                forall|i: int|
                    0 <= i < recs@.len() ==> (#[trigger] recs@[i]).matches_model(
                        orig[i],
                        self.reponame_spec(),
                    ),
            decreases items@.len(),
        {
            let ghost k = recs@.len() as int;
            let m = items.remove(0);
            recs.push(EventRec::from_model(m, &repo));
            proof {
                assert(m == orig[k]);
                assert(items@ =~= orig.skip(k + 1));
            }
        }
        recs
    }

    /// Maps one fetched page and decides continuation: the page's records
    /// are emitted unconditionally, then the cutoff decides whether the next
    /// link is followed.
    pub fn map_page(&self, page: Page<IssueEvent>) -> (r: (Vec<EventRec>, Option<String>))
        ensures
            r.0@.len() == page.items@.len(),
            forall|i: int|
                0 <= i < page.items@.len() ==> (#[trigger] r.0@[i]).matches_model(
                    page.items@[i],
                    self.reponame_spec(),
                ),
            page_continues(page.items@, self.threshold_spec()) ==> r.1 == page.next,
            !page_continues(page.items@, self.threshold_spec()) ==> r.1 is None,
    {
        let keep = keep_following(&page.items, &self.threshold());
        let next = if keep {
            page.next
        } else {
            None
        };
        (self.map_items(page.items), next)
    }

    /// The whole walk over a fetched chain of pages.
    pub fn emit(&self, pages: Vec<Page<IssueEvent>>) -> (r: (Vec<EventRec>, usize))
        ensures
            r.0@.len() == emitted_items(pages@, self.threshold_spec()).len(),
            forall|i: int|
                0 <= i < r.0@.len() ==> (#[trigger] r.0@[i]).matches_model(
                    emitted_items(pages@, self.threshold_spec())[i],
                    self.reponame_spec(),
                ),
            r.1 as int == pages_walked(pages@, self.threshold_spec()),
    {
        let (items, fetched) = walk(pages, self.threshold());
        (self.map_items(items), fetched)
    }
}

impl UrlConstructor for IssueEventFetcher {
    open spec fn reponame_spec(&self) -> Seq<char> {
        reponame_of(self.owner@, self.name@)
    }

    open spec fn entrypoint_spec(&self) -> Option<Seq<char>> {
        if valid_segment(self.owner@) && valid_segment(self.name@) {
            Some(
                repo_route(
                    self.owner@,
                    self.name@,
                    "issues/events"@,
                    urlencoded_of(
                        (Params {
                            per_page: Some(PAGE_SIZE_CAP),
                            state: None,
                            since: None,
                            filter: None,
                        }).pairs_spec(),
                    ),
                ),
            )
        } else {
            None
        }
    }

    fn reponame(&self) -> (r: String) {
        build_reponame(self.owner.as_str(), self.name.as_str())
    }

    fn entrypoint(&self) -> (r: Option<String>) {
        if !is_valid_segment(self.owner.as_str()) || !is_valid_segment(self.name.as_str()) {
            return None;
        }
        let params = Params {
            per_page: Some(PAGE_SIZE_CAP),
            state: None,
            since: None,
            filter: None,
        };
        let q = params.to_query();
        Some(
            build_repo_route(self.owner.as_str(), self.name.as_str(), "issues/events", q.as_str()),
        )
    }
}

} // verus!
