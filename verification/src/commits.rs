//! The commit listing: model, flat record, and fetcher. Commits are filtered
//! server-side by the `since` query parameter; no client-side cutoff applies.

use vstd::prelude::*;

use crate::encode::urlencoded_of;
use crate::model::{opt_user_id, opt_view, GitUser, ParentRef, UserRef};
use crate::pagination::{
    emitted_items, keep_following, opt_int, page_continues, pages_walked, walk, Page, Stamped,
};
use crate::text::{is_valid_segment, join, join_spec, seq_views, valid_segment};
use crate::{
    build_repo_route, build_reponame, check_since_in_range, repo_route,
    reponame_of, since_in_range, Params, RepositryAware, UrlConstructor, PAGE_SIZE_CAP,
};

verus! {

/// The git commit embedded in a commit resource.
pub struct GitCommit {
    pub url: Option<String>,
    pub author: Option<GitUser>,
    pub committer: Option<GitUser>,
    pub message: Option<String>,
    pub comment_count: i32,
}

/// One commit resource as the listing endpoint returns it.
pub struct Commit {
    pub url: Option<String>,
    pub sha: Option<String>,
    pub node_id: Option<String>,
    pub html_url: Option<String>,
    pub comments_url: Option<String>,
    pub author: Option<UserRef>,
    pub committer: Option<UserRef>,
    pub commit: GitCommit,
    pub parents: Vec<ParentRef>,
}

impl Stamped for Commit {
    /// The committer's date, when present; commits are filtered server-side,
    /// so the walker never reads this with a threshold set.
    open spec fn stamp(&self) -> Option<int> {
        match self.commit.committer {
            Some(c) => Some(c.date as int),
            None => None,
        }
    }

    fn cutoff_stamp(&self) -> (r: Option<i64>) {
        match &self.commit.committer {
            Some(c) => Some(c.date),
            None => None,
        }
    }
}

/// The parents' hashes: the hash of each commit parent, empty text for a
/// parent of any other kind.
pub open spec fn parent_shas_of(parents: Seq<ParentRef>) -> Seq<Seq<char>> {
    parents.map_values(
        |p: ParentRef|
            match p.sha {
                Some(s) => s@,
                None => Seq::<char>::empty(),
            },
    )
}

/// The parents' hashes, in order, as [`parent_shas_of`] says.
pub fn parent_shas(parents: &Vec<ParentRef>) -> (r: Vec<String>)
    ensures
        seq_views(r@) == parent_shas_of(parents@),
{
    let mut r: Vec<String> = Vec::new();
    let mut i: usize = 0;
    while i < parents.len()
        invariant
            i <= parents@.len(),
            r@.len() == i,
            forall|j: int|
                0 <= j < i ==> (#[trigger] r@[j])@ == match parents@[j].sha {
                    Some(s) => s@,
                    None => Seq::<char>::empty(),
                },
        decreases parents@.len() - i,
    {
        let s = match &parents[i].sha {
            Some(sha) => sha.clone(),
            None => String::new(),
        };
        r.push(s);
        i = i + 1;
    }
    proof {
        assert(seq_views(r@) =~= parent_shas_of(parents@));
    }
    r
}

/// The date of an optional git signature.
pub open spec fn opt_git_date(u: Option<GitUser>) -> Option<i64> {
    match u {
        Some(g) => Some(g.date),
        None => None,
    }
}

/// The flat row of one commit.
pub struct CommitRec {
    pub sha: Option<String>,
    pub node_id: Option<String>,
    pub url: Option<String>,
    pub html_url: Option<String>,
    pub comments_url: Option<String>,
    pub author_id: Option<i64>,
    pub committer_id: Option<i64>,
    pub parents: String,
    pub message: Option<String>,
    pub authorized_at: Option<i64>,
    pub committed_at: Option<i64>,
    pub comment_count: i32,
    pub sdc_repository: String,
}

impl CommitRec {
    /// The flattening contract: scalar and string fields copied; author and
    /// committer flattened to their ids and signature dates; the parents to
    /// their hashes joined by single spaces; the repository tag stamped on.
    pub open spec fn matches_model(self, m: Commit, repo: Seq<char>) -> bool {
        &&& opt_view(self.sha) == opt_view(m.sha)
        &&& opt_view(self.node_id) == opt_view(m.node_id)
        &&& opt_view(self.url) == opt_view(m.url)
        &&& opt_view(self.html_url) == opt_view(m.html_url)
        &&& opt_view(self.comments_url) == opt_view(m.comments_url)
        &&& self.author_id == opt_user_id(m.author)
        &&& self.committer_id == opt_user_id(m.committer)
        &&& self.parents@ == join_spec(parent_shas_of(m.parents@), " "@)
        &&& opt_view(self.message) == opt_view(m.commit.message)
        &&& self.authorized_at == opt_git_date(m.commit.author)
        &&& self.committed_at == opt_git_date(m.commit.committer)
        &&& self.comment_count == m.commit.comment_count
        &&& self.sdc_repository@ == repo
    }

    /// Flattens one commit, as [`CommitRec::matches_model`] says.
    pub fn from_model(m: Commit, repo: &String) -> (r: CommitRec)
        ensures
            r.matches_model(m, repo@),
    {
        let shas = parent_shas(&m.parents);
        let parents_joined = join(&shas, " ");
        let author_id = match &m.author {
            Some(u) => Some(u.id),
            None => None,
        };
        let committer_id = match &m.committer {
            Some(u) => Some(u.id),
            None => None,
        };
        let authorized_at = match &m.commit.author {
            Some(g) => Some(g.date),
            None => None,
        };
        let committed_at = match &m.commit.committer {
            Some(g) => Some(g.date),
            None => None,
        };
        CommitRec {
            sha: m.sha,
            node_id: m.node_id,
            url: m.url,
            html_url: m.html_url,
            comments_url: m.comments_url,
            author_id,
            committer_id,
            parents: parents_joined,
            message: m.commit.message,
            authorized_at,
            committed_at,
            comment_count: m.commit.comment_count,
            sdc_repository: repo.clone(),
        }
    }
}

impl RepositryAware for CommitRec {
    open spec fn repository_set(old_rec: Self, new_rec: Self, name: Seq<char>) -> bool {
        new_rec.sdc_repository@ == name && new_rec == (CommitRec {
            sdc_repository: new_rec.sdc_repository,
            ..old_rec
        })
    }

    fn set_repository(&mut self, name: String) {
        self.sdc_repository = name;
    }
}

/// Fetch plan for the commits of one repository.
pub struct CommitFetcher {
    pub owner: String,
    pub name: String,
    pub since: Option<i64>,
}

impl CommitFetcher {
    pub fn new(owner: String, name: String, since: Option<i64>) -> (r: Self)
        ensures
            r.owner@ == owner@,
            r.name@ == name@,
            r.since == since,
    {
        CommitFetcher { owner, name, since }
    }

    /// The platform filters commits server-side through the `since`
    /// parameter, so no client-side cutoff applies.
    pub open spec fn threshold_spec(&self) -> Option<int> {
        None
    }

    pub fn threshold(&self) -> (r: Option<i64>)
        ensures
            opt_int(r) == self.threshold_spec(),
    {
        None
    }

    /// Flattens a batch of commits in order, stamping the repository tag.
    pub fn map_items(&self, items: Vec<Commit>) -> (r: Vec<CommitRec>)
        ensures
            r@.len() == items@.len(),
            forall|i: int|
                0 <= i < items@.len() ==> (#[trigger] r@[i]).matches_model(
                    items@[i],
                    self.reponame_spec(),
                ),
    {
        let repo = self.reponame();
        let ghost orig = items@;
        let mut items = items;
        let mut recs: Vec<CommitRec> = Vec::new();
        while items.len() > 0
            invariant
                recs@.len() + items@.len() == orig.len(),
                items@ =~= orig.skip(recs@.len() as int),
                repo@ == self.reponame_spec(),
                forall|i: int|
                    0 <= i < recs@.len() ==> (#[trigger] recs@[i]).matches_model(
                        orig[i],
                        self.reponame_spec(),
                    ),
            decreases items@.len(),
        {
            let ghost k = recs@.len() as int;
            let m = items.remove(0);
            recs.push(CommitRec::from_model(m, &repo));
            proof {
                assert(m == orig[k]);
                assert(items@ =~= orig.skip(k + 1));
            }
        }
        recs
    }

    /// Maps one fetched page and decides continuation.
    pub fn map_page(&self, page: Page<Commit>) -> (r: (Vec<CommitRec>, Option<String>))
        ensures
            r.0@.len() == page.items@.len(),
            forall|i: int|
                0 <= i < page.items@.len() ==> (#[trigger] r.0@[i]).matches_model(
                    page.items@[i],
                    self.reponame_spec(),
                ),
            page_continues(page.items@, self.threshold_spec()) ==> r.1 == page.next,
            !page_continues(page.items@, self.threshold_spec()) ==> r.1 is None,
    {
        let keep = keep_following(&page.items, &self.threshold());
        let next = if keep {
            page.next
        } else {
            None
        };
        (self.map_items(page.items), next)
    }

    /// The whole walk over a fetched chain of pages.
    pub fn emit(&self, pages: Vec<Page<Commit>>) -> (r: (Vec<CommitRec>, usize))
        ensures
            r.0@.len() == emitted_items(pages@, self.threshold_spec()).len(),
            forall|i: int|
                0 <= i < r.0@.len() ==> (#[trigger] r.0@[i]).matches_model(
                    emitted_items(pages@, self.threshold_spec())[i],
                    self.reponame_spec(),
                ),
            r.1 as int == pages_walked(pages@, self.threshold_spec()),
    {
        let (items, fetched) = walk(pages, self.threshold());
        (self.map_items(items), fetched)
    }
}

impl UrlConstructor for CommitFetcher {
    open spec fn reponame_spec(&self) -> Seq<char> {
        reponame_of(self.owner@, self.name@)
    }

    open spec fn entrypoint_spec(&self) -> Option<Seq<char>> {
        if valid_segment(self.owner@) && valid_segment(self.name@) && since_in_range(self.since) {
            Some(
                repo_route(
                    self.owner@,
                    self.name@,
                    "commits"@,
                    urlencoded_of(
                        (Params {
                            per_page: Some(PAGE_SIZE_CAP),
                            state: None,
                            since: self.since,
                            filter: None,
                        }).pairs_spec(),
                    ),
                ),
            )
        } else {
            None
        }
    }

    fn reponame(&self) -> (r: String) {
        build_reponame(self.owner.as_str(), self.name.as_str())
    }

    fn entrypoint(&self) -> (r: Option<String>) {
        if !is_valid_segment(self.owner.as_str()) || !is_valid_segment(self.name.as_str())
            || !check_since_in_range(&self.since) {
            return None;
        }
        let params = Params {
            per_page: Some(PAGE_SIZE_CAP),
            state: None,
            since: self.since,
            filter: None,
        };
        let q = params.to_query();
        Some(build_repo_route(self.owner.as_str(), self.name.as_str(), "commits", q.as_str()))
    }
}

} // verus!
