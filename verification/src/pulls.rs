//! Pull requests and their file listings. The pull listing is ordered by
//! update time, newest first, and carries no server-side `since` filter, so
//! the incremental cutoff is applied client-side after each page. For every
//! emitted pull the files of that pull are fetched in one request and each
//! file row is marked with its pull number and the repository tag.

use vstd::prelude::*;

use crate::commits::{opt_git_date, parent_shas, parent_shas_of, Commit};
use crate::encode::{json_string_of, json_quote, urlencoded_of};
use crate::model::{opt_user_id, opt_view, GitUser};
use crate::pagination::{
    emitted_items, keep_following, opt_int, page_continues, pages_walked, walk, Page, Stamped,
};
use crate::text::{dec_int_spec, dec_nat_spec, dec_of_i64, dec_of_u64, is_valid_segment, join,
    join_spec, valid_segment};
use crate::{
    build_repo_route, build_reponame, repo_route, reponame_of, Params,
    RepositryAware, UrlConstructor, PAGE_SIZE_CAP,
};

verus! {

/// One pull request as the listing endpoint returns it: only what the file
/// walk reads.
pub struct PullRequest {
    pub url: String,
    pub id: u64,
    pub number: u64,
    pub node_id: String,
    pub created_at: i64,
    pub updated_at: Option<i64>,
}

impl Stamped for PullRequest {
    /// The update time, falling back to the creation time: what the cutoff
    /// compares on a listing ordered by update time.
    open spec fn stamp(&self) -> Option<int> {
        match self.updated_at {
            Some(u) => Some(u as int),
            None => Some(self.created_at as int),
        }
    }

    fn cutoff_stamp(&self) -> (r: Option<i64>) {
        match self.updated_at {
            Some(u) => Some(u),
            None => Some(self.created_at),
        }
    }
}

/// One changed file of a pull request: the resource and its flat row are the
/// same shape, so marking fills the two fields the listing leaves empty.
pub struct PullRequestFile {
    pub sha: Option<String>,
    pub filename: Option<String>,
    pub additions: i32,
    pub deletions: i32,
    pub changes: i32,
    pub blob_url: Option<String>,
    pub raw_url: Option<String>,
    pub contents_url: Option<String>,
    pub patch: Option<String>,
    pub pull_request_number: Option<u64>,
    pub sdc_repository: Option<String>,
}

/// A file row marked with its pull number and repository tag; every other
/// field keeps the fetched value.
pub open spec fn marked_file(
    f: PullRequestFile,
    number: u64,
    repo: String,
) -> PullRequestFile {
    PullRequestFile { pull_request_number: Some(number), sdc_repository: Some(repo), ..f }
}

/// Marks every file of one pull, as [`marked_file`] says, in order.
pub fn mark_files(files: Vec<PullRequestFile>, number: u64, repo: &String) -> (r: Vec<
    PullRequestFile,
>)
    ensures
        r@.len() == files@.len(),
        forall|i: int| 0 <= i < files@.len() ==> r@[i] == marked_file(files@[i], number, *repo),
{
    let ghost orig = files@;
    let mut files = files;
    let mut out: Vec<PullRequestFile> = Vec::new();
    while files.len() > 0
        invariant
            out@.len() + files@.len() == orig.len(),
            files@ =~= orig.skip(out@.len() as int),
            forall|i: int| 0 <= i < out@.len() ==> out@[i] == marked_file(orig[i], number, *repo),
        decreases files@.len(),
    {
        let ghost k = out@.len() as int;
        let f = files.remove(0);
        out.push(
            PullRequestFile {
                pull_request_number: Some(number),
                sdc_repository: Some(repo.clone()),
                ..f
            },
        );
        proof {
            assert(f == orig[k]);
            assert(files@ =~= orig.skip(k + 1));
        }
    }
    out
}

/// The git signature as a JSON object: name and email quoted by
/// [`json_string_of`], the date as Unix seconds.
pub open spec fn git_user_json_of(g: GitUser) -> Seq<char> {
    "{\"name\":"@ + json_string_of(g.name@) + ",\"email\":"@ + json_string_of(g.email@)
        + ",\"date\":"@ + dec_int_spec(g.date as int) + "}"@
}

/// Renders one git signature, as [`git_user_json_of`] says.
pub fn git_user_json(g: &GitUser) -> (r: String)
    ensures
        r@ == git_user_json_of(*g),
{
    let mut r = String::from_str("{\"name\":");
    let name_q = json_quote(g.name.as_str());
    r.append(name_q.as_str());
    r.append(",\"email\":");
    let email_q = json_quote(g.email.as_str());
    r.append(email_q.as_str());
    r.append(",\"date\":");
    let date = dec_of_i64(g.date);
    r.append(date.as_str());
    r.append("}");
    proof {
        assert(r@ =~= git_user_json_of(*g));
    }
    r
}

/// The flat row of one commit reached through a pull request: like the plain
/// commit row, plus the full author and committer signatures as JSON text
/// and the owning pull's number.
pub struct PrCommitRec {
    pub sha: Option<String>,
    pub node_id: Option<String>,
    pub url: Option<String>,
    pub html_url: Option<String>,
    pub comments_url: Option<String>,
    pub author_id: Option<i64>,
    pub committer_id: Option<i64>,
    pub author: Option<String>,
    pub committer: Option<String>,
    pub parents: String,
    pub message: Option<String>,
    pub authorized_at: Option<i64>,
    pub committed_at: Option<i64>,
    pub comment_count: i32,
    pub pull_request_number: Option<u64>,
    pub sdc_repository: String,
}

/// The JSON text of an optional git signature.
pub open spec fn opt_git_user_json(g: Option<GitUser>) -> Option<Seq<char>> {
    match g {
        Some(u) => Some(git_user_json_of(u)),
        None => None,
    }
}

impl PrCommitRec {
    /// The flattening contract: like the plain commit row, with the whole
    /// author and committer signatures kept as JSON text; the pull number is
    /// left empty by the flattener.
    pub open spec fn matches_model(self, m: Commit, repo: Seq<char>) -> bool {
        &&& opt_view(self.sha) == opt_view(m.sha)
        &&& opt_view(self.node_id) == opt_view(m.node_id)
        &&& opt_view(self.url) == opt_view(m.url)
        &&& opt_view(self.html_url) == opt_view(m.html_url)
        &&& opt_view(self.comments_url) == opt_view(m.comments_url)
        &&& self.author_id == opt_user_id(m.author)
        &&& self.committer_id == opt_user_id(m.committer)
        &&& opt_view(self.author) == opt_git_user_json(m.commit.author)
        &&& opt_view(self.committer) == opt_git_user_json(m.commit.committer)
        &&& self.parents@ == join_spec(parent_shas_of(m.parents@), " "@)
        &&& opt_view(self.message) == opt_view(m.commit.message)
        &&& self.authorized_at == opt_git_date(m.commit.author)
        &&& self.committed_at == opt_git_date(m.commit.committer)
        &&& self.comment_count == m.commit.comment_count
        &&& self.pull_request_number is None
        &&& self.sdc_repository@ == repo
    }

    /// Flattens one commit of a pull, as [`PrCommitRec::matches_model`] says.
    pub fn from_model(m: Commit, repo: &String) -> (r: PrCommitRec)
        ensures
            r.matches_model(m, repo@),
    {
        let shas = parent_shas(&m.parents);
        let parents_joined = join(&shas, " ");
        let author_id = match &m.author {
            Some(u) => Some(u.id),
            None => None,
        };
        let committer_id = match &m.committer {
            Some(u) => Some(u.id),
            None => None,
        };
        let author = match &m.commit.author {
            Some(g) => Some(git_user_json(g)),
            None => None,
        };
        let committer = match &m.commit.committer {
            Some(g) => Some(git_user_json(g)),
            None => None,
        };
        let authorized_at = match &m.commit.author {
            Some(g) => Some(g.date),
            None => None,
        };
        let committed_at = match &m.commit.committer {
            Some(g) => Some(g.date),
            None => None,
        };
        PrCommitRec {
            sha: m.sha,
            node_id: m.node_id,
            url: m.url,
            html_url: m.html_url,
            comments_url: m.comments_url,
            author_id,
            committer_id,
            author,
            committer,
            parents: parents_joined,
            message: m.commit.message,
            authorized_at,
            committed_at,
            comment_count: m.commit.comment_count,
            pull_request_number: None,
            sdc_repository: repo.clone(),
        }
    }
}

impl RepositryAware for PrCommitRec {
    open spec fn repository_set(old_rec: Self, new_rec: Self, name: Seq<char>) -> bool {
        new_rec.sdc_repository@ == name && new_rec == (PrCommitRec {
            sdc_repository: new_rec.sdc_repository,
            ..old_rec
        })
    }

    fn set_repository(&mut self, name: String) {
        self.sdc_repository = name;
    }
}

/// The fixed tail of the pull listing query: every state, ordered by update
/// time, newest first — the ordering the client-side cutoff relies on.
pub open spec fn pull_listing_tail() -> Seq<char> {
    "&state=all&sort=updated&direction=desc"@
}

/// The file rows of a nested walk: for each emitted pull, that pull's files
/// marked with its number, the blocks concatenated in pull order.
pub open spec fn marked_groups(
    pulls: Seq<PullRequest>,
    files: Seq<Vec<PullRequestFile>>,
    repo: String,
) -> Seq<PullRequestFile>
    decreases pulls.len(),
{
    if pulls.len() == 0 || files.len() == 0 {
        Seq::empty()
    } else {
        files[0]@.map_values(|f: PullRequestFile| marked_file(f, pulls[0].number, repo))
            + marked_groups(pulls.drop_first(), files.drop_first(), repo)
    }
}

/// Fetch plan for the files of every pull request of one repository.
pub struct PullFileFetcher {
    pub owner: String,
    pub name: String,
    pub since: Option<i64>,
}

impl PullFileFetcher {
    pub fn new(owner: String, name: String, since: Option<i64>) -> (r: Self)
        ensures
            r.owner@ == owner@,
            r.name@ == name@,
            r.since == since,
    {
        PullFileFetcher { owner, name, since }
    }

    /// The client-side cutoff threshold: the caller's since timestamp,
    /// compared against each page's last pull's update time.
    pub open spec fn threshold_spec(&self) -> Option<int> {
        opt_int(self.since)
    }

    pub fn threshold(&self) -> (r: Option<i64>)
        ensures
            opt_int(r) == self.threshold_spec(),
    {
        self.since
    }

    pub open spec fn reponame_spec(&self) -> Seq<char> {
        reponame_of(self.owner@, self.name@)
    }

    pub fn reponame(&self) -> (r: String)
        ensures
            r@ == self.reponame_spec(),
    {
        build_reponame(self.owner.as_str(), self.name.as_str())
    }

    /// The pull listing route: every state, newest update first. `None`
    /// exactly when the owner or repository name is malformed.
    pub open spec fn entrypoint_spec(&self) -> Option<Seq<char>> {
        if valid_segment(self.owner@) && valid_segment(self.name@) {
            Some(
                repo_route(
                    self.owner@,
                    self.name@,
                    "pulls"@,
                    urlencoded_of(
                        (Params {
                            per_page: Some(PAGE_SIZE_CAP),
                            state: None,
                            since: None,
                            filter: None,
                        }).pairs_spec(),
                    ) + pull_listing_tail(),
                ),
            )
        } else {
            None
        }
    }

    /// The entrypoint route, as [`PullFileFetcher::entrypoint_spec`] says.
    pub fn entrypoint(&self) -> (r: Option<String>)
        ensures
            match (r, self.entrypoint_spec()) {
                (Some(u), Some(v)) => u@ == v,
                (None, None) => true,
                _ => false,
            },
    {
        if !is_valid_segment(self.owner.as_str()) || !is_valid_segment(self.name.as_str()) {
            return None;
        }
        let params = Params {
            per_page: Some(PAGE_SIZE_CAP),
            state: None,
            since: None,
            filter: None,
        };
        let mut q = params.to_query();
        q.append("&state=all&sort=updated&direction=desc");
        Some(build_repo_route(self.owner.as_str(), self.name.as_str(), "pulls", q.as_str()))
    }

    /// The file listing route of one pull. `None` exactly when the owner or
    /// repository name is malformed.
    pub open spec fn files_route_spec(&self, number: u64) -> Option<Seq<char>> {
        if valid_segment(self.owner@) && valid_segment(self.name@) {
            Some(
                "repos/"@ + self.owner@ + "/"@ + self.name@ + "/pulls/"@ + dec_nat_spec(
                    number as int,
                ) + "/files"@,
            )
        } else {
            None
        }
    }

    /// The file route, as [`PullFileFetcher::files_route_spec`] says.
    pub fn files_route(&self, number: u64) -> (r: Option<String>)
        ensures
            match (r, self.files_route_spec(number)) {
                (Some(u), Some(v)) => u@ == v,
                (None, None) => true,
                _ => false,
            },
    {
        if !is_valid_segment(self.owner.as_str()) || !is_valid_segment(self.name.as_str()) {
            return None;
        }
        let mut r = String::from_str("repos/");
        r.append(self.owner.as_str());
        r.append("/");
        r.append(self.name.as_str());
        r.append("/pulls/");
        let num = dec_of_u64(number);
        r.append(num.as_str());
        r.append("/files");
        proof {
            assert(r@ =~= "repos/"@ + self.owner@ + "/"@ + self.name@ + "/pulls/"@ + dec_nat_spec(
                number as int,
            ) + "/files"@);
        }
        Some(r)
    }

    /// Collects the pull numbers of one fetched page, in order, and decides
    /// continuation by the cutoff.
    pub fn map_page(&self, page: Page<PullRequest>) -> (r: (Vec<u64>, Option<String>))
        ensures
            r.0@ == page.items@.map_values(|p: PullRequest| p.number),
            page_continues(page.items@, self.threshold_spec()) ==> r.1 == page.next,
            !page_continues(page.items@, self.threshold_spec()) ==> r.1 is None,
    {
        let keep = keep_following(&page.items, &self.threshold());
        let next = if keep {
            page.next
        } else {
            None
        };
        let mut numbers: Vec<u64> = Vec::new();
        let mut i: usize = 0;
        while i < page.items.len()
            invariant
                i <= page.items@.len(),
                numbers@.len() == i,
                forall|j: int| 0 <= j < i ==> numbers@[j] == page.items@[j].number,
            decreases page.items@.len() - i,
        {
            numbers.push(page.items[i].number);
            i = i + 1;
        }
        proof {
            assert(numbers@ =~= page.items@.map_values(|p: PullRequest| p.number));
        }
        (numbers, next)
    }

    /// The whole nested walk over a fetched chain of pull pages and, for
    /// each emitted pull, that pull's fetched files: every file row marked
    /// with its pull's number and the repository tag, blocks in pull order.
    /// `repo` is the tag to stamp, the fetcher's repository.
    pub fn emit(
        &self,
        pages: Vec<Page<PullRequest>>,
        files: Vec<Vec<PullRequestFile>>,
        repo: &String,
    ) -> (r: Vec<PullRequestFile>)
        requires
            files@.len() == emitted_items(pages@, self.threshold_spec()).len(),
        ensures
            r@ == marked_groups(emitted_items(pages@, self.threshold_spec()), files@, *repo),
    {
        let (pulls, _fetched) = walk(pages, self.threshold());
        let ghost orig_pulls = pulls@;
        let ghost orig_files = files@;
        let mut pulls = pulls;
        let mut files = files;
        let mut out: Vec<PullRequestFile> = Vec::new();
        let ghost mut done: Seq<PullRequestFile> = Seq::empty();
        while pulls.len() > 0
            invariant
                pulls@.len() == files@.len(),
                done + marked_groups(pulls@, files@, *repo) == marked_groups(
                    orig_pulls,
                    orig_files,
                    *repo,
                ),
                out@ == done,
            decreases pulls@.len(),
        {
            let ghost pulls_before = pulls@;
            let ghost files_before = files@;
            let p = pulls.remove(0);
            let f = files.remove(0);
            let mut marked = mark_files(f, p.number, repo);
            proof {
                assert(pulls@ =~= pulls_before.drop_first());
                assert(files@ =~= files_before.drop_first());
                assert(marked_groups(pulls_before, files_before, *repo) == files_before[0]@
                    .map_values(|x: PullRequestFile| marked_file(x, pulls_before[0].number, *repo))
                    + marked_groups(pulls@, files@, *repo));
                assert(marked@ =~= files_before[0]@.map_values(
                    |x: PullRequestFile| marked_file(x, pulls_before[0].number, *repo),
                ));
            }
            let ghost prev = done;
            out.append(&mut marked);
            proof {
                done = out@;
                assert(done + marked_groups(pulls@, files@, *repo) =~= marked_groups(
                    orig_pulls,
                    orig_files,
                    *repo,
                )) by {
                    assert(done =~= prev + files_before[0]@.map_values(
                        |x: PullRequestFile| marked_file(x, pulls_before[0].number, *repo),
                    ));
                    assert((prev + files_before[0]@.map_values(
                        |x: PullRequestFile| marked_file(x, pulls_before[0].number, *repo),
                    )) + marked_groups(pulls@, files@, *repo) =~= prev + (files_before[0]@
                        .map_values(
                        |x: PullRequestFile| marked_file(x, pulls_before[0].number, *repo),
                    ) + marked_groups(pulls@, files@, *repo)));
                };
            }
        }
        proof {
            assert(marked_groups(pulls@, files@, *repo) =~= Seq::<PullRequestFile>::empty());
            assert(done =~= marked_groups(orig_pulls, orig_files, *repo));
        }
        out
    }
}

} // verus!
