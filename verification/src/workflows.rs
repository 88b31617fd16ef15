//! The workflow -> run -> job (-> step) tree: models, flat records, fetchers,
//! and the nested traversal that composes one inner walk per outer item.
//!
//! Runs are emitted grouped by their owning workflow, in workflow listing
//! order; jobs are emitted grouped by their owning run, in run listing order;
//! groups never interleave. A job can be flattened either to one row (its
//! steps as JSON text) or, denormalized, to one row per step.

use vstd::prelude::*;

use crate::encode::{json_quote, json_string_of, urlencoded_of};
use crate::model::opt_view;
use crate::pagination::{
    emitted_items, group_offset, grouped_items, keep_following, lemma_emitted_membership,
    lemma_grouped_index, opt_int, page_continues, pages_walked, walk, Page, Stamped,
};
use crate::text::{dec_int_spec, dec_nat_spec, dec_of_i64, is_valid_segment, join,
    join_spec, seq_views, valid_segment};
use crate::{
    build_repo_route, build_reponame, repo_route, reponame_of, Params,
    RepositryAware, UrlConstructor, PAGE_SIZE_CAP,
};

verus! {

/// One workflow resource as the listing endpoint returns it.
pub struct WorkFlowModel {
    pub id: i64,
    pub node_id: String,
    pub name: String,
    pub path: String,
    pub state: String,
    pub created_at: i64,
    pub updated_at: i64,
    pub url: String,
    pub html_url: String,
    pub badge_url: String,
}

impl Stamped for WorkFlowModel {
    open spec fn stamp(&self) -> Option<int> {
        Some(self.created_at as int)
    }

    fn cutoff_stamp(&self) -> (r: Option<i64>) {
        Some(self.created_at)
    }
}

/// One workflow run as the run listing returns it.
pub struct Run {
    pub id: i64,
    pub workflow_id: i64,
    pub node_id: String,
    pub name: String,
    pub head_branch: String,
    pub head_sha: String,
    pub run_number: i64,
    pub event: String,
    pub status: String,
    pub conclusion: Option<String>,
    pub created_at: i64,
    pub updated_at: i64,
    pub url: String,
    pub html_url: String,
}

impl Stamped for Run {
    open spec fn stamp(&self) -> Option<int> {
        Some(self.created_at as int)
    }

    fn cutoff_stamp(&self) -> (r: Option<i64>) {
        Some(self.created_at)
    }
}

/// One step embedded in a job resource.
pub struct StepRef {
    pub name: String,
    pub status: String,
    pub conclusion: Option<String>,
    pub number: i64,
    pub started_at: i64,
    pub completed_at: Option<i64>,
}

/// One job resource as the job listing returns it.
pub struct JobModel {
    pub id: i64,
    pub run_id: i64,
    pub node_id: String,
    pub head_sha: String,
    pub status: String,
    pub conclusion: Option<String>,
    pub started_at: i64,
    pub completed_at: Option<i64>,
    pub name: String,
    pub url: String,
    pub html_url: String,
    pub run_url: String,
    pub check_run_url: String,
    pub steps: Vec<StepRef>,
}

impl Stamped for JobModel {
    open spec fn stamp(&self) -> Option<int> {
        Some(self.started_at as int)
    }

    fn cutoff_stamp(&self) -> (r: Option<i64>) {
        Some(self.started_at)
    }
}

/// An optional JSON string: the quoted text, or `null`.
pub open spec fn json_opt_string_of(s: Option<String>) -> Seq<char> {
    match s {
        Some(v) => json_string_of(v@),
        None => "null"@,
    }
}

/// An optional JSON number: the decimal text, or `null`.
pub open spec fn json_opt_number_of(n: Option<i64>) -> Seq<char> {
    match n {
        Some(v) => dec_int_spec(v as int),
        None => "null"@,
    }
}

/// One step as a JSON object: its fields under their names, strings quoted
/// by [`json_string_of`], timestamps as Unix seconds, absent fields `null`.
pub open spec fn step_json_of(s: StepRef) -> Seq<char> {
    "{\"name\":"@ + json_string_of(s.name@) + ",\"status\":"@ + json_string_of(s.status@)
        + ",\"conclusion\":"@ + json_opt_string_of(s.conclusion) + ",\"number\":"@ + dec_int_spec(
        s.number as int,
    ) + ",\"started_at\":"@ + dec_int_spec(s.started_at as int) + ",\"completed_at\":"@
        + json_opt_number_of(s.completed_at) + "}"@
}

/// A job's steps as a JSON array of the objects of [`step_json_of`].
pub open spec fn steps_json_of(steps: Seq<StepRef>) -> Seq<char> {
    seq!['['] + join_spec(steps.map_values(|s: StepRef| step_json_of(s)), seq![',']) + seq![']']
}

/// Renders one step, as [`step_json_of`] says.
pub fn step_json(s: &StepRef) -> (r: String)
    ensures
        r@ == step_json_of(*s),
{
    proof {
        reveal_strlit("null");
    }
    let mut r = String::from_str("{\"name\":");
    let name_q = json_quote(s.name.as_str());
    r.append(name_q.as_str());
    r.append(",\"status\":");
    let status_q = json_quote(s.status.as_str());
    r.append(status_q.as_str());
    r.append(",\"conclusion\":");
    match &s.conclusion {
        Some(c) => {
            let c_q = json_quote(c.as_str());
            r.append(c_q.as_str());
        },
        None => {
            r.append("null");
        },
    }
    r.append(",\"number\":");
    let num = dec_of_i64(s.number);
    r.append(num.as_str());
    r.append(",\"started_at\":");
    let started = dec_of_i64(s.started_at);
    r.append(started.as_str());
    r.append(",\"completed_at\":");
    match &s.completed_at {
        Some(t) => {
            let done = dec_of_i64(*t);
            r.append(done.as_str());
        },
        None => {
            r.append("null");
        },
    }
    r.append("}");
    proof {
        assert(r@ =~= step_json_of(*s));
    }
    r
}

/// Renders a job's steps, as [`steps_json_of`] says.
pub fn steps_json(steps: &Vec<StepRef>) -> (r: String)
    ensures
        r@ == steps_json_of(steps@),
{
    proof {
        reveal_strlit("[");
        reveal_strlit("]");
        reveal_strlit(",");
    }
    let mut texts: Vec<String> = Vec::new();
    let mut i: usize = 0;
    while i < steps.len()
        invariant
            i <= steps@.len(),
            texts@.len() == i,
            forall|j: int| 0 <= j < i ==> (#[trigger] texts@[j])@ == step_json_of(steps@[j]),
        decreases steps@.len() - i,
    {
        texts.push(step_json(&steps[i]));
        i = i + 1;
    }
    let body = join(&texts, ",");
    proof {
        assert(seq_views(texts@) =~= steps@.map_values(|s: StepRef| step_json_of(s)));
        assert(","@ =~= seq![',']);
    }
    let mut r = String::from_str("[");
    r.append(body.as_str());
    r.append("]");
    proof {
        assert("["@ =~= seq!['[']);
        assert("]"@ =~= seq![']']);
        assert(r@ =~= steps_json_of(steps@));
    }
    r
}

/// The flat row of one workflow.
pub struct WorkFlowRec {
    pub id: i64,
    pub node_id: String,
    pub name: String,
    pub path: String,
    pub state: String,
    pub created_at: i64,
    pub updated_at: i64,
    pub url: String,
    pub html_url: String,
    pub badge_url: String,
    pub sdc_repository: String,
}

impl WorkFlowRec {
    /// The flattening contract: every field copied, the repository tag
    /// stamped on.
    pub open spec fn matches_model(self, m: WorkFlowModel, repo: Seq<char>) -> bool {
        &&& self.id == m.id
        &&& self.node_id@ == m.node_id@
        &&& self.name@ == m.name@
        &&& self.path@ == m.path@
        &&& self.state@ == m.state@
        &&& self.created_at == m.created_at
        &&& self.updated_at == m.updated_at
        &&& self.url@ == m.url@
        &&& self.html_url@ == m.html_url@
        &&& self.badge_url@ == m.badge_url@
        &&& self.sdc_repository@ == repo
    }

    /// Flattens one workflow, as [`WorkFlowRec::matches_model`] says.
    pub fn from_model(m: WorkFlowModel, repo: &String) -> (r: WorkFlowRec)
        ensures
            r.matches_model(m, repo@),
    {
        WorkFlowRec {
            id: m.id,
            node_id: m.node_id,
            name: m.name,
            path: m.path,
            state: m.state,
            created_at: m.created_at,
            updated_at: m.updated_at,
            url: m.url,
            html_url: m.html_url,
            badge_url: m.badge_url,
            sdc_repository: repo.clone(),
        }
    }
}

impl RepositryAware for WorkFlowRec {
    open spec fn repository_set(old_rec: Self, new_rec: Self, name: Seq<char>) -> bool {
        new_rec.sdc_repository@ == name && new_rec == (WorkFlowRec {
            sdc_repository: new_rec.sdc_repository,
            ..old_rec
        })
    }

    fn set_repository(&mut self, name: String) {
        self.sdc_repository = name;
    }
}

/// The flat row of one workflow run.
pub struct RunRec {
    pub id: i64,
    pub workflow_id: i64,
    pub node_id: String,
    pub name: String,
    pub head_branch: String,
    pub head_sha: String,
    pub run_number: i64,
    pub event: String,
    pub status: String,
    pub conclusion: Option<String>,
    pub created_at: i64,
    pub updated_at: i64,
    pub url: String,
    pub html_url: String,
    pub sdc_repository: String,
}

impl RunRec {
    /// The flattening contract: every field copied, the repository tag
    /// stamped on.
    pub open spec fn matches_model(self, m: Run, repo: Seq<char>) -> bool {
        &&& self.id == m.id
        &&& self.workflow_id == m.workflow_id
        &&& self.node_id@ == m.node_id@
        &&& self.name@ == m.name@
        &&& self.head_branch@ == m.head_branch@
        &&& self.head_sha@ == m.head_sha@
        &&& self.run_number == m.run_number
        &&& self.event@ == m.event@
        &&& self.status@ == m.status@
        &&& opt_view(self.conclusion) == opt_view(m.conclusion)
        &&& self.created_at == m.created_at
        &&& self.updated_at == m.updated_at
        &&& self.url@ == m.url@
        &&& self.html_url@ == m.html_url@
        &&& self.sdc_repository@ == repo
    }

    /// Flattens one run, as [`RunRec::matches_model`] says.
    pub fn from_model(m: Run, repo: &String) -> (r: RunRec)
        ensures
            r.matches_model(m, repo@),
    {
        RunRec {
            id: m.id,
            workflow_id: m.workflow_id,
            node_id: m.node_id,
            name: m.name,
            head_branch: m.head_branch,
            head_sha: m.head_sha,
            run_number: m.run_number,
            event: m.event,
            status: m.status,
            conclusion: m.conclusion,
            created_at: m.created_at,
            updated_at: m.updated_at,
            url: m.url,
            html_url: m.html_url,
            sdc_repository: repo.clone(),
        }
    }
}

impl RepositryAware for RunRec {
    open spec fn repository_set(old_rec: Self, new_rec: Self, name: Seq<char>) -> bool {
        new_rec.sdc_repository@ == name && new_rec == (RunRec {
            sdc_repository: new_rec.sdc_repository,
            ..old_rec
        })
    }

    fn set_repository(&mut self, name: String) {
        self.sdc_repository = name;
    }
}

/// The flat row of one job, its steps as JSON text.
pub struct JobRec {
    pub id: i64,
    pub run_id: i64,
    pub node_id: String,
    pub head_sha: String,
    pub status: String,
    pub conclusion: Option<String>,
    pub started_at: i64,
    pub completed_at: Option<i64>,
    pub name: String,
    pub url: String,
    pub html_url: String,
    pub run_url: String,
    pub check_run_url: String,
    pub steps: String,
    pub sdc_repository: String,
}

impl JobRec {
    /// The flattening contract: every field copied, the steps rendered as
    /// the JSON array of [`steps_json_of`], the repository tag stamped on.
    pub open spec fn matches_model(self, m: JobModel, repo: Seq<char>) -> bool {
        &&& self.id == m.id
        &&& self.run_id == m.run_id
        &&& self.node_id@ == m.node_id@
        &&& self.head_sha@ == m.head_sha@
        &&& self.status@ == m.status@
        &&& opt_view(self.conclusion) == opt_view(m.conclusion)
        &&& self.started_at == m.started_at
        &&& self.completed_at == m.completed_at
        &&& self.name@ == m.name@
        &&& self.url@ == m.url@
        &&& self.html_url@ == m.html_url@
        &&& self.run_url@ == m.run_url@
        &&& self.check_run_url@ == m.check_run_url@
        &&& self.steps@ == steps_json_of(m.steps@)
        &&& self.sdc_repository@ == repo
    }

    /// Flattens one job, as [`JobRec::matches_model`] says.
    pub fn from_model(m: JobModel, repo: &String) -> (r: JobRec)
        ensures
            r.matches_model(m, repo@),
    {
        let steps_text = steps_json(&m.steps);
        JobRec {
            id: m.id,
            run_id: m.run_id,
            node_id: m.node_id,
            head_sha: m.head_sha,
            status: m.status,
            conclusion: m.conclusion,
            started_at: m.started_at,
            completed_at: m.completed_at,
            name: m.name,
            url: m.url,
            html_url: m.html_url,
            run_url: m.run_url,
            check_run_url: m.check_run_url,
            steps: steps_text,
            sdc_repository: repo.clone(),
        }
    }
}

impl RepositryAware for JobRec {
    open spec fn repository_set(old_rec: Self, new_rec: Self, name: Seq<char>) -> bool {
        new_rec.sdc_repository@ == name && new_rec == (JobRec {
            sdc_repository: new_rec.sdc_repository,
            ..old_rec
        })
    }

    fn set_repository(&mut self, name: String) {
        self.sdc_repository = name;
    }
}

/// The flat row of one job step: all job-level fields repeated, plus the
/// step's own fields.
pub struct JobStepRec {
    pub job_id: i64,
    pub run_id: i64,
    pub job_node_id: String,
    pub head_sha: String,
    pub job_status: String,
    pub job_conclusion: Option<String>,
    pub job_started_at: i64,
    pub job_completed_at: Option<i64>,
    pub job_name: String,
    pub job_url: String,
    pub job_html_url: String,
    pub run_url: String,
    pub check_run_url: String,
    pub name: String,
    pub status: String,
    pub conclusion: Option<String>,
    pub number: i64,
    pub started_at: i64,
    pub completed_at: Option<i64>,
    pub sdc_repository: String,
}

/// The step row of step `s` of job `m`, tagged `repo`: the denormalization
/// contract, one value for one (job, step) pair.
pub open spec fn step_rec_of(m: JobModel, s: StepRef, repo: String) -> JobStepRec {
    JobStepRec {
        job_id: m.id,
        run_id: m.run_id,
        job_node_id: m.node_id,
        head_sha: m.head_sha,
        job_status: m.status,
        job_conclusion: m.conclusion,
        job_started_at: m.started_at,
        job_completed_at: m.completed_at,
        job_name: m.name,
        job_url: m.url,
        job_html_url: m.html_url,
        run_url: m.run_url,
        check_run_url: m.check_run_url,
        name: s.name,
        status: s.status,
        conclusion: s.conclusion,
        number: s.number,
        started_at: s.started_at,
        completed_at: s.completed_at,
        sdc_repository: repo,
    }
}

/// The step rows of one job, in step order.
pub open spec fn step_recs_of(m: JobModel, repo: String) -> Seq<JobStepRec> {
    m.steps@.map_values(|s: StepRef| step_rec_of(m, s, repo))
}

/// The step rows of a job, one row per step.
pub struct JobStepsRec(pub Vec<JobStepRec>);

impl JobStepsRec {
    /// Denormalizes one job: a job with `k` steps expands to exactly `k`
    /// rows, row `i` being [`step_rec_of`] of step `i`.
    pub fn from_model(m: &JobModel, repo: &String) -> (r: JobStepsRec)
        ensures
            r.0@ == step_recs_of(*m, *repo),
    {
        let mut rows: Vec<JobStepRec> = Vec::new();
        let mut i: usize = 0;
        while i < m.steps.len()
            invariant
                i <= m.steps@.len(),
                rows@.len() == i,
                forall|j: int|
                    0 <= j < i ==> rows@[j] == step_rec_of(*m, m.steps@[j], *repo),
            decreases m.steps@.len() - i,
        {
            let s = &m.steps[i];
            rows.push(
                JobStepRec {
                    job_id: m.id,
                    run_id: m.run_id,
                    job_node_id: m.node_id.clone(),
                    head_sha: m.head_sha.clone(),
                    job_status: m.status.clone(),
                    job_conclusion: m.conclusion.clone(),
                    job_started_at: m.started_at,
                    job_completed_at: m.completed_at,
                    job_name: m.name.clone(),
                    job_url: m.url.clone(),
                    job_html_url: m.html_url.clone(),
                    run_url: m.run_url.clone(),
                    check_run_url: m.check_run_url.clone(),
                    name: s.name.clone(),
                    status: s.status.clone(),
                    conclusion: s.conclusion.clone(),
                    number: s.number,
                    started_at: s.started_at,
                    completed_at: s.completed_at,
                    sdc_repository: repo.clone(),
                },
            );
            i = i + 1;
        }
        proof {
            assert(rows@ =~= step_recs_of(*m, *repo));
        }
        JobStepsRec(rows)
    }
}

impl RepositryAware for JobStepsRec {
    /// Stamping retags every row, leaving everything else unchanged.
    open spec fn repository_set(old_rec: Self, new_rec: Self, name: Seq<char>) -> bool {
        &&& new_rec.0@.len() == old_rec.0@.len()
        &&& forall|i: int|
            0 <= i < old_rec.0@.len() ==> (#[trigger] new_rec.0@[i]).sdc_repository@ == name
                && new_rec.0@[i] == (JobStepRec {
                sdc_repository: new_rec.0@[i].sdc_repository,
                ..old_rec.0@[i]
            })
    }

    fn set_repository(&mut self, name: String) {
        let ghost orig = self.0@;
        let mut i: usize = 0;
        while i < self.0.len()
            invariant
                i <= self.0@.len(),
                self.0@.len() == orig.len(),
                forall|j: int|
                    i <= j < orig.len() ==> self.0@[j] == orig[j],
                forall|j: int|
                    0 <= j < i ==> (#[trigger] self.0@[j]).sdc_repository@ == name@
                        && self.0@[j] == (JobStepRec {
                        sdc_repository: self.0@[j].sdc_repository,
                        ..orig[j]
                    }),
            decreases self.0@.len() - i,
        {
            let tag = name.clone();
            let row = &mut self.0[i];
            row.sdc_repository = tag;
            i = i + 1;
        }
    }
}

/// Step expansion: the rows of one job's denormalization share every
/// job-level field, and when the job's steps carry pairwise distinct step
/// numbers, each row carries a distinct number.
pub proof fn lemma_step_expansion(m: JobModel, repo: String)
    ensures
        step_recs_of(m, repo).len() == m.steps@.len(),
        forall|i: int, j: int|
            0 <= i < step_recs_of(m, repo).len() && 0 <= j < step_recs_of(m, repo).len() ==> {
                let a = #[trigger] step_recs_of(m, repo)[i];
                let b = #[trigger] step_recs_of(m, repo)[j];
                a.job_id == b.job_id && a.run_id == b.run_id && a.job_node_id == b.job_node_id
                    && a.head_sha == b.head_sha && a.job_status == b.job_status && a.job_conclusion
                    == b.job_conclusion && a.job_started_at == b.job_started_at
                    && a.job_completed_at == b.job_completed_at && a.job_name == b.job_name
                    && a.job_url == b.job_url && a.job_html_url == b.job_html_url && a.run_url
                    == b.run_url && a.check_run_url == b.check_run_url && a.sdc_repository
                    == b.sdc_repository
            },
        forall|i: int|
            0 <= i < step_recs_of(m, repo).len() ==> (#[trigger] step_recs_of(m, repo)[i]).number
                == m.steps@[i].number,
        (forall|i: int, j: int|
            0 <= i < j < m.steps@.len() ==> m.steps@[i].number != m.steps@[j].number) ==> (forall|
            i: int,
            j: int,
        |
            0 <= i < j < step_recs_of(m, repo).len() ==> (#[trigger] step_recs_of(m, repo)[i]).number
                != (#[trigger] step_recs_of(m, repo)[j]).number),
{
}

/// Fetch plan for the workflows of one repository.
pub struct WorkFlowFetcher {
    pub owner: String,
    pub name: String,
}

impl WorkFlowFetcher {
    pub fn new(owner: String, name: String) -> (r: Self)
        ensures
            r.owner@ == owner@,
            r.name@ == name@,
    {
        WorkFlowFetcher { owner, name }
    }

    /// Workflows take no since threshold; no cutoff applies.
    pub open spec fn threshold_spec(&self) -> Option<int> {
        None
    }

    pub fn threshold(&self) -> (r: Option<i64>)
        ensures
            opt_int(r) == self.threshold_spec(),
    {
        None
    }

    /// Flattens a batch of workflows in order, stamping the repository tag.
    pub fn map_items(&self, items: Vec<WorkFlowModel>) -> (r: Vec<WorkFlowRec>)
        ensures
            r@.len() == items@.len(),
            forall|i: int|
                0 <= i < items@.len() ==> (#[trigger] r@[i]).matches_model(
                    items@[i],
                    self.reponame_spec(),
                ),
    {
        let repo = self.reponame();
        let ghost orig = items@;
        let mut items = items;
        let mut recs: Vec<WorkFlowRec> = Vec::new();
        while items.len() > 0
            invariant
                recs@.len() + items@.len() == orig.len(),
                items@ =~= orig.skip(recs@.len() as int),
                repo@ == self.reponame_spec(),
                forall|i: int|
                    0 <= i < recs@.len() ==> (#[trigger] recs@[i]).matches_model(
                        orig[i],
                        self.reponame_spec(),
                    ),
            decreases items@.len(),
        {
            let ghost k = recs@.len() as int;
            let m = items.remove(0);
            recs.push(WorkFlowRec::from_model(m, &repo));
            proof {
                assert(m == orig[k]);
                assert(items@ =~= orig.skip(k + 1));
            }
        }
        recs
    }

    /// Collects the ids of a batch of workflows, for the nested traversals.
    pub fn collect_ids(&self, items: &Vec<WorkFlowModel>) -> (r: Vec<i64>)
        ensures
            r@ == items@.map_values(|m: WorkFlowModel| m.id),
    {
        let mut ids: Vec<i64> = Vec::new();
        let mut i: usize = 0;
        while i < items.len()
            invariant
                i <= items@.len(),
                ids@.len() == i,
                forall|j: int| 0 <= j < i ==> ids@[j] == items@[j].id,
            decreases items@.len() - i,
        {
            ids.push(items[i].id);
            i = i + 1;
        }
        proof {
            assert(ids@ =~= items@.map_values(|m: WorkFlowModel| m.id));
        }
        ids
    }

    /// Maps one fetched page and decides continuation.
    pub fn map_page(&self, page: Page<WorkFlowModel>) -> (r: (Vec<WorkFlowRec>, Option<String>))
        ensures
            r.0@.len() == page.items@.len(),
            forall|i: int|
                0 <= i < page.items@.len() ==> (#[trigger] r.0@[i]).matches_model(
                    page.items@[i],
                    self.reponame_spec(),
                ),
            page_continues(page.items@, self.threshold_spec()) ==> r.1 == page.next,
            !page_continues(page.items@, self.threshold_spec()) ==> r.1 is None,
    {
        let keep = keep_following(&page.items, &self.threshold());
        let next = if keep {
            page.next
        } else {
            None
        };
        (self.map_items(page.items), next)
    }

    /// The whole walk over a fetched chain of pages.
    pub fn emit(&self, pages: Vec<Page<WorkFlowModel>>) -> (r: (Vec<WorkFlowRec>, usize))
        ensures
            r.0@.len() == emitted_items(pages@, self.threshold_spec()).len(),
            forall|i: int|
                0 <= i < r.0@.len() ==> (#[trigger] r.0@[i]).matches_model(
                    emitted_items(pages@, self.threshold_spec())[i],
                    self.reponame_spec(),
                ),
            r.1 as int == pages_walked(pages@, self.threshold_spec()),
    {
        let (items, fetched) = walk(pages, self.threshold());
        (self.map_items(items), fetched)
    }
}

impl UrlConstructor for WorkFlowFetcher {
    open spec fn reponame_spec(&self) -> Seq<char> {
        reponame_of(self.owner@, self.name@)
    }

    open spec fn entrypoint_spec(&self) -> Option<Seq<char>> {
        if valid_segment(self.owner@) && valid_segment(self.name@) {
            Some(
                repo_route(
                    self.owner@,
                    self.name@,
                    "actions/workflows"@,
                    urlencoded_of(
                        (Params {
                            per_page: Some(PAGE_SIZE_CAP),
                            state: None,
                            since: None,
                            filter: None,
                        }).pairs_spec(),
                    ),
                ),
            )
        } else {
            None
        }
    }

    fn reponame(&self) -> (r: String) {
        build_reponame(self.owner.as_str(), self.name.as_str())
    }

    fn entrypoint(&self) -> (r: Option<String>) {
        if !is_valid_segment(self.owner.as_str()) || !is_valid_segment(self.name.as_str()) {
            return None;
        }
        let params = Params {
            per_page: Some(PAGE_SIZE_CAP),
            state: None,
            since: None,
            filter: None,
        };
        let q = params.to_query();
        Some(
            build_repo_route(
                self.owner.as_str(),
                self.name.as_str(),
                "actions/workflows",
                q.as_str(),
            ),
        )
    }
}

/// The step rows of a batch of jobs: each job's rows in step order, the
/// jobs' row blocks concatenated in job order.
pub open spec fn flat_step_recs(jobs: Seq<JobModel>, repo: String) -> Seq<JobStepRec>
    decreases jobs.len(),
{
    if jobs.len() == 0 {
        Seq::empty()
    } else {
        step_recs_of(jobs[0], repo) + flat_step_recs(jobs.drop_first(), repo)
    }
}

proof fn lemma_flat_step_recs_push(jobs: Seq<JobModel>, x: JobModel, repo: String)
    ensures
        flat_step_recs(jobs.push(x), repo) == flat_step_recs(jobs, repo) + step_recs_of(x, repo),
    decreases jobs.len(),
{
    if jobs.len() == 0 {
        assert(jobs.push(x).drop_first() =~= Seq::<JobModel>::empty());
        assert(jobs.push(x)[0] == x);
        assert(flat_step_recs(jobs.push(x), repo) == step_recs_of(jobs.push(x)[0], repo)
            + flat_step_recs(jobs.push(x).drop_first(), repo));
        assert(flat_step_recs(Seq::<JobModel>::empty(), repo) == Seq::<JobStepRec>::empty());
        assert(step_recs_of(x, repo) + Seq::<JobStepRec>::empty() =~= step_recs_of(x, repo));
        assert(flat_step_recs(jobs, repo) + step_recs_of(x, repo) =~= step_recs_of(x, repo));
    } else {
        assert(jobs.push(x).drop_first() =~= jobs.drop_first().push(x));
        lemma_flat_step_recs_push(jobs.drop_first(), x, repo);
        assert(step_recs_of(jobs[0], repo) + (flat_step_recs(jobs.drop_first(), repo)
            + step_recs_of(x, repo)) =~= (step_recs_of(jobs[0], repo) + flat_step_recs(
            jobs.drop_first(),
            repo,
        )) + step_recs_of(x, repo));
    }
}

/// Denormalizes a batch of jobs into step rows, as [`flat_step_recs`] says:
/// one row per (job, step) pair, grouped by job, tagged with `repo`.
pub fn expand_steps(items: &Vec<JobModel>, repo: &String) -> (r: Vec<JobStepRec>)
    ensures
        r@ == flat_step_recs(items@, *repo),
{
    let mut out: Vec<JobStepRec> = Vec::new();
    let mut i: usize = 0;
    while i < items.len()
        invariant
            i <= items@.len(),
            out@ == flat_step_recs(items@.take(i as int), *repo),
        decreases items@.len() - i,
    {
        let mut rows = JobStepsRec::from_model(&items[i], repo);
        proof {
            assert(items@.take(i as int).push(items@[i as int]) =~= items@.take(i + 1));
            lemma_flat_step_recs_push(items@.take(i as int), items@[i as int], *repo);
        }
        out.append(&mut rows.0);
        i = i + 1;
    }
    proof {
        assert(items@.take(items@.len() as int) =~= items@);
    }
    out
}

/// Fetch plan for workflow runs: all runs of the repository, or the runs of
/// one workflow.
pub struct RunFetcher {
    pub owner: String,
    pub name: String,
}

impl RunFetcher {
    pub fn new(owner: String, name: String) -> (r: Self)
        ensures
            r.owner@ == owner@,
            r.name@ == name@,
    {
        RunFetcher { owner, name }
    }

    /// Runs take no since threshold; no cutoff applies.
    pub open spec fn threshold_spec(&self) -> Option<int> {
        None
    }

    pub fn threshold(&self) -> (r: Option<i64>)
        ensures
            opt_int(r) == self.threshold_spec(),
    {
        None
    }

    pub open spec fn reponame_spec(&self) -> Seq<char> {
        reponame_of(self.owner@, self.name@)
    }

    pub fn reponame(&self) -> (r: String)
        ensures
            r@ == self.reponame_spec(),
    {
        build_reponame(self.owner.as_str(), self.name.as_str())
    }

    /// The run listing route: one workflow's runs when a workflow id or file
    /// name is given, every run of the repository otherwise. `None` exactly
    /// when a path segment is malformed.
    pub open spec fn entrypoint_spec(&self, workflow_id: Option<String>) -> Option<Seq<char>> {
        let q = urlencoded_of(
            (Params {
                per_page: Some(PAGE_SIZE_CAP),
                state: None,
                since: None,
                filter: None,
            }).pairs_spec(),
        );
        if valid_segment(self.owner@) && valid_segment(self.name@) && (match workflow_id {
            Some(w) => valid_segment(w@),
            None => true,
        }) {
            Some(
                match workflow_id {
                    Some(w) => repo_route(
                        self.owner@,
                        self.name@,
                        "actions/workflows/"@ + w@ + "/runs"@,
                        q,
                    ),
                    None => repo_route(self.owner@, self.name@, "actions/runs"@, q),
                },
            )
        } else {
            None
        }
    }

    /// The entrypoint route, as [`RunFetcher::entrypoint_spec`] says.
    pub fn entrypoint(&self, workflow_id: Option<String>) -> (r: Option<String>)
        ensures
            match (r, self.entrypoint_spec(workflow_id)) {
                (Some(u), Some(v)) => u@ == v,
                (None, None) => true,
                _ => false,
            },
    {
        if !is_valid_segment(self.owner.as_str()) || !is_valid_segment(self.name.as_str()) {
            return None;
        }
        let params = Params {
            per_page: Some(PAGE_SIZE_CAP),
            state: None,
            since: None,
            filter: None,
        };
        let q = params.to_query();
        match &workflow_id {
            Some(w) => {
                if !is_valid_segment(w.as_str()) {
                    return None;
                }
                let mut path = String::from_str("actions/workflows/");
                path.append(w.as_str());
                path.append("/runs");
                proof {
                    assert(path@ =~= "actions/workflows/"@ + w@ + "/runs"@);
                }
                Some(
                    build_repo_route(
                        self.owner.as_str(),
                        self.name.as_str(),
                        path.as_str(),
                        q.as_str(),
                    ),
                )
            },
            None => Some(
                build_repo_route(self.owner.as_str(), self.name.as_str(), "actions/runs", q.as_str()),
            ),
        }
    }

    /// Flattens a batch of runs in order, stamping the repository tag.
    pub fn map_items(&self, items: Vec<Run>) -> (r: Vec<RunRec>)
        ensures
            r@.len() == items@.len(),
            forall|i: int|
                0 <= i < items@.len() ==> (#[trigger] r@[i]).matches_model(
                    items@[i],
                    self.reponame_spec(),
                ),
    {
        let repo = self.reponame();
        let ghost orig = items@;
        let mut items = items;
        let mut recs: Vec<RunRec> = Vec::new();
        while items.len() > 0
            invariant
                recs@.len() + items@.len() == orig.len(),
                items@ =~= orig.skip(recs@.len() as int),
                repo@ == self.reponame_spec(),
                forall|i: int|
                    0 <= i < recs@.len() ==> (#[trigger] recs@[i]).matches_model(
                        orig[i],
                        self.reponame_spec(),
                    ),
            decreases items@.len(),
        {
            let ghost k = recs@.len() as int;
            let m = items.remove(0);
            recs.push(RunRec::from_model(m, &repo));
            proof {
                assert(m == orig[k]);
                assert(items@ =~= orig.skip(k + 1));
            }
        }
        recs
    }

    /// Maps one fetched page and decides continuation.
    pub fn map_page(&self, page: Page<Run>) -> (r: (Vec<RunRec>, Option<String>))
        ensures
            r.0@.len() == page.items@.len(),
            forall|i: int|
                0 <= i < page.items@.len() ==> (#[trigger] r.0@[i]).matches_model(
                    page.items@[i],
                    self.reponame_spec(),
                ),
            r.1 == page.next,
    {
        let keep = keep_following(&page.items, &self.threshold());
        let next = if keep {
            page.next
        } else {
            None
        };
        (self.map_items(page.items), next)
    }

    /// The whole walk over a fetched chain of pages.
    pub fn emit(&self, pages: Vec<Page<Run>>) -> (r: (Vec<RunRec>, usize))
        ensures
            r.0@.len() == emitted_items(pages@, self.threshold_spec()).len(),
            forall|i: int|
                0 <= i < r.0@.len() ==> (#[trigger] r.0@[i]).matches_model(
                    emitted_items(pages@, self.threshold_spec())[i],
                    self.reponame_spec(),
                ),
            r.1 as int == pages_walked(pages@, self.threshold_spec()),
    {
        let (items, fetched) = walk(pages, self.threshold());
        (self.map_items(items), fetched)
    }

    /// The nested traversal over one run-page chain per workflow, in
    /// workflow listing order: the output is group 0's runs, then group 1's,
    /// and so on, flattened in order — no interleaving across groups.
    pub fn emit_grouped(&self, groups: Vec<Vec<Page<Run>>>) -> (r: Vec<RunRec>)
        ensures
            r@.len() == grouped_items(groups@).len(),
            forall|i: int|
                0 <= i < r@.len() ==> (#[trigger] r@[i]).matches_model(
                    grouped_items(groups@)[i],
                    self.reponame_spec(),
                ),
    {
        let ghost orig = groups@;
        let mut groups = groups;
        let mut out: Vec<RunRec> = Vec::new();
        let ghost mut done: Seq<Run> = Seq::empty();
        while groups.len() > 0
            invariant
                done + grouped_items(groups@) == grouped_items(orig),
                out@.len() == done.len(),
                forall|i: int|
                    0 <= i < done.len() ==> (#[trigger] out@[i]).matches_model(
                        done[i],
                        self.reponame_spec(),
                    ),
            decreases groups@.len(),
        {
            let ghost before = groups@;
            let ghost out_before = out@;
            let g = groups.remove(0);
            let ghost emitted = emitted_items(g@, None);
            let (mut recs, _pages) = self.emit(g);
            proof {
                assert(groups@ =~= before.drop_first());
                assert(grouped_items(before) == emitted + grouped_items(before.drop_first()));
            }
            out.append(&mut recs);
            proof {
                let prev = done;
                done = done + emitted;
                assert(done + grouped_items(groups@) =~= grouped_items(orig)) by {
                    assert((prev + emitted) + grouped_items(groups@) =~= prev + (emitted
                        + grouped_items(groups@)));
                };
                assert forall|i: int| 0 <= i < done.len() implies (#[trigger] out@[i]).matches_model(
                    done[i],
                    self.reponame_spec(),
                ) by {
                    if i < prev.len() {
                        assert(out@[i] == out_before[i]);
                        assert(done[i] == prev[i]);
                    } else {
                        assert(done[i] == emitted[i - prev.len()]);
                    }
                };
            }
        }
        proof {
            assert(grouped_items(groups@) =~= Seq::<Run>::empty());
            assert(done =~= grouped_items(orig));
        }
        out
    }
}

/// Nested grouping with ownership: when every run of group `w` belongs to
/// workflow `ids[w]`, item `j` of group `w`'s walk stands at position
/// `group_offset(groups, w) + j` of the traversal's output and carries that
/// workflow's id — run rows appear grouped by owning workflow, in workflow
/// listing order.
pub proof fn lemma_runs_grouped_by_workflow(
    groups: Seq<Vec<Page<Run>>>,
    ids: Seq<i64>,
    w: int,
    j: int,
)
    requires
        groups.len() == ids.len(),
        forall|v: int, p: int, i: int|
            0 <= v < groups.len() && 0 <= p < groups[v]@.len() && 0 <= i
                < groups[v]@[p].items@.len() ==> (#[trigger] groups[v]@[p].items@[i]).workflow_id
                == ids[v],
        0 <= w < groups.len(),
        0 <= j < emitted_items(groups[w]@, None).len(),
    ensures
        0 <= group_offset(groups, w) + j < grouped_items(groups).len(),
        grouped_items(groups)[group_offset(groups, w) + j] == emitted_items(groups[w]@, None)[j],
        grouped_items(groups)[group_offset(groups, w) + j].workflow_id == ids[w],
{
    lemma_grouped_index(groups, w, j);
    lemma_emitted_membership(groups[w]@, None, j);
}

/// Fetch plan for workflow jobs: the jobs of one run, or — composed with the
/// workflow and run walks — the jobs of every run of every workflow.
pub struct JobFetcher {
    pub owner: String,
    pub name: String,
}

impl JobFetcher {
    pub fn new(owner: String, name: String) -> (r: Self)
        ensures
            r.owner@ == owner@,
            r.name@ == name@,
    {
        JobFetcher { owner, name }
    }

    /// Jobs take no since threshold; no cutoff applies.
    pub open spec fn threshold_spec(&self) -> Option<int> {
        None
    }

    pub fn threshold(&self) -> (r: Option<i64>)
        ensures
            opt_int(r) == self.threshold_spec(),
    {
        None
    }

    pub open spec fn reponame_spec(&self) -> Seq<char> {
        reponame_of(self.owner@, self.name@)
    }

    pub fn reponame(&self) -> (r: String)
        ensures
            r@ == self.reponame_spec(),
    {
        build_reponame(self.owner.as_str(), self.name.as_str())
    }

    /// The query pairs of a job listing: the full page size and the filter
    /// that includes every job.
    pub open spec fn job_query_pairs() -> Seq<(Seq<char>, Seq<char>)> {
        seq![("per_page"@, dec_nat_spec(PAGE_SIZE_CAP as int)), ("filter"@, "all"@)]
    }

    /// The job listing route of one run, every job filter included. `None`
    /// exactly when a path segment is malformed.
    pub open spec fn entrypoint_spec(&self, run_id: Seq<char>) -> Option<Seq<char>> {
        if valid_segment(self.owner@) && valid_segment(self.name@) && valid_segment(run_id) {
            Some(
                repo_route(
                    self.owner@,
                    self.name@,
                    "actions/runs/"@ + run_id + "/jobs"@,
                    urlencoded_of(Self::job_query_pairs()),
                ),
            )
        } else {
            None
        }
    }

    /// The entrypoint route, as [`JobFetcher::entrypoint_spec`] says.
    pub fn entrypoint(&self, run_id: &str) -> (r: Option<String>)
        ensures
            match (r, self.entrypoint_spec(run_id@)) {
                (Some(u), Some(v)) => u@ == v,
                (None, None) => true,
                _ => false,
            },
    {
        if !is_valid_segment(self.owner.as_str()) || !is_valid_segment(self.name.as_str())
            || !is_valid_segment(run_id) {
            return None;
        }
        let params = Params {
            per_page: Some(PAGE_SIZE_CAP),
            state: None,
            since: None,
            filter: Some(String::from_str("all")),
        };
        let q = params.to_query();
        let mut path = String::from_str("actions/runs/");
        path.append(run_id);
        path.append("/jobs");
        proof {
            assert(path@ =~= "actions/runs/"@ + run_id@ + "/jobs"@);
            assert(params.pairs_spec() =~= Self::job_query_pairs());
        }
        Some(build_repo_route(self.owner.as_str(), self.name.as_str(), path.as_str(), q.as_str()))
    }

    /// Flattens a batch of jobs in order, stamping the repository tag.
    pub fn map_items(&self, items: Vec<JobModel>) -> (r: Vec<JobRec>)
        ensures
            r@.len() == items@.len(),
            forall|i: int|
                0 <= i < items@.len() ==> (#[trigger] r@[i]).matches_model(
                    items@[i],
                    self.reponame_spec(),
                ),
    {
        let repo = self.reponame();
        let ghost orig = items@;
        let mut items = items;
        let mut recs: Vec<JobRec> = Vec::new();
        while items.len() > 0
            invariant
                recs@.len() + items@.len() == orig.len(),
                items@ =~= orig.skip(recs@.len() as int),
                repo@ == self.reponame_spec(),
                forall|i: int|
                    0 <= i < recs@.len() ==> (#[trigger] recs@[i]).matches_model(
                        orig[i],
                        self.reponame_spec(),
                    ),
            decreases items@.len(),
        {
            let ghost k = recs@.len() as int;
            let m = items.remove(0);
            recs.push(JobRec::from_model(m, &repo));
            proof {
                assert(m == orig[k]);
                assert(items@ =~= orig.skip(k + 1));
            }
        }
        recs
    }

    /// Maps one fetched page and decides continuation.
    pub fn map_page(&self, page: Page<JobModel>) -> (r: (Vec<JobRec>, Option<String>))
        ensures
            r.0@.len() == page.items@.len(),
            forall|i: int|
                0 <= i < page.items@.len() ==> (#[trigger] r.0@[i]).matches_model(
                    page.items@[i],
                    self.reponame_spec(),
                ),
            r.1 == page.next,
    {
        let keep = keep_following(&page.items, &self.threshold());
        let next = if keep {
            page.next
        } else {
            None
        };
        (self.map_items(page.items), next)
    }

    /// The whole walk over a fetched chain of pages.
    pub fn emit(&self, pages: Vec<Page<JobModel>>) -> (r: (Vec<JobRec>, usize))
        ensures
            r.0@.len() == emitted_items(pages@, self.threshold_spec()).len(),
            forall|i: int|
                0 <= i < r.0@.len() ==> (#[trigger] r.0@[i]).matches_model(
                    emitted_items(pages@, self.threshold_spec())[i],
                    self.reponame_spec(),
                ),
            r.1 as int == pages_walked(pages@, self.threshold_spec()),
    {
        let (items, fetched) = walk(pages, self.threshold());
        (self.map_items(items), fetched)
    }

    /// The nested traversal over one job-page chain per run, in run listing
    /// order: the output is run 0's jobs, then run 1's, and so on — jobs
    /// stay grouped by their owning run, with no interleaving.
    pub fn emit_grouped(&self, groups: Vec<Vec<Page<JobModel>>>) -> (r: Vec<JobRec>)
        ensures
            r@.len() == grouped_items(groups@).len(),
            forall|i: int|
                0 <= i < r@.len() ==> (#[trigger] r@[i]).matches_model(
                    grouped_items(groups@)[i],
                    self.reponame_spec(),
                ),
    {
        let ghost orig = groups@;
        let mut groups = groups;
        let mut out: Vec<JobRec> = Vec::new();
        let ghost mut done: Seq<JobModel> = Seq::empty();
        while groups.len() > 0
            invariant
                done + grouped_items(groups@) == grouped_items(orig),
                out@.len() == done.len(),
                forall|i: int|
                    0 <= i < done.len() ==> (#[trigger] out@[i]).matches_model(
                        done[i],
                        self.reponame_spec(),
                    ),
            decreases groups@.len(),
        {
            let ghost before = groups@;
            let ghost out_before = out@;
            let g = groups.remove(0);
            let ghost emitted = emitted_items(g@, None);
            let (mut recs, _pages) = self.emit(g);
            proof {
                assert(groups@ =~= before.drop_first());
                assert(grouped_items(before) == emitted + grouped_items(before.drop_first()));
            }
            out.append(&mut recs);
            proof {
                let prev = done;
                done = done + emitted;
                assert(done + grouped_items(groups@) =~= grouped_items(orig)) by {
                    assert((prev + emitted) + grouped_items(groups@) =~= prev + (emitted
                        + grouped_items(groups@)));
                };
                assert forall|i: int| 0 <= i < done.len() implies (#[trigger] out@[i]).matches_model(
                    done[i],
                    self.reponame_spec(),
                ) by {
                    if i < prev.len() {
                        assert(out@[i] == out_before[i]);
                        assert(done[i] == prev[i]);
                    } else {
                        assert(done[i] == emitted[i - prev.len()]);
                    }
                };
            }
        }
        proof {
            assert(grouped_items(groups@) =~= Seq::<JobModel>::empty());
            assert(done =~= grouped_items(orig));
        }
        out
    }
}

/// Fetch plan for the steps of one job, denormalized to one row per step.
pub struct JobStepFetcher {
    pub owner: String,
    pub name: String,
    pub job_id: String,
}

impl JobStepFetcher {
    pub fn new(owner: String, name: String, job_id: String) -> (r: Self)
        ensures
            r.owner@ == owner@,
            r.name@ == name@,
            r.job_id@ == job_id@,
    {
        JobStepFetcher { owner, name, job_id }
    }

    /// Steps take no since threshold; no cutoff applies.
    pub open spec fn threshold_spec(&self) -> Option<int> {
        None
    }

    pub fn threshold(&self) -> (r: Option<i64>)
        ensures
            opt_int(r) == self.threshold_spec(),
    {
        None
    }

    /// Maps one fetched page of jobs into denormalized step rows and decides
    /// continuation. `repo` is the tag to stamp, the fetcher's repository.
    pub fn map_page(&self, page: Page<JobModel>, repo: &String) -> (r: (
        Vec<JobStepRec>,
        Option<String>,
    ))
        ensures
            r.0@ == flat_step_recs(page.items@, *repo),
            r.1 == page.next,
    {
        let keep = keep_following(&page.items, &self.threshold());
        let next = if keep {
            page.next
        } else {
            None
        };
        (expand_steps(&page.items, repo), next)
    }
}

impl UrlConstructor for JobStepFetcher {
    open spec fn reponame_spec(&self) -> Seq<char> {
        reponame_of(self.owner@, self.name@)
    }

    open spec fn entrypoint_spec(&self) -> Option<Seq<char>> {
        if valid_segment(self.owner@) && valid_segment(self.name@) && valid_segment(self.job_id@) {
            Some(
                repo_route(
                    self.owner@,
                    self.name@,
                    "actions/jobs/"@ + self.job_id@,
                    urlencoded_of(
                        (Params {
                            per_page: Some(PAGE_SIZE_CAP),
                            state: None,
                            since: None,
                            filter: None,
                        }).pairs_spec(),
                    ),
                ),
            )
        } else {
            None
        }
    }

    fn reponame(&self) -> (r: String) {
        build_reponame(self.owner.as_str(), self.name.as_str())
    }

    fn entrypoint(&self) -> (r: Option<String>) {
        if !is_valid_segment(self.owner.as_str()) || !is_valid_segment(self.name.as_str())
            || !is_valid_segment(self.job_id.as_str()) {
            return None;
        }
        let params = Params {
            per_page: Some(PAGE_SIZE_CAP),
            state: None,
            since: None,
            filter: None,
        };
        let q = params.to_query();
        let mut path = String::from_str("actions/jobs/");
        path.append(self.job_id.as_str());
        proof {
            assert(path@ =~= "actions/jobs/"@ + self.job_id@);
        }
        Some(build_repo_route(self.owner.as_str(), self.name.as_str(), path.as_str(), q.as_str()))
    }
}

} // verus!
