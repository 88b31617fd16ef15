//! The workflow -> run -> job -> step tree: step denormalization, the steps
//! JSON text, and the nested traversals' grouping.

use octx::pagination::Page;
use octx::workflows::{
    expand_steps, step_json, steps_json, JobFetcher, JobModel, JobStepFetcher, JobStepsRec,
    RunFetcher, Run, StepRef, WorkFlowFetcher, WorkFlowModel,
};
use octx::{RepositryAware, UrlConstructor};

fn mk_step(name: &str, number: i64) -> StepRef {
    StepRef {
        name: name.to_string(),
        status: "completed".to_string(),
        conclusion: Some("success".to_string()),
        number,
        started_at: 100 + number,
        completed_at: Some(200 + number),
    }
}

fn mk_job(id: i64, run_id: i64, steps: Vec<StepRef>) -> JobModel {
    JobModel {
        id,
        run_id,
        node_id: format!("J{}", id),
        head_sha: "abc".to_string(),
        status: "completed".to_string(),
        conclusion: Some("success".to_string()),
        started_at: 10,
        completed_at: Some(20),
        name: format!("job{}", id),
        url: "u".to_string(),
        html_url: "h".to_string(),
        run_url: "ru".to_string(),
        check_run_url: "cu".to_string(),
        steps,
    }
}

fn mk_run(id: i64, workflow_id: i64) -> Run {
    Run {
        id,
        workflow_id,
        node_id: format!("R{}", id),
        name: "ci".to_string(),
        head_branch: "main".to_string(),
        head_sha: "abc".to_string(),
        run_number: id,
        event: "push".to_string(),
        status: "completed".to_string(),
        conclusion: None,
        created_at: 10,
        updated_at: 20,
        url: "u".to_string(),
        html_url: "h".to_string(),
    }
}

#[test]
fn a_job_with_three_steps_expands_to_three_rows() {
    let job = mk_job(5, 9, vec![mk_step("a", 1), mk_step("b", 2), mk_step("c", 3)]);
    let repo = "O/R".to_string();
    let rows = JobStepsRec::from_model(&job, &repo);
    assert_eq!(rows.0.len(), 3);
    let numbers: Vec<i64> = rows.0.iter().map(|r| r.number).collect();
    assert_eq!(numbers, vec![1, 2, 3]);
    for row in rows.0.iter() {
        assert_eq!(row.job_id, 5);
        assert_eq!(row.run_id, 9);
        assert_eq!(row.job_name, "job5");
        assert_eq!(row.head_sha, "abc");
        assert_eq!(row.sdc_repository, "O/R");
    }
    assert_eq!(rows.0[0].name, "a");
    assert_eq!(rows.0[2].name, "c");
}

#[test]
fn a_job_without_steps_expands_to_no_rows() {
    let job = mk_job(5, 9, vec![]);
    let rows = JobStepsRec::from_model(&job, &"O/R".to_string());
    assert_eq!(rows.0.len(), 0);
}

#[test]
fn step_rows_can_be_retagged_together() {
    let job = mk_job(5, 9, vec![mk_step("a", 1), mk_step("b", 2)]);
    let mut rows = JobStepsRec::from_model(&job, &"O/R".to_string());
    rows.set_repository("x/y".to_string());
    for row in rows.0.iter() {
        assert_eq!(row.sdc_repository, "x/y");
    }
    assert_eq!(rows.0[1].name, "b");
}

#[test]
fn one_step_renders_as_a_json_object() {
    let s = StepRef {
        name: "build".to_string(),
        status: "completed".to_string(),
        conclusion: Some("success".to_string()),
        number: 1,
        started_at: 5,
        completed_at: None,
    };
    assert_eq!(
        step_json(&s),
        "{\"name\":\"build\",\"status\":\"completed\",\"conclusion\":\"success\",\
         \"number\":1,\"started_at\":5,\"completed_at\":null}"
    );
}

#[test]
fn steps_render_as_a_json_array() {
    assert_eq!(steps_json(&vec![]), "[]");
    let steps = vec![mk_step("a", 1), mk_step("b", 2)];
    let text = steps_json(&steps);
    assert!(text.starts_with("[{\"name\":\"a\""));
    assert!(text.contains("},{\"name\":\"b\""));
    assert!(text.ends_with("}]"));
}

#[test]
fn a_job_row_keeps_its_steps_as_json_text() {
    let f = JobFetcher::new("O".to_string(), "R".to_string());
    let job = mk_job(5, 9, vec![mk_step("a", 1)]);
    let recs = f.map_items(vec![job]);
    assert_eq!(recs.len(), 1);
    assert_eq!(
        recs[0].steps,
        "[{\"name\":\"a\",\"status\":\"completed\",\"conclusion\":\"success\",\
         \"number\":1,\"started_at\":101,\"completed_at\":201}]"
    );
    assert_eq!(recs[0].sdc_repository, "O/R");
}

#[test]
fn runs_are_emitted_grouped_by_their_owning_workflow() {
    // Workflows W1 (id 1) with runs [r1, r2] and W2 (id 2) with run [r3]:
    // the emitted rows are r1, r2, r3, each carrying its owner's id.
    let f = RunFetcher::new("O".to_string(), "R".to_string());
    let group1 = vec![Page {
        items: vec![mk_run(101, 1), mk_run(102, 1)],
        next: None,
    }];
    let group2 = vec![Page {
        items: vec![mk_run(103, 2)],
        next: None,
    }];
    let rows = f.emit_grouped(vec![group1, group2]);
    assert_eq!(rows.len(), 3);
    assert_eq!(
        rows.iter().map(|r| r.id).collect::<Vec<_>>(),
        vec![101, 102, 103]
    );
    assert_eq!(
        rows.iter().map(|r| r.workflow_id).collect::<Vec<_>>(),
        vec![1, 1, 2]
    );
}

#[test]
fn jobs_are_emitted_grouped_by_their_owning_run() {
    let f = JobFetcher::new("O".to_string(), "R".to_string());
    let group1 = vec![Page {
        items: vec![mk_job(11, 1, vec![]), mk_job(12, 1, vec![])],
        next: None,
    }];
    let group2 = vec![Page {
        items: vec![mk_job(13, 2, vec![])],
        next: None,
    }];
    let rows = f.emit_grouped(vec![group1, group2]);
    assert_eq!(rows.iter().map(|r| r.id).collect::<Vec<_>>(), vec![11, 12, 13]);
    assert_eq!(rows.iter().map(|r| r.run_id).collect::<Vec<_>>(), vec![1, 1, 2]);
}

#[test]
fn expanding_two_jobs_keeps_their_blocks_in_order() {
    let jobs = vec![
        mk_job(1, 7, vec![mk_step("a", 1), mk_step("b", 2)]),
        mk_job(2, 7, vec![mk_step("c", 1)]),
    ];
    let rows = expand_steps(&jobs, &"O/R".to_string());
    assert_eq!(rows.len(), 3);
    assert_eq!(rows[0].job_id, 1);
    assert_eq!(rows[1].job_id, 1);
    assert_eq!(rows[2].job_id, 2);
    assert_eq!(rows[2].name, "c");
}

#[test]
fn workflow_rows_copy_every_field() {
    let f = WorkFlowFetcher::new("O".to_string(), "R".to_string());
    let m = WorkFlowModel {
        id: 3,
        node_id: "W3".to_string(),
        name: "ci".to_string(),
        path: ".github/workflows/ci.yml".to_string(),
        state: "active".to_string(),
        created_at: 1,
        updated_at: 2,
        url: "u".to_string(),
        html_url: "h".to_string(),
        badge_url: "b".to_string(),
    };
    let models = vec![m];
    let ids = f.collect_ids(&models);
    assert_eq!(ids, vec![3]);
    let recs = f.map_items(models);
    assert_eq!(recs[0].id, 3);
    assert_eq!(recs[0].badge_url, "b");
    assert_eq!(recs[0].sdc_repository, "O/R");
}

#[test]
fn action_entrypoints_name_their_listings() {
    let wf = WorkFlowFetcher::new("o".to_string(), "r".to_string());
    assert_eq!(
        wf.entrypoint(),
        Some("repos/o/r/actions/workflows?per_page=100".to_string())
    );
    let rf = RunFetcher::new("o".to_string(), "r".to_string());
    assert_eq!(
        rf.entrypoint(None),
        Some("repos/o/r/actions/runs?per_page=100".to_string())
    );
    assert_eq!(
        rf.entrypoint(Some("ci.yml".to_string())),
        Some("repos/o/r/actions/workflows/ci.yml/runs?per_page=100".to_string())
    );
    assert_eq!(rf.entrypoint(Some("a b".to_string())), None);
    let jf = JobFetcher::new("o".to_string(), "r".to_string());
    assert_eq!(
        jf.entrypoint("42"),
        Some("repos/o/r/actions/runs/42/jobs?per_page=100&filter=all".to_string())
    );
    let sf = JobStepFetcher::new("o".to_string(), "r".to_string(), "9".to_string());
    assert_eq!(
        sf.entrypoint(),
        Some("repos/o/r/actions/jobs/9?per_page=100".to_string())
    );
}
