//! Pull-request files and reviews: marking, the two-phase review fetch, and
//! the pull-level cutoff.

use octx::commits::{Commit, GitCommit};
use octx::model::{GitUser, ParentRef, UserRef};
use octx::pagination::Page;
use octx::pulls::{
    git_user_json, mark_files, PrCommitRec, PullFileFetcher, PullRequest, PullRequestFile,
};
use octx::reviews::{Review, ReviewFetcher, PullRequest as ReviewPull};

fn mk_pull(number: u64, updated_at: Option<i64>) -> PullRequest {
    PullRequest {
        url: format!("pulls/{}", number),
        id: number,
        number,
        node_id: "n".to_string(),
        created_at: 1,
        updated_at,
    }
}

fn mk_file(name: &str) -> PullRequestFile {
    PullRequestFile {
        sha: Some("s".to_string()),
        filename: Some(name.to_string()),
        additions: 1,
        deletions: 2,
        changes: 3,
        blob_url: None,
        raw_url: None,
        contents_url: None,
        patch: Some("@@".to_string()),
        pull_request_number: None,
        sdc_repository: None,
    }
}

fn mk_review(id: u64) -> Review {
    Review {
        id,
        node_id: "n".to_string(),
        html_url: "h".to_string(),
        user: UserRef { id: 8, login: "rev".to_string() },
        body: Some("thanks".to_string()),
        commit_id: None,
        state: Some("APPROVED".to_string()),
        pull_request_url: None,
        submitted_at: Some(12),
        author_association: None,
    }
}

#[test]
fn marking_fills_the_number_and_tag_and_nothing_else() {
    let files = vec![mk_file("a.rs"), mk_file("b.rs")];
    let marked = mark_files(files, 7, &"O/R".to_string());
    assert_eq!(marked.len(), 2);
    for f in marked.iter() {
        assert_eq!(f.pull_request_number, Some(7));
        assert_eq!(f.sdc_repository, Some("O/R".to_string()));
        assert_eq!(f.additions, 1);
        assert_eq!(f.patch, Some("@@".to_string()));
    }
    assert_eq!(marked[0].filename, Some("a.rs".to_string()));
    assert_eq!(marked[1].filename, Some("b.rs".to_string()));
}

#[test]
fn the_file_walk_emits_each_pulls_files_in_pull_order() {
    let f = PullFileFetcher::new("O".to_string(), "R".to_string(), None);
    let pages = vec![Page {
        items: vec![mk_pull(1, Some(100)), mk_pull(2, Some(90))],
        next: None,
    }];
    let files = vec![vec![mk_file("a.rs")], vec![mk_file("b.rs"), mk_file("c.rs")]];
    let repo = f.reponame();
    let rows = f.emit(pages, files, &repo);
    assert_eq!(rows.len(), 3);
    assert_eq!(
        rows.iter()
            .map(|r| r.pull_request_number.unwrap())
            .collect::<Vec<_>>(),
        vec![1, 2, 2]
    );
    assert_eq!(rows[2].filename, Some("c.rs".to_string()));
}

#[test]
fn the_pull_walk_stops_after_a_stale_page() {
    let f = PullFileFetcher::new("O".to_string(), "R".to_string(), Some(95));
    let page1 = Page {
        items: vec![mk_pull(1, Some(100)), mk_pull(2, Some(90))],
        next: Some("p2".to_string()),
    };
    let (numbers, next) = f.map_page(page1);
    assert_eq!(numbers, vec![1, 2]);
    assert_eq!(next, None);
}

#[test]
fn a_pull_without_update_time_falls_back_to_creation_time() {
    let f = PullFileFetcher::new("O".to_string(), "R".to_string(), Some(95));
    let page = Page {
        items: vec![mk_pull(1, None)],
        next: Some("p2".to_string()),
    };
    // created_at is 1, older than the threshold: the walk stops.
    let (_numbers, next) = f.map_page(page);
    assert_eq!(next, None);
}

#[test]
fn pull_entrypoints_ask_for_descending_update_order() {
    let f = PullFileFetcher::new("o".to_string(), "r".to_string(), None);
    assert_eq!(
        f.entrypoint(),
        Some("repos/o/r/pulls?per_page=100&state=all&sort=updated&direction=desc".to_string())
    );
    assert_eq!(f.files_route(7), Some("repos/o/r/pulls/7/files".to_string()));
    let rf = ReviewFetcher::new("o".to_string(), "r".to_string(), None);
    assert_eq!(
        rf.entrypoint(),
        Some("repos/o/r/pulls?per_page=100&state=all&sort=updated&direction=desc".to_string())
    );
    assert_eq!(
        rf.reviews_route(7),
        Some("repos/o/r/pulls/7/reviews?per_page=100".to_string())
    );
}

#[test]
fn a_git_signature_renders_as_a_json_object() {
    let g = GitUser {
        name: "n".to_string(),
        email: "e".to_string(),
        date: 3,
    };
    assert_eq!(git_user_json(&g), "{\"name\":\"n\",\"email\":\"e\",\"date\":3}");
}

#[test]
fn a_pull_commit_keeps_the_whole_signatures_as_json() {
    let m = Commit {
        url: None,
        sha: Some("abc".to_string()),
        node_id: None,
        html_url: None,
        comments_url: None,
        author: None,
        committer: Some(UserRef { id: 2, login: "c".to_string() }),
        commit: GitCommit {
            url: None,
            author: Some(GitUser {
                name: "A".to_string(),
                email: "a@example.test".to_string(),
                date: 7,
            }),
            committer: None,
            message: None,
            comment_count: 0,
        },
        parents: vec![ParentRef { sha: Some("p".to_string()) }],
    };
    let r = PrCommitRec::from_model(m, &"O/R".to_string());
    assert_eq!(
        r.author,
        Some("{\"name\":\"A\",\"email\":\"a@example.test\",\"date\":7}".to_string())
    );
    assert_eq!(r.committer, None);
    assert_eq!(r.committer_id, Some(2));
    assert_eq!(r.parents, "p");
    assert_eq!(r.pull_request_number, None);
}

#[test]
fn collecting_pull_numbers_respects_the_cutoff() {
    let f = ReviewFetcher::new("O".to_string(), "R".to_string(), Some(95));
    let mk = |number: u64, updated: i64| ReviewPull {
        number,
        created_at: 1,
        updated_at: Some(updated),
    };
    let pages = vec![
        Page {
            items: vec![mk(1, 100), mk(2, 96)],
            next: Some("p2".to_string()),
        },
        Page {
            items: vec![mk(3, 90)],
            next: Some("p3".to_string()),
        },
        Page {
            items: vec![mk(4, 80)],
            next: None,
        },
    ];
    let (numbers, fetched) = f.collect_pull_numbers(pages);
    assert_eq!(numbers, vec![1, 2, 3]);
    assert_eq!(fetched, 2);
}

#[test]
fn reviews_are_marked_with_their_pulls_number() {
    let f = ReviewFetcher::new("O".to_string(), "R".to_string(), None);
    let pages = vec![
        Page {
            items: vec![mk_review(1), mk_review(2)],
            next: Some("p2".to_string()),
        },
        Page {
            items: vec![mk_review(3)],
            next: None,
        },
    ];
    let (rows, fetched) = f.emit_reviews(7, pages);
    assert_eq!(fetched, 2);
    assert_eq!(rows.len(), 3);
    for row in rows.iter() {
        assert_eq!(row.pull_request_number, Some(7));
        assert_eq!(row.sdc_repository, "O/R");
        assert_eq!(row.user_id, 8);
    }
    assert_eq!(rows.iter().map(|r| r.id).collect::<Vec<_>>(), vec![1, 2, 3]);
}
