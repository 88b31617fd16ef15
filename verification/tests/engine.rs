//! Walks over hand-built page chains: completeness without a cutoff, the
//! page-level early stop, and the walker's bounds.

use octx::comments::CommentModel;
use octx::events::{IssueEventFetcher, IssueEvent, IssueRef};
use octx::issues::{IssueFetcher, IssueModel};
use octx::model::UserRef;
use octx::pagination::{walk, Page};

fn mk_user(id: i64, login: &str) -> UserRef {
    UserRef {
        id,
        login: login.to_string(),
    }
}

fn mk_issue(id: i64, created_at: i64) -> IssueModel {
    IssueModel {
        id,
        node_id: format!("node{}", id),
        url: format!("https://api.example.test/issues/{}", id),
        repository_url: "https://api.example.test/repo".to_string(),
        labels_url: "https://api.example.test/labels".to_string(),
        comments_url: "https://api.example.test/comments".to_string(),
        events_url: "https://api.example.test/events".to_string(),
        html_url: format!("https://example.test/issues/{}", id),
        number: id,
        state: "open".to_string(),
        title: format!("issue {}", id),
        body: None,
        body_text: None,
        body_html: None,
        user: mk_user(7, "alice"),
        labels: vec![],
        assignee: None,
        assignees: vec![],
        author_association: "NONE".to_string(),
        milestone: None,
        locked: false,
        active_lock_reason: None,
        comments: 0,
        pull_request: None,
        closed_at: None,
        created_at,
        updated_at: created_at,
    }
}

fn mk_event(id: i64, created_at: i64) -> IssueEvent {
    IssueEvent {
        id: Some(id),
        node_id: None,
        url: None,
        actor: mk_user(3, "bob"),
        assignee: None,
        assigner: None,
        review_requester: None,
        requested_reviewer: None,
        label: None,
        milestone: None,
        project_card: None,
        event: Some("closed".to_string()),
        commit_id: None,
        commit_url: None,
        created_at,
        issue: IssueRef { id: 11 },
    }
}

#[test]
fn issue_walk_emits_all_pages_without_cutoff() {
    let mut ids: i64 = 0;
    let mut pages = Vec::new();
    for (size, next) in [
        (100usize, Some("u2".to_string())),
        (100, Some("u3".to_string())),
        (37, None),
    ] {
        let mut items = Vec::new();
        for _ in 0..size {
            items.push(mk_issue(ids, 1000 + ids));
            ids += 1;
        }
        pages.push(Page { items, next });
    }
    let fetcher = IssueFetcher::new("O".to_string(), "R".to_string(), None);
    let (recs, fetched) = fetcher.emit(pages);
    assert_eq!(recs.len(), 237);
    assert_eq!(fetched, 3);
    for rec in recs.iter() {
        assert_eq!(rec.sdc_repository, "O/R");
    }
    let mut seen = std::collections::HashSet::new();
    for (i, rec) in recs.iter().enumerate() {
        assert_eq!(rec.id, i as i64);
        assert!(seen.insert(rec.id));
    }
}

#[test]
fn event_walk_stops_after_stale_page_without_fetching_more() {
    // Stamps descend across pages; the threshold is newer than everything on
    // page two, so page one and page two are both fully emitted and the
    // third page is never walked.
    let page1 = Page {
        items: vec![mk_event(1, 100), mk_event(2, 90)],
        next: Some("p2".to_string()),
    };
    let page2 = Page {
        items: vec![mk_event(3, 80), mk_event(4, 70)],
        next: Some("p3".to_string()),
    };
    let page3 = Page {
        items: vec![mk_event(5, 60)],
        next: None,
    };
    let fetcher = IssueEventFetcher::new("O".to_string(), "R".to_string(), Some(85));
    let (recs, fetched) = fetcher.emit(vec![page1, page2, page3]);
    assert_eq!(fetched, 2);
    assert_eq!(recs.len(), 4);
    assert_eq!(
        recs.iter().map(|r| r.id.unwrap()).collect::<Vec<_>>(),
        vec![1, 2, 3, 4]
    );
}

#[test]
fn event_walk_continues_when_last_stamp_equals_threshold() {
    let page1 = Page {
        items: vec![mk_event(1, 85)],
        next: Some("p2".to_string()),
    };
    let page2 = Page {
        items: vec![mk_event(2, 84)],
        next: None,
    };
    let fetcher = IssueEventFetcher::new("O".to_string(), "R".to_string(), Some(85));
    let (recs, fetched) = fetcher.emit(vec![page1, page2]);
    assert_eq!(fetched, 2);
    assert_eq!(recs.len(), 2);
}

#[test]
fn event_page_without_items_stops_the_walk_under_a_threshold() {
    let page1 = Page {
        items: vec![],
        next: Some("p2".to_string()),
    };
    let page2 = Page {
        items: vec![mk_event(1, 50)],
        next: None,
    };
    let fetcher = IssueEventFetcher::new("O".to_string(), "R".to_string(), Some(10));
    let (recs, fetched) = fetcher.emit(vec![page1, page2]);
    assert_eq!(fetched, 1);
    assert_eq!(recs.len(), 0);
}

#[test]
fn walk_of_no_pages_fetches_nothing() {
    let (items, fetched) = walk::<CommentModel>(Vec::new(), None);
    assert!(items.is_empty());
    assert_eq!(fetched, 0);
}

#[test]
fn walk_stops_where_the_next_link_ends_mid_chain() {
    let page1 = Page {
        items: vec![mk_issue(1, 10)],
        next: None,
    };
    let page2 = Page {
        items: vec![mk_issue(2, 20)],
        next: None,
    };
    let (items, fetched) = walk(vec![page1, page2], None);
    assert_eq!(fetched, 1);
    assert_eq!(items.len(), 1);
    assert_eq!(items[0].id, 1);
}

#[test]
fn issue_map_page_follows_the_next_link() {
    let fetcher = IssueFetcher::new("O".to_string(), "R".to_string(), None);
    let page = Page {
        items: vec![mk_issue(1, 10)],
        next: Some("after".to_string()),
    };
    let (recs, next) = fetcher.map_page(page);
    assert_eq!(recs.len(), 1);
    assert_eq!(next, Some("after".to_string()));
}
