//! Flattening of single resources and the entrypoint routes.

use octx::comments::CommentFetcher;
use octx::commits::{CommitFetcher, Commit, CommitRec, GitCommit};
use octx::issues::{IssueFetcher, IssueModel, IssueRec};
use octx::labels::{LabelFetcher, LabelModel, LabelRec};
use octx::model::{GitUser, MilestoneRef, ParentRef, UserRef};
use octx::releases::{AssetRef, ReleaseFetcher, ReleaseModel, ReleaseRec};
use octx::users::{UserFetcher, UserModel, UserRec};
use octx::users_detailed::UserDetailedFetcher;
use octx::{RepositryAware, UrlConstructor};

fn mk_label(name: &str) -> LabelModel {
    LabelModel {
        id: 1,
        node_id: "n".to_string(),
        url: "u".to_string(),
        name: name.to_string(),
        description: None,
        color: "fff".to_string(),
        default: false,
    }
}

#[test]
fn issue_flattening_encodes_nested_fields() {
    let repo = "rust-lang/rust".to_string();
    let m = IssueModel {
        id: 42,
        node_id: "MDU6".to_string(),
        url: "https://api.example.test/issues/42".to_string(),
        repository_url: "ru".to_string(),
        labels_url: "lu".to_string(),
        comments_url: "cu".to_string(),
        events_url: "eu".to_string(),
        html_url: "hu".to_string(),
        number: 42,
        state: "open".to_string(),
        title: "title".to_string(),
        body: Some("body".to_string()),
        body_text: None,
        body_html: None,
        user: UserRef { id: 9, login: "alice".to_string() },
        labels: vec![mk_label("bug"), mk_label("p-high")],
        assignee: Some(UserRef { id: 5, login: "bob".to_string() }),
        assignees: vec![
            UserRef { id: 5, login: "bob".to_string() },
            UserRef { id: 6, login: "carol".to_string() },
        ],
        author_association: "MEMBER".to_string(),
        milestone: Some(MilestoneRef { title: "v1".to_string() }),
        locked: false,
        active_lock_reason: None,
        comments: 3,
        pull_request: None,
        closed_at: None,
        created_at: 100,
        updated_at: 200,
    };
    let r = IssueRec::from_model(m, &repo);
    assert_eq!(r.id, 42);
    assert_eq!(r.user_id, 9);
    assert_eq!(r.labels, "[\"bug\",\"p-high\"]");
    assert_eq!(r.assignee_id, Some(5));
    assert_eq!(r.assignees, "bob,carol");
    assert_eq!(r.milestone, Some("v1".to_string()));
    assert_eq!(r.comments, 3);
    assert_eq!(r.created_at, 100);
    assert_eq!(r.sdc_repository, "rust-lang/rust");
}

#[test]
fn commit_flattening_joins_parent_hashes_with_spaces() {
    let repo = "O/R".to_string();
    let m = Commit {
        url: Some("u".to_string()),
        sha: Some("abc".to_string()),
        node_id: Some("n".to_string()),
        html_url: None,
        comments_url: None,
        author: Some(UserRef { id: 1, login: "a".to_string() }),
        committer: None,
        commit: GitCommit {
            url: None,
            author: Some(GitUser {
                name: "A".to_string(),
                email: "a@example.test".to_string(),
                date: 11,
            }),
            committer: Some(GitUser {
                name: "B".to_string(),
                email: "b@example.test".to_string(),
                date: 22,
            }),
            message: Some("msg".to_string()),
            comment_count: 2,
        },
        parents: vec![
            ParentRef { sha: Some("p1".to_string()) },
            ParentRef { sha: None },
            ParentRef { sha: Some("p3".to_string()) },
        ],
    };
    let r = CommitRec::from_model(m, &repo);
    assert_eq!(r.sha, Some("abc".to_string()));
    assert_eq!(r.author_id, Some(1));
    assert_eq!(r.committer_id, None);
    assert_eq!(r.parents, "p1  p3");
    assert_eq!(r.authorized_at, Some(11));
    assert_eq!(r.committed_at, Some(22));
    assert_eq!(r.comment_count, 2);
    assert_eq!(r.sdc_repository, "O/R");
}

#[test]
fn release_flattening_renders_each_asset() {
    let repo = "O/R".to_string();
    let m = ReleaseModel {
        url: "u".to_string(),
        html_url: "h".to_string(),
        assets_url: "au".to_string(),
        upload_url: "uu".to_string(),
        tarball_url: "t".to_string(),
        zipball_url: "z".to_string(),
        id: 10,
        node_id: "n".to_string(),
        tag_name: "v1.0".to_string(),
        target_commitish: "main".to_string(),
        name: Some("first".to_string()),
        body: None,
        draft: false,
        prerelease: true,
        created_at: 50,
        published_at: 60,
        author: UserRef { id: 4, login: "rel".to_string() },
        assets: vec![
            AssetRef {
                id: 1,
                name: "x.tar.gz".to_string(),
                browser_download_url: "d1".to_string(),
            },
            AssetRef {
                id: 2,
                name: "x.zip".to_string(),
                browser_download_url: "d2".to_string(),
            },
        ],
    };
    let r = ReleaseRec::from_model(m, &repo);
    assert_eq!(r.author_id, 4);
    assert_eq!(r.assets, "1;x.tar.gz;d1,2;x.zip;d2");
    assert_eq!(r.prerelease, true);
    assert_eq!(r.sdc_repository, "O/R");
}

#[test]
fn label_rows_can_be_retagged() {
    let mut r = LabelRec::from_model(mk_label("bug"), &"a/b".to_string());
    assert_eq!(r.sdc_repository, "a/b");
    r.set_repository("c/d".to_string());
    assert_eq!(r.sdc_repository, "c/d");
    assert_eq!(r.name, "bug");
}

#[test]
fn user_rows_carry_no_repository_tag() {
    let m = UserModel {
        login: "alice".to_string(),
        id: 1,
        node_id: "n".to_string(),
        avatar_url: "a".to_string(),
        gravatar_id: "g".to_string(),
        url: "u".to_string(),
        html_url: "h".to_string(),
        followers_url: "f1".to_string(),
        following_url: "f2".to_string(),
        gists_url: "g2".to_string(),
        starred_url: "s".to_string(),
        subscriptions_url: "s2".to_string(),
        organizations_url: "o".to_string(),
        repos_url: "r".to_string(),
        events_url: "e".to_string(),
        received_events_url: "re".to_string(),
        type_field: "User".to_string(),
        site_admin: false,
    };
    let mut r = UserRec::from_model(m);
    let before_login = r.login.clone();
    r.set_repository("x/y".to_string());
    assert_eq!(r.login, before_login);
    assert_eq!(r.type_field, "User");
}

#[test]
fn issue_entrypoint_renders_state_and_since() {
    let f = IssueFetcher::new("rust-lang".to_string(), "rust".to_string(), Some(0));
    assert_eq!(
        f.entrypoint(),
        Some(
            "repos/rust-lang/rust/issues?per_page=100&state=all&since=1970-01-01T00%3A00%3A00Z"
                .to_string()
        )
    );
}

#[test]
fn issue_entrypoint_rejects_a_malformed_owner() {
    let f = IssueFetcher::new("bad owner".to_string(), "rust".to_string(), None);
    assert_eq!(f.entrypoint(), None);
}

#[test]
fn issue_entrypoint_rejects_an_unencodable_since() {
    let f = IssueFetcher::new("o".to_string(), "r".to_string(), Some(-1));
    assert_eq!(f.entrypoint(), None);
    let f = IssueFetcher::new("o".to_string(), "r".to_string(), Some(i64::MAX));
    assert_eq!(f.entrypoint(), None);
}

#[test]
fn comment_entrypoint_names_the_comment_listing() {
    let f = CommentFetcher::new("o".to_string(), "r".to_string(), None);
    assert_eq!(
        f.entrypoint(),
        Some("repos/o/r/issues/comments?per_page=100".to_string())
    );
    assert_eq!(f.reponame(), "o/r");
}

#[test]
fn commit_entrypoint_names_the_commit_listing() {
    let f = CommitFetcher::new("o".to_string(), "r".to_string(), Some(0));
    assert_eq!(
        f.entrypoint(),
        Some("repos/o/r/commits?per_page=100&since=1970-01-01T00%3A00%3A00Z".to_string())
    );
}

#[test]
fn label_and_release_entrypoints_name_their_listings() {
    let lf = LabelFetcher::new("o".to_string(), "r".to_string());
    assert_eq!(lf.entrypoint(), Some("repos/o/r/labels?per_page=100".to_string()));
    let rf = ReleaseFetcher::new("o".to_string(), "r".to_string());
    assert_eq!(rf.entrypoint(), Some("repos/o/r/releases?per_page=100".to_string()));
}

#[test]
fn account_entrypoints_are_account_scoped() {
    let uf = UserFetcher::new();
    assert_eq!(uf.entrypoint(), Some("users?per_page=100".to_string()));
    assert_eq!(uf.reponame(), "");
    let df = UserDetailedFetcher::new();
    assert_eq!(df.entrypoint(), Some("users?per_page=100".to_string()));
}

#[test]
fn detail_routes_follow_each_listed_account() {
    let df = UserDetailedFetcher::new();
    let mk = |login: &str, url: &str| UserModel {
        login: login.to_string(),
        id: 1,
        node_id: "n".to_string(),
        avatar_url: "a".to_string(),
        gravatar_id: "g".to_string(),
        url: url.to_string(),
        html_url: "h".to_string(),
        followers_url: "f1".to_string(),
        following_url: "f2".to_string(),
        gists_url: "g2".to_string(),
        starred_url: "s".to_string(),
        subscriptions_url: "s2".to_string(),
        organizations_url: "o".to_string(),
        repos_url: "r".to_string(),
        events_url: "e".to_string(),
        received_events_url: "re".to_string(),
        type_field: "User".to_string(),
        site_admin: false,
    };
    let users = vec![mk("a", "users/a"), mk("b", "users/b")];
    assert_eq!(
        df.detail_routes(&users),
        vec!["users/a".to_string(), "users/b".to_string()]
    );
}
