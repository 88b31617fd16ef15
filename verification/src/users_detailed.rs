//! The detailed account export: the account listing is walked page by page,
//! and for every listed account its own resource is fetched at the `url` the
//! listing gave, then written out as it is. The engine's part is the
//! entrypoint and the choice of detail routes; the per-account fetch is one
//! request each, decided here, performed outside.

use vstd::prelude::*;

use crate::encode::urlencoded_of;
use crate::text::seq_views;
use crate::users::UserModel;
use crate::{Params, UrlConstructor, PAGE_SIZE_CAP};

verus! {

/// One account with its detail fields, as the per-account endpoint returns
/// it; it is written out unchanged, so no flat record stands beside it. The
/// platform calls the account's kind `type`; that keyword cannot name a
/// field here, so it is held as `type_field`.
pub struct UserDeailed {
    pub login: String,
    pub id: i64,
    pub node_id: String,
    pub avatar_url: String,
    pub gravatar_id: String,
    pub url: String,
    pub html_url: String,
    pub followers_url: String,
    pub following_url: String,
    pub gists_url: String,
    pub starred_url: String,
    pub subscriptions_url: String,
    pub organizations_url: String,
    pub repos_url: String,
    pub events_url: String,
    pub received_events_url: String,
    pub type_field: String,
    pub site_admin: bool,
    pub name: Option<String>,
    pub email: Option<String>,
    pub twitter_username: Option<String>,
    pub created_at: i64,
    pub updated_at: i64,
}

/// Fetch plan for the detailed account export.
pub struct UserDetailedFetcher {
}

impl UserDetailedFetcher {
    pub fn new() -> (r: Self) {
        UserDetailedFetcher {  }
    }

    /// The detail route of every listed account, in listing order: each
    /// account's own `url`.
    pub fn detail_routes(&self, users: &Vec<UserModel>) -> (r: Vec<String>)
        ensures
            seq_views(r@) == users@.map_values(|u: UserModel| u.url@),
    {
        let mut routes: Vec<String> = Vec::new();
        let mut i: usize = 0;
        while i < users.len()
            invariant
                i <= users@.len(),
                routes@.len() == i,
                forall|j: int| 0 <= j < i ==> (#[trigger] routes@[j])@ == users@[j].url@,
            decreases users@.len() - i,
        {
            routes.push(users[i].url.clone());
            i = i + 1;
        }
        proof {
            assert(seq_views(routes@) =~= users@.map_values(|u: UserModel| u.url@));
        }
        routes
    }
}

impl UrlConstructor for UserDetailedFetcher {
    /// Accounts are not repository-scoped: the tag is empty.
    open spec fn reponame_spec(&self) -> Seq<char> {
        Seq::empty()
    }

    open spec fn entrypoint_spec(&self) -> Option<Seq<char>> {
        Some(
            "users?"@ + urlencoded_of(
                (Params {
                    per_page: Some(PAGE_SIZE_CAP),
                    state: None,
                    since: None,
                    filter: None,
                }).pairs_spec(),
            ),
        )
    }

    fn reponame(&self) -> (r: String) {
        String::new()
    }

    fn entrypoint(&self) -> (r: Option<String>) {
        let params = Params {
            per_page: Some(PAGE_SIZE_CAP),
            state: None,
            since: None,
            filter: None,
        };
        let q = params.to_query();
        let mut route = String::from_str("users?");
        route.append(q.as_str());
        proof {
            assert(route@ =~= "users?"@ + urlencoded_of(params.pairs_spec()));
        }
        Some(route)
    }
}

} // verus!
