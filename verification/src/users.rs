//! The account listing: model, flat record, and fetcher. Accounts are not
//! scoped to a repository: the repository tag is empty and stamping it is a
//! no-op.

use vstd::prelude::*;

use crate::encode::urlencoded_of;
use crate::pagination::{
    emitted_items, keep_following, opt_int, page_continues, pages_walked, walk, Page, Stamped,
};
use crate::{Params, RepositryAware, UrlConstructor, PAGE_SIZE_CAP};

verus! {

/// One account as the listing endpoint returns it. The platform calls the
/// account's kind `type`; that keyword cannot name a field here, so it is
/// held as `type_field`.
pub struct UserModel {
    pub login: String,
    pub id: i64,
    pub node_id: String,
    pub avatar_url: String,
    pub gravatar_id: String,
    pub url: String,
    pub html_url: String,
    pub followers_url: String,
    pub following_url: String,
    pub gists_url: String,
    pub starred_url: String,
    pub subscriptions_url: String,
    pub organizations_url: String,
    pub repos_url: String,
    pub events_url: String,
    pub received_events_url: String,
    pub type_field: String,
    pub site_admin: bool,
}

impl Stamped for UserModel {
    /// Accounts carry no timestamp; they never stop a walk.
    open spec fn stamp(&self) -> Option<int> {
        None
    }

    fn cutoff_stamp(&self) -> (r: Option<i64>) {
        None
    }
}

/// The flat row of one account.
pub struct UserRec {
    pub login: String,
    pub id: i64,
    pub node_id: String,
    pub avatar_url: String,
    pub gravatar_id: String,
    pub url: String,
    pub html_url: String,
    pub followers_url: String,
    pub following_url: String,
    pub gists_url: String,
    pub starred_url: String,
    pub subscriptions_url: String,
    pub organizations_url: String,
    pub repos_url: String,
    pub events_url: String,
    pub received_events_url: String,
    pub type_field: String,
    pub site_admin: bool,
}

impl UserRec {
    /// The flattening contract: every field copied unchanged.
    pub open spec fn matches_model(self, m: UserModel) -> bool {
        &&& self.login@ == m.login@
        &&& self.id == m.id
        &&& self.node_id@ == m.node_id@
        &&& self.avatar_url@ == m.avatar_url@
        &&& self.gravatar_id@ == m.gravatar_id@
        &&& self.url@ == m.url@
        &&& self.html_url@ == m.html_url@
        &&& self.followers_url@ == m.followers_url@
        &&& self.following_url@ == m.following_url@
        &&& self.gists_url@ == m.gists_url@
        &&& self.starred_url@ == m.starred_url@
        &&& self.subscriptions_url@ == m.subscriptions_url@
        &&& self.organizations_url@ == m.organizations_url@
        &&& self.repos_url@ == m.repos_url@
        &&& self.events_url@ == m.events_url@
        &&& self.received_events_url@ == m.received_events_url@
        &&& self.type_field@ == m.type_field@
        &&& self.site_admin == m.site_admin
    }

    /// Flattens one account, as [`UserRec::matches_model`] says.
    pub fn from_model(m: UserModel) -> (r: UserRec)
        ensures
            r.matches_model(m),
    {
        UserRec {
            login: m.login,
            id: m.id,
            node_id: m.node_id,
            avatar_url: m.avatar_url,
            gravatar_id: m.gravatar_id,
            url: m.url,
            html_url: m.html_url,
            followers_url: m.followers_url,
            following_url: m.following_url,
            gists_url: m.gists_url,
            starred_url: m.starred_url,
            subscriptions_url: m.subscriptions_url,
            organizations_url: m.organizations_url,
            repos_url: m.repos_url,
            events_url: m.events_url,
            received_events_url: m.received_events_url,
            type_field: m.type_field,
            site_admin: m.site_admin,
        }
    }
}

impl RepositryAware for UserRec {
    /// Accounts carry no repository tag: stamping leaves them unchanged.
    open spec fn repository_set(old_rec: Self, new_rec: Self, name: Seq<char>) -> bool {
        new_rec == old_rec
    }

    fn set_repository(&mut self, name: String) {
    }
}

/// Fetch plan for the account listing.
pub struct UserFetcher {
}

impl UserFetcher {
    pub fn new() -> (r: Self) {
        UserFetcher {  }
    }

    /// Accounts take no since threshold; no cutoff applies.
    pub open spec fn threshold_spec(&self) -> Option<int> {
        None
    }

    pub fn threshold(&self) -> (r: Option<i64>)
        ensures
            opt_int(r) == self.threshold_spec(),
    {
        None
    }

    /// Flattens a batch of accounts in order.
    pub fn map_items(&self, items: Vec<UserModel>) -> (r: Vec<UserRec>)
        ensures
            r@.len() == items@.len(),
            forall|i: int|
                0 <= i < items@.len() ==> (#[trigger] r@[i]).matches_model(items@[i]),
    {
        let ghost orig = items@;
        let mut items = items;
        let mut recs: Vec<UserRec> = Vec::new();
        while items.len() > 0
            invariant
                recs@.len() + items@.len() == orig.len(),
                items@ =~= orig.skip(recs@.len() as int),
                forall|i: int|
                    0 <= i < recs@.len() ==> (#[trigger] recs@[i]).matches_model(orig[i]),
            decreases items@.len(),
        {
            let ghost k = recs@.len() as int;
            let m = items.remove(0);
            recs.push(UserRec::from_model(m));
            proof {
                assert(m == orig[k]);
                assert(items@ =~= orig.skip(k + 1));
            }
        }
        recs
    }

    /// Maps one fetched page and decides continuation.
    pub fn map_page(&self, page: Page<UserModel>) -> (r: (Vec<UserRec>, Option<String>))
        ensures
            r.0@.len() == page.items@.len(),
            forall|i: int|
                0 <= i < page.items@.len() ==> (#[trigger] r.0@[i]).matches_model(page.items@[i]),
            r.1 == page.next,
    {
        let keep = keep_following(&page.items, &self.threshold());
        let next = if keep {
            page.next
        } else {
            None
        };
        (self.map_items(page.items), next)
    }

    /// The whole walk over a fetched chain of pages.
    pub fn emit(&self, pages: Vec<Page<UserModel>>) -> (r: (Vec<UserRec>, usize))
        ensures
            r.0@.len() == emitted_items(pages@, self.threshold_spec()).len(),
            forall|i: int|
                0 <= i < r.0@.len() ==> (#[trigger] r.0@[i]).matches_model(
                    emitted_items(pages@, self.threshold_spec())[i],
                ),
            r.1 as int == pages_walked(pages@, self.threshold_spec()),
    {
        let (items, fetched) = walk(pages, self.threshold());
        (self.map_items(items), fetched)
    }
}

impl UrlConstructor for UserFetcher {
    /// Accounts are not repository-scoped: the tag is empty.
    open spec fn reponame_spec(&self) -> Seq<char> {
        Seq::empty()
    }

    open spec fn entrypoint_spec(&self) -> Option<Seq<char>> {
        Some(
            "users?"@ + urlencoded_of(
                (Params {
                    per_page: Some(PAGE_SIZE_CAP),
                    state: None,
                    since: None,
                    filter: None,
                }).pairs_spec(),
            ),
        )
    }

    fn reponame(&self) -> (r: String) {
        String::new()
    }

    fn entrypoint(&self) -> (r: Option<String>) {
        let params = Params {
            per_page: Some(PAGE_SIZE_CAP),
            state: None,
            since: None,
            filter: None,
        };
        let q = params.to_query();
        let mut route = String::from_str("users?");
        route.append(q.as_str());
        proof {
            assert(route@ =~= "users?"@ + urlencoded_of(params.pairs_spec()));
        }
        Some(route)
    }
}

} // verus!
