//! Verified extraction engine for a hosted source-control platform's REST API:
//! cursor-based pagination with an incremental "since" cutoff, flattening of
//! nested resources into flat CSV-ready records, and nested traversal of
//! workflow -> run -> job (-> step) trees.
//!
//! The engine itself never touches the network: it builds entrypoint routes,
//! turns fetched pages into flat records, and decides after each page whether
//! the next link is followed. The surrounding application performs the
//! fetches and writes the records out.

pub mod comments;
pub mod commits;
pub mod encode;
pub mod events;
pub mod issues;
pub mod labels;
pub mod model;
pub mod pagination;
pub mod pulls;
pub mod releases;
pub mod reviews;
pub mod text;
pub mod users;
pub mod users_detailed;
pub mod workflows;

use vstd::prelude::*;

use crate::encode::{form_urlencode, rfc3339_of, rfc3339_utc, urlencoded_of, pair_views,
    MAX_RENDERED_TIMESTAMP};
use crate::text::{dec_nat_spec, dec_of_u64};

verus! {

/// State filter accepted by listing endpoints.
#[derive(Clone, Copy, Debug, PartialEq, Eq, Structural)]
pub enum StateFilter {
    All,
    Open,
    Closed,
}

impl StateFilter {
    /// The query-string value for this filter.
    pub open spec fn text_spec(self) -> Seq<char> {
        match self {
            StateFilter::All => "all"@,
            StateFilter::Open => "open"@,
            StateFilter::Closed => "closed"@,
        }
    }

    pub fn text(self) -> (r: &'static str)
        ensures
            r@ == self.text_spec(),
    {
        match self {
            StateFilter::All => "all",
            StateFilter::Open => "open",
            StateFilter::Closed => "closed",
        }
    }
}

/// The query parameters of an entrypoint URL. Absent fields are left out of
/// the query string; the fields present are written in a fixed order:
/// `per_page`, `state`, `since`, `filter`.
pub struct Params {
    pub per_page: Option<u8>,
    pub state: Option<StateFilter>,
    pub since: Option<i64>,
    pub filter: Option<String>,
}

/// The platform's hard cap on a page size.
pub const PAGE_SIZE_CAP: u8 = 100;

impl Params {
    /// A requested page size, clamped to the platform's cap.
    pub open spec fn clamped_page(pp: u8) -> u8 {
        if pp > PAGE_SIZE_CAP {
            PAGE_SIZE_CAP
        } else {
            pp
        }
    }

    /// The key/value pairs of the query string, in their fixed order.
    pub open spec fn pairs_spec(self) -> Seq<(Seq<char>, Seq<char>)> {
        let s0 = Seq::<(Seq<char>, Seq<char>)>::empty();
        let s1 = match self.per_page {
            Some(pp) => s0.push(("per_page"@, dec_nat_spec(Self::clamped_page(pp) as int))),
            None => s0,
        };
        let s2 = match self.state {
            Some(st) => s1.push(("state"@, st.text_spec())),
            None => s1,
        };
        let s3 = match self.since {
            Some(t) => s2.push(("since"@, rfc3339_of(t as int))),
            None => s2,
        };
        match self.filter {
            Some(f) => s3.push(("filter"@, f@)),
            None => s3,
        }
    }

    /// Whether the since timestamp, if any, can be encoded in the platform's
    /// date format (a four-digit year).
    pub open spec fn since_ok(self) -> bool {
        match self.since {
            None => true,
            Some(t) => 0 <= t < MAX_RENDERED_TIMESTAMP as int,
        }
    }

    /// The canonical, order-stable query string: the pairs of
    /// [`Params::pairs_spec`], form-urlencoded. A page size above the
    /// platform's cap is clamped to the cap.
    pub fn to_query(&self) -> (r: String)
        requires
            self.since_ok(),
        ensures
            r@ == urlencoded_of(self.pairs_spec()),
    {
        let mut pairs: Vec<(String, String)> = Vec::new();
        if let Some(pp) = self.per_page {
            let capped: u8 = if pp > PAGE_SIZE_CAP {
                PAGE_SIZE_CAP
            } else {
                pp
            };
            pairs.push((String::from_str("per_page"), dec_of_u64(capped as u64)));
        }
        if let Some(st) = self.state {
            pairs.push((String::from_str("state"), String::from_str(st.text())));
        }
        if let Some(t) = self.since {
            pairs.push((String::from_str("since"), rfc3339_utc(t)));
        }
        if let Some(f) = &self.filter {
            pairs.push((String::from_str("filter"), f.clone()));
        }
        let r = form_urlencode(&pairs);
        proof {
            assert(pair_views(pairs@) =~= self.pairs_spec());
        }
        r
    }
}

impl Default for Params {
    /// The default parameters: the full page size, nothing else.
    fn default() -> (r: Self)
        ensures
            r.per_page == Some(PAGE_SIZE_CAP),
            r.state is None,
            r.since is None,
            r.filter is None,
    {
        Params { per_page: Some(PAGE_SIZE_CAP), state: None, since: None, filter: None }
    }
}

/// A record that carries the repository tag of the repository it was
/// extracted from.
pub trait RepositryAware: Sized {
    /// What stamping the tag does to this record type: the tag holds the
    /// given name and nothing else changes (account-scoped records carry no
    /// tag and stay unchanged).
    spec fn repository_set(old_rec: Self, new_rec: Self, name: Seq<char>) -> bool;

    /// Stamps the repository tag, as the implementing record's
    /// [`RepositryAware::repository_set`] says.
    fn set_repository(&mut self, name: String)
        ensures
            Self::repository_set(*old(self), *final(self), name@),
    ;
}

/// A resource path under one repository:
/// `repos/{owner}/{repo}/{path}?{query}`.
pub open spec fn repo_route(
    owner: Seq<char>,
    name: Seq<char>,
    path: Seq<char>,
    query: Seq<char>,
) -> Seq<char> {
    "repos/"@ + owner + "/"@ + name + "/"@ + path + "?"@ + query
}

/// Builds the route of [`repo_route`].
pub fn build_repo_route(owner: &str, name: &str, path: &str, query: &str) -> (r: String)
    ensures
        r@ == repo_route(owner@, name@, path@, query@),
{
    let mut r = String::from_str("repos/");
    r.append(owner);
    r.append("/");
    r.append(name);
    r.append("/");
    r.append(path);
    r.append("?");
    r.append(query);
    proof {
        assert(r@ =~= repo_route(owner@, name@, path@, query@));
    }
    r
}

/// The repository tag `owner/name`.
pub open spec fn reponame_of(owner: Seq<char>, name: Seq<char>) -> Seq<char> {
    owner + "/"@ + name
}

/// Builds the tag of [`reponame_of`].
pub fn build_reponame(owner: &str, name: &str) -> (r: String)
    ensures
        r@ == reponame_of(owner@, name@),
{
    let mut r = String::from_str(owner);
    r.append("/");
    r.append(name);
    proof {
        assert(r@ =~= reponame_of(owner@, name@));
    }
    r
}

/// A fetcher that can say where its walk starts.
pub trait UrlConstructor {
    /// The repository tag stamped on every emitted record: `owner/name`, or
    /// empty for account-scoped resources.
    spec fn reponame_spec(&self) -> Seq<char>;

    /// The route of the first page: `None` exactly when the entrypoint
    /// cannot be constructed client-side (a malformed owner or repository
    /// name, or a since timestamp the platform's date format cannot hold).
    spec fn entrypoint_spec(&self) -> Option<Seq<char>>;

    /// The repository tag, as [`UrlConstructor::reponame_spec`] says.
    fn reponame(&self) -> (r: String)
        ensures
            r@ == self.reponame_spec(),
    ;

    /// The entrypoint route, as [`UrlConstructor::entrypoint_spec`] says.
    fn entrypoint(&self) -> (r: Option<String>)
        ensures
            match (r, self.entrypoint_spec()) {
                (Some(u), Some(v)) => u@ == v,
                (None, None) => true,
                _ => false,
            },
    ;
}

/// Whether an optional since timestamp fits the platform's date format.
pub open spec fn since_in_range(since: Option<i64>) -> bool {
    match since {
        None => true,
        Some(t) => 0 <= t < MAX_RENDERED_TIMESTAMP as int,
    }
}

/// The check of [`since_in_range`].
pub fn check_since_in_range(since: &Option<i64>) -> (r: bool)
    ensures
        r == since_in_range(*since),
{
    match since {
        None => true,
        Some(t) => 0 <= *t && *t < MAX_RENDERED_TIMESTAMP,
    }
}

} // verus!
