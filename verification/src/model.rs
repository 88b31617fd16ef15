//! Sub-structures shared by several resource kinds: the nested references a
//! resource embeds, held as plain values. Timestamps are Unix seconds.

use vstd::prelude::*;

verus! {

/// A nested user reference: only what the flatteners read.
pub struct UserRef {
    pub id: i64,
    pub login: String,
}

/// A nested milestone reference.
pub struct MilestoneRef {
    pub title: String,
}

/// The author or committer signature inside a git commit.
pub struct GitUser {
    pub name: String,
    pub email: String,
    pub date: i64,
}

/// A parent reference of a commit: the parent's hash, when the reference is
/// a commit object.
pub struct ParentRef {
    pub sha: Option<String>,
}

/// The logins of a sequence of user references.
pub open spec fn logins_of(users: Seq<UserRef>) -> Seq<Seq<char>> {
    users.map_values(|u: UserRef| u.login@)
}

/// The id of an optional user reference.
pub open spec fn opt_user_id(u: Option<UserRef>) -> Option<i64> {
    match u {
        Some(user) => Some(user.id),
        None => None,
    }
}

/// The title of an optional milestone reference.
pub open spec fn opt_milestone_title(m: Option<MilestoneRef>) -> Option<Seq<char>> {
    match m {
        Some(ms) => Some(ms.title@),
        None => None,
    }
}

/// An optional string as an optional sequence of characters.
pub open spec fn opt_view(s: Option<String>) -> Option<Seq<char>> {
    match s {
        Some(v) => Some(v@),
        None => None,
    }
}

/// The logins of the users, in order, as [`logins_of`] says.
pub fn user_logins(users: &Vec<UserRef>) -> (r: Vec<String>)
    ensures
        crate::text::seq_views(r@) == logins_of(users@),
{
    let mut r: Vec<String> = Vec::new();
    let mut i: usize = 0;
    while i < users.len()
        invariant
            i <= users@.len(),
            r@.len() == i,
            forall|j: int| 0 <= j < i ==> (#[trigger] r@[j])@ == users@[j].login@,
        decreases users@.len() - i,
    {
        r.push(users[i].login.clone());
        i = i + 1;
    }
    proof {
        assert(crate::text::seq_views(r@) =~= logins_of(users@));
    }
    r
}

} // verus!
