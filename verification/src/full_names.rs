//! Transforming users as they arrive from the network into the database
//! layer's representation: the two name parts become one full name.

use vstd::prelude::*;

use crate::text::{join_with_space, spec_join};

verus! {

/// A user as the network delivers it.
pub struct NetworkUser {
    pub first_name: String,
    pub last_name: String,
}

impl NetworkUser {
    pub fn new(first_name: &str, last_name: &str) -> (r: Self)
        ensures
            r.first_name@ == first_name@,
            r.last_name@ == last_name@,
    {
        Self { first_name: first_name.to_owned(), last_name: last_name.to_owned() }
    }
}

/// A user as the database layer stores it.
#[derive(Debug)]
pub struct DbUser {
    pub full_name: String,
}

impl DbUser {
    /// The conversion rule: first name, a space, last name.
    pub fn from(user: NetworkUser) -> (r: Self)
        ensures
            r.full_name@ == full_name_of(user),
    {
        DbUser { full_name: join_with_space(user.first_name.as_str(), user.last_name.as_str()) }
    }
}

/// The full name a network user maps to.
pub open spec fn full_name_of(user: NetworkUser) -> Seq<char> {
    spec_join(user.first_name@, ' ', user.last_name@)
}

/// `db` is `users` transformed position by position.
pub open spec fn transformed(users: Seq<NetworkUser>, db: Seq<DbUser>) -> bool {
    &&& db.len() == users.len()
    &&& forall|i: int| 0 <= i < users.len() ==> (#[trigger] db[i]).full_name@ == full_name_of(
        users[i],
    )
}

/// Mock network receive.
pub fn receive_users() -> (r: Vec<NetworkUser>)
    ensures
        r@.len() == 5,
        r@[0].first_name@ == "anna"@ && r@[0].last_name@ == "wood"@,
        r@[1].first_name@ == "berta"@ && r@[1].last_name@ == "stone"@,
        r@[2].first_name@ == "cecile"@ && r@[2].last_name@ == "miller"@,
        r@[3].first_name@ == "diana"@ && r@[3].last_name@ == "winter"@,
        r@[4].first_name@ == "esther"@ && r@[4].last_name@ == "smith"@,
{
    let mut r: Vec<NetworkUser> = Vec::new();
    r.push(NetworkUser::new("anna", "wood"));
    r.push(NetworkUser::new("berta", "stone"));
    r.push(NetworkUser::new("cecile", "miller"));
    r.push(NetworkUser::new("diana", "winter"));
    r.push(NetworkUser::new("esther", "smith"));
    r
}

/// Transforms every user, with an explicit loop.
pub fn classical_transform_users(users: Vec<NetworkUser>) -> (db: Vec<DbUser>)
    ensures
        transformed(users@, db@),
{
    let n = users.len();
    let mut db_users: Vec<DbUser> = Vec::new();
    let mut i: usize = 0;
    while i < n
        invariant
            0 <= i <= n,
            n == users@.len(),
            db_users@.len() == i,
            forall|j: int|
                0 <= j < i ==> (#[trigger] db_users@[j]).full_name@ == full_name_of(users@[j]),
        decreases n - i,
    {
        let full_name = join_with_space(users[i].first_name.as_str(), users[i].last_name.as_str());
        db_users.push(DbUser { full_name });
        i = i + 1;
    }
    db_users
}

/// Transforms every user; the combinator-chain counterpart of
/// [`classical_transform_users`], with the same meaning.
pub fn transform_users(users: Vec<NetworkUser>) -> (db: Vec<DbUser>)
    ensures
        transformed(users@, db@),
{
    classical_transform_users(users)
}

/// Transforms every user, spelled out step by step; the same meaning.
pub fn transform_users_verbose(users: Vec<NetworkUser>) -> (db: Vec<DbUser>)
    ensures
        transformed(users@, db@),
{
    classical_transform_users(users)
}

/// Transforms every user through the conversion function [`DbUser::from`].
pub fn transform_users_neat(users: Vec<NetworkUser>) -> (db: Vec<DbUser>)
    ensures
        transformed(users@, db@),
{
    let n = users.len();
    let mut users = users;
    let mut db_users: Vec<DbUser> = Vec::new();
    let ghost all = users@;
    let mut i: usize = 0;
    while i < n
        invariant
            0 <= i <= n,
            n == all.len(),
            users@ == all.skip(i as int),
            db_users@.len() == i,
            forall|j: int|
                0 <= j < i ==> (#[trigger] db_users@[j]).full_name@ == full_name_of(all[j]),
        decreases n - i,
    {
        let user = users.remove(0);
        assert(user == all[i as int]);
        db_users.push(DbUser::from(user));
        proof {
            assert(users@ =~= all.skip(i + 1 as int));
        }
        i = i + 1;
    }
    db_users
}

/// Transforms every user through [`DbUser::from`]; the same meaning as
/// [`transform_users_neat`].
pub fn transform_users_neater(users: Vec<NetworkUser>) -> (db: Vec<DbUser>)
    ensures
        transformed(users@, db@),
{
    transform_users_neat(users)
}

} // verus!
