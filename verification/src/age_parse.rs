//! Transforming network users whose age arrives as text: entries whose age
//! does not parse as a small decimal number are dropped, the rest become
//! database users with a numeric age.

use vstd::prelude::*;

use crate::outside::{to_uppercase, upper_of};
use crate::text::{all_dec_digits, dec_val, parse_u8};

verus! {

/// A user as the network delivers it: the age is still text.
pub struct NetworkUser {
    pub name: String,
    pub age: String,
}

impl NetworkUser {
    pub fn new(name: &str, age: &str) -> (r: Self)
        ensures
            r.name@ == name@,
            r.age@ == age@,
    {
        Self { name: name.to_owned(), age: age.to_owned() }
    }
}

/// A user as the database layer stores it: the age is a number.
#[derive(Debug)]
pub struct DbUser {
    pub name: String,
    pub age: u8,
}

/// An age that parses: non-empty, all decimal digits, and small enough.
pub open spec fn valid_age(s: Seq<char>) -> bool {
    s.len() > 0 && all_dec_digits(s) && dec_val(s) <= u8::MAX
}

/// The entries whose age parses, in order.
pub open spec fn parsed_users(users: Seq<NetworkUser>) -> Seq<NetworkUser>
    decreases users.len(),
{
    if users.len() == 0 {
        Seq::empty()
    } else {
        let rest = parsed_users(users.drop_last());
        if valid_age(users.last().age@) {
            rest.push(users.last())
        } else {
            rest
        }
    }
}

/// The entries whose age parses and is over 60, in order.
pub open spec fn elderly_users(users: Seq<NetworkUser>) -> Seq<NetworkUser>
    decreases users.len(),
{
    if users.len() == 0 {
        Seq::empty()
    } else {
        let rest = elderly_users(users.drop_last());
        if valid_age(users.last().age@) && dec_val(users.last().age@) > 60 {
            rest.push(users.last())
        } else {
            rest
        }
    }
}

/// `db` carries exactly the users of `src`, names kept and ages parsed.
pub open spec fn db_matches(src: Seq<NetworkUser>, db: Seq<DbUser>) -> bool {
    &&& db.len() == src.len()
    &&& forall|i: int|
        0 <= i < src.len() ==> (#[trigger] db[i]).name@ == src[i].name@ && db[i].age == dec_val(
            src[i].age@,
        )
}

/// As [`db_matches`], but with every name folded to upper case.
pub open spec fn db_matches_upper(src: Seq<NetworkUser>, db: Seq<DbUser>) -> bool {
    &&& db.len() == src.len()
    &&& forall|i: int|
        0 <= i < src.len() ==> (#[trigger] db[i]).name@ == upper_of(src[i].name@) && db[i].age
            == dec_val(src[i].age@)
}

/// The age could not be parsed.
#[derive(Debug, Clone, Copy, PartialEq, Eq)]
pub struct AgeParseError;

impl DbUser {
    /// Conversion of one user: succeeds exactly when the age parses.
    pub fn try_from(user: &NetworkUser) -> (r: Result<DbUser, AgeParseError>)
        ensures
            match r {
                Ok(d) => valid_age(user.age@) && d.name@ == user.name@ && d.age == dec_val(
                    user.age@,
                ),
                Err(_) => !valid_age(user.age@),
            },
    {
        match parse_u8(user.age.as_str()) {
            Some(v) => Ok(DbUser { name: user.name.clone(), age: v }),
            None => Err(AgeParseError),
        }
    }
}

/// Mock network receive.
pub fn receive_users() -> (r: Vec<NetworkUser>)
    ensures
        r@.len() == 5,
        r@[0].name@ == "anna"@ && r@[0].age@ == "75"@,
        r@[1].name@ == "berta"@ && r@[1].age@ == "87"@,
        r@[2].name@ == "cecile"@ && r@[2].age@ == "16"@,
        r@[3].name@ == "diana"@ && r@[3].age@ == "31"@,
        r@[4].name@ == "esther"@ && r@[4].age@ == "44"@,
{
    let mut r: Vec<NetworkUser> = Vec::new();
    r.push(NetworkUser::new("anna", "75"));
    r.push(NetworkUser::new("berta", "87"));
    r.push(NetworkUser::new("cecile", "16"));
    r.push(NetworkUser::new("diana", "31"));
    r.push(NetworkUser::new("esther", "44"));
    r
}

/// Keeps every user whose age parses, as a database user.
pub fn transform_users(network_users: Vec<NetworkUser>) -> (db: Vec<DbUser>)
    ensures
        db_matches(parsed_users(network_users@), db@),
{
    let n = network_users.len();
    let mut db_users: Vec<DbUser> = Vec::new();
    let mut i: usize = 0;
    while i < n
        invariant
            0 <= i <= n,
            n == network_users@.len(),
            db_matches(parsed_users(network_users@.subrange(0, i as int)), db_users@),
        decreases n - i,
    {
        let ghost pre = network_users@.subrange(0, i as int);
        let ghost ext = network_users@.subrange(0, i + 1 as int);
        proof {
            assert(ext.drop_last() =~= pre);
        }
        match DbUser::try_from(&network_users[i]) {
            Ok(d) => {
                db_users.push(d);
            },
            Err(_) => {},
        }
        i = i + 1;
    }
    proof {
        assert(network_users@.subrange(0, n as int) =~= network_users@);
    }
    db_users
}

/// Keeps every user whose age parses, reporting the bad ones along the
/// way in the original; the report is operational detail and the result is
/// the same as [`transform_users`].
pub fn very_verbose_transform_and_log_errors(network_users: Vec<NetworkUser>) -> (db: Vec<DbUser>)
    ensures
        db_matches(parsed_users(network_users@), db@),
{
    transform_users(network_users)
}

/// Keeps every user whose age parses and silently drops the rest; the
/// same meaning as [`transform_users`].
pub fn less_verbose_transform_and_ignore_errors(network_users: Vec<NetworkUser>) -> (db: Vec<
    DbUser,
>)
    ensures
        db_matches(parsed_users(network_users@), db@),
{
    transform_users(network_users)
}

/// Keeps every user whose age parses, built on [`DbUser::try_from`]; the
/// same meaning as [`transform_users`].
pub fn nice_transform_and_log_errors(network_users: Vec<NetworkUser>) -> (db: Vec<DbUser>)
    ensures
        db_matches(parsed_users(network_users@), db@),
{
    transform_users(network_users)
}

/// Keeps only the users whose age parses and is over 60.
pub fn transform_and_filter(network_users: Vec<NetworkUser>) -> (db: Vec<DbUser>)
    ensures
        db_matches(elderly_users(network_users@), db@),
{
    let n = network_users.len();
    let mut db_users: Vec<DbUser> = Vec::new();
    let mut i: usize = 0;
    while i < n
        invariant
            0 <= i <= n,
            n == network_users@.len(),
            db_matches(elderly_users(network_users@.subrange(0, i as int)), db_users@),
        decreases n - i,
    {
        let ghost pre = network_users@.subrange(0, i as int);
        let ghost ext = network_users@.subrange(0, i + 1 as int);
        proof {
            assert(ext.drop_last() =~= pre);
        }
        match DbUser::try_from(&network_users[i]) {
            Ok(d) => {
                if d.age > 60 {
                    db_users.push(d);
                }
            },
            Err(_) => {},
        }
        i = i + 1;
    }
    proof {
        assert(network_users@.subrange(0, n as int) =~= network_users@);
    }
    db_users
}

/// Keeps only the users whose age parses and is over 60, and folds their
/// names to upper case.
pub fn transform_and_filter_and_format(network_users: Vec<NetworkUser>) -> (db: Vec<DbUser>)
    ensures
        db_matches_upper(elderly_users(network_users@), db@),
{
    let n = network_users.len();
    let mut db_users: Vec<DbUser> = Vec::new();
    let mut i: usize = 0;
    while i < n
        invariant
            0 <= i <= n,
            n == network_users@.len(),
            db_matches_upper(elderly_users(network_users@.subrange(0, i as int)), db_users@),
        decreases n - i,
    {
        let ghost pre = network_users@.subrange(0, i as int);
        let ghost ext = network_users@.subrange(0, i + 1 as int);
        proof {
            assert(ext.drop_last() =~= pre);
        }
        match DbUser::try_from(&network_users[i]) {
            Ok(d) => {
                if d.age > 60 {
                    db_users.push(DbUser { name: to_uppercase(d.name.as_str()), age: d.age });
                }
            },
            Err(_) => {},
        }
        i = i + 1;
    }
    proof {
        assert(network_users@.subrange(0, n as int) =~= network_users@);
    }
    db_users
}

} // verus!
