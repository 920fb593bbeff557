//! Filtering user lists by properties of their names: by first letter, by
//! a prefix, and two bounded collectors that stop after two finds.

use vstd::prelude::*;
use vstd::string::StrSliceExecFns;

use crate::text::{
    ends_with_char, spec_ends_with_char, spec_starts_with, spec_starts_with_char, starts_with,
    starts_with_char,
};

verus! {

/// A user as the network delivers it.
#[derive(Debug)]
pub struct NetworkUser {
    pub first_name: String,
    pub last_name: String,
}

impl NetworkUser {
    pub fn new(first_name: &str, last_name: &str) -> (r: Self)
        ensures
            r.first_name@ == first_name@,
            r.last_name@ == last_name@,
    {
        Self { first_name: first_name.to_owned(), last_name: last_name.to_owned() }
    }
}

impl Clone for NetworkUser {
    fn clone(&self) -> (r: Self)
        ensures
            r == *self,
    {
        NetworkUser { first_name: self.first_name.clone(), last_name: self.last_name.clone() }
    }
}

/// Mock network receive.
pub fn receive_users() -> (r: Vec<NetworkUser>)
    ensures
        r@.len() == 5,
        r@[0].first_name@ == "anna"@ && r@[0].last_name@ == "wood"@,
        r@[1].first_name@ == "berta"@ && r@[1].last_name@ == "stone"@,
        r@[2].first_name@ == "cecile"@ && r@[2].last_name@ == "miller"@,
        r@[3].first_name@ == "diana"@ && r@[3].last_name@ == "winter"@,
        r@[4].first_name@ == "esther"@ && r@[4].last_name@ == "smith"@,
{
    let mut r: Vec<NetworkUser> = Vec::new();
    r.push(NetworkUser::new("anna", "wood"));
    r.push(NetworkUser::new("berta", "stone"));
    r.push(NetworkUser::new("cecile", "miller"));
    r.push(NetworkUser::new("diana", "winter"));
    r.push(NetworkUser::new("esther", "smith"));
    r
}

/// The users whose first name starts with `c`, in order.
pub open spec fn kept_starting_with(users: Seq<NetworkUser>, c: char) -> Seq<NetworkUser>
    decreases users.len(),
{
    if users.len() == 0 {
        Seq::empty()
    } else {
        let rest = kept_starting_with(users.drop_last(), c);
        if spec_starts_with_char(users.last().first_name@, c) {
            rest.push(users.last())
        } else {
            rest
        }
    }
}

/// The users whose first name starts with the prefix `p`, in order.
pub open spec fn kept_with_prefix(users: Seq<NetworkUser>, p: Seq<char>) -> Seq<NetworkUser>
    decreases users.len(),
{
    if users.len() == 0 {
        Seq::empty()
    } else {
        let rest = kept_with_prefix(users.drop_last(), p);
        if spec_starts_with(users.last().first_name@, p) {
            rest.push(users.last())
        } else {
            rest
        }
    }
}

/// Keeps the users whose first name starts with the given character.
pub fn name_starts_with_c(character: char, users: Vec<NetworkUser>) -> (r: Vec<NetworkUser>)
    ensures
        r@ == kept_starting_with(users@, character),
{
    let n = users.len();
    let mut out: Vec<NetworkUser> = Vec::new();
    let mut i: usize = 0;
    while i < n
        invariant
            0 <= i <= n,
            n == users@.len(),
            out@ == kept_starting_with(users@.subrange(0, i as int), character),
        decreases n - i,
    {
        proof {
            assert(users@.subrange(0, i + 1 as int).drop_last() =~= users@.subrange(0, i as int));
        }
        if starts_with_char(users[i].first_name.as_str(), character) {
            out.push(users[i].clone());
        }
        i = i + 1;
    }
    proof {
        assert(users@.subrange(0, n as int) =~= users@);
    }
    out
}

/// Keeps the users whose first name starts with the given prefix.
pub fn name_starts_with_pattern(pattern: &str, users: Vec<NetworkUser>) -> (r: Vec<NetworkUser>)
    ensures
        r@ == kept_with_prefix(users@, pattern@),
{
    let n = users.len();
    let mut out: Vec<NetworkUser> = Vec::new();
    let mut i: usize = 0;
    while i < n
        invariant
            0 <= i <= n,
            n == users@.len(),
            out@ == kept_with_prefix(users@.subrange(0, i as int), pattern@),
        decreases n - i,
    {
        proof {
            assert(users@.subrange(0, i + 1 as int).drop_last() =~= users@.subrange(0, i as int));
        }
        if starts_with(users[i].first_name.as_str(), pattern) {
            out.push(users[i].clone());
        }
        i = i + 1;
    }
    proof {
        assert(users@.subrange(0, n as int) =~= users@);
    }
    out
}

/// The first `k` users whose first name ends in `a`, in order.
pub open spec fn take_ending_a(users: Seq<NetworkUser>, k: nat) -> Seq<NetworkUser>
    decreases users.len(),
{
    if users.len() == 0 || k == 0 {
        Seq::empty()
    } else if spec_ends_with_char(users.first().first_name@, 'a') {
        seq![users.first()] + take_ending_a(users.drop_first(), (k - 1) as nat)
    } else {
        take_ending_a(users.drop_first(), k)
    }
}

/// Collects at most two users whose first name ends with an `a`, scanning
/// from the front and stopping early.
pub fn contrived_example(users: &[NetworkUser]) -> (r: Vec<NetworkUser>)
    ensures
        r@ == take_ending_a(users@, 2),
{
    let n = users.len();
    let mut out: Vec<NetworkUser> = Vec::new();
    let mut i: usize = 0;
    proof {
        assert(users@.skip(0) =~= users@);
        assert(Seq::<NetworkUser>::empty() + take_ending_a(users@, 2) =~= take_ending_a(
            users@,
            2,
        ));
    }
    while i < n && out.len() < 2
        invariant
            0 <= i <= n,
            n == users@.len(),
            out@.len() <= 2,
            take_ending_a(users@, 2) == out@ + take_ending_a(
                users@.skip(i as int),
                (2 - out@.len()) as nat,
            ),
        decreases n - i,
    {
        let ghost s_i = users@.skip(i as int);
        proof {
            assert(s_i.first() == users@[i as int]);
            assert(s_i.drop_first() =~= users@.skip(i + 1 as int));
        }
        let ghost out0 = out@;
        let ghost k = (2 - out@.len()) as nat;
        if ends_with_char(users[i].first_name.as_str(), 'a') {
            out.push(users[i].clone());
            proof {
                assert(out@ =~= out0.push(users@[i as int]));
                assert(out@ + take_ending_a(users@.skip(i + 1 as int), (2 - out@.len()) as nat)
                    =~= out0 + (seq![s_i.first()] + take_ending_a(
                    s_i.drop_first(),
                    (k - 1) as nat,
                )));
            }
        }
        i = i + 1;
    }
    proof {
        if out@.len() == 2 {
            assert(take_ending_a(users@.skip(i as int), 0) =~= Seq::<NetworkUser>::empty());
        } else {
            assert(users@.skip(n as int) =~= Seq::<NetworkUser>::empty());
        }
        assert(out@ + Seq::<NetworkUser>::empty() =~= out@);
    }
    out
}

/// The first `k` users that are directly followed by a user whose first
/// name has at least six characters, in order.
pub open spec fn take_before_long(users: Seq<NetworkUser>, k: nat) -> Seq<NetworkUser>
    decreases users.len(),
{
    if users.len() <= 1 || k == 0 {
        Seq::empty()
    } else if users[1].first_name@.len() >= 6 {
        seq![users.first()] + take_before_long(users.drop_first(), (k - 1) as nat)
    } else {
        take_before_long(users.drop_first(), k)
    }
}

/// Collects at most two users where the next user's first name has at
/// least six characters, scanning from the front and stopping early.
pub fn filter_contrived(users: &[NetworkUser]) -> (r: Vec<NetworkUser>)
    ensures
        r@ == take_before_long(users@, 2),
{
    let n = users.len();
    let mut out: Vec<NetworkUser> = Vec::new();
    let mut i: usize = 0;
    proof {
        assert(users@.skip(0) =~= users@);
        assert(Seq::<NetworkUser>::empty() + take_before_long(users@, 2) =~= take_before_long(
            users@,
            2,
        ));
    }
    while i < n && i + 1 < n && out.len() < 2
        invariant
            0 <= i <= n,
            n == users@.len(),
            out@.len() <= 2,
            take_before_long(users@, 2) == out@ + take_before_long(
                users@.skip(i as int),
                (2 - out@.len()) as nat,
            ),
        decreases n - i,
    {
        let ghost s_i = users@.skip(i as int);
        proof {
            assert(s_i.len() >= 2);
            assert(s_i.first() == users@[i as int]);
            assert(s_i[1] == users@[i + 1 as int]);
            assert(s_i.drop_first() =~= users@.skip(i + 1 as int));
        }
        let ghost out0 = out@;
        let ghost k = (2 - out@.len()) as nat;
        if users[i + 1].first_name.unicode_len() >= 6 {
            out.push(users[i].clone());
            proof {
                assert(out@ =~= out0.push(users@[i as int]));
                assert(out@ + take_before_long(users@.skip(i + 1 as int), (2 - out@.len()) as nat)
                    =~= out0 + (seq![s_i.first()] + take_before_long(
                    s_i.drop_first(),
                    (k - 1) as nat,
                )));
            }
        }
        i = i + 1;
    }
    proof {
        if out@.len() < 2 {
            assert(users@.skip(i as int).len() <= 1);
        }
        assert(take_before_long(users@.skip(i as int), (2 - out@.len()) as nat) =~= Seq::<
            NetworkUser,
        >::empty());
        assert(out@ + Seq::<NetworkUser>::empty() =~= out@);
    }
    out
}

} // verus!
