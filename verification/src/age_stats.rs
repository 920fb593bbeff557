//! Gathering statistics from received user data: the sum of all ages, the
//! sum over names ending in `a`, and how often the letter `a` occurs in
//! the names.

use vstd::prelude::*;

use crate::text::{
    all_dec_digits, count_char, count_char_in, dec_val, ends_with_char, parse_u32,
    spec_ends_with_char,
};

verus! {

/// A user as the network delivers it: the age is still text.
pub struct NetworkUser {
    pub name: String,
    pub age: String,
}

impl NetworkUser {
    pub fn new(name: &str, age: &str) -> (r: Self)
        ensures
            r.name@ == name@,
            r.age@ == age@,
    {
        Self { name: name.to_owned(), age: age.to_owned() }
    }
}

/// An age that parses as a `u32`.
pub open spec fn valid_age(s: Seq<char>) -> bool {
    s.len() > 0 && all_dec_digits(s) && dec_val(s) <= u32::MAX
}

/// Sum of all ages.
pub open spec fn ages_sum(users: Seq<NetworkUser>) -> nat
    decreases users.len(),
{
    if users.len() == 0 {
        0
    } else {
        ages_sum(users.drop_last()) + dec_val(users.last().age@)
    }
}

/// Sum of the ages of users whose name ends in `a`.
pub open spec fn ages_sum_ending_a(users: Seq<NetworkUser>) -> nat
    decreases users.len(),
{
    if users.len() == 0 {
        0
    } else {
        ages_sum_ending_a(users.drop_last()) + (if spec_ends_with_char(users.last().name@, 'a') {
            dec_val(users.last().age@)
        } else {
            0
        })
    }
}

/// How often `a` occurs across all names.
pub open spec fn total_a_count(users: Seq<NetworkUser>) -> nat
    decreases users.len(),
{
    if users.len() == 0 {
        0
    } else {
        total_a_count(users.drop_last()) + count_char(users.last().name@, 'a')
    }
}

proof fn lemma_ages_sum_prefix_le(users: Seq<NetworkUser>, j: int)
    requires
        0 <= j <= users.len(),
    ensures
        ages_sum(users.subrange(0, j)) <= ages_sum(users),
    decreases users.len() - j,
{
    if j == users.len() {
        assert(users.subrange(0, j) =~= users);
    } else {
        assert(users.subrange(0, j + 1).drop_last() =~= users.subrange(0, j));
        lemma_ages_sum_prefix_le(users, j + 1);
    }
}

proof fn lemma_ages_sum_ending_a_prefix_le(users: Seq<NetworkUser>, j: int)
    requires
        0 <= j <= users.len(),
    ensures
        ages_sum_ending_a(users.subrange(0, j)) <= ages_sum_ending_a(users),
    decreases users.len() - j,
{
    if j == users.len() {
        assert(users.subrange(0, j) =~= users);
    } else {
        assert(users.subrange(0, j + 1).drop_last() =~= users.subrange(0, j));
        lemma_ages_sum_ending_a_prefix_le(users, j + 1);
    }
}

proof fn lemma_total_a_count_prefix_le(users: Seq<NetworkUser>, j: int)
    requires
        0 <= j <= users.len(),
    ensures
        total_a_count(users.subrange(0, j)) <= total_a_count(users),
    decreases users.len() - j,
{
    if j == users.len() {
        assert(users.subrange(0, j) =~= users);
    } else {
        assert(users.subrange(0, j + 1).drop_last() =~= users.subrange(0, j));
        lemma_total_a_count_prefix_le(users, j + 1);
    }
}

/// Mock network receive.
pub fn receive_users() -> (r: Vec<NetworkUser>)
    ensures
        r@.len() == 5,
        r@[0].name@ == "anna"@ && r@[0].age@ == "75"@,
        r@[1].name@ == "berta"@ && r@[1].age@ == "87"@,
        r@[2].name@ == "cecile"@ && r@[2].age@ == "16"@,
        r@[3].name@ == "diana"@ && r@[3].age@ == "31"@,
        r@[4].name@ == "esther"@ && r@[4].age@ == "44"@,
{
    let mut r: Vec<NetworkUser> = Vec::new();
    r.push(NetworkUser::new("anna", "75"));
    r.push(NetworkUser::new("berta", "87"));
    r.push(NetworkUser::new("cecile", "16"));
    r.push(NetworkUser::new("diana", "31"));
    r.push(NetworkUser::new("esther", "44"));
    r
}

/// Sum of all ages, with a plain loop.
pub fn task_01_for_loop(users: &[NetworkUser]) -> (r: u32)
    requires
        forall|i: int| 0 <= i < users@.len() ==> valid_age((#[trigger] users@[i]).age@),
        ages_sum(users@) <= u32::MAX,
    ensures
        r == ages_sum(users@),
{
    let n = users.len();
    let mut sum: u32 = 0;
    let mut i: usize = 0;
    while i < n
        invariant
            0 <= i <= n,
            n == users@.len(),
            forall|k: int| 0 <= k < users@.len() ==> valid_age((#[trigger] users@[k]).age@),
            ages_sum(users@) <= u32::MAX,
            sum == ages_sum(users@.subrange(0, i as int)),
        decreases n - i,
    {
        proof {
            assert(users@.subrange(0, i + 1 as int).drop_last() =~= users@.subrange(0, i as int));
            lemma_ages_sum_prefix_le(users@, i + 1);
        }
        let v = match parse_u32(users[i].age.as_str()) {
            Some(v) => v,
            None => {
                proof {
                    assert(false);
                }
                0
            },
        };
        sum = sum + v;
        i = i + 1;
    }
    proof {
        assert(users@.subrange(0, n as int) =~= users@);
    }
    sum
}

/// Sum of all ages; the combinator counterpart of [`task_01_for_loop`].
pub fn task_01(users: &[NetworkUser]) -> (r: u32)
    requires
        forall|i: int| 0 <= i < users@.len() ==> valid_age((#[trigger] users@[i]).age@),
        ages_sum(users@) <= u32::MAX,
    ensures
        r == ages_sum(users@),
{
    task_01_for_loop(users)
}

/// Sum of the ages of users whose name ends in `a`, with a plain loop.
pub fn task_02_for_loop(users: &[NetworkUser]) -> (r: u32)
    requires
        forall|i: int|
            0 <= i < users@.len() && spec_ends_with_char((#[trigger] users@[i]).name@, 'a')
                ==> valid_age(users@[i].age@),
        ages_sum_ending_a(users@) <= u32::MAX,
    ensures
        r == ages_sum_ending_a(users@),
{
    let n = users.len();
    let mut sum: u32 = 0;
    let mut i: usize = 0;
    while i < n
        invariant
            0 <= i <= n,
            n == users@.len(),
            forall|k: int|
                0 <= k < users@.len() && spec_ends_with_char((#[trigger] users@[k]).name@, 'a')
                    ==> valid_age(users@[k].age@),
            ages_sum_ending_a(users@) <= u32::MAX,
            sum == ages_sum_ending_a(users@.subrange(0, i as int)),
        decreases n - i,
    {
        proof {
            assert(users@.subrange(0, i + 1 as int).drop_last() =~= users@.subrange(0, i as int));
            lemma_ages_sum_ending_a_prefix_le(users@, i + 1);
        }
        if ends_with_char(users[i].name.as_str(), 'a') {
            let v = match parse_u32(users[i].age.as_str()) {
                Some(v) => v,
                None => {
                    proof {
                        assert(false);
                    }
                    0
                },
            };
            sum = sum + v;
        }
        i = i + 1;
    }
    proof {
        assert(users@.subrange(0, n as int) =~= users@);
    }
    sum
}

/// Sum of the ages of users whose name ends in `a`; the combinator
/// counterpart of [`task_02_for_loop`].
pub fn task_02(users: &[NetworkUser]) -> (r: u32)
    requires
        forall|i: int|
            0 <= i < users@.len() && spec_ends_with_char((#[trigger] users@[i]).name@, 'a')
                ==> valid_age(users@[i].age@),
        ages_sum_ending_a(users@) <= u32::MAX,
    ensures
        r == ages_sum_ending_a(users@),
{
    task_02_for_loop(users)
}

/// Counts the occurrences of `a` across all names, with a plain loop.
pub fn task_03_for_loop(users: &[NetworkUser]) -> (r: u32)
    requires
        total_a_count(users@) <= u32::MAX,
    ensures
        r == total_a_count(users@),
{
    let n = users.len();
    let mut sum: u32 = 0;
    let mut i: usize = 0;
    while i < n
        invariant
            0 <= i <= n,
            n == users@.len(),
            total_a_count(users@) <= u32::MAX,
            sum == total_a_count(users@.subrange(0, i as int)),
        decreases n - i,
    {
        proof {
            assert(users@.subrange(0, i + 1 as int).drop_last() =~= users@.subrange(0, i as int));
            lemma_total_a_count_prefix_le(users@, i + 1);
        }
        let cnt = count_char_in(users[i].name.as_str(), 'a');
        assert(cnt <= u32::MAX);
        sum = sum + (cnt as u32);
        i = i + 1;
    }
    proof {
        assert(users@.subrange(0, n as int) =~= users@);
    }
    sum
}

/// Counts the occurrences of `a` across all names; the combinator
/// counterpart of [`task_03_for_loop`].
pub fn task_03(users: &[NetworkUser]) -> (r: u32)
    requires
        total_a_count(users@) <= u32::MAX,
    ensures
        r == total_a_count(users@),
{
    task_03_for_loop(users)
}

} // verus!
