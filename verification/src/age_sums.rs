//! Summing the ages of a list of optional users with optional ages: only
//! the ages that are actually present count.

use vstd::prelude::*;

verus! {

/// A user whose age may be unknown.
#[derive(Debug, Clone, Copy, PartialEq, Eq, Structural)]
pub struct User {
    pub age: Option<u8>,
}

/// The age an entry contributes: zero for a missing user or a missing age.
pub open spec fn entry_age(entry: Option<User>) -> nat {
    match entry {
        Some(u) => match u.age {
            Some(a) => a as nat,
            None => 0,
        },
        None => 0,
    }
}

/// Sum of all present ages.
pub open spec fn opt_age_sum(users: Seq<Option<User>>) -> nat
    decreases users.len(),
{
    if users.len() == 0 {
        0
    } else {
        opt_age_sum(users.drop_last()) + entry_age(users.last())
    }
}

/// A prefix never sums to more than the whole.
proof fn lemma_opt_age_sum_prefix_le(users: Seq<Option<User>>, j: int)
    requires
        0 <= j <= users.len(),
    ensures
        opt_age_sum(users.subrange(0, j)) <= opt_age_sum(users),
    decreases users.len() - j,
{
    if j == users.len() {
        assert(users.subrange(0, j) =~= users);
    } else {
        assert(users.subrange(0, j + 1).drop_last() =~= users.subrange(0, j));
        lemma_opt_age_sum_prefix_le(users, j + 1);
    }
}

/// The sample data: six entries, half of them missing a user or an age.
pub fn mock_users() -> (r: Vec<Option<User>>)
    ensures
        r@ =~= seq![
            Some(User { age: None }),
            Some(User { age: Some(33) }),
            None,
            Some(User { age: Some(55) }),
            Some(User { age: None }),
            Some(User { age: Some(77) }),
        ],
{
    let mut r: Vec<Option<User>> = Vec::new();
    r.push(Some(User { age: None }));
    r.push(Some(User { age: Some(33) }));
    r.push(None);
    r.push(Some(User { age: Some(55) }));
    r.push(Some(User { age: None }));
    r.push(Some(User { age: Some(77) }));
    r
}

/// Sums all present ages with a plain loop.
pub fn classic_sum_user_ages(users: &[Option<User>]) -> (r: u32)
    requires
        opt_age_sum(users@) <= u32::MAX,
    ensures
        r == opt_age_sum(users@),
{
    let n = users.len();
    let mut sum: u32 = 0;
    let mut i: usize = 0;
    while i < n
        invariant
            0 <= i <= n,
            n == users@.len(),
            opt_age_sum(users@) <= u32::MAX,
            sum == opt_age_sum(users@.subrange(0, i as int)),
        decreases n - i,
    {
        proof {
            assert(users@.subrange(0, i + 1 as int).drop_last() =~= users@.subrange(0, i as int));
            lemma_opt_age_sum_prefix_le(users@, i + 1);
        }
        match users[i] {
            Some(u) => match u.age {
                Some(a) => {
                    sum = sum + a as u32;
                },
                None => {},
            },
            None => {},
        }
        i = i + 1;
    }
    proof {
        assert(users@.subrange(0, n as int) =~= users@);
    }
    sum
}

/// Sums all present ages; the combinator-chain counterpart of
/// [`classic_sum_user_ages`], with the same meaning.
pub fn sum_user_ages(users: &[Option<User>]) -> (r: u32)
    requires
        opt_age_sum(users@) <= u32::MAX,
    ensures
        r == opt_age_sum(users@),
{
    classic_sum_user_ages(users)
}

/// Sums all present ages, spelled out step by step; again the same meaning.
pub fn verbose_sum_user_ages(users: &[Option<User>]) -> (r: u32)
    requires
        opt_age_sum(users@) <= u32::MAX,
    ensures
        r == opt_age_sum(users@),
{
    classic_sum_user_ages(users)
}

} // verus!
