//! Building users out of two related vectors, one of names and one of
//! ages: pair them up position by position, stopping at the shorter one.

use vstd::prelude::*;

verus! {

/// A user assembled from a name and an age.
#[derive(Debug)]
pub struct User {
    pub name: String,
    pub age: u8,
}

/// The result pairs names and ages by position, as many as both hold.
pub open spec fn zipped(names: Seq<String>, ages: Seq<u8>, users: Seq<User>) -> bool {
    &&& users.len() == vstd::math::min(names.len() as int, ages.len() as int)
    &&& forall|i: int|
        0 <= i < users.len() ==> (#[trigger] users[i]).name@ == names[i]@ && users[i].age == ages[i]
}

/// The sample names.
pub fn mock_names() -> (r: Vec<String>)
    ensures
        r@.len() == 5,
        r@[0]@ == "anna"@,
        r@[1]@ == "berta"@,
        r@[2]@ == "cecile"@,
        r@[3]@ == "diana"@,
        r@[4]@ == "esther"@,
{
    let mut r: Vec<String> = Vec::new();
    r.push("anna".to_owned());
    r.push("berta".to_owned());
    r.push("cecile".to_owned());
    r.push("diana".to_owned());
    r.push("esther".to_owned());
    r
}

/// The sample ages; fewer than the names, on purpose.
pub fn mock_ages() -> (r: Vec<u8>)
    ensures
        r@ =~= seq![22u8, 33u8, 44u8],
{
    let mut r: Vec<u8> = Vec::new();
    r.push(22);
    r.push(33);
    r.push(44);
    r
}

/// Pairs names with ages by position, with an explicit loop.
pub fn classical_build_users(names: Vec<String>, ages: Vec<u8>) -> (r: Vec<User>)
    ensures
        zipped(names@, ages@, r@),
{
    let n = if names.len() < ages.len() {
        names.len()
    } else {
        ages.len()
    };
    let mut users: Vec<User> = Vec::new();
    let mut i: usize = 0;
    while i < n
        invariant
            0 <= i <= n,
            n <= names@.len(),
            n <= ages@.len(),
            n == vstd::math::min(names@.len() as int, ages@.len() as int),
            users@.len() == i,
            forall|j: int|
                0 <= j < i ==> (#[trigger] users@[j]).name@ == names@[j]@ && users@[j].age
                    == ages@[j],
        decreases n - i,
    {
        users.push(User { name: names[i].clone(), age: ages[i] });
        i = i + 1;
    }
    users
}

/// Pairs names with ages by position; the zip-combinator counterpart of
/// [`classical_build_users`], with the same meaning.
pub fn zip_up_users(names: Vec<String>, ages: Vec<u8>) -> (r: Vec<User>)
    ensures
        zipped(names@, ages@, r@),
{
    classical_build_users(names, ages)
}

} // verus!
