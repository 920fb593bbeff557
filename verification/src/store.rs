//! The in-memory user store: create with a fresh identifier, lookup by name
//! with duplicate detection, and simulated backend flakiness.
//!
//! The store is modelled as a sequence of `(id, name)` character-sequence
//! pairs; its invariant is that identifiers are distinct. Lookup scans the
//! whole store: zero matches is "not found", one match is returned, and more
//! than one is reported as corruption, never resolved by an arbitrary pick.

use vstd::prelude::*;

use crate::outside::{fresh_uuid_string, random_ratio};
use crate::text::str_eq;

verus! {

/// Whether a simulated backend operation is available: always, never, or
/// with probability `num / den`.
#[derive(Debug, Clone, Copy)]
pub enum Availability {
    Always,
    Never,
    Ratio(u32, u32),
}

pub open spec fn avail_wf(a: Availability) -> bool {
    match a {
        Availability::Ratio(num, den) => 0 < den && num <= den,
        _ => true,
    }
}

/// Draws one availability decision. `Always` and `Never` are exact; a
/// `Ratio` draw is random and nothing is promised of it.
pub fn draw(a: Availability) -> (r: bool)
    requires
        avail_wf(a),
    ensures
        a is Always ==> r,
        a is Never ==> !r,
{
    match a {
        Availability::Always => true,
        Availability::Never => false,
        Availability::Ratio(num, den) => random_ratio(num, den),
    }
}

/// A stored user record: an identifier assigned at creation time and the
/// caller-supplied name.
#[derive(Debug)]
pub struct User {
    pub id: String,
    pub name: String,
}

impl Clone for User {
    fn clone(&self) -> (r: Self)
        ensures
            r == *self,
    {
        User { id: self.id.clone(), name: self.name.clone() }
    }
}

/// The request to create a user.
pub struct NewUser {
    name: String,
}

impl NewUser {
    pub fn new(name: &str) -> (r: Self)
        ensures
            r.name_view() == name@,
    {
        Self { name: name.to_owned() }
    }

    pub closed spec fn name_view(&self) -> Seq<char> {
        self.name@
    }
}

/// The request to look a user up by name.
pub struct ReadUser<'a> {
    name: &'a str,
}

impl<'a> ReadUser<'a> {
    pub fn new(name: &'a str) -> (r: Self)
        ensures
            r.name_view() == name@,
    {
        Self { name }
    }

    pub closed spec fn name_view(&self) -> Seq<char> {
        self.name@
    }
}

/// The two internal error kinds of the store. Both surface as an HTTP 500,
/// but stay distinguishable for logging and triage.
#[derive(Debug, Clone, Copy, PartialEq, Eq)]
pub enum StoreError {
    /// Transient simulated storage failure.
    BackendUnavailable,
    /// The store holds more than one user with the looked-up name.
    Corrupt,
}

/// A record of the store's model: the identifier and the name, as
/// character sequences.
pub open spec fn record_of(u: User) -> (Seq<char>, Seq<char>) {
    (u.id@, u.name@)
}

/// The store's contents as `(id, name)` pairs.
pub open spec fn store_model(users: Seq<User>) -> Seq<(Seq<char>, Seq<char>)> {
    users.map_values(|u: User| record_of(u))
}

/// Some record of `m` carries the identifier `id`.
pub open spec fn model_has_id(m: Seq<(Seq<char>, Seq<char>)>, id: Seq<char>) -> bool {
    exists|i: int| 0 <= i < m.len() && #[trigger] m[i].0 == id
}

/// All identifiers of `m` are distinct.
pub open spec fn model_ids_distinct(m: Seq<(Seq<char>, Seq<char>)>) -> bool {
    forall|i: int, j: int| 0 <= i < j < m.len() ==> #[trigger] m[i].0 != #[trigger] m[j].0
}

/// Inserting under an identifier: a fresh identifier appends a record, an
/// existing one has its record replaced, as a map keyed by identifier would.
pub open spec fn model_insert(
    m: Seq<(Seq<char>, Seq<char>)>,
    id: Seq<char>,
    name: Seq<char>,
) -> Seq<(Seq<char>, Seq<char>)> {
    if model_has_id(m, id) {
        m.map_values(|p: (Seq<char>, Seq<char>)| if p.0 == id { (id, name) } else { p })
    } else {
        m.push((id, name))
    }
}

/// The records of `m` whose name is `name`, in store order.
pub open spec fn matches_for(
    m: Seq<(Seq<char>, Seq<char>)>,
    name: Seq<char>,
) -> Seq<(Seq<char>, Seq<char>)> {
    m.filter(|p: (Seq<char>, Seq<char>)| p.1 == name)
}

/// The keyed user store, with one availability setting per operation.
pub struct UserManager {
    pub storage: Vec<User>,
    pub create_availability: Availability,
    pub read_availability: Availability,
}

impl UserManager {
    /// The store's contents as `(id, name)` pairs.
    pub open spec fn model(&self) -> Seq<(Seq<char>, Seq<char>)> {
        store_model(self.storage@)
    }

    /// Well-formed: stored identifiers are distinct and the availability
    /// settings denote probabilities.
    pub open spec fn wf(&self) -> bool {
        &&& model_ids_distinct(self.model())
        &&& avail_wf(self.create_availability)
        &&& avail_wf(self.read_availability)
    }

    pub open spec fn same_availability(&self, other: &Self) -> bool {
        &&& self.create_availability == other.create_availability
        &&& self.read_availability == other.read_availability
    }

    /// An empty store with the simulated failure rates of the demo backend:
    /// creation fails 1 time in 5, reading 1 time in 2.
    pub fn new() -> (r: Self)
        ensures
            r.wf(),
            r.model() == Seq::<(Seq<char>, Seq<char>)>::empty(),
            r.create_availability == Availability::Ratio(4, 5),
            r.read_availability == Availability::Ratio(1, 2),
    {
        let r = Self {
            storage: Vec::new(),
            create_availability: Availability::Ratio(4, 5),
            read_availability: Availability::Ratio(1, 2),
        };
        proof {
            assert(r.model() =~= Seq::<(Seq<char>, Seq<char>)>::empty());
        }
        r
    }

    /// An empty store whose simulated backend never fails; the deterministic
    /// stand-in for tests and drivers.
    pub fn always_available() -> (r: Self)
        ensures
            r.wf(),
            r.model() == Seq::<(Seq<char>, Seq<char>)>::empty(),
            r.create_availability == Availability::Always,
            r.read_availability == Availability::Always,
    {
        let r = Self {
            storage: Vec::new(),
            create_availability: Availability::Always,
            read_availability: Availability::Always,
        };
        proof {
            assert(r.model() =~= Seq::<(Seq<char>, Seq<char>)>::empty());
        }
        r
    }

    /// The deterministic core of user creation: given the availability
    /// decision and the generated identifier, either reports the backend
    /// unavailable and leaves the store alone, or inserts the record and
    /// returns its identifier.
    pub fn create_with_id(&mut self, new_user: NewUser, id: &str, available: bool) -> (r: Result<
        String,
        StoreError,
    >)
        requires
            old(self).wf(),
        ensures
            final(self).wf(),
            final(self).same_availability(old(self)),
            r is Ok <==> available,
            match r {
                Ok(rid) => rid@ == id@ && final(self).model() == model_insert(
                    old(self).model(),
                    id@,
                    new_user.name_view(),
                ),
                Err(e) => e == StoreError::BackendUnavailable && final(self).model() == old(
                    self,
                ).model(),
            },
    {
        if !available {
            return Err(StoreError::BackendUnavailable);
        }
        let idx_opt = self.find_id(id);
        let user = User { id: id.to_owned(), name: new_user.name };
        let ghost m0 = self.model();
        match idx_opt {
            Some(j) => {
                self.storage[j] = user;
                proof {
                    assert(m0[j as int].0 == id@);
                    assert(model_has_id(m0, id@));
                    let target = m0.map_values(
                        |p: (Seq<char>, Seq<char>)| if p.0 == id@ {
                            (id@, new_user.name_view())
                        } else {
                            p
                        },
                    );
                    assert forall|k: int| 0 <= k < m0.len() implies self.model()[k] == target[k] by {
                        if k != j {
                            assert(m0[k].0 != id@);
                        }
                    }
                    assert(self.model() =~= target);
                }
                Ok(id.to_owned())
            },
            None => {
                self.storage.push(user);
                proof {
                    assert forall|k: int| 0 <= k < m0.len() implies m0[k].0 != id@ by {
                        assert(old(self).storage@[k].id@ != id@);
                    }
                    assert(!model_has_id(m0, id@));
                    assert(self.model() =~= m0.push((id@, new_user.name_view())));
                }
                Ok(id.to_owned())
            },
        }
    }

    /// The position of the record stored under `id`, if any.
    fn find_id(&self, id: &str) -> (r: Option<usize>)
        ensures
            match r {
                Some(j) => j < self.storage@.len() && self.storage@[j as int].id@ == id@,
                None => forall|j: int|
                    0 <= j < self.storage@.len() ==> #[trigger] self.storage@[j].id@ != id@,
            },
    {
        let n = self.storage.len();
        let mut i: usize = 0;
        while i < n
            invariant
                0 <= i <= n,
                n == self.storage@.len(),
                forall|j: int| 0 <= j < i ==> #[trigger] self.storage@[j].id@ != id@,
            decreases n - i,
        {
            if str_eq(self.storage[i].id.as_str(), id) {
                return Some(i);
            }
            i = i + 1;
        }
        None
    }

    /// Creates a user under a freshly generated identifier, simulating
    /// backend failure first. On success the store holds the new record
    /// under the returned 36-character identifier; on failure it is
    /// untouched and the error is `BackendUnavailable`.
    pub fn create(&mut self, new_user: NewUser) -> (r: Result<String, StoreError>)
        requires
            old(self).wf(),
        ensures
            final(self).wf(),
            final(self).same_availability(old(self)),
            old(self).create_availability is Always ==> r is Ok,
            old(self).create_availability is Never ==> r is Err,
            match r {
                Ok(id) => id@.len() == 36 && final(self).model() == model_insert(
                    old(self).model(),
                    id@,
                    new_user.name_view(),
                ),
                Err(e) => e == StoreError::BackendUnavailable && final(self).model() == old(
                    self,
                ).model(),
            },
    {
        let available = draw(self.create_availability);
        if !available {
            return Err(StoreError::BackendUnavailable);
        }
        let id = fresh_uuid_string();
        self.create_with_id(new_user, id.as_str(), true)
    }

    /// The deterministic core of lookup: scans the whole store for exact
    /// name matches. Zero matches is `Ok(None)`, exactly one is returned,
    /// and several are a `Corrupt` error.
    pub fn lookup_by_name(&self, name: &str) -> (r: Result<Option<User>, StoreError>)
        ensures
            match r {
                Ok(None) => matches_for(self.model(), name@).len() == 0,
                Ok(Some(u)) => {
                    let found = matches_for(self.model(), name@);
                    found.len() == 1 && u.id@ == found[0].0 && u.name@ == found[0].1
                },
                Err(e) => e == StoreError::Corrupt && matches_for(self.model(), name@).len() > 1,
            },
    {
        broadcast use vstd::seq_lib::group_filter_ensures;

        let n = self.storage.len();
        let mut count: usize = 0;
        let mut first: usize = 0;
        let mut i: usize = 0;
        while i < n
            invariant
                0 <= i <= n,
                n == self.storage@.len(),
                count == matches_for(store_model(self.storage@.subrange(0, i as int)), name@).len(),
                count > 0 ==> first < i && self.storage@[first as int].name@ == name@
                    && record_of(self.storage@[first as int]) == matches_for(
                    store_model(self.storage@.subrange(0, i as int)),
                    name@,
                )[0],
            decreases n - i,
        {
            let ghost pre = store_model(self.storage@.subrange(0, i as int));
            let ghost ext = store_model(self.storage@.subrange(0, i + 1 as int));
            proof {
                assert(self.storage@.subrange(0, i + 1 as int).drop_last() =~= self.storage@
                    .subrange(0, i as int));
                assert(ext.drop_last() =~= pre);
                lemma_filter_unfold(ext, |p: (Seq<char>, Seq<char>)| p.1 == name@);
            }
            if str_eq(self.storage[i].name.as_str(), name) {
                if count == 0 {
                    first = i;
                }
                count = count + 1;
            }
            i = i + 1;
        }
        proof {
            assert(self.storage@.subrange(0, n as int) =~= self.storage@);
        }
        if count == 0 {
            Ok(None)
        } else if count == 1 {
            Ok(Some(self.storage[first].clone()))
        } else {
            Err(StoreError::Corrupt)
        }
    }

    /// Looks a user up by name, simulating backend failure first. The store
    /// itself is never changed by a read.
    pub fn read_by_name(&mut self, user: ReadUser) -> (r: Result<Option<User>, StoreError>)
        requires
            old(self).wf(),
        ensures
            *final(self) == *old(self),
            old(self).read_availability is Always ==> r != Err::<Option<User>, StoreError>(
                StoreError::BackendUnavailable,
            ),
            match r {
                Ok(None) => matches_for(old(self).model(), user.name_view()).len() == 0,
                Ok(Some(u)) => {
                    let found = matches_for(old(self).model(), user.name_view());
                    found.len() == 1 && u.id@ == found[0].0 && u.name@ == found[0].1
                },
                Err(e) => match e {
                    StoreError::BackendUnavailable => true,
                    StoreError::Corrupt => matches_for(old(self).model(), user.name_view()).len()
                        > 1,
                },
            },
    {
        let available = draw(self.read_availability);
        if !available {
            return Err(StoreError::BackendUnavailable);
        }
        self.lookup_by_name(user.name)
    }
}

/// Appending a record extends the matches for a name by that record
/// exactly when its name agrees.
pub proof fn lemma_matches_for_push(
    m: Seq<(Seq<char>, Seq<char>)>,
    rec: (Seq<char>, Seq<char>),
    name: Seq<char>,
)
    ensures
        matches_for(m.push(rec), name) == if rec.1 == name {
            matches_for(m, name).push(rec)
        } else {
            matches_for(m, name)
        },
{
    reveal(Seq::filter);
    assert(m.push(rec).drop_last() =~= m);
    assert(m.push(rec).last() == rec);
}

/// One step of `Seq::filter`, peeled at the back.
pub proof fn lemma_filter_unfold<A>(s: Seq<A>, pred: spec_fn(A) -> bool)
    requires
        s.len() > 0,
    ensures
        s.filter(pred) == if pred(s.last()) {
            s.drop_last().filter(pred).push(s.last())
        } else {
            s.drop_last().filter(pred)
        },
{
    reveal(Seq::filter);
}

} // verus!
