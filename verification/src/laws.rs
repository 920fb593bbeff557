//! The store-level guarantees of the service, stated over the same model
//! that the store's contracts use.

use vstd::prelude::*;

use crate::store::{
    lemma_matches_for_push, matches_for, model_has_id, model_ids_distinct, model_insert,
};

verus! {

/// Creating a user under a fresh identifier and then looking its name up
/// finds exactly that user: the name matches the input and the identifier
/// is the fresh, previously unseen one. Holds for every store in which the
/// name was not yet taken.
pub proof fn lemma_create_then_read_finds_user(
    m: Seq<(Seq<char>, Seq<char>)>,
    id: Seq<char>,
    name: Seq<char>,
)
    requires
        model_ids_distinct(m),
        !model_has_id(m, id),
        matches_for(m, name).len() == 0,
    ensures
        ({
            let m2 = model_insert(m, id, name);
            &&& m2.len() == m.len() + 1
            &&& model_ids_distinct(m2)
            &&& matches_for(m2, name).len() == 1
            &&& matches_for(m2, name)[0] == (id, name)
        }),
{
    let m2 = model_insert(m, id, name);
    assert(m2 =~= m.push((id, name)));
    lemma_matches_for_push(m, (id, name), name);
    assert(matches_for(m2, name) =~= matches_for(m, name).push((id, name)));
}

/// Creation is not idempotent: adding the same name twice, each time under
/// a fresh identifier, leaves two distinct records, and a lookup of that
/// name then sees more than one match — the corruption outcome of the
/// store's contract, never an arbitrary pick.
pub proof fn lemma_duplicate_add_corrupts(
    m: Seq<(Seq<char>, Seq<char>)>,
    id1: Seq<char>,
    id2: Seq<char>,
    name: Seq<char>,
)
    requires
        model_ids_distinct(m),
        !model_has_id(m, id1),
        !model_has_id(m, id2),
        id1 != id2,
    ensures
        ({
            let m2 = model_insert(model_insert(m, id1, name), id2, name);
            &&& model_ids_distinct(m2)
            &&& matches_for(m2, name).len() >= 2
            &&& matches_for(m2, name)[matches_for(m2, name).len() - 1] == (id2, name)
            &&& matches_for(m2, name)[matches_for(m2, name).len() - 2] == (id1, name)
        }),
{
    let m1 = model_insert(m, id1, name);
    assert(m1 =~= m.push((id1, name)));
    assert(!model_has_id(m1, id2)) by {
        assert(forall|i: int|
            0 <= i < m.len() ==> #[trigger] m1[i].0 == m[i].0);
    }
    let m2 = model_insert(m1, id2, name);
    assert(m2 =~= m1.push((id2, name)));
    lemma_matches_for_push(m, (id1, name), name);
    lemma_matches_for_push(m1, (id2, name), name);
    assert(matches_for(m2, name) =~= matches_for(m1, name).push((id2, name)));
    assert(matches_for(m1, name) =~= matches_for(m, name).push((id1, name)));
}

/// The identifiers of `entries` are pairwise distinct.
pub open spec fn entry_ids_distinct(entries: Seq<(Seq<char>, Seq<char>)>) -> bool {
    forall|i: int, j: int|
        0 <= i < j < entries.len() ==> #[trigger] entries[i].0 != #[trigger] entries[j].0
}

/// No identifier of `entries` is already taken in `m`.
pub open spec fn entry_ids_fresh(
    m: Seq<(Seq<char>, Seq<char>)>,
    entries: Seq<(Seq<char>, Seq<char>)>,
) -> bool {
    forall|k: int| 0 <= k < entries.len() ==> !model_has_id(m, #[trigger] entries[k].0)
}

/// Inserting a sequence of records one after the other, in order.
pub open spec fn model_insert_all(
    m: Seq<(Seq<char>, Seq<char>)>,
    entries: Seq<(Seq<char>, Seq<char>)>,
) -> Seq<(Seq<char>, Seq<char>)>
    decreases entries.len(),
{
    if entries.len() == 0 {
        m
    } else {
        model_insert(model_insert_all(m, entries.drop_last()), entries.last().0, entries.last().1)
    }
}

/// A run of creations under fresh, pairwise distinct identifiers loses no
/// update: every record is appended, the store grows by exactly the number
/// of creations, all the new identifiers are present afterwards, and the
/// identifiers remain distinct.
pub proof fn lemma_distinct_creates_all_stored(
    m: Seq<(Seq<char>, Seq<char>)>,
    entries: Seq<(Seq<char>, Seq<char>)>,
)
    requires
        model_ids_distinct(m),
        entry_ids_distinct(entries),
        entry_ids_fresh(m, entries),
    ensures
        ({
            let m2 = model_insert_all(m, entries);
            &&& m2 =~= m + entries
            &&& m2.len() == m.len() + entries.len()
            &&& model_ids_distinct(m2)
            &&& forall|k: int|
                0 <= k < entries.len() ==> model_has_id(m2, #[trigger] entries[k].0)
        }),
    decreases entries.len(),
{
    if entries.len() == 0 {
        assert(model_insert_all(m, entries) =~= m + entries);
    } else {
        let head = entries.drop_last();
        let last = entries.last();
        lemma_distinct_creates_all_stored(m, head);
        let m1 = model_insert_all(m, head);
        assert(m1 =~= m + head);
        assert(!model_has_id(m1, last.0)) by {
            assert(forall|i: int|
                0 <= i < m.len() ==> #[trigger] m1[i].0 == m[i].0);
            assert(forall|i: int|
                0 <= i < head.len() ==> m1[m.len() + i].0 == #[trigger] head[i].0);
            if model_has_id(m1, last.0) {
                let w = choose|i: int| 0 <= i < m1.len() && #[trigger] m1[i].0 == last.0;
                if w < m.len() {
                    assert(model_has_id(m, last.0));
                } else {
                    assert(head[w - m.len()].0 == last.0);
                    assert(entries[w - m.len()].0 == entries[entries.len() - 1].0);
                }
            }
        }
        let m2 = model_insert_all(m, entries);
        assert(m2 == model_insert(m1, last.0, last.1));
        assert(m2 =~= m1.push(last));
        assert(m2 =~= m + entries) by {
            assert(m1.push(last) =~= m + head.push(last));
            assert(head.push(last) =~= entries);
        }
        assert forall|k: int| 0 <= k < entries.len() implies model_has_id(
            m2,
            #[trigger] entries[k].0,
        ) by {
            if k < entries.len() - 1 {
                assert(head[k] == entries[k]);
                assert(model_has_id(m1, entries[k].0));
                let w = choose|i: int| 0 <= i < m1.len() && #[trigger] m1[i].0 == entries[k].0;
                assert(m2[w].0 == entries[k].0);
            } else {
                assert(m2[m2.len() - 1].0 == entries[k].0);
            }
        }
    }
}

} // verus!
