//! The laws of the store, stated over its model. `MovieStore::upsert` ensures
//! that the new store model is the old one with the record's entry inserted,
//! and `MovieStore::fetch` returns exactly the entry under the requested
//! identifier; these proof functions state what follows for whole histories
//! of such operations.

use vstd::prelude::*;

use crate::store::MovieView;

verus! {

/// The store model after the records of `ms` are upserted in order, starting
/// from the model `s`: each step inserts the record under its identifier,
/// exactly as `MovieStore::upsert` ensures.
pub open spec fn upsert_all(
    s: Map<Seq<char>, MovieView>,
    ms: Seq<MovieView>,
) -> Map<Seq<char>, MovieView>
    decreases ms.len(),
{
    if ms.len() == 0 {
        s
    } else {
        upsert_all(s, ms.drop_last()).insert(ms.last().id, ms.last())
    }
}

/// Fetch-after-upsert: once a record is stored, a lookup of its identifier
/// finds exactly that record.
pub proof fn lemma_fetch_after_upsert(s: Map<Seq<char>, MovieView>, m: MovieView)
    ensures
        s.insert(m.id, m).contains_key(m.id),
        s.insert(m.id, m)[m.id] == m,
{
}

/// Fetch-miss: an identifier absent from the store that no upsert of the
/// history carries stays absent, so a lookup of it reports not-found.
pub proof fn lemma_fetch_miss(s: Map<Seq<char>, MovieView>, ms: Seq<MovieView>, id: Seq<char>)
    requires
        !s.contains_key(id),
        forall|i: int| 0 <= i < ms.len() ==> ms[i].id != id,
    ensures
        !upsert_all(s, ms).contains_key(id),
    decreases ms.len(),
{
    if ms.len() > 0 {
        assert(forall|i: int|
            0 <= i < ms.drop_last().len() ==> #[trigger] ms.drop_last()[i].id != id);
        lemma_fetch_miss(s, ms.drop_last(), id);
    }
}

/// Overwrite: two upserts to the same identifier leave exactly the second
/// record under it — never the first, never a mixture of the two.
pub proof fn lemma_overwrite(s: Map<Seq<char>, MovieView>, m1: MovieView, m2: MovieView)
    requires
        m2.id == m1.id,
    ensures
        s.insert(m1.id, m1).insert(m2.id, m2).contains_key(m1.id),
        s.insert(m1.id, m1).insert(m2.id, m2)[m1.id] == m2,
{
}

/// Isolation: after upserts of records with pairwise-distinct identifiers, a
/// lookup of each identifier finds exactly the record that carried it, with
/// no cross-contamination. Under the store's lock, racing upserts serialize
/// into some order; with distinct identifiers every order yields this map.
pub proof fn lemma_distinct_upserts(s: Map<Seq<char>, MovieView>, ms: Seq<MovieView>, i: int)
    requires
        forall|j: int, k: int| 0 <= j < k < ms.len() ==> ms[j].id != ms[k].id,
        0 <= i < ms.len(),
    ensures
        upsert_all(s, ms).contains_key(ms[i].id),
        upsert_all(s, ms)[ms[i].id] == ms[i],
    decreases ms.len(),
{
    if i < ms.len() - 1 {
        assert forall|j: int, k: int|
            0 <= j < k < ms.drop_last().len() implies ms.drop_last()[j].id
            != ms.drop_last()[k].id by {
            assert(ms.drop_last()[j] == ms[j]);
            assert(ms.drop_last()[k] == ms[k]);
        }
        lemma_distinct_upserts(s, ms.drop_last(), i);
        assert(ms.drop_last()[i] == ms[i]);
        assert(ms.last().id != ms[i].id);
    }
}

/// No implicit deletion: upserts never remove an entry, so every identifier
/// the store holds stays fetchable across any further history; and where no
/// upsert of that history carries the identifier, its record is unchanged.
pub proof fn lemma_no_deletion(s: Map<Seq<char>, MovieView>, ms: Seq<MovieView>, id: Seq<char>)
    requires
        s.contains_key(id),
    ensures
        upsert_all(s, ms).contains_key(id),
        (forall|i: int| 0 <= i < ms.len() ==> ms[i].id != id) ==> upsert_all(s, ms)[id] == s[id],
    decreases ms.len(),
{
    if ms.len() > 0 {
        lemma_no_deletion(s, ms.drop_last(), id);
        if forall|i: int| 0 <= i < ms.len() ==> ms[i].id != id {
            assert(forall|i: int|
                0 <= i < ms.drop_last().len() ==> #[trigger] ms.drop_last()[i].id != id);
        }
    }
}

} // verus!
