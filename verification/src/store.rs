//! The movie store proper: a single map from identifier to movie record,
//! with fetch-by-id and insert-or-replace (upsert) as its only operations.

use vstd::prelude::*;

verus! {

/// A single movie record. `id` is the identifier under which the store files
/// the record; the remaining fields are free-form and carry no constraints.
#[derive(Debug, PartialEq, Eq)]
pub struct Movie {
    pub id: String,
    pub name: String,
    pub year: u16,
    pub was_good: bool,
}

/// The mathematical value of a `Movie`: its strings as character sequences.
pub struct MovieView {
    pub id: Seq<char>,
    pub name: Seq<char>,
    pub year: u16,
    pub was_good: bool,
}

impl View for Movie {
    type V = MovieView;

    open spec fn view(&self) -> MovieView {
        MovieView { id: self.id@, name: self.name@, year: self.year, was_good: self.was_good }
    }
}

impl Clone for Movie {
    /// An independent copy with the same value: every record crossing the
    /// store boundary is such a copy, never a reference into the store.
    fn clone(&self) -> (r: Self)
        ensures
            r@ == self@,
    {
        Movie {
            id: self.id.clone(),
            name: self.name.clone(),
            year: self.year,
            was_good: self.was_good,
        }
    }
}

/// The one failure the store itself can produce: a lookup of an identifier
/// under which no record is filed.
#[derive(Clone, Copy, Debug, PartialEq, Eq, Structural)]
pub enum StoreError {
    NotFound,
}

/// No two records in the sequence share an identifier, so each identifier
/// denotes at most one record.
pub open spec fn distinct_ids(s: Seq<Movie>) -> bool {
    forall|i: int, j: int| 0 <= i < j < s.len() ==> s[i]@.id != s[j]@.id
}

/// The map a sequence of records denotes: each record filed under its
/// identifier, later records overriding earlier ones.
pub open spec fn map_of(s: Seq<Movie>) -> Map<Seq<char>, MovieView>
    decreases s.len(),
{
    if s.len() == 0 {
        Map::empty()
    } else {
        map_of(s.drop_last()).insert(s.last()@.id, s.last()@)
    }
}

/// The movie store: conceptually a map from identifier to record, held as a
/// vector of records whose identifiers are pairwise distinct.
pub struct MovieStore {
    movies: Vec<Movie>,
}

impl View for MovieStore {
    type V = Map<Seq<char>, MovieView>;

    closed spec fn view(&self) -> Map<Seq<char>, MovieView> {
        map_of(self.movies@)
    }
}

proof fn lemma_distinct_drop_last(s: Seq<Movie>)
    requires
        distinct_ids(s),
        s.len() > 0,
    ensures
        distinct_ids(s.drop_last()),
{
    assert forall|i: int, j: int| 0 <= i < j < s.drop_last().len() implies s.drop_last()[i]@.id
        != s.drop_last()[j]@.id by {
        assert(s.drop_last()[i] == s[i]);
        assert(s.drop_last()[j] == s[j]);
    }
}

/// A record present in a well-formed sequence is what the denoted map files
/// under that record's identifier.
proof fn lemma_map_of_found(s: Seq<Movie>, i: int)
    requires
        distinct_ids(s),
        0 <= i < s.len(),
    ensures
        map_of(s).contains_key(s[i]@.id),
        map_of(s)[s[i]@.id] == s[i]@,
    decreases s.len(),
{
    if i < s.len() - 1 {
        lemma_distinct_drop_last(s);
        lemma_map_of_found(s.drop_last(), i);
        assert(s.drop_last()[i] == s[i]);
        assert(s.last()@.id != s[i]@.id);
    }
}

/// An identifier no record carries is absent from the denoted map.
proof fn lemma_map_of_absent(s: Seq<Movie>, id: Seq<char>)
    requires
        forall|i: int| 0 <= i < s.len() ==> s[i]@.id != id,
    ensures
        !map_of(s).contains_key(id),
    decreases s.len(),
{
    if s.len() > 0 {
        assert(forall|i: int|
            0 <= i < s.drop_last().len() ==> #[trigger] s.drop_last()[i]@.id != id);
        lemma_map_of_absent(s.drop_last(), id);
    }
}

/// Replacing the one record that carries an identifier by a record with the
/// same identifier denotes the map with that entry overwritten.
proof fn lemma_map_of_update(s: Seq<Movie>, i: int, m: Movie)
    requires
        distinct_ids(s),
        0 <= i < s.len(),
        s[i]@.id == m@.id,
    ensures
        distinct_ids(s.update(i, m)),
        map_of(s.update(i, m)) =~= map_of(s).insert(m@.id, m@),
    decreases s.len(),
{
    let t = s.update(i, m);
    assert forall|j: int, k: int| 0 <= j < k < t.len() implies t[j]@.id != t[k]@.id by {
        assert(t[j]@.id == s[j]@.id);
        assert(t[k]@.id == s[k]@.id);
    }
    if i == s.len() - 1 {
        assert(t.drop_last() =~= s.drop_last());
        assert(t.last() == m);
    } else {
        lemma_distinct_drop_last(s);
        assert(s.drop_last()[i] == s[i]);
        lemma_map_of_update(s.drop_last(), i, m);
        assert(t.drop_last() =~= s.drop_last().update(i, m));
        assert(t.last() == s.last());
        assert(s.last()@.id != m@.id);
    }
}

impl MovieStore {
    /// Every identifier denotes at most one record. Established at creation,
    /// preserved by every operation.
    pub closed spec fn wf(&self) -> bool {
        distinct_ids(self.movies@)
    }

    /// A fresh store, holding no records at all.
    pub fn new() -> (s: Self)
        ensures
            s.wf(),
            s@ == Map::<Seq<char>, MovieView>::empty(),
    {
        MovieStore { movies: Vec::new() }
    }

    /// Looks up `id`. Returns a copy of the record filed under it, or
    /// `NotFound` exactly when the store holds no record under `id`.
    pub fn fetch(&self, id: &String) -> (r: Result<Movie, StoreError>)
        requires
            self.wf(),
        ensures
            self@.contains_key(id@) ==> (r matches Ok(m) && m@ == self@[id@]),
            !self@.contains_key(id@) ==> r == Err::<Movie, StoreError>(StoreError::NotFound),
    {
        let mut i: usize = 0;
        while i < self.movies.len()
            invariant
                self.wf(),
                i <= self.movies.len(),
                forall|j: int| 0 <= j < i ==> self.movies@[j]@.id != id@,
            decreases self.movies.len() - i,
        {
            if self.movies[i].id == *id {
                proof {
                    lemma_map_of_found(self.movies@, i as int);
                }
                return Ok(self.movies[i].clone());
            }
            i += 1;
        }
        proof {
            lemma_map_of_absent(self.movies@, id@);
        }
        Err(StoreError::NotFound)
    }

    /// Files `movie` under `movie.id`, replacing unconditionally whatever
    /// record that identifier held before (last-write-wins, no merge), and
    /// returns a copy of the stored record as confirmation. No field is
    /// validated; an empty `id` is an ordinary key.
    pub fn upsert(&mut self, movie: Movie) -> (r: Movie)
        requires
            old(self).wf(),
        ensures
            final(self).wf(),
            final(self)@ == old(self)@.insert(movie@.id, movie@),
            r@ == movie@,
    {
        let ghost s0 = self.movies@;
        let mut i: usize = 0;
        while i < self.movies.len()
            invariant
                self.wf(),
                self.movies@ == s0,
                old(self).movies@ == s0,
                i <= self.movies.len(),
                forall|j: int| 0 <= j < i ==> self.movies@[j]@.id != movie@.id,
            decreases self.movies.len() - i,
        {
            if self.movies[i].id == movie.id {
                let r = movie.clone();
                proof {
                    lemma_map_of_update(s0, i as int, movie);
                }
                self.movies[i] = movie;
                assert(self@ =~= old(self)@.insert(movie@.id, movie@));
                return r;
            }
            i += 1;
        }
        let r = movie.clone();
        self.movies.push(movie);
        proof {
            assert(self.movies@.drop_last() =~= s0);
            assert forall|j: int, k: int|
                0 <= j < k < self.movies@.len() implies self.movies@[j]@.id
                != self.movies@[k]@.id by {
                if k < self.movies@.len() - 1 {
                    assert(self.movies@[j] == s0[j]);
                    assert(self.movies@[k] == s0[k]);
                } else {
                    assert(self.movies@[j] == s0[j]);
                    assert(self.movies@[k] == movie);
                }
            }
            assert(self@ =~= old(self)@.insert(movie@.id, movie@));
        }
        r
    }
}

} // verus!
