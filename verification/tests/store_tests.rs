use movie_store::shared::SharedStore;
use movie_store::store::Movie;
use movie_store::store::MovieStore;
use movie_store::store::StoreError;

fn movie(id: &str, name: &str, year: u16, was_good: bool) -> Movie {
    Movie { id: id.to_string(), name: name.to_string(), year, was_good }
}

#[test]
fn fetch_after_upsert() {
    let mut store = MovieStore::new();
    let m = movie("tt042", "Blade Runner", 1982, true);
    store.upsert(m.clone());
    assert_eq!(store.fetch(&"tt042".to_string()), Ok(m));
}

#[test]
fn fetch_miss() {
    let store = MovieStore::new();
    assert_eq!(store.fetch(&"never".to_string()), Err(StoreError::NotFound));
    let mut store = MovieStore::new();
    store.upsert(movie("tt001", "Arrival", 2016, true));
    assert_eq!(store.fetch(&"tt002".to_string()), Err(StoreError::NotFound));
}

#[test]
fn overwrite_is_complete() {
    let mut store = MovieStore::new();
    let m1 = movie("tt100", "First Cut", 1999, false);
    let m2 = movie("tt100", "Final Cut", 2007, true);
    store.upsert(m1.clone());
    store.upsert(m2.clone());
    let got = store.fetch(&"tt100".to_string()).unwrap();
    assert_eq!(got, m2);
    assert_ne!(got, m1);
    assert_eq!(got.name, "Final Cut");
    assert_eq!(got.year, 2007);
    assert!(got.was_good);
}

#[test]
fn distinct_ids_stay_isolated() {
    let store = SharedStore::new();
    let n: u16 = 8;
    for k in 0..n {
        store.upsert(movie(&format!("tt{k}"), &format!("Movie {k}"), 2000 + k, k % 2 == 0));
    }
    for k in 0..n {
        let got = store.fetch(&format!("tt{k}")).unwrap();
        assert_eq!(got, movie(&format!("tt{k}"), &format!("Movie {k}"), 2000 + k, k % 2 == 0));
    }
}

#[test]
fn no_implicit_deletion() {
    let mut store = MovieStore::new();
    store.upsert(movie("a", "Alpha", 1990, true));
    store.upsert(movie("b", "Beta", 1991, false));
    store.upsert(movie("c", "Gamma", 1992, true));
    store.upsert(movie("b", "Beta II", 2001, true));
    assert_eq!(store.fetch(&"a".to_string()), Ok(movie("a", "Alpha", 1990, true)));
    assert_eq!(store.fetch(&"b".to_string()), Ok(movie("b", "Beta II", 2001, true)));
    assert_eq!(store.fetch(&"c".to_string()), Ok(movie("c", "Gamma", 1992, true)));
}

#[test]
fn concrete_scenario() {
    let store = SharedStore::new();
    let arrival = movie("tt001", "Arrival", 2016, true);
    let confirmed = store.upsert(arrival.clone());
    assert_eq!(confirmed, arrival);
    assert_eq!(store.fetch(&"tt001".to_string()), Ok(arrival));
    assert_eq!(store.fetch(&"tt999".to_string()), Err(StoreError::NotFound));
}

#[test]
fn empty_id_is_an_ordinary_key() {
    let mut store = MovieStore::new();
    let m = movie("", "Untitled", 2020, false);
    store.upsert(m.clone());
    assert_eq!(store.fetch(&String::new()), Ok(m));
}

#[test]
fn upsert_returns_a_copy_of_the_stored_record() {
    let mut store = MovieStore::new();
    let m = movie("tt007", "Dr. No", 1962, true);
    let confirmed = store.upsert(m.clone());
    assert_eq!(confirmed, m);
}
