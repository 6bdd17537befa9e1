use spotti::storage::ListenStore;
use spotti::SongRecord;

fn record(played_at: &str, track_id: &str, name: &str) -> SongRecord {
    SongRecord {
        name: Some(String::from(name)),
        album: Some(String::from("Album")),
        artist: Some(String::from("Artist")),
        date: Some(String::from(played_at)),
        id: Some(String::from(track_id)),
    }
}

fn names(rows: &[SongRecord]) -> Vec<String> {
    rows.iter().map(|r| r.name.clone().unwrap_or_default()).collect()
}

#[test]
fn a_new_table_is_empty() {
    let store = ListenStore::new();
    assert_eq!(store.len(), 0);
    assert_eq!(store.read(None), vec![]);
    assert_eq!(store.read(Some(5)), vec![]);
}

#[test]
fn the_same_play_twice_in_one_batch_is_stored_once() {
    let mut store = ListenStore::new();
    store.upsert_batch(vec![
        record("2024-01-01T00:00:00Z", "abc", "first"),
        record("2024-01-01T00:00:00Z", "abc", "second"),
    ]);
    assert_eq!(store.len(), 1);
    assert_eq!(names(&store.read(None)), vec!["first"]);
}

#[test]
fn the_same_play_in_two_batches_is_stored_once_and_not_overwritten() {
    let mut store = ListenStore::new();
    store.upsert_batch(vec![record("2024-01-01T00:00:00Z", "abc", "first")]);
    store.upsert_batch(vec![record("2024-01-01T00:00:00Z", "abc", "second")]);
    assert_eq!(store.len(), 1);
    assert_eq!(store.read(None), vec![record("2024-01-01T00:00:00Z", "abc", "first")]);
    assert!(store.contains(&record("2024-01-01T00:00:00Z", "abc", "anything")));
}

#[test]
fn plays_differ_by_moment_or_by_track() {
    let mut store = ListenStore::new();
    store.upsert(record("2024-01-01T00:00:00Z", "abc", "one"));
    store.upsert(record("2024-01-01T00:00:00Z", "abd", "two"));
    store.upsert(record("2024-01-01T00:00:01Z", "abc", "three"));
    assert_eq!(store.len(), 3);
    assert!(!store.contains(&record("2024-01-01T00:00:01Z", "abd", "four")));
}

#[test]
fn plays_are_listed_from_the_most_recent_on() {
    let mut store = ListenStore::new();
    store.upsert_batch(vec![
        record("2024-01-02T00:00:00Z", "b", "mid"),
        record("2023-12-31T23:59:59Z", "a", "old"),
        record("2024-01-02T00:00:01Z", "c", "new"),
    ]);
    assert_eq!(names(&store.read(None)), vec!["new", "mid", "old"]);
}

#[test]
fn a_limit_gives_the_most_recent_plays() {
    let mut store = ListenStore::new();
    store.upsert_batch(vec![
        record("2024-01-01T00:00:00Z", "a", "1"),
        record("2024-01-04T00:00:00Z", "d", "4"),
        record("2024-01-02T00:00:00Z", "b", "2"),
        record("2024-01-05T00:00:00Z", "e", "5"),
        record("2024-01-03T00:00:00Z", "c", "3"),
    ]);
    assert_eq!(names(&store.read(Some(2))), vec!["5", "4"]);
    assert_eq!(names(&store.read(Some(0))), Vec::<String>::new());
    assert_eq!(names(&store.read(Some(5))), vec!["5", "4", "3", "2", "1"]);
    assert_eq!(names(&store.read(Some(6))), vec!["5", "4", "3", "2", "1"]);
    assert_eq!(names(&store.read(Some(u32::MAX))), vec!["5", "4", "3", "2", "1"]);
    assert_eq!(names(&store.read(None)), vec!["5", "4", "3", "2", "1"]);
    let all = store.read(None);
    for k in 0..=6u32 {
        let some = store.read(Some(k));
        assert!(some.len() <= k as usize);
        assert_eq!(some[..], all[..some.len()]);
    }
}

#[test]
fn plays_of_the_same_second_stay_in_the_order_they_came() {
    let mut store = ListenStore::new();
    store.upsert(record("2024-01-01T00:00:00.100Z", "a", "first"));
    store.upsert(record("2024-01-01T00:00:00.900Z", "b", "second"));
    store.upsert(record("2024-01-01T00:00:00Z", "c", "third"));
    assert_eq!(names(&store.read(None)), vec!["first", "second", "third"]);
}

#[test]
fn plays_without_a_readable_moment_come_last() {
    let mut store = ListenStore::new();
    store.upsert(record("some time ago", "a", "unreadable"));
    store.upsert(SongRecord { name: Some(String::from("null")), album: None, artist: None, date: None, id: None });
    store.upsert(record("1970-01-01T00:00:00Z", "b", "epoch"));
    store.upsert(record("2024-01-01T00:00:00Z", "c", "recent"));
    assert_eq!(names(&store.read(None)), vec!["recent", "epoch", "unreadable", "null"]);
}

#[test]
fn reading_gives_copies() {
    let mut store = ListenStore::new();
    store.upsert(record("2024-01-01T00:00:00Z", "a", "one"));
    let mut rows = store.read(None);
    rows[0].name = Some(String::from("changed"));
    assert_eq!(names(&store.read(None)), vec!["one"]);
}
