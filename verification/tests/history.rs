use mousai::history::HistoryStore;
use mousai::song::Song;

fn song(id: &str, title: &str) -> Song {
    Song {
        id: id.to_string(),
        title: title.to_string(),
        artist: String::new(),
        album_art_link: None,
        preview_link: None,
        recognized_at: 0,
        is_newly_recognized: false,
    }
}

#[test]
fn commit_keeps_most_recent_first() {
    let mut store = HistoryStore::new();
    store.commit(song("a", "First"));
    store.commit(song("b", "Second"));
    store.commit(song("c", "Third"));
    assert_eq!(store.len(), 3);
    assert_eq!(store.get(0).id, "c");
    assert_eq!(store.get(1).id, "b");
    assert_eq!(store.get(2).id, "a");
}

#[test]
fn commit_same_id_moves_to_front_with_new_metadata() {
    let mut store = HistoryStore::new();
    let mut first = song("42", "A");
    first.recognized_at = 100;
    store.commit(first);
    store.commit(song("other", "B"));

    let mut again = song("42", "A");
    again.recognized_at = 200;
    again.is_newly_recognized = true;
    store.commit(again);

    assert_eq!(store.len(), 2);
    assert_eq!(store.get(0).id, "42");
    assert_eq!(store.get(0).title, "A");
    assert_eq!(store.get(0).recognized_at, 200);
    assert!(store.get(0).is_newly_recognized);
    assert_eq!(store.get(1).id, "other");
}

#[test]
fn no_two_entries_share_an_identifier() {
    let mut store = HistoryStore::new();
    for round in 0..3u64 {
        for id in ["x", "y", "z"] {
            let mut s = song(id, "t");
            s.recognized_at = round;
            store.commit(s);
        }
    }
    assert_eq!(store.len(), 3);
    for i in 0..store.len() {
        for j in 0..store.len() {
            if i != j {
                assert_ne!(store.get(i).id, store.get(j).id);
            }
        }
    }
}

#[test]
fn remove_drops_only_that_identifier() {
    let mut store = HistoryStore::new();
    store.commit(song("a", "A"));
    store.commit(song("b", "B"));
    store.commit(song("c", "C"));
    store.remove(&"b".to_string());
    assert_eq!(store.len(), 2);
    assert_eq!(store.get(0).id, "c");
    assert_eq!(store.get(1).id, "a");
    assert!(!store.contains(&"b".to_string()));
    assert!(store.contains(&"a".to_string()));
}

#[test]
fn clear_empties_the_history() {
    let mut store = HistoryStore::new();
    store.commit(song("a", "A"));
    store.clear();
    assert_eq!(store.len(), 0);
    assert!(!store.contains(&"a".to_string()));
}

#[test]
fn persist_then_reload_round_trips() {
    let mut store = HistoryStore::new();
    store.commit(song("a", "First"));
    store.commit(song("b", "Second"));
    store.commit(song("c", "Third"));
    store.commit(song("b", "Second again"));

    let records = store.snapshot();
    let reloaded = HistoryStore::from_records(records);

    assert_eq!(reloaded.len(), store.len());
    for i in 0..store.len() {
        assert_eq!(reloaded.get(i).id, store.get(i).id);
        assert_eq!(reloaded.get(i).title, store.get(i).title);
    }
    assert_eq!(reloaded.get(0).id, "b");
    assert_eq!(reloaded.get(0).title, "Second again");
}

#[test]
fn reload_deduplicates_a_corrupted_backing_store() {
    let records = vec![
        song("a", "keep-first"),
        song("b", "B"),
        song("a", "dropped-duplicate"),
        song("c", "C"),
        song("b", "dropped-too"),
    ];
    let store = HistoryStore::from_records(records);
    assert_eq!(store.len(), 3);
    assert_eq!(store.get(0).id, "a");
    assert_eq!(store.get(0).title, "keep-first");
    assert_eq!(store.get(1).id, "b");
    assert_eq!(store.get(1).title, "B");
    assert_eq!(store.get(2).id, "c");
}

#[test]
fn mark_observed_clears_only_that_entry() {
    let mut store = HistoryStore::new();
    let mut a = song("a", "A");
    a.is_newly_recognized = true;
    let mut b = song("b", "B");
    b.is_newly_recognized = true;
    store.commit(a);
    store.commit(b);

    store.mark_observed(&"b".to_string());

    assert_eq!(store.len(), 2);
    assert!(!store.get(0).is_newly_recognized);
    assert_eq!(store.get(0).id, "b");
    assert!(store.get(1).is_newly_recognized);
    assert_eq!(store.get(1).id, "a");
}
