use score_relay::score::{ScoreStore, DEFAULT_THRESHOLD_NS};

fn name(text: &str) -> String {
    text.to_string()
}

#[test]
fn a_new_store_is_empty() {
    let store = ScoreStore::starting_at(42);
    assert!(store.is_empty());
    assert_eq!(store.last_submit_at(), 42);
    assert_eq!(store.count(&name("Alice")), 0);
}

#[test]
fn a_store_made_now_is_empty() {
    let store = ScoreStore::new();
    assert!(store.is_empty());
}

#[test]
fn increment_creates_an_entry_with_count_one() {
    let mut store = ScoreStore::starting_at(0);
    store.increment(name("Alice"));
    assert_eq!(store.count(&name("Alice")), 1);
    assert_eq!(store.count(&name("Bob")), 0);
    assert!(!store.is_empty());
}

#[test]
fn every_increment_is_counted() {
    let workers: u64 = 8;
    let rounds: u64 = 250;
    let mut store = ScoreStore::starting_at(0);
    for _ in 0..rounds {
        for _ in 0..workers {
            store.increment(name("shared"));
        }
    }
    assert_eq!(store.count(&name("shared")), workers * rounds);
}

#[test]
fn interleaved_names_are_counted_apart() {
    let mut store = ScoreStore::starting_at(0);
    for round in 0..30u64 {
        store.increment(name("Alice"));
        if round % 2 == 0 {
            store.increment(name("Bob"));
        }
        if round % 3 == 0 {
            store.increment(name("Carol"));
        }
    }
    assert_eq!(store.count(&name("Alice")), 30);
    assert_eq!(store.count(&name("Bob")), 15);
    assert_eq!(store.count(&name("Carol")), 10);
    assert_eq!(store.count(&name("alice")), 0);
}

#[test]
fn the_order_of_submissions_does_not_matter() {
    let mut one = ScoreStore::starting_at(0);
    let mut other = ScoreStore::starting_at(0);
    for text in ["a", "b", "a", "c", "b", "a"] {
        one.increment(name(text));
    }
    for text in ["c", "a", "a", "b", "a", "b"] {
        other.increment(name(text));
    }
    for text in ["a", "b", "c", "d"] {
        assert_eq!(one.count(&name(text)), other.count(&name(text)));
    }
}

#[test]
fn the_empty_name_is_a_name() {
    let mut store = ScoreStore::starting_at(0);
    store.increment(name(""));
    store.increment(name(""));
    assert_eq!(store.count(&name("")), 2);
}

#[test]
fn a_flush_inside_the_window_returns_nothing() {
    let mut store = ScoreStore::starting_at(1_000);
    store.increment(name("Alice"));
    let flushed = store.try_flush(1_000 + DEFAULT_THRESHOLD_NS - 1, DEFAULT_THRESHOLD_NS);
    assert!(flushed.is_none());
    assert_eq!(store.count(&name("Alice")), 1);
    assert_eq!(store.last_submit_at(), 1_000);
}

#[test]
fn a_flush_at_the_end_of_the_window_hands_out_the_tally() {
    let mut store = ScoreStore::starting_at(1_000);
    store.increment(name("Alice"));
    store.increment(name("Alice"));
    store.increment(name("Bob"));
    let flushed = store.try_flush(1_000 + DEFAULT_THRESHOLD_NS, DEFAULT_THRESHOLD_NS);
    let payload = flushed.expect("the window has passed");
    assert_eq!(payload.count(&name("Alice")), 2);
    assert_eq!(payload.count(&name("Bob")), 1);
    assert_eq!(payload.count(&name("Carol")), 0);
    assert_eq!(payload.last_submit_at(), 1_000);
    assert_eq!(payload.entries().len(), 2);
    assert!(store.is_empty());
    assert_eq!(store.count(&name("Alice")), 0);
    assert_eq!(store.last_submit_at(), 1_000 + DEFAULT_THRESHOLD_NS);
}

#[test]
fn two_flushes_in_one_window_hand_out_one_payload() {
    let mut store = ScoreStore::starting_at(0);
    store.increment(name("Alice"));
    let first = store.try_flush(7_000_000_000, DEFAULT_THRESHOLD_NS);
    store.increment(name("Bob"));
    let second = store.try_flush(7_000_000_000 + DEFAULT_THRESHOLD_NS - 1, DEFAULT_THRESHOLD_NS);
    assert!(first.is_some());
    assert!(second.is_none());
    assert_eq!(store.count(&name("Bob")), 1);
    assert_eq!(store.last_submit_at(), 7_000_000_000);
}

#[test]
fn two_early_flushes_hand_out_nothing() {
    let mut store = ScoreStore::starting_at(10);
    store.increment(name("Alice"));
    assert!(store.try_flush(11, 100).is_none());
    assert!(store.try_flush(12, 100).is_none());
    assert_eq!(store.count(&name("Alice")), 1);
}

#[test]
fn a_clock_that_runs_backwards_does_not_flush() {
    let mut store = ScoreStore::starting_at(1_000);
    store.increment(name("Alice"));
    assert!(store.try_flush(999, 0).is_none());
    assert!(store.try_flush(0, DEFAULT_THRESHOLD_NS).is_none());
    assert_eq!(store.count(&name("Alice")), 1);
    assert_eq!(store.last_submit_at(), 1_000);
}

#[test]
fn a_window_of_zero_always_flushes() {
    let mut store = ScoreStore::starting_at(5);
    assert!(store.try_flush(5, 0).is_some());
    assert!(store.try_flush(5, 0).is_some());
}

#[test]
fn an_empty_tally_is_flushed_too() {
    let mut store = ScoreStore::starting_at(0);
    let payload = store.try_flush(DEFAULT_THRESHOLD_NS, DEFAULT_THRESHOLD_NS).expect("the window has passed");
    assert_eq!(payload.entries().len(), 0);
    assert_eq!(store.last_submit_at(), DEFAULT_THRESHOLD_NS);
}

#[test]
fn an_increment_before_the_flush_is_in_the_snapshot_only() {
    let mut store = ScoreStore::starting_at(0);
    store.increment(name("Alice"));
    let payload = store.try_flush(100, 10).expect("the window has passed");
    assert_eq!(payload.count(&name("Alice")), 1);
    assert_eq!(store.count(&name("Alice")), 0);
}

#[test]
fn an_increment_after_the_flush_is_in_the_new_window_only() {
    let mut store = ScoreStore::starting_at(0);
    let payload = store.try_flush(100, 10).expect("the window has passed");
    store.increment(name("Alice"));
    assert_eq!(payload.count(&name("Alice")), 0);
    assert_eq!(store.count(&name("Alice")), 1);
}

#[test]
fn a_snapshot_is_a_copy() {
    let mut store = ScoreStore::starting_at(0);
    store.increment(name("Alice"));
    let payload = store.try_flush(100, 10).expect("the window has passed");
    for _ in 0..5 {
        store.increment(name("Alice"));
    }
    assert_eq!(payload.count(&name("Alice")), 1);
    let entries = payload.entries();
    assert_eq!(entries.len(), 1);
    assert_eq!(entries[0].key, "Alice");
    assert_eq!(entries[0].value, 1);
}

#[test]
fn the_window_defaults_to_five_seconds() {
    assert_eq!(DEFAULT_THRESHOLD_NS, 5_000_000_000);
}

#[test]
fn a_store_made_now_does_not_flush_at_once() {
    let mut store = ScoreStore::new();
    store.increment(name("Alice"));
    assert!(store.try_submit_score().is_none());
    assert_eq!(store.count(&name("Alice")), 1);
}

#[test]
fn record_counts_and_then_flushes() {
    let mut store = ScoreStore::starting_at(0);
    assert!(store.record(name("Alice"), 5, 10).is_none());
    let payload = store.record(name("Alice"), 10, 10).expect("the window has passed");
    assert_eq!(payload.count(&name("Alice")), 2);
    assert!(store.is_empty());
    assert_eq!(store.last_submit_at(), 10);
}

#[test]
fn the_last_hand_over_never_moves_back() {
    let mut store = ScoreStore::starting_at(50);
    let mut last = store.last_submit_at();
    for now in [40u64, 55, 60, 10, 61, 200, 199, 1_000] {
        let _ = store.try_flush(now, 7);
        assert!(store.last_submit_at() >= last);
        last = store.last_submit_at();
    }
    assert_eq!(last, 1_000);
}
