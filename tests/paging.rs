use plex_to_letterboxd::deserializers::viewed_at_from_timestamp;
use plex_to_letterboxd::pagination::{HistoryAction, WatchHistoryIterator, DEFAULT_PAGE_SIZE};
use plex_to_letterboxd::watch_history::PlexWatchHistoryItem;

fn record(i: u32) -> PlexWatchHistoryItem {
    PlexWatchHistoryItem {
        title: format!("Film {}", i),
        rating_key: Some(format!("{}", 1000 + i)),
        library_section_id: "1".to_string(),
        viewed_at: "2024-01-15".to_string(),
    }
}

fn records(n: u32) -> Vec<PlexWatchHistoryItem> {
    (0..n).map(record).collect()
}

fn serve(all: &[PlexWatchHistoryItem], offset: u32, size: u32) -> Vec<PlexWatchHistoryItem> {
    let start = (offset as usize).min(all.len());
    let end = (offset as usize + size as usize).min(all.len());
    all[start..end].to_vec()
}

/// Asks for one record, fetching from `all` when the sequence says so.
/// Returns what the consumer gets and the fetch made, if any.
fn produce(
    it: &mut WatchHistoryIterator,
    all: &[PlexWatchHistoryItem],
) -> (Option<Result<PlexWatchHistoryItem, String>>, Option<(u32, u32, usize)>) {
    match it.next_action() {
        HistoryAction::Emit(item) => (Some(Ok(item)), None),
        HistoryAction::End => (None, None),
        HistoryAction::Fetch { offset, page_size } => {
            let page = serve(all, offset, page_size);
            let n = page.len();
            (it.receive_page::<String>(Ok(page)), Some((offset, page_size, n)))
        }
    }
}

/// Drains the sequence; returns the records and the fetches made.
fn drain(
    it: &mut WatchHistoryIterator,
    all: &[PlexWatchHistoryItem],
) -> (Vec<PlexWatchHistoryItem>, Vec<(u32, u32, usize)>) {
    let mut out = Vec::new();
    let mut fetches = Vec::new();
    loop {
        let (r, f) = produce(it, all);
        if let Some(f) = f {
            fetches.push(f);
        }
        match r {
            Some(Ok(item)) => out.push(item),
            Some(Err(e)) => panic!("unexpected error {}", e),
            None => return (out, fetches),
        }
    }
}

#[test]
fn scenario_two_and_a_half_pages() {
    let all = records(250);
    let mut it = WatchHistoryIterator::new("1");
    let (out, fetches) = drain(&mut it, &all);
    assert_eq!(out, all);
    let counts: Vec<usize> = fetches.iter().map(|f| f.2).collect();
    assert_eq!(counts, vec![100, 100, 50]);
    assert_eq!(fetches.len(), 3);
    assert!(it.is_finished());
}

#[test]
fn scenario_exactly_one_full_page() {
    let all = records(100);
    let mut it = WatchHistoryIterator::new("1");
    let (out, fetches) = drain(&mut it, &all);
    assert_eq!(out.len(), 100);
    assert_eq!(out, all);
    let counts: Vec<usize> = fetches.iter().map(|f| f.2).collect();
    assert_eq!(counts, vec![100, 0]);
}

#[test]
fn empty_history_takes_one_fetch() {
    let all = records(0);
    let mut it = WatchHistoryIterator::new("1");
    let (out, fetches) = drain(&mut it, &all);
    assert!(out.is_empty());
    assert_eq!(fetches, vec![(0, DEFAULT_PAGE_SIZE, 0)]);
}

#[test]
fn every_size_yields_all_records_in_order() {
    for p in 1u32..8 {
        for n in 0u32..30 {
            let all = records(n);
            let mut it = WatchHistoryIterator::with_page_size("1", p);
            let (out, fetches) = drain(&mut it, &all);
            assert_eq!(out, all);
            assert_eq!(fetches.len() as u32, n / p + 1);
            if n % p != 0 {
                assert_eq!(fetches.len() as u32, (n + p - 1) / p);
            }
        }
    }
}

#[test]
fn offsets_advance_by_received_count() {
    let all = records(23);
    let mut it = WatchHistoryIterator::with_page_size("7", 10);
    let (_, fetches) = drain(&mut it, &all);
    assert_eq!(fetches, vec![(0, 10, 10), (10, 10, 10), (20, 10, 3)]);
    for k in 1..fetches.len() {
        assert_eq!(fetches[k].0 as usize, fetches[k - 1].0 as usize + fetches[k - 1].2);
    }
    assert_eq!(it.offset(), 23);
    assert_eq!(it.library_section_id(), "7");
    assert_eq!(it.page_size(), 10);
}

#[test]
fn short_page_sets_offset_by_count_not_size() {
    let mut it = WatchHistoryIterator::with_page_size("1", 10);
    assert!(matches!(it.next_action(), HistoryAction::Fetch { offset: 0, page_size: 10 }));
    let r = it.receive_page::<String>(Ok(records(4)));
    assert_eq!(r, Some(Ok(record(0))));
    assert_eq!(it.offset(), 4);
}

#[test]
fn exhaustion_is_idempotent() {
    let all = records(5);
    let mut it = WatchHistoryIterator::with_page_size("1", 10);
    let _ = drain(&mut it, &all);
    for _ in 0..5 {
        let (r, f) = produce(&mut it, &all);
        assert!(r.is_none());
        assert!(f.is_none());
    }
}

#[test]
fn error_is_reported_once_then_sequence_ends() {
    let all = records(15);
    let mut it = WatchHistoryIterator::with_page_size("1", 10);
    let mut got = Vec::new();
    for _ in 0..10 {
        match produce(&mut it, &all).0 {
            Some(Ok(item)) => got.push(item),
            other => panic!("unexpected {:?}", other),
        }
    }
    match it.next_action() {
        HistoryAction::Fetch { offset, .. } => assert_eq!(offset, 10),
        other => panic!("unexpected {:?}", other),
    }
    let r = it.receive_page::<String>(Err("connection reset".to_string()));
    assert_eq!(r, Some(Err("connection reset".to_string())));
    assert!(it.is_finished());
    for _ in 0..3 {
        assert!(matches!(it.next_action(), HistoryAction::End));
    }
    assert_eq!(got, records(10));
}

/// Decodes a page of (title, raw timestamp) pairs; one bad timestamp fails
/// the whole page.
fn decode_page(raw: &[(String, u64)]) -> Result<Vec<PlexWatchHistoryItem>, String> {
    let mut items = Vec::new();
    for (title, ts) in raw {
        let viewed_at = viewed_at_from_timestamp(*ts).map_err(|e| format!("bad timestamp {}", e.timestamp))?;
        items.push(PlexWatchHistoryItem {
            title: title.clone(),
            rating_key: None,
            library_section_id: "1".to_string(),
            viewed_at,
        });
    }
    Ok(items)
}

#[test]
fn scenario_out_of_range_timestamp_fails_its_page() {
    let page1: Vec<(String, u64)> = (0..2).map(|i| (format!("A{}", i), 1705276800)).collect();
    let page2: Vec<(String, u64)> = vec![("B0".to_string(), 1705276800), ("B1".to_string(), u64::MAX)];
    let mut it = WatchHistoryIterator::with_page_size("1", 2);
    let mut out = Vec::new();
    let mut err = None;
    let mut fetches = 0;
    loop {
        let r = match it.next_action() {
            HistoryAction::Emit(item) => Some(Ok(item)),
            HistoryAction::End => None,
            HistoryAction::Fetch { offset, .. } => {
                fetches += 1;
                let raw = if offset == 0 { &page1 } else { &page2 };
                it.receive_page(decode_page(raw))
            }
        };
        match r {
            Some(Ok(item)) => out.push(item.title),
            Some(Err(e)) => err = Some(e),
            None => break,
        }
    }
    assert_eq!(out, vec!["A0".to_string(), "A1".to_string()]);
    assert_eq!(err, Some(format!("bad timestamp {}", u64::MAX)));
    assert_eq!(fetches, 2);
}
