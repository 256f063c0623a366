use amfm::cache::FALLBACK_DOWNLOAD_SIZE;
use amfm::cache::effective_total;
use amfm::cache::loading_percent;
use amfm::cache::normalize_stations;
use amfm::stations::Station;

fn station(votes: i32, id: &str, name: &str) -> Station {
    Station {
        votes,
        id: id.to_string(),
        url: String::new(),
        country: String::new(),
        name: name.to_string(),
    }
}

#[test]
fn loading_percent_is_exact() {
    assert_eq!(loading_percent(50, 200), 25);
    assert_eq!(loading_percent(0, 60_000_000), 0);
    assert_eq!(loading_percent(999, 1000), 99);
    assert_eq!(loading_percent(1000, 1000), 100);
}

#[test]
fn effective_total_prefers_announced_length() {
    assert_eq!(effective_total(Some(12_345)), 12_345);
    assert_eq!(effective_total(Some(0)), FALLBACK_DOWNLOAD_SIZE);
    assert_eq!(effective_total(None), FALLBACK_DOWNLOAD_SIZE);
    assert_eq!(FALLBACK_DOWNLOAD_SIZE, 60_000_000);
}

#[test]
fn normalize_trims_names_and_sorts_by_popularity() {
    let raw = vec![
        station(3, "low", "  Quiet Corner  "),
        station(99, "top", "\tBig Hits\n"),
        station(10, "mid", "Middle Ground"),
    ];

    let normalized = normalize_stations(raw);

    let summary: Vec<(i32, &str)> = normalized
        .iter()
        .map(|s| (s.votes, s.name.as_str()))
        .collect();
    assert_eq!(
        summary,
        vec![(99, "Big Hits"), (10, "Middle Ground"), (3, "Quiet Corner")]
    );
}

#[test]
fn normalize_breaks_vote_ties_like_the_directory_order() {
    let raw = vec![
        station(5, "aaa", "A"),
        station(5, "zzz", "Z"),
        station(5, "mmm", "M"),
    ];

    let normalized = normalize_stations(raw);

    let ids: Vec<&str> = normalized.iter().map(|s| s.id.as_str()).collect();
    assert_eq!(ids, vec!["zzz", "mmm", "aaa"]);
}

#[test]
fn normalize_keeps_every_entry() {
    let raw = vec![
        station(1, "a", "one"),
        station(2, "b", "two"),
        station(1, "c", "three"),
        station(2, "d", "four"),
    ];

    let normalized = normalize_stations(raw);
    assert_eq!(normalized.len(), 4);
    let votes: Vec<i32> = normalized.iter().map(|s| s.votes).collect();
    assert_eq!(votes, vec![2, 2, 1, 1]);
}
