use amfm::stations::Station;
use amfm::stations::StationList;

#[test]
fn country_filtering_test() {
    let mock_stations = vec![Station::mock("GlGlZ", "Israel"), Station::mock("BBC", "UK")];

    let filtered: Vec<&Station> = mock_stations.get_all_in_country("Israel");

    assert_eq!(filtered.len(), 1);
    assert_eq!(filtered[0].country, "Israel");
}

#[test]
fn search_test() {
    let mock_stations = vec![
        Station::mock("glglz - גלגלצ", "Israel"),
        Station::mock("Radio Bossa", "Brazil"),
    ];
    let search: Vec<&Station> = mock_stations.search("GlGlZ");

    assert_eq!(search.len(), 1);
    assert_eq!(search[0].name, "glglz - גלגלצ")
}

#[test]
fn search_is_case_insensitive_both_ways() {
    let stations = vec![
        Station::mock("LOUD ROCK", "US"),
        Station::mock("quiet jazz", "US"),
    ];

    let hits: Vec<&Station> = stations.search("loud");
    assert_eq!(hits.len(), 1);
    assert_eq!(hits[0].name, "LOUD ROCK");

    let hits: Vec<&Station> = stations.search("JAZZ");
    assert_eq!(hits.len(), 1);
    assert_eq!(hits[0].name, "quiet jazz");
}

#[test]
fn search_keeps_directory_order() {
    let stations = vec![
        Station::mock("alpha fm", "A"),
        Station::mock("beta", "B"),
        Station::mock("alphabet radio", "C"),
    ];

    let hits: Vec<&Station> = stations.search("alpha");
    assert_eq!(hits.len(), 2);
    assert_eq!(hits[0].name, "alpha fm");
    assert_eq!(hits[1].name, "alphabet radio");
}

#[test]
fn empty_query_matches_everything() {
    let stations = vec![Station::mock("a", "X"), Station::mock("b", "Y")];
    let hits: Vec<&Station> = stations.search("");
    assert_eq!(hits.len(), 2);
}

#[test]
fn mock_fills_only_name_and_country() {
    let station = Station::mock("Name", "Country");
    assert_eq!(station.name, "Name");
    assert_eq!(station.country, "Country");
    assert_eq!(station.id, "");
    assert_eq!(station.url, "");
    assert_eq!(station.votes, 0);
}
