use mtg_image_downloader::card::{destination_path, Card, CardImages};
use mtg_image_downloader::progress::advance;

fn card(id: &str, name: &str, url: Option<&str>) -> Card {
    Card::new(
        id.to_string(),
        name.to_string(),
        url.map(|u| CardImages::new(u.to_string())),
    )
}

#[test]
fn destination_is_directory_identifier_and_extension() {
    assert_eq!(destination_path("./images", "1"), "./images/1.png");
    assert_eq!(destination_path("out", "abc-def"), "out/abc-def.png");
    assert_eq!(destination_path("", ""), "/.png");
}

#[test]
fn distinct_identifiers_give_distinct_destinations() {
    assert_ne!(destination_path("./images", "1"), destination_path("./images", "2"));
    assert_ne!(destination_path("./images", "1"), destination_path("./images", "11"));
}

#[test]
fn card_knows_its_source_url() {
    let with = card("1", "A", Some("http://x/a.png"));
    let without = card("2", "B", None);
    assert_eq!(with.source_url(), Some(&"http://x/a.png".to_string()));
    assert_eq!(without.source_url(), None);
}

#[test]
fn advance_adds_the_chunk_and_holds_at_the_total() {
    assert_eq!(advance(0, 4, 10), 4);
    assert_eq!(advance(4, 4, 10), 8);
    assert_eq!(advance(8, 4, 10), 10);
    assert_eq!(advance(10, 4, 10), 10);
    assert_eq!(advance(0, 0, 10), 0);
    assert_eq!(advance(0, 0, 0), 0);
    assert_eq!(advance(u64::MAX - 1, 5, u64::MAX), u64::MAX);
    assert_eq!(advance(u64::MAX, usize::MAX, u64::MAX), u64::MAX);
}
