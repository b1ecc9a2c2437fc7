use osm_sound_demo::otherman::{
    content_length, items_of, order_items, page_url, release_link, release_url, total_pages,
    Catalogue, ListItem, Release,
};
use serde_json::Value;

fn item(id: &str) -> ListItem {
    ListItem {
        id: id.to_owned(),
        artist1: String::new(),
        artist2: String::new(),
        title: String::new(),
    }
}

fn ids(items: &[ListItem]) -> Vec<&str> {
    items.iter().map(|item| item.id.as_str()).collect()
}

/// A list page with these members, each a release of the same name but for
/// `count`.
fn page(count: Option<u64>, names: &[&str]) -> Value {
    let mut members = serde_json::Map::new();
    if let Some(count) = count {
        members.insert("count".to_owned(), Value::from(count));
    }
    for name in names {
        let mut release = serde_json::Map::new();
        release.insert("id".to_owned(), Value::String(format!("id{name}")));
        members.insert((*name).to_owned(), Value::Object(release));
    }
    Value::Object(members)
}

/// What each member of a page decodes to, in the order the page is walked.
fn decode(page: &Value) -> Vec<Option<ListItem>> {
    match page.as_object() {
        Some(object) => object
            .values()
            .map(|value| value.get("id").and_then(Value::as_str).map(item))
            .collect(),
        None => Vec::new(),
    }
}

#[test]
fn a_label_names_the_release() {
    let mut release = item("OTMN001");
    release.title = "cyber".to_owned();
    release.artist1 = "Ca5".to_owned();
    assert_eq!(release.label(), "[OTMN001] cyber / Ca5");
    release.artist2 = "X ".to_owned();
    assert_eq!(release.label(), "[OTMN001] cyber / Ca5 X");
    release.artist1 = String::new();
    release.artist2 = String::new();
    assert_eq!(release.label(), "[OTMN001] cyber /");
}

#[test]
fn artists_are_named_together() {
    let release = |artist1: &str, artist2: &str| Release {
        id: String::new(),
        artist1: artist1.to_owned(),
        artist2: artist2.to_owned(),
        tracklist: Vec::new(),
    };
    assert_eq!(release("A", "B").artists(), "A B");
    assert_eq!(release("A", "").artists(), "A");
    assert_eq!(release("", "B").artists(), " B");
    assert_eq!(release("", "").artists(), "");
}

#[test]
fn addresses_are_built_from_their_parts() {
    assert_eq!(
        page_url(0),
        "https://www.otherman-records.com/index.php/api/releases/list/0/sort/release-asc"
    );
    assert_eq!(
        page_url(12),
        "https://www.otherman-records.com/index.php/api/releases/list/12/sort/release-asc"
    );
    assert_eq!(
        release_url("OTMN001"),
        "https://www.otherman-records.com/index.php/api/releases/id/OTMN001"
    );
    assert_eq!(
        release_link("OTMN001"),
        "https://www.otherman-records.com/releases/OTMN001"
    );
}

#[test]
fn a_short_last_page_is_a_page() {
    assert_eq!(total_pages(None), 0);
    assert_eq!(total_pages(Some(0)), 0);
    assert_eq!(total_pages(Some(1)), 1);
    assert_eq!(total_pages(Some(12)), 1);
    assert_eq!(total_pages(Some(13)), 2);
}

#[test]
fn a_declared_length_is_read() {
    assert_eq!(content_length(None), None);
    assert_eq!(content_length(Some(" 6800123 ")), Some(6_800_123));
    assert_eq!(content_length(Some("")), None);
    assert_eq!(content_length(Some("-1")), None);
    assert_eq!(content_length(Some("12kb")), None);
}

#[test]
fn members_are_ordered_as_numbers() {
    let page = page(Some(4), &["10", "9", "2", "0"]);
    assert_eq!(
        ids(&items_of(&page, decode(&page))),
        vec!["id0", "id2", "id9", "id10"]
    );
}

#[test]
fn members_that_are_no_releases_are_left_out() {
    let mut listed = page(Some(3), &["1", "0", "x1", "-2"]);
    if let Some(object) = listed.as_object_mut() {
        object.insert("5".to_owned(), Value::Null);
    }
    assert_eq!(ids(&items_of(&listed, decode(&listed))), vec!["id0", "id1"]);
    assert!(items_of(&Value::Null, Vec::new()).is_empty());
    assert!(items_of(&Value::from(3u64), Vec::new()).is_empty());
}

#[test]
fn members_that_share_a_number_keep_their_order() {
    let names = vec!["+1".to_owned(), "01".to_owned(), "0".to_owned(), "1".to_owned()];
    let decoded = vec![Some(item("a")), Some(item("b")), Some(item("c")), Some(item("d"))];
    assert_eq!(ids(&order_items(&names, decoded)), vec!["c", "a", "b", "d"]);
}

#[test]
fn the_catalogue_asks_for_every_page_in_turn() {
    let mut catalogue = Catalogue::new();
    let mut asked = Vec::new();
    while let Some(number) = catalogue.wanted() {
        asked.push(number);
        let listed = page(Some(30), &["1", "0"]);
        let decoded = decode(&listed);
        catalogue.page_arrived(&listed, decoded);
    }
    assert_eq!(asked, vec![0, 1, 2]);
    assert_eq!(
        ids(&catalogue.releases),
        vec!["id0", "id1", "id0", "id1", "id0", "id1"]
    );
}

#[test]
fn a_catalogue_without_a_count_is_one_page() {
    let mut catalogue = Catalogue::new();
    let listed = page(None, &["0"]);
    let decoded = decode(&listed);
    catalogue.page_arrived(&listed, decoded);
    assert_eq!(catalogue.wanted(), None);
    assert_eq!(ids(&catalogue.releases), vec!["id0"]);
}

#[test]
fn only_the_first_page_says_how_many_there_are() {
    let mut catalogue = Catalogue::new();
    catalogue.take_in(Some(13), vec![item("a")]);
    assert_eq!(catalogue.wanted(), Some(1));
    catalogue.take_in(Some(500), vec![item("b")]);
    assert_eq!(catalogue.wanted(), None);
    assert_eq!(ids(&catalogue.releases), vec!["a", "b"]);
}
