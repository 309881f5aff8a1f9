use labworks::file_index::{index_location, IndexLocation};
use labworks::file_index::{FileEntry, JsonIndex};

fn tags(t: &[&str]) -> Vec<String> {
    t.iter().map(|s| s.to_string()).collect()
}

#[test]
fn add_get_remove() {
    let mut idx = JsonIndex::from_entries("index.json".into(), Vec::new());
    idx.add("a.txt", &tags(&["x", "y"]));
    idx.add("b.txt", &tags(&["y"]));
    idx.add("a.txt", &tags(&["z", "x"]));
    assert_eq!(idx.entries.len(), 2);
    assert_eq!(idx.entries[0].tags, tags(&["x", "y", "z"]));

    let got = idx.get(&tags(&["y"]));
    let paths: Vec<&str> = got.iter().map(|e| e.path.as_str()).collect();
    assert_eq!(paths, vec!["a.txt", "b.txt"]);
    assert_eq!(idx.get(&tags(&["x", "z"])).len(), 1);
    assert_eq!(idx.get(&tags(&[])).len(), 2);
    assert!(idx.get(&tags(&["nope"])).is_empty());

    assert!(idx.remove("a.txt"));
    assert!(!idx.remove("a.txt"));
    assert_eq!(idx.entries.len(), 1);
    assert_eq!(idx.path, "index.json");
}

#[test]
fn add_is_idempotent() {
    let mut idx = JsonIndex::from_entries("i".into(), vec![FileEntry { path: "p".into(), tags: tags(&["t"]) }]);
    idx.add("p", &tags(&["u"]));
    let once: Vec<Vec<String>> = idx.entries.iter().map(|e| e.tags.clone()).collect();
    idx.add("p", &tags(&["u"]));
    let twice: Vec<Vec<String>> = idx.entries.iter().map(|e| e.tags.clone()).collect();
    assert_eq!(once, twice);
    assert_eq!(once, vec![tags(&["t", "u"])]);
}

#[test]
fn index_location_setting() {
    assert_eq!(index_location(None), Ok(IndexLocation::Json(".files_index.json".into())));
    assert_eq!(index_location(Some("json:/tmp/i.json".into())), Ok(IndexLocation::Json("/tmp/i.json".into())));
    assert_eq!(index_location(Some("sqlite:db:1".into())), Ok(IndexLocation::Sqlite("db:1".into())));
    assert_eq!(
        index_location(Some("no-colon".into())),
        Err("FILES_INDEX_PATH must be in format type:path".to_string())
    );
    assert_eq!(index_location(Some("JSON:x".into())), Err("unknown storage type: JSON".to_string()));
}

#[test]
fn tag_query_text_for_two_tags() {
    assert_eq!(labworks::file_index::tag_query(0), None);
    let expected = "SELECT e.id, e.path FROM entries e
             JOIN tags t ON t.entry_id = e.id
             WHERE t.tag IN (?1, ?2)
             GROUP BY e.id
             HAVING COUNT(DISTINCT t.tag) = ?3";
    assert_eq!(labworks::file_index::tag_query(2).unwrap(), expected);
    assert!(labworks::file_index::tag_query(11).unwrap().contains("?10, ?11)"));
}
