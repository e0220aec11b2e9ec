use smairs::IndexScene;
use smairs::index::SearchIndex;

fn scene(id: &str, chapter: &str, text: &str, off: u64) -> IndexScene {
    IndexScene {
        id: id.to_string(),
        chapter_id: chapter.to_string(),
        text: text.to_string(),
        start_offset: off,
    }
}

fn fresh_index(dir: &tempfile::TempDir) -> SearchIndex {
    SearchIndex::new(dir.path().to_str().unwrap()).expect("init index")
}

#[test]
fn index_and_search_basic() {
    let dir = tempfile::tempdir().unwrap();
    let mut idx = fresh_index(&dir);
    let index_scenes = vec![
        scene("s1", "c1", "Bob went to the market.", 0),
        scene("s2", "c1", "Robert talked with Alice.", 23),
    ];
    idx.index_manuscript(&index_scenes).expect("index");
    let hits = idx.search("\"went to the market\"", 10).expect("search");
    assert!(hits.iter().any(|h| h.scene_id == "s1"));
    let char_hits = idx.find_character_mentions("Bob").expect("char search");
    assert!(char_hits.len() >= 1);
}

#[test]
fn replace_keeps_only_latest_text() {
    let dir = tempfile::tempdir().unwrap();
    let mut idx = fresh_index(&dir);
    idx.index_manuscript(&vec![scene("s1", "c1", "the zebra grazes", 0)]).expect("first index");
    idx.index_manuscript(&vec![scene("s1", "c1", "the ocean roars", 0)]).expect("second index");
    let new_hits = idx.search("\"ocean\"", 10).expect("search new");
    assert_eq!(new_hits.len(), 1);
    assert_eq!(new_hits[0].scene_id, "s1");
    let old_hits = idx.search("\"zebra\"", 10).expect("search old");
    assert_eq!(old_hits.len(), 0);
    // Exactly one document remains for the id: both texts contain "the".
    let the_hits = idx.search("\"the\"", 10).expect("search common");
    assert_eq!(the_hits.len(), 1);
}

#[test]
fn offset_points_at_the_match() {
    let dir = tempfile::tempdir().unwrap();
    let mut idx = fresh_index(&dir);
    let text = "Robert talked with Alice.";
    idx.index_manuscript(&vec![scene("s2", "c1", text, 23)]).expect("index");
    let hits = idx.search("\"talked\"", 10).expect("search");
    assert_eq!(hits.len(), 1);
    let local = text.find("talked").unwrap() as u64;
    assert_eq!(hits[0].offset, 23 + local);
    assert_eq!(hits[0].snippet, text);
    assert_eq!(hits[0].highlights, vec![(7, 13)]);
}

#[test]
fn phrase_requires_exact_order() {
    let dir = tempfile::tempdir().unwrap();
    let mut idx = fresh_index(&dir);
    idx.index_manuscript(&vec![scene("s1", "c1", "the quick fox", 0)]).expect("index");
    let wrong_order = idx.search("\"quick the fox\"", 10).expect("search shuffled");
    assert_eq!(wrong_order.len(), 0);
    let right_order = idx.search("\"the quick fox\"", 10).expect("search exact");
    assert_eq!(right_order.len(), 1);
    assert_eq!(right_order[0].scene_id, "s1");
}

#[test]
fn alias_finds_character_by_other_name() {
    let dir = tempfile::tempdir().unwrap();
    let mut idx = fresh_index(&dir);
    idx.index_manuscript(&vec![scene("s2", "c1", "Robert talked with Alice.", 23)])
        .expect("index");
    let hits = idx.find_character_mentions("bob").expect("char search");
    assert!(hits.iter().any(|h| h.scene_id == "s2"));
}

#[test]
fn empty_query_returns_empty_list() {
    let dir = tempfile::tempdir().unwrap();
    let mut idx = fresh_index(&dir);
    idx.index_manuscript(&vec![scene("s1", "c1", "some indexed text", 0)]).expect("index");
    let hits = idx.search("", 10).expect("empty search");
    assert_eq!(hits.len(), 0);
    let blank = idx.search("   ", 10).expect("blank search");
    assert_eq!(blank.len(), 0);
}

#[test]
fn fuzzy_search_tolerates_a_typo() {
    let dir = tempfile::tempdir().unwrap();
    let mut idx = fresh_index(&dir);
    idx.index_manuscript(&vec![scene("s1", "c1", "Bob went to the market.", 0)]).expect("index");
    let hits = idx.search("markte", 10).expect("fuzzy search");
    assert!(hits.iter().any(|h| h.scene_id == "s1"));
}

#[test]
fn wildcard_token_is_required() {
    let dir = tempfile::tempdir().unwrap();
    let mut idx = fresh_index(&dir);
    let scenes = vec![
        scene("s1", "c1", "Bob went to the market.", 0),
        scene("s2", "c1", "Robert talked with Alice.", 23),
    ];
    idx.index_manuscript(&scenes).expect("index");
    // A token with a wildcard marker goes through the engine's query
    // parser as a required subquery; the parser tokenizes the marker away,
    // so it matches the remaining term exactly.
    let hits = idx.search("market*", 10).expect("wildcard search");
    assert!(hits.iter().any(|h| h.scene_id == "s1"));
    assert!(!hits.iter().any(|h| h.scene_id == "s2"));
}

#[test]
fn malformed_query_reports_a_query_error() {
    let dir = tempfile::tempdir().unwrap();
    let mut idx = fresh_index(&dir);
    idx.index_manuscript(&vec![scene("s1", "c1", "plain text", 0)]).expect("index");
    let res = idx.search("nosuchfield:ab*", 10);
    match res {
        Err(smairs::SearchError::Query { message }) => {
            assert!(!message.is_empty());
        },
        other => panic!("expected a query error, got {:?}", other),
    }
}

#[test]
fn reopened_index_still_answers() {
    let dir = tempfile::tempdir().unwrap();
    {
        let mut idx = fresh_index(&dir);
        idx.index_manuscript(&vec![scene("s1", "c1", "persistent words", 7)]).expect("index");
    }
    let idx2 = fresh_index(&dir);
    let hits = idx2.search("\"persistent\"", 10).expect("search after reopen");
    assert_eq!(hits.len(), 1);
    assert_eq!(hits[0].scene_id, "s1");
    assert_eq!(hits[0].offset, 7);
}

#[test]
fn reader_keeps_its_snapshot_across_a_concurrent_write() {
    let dir = tempfile::tempdir().unwrap();
    let mut writer = fresh_index(&dir);
    writer.index_manuscript(&vec![scene("s1", "c1", "early words", 0)]).expect("first write");
    // A reader opened now pins the current snapshot.
    let reader = fresh_index(&dir);
    assert_eq!(reader.search("\"early\"", 10).expect("read before").len(), 1);
    // A write committed elsewhere is not observed by the pinned snapshot...
    writer.index_manuscript(&vec![scene("s2", "c1", "late words", 12)]).expect("second write");
    let stale = reader.search("\"late\"", 10).expect("read during");
    assert_eq!(stale.len(), 0);
    // ...but the writer's own refreshed snapshot observes it at once.
    let fresh = writer.search("\"late\"", 10).expect("read after");
    assert_eq!(fresh.len(), 1);
}

#[test]
fn snapshot_moves_only_after_a_write_returns() {
    let dir = tempfile::tempdir().unwrap();
    let mut idx = fresh_index(&dir);
    idx.index_manuscript(&vec![scene("s1", "c1", "first generation", 0)]).expect("first write");
    let before = idx.search("\"generation\"", 10).expect("read before");
    assert_eq!(before.len(), 1);
    idx.index_manuscript(&vec![scene("s2", "c1", "second generation", 20)])
        .expect("second write");
    let after = idx.search("\"generation\"", 10).expect("read after");
    assert_eq!(after.len(), 2);
}
