use gitgael::store::{CatalogError, Database};

#[test]
fn search_returns_exactly_the_matching_repos() {
    let mut db = Database::new_in_memory().unwrap();
    let mut expected: Vec<i64> = Vec::new();
    for i in 0..10 {
        let name = if i < 2 { format!("zephyr tool {}", i) } else { format!("plain tool {}", i) };
        let id = db.repo_create(format!("fork/{}", i), name, None, None).unwrap();
        if i < 2 {
            expected.push(id);
        }
    }
    let hits = db.repo_search("zephyr", None).unwrap();
    let mut got: Vec<i64> = hits.iter().map(|r| r.id).collect();
    got.sort();
    expected.sort();
    assert_eq!(got, expected);
}

#[test]
fn search_matches_description_too() {
    let mut db = Database::new_in_memory().unwrap();
    let id = db
        .repo_create(
            "fork/q".to_string(),
            "quiet".to_string(),
            None,
            Some("a nimble parser".to_string()),
        )
        .unwrap();
    db.repo_create("fork/r".to_string(), "loud".to_string(), None, None).unwrap();
    let hits = db.repo_search("nimble", None).unwrap();
    assert_eq!(hits.len(), 1);
    assert_eq!(hits[0].id, id);
    assert_eq!(hits[0].description, Some("a nimble parser".to_string()));
}

#[test]
fn default_limit_caps_results_at_fifty() {
    let mut db = Database::new_in_memory().unwrap();
    for i in 0..60 {
        db.repo_create(format!("fork/m{}", i), format!("marble {}", i), None, None).unwrap();
    }
    let hits = db.repo_search("marble", None).unwrap();
    assert_eq!(hits.len(), 50);
}

#[test]
fn explicit_limit_is_honored() {
    let mut db = Database::new_in_memory().unwrap();
    for i in 0..5 {
        db.repo_create(format!("fork/g{}", i), format!("granite {}", i), None, None).unwrap();
    }
    let hits = db.repo_search("granite", Some(2)).unwrap();
    assert_eq!(hits.len(), 2);
}

#[test]
fn deleted_rows_leave_the_index() {
    let mut db = Database::new_in_memory().unwrap();
    let id = db.repo_create("fork/v".to_string(), "vanishing".to_string(), None, None).unwrap();
    assert_eq!(db.repo_search("vanishing", None).unwrap().len(), 1);
    assert_eq!(db.repo_delete(id).unwrap(), 1);
    assert_eq!(db.repo_search("vanishing", None).unwrap().len(), 0);
}

#[test]
fn updated_display_name_is_searchable() {
    let mut db = Database::new_in_memory().unwrap();
    let id = db.repo_create("fork/w".to_string(), "before".to_string(), None, None).unwrap();
    db.repo_update(id, Some("afterglow".to_string()), None).unwrap();
    assert_eq!(db.repo_search("before", None).unwrap().len(), 0);
    let hits = db.repo_search("afterglow", None).unwrap();
    assert_eq!(hits.len(), 1);
    assert_eq!(hits[0].id, id);
}

#[test]
fn negative_search_limit_is_invalid_input() {
    let db = Database::new_in_memory().unwrap();
    match db.repo_search("anything", Some(-5)) {
        Err(CatalogError::InvalidInput(_)) => {},
        other => panic!("expected invalid input, got {:?}", other),
    }
}

#[test]
fn empty_query_follows_index_semantics_and_fails() {
    let mut db = Database::new_in_memory().unwrap();
    db.repo_create("fork/x".to_string(), "present".to_string(), None, None).unwrap();
    // The search index rejects an empty match expression; the engine
    // surfaces that as a storage-layer error rather than guessing.
    assert!(db.repo_search("", None).is_err());
}

#[test]
fn no_match_returns_empty_not_error() {
    let mut db = Database::new_in_memory().unwrap();
    db.repo_create("fork/y".to_string(), "lonely".to_string(), None, None).unwrap();
    assert_eq!(db.repo_search("absentterm", None).unwrap().len(), 0);
}

#[test]
fn better_match_ranks_first() {
    let mut db = Database::new_in_memory().unwrap();
    let weak = db
        .repo_create(
            "fork/weak".to_string(),
            "quiet chamber".to_string(),
            None,
            Some("an echo among many other quiet words".to_string()),
        )
        .unwrap();
    let strong = db
        .repo_create(
            "fork/strong".to_string(),
            "echo echo echo".to_string(),
            None,
            None,
        )
        .unwrap();
    let hits = db.repo_search("echo", None).unwrap();
    assert_eq!(hits.len(), 2);
    assert_eq!(hits[0].id, strong);
    assert_eq!(hits[1].id, weak);
}

#[test]
fn search_matches_fork_name() {
    let mut db = Database::new_in_memory().unwrap();
    let id = db
        .repo_create("upstream/quartzite".to_string(), "display".to_string(), None, None)
        .unwrap();
    let hits = db.repo_search("quartzite", None).unwrap();
    assert_eq!(hits.len(), 1);
    assert_eq!(hits[0].id, id);
}
