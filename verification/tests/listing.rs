use gitgael::records::RepoListFilter;
use gitgael::store::{CatalogError, Database};

fn filter(
    document_id: Option<i64>,
    section_id: Option<i64>,
    limit: Option<i64>,
    offset: Option<i64>,
) -> RepoListFilter {
    RepoListFilter { document_id, section_id, limit, offset }
}

fn seeded() -> (Database, i64, i64) {
    let mut db = Database::new_in_memory().unwrap();
    let d1 = db.document_create(1, "a.md".to_string(), "A".to_string(), None, 0).unwrap();
    let d2 = db.document_create(2, "b.md".to_string(), "B".to_string(), None, 1).unwrap();
    for (name, doc) in [
        ("north", Some(d1)),
        ("south", Some(d1)),
        ("east", Some(d2)),
        ("west", None),
        ("middle", None),
    ] {
        db.repo_create(format!("fork/{}", name), name.to_string(), doc, None).unwrap();
    }
    (db, d1, d2)
}

#[test]
fn list_without_filter_returns_everything() {
    let (db, _, _) = seeded();
    let page = db.repo_list(None).unwrap();
    assert_eq!(page.total, 5);
    assert_eq!(page.repos.len(), 5);
}

#[test]
fn total_ignores_pagination() {
    let (db, d1, _) = seeded();
    let page = db.repo_list(Some(filter(Some(d1), None, Some(1), None))).unwrap();
    assert_eq!(page.total, 2);
    assert_eq!(page.repos.len(), 1);
    let all = db.repo_list(Some(filter(None, None, Some(2), Some(1)))).unwrap();
    assert_eq!(all.total, 5);
    assert_eq!(all.repos.len(), 2);
}

#[test]
fn document_filter_restricts_rows() {
    let (db, d1, d2) = seeded();
    let page = db.repo_list(Some(filter(Some(d1), None, None, None))).unwrap();
    assert_eq!(page.total, 2);
    let mut names: Vec<String> = page.repos.iter().map(|r| r.display_name.clone()).collect();
    names.sort();
    assert_eq!(names, vec!["north".to_string(), "south".to_string()]);
    let other = db.repo_list(Some(filter(Some(d2), None, None, None))).unwrap();
    assert_eq!(other.total, 1);
    assert_eq!(other.repos[0].display_name, "east");
}

#[test]
fn rows_sorted_by_sort_order_then_display_name() {
    let (db, _, _) = seeded();
    // All seeded rows share sort_order 0, so the page is lexicographic.
    let page = db.repo_list(None).unwrap();
    let names: Vec<&str> = page.repos.iter().map(|r| r.display_name.as_str()).collect();
    assert_eq!(names, vec!["east", "middle", "north", "south", "west"]);
}

#[test]
fn pagination_cuts_the_sorted_window() {
    let (db, _, _) = seeded();
    let page = db.repo_list(Some(filter(None, None, Some(2), Some(1)))).unwrap();
    let names: Vec<&str> = page.repos.iter().map(|r| r.display_name.as_str()).collect();
    assert_eq!(names, vec!["middle", "north"]);
}

#[test]
fn offset_without_limit_is_allowed() {
    let (db, _, _) = seeded();
    let page = db.repo_list(Some(filter(None, None, None, Some(3)))).unwrap();
    let names: Vec<&str> = page.repos.iter().map(|r| r.display_name.as_str()).collect();
    assert_eq!(names, vec!["south", "west"]);
    assert_eq!(page.total, 5);
}

#[test]
fn offset_beyond_total_gives_empty_page() {
    let (db, _, _) = seeded();
    let page = db.repo_list(Some(filter(None, None, Some(10), Some(99)))).unwrap();
    assert_eq!(page.repos.len(), 0);
    assert_eq!(page.total, 5);
}

#[test]
fn limit_zero_gives_empty_page_with_full_total() {
    let (db, _, _) = seeded();
    let page = db.repo_list(Some(filter(None, None, Some(0), None))).unwrap();
    assert_eq!(page.repos.len(), 0);
    assert_eq!(page.total, 5);
}

#[test]
fn negative_limit_is_invalid_input() {
    let (db, _, _) = seeded();
    match db.repo_list(Some(filter(None, None, Some(-3), None))) {
        Err(CatalogError::InvalidInput(_)) => {},
        other => panic!("expected invalid input, got {:?}", other),
    }
}

#[test]
fn negative_offset_is_invalid_input() {
    let (db, _, _) = seeded();
    match db.repo_list(Some(filter(None, None, None, Some(-1)))) {
        Err(CatalogError::InvalidInput(_)) => {},
        other => panic!("expected invalid input, got {:?}", other),
    }
}

#[test]
fn document_and_section_filter_combine_as_conjunction() {
    let (mut db, d1, _) = seeded();
    let sec = db.section_create(d1, "s".to_string(), 0).unwrap();
    // Created records never carry a section, so the conjunction of a
    // document restriction and a section restriction matches nothing.
    let page = db.repo_list(Some(filter(Some(d1), Some(sec), None, None))).unwrap();
    assert_eq!(page.total, 0);
    assert_eq!(page.repos.len(), 0);
}
