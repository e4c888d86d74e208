use gitgael::records::RepoListFilter;
use gitgael::store::{CatalogError, Database};

#[test]
fn create_then_get_roundtrip() {
    let mut db = Database::new_in_memory().unwrap();
    let doc = db.document_create(1, "d1.md".to_string(), "Doc One".to_string(), None, 0).unwrap();
    let id = db
        .repo_create(
            "fork/alpha".to_string(),
            "Alpha".to_string(),
            Some(doc),
            Some("first entry".to_string()),
        )
        .unwrap();
    let rep = db.repo_get(id).unwrap().expect("created record must be found");
    assert_eq!(rep.id, id);
    assert_eq!(rep.fork_name, "fork/alpha");
    assert_eq!(rep.display_name, "Alpha");
    assert_eq!(rep.document_id, Some(doc));
    assert_eq!(rep.description, Some("first entry".to_string()));
    assert_eq!(rep.source_type, "user_added");
    assert_eq!(rep.fork_status, "active");
    assert!(!rep.is_private);
    assert_eq!(rep.sort_order, 0);
    assert_eq!(rep.section_id, None);
    assert_eq!(rep.subsection_id, None);
    assert_eq!(rep.upstream_url, None);
    assert_eq!(rep.github_url, None);
    assert_eq!(rep.build_cmd, None);
    assert_eq!(rep.usage_cmd, None);
    assert_eq!(rep.install_cmd, None);
    assert_eq!(rep.docs_url, None);
    assert_eq!(rep.note, None);
}

#[test]
fn create_rejects_unknown_document() {
    let mut db = Database::new_in_memory().unwrap();
    let res = db.repo_create("fork/x".to_string(), "X".to_string(), Some(9999), None);
    match res {
        Err(CatalogError::Constraint(_)) => {},
        other => panic!("expected a constraint violation, got {:?}", other),
    }
    let listed = db.repo_list(None).unwrap();
    assert_eq!(listed.total, 0);
}

#[test]
fn update_display_name_leaves_other_fields() {
    let mut db = Database::new_in_memory().unwrap();
    let id = db
        .repo_create(
            "fork/beta".to_string(),
            "Beta".to_string(),
            None,
            Some("unchanged".to_string()),
        )
        .unwrap();
    let n = db.repo_update(id, Some("Beta Prime".to_string()), None).unwrap();
    assert_eq!(n, 1);
    let rep = db.repo_get(id).unwrap().unwrap();
    assert_eq!(rep.display_name, "Beta Prime");
    assert_eq!(rep.description, Some("unchanged".to_string()));
    assert_eq!(rep.fork_name, "fork/beta");
    assert_eq!(rep.source_type, "user_added");
    assert_eq!(rep.fork_status, "active");
    assert_eq!(rep.sort_order, 0);
    assert_eq!(rep.document_id, None);
}

#[test]
fn update_description_only() {
    let mut db = Database::new_in_memory().unwrap();
    let id = db.repo_create("fork/c".to_string(), "C".to_string(), None, None).unwrap();
    let n = db.repo_update(id, None, Some("fresh words".to_string())).unwrap();
    assert_eq!(n, 1);
    let rep = db.repo_get(id).unwrap().unwrap();
    assert_eq!(rep.display_name, "C");
    assert_eq!(rep.description, Some("fresh words".to_string()));
}

#[test]
fn update_both_fields() {
    let mut db = Database::new_in_memory().unwrap();
    let id = db.repo_create("fork/d".to_string(), "D".to_string(), None, None).unwrap();
    let n = db.repo_update(id, Some("D2".to_string()), Some("doubled".to_string())).unwrap();
    assert_eq!(n, 1);
    let rep = db.repo_get(id).unwrap().unwrap();
    assert_eq!(rep.display_name, "D2");
    assert_eq!(rep.description, Some("doubled".to_string()));
}

#[test]
fn update_with_no_fields_is_noop_zero() {
    let mut db = Database::new_in_memory().unwrap();
    let id = db.repo_create("fork/e".to_string(), "E".to_string(), None, None).unwrap();
    let n = db.repo_update(id, None, None).unwrap();
    assert_eq!(n, 0);
    let rep = db.repo_get(id).unwrap().unwrap();
    assert_eq!(rep.display_name, "E");
    assert_eq!(rep.description, None);
}

#[test]
fn update_missing_record_returns_zero() {
    let mut db = Database::new_in_memory().unwrap();
    let n = db.repo_update(424242, Some("ghost".to_string()), None).unwrap();
    assert_eq!(n, 0);
}

#[test]
fn delete_then_get_is_not_found() {
    let mut db = Database::new_in_memory().unwrap();
    let id = db.repo_create("fork/f".to_string(), "F".to_string(), None, None).unwrap();
    assert_eq!(db.repo_delete(id).unwrap(), 1);
    assert_eq!(db.repo_get(id).unwrap(), None);
    assert_eq!(db.repo_delete(id).unwrap(), 0);
}

#[test]
fn delete_missing_record_is_zero_not_error() {
    let mut db = Database::new_in_memory().unwrap();
    assert_eq!(db.repo_delete(31337).unwrap(), 0);
}

#[test]
fn delete_does_not_cascade_to_taxonomy() {
    let mut db = Database::new_in_memory().unwrap();
    let doc = db.document_create(1, "d.md".to_string(), "Doc".to_string(), None, 0).unwrap();
    let id = db.repo_create("fork/g".to_string(), "G".to_string(), Some(doc), None).unwrap();
    assert_eq!(db.repo_delete(id).unwrap(), 1);
    let tree = db.category_tree().unwrap();
    assert_eq!(tree.len(), 1);
    assert_eq!(tree[0].document.id, doc);
    assert_eq!(tree[0].repo_count, 0);
}

#[test]
fn error_message_is_exposed() {
    let mut db = Database::new_in_memory().unwrap();
    let err = db.repo_list(Some(RepoListFilter {
        document_id: None,
        section_id: None,
        limit: Some(-1),
        offset: None,
    }));
    match err {
        Err(e @ CatalogError::InvalidInput(_)) => {
            assert!(!e.message().is_empty());
        },
        other => panic!("expected invalid input, got {:?}", other),
    }
}

#[test]
fn identifiers_are_never_reused() {
    let mut db = Database::new_in_memory().unwrap();
    let first = db.repo_create("fork/one".to_string(), "one".to_string(), None, None).unwrap();
    assert_eq!(db.repo_delete(first).unwrap(), 1);
    let second = db.repo_create("fork/two".to_string(), "two".to_string(), None, None).unwrap();
    assert_ne!(first, second);
    assert_eq!(db.repo_get(first).unwrap(), None);
}
