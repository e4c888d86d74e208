use gitgael::records::RepoListFilter;
use gitgael::store::Database;

#[test]
fn empty_store_yields_empty_tree() {
    let db = Database::new_in_memory().unwrap();
    let tree = db.category_tree().unwrap();
    assert_eq!(tree.len(), 0);
}

#[test]
fn documents_ordered_by_sort_order_then_doc_number() {
    let mut db = Database::new_in_memory().unwrap();
    let late = db.document_create(9, "z.md".to_string(), "Last".to_string(), None, 5).unwrap();
    let tie_b = db.document_create(4, "b.md".to_string(), "TieB".to_string(), None, 1).unwrap();
    let tie_a = db.document_create(3, "a.md".to_string(), "TieA".to_string(), None, 1).unwrap();
    let first = db.document_create(7, "f.md".to_string(), "First".to_string(), None, 0).unwrap();
    let tree = db.category_tree().unwrap();
    let order: Vec<i64> = tree.iter().map(|n| n.document.id).collect();
    assert_eq!(order, vec![first, tie_a, tie_b, late]);
}

#[test]
fn document_count_reflects_attached_repos() {
    let mut db = Database::new_in_memory().unwrap();
    let d1 = db.document_create(1, "a.md".to_string(), "A".to_string(), None, 0).unwrap();
    let d2 = db.document_create(2, "b.md".to_string(), "B".to_string(), None, 1).unwrap();
    for i in 0..3 {
        db.repo_create(format!("fork/a{}", i), format!("a{}", i), Some(d1), None).unwrap();
    }
    let tree = db.category_tree().unwrap();
    assert_eq!(tree[0].document.id, d1);
    assert_eq!(tree[0].repo_count, 3);
    assert_eq!(tree[1].document.id, d2);
    assert_eq!(tree[1].repo_count, 0);
}

#[test]
fn five_repos_split_across_three_documents() {
    let mut db = Database::new_in_memory().unwrap();
    let d1 = db.document_create(1, "one.md".to_string(), "One".to_string(), None, 0).unwrap();
    let d2 = db.document_create(2, "two.md".to_string(), "Two".to_string(), None, 1).unwrap();
    let d3 = db.document_create(3, "three.md".to_string(), "Three".to_string(), None, 2).unwrap();
    db.section_create(d2, "s-a".to_string(), 0).unwrap();
    db.section_create(d2, "s-b".to_string(), 1).unwrap();
    let docs = [d1, d1, d2, d2, d3];
    for (i, doc) in docs.iter().enumerate() {
        db.repo_create(format!("fork/r{}", i), format!("r{}", i), Some(*doc), None).unwrap();
    }
    let tree = db.category_tree().unwrap();
    let counts: Vec<i64> = tree.iter().map(|n| n.repo_count).collect();
    assert_eq!(counts, vec![2, 2, 1]);
    assert_eq!(tree[1].sections.len(), 2);
    let listed = db.repo_list(Some(RepoListFilter {
        document_id: Some(d2),
        section_id: None,
        limit: None,
        offset: None,
    }))
    .unwrap();
    assert_eq!(listed.total, 2);
    assert_eq!(listed.repos.len(), 2);
}

#[test]
fn sections_and_subsections_are_populated_in_order() {
    let mut db = Database::new_in_memory().unwrap();
    let doc = db.document_create(1, "d.md".to_string(), "Doc".to_string(), None, 0).unwrap();
    let s_late = db.section_create(doc, "later".to_string(), 2).unwrap();
    let s_early = db.section_create(doc, "early".to_string(), 1).unwrap();
    let u_b = db.subsection_create(s_early, "u-b".to_string(), 1).unwrap();
    let u_a = db.subsection_create(s_early, "u-a".to_string(), 0).unwrap();
    let tree = db.category_tree().unwrap();
    assert_eq!(tree.len(), 1);
    let secs = &tree[0].sections;
    assert_eq!(secs.len(), 2);
    assert_eq!(secs[0].section.id, s_early);
    assert_eq!(secs[1].section.id, s_late);
    let subs = &secs[0].subsections;
    assert_eq!(subs.len(), 2);
    assert_eq!(subs[0].subsection.id, u_a);
    assert_eq!(subs[1].subsection.id, u_b);
    assert_eq!(secs[1].subsections.len(), 0);
}

#[test]
fn counts_at_each_level_are_independent() {
    let mut db = Database::new_in_memory().unwrap();
    let doc = db.document_create(1, "d.md".to_string(), "Doc".to_string(), None, 0).unwrap();
    let sec = db.section_create(doc, "sec".to_string(), 0).unwrap();
    let sub = db.subsection_create(sec, "sub".to_string(), 0).unwrap();
    // One repo attached at the document level only.
    db.repo_create("fork/doc-only".to_string(), "doc-only".to_string(), Some(doc), None).unwrap();
    let tree = db.category_tree().unwrap();
    assert_eq!(tree[0].repo_count, 1);
    assert_eq!(tree[0].sections[0].repo_count, 0);
    assert_eq!(tree[0].sections[0].subsections[0].repo_count, 0);
    let _ = sub;
}
