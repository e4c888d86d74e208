//! The mathematical model of the store's contents, and the predicates the
//! service contracts are stated over.
//!
//! Each table is modeled as a map from row identifier to the row's ghost
//! image; what a query returns is stated against those maps.

use vstd::prelude::*;
use crate::records::{doc_le, repo_le, DocumentData, RepoData, SectionData, SubsectionData};
use crate::sqlgen::{Cond, FilterCol};

verus! {

/// A repository row satisfies one filter condition.
pub open spec fn cond_holds(r: RepoData, c: Cond) -> bool {
    match c.col {
        FilterCol::DocumentId => r.document_id == Some(c.value),
        FilterCol::SectionId => r.section_id == Some(c.value),
        FilterCol::SubsectionId => r.subsection_id == Some(c.value),
    }
}

/// A repository row satisfies every condition of a list.  An empty list is
/// the universal-true predicate.
pub open spec fn conds_hold(r: RepoData, cs: Seq<Cond>) -> bool {
    forall|i: int| 0 <= i < cs.len() ==> cond_holds(r, #[trigger] cs[i])
}

/// The identifiers of the rows a condition list matches.
pub open spec fn matching_ids(m: Map<i64, RepoData>, cs: Seq<Cond>) -> Set<i64> {
    m.dom().filter(|k: i64| conds_hold(m[k], cs))
}

/// `ids` is the full result of listing the rows matched by `cs`: each
/// matching row exactly once, in the listing order (`sort_order`
/// ascending, ties broken by `display_name`; rows equal in both keys may
/// come in either order).
pub open spec fn listing_order(m: Map<i64, RepoData>, cs: Seq<Cond>, ids: Seq<i64>) -> bool {
    &&& ids.no_duplicates()
    &&& (forall|i: int|
        0 <= i < ids.len() ==> m.dom().contains(#[trigger] ids[i]) && conds_hold(m[ids[i]], cs))
    &&& (forall|k: i64| m.dom().contains(k) && conds_hold(m[k], cs) ==> ids.contains(k))
    &&& (forall|i: int, j: int|
        0 <= i < j < ids.len() ==> repo_le(m[#[trigger] ids[i]], m[#[trigger] ids[j]]))
}

/// The page that validated bounds cut out of a full listing: skip
/// `offset` rows, keep at most `limit`.  An absent bound leaves that side
/// open; an offset at or beyond the end yields the empty page.
pub open spec fn page_of(all: Seq<i64>, limit: Option<i64>, offset: Option<i64>) -> Seq<i64> {
    let off = if offset is Some {
        if offset->0 <= all.len() {
            offset->0 as int
        } else {
            all.len() as int
        }
    } else {
        0
    };
    let lim = if limit is Some {
        limit->0 as int
    } else {
        all.len() - off
    };
    let end = if off + lim <= all.len() {
        off + lim
    } else {
        all.len() as int
    };
    all.subrange(off, end)
}

/// `s` is the full document listing: every document exactly once, ordered
/// by `(sort_order, doc_number)` ascending (full ties may come in either
/// order).
pub open spec fn docs_listed(dm: Map<i64, DocumentData>, s: Seq<DocumentData>) -> bool {
    &&& (forall|i: int|
        0 <= i < s.len() ==> dm.dom().contains(#[trigger] s[i].id) && dm[s[i].id] == s[i])
    &&& (forall|i: int, j: int| 0 <= i < j < s.len() ==> (#[trigger] s[i].id) != (#[trigger] s[j].id))
    &&& (forall|k: i64|
        dm.dom().contains(k) ==> exists|i: int| 0 <= i < s.len() && (#[trigger] s[i].id) == k)
    &&& (forall|i: int, j: int| 0 <= i < j < s.len() ==> doc_le(#[trigger] s[i], #[trigger] s[j]))
}

/// `s` is the full section listing of one document: every section whose
/// `document_id` matches, exactly once, ordered by `sort_order` ascending.
pub open spec fn sections_listed(
    sm: Map<i64, SectionData>,
    document_id: i64,
    s: Seq<SectionData>,
) -> bool {
    &&& (forall|i: int|
        0 <= i < s.len() ==> sm.dom().contains(#[trigger] s[i].id) && sm[s[i].id] == s[i]
            && s[i].document_id == document_id)
    &&& (forall|i: int, j: int| 0 <= i < j < s.len() ==> (#[trigger] s[i].id) != (#[trigger] s[j].id))
    &&& (forall|k: i64|
        sm.dom().contains(k) && sm[k].document_id == document_id ==> exists|i: int|
            0 <= i < s.len() && (#[trigger] s[i].id) == k)
    &&& (forall|i: int, j: int|
        0 <= i < j < s.len() ==> (#[trigger] s[i].sort_order) <= (#[trigger] s[j].sort_order))
}

/// `s` is the full subsection listing of one section: every subsection
/// whose `section_id` matches, exactly once, ordered by `sort_order`
/// ascending.
pub open spec fn subsections_listed(
    um: Map<i64, SubsectionData>,
    section_id: i64,
    s: Seq<SubsectionData>,
) -> bool {
    &&& (forall|i: int|
        0 <= i < s.len() ==> um.dom().contains(#[trigger] s[i].id) && um[s[i].id] == s[i]
            && s[i].section_id == section_id)
    &&& (forall|i: int, j: int| 0 <= i < j < s.len() ==> (#[trigger] s[i].id) != (#[trigger] s[j].id))
    &&& (forall|k: i64|
        um.dom().contains(k) && um[k].section_id == section_id ==> exists|i: int|
            0 <= i < s.len() && (#[trigger] s[i].id) == k)
    &&& (forall|i: int, j: int|
        0 <= i < j < s.len() ==> (#[trigger] s[i].sort_order) <= (#[trigger] s[j].sort_order))
}

/// The provenance tag every record created through the mutation service
/// carries.
pub open spec fn user_added_tag() -> Seq<char> {
    "user_added"@
}

/// The fork-status value a new record starts with.
pub open spec fn default_fork_status() -> Seq<char> {
    "active"@
}

/// The row the mutation service creates: the four inputs, the fixed
/// provenance tag, and every other field at its defined default.
pub open spec fn fresh_repo(
    d: RepoData,
    id: i64,
    fork_name: Seq<char>,
    display_name: Seq<char>,
    document_id: Option<i64>,
    description: Option<Seq<char>>,
    source_type: Seq<char>,
) -> bool {
    d == RepoData {
        id,
        fork_name,
        display_name,
        upstream_url: None,
        github_url: None,
        document_id,
        section_id: None,
        subsection_id: None,
        description,
        build_cmd: None,
        usage_cmd: None,
        install_cmd: None,
        docs_url: None,
        note: None,
        source_type,
        fork_status: default_fork_status(),
        is_private: false,
        sort_order: 0,
    }
}

/// The row a partial update leaves behind: the supplied fields take their
/// new values, every other field keeps its old one.
pub open spec fn updated_repo(
    before: RepoData,
    after: RepoData,
    display_name: Option<Seq<char>>,
    description: Option<Seq<char>>,
) -> bool {
    after == RepoData {
        display_name: if display_name is Some {
            display_name->0
        } else {
            before.display_name
        },
        description: if description is Some {
            description
        } else {
            before.description
        },
        ..before
    }
}

} // verus!
