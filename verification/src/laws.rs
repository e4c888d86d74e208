//! The laws the services obey, stated over the store model and proved
//! once and for all.

use vstd::prelude::*;
use crate::model::{
    conds_hold,
    default_fork_status,
    fresh_repo,
    listing_order,
    matching_ids,
    page_of,
    user_added_tag,
};
use crate::records::RepoData;
use crate::sqlgen::Cond;
use crate::store::Database;

verus! {

/// For every filter, the length of any full listing of the matching rows
/// equals the matching count: the `total` reported beside a page is the
/// count of all rows the predicate matches, independent of any limit or
/// offset.
pub proof fn lemma_listing_total(m: Map<i64, RepoData>, cs: Seq<Cond>, ids: Seq<i64>)
    requires
        listing_order(m, cs, ids),
        matching_ids(m, cs).finite(),
    ensures
        ids.len() == matching_ids(m, cs).len(),
{
    assert(ids.to_set() =~= matching_ids(m, cs)) by {
        assert forall|k: i64| ids.to_set().contains(k) implies matching_ids(m, cs).contains(
            k,
        ) by {
            let i = choose|i: int| 0 <= i < ids.len() && ids[i] == k;
            assert(m.dom().contains(ids[i]) && conds_hold(m[ids[i]], cs));
        }
        assert forall|k: i64| matching_ids(m, cs).contains(k) implies ids.to_set().contains(
            k,
        ) by {
            assert(ids.contains(k));
        }
    }
    ids.unique_seq_to_set();
}

/// A page whose offset lies at or beyond the total number of matching
/// rows is empty, whatever the limit.
pub proof fn lemma_page_beyond_total(all: Seq<i64>, limit: Option<i64>, offset: Option<i64>)
    requires
        limit is Some ==> limit->0 >= 0,
        offset is Some && offset->0 >= all.len(),
    ensures
        page_of(all, limit, offset).len() == 0,
{
}

/// A page never reaches past the full listing, and with a limit it never
/// holds more than `limit` rows.
pub proof fn lemma_page_within_bounds(all: Seq<i64>, limit: Option<i64>, offset: Option<i64>)
    requires
        limit is Some ==> limit->0 >= 0,
        offset is Some ==> offset->0 >= 0,
    ensures
        page_of(all, limit, offset).len() <= all.len(),
        limit is Some ==> page_of(all, limit, offset).len() <= limit->0,
{
}

/// Creating a record and then fetching the returned identifier yields a
/// record whose fork name, display name, document and description match
/// the inputs, whose provenance tag is the fixed creation tag, and whose
/// privacy flag, fork status and sort order hold their defined defaults;
/// every pre-existing record is untouched.
pub proof fn lemma_create_then_get(
    m0: Map<i64, RepoData>,
    m1: Map<i64, RepoData>,
    id: i64,
    d: RepoData,
    fork_name: Seq<char>,
    display_name: Seq<char>,
    document_id: Option<i64>,
    description: Option<Seq<char>>,
)
    requires
        !m0.dom().contains(id),
        m1 == m0.insert(id, d),
        fresh_repo(d, id, fork_name, display_name, document_id, description, user_added_tag()),
    ensures
        m1.dom().contains(id),
        m1[id].id == id,
        m1[id].fork_name == fork_name,
        m1[id].display_name == display_name,
        m1[id].document_id == document_id,
        m1[id].description == description,
        m1[id].source_type == user_added_tag(),
        m1[id].fork_status == default_fork_status(),
        !m1[id].is_private,
        m1[id].sort_order == 0,
        m1[id].section_id is None,
        m1[id].subsection_id is None,
        forall|k: i64| k != id && m0.dom().contains(k) ==> m1[k] == m0[k],
{
}

/// A partial update that supplies only a display name changes exactly
/// that field of exactly that record: its description and every other
/// field keep their old values, every other record is untouched, and the
/// reported row count is one.
pub proof fn lemma_update_display_name_only(
    m0: Map<i64, RepoData>,
    m1: Map<i64, RepoData>,
    id: i64,
    n: usize,
    display_name: Seq<char>,
)
    requires
        m0.dom().contains(id),
        Database::one_row_updated(m0, m1, id, n, Some(display_name), None),
    ensures
        n == 1,
        m1.dom() == m0.dom(),
        m1[id].display_name == display_name,
        m1[id].description == m0[id].description,
        m1[id].id == m0[id].id,
        m1[id].fork_name == m0[id].fork_name,
        m1[id].upstream_url == m0[id].upstream_url,
        m1[id].github_url == m0[id].github_url,
        m1[id].document_id == m0[id].document_id,
        m1[id].section_id == m0[id].section_id,
        m1[id].subsection_id == m0[id].subsection_id,
        m1[id].build_cmd == m0[id].build_cmd,
        m1[id].usage_cmd == m0[id].usage_cmd,
        m1[id].install_cmd == m0[id].install_cmd,
        m1[id].docs_url == m0[id].docs_url,
        m1[id].note == m0[id].note,
        m1[id].source_type == m0[id].source_type,
        m1[id].fork_status == m0[id].fork_status,
        m1[id].is_private == m0[id].is_private,
        m1[id].sort_order == m0[id].sort_order,
        forall|k: i64| k != id && m0.dom().contains(k) ==> m1[k] == m0[k],
{
    assert(m1.dom() =~= m0.dom());
}

/// Deleting an identifier removes exactly that record, so a fetch of the
/// same identifier afterwards finds nothing; deleting an identifier that
/// was never there leaves the model as it was.
pub proof fn lemma_delete_then_get(m0: Map<i64, RepoData>, id: i64)
    ensures
        !m0.remove(id).dom().contains(id),
        forall|k: i64| k != id && m0.dom().contains(k) ==> m0.remove(id).dom().contains(k)
            && m0.remove(id)[k] == m0[k],
        !m0.dom().contains(id) ==> m0.remove(id) == m0,
{
    if !m0.dom().contains(id) {
        assert(m0.remove(id) =~= m0);
    }
}

} // verus!
