//! The catalog's services: listing, search, mutation and tree
//! aggregation, each a method on the storage handle with a contract over
//! the store's content maps.

use vstd::prelude::*;
use vstd::string::StringExecFns;
use crate::model::{
    docs_listed,
    fresh_repo,
    listing_order,
    matching_ids,
    page_of,
    sections_listed,
    subsections_listed,
    user_added_tag,
};
use crate::records::{
    opt_view,
    CategoryNode,
    Document,
    Repo,
    RepoData,
    RepoListFilter,
    RepoListResponse,
    Section,
    SectionNode,
    Subsection,
    SubsectionNode,
};
use crate::sqlgen::{
    build_conds,
    build_count_sql,
    build_list_sql,
    build_params,
    filter_conds,
    Cond,
    FilterCol,
};
use crate::store::{classify_error, CatalogError, Database};

verus! {

/// The fixed schema: the three taxonomy tables, the repository table, the
/// search index over its textual fields, and the triggers that keep the
/// index in step with the rows.  Applied idempotently at every open,
/// together with foreign-key enforcement and write-ahead journaling.
const CATALOG_SCHEMA: &'static str = "
PRAGMA journal_mode = WAL;
PRAGMA foreign_keys = ON;
CREATE TABLE IF NOT EXISTS documents (
  id INTEGER PRIMARY KEY AUTOINCREMENT,
  doc_number INTEGER NOT NULL DEFAULT 0,
  filename TEXT NOT NULL DEFAULT '',
  title TEXT NOT NULL DEFAULT '',
  description TEXT,
  sort_order INTEGER NOT NULL DEFAULT 0
);
CREATE TABLE IF NOT EXISTS sections (
  id INTEGER PRIMARY KEY AUTOINCREMENT,
  document_id INTEGER NOT NULL REFERENCES documents(id),
  name TEXT NOT NULL DEFAULT '',
  sort_order INTEGER NOT NULL DEFAULT 0
);
CREATE TABLE IF NOT EXISTS subsections (
  id INTEGER PRIMARY KEY AUTOINCREMENT,
  section_id INTEGER NOT NULL REFERENCES sections(id),
  name TEXT NOT NULL DEFAULT '',
  sort_order INTEGER NOT NULL DEFAULT 0
);
CREATE TABLE IF NOT EXISTS repos (
  id INTEGER PRIMARY KEY AUTOINCREMENT,
  fork_name TEXT NOT NULL,
  display_name TEXT NOT NULL,
  upstream_url TEXT,
  github_url TEXT,
  document_id INTEGER REFERENCES documents(id),
  section_id INTEGER REFERENCES sections(id),
  subsection_id INTEGER REFERENCES subsections(id),
  description TEXT,
  build_cmd TEXT,
  usage_cmd TEXT,
  install_cmd TEXT,
  docs_url TEXT,
  note TEXT,
  source_type TEXT NOT NULL DEFAULT '',
  fork_status TEXT NOT NULL DEFAULT 'active',
  is_private INTEGER NOT NULL DEFAULT 0,
  sort_order INTEGER NOT NULL DEFAULT 0
);
CREATE VIRTUAL TABLE IF NOT EXISTS repos_fts USING fts5(
  fork_name, display_name, description, note,
  content='repos', content_rowid='id'
);
CREATE TRIGGER IF NOT EXISTS repos_ai AFTER INSERT ON repos BEGIN
  INSERT INTO repos_fts(rowid, fork_name, display_name, description, note)
  VALUES (new.id, new.fork_name, new.display_name, new.description, new.note);
END;
CREATE TRIGGER IF NOT EXISTS repos_ad AFTER DELETE ON repos BEGIN
  INSERT INTO repos_fts(repos_fts, rowid, fork_name, display_name, description, note)
  VALUES ('delete', old.id, old.fork_name, old.display_name, old.description, old.note);
END;
CREATE TRIGGER IF NOT EXISTS repos_au AFTER UPDATE ON repos BEGIN
  INSERT INTO repos_fts(repos_fts, rowid, fork_name, display_name, description, note)
  VALUES ('delete', old.id, old.fork_name, old.display_name, old.description, old.note);
  INSERT INTO repos_fts(rowid, fork_name, display_name, description, note)
  VALUES (new.id, new.fork_name, new.display_name, new.description, new.note);
END;
";

impl Database {
    /// Opens (creating if absent) the single-file store at `path` and
    /// applies the fixed schema.  Nothing is assumed about the contents:
    /// an existing file keeps its rows.
    pub fn new(path: &str) -> (r: Result<Database, CatalogError>) {
        let conn = match Self::open_file_conn(path) {
            Ok(c) => c,
            Err(e) => {
                return Err(classify_error(e));
            },
        };
        let mut db = Database { conn };
        match db.run_batch(CATALOG_SCHEMA) {
            Ok(_) => Ok(db),
            Err(e) => Err(classify_error(e)),
        }
    }

    /// Opens a fresh private in-memory store and applies the fixed
    /// schema.
    pub fn new_in_memory() -> (r: Result<Database, CatalogError>) {
        let conn = match Self::open_memory_conn() {
            Ok(c) => c,
            Err(e) => {
                return Err(classify_error(e));
            },
        };
        let mut db = Database { conn };
        match db.run_batch(CATALOG_SCHEMA) {
            Ok(_) => Ok(db),
            Err(e) => Err(classify_error(e)),
        }
    }

    /// Fetches one repository record by identifier.  "No such record" is
    /// the distinguished `Ok(None)` outcome, not an error.
    pub fn repo_get(&self, id: i64) -> (r: Result<Option<Repo>, CatalogError>)
        ensures
            r is Ok ==> match r->Ok_0 {
                Some(rep) => self.repos().dom().contains(id) && rep@ == self.repos()[id]
                    && rep.id == id,
                None => !self.repos().dom().contains(id),
            },
    {
        match self.select_repo(id) {
            Ok(v) => Ok(v),
            Err(e) => Err(classify_error(e)),
        }
    }

    /// Creates a repository record from the four supplied fields.  The
    /// new row carries the fixed `user_added` provenance tag and the
    /// defined defaults everywhere else, under a never-reused fresh
    /// identifier, which is returned.  A unique or foreign-key violation
    /// (an unknown `document_id`) surfaces as a `Constraint` error and
    /// leaves the store unchanged.
    pub fn repo_create(
        &mut self,
        fork_name: String,
        display_name: String,
        document_id: Option<i64>,
        description: Option<String>,
    ) -> (r: Result<i64, CatalogError>)
        ensures
            r is Ok ==> {
                let id = r->Ok_0;
                let m0 = old(self).repos();
                let m1 = final(self).repos();
                &&& !m0.dom().contains(id)
                &&& m1 == m0.insert(id, m1[id])
                &&& fresh_repo(
                    m1[id],
                    id,
                    fork_name@,
                    display_name@,
                    document_id,
                    opt_view(description),
                    user_added_tag(),
                )
            },
            r is Err ==> final(self).repos() == old(self).repos(),
            r is Err ==> !(r->Err_0 is InvalidInput),
            final(self).docs() == old(self).docs(),
            final(self).sections() == old(self).sections(),
            final(self).subsections() == old(self).subsections(),
    {
        let desc: Option<&str> = match &description {
            Some(d) => Some(d.as_str()),
            None => None,
        };
        match self.insert_repo(
            fork_name.as_str(),
            display_name.as_str(),
            document_id,
            desc,
            "user_added",
        ) {
            Ok(id) => Ok(id),
            Err(e) => Err(classify_error(e)),
        }
    }

    /// Applies a partial update to one record: only the supplied fields
    /// change, and the result reports how many rows were touched — `1`
    /// when the record exists, `0` when it does not (which is not an
    /// error).  With no field supplied the call is a no-op that returns
    /// `0` without touching the store.
    pub fn repo_update(
        &mut self,
        id: i64,
        display_name: Option<String>,
        description: Option<String>,
    ) -> (r: Result<usize, CatalogError>)
        ensures
            display_name is None && description is None ==> r is Ok && r->Ok_0 == 0
                && final(self).repos() == old(self).repos(),
            r is Ok && (display_name is Some || description is Some)
                ==> Database::one_row_updated(
                old(self).repos(),
                final(self).repos(),
                id,
                r->Ok_0,
                opt_view(display_name),
                opt_view(description),
            ),
            r is Err ==> final(self).repos() == old(self).repos(),
            r is Err ==> !(r->Err_0 is InvalidInput),
            final(self).docs() == old(self).docs(),
            final(self).sections() == old(self).sections(),
            final(self).subsections() == old(self).subsections(),
    {
        let res: Result<usize, rusqlite::Error> = match (&display_name, &description) {
            (None, None) => {
                return Ok(0);
            },
            (Some(dn), None) => self.update_display_name(id, dn.as_str()),
            (None, Some(ds)) => self.update_description(id, ds.as_str()),
            (Some(dn), Some(ds)) => self.update_both(id, dn.as_str(), ds.as_str()),
        };
        match res {
            Ok(n) => Ok(n),
            Err(e) => Err(classify_error(e)),
        }
    }

    /// Deletes one record by identifier; taxonomy nodes are untouched.
    /// Reports `1` when a row was removed and `0` when no such row
    /// existed (which is not an error).
    pub fn repo_delete(&mut self, id: i64) -> (r: Result<usize, CatalogError>)
        ensures
            r is Ok ==> final(self).repos() == old(self).repos().remove(id) && r->Ok_0
                == if old(self).repos().dom().contains(id) {
                1int
            } else {
                0int
            },
            r is Err ==> final(self).repos() == old(self).repos(),
            r is Err ==> !(r->Err_0 is InvalidInput),
            final(self).docs() == old(self).docs(),
            final(self).sections() == old(self).sections(),
            final(self).subsections() == old(self).subsections(),
    {
        match self.delete_repo(id) {
            Ok(n) => Ok(n),
            Err(e) => Err(classify_error(e)),
        }
    }

    /// Creates a document node of the taxonomy and returns its fresh
    /// identifier.
    pub fn document_create(
        &mut self,
        doc_number: i64,
        filename: String,
        title: String,
        description: Option<String>,
        sort_order: i64,
    ) -> (r: Result<i64, CatalogError>)
        ensures
            r is Ok ==> {
                let id = r->Ok_0;
                let m0 = old(self).docs();
                let m1 = final(self).docs();
                &&& !m0.dom().contains(id)
                &&& m1 == m0.insert(id, m1[id])
                &&& m1[id].doc_number == doc_number
                &&& m1[id].filename == filename@
                &&& m1[id].title == title@
                &&& m1[id].description == opt_view(description)
                &&& m1[id].sort_order == sort_order
                &&& m1[id].id == id
            },
            r is Err ==> final(self).docs() == old(self).docs(),
            final(self).repos() == old(self).repos(),
            final(self).sections() == old(self).sections(),
            final(self).subsections() == old(self).subsections(),
    {
        let desc: Option<&str> = match &description {
            Some(d) => Some(d.as_str()),
            None => None,
        };
        match self.insert_document(doc_number, filename.as_str(), title.as_str(), desc, sort_order)
        {
            Ok(id) => Ok(id),
            Err(e) => Err(classify_error(e)),
        }
    }

    /// Creates a section node under the given document and returns its
    /// fresh identifier; an unknown `document_id` surfaces as a
    /// `Constraint` error.
    pub fn section_create(&mut self, document_id: i64, name: String, sort_order: i64) -> (r: Result<
        i64,
        CatalogError,
    >)
        ensures
            r is Ok ==> {
                let id = r->Ok_0;
                let m0 = old(self).sections();
                let m1 = final(self).sections();
                &&& !m0.dom().contains(id)
                &&& m1 == m0.insert(id, m1[id])
                &&& m1[id].document_id == document_id
                &&& m1[id].name == name@
                &&& m1[id].sort_order == sort_order
                &&& m1[id].id == id
            },
            r is Err ==> final(self).sections() == old(self).sections(),
            final(self).repos() == old(self).repos(),
            final(self).docs() == old(self).docs(),
            final(self).subsections() == old(self).subsections(),
    {
        match self.insert_section(document_id, name.as_str(), sort_order) {
            Ok(id) => Ok(id),
            Err(e) => Err(classify_error(e)),
        }
    }

    /// Creates a subsection node under the given section and returns its
    /// fresh identifier; an unknown `section_id` surfaces as a
    /// `Constraint` error.
    pub fn subsection_create(&mut self, section_id: i64, name: String, sort_order: i64) -> (r:
        Result<i64, CatalogError>)
        ensures
            r is Ok ==> {
                let id = r->Ok_0;
                let m0 = old(self).subsections();
                let m1 = final(self).subsections();
                &&& !m0.dom().contains(id)
                &&& m1 == m0.insert(id, m1[id])
                &&& m1[id].section_id == section_id
                &&& m1[id].name == name@
                &&& m1[id].sort_order == sort_order
                &&& m1[id].id == id
            },
            r is Err ==> final(self).subsections() == old(self).subsections(),
            final(self).repos() == old(self).repos(),
            final(self).docs() == old(self).docs(),
            final(self).sections() == old(self).sections(),
    {
        match self.insert_subsection(section_id, name.as_str(), sort_order) {
            Ok(id) => Ok(id),
            Err(e) => Err(classify_error(e)),
        }
    }
}

// --- Listing, search and tree aggregation ----------------------------------

/// The document restriction a listing filter carries, if any.
pub open spec fn filter_document_id(f: Option<RepoListFilter>) -> Option<i64> {
    match f {
        Some(g) => g.document_id,
        None => None,
    }
}

/// The section restriction a listing filter carries, if any.
pub open spec fn filter_section_id(f: Option<RepoListFilter>) -> Option<i64> {
    match f {
        Some(g) => g.section_id,
        None => None,
    }
}

/// The page limit a listing filter carries, if any.
pub open spec fn filter_limit(f: Option<RepoListFilter>) -> Option<i64> {
    match f {
        Some(g) => g.limit,
        None => None,
    }
}

/// The page offset a listing filter carries, if any.
pub open spec fn filter_offset(f: Option<RepoListFilter>) -> Option<i64> {
    match f {
        Some(g) => g.offset,
        None => None,
    }
}

/// Pagination bounds must be non-negative integers before they may be
/// formatted into query text.
pub open spec fn bounds_valid(f: Option<RepoListFilter>) -> bool {
    &&& filter_limit(f) is Some ==> filter_limit(f)->0 >= 0
    &&& filter_offset(f) is Some ==> filter_offset(f)->0 >= 0
}

/// The returned records are exactly the rows named by `page`, in order.
pub open spec fn repos_match_page(m: Map<i64, RepoData>, page: Seq<i64>, repos: Seq<Repo>) -> bool {
    &&& repos.len() == page.len()
    &&& forall|i: int|
        0 <= i < page.len() ==> (#[trigger] repos[i])@ == m[page[i]] && repos[i].id == page[i]
}

/// What a successful listing returns: the true total of matching rows,
/// independent of pagination, and the requested page of the full sorted
/// listing of those rows.
pub open spec fn list_post(
    m: Map<i64, RepoData>,
    f: Option<RepoListFilter>,
    resp: RepoListResponse,
) -> bool {
    let cs = filter_conds(filter_document_id(f), filter_section_id(f));
    &&& matching_ids(m, cs).finite()
    &&& resp.total == matching_ids(m, cs).len()
    &&& exists|all: Seq<i64>|
        listing_order(m, cs, all) && all.len() == resp.total && repos_match_page(
            m,
            page_of(all, filter_limit(f), filter_offset(f)),
            resp.repos@,
        )
}

/// The effective search cap: the supplied limit, or fifty when absent.
pub open spec fn search_cap(limit: Option<i64>) -> i64 {
    if limit is Some {
        limit->0
    } else {
        50
    }
}

/// What a successful search returns: the fully materialized records of
/// the ranked hits, in rank order.
pub open spec fn search_post(m: Map<i64, RepoData>, hits: Seq<i64>, repos: Seq<Repo>) -> bool {
    &&& repos.len() == hits.len()
    &&& forall|i: int|
        0 <= i < hits.len() ==> (#[trigger] repos[i])@ == m[hits[i]] && repos[i].id == hits[i]
}

/// A subsection node carries the count of rows attached to its
/// subsection.
pub open spec fn sub_node_ok(rm: Map<i64, RepoData>, n: SubsectionNode) -> bool {
    n.repo_count == matching_ids(
        rm,
        seq![Cond { col: FilterCol::SubsectionId, value: n.subsection.id }],
    ).len()
}

/// A section node carries its own attachment count and the full ordered
/// listing of its subsections, each with its count.
pub open spec fn sec_node_ok(
    um: Map<i64, crate::records::SubsectionData>,
    rm: Map<i64, RepoData>,
    n: SectionNode,
) -> bool {
    &&& n.repo_count == matching_ids(
        rm,
        seq![Cond { col: FilterCol::SectionId, value: n.section.id }],
    ).len()
    &&& subsections_listed(
        um,
        n.section.id,
        n.subsections@.map_values(|x: SubsectionNode| x.subsection@),
    )
    &&& forall|k: int| 0 <= k < n.subsections@.len() ==> sub_node_ok(rm, #[trigger] n.subsections@[k])
}

/// A category node carries its document's attachment count and the full
/// ordered listing of its sections, each a well-formed section node.
pub open spec fn cat_node_ok(
    sm: Map<i64, crate::records::SectionData>,
    um: Map<i64, crate::records::SubsectionData>,
    rm: Map<i64, RepoData>,
    n: CategoryNode,
) -> bool {
    &&& n.repo_count == matching_ids(
        rm,
        seq![Cond { col: FilterCol::DocumentId, value: n.document.id }],
    ).len()
    &&& sections_listed(sm, n.document.id, n.sections@.map_values(|x: SectionNode| x.section@))
    &&& forall|k: int| 0 <= k < n.sections@.len() ==> sec_node_ok(um, rm, #[trigger] n.sections@[k])
}

/// What a successful tree aggregation returns: the documents in
/// `(sort_order, doc_number)` order, and under each one its ordered
/// sections and subsections, every node annotated with the count of
/// repository rows whose corresponding foreign key points at it.
pub open spec fn tree_post(
    dm: Map<i64, crate::records::DocumentData>,
    sm: Map<i64, crate::records::SectionData>,
    um: Map<i64, crate::records::SubsectionData>,
    rm: Map<i64, RepoData>,
    t: Seq<CategoryNode>,
) -> bool {
    &&& docs_listed(dm, t.map_values(|n: CategoryNode| n.document@))
    &&& forall|k: int| 0 <= k < t.len() ==> cat_node_ok(sm, um, rm, #[trigger] t[k])
}

/// Clones an optional string, preserving its value.
fn clone_opt_string(s: &Option<String>) -> (r: Option<String>)
    ensures
        r == *s,
{
    match s {
        Some(x) => Some(x.clone()),
        None => None,
    }
}

/// Clones a document record, preserving its value.
fn clone_document(d: &Document) -> (r: Document)
    ensures
        r == *d,
{
    Document {
        id: d.id,
        doc_number: d.doc_number,
        filename: d.filename.clone(),
        title: d.title.clone(),
        description: clone_opt_string(&d.description),
        sort_order: d.sort_order,
    }
}

/// Clones a section record, preserving its value.
fn clone_section(s: &Section) -> (r: Section)
    ensures
        r == *s,
{
    Section { id: s.id, document_id: s.document_id, name: s.name.clone(), sort_order: s.sort_order }
}

/// Clones a subsection record, preserving its value.
fn clone_subsection(s: &Subsection) -> (r: Subsection)
    ensures
        r == *s,
{
    Subsection { id: s.id, section_id: s.section_id, name: s.name.clone(), sort_order: s.sort_order }
}

impl Database {
    /// Counts the repository rows one condition matches, through the
    /// same rendered predicate the listing uses.
    fn count_one(&self, c: Cond) -> (r: Result<i64, CatalogError>)
        ensures
            r is Ok ==> matching_ids(self.repos(), seq![c]).finite() && r->Ok_0 == matching_ids(
                self.repos(),
                seq![c],
            ).len(),
    {
        let mut conds: Vec<Cond> = Vec::new();
        conds.push(c);
        proof {
            assert(conds@ =~= seq![c]);
        }
        let params = build_params(&conds);
        let sql = build_count_sql(&conds);
        match self.count_rows(sql.as_str(), &params, &conds) {
            Ok(t) => Ok(t),
            Err(e) => Err(classify_error(e)),
        }
    }

    /// Lists repository records: the page selected by the filter's
    /// bounds out of the full `(sort_order, display_name)`-sorted listing
    /// of the rows its taxonomy fields match, together with the true
    /// total of matching rows, which no limit or offset reduces.  A
    /// negative bound is rejected as `InvalidInput` before the store is
    /// touched.
    pub fn repo_list(&self, filter: Option<RepoListFilter>) -> (r: Result<
        RepoListResponse,
        CatalogError,
    >)
        ensures
            !bounds_valid(filter) ==> r is Err && r->Err_0 is InvalidInput,
            r is Err && r->Err_0 is InvalidInput ==> !bounds_valid(filter),
            r is Ok ==> list_post(self.repos(), filter, r->Ok_0),
    {
        let (doc_id, sec_id, limit, offset): (
            Option<i64>,
            Option<i64>,
            Option<i64>,
            Option<i64>,
        ) = match &filter {
            Some(f) => (f.document_id, f.section_id, f.limit, f.offset),
            None => (None, None, None, None),
        };
        if let Some(l) = limit {
            if l < 0 {
                return Err(
                    CatalogError::InvalidInput(
                        String::from_str("limit must be a non-negative integer"),
                    ),
                );
            }
        }
        if let Some(o) = offset {
            if o < 0 {
                return Err(
                    CatalogError::InvalidInput(
                        String::from_str("offset must be a non-negative integer"),
                    ),
                );
            }
        }
        proof {
            assert(doc_id == filter_document_id(filter));
            assert(sec_id == filter_section_id(filter));
            assert(limit == filter_limit(filter));
            assert(offset == filter_offset(filter));
            assert(bounds_valid(filter));
        }
        let conds = build_conds(doc_id, sec_id);
        let params = build_params(&conds);
        let count_sql = build_count_sql(&conds);
        let total: i64 = match self.count_rows(count_sql.as_str(), &params, &conds) {
            Ok(t) => t,
            Err(e) => {
                return Err(classify_error(e));
            },
        };
        let list_sql = build_list_sql(&conds, limit, offset);
        let ids = match self.select_page_ids(list_sql.as_str(), &params, &conds, limit, offset) {
            Ok(v) => v,
            Err(e) => {
                return Err(classify_error(e));
            },
        };
        let ghost m = self.repos();
        let ghost cs = conds@;
        let ghost all = choose|all: Seq<i64>|
            listing_order(m, cs, all) && ids@ == page_of(all, limit, offset);
        proof {
            crate::laws::lemma_listing_total(m, cs, all);
            assert forall|j: int| 0 <= j < ids@.len() implies m.dom().contains(
                #[trigger] ids@[j],
            ) by {
                assert(page_of(all, limit, offset)[j] == ids@[j]);
            }
        }
        let mut repos: Vec<Repo> = Vec::new();
        let mut i: usize = 0;
        while i < ids.len()
            invariant
                i <= ids.len(),
                repos@.len() == i as int,
                forall|j: int|
                    0 <= j < i ==> (#[trigger] repos@[j])@ == m[ids@[j]] && repos@[j].id
                        == ids@[j],
                forall|j: int| 0 <= j < ids@.len() ==> m.dom().contains(#[trigger] ids@[j]),
                m == self.repos(),
                bounds_valid(filter),
            decreases ids.len() - i,
        {
            let id = ids[i];
            let rep = match self.select_repo(id) {
                Ok(Some(rp)) => rp,
                Ok(None) => {
                    proof {
                        assert(false);
                    }
                    vstd::pervasive::unreached()
                },
                Err(e) => {
                    return Err(classify_error(e));
                },
            };
            repos.push(rep);
            i = i + 1;
        }
        let resp = RepoListResponse { repos, total };
        proof {
            assert(listing_order(m, cs, all) && all.len() == resp.total && repos_match_page(
                m,
                page_of(all, filter_limit(filter), filter_offset(filter)),
                resp.repos@,
            ));
        }
        Ok(resp)
    }

    /// Searches the catalog: the records of the rows the search index
    /// matches for `query`, best match first, at most `limit` of them
    /// (fifty when no limit is supplied).  A negative limit is rejected
    /// as `InvalidInput`; a query the index itself rejects (for
    /// instance, an empty or malformed one) surfaces as a `Storage`
    /// error, following the index's own semantics.
    pub fn repo_search(&self, query: &str, limit: Option<i64>) -> (r: Result<
        Vec<Repo>,
        CatalogError,
    >)
        ensures
            limit is Some && limit->0 < 0 ==> r is Err && r->Err_0 is InvalidInput,
            r is Err && r->Err_0 is InvalidInput ==> limit is Some && limit->0 < 0,
            r is Ok ==> search_post(
                self.repos(),
                self.search_ranking(query@, search_cap(limit)),
                r->Ok_0@,
            ),
            r is Ok ==> r->Ok_0@.len() <= search_cap(limit),
    {
        let cap: i64 = match limit {
            Some(l) => {
                if l < 0 {
                    return Err(
                        CatalogError::InvalidInput(
                            String::from_str("limit must be a non-negative integer"),
                        ),
                    );
                }
                l
            },
            None => 50,
        };
        proof {
            assert(cap == search_cap(limit));
            assert(cap >= 0);
        }
        let hits = match self.search_page_ids(query, cap) {
            Ok(v) => v,
            Err(e) => {
                return Err(classify_error(e));
            },
        };
        let ghost m = self.repos();
        let mut repos: Vec<Repo> = Vec::new();
        let mut i: usize = 0;
        while i < hits.len()
            invariant
                i <= hits.len(),
                repos@.len() == i as int,
                forall|j: int|
                    0 <= j < i ==> (#[trigger] repos@[j])@ == m[hits@[j]] && repos@[j].id
                        == hits@[j],
                forall|j: int| 0 <= j < hits@.len() ==> m.dom().contains(#[trigger] hits@[j]),
                m == self.repos(),
                limit is Some ==> limit->0 >= 0,
            decreases hits.len() - i,
        {
            let id = hits[i];
            let rep = match self.select_repo(id) {
                Ok(Some(rp)) => rp,
                Ok(None) => {
                    proof {
                        assert(false);
                    }
                    vstd::pervasive::unreached()
                },
                Err(e) => {
                    return Err(classify_error(e));
                },
            };
            repos.push(rep);
            i = i + 1;
        }
        Ok(repos)
    }

    /// Aggregates the taxonomy tree: every document in `(sort_order,
    /// doc_number)` order, under it its sections ordered by
    /// `sort_order`, under each section its subsections likewise, and on
    /// every node the count of repository rows whose corresponding
    /// foreign key equals that node's identifier.  The three counts are
    /// independent: a row may be counted at several levels at once.  Any
    /// storage failure aborts the whole aggregation; no partial tree is
    /// returned.
    pub fn category_tree(&self) -> (r: Result<Vec<CategoryNode>, CatalogError>)
        ensures
            r is Ok ==> tree_post(
                self.docs(),
                self.sections(),
                self.subsections(),
                self.repos(),
                r->Ok_0@,
            ),
    {
        let docs = match self.select_documents() {
            Ok(v) => v,
            Err(e) => {
                return Err(classify_error(e));
            },
        };
        let mut tree: Vec<CategoryNode> = Vec::new();
        let mut i: usize = 0;
        while i < docs.len()
            invariant
                i <= docs.len(),
                tree@.len() == i as int,
                docs_listed(self.docs(), docs@.map_values(|d: Document| d@)),
                forall|q: int| 0 <= q < i ==> (#[trigger] tree@[q]).document == docs@[q],
                forall|q: int|
                    0 <= q < i ==> cat_node_ok(
                        self.sections(),
                        self.subsections(),
                        self.repos(),
                        #[trigger] tree@[q],
                    ),
            decreases docs.len() - i,
        {
            let doc = clone_document(&docs[i]);
            let doc_count = match self.count_one(
                Cond { col: FilterCol::DocumentId, value: doc.id },
            ) {
                Ok(t) => t,
                Err(e) => {
                    return Err(e);
                },
            };
            let secs = match self.select_sections(doc.id) {
                Ok(v) => v,
                Err(e) => {
                    return Err(classify_error(e));
                },
            };
            let mut sec_nodes: Vec<SectionNode> = Vec::new();
            let mut j: usize = 0;
            while j < secs.len()
                invariant
                    j <= secs.len(),
                    sec_nodes@.len() == j as int,
                    sections_listed(self.sections(), doc.id, secs@.map_values(|s: Section| s@)),
                    forall|q: int| 0 <= q < j ==> (#[trigger] sec_nodes@[q]).section == secs@[q],
                    forall|q: int|
                        0 <= q < j ==> sec_node_ok(
                            self.subsections(),
                            self.repos(),
                            #[trigger] sec_nodes@[q],
                        ),
                decreases secs.len() - j,
            {
                let sec = clone_section(&secs[j]);
                let sec_count = match self.count_one(
                    Cond { col: FilterCol::SectionId, value: sec.id },
                ) {
                    Ok(t) => t,
                    Err(e) => {
                        return Err(e);
                    },
                };
                let subs = match self.select_subsections(sec.id) {
                    Ok(v) => v,
                    Err(e) => {
                        return Err(classify_error(e));
                    },
                };
                let mut sub_nodes: Vec<SubsectionNode> = Vec::new();
                let mut k: usize = 0;
                while k < subs.len()
                    invariant
                        k <= subs.len(),
                        sub_nodes@.len() == k as int,
                        forall|q: int|
                            0 <= q < k ==> (#[trigger] sub_nodes@[q]).subsection == subs@[q],
                        forall|q: int|
                            0 <= q < k ==> sub_node_ok(self.repos(), #[trigger] sub_nodes@[q]),
                    decreases subs.len() - k,
                {
                    let sub = clone_subsection(&subs[k]);
                    let sub_count = match self.count_one(
                        Cond { col: FilterCol::SubsectionId, value: sub.id },
                    ) {
                        Ok(t) => t,
                        Err(e) => {
                            return Err(e);
                        },
                    };
                    sub_nodes.push(SubsectionNode { subsection: sub, repo_count: sub_count });
                    k = k + 1;
                }
                let node = SectionNode { section: sec, subsections: sub_nodes, repo_count: sec_count };
                proof {
                    let mapped_nodes = node.subsections@.map_values(
                        |x: SubsectionNode| x.subsection@,
                    );
                    let mapped_subs = subs@.map_values(|u: Subsection| u@);
                    assert forall|q: int| 0 <= q < mapped_nodes.len() implies mapped_nodes[q]
                        == mapped_subs[q] by {
                        assert(node.subsections@[q].subsection == subs@[q]);
                    }
                    assert(mapped_nodes =~= mapped_subs);
                    assert(sec_node_ok(self.subsections(), self.repos(), node));
                }
                sec_nodes.push(node);
                j = j + 1;
            }
            let cat = CategoryNode { document: doc, sections: sec_nodes, repo_count: doc_count };
            proof {
                let mapped_nodes = cat.sections@.map_values(|x: SectionNode| x.section@);
                let mapped_secs = secs@.map_values(|s: Section| s@);
                assert forall|q: int| 0 <= q < mapped_nodes.len() implies mapped_nodes[q]
                    == mapped_secs[q] by {
                    assert(cat.sections@[q].section == secs@[q]);
                }
                assert(mapped_nodes =~= mapped_secs);
                assert(cat_node_ok(self.sections(), self.subsections(), self.repos(), cat));
            }
            tree.push(cat);
            i = i + 1;
        }
        proof {
            let mapped_tree = tree@.map_values(|n: CategoryNode| n.document@);
            let mapped_docs = docs@.map_values(|d: Document| d@);
            assert forall|q: int| 0 <= q < mapped_tree.len() implies mapped_tree[q]
                == mapped_docs[q] by {
                assert(tree@[q].document == docs@[q]);
            }
            assert(mapped_tree =~= mapped_docs);
        }
        Ok(tree)
    }
}

} // verus!
