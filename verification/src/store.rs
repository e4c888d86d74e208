//! The storage handle and the trusted boundary to the SQLite store.
//!
//! Everything in this module that is marked `external_body` is a trusted
//! wrapper around one operation of the `rusqlite` crate; each wrapper's
//! contract states, over the content maps `repos_in`, `docs_in`,
//! `sections_in` and `subs_in`, what the executed statement does, and no
//! wrapper contains any decision of its own: the query text it runs is
//! either fixed or handed in by verified code that proved it equal to the
//! specified text.

use vstd::prelude::*;
use rusqlite::OptionalExtension;
use crate::model::{
    docs_listed,
    fresh_repo,
    listing_order,
    matching_ids,
    page_of,
    sections_listed,
    subsections_listed,
    updated_repo,
};
use crate::records::{opt_view, Document, DocumentData, Repo, RepoData, Section, SectionData, Subsection, SubsectionData};
use crate::sqlgen::{cond_vals, count_sql_spec, list_sql_spec, Cond};

verus! {

#[verifier::external_type_specification]
#[verifier::external_body]
/// The connection type of the rusqlite crate, left opaque.
pub struct ExConnection(rusqlite::Connection);

#[verifier::external_type_specification]
#[verifier::external_body]
/// The error type of the rusqlite crate, left opaque.
pub struct ExSqlError(rusqlite::Error);

/// The storage handle: one connection to the relational store.
pub struct Database {
    pub(crate) conn: rusqlite::Connection,
}

/// The repository rows the store holds, keyed by row identifier.
pub uninterp spec fn repos_in(db: Database) -> Map<i64, RepoData>;

/// The document rows the store holds, keyed by row identifier.
pub uninterp spec fn docs_in(db: Database) -> Map<i64, DocumentData>;

/// The section rows the store holds, keyed by row identifier.
pub uninterp spec fn sections_in(db: Database) -> Map<i64, SectionData>;

/// The subsection rows the store holds, keyed by row identifier.
pub uninterp spec fn subs_in(db: Database) -> Map<i64, SubsectionData>;

/// The ranked result of a free-text query: the identifiers of the
/// matching repository rows, best match first, at most `limit` of them.
/// The search index is part of the store, so the ranking is a function of
/// the store's contents, the query text and the cap.
pub uninterp spec fn search_hits(db: Database, q: Seq<char>, limit: i64) -> Seq<i64>;

/// The error taxonomy every operation reports failures through.
#[derive(Debug, Clone, PartialEq)]
pub enum CatalogError {
    /// An insert or update violated a uniqueness or foreign-key
    /// constraint; the payload describes the violated constraint.
    Constraint(String),
    /// The storage dependency failed; the payload describes the failure.
    Storage(String),
    /// A caller-supplied pagination bound was negative.
    InvalidInput(String),
}

impl CatalogError {
    /// The human-readable description carried by this error.
    pub fn message(&self) -> (r: &str)
        ensures
            r@ == self.spec_message(),
    {
        match self {
            CatalogError::Constraint(s) => s.as_str(),
            CatalogError::Storage(s) => s.as_str(),
            CatalogError::InvalidInput(s) => s.as_str(),
        }
    }

    pub open spec fn spec_message(&self) -> Seq<char> {
        match self {
            CatalogError::Constraint(s) => s@,
            CatalogError::Storage(s) => s@,
            CatalogError::InvalidInput(s) => s@,
        }
    }
}

/// Maps a storage error onto the catalog's error taxonomy.
///
/// Relies on rusqlite::Error: the variant `SqliteFailure` with code
/// `ConstraintViolation` reports a violated constraint, and every error
/// renders a description through its `Display` implementation.
#[verifier::external_body]
pub fn classify_error(e: rusqlite::Error) -> (r: CatalogError)
    ensures
        r is Constraint || r is Storage,
{
    match &e {
        rusqlite::Error::SqliteFailure(f, _) if f.code
            == rusqlite::ErrorCode::ConstraintViolation => CatalogError::Constraint(e.to_string()),
        _ => CatalogError::Storage(e.to_string()),
    }
}

/// The identifying and taxonomy half of one repository row.
struct RepoCore {
    id: i64,
    fork_name: String,
    display_name: String,
    upstream_url: Option<String>,
    github_url: Option<String>,
    document_id: Option<i64>,
    section_id: Option<i64>,
    subsection_id: Option<i64>,
    description: Option<String>,
}

/// The remaining half of one repository row.
struct RepoExtra {
    build_cmd: Option<String>,
    usage_cmd: Option<String>,
    install_cmd: Option<String>,
    docs_url: Option<String>,
    note: Option<String>,
    source_type: String,
    fork_status: String,
    is_private: bool,
    sort_order: i64,
}

/// The first half of a row carries these fields of its ghost image.
spec fn core_matches(c: RepoCore, d: RepoData) -> bool {
    &&& c.id == d.id
    &&& c.fork_name@ == d.fork_name
    &&& c.display_name@ == d.display_name
    &&& opt_view(c.upstream_url) == d.upstream_url
    &&& opt_view(c.github_url) == d.github_url
    &&& c.document_id == d.document_id
    &&& c.section_id == d.section_id
    &&& c.subsection_id == d.subsection_id
    &&& opt_view(c.description) == d.description
}

/// The second half of a row carries these fields of its ghost image.
spec fn extra_matches(x: RepoExtra, d: RepoData) -> bool {
    &&& opt_view(x.build_cmd) == d.build_cmd
    &&& opt_view(x.usage_cmd) == d.usage_cmd
    &&& opt_view(x.install_cmd) == d.install_cmd
    &&& opt_view(x.docs_url) == d.docs_url
    &&& opt_view(x.note) == d.note
    &&& x.source_type@ == d.source_type
    &&& x.fork_status@ == d.fork_status
    &&& x.is_private == d.is_private
    &&& x.sort_order == d.sort_order
}

impl Database {
    /// The repository rows this handle's store holds.
    pub open spec fn repos(&self) -> Map<i64, RepoData> {
        repos_in(*self)
    }

    /// The document rows this handle's store holds.
    pub open spec fn docs(&self) -> Map<i64, DocumentData> {
        docs_in(*self)
    }

    /// The section rows this handle's store holds.
    pub open spec fn sections(&self) -> Map<i64, SectionData> {
        sections_in(*self)
    }

    /// The subsection rows this handle's store holds.
    pub open spec fn subsections(&self) -> Map<i64, SubsectionData> {
        subs_in(*self)
    }

    /// The ranked identifiers the search index yields for a query under a cap.
    pub open spec fn search_ranking(&self, q: Seq<char>, limit: i64) -> Seq<i64> {
        search_hits(*self, q, limit)
    }

    /// Opens a private in-memory store.
    ///
    /// Relies on rusqlite::Connection::open_in_memory.
    #[verifier::external_body]
    pub(crate) fn open_memory_conn() -> (r: Result<rusqlite::Connection, rusqlite::Error>) {
        rusqlite::Connection::open_in_memory()
    }

    /// Opens (creating if absent) the single-file store at `path`.
    ///
    /// Relies on rusqlite::Connection::open.
    #[verifier::external_body]
    pub(crate) fn open_file_conn(path: &str) -> (r: Result<
        rusqlite::Connection,
        rusqlite::Error,
    >) {
        rusqlite::Connection::open(path)
    }

    /// Runs a batch of schema statements.  Nothing is assumed about the
    /// contents afterwards.
    ///
    /// Relies on rusqlite::Connection::execute_batch.
    #[verifier::external_body]
    pub(crate) fn run_batch(&mut self, sql: &str) -> (r: Result<(), rusqlite::Error>) {
        self.conn.execute_batch(sql)
    }

    /// Runs a count query whose text was built, and proved, from `conds`.
    ///
    /// Relies on rusqlite::Connection::query_row: a `SELECT COUNT(*)`
    /// with the rendered predicate returns the number of rows the
    /// conditions match.
    #[verifier::external_body]
    pub(crate) fn count_rows(&self, sql: &str, params: &Vec<i64>, conds: &Vec<Cond>) -> (r: Result<
        i64,
        rusqlite::Error,
    >)
        requires
            sql@ == count_sql_spec(conds@),
            params@ == cond_vals(conds@),
        ensures
            r is Ok ==> matching_ids(repos_in(*self), conds@).finite() && r->Ok_0
                == matching_ids(repos_in(*self), conds@).len(),
    {
        self.conn.query_row(sql, rusqlite::params_from_iter(params.iter()), |row| row.get(0))
    }

    /// Runs a row-fetch query whose text was built, and proved, from
    /// `conds` and the validated bounds, and returns the page of row
    /// identifiers it selects.
    ///
    /// Relies on rusqlite::Statement::query_map: the query orders the
    /// matching rows by `(sort_order, display_name)` and returns the
    /// requested page of their identifiers.
    #[verifier::external_body]
    pub(crate) fn select_page_ids(
        &self,
        sql: &str,
        params: &Vec<i64>,
        conds: &Vec<Cond>,
        limit: Option<i64>,
        offset: Option<i64>,
    ) -> (r: Result<Vec<i64>, rusqlite::Error>)
        requires
            sql@ == list_sql_spec(conds@, limit, offset),
            params@ == cond_vals(conds@),
            limit is Some ==> limit->0 >= 0,
            offset is Some ==> offset->0 >= 0,
        ensures
            r is Ok ==> exists|all: Seq<i64>|
                listing_order(repos_in(*self), conds@, all) && r->Ok_0@ == page_of(
                    all,
                    limit,
                    offset,
                ),
    {
        let mut stmt = self.conn.prepare(sql)?;
        let rows = stmt.query_map(rusqlite::params_from_iter(params.iter()), |row| row.get(0))?;
        rows.collect()
    }

    /// One repository row's identifying and taxonomy columns.
    ///
    /// Relies on rusqlite::Connection::query_row over the repos table
    /// keyed by `id`, with `optional` turning the no-rows case into
    /// `None`.
    #[verifier::external_body]
    fn select_repo_core(&self, id: i64) -> (r: Result<Option<RepoCore>, rusqlite::Error>)
        ensures
            r is Ok ==> match r->Ok_0 {
                Some(c) => repos_in(*self).dom().contains(id) && core_matches(
                    c,
                    repos_in(*self)[id],
                ) && c.id == id,
                None => !repos_in(*self).dom().contains(id),
            },
    {
        self.conn.query_row(
            "SELECT id, fork_name, display_name, upstream_url, github_url, document_id, section_id, subsection_id, description FROM repos WHERE id = ?",
            [id],
            |row| Ok(RepoCore {
                id: row.get(0)?, fork_name: row.get(1)?, display_name: row.get(2)?,
                upstream_url: row.get(3)?, github_url: row.get(4)?, document_id: row.get(5)?,
                section_id: row.get(6)?, subsection_id: row.get(7)?, description: row.get(8)?,
            }),
        ).optional()
    }

    /// One repository row's remaining columns.
    ///
    /// Relies on rusqlite::Connection::query_row over the repos table
    /// keyed by `id`, with `optional` turning the no-rows case into
    /// `None`.
    #[verifier::external_body]
    fn select_repo_extra(&self, id: i64) -> (r: Result<Option<RepoExtra>, rusqlite::Error>)
        ensures
            r is Ok ==> match r->Ok_0 {
                Some(x) => repos_in(*self).dom().contains(id) && extra_matches(
                    x,
                    repos_in(*self)[id],
                ),
                None => !repos_in(*self).dom().contains(id),
            },
    {
        self.conn.query_row(
            "SELECT build_cmd, usage_cmd, install_cmd, docs_url, note, source_type, fork_status, is_private, sort_order FROM repos WHERE id = ?",
            [id],
            |row| Ok(RepoExtra {
                build_cmd: row.get(0)?, usage_cmd: row.get(1)?, install_cmd: row.get(2)?,
                docs_url: row.get(3)?, note: row.get(4)?, source_type: row.get(5)?,
                fork_status: row.get(6)?, is_private: row.get(7)?, sort_order: row.get(8)?,
            }),
        ).optional()
    }

    /// Fetches the repository row with the given identifier, fully
    /// materialized, or reports that no such row exists.
    pub(crate) fn select_repo(&self, id: i64) -> (r: Result<Option<Repo>, rusqlite::Error>)
        ensures
            r is Ok ==> match r->Ok_0 {
                Some(rep) => repos_in(*self).dom().contains(id) && rep@ == repos_in(*self)[id]
                    && rep.id == id,
                None => !repos_in(*self).dom().contains(id),
            },
    {
        let core = match self.select_repo_core(id)? {
            Some(c) => c,
            None => {
                return Ok(None);
            },
        };
        let extra = match self.select_repo_extra(id)? {
            Some(x) => x,
            None => {
                proof {
                    assert(false);
                }
                vstd::pervasive::unreached()
            },
        };
        let rep = Repo {
            id: core.id,
            fork_name: core.fork_name,
            display_name: core.display_name,
            upstream_url: core.upstream_url,
            github_url: core.github_url,
            document_id: core.document_id,
            section_id: core.section_id,
            subsection_id: core.subsection_id,
            description: core.description,
            build_cmd: extra.build_cmd,
            usage_cmd: extra.usage_cmd,
            install_cmd: extra.install_cmd,
            docs_url: extra.docs_url,
            note: extra.note,
            source_type: extra.source_type,
            fork_status: extra.fork_status,
            is_private: extra.is_private,
            sort_order: extra.sort_order,
        };
        proof {
            assert(rep@ =~= repos_in(*self)[id]);
        }
        Ok(Some(rep))
    }

    /// Runs the ranked free-text query against the search index and
    /// returns the matching row identifiers, best match first, at most
    /// `limit` of them.
    ///
    /// Relies on rusqlite::Statement::query_map over the index joined
    /// back to the repos table: every returned identifier names an
    /// existing row, each at most once, and a malformed query surfaces as
    /// an error.
    #[verifier::external_body]
    pub(crate) fn search_page_ids(&self, query: &str, limit: i64) -> (r: Result<
        Vec<i64>,
        rusqlite::Error,
    >)
        requires
            limit >= 0,
        ensures
            r is Ok ==> {
                let hits = r->Ok_0@;
                &&& hits == search_hits(*self, query@, limit)
                &&& hits.len() <= limit
                &&& hits.no_duplicates()
                &&& forall|i: int|
                    0 <= i < hits.len() ==> repos_in(*self).dom().contains(#[trigger] hits[i])
            },
    {
        let mut stmt = self.conn.prepare(
            "SELECT repos.id FROM repos_fts JOIN repos ON repos.id = repos_fts.rowid WHERE repos_fts MATCH ?1 ORDER BY rank LIMIT ?2",
        )?;
        let rows = stmt.query_map((query, limit), |row| row.get(0))?;
        rows.collect()
    }

    /// Inserts a repository row with the four supplied fields and the
    /// given provenance tag; every other column takes its schema default.
    /// Returns the freshly assigned identifier.
    ///
    /// Relies on rusqlite::Connection::execute running the insert and on
    /// rusqlite::Connection::last_insert_rowid reporting the new key,
    /// which the store never reuses.
    #[verifier::external_body]
    pub(crate) fn insert_repo(
        &mut self,
        fork_name: &str,
        display_name: &str,
        document_id: Option<i64>,
        description: Option<&str>,
        source_type: &str,
    ) -> (r: Result<i64, rusqlite::Error>)
        ensures
            r is Ok ==> {
                let id = r->Ok_0;
                let m0 = repos_in(*old(self));
                let m1 = repos_in(*final(self));
                &&& !m0.dom().contains(id)
                &&& m1 == m0.insert(id, m1[id])
                &&& fresh_repo(
                    m1[id],
                    id,
                    fork_name@,
                    display_name@,
                    document_id,
                    match description {
                        Some(d) => Some(d@),
                        None => None,
                    },
                    source_type@,
                )
            },
            r is Err ==> repos_in(*final(self)) == repos_in(*old(self)),
            docs_in(*final(self)) == docs_in(*old(self)),
            sections_in(*final(self)) == sections_in(*old(self)),
            subs_in(*final(self)) == subs_in(*old(self)),
    {
        self.conn.execute(
            "INSERT INTO repos (fork_name, display_name, document_id, description, source_type) VALUES (?1, ?2, ?3, ?4, ?5)",
            (fork_name, display_name, document_id, description, source_type),
        )?;
        Ok(self.conn.last_insert_rowid())
    }

    /// Sets the display name of one row, if it exists; reports how many
    /// rows changed.
    ///
    /// Relies on rusqlite::Connection::execute: the update touches
    /// exactly the row keyed by `id` and reports the matched-row count.
    #[verifier::external_body]
    pub(crate) fn update_display_name(&mut self, id: i64, value: &str) -> (r: Result<
        usize,
        rusqlite::Error,
    >)
        ensures
            r is Ok ==> Self::one_row_updated(
                repos_in(*old(self)),
                repos_in(*final(self)),
                id,
                r->Ok_0,
                Some(value@),
                None,
            ),
            r is Err ==> repos_in(*final(self)) == repos_in(*old(self)),
            docs_in(*final(self)) == docs_in(*old(self)),
            sections_in(*final(self)) == sections_in(*old(self)),
            subs_in(*final(self)) == subs_in(*old(self)),
    {
        self.conn.execute("UPDATE repos SET display_name = ? WHERE id = ?", (value, id))
    }

    /// Sets the description of one row, if it exists; reports how many
    /// rows changed.
    ///
    /// Relies on rusqlite::Connection::execute: the update touches
    /// exactly the row keyed by `id` and reports the matched-row count.
    #[verifier::external_body]
    pub(crate) fn update_description(&mut self, id: i64, value: &str) -> (r: Result<
        usize,
        rusqlite::Error,
    >)
        ensures
            r is Ok ==> Self::one_row_updated(
                repos_in(*old(self)),
                repos_in(*final(self)),
                id,
                r->Ok_0,
                None,
                Some(value@),
            ),
            r is Err ==> repos_in(*final(self)) == repos_in(*old(self)),
            docs_in(*final(self)) == docs_in(*old(self)),
            sections_in(*final(self)) == sections_in(*old(self)),
            subs_in(*final(self)) == subs_in(*old(self)),
    {
        self.conn.execute("UPDATE repos SET description = ? WHERE id = ?", (value, id))
    }

    /// Sets both mutable fields of one row, if it exists; reports how
    /// many rows changed.
    ///
    /// Relies on rusqlite::Connection::execute: the update touches
    /// exactly the row keyed by `id` and reports the matched-row count.
    #[verifier::external_body]
    pub(crate) fn update_both(&mut self, id: i64, display_name: &str, description: &str) -> (r:
        Result<usize, rusqlite::Error>)
        ensures
            r is Ok ==> Self::one_row_updated(
                repos_in(*old(self)),
                repos_in(*final(self)),
                id,
                r->Ok_0,
                Some(display_name@),
                Some(description@),
            ),
            r is Err ==> repos_in(*final(self)) == repos_in(*old(self)),
            docs_in(*final(self)) == docs_in(*old(self)),
            sections_in(*final(self)) == sections_in(*old(self)),
            subs_in(*final(self)) == subs_in(*old(self)),
    {
        self.conn.execute(
            "UPDATE repos SET display_name = ?, description = ? WHERE id = ?",
            (display_name, description, id),
        )
    }

    /// What a partial update of one row leaves behind: the row keyed by
    /// `id` carries the supplied fields, everything else is untouched,
    /// and the reported count says whether the row existed.
    pub open spec fn one_row_updated(
        m0: Map<i64, RepoData>,
        m1: Map<i64, RepoData>,
        id: i64,
        n: usize,
        display_name: Option<Seq<char>>,
        description: Option<Seq<char>>,
    ) -> bool {
        if m0.dom().contains(id) {
            &&& n == 1
            &&& m1 == m0.insert(id, m1[id])
            &&& updated_repo(m0[id], m1[id], display_name, description)
        } else {
            &&& n == 0
            &&& m1 == m0
        }
    }

    /// Deletes the repository row with the given identifier; reports how
    /// many rows were removed.  Taxonomy tables are untouched.
    ///
    /// Relies on rusqlite::Connection::execute: the delete removes
    /// exactly the row keyed by `id` and reports the removed-row count.
    #[verifier::external_body]
    pub(crate) fn delete_repo(&mut self, id: i64) -> (r: Result<usize, rusqlite::Error>)
        ensures
            r is Ok ==> {
                let m0 = repos_in(*old(self));
                &&& repos_in(*final(self)) == m0.remove(id)
                &&& r->Ok_0 == if m0.dom().contains(id) {
                    1int
                } else {
                    0int
                }
            },
            r is Err ==> repos_in(*final(self)) == repos_in(*old(self)),
            docs_in(*final(self)) == docs_in(*old(self)),
            sections_in(*final(self)) == sections_in(*old(self)),
            subs_in(*final(self)) == subs_in(*old(self)),
    {
        self.conn.execute("DELETE FROM repos WHERE id = ?", [id])
    }

    /// Fetches every document, ordered by `(sort_order, doc_number)`.
    ///
    /// Relies on rusqlite::Statement::query_map over the documents table
    /// with that order clause.
    #[verifier::external_body]
    pub(crate) fn select_documents(&self) -> (r: Result<Vec<Document>, rusqlite::Error>)
        ensures
            r is Ok ==> docs_listed(
                docs_in(*self),
                r->Ok_0@.map_values(|d: Document| d@),
            ),
    {
        let mut stmt = self.conn.prepare(
            "SELECT id, doc_number, filename, title, description, sort_order FROM documents ORDER BY sort_order, doc_number",
        )?;
        let rows = stmt.query_map([], |row| Ok(Document {
            id: row.get(0)?, doc_number: row.get(1)?, filename: row.get(2)?,
            title: row.get(3)?, description: row.get(4)?, sort_order: row.get(5)?,
        }))?;
        rows.collect()
    }

    /// Fetches the sections of one document, ordered by `sort_order`.
    ///
    /// Relies on rusqlite::Statement::query_map over the sections table
    /// filtered by the bound `document_id`.
    #[verifier::external_body]
    pub(crate) fn select_sections(&self, document_id: i64) -> (r: Result<
        Vec<Section>,
        rusqlite::Error,
    >)
        ensures
            r is Ok ==> sections_listed(
                sections_in(*self),
                document_id,
                r->Ok_0@.map_values(|s: Section| s@),
            ),
    {
        let mut stmt = self.conn.prepare(
            "SELECT id, document_id, name, sort_order FROM sections WHERE document_id = ? ORDER BY sort_order",
        )?;
        let rows = stmt.query_map([document_id], |row| Ok(Section {
            id: row.get(0)?, document_id: row.get(1)?, name: row.get(2)?, sort_order: row.get(3)?,
        }))?;
        rows.collect()
    }

    /// Fetches the subsections of one section, ordered by `sort_order`.
    ///
    /// Relies on rusqlite::Statement::query_map over the subsections
    /// table filtered by the bound `section_id`.
    #[verifier::external_body]
    pub(crate) fn select_subsections(&self, section_id: i64) -> (r: Result<
        Vec<Subsection>,
        rusqlite::Error,
    >)
        ensures
            r is Ok ==> subsections_listed(
                subs_in(*self),
                section_id,
                r->Ok_0@.map_values(|s: Subsection| s@),
            ),
    {
        let mut stmt = self.conn.prepare(
            "SELECT id, section_id, name, sort_order FROM subsections WHERE section_id = ? ORDER BY sort_order",
        )?;
        let rows = stmt.query_map([section_id], |row| Ok(Subsection {
            id: row.get(0)?, section_id: row.get(1)?, name: row.get(2)?, sort_order: row.get(3)?,
        }))?;
        rows.collect()
    }

    /// Inserts a document row and returns its fresh identifier.
    ///
    /// Relies on rusqlite::Connection::execute and
    /// rusqlite::Connection::last_insert_rowid, as for `insert_repo`.
    #[verifier::external_body]
    pub(crate) fn insert_document(
        &mut self,
        doc_number: i64,
        filename: &str,
        title: &str,
        description: Option<&str>,
        sort_order: i64,
    ) -> (r: Result<i64, rusqlite::Error>)
        ensures
            r is Ok ==> {
                let id = r->Ok_0;
                let m0 = docs_in(*old(self));
                let m1 = docs_in(*final(self));
                &&& !m0.dom().contains(id)
                &&& m1 == m0.insert(id, m1[id])
                &&& m1[id] == (DocumentData {
                    id,
                    doc_number,
                    filename: filename@,
                    title: title@,
                    description: match description {
                        Some(d) => Some(d@),
                        None => None,
                    },
                    sort_order,
                })
            },
            r is Err ==> docs_in(*final(self)) == docs_in(*old(self)),
            repos_in(*final(self)) == repos_in(*old(self)),
            sections_in(*final(self)) == sections_in(*old(self)),
            subs_in(*final(self)) == subs_in(*old(self)),
    {
        self.conn.execute(
            "INSERT INTO documents (doc_number, filename, title, description, sort_order) VALUES (?1, ?2, ?3, ?4, ?5)",
            (doc_number, filename, title, description, sort_order),
        )?;
        Ok(self.conn.last_insert_rowid())
    }

    /// Inserts a section row and returns its fresh identifier.
    ///
    /// Relies on rusqlite::Connection::execute and
    /// rusqlite::Connection::last_insert_rowid, as for `insert_repo`.
    #[verifier::external_body]
    pub(crate) fn insert_section(&mut self, document_id: i64, name: &str, sort_order: i64) -> (r:
        Result<i64, rusqlite::Error>)
        ensures
            r is Ok ==> {
                let id = r->Ok_0;
                let m0 = sections_in(*old(self));
                let m1 = sections_in(*final(self));
                &&& !m0.dom().contains(id)
                &&& m1 == m0.insert(id, m1[id])
                &&& m1[id] == (SectionData { id, document_id, name: name@, sort_order })
            },
            r is Err ==> sections_in(*final(self)) == sections_in(*old(self)),
            repos_in(*final(self)) == repos_in(*old(self)),
            docs_in(*final(self)) == docs_in(*old(self)),
            subs_in(*final(self)) == subs_in(*old(self)),
    {
        self.conn.execute(
            "INSERT INTO sections (document_id, name, sort_order) VALUES (?1, ?2, ?3)",
            (document_id, name, sort_order),
        )?;
        Ok(self.conn.last_insert_rowid())
    }

    /// Inserts a subsection row and returns its fresh identifier.
    ///
    /// Relies on rusqlite::Connection::execute and
    /// rusqlite::Connection::last_insert_rowid, as for `insert_repo`.
    #[verifier::external_body]
    pub(crate) fn insert_subsection(&mut self, section_id: i64, name: &str, sort_order: i64) -> (r:
        Result<i64, rusqlite::Error>)
        ensures
            r is Ok ==> {
                let id = r->Ok_0;
                let m0 = subs_in(*old(self));
                let m1 = subs_in(*final(self));
                &&& !m0.dom().contains(id)
                &&& m1 == m0.insert(id, m1[id])
                &&& m1[id] == (SubsectionData { id, section_id, name: name@, sort_order })
            },
            r is Err ==> subs_in(*final(self)) == subs_in(*old(self)),
            repos_in(*final(self)) == repos_in(*old(self)),
            docs_in(*final(self)) == docs_in(*old(self)),
            sections_in(*final(self)) == sections_in(*old(self)),
    {
        self.conn.execute(
            "INSERT INTO subsections (section_id, name, sort_order) VALUES (?1, ?2, ?3)",
            (section_id, name, sort_order),
        )?;
        Ok(self.conn.last_insert_rowid())
    }
}

} // verus!
