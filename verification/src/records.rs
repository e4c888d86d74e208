//! The catalog's value types: repository records, taxonomy nodes, and the
//! ghost views the contracts speak of.

use vstd::prelude::*;

verus! {

/// A catalog entry: one tracked external project or fork.
#[derive(Debug, Clone, PartialEq)]
pub struct Repo {
    pub id: i64,
    pub fork_name: String,
    pub display_name: String,
    pub upstream_url: Option<String>,
    pub github_url: Option<String>,
    pub document_id: Option<i64>,
    pub section_id: Option<i64>,
    pub subsection_id: Option<i64>,
    pub description: Option<String>,
    pub build_cmd: Option<String>,
    pub usage_cmd: Option<String>,
    pub install_cmd: Option<String>,
    pub docs_url: Option<String>,
    pub note: Option<String>,
    pub source_type: String,
    pub fork_status: String,
    pub is_private: bool,
    pub sort_order: i64,
}

/// The mathematical image of a `Repo`: every string as a `Seq<char>`.
#[verifier::ext_equal]
pub ghost struct RepoData {
    pub id: i64,
    pub fork_name: Seq<char>,
    pub display_name: Seq<char>,
    pub upstream_url: Option<Seq<char>>,
    pub github_url: Option<Seq<char>>,
    pub document_id: Option<i64>,
    pub section_id: Option<i64>,
    pub subsection_id: Option<i64>,
    pub description: Option<Seq<char>>,
    pub build_cmd: Option<Seq<char>>,
    pub usage_cmd: Option<Seq<char>>,
    pub install_cmd: Option<Seq<char>>,
    pub docs_url: Option<Seq<char>>,
    pub note: Option<Seq<char>>,
    pub source_type: Seq<char>,
    pub fork_status: Seq<char>,
    pub is_private: bool,
    pub sort_order: i64,
}

pub open spec fn opt_view(o: Option<String>) -> Option<Seq<char>> {
    match o {
        Some(s) => Some(s@),
        None => None,
    }
}

impl View for Repo {
    type V = RepoData;

    open spec fn view(&self) -> RepoData {
        RepoData {
            id: self.id,
            fork_name: self.fork_name@,
            display_name: self.display_name@,
            upstream_url: opt_view(self.upstream_url),
            github_url: opt_view(self.github_url),
            document_id: self.document_id,
            section_id: self.section_id,
            subsection_id: self.subsection_id,
            description: opt_view(self.description),
            build_cmd: opt_view(self.build_cmd),
            usage_cmd: opt_view(self.usage_cmd),
            install_cmd: opt_view(self.install_cmd),
            docs_url: opt_view(self.docs_url),
            note: opt_view(self.note),
            source_type: self.source_type@,
            fork_status: self.fork_status@,
            is_private: self.is_private,
            sort_order: self.sort_order,
        }
    }
}

/// A top-level taxonomy node.
#[derive(Debug, Clone, PartialEq)]
pub struct Document {
    pub id: i64,
    pub doc_number: i64,
    pub filename: String,
    pub title: String,
    pub description: Option<String>,
    pub sort_order: i64,
}

#[verifier::ext_equal]
pub ghost struct DocumentData {
    pub id: i64,
    pub doc_number: i64,
    pub filename: Seq<char>,
    pub title: Seq<char>,
    pub description: Option<Seq<char>>,
    pub sort_order: i64,
}

impl View for Document {
    type V = DocumentData;

    open spec fn view(&self) -> DocumentData {
        DocumentData {
            id: self.id,
            doc_number: self.doc_number,
            filename: self.filename@,
            title: self.title@,
            description: opt_view(self.description),
            sort_order: self.sort_order,
        }
    }
}

/// A mid-level taxonomy node, owned by one `Document`.
#[derive(Debug, Clone, PartialEq)]
pub struct Section {
    pub id: i64,
    pub document_id: i64,
    pub name: String,
    pub sort_order: i64,
}

#[verifier::ext_equal]
pub ghost struct SectionData {
    pub id: i64,
    pub document_id: i64,
    pub name: Seq<char>,
    pub sort_order: i64,
}

impl View for Section {
    type V = SectionData;

    open spec fn view(&self) -> SectionData {
        SectionData {
            id: self.id,
            document_id: self.document_id,
            name: self.name@,
            sort_order: self.sort_order,
        }
    }
}

/// A leaf taxonomy node, owned by one `Section`.
#[derive(Debug, Clone, PartialEq)]
pub struct Subsection {
    pub id: i64,
    pub section_id: i64,
    pub name: String,
    pub sort_order: i64,
}

#[verifier::ext_equal]
pub ghost struct SubsectionData {
    pub id: i64,
    pub section_id: i64,
    pub name: Seq<char>,
    pub sort_order: i64,
}

impl View for Subsection {
    type V = SubsectionData;

    open spec fn view(&self) -> SubsectionData {
        SubsectionData {
            id: self.id,
            section_id: self.section_id,
            name: self.name@,
            sort_order: self.sort_order,
        }
    }
}

/// The optional filter accepted by the listing service.
#[derive(Debug, Clone, PartialEq)]
pub struct RepoListFilter {
    pub document_id: Option<i64>,
    pub section_id: Option<i64>,
    pub limit: Option<i64>,
    pub offset: Option<i64>,
}

/// One page of repository records plus the total matching count.
#[derive(Debug)]
pub struct RepoListResponse {
    pub repos: Vec<Repo>,
    pub total: i64,
}

/// One document of the aggregated taxonomy tree, with its section nodes and
/// the count of repository records attached directly to the document.
#[derive(Debug)]
pub struct CategoryNode {
    pub document: Document,
    pub sections: Vec<SectionNode>,
    pub repo_count: i64,
}

/// One section of the aggregated taxonomy tree.
#[derive(Debug)]
pub struct SectionNode {
    pub section: Section,
    pub subsections: Vec<SubsectionNode>,
    pub repo_count: i64,
}

/// One subsection of the aggregated taxonomy tree.
#[derive(Debug)]
pub struct SubsectionNode {
    pub subsection: Subsection,
    pub repo_count: i64,
}

/// Result of asking for the GitHub authentication state.
#[derive(Debug, Clone, PartialEq)]
pub struct AuthStatus {
    pub authenticated: bool,
    pub username: Option<String>,
    pub scopes: Option<Vec<String>>,
}

/// Result of a remote-fork request.
#[derive(Debug)]
pub struct ForkResult {
    pub success: bool,
    pub repo_id: Option<i64>,
    pub error: Option<String>,
    pub fork_url: Option<String>,
}

/// Result of a catalog-export request.
#[derive(Debug)]
pub struct ExportResult {
    pub success: bool,
    pub path: Option<String>,
    pub error: Option<String>,
}

// --- The listing order -----------------------------------------------------

/// `a` sorts no later than `b` under byte-order string comparison, the
/// collation the store applies to text columns.  Code-point order on `char`
/// sequences coincides with byte order on their UTF-8 encodings.
pub open spec fn lex_le(a: Seq<char>, b: Seq<char>) -> bool
    decreases a.len(),
{
    if a.len() == 0 {
        true
    } else if b.len() == 0 {
        false
    } else if (a[0] as int) < (b[0] as int) {
        true
    } else if a[0] == b[0] {
        lex_le(a.drop_first(), b.drop_first())
    } else {
        false
    }
}

/// The listing service's row order: `sort_order` ascending, ties broken by
/// `display_name` ascending.
pub open spec fn repo_le(a: RepoData, b: RepoData) -> bool {
    a.sort_order < b.sort_order || (a.sort_order == b.sort_order && lex_le(
        a.display_name,
        b.display_name,
    ))
}

/// The tree's document order: `sort_order` ascending, ties broken by
/// `doc_number` ascending.
pub open spec fn doc_le(a: DocumentData, b: DocumentData) -> bool {
    a.sort_order < b.sort_order || (a.sort_order == b.sort_order && a.doc_number <= b.doc_number)
}

} // verus!
