//! Builds the parameterized query text the store executes.
//!
//! A filter is first translated into a list of conditions (`Cond`), each one
//! column compared for equality against one bound value.  The list is then
//! rendered once into a `WHERE` fragment whose placeholders line up with the
//! bound values, and that one fragment is shared verbatim by the row-fetch
//! query and the count query, so the two can never disagree.
//!
//! Pagination bounds are the one documented exception to parameter binding:
//! after they are validated non-negative they are formatted directly into
//! the query text as decimal literals.

use vstd::prelude::*;
use vstd::string::StringExecFns;

verus! {

/// A repository column a filter may constrain.
#[derive(Debug, Clone, Copy)]
pub enum FilterCol {
    DocumentId,
    SectionId,
    SubsectionId,
}

/// One filter condition: `col = value`, with the value always bound as a
/// query parameter, never spliced into the text.
#[derive(Debug, Clone, Copy)]
pub struct Cond {
    pub col: FilterCol,
    pub value: i64,
}

/// The `WHERE` fragment one condition contributes.
pub open spec fn cond_frag(c: Cond) -> Seq<char> {
    match c.col {
        FilterCol::DocumentId => " AND document_id = ?"@,
        FilterCol::SectionId => " AND section_id = ?"@,
        FilterCol::SubsectionId => " AND subsection_id = ?"@,
    }
}

/// The `WHERE` fragment a condition list contributes: the conjunction of
/// its conditions, in order.
pub open spec fn conds_sql(cs: Seq<Cond>) -> Seq<char>
    decreases cs.len(),
{
    if cs.len() == 0 {
        Seq::empty()
    } else {
        conds_sql(cs.drop_last()) + cond_frag(cs.last())
    }
}

/// The bound values of a condition list, in placeholder order.
pub open spec fn cond_vals(cs: Seq<Cond>) -> Seq<i64> {
    cs.map_values(|c: Cond| c.value)
}

/// The count query over the repository table for a condition list.
pub open spec fn count_sql_spec(cs: Seq<Cond>) -> Seq<char> {
    "SELECT COUNT(*) FROM repos WHERE 1=1"@ + conds_sql(cs)
}

/// The fixed listing order: `sort_order` ascending, then `display_name`.
pub open spec fn order_frag() -> Seq<char> {
    " ORDER BY sort_order, display_name"@
}

/// The decimal digit characters.
pub open spec fn dec_digit(d: int) -> char {
    if d == 0 {
        '0'
    } else if d == 1 {
        '1'
    } else if d == 2 {
        '2'
    } else if d == 3 {
        '3'
    } else if d == 4 {
        '4'
    } else if d == 5 {
        '5'
    } else if d == 6 {
        '6'
    } else if d == 7 {
        '7'
    } else if d == 8 {
        '8'
    } else {
        '9'
    }
}

/// The decimal rendering of a non-negative integer, most significant digit
/// first, with no leading zeros.
pub open spec fn dec_chars(n: int) -> Seq<char>
    decreases n,
{
    if n < 10 {
        seq![dec_digit(n)]
    } else {
        dec_chars(n / 10) + seq![dec_digit(n % 10)]
    }
}

/// The pagination tail of the row-fetch query.  A limit without an offset
/// and an offset without a limit are both legal; an offset alone rides on
/// the store's "no limit" marker `-1`, since the store's grammar does not
/// accept `OFFSET` on its own.
pub open spec fn page_frag(limit: Option<i64>, offset: Option<i64>) -> Seq<char> {
    match (limit, offset) {
        (Some(l), Some(o)) => " LIMIT "@ + dec_chars(l as int) + " OFFSET "@ + dec_chars(o as int),
        (Some(l), None) => " LIMIT "@ + dec_chars(l as int),
        (None, Some(o)) => " LIMIT -1 OFFSET "@ + dec_chars(o as int),
        (None, None) => Seq::empty(),
    }
}

/// The row-fetch query for a condition list and pagination bounds: it
/// shares the count query's predicate fragment verbatim.
pub open spec fn list_sql_spec(cs: Seq<Cond>, limit: Option<i64>, offset: Option<i64>) -> Seq<
    char,
> {
    "SELECT id FROM repos WHERE 1=1"@ + conds_sql(cs) + order_frag() + page_frag(limit, offset)
}

/// The conditions a listing filter contributes: document first, then
/// section, each only when supplied.
pub open spec fn filter_conds(document_id: Option<i64>, section_id: Option<i64>) -> Seq<Cond> {
    let base = Seq::<Cond>::empty();
    let with_doc = if document_id is Some {
        base.push(Cond { col: FilterCol::DocumentId, value: document_id->0 })
    } else {
        base
    };
    if section_id is Some {
        with_doc.push(Cond { col: FilterCol::SectionId, value: section_id->0 })
    } else {
        with_doc
    }
}

impl Cond {
    /// The text fragment this condition contributes to a `WHERE` clause.
    pub fn frag_str(&self) -> (r: &'static str)
        ensures
            r@ == cond_frag(*self),
    {
        match self.col {
            FilterCol::DocumentId => " AND document_id = ?",
            FilterCol::SectionId => " AND section_id = ?",
            FilterCol::SubsectionId => " AND subsection_id = ?",
        }
    }
}

/// Translates a listing filter's taxonomy fields into conditions.
pub fn build_conds(document_id: Option<i64>, section_id: Option<i64>) -> (r: Vec<Cond>)
    ensures
        r@ == filter_conds(document_id, section_id),
{
    let mut out: Vec<Cond> = Vec::new();
    if let Some(d) = document_id {
        out.push(Cond { col: FilterCol::DocumentId, value: d });
    }
    if let Some(s) = section_id {
        out.push(Cond { col: FilterCol::SectionId, value: s });
    }
    proof {
        assert(out@ =~= filter_conds(document_id, section_id));
    }
    out
}

/// The bound values of a condition list, in placeholder order.
pub fn build_params(conds: &Vec<Cond>) -> (r: Vec<i64>)
    ensures
        r@ == cond_vals(conds@),
{
    let mut out: Vec<i64> = Vec::new();
    let mut i: usize = 0;
    while i < conds.len()
        invariant
            i <= conds.len(),
            out@ == cond_vals(conds@.take(i as int)),
        decreases conds.len() - i,
    {
        out.push(conds[i].value);
        proof {
            assert(cond_vals(conds@.take(i + 1)) =~= cond_vals(conds@.take(i as int)).push(
                conds@[i as int].value,
            ));
        }
        i = i + 1;
    }
    proof {
        assert(conds@.take(conds@.len() as int) =~= conds@);
    }
    out
}

/// Renders a condition list into its shared `WHERE` fragment.
pub fn render_conds(conds: &Vec<Cond>) -> (r: String)
    ensures
        r@ == conds_sql(conds@),
{
    let mut s = String::new();
    let mut i: usize = 0;
    while i < conds.len()
        invariant
            i <= conds.len(),
            s@ == conds_sql(conds@.take(i as int)),
        decreases conds.len() - i,
    {
        s.append(conds[i].frag_str());
        proof {
            assert(conds@.take(i + 1).drop_last() =~= conds@.take(i as int));
            assert(conds@.take(i + 1).last() == conds@[i as int]);
        }
        i = i + 1;
    }
    proof {
        assert(conds@.take(conds@.len() as int) =~= conds@);
    }
    s
}

/// One decimal digit as text.
fn digit_str(d: u64) -> (r: &'static str)
    requires
        d < 10,
    ensures
        r@ == seq![dec_digit(d as int)],
{
    proof {
        reveal_strlit("0");
        reveal_strlit("1");
        reveal_strlit("2");
        reveal_strlit("3");
        reveal_strlit("4");
        reveal_strlit("5");
        reveal_strlit("6");
        reveal_strlit("7");
        reveal_strlit("8");
        reveal_strlit("9");
    }
    let r: &'static str = if d == 0 {
        "0"
    } else if d == 1 {
        "1"
    } else if d == 2 {
        "2"
    } else if d == 3 {
        "3"
    } else if d == 4 {
        "4"
    } else if d == 5 {
        "5"
    } else if d == 6 {
        "6"
    } else if d == 7 {
        "7"
    } else if d == 8 {
        "8"
    } else {
        "9"
    };
    proof {
        assert(r@ =~= seq![dec_digit(d as int)]);
    }
    r
}

/// Formats a non-negative integer as decimal text, exactly as `dec_chars`
/// describes it.
pub fn decimal_string(n: u64) -> (r: String)
    ensures
        r@ == dec_chars(n as int),
    decreases n,
{
    if n < 10 {
        String::from_str(digit_str(n))
    } else {
        proof {
            assert(n / 10 < n && n / 10 >= 1 && n % 10 < 10) by (nonlinear_arith)
                requires
                    n >= 10,
            ;
        }
        let mut s = decimal_string(n / 10);
        s.append(digit_str(n % 10));
        s
    }
}

/// Builds the count query for a condition list.
pub fn build_count_sql(conds: &Vec<Cond>) -> (r: String)
    ensures
        r@ == count_sql_spec(conds@),
{
    let mut s = String::from_str("SELECT COUNT(*) FROM repos WHERE 1=1");
    let frag = render_conds(conds);
    s.append(frag.as_str());
    s
}

/// Builds the row-fetch query for a condition list and validated
/// pagination bounds.
pub fn build_list_sql(conds: &Vec<Cond>, limit: Option<i64>, offset: Option<i64>) -> (r: String)
    requires
        limit is Some ==> limit->0 >= 0,
        offset is Some ==> offset->0 >= 0,
    ensures
        r@ == list_sql_spec(conds@, limit, offset),
{
    let mut s = String::from_str("SELECT id FROM repos WHERE 1=1");
    let frag = render_conds(conds);
    s.append(frag.as_str());
    s.append(" ORDER BY sort_order, display_name");
    match (limit, offset) {
        (Some(l), Some(o)) => {
            s.append(" LIMIT ");
            let ls = decimal_string(l as u64);
            s.append(ls.as_str());
            s.append(" OFFSET ");
            let os = decimal_string(o as u64);
            s.append(os.as_str());
        },
        (Some(l), None) => {
            s.append(" LIMIT ");
            let ls = decimal_string(l as u64);
            s.append(ls.as_str());
        },
        (None, Some(o)) => {
            s.append(" LIMIT -1 OFFSET ");
            let os = decimal_string(o as u64);
            s.append(os.as_str());
        },
        (None, None) => {},
    }
    proof {
        assert(s@ =~= list_sql_spec(conds@, limit, offset));
    }
    s
}

} // verus!
