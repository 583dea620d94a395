//! Plain-text tables, laid out by the `tabular` crate.
use vstd::prelude::*;

verus! {

#[verifier::external_type_specification]
#[verifier::external_body]
pub struct ExTable(tabular::Table);

#[verifier::external_type_specification]
#[verifier::external_body]
pub struct ExRow(tabular::Row);

/// One line of a table: a heading printed as it is, or a row of cells.
#[verifier::ext_equal]
pub enum TableLine {
    Heading(Seq<char>),
    Cells(Seq<Seq<char>>),
}

/// Whether the row specification from position `i` on is made only of literal text,
/// `{{`, `}}` and the column specifiers `{:<}`, `{:^}`, `{:>}`.
pub open spec fn valid_row_spec_from(s: Seq<char>, i: int) -> bool
    decreases s.len() - i,
{
    if i < 0 || i >= s.len() {
        true
    } else if s[i] == '{' {
        if i + 1 < s.len() && s[i + 1] == '{' {
            valid_row_spec_from(s, i + 2)
        } else {
            &&& i + 3 < s.len()
            &&& s[i + 1] == ':'
            &&& (s[i + 2] == '<' || s[i + 2] == '>' || s[i + 2] == '^')
            &&& s[i + 3] == '}'
            &&& valid_row_spec_from(s, i + 4)
        }
    } else if s[i] == '}' {
        i + 1 < s.len() && s[i + 1] == '}' && valid_row_spec_from(s, i + 2)
    } else {
        valid_row_spec_from(s, i + 1)
    }
}

/// Whether `Table::new` accepts the row specification (it panics on any other).
pub open spec fn valid_row_spec(s: Seq<char>) -> bool {
    valid_row_spec_from(s, 0)
}

/// The number of column specifiers in a valid row specification from position `i` on.
pub open spec fn column_count_from(s: Seq<char>, i: int) -> nat
    decreases s.len() - i,
{
    if i < 0 || i >= s.len() {
        0
    } else if s[i] == '{' {
        if i + 1 < s.len() && s[i + 1] == '{' {
            column_count_from(s, i + 2)
        } else {
            if i + 4 <= s.len() { 1 + column_count_from(s, i + 4) } else { 1 }
        }
    } else if s[i] == '}' {
        if i + 2 <= s.len() { column_count_from(s, i + 2) } else { 0 }
    } else {
        column_count_from(s, i + 1)
    }
}

/// The number of columns of a table made with a valid row specification.
pub open spec fn column_count(s: Seq<char>) -> nat {
    column_count_from(s, 0)
}

/// The lines added to a table so far, in order.
pub uninterp spec fn table_lines(t: tabular::Table) -> Seq<TableLine>;

/// The row specification a table was made with.
pub uninterp spec fn table_format(t: tabular::Table) -> Seq<char>;

/// The cells of a row, in order, as text.
pub uninterp spec fn row_cells(r: tabular::Row) -> Seq<Seq<char>>;

/// The text that `tabular` prints for a table made with row specification `format` and
/// the default line end (a newline), holding `lines` whose cells are as wide as their
/// text: every line ends with a newline, headings stand as they are, and each cell is
/// padded to the width of its column.
pub uninterp spec fn table_text(format: Seq<char>, lines: Seq<TableLine>) -> Seq<char>;

} // verus!
