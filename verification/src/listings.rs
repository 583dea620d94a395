//! The tables that the listing commands reply with.
use vstd::prelude::*;
use crate::decimal::{
    decimal, signed_decimal, i64_to_decimal, u64_to_decimal, is_decimal_of, is_signed_decimal_of,
    law_decimal_text, law_signed_decimal,
};
use crate::model::{BannedTagRow, BannedUserRow, ExemptedUserRow};
use crate::time::{rfc3339_text, shown_timestamp, timestamp_text};
use crate::table::{
    TableLine, valid_row_spec, valid_row_spec_from, column_count, column_count_from, table_lines,
    table_format, row_cells, table_text,
};

verus! {

/// Row specification of the tag-ban table: three columns.
pub open spec fn banned_tags_format() -> Seq<char> {
    "{:>} {:<} {:<}"@
}

/// Row specification of the user-ban table (the same three columns).
pub open spec fn banned_users_format() -> Seq<char> {
    "{:>} {:<} {:<}"@
}

/// Row specification of the exemption table.
pub open spec fn exempted_users_format() -> Seq<char> {
    "{:>} {<:}"@
}

/// The cells of one tag ban: its id, the banned guild (empty when none) and the tag
/// (empty when none).
pub open spec fn banned_tag_cells(r: BannedTagRow) -> Seq<Seq<char>> {
    seq![
        signed_decimal(r.rowid as int),
        match r.server_id {
            Some(g) => decimal(g as nat),
            None => Seq::<char>::empty(),
        },
        match r.tag {
            Some(t) => t@,
            None => Seq::<char>::empty(),
        },
    ]
}

/// The lines of the tag-ban table: a title, an opening fence, the column names, one row
/// per ban in the given order, and a closing fence.
pub open spec fn banned_tags_lines(rows: Seq<BannedTagRow>) -> Seq<TableLine> {
    seq![
        TableLine::Heading("Tag bans"@),
        TableLine::Heading("```"@),
        TableLine::Cells(seq!["ID"@, "ServerID"@, "Tag"@]),
    ] + rows.map_values(|r: BannedTagRow| TableLine::Cells(banned_tag_cells(r)))
        + seq![TableLine::Heading("```"@)]
}

/// The cells of one exemption: the user id and the time.
pub open spec fn exempted_user_cells(r: ExemptedUserRow) -> Seq<Seq<char>> {
    seq![decimal(r.user_id as nat), rfc3339_text(shown_timestamp(r.timestamp))]
}

/// The lines of the exemption table.
pub open spec fn exempted_users_lines(rows: Seq<ExemptedUserRow>) -> Seq<TableLine> {
    seq![
        TableLine::Heading("```"@),
        TableLine::Heading("Exempted Users:"@),
        TableLine::Cells(seq!["User ID"@, "Time (UTC)"@]),
    ] + rows.map_values(|r: ExemptedUserRow| TableLine::Cells(exempted_user_cells(r)))
        + seq![TableLine::Heading("```"@)]
}

/// The cells of one user ban: its id and the user id.
pub open spec fn banned_user_cells(r: BannedUserRow) -> Seq<Seq<char>> {
    seq![signed_decimal(r.rowid as int), decimal(r.user_id as nat)]
}

/// The lines of the user-ban table.
pub open spec fn banned_users_lines(rows: Seq<BannedUserRow>) -> Seq<TableLine> {
    seq![
        TableLine::Heading("User bans"@),
        TableLine::Heading("```"@),
        TableLine::Cells(seq!["ID"@, "UserID"@]),
    ] + rows.map_values(|r: BannedUserRow| TableLine::Cells(banned_user_cells(r)))
        + seq![TableLine::Heading("```"@)]
}

/// A table being laid out. Only `new_table` makes one and only `table_add_heading` and
/// `table_add_row` change one, so its line end is always a newline and each of its cells
/// is as wide as its text.
struct TextTable {
    table: tabular::Table,
}

/// A row of cells for a `TextTable`, made only by `new_row` and `row_with_cell`, so each
/// cell is as wide as its text.
struct TextRow {
    row: tabular::Row,
}

/// `tabular::Table::new`: a table with the given row specification and no lines.
/// `Table::new` panics on a specification it cannot parse, which `requires` leaves out.
#[verifier::external_body]
fn new_table(spec: &str) -> (t: TextTable)
    requires
        valid_row_spec(spec@),
    ensures
        table_format(t.table) == spec@,
        table_lines(t.table) == Seq::<TableLine>::empty(),
{
    TextTable { table: tabular::Table::new(spec) }
}

/// `tabular::Table::add_heading`: appends a heading line.
#[verifier::external_body]
fn table_add_heading(t: &mut TextTable, heading: &str)
    ensures
        table_format(final(t).table) == table_format(old(t).table),
        table_lines(final(t).table) == table_lines(old(t).table).push(TableLine::Heading(heading@)),
{
    t.table.add_heading(heading);
}

/// `tabular::Table::add_row`: appends a row of cells. It panics when the row's length
/// differs from the number of columns, which `requires` leaves out.
#[verifier::external_body]
fn table_add_row(t: &mut TextTable, row: TextRow)
    requires
        row_cells(row.row).len() == column_count(table_format(old(t).table)),
    ensures
        table_format(final(t).table) == table_format(old(t).table),
        table_lines(final(t).table) == table_lines(old(t).table).push(TableLine::Cells(row_cells(row.row))),
{
    t.table.add_row(row.row);
}

/// `tabular::Row::new`: a row without cells.
#[verifier::external_body]
fn new_row() -> (r: TextRow)
    ensures
        row_cells(r.row) == Seq::<Seq<char>>::empty(),
{
    TextRow { row: tabular::Row::new() }
}

/// `tabular::Row::with_cell`, given text: the row with one more cell holding that text.
#[verifier::external_body]
fn row_with_cell(r: TextRow, cell: &str) -> (r2: TextRow)
    ensures
        row_cells(r2.row) == row_cells(r.row).push(cell@),
{
    TextRow { row: r.row.with_cell(cell) }
}

/// `Display` of `tabular::Table` (through `to_string`): the laid-out text of the table.
#[verifier::external_body]
fn table_to_string(t: &TextTable) -> (s: String)
    ensures
        s@ == table_text(table_format(t.table), table_lines(t.table)),
{
    t.table.to_string()
}


/// The three-column row specification is accepted and has three columns.
pub proof fn lemma_three_column_format()
    ensures
        valid_row_spec("{:>} {:<} {:<}"@),
        column_count("{:>} {:<} {:<}"@) == 3,
{
    reveal_strlit("{:>} {:<} {:<}");
    reveal_with_fuel(valid_row_spec_from, 8);
    reveal_with_fuel(column_count_from, 8);
}

/// Appends one row per tag ban to a three-column table, in order.
#[verifier::loop_isolation(false)]
fn add_banned_tag_rows(t: &mut TextTable, rows: &Vec<BannedTagRow>)
    requires
        column_count(table_format(old(t).table)) == 3,
    ensures
        table_format(final(t).table) == table_format(old(t).table),
        table_lines(final(t).table) == table_lines(old(t).table) + rows@.map_values(|r: BannedTagRow| TableLine::Cells(banned_tag_cells(r))),
{
    let ghost start = table_lines(t.table);
    let ghost f = |r: BannedTagRow| TableLine::Cells(banned_tag_cells(r));
    assert(table_lines(t.table) =~~= start + rows@.take(0).map_values(f));
    let mut i: usize = 0;
    while i < rows.len()
        invariant
            i <= rows@.len(),
            table_format(t.table) == table_format(old(t).table),
            table_lines(t.table) == start + rows@.take(i as int).map_values(f),
        decreases rows@.len() - i,
    {
        let r = &rows[i];
        let id = i64_to_decimal(r.rowid);
        let server = match r.server_id {
            Some(g) => u64_to_decimal(g),
            None => String::new(),
        };
        let tag = match &r.tag {
            Some(text) => text.clone(),
            None => String::new(),
        };
        let row = row_with_cell(
            row_with_cell(row_with_cell(new_row(), id.as_str()), server.as_str()),
            tag.as_str(),
        );
        assert(row_cells(row.row) =~~= banned_tag_cells(rows@[i as int]));
        table_add_row(t, row);
        assert(rows@.take(i + 1).map_values(f) =~~= rows@.take(i as int).map_values(f).push(f(rows@[i as int])));
        assert(table_lines(t.table) =~~= start + rows@.take(i + 1).map_values(f));
        i = i + 1;
    }
    assert(rows@.take(rows@.len() as int) =~= rows@);
}

/// Appends one row per exemption to a two-column table, in order.
#[verifier::loop_isolation(false)]
fn add_exempted_user_rows(t: &mut TextTable, rows: &Vec<ExemptedUserRow>)
    requires
        column_count(table_format(old(t).table)) == 2,
    ensures
        table_format(final(t).table) == table_format(old(t).table),
        table_lines(final(t).table) == table_lines(old(t).table) + rows@.map_values(|r: ExemptedUserRow| TableLine::Cells(exempted_user_cells(r))),
{
    let ghost start = table_lines(t.table);
    let ghost f = |r: ExemptedUserRow| TableLine::Cells(exempted_user_cells(r));
    assert(table_lines(t.table) =~~= start + rows@.take(0).map_values(f));
    let mut i: usize = 0;
    while i < rows.len()
        invariant
            i <= rows@.len(),
            table_format(t.table) == table_format(old(t).table),
            table_lines(t.table) == start + rows@.take(i as int).map_values(f),
        decreases rows@.len() - i,
    {
        let r = &rows[i];
        let id = u64_to_decimal(r.user_id);
        let time = timestamp_text(r.timestamp);
        let row = row_with_cell(row_with_cell(new_row(), id.as_str()), time.as_str());
        assert(row_cells(row.row) =~~= exempted_user_cells(rows@[i as int]));
        table_add_row(t, row);
        assert(rows@.take(i + 1).map_values(f) =~~= rows@.take(i as int).map_values(f).push(f(rows@[i as int])));
        assert(table_lines(t.table) =~~= start + rows@.take(i + 1).map_values(f));
        i = i + 1;
    }
    assert(rows@.take(rows@.len() as int) =~= rows@);
}

/// Appends one row per user ban to a two-column table, in order.
#[verifier::loop_isolation(false)]
fn add_banned_user_rows(t: &mut TextTable, rows: &Vec<BannedUserRow>)
    requires
        column_count(table_format(old(t).table)) == 2,
    ensures
        table_format(final(t).table) == table_format(old(t).table),
        table_lines(final(t).table) == table_lines(old(t).table) + rows@.map_values(|r: BannedUserRow| TableLine::Cells(banned_user_cells(r))),
{
    let ghost start = table_lines(t.table);
    let ghost f = |r: BannedUserRow| TableLine::Cells(banned_user_cells(r));
    assert(table_lines(t.table) =~~= start + rows@.take(0).map_values(f));
    let mut i: usize = 0;
    while i < rows.len()
        invariant
            i <= rows@.len(),
            table_format(t.table) == table_format(old(t).table),
            table_lines(t.table) == start + rows@.take(i as int).map_values(f),
        decreases rows@.len() - i,
    {
        let r = &rows[i];
        let id = i64_to_decimal(r.rowid);
        let user = u64_to_decimal(r.user_id);
        let row = row_with_cell(row_with_cell(new_row(), id.as_str()), user.as_str());
        assert(row_cells(row.row) =~~= banned_user_cells(rows@[i as int]));
        table_add_row(t, row);
        assert(rows@.take(i + 1).map_values(f) =~~= rows@.take(i as int).map_values(f).push(f(rows@[i as int])));
        assert(table_lines(t.table) =~~= start + rows@.take(i + 1).map_values(f));
        i = i + 1;
    }
    assert(rows@.take(rows@.len() as int) =~= rows@);
}

/// The tag-ban table, laid out by `tabular`.
pub fn banned_tags_table(rows: &Vec<BannedTagRow>) -> (s: String)
    ensures
        s@ == table_text(banned_tags_format(), banned_tags_lines(rows@)),
{
    proof {
        lemma_three_column_format();
    }
    let mut t = new_table("{:>} {:<} {:<}");
    table_add_heading(&mut t, "Tag bans");
    table_add_heading(&mut t, "```");
    let header = row_with_cell(row_with_cell(row_with_cell(new_row(), "ID"), "ServerID"), "Tag");
    assert(row_cells(header.row) =~~= seq!["ID"@, "ServerID"@, "Tag"@]);
    table_add_row(&mut t, header);
    add_banned_tag_rows(&mut t, rows);
    table_add_heading(&mut t, "```");
    assert(table_lines(t.table) =~~= banned_tags_lines(rows@));
    table_to_string(&t)
}

/// The exemption table. `Table::new` cannot parse its row specification (`{<:}` is no
/// column specifier), so the table is made only where `requires` holds, which it never does.
pub fn exempted_users_table(rows: &Vec<ExemptedUserRow>) -> (s: String)
    requires
        valid_row_spec(exempted_users_format()),
        column_count(exempted_users_format()) == 2,
    ensures
        s@ == table_text(exempted_users_format(), exempted_users_lines(rows@)),
{
    let mut t = new_table("{:>} {<:}");
    table_add_heading(&mut t, "```");
    table_add_heading(&mut t, "Exempted Users:");
    let header = row_with_cell(row_with_cell(new_row(), "User ID"), "Time (UTC)");
    assert(row_cells(header.row) =~~= seq!["User ID"@, "Time (UTC)"@]);
    table_add_row(&mut t, header);
    add_exempted_user_rows(&mut t, rows);
    table_add_heading(&mut t, "```");
    assert(table_lines(t.table) =~~= exempted_users_lines(rows@));
    table_to_string(&t)
}

/// The user-ban table. Its heading row has two cells while its row specification has
/// three columns, so `tabular` panics on it: the table is made only where `requires`
/// holds, which it never does.
pub fn banned_users_table(rows: &Vec<BannedUserRow>) -> (s: String)
    requires
        column_count(banned_users_format()) == 2,
    ensures
        s@ == table_text(banned_users_format(), banned_users_lines(rows@)),
{
    proof {
        lemma_three_column_format();
    }
    let mut t = new_table("{:>} {:<} {:<}");
    table_add_heading(&mut t, "User bans");
    table_add_heading(&mut t, "```");
    let header = row_with_cell(row_with_cell(new_row(), "ID"), "UserID");
    assert(row_cells(header.row) =~~= seq!["ID"@, "UserID"@]);
    table_add_row(&mut t, header);
    add_banned_user_rows(&mut t, rows);
    table_add_heading(&mut t, "```");
    assert(table_lines(t.table) =~~= banned_users_lines(rows@));
    table_to_string(&t)
}

/// The text a tag ban shows for its optional tag: the tag, or nothing.
pub open spec fn tag_shown(tag: Option<String>) -> Seq<char> {
    match tag {
        Some(t) => t@,
        None => Seq::<char>::empty(),
    }
}

/// A tag ban's row in the table has three cells: its id as `Display` writes it, the banned
/// guild's id (empty when there is none), and its tag (empty when there is none). The tag
/// cell does not depend on the guild, nor the guild cell on the tag.
pub proof fn law_banned_tag_cells(r: BannedTagRow)
    ensures
        banned_tag_cells(r).len() == 3,
        is_signed_decimal_of(banned_tag_cells(r)[0], r.rowid as int),
        r.server_id is None ==> banned_tag_cells(r)[1] == Seq::<char>::empty(),
        forall|g: u64| r.server_id == Some(g) ==> is_decimal_of(#[trigger] banned_tag_cells(r)[1], g as nat),
        banned_tag_cells(r)[2] == tag_shown(r.tag),
        forall|s: Option<u64>| #[trigger] banned_tag_cells(BannedTagRow { rowid: r.rowid, server_id: s, tag: r.tag })[2]
            == banned_tag_cells(r)[2],
{
    law_signed_decimal(r.rowid as int);
    match r.server_id {
        Some(g) => law_decimal_text(g as nat),
        None => {},
    }
}

/// The tag-ban table has a title, an opening fence and the column names, then one row per
/// ban in the given order, each showing that ban's cells, and a closing fence.
pub proof fn law_banned_tags_lines(rows: Seq<BannedTagRow>)
    ensures
        banned_tags_lines(rows).len() == rows.len() + 4,
        banned_tags_lines(rows)[0] == TableLine::Heading("Tag bans"@),
        banned_tags_lines(rows)[1] == TableLine::Heading("```"@),
        banned_tags_lines(rows)[2] == TableLine::Cells(seq!["ID"@, "ServerID"@, "Tag"@]),
        forall|i: int| 0 <= i < rows.len() ==> #[trigger] banned_tags_lines(rows)[i + 3]
            == TableLine::Cells(banned_tag_cells(rows[i])),
        banned_tags_lines(rows)[rows.len() + 3int] == TableLine::Heading("```"@),
{
}

/// A user ban's row has two cells: its id and the banned user's id, each as `Display`
/// writes it.
pub proof fn law_banned_user_cells(r: BannedUserRow)
    ensures
        banned_user_cells(r).len() == 2,
        is_signed_decimal_of(banned_user_cells(r)[0], r.rowid as int),
        is_decimal_of(banned_user_cells(r)[1], r.user_id as nat),
{
    law_signed_decimal(r.rowid as int);
    law_decimal_text(r.user_id as nat);
}

/// An exemption's row has two cells: the user's id as `Display` writes it, and the time of
/// the exemption in RFC 3339.
pub proof fn law_exempted_user_cells(r: ExemptedUserRow)
    ensures
        exempted_user_cells(r).len() == 2,
        is_decimal_of(exempted_user_cells(r)[0], r.user_id as nat),
        exempted_user_cells(r)[1] == rfc3339_text(shown_timestamp(r.timestamp)),
{
    law_decimal_text(r.user_id as nat);
}

} // verus!
