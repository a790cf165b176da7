//! The presenter: the records as rows of text, and the rows as an aligned
//! table.

use vstd::prelude::*;
use vstd::string::*;
use crate::record::{text_of, Command, CommandView};
use crate::store::Store;

verus! {

/// What stands in the description column of a record without description.
pub open spec fn placeholder() -> Seq<char> {
    "*No description*"@
}

/// The text shown for an optional description.
pub open spec fn description_text(desc: Option<Seq<char>>) -> Seq<char> {
    match desc {
        Some(text) => text,
        None => placeholder(),
    }
}

/// The column titles.
pub open spec fn header_row() -> Seq<Seq<char>> {
    seq!["name"@, "cmd"@, "desc"@]
}

/// The three cells of a record.
pub open spec fn row_of(record: CommandView) -> Seq<Seq<char>> {
    seq![record.name, record.cmd, description_text(record.desc)]
}

/// The rows of the table: the titles, then one row for each record in stored
/// order.
pub open spec fn table_rows(records: Seq<CommandView>) -> Seq<Seq<Seq<char>>> {
    Seq::new(
        records.len() + 1,
        |i: int|
            if i == 0 {
                header_row()
            } else {
                row_of(records[i - 1])
            },
    )
}

/// The text of a table drawn from rows of cells: a frame around the rows,
/// a double rule under the first row, columns set apart by their padding.
pub uninterp spec fn table_text(rows: Seq<Seq<Seq<char>>>) -> Seq<char>;

/// The placeholder is not an empty cell.
pub proof fn placeholder_is_visible()
    ensures
        placeholder().len() == 16,
        placeholder()[0] == '*',
{
    reveal_strlit("*No description*");
}

/// A record without description shows the placeholder in the third column
/// of its row; one with a description shows the description.
pub proof fn description_column(records: Seq<CommandView>, i: int)
    requires
        0 <= i < records.len(),
    ensures
        table_rows(records).len() == records.len() + 1,
        table_rows(records)[i + 1].len() == 3,
        table_rows(records)[i + 1][0] == records[i].name,
        table_rows(records)[i + 1][1] == records[i].cmd,
        records[i].desc is None ==> table_rows(records)[i + 1][2] == placeholder(),
        records[i].desc is Some ==> table_rows(records)[i + 1][2] == records[i].desc.unwrap(),
        placeholder().len() > 0,
{
    placeholder_is_visible();
}

/// The text for an optional description: the description itself, or the
/// placeholder where there is none.
pub fn display_option(o: &Option<String>) -> (text: String)
    ensures
        text@ == description_text(text_of(*o)),
{
    match o {
        Some(s) => s.clone(),
        None => String::from_str("*No description*"),
    }
}

/// The column titles as cells.
pub fn header() -> (cells: Vec<String>)
    ensures
        cells.deep_view() == header_row(),
{
    let cells = vec![String::from_str("name"), String::from_str("cmd"), String::from_str("desc")];
    assert(cells.deep_view() =~= header_row());
    cells
}

/// The cells of one record.
pub fn row(record: &Command) -> (cells: Vec<String>)
    ensures
        cells.deep_view() == row_of(record@),
{
    let cells = vec![record.name.clone(), record.cmd.clone(), display_option(&record.desc)];
    assert(cells.deep_view() =~= row_of(record@));
    cells
}

/// The rows of the table for a store.
pub fn rows(store: &Store) -> (out: Vec<Vec<String>>)
    ensures
        out.deep_view() == table_rows(store@),
{
    let mut out: Vec<Vec<String>> = Vec::new();
    out.push(header());
    let mut i: usize = 0;
    while i < store.commands.len()
        invariant
            i <= store.commands@.len(),
            out@.len() == i + 1,
            forall|k: int| 0 <= k <= i ==> (#[trigger] out@[k]).deep_view() == table_rows(store@)[k],
        decreases store.commands@.len() - i,
    {
        out.push(row(&store.commands[i]));
        i += 1;
    }
    assert(out.deep_view() =~= table_rows(store@));
    out
}

/// Calls `tabled`: `Builder::from` on the rows, `build`, `Table::with` for
/// the style and `to_string`. The style is `Style::modern()` without its
/// inner lines, with the modern horizontal line drawn in `'\u{2550}'` under
/// the first row. The contract gives the text the name `table_text` of the
/// cells and claims no more: the same cells always draw the same table. It
/// is asked only for what the presenter hands it, a first row and three
/// cells in every row.
#[verifier::external_body]
fn draw(rows: Vec<Vec<String>>) -> (text: String)
    requires
        rows@.len() > 0,
        forall|i: int| 0 <= i < rows@.len() ==> (#[trigger] rows@[i])@.len() == 3,
    ensures
        text@ == table_text(rows.deep_view()),
{
    let rule = tabled::settings::style::HorizontalLine::inherit(tabled::settings::Style::modern())
        .horizontal('\u{2550}');
    let style = tabled::settings::Style::modern()
        .horizontals([(1, rule)])
        .remove_horizontal()
        .remove_vertical();
    let mut table = tabled::builder::Builder::from(rows).build();
    table.with(style);
    table.to_string()
}

/// The table of a store as text.
pub fn render(store: &Store) -> (text: String)
    ensures
        text@ == table_text(table_rows(store@)),
{
    let cells = rows(store);
    proof {
        let shape = table_rows(store@);
        assert(cells.deep_view().len() == cells@.len());
        assert(shape.len() == store@.len() + 1);
        assert forall|i: int| 0 <= i < cells@.len() implies (#[trigger] cells@[i])@.len() == 3 by {
            assert(cells.deep_view()[i] == cells@[i].deep_view());
            assert(shape[i].len() == 3);
            assert(cells@[i].deep_view().len() == cells@[i]@.len());
        }
    }
    draw(cells)
}

} // verus!
