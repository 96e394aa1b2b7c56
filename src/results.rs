//! What a backend page holds, turned into plain text: listed names, and the
//! rows of a query's result.
use vstd::prelude::*;

verus! {

/// The names that are present, in order; absent ones are skipped.
pub open spec fn present_names(names: Seq<Option<Seq<char>>>) -> Seq<Seq<char>>
    decreases names.len(),
{
    if names.len() == 0 {
        Seq::empty()
    } else {
        let before = present_names(names.drop_last());
        match names.last() {
            Some(n) => before.push(n),
            None => before,
        }
    }
}

/// A cell's text; a cell without a value is the empty text.
pub open spec fn cell_text(cell: Option<Seq<char>>) -> Seq<char> {
    match cell {
        Some(t) => t,
        None => Seq::empty(),
    }
}

/// A row's cells as text, in column order, one for each cell.
pub open spec fn row_text(row: Seq<Option<Seq<char>>>) -> Seq<Seq<char>> {
    row.map_values(|c: Option<Seq<char>>| cell_text(c))
}

/// The rows of a page as text; a page without a result set has no rows.
pub open spec fn page_text(rows: Option<Seq<Seq<Option<Seq<char>>>>>) -> Seq<Seq<Seq<char>>> {
    match rows {
        Some(rs) => rs.map_values(|r: Seq<Option<Seq<char>>>| row_text(r)),
        None => Seq::empty(),
    }
}

/// The names of a listed page that are present, in order.
pub fn named_only(names: &Vec<Option<String>>) -> (r: Vec<String>)
    ensures
        r.deep_view() == present_names(names.deep_view()),
{
    let mut out: Vec<String> = Vec::new();
    let mut i: usize = 0;
    while i < names.len()
        invariant
            i <= names@.len(),
            out.deep_view() == present_names(names.deep_view().take(i as int)),
        decreases names@.len() - i,
    {
        let ghost before = out.deep_view();
        match &names[i] {
            Some(n) => {
                out.push(n.clone());
                assert(out.deep_view() =~= before.push(n@));
            },
            None => {},
        }
        assert(names.deep_view().take(i + 1).drop_last() =~= names.deep_view().take(i as int));
        i = i + 1;
    }
    assert(names.deep_view().take(names@.len() as int) =~= names.deep_view());
    out
}

/// A row's cells as text, an absent value as the empty text.
pub fn row_cells(cells: &Vec<Option<String>>) -> (r: Vec<String>)
    ensures
        r.deep_view() == row_text(cells.deep_view()),
{
    let mut out: Vec<String> = Vec::new();
    let mut i: usize = 0;
    while i < cells.len()
        invariant
            i <= cells@.len(),
            out.deep_view() == row_text(cells.deep_view().take(i as int)),
        decreases cells@.len() - i,
    {
        let ghost before = out.deep_view();
        let text = match &cells[i] {
            Some(t) => t.clone(),
            None => String::new(),
        };
        assert(text@ == cell_text(cells.deep_view()[i as int]));
        out.push(text);
        assert(out.deep_view() =~= before.push(text@));
        assert(out.deep_view() =~= row_text(cells.deep_view().take(i + 1)));
        i = i + 1;
    }
    assert(cells.deep_view().take(cells@.len() as int) =~= cells.deep_view());
    out
}

/// The rows of one result page as text; a page without a result set gives
/// no rows.
pub fn page_rows(rows: &Option<Vec<Vec<Option<String>>>>) -> (r: Vec<Vec<String>>)
    ensures
        r.deep_view() == page_text(rows.deep_view()),
{
    let mut out: Vec<Vec<String>> = Vec::new();
    match rows {
        None => {
            assert(out.deep_view() =~= page_text(rows.deep_view()));
        },
        Some(rs) => {
            let ghost all = rs.deep_view();
            let mut i: usize = 0;
            while i < rs.len()
                invariant
                    i <= rs@.len(),
                    all == rs.deep_view(),
                    out.deep_view() == all.take(i as int).map_values(
                        |r: Seq<Option<Seq<char>>>| row_text(r),
                    ),
                decreases rs@.len() - i,
            {
                let ghost before = out.deep_view();
                let row = row_cells(&rs[i]);
                assert(rs[i as int].deep_view() == all[i as int]);
                let ghost row_view = row.deep_view();
                out.push(row);
                assert(out.deep_view() =~= before.push(row_view));
                assert(out.deep_view() =~= all.take(i + 1).map_values(
                    |r: Seq<Option<Seq<char>>>| row_text(r),
                ));
                i = i + 1;
            }
            assert(all.take(rs@.len() as int) =~= all);
        },
    }
    out
}

} // verus!
