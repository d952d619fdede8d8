use crate::item::{Item, Mode};
use crate::text::{append, decimal, i64_text, signed_decimal, u64_text};
use vstd::prelude::*;

verus! {

/// One row of the side table: its position in the collection (from 1) and
/// its cells: name, record as `wins-losses`, and score.
#[derive(Debug, Clone, PartialEq, Eq)]
pub struct TableRow {
    pub position: u64,
    pub cells: Vec<String>,
}

/// The heading that names the mode.
pub open spec fn title_of(mode: Mode) -> Seq<char> {
    match mode {
        Mode::Match => "Random Matches"@,
        Mode::Round => "Random Rounds"@,
    }
}

pub fn title(mode: Mode) -> (r: String)
    ensures
        r@ == title_of(mode),
{
    match mode {
        Mode::Match => "Random Matches".to_owned(),
        Mode::Round => "Random Rounds".to_owned(),
    }
}

/// The row that an item has at `position`.
pub open spec fn row_matches(row: TableRow, position: int, item: Item) -> bool {
    &&& row.position == position
    &&& row.cells@.len() == 3
    &&& row.cells@[0]@ == item.name@
    &&& row.cells@[1]@ == decimal(item.wins as nat) + seq!['-'] + decimal(item.losses as nat)
    &&& row.cells@[2]@ == signed_decimal(item.score as int)
}

pub fn row_of(position: u64, item: &Item) -> (r: TableRow)
    ensures
        row_matches(r, position as int, *item),
{
    let mut record = u64_text(item.wins);
    append(&mut record, "-");
    let losses = u64_text(item.losses);
    append(&mut record, losses.as_str());
    proof {
        reveal_strlit("-");
        assert("-"@ =~= seq!['-']);
    }
    let mut cells: Vec<String> = Vec::new();
    cells.push(item.name.clone());
    cells.push(record);
    cells.push(i64_text(item.score));
    TableRow { position, cells }
}

/// The side table: one row per item, numbered from 1 in collection order.
pub fn table_rows(items: &Vec<Item>) -> (r: Vec<TableRow>)
    ensures
        r@.len() == items@.len(),
        forall|i: int| 0 <= i < items@.len() ==> row_matches(#[trigger] r@[i], i + 1, items@[i]),
{
    let mut rows: Vec<TableRow> = Vec::new();
    let mut i: usize = 0;
    while i < items.len()
        invariant
            i <= items.len(),
            rows@.len() == i,
            forall|j: int| 0 <= j < i ==> row_matches(#[trigger] rows@[j], j + 1, items@[j]),
        decreases items.len() - i,
    {
        let row = row_of((i + 1) as u64, &items[i]);
        rows.push(row);
        i = i + 1;
    }
    rows
}

/// The side table laid out in two columns on wide screens: rows at odd
/// positions (1, 3, ...) on the left, rows at even positions on the right.
pub fn table_columns(items: &Vec<Item>) -> (r: (Vec<TableRow>, Vec<TableRow>))
    ensures
        r.0@.len() == (items@.len() + 1) / 2,
        r.1@.len() == items@.len() / 2,
        forall|i: int|
            0 <= i < r.0@.len() ==> row_matches(#[trigger] r.0@[i], 2 * i + 1, items@[2 * i]),
        forall|i: int|
            0 <= i < r.1@.len() ==> row_matches(#[trigger] r.1@[i], 2 * i + 2, items@[2 * i + 1]),
{
    let mut left: Vec<TableRow> = Vec::new();
    let mut right: Vec<TableRow> = Vec::new();
    let mut i: usize = 0;
    while i < items.len()
        invariant
            i <= items.len(),
            left@.len() == (i + 1) / 2,
            right@.len() == i / 2,
            forall|j: int|
                0 <= j < left@.len() ==> row_matches(#[trigger] left@[j], 2 * j + 1, items@[2 * j]),
            forall|j: int|
                0 <= j < right@.len() ==> row_matches(
                    #[trigger] right@[j],
                    2 * j + 2,
                    items@[2 * j + 1],
                ),
        decreases items.len() - i,
    {
        let row = row_of((i + 1) as u64, &items[i]);
        if i % 2 == 0 {
            left.push(row);
        } else {
            right.push(row);
        }
        i = i + 1;
    }
    (left, right)
}

} // verus!
