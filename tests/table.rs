use bops_rank::item::{Item, Mode};
use bops_rank::table::{row_of, table_columns, table_rows, title, TableRow};

fn rated(id: &str, wins: u64, losses: u64, score: i64) -> Item {
    let mut i = Item::new(id.to_string(), format!("Name {}", id), None);
    i.wins = wins;
    i.losses = losses;
    i.score = score;
    i
}

fn cells(row: &TableRow) -> Vec<&str> {
    row.cells.iter().map(|c| c.as_str()).collect()
}

#[test]
fn title_names_the_mode() {
    assert_eq!(title(Mode::Match), "Random Matches");
    assert_eq!(title(Mode::Round), "Random Rounds");
}

#[test]
fn row_shows_name_record_and_score() {
    let row = row_of(7, &rated("x", 12, 3, 1537));
    assert_eq!(row.position, 7);
    assert_eq!(cells(&row), vec!["Name x", "12-3", "1537"]);
}

#[test]
fn row_shows_negative_and_zero_values() {
    let row = row_of(1, &rated("y", 0, 0, -20));
    assert_eq!(cells(&row), vec!["Name y", "0-0", "-20"]);
    let big = row_of(2, &rated("z", u64::MAX, 10, i64::MIN));
    assert_eq!(cells(&big), vec!["Name z", "18446744073709551615-10", "-9223372036854775808"]);
}

#[test]
fn rows_are_numbered_from_one() {
    let items = vec![rated("a", 1, 0, 1510), rated("b", 0, 1, 1490), rated("c", 2, 2, 1500)];
    let rows = table_rows(&items);
    let positions: Vec<u64> = rows.iter().map(|r| r.position).collect();
    assert_eq!(positions, vec![1, 2, 3]);
    assert_eq!(cells(&rows[1]), vec!["Name b", "0-1", "1490"]);
    assert!(table_rows(&Vec::new()).is_empty());
}

#[test]
fn columns_alternate_rows() {
    let items: Vec<Item> = ["a", "b", "c", "d", "e"].iter().map(|id| rated(id, 0, 0, 1500)).collect();
    let (left, right) = table_columns(&items);
    let l: Vec<u64> = left.iter().map(|r| r.position).collect();
    let r: Vec<u64> = right.iter().map(|r| r.position).collect();
    assert_eq!(l, vec![1, 3, 5]);
    assert_eq!(r, vec![2, 4]);
    assert_eq!(left[1].cells[0], "Name c");
    assert_eq!(right[1].cells[0], "Name d");
}
