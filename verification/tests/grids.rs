use fastsheet::cell::{NormalizedValue, SheetCell};
use fastsheet::grid::{normalize_row, normalize_rows};

fn text(s: &str) -> SheetCell {
    SheetCell::Text(s.to_string())
}

fn kept(s: &str) -> NormalizedValue {
    NormalizedValue::Text(s.to_string())
}

#[test]
fn ragged_rows_keep_their_lengths() {
    let rows = vec![
        vec![SheetCell::Integer(1), SheetCell::Integer(2), SheetCell::Integer(3)],
        vec![SheetCell::Empty, text(" x "), SheetCell::Boolean(false)],
        vec![SheetCell::ErrorValue, SheetCell::Integer(9)],
    ];
    let data = normalize_rows(3, 3, &rows);
    assert_eq!(data.rows.len(), 3);
    let lengths: Vec<usize> = data.rows.iter().map(|row| row.len()).collect();
    assert_eq!(lengths, vec![3, 3, 2]);
    assert_eq!(
        data.rows,
        vec![
            vec![
                NormalizedValue::Integer(1),
                NormalizedValue::Integer(2),
                NormalizedValue::Integer(3)
            ],
            vec![NormalizedValue::Null, kept("x"), NormalizedValue::Boolean(false)],
            vec![NormalizedValue::Null, NormalizedValue::Integer(9)],
        ]
    );
}

#[test]
fn declared_extent_is_kept() {
    let rows = vec![vec![SheetCell::Integer(1)], vec![]];
    let data = normalize_rows(5, 10, &rows);
    assert_eq!(data.width, 5);
    assert_eq!(data.height, 10);
    assert_eq!(data.rows.len(), 2);
    assert_eq!(data.rows[0], vec![NormalizedValue::Integer(1)]);
    assert!(data.rows[1].is_empty());
}

#[test]
fn declared_extent_is_kept_without_rows() {
    let data = normalize_rows(5, 10, &Vec::new());
    assert_eq!(data.width, 5);
    assert_eq!(data.height, 10);
    assert!(data.rows.is_empty());
}

#[test]
fn extent_may_be_smaller_than_the_rows() {
    let rows = vec![vec![SheetCell::Boolean(true); 4]; 3];
    let data = normalize_rows(0, 0, &rows);
    assert_eq!((data.width, data.height), (0, 0));
    assert_eq!(data.rows, vec![vec![NormalizedValue::Boolean(true); 4]; 3]);
}

#[test]
fn rows_and_cells_stay_in_order() {
    let rows: Vec<Vec<SheetCell>> = (0..4i64)
        .map(|r| (0..5i64).map(|c| SheetCell::Integer(10 * r + c)).collect())
        .collect();
    let data = normalize_rows(5, 4, &rows);
    for r in 0..4usize {
        for c in 0..5usize {
            assert_eq!(data.rows[r][c], NormalizedValue::Integer((10 * r + c) as i64));
        }
    }
}

#[test]
fn row_is_normalized_cell_by_cell() {
    let row = vec![
        SheetCell::Number(1.5f64.to_bits()),
        text("  Hello  "),
        SheetCell::Boolean(true),
        SheetCell::ErrorValue,
        text("   "),
        SheetCell::Empty,
    ];
    assert_eq!(
        normalize_row(&row),
        vec![
            NormalizedValue::Number(1.5f64.to_bits()),
            kept("Hello"),
            NormalizedValue::Boolean(true),
            NormalizedValue::Null,
            NormalizedValue::Null,
            NormalizedValue::Null,
        ]
    );
}

#[test]
fn empty_row_stays_empty() {
    assert!(normalize_row(&Vec::new()).is_empty());
}
