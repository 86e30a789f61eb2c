use fastsheet::cell::{normalize_cell, NormalizedValue, SheetCell};
use fastsheet::text::is_whitespace_char;

fn text(s: &str) -> SheetCell {
    SheetCell::Text(s.to_string())
}

fn kept(s: &str) -> NormalizedValue {
    NormalizedValue::Text(s.to_string())
}

/// The cell that holds a normalized value again.
fn as_cell(value: &NormalizedValue) -> SheetCell {
    match value {
        NormalizedValue::Null => SheetCell::Empty,
        NormalizedValue::Number(bits) => SheetCell::Number(*bits),
        NormalizedValue::Integer(i) => SheetCell::Integer(*i),
        NormalizedValue::Boolean(b) => SheetCell::Boolean(*b),
        NormalizedValue::Text(s) => SheetCell::Text(s.clone()),
    }
}

#[test]
fn empty_cell_is_null() {
    assert_eq!(normalize_cell(&SheetCell::Empty), NormalizedValue::Null);
}

#[test]
fn error_marker_is_null() {
    assert_eq!(normalize_cell(&SheetCell::ErrorValue), NormalizedValue::Null);
}

#[test]
fn number_is_carried_through() {
    let cell = SheetCell::Number(1.5f64.to_bits());
    assert_eq!(normalize_cell(&cell), NormalizedValue::Number(0x3FF8_0000_0000_0000));
    match normalize_cell(&cell) {
        NormalizedValue::Number(bits) => assert_eq!(f64::from_bits(bits), 1.5),
        other => panic!("not a number: {:?}", other),
    }
}

#[test]
fn number_is_not_rounded() {
    for x in [0.1f64, -0.0, 1e308, 5e-324, f64::INFINITY, f64::NAN, 0.30000000000000004] {
        let bits = x.to_bits();
        assert_eq!(normalize_cell(&SheetCell::Number(bits)), NormalizedValue::Number(bits));
    }
}

#[test]
fn integer_stays_an_integer() {
    for i in [0i64, 1, -1, 42, i64::MAX, i64::MIN, 4_294_967_296] {
        assert_eq!(normalize_cell(&SheetCell::Integer(i)), NormalizedValue::Integer(i));
    }
    assert_ne!(
        normalize_cell(&SheetCell::Integer(3)),
        NormalizedValue::Number(3.0f64.to_bits())
    );
}

#[test]
fn boolean_is_carried_through() {
    assert_eq!(normalize_cell(&SheetCell::Boolean(true)), NormalizedValue::Boolean(true));
    assert_eq!(normalize_cell(&SheetCell::Boolean(false)), NormalizedValue::Boolean(false));
}

#[test]
fn text_is_trimmed() {
    assert_eq!(normalize_cell(&text(" foo ")), kept("foo"));
    assert_eq!(normalize_cell(&text("  Hello  ")), kept("Hello"));
    assert_eq!(normalize_cell(&text("\tleft")), kept("left"));
    assert_eq!(normalize_cell(&text("right\r\n")), kept("right"));
}

#[test]
fn whitespace_only_text_is_null() {
    assert_eq!(normalize_cell(&text("  ")), NormalizedValue::Null);
    assert_eq!(normalize_cell(&text(" ")), NormalizedValue::Null);
    assert_eq!(normalize_cell(&text("\n\n\n")), NormalizedValue::Null);
    assert_eq!(normalize_cell(&text("\u{A0}\u{3000}\u{2003}")), NormalizedValue::Null);
}

#[test]
fn tab_space_newline_is_null() {
    let value = normalize_cell(&text("\t \n"));
    assert_eq!(value, NormalizedValue::Null);
    assert_ne!(value, kept(""));
}

#[test]
fn empty_text_is_null() {
    assert_eq!(normalize_cell(&text("")), NormalizedValue::Null);
}

#[test]
fn trimmed_text_is_unchanged() {
    assert_eq!(normalize_cell(&text("foo")), kept("foo"));
    assert_eq!(normalize_cell(&text("x")), kept("x"));
}

#[test]
fn inner_whitespace_is_kept() {
    assert_eq!(normalize_cell(&text("  a  b\tc  ")), kept("a  b\tc"));
}

#[test]
fn unicode_whitespace_is_trimmed() {
    assert_eq!(normalize_cell(&text("\u{A0}caf\u{E9}\u{2028}")), kept("caf\u{E9}"));
    assert_eq!(normalize_cell(&text("\u{3000}\u{8D8A}\u{85}")), kept("\u{8D8A}"));
}

#[test]
fn zero_width_space_is_no_whitespace() {
    assert_eq!(normalize_cell(&text("\u{200B}")), kept("\u{200B}"));
    assert_eq!(normalize_cell(&text(" \u{200B} ")), kept("\u{200B}"));
    assert_eq!(normalize_cell(&text("\u{180E}a")), kept("\u{180E}a"));
}

#[test]
fn normalizing_twice_changes_nothing() {
    let cells = [
        SheetCell::Empty,
        SheetCell::ErrorValue,
        SheetCell::Number(2.25f64.to_bits()),
        SheetCell::Integer(-7),
        SheetCell::Boolean(true),
        text(" foo "),
        text("foo"),
        text("   "),
        text(""),
        text("\ta b\n"),
    ];
    for cell in cells.iter() {
        let once = normalize_cell(cell);
        let twice = normalize_cell(&as_cell(&once));
        assert_eq!(twice, once);
    }
}

#[test]
fn normalized_text_is_never_blank() {
    for s in ["", " ", "a", " a", "a ", " a ", "\u{A0}", "\t \n", " \u{200B} "] {
        if let NormalizedValue::Text(t) = normalize_cell(&text(s)) {
            assert!(!t.is_empty());
            assert!(!is_whitespace_char(t.chars().next().unwrap()));
            assert!(!is_whitespace_char(t.chars().last().unwrap()));
        }
    }
}

#[test]
fn whitespace_is_the_unicode_property() {
    let mut count = 0;
    for code in 0..=0x10FFFFu32 {
        if let Some(c) = char::from_u32(code) {
            assert_eq!(is_whitespace_char(c), c.is_whitespace(), "U+{:04X}", code);
            if is_whitespace_char(c) {
                count += 1;
            }
        }
    }
    assert_eq!(count, 25);
}

#[test]
fn whitespace_samples() {
    for c in [' ', '\t', '\n', '\u{B}', '\u{C}', '\r', '\u{85}', '\u{A0}', '\u{1680}', '\u{2000}',
        '\u{200A}', '\u{2028}', '\u{2029}', '\u{202F}', '\u{205F}', '\u{3000}']
    {
        assert!(is_whitespace_char(c), "U+{:04X}", c as u32);
    }
    for c in ['a', '0', '_', '\u{0}', '\u{8}', '\u{E}', '\u{1F}', '\u{21}', '\u{180E}',
        '\u{200B}', '\u{200C}', '\u{2060}', '\u{FEFF}', '\u{8D8A}']
    {
        assert!(!is_whitespace_char(c), "U+{:04X}", c as u32);
    }
}

#[test]
fn trimming_goes_by_the_whitespace_property() {
    for code in 0..=0x10FFFFu32 {
        if let Some(c) = char::from_u32(code) {
            let padded = format!("{}a{}", c, c);
            let value = normalize_cell(&SheetCell::Text(padded.clone()));
            if is_whitespace_char(c) {
                assert_eq!(value, kept("a"), "U+{:04X}", code);
            } else {
                assert_eq!(value, NormalizedValue::Text(padded), "U+{:04X}", code);
            }
        }
    }
}
