use hecto::document::Document;
use hecto::editor::{Position, Size};
use hecto::render::{plan_row, welcome_line};
use hecto::row::Row;

#[test]
fn render_clamps_out_of_range_window() {
    // A row of grapheme length 5 rendered with (start=3, end=10) yields the
    // last two graphemes, never an out-of-range failure.
    let row = Row::from_str("hello");
    assert_eq!(row.len(), 5);
    assert_eq!(row.render(3, 10), "lo");
}

#[test]
fn render_clamps_start_past_end() {
    let row = Row::from_str("hello");
    assert_eq!(row.render(7, 10), "");
    assert_eq!(row.render(4, 2), "");
    assert_eq!(row.render(0, 0), "");
}

#[test]
fn render_windows_by_grapheme() {
    let row = Row::from_str("hello");
    assert_eq!(row.render(0, 5), "hello");
    assert_eq!(row.render(1, 4), "ell");
}

#[test]
fn tab_renders_as_two_spaces() {
    let row = Row::from_str("a\tb\tc");
    assert_eq!(row.render(0, 5), "a  b  c");
    // The tab expansion applies inside any window.
    assert_eq!(row.render(1, 4), "  b  ");
}

#[test]
fn width_counts_graphemes_not_bytes() {
    // Three grapheme clusters written with five scalar values.
    let row = Row::from_str("a\u{310}e\u{301}o\u{308}\u{332}");
    assert_eq!(row.len(), 3);
    assert_eq!(row.render(1, 2), "e\u{301}");
    assert_eq!(row.render(0, 3), "a\u{310}e\u{301}o\u{308}\u{332}");
}

#[test]
fn open_splits_on_newlines() {
    let doc = Document::open(Some("alpha\n\nbeta\n"));
    assert_eq!(doc.len(), 3);
    assert!(!doc.is_empty());
    assert_eq!(doc.row(0).unwrap().render(0, 80), "alpha");
    assert_eq!(doc.row(1).unwrap().render(0, 80), "");
    assert_eq!(doc.row(2).unwrap().render(0, 80), "beta");
    assert!(doc.row(3).is_none());
}

#[test]
fn open_without_content_greets() {
    let doc = Document::open(None);
    assert_eq!(doc.len(), 1);
    assert_eq!(doc.row(0).unwrap().render(0, 80), "Hello, world!");
}

#[test]
fn default_document_is_empty() {
    let doc = Document::default();
    assert!(doc.is_empty());
    assert_eq!(doc.len(), 0);
    assert!(doc.row(0).is_none());
}

#[test]
fn welcome_line_is_centered_and_tilde_led() {
    let line = welcome_line(80);
    let message = "Hecto Editor -- version 0.1.0";
    let padding = (80 - message.len()) / 2;
    let mut expected = String::from("~");
    expected.push_str(&" ".repeat(padding - 1));
    expected.push_str(message);
    assert_eq!(line, expected);
}

#[test]
fn welcome_line_truncates_to_width() {
    let line = welcome_line(10);
    assert_eq!(line, "~Hecto Edi");
    assert_eq!(welcome_line(0), "");
    assert_eq!(welcome_line(1), "~");
}

#[test]
fn empty_document_draws_welcome_at_a_third() {
    // Height 24: row 8 carries the welcome banner, every other row a tilde.
    let doc = Document::default();
    let offset = Position { x: 0, y: 0 };
    let size = Size { width: 80, height: 24 };
    for r in 0..24u16 {
        let line = plan_row(&doc, &offset, &size, r);
        if r == 8 {
            assert_eq!(line, welcome_line(80));
            assert!(line.starts_with('~'));
            assert!(line.contains("Hecto Editor"));
        } else {
            assert_eq!(line, "~");
        }
    }
}

#[test]
fn non_empty_document_fills_tail_with_tildes() {
    let doc = Document::open(Some("only line"));
    let offset = Position { x: 0, y: 0 };
    let size = Size { width: 80, height: 24 };
    assert_eq!(plan_row(&doc, &offset, &size, 0), "only line");
    for r in 1..24u16 {
        assert_eq!(plan_row(&doc, &offset, &size, r), "~");
    }
}

#[test]
fn plan_row_windows_by_offset() {
    let doc = Document::open(Some("0123456789\nabcdefghij"));
    let offset = Position { x: 3, y: 1 };
    let size = Size { width: 4, height: 24 };
    assert_eq!(plan_row(&doc, &offset, &size, 0), "defg");
    assert_eq!(plan_row(&doc, &offset, &size, 1), "~");
}

#[test]
fn planned_rows_stay_within_the_grapheme_window() {
    let doc = Document::open(Some("a\tlong\tline with tabs\nshort"));
    let offset = Position { x: 0, y: 0 };
    let size = Size { width: 7, height: 4 };
    // The window holds 7 graphemes; the two tabs among them each render as
    // two spaces.
    assert_eq!(plan_row(&doc, &offset, &size, 0), "a  long  ");
    assert_eq!(plan_row(&doc, &offset, &size, 1), "short");
    assert_eq!(plan_row(&doc, &offset, &size, 2), "~");
    assert_eq!(plan_row(&doc, &offset, &size, 3), "~");
}
