use vstd::prelude::*;
use vstd::string::StrSliceExecFns;
use vstd::string::StringExecFns;
use crate::document::Document;
use crate::editor::Position;
use crate::editor::Size;
use crate::editor::sat_sub;
use crate::row::render_spec;
use crate::text::graphemes_of;

verus! {

/// The banner shown on an empty document.
pub open spec fn welcome_text() -> Seq<char> {
    "Hecto Editor -- version 0.1.0"@
}

/// `n` spaces in a row (none when `n` is negative).
pub open spec fn spaces(n: int) -> Seq<char> {
    Seq::new(
        if n >= 0 {
            n as nat
        } else {
            0
        },
        |i: int| ' ',
    )
}

/// The welcome line: a tilde, then the padding that centres the banner, then
/// the banner, the whole truncated to the screen width.
pub open spec fn welcome_spec(width: int) -> Seq<char> {
    let msg = welcome_text();
    let padding = sat_sub(width, msg.len() as int) / 2;
    let full = seq!['~'] + spaces(sat_sub(padding, 1)) + msg;
    if full.len() > width {
        full.take(width)
    } else {
        full
    }
}

/// The content planned for one screen row: the windowed render of the
/// document line under it; on an empty document, the welcome line at a third
/// of the height; otherwise a tilde filler. No planned row is wider than the
/// screen.
pub open spec fn plan_row_spec(
    lines: Seq<Seq<char>>,
    offset: Position,
    size: Size,
    terminal_row: int,
) -> Seq<char> {
    let index = offset.y + terminal_row;
    if index < lines.len() {
        render_spec(graphemes_of(lines[index]), offset.x as int, offset.x + size.width)
    } else if lines.len() == 0 && terminal_row == size.height as int / 3 {
        welcome_spec(size.width as int)
    } else {
        seq!['~']
    }
}

/// Builds the welcome line for a screen of `width` cells.
pub fn welcome_line(width: usize) -> (line: String)
    ensures
        line@ == welcome_spec(width as int),
        line@.len() <= width,
{
    proof {
        reveal_strlit("~");
        reveal_strlit(" ");
    }
    let msg = "Hecto Editor -- version 0.1.0";
    let msg_len = msg.unicode_len();
    let padding = width.saturating_sub(msg_len) / 2;
    let pad = padding.saturating_sub(1);
    let mut line = String::from_str("~");
    proof {
        assert(line@ =~= seq!['~'] + spaces(0));
    }
    let mut i: usize = 0;
    while i < pad
        invariant
            i <= pad,
            line@ == seq!['~'] + spaces(i as int),
        decreases pad - i,
    {
        line.append(" ");
        proof {
            reveal_strlit(" ");
            assert((seq!['~'] + spaces(i as int)) + " "@ =~= seq!['~'] + spaces(i + 1));
        }
        i += 1;
    }
    line.append(msg);
    let ghost full = seq!['~'] + spaces(pad as int) + welcome_text();
    proof {
        assert(line@ =~= full);
    }
    let len = line.as_str().unicode_len();
    if len > width {
        let truncated = line.as_str().substring_char(0, width);
        let result = String::from_str(truncated);
        proof {
            assert(result@ =~= full.take(width as int));
        }
        result
    } else {
        line
    }
}

/// Plans screen row `terminal_row`: clamps the column window to the screen
/// width, falls back to the welcome line or a tilde filler where no document
/// line lies under the row. Never panics, whatever the offset and size.
pub fn plan_row(document: &Document, offset: &Position, size: &Size, terminal_row: u16) -> (line:
    String)
    requires
        document.wf(),
    ensures
        line@ == plan_row_spec(document@, *offset, *size, terminal_row as int),
{
    let doc_len = document.len();
    let width = size.width as usize;
    match offset.y.checked_add(terminal_row as usize) {
        Some(index) => {
            match document.row(index) {
                Some(row) => {
                    proof {
                        row.lemma_width_fits();
                    }
                    let end = offset.x.saturating_add(width);
                    return row.render(offset.x, end);
                },
                None => {},
            }
        },
        None => {},
    }
    if document.is_empty() && terminal_row == size.height / 3 {
        welcome_line(width)
    } else {
        proof {
            reveal_strlit("~");
        }
        let line = String::from_str("~");
        proof {
            assert(line@ =~= seq!['~']);
        }
        line
    }
}

} // verus!
