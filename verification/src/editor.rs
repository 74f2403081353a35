use vstd::prelude::*;
use crate::document::Document;
use crate::text::graphemes_of;

verus! {

/// A document-space coordinate: `x` is a grapheme column, `y` is a line index.
#[derive(Clone, Copy, Debug, PartialEq, Eq, Structural)]
pub struct Position {
    pub x: usize,
    pub y: usize,
}

impl Default for Position {
    /// The origin `(0, 0)`.
    fn default() -> (p: Self)
        ensures
            p.x == 0 && p.y == 0,
    {
        Position { x: 0, y: 0 }
    }
}

/// The usable terminal grid in character cells, as the terminal driver
/// reports it, less any rows the caller reserves for status lines.
#[derive(Clone, Copy, Debug, PartialEq, Eq, Structural)]
pub struct Size {
    pub width: u16,
    pub height: u16,
}

/// An abstract key event; decoding key bytes into these is the terminal
/// driver's concern, outside this library.
#[derive(Clone, Copy, Debug)]
pub enum Key {
    Up,
    Down,
    Left,
    Right,
    PageUp,
    PageDown,
    Home,
    End,
    Char(char),
    Ctrl(char),
    Other,
}

/// How the dispatcher interpreted one key.
#[derive(Clone, Copy, Debug, PartialEq, Eq, Structural)]
pub enum Dispatch {
    Quit,
    CursorMove,
    HalfPageScroll,
    PassThrough,
}

/// Addition clamped to the machine range, as `usize::saturating_add` has it.
pub open spec fn sat_add(a: int, b: int) -> int {
    if a + b > usize::MAX as int {
        usize::MAX as int
    } else {
        a + b
    }
}

/// Subtraction clamped at zero, as `usize::saturating_sub` has it.
pub open spec fn sat_sub(a: int, b: int) -> int {
    if a >= b {
        a - b
    } else {
        0
    }
}

/// The grapheme width of line `y`; a line index beyond the document has
/// width 0.
pub open spec fn spec_row_width(lines: Seq<Seq<char>>, y: int) -> int {
    if 0 <= y < lines.len() {
        graphemes_of(lines[y]).len() as int
    } else {
        0
    }
}

/// Whether `key` is one of the eight navigation keys.
pub open spec fn is_navigation(key: Key) -> bool {
    match key {
        Key::Up | Key::Down | Key::Left | Key::Right | Key::PageUp | Key::PageDown | Key::Home
            | Key::End => true,
        _ => false,
    }
}

/// Whether `key` asks to quit.
pub open spec fn is_quit(key: Key) -> bool {
    match key {
        Key::Ctrl(c) => c == 'q',
        _ => false,
    }
}

/// Whether `key` is one of the half-page scroll keys.
pub open spec fn is_half_page(key: Key) -> bool {
    match key {
        Key::Ctrl(c) => c == 'd' || c == 'u',
        _ => false,
    }
}

/// The unclamped cursor transition for one navigation key: Up and Down move
/// by one row (Down may sit one past the last line), Left and Right move by
/// one column and wrap across line ends, PageUp and PageDown move by a
/// terminal height, Home and End jump to the ends of the line.
pub open spec fn step_cursor(key: Key, x: int, y: int, lines: Seq<Seq<char>>, th: int) -> (
    int,
    int,
) {
    match key {
        Key::Up => (x, sat_sub(y, 1)),
        Key::Down => (x, if y < lines.len() { y + 1 } else { y }),
        Key::Left => if x > 0 {
            (x - 1, y)
        } else if y > 0 {
            (spec_row_width(lines, y - 1), y - 1)
        } else {
            (x, y)
        },
        Key::Right => if x < spec_row_width(lines, y) {
            (x + 1, y)
        } else if y < lines.len() {
            (0int, y + 1)
        } else {
            (x, y)
        },
        Key::PageUp => (x, if y < th { 0int } else { y - th }),
        Key::PageDown => (
            x,
            if sat_add(y, th) > lines.len() {
                lines.len() as int
            } else {
                sat_add(y, th)
            },
        ),
        Key::Home => (0int, y),
        Key::End => (spec_row_width(lines, y), y),
        _ => (x, y),
    }
}

/// After any transition the column is clamped to the width of the target
/// line, so the cursor never sits past the end of its line.
pub open spec fn clamp_to_width(xy: (int, int), lines: Seq<Seq<char>>) -> (int, int) {
    if xy.0 > spec_row_width(lines, xy.1) {
        (spec_row_width(lines, xy.1), xy.1)
    } else {
        xy
    }
}

/// The full cursor transition for one navigation key: step, then clamp.
pub open spec fn moved_cursor(key: Key, x: int, y: int, lines: Seq<Seq<char>>, th: int) -> (
    int,
    int,
) {
    clamp_to_width(step_cursor(key, x, y, lines, th), lines)
}

/// The half-page transitions: Ctrl-d adds half a terminal height to the row,
/// Ctrl-u removes it, both saturating; any other key changes nothing.
pub open spec fn vim_moved_y(key: Key, y: int, th: int) -> int {
    match key {
        Key::Ctrl(c) => if c == 'd' {
            sat_add(y, th / 2)
        } else if c == 'u' {
            sat_sub(y, th / 2)
        } else {
            y
        },
        _ => y,
    }
}

/// Minimal scrolling on one axis: the offset moves only enough to bring the
/// cursor back into a window of `len` cells, and otherwise stays put.
pub open spec fn scroll_axis(c: int, o: int, len: int) -> int {
    if c < o {
        c
    } else if c >= sat_add(o, len) {
        sat_add(sat_sub(c, len), 1)
    } else {
        o
    }
}

/// The cursor after dispatching one key: navigation keys step and clamp,
/// half-page keys move by half a terminal height, every other key leaves the
/// cursor alone.
pub open spec fn dispatched_cursor(key: Key, x: int, y: int, lines: Seq<Seq<char>>, th: int) -> (
    int,
    int,
) {
    if is_navigation(key) {
        moved_cursor(key, x, y, lines, th)
    } else if is_half_page(key) {
        (x, vim_moved_y(key, y, th))
    } else {
        (x, y)
    }
}

/// The grapheme width of line `y` of the document; 0 past the last line.
pub fn row_width(document: &Document, y: usize) -> (w: usize)
    requires
        document.wf(),
    ensures
        w as int == spec_row_width(document@, y as int),
{
    match document.row(y) {
        Some(row) => row.len(),
        None => 0,
    }
}

/// The mutable navigation state: the quit flag, the document-space cursor,
/// and the viewport offset (the document coordinate shown at screen origin).
pub struct EditorState {
    pub should_quit: bool,
    pub cursor_position: Position,
    pub offset: Position,
}

impl Default for EditorState {
    /// Not quitting, cursor and offset at the origin.
    fn default() -> (e: Self)
        ensures
            !e.should_quit,
            e.cursor_position == (Position { x: 0, y: 0 }),
            e.offset == (Position { x: 0, y: 0 }),
    {
        EditorState {
            should_quit: false,
            cursor_position: Position { x: 0, y: 0 },
            offset: Position { x: 0, y: 0 },
        }
    }
}

impl EditorState {
    /// One navigation step: the cursor moves as `moved_cursor` has it, and
    /// nothing else changes. The last two clauses are the cursor bounds this
    /// keeps: the column never exceeds the width of its line, and a row that
    /// started at or before the end of the document (one past the last line)
    /// stays there.
    pub fn move_cursor(&mut self, key: Key, document: &Document, terminal_height: usize)
        requires
            document.wf(),
        ensures
            (final(self).cursor_position.x as int, final(self).cursor_position.y as int)
                == moved_cursor(
                key,
                old(self).cursor_position.x as int,
                old(self).cursor_position.y as int,
                document@,
                terminal_height as int,
            ),
            final(self).offset == old(self).offset,
            final(self).should_quit == old(self).should_quit,
            final(self).cursor_position.x as int <= spec_row_width(
                document@,
                final(self).cursor_position.y as int,
            ),
            old(self).cursor_position.y <= document@.len() ==> final(self).cursor_position.y
                <= document@.len(),
    {
        let height = document.len();
        let mut x = self.cursor_position.x;
        let mut y = self.cursor_position.y;
        let width = row_width(document, y);
        match key {
            Key::Up => {
                y = y.saturating_sub(1);
            },
            Key::Down => {
                if y < height {
                    y = y + 1;
                }
            },
            Key::Left => {
                if x > 0 {
                    x = x - 1;
                } else if y > 0 {
                    y = y - 1;
                    x = row_width(document, y);
                }
            },
            Key::Right => {
                if x < width {
                    x = x + 1;
                } else if y < height {
                    y = y + 1;
                    x = 0;
                }
            },
            Key::PageUp => {
                y = if y < terminal_height {
                    0
                } else {
                    y - terminal_height
                };
            },
            Key::PageDown => {
                let next = y.saturating_add(terminal_height);
                y = if next > height {
                    height
                } else {
                    next
                };
            },
            Key::Home => {
                x = 0;
            },
            Key::End => {
                x = width;
            },
            _ => {},
        }
        let new_width = row_width(document, y);
        if x > new_width {
            x = new_width;
        }
        self.cursor_position = Position { x, y };
    }

    /// One half-page step: Ctrl-d and Ctrl-u move the row by half a terminal
    /// height. The row is not clamped against the document here and the
    /// column is not re-clamped; only the viewport recomputation that follows
    /// keeps the view consistent.
    pub fn move_vim_binding(&mut self, key: Key, terminal_height: usize)
        ensures
            final(self).cursor_position.y as int == vim_moved_y(
                key,
                old(self).cursor_position.y as int,
                terminal_height as int,
            ),
            final(self).cursor_position.x == old(self).cursor_position.x,
            final(self).offset == old(self).offset,
            final(self).should_quit == old(self).should_quit,
    {
        let x = self.cursor_position.x;
        let mut y = self.cursor_position.y;
        match key {
            Key::Ctrl(c) => {
                if c == 'd' {
                    y = y.saturating_add(terminal_height / 2);
                } else if c == 'u' {
                    y = y.saturating_sub(terminal_height / 2);
                }
            },
            _ => {},
        }
        self.cursor_position = Position { x, y };
    }

    /// Viewport recomputation: each offset axis moves only enough to bring
    /// the cursor back into view. The last two clauses are the invariant this
    /// establishes: on a terminal axis of at least one cell, the cursor lies
    /// within the window that starts at the offset.
    pub fn scroll(&mut self, size: &Size)
        ensures
            final(self).offset.x as int == scroll_axis(
                old(self).cursor_position.x as int,
                old(self).offset.x as int,
                size.width as int,
            ),
            final(self).offset.y as int == scroll_axis(
                old(self).cursor_position.y as int,
                old(self).offset.y as int,
                size.height as int,
            ),
            final(self).cursor_position == old(self).cursor_position,
            final(self).should_quit == old(self).should_quit,
            size.height > 0 ==> final(self).offset.y <= final(self).cursor_position.y
                < final(self).offset.y + size.height,
            size.width > 0 ==> final(self).offset.x <= final(self).cursor_position.x
                < final(self).offset.x + size.width,
    {
        let x = self.cursor_position.x;
        let y = self.cursor_position.y;
        let width = size.width as usize;
        let height = size.height as usize;
        if y < self.offset.y {
            self.offset.y = y;
        } else if y >= self.offset.y.saturating_add(height) {
            self.offset.y = y.saturating_sub(height).saturating_add(1);
        }
        if x < self.offset.x {
            self.offset.x = x;
        } else if x >= self.offset.x.saturating_add(width) {
            self.offset.x = x.saturating_sub(width).saturating_add(1);
        }
    }

    /// One full state update per key: dispatch the key (quit, navigation,
    /// half-page scroll, or pass-through), then recompute the viewport so the
    /// cursor stays in view. Returns how the key was interpreted. The
    /// dispatcher itself never fails.
    pub fn process_keypress(&mut self, key: Key, document: &Document, size: &Size) -> (r: Dispatch)
        requires
            document.wf(),
        ensures
            final(self).should_quit == (old(self).should_quit || is_quit(key)),
            (final(self).cursor_position.x as int, final(self).cursor_position.y as int)
                == dispatched_cursor(
                key,
                old(self).cursor_position.x as int,
                old(self).cursor_position.y as int,
                document@,
                size.height as int,
            ),
            final(self).offset.x as int == scroll_axis(
                final(self).cursor_position.x as int,
                old(self).offset.x as int,
                size.width as int,
            ),
            final(self).offset.y as int == scroll_axis(
                final(self).cursor_position.y as int,
                old(self).offset.y as int,
                size.height as int,
            ),
            r == (if is_quit(key) {
                Dispatch::Quit
            } else if is_navigation(key) {
                Dispatch::CursorMove
            } else if is_half_page(key) {
                Dispatch::HalfPageScroll
            } else {
                Dispatch::PassThrough
            }),
            is_navigation(key) ==> final(self).cursor_position.x as int <= spec_row_width(
                document@,
                final(self).cursor_position.y as int,
            ),
            is_navigation(key) && old(self).cursor_position.y <= document@.len()
                ==> final(self).cursor_position.y <= document@.len(),
    {
        let r: Dispatch;
        match key {
            Key::Ctrl(c) => {
                if c == 'q' {
                    self.should_quit = true;
                    r = Dispatch::Quit;
                } else if c == 'd' || c == 'u' {
                    self.move_vim_binding(key, size.height as usize);
                    r = Dispatch::HalfPageScroll;
                } else {
                    r = Dispatch::PassThrough;
                }
            },
            Key::Up | Key::Down | Key::Left | Key::Right | Key::PageUp | Key::PageDown | Key::Home
                | Key::End => {
                self.move_cursor(key, document, size.height as usize);
                r = Dispatch::CursorMove;
            },
            _ => {
                r = Dispatch::PassThrough;
            },
        }
        self.scroll(size);
        r
    }

    /// The screen-space cursor: the document cursor less the viewport offset,
    /// each axis saturating at zero.
    pub fn screen_cursor(&self) -> (p: Position)
        ensures
            p.x as int == sat_sub(self.cursor_position.x as int, self.offset.x as int),
            p.y as int == sat_sub(self.cursor_position.y as int, self.offset.y as int),
    {
        Position {
            x: self.cursor_position.x.saturating_sub(self.offset.x),
            y: self.cursor_position.y.saturating_sub(self.offset.y),
        }
    }
}

/// Recomputing the viewport with an unchanged cursor moves the offset no
/// further: one recomputation already yields the fixed point, on any axis of
/// at least one cell.
pub proof fn lemma_scroll_idempotent(c: int, o: int, len: int)
    requires
        0 <= c <= usize::MAX,
        0 <= o <= usize::MAX,
        1 <= len <= usize::MAX,
    ensures
        scroll_axis(c, scroll_axis(c, o, len), len) == scroll_axis(c, o, len),
{
}

/// The wrapping moves: Left at column 0 of a later row lands at the end of
/// the previous row; Left at the origin stays; Right at the end of a line
/// above the end of the document lands at the start of the next row; Right
/// at the end-of-document position stays.
pub proof fn lemma_left_right_wrap(x: int, y: int, lines: Seq<Seq<char>>, th: int)
    ensures
        y > 0 ==> moved_cursor(Key::Left, 0, y, lines, th) == (
            spec_row_width(lines, y - 1),
            y - 1,
        ),
        moved_cursor(Key::Left, 0, 0, lines, th) == (0int, 0int),
        x == spec_row_width(lines, y) && y < lines.len() ==> moved_cursor(
            Key::Right,
            x,
            y,
            lines,
            th,
        ) == (0int, y + 1),
        moved_cursor(Key::Right, 0, lines.len() as int, lines, th) == (
            0int,
            lines.len() as int,
        ),
{
}

} // verus!
