use vstd::prelude::*;
use vstd::string::StrSliceExecFns;
use vstd::string::StringExecFns;
use crate::text::graphemes_of;
use crate::text::split_graphemes;

verus! {

/// One line of text: the raw content, and a cached grapheme count that always
/// equals the number of grapheme clusters in the content.
pub struct Row {
    string: String,
    len: usize,
}

impl View for Row {
    type V = Seq<char>;

    closed spec fn view(&self) -> Seq<char> {
        self.string@
    }
}

/// A tab grapheme renders as two spaces; every other grapheme renders as
/// itself.
pub open spec fn expand_grapheme(g: Seq<char>) -> Seq<char> {
    if g == seq!['\t'] {
        seq![' ', ' ']
    } else {
        g
    }
}

/// The graphemes `[start, end)` of `gs`, each expanded, concatenated in order.
pub open spec fn rendered(gs: Seq<Seq<char>>, start: int, end: int) -> Seq<char>
    decreases end - start,
{
    if start >= end {
        Seq::empty()
    } else {
        rendered(gs, start, end - 1) + expand_grapheme(gs[end - 1])
    }
}

/// What `Row::render` returns: the window `[start, end)` clamped so that
/// `end <= gs.len()` and `start <= end`, then rendered.
pub open spec fn render_spec(gs: Seq<Seq<char>>, start: int, end: int) -> Seq<char> {
    let e = if end <= gs.len() { end } else { gs.len() as int };
    let s = if start <= e { start } else { e };
    rendered(gs, s, e)
}

/// Whether `g` is the single tab character.
fn is_tab(g: &str) -> (b: bool)
    ensures
        b == (g@ == seq!['\t']),
{
    proof {
        reveal_strlit("\t");
    }
    if g.unicode_len() == 1 {
        let c = g.get_char(0);
        proof {
            if c == '\t' {
                assert(g@ =~= seq!['\t']);
            } else {
                assert(g@ != seq!['\t']);
            }
        }
        c == '\t'
    } else {
        false
    }
}

impl Row {
    /// `len` caches the grapheme count of the content.
    pub closed spec fn wf(&self) -> bool {
        self.len == graphemes_of(self.string@).len()
    }

    /// Builds a row from a line of text.
    pub fn from_str(s: &str) -> (r: Row)
        ensures
            r.wf(),
            r@ == s@,
    {
        let mut row = Row { string: s.to_owned(), len: 0 };
        row.update_length();
        row
    }

    /// Recomputes the cached grapheme count from the content.
    fn update_length(&mut self)
        ensures
            final(self).wf(),
            final(self).string == old(self).string,
    {
        let gs = split_graphemes(self.string.as_str());
        proof {
            assert(gs@.map_values(|g: String| g@).len() == gs@.len());
        }
        self.len = gs.len();
    }

    /// The grapheme count of a row is cached in a machine word, so it fits
    /// one.
    pub proof fn lemma_width_fits(&self)
        requires
            self.wf(),
        ensures
            graphemes_of(self@).len() <= usize::MAX,
    {
    }

    /// The grapheme count of the row.
    pub fn len(&self) -> (l: usize)
        requires
            self.wf(),
        ensures
            l == graphemes_of(self@).len(),
    {
        self.len
    }

    /// The graphemes `[start, end)` of the row, clamped to its grapheme
    /// count, with each tab expanded to two spaces. Never panics: an
    /// out-of-range window is clamped, not rejected.
    pub fn render(&self, start: usize, end: usize) -> (r: String)
        requires
            self.wf(),
        ensures
            r@ == render_spec(graphemes_of(self@), start as int, end as int),
    {
        let gs = split_graphemes(self.string.as_str());
        proof {
            assert(gs@.map_values(|g: String| g@).len() == gs@.len());
        }
        let e = if end <= gs.len() { end } else { gs.len() };
        let s = if start <= e { start } else { e };
        let mut r = String::new();
        let mut i: usize = s;
        while i < e
            invariant
                s <= i <= e <= gs@.len(),
                gs@.map_values(|g: String| g@) == graphemes_of(self@),
                r@ == rendered(graphemes_of(self@), s as int, i as int),
            decreases e - i,
        {
            proof {
                assert(gs@.map_values(|g: String| g@)[i as int] == gs@[i as int]@);
                reveal_strlit("  ");
            }
            let g = &gs[i];
            if is_tab(g.as_str()) {
                r.append("  ");
                proof {
                    assert(("  ")@ =~= seq![' ', ' ']);
                }
            } else {
                r.append(g.as_str());
            }
            proof {
                assert(rendered(graphemes_of(self@), s as int, i + 1 as int) == rendered(
                    graphemes_of(self@),
                    s as int,
                    i as int,
                ) + expand_grapheme(graphemes_of(self@)[i as int]));
            }
            i += 1;
        }
        r
    }
}

} // verus!
