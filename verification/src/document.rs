use vstd::prelude::*;
use vstd::string::StrSliceExecFns;
use crate::row::Row;

verus! {

/// The lines that remain when splitting `s` on newline characters, scanning
/// from position `i`, the current line having begun at `start`. A trailing
/// newline yields no final empty line.
pub open spec fn split_rest(s: Seq<char>, start: int, i: int) -> Seq<Seq<char>>
    decreases s.len() - i,
{
    if i >= s.len() {
        if start < s.len() {
            seq![s.subrange(start, s.len() as int)]
        } else {
            Seq::empty()
        }
    } else if s[i] == '\n' {
        seq![s.subrange(start, i)] + split_rest(s, i + 1, i + 1)
    } else {
        split_rest(s, start, i + 1)
    }
}

/// The lines of `s`, split on newline characters.
pub open spec fn split_lines(s: Seq<char>) -> Seq<Seq<char>> {
    split_rest(s, 0, 0)
}

/// The single default line of a document opened without content.
pub open spec fn greeting_line() -> Seq<char> {
    "Hello, world!"@
}

/// An ordered sequence of rows; index `i` always refers to line `i` of the
/// loaded content. Its view is the sequence of line contents.
pub struct Document {
    rows: Vec<Row>,
}

impl View for Document {
    type V = Seq<Seq<char>>;

    closed spec fn view(&self) -> Seq<Seq<char>> {
        self.rows@.map_values(|r: Row| r@)
    }
}

impl Default for Document {
    /// A document with no lines at all.
    fn default() -> (d: Self)
        ensures
            d.wf(),
            d@ == Seq::<Seq<char>>::empty(),
    {
        let rows: Vec<Row> = Vec::new();
        let d = Document { rows };
        proof {
            assert(d@ =~= Seq::<Seq<char>>::empty());
        }
        d
    }
}

impl Document {
    /// Every row's cached grapheme count is in step with its content.
    pub closed spec fn wf(&self) -> bool {
        forall|i: int| 0 <= i < self.rows@.len() ==> (#[trigger] self.rows@[i]).wf()
    }

    /// Builds a document: with content, one row per line, split on newline
    /// characters; without content, a single default greeting row.
    pub fn open(content: Option<&str>) -> (d: Document)
        ensures
            d.wf(),
            match content {
                Some(s) => d@ == split_lines(s@),
                None => d@ == seq![greeting_line()],
            },
    {
        let mut rows: Vec<Row> = Vec::new();
        match content {
            None => {
                rows.push(Row::from_str("Hello, world!"));
                let d = Document { rows };
                proof {
                    assert(d@ =~= seq![greeting_line()]);
                }
                d
            },
            Some(s) => {
                let n = s.unicode_len();
                let mut start: usize = 0;
                let mut i: usize = 0;
                proof {
                    assert(Seq::<Seq<char>>::empty() + split_lines(s@) =~= split_lines(s@));
                    assert(rows@.map_values(|r: Row| r@) =~= Seq::<Seq<char>>::empty());
                }
                while i < n
                    invariant
                        start <= i <= n == s@.len(),
                        rows@.map_values(|r: Row| r@) + split_rest(s@, start as int, i as int)
                            == split_lines(s@),
                        forall|k: int|
                            0 <= k < rows@.len() ==> (#[trigger] rows@[k]).wf(),
                    decreases n - i,
                {
                    if s.get_char(i) == '\n' {
                        let line = s.substring_char(start, i);
                        let ghost prev = rows@.map_values(|r: Row| r@);
                        rows.push(Row::from_str(line));
                        proof {
                            assert(rows@.map_values(|r: Row| r@) =~= prev.push(
                                s@.subrange(start as int, i as int),
                            ));
                            assert(prev.push(s@.subrange(start as int, i as int)) =~= prev
                                + seq![s@.subrange(start as int, i as int)]);
                            assert((prev + seq![s@.subrange(start as int, i as int)]) + split_rest(
                                s@,
                                i + 1,
                                i + 1,
                            ) =~= prev + (seq![s@.subrange(start as int, i as int)] + split_rest(
                                s@,
                                i + 1,
                                i + 1,
                            )));
                        }
                        start = i + 1;
                    }
                    i += 1;
                }
                if start < n {
                    let line = s.substring_char(start, n);
                    let ghost prev = rows@.map_values(|r: Row| r@);
                    rows.push(Row::from_str(line));
                    proof {
                        assert(rows@.map_values(|r: Row| r@) =~= prev.push(
                            s@.subrange(start as int, n as int),
                        ));
                        assert(prev.push(s@.subrange(start as int, n as int)) =~= prev + seq![
                            s@.subrange(start as int, n as int),
                        ]);
                    }
                } else {
                    proof {
                        assert(rows@.map_values(|r: Row| r@) + Seq::<Seq<char>>::empty()
                            =~= rows@.map_values(|r: Row| r@));
                    }
                }
                let d = Document { rows };
                d
            },
        }
    }

    /// The row at `index`, or absent when `index` is past the last line;
    /// never an error.
    pub fn row(&self, index: usize) -> (r: Option<&Row>)
        requires
            self.wf(),
        ensures
            match r {
                Some(row) => index < self@.len() && row.wf() && row@ == self@[index as int],
                None => index >= self@.len(),
            },
    {
        proof {
            assert(self.rows@.map_values(|r: Row| r@).len() == self.rows@.len());
        }
        if index < self.rows.len() {
            Some(&self.rows[index])
        } else {
            None
        }
    }

    /// Whether the document has no lines.
    pub fn is_empty(&self) -> (b: bool)
        ensures
            b == (self@.len() == 0),
    {
        proof {
            assert(self.rows@.map_values(|r: Row| r@).len() == self.rows@.len());
        }
        self.rows.is_empty()
    }

    /// The number of lines.
    pub fn len(&self) -> (l: usize)
        ensures
            l == self@.len(),
    {
        proof {
            assert(self.rows@.map_values(|r: Row| r@).len() == self.rows@.len());
        }
        self.rows.len()
    }
}

} // verus!
