//! Lists of texts: the lines of a document, the segments of a path, the types
//! that an analysis found.

use crate::text::{
    contains, find, lemma_contains_itself, lemma_find_from, lemma_find_skip,
    lemma_part_of_part, lemma_subrange_is_part, occurs_at, position_from, same, slice,
};
use vstd::prelude::*;

verus! {

/// An ordered list of texts. Its view is the sequence of their characters.
pub struct TextList {
    pub items: Vec<Vec<char>>,
}

impl View for TextList {
    type V = Seq<Seq<char>>;

    open spec fn view(&self) -> Seq<Seq<char>> {
        Seq::new(self.items@.len(), |i: int| self.items@[i]@)
    }
}

/// `list` with `t` at its end, unless `list` holds `t` already.
pub open spec fn with_unique(list: Seq<Seq<char>>, t: Seq<char>) -> Seq<Seq<char>> {
    if list.contains(t) {
        list
    } else {
        list.push(t)
    }
}

/// The pieces of `s` between the occurrences of `sep`, found from left to right.
/// There is always at least one piece.
pub open spec fn split(s: Seq<char>, sep: Seq<char>) -> Seq<Seq<char>>
    decreases s.len(),
{
    match find(s, sep) {
        Some(i) => {
            if sep.len() > 0 {
                proof {
                    lemma_find_from(s, sep, 0);
                }
                seq![s.take(i)] + split(s.skip(i + sep.len()), sep)
            } else {
                seq![s]
            }
        },
        None => seq![s],
    }
}

/// `s` without one carriage return at its end.
pub open spec fn strip_cr(s: Seq<char>) -> Seq<char> {
    if s.len() > 0 && s.last() == '\r' {
        s.drop_last()
    } else {
        s
    }
}

/// The lines of `s`. A line ends at a line feed, or at the end of `s`; a line
/// that ends at a line feed loses a carriage return just before it. The empty
/// text has no line, and a line feed at the very end begins no further line.
pub open spec fn lines(s: Seq<char>) -> Seq<Seq<char>>
    decreases s.len(),
{
    if s.len() == 0 {
        Seq::empty()
    } else {
        match find(s, seq!['\n']) {
            Some(i) => {
                proof {
                    lemma_find_from(s, seq!['\n'], 0);
                }
                seq![strip_cr(s.take(i))] + lines(s.skip(i + 1))
            },
            None => seq![s],
        }
    }
}

/// Splitting never yields an empty list.
pub proof fn lemma_split_nonempty(s: Seq<char>, sep: Seq<char>)
    ensures
        split(s, sep).len() >= 1,
    decreases s.len(),
{
    match find(s, sep) {
        Some(i) => {
            if sep.len() > 0 {
                lemma_find_from(s, sep, 0);
                lemma_split_nonempty(s.skip(i + sep.len()), sep);
            }
        },
        None => {},
    }
}

/// Each piece of a split text is a part of the text.
pub proof fn lemma_split_pieces_are_parts(s: Seq<char>, sep: Seq<char>, k: int)
    requires
        0 <= k < split(s, sep).len(),
    ensures
        contains(s, split(s, sep)[k]),
    decreases s.len(),
{
    lemma_find_from(s, sep, 0);
    match find(s, sep) {
        Some(i) => {
            if sep.len() > 0 {
                if k == 0 {
                    assert(s.take(i) =~= s.subrange(0, i));
                    lemma_subrange_is_part(s, 0, i);
                } else {
                    let rest = s.skip(i + sep.len());
                    lemma_split_pieces_are_parts(rest, sep, k - 1);
                    assert(rest =~= s.subrange(i + sep.len(), s.len() as int));
                    lemma_subrange_is_part(s, i + sep.len(), s.len() as int);
                    lemma_part_of_part(s, rest, split(rest, sep)[k - 1]);
                }
            } else {
                lemma_contains_itself(s);
            }
        },
        None => {
            lemma_contains_itself(s);
        },
    }
}

/// No line holds a line feed.
pub proof fn lemma_lines_hold_no_line_feed(s: Seq<char>, k: int)
    requires
        0 <= k < lines(s).len(),
    ensures
        !lines(s)[k].contains('\n'),
    decreases s.len(),
{
    let feed = seq!['\n'];
    lemma_find_from(s, feed, 0);
    match find(s, feed) {
        Some(i) => {
            let first = strip_cr(s.take(i));
            if k == 0 {
                if first.contains('\n') {
                    let j = choose|j: int| 0 <= j < first.len() && first[j] == '\n';
                    assert(s.subrange(j, j + 1) =~= feed);
                    assert(occurs_at(s, feed, j));
                }
            } else {
                lemma_lines_hold_no_line_feed(s.skip(i + 1), k - 1);
            }
        },
        None => {
            if s.contains('\n') {
                let j = choose|j: int| 0 <= j < s.len() && s[j] == '\n';
                assert(s.subrange(j, j + 1) =~= feed);
                assert(occurs_at(s, feed, j));
            }
        },
    }
}

impl TextList {
    /// The empty list.
    pub fn new() -> (r: Self)
        ensures
            r@ == Seq::<Seq<char>>::empty(),
    {
        let r = TextList { items: Vec::new() };
        assert(r@ =~= Seq::<Seq<char>>::empty());
        r
    }

    /// The number of texts in the list.
    pub fn len(&self) -> (n: usize)
        ensures
            n == self@.len(),
    {
        self.items.len()
    }

    /// The text at position `i`.
    pub fn get(&self, i: usize) -> (t: &Vec<char>)
        requires
            i < self@.len(),
        ensures
            t@ == self@[i as int],
    {
        &self.items[i]
    }

    /// Puts `t` at the end of the list.
    pub fn push(&mut self, t: Vec<char>)
        ensures
            final(self)@ == old(self)@.push(t@),
    {
        self.items.push(t);
        assert(self@ =~= old(self)@.push(t@));
    }

    /// Whether the list holds a text with the characters of `t`.
    pub fn holds(&self, t: &Vec<char>) -> (r: bool)
        ensures
            r == self@.contains(t@),
    {
        let mut i: usize = 0;
        while i < self.items.len()
            invariant
                i <= self.items.len(),
                forall|j: int| 0 <= j < i ==> self@[j] != t@,
            decreases self.items.len() - i,
        {
            if same(&self.items[i], t) {
                assert(self@[i as int] == t@);
                return true;
            }
            i += 1;
        }
        false
    }

    /// Puts `t` at the end of the list unless the list holds it already.
    pub fn push_unique(&mut self, t: Vec<char>)
        ensures
            final(self)@ == with_unique(old(self)@, t@),
    {
        if !self.holds(&t) {
            self.push(t);
        }
    }
}

/// Splits `s` at the occurrences of `sep`.
pub fn split_text(s: &Vec<char>, sep: &Vec<char>) -> (r: TextList)
    ensures
        r@ == split(s@, sep@),
{
    let mut r = TextList::new();
    if sep.len() == 0 {
        assert(s@ =~= s@.subrange(0, s.len() as int));
        r.push(slice(s, 0, s.len()));
        assert(r@ =~= seq![s@]);
        return r;
    }
    let mut start: usize = 0;
    assert(s@.skip(0) =~= s@);
    loop
        invariant
            start <= s.len(),
            sep.len() > 0,
            split(s@, sep@) == r@ + split(s@.skip(start as int), sep@),
        decreases s.len() - start,
    {
        proof {
            lemma_find_skip(s@, sep@, start as int);
            lemma_find_from(s@, sep@, start as int);
        }
        let ghost rest = s@.skip(start as int);
        match position_from(s, sep, start) {
            Some(i) => {
                let piece = slice(s, start, i);
                proof {
                    assert(rest.take(i - start) =~= s@.subrange(start as int, i as int));
                    assert(rest.skip(i - start + sep.len()) =~= s@.skip(i + sep.len()));
                    assert((r@ + seq![piece@]) + split(s@.skip(i + sep.len()), sep@) =~= r@ + (
                    seq![piece@] + split(s@.skip(i + sep.len()), sep@)));
                    assert(r@.push(piece@) =~= r@ + seq![piece@]);
                }
                r.push(piece);
                start = i + sep.len();
            },
            None => {
                let piece = slice(s, start, s.len());
                proof {
                    assert(rest =~= s@.subrange(start as int, s.len() as int));
                    assert(r@.push(piece@) =~= r@ + seq![piece@]);
                }
                r.push(piece);
                return r;
            },
        }
    }
}

/// Splits `s` into its lines.
pub fn split_lines(s: &Vec<char>) -> (r: TextList)
    ensures
        r@ == lines(s@),
{
    let mut r = TextList::new();
    let mut newline: Vec<char> = Vec::new();
    newline.push('\n');
    assert(newline@ =~= seq!['\n']);
    let mut start: usize = 0;
    assert(s@.skip(0) =~= s@);
    while start < s.len()
        invariant
            start <= s.len(),
            newline@ == seq!['\n'],
            lines(s@) == r@ + lines(s@.skip(start as int)),
        decreases s.len() - start,
    {
        proof {
            lemma_find_skip(s@, newline@, start as int);
            lemma_find_from(s@, newline@, start as int);
        }
        let ghost rest = s@.skip(start as int);
        match position_from(s, &newline, start) {
            Some(i) => {
                let end: usize = if i > start && s[i - 1] == '\r' {
                    i - 1
                } else {
                    i
                };
                let piece = slice(s, start, end);
                proof {
                    assert(rest.take(i - start) =~= s@.subrange(start as int, i as int));
                    assert(strip_cr(s@.subrange(start as int, i as int)) =~= s@.subrange(
                        start as int,
                        end as int,
                    ));
                    assert(rest.skip(i - start + 1) =~= s@.skip(i + 1));
                    assert((r@ + seq![piece@]) + lines(s@.skip(i + 1)) =~= r@ + (seq![piece@]
                        + lines(s@.skip(i + 1))));
                    assert(r@.push(piece@) =~= r@ + seq![piece@]);
                }
                r.push(piece);
                start = i + 1;
            },
            None => {
                let piece = slice(s, start, s.len());
                proof {
                    assert(rest =~= s@.subrange(start as int, s.len() as int));
                    assert(r@.push(piece@) =~= r@ + seq![piece@]);
                    assert(s@.skip(s.len() as int) =~= Seq::<char>::empty());
                    assert(r@ + seq![piece@] + lines(s@.skip(s.len() as int)) =~= r@ + seq![
                        piece@,
                    ]);
                }
                r.push(piece);
                start = s.len();
            },
        }
    }
    assert(r@ + lines(s@.skip(start as int)) =~= r@);
    r
}

} // verus!
