//! Text as a sequence of characters: searching, trimming and splitting.
//!
//! Every operation is specified on `Seq<char>` and implemented on `Vec<char>`.
//! Positions count characters, never bytes.

use vstd::prelude::*;
use vstd::string::{StrSliceExecFns, StringExecFns};

verus! {

/// `pat` occurs in `hay` starting at position `i`.
pub open spec fn occurs_at(hay: Seq<char>, pat: Seq<char>, i: int) -> bool {
    &&& 0 <= i
    &&& i + pat.len() <= hay.len()
    &&& hay.subrange(i, i + pat.len()) == pat
}

/// The first position at or after `from` at which `pat` occurs in `hay`.
pub open spec fn find_from(hay: Seq<char>, pat: Seq<char>, from: int) -> Option<int>
    decreases hay.len() - from + 1,
{
    if from < 0 || from + pat.len() > hay.len() {
        None
    } else if occurs_at(hay, pat, from) {
        Some(from)
    } else {
        find_from(hay, pat, from + 1)
    }
}

/// The first position at which `pat` occurs in `hay`.
pub open spec fn find(hay: Seq<char>, pat: Seq<char>) -> Option<int> {
    find_from(hay, pat, 0)
}

/// `pat` occurs somewhere in `hay`.
pub open spec fn contains(hay: Seq<char>, pat: Seq<char>) -> bool {
    find(hay, pat) is Some
}

/// `hay` begins with `pat`.
pub open spec fn starts_with(hay: Seq<char>, pat: Seq<char>) -> bool {
    occurs_at(hay, pat, 0)
}

/// White space as Unicode defines it: the characters with the property `White_Space`.
pub open spec fn is_space(c: char) -> bool {
    let u = c as u32;
    ||| 0x09 <= u <= 0x0D
    ||| u == 0x20
    ||| u == 0x85
    ||| u == 0xA0
    ||| u == 0x1680
    ||| 0x2000 <= u <= 0x200A
    ||| u == 0x2028
    ||| u == 0x2029
    ||| u == 0x202F
    ||| u == 0x205F
    ||| u == 0x3000
}

/// `s` without the white space at its start.
pub open spec fn trim_start(s: Seq<char>) -> Seq<char>
    decreases s.len(),
{
    if s.len() > 0 && is_space(s[0]) {
        trim_start(s.drop_first())
    } else {
        s
    }
}

/// `s` without the white space at its end.
pub open spec fn trim_end(s: Seq<char>) -> Seq<char>
    decreases s.len(),
{
    if s.len() > 0 && is_space(s.last()) {
        trim_end(s.drop_last())
    } else {
        s
    }
}

/// `s` without the white space at either end.
pub open spec fn trim(s: Seq<char>) -> Seq<char> {
    trim_end(trim_start(s))
}

/// `s` without any run of the character `c` at its start.
pub open spec fn strip_start_char(s: Seq<char>, c: char) -> Seq<char>
    decreases s.len(),
{
    if s.len() > 0 && s[0] == c {
        strip_start_char(s.drop_first(), c)
    } else {
        s
    }
}

/// `s` without any run of the character `c` at its end.
pub open spec fn strip_end_char(s: Seq<char>, c: char) -> Seq<char>
    decreases s.len(),
{
    if s.len() > 0 && s.last() == c {
        strip_end_char(s.drop_last(), c)
    } else {
        s
    }
}

/// `s` without any repetitions of `pat` at its start.
pub open spec fn strip_start_all(s: Seq<char>, pat: Seq<char>) -> Seq<char>
    decreases s.len(),
{
    if pat.len() > 0 && starts_with(s, pat) {
        strip_start_all(s.skip(pat.len() as int), pat)
    } else {
        s
    }
}

/// The lowercase form of `s` that `str::to_lowercase` computes.
pub uninterp spec fn lowercase_of(s: Seq<char>) -> Seq<char>;

/// The characters of an optional text.
pub open spec fn opt_view(o: Option<Vec<char>>) -> Option<Seq<char>> {
    match o {
        Some(v) => Some(v@),
        None => None,
    }
}

/// `find_from` returns an occurrence, and no occurrence lies between `from` and it.
pub proof fn lemma_find_from(hay: Seq<char>, pat: Seq<char>, from: int)
    requires
        0 <= from,
    ensures
        match find_from(hay, pat, from) {
            Some(i) => from <= i && occurs_at(hay, pat, i) && forall|j: int|
                from <= j < i ==> !occurs_at(hay, pat, j),
            None => forall|j: int| from <= j ==> !occurs_at(hay, pat, j),
        },
    decreases hay.len() - from + 1,
{
    if from + pat.len() > hay.len() {
    } else if occurs_at(hay, pat, from) {
    } else {
        lemma_find_from(hay, pat, from + 1);
    }
}

/// `contains` holds exactly when `pat` occurs at some position of `hay`.
pub proof fn lemma_contains(hay: Seq<char>, pat: Seq<char>)
    ensures
        contains(hay, pat) <==> exists|i: int| occurs_at(hay, pat, i),
{
    lemma_find_from(hay, pat, 0);
    if contains(hay, pat) {
        assert(occurs_at(hay, pat, find(hay, pat).unwrap()));
    }
}

/// Searching the rest of `hay` after `k` characters is searching `hay` from `k`.
pub proof fn lemma_find_skip(hay: Seq<char>, pat: Seq<char>, k: int)
    requires
        0 <= k <= hay.len(),
    ensures
        find(hay.skip(k), pat) == match find_from(hay, pat, k) {
            Some(i) => Some(i - k),
            None => None,
        },
{
    lemma_find_from(hay, pat, k);
    lemma_find_from(hay.skip(k), pat, 0);
    let rest = hay.skip(k);
    assert(rest.len() == hay.len() - k);
    assert forall|j: int| 0 <= j implies (#[trigger] occurs_at(rest, pat, j) <==> occurs_at(
        hay,
        pat,
        j + k,
    )) by {
        if j + pat.len() <= rest.len() {
            assert(rest.subrange(j, j + pat.len()) =~= hay.subrange(j + k, j + k + pat.len()));
        }
    }
    match find_from(hay, pat, k) {
        Some(i) => {
            assert(occurs_at(rest, pat, i - k));
            match find(rest, pat) {
                Some(r) => {
                    assert(occurs_at(hay, pat, r + k));
                },
                None => {},
            }
        },
        None => {
            match find(rest, pat) {
                Some(r) => {
                    assert(occurs_at(hay, pat, r + k));
                },
                None => {},
            }
        },
    }
}

/// A pattern that occurs in a part of a text occurs in the text.
pub proof fn lemma_contains_part(hay: Seq<char>, from: int, to: int, pat: Seq<char>)
    requires
        0 <= from <= to <= hay.len(),
        contains(hay.subrange(from, to), pat),
    ensures
        contains(hay, pat),
{
    let part = hay.subrange(from, to);
    lemma_contains(part, pat);
    lemma_contains(hay, pat);
    let i = choose|i: int| occurs_at(part, pat, i);
    assert(part.subrange(i, i + pat.len()) =~= hay.subrange(from + i, from + i + pat.len()));
    assert(occurs_at(hay, pat, from + i));
}

/// A pattern that occurs in a text occurs in whatever is put around the text.
pub proof fn lemma_contains_within(
    before: Seq<char>,
    hay: Seq<char>,
    after: Seq<char>,
    pat: Seq<char>,
)
    requires
        contains(hay, pat),
    ensures
        contains(before + hay + after, pat),
{
    let whole = before + hay + after;
    let from = before.len() as int;
    let to = from + hay.len();
    assert(whole.subrange(from, to) =~= hay);
    lemma_contains_part(whole, from, to, pat);
}

/// What is put behind a text does not take a pattern out of it.
pub proof fn lemma_contains_extended(hay: Seq<char>, tail: Seq<char>, pat: Seq<char>)
    requires
        contains(hay, pat),
    ensures
        contains(hay + tail, pat),
{
    lemma_contains_within(Seq::empty(), hay, tail, pat);
    assert(Seq::<char>::empty() + hay + tail =~= hay + tail);
}

/// A pattern that occurs in a text occurs in whatever ends with the text.
pub proof fn lemma_contains_at_end(head: Seq<char>, tail: Seq<char>, pat: Seq<char>)
    requires
        contains(tail, pat),
    ensures
        contains(head + tail, pat),
{
    lemma_contains_within(head, tail, Seq::empty(), pat);
    assert(head + tail + Seq::<char>::empty() =~= head + tail);
}

/// A text holds itself, and begins with itself.
pub proof fn lemma_contains_itself(hay: Seq<char>)
    ensures
        contains(hay, hay),
        starts_with(hay, hay),
{
    assert(hay.subrange(0, hay.len() as int) =~= hay);
    lemma_contains(hay, hay);
}

/// A text without the first character of a pattern does not contain the pattern.
pub proof fn lemma_contains_needs_first(hay: Seq<char>, pat: Seq<char>)
    requires
        pat.len() > 0,
        forall|i: int| 0 <= i < hay.len() ==> hay[i] != pat[0],
    ensures
        !contains(hay, pat),
{
    lemma_contains(hay, pat);
    if contains(hay, pat) {
        let i = choose|i: int| occurs_at(hay, pat, i);
        assert(hay.subrange(i, i + pat.len())[0] == pat[0]);
    }
}

/// What is put behind a text does not change how the text begins.
pub proof fn lemma_starts_with_extended(hay: Seq<char>, tail: Seq<char>, pat: Seq<char>)
    requires
        starts_with(hay, pat),
    ensures
        starts_with(hay + tail, pat),
{
    assert((hay + tail).subrange(0, pat.len() as int) =~= hay.subrange(0, pat.len() as int));
}

/// What `trim_start` removes is white space, and it removes all of it: the
/// result is the rest of `s` after its leading white space.
pub proof fn lemma_trim_start(s: Seq<char>)
    ensures
        trim_start(s).len() <= s.len(),
        trim_start(s) == s.skip(s.len() - trim_start(s).len()),
        forall|i: int| 0 <= i < s.len() - trim_start(s).len() ==> is_space(#[trigger] s[i]),
        trim_start(s).len() > 0 ==> !is_space(trim_start(s)[0]),
    decreases s.len(),
{
    if s.len() > 0 && is_space(s[0]) {
        let rest = s.drop_first();
        lemma_trim_start(rest);
        let k = rest.len() - trim_start(rest).len();
        assert(rest.skip(k) =~= s.skip(k + 1));
        assert forall|i: int| 0 <= i < s.len() - trim_start(s).len() implies is_space(
            #[trigger] s[i],
        ) by {
            if i > 0 {
                assert(s[i] == rest[i - 1]);
            }
        }
    } else {
        assert(s.skip(0) =~= s);
    }
}

/// What `trim_end` removes is white space, and it removes all of it: the
/// result is the start of `s` before its trailing white space.
pub proof fn lemma_trim_end(s: Seq<char>)
    ensures
        trim_end(s).len() <= s.len(),
        trim_end(s) == s.take(trim_end(s).len() as int),
        forall|i: int| trim_end(s).len() <= i < s.len() ==> is_space(#[trigger] s[i]),
        trim_end(s).len() > 0 ==> !is_space(trim_end(s).last()),
    decreases s.len(),
{
    if s.len() > 0 && is_space(s.last()) {
        let rest = s.drop_last();
        lemma_trim_end(rest);
        let k = trim_end(rest).len() as int;
        assert(rest.take(k) =~= s.take(k));
        assert forall|i: int| trim_end(s).len() <= i < s.len() implies is_space(#[trigger] s[i]) by {
            if i < s.len() - 1 {
                assert(s[i] == rest[i]);
            }
        }
    } else {
        assert(s.take(s.len() as int) =~= s);
    }
}

/// `trim` gives the part of `s` between its leading and its trailing white
/// space: a part of `s` that neither begins nor ends with white space, with
/// nothing but white space on either side of it.
pub proof fn lemma_trim(s: Seq<char>) -> (bounds: (int, int))
    ensures
        0 <= bounds.0 <= bounds.1 <= s.len(),
        trim(s) == s.subrange(bounds.0, bounds.1),
        forall|i: int| 0 <= i < bounds.0 ==> is_space(#[trigger] s[i]),
        forall|i: int| bounds.1 <= i < s.len() ==> is_space(#[trigger] s[i]),
        trim(s).len() > 0 ==> !is_space(trim(s)[0]) && !is_space(trim(s).last()),
{
    lemma_trim_start(s);
    let front = trim_start(s);
    lemma_trim_end(front);
    let a = s.len() - front.len();
    let b = a + trim_end(front).len();
    assert(front.take(trim_end(front).len() as int) =~= s.subrange(a, b));
    assert forall|i: int| b <= i < s.len() implies is_space(#[trigger] s[i]) by {
        assert(s[i] == front[i - a]);
    }
    if trim(s).len() > 0 {
        assert(trim(s)[0] == front[0]);
    }
    (a, b)
}

/// A part of a text occurs in the text.
pub proof fn lemma_subrange_is_part(s: Seq<char>, from: int, to: int)
    requires
        0 <= from <= to <= s.len(),
    ensures
        contains(s, s.subrange(from, to)),
{
    let part = s.subrange(from, to);
    assert(s.subrange(from, from + part.len()) =~= part);
    assert(occurs_at(s, part, from));
    lemma_contains(s, part);
}

/// What occurs in a part of a text occurs in the text.
pub proof fn lemma_part_of_part(whole: Seq<char>, part: Seq<char>, inner: Seq<char>)
    requires
        contains(whole, part),
        contains(part, inner),
    ensures
        contains(whole, inner),
{
    lemma_contains(whole, part);
    let i = choose|i: int| occurs_at(whole, part, i);
    lemma_contains_part(whole, i, i + part.len(), inner);
}

/// What trimming leaves of a text is a part of the text.
pub proof fn lemma_trim_is_part(s: Seq<char>)
    ensures
        contains(s, trim_start(s)),
        contains(s, trim_end(s)),
        contains(s, trim(s)),
{
    lemma_trim_start(s);
    lemma_trim_end(s);
    let bounds = lemma_trim(s);
    let k = s.len() - trim_start(s).len();
    assert(s.skip(k) =~= s.subrange(k, s.len() as int));
    lemma_subrange_is_part(s, k, s.len() as int);
    let n = trim_end(s).len() as int;
    assert(s.take(n) =~= s.subrange(0, n));
    lemma_subrange_is_part(s, 0, n);
    lemma_subrange_is_part(s, bounds.0, bounds.1);
}

/// What is left of a text without a run of one character at its end is a
/// part of the text.
pub proof fn lemma_strip_end_char_is_part(s: Seq<char>, c: char)
    ensures
        contains(s, strip_end_char(s, c)),
    decreases s.len(),
{
    if s.len() > 0 && s.last() == c {
        lemma_strip_end_char_is_part(s.drop_last(), c);
        lemma_subrange_is_part(s, 0, s.len() - 1);
        lemma_part_of_part(s, s.drop_last(), strip_end_char(s, c));
    } else {
        lemma_contains_itself(s);
    }
}

/// What is left of a text without a run of one character at its start is a
/// part of the text.
pub proof fn lemma_strip_start_char_is_part(s: Seq<char>, c: char)
    ensures
        contains(s, strip_start_char(s, c)),
    decreases s.len(),
{
    if s.len() > 0 && s[0] == c {
        lemma_strip_start_char_is_part(s.drop_first(), c);
        lemma_subrange_is_part(s, 1, s.len() as int);
        lemma_part_of_part(s, s.drop_first(), strip_start_char(s, c));
    } else {
        lemma_contains_itself(s);
    }
}

/// Copies the characters of `s` into a vector.
pub fn chars_of(s: &str) -> (v: Vec<char>)
    ensures
        v@ == s@,
{
    broadcast use vstd::string::group_string_axioms;

    let mut v: Vec<char> = Vec::new();
    for c in it: s.chars()
        invariant
            it.seq() == s@,
            v@ == s@.take(it.index()),
    {
        v.push(c);
    }
    v
}

/// `String::push`: the string afterwards is the string before with `c` at its end.
#[verifier::external_body]
fn push_char(s: &mut String, c: char)
    ensures
        final(s)@ == old(s)@.push(c),
{
    s.push(c)
}

/// Builds a string from the characters of `v`.
pub fn string_of(v: &Vec<char>) -> (s: String)
    ensures
        s@ == v@,
{
    let mut s = String::new();
    let mut i: usize = 0;
    while i < v.len()
        invariant
            i <= v.len(),
            s@ == v@.take(i as int),
        decreases v.len() - i,
    {
        push_char(&mut s, v[i]);
        i += 1;
    }
    s
}

/// `str::to_lowercase`: returns the lowercase equivalent of `s` as Unicode
/// defines it, which is determined by the characters of `s` alone.
#[verifier::external_body]
fn to_lowercase(s: &str) -> (r: String)
    ensures
        r@ == lowercase_of(s@),
{
    s.to_lowercase()
}

/// The lowercase form of `s`.
pub fn lowered(s: &Vec<char>) -> (r: Vec<char>)
    ensures
        r@ == lowercase_of(s@),
{
    let plain = string_of(s);
    let lower = to_lowercase(plain.as_str());
    chars_of(lower.as_str())
}

/// The string `head` followed by the string `tail`.
pub fn joined_strings(head: &str, tail: &str) -> (r: String)
    ensures
        r@ == head@ + tail@,
{
    let mut r = String::from_str(head);
    r.append(tail);
    r
}

/// Appends the characters of `tail` to `buf`.
pub fn append(buf: &mut Vec<char>, tail: &Vec<char>)
    ensures
        final(buf)@ == old(buf)@ + tail@,
{
    let mut i: usize = 0;
    while i < tail.len()
        invariant
            i <= tail.len(),
            buf@ == old(buf)@ + tail@.take(i as int),
        decreases tail.len() - i,
    {
        buf.push(tail[i]);
        i += 1;
    }
}

/// Appends the characters of the string `tail` to `buf`.
pub fn append_str(buf: &mut Vec<char>, tail: &str)
    ensures
        final(buf)@ == old(buf)@ + tail@,
{
    broadcast use vstd::string::group_string_axioms;

    for c in it: tail.chars()
        invariant
            it.seq() == tail@,
            buf@ == old(buf)@ + tail@.take(it.index()),
    {
        buf.push(c);
    }
}

/// Appends `t` and then `after` to `buf`.
pub fn append_then(buf: &mut Vec<char>, t: &Vec<char>, after: &str)
    ensures
        final(buf)@ == old(buf)@ + t@ + after@,
{
    append(buf, t);
    append_str(buf, after);
}

/// `before`, then `t`, then `after`.
pub fn framed(before: &str, t: &Vec<char>, after: &str) -> (r: Vec<char>)
    ensures
        r@ == before@ + t@ + after@,
{
    let mut r = chars_of(before);
    append(&mut r, t);
    append_str(&mut r, after);
    r
}

/// Copies the characters of `v` from position `from` up to, not including, `to`.
pub fn slice(v: &Vec<char>, from: usize, to: usize) -> (r: Vec<char>)
    requires
        from <= to <= v.len(),
    ensures
        r@ == v@.subrange(from as int, to as int),
{
    let mut r: Vec<char> = Vec::new();
    let mut i: usize = from;
    while i < to
        invariant
            from <= i <= to <= v.len(),
            r@ == v@.subrange(from as int, i as int),
        decreases to - i,
    {
        r.push(v[i]);
        i += 1;
    }
    r
}

/// Copies what follows the first `from` characters of `v`.
pub fn rest_from(v: &Vec<char>, from: usize) -> (r: Vec<char>)
    requires
        from <= v.len(),
    ensures
        r@ == v@.skip(from as int),
{
    assert(v@.skip(from as int) =~= v@.subrange(from as int, v.len() as int));
    slice(v, from, v.len())
}

/// Copies the first `to` characters of `v`.
pub fn up_to(v: &Vec<char>, to: usize) -> (r: Vec<char>)
    requires
        to <= v.len(),
    ensures
        r@ == v@.take(to as int),
{
    assert(v@.take(to as int) =~= v@.subrange(0, to as int));
    slice(v, 0, to)
}

/// Whether two texts hold the same characters.
pub fn same(a: &Vec<char>, b: &Vec<char>) -> (r: bool)
    ensures
        r == (a@ == b@),
{
    if a.len() != b.len() {
        return false;
    }
    let mut i: usize = 0;
    while i < a.len()
        invariant
            i <= a.len() == b.len(),
            a@.take(i as int) == b@.take(i as int),
        decreases a.len() - i,
    {
        if a[i] != b[i] {
            return false;
        }
        assert(a@.take(i + 1) =~= a@.take(i as int).push(a@[i as int]));
        assert(b@.take(i + 1) =~= b@.take(i as int).push(b@[i as int]));
        i += 1;
    }
    assert(a@ =~= a@.take(a.len() as int));
    assert(b@ =~= b@.take(b.len() as int));
    true
}

/// Whether `s` holds exactly the characters of the string `t`.
pub fn same_str(s: &Vec<char>, t: &str) -> (r: bool)
    ensures
        r == (s@ == t@),
{
    let p = chars_of(t);
    same(s, &p)
}

/// Whether `pat` occurs in `hay` at position `at`.
pub fn matches_at(hay: &Vec<char>, pat: &Vec<char>, at: usize) -> (r: bool)
    ensures
        r == occurs_at(hay@, pat@, at as int),
{
    if at > hay.len() || pat.len() > hay.len() - at {
        return false;
    }
    let mut j: usize = 0;
    while j < pat.len()
        invariant
            j <= pat.len(),
            at + pat.len() <= hay.len(),
            hay@.subrange(at as int, at + j) == pat@.take(j as int),
        decreases pat.len() - j,
    {
        if hay[at + j] != pat[j] {
            assert(hay@.subrange(at as int, at + pat.len())[j as int] != pat@[j as int]);
            return false;
        }
        assert(hay@.subrange(at as int, at + j + 1) =~= hay@.subrange(at as int, at + j).push(
            hay@[at + j],
        ));
        assert(pat@.take(j + 1) =~= pat@.take(j as int).push(pat@[j as int]));
        j += 1;
    }
    assert(pat@ =~= pat@.take(pat.len() as int));
    true
}

/// The first position at or after `from` at which `pat` occurs in `hay`.
pub fn position_from(hay: &Vec<char>, pat: &Vec<char>, from: usize) -> (r: Option<usize>)
    ensures
        match r {
            Some(i) => find_from(hay@, pat@, from as int) == Some(i as int) && from <= i && i
                + pat.len() <= hay.len(),
            None => find_from(hay@, pat@, from as int) is None,
        },
{
    proof {
        lemma_find_from(hay@, pat@, from as int);
    }
    if from > hay.len() || pat.len() > hay.len() - from {
        return None;
    }
    let last: usize = hay.len() - pat.len();
    let mut i: usize = from;
    loop
        invariant
            from <= i <= last,
            last == hay.len() - pat.len(),
            find_from(hay@, pat@, from as int) == find_from(hay@, pat@, i as int),
        decreases last - i,
    {
        if matches_at(hay, pat, i) {
            return Some(i);
        }
        if i == last {
            assert(find_from(hay@, pat@, i + 1) is None);
            return None;
        }
        i += 1;
    }
}

/// The first position at which `pat` occurs in `hay`.
pub fn position(hay: &Vec<char>, pat: &Vec<char>) -> (r: Option<usize>)
    ensures
        match r {
            Some(i) => find(hay@, pat@) == Some(i as int) && i + pat.len() <= hay.len(),
            None => find(hay@, pat@) is None,
        },
{
    position_from(hay, pat, 0)
}

/// The first position at or after `from` at which the character `c` stands in `hay`.
pub fn position_of_char(hay: &Vec<char>, c: char, from: usize) -> (r: Option<usize>)
    ensures
        match r {
            Some(i) => find_from(hay@, seq![c], from as int) == Some(i as int) && from <= i
                < hay.len() && hay@[i as int] == c,
            None => find_from(hay@, seq![c], from as int) is None,
        },
{
    let mut p: Vec<char> = Vec::new();
    p.push(c);
    assert(p@ =~= seq![c]);
    let r = position_from(hay, &p, from);
    proof {
        lemma_find_from(hay@, seq![c], from as int);
        match find_from(hay@, seq![c], from as int) {
            Some(i) => {
                assert(hay@.subrange(i, i + 1)[0] == c);
            },
            None => {},
        }
    }
    r
}

/// Whether `pat` occurs somewhere in `hay`.
pub fn includes(hay: &Vec<char>, pat: &Vec<char>) -> (r: bool)
    ensures
        r == contains(hay@, pat@),
{
    position(hay, pat).is_some()
}

/// Whether the string `pat` occurs somewhere in `hay`.
pub fn includes_str(hay: &Vec<char>, pat: &str) -> (r: bool)
    ensures
        r == contains(hay@, pat@),
{
    let p = chars_of(pat);
    includes(hay, &p)
}

/// Whether `hay` begins with `pat`.
pub fn begins_with(hay: &Vec<char>, pat: &Vec<char>) -> (r: bool)
    ensures
        r == starts_with(hay@, pat@),
{
    matches_at(hay, pat, 0)
}

/// Whether `hay` begins with the string `pat`.
pub fn begins_with_str(hay: &Vec<char>, pat: &str) -> (r: bool)
    ensures
        r == starts_with(hay@, pat@),
{
    let p = chars_of(pat);
    begins_with(hay, &p)
}

/// Whether `text` begins with the character `c`.
pub fn begins_with_char(text: &str, c: char) -> (r: bool)
    ensures
        r == starts_with(text@, seq![c]),
{
    if text.is_empty() {
        false
    } else {
        let first = text.get_char(0);
        proof {
            if first == c {
                assert(text@.subrange(0, 1) =~= seq![c]);
            } else {
                assert(text@.subrange(0, 1)[0] == first);
            }
        }
        first == c
    }
}

/// Whether `c` is white space.
pub fn is_space_char(c: char) -> (r: bool)
    ensures
        r == is_space(c),
{
    let u: u32 = c as u32;
    (0x09 <= u && u <= 0x0D) || u == 0x20 || u == 0x85 || u == 0xA0 || u == 0x1680 || (0x2000 <= u
        && u <= 0x200A) || u == 0x2028 || u == 0x2029 || u == 0x202F || u == 0x205F || u == 0x3000
}

/// Copies `s` without the white space at its start.
pub fn trimmed_start(s: &Vec<char>) -> (r: Vec<char>)
    ensures
        r@ == trim_start(s@),
{
    let mut a: usize = 0;
    assert(s@.skip(0) =~= s@);
    while a < s.len() && is_space_char(s[a])
        invariant
            a <= s.len(),
            trim_start(s@) == trim_start(s@.skip(a as int)),
        decreases s.len() - a,
    {
        assert(s@.skip(a as int).drop_first() =~= s@.skip(a + 1));
        a += 1;
    }
    assert(s@.skip(a as int) =~= s@.subrange(a as int, s.len() as int));
    slice(s, a, s.len())
}

/// Copies `s` without the white space at its end.
pub fn trimmed_end(s: &Vec<char>) -> (r: Vec<char>)
    ensures
        r@ == trim_end(s@),
{
    let mut b: usize = s.len();
    assert(s@.take(b as int) =~= s@);
    while b > 0 && is_space_char(s[b - 1])
        invariant
            b <= s.len(),
            trim_end(s@) == trim_end(s@.take(b as int)),
        decreases b,
    {
        assert(s@.take(b as int).drop_last() =~= s@.take(b - 1));
        b -= 1;
    }
    slice(s, 0, b)
}

/// Copies `s` without the white space at either end.
pub fn trimmed(s: &Vec<char>) -> (r: Vec<char>)
    ensures
        r@ == trim(s@),
{
    let t = trimmed_start(s);
    trimmed_end(&t)
}

/// Copies `s` without any run of `c` at its start.
pub fn without_leading(s: &Vec<char>, c: char) -> (r: Vec<char>)
    ensures
        r@ == strip_start_char(s@, c),
{
    let mut a: usize = 0;
    assert(s@.skip(0) =~= s@);
    while a < s.len() && s[a] == c
        invariant
            a <= s.len(),
            strip_start_char(s@, c) == strip_start_char(s@.skip(a as int), c),
        decreases s.len() - a,
    {
        assert(s@.skip(a as int).drop_first() =~= s@.skip(a + 1));
        a += 1;
    }
    assert(s@.skip(a as int) =~= s@.subrange(a as int, s.len() as int));
    slice(s, a, s.len())
}

/// Copies `s` without any run of `c` at its end.
pub fn without_trailing(s: &Vec<char>, c: char) -> (r: Vec<char>)
    ensures
        r@ == strip_end_char(s@, c),
{
    let mut b: usize = s.len();
    assert(s@.take(b as int) =~= s@);
    while b > 0 && s[b - 1] == c
        invariant
            b <= s.len(),
            strip_end_char(s@, c) == strip_end_char(s@.take(b as int), c),
        decreases b,
    {
        assert(s@.take(b as int).drop_last() =~= s@.take(b - 1));
        b -= 1;
    }
    slice(s, 0, b)
}

/// Copies `s` without any repetitions of `pat` at its start.
pub fn without_leading_all(s: &Vec<char>, pat: &Vec<char>) -> (r: Vec<char>)
    ensures
        r@ == strip_start_all(s@, pat@),
{
    if pat.len() == 0 {
        assert(s@ =~= s@.subrange(0, s.len() as int));
        return slice(s, 0, s.len());
    }
    let mut a: usize = 0;
    assert(s@.skip(0) =~= s@);
    while matches_at(s, pat, a)
        invariant
            a <= s.len(),
            pat.len() > 0,
            strip_start_all(s@, pat@) == strip_start_all(s@.skip(a as int), pat@),
        decreases s.len() - a,
    {
        proof {
            let rest = s@.skip(a as int);
            assert(rest.subrange(0, pat.len() as int) =~= s@.subrange(
                a as int,
                a + pat.len(),
            ));
            assert(rest.skip(pat.len() as int) =~= s@.skip(a + pat.len()));
        }
        a += pat.len();
    }
    proof {
        let rest = s@.skip(a as int);
        if pat.len() <= rest.len() {
            assert(rest.subrange(0, pat.len() as int) =~= s@.subrange(a as int, a + pat.len()));
        }
        assert(rest =~= s@.subrange(a as int, s.len() as int));
    }
    slice(s, a, s.len())
}

} // verus!
