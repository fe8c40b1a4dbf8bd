//! Character-level text rules: ASCII case folding, substring search,
//! padding and truncation to a column width.
use vstd::prelude::*;
use vstd::string::*;

verus! {

/// The code point of `c` after ASCII lower-casing (as `char::to_ascii_lowercase`).
pub open spec fn ascii_lower_code(c: char) -> u32 {
    let v = c as u32;
    if 65 <= v && v <= 90 {
        (v + 32) as u32
    } else {
        v
    }
}

/// `a` and `b` are equal up to ASCII case (as `str::eq_ignore_ascii_case`).
pub open spec fn eq_ignore_ascii_case_spec(a: Seq<char>, b: Seq<char>) -> bool {
    &&& a.len() == b.len()
    &&& forall|i: int| 0 <= i < a.len() ==> ascii_lower_code(#[trigger] a[i]) == ascii_lower_code(b[i])
}

/// `needle` occurs as a contiguous part of `hay` (as `str::contains`).
pub open spec fn has_infix(hay: Seq<char>, needle: Seq<char>) -> bool {
    exists|i: int| 0 <= i && i + needle.len() <= hay.len() && #[trigger] hay.subrange(i, i + needle.len()) == needle
}

pub fn lower_code(c: char) -> (r: u32)
    ensures
        r == ascii_lower_code(c),
{
    let v = c as u32;
    if 65 <= v && v <= 90 {
        v + 32
    } else {
        v
    }
}

/// The characters of `s`, in order.
pub fn chars_of(s: &str) -> (v: Vec<char>)
    ensures
        v@ == s@,
{
    let n = s.unicode_len();
    let mut v: Vec<char> = Vec::new();
    let mut i: usize = 0;
    while i < n
        invariant
            n == s@.len(),
            i <= n,
            v@ == s@.subrange(0, i as int),
        decreases n - i,
    {
        let c = s.get_char(i);
        v.push(c);
        i = i + 1;
    }
    v
}

/// ASCII case-insensitive equality of two strings.
pub fn eq_ignore_ascii_case(a: &str, b: &str) -> (r: bool)
    ensures
        r == eq_ignore_ascii_case_spec(a@, b@),
{
    let av = chars_of(a);
    let bv = chars_of(b);
    if av.len() != bv.len() {
        return false;
    }
    let mut i: usize = 0;
    while i < av.len()
        invariant
            av@ == a@,
            bv@ == b@,
            av.len() == bv.len(),
            i <= av.len(),
            forall|k: int| 0 <= k < i ==> ascii_lower_code(#[trigger] av@[k]) == ascii_lower_code(bv@[k]),
        decreases av.len() - i,
    {
        if lower_code(av[i]) != lower_code(bv[i]) {
            return false;
        }
        i = i + 1;
    }
    true
}

/// Whether `needle` occurs in `hay`.
pub fn contains_chars(hay: &Vec<char>, needle: &Vec<char>) -> (r: bool)
    ensures
        r == has_infix(hay@, needle@),
{
    let n = hay.len();
    let m = needle.len();
    if m > n {
        assert forall|i: int| 0 <= i && i + m <= n implies #[trigger] hay@.subrange(i, i + m) != needle@ by {}
        return false;
    }
    let last = n - m;
    let mut i: usize = 0;
    loop
        invariant
            n == hay.len(),
            m == needle.len(),
            m <= n,
            last == n - m,
            i <= last,
            forall|k: int| 0 <= k < i ==> #[trigger] hay@.subrange(k, k + m) != needle@,
        decreases last - i,
    {
        let mut j: usize = 0;
        let mut same = true;
        while j < m
            invariant
                n == hay.len(),
                m == needle.len(),
                i + m <= n,
                j <= m,
                same ==> forall|l: int| 0 <= l < j ==> hay@[i + l] == needle@[l],
                !same ==> hay@.subrange(i as int, i + m) != needle@,
            decreases m - j,
        {
            if same && hay[i + j] != needle[j] {
                assert(hay@.subrange(i as int, i + m)[j as int] == hay@[i + j]);
                same = false;
            }
            j = j + 1;
        }
        if same {
            assert(hay@.subrange(i as int, i + m) =~= needle@);
            return true;
        }
        if i == last {
            return false;
        }
        i = i + 1;
    }
}

/// Whether `needle` occurs in `hay` (as `str::contains` with a string pattern).
pub fn str_contains(hay: &str, needle: &str) -> (r: bool)
    ensures
        r == has_infix(hay@, needle@),
{
    let h = chars_of(hay);
    let n = chars_of(needle);
    contains_chars(&h, &n)
}


/// A name for what `str::to_lowercase` returns: the Unicode lower-case form.
pub uninterp spec fn lowercase_chars(s: Seq<char>) -> Seq<char>;

/// Calls `str::to_lowercase`. Its result depends on the characters of `s`
/// alone; the contract gives it the name `lowercase_chars` and says nothing
/// more of it (the Unicode case tables are not stated here).
#[verifier::external_body]
pub(crate) fn lowercase(s: &str) -> (r: String)
    ensures
        r@ == lowercase_chars(s@),
{
    s.to_lowercase()
}

/// Calls `String::push`: appends `c` at the end.
#[verifier::external_body]
pub(crate) fn push_char(s: &mut String, c: char)
    ensures
        final(s)@ == old(s)@.push(c),
{
    s.push(c)
}

/// Calls `String::pop`: removes and returns the last character, or returns
/// `None` and leaves an empty string as it is.
#[verifier::external_body]
pub(crate) fn pop_char(s: &mut String) -> (r: Option<char>)
    ensures
        old(s)@.len() == 0 ==> r is None && final(s)@ == old(s)@,
        old(s)@.len() > 0 ==> r == Some(old(s)@.last()) && final(s)@ == old(s)@.drop_last(),
{
    s.pop()
}

/// How many bytes UTF-8 takes for `c`.
pub open spec fn utf8_width(c: char) -> nat {
    let v = c as u32;
    if v < 0x80 {
        1
    } else if v < 0x800 {
        2
    } else if v < 0x10000 {
        3
    } else {
        4
    }
}

/// How many bytes UTF-8 takes for `s`.
pub open spec fn utf8_len(s: Seq<char>) -> nat
    decreases s.len(),
{
    if s.len() == 0 {
        0
    } else {
        utf8_len(s.drop_last()) + utf8_width(s.last())
    }
}

/// Calls `str::len`: the length of `s` in bytes, which a `str` holds in
/// UTF-8.
#[verifier::external_body]
pub(crate) fn byte_len(s: &str) -> (r: usize)
    ensures
        r == utf8_len(s@),
{
    s.len()
}

/// A name for what std's `Debug` formatting writes for a string: the text
/// in double quotes, with quotes, backslashes and characters that are not
/// printable escaped.
pub uninterp spec fn debug_text(s: Seq<char>) -> Seq<char>;

/// Formats `s` with std's `Debug` (`{:?}`). The escaping rules are std's own
/// and are not restated here: the result is named `debug_text(s)`, a function
/// of the characters alone.
#[verifier::external_body]
pub(crate) fn debug_quoted(s: &str) -> (r: String)
    ensures
        r@ == debug_text(s@),
{
    format!("{:?}", s)
}

/// A string made of the characters of `v`.
pub fn string_of(v: &Vec<char>) -> (s: String)
    ensures
        s@ == v@,
{
    let mut s = String::new();
    let mut i: usize = 0;
    while i < v.len()
        invariant
            i <= v.len(),
            s@ == v@.subrange(0, i as int),
        decreases v.len() - i,
    {
        push_char(&mut s, v[i]);
        assert(v@.subrange(0, i + 1) =~= v@.subrange(0, i as int).push(v@[i as int]));
        i = i + 1;
    }
    assert(v@.subrange(0, v.len() as int) =~= v@);
    s
}

/// `n` spaces.
pub open spec fn spaces(n: nat) -> Seq<char> {
    Seq::new(n, |i: int| ' ')
}

/// `s` padded with spaces on the right to at least `w` characters
/// (the `{:<w$}` format).
pub open spec fn pad_right_spec(s: Seq<char>, w: nat) -> Seq<char> {
    if s.len() >= w { s } else { s + spaces((w - s.len()) as nat) }
}

/// `s` padded with spaces on the left to at least `w` characters
/// (the `{:>w$}` format).
pub open spec fn pad_left_spec(s: Seq<char>, w: nat) -> Seq<char> {
    if s.len() >= w { s } else { spaces((w - s.len()) as nat) + s }
}

/// At most the first `w` characters of `s` (the `{:.w$}` format).
pub open spec fn truncate_spec(s: Seq<char>, w: nat) -> Seq<char> {
    if s.len() <= w { s } else { s.take(w as int) }
}

fn push_spaces(s: &mut String, n: usize)
    ensures
        final(s)@ == old(s)@ + spaces(n as nat),
{
    let mut k: usize = 0;
    while k < n
        invariant
            k <= n,
            s@ == old(s)@ + spaces(k as nat),
        decreases n - k,
    {
        push_char(s, ' ');
        assert(old(s)@ + spaces((k + 1) as nat) =~= (old(s)@ + spaces(k as nat)).push(' '));
        k = k + 1;
    }
}

pub fn push_all(s: &mut String, v: &Vec<char>)
    ensures
        final(s)@ == old(s)@ + v@,
{
    let mut i: usize = 0;
    while i < v.len()
        invariant
            i <= v.len(),
            s@ == old(s)@ + v@.subrange(0, i as int),
        decreases v.len() - i,
    {
        push_char(s, v[i]);
        assert(old(s)@ + v@.subrange(0, i + 1) =~= (old(s)@ + v@.subrange(0, i as int)).push(v@[i as int]));
        i = i + 1;
    }
    assert(v@.subrange(0, v.len() as int) =~= v@);
}

/// Appends the characters of `t` to `s`.
pub fn push_all_str(s: &mut String, t: &str)
    ensures
        final(s)@ == old(s)@ + t@,
{
    let v = chars_of(t);
    push_all(s, &v);
}

/// `s` padded on the right to `w` characters.
pub fn pad_right(s: &str, w: usize) -> (r: String)
    ensures
        r@ == pad_right_spec(s@, w as nat),
{
    let v = chars_of(s);
    let mut r = String::new();
    push_all(&mut r, &v);
    if v.len() < w {
        push_spaces(&mut r, w - v.len());
    }
    assert(r@ =~= pad_right_spec(s@, w as nat));
    r
}

/// `s` padded on the left to `w` characters.
pub fn pad_left(s: &str, w: usize) -> (r: String)
    ensures
        r@ == pad_left_spec(s@, w as nat),
{
    let v = chars_of(s);
    let mut r = String::new();
    if v.len() < w {
        push_spaces(&mut r, w - v.len());
    }
    push_all(&mut r, &v);
    assert(r@ =~= pad_left_spec(s@, w as nat));
    r
}

/// The text of a table cell of width `w`: `s` padded to `w` characters,
/// cut to `w` characters, and followed by one space
/// (the `{:.w$} ` format applied to the `{:<w$}` format).
pub open spec fn cell_spec(s: Seq<char>, w: nat) -> Seq<char> {
    truncate_spec(pad_right_spec(s, w), w).push(' ')
}

/// The text of a table cell of width `w`.
pub fn cell_text(s: &str, w: usize) -> (r: String)
    ensures
        r@ == cell_spec(s@, w as nat),
{
    let v = chars_of(s);
    let mut r = String::new();
    if v.len() >= w {
        let mut i: usize = 0;
        while i < w
            invariant
                i <= w,
                w <= v.len(),
                v@ == s@,
                r@ == v@.take(i as int),
            decreases w - i,
        {
            push_char(&mut r, v[i]);
            assert(v@.take(i + 1) =~= v@.take(i as int).push(v@[i as int]));
            i = i + 1;
        }
    } else {
        push_all(&mut r, &v);
        push_spaces(&mut r, w - v.len());
    }
    push_char(&mut r, ' ');
    assert(r@ =~= cell_spec(s@, w as nat));
    r
}

/// The pieces of `s` between occurrences of `sep` (as `str::split` with a
/// character pattern): an empty string gives one empty piece.
pub open spec fn split_pieces(s: Seq<char>, sep: char) -> Seq<Seq<char>>
    decreases s.len(),
{
    if s.len() == 0 {
        seq![Seq::<char>::empty()]
    } else {
        let rest = split_pieces(s.drop_last(), sep);
        if s.last() == sep {
            rest.push(Seq::<char>::empty())
        } else {
            rest.update(rest.len() - 1, rest.last().push(s.last()))
        }
    }
}

pub proof fn lemma_split_pieces_nonempty(s: Seq<char>, sep: char)
    ensures
        split_pieces(s, sep).len() >= 1,
    decreases s.len(),
{
    if s.len() > 0 {
        lemma_split_pieces_nonempty(s.drop_last(), sep);
    }
}

/// Splits `s` at each `sep`.
pub fn split_chars(s: &str, sep: char) -> (pieces: Vec<String>)
    ensures
        pieces@.map_values(|p: String| p@) == split_pieces(s@, sep),
{
    let v = chars_of(s);
    let mut pieces: Vec<String> = Vec::new();
    let mut cur: Vec<char> = Vec::new();
    let mut i: usize = 0;
    while i < v.len()
        invariant
            v@ == s@,
            i <= v.len(),
            pieces@.map_values(|p: String| p@).push(cur@) == split_pieces(v@.take(i as int), sep),
        decreases v.len() - i,
    {
        proof {
            lemma_split_pieces_nonempty(v@.take(i as int), sep);
            assert(v@.take(i + 1).drop_last() =~= v@.take(i as int));
        }
        if v[i] == sep {
            let piece = string_of(&cur);
            pieces.push(piece);
            cur = Vec::new();
            assert(pieces@.map_values(|p: String| p@).push(cur@) =~= split_pieces(v@.take(i + 1), sep));
        } else {
            let ghost before = pieces@.map_values(|p: String| p@).push(cur@);
            cur.push(v[i]);
            assert(pieces@.map_values(|p: String| p@).push(cur@) =~= before.update(before.len() - 1, before.last().push(v@[i as int])));
        }
        i = i + 1;
    }
    let piece = string_of(&cur);
    pieces.push(piece);
    assert(v@.take(v.len() as int) =~= v@);
    assert(pieces@.map_values(|p: String| p@) =~= split_pieces(s@, sep));
    pieces
}


/// The lexicographic order of two character sequences, as -1, 0 or 1.
/// Comparing code points in order is the same as comparing the UTF-8
/// bytes in order, which is how strings are ordered.
pub open spec fn lex_sign(a: Seq<char>, b: Seq<char>) -> int
    decreases a.len(),
{
    if a.len() == 0 && b.len() == 0 {
        0
    } else if a.len() == 0 {
        -1
    } else if b.len() == 0 {
        1
    } else if (a[0] as u32) < (b[0] as u32) {
        -1
    } else if (a[0] as u32) > (b[0] as u32) {
        1
    } else {
        lex_sign(a.drop_first(), b.drop_first())
    }
}

/// The lexicographic order of the characters of `a` and `b`: -1, 0 or 1.
pub fn lex_compare(a: &str, b: &str) -> (r: i8)
    ensures
        r == lex_sign(a@, b@),
{
    let av = chars_of(a);
    let bv = chars_of(b);
    let mut i: usize = 0;
    assert(a@.skip(0) =~= a@);
    assert(b@.skip(0) =~= b@);
    while i < av.len() && i < bv.len()
        invariant
            av@ == a@,
            bv@ == b@,
            i <= av.len(),
            i <= bv.len(),
            lex_sign(a@, b@) == lex_sign(a@.skip(i as int), b@.skip(i as int)),
        decreases av.len() - i,
    {
        let x = av[i] as u32;
        let y = bv[i] as u32;
        assert(a@.skip(i as int)[0] == av@[i as int]);
        assert(b@.skip(i as int)[0] == bv@[i as int]);
        if x < y {
            return -1;
        }
        if x > y {
            return 1;
        }
        assert(a@.skip(i as int).drop_first() =~= a@.skip(i + 1));
        assert(b@.skip(i as int).drop_first() =~= b@.skip(i + 1));
        i = i + 1;
    }
    if av.len() == bv.len() {
        assert(a@.skip(i as int).len() == 0);
        0
    } else if i == av.len() {
        -1
    } else {
        1
    }
}

} // verus!
