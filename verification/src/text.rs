//! Text handling over characters: trimming, splitting, prefixes, lines,
//! decimal numbers. Each operation is stated over `Seq<char>` and carried
//! out on character vectors.

use vstd::prelude::*;

verus! {

// ---------------------------------------------------------------------------
// Character classes
// ---------------------------------------------------------------------------

/// Unicode `White_Space`, as `char::is_whitespace` tests it.
pub open spec fn is_whitespace(c: char) -> bool {
    let v = c as u32;
    ||| 0x09 <= v <= 0x0D
    ||| v == 0x20
    ||| v == 0x85
    ||| v == 0xA0
    ||| v == 0x1680
    ||| 0x2000 <= v <= 0x200A
    ||| v == 0x2028
    ||| v == 0x2029
    ||| v == 0x202F
    ||| v == 0x205F
    ||| v == 0x3000
}

/// Tests whether a character is Unicode white space.
pub fn char_is_whitespace(c: char) -> (r: bool)
    ensures
        r == is_whitespace(c),
{
    let v = c as u32;
    (0x09 <= v && v <= 0x0D) || v == 0x20 || v == 0x85 || v == 0xA0 || v == 0x1680 || (0x2000
        <= v && v <= 0x200A) || v == 0x2028 || v == 0x2029 || v == 0x202F || v == 0x205F || v
        == 0x3000
}

/// The characters that a trim removes.
#[derive(Clone, Copy)]
pub enum CharClass {
    /// Unicode white space.
    Whitespace,
    /// One given character.
    Exactly(char),
}

pub open spec fn in_class(class: CharClass, c: char) -> bool {
    match class {
        CharClass::Whitespace => is_whitespace(c),
        CharClass::Exactly(d) => c == d,
    }
}

pub fn class_contains(class: CharClass, c: char) -> (r: bool)
    ensures
        r == in_class(class, c),
{
    match class {
        CharClass::Whitespace => char_is_whitespace(c),
        CharClass::Exactly(d) => c == d,
    }
}

// ---------------------------------------------------------------------------
// Trimming
// ---------------------------------------------------------------------------

/// `s` without its leading characters of `class`.
pub open spec fn trim_start_by(s: Seq<char>, class: CharClass) -> Seq<char>
    decreases s.len(),
{
    if s.len() > 0 && in_class(class, s[0]) {
        trim_start_by(s.drop_first(), class)
    } else {
        s
    }
}

/// `s` without its trailing characters of `class`.
pub open spec fn trim_end_by(s: Seq<char>, class: CharClass) -> Seq<char>
    decreases s.len(),
{
    if s.len() > 0 && in_class(class, s.last()) {
        trim_end_by(s.drop_last(), class)
    } else {
        s
    }
}

/// `s` without its leading and trailing characters of `class`.
pub open spec fn trim_by(s: Seq<char>, class: CharClass) -> Seq<char> {
    trim_end_by(trim_start_by(s, class), class)
}

/// `s` without leading and trailing white space (`str::trim`).
pub open spec fn trim(s: Seq<char>) -> Seq<char> {
    trim_by(s, CharClass::Whitespace)
}

proof fn lemma_trim_start_skip(s: Seq<char>, class: CharClass, i: int)
    requires
        0 <= i <= s.len(),
        forall|j: int| 0 <= j < i ==> in_class(class, #[trigger] s[j]),
    ensures
        trim_start_by(s, class) == trim_start_by(s.skip(i), class),
    decreases i,
{
    if i > 0 {
        assert(s.drop_first().skip(i - 1) =~= s.skip(i));
        lemma_trim_start_skip(s.drop_first(), class, i - 1);
    } else {
        assert(s.skip(0) =~= s);
    }
}

proof fn lemma_trim_end_take(s: Seq<char>, class: CharClass, i: int)
    requires
        0 <= i <= s.len(),
        forall|j: int| i <= j < s.len() ==> in_class(class, #[trigger] s[j]),
    ensures
        trim_end_by(s, class) == trim_end_by(s.take(i), class),
    decreases s.len() - i,
{
    if i < s.len() {
        assert(s.drop_last().take(i) =~= s.take(i));
        lemma_trim_end_take(s.drop_last(), class, i);
    } else {
        assert(s.take(i) =~= s);
    }
}

/// Where trimming the start stops: the index of the first character not
/// in the class.
pub(crate) proof fn lemma_trim_start_at(s: Seq<char>, class: CharClass) -> (a: int)
    ensures
        0 <= a <= s.len(),
        trim_start_by(s, class) == s.skip(a),
        forall|j: int| 0 <= j < a ==> in_class(class, #[trigger] s[j]),
        a < s.len() ==> !in_class(class, s[a]),
    decreases s.len(),
{
    if s.len() > 0 && in_class(class, s[0]) {
        let a = lemma_trim_start_at(s.drop_first(), class);
        assert(s.drop_first().skip(a) =~= s.skip(a + 1));
        assert forall|j: int| 0 <= j < a + 1 implies in_class(class, #[trigger] s[j]) by {
            if j > 0 {
                assert(s[j] == s.drop_first()[j - 1]);
            }
        }
        a + 1
    } else {
        assert(s.skip(0) =~= s);
        0
    }
}

/// Where trimming the end stops: one past the last character not in the
/// class.
pub(crate) proof fn lemma_trim_end_at(s: Seq<char>, class: CharClass) -> (b: int)
    ensures
        0 <= b <= s.len(),
        trim_end_by(s, class) == s.take(b),
        forall|j: int| b <= j < s.len() ==> in_class(class, #[trigger] s[j]),
        b > 0 ==> !in_class(class, s[b - 1]),
    decreases s.len(),
{
    if s.len() > 0 && in_class(class, s.last()) {
        let b = lemma_trim_end_at(s.drop_last(), class);
        assert(s.drop_last().take(b) =~= s.take(b));
        assert forall|j: int| b <= j < s.len() implies in_class(class, #[trigger] s[j]) by {
            if j < s.len() - 1 {
                assert(s[j] == s.drop_last()[j]);
            }
        }
        b
    } else {
        assert(s.take(s.len() as int) =~= s);
        s.len() as int
    }
}

/// Trimming removes characters of the class from the two ends and nothing
/// else: the result is a contiguous part of `s`, everything cut off is in
/// the class, and the result neither starts nor ends with such a character.
pub proof fn lemma_trim_by(s: Seq<char>, class: CharClass)
    ensures
        exists|a: int, b: int|
            {
                &&& 0 <= a <= b <= s.len()
                &&& trim_by(s, class) == s.subrange(a, b)
                &&& forall|j: int| 0 <= j < a ==> in_class(class, #[trigger] s[j])
                &&& forall|j: int| b <= j < s.len() ==> in_class(class, #[trigger] s[j])
            },
        trim_by(s, class).len() > 0 ==> !in_class(class, trim_by(s, class)[0]) && !in_class(
            class,
            trim_by(s, class).last(),
        ),
{
    let a = lemma_trim_start_at(s, class);
    let t = s.skip(a);
    let b = lemma_trim_end_at(t, class);
    assert(trim_by(s, class) == t.take(b));
    assert(t.take(b) =~= s.subrange(a, a + b));
    assert forall|j: int| a + b <= j < s.len() implies in_class(class, #[trigger] s[j]) by {
        assert(s[j] == t[j - a]);
    }
    if b > 0 {
        assert(t[0] == s[a]);
        assert(t.take(b)[0] == t[0]);
        assert(t.take(b).last() == t[b - 1]);
    }
}

/// A copy of `s[lo..hi]`.
pub fn copy_range(s: &[char], lo: usize, hi: usize) -> (r: Vec<char>)
    requires
        lo <= hi <= s@.len(),
    ensures
        r@ == s@.subrange(lo as int, hi as int),
{
    let mut r: Vec<char> = Vec::new();
    let mut i = lo;
    while i < hi
        invariant
            lo <= i <= hi,
            hi <= s@.len(),
            r@ =~= s@.subrange(lo as int, i as int),
        decreases hi - i,
    {
        r.push(s[i]);
        i = i + 1;
    }
    r
}

/// Bounds `(lo, hi)` of `s` without its leading and trailing `class` characters.
pub fn trim_bounds(s: &[char], class: CharClass) -> (b: (usize, usize))
    ensures
        b.0 <= b.1 <= s@.len(),
        s@.subrange(b.0 as int, b.1 as int) == trim_by(s@, class),
{
    let n = s.len();
    let mut lo: usize = 0;
    while lo < n && class_contains(class, s[lo])
        invariant
            lo <= n,
            n == s@.len(),
            forall|j: int| 0 <= j < lo ==> in_class(class, #[trigger] s@[j]),
        decreases n - lo,
    {
        lo = lo + 1;
    }
    proof {
        lemma_trim_start_skip(s@, class, lo as int);
    }
    let ghost rest = s@.skip(lo as int);
    let mut hi: usize = n;
    while hi > lo && class_contains(class, s[hi - 1])
        invariant
            lo <= hi <= n,
            n == s@.len(),
            rest == s@.skip(lo as int),
            forall|j: int| hi <= j < n ==> in_class(class, #[trigger] s@[j]),
        decreases hi - lo,
    {
        hi = hi - 1;
    }
    proof {
        assert forall|j: int| hi - lo <= j < rest.len() implies in_class(class, #[trigger] rest[j]) by {
            assert(rest[j] == s@[lo + j]);
        }
        lemma_trim_end_take(rest, class, hi - lo);
        assert(rest.take(hi - lo) =~= s@.subrange(lo as int, hi as int));
        if lo < n {
            assert(rest[0] == s@[lo as int]);
        }
        assert(trim_start_by(rest, class) == rest);
    }
    (lo, hi)
}

/// `s` without its leading and trailing `class` characters.
pub fn trim_chars(s: &[char], class: CharClass) -> (r: Vec<char>)
    ensures
        r@ == trim_by(s@, class),
{
    let (lo, hi) = trim_bounds(s, class);
    copy_range(s, lo, hi)
}

/// `s` without its trailing `class` characters.
pub fn trim_end_chars(s: &[char], class: CharClass) -> (r: Vec<char>)
    ensures
        r@ == trim_end_by(s@, class),
{
    let n = s.len();
    let mut hi: usize = n;
    while hi > 0 && class_contains(class, s[hi - 1])
        invariant
            hi <= n,
            n == s@.len(),
            forall|j: int| hi <= j < n ==> in_class(class, #[trigger] s@[j]),
        decreases hi,
    {
        hi = hi - 1;
    }
    proof {
        lemma_trim_end_take(s@, class, hi as int);
        assert(s@.take(hi as int) =~= s@.subrange(0, hi as int));
    }
    copy_range(s, 0, hi)
}

// ---------------------------------------------------------------------------
// Searching and splitting
// ---------------------------------------------------------------------------

/// Index of the first `c` in `s`, or `s.len()` when there is none.
pub open spec fn index_of(s: Seq<char>, c: char) -> int
    decreases s.len(),
{
    if s.len() == 0 {
        0
    } else if s[0] == c {
        0
    } else {
        1 + index_of(s.drop_first(), c)
    }
}

pub proof fn lemma_index_of_bounds(s: Seq<char>, c: char)
    ensures
        0 <= index_of(s, c) <= s.len(),
    decreases s.len(),
{
    if s.len() > 0 && s[0] != c {
        lemma_index_of_bounds(s.drop_first(), c);
    }
}

pub proof fn lemma_index_of(s: Seq<char>, c: char, k: int)
    requires
        0 <= k <= s.len(),
        forall|j: int| 0 <= j < k ==> #[trigger] s[j] != c,
        k < s.len() ==> s[k] == c,
    ensures
        index_of(s, c) == k,
    decreases k,
{
    if k > 0 {
        lemma_index_of(s.drop_first(), c, k - 1);
    }
}

/// The first position at or after `from` that holds `c`, or `s.len()`.
pub fn find_char(s: &[char], from: usize, c: char) -> (k: usize)
    requires
        from <= s@.len(),
    ensures
        from <= k <= s@.len(),
        forall|j: int| from <= j < k ==> #[trigger] s@[j] != c,
        k < s@.len() ==> s@[k as int] == c,
        index_of(s@.skip(from as int), c) == k - from,
{
    let mut k = from;
    while k < s.len() && s[k] != c
        invariant
            from <= k <= s@.len(),
            forall|j: int| from <= j < k ==> #[trigger] s@[j] != c,
        decreases s@.len() - k,
    {
        k = k + 1;
    }
    proof {
        let t = s@.skip(from as int);
        assert forall|j: int| 0 <= j < k - from implies #[trigger] t[j] != c by {
            assert(t[j] == s@[from + j]);
        }
        lemma_index_of(t, c, k - from);
    }
    k
}

/// `(before, after)` around the first `c` (`str::split_once`).
pub open spec fn split_once(s: Seq<char>, c: char) -> Option<(Seq<char>, Seq<char>)> {
    let k = index_of(s, c);
    if k >= s.len() {
        None
    } else {
        Some((s.take(k), s.skip(k + 1)))
    }
}

/// Splits `s` around its first `c`.
pub fn split_once_chars(s: &[char], c: char) -> (r: Option<(Vec<char>, Vec<char>)>)
    ensures
        match r {
            Some((a, b)) => split_once(s@, c) == Some((a@, b@)),
            None => split_once(s@, c) is None,
        },
{
    let k = find_char(s, 0, c);
    assert(s@.skip(0) =~= s@);
    if k >= s.len() {
        None
    } else {
        let a = copy_range(s, 0, k);
        let b = copy_range(s, k + 1, s.len());
        assert(a@ =~= s@.take(k as int));
        assert(b@ =~= s@.skip(k + 1));
        Some((a, b))
    }
}

/// The pieces of `s` between occurrences of `c` (`str::split`): at least one.
pub open spec fn split(s: Seq<char>, c: char) -> Seq<Seq<char>>
    decreases s.len(),
{
    let k = index_of(s, c);
    if k >= s.len() {
        seq![s]
    } else {
        proof {
            lemma_index_of_bounds(s, c);
        }
        seq![s.take(k)] + split(s.skip(k + 1), c)
    }
}

pub open spec fn views(v: Seq<Vec<char>>) -> Seq<Seq<char>> {
    v.map_values(|x: Vec<char>| x@)
}

/// Splits `s` at every `c`.
pub fn split_chars(s: &[char], c: char) -> (r: Vec<Vec<char>>)
    ensures
        views(r@) == split(s@, c),
{
    let mut pieces: Vec<Vec<char>> = Vec::new();
    let mut pos: usize = 0;
    assert(s@.skip(0) =~= s@);
    assert(views(pieces@) + split(s@, c) =~= split(s@, c));
    loop
        invariant
            pos <= s@.len(),
            split(s@, c) == views(pieces@) + split(s@.skip(pos as int), c),
        decreases s@.len() - pos,
    {
        let k = find_char(s, pos, c);
        let piece = copy_range(s, pos, k);
        let ghost rest = s@.skip(pos as int);
        assert(piece@ =~= rest.take(k - pos));
        if k >= s.len() {
            assert(rest.take(k - pos) =~= rest);
            pieces.push(piece);
            assert(views(pieces@) =~= views(pieces@.drop_last()) + seq![rest]);
            assert(split(s@, c) =~= views(pieces@));
            return pieces;
        }
        assert(rest.skip(k - pos + 1) =~= s@.skip(k + 1));
        pieces.push(piece);
        assert(views(pieces@) =~= views(pieces@.drop_last()) + seq![rest.take(k - pos)]);
        pos = k + 1;
    }
}

/// `line` without one trailing carriage return.
pub open spec fn strip_cr(line: Seq<char>) -> Seq<char> {
    if line.len() > 0 && line.last() == '\r' {
        line.drop_last()
    } else {
        line
    }
}

/// The lines of `s` (`str::lines`): split after each `\n`, the `\n` and one
/// `\r` before it removed; no empty last line after a final `\n`.
pub open spec fn lines(s: Seq<char>) -> Seq<Seq<char>>
    decreases s.len(),
{
    if s.len() == 0 {
        Seq::empty()
    } else {
        let k = index_of(s, '\n');
        if k >= s.len() {
            seq![s]
        } else {
            proof {
                lemma_index_of_bounds(s, '\n');
            }
            seq![strip_cr(s.take(k))] + lines(s.skip(k + 1))
        }
    }
}

/// Splits `s` into its lines.
pub fn split_lines(s: &[char]) -> (r: Vec<Vec<char>>)
    ensures
        views(r@) == lines(s@),
{
    let mut out: Vec<Vec<char>> = Vec::new();
    let mut pos: usize = 0;
    assert(s@.skip(0) =~= s@);
    assert(views(out@) + lines(s@) =~= lines(s@));
    while pos < s.len()
        invariant
            pos <= s@.len(),
            lines(s@) == views(out@) + lines(s@.skip(pos as int)),
        decreases s@.len() - pos,
    {
        let k = find_char(s, pos, '\n');
        let ghost rest = s@.skip(pos as int);
        if k >= s.len() {
            let piece = copy_range(s, pos, k);
            assert(piece@ =~= rest);
            out.push(piece);
            assert(views(out@) =~= views(out@.drop_last()) + seq![rest]);
            assert(s@.skip(k as int) =~= Seq::<char>::empty());
            pos = k;
        } else {
            let hi = if k > pos && s[k - 1] == '\r' {
                k - 1
            } else {
                k
            };
            let piece = copy_range(s, pos, hi);
            assert(piece@ =~= strip_cr(rest.take(k - pos)));
            assert(rest.skip(k - pos + 1) =~= s@.skip(k + 1));
            out.push(piece);
            assert(views(out@) =~= views(out@.drop_last()) + seq![strip_cr(rest.take(k - pos))]);
            pos = k + 1;
        }
    }
    assert(s@.skip(pos as int) =~= Seq::<char>::empty());
    assert(views(out@) + Seq::<Seq<char>>::empty() =~= views(out@));
    out
}

// ---------------------------------------------------------------------------
// Prefixes and suffixes
// ---------------------------------------------------------------------------

pub open spec fn starts_with(s: Seq<char>, p: Seq<char>) -> bool {
    p.len() <= s.len() && s.take(p.len() as int) == p
}

pub open spec fn ends_with(s: Seq<char>, p: Seq<char>) -> bool {
    p.len() <= s.len() && s.skip(s.len() - p.len()) == p
}

/// `s` without the prefix `p`, if it has it (`str::strip_prefix`).
pub open spec fn strip_prefix(s: Seq<char>, p: Seq<char>) -> Option<Seq<char>> {
    if starts_with(s, p) {
        Some(s.skip(p.len() as int))
    } else {
        None
    }
}

/// `s` with the prefix `p` removed as many times as it repeats
/// (`str::trim_start_matches`).
pub open spec fn trim_start_matches(s: Seq<char>, p: Seq<char>) -> Seq<char>
    decreases s.len(),
{
    if p.len() > 0 && starts_with(s, p) {
        trim_start_matches(s.skip(p.len() as int), p)
    } else {
        s
    }
}

/// Tests whether `s[at..]` starts with `p`.
pub fn has_prefix_at(s: &[char], at: usize, p: &[char]) -> (r: bool)
    requires
        at <= s@.len(),
    ensures
        r == starts_with(s@.skip(at as int), p@),
{
    let ghost t = s@.skip(at as int);
    if p.len() > s.len() - at {
        return false;
    }
    assert(s@.len() == s.len());
    let mut i: usize = 0;
    while i < p.len()
        invariant
            i <= p@.len(),
            at <= s@.len(),
            s@.len() <= usize::MAX,
            p@.len() <= s@.len() - at,
            t == s@.skip(at as int),
            forall|j: int| 0 <= j < i ==> t[j] == p@[j],
        decreases p@.len() - i,
    {
        if s[at + i] != p[i] {
            assert(t.take(p@.len() as int)[i as int] != p@[i as int]);
            return false;
        }
        i = i + 1;
    }
    assert(t.take(p@.len() as int) =~= p@);
    true
}

/// Tests whether `s` starts with `p`.
pub fn starts_with_chars(s: &[char], p: &[char]) -> (r: bool)
    ensures
        r == starts_with(s@, p@),
{
    assert(s@.skip(0) =~= s@);
    has_prefix_at(s, 0, p)
}

/// Tests whether `s` ends with `p`.
pub fn ends_with_chars(s: &[char], p: &[char]) -> (r: bool)
    ensures
        r == ends_with(s@, p@),
{
    if p.len() > s.len() {
        return false;
    }
    let at = s.len() - p.len();
    let r = has_prefix_at(s, at, p);
    assert(s@.skip(at as int).take(p@.len() as int) =~= s@.skip(at as int));
    r
}

/// `s` without the prefix `p`, if it has it.
pub fn strip_prefix_chars(s: &[char], p: &[char]) -> (r: Option<Vec<char>>)
    ensures
        match r {
            Some(t) => strip_prefix(s@, p@) == Some(t@),
            None => strip_prefix(s@, p@) is None,
        },
{
    if starts_with_chars(s, p) {
        let t = copy_range(s, p.len(), s.len());
        assert(t@ =~= s@.skip(p@.len() as int));
        Some(t)
    } else {
        None
    }
}

/// `s` with the prefix `p` removed as many times as it repeats.
pub fn trim_start_matches_chars(s: &[char], p: &[char]) -> (r: Vec<char>)
    ensures
        r@ == trim_start_matches(s@, p@),
{
    if p.len() == 0 {
        return copy_range(s, 0, s.len());
    }
    let mut at: usize = 0;
    assert(s@.skip(0) =~= s@);
    assert(s@.len() == s.len());
    while has_prefix_at(s, at, p)
        invariant
            at <= s@.len(),
            s@.len() <= usize::MAX,
            p@.len() > 0,
            trim_start_matches(s@, p@) == trim_start_matches(s@.skip(at as int), p@),
        decreases s@.len() - at,
    {
        assert(s@.skip(at as int).len() == s@.len() - at);
        assert(s@.skip(at as int).skip(p@.len() as int) =~= s@.skip(at + p@.len()));
        at = at + p.len();
    }
    let r = copy_range(s, at, s.len());
    assert(r@ =~= s@.skip(at as int));
    r
}

// ---------------------------------------------------------------------------
// Conversions between `str`, `String` and characters
// ---------------------------------------------------------------------------

/// The characters of a string slice.
pub fn chars_of(s: &str) -> (r: Vec<char>)
    ensures
        r@ == s@,
{
    let n = s.unicode_len();
    let mut r: Vec<char> = Vec::new();
    let mut i: usize = 0;
    while i < n
        invariant
            n == s@.len(),
            i <= n,
            r@ =~= s@.take(i as int),
        decreases n - i,
    {
        r.push(s.get_char(i));
        i = i + 1;
    }
    assert(s@.take(n as int) =~= s@);
    r
}

/// Appends one character to a `String` (`String::push`).
#[verifier::external_body]
fn push_char(s: &mut String, c: char)
    ensures
        final(s)@ == old(s)@.push(c),
{
    s.push(c);
}

/// A `String` made of the given characters.
pub fn string_of(cs: &[char]) -> (s: String)
    ensures
        s@ == cs@,
{
    let mut s = String::new();
    let mut i: usize = 0;
    while i < cs.len()
        invariant
            i <= cs@.len(),
            s@ =~= cs@.take(i as int),
        decreases cs@.len() - i,
    {
        push_char(&mut s, cs[i]);
        i = i + 1;
    }
    assert(cs@.take(cs@.len() as int) =~= cs@);
    s
}

/// Appends characters to a `String`.
pub fn push_chars(s: &mut String, cs: &[char])
    ensures
        final(s)@ == old(s)@ + cs@,
{
    let mut i: usize = 0;
    while i < cs.len()
        invariant
            i <= cs@.len(),
            s@ =~= old(s)@ + cs@.take(i as int),
        decreases cs@.len() - i,
    {
        push_char(s, cs[i]);
        i = i + 1;
    }
    assert(cs@.take(cs@.len() as int) =~= cs@);
}

/// Names the text that `String::from_utf8_lossy` decodes from bytes.
pub uninterp spec fn utf8_lossy(bytes: Seq<u8>) -> Seq<char>;

/// `String::from_utf8_lossy`: decodes bytes as UTF-8, each invalid sequence
/// replaced by U+FFFD. The contract names the result and states what the
/// documentation promises of valid input: it decodes unchanged.
#[verifier::external_body]
pub(crate) fn decode_utf8_lossy(bytes: &[u8]) -> (s: String)
    ensures
        s@ == utf8_lossy(bytes@),
        vstd::utf8::valid_utf8(bytes@) ==> s@ == vstd::utf8::decode_utf8(bytes@),
{
    String::from_utf8_lossy(bytes).into_owned()
}

/// Appends a string slice to a `String`.
pub fn push_str(s: &mut String, t: &str)
    ensures
        final(s)@ == old(s)@ + t@,
{
    let cs = chars_of(t);
    push_chars(s, cs.as_slice());
}

/// Tests whether characters spell a given text.
pub fn chars_equal(s: &[char], t: &str) -> (r: bool)
    ensures
        r == (s@ == t@),
{
    let tc = chars_of(t);
    if s.len() != tc.len() {
        return false;
    }
    let mut i: usize = 0;
    while i < s.len()
        invariant
            i <= s@.len(),
            s@.len() == tc@.len(),
            tc@ == t@,
            forall|j: int| 0 <= j < i ==> s@[j] == tc@[j],
        decreases s@.len() - i,
    {
        if s[i] != tc[i] {
            assert(s@[i as int] != t@[i as int]);
            return false;
        }
        i = i + 1;
    }
    assert(s@ =~= tc@);
    true
}

} // verus!
