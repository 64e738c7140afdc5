use vstd::prelude::*;
use vstd::slice::slice_subrange;

verus! {

/// Unicode `White_Space`: the characters that `char::is_whitespace`, `str::trim`
/// and the `\s` class of a Unicode regular expression treat as blank.
pub open spec fn is_white_space(c: char) -> bool {
    ||| ('\t' <= c && c <= '\r')
    ||| c == ' '
    ||| c == '\u{85}'
    ||| c == '\u{a0}'
    ||| c == '\u{1680}'
    ||| ('\u{2000}' <= c && c <= '\u{200a}')
    ||| ('\u{2028}' <= c && c <= '\u{2029}')
    ||| c == '\u{202f}'
    ||| c == '\u{205f}'
    ||| c == '\u{3000}'
}

/// Unicode general category `Nd` (decimal digit), as of Unicode 16: the
/// `\d` class of a Unicode regular expression.
pub open spec fn is_decimal_digit(c: char) -> bool {
    let v = c as u32;
    (0x30 <= v && v <= 0x39) ||
        (0x660 <= v && v <= 0x669) ||
        (0x6f0 <= v && v <= 0x6f9) ||
        (0x7c0 <= v && v <= 0x7c9) ||
        (0x966 <= v && v <= 0x96f) ||
        (0x9e6 <= v && v <= 0x9ef) ||
        (0xa66 <= v && v <= 0xa6f) ||
        (0xae6 <= v && v <= 0xaef) ||
        (0xb66 <= v && v <= 0xb6f) ||
        (0xbe6 <= v && v <= 0xbef) ||
        (0xc66 <= v && v <= 0xc6f) ||
        (0xce6 <= v && v <= 0xcef) ||
        (0xd66 <= v && v <= 0xd6f) ||
        (0xde6 <= v && v <= 0xdef) ||
        (0xe50 <= v && v <= 0xe59) ||
        (0xed0 <= v && v <= 0xed9) ||
        (0xf20 <= v && v <= 0xf29) ||
        (0x1040 <= v && v <= 0x1049) ||
        (0x1090 <= v && v <= 0x1099) ||
        (0x17e0 <= v && v <= 0x17e9) ||
        (0x1810 <= v && v <= 0x1819) ||
        (0x1946 <= v && v <= 0x194f) ||
        (0x19d0 <= v && v <= 0x19d9) ||
        (0x1a80 <= v && v <= 0x1a89) ||
        (0x1a90 <= v && v <= 0x1a99) ||
        (0x1b50 <= v && v <= 0x1b59) ||
        (0x1bb0 <= v && v <= 0x1bb9) ||
        (0x1c40 <= v && v <= 0x1c49) ||
        (0x1c50 <= v && v <= 0x1c59) ||
        (0xa620 <= v && v <= 0xa629) ||
        (0xa8d0 <= v && v <= 0xa8d9) ||
        (0xa900 <= v && v <= 0xa909) ||
        (0xa9d0 <= v && v <= 0xa9d9) ||
        (0xa9f0 <= v && v <= 0xa9f9) ||
        (0xaa50 <= v && v <= 0xaa59) ||
        (0xabf0 <= v && v <= 0xabf9) ||
        (0xff10 <= v && v <= 0xff19) ||
        (0x104a0 <= v && v <= 0x104a9) ||
        (0x10d30 <= v && v <= 0x10d39) ||
        (0x10d40 <= v && v <= 0x10d49) ||
        (0x11066 <= v && v <= 0x1106f) ||
        (0x110f0 <= v && v <= 0x110f9) ||
        (0x11136 <= v && v <= 0x1113f) ||
        (0x111d0 <= v && v <= 0x111d9) ||
        (0x112f0 <= v && v <= 0x112f9) ||
        (0x11450 <= v && v <= 0x11459) ||
        (0x114d0 <= v && v <= 0x114d9) ||
        (0x11650 <= v && v <= 0x11659) ||
        (0x116c0 <= v && v <= 0x116c9) ||
        (0x116d0 <= v && v <= 0x116e3) ||
        (0x11730 <= v && v <= 0x11739) ||
        (0x118e0 <= v && v <= 0x118e9) ||
        (0x11950 <= v && v <= 0x11959) ||
        (0x11bf0 <= v && v <= 0x11bf9) ||
        (0x11c50 <= v && v <= 0x11c59) ||
        (0x11d50 <= v && v <= 0x11d59) ||
        (0x11da0 <= v && v <= 0x11da9) ||
        (0x11f50 <= v && v <= 0x11f59) ||
        (0x16130 <= v && v <= 0x16139) ||
        (0x16a60 <= v && v <= 0x16a69) ||
        (0x16ac0 <= v && v <= 0x16ac9) ||
        (0x16b50 <= v && v <= 0x16b59) ||
        (0x16d70 <= v && v <= 0x16d79) ||
        (0x1ccf0 <= v && v <= 0x1ccf9) ||
        (0x1d7ce <= v && v <= 0x1d7ff) ||
        (0x1e140 <= v && v <= 0x1e149) ||
        (0x1e2f0 <= v && v <= 0x1e2f9) ||
        (0x1e4f0 <= v && v <= 0x1e4f9) ||
        (0x1e5f1 <= v && v <= 0x1e5fa) ||
        (0x1e950 <= v && v <= 0x1e959) ||
        (0x1fbf0 <= v && v <= 0x1fbf9)
}

/// Whether `c` is Unicode white space.
pub fn white_space(c: char) -> (r: bool)
    ensures
        r == is_white_space(c),
{
    ('\t' <= c && c <= '\r') || c == ' ' || c == '\u{85}' || c == '\u{a0}' || c == '\u{1680}'
        || ('\u{2000}' <= c && c <= '\u{200a}') || ('\u{2028}' <= c && c <= '\u{2029}')
        || c == '\u{202f}' || c == '\u{205f}' || c == '\u{3000}'
}

/// Whether `c` is a Unicode decimal digit.
pub fn decimal_digit(c: char) -> (r: bool)
    ensures
        r == is_decimal_digit(c),
{
    let v = c as u32;
    (0x30 <= v && v <= 0x39) ||
        (0x660 <= v && v <= 0x669) ||
        (0x6f0 <= v && v <= 0x6f9) ||
        (0x7c0 <= v && v <= 0x7c9) ||
        (0x966 <= v && v <= 0x96f) ||
        (0x9e6 <= v && v <= 0x9ef) ||
        (0xa66 <= v && v <= 0xa6f) ||
        (0xae6 <= v && v <= 0xaef) ||
        (0xb66 <= v && v <= 0xb6f) ||
        (0xbe6 <= v && v <= 0xbef) ||
        (0xc66 <= v && v <= 0xc6f) ||
        (0xce6 <= v && v <= 0xcef) ||
        (0xd66 <= v && v <= 0xd6f) ||
        (0xde6 <= v && v <= 0xdef) ||
        (0xe50 <= v && v <= 0xe59) ||
        (0xed0 <= v && v <= 0xed9) ||
        (0xf20 <= v && v <= 0xf29) ||
        (0x1040 <= v && v <= 0x1049) ||
        (0x1090 <= v && v <= 0x1099) ||
        (0x17e0 <= v && v <= 0x17e9) ||
        (0x1810 <= v && v <= 0x1819) ||
        (0x1946 <= v && v <= 0x194f) ||
        (0x19d0 <= v && v <= 0x19d9) ||
        (0x1a80 <= v && v <= 0x1a89) ||
        (0x1a90 <= v && v <= 0x1a99) ||
        (0x1b50 <= v && v <= 0x1b59) ||
        (0x1bb0 <= v && v <= 0x1bb9) ||
        (0x1c40 <= v && v <= 0x1c49) ||
        (0x1c50 <= v && v <= 0x1c59) ||
        (0xa620 <= v && v <= 0xa629) ||
        (0xa8d0 <= v && v <= 0xa8d9) ||
        (0xa900 <= v && v <= 0xa909) ||
        (0xa9d0 <= v && v <= 0xa9d9) ||
        (0xa9f0 <= v && v <= 0xa9f9) ||
        (0xaa50 <= v && v <= 0xaa59) ||
        (0xabf0 <= v && v <= 0xabf9) ||
        (0xff10 <= v && v <= 0xff19) ||
        (0x104a0 <= v && v <= 0x104a9) ||
        (0x10d30 <= v && v <= 0x10d39) ||
        (0x10d40 <= v && v <= 0x10d49) ||
        (0x11066 <= v && v <= 0x1106f) ||
        (0x110f0 <= v && v <= 0x110f9) ||
        (0x11136 <= v && v <= 0x1113f) ||
        (0x111d0 <= v && v <= 0x111d9) ||
        (0x112f0 <= v && v <= 0x112f9) ||
        (0x11450 <= v && v <= 0x11459) ||
        (0x114d0 <= v && v <= 0x114d9) ||
        (0x11650 <= v && v <= 0x11659) ||
        (0x116c0 <= v && v <= 0x116c9) ||
        (0x116d0 <= v && v <= 0x116e3) ||
        (0x11730 <= v && v <= 0x11739) ||
        (0x118e0 <= v && v <= 0x118e9) ||
        (0x11950 <= v && v <= 0x11959) ||
        (0x11bf0 <= v && v <= 0x11bf9) ||
        (0x11c50 <= v && v <= 0x11c59) ||
        (0x11d50 <= v && v <= 0x11d59) ||
        (0x11da0 <= v && v <= 0x11da9) ||
        (0x11f50 <= v && v <= 0x11f59) ||
        (0x16130 <= v && v <= 0x16139) ||
        (0x16a60 <= v && v <= 0x16a69) ||
        (0x16ac0 <= v && v <= 0x16ac9) ||
        (0x16b50 <= v && v <= 0x16b59) ||
        (0x16d70 <= v && v <= 0x16d79) ||
        (0x1ccf0 <= v && v <= 0x1ccf9) ||
        (0x1d7ce <= v && v <= 0x1d7ff) ||
        (0x1e140 <= v && v <= 0x1e149) ||
        (0x1e2f0 <= v && v <= 0x1e2f9) ||
        (0x1e4f0 <= v && v <= 0x1e4f9) ||
        (0x1e5f1 <= v && v <= 0x1e5fa) ||
        (0x1e950 <= v && v <= 0x1e959) ||
        (0x1fbf0 <= v && v <= 0x1fbf9)
}

/// First index `k >= i` with `s[k] == x`, or `s.len()` when there is none.
pub open spec fn next_index_of<T>(s: Seq<T>, x: T, i: int) -> int
    decreases s.len() - i,
{
    if i < 0 || i >= s.len() {
        if i < 0 { 0 } else { s.len() as int }
    } else if s[i] == x {
        i
    } else {
        next_index_of(s, x, i + 1)
    }
}

/// `next_index_of` finds the first occurrence at or after `i`.
pub proof fn lemma_next_index_of<T>(s: Seq<T>, x: T, i: int)
    requires
        0 <= i <= s.len(),
    ensures
        i <= next_index_of(s, x, i) <= s.len(),
        next_index_of(s, x, i) < s.len() ==> s[next_index_of(s, x, i)] == x,
        forall|k: int| i <= k < next_index_of(s, x, i) ==> s[k] != x,
    decreases s.len() - i,
{
    if i < s.len() && s[i] != x {
        lemma_next_index_of(s, x, i + 1);
    }
}

/// The characters of `s`, in order.
pub fn chars_of(s: &str) -> (v: Vec<char>)
    ensures
        v@ == s@,
{
    let mut v: Vec<char> = Vec::new();
    for c in it: s.chars()
        invariant
            it.seq() == s@,
            v@ == it.seq().take(it.index()),
    {
        v.push(c);
    }
    v
}

/// Index of the first `c` at or after `from` in `s`, or `s.len()`.
pub fn find_char(s: &[char], c: char, from: usize) -> (r: usize)
    requires
        from <= s@.len(),
    ensures
        r == next_index_of(s@, c, from as int),
{
    let mut i = from;
    while i < s.len()
        invariant
            from <= i <= s@.len(),
            next_index_of(s@, c, from as int) == next_index_of(s@, c, i as int),
        decreases s@.len() - i,
    {
        if s[i] == c {
            return i;
        }
        i = i + 1;
    }
    i
}

/// Index of the first byte `b` at or after `from` in `s`, or `s.len()`.
pub fn find_byte(s: &[u8], b: u8, from: usize) -> (r: usize)
    requires
        from <= s@.len(),
    ensures
        r == next_index_of(s@, b, from as int),
{
    let mut i = from;
    while i < s.len()
        invariant
            from <= i <= s@.len(),
            next_index_of(s@, b, from as int) == next_index_of(s@, b, i as int),
        decreases s@.len() - i,
    {
        if s[i] == b {
            return i;
        }
        i = i + 1;
    }
    i
}

/// `String::push`.
#[verifier::external_body]
fn push_char(s: &mut String, c: char)
    ensures
        final(s)@ == old(s)@.push(c),
{
    s.push(c);
}

/// Appends the characters of `cs` to `out`.
pub fn push_chars(out: &mut String, cs: &[char])
    ensures
        final(out)@ == old(out)@ + cs@,
{
    let mut i: usize = 0;
    while i < cs.len()
        invariant
            i <= cs@.len(),
            out@ == old(out)@ + cs@.take(i as int),
        decreases cs@.len() - i,
    {
        push_char(out, cs[i]);
        assert(cs@.take(i + 1) =~= cs@.take(i as int).push(cs@[i as int]));
        i = i + 1;
    }
    assert(cs@.take(cs@.len() as int) =~= cs@);
}

/// A new `String` holding the characters of `cs`.
pub fn string_of(cs: &[char]) -> (s: String)
    ensures
        s@ == cs@,
{
    let mut s = String::new();
    push_chars(&mut s, cs);
    s
}

/// A new `String` holding `s[lo..hi]`.
pub fn string_of_range(s: &[char], lo: usize, hi: usize) -> (r: String)
    requires
        lo <= hi <= s@.len(),
    ensures
        r@ == s@.subrange(lo as int, hi as int),
{
    string_of(slice_subrange(s, lo, hi))
}

/// Whether `s[lo..hi]` is exactly the text `lit`.
pub fn range_is(s: &[char], lo: usize, hi: usize, lit: &str) -> (r: bool)
    requires
        lo <= hi <= s@.len(),
    ensures
        r == (s@.subrange(lo as int, hi as int) == lit@),
{
    let l = chars_of(lit);
    if hi - lo != l.len() {
        return false;
    }
    let mut i: usize = 0;
    while i < l.len()
        invariant
            l@ == lit@,
            hi - lo == l@.len(),
            lo <= hi <= s@.len(),
            i <= l@.len(),
            forall|k: int| 0 <= k < i ==> s@[lo + k] == l@[k],
        decreases l@.len() - i,
    {
        if s[lo + i] != l[i] {
            assert(s@.subrange(lo as int, hi as int)[i as int] != lit@[i as int]);
            return false;
        }
        i = i + 1;
    }
    assert(s@.subrange(lo as int, hi as int) =~= lit@);
    true
}

/// Whether the whole of `s` is exactly the text `lit`.
pub fn chars_are(s: &[char], lit: &str) -> (r: bool)
    ensures
        r == (s@ == lit@),
{
    let r = range_is(s, 0, s.len(), lit);
    assert(s@.subrange(0, s@.len() as int) =~= s@);
    r
}


/// `s` with every `from` replaced by the text `to`.
pub open spec fn replace_char(s: Seq<char>, from: char, to: Seq<char>) -> Seq<char>
    decreases s.len(),
{
    if s.len() == 0 {
        Seq::empty()
    } else {
        replace_char(s.drop_last(), from, to) + if s.last() == from {
            to
        } else {
            seq![s.last()]
        }
    }
}

/// Replacing `from` leaves a text without `from` as it is, leaves no `from`
/// behind when `to` holds none, and keeps every other character in order:
/// the result is `s` with each `from` taken out and `to` put in its place.
pub proof fn lemma_replace_char(s: Seq<char>, from: char, to: Seq<char>)
    ensures
        !s.contains(from) ==> replace_char(s, from, to) == s,
        !to.contains(from) ==> !replace_char(s, from, to).contains(from),
        replace_char(s, from, to).len() == s.len() + s.filter(|c: char| c == from).len() * (
        to.len() - 1),
    decreases s.len(),
{
    reveal(Seq::filter);
    if s.len() > 0 {
        let t = s.drop_last();
        lemma_replace_char(t, from, to);
        if !s.contains(from) {
            assert(!t.contains(from)) by {
                if t.contains(from) {
                    let k = choose|k: int| 0 <= k < t.len() && t[k] == from;
                    assert(s[k] == from);
                }
            }
            assert(s.last() != from) by {
                assert(s[s.len() - 1] == s.last());
            }
            assert(t + seq![s.last()] =~= s);
        }
        if !to.contains(from) {
            let r = replace_char(s, from, to);
            let rt = replace_char(t, from, to);
            let tail = if s.last() == from { to } else { seq![s.last()] };
            assert(r == rt + tail);
            assert forall|k: int| 0 <= k < r.len() implies r[k] != from by {
                if k < rt.len() {
                    assert(r[k] == rt[k]);
                    if rt[k] == from {
                        assert(rt.contains(from));
                    }
                } else {
                    assert(r[k] == tail[k - rt.len()]);
                    if s.last() == from && tail[k - rt.len()] == from {
                        assert(to.contains(from));
                    }
                }
            }
        }
        let f = |c: char| c == from;
        assert(s.filter(f).len() == t.filter(f).len() + if s.last() == from { 1int } else { 0int });
        assert(replace_char(s, from, to).len() == s.len() + s.filter(f).len() * (to.len() - 1))
            by (nonlinear_arith)
            requires
                replace_char(s, from, to).len() == replace_char(t, from, to).len() + (if s.last()
                    == from { to.len() as int } else { 1int }),
                replace_char(t, from, to).len() == t.len() + t.filter(f).len() * (to.len() - 1),
                s.filter(f).len() == t.filter(f).len() + if s.last() == from { 1int } else { 0int },
                s.len() == t.len() + 1,
        ;
    } else {
        assert(s.filter(|c: char| c == from).len() == 0);
    }
}

/// A new `String`: `s` with every `from` replaced by the characters `to`.
pub fn replaced(s: &[char], from: char, to: &[char]) -> (r: String)
    ensures
        r@ == replace_char(s@, from, to@),
{
    let mut out = String::new();
    let mut i: usize = 0;
    while i < s.len()
        invariant
            i <= s@.len(),
            out@ == replace_char(s@.take(i as int), from, to@),
        decreases s@.len() - i,
    {
        assert(s@.take(i + 1).drop_last() =~= s@.take(i as int));
        if s[i] == from {
            push_chars(&mut out, to);
        } else {
            push_char(&mut out, s[i]);
        }
        i = i + 1;
    }
    assert(s@.take(s@.len() as int) =~= s@);
    out
}


/// `s` without its leading white space.
pub open spec fn trim_start(s: Seq<char>) -> Seq<char>
    decreases s.len(),
{
    if s.len() > 0 && is_white_space(s[0]) {
        trim_start(s.drop_first())
    } else {
        s
    }
}

/// `s` without its trailing white space.
pub open spec fn trim_end(s: Seq<char>) -> Seq<char>
    decreases s.len(),
{
    if s.len() > 0 && is_white_space(s.last()) {
        trim_end(s.drop_last())
    } else {
        s
    }
}

/// `s` without leading and trailing white space, as `str::trim` gives it.
pub open spec fn trim(s: Seq<char>) -> Seq<char> {
    trim_end(trim_start(s))
}

proof fn lemma_trim_start_cut(s: Seq<char>) -> (a: int)
    ensures
        0 <= a <= s.len(),
        trim_start(s) == s.skip(a),
        forall|k: int| 0 <= k < a ==> is_white_space(#[trigger] s[k]),
        a < s.len() ==> !is_white_space(s[a]),
    decreases s.len(),
{
    if s.len() > 0 && is_white_space(s[0]) {
        let a = lemma_trim_start_cut(s.drop_first());
        assert(s.drop_first().skip(a) =~= s.skip(a + 1));
        assert forall|k: int| 0 <= k < a + 1 implies is_white_space(#[trigger] s[k]) by {
            if k > 0 {
                assert(s[k] == s.drop_first()[k - 1]);
            }
        }
        a + 1
    } else {
        assert(s.skip(0) =~= s);
        0
    }
}

proof fn lemma_trim_end_cut(s: Seq<char>) -> (b: int)
    ensures
        0 <= b <= s.len(),
        trim_end(s) == s.take(b),
        forall|k: int| b <= k < s.len() ==> is_white_space(#[trigger] s[k]),
        b > 0 ==> !is_white_space(s[b - 1]),
    decreases s.len(),
{
    if s.len() > 0 && is_white_space(s.last()) {
        let b = lemma_trim_end_cut(s.drop_last());
        assert(s.drop_last().take(b) =~= s.take(b));
        assert forall|k: int| b <= k < s.len() implies is_white_space(#[trigger] s[k]) by {
            if k < s.len() - 1 {
                assert(s[k] == s.drop_last()[k]);
            }
        }
        b
    } else {
        assert(s.take(s.len() as int) =~= s);
        s.len() as int
    }
}

/// `trim(s)` is `s` with white space cut from its two ends and nothing else:
/// `s` is some white space, then `trim(s)`, then some white space, and
/// `trim(s)` neither starts nor ends with white space.
pub proof fn lemma_trim_cuts_only_white_space(s: Seq<char>)
    ensures
        exists|a: int, b: int|
            {
                &&& 0 <= a <= b <= s.len()
                &&& #[trigger] s.subrange(a, b) == trim(s)
                &&& forall|k: int| 0 <= k < a ==> is_white_space(#[trigger] s[k])
                &&& forall|k: int| b <= k < s.len() ==> is_white_space(#[trigger] s[k])
            },
        trim(s).len() > 0 ==> !is_white_space(trim(s)[0]) && !is_white_space(trim(s).last()),
{
    let a = lemma_trim_start_cut(s);
    let t = s.skip(a);
    let b = lemma_trim_end_cut(t);
    assert(t.take(b) =~= s.subrange(a, a + b));
    assert forall|k: int| a + b <= k < s.len() implies is_white_space(#[trigger] s[k]) by {
        assert(s[k] == t[k - a]);
    }
    if trim(s).len() > 0 {
        assert(trim(s)[0] == s[a]);
        assert(trim(s).last() == t[b - 1]);
    }
    assert(s.subrange(a, a + b) == trim(s));
}

/// The bounds of `trim(s)` within `s`.
pub fn trim_bounds(s: &[char]) -> (r: (usize, usize))
    ensures
        r.0 <= r.1 <= s@.len(),
        s@.subrange(r.0 as int, r.1 as int) == trim(s@),
{
    let n = s.len();
    let mut lo: usize = 0;
    assert(s@.skip(0) =~= s@);
    while lo < n && white_space(s[lo])
        invariant
            n == s@.len(),
            lo <= n,
            trim_start(s@) == trim_start(s@.skip(lo as int)),
        decreases n - lo,
    {
        assert(s@.skip(lo as int).drop_first() =~= s@.skip(lo + 1));
        lo = lo + 1;
    }
    let mut hi: usize = n;
    assert(s@.skip(lo as int) =~= s@.subrange(lo as int, n as int));
    while hi > lo && white_space(s[hi - 1])
        invariant
            n == s@.len(),
            lo <= hi <= n,
            trim(s@) == trim_end(s@.subrange(lo as int, hi as int)),
        decreases hi - lo,
    {
        assert(s@.subrange(lo as int, hi as int).drop_last() =~= s@.subrange(lo as int, hi - 1));
        hi = hi - 1;
    }
    (lo, hi)
}

/// `s` after its first `n` characters; empty when `s` is shorter.
pub open spec fn drop_chars(s: Seq<char>, n: int) -> Seq<char> {
    if s.len() <= n {
        Seq::empty()
    } else {
        s.skip(n)
    }
}

/// The number that the ASCII digits `d` spell in decimal.
pub open spec fn decimal_value(d: Seq<char>) -> nat
    decreases d.len(),
{
    if d.len() == 0 {
        0
    } else {
        decimal_value(d.drop_last()) * 10 + (d.last() as nat - '0' as nat) as nat
    }
}

/// Every character of `d` is one of `0`..`9`.
pub open spec fn all_ascii_digits(d: Seq<char>) -> bool {
    forall|i: int| 0 <= i < d.len() ==> '0' <= #[trigger] d[i] <= '9'
}

/// The `usize` that `s` denotes as `str::parse::<usize>` reads it: an optional
/// `+` and then one or more ASCII digits, of a value that fits in `usize`.
pub open spec fn parse_usize_spec(s: Seq<char>) -> Option<usize> {
    let d = if s.len() > 1 && s[0] == '+' {
        s.drop_first()
    } else {
        s
    };
    if d.len() > 0 && all_ascii_digits(d) && decimal_value(d) <= usize::MAX {
        Some(decimal_value(d) as usize)
    } else {
        None
    }
}

proof fn lemma_decimal_value_grows(d: Seq<char>, i: int)
    requires
        0 <= i <= d.len(),
        all_ascii_digits(d),
    ensures
        decimal_value(d.take(i)) <= decimal_value(d),
    decreases d.len() - i,
{
    if i < d.len() {
        lemma_decimal_value_grows(d, i + 1);
        assert(d.take(i + 1).drop_last() =~= d.take(i));
        assert('0' <= d.take(i + 1).last() <= '9');
    } else {
        assert(d.take(i) =~= d);
    }
}

/// Reads a `usize` as `parse_usize_spec` says.
pub fn parse_usize(s: &[char]) -> (r: Option<usize>)
    ensures
        r == parse_usize_spec(s@),
{
    let n = s.len();
    let start: usize = if n > 1 && s[0] == '+' { 1 } else { 0 };
    let ghost d = if s@.len() > 1 && s@[0] == '+' { s@.drop_first() } else { s@ };
    assert(d =~= s@.skip(start as int));
    if start == n {
        return None;
    }
    let mut acc: usize = 0;
    let mut i: usize = start;
    while i < n
        invariant
            n == s@.len(),
            start <= i <= n,
            d =~= s@.skip(start as int),
            d == (if s@.len() > 1 && s@[0] == '+' { s@.drop_first() } else { s@ }),
            forall|k: int| start <= k < i ==> '0' <= #[trigger] s@[k] <= '9',
            acc == decimal_value(d.take(i - start)),
        decreases n - i,
    {
        let c = s[i];
        assert(d[i - start] == c);
        if !('0' <= c && c <= '9') {
            assert(!all_ascii_digits(d));
            return None;
        }
        let digit = (c as u32 - '0' as u32) as usize;
        assert(d.take(i + 1 - start).drop_last() =~= d.take(i - start));
        assert(d.take(i + 1 - start).last() == c);
        assert(decimal_value(d.take(i + 1 - start)) == acc * 10 + digit);
        match acc.checked_mul(10) {
            None => {
                proof {
                    assert(all_ascii_digits(d) ==> decimal_value(d) > usize::MAX) by {
                        if all_ascii_digits(d) {
                            lemma_decimal_value_grows(d, i + 1 - start);
                        }
                    }
                }
                return None;
            },
            Some(m) => match m.checked_add(digit) {
                None => {
                    proof {
                        assert(all_ascii_digits(d) ==> decimal_value(d) > usize::MAX) by {
                            if all_ascii_digits(d) {
                                lemma_decimal_value_grows(d, i + 1 - start);
                            }
                        }
                    }
                    return None;
                },
                Some(v) => {
                    acc = v;
                },
            },
        }
        i = i + 1;
    }
    assert(d.take(n - start) =~= d);
    Some(acc)
}

/// Whether the text `pat` occurs somewhere in `s`.
pub open spec fn contains_text(s: Seq<char>, pat: Seq<char>) -> bool {
    exists|i: int| 0 <= i <= s.len() - pat.len() && #[trigger] s.subrange(i, i + pat.len()) == pat
}

/// Whether the text `pat` occurs in `s`.
pub fn find_text(s: &[char], pat: &str) -> (r: bool)
    ensures
        r == contains_text(s@, pat@),
{
    let p = chars_of(pat);
    let n = s.len();
    let m = p.len();
    if m == 0 {
        assert(s@.subrange(0, 0 + pat@.len() as int) =~= pat@);
        return true;
    }
    if m > n {
        return false;
    }
    let mut i: usize = 0;
    while i <= n - m
        invariant
            p@ == pat@,
            n == s@.len(),
            m == p@.len(),
            1 <= m <= n,
            i <= n - m + 1,
            forall|k: int| 0 <= k < i ==> #[trigger] s@.subrange(k, k + m) != pat@,
        decreases n - m + 1 - i,
    {
        if range_is(s, i, i + m, pat) {
            return true;
        }
        i = i + 1;
    }
    false
}

/// The end of the line that starts at `i`, without its line break.
pub open spec fn line_text(s: Seq<char>, i: int) -> Seq<char> {
    let e = next_index_of(s, '\n', i);
    let l = s.subrange(i, e);
    if e < s.len() && l.len() > 0 && l.last() == '\r' {
        l.drop_last()
    } else {
        l
    }
}

/// The lines of `s` from index `i` on, as `str::lines` cuts them: at each
/// `\n`, dropping a `\r` right before it; a final line break ends the last
/// line and starts no new one.
pub open spec fn lines_from(s: Seq<char>, i: int) -> Seq<Seq<char>>
    decreases s.len() + 1 - i,
{
    if i < 0 || i >= s.len() {
        Seq::empty()
    } else {
        proof {
            lemma_next_index_of(s, '\n', i);
        }
        seq![line_text(s, i)] + lines_from(s, next_index_of(s, '\n', i) + 1)
    }
}

/// The lines of `s`.
pub open spec fn lines(s: Seq<char>) -> Seq<Seq<char>> {
    lines_from(s, 0)
}

} // verus!
