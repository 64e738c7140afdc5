use vstd::prelude::*;
use crate::text::{
    decimal_digit, find_char, is_decimal_digit, is_white_space, lemma_next_index_of, next_index_of,
    white_space,
};

verus! {

/// The three character classes that a record line is cut along.
#[derive(Clone, Copy, Debug, PartialEq, Eq, Structural)]
pub enum CharClass {
    Blank,
    NonBlank,
    Digit,
}

impl CharClass {
    /// Whether `c` belongs to the class.
    pub open spec fn holds(self, c: char) -> bool {
        match self {
            CharClass::Blank => is_white_space(c),
            CharClass::NonBlank => !is_white_space(c),
            CharClass::Digit => is_decimal_digit(c),
        }
    }

    /// Whether `c` belongs to the class.
    pub fn test(&self, c: char) -> (r: bool)
        ensures
            r == self.holds(c),
    {
        match self {
            CharClass::Blank => white_space(c),
            CharClass::NonBlank => !white_space(c),
            CharClass::Digit => decimal_digit(c),
        }
    }
}

/// End of the longest run of `cls` characters of `s` that starts at `i`.
pub open spec fn run_end(s: Seq<char>, i: int, cls: CharClass) -> int
    decreases s.len() - i,
{
    if 0 <= i < s.len() && cls.holds(s[i]) {
        run_end(s, i + 1, cls)
    } else {
        i
    }
}

/// A run ends at the first character outside the class, or at the end.
pub proof fn lemma_run_end(s: Seq<char>, i: int, cls: CharClass)
    requires
        0 <= i <= s.len(),
    ensures
        i <= run_end(s, i, cls) <= s.len(),
        forall|k: int| i <= k < run_end(s, i, cls) ==> cls.holds(#[trigger] s[k]),
        run_end(s, i, cls) < s.len() ==> !cls.holds(s[run_end(s, i, cls)]),
    decreases s.len() - i,
{
    if i < s.len() && cls.holds(s[i]) {
        lemma_run_end(s, i + 1, cls);
    }
}

/// Positions of the fields of a record line after its name: each pair is the
/// start and end of a field.
pub struct RecordSpans {
    pub sphinx_type: (int, int),
    pub priority: (int, int),
    pub location: (int, int),
    pub dispname: (int, int),
}

/// A record line has the shape `NAME TYPE PRIORITY LOCATION DISPNAME`, in the
/// notation of a regular expression `(.+?)\s+(\S+)\s+(-?\d+)\s+?(\S*)\s+(.*)`.
/// Given that the name ends at `e`, the rest of the line is cut without
/// choice: the blanks after the name, then the whole non-blank type, the
/// blanks, an optional `-` with the whole run of decimal digits, then:
/// if at least two blanks follow the priority, the location is empty and the
/// display name starts after all of them; if exactly one blank follows, the
/// location is the non-blank run after it, which must be followed by blanks,
/// and the display name starts after those. The display name runs to the end
/// of the line (a `\n` or the end of the text).
pub open spec fn record_tail(s: Seq<char>, e: int) -> Option<RecordSpans> {
    let b = run_end(s, e, CharClass::Blank);
    let c = run_end(s, b, CharClass::NonBlank);
    let d = run_end(s, c, CharClass::Blank);
    let g = if 0 <= d < s.len() && s[d] == '-' { d + 1 } else { d };
    let h = run_end(s, g, CharClass::Digit);
    let i = run_end(s, h, CharClass::Blank);
    if b == e || c == b || d == c || h == g || i == h {
        None
    } else if i - h >= 2 {
        Some(RecordSpans {
            sphinx_type: (b, c),
            priority: (d, h),
            location: (h + 1, h + 1),
            dispname: (i, next_index_of(s, '\n', i)),
        })
    } else {
        let j = run_end(s, i, CharClass::NonBlank);
        let k = run_end(s, j, CharClass::Blank);
        if k == j {
            None
        } else {
            Some(RecordSpans {
                sphinx_type: (b, c),
                priority: (d, h),
                location: (i, j),
                dispname: (k, next_index_of(s, '\n', k)),
            })
        }
    }
}

/// The line `s` has a record whose name is `s[st..e]`: a non-empty name that
/// holds no `\n`, followed by fields that fit the grammar.
pub open spec fn is_record_at(s: Seq<char>, st: int, e: int) -> bool {
    &&& 0 <= st < e <= s.len()
    &&& forall|k: int| st <= k < e ==> #[trigger] s[k] != '\n'
    &&& record_tail(s, e) is Some
}

/// The record that a search for the grammar reports: the one that starts
/// leftmost and, among those, has the shortest name.
pub open spec fn is_first_record(s: Seq<char>, st: int, e: int) -> bool {
    &&& is_record_at(s, st, e)
    &&& forall|st2: int, e2: int| #[trigger] is_record_at(s, st2, e2) ==> st < st2 || (st == st2 && e <= e2)
}

/// Positions of the fields of a record line, as `usize`.
pub struct FieldSpans {
    pub type_start: usize,
    pub type_end: usize,
    pub priority_start: usize,
    pub priority_end: usize,
    pub location_start: usize,
    pub location_end: usize,
    pub dispname_start: usize,
    pub dispname_end: usize,
}

impl FieldSpans {
    /// The positions as integers.
    pub open spec fn spans(self) -> RecordSpans {
        RecordSpans {
            sphinx_type: (self.type_start as int, self.type_end as int),
            priority: (self.priority_start as int, self.priority_end as int),
            location: (self.location_start as int, self.location_end as int),
            dispname: (self.dispname_start as int, self.dispname_end as int),
        }
    }

    /// Every span is ordered and ends within `len`.
    pub open spec fn fits(self, len: int) -> bool {
        &&& self.type_start <= self.type_end <= len
        &&& self.priority_start <= self.priority_end <= len
        &&& self.location_start <= self.location_end <= len
        &&& self.dispname_start <= self.dispname_end <= len
    }
}

/// End of the longest run of `cls` characters of `s` starting at `i`.
pub fn scan_run(s: &[char], i: usize, cls: CharClass) -> (r: usize)
    requires
        i <= s@.len(),
    ensures
        r == run_end(s@, i as int, cls),
        i <= r <= s@.len(),
{
    let mut j = i;
    while j < s.len() && cls.test(s[j])
        invariant
            i <= j <= s@.len(),
            run_end(s@, i as int, cls) == run_end(s@, j as int, cls),
        decreases s@.len() - j,
    {
        j = j + 1;
    }
    j
}

/// The fields after a name that ends at `e`, if they fit the grammar.
pub fn record_fields(s: &[char], e: usize) -> (r: Option<FieldSpans>)
    requires
        e <= s@.len(),
    ensures
        match r {
            Some(f) => record_tail(s@, e as int) == Some(f.spans()) && f.fits(s@.len() as int),
            None => record_tail(s@, e as int) is None,
        },
{
    let b = scan_run(s, e, CharClass::Blank);
    if b == e {
        return None;
    }
    let c = scan_run(s, b, CharClass::NonBlank);
    if c == b {
        return None;
    }
    let d = scan_run(s, c, CharClass::Blank);
    if d == c {
        return None;
    }
    let g = if d < s.len() && s[d] == '-' { d + 1 } else { d };
    let h = scan_run(s, g, CharClass::Digit);
    if h == g {
        return None;
    }
    let i = scan_run(s, h, CharClass::Blank);
    if i == h {
        return None;
    }
    if i - h >= 2 {
        let n = find_char(s, '\n', i);
        proof { lemma_next_index_of(s@, '\n', i as int); }
        Some(FieldSpans {
            type_start: b,
            type_end: c,
            priority_start: d,
            priority_end: h,
            location_start: h + 1,
            location_end: h + 1,
            dispname_start: i,
            dispname_end: n,
        })
    } else {
        let j = scan_run(s, i, CharClass::NonBlank);
        let k = scan_run(s, j, CharClass::Blank);
        if k == j {
            return None;
        }
        let n = find_char(s, '\n', k);
        proof { lemma_next_index_of(s@, '\n', k as int); }
        Some(FieldSpans {
            type_start: b,
            type_end: c,
            priority_start: d,
            priority_end: h,
            location_start: i,
            location_end: j,
            dispname_start: k,
            dispname_end: n,
        })
    }
}

/// Searches `s` for the first record, as `is_first_record` defines it.
pub fn find_record(s: &[char]) -> (r: Option<(usize, usize, FieldSpans)>)
    ensures
        match r {
            Some((st, e, f)) => {
                &&& is_first_record(s@, st as int, e as int)
                &&& record_tail(s@, e as int) == Some(f.spans())
                &&& f.fits(s@.len() as int)
            },
            None => forall|st: int, e: int| !is_record_at(s@, st, e),
        },
{
    let mut seg: usize = 0;
    let mut p: usize = 0;
    while p < s.len()
        invariant
            seg <= p <= s@.len(),
            seg == 0 || s@[seg - 1] == '\n',
            forall|k: int| seg <= k < p ==> s@[k] != '\n',
            forall|st: int, e: int| #[trigger] is_record_at(s@, st, e) ==> e >= p,
        decreases s@.len() - p,
    {
        if p > seg {
            if let Some(f) = record_fields(s, p) {
                assert(is_record_at(s@, seg as int, p as int));
                assert forall|st2: int, e2: int| #[trigger] is_record_at(s@, st2, e2) implies seg < st2 || (
                seg == st2 && p <= e2) by {
                    if st2 < seg {
                        assert(s@[seg - 1] == '\n');
                    }
                }
                return Some((seg, p, f));
            }
        }
        assert forall|st: int, e: int| #[trigger] is_record_at(s@, st, e) implies e >= p + 1 by {
            if e == p {
                if st < seg {
                    assert(s@[seg - 1] == '\n');
                }
            }
        }
        if s[p] == '\n' {
            seg = p + 1;
        }
        p = p + 1;
    }
    assert forall|st: int, e: int| !is_record_at(s@, st, e) by {
        if is_record_at(s@, st, e) {
            assert(e == s@.len());
            assert(run_end(s@, e, CharClass::Blank) == e);
        }
    }
    None
}

} // verus!
