//! Parsing of the plain-text lines an add-from-file run reads: a title,
//! optionally followed by a release year in parentheses.

use vstd::prelude::*;
use vstd::string::StrSliceExecFns;
use crate::paths::{find_last, last_index_of};

verus! {

/// The characters the Unicode `White_Space` property covers, as `trim`
/// strips them.
pub open spec fn is_space(c: char) -> bool {
    ||| c == ' '
    ||| c == '\t'
    ||| c == '\n'
    ||| c == '\u{0B}'
    ||| c == '\u{0C}'
    ||| c == '\r'
    ||| c == '\u{85}'
    ||| c == '\u{A0}'
    ||| c == '\u{1680}'
    ||| ('\u{2000}' <= c && c <= '\u{200A}')
    ||| c == '\u{2028}'
    ||| c == '\u{2029}'
    ||| c == '\u{202F}'
    ||| c == '\u{205F}'
    ||| c == '\u{3000}'
}

/// Executable form of `is_space`.
pub fn is_space_char(c: char) -> (r: bool)
    ensures
        r == is_space(c),
{
    c == ' ' || c == '\t' || c == '\n' || c == '\u{0B}' || c == '\u{0C}' || c == '\r' || c
        == '\u{85}' || c == '\u{A0}' || c == '\u{1680}' || ('\u{2000}' <= c && c <= '\u{200A}') || c
        == '\u{2028}' || c == '\u{2029}' || c == '\u{202F}' || c == '\u{205F}' || c == '\u{3000}'
}

/// The string without its leading whitespace.
pub open spec fn spec_trim_start(s: Seq<char>) -> Seq<char>
    decreases s.len(),
{
    if s.len() > 0 && is_space(s[0]) {
        spec_trim_start(s.subrange(1, s.len() as int))
    } else {
        s
    }
}

/// The string without its trailing whitespace.
pub open spec fn spec_trim_end(s: Seq<char>) -> Seq<char>
    decreases s.len(),
{
    if s.len() > 0 && is_space(s.last()) {
        spec_trim_end(s.drop_last())
    } else {
        s
    }
}

/// The string without leading and trailing whitespace.
pub open spec fn spec_trim(s: Seq<char>) -> Seq<char> {
    spec_trim_end(spec_trim_start(s))
}

proof fn lemma_trim_start_at(s: Seq<char>, k: int)
    requires
        0 <= k <= s.len(),
        forall|j: int| 0 <= j < k ==> is_space(#[trigger] s[j]),
        k == s.len() || !is_space(s[k]),
    ensures
        spec_trim_start(s) == s.subrange(k, s.len() as int),
    decreases k,
{
    if k == 0 {
        assert(s.subrange(0, s.len() as int) =~= s);
    } else {
        let s1 = s.subrange(1, s.len() as int);
        lemma_trim_start_at(s1, k - 1);
        assert(s1.subrange(k - 1, s1.len() as int) =~= s.subrange(k, s.len() as int));
    }
}

proof fn lemma_trim_end_at(s: Seq<char>, k: int)
    requires
        0 <= k <= s.len(),
        forall|j: int| k <= j < s.len() ==> is_space(#[trigger] s[j]),
        k == 0 || !is_space(s[k - 1]),
    ensures
        spec_trim_end(s) == s.subrange(0, k),
    decreases s.len(),
{
    if k == s.len() {
        if s.len() > 0 && is_space(s.last()) {
            assert(!is_space(s[k - 1]));
            assert(false);
        }
        assert(s.subrange(0, s.len() as int) =~= s);
    } else {
        assert(is_space(s.last()));
        lemma_trim_end_at(s.drop_last(), k);
        assert(s.drop_last().subrange(0, k) =~= s.subrange(0, k));
    }
}

/// The string without its trailing whitespace.
pub fn trim_end_str(s: &str) -> (r: &str)
    ensures
        r@ == spec_trim_end(s@),
{
    let n = s.unicode_len();
    let mut end: usize = n;
    while end > 0 && is_space_char(s.get_char(end - 1))
        invariant
            end <= n,
            n == s@.len(),
            forall|j: int| end <= j < s@.len() ==> is_space(#[trigger] s@[j]),
        decreases end,
    {
        end = end - 1;
    }
    proof {
        lemma_trim_end_at(s@, end as int);
    }
    s.substring_char(0, end)
}

/// The string without leading and trailing whitespace.
pub fn trim_str(s: &str) -> (r: &str)
    ensures
        r@ == spec_trim(s@),
{
    let n = s.unicode_len();
    let mut start: usize = 0;
    while start < n && is_space_char(s.get_char(start))
        invariant
            start <= n,
            n == s@.len(),
            forall|j: int| 0 <= j < start ==> is_space(#[trigger] s@[j]),
        decreases n - start,
    {
        start = start + 1;
    }
    proof {
        lemma_trim_start_at(s@, start as int);
    }
    let t = s.substring_char(start, n);
    trim_end_str(t)
}

/// A decimal digit.
pub open spec fn is_digit(c: char) -> bool {
    '0' <= c && c <= '9'
}

/// Whether every character is a decimal digit.
pub open spec fn all_digits(s: Seq<char>) -> bool {
    forall|j: int| 0 <= j < s.len() ==> is_digit(#[trigger] s[j])
}

/// The value of a string of decimal digits, most significant first.
pub open spec fn digits_value(s: Seq<char>) -> int
    decreases s.len(),
{
    if s.len() == 0 {
        0
    } else {
        digits_value(s.drop_last()) * 10 + ((s.last() as u32) - 48)
    }
}

proof fn lemma_digits_value_nonneg(s: Seq<char>)
    requires
        all_digits(s),
    ensures
        digits_value(s) >= 0,
    decreases s.len(),
{
    if s.len() > 0 {
        assert(all_digits(s.drop_last()));
        lemma_digits_value_nonneg(s.drop_last());
    }
}

proof fn lemma_digits_value_extend(p: Seq<char>, f: Seq<char>)
    requires
        p.len() <= f.len(),
        p == f.subrange(0, p.len() as int),
        all_digits(f),
    ensures
        digits_value(f) >= digits_value(p),
    decreases f.len() - p.len(),
{
    if p.len() == f.len() {
        assert(p =~= f);
    } else {
        let f1 = f.drop_last();
        assert(p == f1.subrange(0, p.len() as int)) by {
            assert(f1.subrange(0, p.len() as int) =~= f.subrange(0, p.len() as int));
        }
        assert(all_digits(f1));
        lemma_digits_value_extend(p, f1);
        lemma_digits_value_nonneg(f1);
    }
}

/// What parsing a signed 32-bit decimal integer yields: an optional sign
/// followed by at least one digit, rejected when the value is out of
/// range.
pub open spec fn spec_parse_i32(s: Seq<char>) -> Option<i32> {
    let neg = s.len() > 0 && s[0] == '-';
    let ds = if s.len() > 0 && (s[0] == '-' || s[0] == '+') {
        s.subrange(1, s.len() as int)
    } else {
        s
    };
    if ds.len() == 0 || !all_digits(ds) {
        None
    } else {
        let sv = if neg {
            -digits_value(ds)
        } else {
            digits_value(ds)
        };
        if i32::MIN <= sv <= i32::MAX {
            Some(sv as i32)
        } else {
            None
        }
    }
}

/// Parses a signed 32-bit decimal integer, as the standard numeric
/// parser accepts it.
pub fn parse_i32(s: &str) -> (r: Option<i32>)
    ensures
        r == spec_parse_i32(s@),
{
    let n = s.unicode_len();
    let mut i: usize = 0;
    let mut neg = false;
    if n > 0 {
        let c0 = s.get_char(0);
        if c0 == '-' {
            neg = true;
            i = 1;
        } else if c0 == '+' {
            i = 1;
        }
    }
    let ghost ds = if s@.len() > 0 && (s@[0] == '-' || s@[0] == '+') {
        s@.subrange(1, s@.len() as int)
    } else {
        s@
    };
    let ghost i0 = i as int;
    proof {
        assert(s@.subrange(0, s@.len() as int) =~= s@);
    }
    if i == n {
        return None;
    }
    let mut acc: i64 = 0;
    let mut k: usize = i;
    while k < n
        invariant
            i0 <= k <= n,
            n == s@.len(),
            i0 == i as int,
            i0 <= 1,
            neg == (s@.len() > 0 && s@[0] == '-'),
            i0 == if s@.len() > 0 && (s@[0] == '-' || s@[0] == '+') {
                1int
            } else {
                0int
            },
            ds == s@.subrange(i0, n as int),
            ds == if s@.len() > 0 && (s@[0] == '-' || s@[0] == '+') {
                s@.subrange(1, s@.len() as int)
            } else {
                s@
            },
            acc == digits_value(ds.subrange(0, k - i0)),
            all_digits(ds.subrange(0, k - i0)),
            0 <= acc <= 2147483648,
        decreases n - k,
    {
        let c = s.get_char(k);
        if !(c >= '0' && c <= '9') {
            proof {
                assert(ds[k - i0] == s@[k as int]);
                assert(!all_digits(ds));
            }
            return None;
        }
        let d: i64 = ((c as u32) - 48) as i64;
        acc = acc * 10 + d;
        k = k + 1;
        proof {
            assert(ds.subrange(0, k - i0).drop_last() =~= ds.subrange(0, k - 1 - i0));
            assert(ds.subrange(0, k - i0).last() == s@[k - 1]);
        }
        if acc > 2147483648 {
            proof {
                if all_digits(ds) {
                    lemma_digits_value_extend(ds.subrange(0, k - i0), ds);
                    assert(ds.subrange(0, ds.len() as int) =~= ds);
                }
            }
            return None;
        }
    }
    proof {
        assert(ds.subrange(0, n - i0) =~= ds);
    }
    if neg {
        Some((-acc) as i32)
    } else {
        if acc > 2147483647 {
            return None;
        }
        Some(acc as i32)
    }
}

/// What parsing one line of an add-from-file list yields: the line
/// trimmed, split at its last space when what follows is a year in
/// parentheses — then the title keeps no trailing whitespace — and the
/// whole trimmed line as the title otherwise.
pub open spec fn spec_parse_title_line(line: Seq<char>) -> (Seq<char>, Option<i32>) {
    let t = spec_trim(line);
    let li = last_index_of(t, ' ');
    if li < 0 {
        (t, None)
    } else {
        let title = t.subrange(0, li);
        let year_part = t.subrange(li + 1, t.len() as int);
        if year_part.len() == 0 || year_part[0] != '(' || year_part.last() != ')' {
            (t, None)
        } else {
            match spec_parse_i32(year_part.subrange(1, year_part.len() - 1)) {
                Some(y) => (spec_trim_end(title), Some(y)),
                None => (t, None),
            }
        }
    }
}

/// Splits one line of an add-from-file list into a title and an optional
/// release year given in parentheses at the end.
pub fn parse_title_line<'a>(line: &'a str) -> (r: (&'a str, Option<i32>))
    ensures
        r.0@ == spec_parse_title_line(line@).0,
        r.1 == spec_parse_title_line(line@).1,
{
    let t = trim_str(line);
    let tl = t.unicode_len();
    match find_last(t, ' ') {
        None => (t, None),
        Some(li) => {
            let year_part = t.substring_char(li + 1, tl);
            let yl = year_part.unicode_len();
            if yl == 0 || year_part.get_char(0) != '(' || year_part.get_char(yl - 1) != ')' {
                return (t, None);
            }
            let inner = year_part.substring_char(1, yl - 1);
            proof {
                assert(inner@ =~= t@.subrange(li + 1, t@.len() as int).subrange(
                    1,
                    t@.subrange(li + 1, t@.len() as int).len() - 1,
                ));
            }
            match parse_i32(inner) {
                Some(y) => {
                    let title = t.substring_char(0, li);
                    (trim_end_str(title), Some(y))
                },
                None => (t, None),
            }
        },
    }
}

} // verus!
