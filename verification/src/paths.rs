//! The file-name and extension parts of a path held as a string.

use vstd::prelude::*;
use vstd::string::StrSliceExecFns;

verus! {

/// The index of the last occurrence of `c` in `s`, or -1 when `c` does
/// not occur.
pub open spec fn last_index_of(s: Seq<char>, c: char) -> int
    decreases s.len(),
{
    if s.len() == 0 {
        -1
    } else if s.last() == c {
        s.len() - 1
    } else {
        last_index_of(s.drop_last(), c)
    }
}

/// When an index holds `c` and no later one does, it is the last occurrence.
proof fn lemma_last_index_at(s: Seq<char>, c: char, i: int)
    requires
        0 <= i < s.len(),
        s[i] == c,
        forall|j: int| i < j < s.len() ==> s[j] != c,
    ensures
        last_index_of(s, c) == i,
    decreases s.len(),
{
    if i == s.len() - 1 {
    } else {
        assert(s.last() != c);
        assert(s.drop_last()[i] == c);
        lemma_last_index_at(s.drop_last(), c, i);
    }
}

/// When no index holds `c`, there is no occurrence.
proof fn lemma_last_index_none(s: Seq<char>, c: char)
    requires
        forall|j: int| 0 <= j < s.len() ==> s[j] != c,
    ensures
        last_index_of(s, c) == -1,
    decreases s.len(),
{
    if s.len() > 0 {
        lemma_last_index_none(s.drop_last(), c);
    }
}

/// The index of the last occurrence of `c`, or none.
pub fn find_last(s: &str, c: char) -> (r: Option<usize>)
    ensures
        match r {
            Some(i) => i < s@.len() && last_index_of(s@, c) == i,
            None => last_index_of(s@, c) == -1,
        },
{
    let n = s.unicode_len();
    let mut k: usize = n;
    while k > 0
        invariant
            k <= n,
            n == s@.len(),
            forall|j: int| k <= j < s@.len() ==> s@[j] != c,
        decreases k,
    {
        k = k - 1;
        if s.get_char(k) == c {
            proof {
                lemma_last_index_at(s@, c, k as int);
            }
            return Some(k);
        }
    }
    proof {
        lemma_last_index_none(s@, c);
    }
    None
}

/// The final path segment: everything after the last slash, or the whole
/// string when there is none.
pub open spec fn spec_file_name(p: Seq<char>) -> Seq<char> {
    p.subrange(last_index_of(p, '/') + 1, p.len() as int)
}

/// The extension of the final path segment: the part after its last dot.
/// There is none when the segment holds no dot, or only a leading one.
pub open spec fn spec_extension_of(p: Seq<char>) -> Option<Seq<char>> {
    let f = spec_file_name(p);
    let d = last_index_of(f, '.');
    if d <= 0 {
        None
    } else {
        Some(f.subrange(d + 1, f.len() as int))
    }
}

/// The extension of the final path segment of `path`, when it has one.
pub fn extension_of(path: &str) -> (r: Option<&str>)
    ensures
        match r {
            Some(e) => spec_extension_of(path@) == Some(e@),
            None => spec_extension_of(path@) is None,
        },
{
    let n = path.unicode_len();
    let start: usize = match find_last(path, '/') {
        Some(i) => i + 1,
        None => 0,
    };
    let fname = path.substring_char(start, n);
    proof {
        assert(fname@ =~= spec_file_name(path@));
    }
    let fname_len = fname.unicode_len();
    match find_last(fname, '.') {
        None => None,
        Some(0) => None,
        Some(d) => {
            let ext = fname.substring_char(d + 1, fname_len);
            proof {
                assert(ext@ =~= spec_extension_of(path@).unwrap());
            }
            Some(ext)
        },
    }
}

} // verus!
