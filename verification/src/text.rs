//! ASCII case folding and filename extensions.

use vstd::prelude::*;
use vstd::string::StrSliceExecFns;

verus! {

/// ASCII lower-casing of one character; everything but `A`-`Z` is kept.
pub open spec fn lower_char_spec(c: char) -> char {
    if 'A' <= c && c <= 'Z' {
        ((c as u32) + 32) as char
    } else {
        c
    }
}

/// ASCII lower-casing of a character sequence.
pub open spec fn lower_seq(s: Seq<char>) -> Seq<char> {
    s.map_values(|c: char| lower_char_spec(c))
}

/// Whether `c` lower-cases to `l`.
fn char_eq_lower(c: char, l: char) -> (b: bool)
    ensures
        b == (lower_char_spec(c) == l),
{
    let u = c as u32;
    if u >= 65 && u <= 90 {
        u + 32 == l as u32
    } else {
        c == l
    }
}

/// Whether `s` lower-cases to `lower`, character by character.
pub fn str_eq_lower(s: &str, lower: &str) -> (b: bool)
    ensures
        b == (lower_seq(s@) == lower@),
{
    let n = s.unicode_len();
    let m = lower.unicode_len();
    if n != m {
        proof {
            assert(lower_seq(s@).len() != lower@.len());
        }
        return false;
    }
    let mut i: usize = 0;
    while i < n
        invariant
            0 <= i <= n,
            n == s@.len(),
            n == lower@.len(),
            forall|k: int| 0 <= k < i ==> lower_seq(s@)[k] == lower@[k],
        decreases n - i,
    {
        if !char_eq_lower(s.get_char(i), lower.get_char(i)) {
            proof {
                assert(lower_seq(s@)[i as int] != lower@[i as int]);
            }
            return false;
        }
        i = i + 1;
    }
    proof {
        assert(lower_seq(s@) =~= lower@);
    }
    true
}

/// Index of the last occurrence of `c` in `s`, or `-1` where `c` does not
/// occur.
pub open spec fn last_index_of(s: Seq<char>, c: char) -> int
    decreases s.len(),
{
    if s.len() == 0 {
        -1
    } else if s[s.len() - 1] == c {
        s.len() - 1
    } else {
        last_index_of(s.drop_last(), c)
    }
}

/// The characterization of [`last_index_of`]: it points at an occurrence
/// followed by none, or below zero where there is no occurrence.
pub proof fn lemma_last_index_of(s: Seq<char>, c: char)
    ensures
        last_index_of(s, c) >= 0 ==> last_index_of(s, c) < s.len() && s[last_index_of(s, c)] == c
            && forall|k: int| last_index_of(s, c) < k < s.len() ==> s[k] != c,
        last_index_of(s, c) < 0 ==> last_index_of(s, c) == -1 && forall|k: int|
            0 <= k < s.len() ==> s[k] != c,
    decreases s.len(),
{
    if s.len() > 0 && s[s.len() - 1] != c {
        lemma_last_index_of(s.drop_last(), c);
        assert forall|k: int| last_index_of(s, c) < k < s.len() implies s[k] != c by {
            if k < s.len() - 1 {
                assert(s.drop_last()[k] == s[k]);
            }
        }
    }
}

/// Index of the last occurrence of `c` in `s`, scanned from the end.
fn rfind_char(s: &str, c: char) -> (r: Option<usize>)
    ensures
        r matches Some(i) ==> 0 <= i < s@.len() && i == last_index_of(s@, c),
        r is None ==> last_index_of(s@, c) == -1,
{
    let n = s.unicode_len();
    let mut i: usize = n;
    while i > 0
        invariant
            0 <= i <= n,
            n == s@.len(),
            forall|k: int| i <= k < n ==> s@[k] != c,
        decreases i,
    {
        i = i - 1;
        if s.get_char(i) == c {
            proof {
                lemma_last_index_found(s@, c, i as int);
            }
            return Some(i);
        }
    }
    proof {
        lemma_last_index_absent(s@, c);
    }
    None
}

/// An occurrence followed by no further occurrence is the last one.
proof fn lemma_last_index_found(s: Seq<char>, c: char, j: int)
    requires
        0 <= j < s.len(),
        s[j] == c,
        forall|k: int| j < k < s.len() ==> s[k] != c,
    ensures
        last_index_of(s, c) == j,
    decreases s.len(),
{
    if j < s.len() - 1 {
        assert(s[s.len() - 1] != c);
        assert(s.drop_last()[j] == s[j]);
        assert forall|k: int| j < k < s.drop_last().len() implies s.drop_last()[k] != c by {
            assert(s.drop_last()[k] == s[k]);
        }
        lemma_last_index_found(s.drop_last(), c, j);
    }
}

/// Where `c` occurs nowhere in `s`, there is no last occurrence.
proof fn lemma_last_index_absent(s: Seq<char>, c: char)
    requires
        forall|k: int| 0 <= k < s.len() ==> s[k] != c,
    ensures
        last_index_of(s, c) == -1,
    decreases s.len(),
{
    if s.len() > 0 {
        assert forall|k: int| 0 <= k < s.drop_last().len() implies s.drop_last()[k] != c by {
            assert(s.drop_last()[k] == s[k]);
        }
        lemma_last_index_absent(s.drop_last(), c);
    }
}

/// The extension of a filename: what follows the last dot of its last
/// path component, unless that dot begins the component.  Separators are
/// forward slashes.
pub open spec fn file_extension_spec(s: Seq<char>) -> Option<Seq<char>> {
    let slash = last_index_of(s, '/');
    let dot = last_index_of(s, '.');
    if dot > slash + 1 {
        Some(s.subrange(dot + 1, s.len() as int))
    } else {
        None
    }
}

/// The extension of a filename, or `None` where it has none.
pub fn file_extension<'a>(s: &'a str) -> (r: Option<&'a str>)
    ensures
        match file_extension_spec(s@) {
            Some(ext) => r matches Some(e) && e@ == ext,
            None => r is None,
        },
{
    let n = s.unicode_len();
    let dot = match rfind_char(s, '.') {
        Some(d) => d,
        None => {
            proof {
                lemma_last_index_of(s@, '/');
            }
            return None;
        },
    };
    let slash = match rfind_char(s, '/') {
        Some(i) => i,
        None => {
            if dot >= 1 {
                return Some(s.substring_char(dot + 1, n));
            }
            return None;
        },
    };
    if dot >= 2 && slash <= dot - 2 {
        Some(s.substring_char(dot + 1, n))
    } else {
        None
    }
}

} // verus!
