//! File-name and file-stem extraction from slash-separated paths.

use vstd::prelude::*;
use vstd::string::{StrSliceExecFns, StringExecFns};

verus! {

/// The index of the last occurrence of `c` in `s`, or -1 when `c` does not
/// occur.
pub open spec fn last_index_of(s: Seq<char>, c: char) -> int
    decreases s.len(),
{
    if s.len() == 0 {
        -1
    } else if s[s.len() - 1] == c {
        s.len() - 1
    } else {
        last_index_of(s.drop_last(), c)
    }
}

/// What [`last_index_of`] returns: the greatest index holding `c`, and -1
/// exactly when `c` does not occur.
pub proof fn lemma_last_index_of(s: Seq<char>, c: char)
    ensures
        -1 <= last_index_of(s, c) < s.len(),
        last_index_of(s, c) == -1 <==> (forall|j: int| 0 <= j < s.len() ==> #[trigger] s[j] != c),
        last_index_of(s, c) >= 0 ==> last_index_of(s, c) < s.len() && s[last_index_of(s, c)] == c
            && (forall|j: int| last_index_of(s, c) < j < s.len() ==> #[trigger] s[j] != c),
    decreases s.len(),
{
    if s.len() == 0 {
    } else if s[s.len() - 1] == c {
    } else {
        let d = s.drop_last();
        lemma_last_index_of(d, c);
        let last = last_index_of(s, c);
        assert(last == last_index_of(d, c));
        assert(forall|j: int| 0 <= j < d.len() ==> s[j] == #[trigger] d[j]);
        if last == -1 {
            assert forall|j: int| 0 <= j < s.len() implies #[trigger] s[j] != c by {
                if j < s.len() - 1 {
                    assert(d[j] != c);
                }
            }
        } else {
            assert(s[last] == c) by {
                assert(d[last] == c);
            }
            assert forall|j: int| last < j < s.len() implies #[trigger] s[j] != c by {
                if j < s.len() - 1 {
                    assert(d[j] != c);
                }
            }
        }
        if forall|j: int| 0 <= j < s.len() ==> #[trigger] s[j] != c {
            assert forall|j: int| 0 <= j < d.len() implies #[trigger] d[j] != c by {
                assert(s[j] != c);
            }
        }
    }
}

/// The last slash-separated segment of a path: the whole path when it has
/// no slash.
pub open spec fn file_name_chars(path: Seq<char>) -> Seq<char> {
    path.skip(last_index_of(path, '/') + 1)
}

/// The file name without its extension: everything before the last dot,
/// unless the dot opens the name.
pub open spec fn file_stem_chars(path: Seq<char>) -> Seq<char> {
    let name = file_name_chars(path);
    let dot = last_index_of(name, '.');
    if dot <= 0 {
        name
    } else {
        name.take(dot)
    }
}

/// The index just past the last occurrence of `c`, or zero when `c` does
/// not occur.
fn index_past_last(s: &str, c: char) -> (r: usize)
    ensures
        r == last_index_of(s@, c) + 1,
        r <= s@.len(),
{
    proof {
        lemma_last_index_of(s@, c);
    }
    let n = s.unicode_len();
    let mut i: usize = n;
    while i > 0
        invariant
            0 <= i <= n,
            n == s@.len(),
            forall|j: int| i <= j < n ==> s@[j] != c,
        decreases i,
    {
        i -= 1;
        if s.get_char(i) == c {
            proof {
                lemma_last_index_of(s@, c);
                let last = last_index_of(s@, c);
                if last == -1 {
                    assert(forall|j: int| 0 <= j < s@.len() ==> s@[j] != c);
                    assert(s@[i as int] != c);
                } else if last < i {
                    assert(forall|j: int| last < j < s@.len() ==> s@[j] != c);
                    assert(s@[i as int] != c);
                } else if last > i {
                    assert(s@[last] != c);
                }
            }
            return i + 1;
        }
    }
    0
}

/// The last slash-separated segment of a path.
pub fn file_name_of(path: &str) -> (r: String)
    ensures
        r@ == file_name_chars(path@),
{
    let n = path.unicode_len();
    let start = index_past_last(path, '/');
    let name = path.substring_char(start, n);
    proof {
        assert(name@ =~= file_name_chars(path@));
    }
    name.to_owned()
}

/// The file name without its extension.
pub fn file_stem_of(path: &str) -> (r: String)
    ensures
        r@ == file_stem_chars(path@),
{
    let n = path.unicode_len();
    let start = index_past_last(path, '/');
    let name = path.substring_char(start, n);
    proof {
        assert(name@ =~= file_name_chars(path@));
    }
    let past_dot = index_past_last(name, '.');
    if past_dot <= 1 {
        name.to_owned()
    } else {
        let stem = name.substring_char(0, past_dot - 1);
        proof {
            assert(stem@ =~= file_stem_chars(path@));
        }
        stem.to_owned()
    }
}

} // verus!
