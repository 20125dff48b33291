//! Byte-level helpers for the on-wire text form of workflow states.
//!
//! A state value travels as a self-describing text form: its name wrapped
//! in double quotes, encoded as ASCII bytes. These helpers build and
//! compare such byte strings.

use vstd::prelude::*;
use vstd::string::{StrSliceExecFns, StringSliceAdditionalSpecFns};
use vstd::utf8::{
    is_ascii_chars, is_leading_byte_width_1, partial_valid_utf8, partial_valid_utf8_extend_ascii_block,
    valid_utf8,
};

verus! {

/// The bytes of an ASCII character sequence, one byte per character.
pub open spec fn ascii_bytes(s: Seq<char>) -> Seq<u8>
    recommends
        is_ascii_chars(s),
{
    Seq::new(s.len(), |i: int| s[i] as u8)
}

/// The on-wire form of a state name: the name's ASCII bytes wrapped in
/// double quotes.
pub open spec fn quoted_bytes(name: Seq<char>) -> Seq<u8>
    recommends
        is_ascii_chars(name),
{
    seq![34u8] + ascii_bytes(name) + seq![34u8]
}

/// Build the on-wire form of a state name.
pub fn quoted_bytes_of(name: &str) -> (r: Vec<u8>)
    requires
        name.is_ascii(),
    ensures
        r@ == quoted_bytes(name@),
{
    broadcast use vstd::string::is_ascii_spec_bytes;

    let mut r: Vec<u8> = Vec::new();
    r.push(34);
    let b = name.as_bytes();
    let mut i: usize = 0;
    while i < b.len()
        invariant
            name.is_ascii(),
            b@ == name.spec_bytes(),
            b@.len() == name@.len(),
            forall|j: int| 0 <= j < b@.len() ==> b@[j] == name@[j] as u8,
            0 <= i <= b@.len(),
            r@ == seq![34u8] + b@.subrange(0, i as int),
        decreases b@.len() - i,
    {
        r.push(b[i]);
        proof {
            assert(r@ =~= seq![34u8] + b@.subrange(0, i + 1));
        }
        i += 1;
    }
    r.push(34);
    proof {
        assert(b@.subrange(0, b@.len() as int) =~= b@);
        assert(b@ =~= ascii_bytes(name@));
        assert(r@ =~= quoted_bytes(name@));
    }
    r
}

/// Compare two strings for equality of their character sequences.
pub fn str_eq(a: &str, b: &str) -> (r: bool)
    ensures
        r == (a@ == b@),
{
    let r = bytes_eq(a.as_bytes(), b.as_bytes());
    proof {
        vstd::utf8::encode_utf8_decode_utf8(a@);
        vstd::utf8::encode_utf8_decode_utf8(b@);
    }
    r
}

/// Compare two byte strings for equality.
pub fn bytes_eq(a: &[u8], b: &[u8]) -> (r: bool)
    ensures
        r == (a@ == b@),
{
    if a.len() != b.len() {
        proof {
            assert(a@.len() != b@.len());
        }
        return false;
    }
    let mut i: usize = 0;
    while i < a.len()
        invariant
            a@.len() == b@.len(),
            0 <= i <= a@.len(),
            forall|j: int| 0 <= j < i ==> a@[j] == b@[j],
        decreases a@.len() - i,
    {
        if a[i] != b[i] {
            return false;
        }
        i += 1;
    }
    proof {
        assert(a@ =~= b@);
    }
    true
}

/// True when `s` begins with `pre`.
pub open spec fn starts_with(s: Seq<char>, pre: Seq<char>) -> bool {
    pre.len() <= s.len() && s.subrange(0, pre.len() as int) == pre
}

/// Whether `s` begins with `pre`.
pub fn str_starts_with(s: &str, pre: &str) -> (r: bool)
    ensures
        r == starts_with(s@, pre@),
{
    let s_len = s.unicode_len();
    let p_len = pre.unicode_len();
    if p_len > s_len {
        return false;
    }
    let head = s.substring_char(0, p_len);
    str_eq(head, pre)
}

/// True when `s` ends with `suf`.
pub open spec fn ends_with(s: Seq<char>, suf: Seq<char>) -> bool {
    suf.len() <= s.len() && s.skip(s.len() - suf.len()) == suf
}

/// Whether `s` ends with `suf`.
pub fn str_ends_with(s: &str, suf: &str) -> (r: bool)
    ensures
        r == ends_with(s@, suf@),
{
    let s_len = s.unicode_len();
    let f_len = suf.unicode_len();
    if f_len > s_len {
        return false;
    }
    let tail = s.substring_char(s_len - f_len, s_len);
    str_eq(tail, suf)
}

/// True when `sub` occurs somewhere in `s`.
pub open spec fn contains_seq(s: Seq<char>, sub: Seq<char>) -> bool {
    exists|i: int| 0 <= i && i + sub.len() <= s.len() && #[trigger] s.subrange(i, i + sub.len()) == sub
}

/// Whether `sub` occurs somewhere in `s`.
pub fn str_contains(s: &str, sub: &str) -> (r: bool)
    ensures
        r == contains_seq(s@, sub@),
{
    let s_len = s.unicode_len();
    let b_len = sub.unicode_len();
    if b_len > s_len {
        return false;
    }
    if b_len == 0 {
        proof {
            assert(s@.subrange(0, 0 + sub@.len() as int) =~= sub@);
        }
        return true;
    }
    let mut i: usize = 0;
    while i <= s_len - b_len
        invariant
            0 <= i <= s_len - b_len + 1,
            1 <= b_len <= s_len,
            s_len == s@.len(),
            b_len == sub@.len(),
            forall|j: int| 0 <= j < i ==> #[trigger] s@.subrange(j, j + sub@.len()) != sub@,
        decreases s_len - i,
    {
        let window = s.substring_char(i, i + b_len);
        if str_eq(window, sub) {
            return true;
        }
        i += 1;
    }
    false
}

/// The on-wire form of an ASCII name is itself valid UTF-8.
pub proof fn lemma_quoted_bytes_utf8(name: Seq<char>)
    requires
        is_ascii_chars(name),
    ensures
        valid_utf8(quoted_bytes(name)),
        quoted_bytes(name).len() == name.len() + 2,
{
    let b = quoted_bytes(name);
    assert forall|i: int| 0 <= i < b.len() implies is_leading_byte_width_1(b[i]) by {
        if 1 <= i < b.len() - 1 {
            assert(b[i] == name[i - 1] as u8);
            assert('\0' <= name[i - 1] <= '\u{7f}');
            vstd::utf8::char_u32_cast(name[i - 1], name[i - 1] as u32);
        }
    }
    assert(b.subrange(0, 0) =~= Seq::<u8>::empty());
    assert(partial_valid_utf8(b, 0));
    partial_valid_utf8_extend_ascii_block(b, 0, b.len() as int);
    assert(b.subrange(0, b.len() as int) =~= b);
}

} // verus!
