//! Path strings and their conversion to NUL-terminated byte sequences.
//!
//! The jailer moves paths across the syscall boundary as NUL-terminated
//! bytes; conversion fails on an interior NUL.  Paths handed to this library
//! are Unicode strings; a component is what stands between `/` separators.

use vstd::prelude::*;

use vstd::utf8::decode_utf8;
use vstd::utf8::encode_utf8;
use vstd::utf8::encode_utf8_decode_utf8;
use vstd::utf8::encode_utf8_valid_utf8;
use vstd::utf8::valid_utf8;

use crate::error::Error;
use crate::error::NulIssue;

verus! {

/// True when `needle` occurs contiguously inside `hay`.
pub open spec fn contains_seq(hay: Seq<char>, needle: Seq<char>) -> bool {
    exists|i: int|
        0 <= i <= hay.len() - needle.len() && #[trigger] hay.subrange(i, i + needle.len())
            == needle
}

/// Substring search: does `hay` contain `needle`?
pub fn str_contains(hay: &str, needle: &str) -> (r: bool)
    ensures
        r == contains_seq(hay@, needle@),
{
    let hlen = hay.unicode_len();
    let nlen = needle.unicode_len();
    if nlen > hlen {
        return false;
    }
    if nlen == 0 {
        proof {
            assert(hay@.subrange(0, 0 + needle@.len() as int) =~= needle@);
        }
        return true;
    }
    let mut i: usize = 0;
    while i <= hlen - nlen
        invariant
            nlen <= hlen,
            hlen == hay@.len(),
            nlen == needle@.len(),
            i <= hlen - nlen + 1,
            nlen >= 1,
            forall|k: int|
                0 <= k < i ==> #[trigger] hay@.subrange(k, k + nlen as int) != needle@,
        decreases hlen - nlen - i + 1,
    {
        let mut j: usize = 0;
        let mut matched = true;
        while j < nlen
            invariant
                hlen == hay@.len(),
                nlen == needle@.len(),
                i + nlen <= hlen,
                j <= nlen,
                matched ==> forall|t: int| 0 <= t < j ==> hay@[i + t] == needle@[t],
                !matched ==> hay@.subrange(i as int, i + nlen) != needle@,
            decreases nlen - j,
        {
            if matched {
                let hc = hay.get_char(i + j);
                let nc = needle.get_char(j);
                if (hc as u32) != (nc as u32) {
                    proof {
                        assert(hay@.subrange(i as int, i + nlen)[j as int] == hay@[i + j]);
                    }
                    matched = false;
                }
            }
            j = j + 1;
        }
        if matched {
            proof {
                assert(hay@.subrange(i as int, i as int + needle@.len() as int) =~= needle@);
            }
            return true;
        }
        i = i + 1;
    }
    proof {
        assert(forall|k: int|
            0 <= k <= hay@.len() - needle@.len() ==> #[trigger] hay@.subrange(k, k + nlen as int)
                != needle@);
    }
    false
}

/// What follows the last `/` of `s` (the whole of `s` when it has none).
pub open spec fn after_last_slash(s: Seq<char>) -> Seq<char>
    decreases s.len(),
{
    if s.len() == 0 {
        Seq::empty()
    } else if s.last() == '/' {
        Seq::empty()
    } else {
        after_last_slash(s.drop_last()).push(s.last())
    }
}

/// The final component of a path: what follows its last separator, `None`
/// when that is empty (the root path, or a path ending in a separator).
pub open spec fn spec_file_name(s: Seq<char>) -> Option<Seq<char>> {
    if after_last_slash(s).len() == 0 {
        None
    } else {
        Some(after_last_slash(s))
    }
}

proof fn lemma_after_last_slash(s: Seq<char>, k: int)
    requires
        0 <= k <= s.len(),
        k > 0 ==> s[k - 1] == '/',
        forall|j: int| k <= j < s.len() ==> s[j] != '/',
    ensures
        after_last_slash(s) =~= s.subrange(k, s.len() as int),
    decreases s.len(),
{
    if s.len() == k {
        if k > 0 {
            assert(s.last() == '/');
        }
    } else {
        assert(s.last() != '/');
        lemma_after_last_slash(s.drop_last(), k);
    }
}

/// The final component of the path.
pub fn file_name(s: &str) -> (r: Option<String>)
    ensures
        r matches Some(n) ==> spec_file_name(s@) == Some(n@),
        r is None ==> spec_file_name(s@) is None,
{
    let len = s.unicode_len();
    let mut k: usize = len;
    while k > 0 && (s.get_char(k - 1) as u32) != 47
        invariant
            k <= len,
            len == s@.len(),
            forall|j: int| k <= j < s@.len() ==> s@[j] != '/',
        decreases k,
    {
        k = k - 1;
    }
    proof {
        lemma_after_last_slash(s@, k as int);
    }
    if k == len {
        None
    } else {
        let name = s.substring_char(k, len);
        Some(name.to_owned())
    }
}

/// `base` with the relative component `rel` appended: a `/` separator is
/// inserted unless `base` already ends in one.
pub open spec fn spec_path_join(base: Seq<char>, rel: Seq<char>) -> Seq<char> {
    if base.len() > 0 && base.last() == '/' {
        base + rel
    } else {
        base + seq!['/'] + rel
    }
}

/// Append the relative component `rel` to the path `base`.
pub fn path_join(base: &str, rel: &str) -> (r: String)
    ensures
        r@ == spec_path_join(base@, rel@),
{
    let len = base.unicode_len();
    let mut r = base.to_owned();
    if len == 0 || (base.get_char(len - 1) as u32) != 47 {
        r.append("/");
        proof {
            reveal_strlit("/");
            assert("/"@ =~= seq!['/']);
        }
    }
    r.append(rel);
    proof {
        assert(r@ =~= spec_path_join(base@, rel@));
    }
    r
}

/// True when the path begins with a root separator.
pub open spec fn is_absolute(s: Seq<char>) -> bool {
    s.len() > 0 && s[0] == '/'
}

/// True when a `..` component starts at position `i` of `s`.
pub open spec fn dotdot_segment_at(s: Seq<char>, i: int) -> bool {
    &&& 0 <= i
    &&& i + 2 <= s.len()
    &&& (i == 0 || s[i - 1] == '/')
    &&& s[i] == '.'
    &&& s[i + 1] == '.'
    &&& (i + 2 == s.len() || s[i + 2] == '/')
}

/// True when the path has a `..` component anywhere.
pub open spec fn has_dotdot_segment(s: Seq<char>) -> bool {
    exists|i: int| dotdot_segment_at(s, i)
}

/// True when the path begins with a `.` component.  A lone `.` later in the
/// path is not a component of its own, as path normalization drops it.
pub open spec fn starts_with_cur_dir(s: Seq<char>) -> bool {
    s.len() >= 1 && s[0] == '.' && (s.len() == 1 || s[1] == '/')
}

/// True when the path holds a component that a cgroup path must not: a root
/// separator, a leading `.`, or `..` anywhere.
pub open spec fn has_forbidden_component(s: Seq<char>) -> bool {
    is_absolute(s) || starts_with_cur_dir(s) || has_dotdot_segment(s)
}

/// Does the path hold a component a cgroup path must not (absolute root,
/// leading `.`, or `..` anywhere)?
pub fn forbidden_component(s: &str) -> (r: bool)
    ensures
        r == has_forbidden_component(s@),
{
    let len = s.unicode_len();
    if len == 0 {
        proof {
            assert(forall|i: int| !dotdot_segment_at(s@, i));
        }
        return false;
    }
    let first = s.get_char(0);
    if (first as u32) == 47 {
        return true;
    }
    if (first as u32) == 46 && (len == 1 || (s.get_char(1) as u32) == 47) {
        return true;
    }
    let mut i: usize = 0;
    while i < len - 1
        invariant
            len == s@.len(),
            len >= 1,
            i <= len,
            forall|k: int| 0 <= k < i ==> !dotdot_segment_at(s@, k),
        decreases len - i,
    {
        if (i == 0 || (s.get_char(i - 1) as u32) == 47) && (s.get_char(i) as u32) == 46 && (s.get_char(
            i + 1,
        ) as u32) == 46 && (i + 2 == len || (s.get_char(i + 2) as u32) == 47) {
            proof {
                assert(dotdot_segment_at(s@, i as int));
            }
            return true;
        }
        i = i + 1;
    }
    proof {
        assert(forall|k: int| 0 <= k && k + 2 <= s@.len() ==> !dotdot_segment_at(s@, k));
        assert(!has_dotdot_segment(s@));
    }
    false
}

/// The UTF-8 encoding of a character sequence holds a NUL byte exactly when
/// the sequence holds the NUL character.
pub proof fn lemma_encode_utf8_nul(s: Seq<char>)
    ensures
        encode_utf8(s).contains(0u8) <==> s.contains('\0'),
    decreases s.len(),
{
    if s.len() == 0 {
    } else {
        let head = s[0] as u32;
        vstd::utf8::char_is_scalar(s[0]);
        let enc = vstd::utf8::encode_scalar(head);
        lemma_encode_scalar_nul(head);
        lemma_encode_utf8_nul(s.drop_first());
        assert(encode_utf8(s) == enc + encode_utf8(s.drop_first()));
        if encode_utf8(s).contains(0u8) {
            let i = choose|i: int|
                0 <= i < encode_utf8(s).len() && encode_utf8(s)[i] == 0u8;
            if i < enc.len() {
                assert(enc[i] == 0u8);
                assert(enc.contains(0u8));
                vstd::utf8::char_u32_cast(s[0], 0u32);
                vstd::utf8::char_u32_cast('\0', 0u32);
                assert(s[0] == '\0');
            } else {
                assert(encode_utf8(s.drop_first())[i - enc.len()] == 0u8);
                assert(encode_utf8(s.drop_first()).contains(0u8));
                let j = choose|j: int|
                    0 <= j < s.drop_first().len() && s.drop_first()[j] == '\0';
                assert(s[j + 1] == '\0');
            }
        }
        if s.contains('\0') {
            let j = choose|j: int| 0 <= j < s.len() && s[j] == '\0';
            if j == 0 {
                assert(s[0] as u32 == 0) by {
                    vstd::utf8::char_u32_cast(s[0], s[0] as u32);
                    vstd::utf8::char_u32_cast('\0', 0u32);
                }
                assert(enc.contains(0u8));
                let i = choose|i: int| 0 <= i < enc.len() && enc[i] == 0u8;
                assert(encode_utf8(s)[i] == 0u8);
            } else {
                assert(s.drop_first()[j - 1] == '\0');
                assert(s.drop_first().contains('\0'));
                let i = choose|i: int|
                    0 <= i < encode_utf8(s.drop_first()).len() && encode_utf8(s.drop_first())[i]
                        == 0u8;
                assert(encode_utf8(s)[enc.len() + i] == 0u8);
            }
        }
    }
}

proof fn lemma_encode_scalar_nul(scalar: u32)
    requires
        vstd::utf8::is_scalar(scalar),
    ensures
        vstd::utf8::encode_scalar(scalar).contains(0u8) <==> scalar == 0,
{
    let enc = vstd::utf8::encode_scalar(scalar);
    if vstd::utf8::has_width_1_encoding(scalar) {
        assert(scalar <= 0x7F ==> (((scalar & 0x7F) as u8) == 0 <==> scalar == 0))
            by (bit_vector);
        if scalar == 0 {
            assert(enc[0] == 0u8);
        } else {
            assert(forall|i: int| 0 <= i < enc.len() ==> enc[i] != 0u8);
        }
    } else {
        assert(forall|x: u8| (0xC0u8 | x) != 0u8) by (bit_vector);
        assert(forall|x: u8| (0xE0u8 | x) != 0u8) by (bit_vector);
        assert(forall|x: u8| (0xF0u8 | x) != 0u8) by (bit_vector);
        assert(forall|x: u8| (0x80u8 | x) != 0u8) by (bit_vector);
        assert(forall|i: int| 0 <= i < enc.len() ==> enc[i] != 0u8);
    }
}

/// Convert a path to the NUL-terminated bytes a syscall takes.  Fails
/// exactly when the path holds an interior NUL.
pub fn to_cstring(path: &str) -> (r: Result<Vec<u8>, Error>)
    ensures
        r matches Ok(v) ==> v@ == encode_utf8(path@).push(0u8) && !path@.contains('\0'),
        r is Err ==> r->Err_0 == Error::CStringParsing && path@.contains('\0'),
{
    let mut bytes = s_as_bytes_vec(path);
    let n = bytes.len();
    let mut i: usize = 0;
    while i < n
        invariant
            n == bytes.len(),
            bytes@ == encode_utf8(path@),
            forall|k: int| 0 <= k < i ==> bytes@[k] != 0u8,
        decreases n - i,
    {
        if bytes[i] == 0 {
            proof {
                assert(bytes@.contains(0u8));
                lemma_encode_utf8_nul(path@);
            }
            return Err(Error::CStringParsing);
        }
        i = i + 1;
    }
    proof {
        assert(!bytes@.contains(0u8)) by {
            if bytes@.contains(0u8) {
                let k = choose|k: int| 0 <= k < bytes@.len() && bytes@[k] == 0u8;
            }
        }
        lemma_encode_utf8_nul(path@);
    }
    bytes.push(0);
    Ok(bytes)
}

fn s_as_bytes_vec(s: &str) -> (r: Vec<u8>)
    ensures
        r@ == encode_utf8(s@),
{
    s.as_bytes_vec()
}

/// Read a NUL-terminated byte sequence back: the bytes before the final NUL,
/// as `CStr` parsing accepts them.  Fails when the final byte is not NUL or
/// a NUL sits earlier (reporting the position of the first one).
pub fn split_nul(bytes: &Vec<u8>) -> (r: Result<Vec<u8>, Error>)
    ensures
        r matches Ok(v) ==> {
            &&& bytes@.len() > 0
            &&& bytes@.last() == 0u8
            &&& v@ == bytes@.drop_last()
            &&& forall|k: int| 0 <= k < bytes@.len() - 1 ==> bytes@[k] != 0u8
        },
        r matches Err(e) ==> match e {
            Error::FromBytesWithNul(issue) => match issue {
                NulIssue::NotNulTerminated => !bytes@.contains(0u8),
                NulIssue::InteriorNul(p) => p + 1 < bytes@.len() && bytes@[p as int] == 0u8
                    && forall|k: int| 0 <= k < p ==> bytes@[k] != 0u8,
            },
            _ => false,
        },
{
    let n = bytes.len();
    let mut i: usize = 0;
    while i < n
        invariant
            n == bytes.len(),
            forall|k: int| 0 <= k < i ==> bytes@[k] != 0u8,
        decreases n - i,
    {
        if bytes[i] == 0 {
            if i + 1 == n {
                let mut v = bytes.clone();
                v.pop();
                proof {
                    assert(v@ =~= bytes@.drop_last());
                }
                return Ok(v);
            }
            return Err(Error::FromBytesWithNul(NulIssue::InteriorNul(i)));
        }
        i = i + 1;
    }
    proof {
        assert(!bytes@.contains(0u8)) by {
            if bytes@.contains(0u8) {
                let k = choose|k: int| 0 <= k < bytes@.len() && bytes@[k] == 0u8;
            }
        }
    }
    Err(Error::FromBytesWithNul(NulIssue::NotNulTerminated))
}

/// Relies on std's `str::from_utf8`: succeeds exactly on valid UTF-8 input
/// and yields the characters those bytes encode.
#[verifier::external_body]
fn str_from_utf8(v: &[u8]) -> (r: Option<&str>)
    ensures
        r is Some <==> valid_utf8(v@),
        r matches Some(s) ==> s@ == decode_utf8(v@),
{
    core::str::from_utf8(v).ok()
}

/// Decode bytes as UTF-8; `None` exactly when they are not valid UTF-8.
pub fn bytes_to_string(bytes: &Vec<u8>) -> (r: Option<String>)
    ensures
        r is Some <==> valid_utf8(bytes@),
        r matches Some(s) ==> s@ == decode_utf8(bytes@),
{
    match str_from_utf8(bytes.as_slice()) {
        Some(s) => Some(s.to_owned()),
        None => None,
    }
}

/// A path without interior NUL survives the round trip to NUL-terminated
/// bytes and back: the terminated bytes parse as a C string whose content
/// decodes to the original characters.
pub proof fn lemma_to_cstring_round_trip(s: Seq<char>)
    requires
        !s.contains('\0'),
    ensures
        ({
            let c = encode_utf8(s).push(0u8);
            &&& c.len() > 0
            &&& c.last() == 0u8
            &&& forall|k: int| 0 <= k < c.len() - 1 ==> c[k] != 0u8
            &&& valid_utf8(c.drop_last())
            &&& decode_utf8(c.drop_last()) == s
        }),
{
    broadcast use encode_utf8_valid_utf8;
    broadcast use encode_utf8_decode_utf8;

    let c = encode_utf8(s).push(0u8);
    lemma_encode_utf8_nul(s);
    assert(c.drop_last() =~= encode_utf8(s));
    assert(forall|k: int| 0 <= k < c.len() - 1 ==> c[k] != 0u8) by {
        assert forall|k: int| 0 <= k < c.len() - 1 implies c[k] != 0u8 by {
            if c[k] == 0u8 {
                assert(encode_utf8(s)[k] == 0u8);
                assert(encode_utf8(s).contains(0u8));
            }
        }
    }
}


/// The position of the first occurrence of `c` in `s`, or the length of `s`
/// when it does not occur.
pub open spec fn first_char_idx(s: Seq<char>, c: char) -> int
    decreases s.len(),
{
    if s.len() == 0 {
        0
    } else if s[0] == c {
        0
    } else {
        1 + first_char_idx(s.drop_first(), c)
    }
}

proof fn lemma_first_char_idx(s: Seq<char>, c: char, i: int)
    requires
        0 <= i <= s.len(),
        forall|k: int| 0 <= k < i ==> s[k] != c,
        i < s.len() ==> s[i] == c,
    ensures
        first_char_idx(s, c) == i,
    decreases s.len(),
{
    if s.len() == 0 {
    } else if s[0] == c {
    } else {
        lemma_first_char_idx(s.drop_first(), c, i - 1);
    }
}

/// The position of the first occurrence of `c`, or the length when absent.
pub fn find_char(s: &str, c: char) -> (i: usize)
    ensures
        i as int == first_char_idx(s@, c),
        i <= s@.len(),
        i < s@.len() ==> s@[i as int] == c,
        forall|k: int| 0 <= k < i ==> s@[k] != c,
{
    let len = s.unicode_len();
    let mut i: usize = 0;
    while i < len
        invariant
            i <= len,
            len == s@.len(),
            forall|k: int| 0 <= k < i ==> s@[k] != c,
        decreases len - i,
    {
        if s.get_char(i) == c {
            proof {
                lemma_first_char_idx(s@, c, i as int);
            }
            return i;
        }
        i = i + 1;
    }
    proof {
        lemma_first_char_idx(s@, c, len as int);
    }
    len
}

/// Character-wise string equality.
pub fn str_eq(a: &str, b: &str) -> (r: bool)
    ensures
        r <==> a@ == b@,
{
    let alen = a.unicode_len();
    let blen = b.unicode_len();
    if alen != blen {
        return false;
    }
    let mut i: usize = 0;
    while i < alen
        invariant
            i <= alen,
            alen == a@.len(),
            alen == b@.len(),
            forall|k: int| 0 <= k < i ==> a@[k] == b@[k],
        decreases alen - i,
    {
        if a.get_char(i) != b.get_char(i) {
            return false;
        }
        i = i + 1;
    }
    proof {
        assert(a@ =~= b@);
    }
    true
}

} // verus!
