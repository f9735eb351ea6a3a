//! Verified text arithmetic: per-character UTF-8/UTF-16 widths, prefix sums,
//! byte-offset/character-index conversion, substring search, decimal
//! rendering, and plain string comparison. These are the primitives the
//! position index and the path resolver are built on.

use vstd::prelude::*;

verus! {

use vstd::string::StrSliceExecFns;
use vstd::string::StringSliceAdditionalSpecFns;

/// Number of bytes the UTF-8 encoding of `c` occupies.
pub open spec fn char_utf8_len(c: char) -> nat {
    if (c as u32) < 0x80 {
        1
    } else if (c as u32) < 0x800 {
        2
    } else if (c as u32) < 0x10000 {
        3
    } else {
        4
    }
}

/// Number of 16-bit units the UTF-16 encoding of `c` occupies.
pub open spec fn char_utf16_len(c: char) -> nat {
    if (c as u32) < 0x10000 {
        1
    } else {
        2
    }
}

/// Total UTF-8 byte length of a character sequence.
pub open spec fn utf8_len(s: Seq<char>) -> nat
    decreases s,
{
    if s.len() == 0 {
        0
    } else {
        char_utf8_len(s[0]) + utf8_len(s.drop_first())
    }
}

/// Total UTF-16 unit length of a character sequence.
pub open spec fn utf16_len(s: Seq<char>) -> nat
    decreases s,
{
    if s.len() == 0 {
        0
    } else {
        char_utf16_len(s[0]) + utf16_len(s.drop_first())
    }
}

/// UTF-16 unit count of the shortest character prefix of `s` whose UTF-8 byte
/// length is at least `b`: every character that starts before byte `b` counts.
pub open spec fn utf16_of_utf8(s: Seq<char>, b: int) -> nat
    decreases s,
{
    if b <= 0 || s.len() == 0 {
        0
    } else {
        char_utf16_len(s[0]) + utf16_of_utf8(s.drop_first(), b - char_utf8_len(s[0]))
    }
}

/// Number of characters of `s` that lie entirely before byte offset `b`.
pub open spec fn char_idx_of_byte(s: Seq<char>, b: int) -> int
    decreases s,
{
    if b <= 0 || s.len() == 0 {
        0
    } else {
        1 + char_idx_of_byte(s.drop_first(), b - char_utf8_len(s[0]))
    }
}

/// `b` is a character boundary of `s` in UTF-8 bytes.
pub open spec fn is_utf8_boundary(s: Seq<char>, b: int) -> bool {
    exists|k: int| 0 <= k <= s.len() && utf8_len(s.take(k)) == b
}

/// `pat` occurs in `s` at character index `ci`.
pub open spec fn matches_at(s: Seq<char>, ci: int, pat: Seq<char>) -> bool {
    0 <= ci && ci + pat.len() <= s.len() && s.subrange(ci, ci + pat.len() as int) == pat
}

/// Least character index `k >= ci` where `pat` occurs in `s`, if any.
pub open spec fn find_char_from(s: Seq<char>, ci: int, pat: Seq<char>) -> Option<int>
    recommends
        0 <= ci,
    decreases s.len() - ci + 1,
{
    if ci + pat.len() > s.len() {
        Option::None
    } else if matches_at(s, ci, pat) {
        Option::Some(ci)
    } else {
        find_char_from(s, ci + 1, pat)
    }
}

/// `s` with every occurrence of `pat` removed, scanning left to right without
/// overlap; an empty pattern removes nothing.
pub open spec fn remove_all(s: Seq<char>, pat: Seq<char>) -> Seq<char>
    decreases s.len(),
{
    if pat.len() == 0 || s.len() == 0 {
        s
    } else if pat.is_prefix_of(s) {
        remove_all(s.skip(pat.len() as int), pat)
    } else {
        seq![s[0]] + remove_all(s.drop_first(), pat)
    }
}

/// The decimal digit character for `d`.
pub open spec fn dec_digit(d: int) -> char {
    if d == 0 {
        '0'
    } else if d == 1 {
        '1'
    } else if d == 2 {
        '2'
    } else if d == 3 {
        '3'
    } else if d == 4 {
        '4'
    } else if d == 5 {
        '5'
    } else if d == 6 {
        '6'
    } else if d == 7 {
        '7'
    } else if d == 8 {
        '8'
    } else {
        '9'
    }
}

/// Decimal rendering of a nonnegative integer, without leading zeros.
pub open spec fn dec_str(n: int) -> Seq<char>
    decreases n,
{
    if n < 10 {
        seq![dec_digit(n)]
    } else {
        dec_str(n / 10).push(dec_digit(n % 10))
    }
}

// ---------------------------------------------------------------------------
// Lemmas
// ---------------------------------------------------------------------------

/// The byte length the standard library reports for a string equals the sum
/// of the per-character UTF-8 widths.
pub proof fn lemma_utf8_len_is_byte_len(s: Seq<char>)
    ensures
        vstd::utf8::encode_utf8(s).len() == utf8_len(s),
    decreases s,
{
    if s.len() != 0 {
        vstd::utf8::char_is_scalar(s[0]);
        assert(vstd::utf8::encode_scalar(s[0] as u32).len() == char_utf8_len(s[0]));
        lemma_utf8_len_is_byte_len(s.drop_first());
    } else {
        assert(vstd::utf8::encode_utf8(s).len() == 0);
    }
}

pub proof fn lemma_utf8_len_push(s: Seq<char>, c: char)
    ensures
        utf8_len(s.push(c)) == utf8_len(s) + char_utf8_len(c),
    decreases s,
{
    if s.len() == 0 {
        assert(s.push(c)[0] == c);
        assert(s.push(c).drop_first() =~= Seq::<char>::empty());
        assert(utf8_len(Seq::<char>::empty()) == 0);
        assert(utf8_len(s.push(c)) == char_utf8_len(c) + utf8_len(s.push(c).drop_first()));
    } else {
        assert(s.push(c)[0] == s[0]);
        assert(s.push(c).drop_first() =~= s.drop_first().push(c));
        lemma_utf8_len_push(s.drop_first(), c);
        assert(utf8_len(s.push(c)) == char_utf8_len(s[0]) + utf8_len(s.push(c).drop_first()));
        assert(utf8_len(s) == char_utf8_len(s[0]) + utf8_len(s.drop_first()));
    }
}

pub proof fn lemma_utf16_len_push(s: Seq<char>, c: char)
    ensures
        utf16_len(s.push(c)) == utf16_len(s) + char_utf16_len(c),
    decreases s,
{
    if s.len() == 0 {
        assert(s.push(c)[0] == c);
        assert(s.push(c).drop_first() =~= Seq::<char>::empty());
        assert(utf16_len(Seq::<char>::empty()) == 0);
        assert(utf16_len(s.push(c)) == char_utf16_len(c) + utf16_len(s.push(c).drop_first()));
    } else {
        assert(s.push(c)[0] == s[0]);
        assert(s.push(c).drop_first() =~= s.drop_first().push(c));
        lemma_utf16_len_push(s.drop_first(), c);
        assert(utf16_len(s.push(c)) == char_utf16_len(s[0]) + utf16_len(s.push(c).drop_first()));
        assert(utf16_len(s) == char_utf16_len(s[0]) + utf16_len(s.drop_first()));
    }
}

/// UTF-16 length never exceeds UTF-8 length, and the two are equal exactly
/// when every character is a single UTF-8 byte.
pub proof fn lemma_utf16_le_utf8(s: Seq<char>)
    ensures
        utf16_len(s) <= utf8_len(s),
        utf16_len(s) == utf8_len(s) <==> (forall|i: int|
            0 <= i < s.len() ==> char_utf8_len(#[trigger] s[i]) == 1),
    decreases s,
{
    if s.len() != 0 {
        let d = s.drop_first();
        lemma_utf16_le_utf8(d);
        assert(char_utf16_len(s[0]) <= char_utf8_len(s[0]));
        if utf16_len(s) == utf8_len(s) {
            assert(char_utf16_len(s[0]) == char_utf8_len(s[0]));
            assert(char_utf8_len(s[0]) == 1);
            assert(utf16_len(d) == utf8_len(d));
            assert forall|i: int| 0 <= i < s.len() implies char_utf8_len(#[trigger] s[i])
                == 1 by {
                if i > 0 {
                    assert(d[i - 1] == s[i]);
                    assert(char_utf8_len(d[i - 1]) == 1);
                }
            }
        }
        if forall|i: int| 0 <= i < s.len() ==> char_utf8_len(#[trigger] s[i]) == 1 {
            assert forall|j: int| 0 <= j < d.len() implies char_utf8_len(#[trigger] d[j])
                == 1 by {
                assert(d[j] == s[j + 1]);
            }
            assert(utf16_len(d) == utf8_len(d));
            assert(char_utf8_len(s[0]) == 1);
            assert(char_utf16_len(s[0]) == 1);
        }
    }
}

/// In a text whose UTF-16 and UTF-8 lengths agree (no multi-byte characters),
/// converting a UTF-8 offset to UTF-16 units is the identity.
pub proof fn lemma_ascii_offset_identity(s: Seq<char>, b: int)
    requires
        utf16_len(s) == utf8_len(s),
        0 <= b <= utf8_len(s),
    ensures
        utf16_of_utf8(s, b) == b,
    decreases s,
{
    lemma_utf16_le_utf8(s);
    if b > 0 && s.len() != 0 {
        assert(char_utf8_len(s[0]) == 1);
        assert(char_utf16_len(s[0]) <= char_utf8_len(s[0]));
        lemma_utf16_le_utf8(s.drop_first());
        assert(utf16_len(s.drop_first()) == utf8_len(s.drop_first()));
        lemma_ascii_offset_identity(s.drop_first(), b - 1);
    }
}

/// Splitting off the first character of a nonempty prefix.
pub proof fn lemma_utf8_len_take_step(s: Seq<char>, k: int)
    requires
        1 <= k <= s.len(),
    ensures
        utf8_len(s.take(k)) == char_utf8_len(s[0]) + utf8_len(s.drop_first().take(k - 1)),
{
    assert(s.take(k).len() != 0);
    assert(s.take(k)[0] == s[0]);
    assert(s.take(k).drop_first() =~= s.drop_first().take(k - 1));
}

/// `char_idx_of_byte` lands within the sequence and, at a boundary, cuts the
/// sequence at exactly that byte length.
pub proof fn lemma_char_idx_of_byte_bounds(s: Seq<char>, b: int)
    requires
        0 <= b <= utf8_len(s),
    ensures
        0 <= char_idx_of_byte(s, b) <= s.len(),
        is_utf8_boundary(s, b) ==> utf8_len(s.take(char_idx_of_byte(s, b))) == b,
    decreases s,
{
    if b <= 0 || s.len() == 0 {
        assert(s.take(0) =~= Seq::<char>::empty());
    } else {
        let w0 = char_utf8_len(s[0]) as int;
        if b - w0 <= 0 {
            assert(char_idx_of_byte(s.drop_first(), b - w0) == 0);
            if is_utf8_boundary(s, b) {
                let k = choose|k: int| 0 <= k <= s.len() && utf8_len(s.take(k)) == b;
                assert(k >= 1) by {
                    if k == 0 {
                        assert(s.take(0) =~= Seq::<char>::empty());
                    }
                }
                lemma_utf8_len_take_step(s, k);
                assert(b >= w0);
                assert(b == w0);
                lemma_utf8_len_take_step(s, 1);
                assert(s.drop_first().take(0) =~= Seq::<char>::empty());
                assert(utf8_len(s.take(1)) == b);
            }
        } else {
            lemma_char_idx_of_byte_bounds(s.drop_first(), b - w0);
            let idx = char_idx_of_byte(s.drop_first(), b - w0);
            if is_utf8_boundary(s, b) {
                let k = choose|k: int| 0 <= k <= s.len() && utf8_len(s.take(k)) == b;
                assert(k >= 1) by {
                    if k == 0 {
                        assert(s.take(0) =~= Seq::<char>::empty());
                    }
                }
                lemma_utf8_len_take_step(s, k);
                assert(utf8_len(s.drop_first().take(k - 1)) == b - w0);
                assert(is_utf8_boundary(s.drop_first(), b - w0));
                assert(utf8_len(s.drop_first().take(idx)) == b - w0);
                lemma_utf8_len_take_step(s, idx + 1);
                assert(utf8_len(s.take(idx + 1)) == b);
            }
        }
    }
}

/// Concatenation adds UTF-8 lengths.
pub proof fn lemma_utf8_len_concat(a: Seq<char>, b: Seq<char>)
    ensures
        utf8_len(a + b) == utf8_len(a) + utf8_len(b),
    decreases a,
{
    if a.len() == 0 {
        assert(a + b =~= b);
    } else {
        assert((a + b)[0] == a[0]);
        assert((a + b).drop_first() =~= a.drop_first() + b);
        lemma_utf8_len_concat(a.drop_first(), b);
        assert(utf8_len(a + b) == char_utf8_len((a + b)[0]) + utf8_len((a + b).drop_first()));
    }
}

/// A prefix's UTF-8 length is part of the whole sequence's.
pub proof fn lemma_utf8_len_split(s: Seq<char>, k: int)
    requires
        0 <= k <= s.len(),
    ensures
        utf8_len(s) == utf8_len(s.take(k)) + utf8_len(s.skip(k)),
{
    assert(s =~= s.take(k) + s.skip(k));
    lemma_utf8_len_concat(s.take(k), s.skip(k));
}

/// Prefix byte lengths grow by exactly the width of the next character.
pub proof fn lemma_utf8_take_succ(s: Seq<char>, k: int)
    requires
        0 <= k < s.len(),
    ensures
        utf8_len(s.take(k + 1)) == utf8_len(s.take(k)) + char_utf8_len(s[k]),
{
    assert(s.take(k + 1) =~= s.take(k).push(s[k]));
    lemma_utf8_len_push(s.take(k), s[k]);
}

pub proof fn lemma_utf16_take_succ(s: Seq<char>, k: int)
    requires
        0 <= k < s.len(),
    ensures
        utf16_len(s.take(k + 1)) == utf16_len(s.take(k)) + char_utf16_len(s[k]),
{
    assert(s.take(k + 1) =~= s.take(k).push(s[k]));
    lemma_utf16_len_push(s.take(k), s[k]);
}

/// `char_idx_of_byte` inverts prefix byte lengths: the byte length of a
/// `k`-character prefix maps back to `k`.
pub proof fn lemma_char_idx_inverse(s: Seq<char>, k: int)
    requires
        0 <= k <= s.len(),
    ensures
        char_idx_of_byte(s, utf8_len(s.take(k)) as int) == k,
    decreases s,
{
    if k == 0 {
        assert(s.take(0) =~= Seq::<char>::empty());
    } else {
        lemma_utf8_len_take_step(s, k);
        lemma_char_idx_inverse(s.drop_first(), k - 1);
        assert(utf8_len(s.take(k)) > 0);
    }
}

// ---------------------------------------------------------------------------
// Executable layer
// ---------------------------------------------------------------------------

/// Width of `c` in UTF-8 bytes.
pub fn char_len_utf8(c: char) -> (n: usize)
    ensures
        n == char_utf8_len(c),
{
    let v = c as u32;
    if v < 0x80 {
        1
    } else if v < 0x800 {
        2
    } else if v < 0x10000 {
        3
    } else {
        4
    }
}

/// Width of `c` in UTF-16 units.
pub fn char_len_utf16(c: char) -> (n: usize)
    ensures
        n == char_utf16_len(c),
{
    let v = c as u32;
    if v < 0x10000 {
        1
    } else {
        2
    }
}

/// UTF-8 byte length of a string.
pub fn utf8_byte_len(s: &str) -> (n: usize)
    ensures
        n == utf8_len(s@),
{
    let b = s.as_bytes();
    proof {
        broadcast use vstd::slice::axiom_spec_len;

        lemma_utf8_len_is_byte_len(s@);
        assert(b@ == vstd::utf8::encode_utf8(s@));
    }
    b.len()
}

/// UTF-16 unit length of a string.
pub fn utf16_unit_len(s: &str) -> (n: usize)
    ensures
        n == utf16_len(s@),
{
    let chars = s.unicode_len();
    let total = utf8_byte_len(s);
    let mut acc: usize = 0;
    let mut i: usize = 0;
    while i < chars
        invariant
            0 <= i <= chars,
            chars == s@.len(),
            total == utf8_len(s@),
            acc == utf16_len(s@.take(i as int)),
            acc <= utf8_len(s@.take(i as int)),
        decreases chars - i,
    {
        let c = s.get_char(i);
        let w = char_len_utf16(c);
        proof {
            lemma_utf16_take_succ(s@, i as int);
            lemma_utf8_take_succ(s@, i as int);
            lemma_utf16_le_utf8(s@.take(i as int + 1));
            lemma_utf8_len_split(s@, i as int + 1);
        }
        acc = acc + w;
        i = i + 1;
    }
    proof {
        assert(s@.take(chars as int) =~= s@);
    }
    acc
}

/// Character-for-character string equality, specified over the views.
pub fn str_eq(a: &str, b: &str) -> (r: bool)
    ensures
        r == (a@ == b@),
{
    let an = a.unicode_len();
    let bn = b.unicode_len();
    if an != bn {
        proof {
            assert(a@ != b@);
        }
        return false;
    }
    let mut i: usize = 0;
    while i < an
        invariant
            0 <= i <= an,
            an == a@.len(),
            an == b@.len(),
            forall|j: int| 0 <= j < i ==> a@[j] == b@[j],
        decreases an - i,
    {
        let ca = a.get_char(i);
        let cb = b.get_char(i);
        if ca != cb {
            proof {
                assert(a@[i as int] != b@[i as int]);
            }
            return false;
        }
        i = i + 1;
    }
    proof {
        assert(a@ =~= b@);
    }
    true
}

/// Does `p` prefix `s`?
pub fn starts_with_str(s: &str, p: &str) -> (r: bool)
    ensures
        r == p@.is_prefix_of(s@),
{
    let sn = s.unicode_len();
    let pn = p.unicode_len();
    if pn > sn {
        return false;
    }
    let head = s.substring_char(0, pn);
    proof {
        assert(p@.is_prefix_of(s@) == (s@.subrange(0, pn as int) == p@));
    }
    str_eq(head, p)
}

/// Number of characters of `s` before byte offset `b`; `b` must be a
/// character boundary.
pub fn char_idx_at_byte(s: &str, b: usize) -> (ci: usize)
    requires
        0 <= b <= utf8_len(s@),
        is_utf8_boundary(s@, b as int),
    ensures
        ci == char_idx_of_byte(s@, b as int),
        ci <= s@.len(),
        utf8_len(s@.take(ci as int)) == b,
{
    let chars = s.unicode_len();
    let mut acc: usize = 0;
    let mut i: usize = 0;
    while acc < b
        invariant
            0 <= i <= chars,
            chars == s@.len(),
            b <= utf8_len(s@),
            is_utf8_boundary(s@, b as int),
            acc == utf8_len(s@.take(i as int)),
            acc <= b,
        decreases b - acc,
    {
        proof {
            lemma_utf8_len_split(s@, i as int);
            if i == chars {
                assert(s@.take(i as int) =~= s@);
            }
        }
        let c = s.get_char(i);
        let w = char_len_utf8(c);
        proof {
            lemma_utf8_take_succ(s@, i as int);
            assert(exists|k: int| 0 <= k <= s@.len() && utf8_len(s@.take(k)) == b as int);
            let k = choose|k: int| 0 <= k <= s@.len() && utf8_len(s@.take(k)) == b as int;
            lemma_take_len_strict_monotonic(s@, i as int, k);
            assert(acc + w <= b);
        }
        acc = acc + w;
        i = i + 1;
    }
    proof {
        lemma_char_idx_inverse(s@, i as int);
    }
    i
}

/// No prefix byte length falls strictly inside a character's encoding.
pub proof fn lemma_take_len_strict_monotonic(s: Seq<char>, i: int, k: int)
    requires
        0 <= i < s.len(),
        0 <= k <= s.len(),
    ensures
        utf8_len(s.take(k)) <= utf8_len(s.take(i)) || utf8_len(s.take(k)) >= utf8_len(s.take(i))
            + char_utf8_len(s[i]),
{
    if k <= i {
        lemma_take_le_monotonic(s, k, i);
    } else {
        lemma_utf8_take_succ(s, i);
        lemma_take_le_monotonic(s, i + 1, k);
    }
}

/// Longer prefixes have at least the byte length of shorter ones.
pub proof fn lemma_take_le_monotonic(s: Seq<char>, j: int, k: int)
    requires
        0 <= j <= k <= s.len(),
    ensures
        utf8_len(s.take(j)) <= utf8_len(s.take(k)),
{
    assert(s.take(k).take(j) =~= s.take(j));
    lemma_utf8_len_split(s.take(k), j);
}

/// A successful search lands at or after the start, inside the sequence.
pub proof fn lemma_find_char_from_bounds(s: Seq<char>, ci: int, pat: Seq<char>)
    requires
        0 <= ci,
    ensures
        match find_char_from(s, ci, pat) {
            Option::Some(k) => ci <= k && k + pat.len() <= s.len(),
            Option::None => true,
        },
    decreases s.len() - ci + 1,
{
    if ci + pat.len() > s.len() {
    } else if matches_at(s, ci, pat) {
    } else {
        lemma_find_char_from_bounds(s, ci + 1, pat);
    }
}

/// Byte offset of the first occurrence of `pat` at or after byte offset
/// `start_b`, or `start_b` itself when there is none (the engine's defensive
/// fallback).
pub open spec fn find_byte_from(s: Seq<char>, start_b: int, pat: Seq<char>) -> int {
    match find_char_from(s, char_idx_of_byte(s, start_b), pat) {
        Option::Some(k) => utf8_len(s.take(k)) as int,
        Option::None => start_b,
    }
}

/// Does `pat` occur in `s` at character index `ci`?
pub fn chars_match_at(s: &str, ci: usize, pat: &str) -> (r: bool)
    ensures
        r == matches_at(s@, ci as int, pat@),
{
    let sn = s.unicode_len();
    let pn = pat.unicode_len();
    if ci > sn || pn > sn - ci {
        return false;
    }
    let mut j: usize = 0;
    while j < pn
        invariant
            0 <= j <= pn,
            ci + pn <= sn,
            sn == s@.len(),
            pn == pat@.len(),
            forall|t: int| 0 <= t < j ==> s@[ci + t] == pat@[t],
        decreases pn - j,
    {
        let cs = s.get_char(ci + j);
        let cp = pat.get_char(j);
        if cs != cp {
            proof {
                assert(s@.subrange(ci as int, ci as int + pn as int)[j as int] == s@[ci + j]);
            }
            return false;
        }
        j = j + 1;
    }
    proof {
        assert(s@.subrange(ci as int, ci as int + pn as int) =~= pat@);
    }
    true
}

/// Scan forward from byte offset `start_b` for the literal text `pat`; return
/// the byte offset where it first occurs, or `start_b` when it does not.
pub fn find_from_byte(s: &str, start_b: usize, pat: &str) -> (r: usize)
    requires
        start_b <= utf8_len(s@),
        is_utf8_boundary(s@, start_b as int),
    ensures
        r == find_byte_from(s@, start_b as int, pat@),
        r <= utf8_len(s@),
{
    let ci0 = char_idx_at_byte(s, start_b);
    let sn = s.unicode_len();
    let pn = pat.unicode_len();
    if pn > sn || ci0 > sn - pn {
        return start_b;
    }
    let total = utf8_byte_len(s);
    let mut ci = ci0;
    let mut bacc = start_b;
    while ci <= sn - pn
        invariant
            ci0 <= ci <= sn,
            pn <= sn,
            sn == s@.len(),
            pn == pat@.len(),
            total == utf8_len(s@),
            ci0 == char_idx_of_byte(s@, start_b as int),
            start_b <= utf8_len(s@),
            bacc == utf8_len(s@.take(ci as int)),
            find_char_from(s@, ci0 as int, pat@) == find_char_from(s@, ci as int, pat@),
        decreases sn - ci,
    {
        if chars_match_at(s, ci, pat) {
            proof {
                assert(find_char_from(s@, ci as int, pat@) == Option::Some(ci as int));
                lemma_take_le_monotonic(s@, ci as int, sn as int);
                assert(s@.take(sn as int) =~= s@);
            }
            return bacc;
        }
        proof {
            assert(pn > 0) by {
                if pn == 0 {
                    assert(s@.subrange(ci as int, ci as int) =~= pat@);
                }
            }
            assert(find_char_from(s@, ci as int, pat@) == find_char_from(
                s@,
                ci as int + 1,
                pat@,
            ));
            lemma_utf8_take_succ(s@, ci as int);
            lemma_utf8_len_split(s@, ci as int + 1);
        }
        let c = s.get_char(ci);
        let w = char_len_utf8(c);
        bacc = bacc + w;
        ci = ci + 1;
    }
    proof {
        assert(find_char_from(s@, ci as int, pat@) == Option::<int>::None);
    }
    start_b
}

/// The substring of `s` between two byte offsets, both character boundaries.
pub fn substring_bytes(s: &str, from_b: usize, to_b: usize) -> (r: String)
    requires
        from_b <= to_b <= utf8_len(s@),
        is_utf8_boundary(s@, from_b as int),
        is_utf8_boundary(s@, to_b as int),
    ensures
        r@ == s@.subrange(char_idx_of_byte(s@, from_b as int), char_idx_of_byte(s@, to_b as int)),
        utf8_len(r@) == to_b - from_b,
{
    let cfrom = char_idx_at_byte(s, from_b);
    let cto = char_idx_at_byte(s, to_b);
    proof {
        if cfrom > cto {
            lemma_take_le_monotonic(s@, cto as int, cfrom as int);
        }
        assert(s@.take(cto as int).take(cfrom as int) =~= s@.take(cfrom as int));
        lemma_utf8_len_split(s@.take(cto as int), cfrom as int);
        assert(s@.take(cto as int).skip(cfrom as int) =~= s@.subrange(
            cfrom as int,
            cto as int,
        ));
    }
    let sub = s.substring_char(cfrom, cto);
    sub.to_owned()
}

/// UTF-16 unit count of the text before byte offset `b`.
pub fn utf16_at_byte(s: &str, b: usize) -> (r: usize)
    requires
        b <= utf8_len(s@),
    ensures
        r == utf16_of_utf8(s@, b as int),
{
    let sn = s.unicode_len();
    let total = utf8_byte_len(s);
    let mut i: usize = 0;
    let mut acc8: usize = 0;
    let mut acc16: usize = 0;
    proof {
        assert(s@.take(0) =~= Seq::<char>::empty());
        assert(s@.skip(0) =~= s@);
    }
    while acc8 < b
        invariant
            0 <= i <= sn,
            sn == s@.len(),
            total == utf8_len(s@),
            b <= utf8_len(s@),
            acc8 == utf8_len(s@.take(i as int)),
            acc16 == utf16_len(s@.take(i as int)),
            utf16_of_utf8(s@, b as int) == acc16 + utf16_of_utf8(
                s@.skip(i as int),
                b - acc8,
            ),
        decreases total - acc8,
    {
        proof {
            lemma_utf8_len_split(s@, i as int);
            if i == sn {
                assert(s@.take(i as int) =~= s@);
            }
        }
        let c = s.get_char(i);
        let w8 = char_len_utf8(c);
        let w16 = char_len_utf16(c);
        proof {
            lemma_utf8_take_succ(s@, i as int);
            lemma_utf16_take_succ(s@, i as int);
            lemma_utf16_le_utf8(s@.take(i as int + 1));
            assert(s@.skip(i as int)[0] == s@[i as int]);
            assert(s@.skip(i as int).drop_first() =~= s@.skip(i as int + 1));
            assert(utf16_of_utf8(s@.skip(i as int), b - acc8) == char_utf16_len(s@[i as int])
                + utf16_of_utf8(s@.skip(i as int + 1), b - acc8 - char_utf8_len(s@[i as int])));
        }
        acc8 = acc8 + w8;
        acc16 = acc16 + w16;
        i = i + 1;
    }
    proof {
        assert(utf16_of_utf8(s@.skip(i as int), b - acc8) == 0);
    }
    acc16
}

/// The single-character string for a decimal digit.
fn digit_str(d: u64) -> (r: &'static str)
    requires
        d < 10,
    ensures
        r@ == seq![dec_digit(d as int)],
{
    proof {
        reveal_strlit("0");
        reveal_strlit("1");
        reveal_strlit("2");
        reveal_strlit("3");
        reveal_strlit("4");
        reveal_strlit("5");
        reveal_strlit("6");
        reveal_strlit("7");
        reveal_strlit("8");
        reveal_strlit("9");
    }
    if d == 0 {
        proof {
            assert("0"@ =~= seq![dec_digit(0)]);
        }
        "0"
    } else if d == 1 {
        proof {
            assert("1"@ =~= seq![dec_digit(1)]);
        }
        "1"
    } else if d == 2 {
        proof {
            assert("2"@ =~= seq![dec_digit(2)]);
        }
        "2"
    } else if d == 3 {
        proof {
            assert("3"@ =~= seq![dec_digit(3)]);
        }
        "3"
    } else if d == 4 {
        proof {
            assert("4"@ =~= seq![dec_digit(4)]);
        }
        "4"
    } else if d == 5 {
        proof {
            assert("5"@ =~= seq![dec_digit(5)]);
        }
        "5"
    } else if d == 6 {
        proof {
            assert("6"@ =~= seq![dec_digit(6)]);
        }
        "6"
    } else if d == 7 {
        proof {
            assert("7"@ =~= seq![dec_digit(7)]);
        }
        "7"
    } else if d == 8 {
        proof {
            assert("8"@ =~= seq![dec_digit(8)]);
        }
        "8"
    } else {
        proof {
            assert("9"@ =~= seq![dec_digit(9)]);
        }
        "9"
    }
}

/// Decimal rendering of `n`.
pub fn u64_to_dec(n: u64) -> (r: String)
    ensures
        r@ == dec_str(n as int),
{
    let mut v: u64 = n;
    let mut out = String::new();
    proof {
        assert(dec_str(n as int) + Seq::<char>::empty() =~= dec_str(n as int));
    }
    while v >= 10
        invariant
            dec_str(n as int) == dec_str(v as int) + out@,
        decreases v,
    {
        let d = v % 10;
        let next = v / 10;
        proof {
            assert(dec_str(v as int) == dec_str(v as int / 10).push(dec_digit(v as int % 10)));
            assert(dec_str(next as int).push(dec_digit(d as int)) + out@ =~= dec_str(next as int)
                + (seq![dec_digit(d as int)] + out@));
        }
        let piece = digit_str(d).to_owned();
        out = piece.concat(out.as_str());
        v = next;
    }
    let last = digit_str(v).to_owned();
    let r = last.concat(out.as_str());
    proof {
        assert(dec_str(v as int) == seq![dec_digit(v as int)]);
    }
    r
}

/// `s` with every occurrence of `pat` removed.
pub fn remove_all_str(s: &str, pat: &str) -> (r: String)
    ensures
        r@ == remove_all(s@, pat@),
{
    let sn = s.unicode_len();
    let pn = pat.unicode_len();
    if pn == 0 {
        proof {
            assert(remove_all(s@, pat@) == s@);
        }
        return s.to_owned();
    }
    let mut out = String::new();
    let mut ci: usize = 0;
    proof {
        assert(s@.skip(0) =~= s@);
        assert(Seq::<char>::empty() + remove_all(s@, pat@) =~= remove_all(s@, pat@));
    }
    while ci < sn
        invariant
            0 <= ci <= sn,
            sn == s@.len(),
            pn == pat@.len(),
            pn >= 1,
            remove_all(s@, pat@) == out@ + remove_all(s@.skip(ci as int), pat@),
        decreases sn - ci,
    {
        let ghost rest = s@.skip(ci as int);
        proof {
            assert(rest.len() != 0);
            assert(rest[0] == s@[ci as int]);
            assert(rest.drop_first() =~= s@.skip(ci as int + 1));
        }
        if chars_match_at(s, ci, pat) {
            proof {
                assert(rest.subrange(0, pn as int) =~= s@.subrange(
                    ci as int,
                    ci as int + pn as int,
                ));
                assert(pat@.is_prefix_of(rest));
                assert(rest.skip(pn as int) =~= s@.skip(ci as int + pn as int));
                assert(remove_all(rest, pat@) == remove_all(
                    s@.skip(ci as int + pn as int),
                    pat@,
                ));
            }
            ci = ci + pn;
        } else {
            proof {
                if pat@.is_prefix_of(rest) {
                    assert(rest.subrange(0, pn as int) =~= s@.subrange(
                        ci as int,
                        ci as int + pn as int,
                    ));
                }
                assert(remove_all(rest, pat@) == seq![rest[0]] + remove_all(
                    rest.drop_first(),
                    pat@,
                ));
            }
            let piece = s.substring_char(ci, ci + 1);
            proof {
                assert(piece@ =~= seq![s@[ci as int]]);
            }
            let ghost out_old = out@;
            let out2 = out.concat(piece);
            out = out2;
            proof {
                assert(out@ + remove_all(s@.skip(ci as int + 1), pat@) =~= out_old + (seq![
                    s@[ci as int],
                ] + remove_all(s@.skip(ci as int + 1), pat@)));
            }
            ci = ci + 1;
        }
    }
    proof {
        assert(s@.skip(ci as int) =~= Seq::<char>::empty());
        assert(remove_all(Seq::<char>::empty(), pat@) =~= Seq::<char>::empty());
        assert(out@ + Seq::<char>::empty() =~= out@);
    }
    out
}

} // verus!
