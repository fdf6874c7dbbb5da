//! Resolving a caller-supplied string into a block identifier.
//!
//! A string of exactly 64 lowercase hex digits names a block by hash; any
//! other string must be a canonical decimal integer (no sign, no leading
//! zero) and names a block by height. Heights may not carry leading zeros,
//! since such strings could otherwise become ambiguous with hashes.

use vstd::prelude::*;

use crate::error::QueryBlockError;

verus! {

/// A parsed block identifier: either a block hash or a block height.
#[derive(Clone, Copy, Debug, PartialEq, Eq)]
pub enum HashOrHeight {
    /// A block named by its 32-byte hash.
    Hash([u8; 32]),
    /// A block named by its height.
    Height(i32),
}

/// The character is a lowercase hexadecimal digit.
pub open spec fn is_hex_digit(c: char) -> bool {
    ('0' <= c && c <= '9') || ('a' <= c && c <= 'f')
}

/// The numeric value of a hexadecimal digit.
pub open spec fn hex_val(c: char) -> int {
    if '0' <= c && c <= '9' {
        c as int - '0' as int
    } else {
        c as int - 'a' as int + 10
    }
}

/// The string names a block by hash: exactly 64 lowercase hex digits.
pub open spec fn is_hash_ident(s: Seq<char>) -> bool {
    s.len() == 64 && (forall|i: int| 0 <= i < 64 ==> is_hex_digit(#[trigger] s[i]))
}

/// The 32 hash bytes denoted by a 64-digit hex string: byte `j` comes from
/// the digits at positions `2j` and `2j + 1`.
pub open spec fn ident_hash(s: Seq<char>) -> Seq<u8> {
    Seq::new(32, |j: int| (hex_val(s[2 * j]) * 16 + hex_val(s[2 * j + 1])) as u8)
}

/// The character is a decimal digit.
pub open spec fn is_dec_digit(c: char) -> bool {
    '0' <= c && c <= '9'
}

/// The integer denoted by a string of decimal digits.
pub open spec fn dec_value(s: Seq<char>) -> int
    decreases s.len(),
{
    if s.len() == 0 {
        0
    } else {
        dec_value(s.drop_last()) * 10 + (s.last() as int - '0' as int)
    }
}

/// The string names a block by height: a canonical decimal integer with no
/// leading zero (`"0"` itself is canonical) whose value fits a height.
pub open spec fn is_height_ident(s: Seq<char>) -> bool {
    &&& s.len() >= 1
    &&& (forall|i: int| 0 <= i < s.len() ==> is_dec_digit(#[trigger] s[i]))
    &&& (s.len() == 1 || s[0] != '0')
    &&& dec_value(s) <= i32::MAX
}

/// A string of decimal digits denotes a non-negative integer.
proof fn lemma_dec_value_nonneg(s: Seq<char>)
    requires
        forall|i: int| 0 <= i < s.len() ==> is_dec_digit(#[trigger] s[i]),
    ensures
        dec_value(s) >= 0,
    decreases s.len(),
{
    if s.len() > 0 {
        lemma_dec_value_nonneg(s.drop_last());
    }
}

/// Extending a string of decimal digits never decreases its value.
proof fn lemma_dec_value_prefix_le(s: Seq<char>, j: int)
    requires
        forall|i: int| 0 <= i < s.len() ==> is_dec_digit(#[trigger] s[i]),
        0 <= j <= s.len(),
    ensures
        dec_value(s.take(j)) <= dec_value(s),
    decreases s.len() - j,
{
    if j < s.len() {
        assert(s.take(j + 1).drop_last() =~= s.take(j));
        assert(s.take(j + 1).last() == s[j]);
        lemma_dec_value_nonneg(s.take(j));
        lemma_dec_value_prefix_le(s, j + 1);
    } else {
        assert(s.take(j) =~= s);
    }
}

/// The value of a lowercase hex digit, or `None` for any other character.
fn hex_digit_val(c: char) -> (r: Option<u8>)
    ensures
        r is Some <==> is_hex_digit(c),
        r matches Some(v) ==> v as int == hex_val(c),
{
    let u = c as u32;
    if 48 <= u && u <= 57 {
        Some((u - 48) as u8)
    } else if 97 <= u && u <= 102 {
        Some((u - 87) as u8)
    } else {
        None
    }
}

/// Decodes a 64-character string as 32 hash bytes, or reports that some
/// character is not a lowercase hex digit.
fn try_parse_hash(s: &str) -> (r: Option<[u8; 32]>)
    requires
        s@.len() == 64,
    ensures
        r is Some <==> is_hash_ident(s@),
        r matches Some(h) ==> h@ == ident_hash(s@),
{
    let mut out: [u8; 32] = [0u8; 32];
    let mut j: usize = 0;
    while j < 32
        invariant
            j <= 32,
            s@.len() == 64,
            forall|k: int| 0 <= k < 2 * j ==> is_hex_digit(#[trigger] s@[k]),
            forall|k: int| 0 <= k < j ==> out@[k] == ident_hash(s@)[k],
        decreases 32 - j,
    {
        let c1 = s.get_char(2 * j);
        let c2 = s.get_char(2 * j + 1);
        let v1 = match hex_digit_val(c1) {
            Some(v) => v,
            None => {
                return None;
            },
        };
        let v2 = match hex_digit_val(c2) {
            Some(v) => v,
            None => {
                return None;
            },
        };
        out[j] = v1 * 16 + v2;
        j += 1;
    }
    assert(out@ =~= ident_hash(s@));
    Some(out)
}

/// Parses a canonical decimal height, or reports that the string is not
/// one: empty, a leading zero, a non-digit, or a value too large.
fn try_parse_height(s: &str) -> (r: Option<i32>)
    ensures
        r is Some <==> is_height_ident(s@),
        r matches Some(v) ==> v as int == dec_value(s@),
{
    let n = s.unicode_len();
    if n == 0 {
        return None;
    }
    if n > 1 && s.get_char(0) as u32 == 48 {
        return None;
    }
    let mut acc: u64 = 0;
    let mut i: usize = 0;
    while i < n
        invariant
            i <= n,
            n == s@.len(),
            forall|k: int| 0 <= k < i ==> is_dec_digit(#[trigger] s@[k]),
            acc as int == dec_value(s@.take(i as int)),
            acc <= i32::MAX,
        decreases n - i,
    {
        let c = s.get_char(i);
        let u = c as u32;
        if u < 48 || u > 57 {
            return None;
        }
        proof {
            assert(s@.take(i + 1).drop_last() =~= s@.take(i as int));
            assert(s@.take(i + 1).last() == s@[i as int]);
        }
        acc = acc * 10 + (u - 48) as u64;
        if acc > 2147483647 {
            proof {
                if is_height_ident(s@) {
                    lemma_dec_value_prefix_le(s@, i + 1);
                }
            }
            return None;
        }
        i += 1;
    }
    proof {
        assert(s@.take(n as int) =~= s@);
    }
    Some(acc as i32)
}

/// Resolves an identifier string: a 64-digit lowercase hex string denotes
/// a hash, any other string must be a canonical decimal height.
pub fn parse_hash_or_height(s: &str) -> (r: Result<HashOrHeight, QueryBlockError>)
    ensures
        is_hash_ident(s@) ==> (r matches Ok(HashOrHeight::Hash(h)) && h@ == ident_hash(s@)),
        !is_hash_ident(s@) && is_height_ident(s@) ==> (r matches Ok(HashOrHeight::Height(v))
            && v as int == dec_value(s@)),
        !is_hash_ident(s@) && !is_height_ident(s@) ==> (r matches Err(
            QueryBlockError::InvalidIdentifier(m),
        ) && m@ == s@),
{
    let n = s.unicode_len();
    if n == 64 {
        if let Some(h) = try_parse_hash(s) {
            return Ok(HashOrHeight::Hash(h));
        }
    }
    match try_parse_height(s) {
        Some(v) => Ok(HashOrHeight::Height(v)),
        None => Err(QueryBlockError::InvalidIdentifier(s.to_owned())),
    }
}

} // verus!
