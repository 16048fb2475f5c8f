//! 32-byte hashes written as 64 hexadecimal digits.
//!
//! Block hashes are parsed by the `bitcoin` crate and Utreexo accumulator
//! roots by the `rustreexo` crate. Both accept exactly 64 ASCII hex digits
//! (either case); a block hash is written most significant byte first, so its
//! bytes come out reversed, while an accumulator root keeps the written order.

use vstd::prelude::*;
use std::str::FromStr;

verus! {

/// The value of one hexadecimal digit, in either case.
pub open spec fn hex_digit_value(c: char) -> Option<u8> {
    if '0' <= c && c <= '9' {
        Some((c as int - '0' as int) as u8)
    } else if 'a' <= c && c <= 'f' {
        Some((c as int - 'a' as int + 10) as u8)
    } else if 'A' <= c && c <= 'F' {
        Some((c as int - 'A' as int + 10) as u8)
    } else {
        None
    }
}

/// `s` is a 32-byte hash written as exactly 64 hexadecimal digits.
pub open spec fn is_hash_hex(s: Seq<char>) -> bool {
    &&& s.len() == 64
    &&& forall|i: int| 0 <= i < 64 ==> (#[trigger] hex_digit_value(s[i])) is Some
}

/// The byte written by the digit pair at positions `2k` and `2k + 1`.
pub open spec fn hex_pair_byte(s: Seq<char>, k: int) -> u8 {
    (hex_digit_value(s[2 * k]).unwrap() * 16 + hex_digit_value(s[2 * k + 1]).unwrap()) as u8
}

/// The 32 bytes of `s`, in the order in which they are written.
pub open spec fn hash_bytes_in_order(s: Seq<char>) -> Seq<u8> {
    Seq::new(32, |k: int| hex_pair_byte(s, k))
}

/// The 32 bytes of `s`, last written byte first (how block hashes are displayed).
pub open spec fn hash_bytes_reversed(s: Seq<char>) -> Seq<u8> {
    Seq::new(32, |k: int| hex_pair_byte(s, 31 - k))
}

/// Parses a block hash with `bitcoin::BlockHash::from_str`, handing back its bytes
/// (`to_byte_array`).
///
/// Trusted: `from_str` decodes a fixed-length hex string (`<[u8; 32]>::from_hex`
/// of hex-conservative, which fails unless the string has 64 bytes that are all
/// ASCII hex digits of either case) and then reverses the bytes, since block
/// hashes are displayed backwards.
#[verifier::external_body]
pub(crate) fn parse_block_hash(s: &str) -> (r: Option<[u8; 32]>)
    ensures
        r is Some <==> is_hash_hex(s@),
        r matches Some(b) ==> b@ == hash_bytes_reversed(s@),
{
    match bitcoin::BlockHash::from_str(s) {
        Ok(h) => Some(bitcoin::hashes::Hash::to_byte_array(h)),
        Err(_) => None,
    }
}

/// Parses an accumulator root with `rustreexo::node_hash::BitcoinNodeHash::from_str`,
/// handing back its bytes (through `Deref`).
///
/// Trusted: `from_str` is `hex_conservative::decode_to_array::<32>`, which fails
/// unless the string has 64 bytes that are all ASCII hex digits of either case,
/// and keeps the bytes in the written order inside `BitcoinNodeHash::Some`.
#[verifier::external_body]
pub(crate) fn parse_node_hash(s: &str) -> (r: Option<[u8; 32]>)
    ensures
        r is Some <==> is_hash_hex(s@),
        r matches Some(b) ==> b@ == hash_bytes_in_order(s@),
{
    match rustreexo::node_hash::BitcoinNodeHash::from_str(s) {
        Ok(h) => Some(*h),
        Err(_) => None,
    }
}

/// The bytes of a block hash are those of the same text read as an accumulator
/// root, in reverse order.
pub proof fn lemma_block_hash_is_reversed_root(s: Seq<char>)
    ensures
        hash_bytes_reversed(s) == hash_bytes_in_order(s).reverse(),
{
    assert(hash_bytes_reversed(s) =~= hash_bytes_in_order(s).reverse());
}

} // verus!
