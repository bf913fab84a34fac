//! The parts of `ethers` that mint decoding goes through: the event
//! signature hash, 256-bit integers in decimal, and ABI arrays.

use vstd::prelude::*;

verus! {

/// The Keccak-256 hash of a byte string.
pub uninterp spec fn keccak256(data: Seq<u8>) -> Seq<u8>;

/// The unsigned integer that bytes spell out, most significant byte first.
pub open spec fn be_value(bytes: Seq<u8>) -> nat
    decreases bytes.len(),
{
    if bytes.len() == 0 {
        0
    } else {
        be_value(bytes.drop_last()) * 256 + bytes.last() as nat
    }
}

/// The character of a decimal digit.
pub open spec fn decimal_digit(d: nat) -> char {
    if d == 0 {
        '0'
    } else if d == 1 {
        '1'
    } else if d == 2 {
        '2'
    } else if d == 3 {
        '3'
    } else if d == 4 {
        '4'
    } else if d == 5 {
        '5'
    } else if d == 6 {
        '6'
    } else if d == 7 {
        '7'
    } else if d == 8 {
        '8'
    } else {
        '9'
    }
}

/// A natural number in decimal, without leading zeros.
pub open spec fn decimal_spec(n: nat) -> Seq<char>
    decreases n,
{
    if n < 10 {
        seq![decimal_digit(n)]
    } else {
        decimal_spec(n / 10).push(decimal_digit(n % 10))
    }
}

/// The views of a sequence of 32-byte words.
pub open spec fn words_view(words: Seq<[u8; 32]>) -> Seq<Seq<u8>> {
    words.map_values(|w: [u8; 32]| w@)
}

/// Whether a whole 32-byte word can be read at `offset`.
pub open spec fn fits_word(data: Seq<u8>, offset: int) -> bool {
    0 <= offset && offset + 32 <= data.len()
}

/// The 32 bytes at `offset`.
pub open spec fn word_at(data: Seq<u8>, offset: int) -> Seq<u8> {
    data.subrange(offset, offset + 32)
}

/// A word read as an offset or a length: its first 28 bytes are zero and the
/// last four give the value, most significant byte first.
pub open spec fn small_word(word: Seq<u8>) -> Option<int> {
    if forall|i: int| 0 <= i < 28 ==> word[i] == 0 {
        Some(be_value(word.subrange(28, 32)) as int)
    } else {
        None
    }
}

/// The items of an ABI-encoded dynamic array of 256-bit integers that is the
/// first parameter of `data`: the head word gives the offset of the array, the
/// word there its length, and the items follow it, 32 bytes each. Bytes after
/// the items are not looked at.
pub open spec fn abi_uint_array(data: Seq<u8>) -> Option<Seq<Seq<u8>>> {
    if !fits_word(data, 0) {
        None
    } else {
        match small_word(word_at(data, 0)) {
            None => None,
            Some(at) => if !fits_word(data, at) {
                None
            } else {
                match small_word(word_at(data, at)) {
                    None => None,
                    Some(count) => {
                        let tail = data.skip(at + 32);
                        if 32 * count <= tail.len() {
                            Some(Seq::new(count as nat, |i: int| word_at(tail, 32 * i)))
                        } else {
                            None
                        }
                    },
                }
            },
        }
    }
}

/// Calls `ethers::utils::keccak256`. The contract only gives the result its
/// name: the hash is a function of the input bytes alone.
#[verifier::external_body]
pub(crate) fn keccak256_hash(data: &[u8]) -> (out: [u8; 32])
    ensures
        out@ == keccak256(data@),
{
    ethers::utils::keccak256(data)
}

/// Calls `ethers::types::U256::from_big_endian` on a 32-byte word and
/// `to_string` on the result: the word's value, written in decimal.
#[verifier::external_body]
pub(crate) fn u256_decimal(word: &[u8; 32]) -> (out: String)
    ensures
        out@ == decimal_spec(be_value(word@)),
{
    ethers::types::U256::from_big_endian(word).to_string()
}

/// Calls `ethers::abi::decode` for one parameter of type `uint256[]` and
/// hands the items out as big-endian words. Decoding fails where a word that
/// is needed lies outside the data or an offset or length does not fit 32
/// bits; otherwise the items are the words that follow the length.
#[verifier::external_body]
pub(crate) fn abi_decode_uint_array(data: &[u8]) -> (out: Option<Vec<[u8; 32]>>)
    ensures
        out matches Some(words) ==> abi_uint_array(data@) == Some(words_view(words@)),
        out is None ==> abi_uint_array(data@) is None,
{
    let kinds = [ethers::abi::ParamType::Array(Box::new(ethers::abi::ParamType::Uint(256)))];
    let tokens = ethers::abi::decode(&kinds, data).ok()?;
    let items = tokens.into_iter().next()?.into_array()?;
    items.into_iter().map(|item| item.into_uint().map(<[u8; 32]>::from)).collect()
}

} // verus!
