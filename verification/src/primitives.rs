//! Trusted bindings to the two hash constructions and the byte-to-ternary
//! codec that the address format composes. Each outside call stands behind a
//! wrapper whose contract names its result; nothing else in the crate calls
//! an outside crate.

use vstd::prelude::*;

use crate::ternary::valid_trits;

use blake2::digest::{Update, VariableOutput};
use blake2::Blake2bVar;
use crypto::hashes::ternary::kerl::Kerl;
use crypto::hashes::ternary::Sponge;

verus! {

/// The 32-byte BLAKE2b-256 digest of a byte sequence.
pub uninterp spec fn blake2b256_of(bytes: Seq<u8>) -> Seq<u8>;

/// The balanced-ternary digits that the B1T6 codec produces for a byte
/// sequence: six digits for each byte.
pub uninterp spec fn b1t6_trits_of(bytes: Seq<u8>) -> Seq<i8>;

/// The 243-trit Kerl sponge hash of a padded 246-trit input, of which the
/// sponge absorbs the first 243 trits.
pub uninterp spec fn kerl_hash_of(trits: Seq<i8>) -> Seq<i8>;

/// Relies on blake2::Blake2bVar with a 32-byte output size: a BLAKE2b-256
/// digest over arbitrary-length byte input, depending on the input alone.
/// A 32-byte output size is accepted by `Blake2bVar::new`, and
/// `finalize_variable` fills a buffer of exactly that size.
#[verifier::external_body]
pub(crate) fn blake2b_256(input: &Vec<u8>) -> (r: Vec<u8>)
    ensures
        r@ == blake2b256_of(input@),
        r@.len() == 32,
{
    let mut hasher = Blake2bVar::new(32).unwrap();
    hasher.update(input.as_slice());
    let mut out = vec![0u8; 32];
    hasher.finalize_variable(&mut out).unwrap();
    out
}

/// Relies on bee_ternary::b1t6::encode: each byte becomes six balanced-ternary
/// digits (two trytes holding the byte's value in balanced base 27), a total
/// function of the input bytes alone.
#[verifier::external_body]
pub(crate) fn b1t6_encode_trits(bytes: &Vec<u8>) -> (r: Vec<i8>)
    ensures
        r@ == b1t6_trits_of(bytes@),
        r@.len() == 6 * bytes@.len(),
        valid_trits(r@),
{
    bee_ternary::b1t6::encode::<bee_ternary::T1B1Buf>(bytes.as_slice())
        .as_i8_slice()
        .to_vec()
}

/// Relies on bee_ternary::b1t6::decode, the inverse of b1t6::encode: on the
/// encoding of a byte sequence it recovers exactly those bytes, and it fails
/// on every trit sequence that no byte sequence encodes to (each byte's pair
/// of balanced base-27 digits is unique, so decoding succeeds only on
/// canonical encodings). `b1t6::decode` asserts that the input length is a
/// multiple of six digits, hence the bound below.
#[verifier::external_body]
pub(crate) fn b1t6_decode_bytes(trits: &Vec<i8>) -> (r: Option<Vec<u8>>)
    requires
        valid_trits(trits@),
        trits@.len() % 6 == 0,
    ensures
        r matches Some(bytes) ==> trits@ == b1t6_trits_of(bytes@) && 6 * bytes@.len()
            == trits@.len(),
        r matches Some(bytes) ==> forall|bs: Seq<u8>| #![trigger b1t6_trits_of(bs)]
            trits@ == b1t6_trits_of(bs) ==> bytes@ == bs,
        r is None ==> forall|bs: Seq<u8>| #![trigger b1t6_trits_of(bs)]
            trits@ != b1t6_trits_of(bs),
{
    match bee_ternary::Trits::<bee_ternary::T1B1>::try_from_raw(trits.as_slice(), trits.len()) {
        Ok(t) => bee_ternary::b1t6::decode(t).ok(),
        Err(_) => None,
    }
}

/// Relies on crypto::hashes::ternary::kerl::Kerl through the Sponge trait:
/// `digest` absorbs the first 243 trits of the padded input (the sponge's
/// absorption width, taken from the raw digit slice by
/// `Trits::try_from_raw(.., 243)`) and squeezes a 243-trit hash, a function
/// of the input digits alone. On a valid 243-trit absorption the sponge
/// reports no error.
#[allow(deprecated)]
#[verifier::external_body]
pub(crate) fn kerl_digest_243(trits: &Vec<i8>) -> (r: Vec<i8>)
    requires
        valid_trits(trits@),
        trits@.len() == 246,
    ensures
        r@ == kerl_hash_of(trits@),
        r@.len() == 243,
        valid_trits(r@),
{
    let mut kerl = Kerl::new();
    let input = bee_ternary::Trits::<bee_ternary::T1B1>::try_from_raw(trits.as_slice(), 243)
        .unwrap();
    let hash = kerl.digest(input).unwrap();
    hash.as_i8_slice().to_vec()
}

} // verus!
