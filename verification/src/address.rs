//! The migration address format: a modern 32-byte address is carried inside
//! an 81-tryte legacy body as the marker "TRANSFER", 72 trytes of payload
//! (the address followed by the first 4 bytes of its BLAKE2b-256 digest,
//! transcoded by the B1T6 codec) and a final pad tryte "9"; a 9-tryte Kerl
//! checksum is appended to form the 90-tryte exchanged string.

use vstd::prelude::*;

use crate::primitives::{
    b1t6_decode_bytes, b1t6_encode_trits, b1t6_trits_of, blake2b256_of, blake2b_256,
    kerl_digest_243, kerl_hash_of,
};
use crate::ternary::{valid_trit, valid_trits, TernaryBuffer};

verus! {

/// A modern public-key-hash address: exactly 32 raw bytes.
pub struct ModernAddress {
    bytes: Vec<u8>,
}

impl View for ModernAddress {
    type V = Seq<u8>;

    closed spec fn view(&self) -> Seq<u8> {
        self.bytes@
    }
}

impl ModernAddress {
    /// The address holds exactly 32 bytes.
    pub open spec fn wf(&self) -> bool {
        self@.len() == 32
    }

    /// Builds an address from raw bytes, rejecting any other length.
    pub fn new(bytes: Vec<u8>) -> (r: Option<ModernAddress>)
        ensures
            r is Some <==> bytes@.len() == 32,
            r matches Some(a) ==> a@ == bytes@ && a.wf(),
    {
        if bytes.len() == 32 {
            Some(ModernAddress { bytes })
        } else {
            None
        }
    }

    /// The raw bytes of the address.
    pub fn as_bytes(&self) -> (r: &Vec<u8>)
        ensures
            r@ == self@,
    {
        &self.bytes
    }
}

/// Why a legacy body failed to decode.
#[derive(Clone, Copy, Debug, PartialEq, Eq, Structural)]
pub enum DecodeError {
    /// The body fails a structural check: it does not begin with the marker
    /// "TRANSFER", does not end with the pad tryte "9", or its payload
    /// trytes are not a canonical codec output.
    InvalidFormat,
    /// The digest embedded in the payload does not match the recomputed
    /// BLAKE2b-256 hash of the carried address.
    IntegrityMismatch,
}

/// The 24 trits of the marker "TRANSFER" (trytes T, R, A, N, S, F, E, R).
pub open spec fn transfer_marker_trits() -> Seq<i8> {
    seq![
        -1i8, 1i8, -1i8,
        0i8, 0i8, -1i8,
        1i8, 0i8, 0i8,
        -1i8, -1i8, -1i8,
        1i8, 0i8, -1i8,
        0i8, -1i8, 1i8,
        -1i8, -1i8, 1i8,
        0i8, 0i8, -1i8,
    ]
}

/// The 36-byte extended payload: the address followed by the first 4 bytes
/// of its BLAKE2b-256 digest.
pub open spec fn extended_payload(addr: Seq<u8>) -> Seq<u8> {
    addr + blake2b256_of(addr).take(4)
}

/// The 243 trits of the legacy body that encodes an address: the marker,
/// the transcoded extended payload, and the zero trits of the pad tryte.
pub open spec fn encoded_body(addr: Seq<u8>) -> Seq<i8> {
    transfer_marker_trits() + b1t6_trits_of(extended_payload(addr)) + seq![0i8, 0i8, 0i8]
}

/// A body passes the structural checks: 81 trytes, beginning with the
/// marker "TRANSFER" and ending with the pad tryte "9".
pub open spec fn body_structure_ok(t: Seq<i8>) -> bool {
    t.len() == 243 && t.subrange(0, 24) == transfer_marker_trits() && t[240] == 0 && t[241] == 0
        && t[242] == 0
}

/// The payload region of a body: trits 24..240, the 72 trytes between the
/// marker and the pad tryte.
pub open spec fn body_payload_trits(t: Seq<i8>) -> Seq<i8> {
    t.subrange(24, 240)
}

/// The 9-tryte checksum of a body: the last 27 trits of the Kerl hash of
/// the body padded with 3 zero trits (of which the sponge absorbs the
/// first 243).
pub open spec fn checksum_trits(body: Seq<i8>) -> Seq<i8> {
    kerl_hash_of(body + seq![0i8, 0i8, 0i8]).subrange(216, 243)
}

/// A body with its 9-tryte checksum appended: the 90-tryte exchanged form.
pub open spec fn body_with_checksum(body: Seq<i8>) -> Seq<i8> {
    body + checksum_trits(body)
}

/// Everything decoding a body promises, for every 243-trit input: a
/// structural failure yields `InvalidFormat`; a payload that transcodes to
/// 36 bytes yields the leading 32 bytes when the recomputed digest prefix
/// matches the trailing 4 bytes, and `IntegrityMismatch` otherwise;
/// `InvalidFormat` comes exactly on the structural failures and the
/// payloads no byte sequence encodes to; and every encoded address decodes
/// back to itself.
pub open spec fn decode_contract(body: Seq<i8>, r: Result<ModernAddress, DecodeError>) -> bool {
    &&& (r matches Ok(a) ==> a.wf() && body_structure_ok(body) && body_payload_trits(body)
        == b1t6_trits_of(extended_payload(a@)))
    &&& (!body_structure_ok(body) ==> r == Err::<ModernAddress, DecodeError>(
        DecodeError::InvalidFormat,
    ))
    &&& (forall|bs: Seq<u8>| #![trigger b1t6_trits_of(bs)]
        (body_structure_ok(body) && bs.len() == 36 && body_payload_trits(body) == b1t6_trits_of(
            bs,
        )) ==> if bs.subrange(32, 36) == blake2b256_of(bs.subrange(0, 32)).take(4) {
            r matches Ok(a) && a@ == bs.subrange(0, 32)
        } else {
            r == Err::<ModernAddress, DecodeError>(DecodeError::IntegrityMismatch)
        })
    &&& ((r == Err::<ModernAddress, DecodeError>(DecodeError::InvalidFormat)) <==> (
    !body_structure_ok(body) || forall|bs: Seq<u8>| #![trigger b1t6_trits_of(bs)]
        body_payload_trits(body) != b1t6_trits_of(bs)))
    &&& (forall|a: Seq<u8>| #![trigger encoded_body(a)]
        (a.len() == 32 && body == encoded_body(a)) ==> (r matches Ok(m) && m@ == a))
}

/// The 24 marker trits as a digit vector.
fn transfer_marker_vec() -> (r: Vec<i8>)
    ensures
        r@ == transfer_marker_trits(),
        valid_trits(r@),
{
    let mut v: Vec<i8> = Vec::new();
    v.push(-1);
    v.push(1);
    v.push(-1);
    v.push(0);
    v.push(0);
    v.push(-1);
    v.push(1);
    v.push(0);
    v.push(0);
    v.push(-1);
    v.push(-1);
    v.push(-1);
    v.push(1);
    v.push(0);
    v.push(-1);
    v.push(0);
    v.push(-1);
    v.push(1);
    v.push(-1);
    v.push(-1);
    v.push(1);
    v.push(0);
    v.push(0);
    v.push(-1);
    proof {
        assert(v@ =~= transfer_marker_trits());
    }
    v
}

/// Builds the 81-tryte legacy body that carries an address: "TRANSFER",
/// then the B1T6 transcoding of the address and the first 4 bytes of its
/// BLAKE2b-256 digest, then the pad tryte "9".
pub fn encode_migration_address(address: &ModernAddress) -> (body: TernaryBuffer)
    requires
        address.wf(),
    ensures
        body.wf(),
        body@.len() == 243,
        body@ == encoded_body(address@),
{
    let src = address.as_bytes();
    let mut payload: Vec<u8> = Vec::new();
    let mut i: usize = 0;
    while i < src.len()
        invariant
            0 <= i <= src@.len(),
            payload@ == src@.take(i as int),
        decreases src@.len() - i,
    {
        payload.push(src[i]);
        i = i + 1;
    }
    proof {
        assert(payload@ =~= address@);
    }
    let digest = blake2b_256(src);
    let mut i: usize = 0;
    while i < 4
        invariant
            0 <= i <= 4,
            digest@.len() == 32,
            payload@ == address@ + digest@.take(i as int),
        decreases 4 - i,
    {
        payload.push(digest[i]);
        i = i + 1;
    }
    proof {
        assert(payload@ =~= extended_payload(address@));
    }
    let mut trits = transfer_marker_vec();
    let mut mid = b1t6_encode_trits(&payload);
    trits.append(&mut mid);
    trits.push(0);
    trits.push(0);
    trits.push(0);
    proof {
        assert(trits@ =~= encoded_body(address@));
        assert forall|j: int| 0 <= j < trits@.len() implies valid_trit(#[trigger] trits@[j]) by {
            if 24 <= j < 240 {
                assert(valid_trit(b1t6_trits_of(extended_payload(address@))[j - 24]));
            }
        }
    }
    TernaryBuffer::from_valid_trits(trits)
}

/// Recovers the address carried by an 81-tryte legacy body, verifying its
/// structure and the embedded digest prefix. A trailing checksum is no part
/// of the body: the caller hands the 81 trytes alone.
#[verifier::loop_isolation(false)]
pub fn decode_migration_address(body: &TernaryBuffer) -> (r: Result<ModernAddress, DecodeError>)
    requires
        body.wf(),
        body@.len() == 243,
    ensures
        decode_contract(body@, r),
{
    let trits = body.as_trits();
    let marker = transfer_marker_vec();
    let mut i: usize = 0;
    while i < 24
        invariant
            0 <= i <= 24,
            trits@ == body@,
            body@.len() == 243,
            marker@ == transfer_marker_trits(),
            forall|j: int| 0 <= j < i ==> body@[j] == transfer_marker_trits()[j],
        decreases 24 - i,
    {
        if trits[i] != marker[i] {
            proof {
                assert(body@.subrange(0, 24)[i as int] != transfer_marker_trits()[i as int]);
                assert(!body_structure_ok(body@));
                assert forall|a: Seq<u8>| a.len() == 32 && body@ == encoded_body(a) implies false by {
                    assert(encoded_body(a)[i as int] == transfer_marker_trits()[i as int]);
                }
            }
            return Err(DecodeError::InvalidFormat);
        }
        i = i + 1;
    }
    if trits[240] != 0 || trits[241] != 0 || trits[242] != 0 {
        proof {
            assert(!body_structure_ok(body@));
            assert forall|a: Seq<u8>| a.len() == 32 && body@ == encoded_body(a) implies false by {
                lemma_encoded_body_shape(a, body@);
            }
        }
        return Err(DecodeError::InvalidFormat);
    }
    proof {
        assert(body@.subrange(0, 24) =~= transfer_marker_trits());
        assert(body_structure_ok(body@));
    }
    let mut mid: Vec<i8> = Vec::new();
    let mut i: usize = 24;
    while i < 240
        invariant
            24 <= i <= 240,
            trits@ == body@,
            body@.len() == 243,
            valid_trits(body@),
            mid@ == body@.subrange(24, i as int),
        decreases 240 - i,
    {
        mid.push(trits[i]);
        i = i + 1;
    }
    proof {
        assert(mid@ =~= body_payload_trits(body@));
        assert(valid_trits(mid@));
    }
    let bytes = match b1t6_decode_bytes(&mid) {
        Some(b) => b,
        None => {
            proof {
                assert forall|a: Seq<u8>| a.len() == 32 && body@ == encoded_body(a) implies
                    false by {
                    lemma_encoded_body_shape(a, body@);
                    assert(body_payload_trits(body@) == b1t6_trits_of(extended_payload(a)));
                }
            }
            return Err(DecodeError::InvalidFormat);
        },
    };
    let mut addr_bytes: Vec<u8> = Vec::new();
    let mut i: usize = 0;
    while i < 32
        invariant
            0 <= i <= 32,
            bytes@.len() == 36,
            addr_bytes@ == bytes@.subrange(0, i as int),
        decreases 32 - i,
    {
        addr_bytes.push(bytes[i]);
        i = i + 1;
    }
    let digest = blake2b_256(&addr_bytes);
    let mut i: usize = 0;
    while i < 4
        invariant
            0 <= i <= 4,
            bytes@.len() == 36,
            digest@.len() == 32,
            digest@ == blake2b256_of(bytes@.subrange(0, 32)),
            forall|j: int| 0 <= j < i ==> digest@[j] == bytes@[32 + j],
        decreases 4 - i,
    {
        if digest[i] != bytes[32 + i] {
            proof {
                lemma_decode_returns(body@, mid@, bytes@);
                assert(bytes@.subrange(32, 36)[i as int] != blake2b256_of(
                    bytes@.subrange(0, 32),
                ).take(4)[i as int]);
                assert forall|a: Seq<u8>| a.len() == 32 && body@ == encoded_body(a) implies
                    false by {
                    lemma_encoded_body_shape(a, body@);
                    assert(bytes@ == extended_payload(a));
                    assert(bytes@.subrange(0, 32) =~= a);
                    assert(bytes@.subrange(32, 36) =~= blake2b256_of(a).take(4));
                }
            }
            return Err(DecodeError::IntegrityMismatch);
        }
        i = i + 1;
    }
    proof {
        lemma_decode_returns(body@, mid@, bytes@);
        assert(bytes@.subrange(32, 36) =~= blake2b256_of(bytes@.subrange(0, 32)).take(4));
    }
    let address = ModernAddress { bytes: addr_bytes };
    proof {
        assert(extended_payload(address@) =~= bytes@);
        assert(body_payload_trits(body@) == b1t6_trits_of(extended_payload(address@)));
        assert forall|bs: Seq<u8>|
            body_structure_ok(body@) && bs.len() == 36 && body_payload_trits(body@)
                == b1t6_trits_of(bs) implies bs == bytes@ by {}
        assert forall|a: Seq<u8>| a.len() == 32 && body@ == encoded_body(a) implies address@
            == a by {
            lemma_encoded_body_shape(a, body@);
            assert(bytes@ == extended_payload(a));
            assert(address@ =~= a);
        }
    }
    Ok(address)
}

/// Round-trip law: decoding the body that encodes a 32-byte address yields
/// exactly that address. `encode_migration_address` ensures its result is
/// `encoded_body(a)` and `decode_migration_address` ensures
/// `decode_contract`, so together every encoded address decodes back to
/// itself with no error.
pub proof fn lemma_round_trip(a: Seq<u8>, r: Result<ModernAddress, DecodeError>)
    requires
        a.len() == 32,
        decode_contract(encoded_body(a), r),
    ensures
        r matches Ok(m) && m@ == a,
{
}

/// In a 243-trit body equal to `encoded_body(a)`, the payload region is the
/// transcoded extended payload of `a` and the pad trits are zero.
proof fn lemma_encoded_body_shape(a: Seq<u8>, body: Seq<i8>)
    requires
        body.len() == 243,
        body == encoded_body(a),
    ensures
        b1t6_trits_of(extended_payload(a)).len() == 216,
        body_payload_trits(body) == b1t6_trits_of(extended_payload(a)),
        body[240] == 0 && body[241] == 0 && body[242] == 0,
        body_structure_ok(body),
{
    let midlen = b1t6_trits_of(extended_payload(a)).len();
    assert(243 == 24 + midlen + 3);
    assert(body_payload_trits(body) =~= b1t6_trits_of(extended_payload(a)));
    assert(body.subrange(0, 24) =~= transfer_marker_trits());
}

/// What holds of the decoded payload bytes at every exit taken after the
/// codec call succeeds: the body's payload region is the canonical encoding
/// of those 36 bytes, and a body encoded from an address carries exactly
/// its extended payload.
proof fn lemma_decode_returns(body: Seq<i8>, mid: Seq<i8>, bytes: Seq<u8>)
    requires
        body.len() == 243,
        mid == body_payload_trits(body),
        mid == b1t6_trits_of(bytes),
        6 * bytes.len() == mid.len(),
        forall|bs: Seq<u8>| #![trigger b1t6_trits_of(bs)] mid == b1t6_trits_of(bs) ==> bytes
            == bs,
    ensures
        bytes.len() == 36,
        forall|a: Seq<u8>| #![trigger encoded_body(a)]
            (a.len() == 32 && body == encoded_body(a)) ==> bytes == extended_payload(a),
{
    assert(mid.len() == 216);
    assert forall|a: Seq<u8>| (a.len() == 32 && body == encoded_body(a)) implies bytes
        == extended_payload(a) by {
        lemma_encoded_body_shape(a, body);
        assert(mid == b1t6_trits_of(extended_payload(a)));
    }
}

/// Appends the 9-tryte Kerl checksum to an 81-tryte body, producing the
/// 90-tryte exchanged form. The checksum is the last 9 trytes of the Kerl
/// hash of the body padded with 3 zero trits.
pub fn add_tryte_checksum(body: &TernaryBuffer) -> (r: TernaryBuffer)
    requires
        body.wf(),
        body@.len() == 243,
    ensures
        r.wf(),
        r@.len() == 270,
        r@ == body_with_checksum(body@),
        r@.subrange(0, 243) == body@,
{
    let trits = body.as_trits();
    let mut padded: Vec<i8> = Vec::new();
    let mut i: usize = 0;
    while i < 243
        invariant
            0 <= i <= 243,
            trits@ == body@,
            body@.len() == 243,
            padded@ == body@.subrange(0, i as int),
        decreases 243 - i,
    {
        padded.push(trits[i]);
        i = i + 1;
    }
    padded.push(0);
    padded.push(0);
    padded.push(0);
    proof {
        assert(padded@ =~= body@ + seq![0i8, 0i8, 0i8]);
        assert(valid_trits(padded@));
    }
    let hash = kerl_digest_243(&padded);
    let mut out: Vec<i8> = Vec::new();
    let mut i: usize = 0;
    while i < 243
        invariant
            0 <= i <= 243,
            trits@ == body@,
            body@.len() == 243,
            out@ == body@.subrange(0, i as int),
        decreases 243 - i,
    {
        out.push(trits[i]);
        i = i + 1;
    }
    let mut i: usize = 216;
    while i < 243
        invariant
            216 <= i <= 243,
            hash@.len() == 243,
            hash@ == kerl_hash_of(body@ + seq![0i8, 0i8, 0i8]),
            body@.len() == 243,
            out@ == body@ + hash@.subrange(216, i as int),
        decreases 243 - i,
    {
        out.push(hash[i]);
        proof {
            assert(out@ =~= body@ + hash@.subrange(216, i + 1));
        }
        i = i + 1;
    }
    proof {
        assert(out@ =~= body_with_checksum(body@));
        assert(out@.subrange(0, 243) =~= body@);
        assert forall|j: int| 0 <= j < out@.len() implies valid_trit(#[trigger] out@[j]) by {
            if j >= 243 {
                assert(valid_trit(kerl_hash_of(body@ + seq![0i8, 0i8, 0i8]).subrange(
                    216,
                    243,
                )[j - 243]));
            }
        }
    }
    TernaryBuffer::from_valid_trits(out)
}

/// The whole encoding pipeline: builds the legacy body for an address and
/// appends its checksum, yielding the 90-tryte exchanged form.
pub fn convert_to_tryte_address(address: &ModernAddress) -> (r: TernaryBuffer)
    requires
        address.wf(),
    ensures
        r.wf(),
        r@.len() == 270,
        r@ == body_with_checksum(encoded_body(address@)),
        r@.subrange(0, 243) == encoded_body(address@),
{
    let body = encode_migration_address(address);
    add_tryte_checksum(&body)
}

/// The whole decoding pipeline: recovers the address from a legacy body,
/// given as either the 81-tryte body alone or the 90-tryte exchanged form,
/// whose trailing checksum is ignored (the trits past the body are never
/// read).
pub fn convert_to_migration_address(wire: &TernaryBuffer) -> (r: Result<
    ModernAddress,
    DecodeError,
>)
    requires
        wire.wf(),
        wire@.len() == 243 || wire@.len() == 270,
    ensures
        decode_contract(wire@.subrange(0, 243), r),
{
    let trits = wire.as_trits();
    let mut body_trits: Vec<i8> = Vec::new();
    let mut i: usize = 0;
    while i < 243
        invariant
            0 <= i <= 243,
            trits@ == wire@,
            wire@.len() >= 243,
            valid_trits(wire@),
            body_trits@ == wire@.subrange(0, i as int),
        decreases 243 - i,
    {
        body_trits.push(trits[i]);
        i = i + 1;
    }
    proof {
        assert(valid_trits(body_trits@));
    }
    let body = TernaryBuffer::from_valid_trits(body_trits);
    decode_migration_address(&body)
}

} // verus!
