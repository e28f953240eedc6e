#![allow(deprecated)]

use migration_address::address::{
    add_tryte_checksum, convert_to_migration_address, convert_to_tryte_address,
    decode_migration_address, encode_migration_address,
};
use migration_address::{DecodeError, ModernAddress, TernaryBuffer};

use blake2::digest::{Update, VariableOutput};
use blake2::Blake2bVar;
use crypto::hashes::ternary::kerl::Kerl;
use crypto::hashes::ternary::Sponge;

fn blake2b_256_ref(input: &[u8]) -> Vec<u8> {
    let mut hasher = Blake2bVar::new(32).unwrap();
    hasher.update(input);
    let mut out = vec![0u8; 32];
    hasher.finalize_variable(&mut out).unwrap();
    out
}

fn encode_body_of(bytes: Vec<u8>) -> TernaryBuffer {
    let a = ModernAddress::new(bytes).unwrap();
    encode_migration_address(&a)
}

#[test]
fn encode_all_zero_address_structure() {
    let body = encode_body_of(vec![0u8; 32]);
    assert_eq!(body.len(), 243);
    let chars = body.to_tryte_chars();
    assert_eq!(chars.len(), 81);
    let s: String = chars.iter().collect();
    assert_eq!(&s[0..8], "TRANSFER");
    assert_eq!(&s[80..81], "9");

    let mid: Vec<i8> = body.as_trits()[24..240].to_vec();
    let mid_trits = bee_ternary::Trits::<bee_ternary::T1B1>::try_from_raw(&mid, 216).unwrap();
    let payload = bee_ternary::b1t6::decode(mid_trits).unwrap();
    let digest = blake2b_256_ref(&[0u8; 32]);
    let mut expected = vec![0u8; 32];
    expected.extend_from_slice(&digest[0..4]);
    assert_eq!(payload, expected);
}

#[test]
fn decode_of_encoded_zero_address_round_trips() {
    let body = encode_body_of(vec![0u8; 32]);
    let decoded = decode_migration_address(&body).unwrap();
    assert_eq!(decoded.as_bytes(), &vec![0u8; 32]);
}

#[test]
fn decode_of_encoded_distinct_bytes_round_trips() {
    let bytes: Vec<u8> = (0..32).map(|i| (i * 7 + 3) as u8).collect();
    let body = encode_body_of(bytes.clone());
    let decoded = decode_migration_address(&body).unwrap();
    assert_eq!(decoded.as_bytes(), &bytes);
}

#[test]
fn changed_first_symbol_is_rejected() {
    let body = encode_body_of(vec![0u8; 32]);
    let chars = body.to_tryte_chars();
    assert_eq!(chars[0], 'T');
    for c in ['9', 'A', 'M', 'S', 'Z'] {
        let mut altered = chars.clone();
        altered[0] = c;
        let buf = TernaryBuffer::from_tryte_chars(&altered).unwrap();
        let r = decode_migration_address(&buf);
        assert!(matches!(r, Err(DecodeError::InvalidFormat)));
    }
}

#[test]
fn changed_marker_symbol_is_rejected() {
    let body = encode_body_of(vec![7u8; 32]);
    let mut chars = body.to_tryte_chars();
    chars[5] = 'Q';
    let buf = TernaryBuffer::from_tryte_chars(&chars).unwrap();
    let r = decode_migration_address(&buf);
    assert!(matches!(r, Err(DecodeError::InvalidFormat)));
}

#[test]
fn changed_pad_symbol_is_rejected() {
    let body = encode_body_of(vec![0u8; 32]);
    let mut chars = body.to_tryte_chars();
    assert_eq!(chars[80], '9');
    chars[80] = 'A';
    let buf = TernaryBuffer::from_tryte_chars(&chars).unwrap();
    let r = decode_migration_address(&buf);
    assert!(matches!(r, Err(DecodeError::InvalidFormat)));
}

#[test]
fn undecodable_payload_is_rejected() {
    let mut chars = vec![];
    chars.extend("TRANSFER".chars());
    chars.extend(std::iter::repeat('M').take(72));
    chars.push('9');
    assert_eq!(chars.len(), 81);
    let buf = TernaryBuffer::from_tryte_chars(&chars).unwrap();
    let r = decode_migration_address(&buf);
    assert!(matches!(r, Err(DecodeError::InvalidFormat)));
}

#[test]
fn flipped_payload_bit_fails_integrity() {
    let body = encode_body_of(vec![0u8; 32]);
    let mut trits = body.as_trits().clone();
    let mid: Vec<i8> = trits[24..240].to_vec();
    let mid_trits = bee_ternary::Trits::<bee_ternary::T1B1>::try_from_raw(&mid, 216).unwrap();
    let mut payload = bee_ternary::b1t6::decode(mid_trits).unwrap();
    for byte in 0..4 {
        for bit in [0x01u8, 0x80u8] {
            payload[byte] ^= bit;
            let reencoded = bee_ternary::b1t6::encode::<bee_ternary::T1B1Buf>(&payload);
            trits[24..240].copy_from_slice(reencoded.as_i8_slice());
            let buf = TernaryBuffer::from_trits(trits.clone()).unwrap();
            let r = decode_migration_address(&buf);
            assert!(matches!(r, Err(DecodeError::IntegrityMismatch)));
            payload[byte] ^= bit;
        }
    }
}

#[test]
fn checksum_is_deterministic_and_fixed_width() {
    let body = encode_body_of(vec![9u8; 32]);
    let c1 = add_tryte_checksum(&body);
    let c2 = add_tryte_checksum(&body);
    assert_eq!(c1.as_trits(), c2.as_trits());
    assert_eq!(c1.len(), 270);
    assert_eq!(c1.to_tryte_chars().len(), 90);
    assert_eq!(&c1.as_trits()[0..243], &body.as_trits()[..]);
}

#[test]
fn checksum_matches_kerl_of_padded_body() {
    let body = encode_body_of(vec![0u8; 32]);
    let with_checksum = add_tryte_checksum(&body);
    let mut padded = body.as_trits().clone();
    padded.extend_from_slice(&[0, 0, 0]);
    let input = bee_ternary::Trits::<bee_ternary::T1B1>::try_from_raw(&padded, 243).unwrap();
    let mut kerl = Kerl::new();
    let hash = kerl.digest(input).unwrap();
    let expected: Vec<i8> = hash.as_i8_slice()[216..243].to_vec();
    assert_eq!(&with_checksum.as_trits()[243..270], &expected[..]);
}

#[test]
fn convert_pipeline_round_trips_and_ignores_checksum() {
    let bytes: Vec<u8> = (0..32).map(|i| (255 - i) as u8).collect();
    let a = ModernAddress::new(bytes.clone()).unwrap();
    let wire = convert_to_tryte_address(&a);
    assert_eq!(wire.len(), 270);

    let decoded = convert_to_migration_address(&wire).unwrap();
    assert_eq!(decoded.as_bytes(), &bytes);

    let mut corrupted = wire.as_trits().clone();
    corrupted[250] = if corrupted[250] == 1 { -1 } else { 1 };
    let buf = TernaryBuffer::from_trits(corrupted).unwrap();
    let decoded = convert_to_migration_address(&buf).unwrap();
    assert_eq!(decoded.as_bytes(), &bytes);
}

#[test]
fn convert_accepts_bare_body() {
    let body = encode_body_of(vec![1u8; 32]);
    let decoded = convert_to_migration_address(&body).unwrap();
    assert_eq!(decoded.as_bytes(), &vec![1u8; 32]);
}
