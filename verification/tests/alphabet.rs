use migration_address::{ModernAddress, TernaryBuffer};

#[test]
fn tryte_alphabet_matches_reference_codec() {
    let s = "9ABCDEFGHIJKLMNOPQRSTUVWXYZ";
    let reference = bee_ternary::TryteBuf::try_from_str(s).unwrap();
    let reference_trits: Vec<i8> = reference
        .as_trits()
        .encode::<bee_ternary::T1B1Buf>()
        .as_i8_slice()
        .to_vec();

    let chars: Vec<char> = s.chars().collect();
    let ours = TernaryBuffer::from_tryte_chars(&chars).unwrap();
    assert_eq!(ours.as_trits(), &reference_trits);
    assert_eq!(ours.to_tryte_chars(), chars);
}

#[test]
fn characters_outside_the_alphabet_are_rejected() {
    for c in ['a', '8', ' ', '-', '0'] {
        let chars = vec!['T', 'R', c];
        assert!(TernaryBuffer::from_tryte_chars(&chars).is_none());
    }
}

#[test]
fn raw_digits_outside_balanced_ternary_are_rejected() {
    assert!(TernaryBuffer::from_trits(vec![0, 1, 2]).is_none());
    assert!(TernaryBuffer::from_trits(vec![0, 1]).is_none());
    assert!(TernaryBuffer::from_trits(vec![-1, 0, 1]).is_some());
}

#[test]
fn modern_address_requires_exactly_32_bytes() {
    assert!(ModernAddress::new(vec![0u8; 31]).is_none());
    assert!(ModernAddress::new(vec![0u8; 33]).is_none());
    let a = ModernAddress::new(vec![5u8; 32]).unwrap();
    assert_eq!(a.as_bytes(), &vec![5u8; 32]);
}
