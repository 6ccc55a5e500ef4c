use base58::{FromBase58, ToBase58};
use xrp_viewer::address::{calculate_checksum, AddressError, AddressValidator};

/// Builds an address whose decoded form is `payload ++ checksum`, searching
/// over the two leading payload bytes until the encoded string starts with
/// 'r' and is 25 to 35 characters long.
fn build_address(checksum_of: impl Fn(&[u8]) -> Vec<u8>) -> (String, Vec<u8>) {
    for b0 in 0u8..=255 {
        for b1 in 0u8..=255 {
            let mut payload = vec![b0, b1];
            payload.extend_from_slice(&[7u8; 18]);
            let mut data = payload.clone();
            data.extend_from_slice(&checksum_of(&payload));
            let encoded = data.to_base58();
            if encoded.starts_with('r') && encoded.len() >= 25 && encoded.len() <= 35 {
                return (encoded, data);
            }
        }
    }
    panic!("no suitable address found");
}

#[test]
fn valid_address_passes() {
    let (addr, data) = build_address(|p| calculate_checksum(p));
    assert_eq!(addr.from_base58().unwrap(), data);
    let validator = AddressValidator::new();
    assert_eq!(validator.validate(&addr), Ok(()));
}

#[test]
fn too_short_is_rejected() {
    let validator = AddressValidator::new();
    // well-formed Base58 starting with 'r', but under 25 characters
    assert_eq!(validator.validate("r23456789"), Err(AddressError::TooShort));
    assert_eq!(validator.validate(""), Err(AddressError::TooShort));
    let ten = "r234567891";
    assert_eq!(ten.len(), 10);
    assert_eq!(validator.validate(ten), Err(AddressError::TooShort));
}

#[test]
fn too_long_is_rejected_before_decoding() {
    let validator = AddressValidator::new();
    let long_valid_b58 = "r".repeat(36);
    assert_eq!(
        validator.validate(&long_valid_b58),
        Err(AddressError::TooLong)
    );
    // '0' is outside the Base58 alphabet, but the length check comes first
    let long_invalid_b58 = "0".repeat(40);
    assert_eq!(
        validator.validate(&long_invalid_b58),
        Err(AddressError::TooLong)
    );
}

#[test]
fn wrong_prefix_is_rejected() {
    let validator = AddressValidator::new();
    // 26 characters of valid Base58 that do not start with 'r'
    let addr = "x2222222222222222222222222";
    assert_eq!(addr.len(), 26);
    assert_eq!(validator.validate(addr), Err(AddressError::InvalidPrefix));
}

#[test]
fn bad_base58_is_rejected() {
    let validator = AddressValidator::new();
    // right length and prefix, but '0' is not a Base58 character
    let addr = "r0000000000000000000000000";
    assert_eq!(validator.validate(addr), Err(AddressError::InvalidBase58));
}

#[test]
fn flipped_checksum_byte_is_rejected() {
    let validator = AddressValidator::new();
    for flip in 0..4 {
        let (addr, _) = build_address(|p| {
            let mut c = calculate_checksum(p);
            c[flip] ^= 0xff;
            c
        });
        assert_eq!(validator.validate(&addr), Err(AddressError::InvalidChecksum));
    }
}

#[test]
fn checksum_matches_crc32_big_endian() {
    let payload = b"account payload bytes";
    let expected = crc32fast::hash(payload).to_be_bytes().to_vec();
    assert_eq!(calculate_checksum(payload), expected);
}

#[test]
fn end_to_end_examples() {
    let validator = AddressValidator::default();
    let (good, _) = build_address(|p| calculate_checksum(p));
    assert_eq!(validator.validate(&good), Ok(()));
    let bad_prefix = "xInvalidPrefix00000000000000000";
    assert!(bad_prefix.len() >= 25 && bad_prefix.len() <= 35);
    assert_eq!(
        validator.validate(bad_prefix),
        Err(AddressError::InvalidPrefix)
    );
    assert_eq!(
        validator.validate("r234567891"),
        Err(AddressError::TooShort)
    );
}

#[test]
fn error_messages_are_distinct() {
    let kinds = [
        AddressError::TooShort,
        AddressError::TooLong,
        AddressError::InvalidPrefix,
        AddressError::InvalidBase58,
        AddressError::InvalidChecksum,
        AddressError::InvalidDataLength,
    ];
    for (i, a) in kinds.iter().enumerate() {
        for (j, b) in kinds.iter().enumerate() {
            assert_eq!(i == j, a.message() == b.message());
        }
    }
    assert_eq!(AddressError::TooShort.message(), "Адрес слишком короткий");
}
