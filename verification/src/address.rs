//! Validation of Base58Check-style ledger account identifiers.
//!
//! A candidate address must be 25 to 35 characters long, start with `'r'`,
//! decode as Base58 to at least 5 bytes, and carry a trailing 4-byte
//! big-endian CRC-32 checksum over the leading payload bytes. Each check
//! short-circuits, so every rejected input maps to exactly one error kind.

use vstd::prelude::*;
use vstd::slice::slice_subrange;
use vstd::string::StringExecFns;

verus! {

/// The closed set of reasons an address candidate can be rejected.
#[derive(Debug, Clone, Copy, PartialEq, Eq, Structural)]
pub enum AddressError {
    TooShort,
    TooLong,
    InvalidPrefix,
    InvalidBase58,
    InvalidChecksum,
    InvalidDataLength,
}

pub open spec fn address_error_message(e: AddressError) -> Seq<char> {
    match e {
        AddressError::TooShort => "Адрес слишком короткий"@,
        AddressError::TooLong => "Адрес слишком длинный"@,
        AddressError::InvalidPrefix => "Адрес должен начинаться с 'r'"@,
        AddressError::InvalidBase58 => "Некорректный формат Base58"@,
        AddressError::InvalidChecksum => "Неверная контрольная сумма"@,
        AddressError::InvalidDataLength => "Некорректная длина данных"@,
    }
}

impl AddressError {
    /// The user-visible message for this error kind.
    pub fn message(&self) -> (r: String)
        ensures
            r@ == address_error_message(*self),
    {
        match self {
            AddressError::TooShort => String::from_str("Адрес слишком короткий"),
            AddressError::TooLong => String::from_str("Адрес слишком длинный"),
            AddressError::InvalidPrefix => String::from_str("Адрес должен начинаться с 'r'"),
            AddressError::InvalidBase58 => String::from_str("Некорректный формат Base58"),
            AddressError::InvalidChecksum => String::from_str("Неверная контрольная сумма"),
            AddressError::InvalidDataLength => String::from_str("Некорректная длина данных"),
        }
    }
}

/// The bytes a Base58 string decodes to, or `None` where the string is not
/// well-formed Base58. Base58 decoding is a pure function of the characters,
/// so the result may carry a name without a spelled-out definition.
pub uninterp spec fn b58_decode(s: Seq<char>) -> Option<Seq<u8>>;

/// The CRC-32 checksum of a byte string.
pub uninterp spec fn crc32_of(data: Seq<u8>) -> u32;

/// The four bytes of a 32-bit value in big-endian order.
pub open spec fn be_bytes32(c: u32) -> Seq<u8> {
    seq![
        (c >> 24) as u8,
        ((c >> 16) & 0xff) as u8,
        ((c >> 8) & 0xff) as u8,
        (c & 0xff) as u8,
    ]
}

/// The decoded bytes with the trailing checksum removed.
pub open spec fn payload_part(d: Seq<u8>) -> Seq<u8> {
    d.subrange(0, d.len() - 4)
}

/// The trailing four checksum bytes of the decoded bytes.
pub open spec fn checksum_part(d: Seq<u8>) -> Seq<u8> {
    d.subrange(d.len() - 4, d.len() as int)
}

/// Whether the stored checksum equals the checksum recomputed over the payload.
pub open spec fn checksum_matches(d: Seq<u8>) -> bool {
    checksum_part(d) == be_bytes32(crc32_of(payload_part(d)))
}

/// The outcome of validating the characters `s`, given the bytes `decoded`
/// that `s` decodes to as Base58 (`None` where it is not valid Base58).
/// The checks run in a fixed order and stop at the first failure.
pub open spec fn validate_spec(s: Seq<char>, decoded: Option<Seq<u8>>) -> Result<(), AddressError> {
    if s.len() < 25 {
        Err(AddressError::TooShort)
    } else if s.len() > 35 {
        Err(AddressError::TooLong)
    } else if s[0] != 'r' {
        Err(AddressError::InvalidPrefix)
    } else {
        match decoded {
            None => Err(AddressError::InvalidBase58),
            Some(d) => {
                if d.len() < 5 {
                    Err(AddressError::InvalidDataLength)
                } else if !checksum_matches(d) {
                    Err(AddressError::InvalidChecksum)
                } else {
                    Ok(())
                }
            },
        }
    }
}

/// Relies on `base58::FromBase58` for `str`: decoding is a pure function of
/// the characters alone, and an input outside the Base58 alphabet or beyond
/// the decoder's capacity yields an error. The length bound keeps the call
/// away from the decoder's fixed 132-byte buffer, whose final index
/// arithmetic can underflow on much longer runs of leading `'1'` characters.
#[verifier::external_body]
fn decode_base58(s: &str) -> (r: Option<Vec<u8>>)
    requires
        s@.len() <= 35,
    ensures
        match r {
            Some(v) => b58_decode(s@) == Some(v@),
            None => b58_decode(s@) is None,
        },
{
    base58::FromBase58::from_base58(s).ok()
}

/// Relies on `crc32fast::Hasher` (`new`, `update`, `finalize`): the CRC-32
/// checksum is a function of the input bytes alone.
#[verifier::external_body]
fn crc32_checksum(data: &[u8]) -> (r: u32)
    ensures
        r == crc32_of(data@),
{
    let mut hasher = crc32fast::Hasher::new();
    hasher.update(data);
    hasher.finalize()
}

/// Slice equality, element by element.
fn bytes_equal(a: &[u8], b: &[u8]) -> (r: bool)
    ensures
        r == (a@ == b@),
{
    if a.len() != b.len() {
        assert(a@ != b@) by {
            assert(a@.len() != b@.len());
        }
        return false;
    }
    let mut i: usize = 0;
    while i < a.len()
        invariant
            a@.len() == b@.len(),
            i <= a@.len(),
            forall|k: int| 0 <= k < i ==> a@[k] == b@[k],
        decreases a@.len() - i,
    {
        if a[i] != b[i] {
            assert(a@ != b@) by {
                assert(a@[i as int] != b@[i as int]);
            }
            return false;
        }
        i += 1;
    }
    assert(a@ =~= b@);
    true
}

/// Validator for ledger account addresses.
pub struct AddressValidator;

impl AddressValidator {
    /// Creates a new validator.
    pub fn new() -> (r: AddressValidator) {
        AddressValidator
    }

    /// Validates an address candidate: length bounds, the `'r'` prefix,
    /// Base58 well-formedness, a minimum decoded length, and the trailing
    /// CRC-32 checksum, in that order.
    pub fn validate(&self, address: &str) -> (r: Result<(), AddressError>)
        ensures
            r == validate_spec(address@, b58_decode(address@)),
    {
        let n = address.unicode_len();
        if n < 25 {
            return Err(AddressError::TooShort);
        }
        if n > 35 {
            return Err(AddressError::TooLong);
        }
        if address.get_char(0) != 'r' {
            return Err(AddressError::InvalidPrefix);
        }
        let decoded = match decode_base58(address) {
            Some(bytes) => bytes,
            None => {
                return Err(AddressError::InvalidBase58);
            },
        };
        if decoded.len() < 5 {
            return Err(AddressError::InvalidDataLength);
        }
        let len = decoded.len();
        let payload = slice_subrange(decoded.as_slice(), 0, len - 4);
        let checksum = slice_subrange(decoded.as_slice(), len - 4, len);
        let expected = calculate_checksum(payload);
        if !bytes_equal(checksum, expected.as_slice()) {
            assert(!checksum_matches(decoded@));
            return Err(AddressError::InvalidChecksum);
        }
        assert(checksum_matches(decoded@));
        Ok(())
    }
}

impl Default for AddressValidator {
    fn default() -> (r: Self)
        ensures
            r == AddressValidator,
    {
        Self::new()
    }
}

/// The 4-byte big-endian CRC-32 checksum of `data`, as stored at the tail
/// of a decoded address.
pub fn calculate_checksum(data: &[u8]) -> (r: Vec<u8>)
    ensures
        r@ == be_bytes32(crc32_of(data@)),
{
    let c = crc32_checksum(data);
    let r = vec![
        (c >> 24) as u8,
        ((c >> 16) & 0xff) as u8,
        ((c >> 8) & 0xff) as u8,
        (c & 0xff) as u8,
    ];
    assert(r@ =~= be_bytes32(c));
    r
}

/// A candidate shorter than 25 characters is rejected as too short,
/// whatever bytes it might decode to.
pub proof fn lemma_short_address_rejected(s: Seq<char>, decoded: Option<Seq<u8>>)
    requires
        s.len() < 25,
    ensures
        validate_spec(s, decoded) == Err::<(), AddressError>(AddressError::TooShort),
{
}

/// A candidate longer than 35 characters is rejected as too long before any
/// decoding is consulted: the outcome is the same for every decode result.
pub proof fn lemma_long_address_rejected(s: Seq<char>, decoded: Option<Seq<u8>>)
    requires
        s.len() > 35,
    ensures
        validate_spec(s, decoded) == Err::<(), AddressError>(AddressError::TooLong),
{
}

/// A candidate within the length bounds whose first character is not `'r'`
/// is rejected for its prefix, however well-formed the rest may be.
pub proof fn lemma_bad_prefix_rejected(s: Seq<char>, decoded: Option<Seq<u8>>)
    requires
        25 <= s.len() <= 35,
        s[0] != 'r',
    ensures
        validate_spec(s, decoded) == Err::<(), AddressError>(AddressError::InvalidPrefix),
{
}

/// Round trip: a byte string that ends in the correct checksum over its own
/// payload passes validation, whenever its encoded form is within the length
/// bounds and starts with `'r'`.
pub proof fn lemma_round_trip(s: Seq<char>, d: Seq<u8>)
    requires
        25 <= s.len() <= 35,
        s[0] == 'r',
        d.len() >= 5,
        checksum_matches(d),
    ensures
        validate_spec(s, Some(d)) == Ok::<(), AddressError>(()),
{
}

/// Flipping any single byte of the stored checksum makes validation fail
/// with `InvalidChecksum`: the recomputed checksum depends only on the
/// payload, which is unchanged, while the stored bytes now differ.
pub proof fn lemma_checksum_flip_rejected(s: Seq<char>, d: Seq<u8>, d2: Seq<u8>, i: int)
    requires
        25 <= s.len() <= 35,
        s[0] == 'r',
        d.len() >= 5,
        checksum_matches(d),
        d2.len() == d.len(),
        d.len() - 4 <= i < d.len(),
        d2[i] != d[i],
        forall|k: int| 0 <= k < d.len() && k != i ==> d2[k] == d[k],
    ensures
        validate_spec(s, Some(d2)) == Err::<(), AddressError>(AddressError::InvalidChecksum),
{
    assert(payload_part(d2) =~= payload_part(d));
    let j = i - (d.len() - 4);
    assert(checksum_part(d2)[j] == d2[i]);
    assert(checksum_part(d)[j] == d[i]);
    assert(!checksum_matches(d2)) by {
        if checksum_part(d2) == be_bytes32(crc32_of(payload_part(d2))) {
            assert(checksum_part(d2)[j] == checksum_part(d)[j]);
        }
    }
}

} // verus!
