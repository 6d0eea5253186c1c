//! Request fields, their presence checks, and the errors a request can meet.
use vstd::prelude::*;
use crate::codec::{address_of_text, decode_address, DecodeError, PublicKey};
use crate::instruction::BuildError;

verus! {

/// A field of a request, named in the error it causes.
#[derive(Clone, Copy, Debug, PartialEq, Eq, Structural)]
pub enum Field {
    Mint,
    MintAuthority,
    Decimals,
    Destination,
    Authority,
    Owner,
    Amount,
    From,
    To,
    Lamports,
    Text,
    PrivateKey,
    SignedData,
    WalletAddress,
}

/// What went wrong with a request.
#[derive(Clone, Copy, Debug, PartialEq, Eq, Structural)]
pub enum ServiceError {
    /// A required field is absent.
    MissingField(Field),
    /// A required text field holds only whitespace.
    EmptyField(Field),
    /// A field's base58 or base64 text is malformed.
    Encoding(Field),
    /// A field decodes to the wrong number of bytes.
    Length(Field),
    /// A keypair's public half does not belong to its secret half.
    InvalidKey(Field),
    /// An amount is zero where a positive one is required.
    InvalidAmount(Field),
    /// The protocol encoder refused the instruction.
    Instruction,
}

/// A character that `char::is_whitespace` accepts (Unicode White_Space).
pub open spec fn is_whitespace(c: char) -> bool {
    let n = c as u32;
    (9 <= n <= 13) || n == 32 || n == 0x85 || n == 0xA0 || n == 0x1680 || (0x2000 <= n <= 0x200A)
        || n == 0x2028 || n == 0x2029 || n == 0x202F || n == 0x205F || n == 0x3000
}

/// Text that trims to nothing: every character is whitespace.
pub open spec fn is_blank(s: Seq<char>) -> bool {
    forall|i: int| 0 <= i < s.len() ==> is_whitespace(#[trigger] s[i])
}

/// Whether a character is Unicode whitespace.
pub fn whitespace_char(c: char) -> (r: bool)
    ensures
        r == is_whitespace(c),
{
    let n = c as u32;
    (9 <= n && n <= 13) || n == 32 || n == 0x85 || n == 0xA0 || n == 0x1680 || (0x2000 <= n && n
        <= 0x200A) || n == 0x2028 || n == 0x2029 || n == 0x202F || n == 0x205F || n == 0x3000
}

/// Whether a text holds only whitespace (or nothing).
pub fn blank(s: &str) -> (r: bool)
    ensures
        r == is_blank(s@),
{
    let n = s.unicode_len();
    let mut i: usize = 0;
    while i < n
        invariant
            n == s@.len(),
            0 <= i <= n,
            forall|j: int| 0 <= j < i ==> is_whitespace(#[trigger] s@[j]),
        decreases n - i,
    {
        if !whitespace_char(s.get_char(i)) {
            return false;
        }
        i = i + 1;
    }
    true
}

/// What checking a required text field gives: its text, or why not.
pub open spec fn text_field(input: Option<String>, field: Field) -> Result<Seq<char>, ServiceError> {
    match input {
        None => Err(ServiceError::MissingField(field)),
        Some(s) => if is_blank(s@) {
            Err(ServiceError::EmptyField(field))
        } else {
            Ok(s@)
        },
    }
}

/// The text of a required field, which must be present and not blank.
pub fn require_text(input: &Option<String>, field: Field) -> (r: Result<&String, ServiceError>)
    ensures
        match r {
            Ok(s) => text_field(*input, field) == Ok::<Seq<char>, ServiceError>(s@),
            Err(e) => text_field(*input, field) == Err::<Seq<char>, ServiceError>(e),
        },
{
    match input {
        None => Err(ServiceError::MissingField(field)),
        Some(s) => if blank(s.as_str()) {
            Err(ServiceError::EmptyField(field))
        } else {
            Ok(s)
        },
    }
}

/// What checking a required amount gives: the amount, or why not.
pub open spec fn amount_field(input: Option<u64>, field: Field) -> Result<u64, ServiceError> {
    match input {
        None => Err(ServiceError::MissingField(field)),
        Some(a) => if a == 0 {
            Err(ServiceError::InvalidAmount(field))
        } else {
            Ok(a)
        },
    }
}

/// A required amount, which must be present and positive.
pub fn require_amount(input: Option<u64>, field: Field) -> (r: Result<u64, ServiceError>)
    ensures
        r == amount_field(input, field),
{
    match input {
        None => Err(ServiceError::MissingField(field)),
        Some(0) => Err(ServiceError::InvalidAmount(field)),
        Some(a) => Ok(a),
    }
}

/// The error a decoding failure of a field becomes.
pub open spec fn field_error(e: DecodeError, field: Field) -> ServiceError {
    match e {
        DecodeError::Encoding => ServiceError::Encoding(field),
        DecodeError::Length => ServiceError::Length(field),
        DecodeError::InvalidKey => ServiceError::InvalidKey(field),
    }
}

/// Attributes a decoding failure to a field.
pub fn to_field_error(e: DecodeError, field: Field) -> (r: ServiceError)
    ensures
        r == field_error(e, field),
{
    match e {
        DecodeError::Encoding => ServiceError::Encoding(field),
        DecodeError::Length => ServiceError::Length(field),
        DecodeError::InvalidKey => ServiceError::InvalidKey(field),
    }
}

/// What decoding an address field gives: its bytes, or why not.
pub open spec fn address_field(s: Seq<char>, field: Field) -> Result<Seq<u8>, ServiceError> {
    match address_of_text(s) {
        Ok(b) => Ok(b),
        Err(e) => Err(field_error(e, field)),
    }
}

/// Decodes the address held in a field.
pub fn parse_address(text: &str, field: Field) -> (r: Result<PublicKey, ServiceError>)
    ensures
        match r {
            Ok(k) => address_field(text@, field) == Ok::<Seq<u8>, ServiceError>(k@),
            Err(e) => address_field(text@, field) == Err::<Seq<u8>, ServiceError>(e),
        },
{
    match decode_address(text) {
        Ok(k) => Ok(k),
        Err(e) => Err(to_field_error(e, field)),
    }
}

/// The service error for a builder failure.
pub fn from_build_error(e: BuildError) -> (r: ServiceError)
    ensures
        r == ServiceError::Instruction,
{
    match e {
        BuildError::Instruction => ServiceError::Instruction,
    }
}

} // verus!
