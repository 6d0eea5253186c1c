//! Text codecs for addresses, keypairs and binary payloads.
use vstd::prelude::*;

verus! {

/// What `bs58::decode(s).into_vec()` yields: the bytes, or `None` where the
/// text is not base58 in the Bitcoin alphabet.
pub uninterp spec fn base58_decoding(s: Seq<char>) -> Option<Seq<u8>>;

/// What `bs58::encode(b).into_string()` yields.
pub uninterp spec fn base58_encoding(b: Seq<u8>) -> Seq<char>;

/// What the standard padded base64 engine's `encode` yields.
pub uninterp spec fn base64_encoding(b: Seq<u8>) -> Seq<char>;

/// What the standard padded base64 engine's `decode` yields: the bytes, or
/// `None` where the text is not padded base64 in the standard alphabet.
pub uninterp spec fn base64_decoding(s: Seq<char>) -> Option<Seq<u8>>;

/// Relies on `bs58::decode(..).into_vec()`: the decoded bytes, or an error on
/// a character outside the alphabet.
#[verifier::external_body]
fn base58_decode(s: &str) -> (r: Option<Vec<u8>>)
    ensures
        match r {
            Some(v) => base58_decoding(s@) == Some(v@),
            None => base58_decoding(s@) is None,
        },
{
    bs58::decode(s).into_vec().ok()
}

/// Relies on `bs58::encode(..).into_string()`: the text that `bs58::decode`
/// turns back into the same bytes.
#[verifier::external_body]
fn base58_encode(b: &[u8]) -> (r: String)
    ensures
        r@ == base58_encoding(b@),
        base58_decoding(r@) == Some(b@),
{
    bs58::encode(b).into_string()
}

/// Relies on `base64::engine::general_purpose::STANDARD.encode`: padded text
/// that the same engine's `decode` turns back into the same bytes.
#[verifier::external_body]
fn base64_encode(b: &[u8]) -> (r: String)
    ensures
        r@ == base64_encoding(b@),
        base64_decoding(r@) == Some(b@),
{
    base64::Engine::encode(&base64::engine::general_purpose::STANDARD, b)
}

/// Relies on `base64::engine::general_purpose::STANDARD.decode`: the decoded
/// bytes, or an error on malformed text.
#[verifier::external_body]
fn base64_decode(s: &str) -> (r: Option<Vec<u8>>)
    ensures
        match r {
            Some(v) => base64_decoding(s@) == Some(v@),
            None => base64_decoding(s@) is None,
        },
{
    base64::Engine::decode(&base64::engine::general_purpose::STANDARD, s).ok()
}

/// Why a text could not be turned into a key or a payload.
#[derive(Clone, Copy, Debug, PartialEq, Eq, Structural)]
pub enum DecodeError {
    /// The text does not follow its encoding's alphabet or padding.
    Encoding,
    /// The decoded bytes have the wrong length for their target.
    Length,
    /// The bytes have the right length but are no valid keypair.
    InvalidKey,
}

/// A 32-byte account or program address.
#[derive(Clone, Copy, Debug, PartialEq, Eq)]
pub struct PublicKey {
    pub bytes: [u8; 32],
}

impl View for PublicKey {
    type V = Seq<u8>;

    open spec fn view(&self) -> Seq<u8> {
        self.bytes@
    }
}

/// The address that a text names: its base58 decoding, which must be 32 bytes.
pub open spec fn address_of_text(s: Seq<char>) -> Result<Seq<u8>, DecodeError> {
    match base58_decoding(s) {
        None => Err(DecodeError::Encoding),
        Some(b) => if b.len() == 32 {
            Ok(b)
        } else {
            Err(DecodeError::Length)
        },
    }
}

impl PublicKey {
    /// The key with these bytes, where there are exactly 32 of them.
    pub fn from_slice(b: &[u8]) -> (r: Option<PublicKey>)
        ensures
            r is Some <==> b@.len() == 32,
            r matches Some(k) ==> k@ == b@,
    {
        if b.len() != 32 {
            return None;
        }
        let mut bytes: [u8; 32] = [0u8; 32];
        let mut i: usize = 0;
        while i < 32
            invariant
                b@.len() == 32,
                0 <= i <= 32,
                forall|j: int| 0 <= j < i ==> bytes@[j] == b@[j],
            decreases 32 - i,
        {
            bytes[i] = b[i];
            i = i + 1;
        }
        assert(bytes@ =~= b@);
        Some(PublicKey { bytes })
    }

    /// The key's base58 text.
    pub fn to_base58(&self) -> (r: String)
        ensures
            r@ == base58_encoding(self@),
            address_of_text(r@) == Ok::<Seq<u8>, DecodeError>(self@),
    {
        encode_address(self)
    }
}

/// Decodes a base58 address into its 32 bytes.
pub fn decode_address(text: &str) -> (r: Result<PublicKey, DecodeError>)
    ensures
        match r {
            Ok(k) => address_of_text(text@) == Ok::<Seq<u8>, DecodeError>(k@),
            Err(e) => address_of_text(text@) == Err::<Seq<u8>, DecodeError>(e),
        },
{
    match base58_decode(text) {
        None => Err(DecodeError::Encoding),
        Some(b) => match PublicKey::from_slice(b.as_slice()) {
            Some(k) => Ok(k),
            None => Err(DecodeError::Length),
        },
    }
}

/// Encodes an address as base58 text; decoding that text gives the same
/// address back.
pub fn encode_address(k: &PublicKey) -> (r: String)
    ensures
        r@ == base58_encoding(k@),
        address_of_text(r@) == Ok::<Seq<u8>, DecodeError>(k@),
{
    base58_encode(&k.bytes)
}

/// Encodes bytes as standard padded base64.
pub fn encode_b64(b: &[u8]) -> (r: String)
    ensures
        r@ == base64_encoding(b@),
        base64_decoding(r@) == Some(b@),
{
    base64_encode(b)
}

/// Decodes standard padded base64.
pub fn decode_b64(text: &str) -> (r: Result<Vec<u8>, DecodeError>)
    ensures
        match r {
            Ok(v) => base64_decoding(text@) == Some(v@),
            Err(e) => e == DecodeError::Encoding && base64_decoding(text@) is None,
        },
{
    match base64_decode(text) {
        Some(v) => Ok(v),
        None => Err(DecodeError::Encoding),
    }
}

/// Decodes base58 text into bytes of any length.
pub fn decode_base58(text: &str) -> (r: Result<Vec<u8>, DecodeError>)
    ensures
        match r {
            Ok(v) => base58_decoding(text@) == Some(v@),
            Err(e) => e == DecodeError::Encoding && base58_decoding(text@) is None,
        },
{
    match base58_decode(text) {
        Some(v) => Ok(v),
        None => Err(DecodeError::Encoding),
    }
}

/// Encodes bytes of any length as base58 text.
pub fn encode_base58(b: &[u8]) -> (r: String)
    ensures
        r@ == base58_encoding(b@),
        base58_decoding(r@) == Some(b@),
{
    base58_encode(b)
}

} // verus!
