//! Signing text messages and checking their signatures.
use vstd::prelude::*;
use vstd::utf8::encode_utf8;
use crate::codec::{base58_encoding, base64_decoding, base64_encoding, decode_b64, encode_address, encode_b64};
use crate::request::{
    address_field, field_error, parse_address, require_text, text_field, to_field_error, Field,
    ServiceError,
};
use crate::signing::{
    decode_keypair, ed25519_signature, keypair_of_text, public_half, signature_from_slice,
    verify_signature, verify_spec,
};

verus! {

/// A request to sign a text with a base58 keypair.
#[derive(Clone, Debug, PartialEq, Eq)]
pub struct MessageSignRequest {
    pub text: Option<String>,
    pub private_key: Option<String>,
}

/// A request to check a base64 signature of a text against a base58 address.
#[derive(Clone, Debug, PartialEq, Eq)]
pub struct SignatureVerificationRequest {
    pub text: Option<String>,
    pub signed_data: Option<String>,
    pub wallet_address: Option<String>,
}

/// A signed text: the base64 signature, the signer's base58 address and the text.
#[derive(Clone, Debug, PartialEq, Eq)]
pub struct SignOutput {
    pub signed_message: String,
    pub wallet_address: String,
    pub original_text: String,
}

/// The outcome of a check: whether the signature holds, the text and the address.
#[derive(Clone, Debug, PartialEq, Eq)]
pub struct VerifyOutput {
    pub is_verified: bool,
    pub original_text: String,
    pub wallet_address: String,
}

/// The text to sign, which must be present and not blank.
pub fn extract_text_content(text_input: &Option<String>) -> (r: Result<&String, ServiceError>)
    ensures
        match r {
            Ok(s) => text_field(*text_input, Field::Text) == Ok::<Seq<char>, ServiceError>(s@),
            Err(e) => text_field(*text_input, Field::Text) == Err::<Seq<char>, ServiceError>(e),
        },
{
    require_text(text_input, Field::Text)
}

/// The base64 signature text, which must be present and not blank.
pub fn extract_signature_data(sig_input: &Option<String>) -> (r: Result<&String, ServiceError>)
    ensures
        match r {
            Ok(s) => text_field(*sig_input, Field::SignedData) == Ok::<Seq<char>, ServiceError>(s@),
            Err(e) => text_field(*sig_input, Field::SignedData) == Err::<Seq<char>, ServiceError>(e),
        },
{
    require_text(sig_input, Field::SignedData)
}

/// The base58 wallet address text, which must be present and not blank.
pub fn extract_wallet_address(addr_input: &Option<String>) -> (r: Result<&String, ServiceError>)
    ensures
        match r {
            Ok(s) => text_field(*addr_input, Field::WalletAddress) == Ok::<Seq<char>, ServiceError>(
                s@,
            ),
            Err(e) => text_field(*addr_input, Field::WalletAddress) == Err::<
                Seq<char>,
                ServiceError,
            >(e),
        },
{
    require_text(addr_input, Field::WalletAddress)
}

/// What a signing request yields: the keypair's bytes and the text, or why not.
pub open spec fn signing_outcome(p: MessageSignRequest) -> Result<(Seq<u8>, Seq<char>), ServiceError> {
    match text_field(p.text, Field::Text) {
        Err(e) => Err(e),
        Ok(text) => match text_field(p.private_key, Field::PrivateKey) {
            Err(e) => Err(e),
            Ok(key) => match keypair_of_text(key) {
                Err(e) => Err(field_error(e, Field::PrivateKey)),
                Ok(kp) => Ok((kp, text)),
            },
        },
    }
}

/// Signs a request's text, as UTF-8 bytes, with its keypair. The signature
/// verifies under the keypair's public key.
pub fn process_message_signing(request_data: &MessageSignRequest) -> (r: Result<SignOutput, ServiceError>)
    ensures
        match r {
            Ok(out) => signing_outcome(*request_data) matches Ok((kp, text)) && {
                let sig = ed25519_signature(kp, encode_utf8(text));
                &&& out.signed_message@ == base64_encoding(sig)
                &&& out.wallet_address@ == base58_encoding(public_half(kp))
                &&& out.original_text@ == text
                &&& verify_spec(sig, public_half(kp), encode_utf8(text))
            },
            Err(e) => signing_outcome(*request_data) == Err::<(Seq<u8>, Seq<char>), ServiceError>(e),
        },
{
    let text = extract_text_content(&request_data.text)?;
    let key_text = require_text(&request_data.private_key, Field::PrivateKey)?;
    let keypair = match decode_keypair(key_text.as_str()) {
        Ok(k) => k,
        Err(e) => return Err(to_field_error(e, Field::PrivateKey)),
    };
    let signature = keypair.sign_message(text.as_str().as_bytes());
    let wallet = keypair.public_key();
    Ok(SignOutput {
        signed_message: encode_b64(&signature.bytes),
        wallet_address: encode_address(&wallet),
        original_text: text.clone(),
    })
}

/// What a verification request yields: the text, the signature's bytes and the
/// address's bytes, or why not.
pub open spec fn verification_outcome(p: SignatureVerificationRequest) -> Result<
    (Seq<char>, Seq<u8>, Seq<u8>),
    ServiceError,
> {
    match text_field(p.text, Field::Text) {
        Err(e) => Err(e),
        Ok(text) => match text_field(p.signed_data, Field::SignedData) {
            Err(e) => Err(e),
            Ok(sig) => match text_field(p.wallet_address, Field::WalletAddress) {
                Err(e) => Err(e),
                Ok(addr) => match address_field(addr, Field::WalletAddress) {
                    Err(e) => Err(e),
                    Ok(pk) => match base64_decoding(sig) {
                        None => Err(ServiceError::Encoding(Field::SignedData)),
                        Some(b) => if b.len() != 64 {
                            Err(ServiceError::Length(Field::SignedData))
                        } else {
                            Ok((text, b, pk))
                        },
                    },
                },
            },
        },
    }
}

/// Checks a request's base64 signature of its text under its address. A
/// mismatch is a `false` outcome; only malformed fields are errors.
pub fn authenticate_message_signature(request_payload: &SignatureVerificationRequest) -> (r: Result<
    VerifyOutput,
    ServiceError,
>)
    ensures
        match r {
            Ok(out) => verification_outcome(*request_payload) matches Ok((text, sig, pk)) && {
                &&& out.is_verified == verify_spec(sig, pk, encode_utf8(text))
                &&& out.original_text@ == text
                &&& request_payload.wallet_address matches Some(w) && out.wallet_address@ == w@
            },
            Err(e) => verification_outcome(*request_payload) == Err::<
                (Seq<char>, Seq<u8>, Seq<u8>),
                ServiceError,
            >(e),
        },
{
    let text = extract_text_content(&request_payload.text)?;
    let sig_text = extract_signature_data(&request_payload.signed_data)?;
    let addr_text = extract_wallet_address(&request_payload.wallet_address)?;
    let wallet = parse_address(addr_text.as_str(), Field::WalletAddress)?;
    let sig_bytes = match decode_b64(sig_text.as_str()) {
        Ok(b) => b,
        Err(e) => return Err(to_field_error(e, Field::SignedData)),
    };
    let signature = match signature_from_slice(sig_bytes.as_slice()) {
        Ok(s) => s,
        Err(e) => return Err(to_field_error(e, Field::SignedData)),
    };
    let is_verified = verify_signature(&signature, &wallet, text.as_str().as_bytes());
    Ok(VerifyOutput { is_verified, original_text: text.clone(), wallet_address: addr_text.clone() })
}

} // verus!
