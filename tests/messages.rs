use solana_instruction_service::codec::{decode_b64, encode_b64, encode_base58};
use solana_instruction_service::request::{Field, ServiceError};
use solana_instruction_service::sign::{
    authenticate_message_signature, extract_signature_data, extract_text_content,
    extract_wallet_address, process_message_signing, MessageSignRequest,
    SignatureVerificationRequest,
};

fn keypair_text(seed: u8) -> (String, String) {
    let kp = solana_sdk::signature::Keypair::new_from_array([seed; 32]);
    let bytes = kp.to_bytes();
    (encode_base58(&bytes), encode_base58(&bytes[32..]))
}

fn sign(text: &str, key: &str) -> Result<solana_instruction_service::sign::SignOutput, ServiceError> {
    process_message_signing(&MessageSignRequest { text: Some(text.to_string()), private_key: Some(key.to_string()) })
}

fn verify(text: &str, sig: &str, addr: &str) -> Result<bool, ServiceError> {
    authenticate_message_signature(&SignatureVerificationRequest {
        text: Some(text.to_string()),
        signed_data: Some(sig.to_string()),
        wallet_address: Some(addr.to_string()),
    })
    .map(|o| o.is_verified)
}

#[test]
fn sign_then_verify_hello() {
    let (secret, public) = keypair_text(1);
    let out = sign("hello", &secret).unwrap();
    assert_eq!(out.wallet_address, public);
    assert_eq!(out.original_text, "hello");
    assert_eq!(decode_b64(&out.signed_message).unwrap().len(), 64);
    let v = authenticate_message_signature(&SignatureVerificationRequest {
        text: Some("hello".to_string()),
        signed_data: Some(out.signed_message.clone()),
        wallet_address: Some(public.clone()),
    })
    .unwrap();
    assert!(v.is_verified);
    assert_eq!(v.original_text, "hello");
    assert_eq!(v.wallet_address, public);
    let (_, other) = keypair_text(2);
    assert_eq!(verify("hello", &out.signed_message, &other), Ok(false));
    assert_eq!(verify("hellp", &out.signed_message, &public), Ok(false));
}

#[test]
fn tampered_signature_is_false_not_error() {
    let (secret, public) = keypair_text(1);
    let out = sign("hello", &secret).unwrap();
    let mut sig = decode_b64(&out.signed_message).unwrap();
    sig[10] ^= 0x04;
    assert_eq!(verify("hello", &encode_b64(&sig), &public), Ok(false));
}

#[test]
fn signing_errors() {
    let (secret, _) = keypair_text(1);
    let r = process_message_signing(&MessageSignRequest { text: None, private_key: Some(secret.clone()) });
    assert_eq!(r, Err(ServiceError::MissingField(Field::Text)));
    assert_eq!(sign("  ", &secret), Err(ServiceError::EmptyField(Field::Text)));
    let r = process_message_signing(&MessageSignRequest { text: Some("x".to_string()), private_key: None });
    assert_eq!(r, Err(ServiceError::MissingField(Field::PrivateKey)));
    assert_eq!(sign("x", " "), Err(ServiceError::EmptyField(Field::PrivateKey)));
    assert_eq!(sign("x", "0OIl"), Err(ServiceError::Encoding(Field::PrivateKey)));
    assert_eq!(sign("x", &encode_base58(&[1u8; 32])), Err(ServiceError::Length(Field::PrivateKey)));
    let mut bytes = solana_sdk::signature::Keypair::new_from_array([1u8; 32]).to_bytes();
    bytes[63] ^= 1;
    assert_eq!(sign("x", &encode_base58(&bytes)), Err(ServiceError::InvalidKey(Field::PrivateKey)));
}

#[test]
fn verification_errors() {
    let (secret, public) = keypair_text(1);
    let sig = sign("hello", &secret).unwrap().signed_message;
    assert_eq!(verify("hello", "not base64!", &public), Err(ServiceError::Encoding(Field::SignedData)));
    assert_eq!(verify("hello", &encode_b64(&[0u8; 63]), &public), Err(ServiceError::Length(Field::SignedData)));
    assert_eq!(verify("hello", &sig, "bad!"), Err(ServiceError::Encoding(Field::WalletAddress)));
    assert_eq!(verify("hello", &sig, &encode_base58(&[1u8; 31])), Err(ServiceError::Length(Field::WalletAddress)));
    assert_eq!(verify("", &sig, &public), Err(ServiceError::EmptyField(Field::Text)));
}

#[test]
fn extractors_check_presence_and_blankness() {
    assert_eq!(extract_text_content(&None), Err(ServiceError::MissingField(Field::Text)));
    assert_eq!(extract_text_content(&Some(" \n".to_string())), Err(ServiceError::EmptyField(Field::Text)));
    assert_eq!(extract_text_content(&Some(" a ".to_string())), Ok(&" a ".to_string()));
    assert_eq!(extract_signature_data(&None), Err(ServiceError::MissingField(Field::SignedData)));
    assert_eq!(extract_signature_data(&Some(String::new())), Err(ServiceError::EmptyField(Field::SignedData)));
    assert_eq!(extract_wallet_address(&None), Err(ServiceError::MissingField(Field::WalletAddress)));
    assert_eq!(extract_wallet_address(&Some("\t".to_string())), Err(ServiceError::EmptyField(Field::WalletAddress)));
    assert_eq!(extract_wallet_address(&Some("w".to_string())), Ok(&"w".to_string()));
}
