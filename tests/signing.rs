use solana_instruction_service::codec::{encode_base58, DecodeError, PublicKey};
use solana_instruction_service::keypair::generate_keypair;
use solana_instruction_service::signing::{
    decode_keypair, signature_from_slice, verify_signature, SigningKey,
};

fn seed_one_keypair_text() -> (String, [u8; 32]) {
    let kp = solana_sdk::signature::Keypair::new_from_array([1u8; 32]);
    let bytes = kp.to_bytes();
    let mut public = [0u8; 32];
    public.copy_from_slice(&bytes[32..]);
    (encode_base58(&bytes), public)
}

fn seed_one_keypair() -> SigningKey {
    decode_keypair(&seed_one_keypair_text().0).unwrap()
}

#[test]
fn keypair_of_wrong_length_is_refused() {
    for n in [0usize, 1, 32, 63, 65, 128] {
        let text = encode_base58(&vec![3u8; n]);
        assert_eq!(decode_keypair(&text).err(), Some(DecodeError::Length));
    }
}

#[test]
fn keypair_with_foreign_public_half_is_invalid() {
    let kp = solana_sdk::signature::Keypair::new_from_array([1u8; 32]);
    let mut bytes = kp.to_bytes();
    bytes[40] ^= 1;
    let text = encode_base58(&bytes);
    assert_eq!(decode_keypair(&text).err(), Some(DecodeError::InvalidKey));
}

#[test]
fn keypair_with_bad_text_is_encoding_error() {
    assert_eq!(decode_keypair("not-base58!").err(), Some(DecodeError::Encoding));
}

#[test]
fn keypair_public_key_is_second_half() {
    let (_, public) = seed_one_keypair_text();
    let kp = seed_one_keypair();
    assert_eq!(kp.public_key(), PublicKey { bytes: public });
    assert_eq!(kp.to_bytes().len(), 64);
    assert_eq!(&kp.to_bytes()[..32], &[1u8; 32]);
}

#[test]
fn signature_verifies_under_signer() {
    let kp = seed_one_keypair();
    for msg in [&b""[..], b"hello", b"a longer message with bytes \xff\x00"] {
        let sig = kp.sign_message(msg);
        assert!(verify_signature(&sig, &kp.public_key(), msg));
    }
}

#[test]
fn signature_is_deterministic() {
    let kp = seed_one_keypair();
    assert_eq!(kp.sign_message(b"hello").bytes, kp.sign_message(b"hello").bytes);
    assert_ne!(kp.sign_message(b"hello").bytes, kp.sign_message(b"hellp").bytes);
}

#[test]
fn mutations_fail_verification() {
    let kp = seed_one_keypair();
    let msg = b"hello".to_vec();
    let sig = kp.sign_message(&msg);
    let pk = kp.public_key();
    for bit in 0..40 {
        let mut m = msg.clone();
        m[bit / 8] ^= 1 << (bit % 8);
        assert!(!verify_signature(&sig, &pk, &m));
    }
    for bit in [0usize, 7, 100, 300, 511] {
        let mut s = sig.bytes;
        s[bit / 8] ^= 1 << (bit % 8);
        let s = signature_from_slice(&s).unwrap();
        assert!(!verify_signature(&s, &pk, &msg));
    }
    let other = solana_sdk::signature::Keypair::new_from_array([2u8; 32]);
    let other_pk = PublicKey { bytes: solana_sdk::signer::Signer::pubkey(&other).to_bytes() };
    assert!(!verify_signature(&sig, &other_pk, &msg));
}

#[test]
fn signature_slice_needs_64_bytes() {
    assert_eq!(signature_from_slice(&[0u8; 63]).err(), Some(DecodeError::Length));
    assert_eq!(signature_from_slice(&[0u8; 65]).err(), Some(DecodeError::Length));
    assert_eq!(signature_from_slice(&[5u8; 64]).unwrap().bytes, [5u8; 64]);
}

#[test]
fn generated_keypair_is_consistent() {
    let out = generate_keypair();
    let kp = decode_keypair(&out.secret).unwrap();
    assert_eq!(kp.public_key().to_base58(), out.pubkey);
    let sig = kp.sign_message(b"fresh");
    assert!(verify_signature(&sig, &kp.public_key(), b"fresh"));
    assert_ne!(generate_keypair().secret, out.secret);
}
