//! Ed25519 keypairs, signing and verification.
use vstd::prelude::*;
use crate::codec::{base58_decoding, decode_base58, DecodeError, PublicKey};

verus! {

/// Whether `Keypair::try_from` accepts these bytes: 64 of them, whose second
/// half is the public key derived from the first.
pub uninterp spec fn keypair_accepted(b: Seq<u8>) -> bool;

/// What `Signer::sign_message` of the keypair with these bytes returns.
pub uninterp spec fn ed25519_signature(keypair: Seq<u8>, msg: Seq<u8>) -> Seq<u8>;

/// What `Signature::verify` returns for a signature, a public key and a message.
pub uninterp spec fn ed25519_verifies(sig: Seq<u8>, pubkey: Seq<u8>, msg: Seq<u8>) -> bool;

#[verifier::external_type_specification]
#[verifier::external_body]
pub struct ExSdkKeypair(solana_sdk::signature::Keypair);

/// Relies on `Keypair::try_from(&[u8])`: it accepts 64 bytes only, and only
/// where the public half matches the secret half; the keypair keeps the bytes.
#[verifier::external_body]
fn keypair_from_bytes(b: &[u8]) -> (r: Option<SigningKey>)
    ensures
        r is Some <==> keypair_accepted(b@),
        r matches Some(k) ==> k@ == b@ && b@.len() == 64,
{
    let inner = solana_sdk::signature::Keypair::try_from(b).ok()?;
    Some(SigningKey { inner, bytes: b.to_vec() })
}

/// Relies on `Signer::sign_message`: a 64-byte signature that
/// `Signature::verify` accepts under the keypair's public half.
#[verifier::external_body]
fn ed25519_sign(keypair: &SigningKey, msg: &[u8]) -> (r: Vec<u8>)
    requires
        keypair.wf(),
    ensures
        r@ == ed25519_signature(keypair@, msg@),
        r@.len() == 64,
        ed25519_verifies(r@, keypair@.subrange(32, 64), msg@),
{
    solana_sdk::signer::Signer::sign_message(&keypair.inner, msg).as_ref().to_vec()
}

/// Relies on `Signature::verify`: whether the signature is valid for the
/// message under the public key; `false`, never an error, on a mismatch.
#[verifier::external_body]
fn ed25519_verify(sig: &[u8; 64], pubkey: &[u8; 32], msg: &[u8]) -> (r: bool)
    ensures
        r == ed25519_verifies(sig@, pubkey@, msg@),
{
    solana_sdk::signature::Signature::from(*sig).verify(pubkey, msg)
}

/// Relies on `Keypair::new`: a fresh random keypair, whose 64 bytes
/// (`Keypair::to_bytes`) `Keypair::try_from` accepts.
#[verifier::external_body]
fn fresh_keypair() -> (r: SigningKey)
    ensures
        r.wf(),
{
    let inner = solana_sdk::signature::Keypair::new();
    let bytes = inner.to_bytes().to_vec();
    SigningKey { inner, bytes }
}

/// A signing keypair: a 32-byte secret seed followed by its 32-byte public key,
/// together with the Ed25519 keypair built from exactly those bytes.
pub struct SigningKey {
    inner: solana_sdk::signature::Keypair,
    bytes: Vec<u8>,
}

impl View for SigningKey {
    type V = Seq<u8>;

    closed spec fn view(&self) -> Seq<u8> {
        self.bytes@
    }
}

/// The public half of a keypair's bytes.
pub open spec fn public_half(k: Seq<u8>) -> Seq<u8> {
    k.subrange(32, 64)
}

/// A 64-byte Ed25519 signature.
pub struct Signature {
    pub bytes: [u8; 64],
}

impl View for Signature {
    type V = Seq<u8>;

    open spec fn view(&self) -> Seq<u8> {
        self.bytes@
    }
}

/// What decoding a base58 keypair text gives.
pub open spec fn keypair_of_text(s: Seq<char>) -> Result<Seq<u8>, DecodeError> {
    match base58_decoding(s) {
        None => Err(DecodeError::Encoding),
        Some(b) => if b.len() != 64 {
            Err(DecodeError::Length)
        } else if !keypair_accepted(b) {
            Err(DecodeError::InvalidKey)
        } else {
            Ok(b)
        },
    }
}

impl SigningKey {
    /// Well-formed: 64 bytes that make a consistent keypair.
    pub open spec fn wf(&self) -> bool {
        self@.len() == 64 && keypair_accepted(self@)
    }

    /// A fresh random keypair.
    pub fn generate() -> (r: SigningKey)
        ensures
            r.wf(),
    {
        fresh_keypair()
    }

    /// The keypair's 64 bytes.
    pub fn to_bytes(&self) -> (r: &[u8])
        ensures
            r@ == self@,
    {
        self.bytes.as_slice()
    }

    /// The public key: the second half of the keypair's bytes.
    pub fn public_key(&self) -> (r: PublicKey)
        requires
            self.wf(),
        ensures
            r@ == public_half(self@),
    {
        let b = self.bytes.as_slice();
        let mut bytes: [u8; 32] = [0u8; 32];
        let mut i: usize = 0;
        while i < 32
            invariant
                b@ == self@,
                b@.len() == 64,
                0 <= i <= 32,
                forall|j: int| 0 <= j < i ==> bytes@[j] == b@[j + 32],
            decreases 32 - i,
        {
            bytes[i] = b[i + 32];
            i = i + 1;
        }
        assert(bytes@ =~= public_half(self@));
        PublicKey { bytes }
    }

    /// Signs the message's exact bytes. The signature verifies against the
    /// keypair's public key and the same message.
    pub fn sign_message(&self, msg: &[u8]) -> (r: Signature)
        requires
            self.wf(),
        ensures
            r@ == ed25519_signature(self@, msg@),
            verify_spec(r@, public_half(self@), msg@),
    {
        let v = ed25519_sign(self, msg);
        let mut bytes: [u8; 64] = [0u8; 64];
        let mut i: usize = 0;
        while i < 64
            invariant
                v@.len() == 64,
                0 <= i <= 64,
                forall|j: int| 0 <= j < i ==> bytes@[j] == v@[j],
            decreases 64 - i,
        {
            bytes[i] = v[i];
            i = i + 1;
        }
        assert(bytes@ =~= v@);
        Signature { bytes }
    }
}

/// Decodes a base58 keypair: 64 bytes, the public half derived from the secret.
pub fn decode_keypair(text: &str) -> (r: Result<SigningKey, DecodeError>)
    ensures
        match r {
            Ok(k) => k.wf() && keypair_of_text(text@) == Ok::<Seq<u8>, DecodeError>(k@),
            Err(e) => keypair_of_text(text@) == Err::<Seq<u8>, DecodeError>(e),
        },
{
    let bytes = match decode_base58(text) {
        Ok(b) => b,
        Err(e) => return Err(e),
    };
    if bytes.len() != 64 {
        return Err(DecodeError::Length);
    }
    match keypair_from_bytes(bytes.as_slice()) {
        Some(k) => Ok(k),
        None => Err(DecodeError::InvalidKey),
    }
}

/// Whether a signature is valid for a message under a public key.
pub open spec fn verify_spec(sig: Seq<u8>, pubkey: Seq<u8>, msg: Seq<u8>) -> bool {
    ed25519_verifies(sig, pubkey, msg)
}

/// Checks a signature against a public key and a message; a mismatch is
/// `false`, never an error.
pub fn verify_signature(sig: &Signature, pubkey: &PublicKey, msg: &[u8]) -> (r: bool)
    ensures
        r == verify_spec(sig@, pubkey@, msg@),
{
    ed25519_verify(&sig.bytes, &pubkey.bytes, msg)
}

/// The signature with these bytes, where there are exactly 64 of them.
pub fn signature_from_slice(b: &[u8]) -> (r: Result<Signature, DecodeError>)
    ensures
        r is Ok <==> b@.len() == 64,
        r matches Ok(s) ==> s@ == b@,
        r matches Err(e) ==> e == DecodeError::Length,
{
    if b.len() != 64 {
        return Err(DecodeError::Length);
    }
    let mut bytes: [u8; 64] = [0u8; 64];
    let mut i: usize = 0;
    while i < 64
        invariant
            b@.len() == 64,
            0 <= i <= 64,
            forall|j: int| 0 <= j < i ==> bytes@[j] == b@[j],
        decreases 64 - i,
    {
        bytes[i] = b[i];
        i = i + 1;
    }
    assert(bytes@ =~= b@);
    Ok(Signature { bytes })
}

} // verus!
