//! Fresh keypairs, rendered as base58 text.
use vstd::prelude::*;
use crate::codec::{base58_encoding, encode_address, encode_base58};
use crate::signing::{keypair_accepted, public_half, SigningKey};

verus! {

/// A new keypair as text: the base58 public key and the base58 64-byte keypair.
#[derive(Clone, Debug, PartialEq, Eq)]
pub struct KeypairOutput {
    pub pubkey: String,
    pub secret: String,
}

/// Generates a random keypair and renders it. The secret text encodes 64 bytes
/// that make a consistent keypair, and the public key text encodes their
/// second half.
pub fn generate_keypair() -> (r: KeypairOutput)
    ensures
        exists|kp: Seq<u8>|
            {
                &&& kp.len() == 64
                &&& keypair_accepted(kp)
                &&& #[trigger] base58_encoding(kp) == r.secret@
                &&& r.pubkey@ == base58_encoding(public_half(kp))
            },
{
    let keypair = SigningKey::generate();
    let pubkey = encode_address(&keypair.public_key());
    let secret = encode_base58(keypair.to_bytes());
    KeypairOutput { pubkey, secret }
}

} // verus!
