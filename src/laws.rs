//! Laws that hold across the library's functions.
use vstd::prelude::*;
use vstd::arithmetic::div_mod::{lemma_div_denominator, lemma_fundamental_div_mod};
use crate::codec::{base58_decoding, DecodeError};
use crate::instruction::{le_u64, mint_to_layout, native_transfer_layout, token_transfer_layout, InstructionView};
use crate::mint_token::{mint_token_outcome, MintTokenRequest};
use crate::request::{is_blank, Field, ServiceError};
use crate::send::{send_solana_outcome, send_token_outcome, SendSolRequest, SendTokenRequest};
use crate::signing::keypair_of_text;

verus! {

/// The number that eight little-endian bytes spell.
pub open spec fn le_value(b: Seq<u8>) -> int {
    b[0] as int + 0x100 * b[1] as int + 0x10000 * b[2] as int + 0x1000000 * b[3] as int
        + 0x100000000 * b[4] as int + 0x10000000000 * b[5] as int + 0x1000000000000 * b[6] as int
        + 0x100000000000000 * b[7] as int
}

/// The amount bytes in every instruction are exactly eight and spell the amount.
pub proof fn lemma_amount_bytes_exact(n: u64)
    ensures
        le_u64(n).len() == 8,
        le_value(le_u64(n)) == n,
{
    let x = n as int;
    lemma_base_256_digit(x, 0x1);
    lemma_base_256_digit(x, 0x100);
    lemma_base_256_digit(x, 0x10000);
    lemma_base_256_digit(x, 0x1000000);
    lemma_base_256_digit(x, 0x100000000);
    lemma_base_256_digit(x, 0x10000000000);
    lemma_base_256_digit(x, 0x1000000000000);
    lemma_base_256_digit(x, 0x100000000000000);
    assert(x / 0x10000000000000000 == 0);
}

/// Peels one base-256 digit off a quotient.
proof fn lemma_base_256_digit(x: int, p: int)
    requires
        x >= 0,
        p > 0,
    ensures
        x / p == 0x100 * (x / (p * 0x100)) + (x / p) % 0x100,
{
    lemma_fundamental_div_mod(x / p, 0x100);
    lemma_div_denominator(x, p, 0x100);
}

/// Whether an optional text field is present and not blank.
pub open spec fn filled(t: Option<String>) -> bool {
    t matches Some(s) && !is_blank(s@)
}

/// A native-unit transfer of zero is refused as an invalid amount once the
/// addresses are given.
pub proof fn lemma_send_solana_rejects_zero(p: SendSolRequest)
    requires
        filled(p.from),
        filled(p.to),
        p.lamports == Some(0u64),
    ensures
        send_solana_outcome(p) == Err::<InstructionView, ServiceError>(
            ServiceError::InvalidAmount(Field::Lamports),
        ),
{
}

/// A token transfer of zero is refused as an invalid amount once the
/// addresses are given.
pub proof fn lemma_send_token_rejects_zero(p: SendTokenRequest)
    requires
        filled(p.destination),
        filled(p.mint),
        filled(p.owner),
        p.amount == Some(0u64),
    ensures
        send_token_outcome(p) == Err::<InstructionView, ServiceError>(
            ServiceError::InvalidAmount(Field::Amount),
        ),
{
}

/// A mint-to of zero is refused as an invalid amount once the addresses are
/// given.
pub proof fn lemma_mint_token_rejects_zero(p: MintTokenRequest)
    requires
        filled(p.mint),
        filled(p.destination),
        filled(p.authority),
        p.amount == Some(0u64),
    ensures
        mint_token_outcome(p) == Err::<InstructionView, ServiceError>(
            ServiceError::InvalidAmount(Field::Amount),
        ),
{
}

/// Every positive amount reaches the payload: where the fields are valid, a
/// transfer's or a mint-to's data ends in the amount's eight bytes.
pub proof fn lemma_positive_amounts_accepted(from: Seq<u8>, to: Seq<u8>, third: Seq<u8>, n: u64)
    requires
        n > 0,
    ensures
        native_transfer_layout(from, to, n).2.subrange(4, 12) == le_u64(n),
        token_transfer_layout(from, to, third, n).2.subrange(1, 9) == le_u64(n),
        mint_to_layout(from, to, third, n).2.subrange(1, 9) == le_u64(n),
{
    assert(native_transfer_layout(from, to, n).2.subrange(4, 12) =~= le_u64(n));
    assert(token_transfer_layout(from, to, third, n).2.subrange(1, 9) =~= le_u64(n));
    assert(mint_to_layout(from, to, third, n).2.subrange(1, 9) =~= le_u64(n));
}

/// Any base58 text that decodes to other than 64 bytes is refused as a
/// keypair with a length error.
pub proof fn lemma_keypair_wrong_length(s: Seq<char>)
    requires
        base58_decoding(s) matches Some(b) && b.len() != 64,
    ensures
        keypair_of_text(s) == Err::<Seq<u8>, DecodeError>(DecodeError::Length),
{
}

} // verus!
