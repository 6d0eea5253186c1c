//! Minting tokens to a destination account.
use vstd::prelude::*;
use crate::instruction::{
    build_mint_to, mint_to_layout, render_instruction, shows, InstructionOutput, InstructionView,
};
pub use crate::instruction::AccountMeta;
use crate::request::{
    address_field, amount_field, from_build_error, parse_address, require_amount, require_text,
    text_field, Field, ServiceError,
};

verus! {

/// A mint-to: the mint, the destination token account, the mint authority
/// and the amount.
#[derive(Clone, Debug, PartialEq, Eq)]
pub struct MintTokenRequest {
    pub mint: Option<String>,
    pub destination: Option<String>,
    pub authority: Option<String>,
    pub amount: Option<u64>,
}

/// What a mint-to request yields. Fields are checked in order (mint,
/// destination, authority, amount), then the addresses are decoded.
pub open spec fn mint_token_outcome(p: MintTokenRequest) -> Result<InstructionView, ServiceError> {
    match text_field(p.mint, Field::Mint) {
        Err(e) => Err(e),
        Ok(mint) => match text_field(p.destination, Field::Destination) {
            Err(e) => Err(e),
            Ok(dest) => match text_field(p.authority, Field::Authority) {
                Err(e) => Err(e),
                Ok(auth) => match amount_field(p.amount, Field::Amount) {
                    Err(e) => Err(e),
                    Ok(amount) => match address_field(mint, Field::Mint) {
                        Err(e) => Err(e),
                        Ok(m) => match address_field(dest, Field::Destination) {
                            Err(e) => Err(e),
                            Ok(d) => match address_field(auth, Field::Authority) {
                                Err(e) => Err(e),
                                Ok(a) => Ok(mint_to_layout(m, d, a, amount)),
                            },
                        },
                    },
                },
            },
        },
    }
}

/// Builds and renders the token program's MintTo for a request.
pub fn mint_token(payload: &MintTokenRequest) -> (r: Result<InstructionOutput, ServiceError>)
    ensures
        match r {
            Ok(out) => mint_token_outcome(*payload) matches Ok(ix) && shows(out, ix),
            Err(e) => mint_token_outcome(*payload) == Err::<InstructionView, ServiceError>(e),
        },
{
    let mint_text = require_text(&payload.mint, Field::Mint)?;
    let dest_text = require_text(&payload.destination, Field::Destination)?;
    let auth_text = require_text(&payload.authority, Field::Authority)?;
    let amount = require_amount(payload.amount, Field::Amount)?;
    let mint = parse_address(mint_text.as_str(), Field::Mint)?;
    let destination = parse_address(dest_text.as_str(), Field::Destination)?;
    let authority = parse_address(auth_text.as_str(), Field::Authority)?;
    match build_mint_to(&mint, &destination, &authority, amount) {
        Ok(ix) => Ok(render_instruction(&ix)),
        Err(e) => Err(from_build_error(e)),
    }
}

} // verus!
