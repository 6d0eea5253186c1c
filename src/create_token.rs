//! Initializing a token mint.
use vstd::prelude::*;
use crate::instruction::{
    build_initialize_mint, initialize_mint_layout, render_instruction, shows, InstructionOutput,
    InstructionView,
};
pub use crate::instruction::AccountMeta;
use crate::request::{address_field, from_build_error, parse_address, Field, ServiceError};

verus! {

/// A mint initialization: the mint authority (also made freeze authority),
/// the mint and the decimals.
#[derive(Clone, Debug, PartialEq, Eq)]
pub struct CreateTokenRequest {
    pub mint_authority: Option<String>,
    pub mint: Option<String>,
    pub decimals: Option<u8>,
}

/// What a mint initialization request yields. The authority is checked and
/// decoded first, then the mint, then the decimals; the mint authority is also
/// the freeze authority.
pub open spec fn create_token_outcome(p: CreateTokenRequest) -> Result<InstructionView, ServiceError> {
    match p.mint_authority {
        None => Err(ServiceError::MissingField(Field::MintAuthority)),
        Some(auth) => match address_field(auth@, Field::MintAuthority) {
            Err(e) => Err(e),
            Ok(a) => match p.mint {
                None => Err(ServiceError::MissingField(Field::Mint)),
                Some(mint) => match address_field(mint@, Field::Mint) {
                    Err(e) => Err(e),
                    Ok(m) => match p.decimals {
                        None => Err(ServiceError::MissingField(Field::Decimals)),
                        Some(d) => Ok(initialize_mint_layout(m, a, Some(a), d)),
                    },
                },
            },
        },
    }
}

/// Builds and renders the token program's InitializeMint for a request.
pub fn create_token(payload: &CreateTokenRequest) -> (r: Result<InstructionOutput, ServiceError>)
    ensures
        match r {
            Ok(out) => create_token_outcome(*payload) matches Ok(ix) && shows(out, ix),
            Err(e) => create_token_outcome(*payload) == Err::<InstructionView, ServiceError>(e),
        },
{
    let mint_authority = match &payload.mint_authority {
        None => return Err(ServiceError::MissingField(Field::MintAuthority)),
        Some(text) => parse_address(text.as_str(), Field::MintAuthority)?,
    };
    let mint = match &payload.mint {
        None => return Err(ServiceError::MissingField(Field::Mint)),
        Some(text) => parse_address(text.as_str(), Field::Mint)?,
    };
    let decimals = match payload.decimals {
        None => return Err(ServiceError::MissingField(Field::Decimals)),
        Some(d) => d,
    };
    match build_initialize_mint(&mint, &mint_authority, Some(&mint_authority), decimals) {
        Ok(ix) => Ok(render_instruction(&ix)),
        Err(e) => Err(from_build_error(e)),
    }
}

} // verus!
