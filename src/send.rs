//! Native-unit and token transfers.
use vstd::prelude::*;
use crate::instruction::{
    build_transfer_native, build_transfer_token, native_transfer_layout, render_instruction, shows,
    token_transfer_layout, InstructionOutput, InstructionView,
};
pub use crate::instruction::AccountMeta;
use crate::request::{
    address_field, amount_field, from_build_error, parse_address, require_amount, require_text,
    text_field, Field, ServiceError,
};

verus! {

/// A native-unit transfer: payer, recipient and amount.
#[derive(Clone, Debug, PartialEq, Eq)]
pub struct SendSolRequest {
    pub from: Option<String>,
    pub to: Option<String>,
    pub lamports: Option<u64>,
}

/// A token transfer: the source token account (named `mint`), the
/// destination token account, the source's owner and the amount.
#[derive(Clone, Debug, PartialEq, Eq)]
pub struct SendTokenRequest {
    pub destination: Option<String>,
    pub mint: Option<String>,
    pub owner: Option<String>,
    pub amount: Option<u64>,
}

/// What a native-unit transfer request yields. Fields are checked in order
/// (payer, recipient, amount), then both addresses are decoded.
pub open spec fn send_solana_outcome(p: SendSolRequest) -> Result<InstructionView, ServiceError> {
    match text_field(p.from, Field::From) {
        Err(e) => Err(e),
        Ok(from) => match text_field(p.to, Field::To) {
            Err(e) => Err(e),
            Ok(to) => match amount_field(p.lamports, Field::Lamports) {
                Err(e) => Err(e),
                Ok(lamports) => match address_field(from, Field::From) {
                    Err(e) => Err(e),
                    Ok(f) => match address_field(to, Field::To) {
                        Err(e) => Err(e),
                        Ok(t) => Ok(native_transfer_layout(f, t, lamports)),
                    },
                },
            },
        },
    }
}

/// What a token transfer request yields. Fields are checked in order
/// (destination, source, owner, amount), then the addresses are decoded.
pub open spec fn send_token_outcome(p: SendTokenRequest) -> Result<InstructionView, ServiceError> {
    match text_field(p.destination, Field::Destination) {
        Err(e) => Err(e),
        Ok(dest) => match text_field(p.mint, Field::Mint) {
            Err(e) => Err(e),
            Ok(source) => match text_field(p.owner, Field::Owner) {
                Err(e) => Err(e),
                Ok(owner) => match amount_field(p.amount, Field::Amount) {
                    Err(e) => Err(e),
                    Ok(amount) => match address_field(dest, Field::Destination) {
                        Err(e) => Err(e),
                        Ok(d) => match address_field(source, Field::Mint) {
                            Err(e) => Err(e),
                            Ok(s) => match address_field(owner, Field::Owner) {
                                Err(e) => Err(e),
                                Ok(o) => Ok(token_transfer_layout(s, d, o, amount)),
                            },
                        },
                    },
                },
            },
        },
    }
}

/// Builds and renders the system program's Transfer for a request.
pub fn send_solana(payload: &SendSolRequest) -> (r: Result<InstructionOutput, ServiceError>)
    ensures
        match r {
            Ok(out) => send_solana_outcome(*payload) matches Ok(ix) && shows(out, ix),
            Err(e) => send_solana_outcome(*payload) == Err::<InstructionView, ServiceError>(e),
        },
{
    let from_text = require_text(&payload.from, Field::From)?;
    let to_text = require_text(&payload.to, Field::To)?;
    let lamports = require_amount(payload.lamports, Field::Lamports)?;
    let from = parse_address(from_text.as_str(), Field::From)?;
    let to = parse_address(to_text.as_str(), Field::To)?;
    let ix = build_transfer_native(&from, &to, lamports);
    Ok(render_instruction(&ix))
}

/// Builds and renders the token program's Transfer for a request.
pub fn send_token(payload: &SendTokenRequest) -> (r: Result<InstructionOutput, ServiceError>)
    ensures
        match r {
            Ok(out) => send_token_outcome(*payload) matches Ok(ix) && shows(out, ix),
            Err(e) => send_token_outcome(*payload) == Err::<InstructionView, ServiceError>(e),
        },
{
    let dest_text = require_text(&payload.destination, Field::Destination)?;
    let source_text = require_text(&payload.mint, Field::Mint)?;
    let owner_text = require_text(&payload.owner, Field::Owner)?;
    let amount = require_amount(payload.amount, Field::Amount)?;
    let destination = parse_address(dest_text.as_str(), Field::Destination)?;
    let source = parse_address(source_text.as_str(), Field::Mint)?;
    let owner = parse_address(owner_text.as_str(), Field::Owner)?;
    match build_transfer_token(&source, &destination, &owner, amount) {
        Ok(ix) => Ok(render_instruction(&ix)),
        Err(e) => Err(from_build_error(e)),
    }
}

} // verus!
