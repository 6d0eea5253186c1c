//! Instructions for the token and system programs, with their exact account
//! lists and data layouts, and their rendering as text.
use vstd::prelude::*;
use crate::codec::{base58_encoding, base64_encoding, encode_address, encode_b64, PublicKey};

verus! {

/// One account's role in an instruction.
#[derive(Clone, Copy, Debug, PartialEq, Eq)]
pub struct AccountRef {
    pub pubkey: PublicKey,
    pub is_signer: bool,
    pub is_writable: bool,
}

impl View for AccountRef {
    type V = (Seq<u8>, bool, bool);

    open spec fn view(&self) -> (Seq<u8>, bool, bool) {
        (self.pubkey@, self.is_signer, self.is_writable)
    }
}

/// A program id, an ordered account list and a data blob.
#[derive(Clone, Debug, PartialEq, Eq)]
pub struct Instruction {
    pub program_id: PublicKey,
    pub accounts: Vec<AccountRef>,
    pub data: Vec<u8>,
}

/// An instruction as values: program id, accounts `(key, signer, writable)`, data.
pub type InstructionView = (Seq<u8>, Seq<(Seq<u8>, bool, bool)>, Seq<u8>);

impl View for Instruction {
    type V = InstructionView;

    open spec fn view(&self) -> InstructionView {
        (self.program_id@, self.accounts@.map_values(|a: AccountRef| a@), self.data@)
    }
}

/// The eight little-endian bytes of a 64-bit amount.
pub open spec fn le_u64(n: u64) -> Seq<u8> {
    seq![
        (n % 0x100) as u8,
        (n / 0x100 % 0x100) as u8,
        (n / 0x10000 % 0x100) as u8,
        (n / 0x1000000 % 0x100) as u8,
        (n / 0x100000000 % 0x100) as u8,
        (n / 0x10000000000 % 0x100) as u8,
        (n / 0x1000000000000 % 0x100) as u8,
        (n / 0x100000000000000 % 0x100) as u8,
    ]
}

/// The token program, `TokenkegQfeZyiNwAJbNbGKPFXCWuBvf9Ss623VQ5DA`.
pub open spec fn token_program_id() -> Seq<u8> {
    seq![
        6u8, 221, 246, 225, 215, 101, 161, 147, 217, 203, 225, 70, 206, 235, 121, 172,
        28, 180, 133, 237, 95, 91, 55, 145, 58, 140, 245, 133, 126, 255, 0, 169,
    ]
}

/// The rent sysvar, `SysvarRent111111111111111111111111111111111`.
pub open spec fn rent_sysvar_id() -> Seq<u8> {
    seq![
        6u8, 167, 213, 23, 25, 44, 92, 81, 33, 140, 201, 76, 61, 74, 241, 127,
        88, 218, 238, 8, 155, 161, 253, 68, 227, 219, 217, 138, 0, 0, 0, 0,
    ]
}

/// The system program: 32 zero bytes.
pub open spec fn system_program_id() -> Seq<u8> {
    Seq::new(32, |i: int| 0u8)
}

/// The token program's InitializeMint: tag 0, decimals, mint authority, then
/// a presence byte and the freeze authority if there is one.
pub open spec fn initialize_mint_layout(
    mint: Seq<u8>,
    authority: Seq<u8>,
    freeze: Option<Seq<u8>>,
    decimals: u8,
) -> InstructionView {
    (
        token_program_id(),
        seq![(mint, false, true), (rent_sysvar_id(), false, false)],
        seq![0u8, decimals] + authority + match freeze {
            Some(f) => seq![1u8] + f,
            None => seq![0u8],
        },
    )
}

/// The token program's MintTo: tag 7 and the amount.
pub open spec fn mint_to_layout(
    mint: Seq<u8>,
    destination: Seq<u8>,
    authority: Seq<u8>,
    amount: u64,
) -> InstructionView {
    (
        token_program_id(),
        seq![(mint, false, true), (destination, false, true), (authority, true, false)],
        seq![7u8] + le_u64(amount),
    )
}

/// The token program's Transfer: tag 3 and the amount.
pub open spec fn token_transfer_layout(
    source: Seq<u8>,
    destination: Seq<u8>,
    owner: Seq<u8>,
    amount: u64,
) -> InstructionView {
    (
        token_program_id(),
        seq![(source, false, true), (destination, false, true), (owner, true, false)],
        seq![3u8] + le_u64(amount),
    )
}

/// The system program's Transfer: the 32-bit little-endian tag 2 and the amount.
pub open spec fn native_transfer_layout(from: Seq<u8>, to: Seq<u8>, lamports: u64) -> InstructionView {
    (
        system_program_id(),
        seq![(from, true, true), (to, false, true)],
        seq![2u8, 0u8, 0u8, 0u8] + le_u64(lamports),
    )
}

/// Relies on `spl_token::instruction::initialize_mint` with the token program's
/// own id, which it accepts.
#[verifier::external_body]
fn token_initialize_mint(
    mint: &PublicKey,
    authority: &PublicKey,
    freeze: Option<&PublicKey>,
    decimals: u8,
) -> (r: Option<Instruction>)
    ensures
        r is Some,
        r matches Some(ix) ==> ix@ == initialize_mint_layout(
            mint@,
            authority@,
            match freeze {
                Some(f) => Some(f@),
                None => None,
            },
            decimals,
        ),
{
    let freeze = freeze.map(|f| solana_sdk::pubkey::Pubkey::from(f.bytes));
    let ix = spl_token::instruction::initialize_mint(
        &spl_token::ID, &mint.bytes.into(), &authority.bytes.into(), freeze.as_ref(), decimals,
    ).ok()?;
    Some(Instruction {
        program_id: PublicKey { bytes: ix.program_id.to_bytes() },
        accounts: ix.accounts.iter().map(|m| AccountRef {
            pubkey: PublicKey { bytes: m.pubkey.to_bytes() }, is_signer: m.is_signer, is_writable: m.is_writable,
        }).collect(),
        data: ix.data,
    })
}

/// Relies on `spl_token::instruction::mint_to` with the token program's own id
/// and no multisig signers, which it accepts.
#[verifier::external_body]
fn token_mint_to(mint: &PublicKey, destination: &PublicKey, authority: &PublicKey, amount: u64) -> (r:
    Option<Instruction>)
    ensures
        r is Some,
        r matches Some(ix) ==> ix@ == mint_to_layout(mint@, destination@, authority@, amount),
{
    let ix = spl_token::instruction::mint_to(
        &spl_token::ID, &mint.bytes.into(), &destination.bytes.into(), &authority.bytes.into(), &[], amount,
    ).ok()?;
    Some(Instruction {
        program_id: PublicKey { bytes: ix.program_id.to_bytes() },
        accounts: ix.accounts.iter().map(|m| AccountRef {
            pubkey: PublicKey { bytes: m.pubkey.to_bytes() }, is_signer: m.is_signer, is_writable: m.is_writable,
        }).collect(),
        data: ix.data,
    })
}

/// Relies on `spl_token::instruction::transfer` with the token program's own id
/// and no multisig signers, which it accepts.
#[verifier::external_body]
fn token_transfer(source: &PublicKey, destination: &PublicKey, owner: &PublicKey, amount: u64) -> (r:
    Option<Instruction>)
    ensures
        r is Some,
        r matches Some(ix) ==> ix@ == token_transfer_layout(source@, destination@, owner@, amount),
{
    let ix = spl_token::instruction::transfer(
        &spl_token::ID, &source.bytes.into(), &destination.bytes.into(), &owner.bytes.into(), &[], amount,
    ).ok()?;
    Some(Instruction {
        program_id: PublicKey { bytes: ix.program_id.to_bytes() },
        accounts: ix.accounts.iter().map(|m| AccountRef {
            pubkey: PublicKey { bytes: m.pubkey.to_bytes() }, is_signer: m.is_signer, is_writable: m.is_writable,
        }).collect(),
        data: ix.data,
    })
}

/// Relies on `system_instruction::transfer`: the system program's Transfer,
/// whose data is the bincode form of the variant (a 32-bit tag, then the amount).
#[verifier::external_body]
fn system_transfer(from: &PublicKey, to: &PublicKey, lamports: u64) -> (r: Instruction)
    ensures
        r@ == native_transfer_layout(from@, to@, lamports),
{
    let ix = solana_sdk::system_instruction::transfer(&from.bytes.into(), &to.bytes.into(), lamports);
    Instruction {
        program_id: PublicKey { bytes: ix.program_id.to_bytes() },
        accounts: ix.accounts.iter().map(|m| AccountRef {
            pubkey: PublicKey { bytes: m.pubkey.to_bytes() }, is_signer: m.is_signer, is_writable: m.is_writable,
        }).collect(),
        data: ix.data,
    }
}

/// Why an instruction could not be built.
#[derive(Clone, Copy, Debug, PartialEq, Eq, Structural)]
pub enum BuildError {
    /// The protocol encoder refused otherwise valid inputs.
    Instruction,
}

/// Builds the token program's InitializeMint for a mint, its authority, an
/// optional freeze authority and the decimals.
pub fn build_initialize_mint(
    mint: &PublicKey,
    mint_authority: &PublicKey,
    freeze_authority: Option<&PublicKey>,
    decimals: u8,
) -> (r: Result<Instruction, BuildError>)
    ensures
        r matches Ok(ix) && ix@ == initialize_mint_layout(
            mint@,
            mint_authority@,
            match freeze_authority {
                Some(f) => Some(f@),
                None => None,
            },
            decimals,
        ),
{
    match token_initialize_mint(mint, mint_authority, freeze_authority, decimals) {
        Some(ix) => Ok(ix),
        None => Err(BuildError::Instruction),
    }
}

/// Builds the token program's MintTo: `[mint: writable, destination: writable,
/// authority: signer]`.
pub fn build_mint_to(mint: &PublicKey, destination: &PublicKey, authority: &PublicKey, amount: u64) -> (r:
    Result<Instruction, BuildError>)
    ensures
        r matches Ok(ix) && ix@ == mint_to_layout(mint@, destination@, authority@, amount),
{
    match token_mint_to(mint, destination, authority, amount) {
        Some(ix) => Ok(ix),
        None => Err(BuildError::Instruction),
    }
}

/// Builds the system program's Transfer: `[from: signer and writable,
/// to: writable]`.
pub fn build_transfer_native(from: &PublicKey, to: &PublicKey, amount: u64) -> (r: Instruction)
    ensures
        r@ == native_transfer_layout(from@, to@, amount),
        r@.1.len() == 2,
        r@.1[0] == (from@, true, true),
        r@.1[1] == (to@, false, true),
        r@.0 == system_program_id(),
        r@.2 == seq![2u8, 0u8, 0u8, 0u8] + le_u64(amount),
{
    system_transfer(from, to, amount)
}

/// Builds the token program's Transfer: `[source: writable, destination:
/// writable, owner: signer]`.
pub fn build_transfer_token(source: &PublicKey, destination: &PublicKey, owner: &PublicKey, amount: u64) -> (r:
    Result<Instruction, BuildError>)
    ensures
        r matches Ok(ix) && ix@ == token_transfer_layout(source@, destination@, owner@, amount),
{
    match token_transfer(source, destination, owner, amount) {
        Some(ix) => Ok(ix),
        None => Err(BuildError::Instruction),
    }
}

/// One account of a rendered instruction.
#[derive(Clone, Debug, PartialEq, Eq)]
pub struct AccountMeta {
    pub pubkey: String,
    pub is_signer: bool,
    pub is_writable: bool,
}

/// An instruction rendered as text: base58 keys and base64 data.
#[derive(Clone, Debug, PartialEq, Eq)]
pub struct InstructionOutput {
    pub program_id: String,
    pub accounts: Vec<AccountMeta>,
    pub instruction_data: String,
}

/// Whether a rendered account shows this account.
pub open spec fn shows_account(m: AccountMeta, a: (Seq<u8>, bool, bool)) -> bool {
    m.pubkey@ == base58_encoding(a.0) && m.is_signer == a.1 && m.is_writable == a.2
}

/// Whether a rendering shows this instruction.
pub open spec fn shows(out: InstructionOutput, ix: InstructionView) -> bool {
    &&& out.program_id@ == base58_encoding(ix.0)
    &&& out.accounts@.len() == ix.1.len()
    &&& forall|i: int| 0 <= i < ix.1.len() ==> shows_account(#[trigger] out.accounts@[i], ix.1[i])
    &&& out.instruction_data@ == base64_encoding(ix.2)
}

/// Renders an instruction: each key as base58, the data as base64.
pub fn render_instruction(ix: &Instruction) -> (r: InstructionOutput)
    ensures
        shows(r, ix@),
{
    let program_id = encode_address(&ix.program_id);
    let mut accounts: Vec<AccountMeta> = Vec::new();
    let mut i: usize = 0;
    while i < ix.accounts.len()
        invariant
            0 <= i <= ix.accounts@.len(),
            accounts@.len() == i,
            forall|j: int| 0 <= j < i ==> shows_account(#[trigger] accounts@[j], ix.accounts@[j]@),
        decreases ix.accounts@.len() - i,
    {
        let a = ix.accounts[i];
        let pubkey = encode_address(&a.pubkey);
        accounts.push(AccountMeta { pubkey, is_signer: a.is_signer, is_writable: a.is_writable });
        i = i + 1;
    }
    let instruction_data = encode_b64(ix.data.as_slice());
    InstructionOutput { program_id, accounts, instruction_data }
}

} // verus!
