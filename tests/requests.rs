use solana_instruction_service::codec::{decode_address, decode_b64, encode_address, PublicKey};
use solana_instruction_service::create_token::{create_token, CreateTokenRequest};
use solana_instruction_service::mint_token::{mint_token, MintTokenRequest};
use solana_instruction_service::request::{Field, ServiceError};
use solana_instruction_service::send::{send_solana, send_token, SendSolRequest, SendTokenRequest};

fn addr(b: u8) -> String {
    encode_address(&PublicKey { bytes: [b; 32] })
}

fn sol(from: Option<&str>, to: Option<&str>, lamports: Option<u64>) -> SendSolRequest {
    SendSolRequest { from: from.map(String::from), to: to.map(String::from), lamports }
}

#[test]
fn send_solana_builds_transfer() {
    let out = send_solana(&sol(Some(&addr(1)), Some(&addr(2)), Some(1000))).unwrap();
    assert_eq!(out.program_id, "11111111111111111111111111111111");
    assert_eq!(out.accounts.len(), 2);
    assert_eq!(out.accounts[0].pubkey, addr(1));
    assert_eq!(out.accounts[1].pubkey, addr(2));
    assert_eq!(decode_b64(&out.instruction_data), Ok(vec![2, 0, 0, 0, 0xe8, 3, 0, 0, 0, 0, 0, 0]));
}

#[test]
fn send_solana_errors() {
    let a = addr(1);
    assert_eq!(send_solana(&sol(None, Some(&a), Some(1))), Err(ServiceError::MissingField(Field::From)));
    assert_eq!(send_solana(&sol(Some(" \t"), Some(&a), Some(1))), Err(ServiceError::EmptyField(Field::From)));
    assert_eq!(send_solana(&sol(Some(&a), None, Some(1))), Err(ServiceError::MissingField(Field::To)));
    assert_eq!(send_solana(&sol(Some(&a), Some(&a), None)), Err(ServiceError::MissingField(Field::Lamports)));
    assert_eq!(send_solana(&sol(Some(&a), Some(&a), Some(0))), Err(ServiceError::InvalidAmount(Field::Lamports)));
    assert_eq!(send_solana(&sol(Some("bad!"), Some(&a), Some(1))), Err(ServiceError::Encoding(Field::From)));
    assert_eq!(send_solana(&sol(Some(&a), Some("abc"), Some(1))), Err(ServiceError::Length(Field::To)));
}

#[test]
fn blank_includes_unicode_whitespace() {
    let a = addr(1);
    let r = send_solana(&sol(Some("\u{3000}\u{a0}\n"), Some(&a), Some(1)));
    assert_eq!(r, Err(ServiceError::EmptyField(Field::From)));
    let r = send_solana(&sol(Some(""), Some(&a), Some(1)));
    assert_eq!(r, Err(ServiceError::EmptyField(Field::From)));
}

#[test]
fn send_token_builds_transfer() {
    let req = SendTokenRequest {
        destination: Some(addr(2)),
        mint: Some(addr(1)),
        owner: Some(addr(3)),
        amount: Some(u64::MAX),
    };
    let out = send_token(&req).unwrap();
    assert_eq!(out.program_id, "TokenkegQfeZyiNwAJbNbGKPFXCWuBvf9Ss623VQ5DA");
    let keys: Vec<String> = out.accounts.iter().map(|a| a.pubkey.clone()).collect();
    assert_eq!(keys, vec![addr(1), addr(2), addr(3)]);
    let flags: Vec<(bool, bool)> = out.accounts.iter().map(|a| (a.is_signer, a.is_writable)).collect();
    assert_eq!(flags, vec![(false, true), (false, true), (true, false)]);
    assert_eq!(decode_b64(&out.instruction_data), Ok(vec![3, 255, 255, 255, 255, 255, 255, 255, 255]));
}

#[test]
fn send_token_rejects_zero_amount() {
    let req = SendTokenRequest {
        destination: Some(addr(2)),
        mint: Some(addr(1)),
        owner: Some(addr(3)),
        amount: Some(0),
    };
    assert_eq!(send_token(&req), Err(ServiceError::InvalidAmount(Field::Amount)));
    let req = SendTokenRequest { owner: Some("x0".to_string()), amount: Some(5), ..req };
    assert_eq!(send_token(&req), Err(ServiceError::Encoding(Field::Owner)));
}

#[test]
fn mint_token_builds_mint_to() {
    let req = MintTokenRequest {
        mint: Some(addr(1)),
        destination: Some(addr(2)),
        authority: Some(addr(3)),
        amount: Some(1),
    };
    let out = mint_token(&req).unwrap();
    assert_eq!(out.program_id, "TokenkegQfeZyiNwAJbNbGKPFXCWuBvf9Ss623VQ5DA");
    assert_eq!(out.accounts[2].pubkey, addr(3));
    assert!(out.accounts[2].is_signer && !out.accounts[2].is_writable);
    assert_eq!(decode_b64(&out.instruction_data), Ok(vec![7, 1, 0, 0, 0, 0, 0, 0, 0]));
}

#[test]
fn mint_token_errors() {
    let req = MintTokenRequest {
        mint: Some(addr(1)),
        destination: Some(addr(2)),
        authority: Some(addr(3)),
        amount: Some(0),
    };
    assert_eq!(mint_token(&req), Err(ServiceError::InvalidAmount(Field::Amount)));
    let req = MintTokenRequest { authority: None, ..req };
    assert_eq!(mint_token(&req), Err(ServiceError::MissingField(Field::Authority)));
}

#[test]
fn create_token_builds_initialize_mint() {
    let req = CreateTokenRequest { mint_authority: Some(addr(2)), mint: Some(addr(1)), decimals: Some(6) };
    let out = create_token(&req).unwrap();
    assert_eq!(out.program_id, "TokenkegQfeZyiNwAJbNbGKPFXCWuBvf9Ss623VQ5DA");
    assert_eq!(out.accounts.len(), 2);
    assert_eq!(out.accounts[0].pubkey, addr(1));
    assert_eq!(out.accounts[1].pubkey, "SysvarRent111111111111111111111111111111111");
    let data = decode_b64(&out.instruction_data).unwrap();
    let mut expected = vec![0u8, 6];
    expected.extend_from_slice(&[2u8; 32]);
    expected.push(1);
    expected.extend_from_slice(&[2u8; 32]);
    assert_eq!(data, expected);
    assert_eq!(decode_address(&out.accounts[0].pubkey), Ok(PublicKey { bytes: [1u8; 32] }));
}

#[test]
fn create_token_errors() {
    let req = CreateTokenRequest { mint_authority: None, mint: Some(addr(1)), decimals: Some(6) };
    assert_eq!(create_token(&req), Err(ServiceError::MissingField(Field::MintAuthority)));
    let req = CreateTokenRequest { mint_authority: Some(addr(2)), mint: Some("l".to_string()), decimals: Some(6) };
    assert_eq!(create_token(&req), Err(ServiceError::Encoding(Field::Mint)));
    let req = CreateTokenRequest { mint_authority: Some(addr(2)), mint: Some(addr(1)), decimals: None };
    assert_eq!(create_token(&req), Err(ServiceError::MissingField(Field::Decimals)));
    let req = CreateTokenRequest { mint_authority: Some(String::new()), mint: Some(addr(1)), decimals: Some(1) };
    assert_eq!(create_token(&req), Err(ServiceError::Length(Field::MintAuthority)));
}
