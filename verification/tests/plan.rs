use nft_mint::addr::Address;
use nft_mint::builders::{
    build_mint_instructions, derive_associated_token_address, derive_metadata_address,
};
use solana_sdk::pubkey::Pubkey;

fn wallet_address() -> Address {
    Address::new([1u8; 32])
}

fn mint_address() -> Address {
    Address::new([2u8; 32])
}

#[test]
fn address_new_keeps_bytes() {
    let a = Address::new([9u8; 32]);
    assert_eq!(a.bytes, [9u8; 32]);
}

#[test]
fn address_equals_is_bytewise() {
    let a = Address::new([3u8; 32]);
    let b = Address::new([3u8; 32]);
    let mut differing = [3u8; 32];
    differing[31] = 4;
    let c = Address::new(differing);
    assert!(a.equals(&b));
    assert!(!a.equals(&c));
}

#[test]
fn plan_has_five_instructions_in_program_order() {
    let (ixs, _assoc) = build_mint_instructions(&wallet_address(), &mint_address(), 1_000_000);
    assert_eq!(ixs.len(), 5);
    assert_eq!(ixs[0].program_id, solana_sdk::system_program::id());
    assert_eq!(ixs[1].program_id, spl_token::id());
    assert_eq!(ixs[2].program_id, spl_associated_token_account::id());
    assert_eq!(ixs[3].program_id, mpl_token_metadata::id());
    assert_eq!(ixs[4].program_id, spl_token::id());
}

#[test]
fn associated_address_derivation_deterministic() {
    let first = derive_associated_token_address(&wallet_address(), &mint_address());
    let second = derive_associated_token_address(&wallet_address(), &mint_address());
    assert!(first.equals(&second));
    let expected = spl_associated_token_account::get_associated_token_address(
        &Pubkey::new_from_array(wallet_address().bytes),
        &Pubkey::new_from_array(mint_address().bytes),
    );
    assert_eq!(first.bytes, expected.to_bytes());
}

#[test]
fn metadata_address_derivation_deterministic() {
    let first = derive_metadata_address(&mint_address());
    let second = derive_metadata_address(&mint_address());
    assert!(first.equals(&second));
    let (expected, _bump) = mpl_token_metadata::pda::find_metadata_account(&Pubkey::new_from_array(
        mint_address().bytes,
    ));
    assert_eq!(first.bytes, expected.to_bytes());
}

#[test]
fn create_account_funds_exact_rent() {
    let rent: u64 = 2_039_280;
    let (ixs, _assoc) = build_mint_instructions(&wallet_address(), &mint_address(), rent);
    let data = &ixs[0].data;
    // System-program payload: u32 tag, u64 lamports, u64 space, 32-byte owner.
    assert_eq!(data.len(), 52);
    assert_eq!(&data[0..4], &[0, 0, 0, 0]);
    assert_eq!(&data[4..12], &rent.to_le_bytes());
    assert_eq!(&data[12..20], &82u64.to_le_bytes());
    assert_eq!(&data[20..52], spl_token::id().as_ref());
    assert_eq!(ixs[0].accounts.len(), 2);
    assert_eq!(ixs[0].accounts[0].pubkey.to_bytes(), wallet_address().bytes);
    assert!(ixs[0].accounts[0].is_signer);
    assert_eq!(ixs[0].accounts[1].pubkey.to_bytes(), mint_address().bytes);
    assert!(ixs[0].accounts[1].is_signer);
}

#[test]
fn create_account_funds_other_rent_value() {
    let rent: u64 = 5;
    let (ixs, _assoc) = build_mint_instructions(&wallet_address(), &mint_address(), rent);
    assert_eq!(&ixs[0].data[4..12], &rent.to_le_bytes());
}

#[test]
fn initialize_mint_zero_decimals_no_freeze() {
    let (ixs, _assoc) = build_mint_instructions(&wallet_address(), &mint_address(), 1);
    let expected = spl_token::instruction::initialize_mint(
        &spl_token::id(),
        &Pubkey::new_from_array(mint_address().bytes),
        &Pubkey::new_from_array(wallet_address().bytes),
        None,
        0,
    )
    .unwrap();
    assert_eq!(ixs[1], expected);
}

#[test]
#[allow(deprecated)]
fn associated_account_instruction_matches_sdk() {
    let (ixs, assoc) = build_mint_instructions(&wallet_address(), &mint_address(), 1);
    let expected = spl_associated_token_account::create_associated_token_account(
        &Pubkey::new_from_array(wallet_address().bytes),
        &Pubkey::new_from_array(wallet_address().bytes),
        &Pubkey::new_from_array(mint_address().bytes),
    );
    assert_eq!(ixs[2], expected);
    // The instruction's second account is the derived associated address.
    assert_eq!(ixs[2].accounts[1].pubkey.to_bytes(), assoc.bytes);
}

#[test]
fn mint_to_requests_exactly_one() {
    let (ixs, assoc) = build_mint_instructions(&wallet_address(), &mint_address(), 77);
    // Token-program payload: u8 tag (mint-to), u64 amount.
    assert_eq!(ixs[4].data, vec![7, 1, 0, 0, 0, 0, 0, 0, 0]);
    assert_eq!(ixs[4].accounts[0].pubkey.to_bytes(), mint_address().bytes);
    assert_eq!(ixs[4].accounts[1].pubkey.to_bytes(), assoc.bytes);
}

#[test]
fn metadata_fixed_fields_and_immutable() {
    let (ixs, _assoc) = build_mint_instructions(&wallet_address(), &mint_address(), 1);
    let wallet_pk = Pubkey::new_from_array(wallet_address().bytes);
    let mint_pk = Pubkey::new_from_array(mint_address().bytes);
    let (metadata_pk, _bump) = mpl_token_metadata::pda::find_metadata_account(&mint_pk);
    let expected = mpl_token_metadata::instruction::create_metadata_accounts_v2(
        mpl_token_metadata::id(),
        metadata_pk,
        mint_pk,
        wallet_pk,
        wallet_pk,
        wallet_pk,
        String::from("Glonky"),
        String::from("GLK"),
        String::from("https://arweave.net/WmuRqH3p5hBlX0quGEfyJXj08XQzJS_llTPEnJpDcLs"),
        None,
        0,
        false,
        false,
        None,
        None,
    );
    assert_eq!(ixs[3], expected);
    // A mutable variant would differ: the flag is really in the payload.
    let mutable_variant = mpl_token_metadata::instruction::create_metadata_accounts_v2(
        mpl_token_metadata::id(),
        metadata_pk,
        mint_pk,
        wallet_pk,
        wallet_pk,
        wallet_pk,
        String::from("Glonky"),
        String::from("GLK"),
        String::from("https://arweave.net/WmuRqH3p5hBlX0quGEfyJXj08XQzJS_llTPEnJpDcLs"),
        None,
        0,
        false,
        true,
        None,
        None,
    );
    assert_ne!(ixs[3], mutable_variant);
    // The display name really reaches the payload.
    assert!(ixs[3].data.windows(6).any(|w| w == b"Glonky"));
}
