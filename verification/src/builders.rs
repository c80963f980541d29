//! The verified instruction builders: which instructions are emitted, in
//! which order, and with which arguments.
//!
//! The full plan is the spec function [`nft_instruction_seq`]: exactly five
//! instructions — create the mint account, initialize the mint, create the
//! associated token account, create the metadata account, mint one unit —
//! each pinned to the named encoder of [`crate::sdk`] applied to exactly the
//! documented arguments.

use vstd::prelude::*;

use crate::addr::Address;
use crate::sdk;
use crate::sdk::{
    assoc_token_address, create_associated_account_instruction, create_metadata_instruction,
    create_mint_account_instruction, initialize_mint_instruction, metadata_account_address,
    mint_to_instruction,
};
use solana_sdk::instruction::Instruction;

verus! {

/// The fixed display name embedded in the metadata account.
pub open spec fn token_name() -> Seq<char> {
    "Glonky"@
}

/// The fixed symbol embedded in the metadata account.
pub open spec fn token_symbol() -> Seq<char> {
    "GLK"@
}

/// The fixed content address embedded in the metadata account.
pub open spec fn token_uri() -> Seq<char> {
    "https://arweave.net/WmuRqH3p5hBlX0quGEfyJXj08XQzJS_llTPEnJpDcLs"@
}

/// The byte size of a token-mint account, as the token program packs it.
pub open spec fn mint_account_space() -> u64 {
    82
}

/// The whole instruction plan for minting the token: five instructions, in
/// this order and with these arguments, for a fee-paying wallet, a mint
/// account and a rent-exemption balance.
pub open spec fn nft_instruction_seq(
    wallet: Seq<u8>,
    mint: Seq<u8>,
    rent_lamports: u64,
) -> Seq<Instruction> {
    seq![
        create_mint_account_instruction(wallet, mint, rent_lamports, mint_account_space()),
        initialize_mint_instruction(mint, wallet, 0),
        create_associated_account_instruction(wallet, wallet, mint),
        create_metadata_instruction(
            metadata_account_address(mint),
            mint,
            wallet,
            wallet,
            wallet,
            token_name(),
            token_symbol(),
            token_uri(),
            0,
            false,
            false,
        ),
        mint_to_instruction(mint, assoc_token_address(wallet, mint), wallet, 1),
    ]
}

/// Derives the associated token account address of `wallet` for
/// `mint_account`; a pure function of the pair.
pub fn derive_associated_token_address(wallet: &Address, mint_account: &Address) -> (r: Address)
    ensures
        r@ == assoc_token_address(wallet@, mint_account@),
{
    sdk::associated_token_address(wallet, mint_account)
}

/// Derives the metadata account address for `mint_account`; a pure
/// function of the mint address.
pub fn derive_metadata_address(mint_account: &Address) -> (r: Address)
    ensures
        r@ == metadata_account_address(mint_account@),
{
    sdk::metadata_address(mint_account)
}

/// Appends the two instructions that create the mint account: first the
/// creation of an 82-byte account at the mint address, owned by the token
/// program and funded by `wallet` with exactly `rent_lamports`; then its
/// initialization as a mint with zero decimals, `wallet` as mint
/// authority and no freeze authority. Returns the mint address.
pub fn create_mint_account(
    ixs: &mut Vec<Instruction>,
    wallet: &Address,
    mint_account: &Address,
    rent_lamports: u64,
) -> (r: Address)
    ensures
        final(ixs)@ == old(ixs)@.push(
            create_mint_account_instruction(
                wallet@,
                mint_account@,
                rent_lamports,
                mint_account_space(),
            ),
        ).push(initialize_mint_instruction(mint_account@, wallet@, 0)),
        r@ == mint_account@,
{
    let space = sdk::mint_state_len();
    let create_ix = sdk::create_account_for_mint(wallet, mint_account, rent_lamports, space);
    ixs.push(create_ix);
    let init_ix = sdk::initialize_mint(mint_account, wallet, 0);
    ixs.push(init_ix);
    *mint_account
}

/// Appends the instruction that creates the associated token account of
/// `wallet` for `mint_account`, funded by `wallet`, and returns the
/// derived associated address. No existence check is made: if the account
/// already exists, the instruction fails at submission.
pub fn create_assoc_account(
    ixs: &mut Vec<Instruction>,
    wallet: &Address,
    mint_account: &Address,
) -> (r: Address)
    ensures
        final(ixs)@ == old(ixs)@.push(
            create_associated_account_instruction(wallet@, wallet@, mint_account@),
        ),
        r@ == assoc_token_address(wallet@, mint_account@),
{
    let assoc = sdk::associated_token_address(wallet, mint_account);
    let ix = sdk::create_associated_token_account(wallet, wallet, mint_account);
    ixs.push(ix);
    assoc
}

/// Appends the instruction that creates the metadata account at the
/// derived metadata address, with the fixed name, symbol and content
/// address, zero royalty basis points, `wallet` as every authority, the
/// update authority not a signer, and the metadata immutable.
pub fn create_metadata_account(
    ixs: &mut Vec<Instruction>,
    wallet: &Address,
    mint_account: &Address,
)
    ensures
        final(ixs)@ == old(ixs)@.push(
            create_metadata_instruction(
                metadata_account_address(mint_account@),
                mint_account@,
                wallet@,
                wallet@,
                wallet@,
                token_name(),
                token_symbol(),
                token_uri(),
                0,
                false,
                false,
            ),
        ),
{
    let metadata_addr = sdk::metadata_address(mint_account);
    proof {
        reveal_strlit("Glonky");
        reveal_strlit("GLK");
        reveal_strlit("https://arweave.net/WmuRqH3p5hBlX0quGEfyJXj08XQzJS_llTPEnJpDcLs");
    }
    let ix = sdk::create_metadata_account_v2(
        &metadata_addr,
        mint_account,
        wallet,
        wallet,
        wallet,
        "Glonky",
        "GLK",
        "https://arweave.net/WmuRqH3p5hBlX0quGEfyJXj08XQzJS_llTPEnJpDcLs",
        0,
        false,
        false,
    );
    ixs.push(ix);
}

/// Appends the instruction that mints exactly one unit of `mint_account`
/// into `assoc`, authorized by `wallet` alone.
pub fn mint_nft(
    ixs: &mut Vec<Instruction>,
    wallet: &Address,
    mint_account: &Address,
    assoc: &Address,
)
    ensures
        final(ixs)@ == old(ixs)@.push(mint_to_instruction(mint_account@, assoc@, wallet@, 1)),
{
    let ix = sdk::mint_to(mint_account, assoc, wallet, 1);
    ixs.push(ix);
}

/// Builds the whole plan: the five instructions of
/// [`nft_instruction_seq`], and the associated token account address.
pub fn build_mint_instructions(
    wallet: &Address,
    mint_account: &Address,
    rent_lamports: u64,
) -> (r: (Vec<Instruction>, Address))
    ensures
        r.0@ == nft_instruction_seq(wallet@, mint_account@, rent_lamports),
        r.1@ == assoc_token_address(wallet@, mint_account@),
{
    let mut ixs: Vec<Instruction> = Vec::new();
    let mint_address = create_mint_account(&mut ixs, wallet, mint_account, rent_lamports);
    let assoc = create_assoc_account(&mut ixs, wallet, &mint_address);
    create_metadata_account(&mut ixs, wallet, &mint_address);
    mint_nft(&mut ixs, wallet, &mint_address, &assoc);
    proof {
        assert(ixs@ =~= nft_instruction_seq(wallet@, mint_account@, rent_lamports));
    }
    (ixs, assoc)
}

/// The plan always holds exactly five instructions, in the documented
/// order: create the mint account, initialize the mint, create the
/// associated token account, create the metadata account, mint one unit.
pub proof fn lemma_instruction_count_and_order(wallet: Seq<u8>, mint: Seq<u8>, rent_lamports: u64)
    ensures
        nft_instruction_seq(wallet, mint, rent_lamports).len() == 5,
        nft_instruction_seq(wallet, mint, rent_lamports)[0] == create_mint_account_instruction(
            wallet,
            mint,
            rent_lamports,
            mint_account_space(),
        ),
        nft_instruction_seq(wallet, mint, rent_lamports)[1] == initialize_mint_instruction(
            mint,
            wallet,
            0,
        ),
        nft_instruction_seq(wallet, mint, rent_lamports)[2]
            == create_associated_account_instruction(wallet, wallet, mint),
        nft_instruction_seq(wallet, mint, rent_lamports)[3] == create_metadata_instruction(
            metadata_account_address(mint),
            mint,
            wallet,
            wallet,
            wallet,
            token_name(),
            token_symbol(),
            token_uri(),
            0,
            false,
            false,
        ),
        nft_instruction_seq(wallet, mint, rent_lamports)[4] == mint_to_instruction(
            mint,
            assoc_token_address(wallet, mint),
            wallet,
            1,
        ),
{
}

/// Deriving the associated token address twice from the same wallet and
/// mint yields the same address: the derivation is deterministic.
pub proof fn lemma_associated_address_deterministic(
    wallet: Seq<u8>,
    mint: Seq<u8>,
    first: Address,
    second: Address,
)
    requires
        first@ == assoc_token_address(wallet, mint),
        second@ == assoc_token_address(wallet, mint),
    ensures
        first@ == second@,
{
}

/// Deriving the metadata address twice from the same mint yields the same
/// address: the derivation is deterministic.
pub proof fn lemma_metadata_address_deterministic(mint: Seq<u8>, first: Address, second: Address)
    requires
        first@ == metadata_account_address(mint),
        second@ == metadata_account_address(mint),
    ensures
        first@ == second@,
{
}

/// Whatever rent-exemption balance the network reports, the create-account
/// instruction of the plan funds the mint account with exactly that
/// balance.
pub proof fn lemma_funding_equals_rent(wallet: Seq<u8>, mint: Seq<u8>, rent_lamports: u64)
    ensures
        nft_instruction_seq(wallet, mint, rent_lamports)[0] == create_mint_account_instruction(
            wallet,
            mint,
            rent_lamports,
            mint_account_space(),
        ),
{
}

/// For every wallet, mint and balance, the mint-to instruction of the plan
/// requests a quantity of exactly one.
pub proof fn lemma_mint_amount_is_one(wallet: Seq<u8>, mint: Seq<u8>, rent_lamports: u64)
    ensures
        nft_instruction_seq(wallet, mint, rent_lamports)[4] == mint_to_instruction(
            mint,
            assoc_token_address(wallet, mint),
            wallet,
            1,
        ),
{
}

/// For every wallet, mint and balance, the metadata instruction of the
/// plan sets zero royalty basis points and marks the metadata immutable:
/// neither is ever parameterized.
pub proof fn lemma_metadata_immutable_and_fee_free(
    wallet: Seq<u8>,
    mint: Seq<u8>,
    rent_lamports: u64,
)
    ensures
        nft_instruction_seq(wallet, mint, rent_lamports)[3] == create_metadata_instruction(
            metadata_account_address(mint),
            mint,
            wallet,
            wallet,
            wallet,
            token_name(),
            token_symbol(),
            token_uri(),
            0,
            false,
            false,
        ),
{
}

} // verus!

