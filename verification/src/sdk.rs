//! The trusted boundary to the cluster SDK: the instruction encoders, the
//! address derivations and the transaction signer of the token programs'
//! own crates.
//!
//! Every executable item here is `external_body`: its contract is believed,
//! not proved. Each instruction encoder's result is given a name (an
//! uninterpreted spec function of the encoder's arguments alone), and the
//! verified builders in [`crate::builders`] are specified against those
//! names. Nothing below states what the encoded bytes are; that encoding is
//! the outside programs' fixed contract, not this crate's.

use vstd::prelude::*;
use crate::addr::Address;
use solana_sdk::instruction::Instruction;
use solana_sdk::message::Message;
use solana_sdk::program_pack::Pack;
use solana_sdk::pubkey::Pubkey;
use solana_sdk::signer::keypair::Keypair;
use solana_sdk::signer::Signer;
use solana_sdk::signer::SignerError;
use solana_sdk::transaction::Transaction;
use spl_token::state::Mint;

verus! {

#[verifier::external_type_specification]
#[verifier::external_body]
pub struct ExInstruction(Instruction);

#[verifier::external_type_specification]
#[verifier::external_body]
pub struct ExKeypair(Keypair);

#[verifier::external_type_specification]
#[verifier::external_body]
pub struct ExMessage(Message);

#[verifier::external_type_specification]
#[verifier::external_body]
pub struct ExTransaction(Transaction);

#[verifier::external_type_specification]
#[verifier::external_body]
pub struct ExSignerError(SignerError);

// The associated token address that the associated-token program derives
// for a wallet and a mint: a pure function of the pair.
pub uninterp spec fn assoc_token_address(wallet: Seq<u8>, mint: Seq<u8>) -> Seq<u8>;

// The metadata account address that the metadata program derives for a
// mint: a pure function of the mint address.
pub uninterp spec fn metadata_account_address(mint: Seq<u8>) -> Seq<u8>;

// The system-program instruction that creates the mint account, owned by
// the token program, funded with `lamports` and sized `space`.
pub uninterp spec fn create_mint_account_instruction(
    funder: Seq<u8>,
    new_account: Seq<u8>,
    lamports: u64,
    space: u64,
) -> Instruction;

// The token-program instruction that initializes a mint with the given
// authority and decimal count, and no freeze authority.
pub uninterp spec fn initialize_mint_instruction(
    mint: Seq<u8>,
    authority: Seq<u8>,
    decimals: u8,
) -> Instruction;

// The instruction that creates the associated token account of `wallet`
// for `mint`, funded by `funder`.
pub uninterp spec fn create_associated_account_instruction(
    funder: Seq<u8>,
    wallet: Seq<u8>,
    mint: Seq<u8>,
) -> Instruction;

// The metadata-program instruction that creates the metadata account with
// the given addresses, display fields, royalty basis points, authority
// flag and mutability flag, and no creator list, collection or uses.
pub uninterp spec fn create_metadata_instruction(
    metadata: Seq<u8>,
    mint: Seq<u8>,
    mint_authority: Seq<u8>,
    payer: Seq<u8>,
    update_authority: Seq<u8>,
    name: Seq<char>,
    symbol: Seq<char>,
    uri: Seq<char>,
    seller_fee_basis_points: u16,
    update_authority_is_signer: bool,
    is_mutable: bool,
) -> Instruction;

// The token-program instruction that mints `amount` units of `mint` into
// `destination` under the single authority given.
pub uninterp spec fn mint_to_instruction(
    mint: Seq<u8>,
    destination: Seq<u8>,
    authority: Seq<u8>,
    amount: u64,
) -> Instruction;

// The public key bytes of a key pair.
pub uninterp spec fn keypair_pubkey(keypair: Keypair) -> Seq<u8>;

// The message compiled from an instruction list with the given fee payer:
// a pure function of the two.
pub uninterp spec fn compiled_message(ixs: Seq<Instruction>, payer: Seq<u8>) -> Message;

// The transaction that wraps a compiled message with empty signature
// slots.
pub uninterp spec fn unsigned_of(message: Message) -> Transaction;

// Whether signing the transaction with the two key pairs under the given
// checkpoint hash succeeds: signing is deterministic, so this is a pure
// function of the four.
pub uninterp spec fn sign_succeeds(
    transaction: Transaction,
    mint: Keypair,
    wallet: Keypair,
    blockhash: Seq<u8>,
) -> bool;

// The transaction as signed by the two key pairs under the given
// checkpoint hash, when signing succeeds.
pub uninterp spec fn signed_of(
    transaction: Transaction,
    mint: Keypair,
    wallet: Keypair,
    blockhash: Seq<u8>,
) -> Transaction;

/// Relies on `spl_token::state::Mint::LEN`: the token program packs its
/// mint state into exactly 82 bytes.
#[verifier::external_body]
pub(crate) fn mint_state_len() -> (r: u64)
    ensures
        r == 82,
{
    Mint::LEN as u64
}

/// Relies on `spl_associated_token_account::get_associated_token_address`:
/// the derivation reads only the wallet and mint addresses (and fixed
/// program identifiers), so its result is named as a function of the pair.
/// The underlying seed search aborts only if every one of its 256
/// candidate bumps fails, which the SDK documents as unreachable in
/// practice.
#[verifier::external_body]
pub(crate) fn associated_token_address(wallet: &Address, mint: &Address) -> (r: Address)
    ensures
        r@ == assoc_token_address(wallet@, mint@),
{
    let pk = spl_associated_token_account::get_associated_token_address(
        &Pubkey::new_from_array(wallet.bytes),
        &Pubkey::new_from_array(mint.bytes),
    );
    Address { bytes: pk.to_bytes() }
}

/// Relies on `mpl_token_metadata::pda::find_metadata_account`: the
/// derivation reads only the mint address (and the metadata program's
/// fixed identifier and seed prefix); the bump seed is dropped. The same
/// seed search as in the associated-token derivation applies.
#[verifier::external_body]
pub(crate) fn metadata_address(mint: &Address) -> (r: Address)
    ensures
        r@ == metadata_account_address(mint@),
{
    let (pk, _bump) =
        mpl_token_metadata::pda::find_metadata_account(&Pubkey::new_from_array(mint.bytes));
    Address { bytes: pk.to_bytes() }
}

/// Relies on `solana_sdk::system_instruction::create_account`, called with
/// the token program as the new account's owner; the encoder is a pure
/// function of its arguments and never fails.
#[verifier::external_body]
pub(crate) fn create_account_for_mint(
    funder: &Address,
    new_account: &Address,
    lamports: u64,
    space: u64,
) -> (r: Instruction)
    ensures
        r == create_mint_account_instruction(funder@, new_account@, lamports, space),
{
    solana_sdk::system_instruction::create_account(
        &Pubkey::new_from_array(funder.bytes),
        &Pubkey::new_from_array(new_account.bytes),
        lamports,
        space,
        &spl_token::ID,
    )
}

/// Relies on `spl_token::instruction::initialize_mint`, called with the
/// token program's own identifier and no freeze authority; with that
/// identifier its program-id check passes, so it cannot fail.
#[verifier::external_body]
pub(crate) fn initialize_mint(mint: &Address, authority: &Address, decimals: u8) -> (r: Instruction)
    ensures
        r == initialize_mint_instruction(mint@, authority@, decimals),
{
    spl_token::instruction::initialize_mint(
        &spl_token::ID,
        &Pubkey::new_from_array(mint.bytes),
        &Pubkey::new_from_array(authority.bytes),
        None,
        decimals,
    )
    .unwrap()
}

/// Relies on `spl_associated_token_account::create_associated_token_account`:
/// the encoder derives the associated address itself (the same seed
/// search as above) and otherwise cannot fail.
#[verifier::external_body]
#[allow(deprecated)]
pub(crate) fn create_associated_token_account(
    funder: &Address,
    wallet: &Address,
    mint: &Address,
) -> (r: Instruction)
    ensures
        r == create_associated_account_instruction(funder@, wallet@, mint@),
{
    spl_associated_token_account::create_associated_token_account(
        &Pubkey::new_from_array(funder.bytes),
        &Pubkey::new_from_array(wallet.bytes),
        &Pubkey::new_from_array(mint.bytes),
    )
}

/// Relies on `mpl_token_metadata::instruction::create_metadata_accounts_v2`,
/// called with the metadata program's own identifier and no creator list,
/// collection or uses; the encoder is a pure function of its arguments.
/// Its payload serializer aborts only when a string field's byte length
/// exceeds the four-byte prefix it writes; since a char encodes to at
/// most four bytes, fields of fewer than 2^30 chars are safe, and longer
/// ones are excluded here.
#[verifier::external_body]
pub(crate) fn create_metadata_account_v2(
    metadata: &Address,
    mint: &Address,
    mint_authority: &Address,
    payer: &Address,
    update_authority: &Address,
    name: &str,
    symbol: &str,
    uri: &str,
    seller_fee_basis_points: u16,
    update_authority_is_signer: bool,
    is_mutable: bool,
) -> (r: Instruction)
    requires
        name@.len() < 0x4000_0000,
        symbol@.len() < 0x4000_0000,
        uri@.len() < 0x4000_0000,
    ensures
        r == create_metadata_instruction(
            metadata@,
            mint@,
            mint_authority@,
            payer@,
            update_authority@,
            name@,
            symbol@,
            uri@,
            seller_fee_basis_points,
            update_authority_is_signer,
            is_mutable,
        ),
{
    mpl_token_metadata::instruction::create_metadata_accounts_v2(
        mpl_token_metadata::ID,
        Pubkey::new_from_array(metadata.bytes),
        Pubkey::new_from_array(mint.bytes),
        Pubkey::new_from_array(mint_authority.bytes),
        Pubkey::new_from_array(payer.bytes),
        Pubkey::new_from_array(update_authority.bytes),
        name.to_string(), symbol.to_string(), uri.to_string(),
        None, seller_fee_basis_points, update_authority_is_signer, is_mutable, None, None,
    )
}

/// Relies on `spl_token::instruction::mint_to`, called with the token
/// program's own identifier and the authority as the one signer; with that
/// identifier its program-id check passes, so it cannot fail.
#[verifier::external_body]
pub(crate) fn mint_to(
    mint: &Address,
    destination: &Address,
    authority: &Address,
    amount: u64,
) -> (r: Instruction)
    ensures
        r == mint_to_instruction(mint@, destination@, authority@, amount),
{
    let owner = Pubkey::new_from_array(authority.bytes);
    spl_token::instruction::mint_to(
        &spl_token::ID,
        &Pubkey::new_from_array(mint.bytes),
        &Pubkey::new_from_array(destination.bytes),
        &owner,
        &[&owner],
        amount,
    )
    .unwrap()
}

/// Relies on `solana_sdk::signer::Signer::pubkey` for a key pair: returns
/// the pair's public key bytes, a pure function of the pair.
#[verifier::external_body]
pub(crate) fn signer_address(keypair: &Keypair) -> (r: Address)
    ensures
        r@ == keypair_pubkey(*keypair),
{
    Address { bytes: keypair.pubkey().to_bytes() }
}

/// Relies on `solana_sdk::message::Message::new`, with the funder as fee
/// payer. The compiler aborts only when the instructions reference more
/// than 256 distinct accounts; the five-instruction list this crate
/// builds references far fewer, so callers must hand exactly such a list.
#[verifier::external_body]
pub(crate) fn compile_message(ixs: &Vec<Instruction>, payer: &Address) -> (r: Message)
    requires
        exists|wallet: Seq<u8>, mint: Seq<u8>, rent_lamports: u64|
            ixs@ == crate::builders::nft_instruction_seq(wallet, mint, rent_lamports),
    ensures
        r == compiled_message(ixs@, payer@),
{
    Message::new(ixs, Some(&Pubkey::new_from_array(payer.bytes)))
}

/// Relies on `solana_sdk::transaction::Transaction::new_unsigned`: wraps a
/// compiled message with empty signature slots, a pure function of the
/// message.
#[verifier::external_body]
pub(crate) fn unsigned_transaction(message: Message) -> (r: Transaction)
    ensures
        r == unsigned_of(message),
{
    Transaction::new_unsigned(message)
}

/// Relies on `solana_sdk::transaction::Transaction::try_sign`, with the
/// mint and wallet key pairs and the given recent checkpoint hash; it
/// reports failure through its result and does not abort. Signing is
/// deterministic, so whether it succeeds, and the signed transaction when
/// it does, are pure functions of the four arguments.
#[verifier::external_body]
pub(crate) fn try_sign_transaction(
    transaction: &mut Transaction,
    mint: &Keypair,
    wallet: &Keypair,
    recent_blockhash: &[u8; 32],
) -> (r: Result<(), SignerError>)
    ensures
        r.is_ok() == sign_succeeds(*old(transaction), *mint, *wallet, recent_blockhash@),
        r.is_ok() ==> *final(transaction) == signed_of(
            *old(transaction),
            *mint,
            *wallet,
            recent_blockhash@,
        ),
{
    transaction.try_sign(
        &[mint, wallet],
        solana_sdk::hash::Hash::new_from_array(*recent_blockhash),
    )
}

} // verus!
