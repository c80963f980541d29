//! Assembly of the one atomic transaction: the five planned instructions,
//! the wallet as fee payer, a recent checkpoint hash, and signatures from
//! both the mint and wallet key pairs.

use vstd::prelude::*;

use crate::addr::Address;
use crate::builders::{build_mint_instructions, nft_instruction_seq};
use crate::sdk;
use crate::sdk::{
    assoc_token_address, compiled_message, keypair_pubkey, sign_succeeds, signed_of, unsigned_of,
};
use solana_sdk::instruction::Instruction;
use solana_sdk::signer::keypair::Keypair;
use solana_sdk::transaction::Transaction;

verus! {

/// Why assembling the transaction failed.
#[derive(Clone, Copy, Debug, PartialEq, Eq, Structural)]
pub enum MintError {
    /// One of the two key pairs could not sign the compiled message.
    SigningFailed,
}

/// An assembled, fully signed minting transaction, together with the
/// addresses and the instruction plan it was built from.
pub struct MintTransaction {
    /// The fee-paying wallet's address: the mint authority, token owner
    /// and update authority.
    pub wallet_address: Address,
    /// The new mint's address: the mint key pair's public key.
    pub mint_address: Address,
    /// The associated token account address derived for the pair.
    pub associated_address: Address,
    /// The five planned instructions, in order.
    pub instructions: Vec<Instruction>,
    /// The signed transaction carrying exactly those instructions.
    pub transaction: Transaction,
}

/// The unsigned transaction that the assembler compiles before signing:
/// the five-instruction plan of the two key pairs, with the wallet as fee
/// payer.
pub open spec fn planned_unsigned_transaction(
    wallet: Keypair,
    mint: Keypair,
    rent_lamports: u64,
) -> Transaction {
    unsigned_of(
        compiled_message(
            nft_instruction_seq(keypair_pubkey(wallet), keypair_pubkey(mint), rent_lamports),
            keypair_pubkey(wallet),
        ),
    )
}

/// Builds the five-instruction plan for the two key pairs and the reported
/// rent-exemption balance, compiles it into one transaction with the
/// wallet as fee payer and the given recent checkpoint hash, and signs it
/// with both key pairs. Fails exactly when signing that compiled
/// transaction fails.
pub fn assemble_mint_transaction(
    wallet: &Keypair,
    mint: &Keypair,
    rent_lamports: u64,
    recent_blockhash: &[u8; 32],
) -> (r: Result<MintTransaction, MintError>)
    ensures
        match r {
            Ok(assembled) => {
                &&& assembled.wallet_address@ == keypair_pubkey(*wallet)
                &&& assembled.mint_address@ == keypair_pubkey(*mint)
                &&& assembled.instructions@ == nft_instruction_seq(
                    assembled.wallet_address@,
                    assembled.mint_address@,
                    rent_lamports,
                )
                &&& assembled.associated_address@ == assoc_token_address(
                    assembled.wallet_address@,
                    assembled.mint_address@,
                )
                &&& sign_succeeds(
                    planned_unsigned_transaction(*wallet, *mint, rent_lamports),
                    *mint,
                    *wallet,
                    recent_blockhash@,
                )
                &&& assembled.transaction == signed_of(
                    planned_unsigned_transaction(*wallet, *mint, rent_lamports),
                    *mint,
                    *wallet,
                    recent_blockhash@,
                )
            },
            Err(e) => {
                &&& e == MintError::SigningFailed
                &&& !sign_succeeds(
                    planned_unsigned_transaction(*wallet, *mint, rent_lamports),
                    *mint,
                    *wallet,
                    recent_blockhash@,
                )
            },
        },
{
    let wallet_address = sdk::signer_address(wallet);
    let mint_address = sdk::signer_address(mint);
    let (instructions, associated_address) =
        build_mint_instructions(&wallet_address, &mint_address, rent_lamports);
    let message = sdk::compile_message(&instructions, &wallet_address);
    let mut transaction = sdk::unsigned_transaction(message);
    match sdk::try_sign_transaction(&mut transaction, mint, wallet, recent_blockhash) {
        Ok(()) => Ok(
            MintTransaction {
                wallet_address,
                mint_address,
                associated_address,
                instructions,
                transaction,
            },
        ),
        Err(_) => Err(MintError::SigningFailed),
    }
}

} // verus!
