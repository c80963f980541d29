use nft_mint::txn::assemble_mint_transaction;
use solana_sdk::signer::keypair::Keypair;
use solana_sdk::signer::Signer;

#[test]
fn end_to_end_with_stub_network_values() {
    // A stub network layer reporting a fixed rent-exemption balance and a
    // fixed recent checkpoint hash.
    let admin = Keypair::new();
    let mint = Keypair::new();
    let rent: u64 = 2_039_280;
    let checkpoint = [7u8; 32];

    let assembled = assemble_mint_transaction(&admin, &mint, rent, &checkpoint).unwrap();

    assert_eq!(assembled.wallet_address.bytes, admin.pubkey().to_bytes());
    assert_eq!(assembled.mint_address.bytes, mint.pubkey().to_bytes());
    assert_eq!(assembled.instructions.len(), 5);

    let tx = &assembled.transaction;
    assert_eq!(tx.message.instructions.len(), 5);
    // The administrator pays the fee.
    assert_eq!(tx.message.account_keys[0], admin.pubkey());
    // Both credentials sign, and the signatures check out.
    assert_eq!(tx.signatures.len(), 2);
    let signer_keys = &tx.message.account_keys[0..2];
    assert!(signer_keys.contains(&admin.pubkey()));
    assert!(signer_keys.contains(&mint.pubkey()));
    assert!(tx.is_signed());
    assert_eq!(
        tx.message.recent_blockhash,
        solana_sdk::hash::Hash::new_from_array(checkpoint)
    );
    tx.verify().unwrap();

    // The funding amount of the first instruction is the stub balance.
    let create_data = &tx.message.instructions[0].data;
    assert_eq!(&create_data[4..12], &rent.to_le_bytes());
}

#[test]
fn assembled_instructions_reach_the_message_in_order() {
    let admin = Keypair::new();
    let mint = Keypair::new();
    let assembled = assemble_mint_transaction(&admin, &mint, 42, &[9u8; 32]).unwrap();
    let tx = &assembled.transaction;
    for (built, compiled) in assembled.instructions.iter().zip(tx.message.instructions.iter()) {
        let program_id = tx.message.account_keys[compiled.program_id_index as usize];
        assert_eq!(built.program_id, program_id);
        assert_eq!(built.data, compiled.data);
    }
}
