use devnet_counter::chain::{
    memo_instruction, memo_program_id, memo_transaction, ChainError, MAX_MEMO_BYTES,
    MEMO_PROGRAM_ADDRESS,
};
use solana_sdk::instruction::AccountMeta;
use solana_sdk::pubkey::Pubkey;
use solana_sdk::signature::{Keypair, Signer};

#[test]
fn memo_program_id_decodes() {
    let id = memo_program_id().expect("memo program address decodes");
    assert_eq!(id.to_string(), MEMO_PROGRAM_ADDRESS);
    assert_ne!(id, Pubkey::default());
}

#[test]
fn memo_instruction_fields() {
    let program = Pubkey::new_unique();
    let signer = Pubkey::new_unique();
    let ix = memo_instruction(program, signer, "Counter: 1 - é");
    assert_eq!(ix.program_id, program);
    assert_eq!(ix.accounts, vec![AccountMeta { pubkey: signer, is_signer: true, is_writable: false }]);
    assert_eq!(ix.data, "Counter: 1 - é".as_bytes().to_vec());
}

#[test]
fn memo_transaction_is_signed_by_payer() {
    let payer = Keypair::new();
    let blockhash = solana_sdk::hash::Hash::new_unique();
    let memo = "Counter: 3 - Written to blockchain at 2015-05-15 00:00:00 UTC";
    let tx = memo_transaction(&payer, memo, blockhash).expect("memo program address decodes");
    assert_eq!(tx.signatures.len(), 1);
    assert_eq!(tx.message.recent_blockhash, blockhash);
    assert_eq!(tx.message.account_keys[0], payer.pubkey());
    assert_eq!(tx.message.account_keys[1], memo_program_id().unwrap());
    assert_eq!(tx.message.instructions.len(), 1);
    assert_eq!(tx.message.instructions[0].data, memo.as_bytes().to_vec());
    let ix = &tx.message.instructions[0];
    assert_eq!(tx.message.account_keys[ix.program_id_index as usize], memo_program_id().unwrap());
    assert_eq!(ix.accounts.len(), 1);
    assert_eq!(tx.message.account_keys[ix.accounts[0] as usize], payer.pubkey());
    assert_eq!(tx.message.header.num_required_signatures, 1);
    assert_eq!(tx.message.header.num_readonly_signed_accounts, 0);
    assert_eq!(tx.message.header.num_readonly_unsigned_accounts, 1);
    assert_eq!(tx.message.account_keys, vec![payer.pubkey(), memo_program_id().unwrap()]);
    assert_eq!(ix.program_id_index, 1);
    assert_eq!(ix.accounts, vec![0u8]);
    assert_eq!(tx.signatures[0], payer.sign_message(&tx.message_data()));
    assert!(tx.verify().is_ok());
}

#[test]
fn memo_too_long_is_refused() {
    let payer = Keypair::new();
    let memo = "m".repeat(70_000);
    let r = memo_transaction(&payer, &memo, solana_sdk::hash::Hash::new_unique());
    assert_eq!(r.err(), Some(ChainError::MemoTooLong));
    let just_over = "é".repeat(MAX_MEMO_BYTES / 2 + 1);
    let r = memo_transaction(&payer, &just_over, solana_sdk::hash::Hash::new_unique());
    assert_eq!(r.err(), Some(ChainError::MemoTooLong));
}

#[test]
fn memo_of_largest_size_is_signed() {
    let payer = Keypair::new();
    let memo = "m".repeat(MAX_MEMO_BYTES);
    let tx = memo_transaction(&payer, &memo, solana_sdk::hash::Hash::new_unique())
        .expect("a memo of the largest size fits");
    assert_eq!(tx.message.instructions[0].data.len(), MAX_MEMO_BYTES);
    assert!(tx.verify().is_ok());
}
