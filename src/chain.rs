//! The memo instruction and the signed transaction that publishes it.
use solana_sdk::instruction::{AccountMeta, Instruction};
use solana_sdk::message::compiled_instruction::CompiledInstruction;
use solana_sdk::message::{Message, MessageHeader};
use solana_sdk::pubkey::{ParsePubkeyError, Pubkey};
use solana_sdk::signature::{Keypair, Signature, Signer};
use solana_sdk::transaction::Transaction;
use std::str::FromStr;
use vstd::prelude::*;
use vstd::utf8::encode_utf8;

verus! {

#[verifier::external_type_specification]
#[verifier::external_body]
pub struct ExPubkey(Pubkey);

#[verifier::external_type_specification]
#[verifier::external_body]
pub struct ExParsePubkeyError(ParsePubkeyError);

#[verifier::external_type_specification]
#[verifier::external_body]
pub struct ExHash(solana_sdk::hash::Hash);

#[verifier::external_type_specification]
#[verifier::external_body]
pub struct ExSignature(Signature);

/// Named by `Signature`'s `TryFrom<&[u8]>` impl, which Verus reads along with
/// `Signature`.
#[verifier::external_type_specification]
#[verifier::external_body]
pub struct ExTryFromSliceError(core::array::TryFromSliceError);

#[verifier::external_type_specification]
#[verifier::external_body]
pub struct ExKeypair(Keypair);

#[verifier::external_type_specification]
pub struct ExAccountMeta(AccountMeta);

#[verifier::external_type_specification]
pub struct ExInstruction(Instruction);

#[verifier::external_type_specification]
pub struct ExMessageHeader(MessageHeader);

#[verifier::external_type_specification]
pub struct ExCompiledInstruction(CompiledInstruction);

#[verifier::external_type_specification]
pub struct ExMessage(Message);

#[verifier::external_type_specification]
pub struct ExTransaction(Transaction);

/// Address of the on-chain memo program, in base 58.
pub const MEMO_PROGRAM_ADDRESS: &'static str = "MemoSq4gqABAXKb96qnH8TysNcWxMyWCqXgDLGmfcHr";

/// Why a memo transaction could not be built.
#[derive(Clone, Copy, Debug, PartialEq, Eq, Structural)]
pub enum ChainError {
    /// The memo program's address text is not a valid public key.
    InvalidProgramAddress,
    /// The memo's UTF-8 bytes are more than a message can carry as one
    /// instruction's data (`MAX_MEMO_BYTES`).
    MemoTooLong,
}

/// The most bytes of data that a message serializes for one instruction: its
/// length is written as a short vector, whose lengths fit in a `u16`.
pub const MAX_MEMO_BYTES: usize = 65_535;

/// The public key that the base-58 text `s` decodes to, if any.
pub uninterp spec fn decoded_pubkey(s: Seq<char>) -> Option<Pubkey>;

/// The public key of the key pair `k`.
pub uninterp spec fn keypair_address(k: Keypair) -> Pubkey;

/// Relies on `Pubkey::from_str`: it decodes base-58 text, and its result
/// depends on the text alone.
#[verifier::external_body]
fn parse_pubkey(s: &str) -> (r: Result<Pubkey, ParsePubkeyError>)
    ensures
        r is Ok <==> decoded_pubkey(s@) is Some,
        r matches Ok(k) ==> decoded_pubkey(s@) == Some(k),
{
    Pubkey::from_str(s)
}

/// Relies on `Signer::pubkey` for `Keypair`: the public half of the pair.
#[verifier::external_body]
fn address_of(k: &Keypair) -> (r: Pubkey)
    ensures
        r == keypair_address(*k),
{
    k.pubkey()
}

/// Relies on `AccountMeta::new_readonly`: the given key and signer flag, not
/// writable.
pub assume_specification[ AccountMeta::new_readonly ](pubkey: Pubkey, is_signer: bool) -> (r: AccountMeta)
    ensures
        r == (AccountMeta { pubkey, is_signer, is_writable: false }),
;

/// The signature that `k` makes with `Keypair::sign_message` (Ed25519, which is
/// deterministic) over the bytes that `Message::serialize` gives for `m`.
pub uninterp spec fn payer_signature(k: Keypair, m: Message) -> Signature;

/// Relies on `Transaction::new_signed_with_payer` with `k` as fee payer and
/// only signer. `Message::new` puts `k`'s key first and then lists each key
/// once; the one compiled instruction points into that list for its program
/// and its accounts, and keeps the data. Where every account is `k`'s and the
/// program is another key, the list is exactly `k`'s key then the program's,
/// the program read-only and unsigned. The blockhash is set, and the one
/// signature is `k`'s over the finished message. It panics when an account
/// that must sign is not `k`'s, when a class of keys outgrows a `u8`, or when
/// the data outgrow a short vector's `u16` length (serializing the message).
#[verifier::external_body]
fn sign_with_payer(ix: Instruction, k: &Keypair, blockhash: solana_sdk::hash::Hash) -> (r: Transaction)
    requires
        ix.accounts@.len() <= 253,
        ix.data@.len() <= MAX_MEMO_BYTES,
        forall|i: int|
            0 <= i < ix.accounts@.len() && (#[trigger] ix.accounts@[i]).is_signer ==> ix.accounts@[i].pubkey
                == keypair_address(*k),
    ensures
        r.message.header.num_required_signatures == 1,
        r.message.header.num_readonly_signed_accounts == 0,
        r.message.recent_blockhash == blockhash,
        r.message.account_keys@.len() >= 1,
        r.message.account_keys@[0] == keypair_address(*k),
        r.message.instructions@.len() == 1,
        r.message.instructions@[0].program_id_index < r.message.account_keys@.len(),
        r.message.account_keys@[r.message.instructions@[0].program_id_index as int]
            == ix.program_id,
        r.message.instructions@[0].accounts@.len() == ix.accounts@.len(),
        forall|i: int|
            0 <= i < ix.accounts@.len() ==> {
                let a = #[trigger] r.message.instructions@[0].accounts@[i];
                &&& a < r.message.account_keys@.len()
                &&& r.message.account_keys@[a as int] == ix.accounts@[i].pubkey
            },
        r.message.instructions@[0].data@ == ix.data@,
        (ix.program_id != keypair_address(*k) && forall|i: int|
            0 <= i < ix.accounts@.len() ==> (#[trigger] ix.accounts@[i]).pubkey == keypair_address(
                *k,
            )) ==> {
            &&& r.message.account_keys@ == seq![keypair_address(*k), ix.program_id]
            &&& r.message.header.num_readonly_unsigned_accounts == 1
            &&& r.message.instructions@[0].program_id_index == 1
            &&& forall|i: int|
                0 <= i < ix.accounts@.len() ==> #[trigger] r.message.instructions@[0].accounts@[i]
                    == 0
        },
        r.signatures@ == seq![payer_signature(*k, r.message)],
{
    Transaction::new_signed_with_payer(&[ix], Some(&k.pubkey()), &[k], blockhash)
}

/// The memo program's public key, decoded from `MEMO_PROGRAM_ADDRESS`.
pub fn memo_program_id() -> (r: Result<Pubkey, ChainError>)
    ensures
        r is Ok <==> decoded_pubkey(MEMO_PROGRAM_ADDRESS@) is Some,
        r matches Ok(k) ==> decoded_pubkey(MEMO_PROGRAM_ADDRESS@) == Some(k),
        r matches Err(e) ==> e == ChainError::InvalidProgramAddress,
{
    match parse_pubkey(MEMO_PROGRAM_ADDRESS) {
        Ok(k) => Ok(k),
        Err(_) => Err(ChainError::InvalidProgramAddress),
    }
}

/// An instruction for the program `program_id` that carries `memo` as its
/// UTF-8 bytes, signed for by `signer`, whose account it only reads.
pub fn memo_instruction(program_id: Pubkey, signer: Pubkey, memo: &str) -> (r: Instruction)
    ensures
        r.program_id == program_id,
        r.accounts@ == seq![AccountMeta { pubkey: signer, is_signer: true, is_writable: false }],
        r.data@ == encode_utf8(memo@),
{
    let accounts = vec![AccountMeta::new_readonly(signer, true)];
    Instruction { program_id, accounts, data: memo.as_bytes_vec() }
}

/// What a signed transaction that publishes `memo` through `program` holds:
/// `payer` pays and is the one signer, with its signature over the message;
/// the message is anchored to `blockhash` and holds one instruction, for
/// `program`, whose one account is `payer`'s and whose data are `memo`'s UTF-8
/// bytes. Where `program` is not `payer`'s key, the message lists exactly the
/// two keys, payer first, with the program read-only and unsigned.
pub open spec fn memo_transaction_shape(
    tx: Transaction,
    payer: &Keypair,
    program: Pubkey,
    memo: Seq<char>,
    blockhash: solana_sdk::hash::Hash,
) -> bool {
    let keys = tx.message.account_keys@;
    let ix = tx.message.instructions@[0];
    &&& tx.signatures@ == seq![payer_signature(*payer, tx.message)]
    &&& tx.message.header.num_required_signatures == 1
    &&& tx.message.header.num_readonly_signed_accounts == 0
    &&& tx.message.recent_blockhash == blockhash
    &&& keys.len() >= 1
    &&& keys[0] == keypair_address(*payer)
    &&& tx.message.instructions@.len() == 1
    &&& ix.program_id_index < keys.len()
    &&& keys[ix.program_id_index as int] == program
    &&& ix.accounts@.len() == 1
    &&& ix.accounts@[0] < keys.len()
    &&& keys[ix.accounts@[0] as int] == keypair_address(*payer)
    &&& ix.data@ == encode_utf8(memo)
    &&& program != keypair_address(*payer) ==> {
        &&& keys == seq![keypair_address(*payer), program]
        &&& tx.message.header.num_readonly_unsigned_accounts == 1
        &&& ix.program_id_index == 1
        &&& ix.accounts@ == seq![0u8]
    }
}

/// The transaction that publishes `memo` through the memo program, paid and
/// signed by `payer`, anchored to `blockhash`. It fails when the memo
/// program's address does not decode, and otherwise when the memo's UTF-8
/// bytes are more than `MAX_MEMO_BYTES`.
pub fn memo_transaction(payer: &Keypair, memo: &str, blockhash: solana_sdk::hash::Hash) -> (r: Result<
    Transaction,
    ChainError,
>)
    ensures
        r == Err::<Transaction, ChainError>(ChainError::InvalidProgramAddress) <==> decoded_pubkey(
            MEMO_PROGRAM_ADDRESS@,
        ) is None,
        r == Err::<Transaction, ChainError>(ChainError::MemoTooLong) <==> decoded_pubkey(
            MEMO_PROGRAM_ADDRESS@,
        ) is Some && encode_utf8(memo@).len() > MAX_MEMO_BYTES,
        r is Ok <==> decoded_pubkey(MEMO_PROGRAM_ADDRESS@) is Some && encode_utf8(memo@).len()
            <= MAX_MEMO_BYTES,
        r matches Ok(tx) ==> memo_transaction_shape(
            tx,
            payer,
            decoded_pubkey(MEMO_PROGRAM_ADDRESS@)->Some_0,
            memo@,
            blockhash,
        ),
{
    let program_id = memo_program_id()?;
    let signer = address_of(payer);
    let ix = memo_instruction(program_id, signer, memo);
    if ix.data.len() > MAX_MEMO_BYTES {
        return Err(ChainError::MemoTooLong);
    }
    let tx = sign_with_payer(ix, payer, blockhash);
    assert(ix.accounts@[0].pubkey == signer);
    assert(tx.message.instructions@[0].accounts@[0] == 0 ==> tx.message.instructions@[0].accounts@
        =~= seq![0u8]);
    Ok(tx)
}

} // verus!
