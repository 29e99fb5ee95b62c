//! Numbers and keys as they stand in a transaction.
use crate::instruction::{le_bytes, InstructionView};
use crate::keys::{Blockhash, Keypair, Pubkey, Signature};
use crate::signing::{replaceable, replaced};
use crate::transaction::{
    delivers, holds_key, message_signature, must_sign, secret_for, signed_instructions, stands_for,
    TransactionView,
};
use vstd::prelude::*;

verus! {

/// The number that the bytes spell, the lowest byte first.
pub open spec fn le_value(bytes: Seq<u8>) -> nat
    decreases bytes.len(),
{
    if bytes.len() == 0 {
        0
    } else {
        bytes[0] as nat + 256 * le_value(bytes.skip(1))
    }
}

/// Two to the power of eight times `width`.
pub open spec fn byte_range(width: nat) -> nat
    decreases width,
{
    if width == 0 {
        1
    } else {
        256 * byte_range((width - 1) as nat)
    }
}

proof fn lemma_low_byte(n: nat)
    ensures
        n == n % 256 + 256 * (n / 256),
        (n % 256) as u8 as nat == n % 256,
{
}

proof fn lemma_next_byte(n: nat, width: nat)
    requires
        width > 0,
        n < byte_range(width),
    ensures
        n / 256 < byte_range((width - 1) as nat),
{
    let r = byte_range((width - 1) as nat);
    assert(n < 256 * r);
    assert(n / 256 < r) by (nonlinear_arith)
        requires
            n < 256 * r,
    ;
}

/// A number written out byte by byte takes so many bytes and reads back as the same number.
pub proof fn lemma_bytes_read_back(n: nat, width: nat)
    requires
        n < byte_range(width),
    ensures
        le_bytes(n, width).len() == width,
        le_value(le_bytes(n, width)) == n,
    decreases width,
{
    if width > 0 {
        let w = (width - 1) as nat;
        lemma_next_byte(n, width);
        lemma_bytes_read_back(n / 256, w);
        lemma_low_byte(n);
        let s = le_bytes(n, width);
        assert(s.skip(1) =~= le_bytes(n / 256, w));
        assert(s[0] == (n % 256) as u8);
    }
}

pub(crate) proof fn lemma_u64_bytes(n: u64)
    ensures
        le_bytes(n as nat, 8).len() == 8,
        le_value(le_bytes(n as nat, 8)) == n,
{
    reveal_with_fuel(byte_range, 9);
    lemma_bytes_read_back(n as nat, 8);
}

pub(crate) proof fn lemma_u32_bytes(n: u32)
    ensures
        le_bytes(n as nat, 4).len() == 4,
        le_value(le_bytes(n as nat, 4)) == n,
{
    reveal_with_fuel(byte_range, 5);
    lemma_bytes_read_back(n as nat, 4);
}

/// The key of the `j`-th account of the `i`-th instruction.
pub open spec fn account_of(tx: TransactionView, i: int, j: int) -> Pubkey {
    tx.message.account_keys[tx.message.instructions[i].accounts[j] as int]
}

/// How many accounts the `i`-th instruction has.
pub open spec fn account_count(tx: TransactionView, i: int) -> nat {
    tx.message.instructions[i].accounts.len()
}

/// The program that the `i`-th instruction is for.
pub open spec fn program_of(tx: TransactionView, i: int) -> Pubkey {
    tx.message.account_keys[tx.message.instructions[i].program_id_index as int]
}

/// The bytes of the `i`-th instruction.
pub open spec fn data_of(tx: TransactionView, i: int) -> Seq<u8> {
    tx.message.instructions[i].data
}

/// The key of zeros, which is the system program's.
pub open spec fn is_system_program(key: Pubkey) -> bool {
    forall|i: int| 0 <= i < 32 ==> #[trigger] key.bytes@[i] == 0
}

/// The instruction moves `lamports` between its two accounts.
pub open spec fn moves(tx: TransactionView, i: int, lamports: u64) -> bool {
    let data = data_of(tx, i);
    &&& data.len() == 12
    &&& le_value(data.subrange(0, 4)) == 2
    &&& le_value(data.subrange(4, 12)) == lamports
    &&& account_count(tx, i) == 2
}

/// Each key that has to sign did so, with a key pair of its own out of `pairs`.
pub open spec fn is_signed(tx: TransactionView, pairs: Seq<Keypair>) -> bool {
    &&& tx.signatures.len() == tx.message.num_required_signatures
    &&& forall|i: int|
        0 <= i < tx.signatures.len() ==> is_signed_at(
            tx,
            pairs,
            #[trigger] tx.message.account_keys[i],
            i,
        )
}

/// The signature at `i` is one by a key pair with the public half `key`.
pub open spec fn is_signed_at(
    tx: TransactionView,
    pairs: Seq<Keypair>,
    key: Pubkey,
    i: int,
) -> bool {
    exists|k: int|
        0 <= k < pairs.len() && (#[trigger] pairs[k]).spec_pubkey() == key && tx.signatures[i]
            == message_signature(pairs[k].secret@, tx.message)
}

proof fn lemma_secret(pairs: Seq<Keypair>, key: Pubkey) -> (k: int)
    requires
        holds_key(pairs, key),
    ensures
        0 <= k < pairs.len(),
        pairs[k].spec_pubkey() == key,
        pairs[k].secret@ == secret_for(pairs, key),
    decreases pairs.len(),
{
    let i = choose|i: int| 0 <= i < pairs.len() && (#[trigger] pairs[i]).spec_pubkey() == key;
    if pairs.last().spec_pubkey() == key {
        pairs.len() - 1
    } else {
        assert(pairs.drop_last()[i] == pairs[i]);
        lemma_secret(pairs.drop_last(), key)
    }
}

/// What a transaction that delivers instructions holds of them.
pub(crate) proof fn lemma_delivered(
    tx: TransactionView,
    pairs: Seq<Keypair>,
    ixs: Seq<InstructionView>,
    payer: Option<Pubkey>,
    blockhash: Blockhash,
)
    requires
        tx == signed_instructions(pairs, ixs, payer, blockhash),
        delivers(tx, ixs, payer),
        forall|key: Pubkey| #[trigger] must_sign(ixs, payer, key) ==> holds_key(pairs, key),
    ensures
        tx.message.recent_blockhash == blockhash,
        tx.message.instructions.len() == ixs.len(),
        forall|i: int|
            #![trigger ixs[i]]
            0 <= i < ixs.len() ==> {
                &&& data_of(tx, i) == ixs[i].data
                &&& program_of(tx, i) == ixs[i].program_id
                &&& account_count(tx, i) == ixs[i].accounts.len()
                &&& forall|j: int|
                    0 <= j < ixs[i].accounts.len() ==> #[trigger] account_of(tx, i, j)
                        == ixs[i].accounts[j].pubkey
            },
        payer matches Some(key) ==> tx.message.account_keys[0] == key,
        tx.message.account_keys.no_duplicates(),
        is_signed(tx, pairs),
{
    assert forall|i: int| #![trigger ixs[i]] 0 <= i < ixs.len() implies {
        &&& data_of(tx, i) == ixs[i].data
        &&& program_of(tx, i) == ixs[i].program_id
        &&& account_count(tx, i) == ixs[i].accounts.len()
        &&& forall|j: int|
            0 <= j < ixs[i].accounts.len() ==> #[trigger] account_of(tx, i, j)
                == ixs[i].accounts[j].pubkey
    } by {
        assert(stands_for(tx.message.instructions[i], tx.message.account_keys, ixs[i]));
    }
    assert forall|i: int| 0 <= i < tx.signatures.len() implies is_signed_at(
        tx,
        pairs,
        #[trigger] tx.message.account_keys[i],
        i,
    ) by {
        let key = tx.message.account_keys[i];
        assert(tx.message.signing_keys()[i] == key);
        assert(tx.message.signing_keys().contains(key));
        let k = lemma_secret(pairs, key);
        assert(pairs[k].spec_pubkey() == key);
    }
}

/// A transaction that took over signatures runs the same instructions, at the same blockhash.
pub(crate) proof fn lemma_replaced(
    tx: TransactionView,
    signers: Seq<(Pubkey, Signature)>,
)
    requires
        replaceable(tx, signers),
    ensures
        replaced(tx, signers).message.instructions == tx.message.instructions,
        replaced(tx, signers).message.recent_blockhash == tx.message.recent_blockhash,
        replaced(tx, signers).message.account_keys.len() == tx.message.account_keys.len(),
        forall|i: int|
            signers.len() <= i < tx.message.account_keys.len() ==> #[trigger] replaced(
                tx,
                signers,
            ).message.account_keys[i] == tx.message.account_keys[i],
        forall|i: int|
            0 <= i < signers.len() ==> #[trigger] replaced(tx, signers).message.account_keys[i]
                == signers[i].0 && replaced(tx, signers).signatures[i] == signers[i].1,
{
}

} // verus!
