//! The transactions that the commands send.
use crate::instruction::{
    advance_nonce_account, advance_nonce_ix, apply_signature, apply_signature_ix, apply_timestamp,
    apply_timestamp_ix, bpf_loader_id, budget_contract_ixs, conditional_bytes, create_account,
    create_account_ix, dated_bytes, instruction_views, le_bytes, loader_finalize, loader_finalize_ix,
    loader_id, loader_write, loader_write_ix, on_date, signed_bytes, transfer, transfer_ix,
    when_signed, Instruction, InstructionView,
};
use crate::keys::{Blockhash, Keypair, Pubkey};
use crate::time::Timestamp;
use crate::transaction::{
    are_signers, compiles, delivers, fit_one_message, holds_key, is_signed_by, mentions, must_sign,
    signed_instructions, Transaction, TransactionView,
};
use vstd::prelude::*;

verus! {

/// One of at most three accounts is `key` and signs.
spec fn signs(ix: InstructionView, key: Pubkey) -> bool {
    ||| ix.accounts.len() > 0 && ix.accounts[0].is_signer && ix.accounts[0].pubkey == key
    ||| ix.accounts.len() > 1 && ix.accounts[1].is_signer && ix.accounts[1].pubkey == key
    ||| ix.accounts.len() > 2 && ix.accounts[2].is_signer && ix.accounts[2].pubkey == key
}

/// One of at most three key pairs has the public half `key`.
spec fn has(pairs: Seq<Keypair>, key: Pubkey) -> bool {
    ||| pairs.len() > 0 && pairs[0].spec_pubkey() == key
    ||| pairs.len() > 1 && pairs[1].spec_pubkey() == key
    ||| pairs.len() > 2 && pairs[2].spec_pubkey() == key
}

/// What has to hold of one or two instructions for `pairs` to sign them.
spec fn ready(pairs: Seq<Keypair>, ixs: Seq<InstructionView>, payer: Option<Pubkey>) -> bool {
    &&& pairs.len() <= 3
    &&& 1 <= ixs.len() <= 2
    &&& forall|i: int|
        0 <= i < ixs.len() ==> (#[trigger] ixs[i]).accounts.len() <= 3 && ixs[i].data.len() <= 0xffff
    &&& forall|key: Pubkey| #[trigger]
        has(pairs, key) <==> payer == Some(key) || signs(ixs[0], key) || (ixs.len() > 1 && signs(
            ixs[1],
            key,
        ))
}

proof fn lemma_ready(pairs: Seq<Keypair>, ixs: Seq<InstructionView>, payer: Option<Pubkey>)
    requires
        ready(pairs, ixs, payer),
    ensures
        fit_one_message(ixs),
        are_signers(pairs, ixs, payer),
{
    reveal_with_fuel(mentions, 3);
    assert(ixs.drop_last().len() == ixs.len() - 1);
    if ixs.len() == 2 {
        assert(ixs.drop_last().last() == ixs[0]);
    }
    assert forall|key: Pubkey| #[trigger] holds_key(pairs, key) <==> must_sign(ixs, payer, key) by {
        assert(has(pairs, key) <==> holds_key(pairs, key));
        assert forall|i: int| 0 <= i < ixs.len() implies (is_signed_by(#[trigger] ixs[i], key)
            <==> signs(ixs[i], key)) by {
            let ix = ixs[i];
            assert(ix.accounts.len() <= 3);
        }
        assert(ixs[0] == ixs[0]);
    }
}

proof fn lemma_le_bytes_len(n: nat, width: nat)
    ensures
        le_bytes(n, width).len() == width,
    decreases width,
{
    if width > 0 {
        lemma_le_bytes_len(n / 256, (width - 1) as nat);
    }
}

proof fn lemma_transfer_len(lamports: u64)
    ensures
        (le_bytes(2, 4) + le_bytes(lamports as nat, 8)).len() == 12,
{
    lemma_le_bytes_len(2, 4);
    lemma_le_bytes_len(lamports as nat, 8);
}

proof fn lemma_create_len(lamports: u64, space: u64)
    ensures
        (le_bytes(0, 4) + le_bytes(lamports as nat, 8) + le_bytes(space as nat, 8)).len() == 20,
{
    lemma_le_bytes_len(0, 4);
    lemma_le_bytes_len(lamports as nat, 8);
    lemma_le_bytes_len(space as nat, 8);
}

proof fn lemma_contract_ready(
    pairs: Seq<Keypair>,
    ixs: Seq<InstructionView>,
    lamports: u64,
    from: Pubkey,
    contract: Pubkey,
)
    requires
        pairs.len() == 2,
        pairs[0].spec_pubkey() == from,
        pairs[1].spec_pubkey() == contract,
        exists|expression: Seq<u8>|
            ixs == #[trigger] budget_contract_ixs(from, contract, lamports, expression),
        ixs[1].data.len() <= 0xffff,
    ensures
        fit_one_message(ixs),
        are_signers(pairs, ixs, None),
{
    let expression = choose|expression: Seq<u8>|
        ixs == #[trigger] budget_contract_ixs(from, contract, lamports, expression);
    lemma_create_len(lamports, (2 + expression.len()) as u64);
    lemma_ready(pairs, ixs, None);
}

/// `lamports` from `from` to `to`.
pub open spec fn transfer_tx(
    from: Keypair,
    to: Pubkey,
    lamports: u64,
    blockhash: Blockhash,
) -> TransactionView {
    signed_instructions(
        seq![from],
        seq![transfer_ix(from.spec_pubkey(), to, lamports)],
        None,
        blockhash,
    )
}

/// The instructions of a transfer that uses up a nonce.
pub open spec fn nonced_transfer_ixs(
    from: Pubkey,
    to: Pubkey,
    lamports: u64,
    nonce: Pubkey,
    authority: Pubkey,
) -> Seq<InstructionView> {
    seq![advance_nonce_ix(nonce, authority), transfer_ix(from, to, lamports)]
}

/// `lamports` from `from`, which also pays the fee, to `to`, at a nonce.
pub open spec fn nonced_transfer_tx(
    from: Keypair,
    to: Pubkey,
    lamports: u64,
    nonce: Pubkey,
    authority: Keypair,
    blockhash: Blockhash,
) -> TransactionView {
    signed_instructions(
        seq![from, authority],
        nonced_transfer_ixs(
            from.spec_pubkey(),
            to,
            lamports,
            nonce,
            authority.spec_pubkey(),
        ),
        Some(from.spec_pubkey()),
        blockhash,
    )
}

/// `lamports` from `from` to `to`, with the fee from `fee_payer`.
pub open spec fn paid_transfer_tx(
    fee_payer: Keypair,
    from: Keypair,
    to: Pubkey,
    lamports: u64,
    blockhash: Blockhash,
) -> TransactionView {
    signed_instructions(
        seq![fee_payer, from],
        seq![transfer_ix(from.spec_pubkey(), to, lamports)],
        Some(fee_payer.spec_pubkey()),
        blockhash,
    )
}

/// `lamports` from `from` to `to`, with the fee from `fee_payer`, at a nonce.
pub open spec fn nonced_paid_transfer_tx(
    fee_payer: Keypair,
    from: Keypair,
    to: Pubkey,
    lamports: u64,
    nonce: Pubkey,
    authority: Keypair,
    blockhash: Blockhash,
) -> TransactionView {
    signed_instructions(
        seq![fee_payer, from, authority],
        nonced_transfer_ixs(
            from.spec_pubkey(),
            to,
            lamports,
            nonce,
            authority.spec_pubkey(),
        ),
        Some(fee_payer.spec_pubkey()),
        blockhash,
    )
}

/// The account `to`, made and paid for by `from`.
pub open spec fn create_account_tx(
    from: Keypair,
    to: Keypair,
    blockhash: Blockhash,
    lamports: u64,
    space: u64,
    owner: Pubkey,
) -> TransactionView {
    signed_instructions(
        seq![from, to],
        seq![create_account_ix(from.spec_pubkey(), to.spec_pubkey(), lamports, space, owner)],
        None,
        blockhash,
    )
}

/// The BPF loader writes `bytes` into the account of `program` from `offset` on.
pub open spec fn write_tx(
    payer: Keypair,
    program: Keypair,
    offset: u32,
    bytes: Seq<u8>,
    blockhash: Blockhash,
) -> TransactionView {
    signed_instructions(
        seq![payer, program],
        seq![loader_write_ix(program.spec_pubkey(), bpf_loader_id(), offset, bytes)],
        Some(payer.spec_pubkey()),
        blockhash,
    )
}

/// The BPF loader makes the account of `program` executable.
pub open spec fn finalize_tx(
    payer: Keypair,
    program: Keypair,
    blockhash: Blockhash,
) -> TransactionView {
    signed_instructions(
        seq![payer, program],
        seq![loader_finalize_ix(program.spec_pubkey(), bpf_loader_id())],
        Some(payer.spec_pubkey()),
        blockhash,
    )
}

/// The instructions of a payment held back until `by` attests the moment.
pub open spec fn dated_payment_ixs(
    from: Pubkey,
    to: Pubkey,
    contract: Pubkey,
    when: Timestamp,
    by: Pubkey,
    cancelable: Option<Pubkey>,
    lamports: u64,
) -> Seq<InstructionView> {
    budget_contract_ixs(
        from,
        contract,
        lamports,
        conditional_bytes(
            dated_bytes(when.spec_secs(), when.spec_nanos(), by),
            to,
            lamports,
            cancelable,
        ),
    )
}

/// The instructions of a payment held back until `witness` signs.
pub open spec fn witnessed_payment_ixs(
    from: Pubkey,
    to: Pubkey,
    contract: Pubkey,
    witness: Pubkey,
    cancelable: Option<Pubkey>,
    lamports: u64,
) -> Seq<InstructionView> {
    budget_contract_ixs(
        from,
        contract,
        lamports,
        conditional_bytes(signed_bytes(witness), to, lamports, cancelable),
    )
}

/// A contract set up by `from` in a new account.
pub open spec fn contract_tx(
    from: Keypair,
    contract: Keypair,
    ixs: Seq<InstructionView>,
    blockhash: Blockhash,
) -> TransactionView {
    signed_instructions(seq![from, contract], ixs, None, blockhash)
}

/// One instruction, signed by `from` alone.
pub open spec fn single_tx(
    from: Keypair,
    ix: InstructionView,
    blockhash: Blockhash,
) -> TransactionView {
    signed_instructions(seq![from], seq![ix], None, blockhash)
}

pub(crate) fn transfer_transaction(
    from: &Keypair,
    to: &Pubkey,
    lamports: u64,
    blockhash: Blockhash,
) -> (r: Transaction)
    ensures
        r@ == transfer_tx(*from, *to, lamports, blockhash),
        delivers(r@, seq![transfer_ix(from.spec_pubkey(), *to, lamports)], None),
        compiles(seq![transfer_ix(from.spec_pubkey(), *to, lamports)], None),
{
    let ix = transfer(&from.pubkey(), to, lamports);
    let ghost view = ix@;
    let pairs: Vec<Keypair> = vec![*from];
    let ixs: Vec<Instruction> = vec![ix];
    proof {
        lemma_transfer_len(lamports);
        assert(pairs@ =~= seq![*from]);
        assert(instruction_views(ixs@) =~= seq![view]);
        lemma_ready(pairs@, seq![view], None);
    }
    Transaction::new_signed(&pairs, ixs, None, blockhash)
}

pub(crate) fn nonced_transfer_transaction(
    from: &Keypair,
    to: &Pubkey,
    lamports: u64,
    nonce: &Pubkey,
    authority: &Keypair,
    blockhash: Blockhash,
) -> (r: Transaction)
    ensures
        r@ == nonced_transfer_tx(*from, *to, lamports, *nonce, *authority, blockhash),
        delivers(
            r@,
            nonced_transfer_ixs(
                from.spec_pubkey(),
                *to,
                lamports,
                *nonce,
                authority.spec_pubkey(),
            ),
            Some(from.spec_pubkey()),
        ),
        compiles(
            nonced_transfer_ixs(
                from.spec_pubkey(),
                *to,
                lamports,
                *nonce,
                authority.spec_pubkey(),
            ),
            Some(from.spec_pubkey()),
        ),
{
    let payer: Pubkey = from.pubkey();
    let advance = advance_nonce_account(nonce, &authority.pubkey());
    let ix = transfer(&payer, to, lamports);
    let ghost views = seq![advance@, ix@];
    let pairs: Vec<Keypair> = vec![*from, *authority];
    let ixs: Vec<Instruction> = vec![advance, ix];
    proof {
        lemma_transfer_len(lamports);
        lemma_le_bytes_len(4, 4);
        assert(pairs@ =~= seq![*from, *authority]);
        assert(instruction_views(ixs@) =~= views);
        lemma_ready(pairs@, views, Some(payer));
    }
    Transaction::new_signed(&pairs, ixs, Some(payer), blockhash)
}

pub(crate) fn paid_transfer_transaction(
    fee_payer: &Keypair,
    from: &Keypair,
    to: &Pubkey,
    lamports: u64,
    blockhash: Blockhash,
) -> (r: Transaction)
    ensures
        r@ == paid_transfer_tx(*fee_payer, *from, *to, lamports, blockhash),
        delivers(
            r@,
            seq![transfer_ix(from.spec_pubkey(), *to, lamports)],
            Some(fee_payer.spec_pubkey()),
        ),
        compiles(
            seq![transfer_ix(from.spec_pubkey(), *to, lamports)],
            Some(fee_payer.spec_pubkey()),
        ),
{
    let payer: Pubkey = fee_payer.pubkey();
    let ix = transfer(&from.pubkey(), to, lamports);
    let ghost view = ix@;
    let pairs: Vec<Keypair> = vec![*fee_payer, *from];
    let ixs: Vec<Instruction> = vec![ix];
    proof {
        lemma_transfer_len(lamports);
        assert(pairs@ =~= seq![*fee_payer, *from]);
        assert(instruction_views(ixs@) =~= seq![view]);
        lemma_ready(pairs@, seq![view], Some(payer));
    }
    Transaction::new_signed(&pairs, ixs, Some(payer), blockhash)
}

pub(crate) fn nonced_paid_transfer_transaction(
    fee_payer: &Keypair,
    from: &Keypair,
    to: &Pubkey,
    lamports: u64,
    nonce: &Pubkey,
    authority: &Keypair,
    blockhash: Blockhash,
) -> (r: Transaction)
    ensures
        r@ == nonced_paid_transfer_tx(
            *fee_payer,
            *from,
            *to,
            lamports,
            *nonce,
            *authority,
            blockhash,
        ),
        delivers(
            r@,
            nonced_transfer_ixs(
                from.spec_pubkey(),
                *to,
                lamports,
                *nonce,
                authority.spec_pubkey(),
            ),
            Some(fee_payer.spec_pubkey()),
        ),
        compiles(
            nonced_transfer_ixs(
                from.spec_pubkey(),
                *to,
                lamports,
                *nonce,
                authority.spec_pubkey(),
            ),
            Some(fee_payer.spec_pubkey()),
        ),
{
    let payer: Pubkey = fee_payer.pubkey();
    let advance = advance_nonce_account(nonce, &authority.pubkey());
    let ix = transfer(&from.pubkey(), to, lamports);
    let ghost views = seq![advance@, ix@];
    let pairs: Vec<Keypair> = vec![*fee_payer, *from, *authority];
    let ixs: Vec<Instruction> = vec![advance, ix];
    proof {
        lemma_transfer_len(lamports);
        lemma_le_bytes_len(4, 4);
        assert(pairs@ =~= seq![*fee_payer, *from, *authority]);
        assert(instruction_views(ixs@) =~= views);
        lemma_ready(pairs@, views, Some(payer));
    }
    Transaction::new_signed(&pairs, ixs, Some(payer), blockhash)
}

pub(crate) fn create_account_transaction(
    from: &Keypair,
    to: &Keypair,
    blockhash: Blockhash,
    lamports: u64,
    space: u64,
    owner: &Pubkey,
) -> (r: Transaction)
    ensures
        r@ == create_account_tx(*from, *to, blockhash, lamports, space, *owner),
        delivers(
            r@,
            seq![
                create_account_ix(from.spec_pubkey(), to.spec_pubkey(), lamports, space, *owner),
            ],
            None,
        ),
{
    let ix = create_account(&from.pubkey(), &to.pubkey(), lamports, space, owner);
    let ghost view = ix@;
    let pairs: Vec<Keypair> = vec![*from, *to];
    let ixs: Vec<Instruction> = vec![ix];
    proof {
        lemma_create_len(lamports, space);
        assert(pairs@ =~= seq![*from, *to]);
        assert(instruction_views(ixs@) =~= seq![view]);
        lemma_ready(pairs@, seq![view], None);
    }
    Transaction::new_signed(&pairs, ixs, None, blockhash)
}

pub(crate) fn write_transaction(
    payer: &Keypair,
    program: &Keypair,
    offset: u32,
    bytes: Vec<u8>,
    blockhash: Blockhash,
) -> (r: Transaction)
    requires
        bytes@.len() <= 0xff00,
    ensures
        r@ == write_tx(*payer, *program, offset, bytes@, blockhash),
        delivers(
            r@,
            seq![loader_write_ix(program.spec_pubkey(), bpf_loader_id(), offset, bytes@)],
            Some(payer.spec_pubkey()),
        ),
{
    let key: Pubkey = payer.pubkey();
    let ghost len = bytes@.len();
    let ix = loader_write(&program.pubkey(), &loader_id(), offset, bytes);
    let ghost view = ix@;
    let pairs: Vec<Keypair> = vec![*payer, *program];
    let ixs: Vec<Instruction> = vec![ix];
    proof {
        lemma_le_bytes_len(0, 4);
        lemma_le_bytes_len(offset as nat, 4);
        lemma_le_bytes_len(len, 8);
        assert(pairs@ =~= seq![*payer, *program]);
        assert(instruction_views(ixs@) =~= seq![view]);
        lemma_ready(pairs@, seq![view], Some(key));
    }
    Transaction::new_signed(&pairs, ixs, Some(key), blockhash)
}

pub(crate) fn finalize_transaction(
    payer: &Keypair,
    program: &Keypair,
    blockhash: Blockhash,
) -> (r: Transaction)
    ensures
        r@ == finalize_tx(*payer, *program, blockhash),
        delivers(
            r@,
            seq![loader_finalize_ix(program.spec_pubkey(), bpf_loader_id())],
            Some(payer.spec_pubkey()),
        ),
{
    let key: Pubkey = payer.pubkey();
    let ix = loader_finalize(&program.pubkey(), &loader_id());
    let ghost view = ix@;
    let pairs: Vec<Keypair> = vec![*payer, *program];
    let ixs: Vec<Instruction> = vec![ix];
    proof {
        lemma_le_bytes_len(1, 4);
        assert(pairs@ =~= seq![*payer, *program]);
        assert(instruction_views(ixs@) =~= seq![view]);
        lemma_ready(pairs@, seq![view], Some(key));
    }
    Transaction::new_signed(&pairs, ixs, Some(key), blockhash)
}

pub(crate) fn dated_payment_transaction(
    from: &Keypair,
    to: &Pubkey,
    contract: &Keypair,
    when: &Timestamp,
    by: &Pubkey,
    cancelable: &Option<Pubkey>,
    lamports: u64,
    blockhash: Blockhash,
) -> (r: Transaction)
    ensures
        ({
            let ixs = dated_payment_ixs(
                from.spec_pubkey(),
                *to,
                contract.spec_pubkey(),
                *when,
                *by,
                *cancelable,
                lamports,
            );
            &&& r@ == contract_tx(*from, *contract, ixs, blockhash)
            &&& delivers(r@, ixs, None)
        }),
{
    let payer: Pubkey = from.pubkey();
    let account: Pubkey = contract.pubkey();
    let ixs = on_date(&payer, to, &account, when.checked(), by, cancelable, lamports);
    let ghost views = instruction_views(ixs@);
    let pairs: Vec<Keypair> = vec![*from, *contract];
    proof {
        assert(views.len() == 2 && views[1] == ixs@[1]@);
        assert(pairs@ =~= seq![*from, *contract]);
        lemma_contract_ready(pairs@, views, lamports, payer, account);
    }
    Transaction::new_signed(&pairs, ixs, None, blockhash)
}

pub(crate) fn witnessed_payment_transaction(
    from: &Keypair,
    to: &Pubkey,
    contract: &Keypair,
    witness: &Pubkey,
    cancelable: &Option<Pubkey>,
    lamports: u64,
    blockhash: Blockhash,
) -> (r: Transaction)
    ensures
        ({
            let ixs = witnessed_payment_ixs(
                from.spec_pubkey(),
                *to,
                contract.spec_pubkey(),
                *witness,
                *cancelable,
                lamports,
            );
            &&& r@ == contract_tx(*from, *contract, ixs, blockhash)
            &&& delivers(r@, ixs, None)
        }),
{
    let payer: Pubkey = from.pubkey();
    let account: Pubkey = contract.pubkey();
    let ixs = when_signed(&payer, to, &account, witness, cancelable, lamports);
    let ghost views = instruction_views(ixs@);
    let pairs: Vec<Keypair> = vec![*from, *contract];
    proof {
        lemma_le_bytes_len(0, 4);
        lemma_le_bytes_len(1, 4);
        lemma_le_bytes_len(2, 4);
        lemma_le_bytes_len(lamports as nat, 8);
        assert(pairs@ =~= seq![*from, *contract]);
        lemma_contract_ready(pairs@, views, lamports, payer, account);
    }
    Transaction::new_signed(&pairs, ixs, None, blockhash)
}

pub(crate) fn signature_transaction(
    from: &Keypair,
    contract: &Pubkey,
    to: &Pubkey,
    blockhash: Blockhash,
) -> (r: Transaction)
    ensures
        r@ == single_tx(*from, apply_signature_ix(from.spec_pubkey(), *contract, *to), blockhash),
        delivers(r@, seq![apply_signature_ix(from.spec_pubkey(), *contract, *to)], None),
{
    let ix = apply_signature(&from.pubkey(), contract, to);
    let ghost view = ix@;
    let pairs: Vec<Keypair> = vec![*from];
    let ixs: Vec<Instruction> = vec![ix];
    proof {
        lemma_le_bytes_len(2, 4);
        assert(pairs@ =~= seq![*from]);
        assert(instruction_views(ixs@) =~= seq![view]);
        lemma_ready(pairs@, seq![view], None);
    }
    Transaction::new_signed(&pairs, ixs, None, blockhash)
}

pub(crate) fn timestamp_transaction(
    from: &Keypair,
    contract: &Pubkey,
    to: &Pubkey,
    when: &Timestamp,
    blockhash: Blockhash,
) -> (r: Transaction)
    ensures
        ({
            let ix = apply_timestamp_ix(
                from.spec_pubkey(),
                *contract,
                *to,
                when.spec_secs(),
                when.spec_nanos(),
            );
            &&& r@ == single_tx(*from, ix, blockhash)
            &&& delivers(r@, seq![ix], None)
        }),
{
    let ix = apply_timestamp(&from.pubkey(), contract, to, when.checked());
    let ghost view = ix@;
    let pairs: Vec<Keypair> = vec![*from];
    let ixs: Vec<Instruction> = vec![ix];
    proof {
        assert(pairs@ =~= seq![*from]);
        assert(instruction_views(ixs@) =~= seq![view]);
        lemma_ready(pairs@, seq![view], None);
    }
    Transaction::new_signed(&pairs, ixs, None, blockhash)
}

} // verus!
