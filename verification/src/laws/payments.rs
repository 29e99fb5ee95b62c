//! Payments: at once, or held back by a contract until a date or a witness's signature.
use crate::authority::optional_list;
use crate::command::{CliCommand, CliConfig, PayCommand};
use crate::errors::{CliError, ErrorDomain};
use crate::fees::FeeCalculator;
use crate::handover::{transfer_ixs, with_signers};
use crate::instruction::{
    budget_contract_ixs, budget_program_id, conditional_bytes, dated_bytes, le_bytes, moment_bytes,
    signed_bytes, InstructionView,
};
use crate::keys::{Blockhash, Keypair, Pubkey};
use crate::laws::bytes::{
    account_count, account_of, data_of, is_signed, is_system_program, le_value, lemma_delivered,
    lemma_replaced, lemma_u32_bytes, lemma_u64_bytes, program_of,
};
use crate::laws::steps::begins;
use crate::laws::transfers::{
    are_its_signatures, at, comes_to_pass, ends_as_payment_to_oneself, ends_with_signatures,
    ends_without_signatures, is_handed_over_transfer, is_plain_transfer, lemma_carries_somewhere,
    lemma_handed_over, lemma_identical_text, lemma_more_pairs, lemma_only_its_signatures_are_taken,
    lemma_plain_transfer, lemma_printed_signers, outgoing, owner_of, pair_of, waits_to_send,
};
use crate::pay::{
    check_unique_pubkeys, dated_payment, only_signs, pay_dated, pay_witnessed, pays, pays_dated,
    pays_witnessed, plain_payment, refuses_signers, submits_tx, witnessed_payment,
};
use crate::progress::{NonceCheck, Progress, Receipt};
use crate::submit::comes_to;
use crate::time::Timestamp;
use crate::transaction::{
    delivers, holds_key, is_signed_by, must_sign, signed_instructions, TransactionView,
};
use vstd::prelude::*;

verus! {

/// The payment in `config`, where nothing holds it back.
pub open spec fn pays_at_once(config: CliConfig, pay: PayCommand) -> bool {
    &&& config.command == CliCommand::Pay(pay)
    &&& pay.timestamp is None
    &&& pay.witnesses is None
}

/// A payment that nothing holds back moves the lamports that it names from the client, who pays
/// the fee, to the account that it names, and does nothing else.  The client signs, and the nonce
/// authority where there is a nonce, each with its own key pair.
pub proof fn lemma_plain_payments_move_what_they_name(
    config: CliConfig,
    pay: PayCommand,
    first: Progress,
    recent: (Blockhash, FeeCalculator),
    progress: Progress,
    tx: TransactionView,
)
    requires
        pays_at_once(config, pay),
        begins(config, first),
        comes_to_pass(first, recent, progress),
        outgoing(progress) == Some(tx),
    ensures
        ({
            let client = config.keypair;
            let authority = pair_of(pay.nonce_authority, client);
            &&& tx.message.recent_blockhash == at(pay.blockhash_query, recent).0
            &&& match pay.signers {
                None => {
                    &&& is_plain_transfer(
                        tx,
                        pay.lamports,
                        client.spec_pubkey(),
                        pay.to,
                        pay.nonce_account,
                        authority.spec_pubkey(),
                    )
                    &&& tx.message.account_keys[0] == client.spec_pubkey()
                    &&& is_signed(tx, seq![client, authority])
                },
                Some(list) => is_handed_over_transfer(
                    tx,
                    list@,
                    pay.lamports,
                    pay.to,
                    pay.nonce_account,
                ),
            }
        }),
{
    let client = config.keypair;
    let authority = pair_of(pay.nonce_authority, client);
    let (blockhash, fees) = at(pay.blockhash_query, recent);
    assert(pays(progress, client, pay, blockhash, fees));
    let held = plain_payment(client, pay, blockhash);
    let key = client.spec_pubkey();
    let payer = if pay.nonce_account is Some {
        Some(key)
    } else {
        None
    };
    let pairs = if pay.nonce_account is Some {
        seq![client, authority]
    } else {
        seq![client]
    };
    assert(pairs[0] == client);
    if pay.nonce_account is Some {
        assert(pairs[1] == authority);
    }
    let ixs = transfer_ixs(
        key,
        authority.spec_pubkey(),
        pay.to,
        pay.lamports,
        pay.nonce_account,
    );
    lemma_plain_transfer(
        held,
        pairs,
        key,
        authority.spec_pubkey(),
        pay.to,
        pay.lamports,
        pay.nonce_account,
        payer,
        blockhash,
    );
    lemma_carries_somewhere(held, ixs, payer);
    if pay.nonce_account is None {
        lemma_only_signer_first(held, ixs, key);
    }
    match pay.signers {
        Some(list) => {
            lemma_handed_over(
                held,
                list@,
                pay.lamports,
                key,
                pay.to,
                pay.nonce_account,
                authority.spec_pubkey(),
            );
        },
        None => {
            lemma_more_pairs(held, pairs, seq![client, authority]);
        },
    }
}

/// Where one key signs the first instruction and no other does, it comes first.
proof fn lemma_only_signer_first(tx: TransactionView, ixs: Seq<InstructionView>, key: Pubkey)
    requires
        delivers(tx, ixs, None),
        ixs.len() == 1,
        ixs[0].accounts.len() == 2,
        ixs[0].accounts[0].pubkey == key && ixs[0].accounts[0].is_signer,
        !ixs[0].accounts[1].is_signer,
    ensures
        tx.message.account_keys[0] == key,
{
    assert(is_signed_by(ixs[0], key));
    assert(must_sign(ixs, None, key));
    assert(tx.message.signing_keys().contains(key));
    let keys = tx.message.signing_keys();
    assert(keys.len() > 0);
    assert(keys.contains(keys[0]));
    assert(must_sign(ixs, None, keys[0]));
    let i = choose|i: int| 0 <= i < ixs.len() && is_signed_by(#[trigger] ixs[i], keys[0]);
    assert(i == 0);
}

/// What the nonce account of a payment is checked for.
pub open spec fn nonce_to_check(
    pay: PayCommand,
    client: Keypair,
    blockhash: Blockhash,
) -> Option<NonceCheck> {
    match pay.nonce_account {
        Some(account) => Some(
            NonceCheck { account, authority: owner_of(pay.nonce_authority, client), blockhash },
        ),
        None => None,
    }
}

/// A payment to the client itself is refused at once.  One that nothing holds back is, once its
/// blockhash is known, only signed where that was asked for, or else waits for its nonce to be
/// checked and for the client's balance.
pub proof fn lemma_plain_payments_are_signed_or_wait(
    config: CliConfig,
    pay: PayCommand,
    first: Progress,
    recent: (Blockhash, FeeCalculator),
    progress: Progress,
)
    requires
        config.command == CliCommand::Pay(pay),
        begins(config, first),
        comes_to_pass(first, recent, progress),
    ensures
        ({
            let client = config.keypair;
            let (blockhash, fees) = at(pay.blockhash_query, recent);
            if client.spec_pubkey() == pay.to {
                ends_as_payment_to_oneself(first)
            } else if !(pay.blockhash_query is Given) && progress == first {
                progress is Blockhash
            } else if pay.timestamp is Some && pay.witnesses is Some {
                comes_to(progress, "Combo transactions not yet handled"@)
            } else if !pays_at_once(config, pay) {
                true
            } else if pay.signers is Some && !are_its_signatures(
                plain_payment(client, pay, blockhash),
                pay.signers->0@,
            ) {
                ends_without_signatures(progress)
            } else if pay.sign_only {
                ends_with_signatures(progress, blockhash)
            } else {
                waits_to_send(
                    progress,
                    client.spec_pubkey(),
                    fees,
                    ErrorDomain::System,
                    Receipt::Signature,
                    seq![client],
                    nonce_to_check(pay, client, blockhash),
                )
            }
        }),
{
    lemma_identical_text();
    let client = config.keypair;
    let (blockhash, fees) = at(pay.blockhash_query, recent);
    if client.spec_pubkey() != pay.to && !(!(pay.blockhash_query is Given) && progress == first) {
        assert(pays(progress, client, pay, blockhash, fees));
        if pays_at_once(config, pay) {
            let held = plain_payment(client, pay, blockhash);
            if pay.signers is Some {
                lemma_only_its_signatures_are_taken(held, pay.signers->0@);
            }
            match with_signers(held, optional_list(pay.signers)) {
                Some(tx) => {
                    if pay.sign_only {
                        lemma_printed_signers(progress, tx);
                    }
                },
                None => {},
            }
        }
    }
}

// Contracts.

/// From `k` on, the bytes pay `lamports` to `to`.
pub open spec fn pays_at(data: Seq<u8>, k: int, lamports: u64, to: Pubkey) -> bool {
    &&& le_value(data.subrange(k, k + 4)) == 0
    &&& le_value(data.subrange(k + 4, k + 12)) == lamports
    &&& data.subrange(k + 12, k + 44) == to.bytes@
}

/// From `k` on, the bytes wait for the signature of `by`.
pub open spec fn waits_for_signature_at(data: Seq<u8>, k: int, by: Pubkey) -> bool {
    &&& le_value(data.subrange(k, k + 4)) == 1
    &&& data.subrange(k + 4, k + 36) == by.bytes@
}

/// From `k` on, the bytes wait until `by` attests the moment.
pub open spec fn waits_for_moment_at(data: Seq<u8>, k: int, moment: Seq<u8>, by: Pubkey) -> bool {
    &&& le_value(data.subrange(k, k + 4)) == 0
    &&& data.subrange(k + 4, k + 4 + moment.len()) == moment
    &&& data.subrange(k + 4 + moment.len(), k + 36 + moment.len()) == by.bytes@
}

/// The bytes set up a contract that, after a condition of `len` bytes, pays `lamports` to `to`.
/// Where `back` is a key, and only there, the contract has a second branch, which pays them back to
/// that key on its own signature.
pub open spec fn is_contract(
    data: Seq<u8>,
    len: nat,
    lamports: u64,
    to: Pubkey,
    back: Option<Pubkey>,
) -> bool {
    &&& le_value(data.subrange(0, 4)) == 0
    &&& pays_at(data, 8 + len as int, lamports, to)
    &&& match back {
        Some(key) => {
            &&& data.len() == 132 + len
            &&& le_value(data.subrange(4, 8)) == 2
            &&& waits_for_signature_at(data, 52 + len as int, key)
            &&& pays_at(data, 88 + len as int, lamports, key)
        },
        None => {
            &&& data.len() == 52 + len
            &&& le_value(data.subrange(4, 8)) == 1
        },
    }
}

/// The transaction makes an account that holds `lamports` and a contract, for the program that
/// looks after it.
pub open spec fn makes_contract(tx: TransactionView, lamports: u64) -> bool {
    let data = data_of(tx, 0);
    &&& tx.message.instructions.len() == 2
    &&& data.len() == 52
    &&& le_value(data.subrange(0, 4)) == 0
    &&& le_value(data.subrange(4, 12)) == lamports
    &&& le_value(data.subrange(12, 20)) + 2 == data_of(tx, 1).len()
    &&& data.subrange(20, 52) == budget_program_id().bytes@
    &&& account_count(tx, 0) == 2
    &&& account_count(tx, 1) == 1
}

/// The accounts of a transaction that makes a contract.
pub open spec fn makes_contract_in(
    tx: TransactionView,
    client: Keypair,
    contract: Keypair,
) -> bool {
    &&& is_system_program(program_of(tx, 0))
    &&& program_of(tx, 1) == budget_program_id()
    &&& account_of(tx, 0, 0) == client.spec_pubkey()
    &&& account_of(tx, 0, 1) == contract.spec_pubkey()
    &&& account_of(tx, 1, 0) == contract.spec_pubkey()
    &&& is_signed(tx, seq![client, contract])
}

/// The command goes on with a contract: it ends over signatures that are not its own, is only
/// signed where that was asked for, or waits for the client's balance, to report the contract.
pub open spec fn goes_on_with_contract(
    progress: Progress,
    pay: PayCommand,
    client: Keypair,
    contract: Keypair,
    held: TransactionView,
    blockhash: Blockhash,
    fees: FeeCalculator,
) -> bool {
    if pay.signers is Some && !are_its_signatures(held, pay.signers->0@) {
        ends_without_signatures(progress)
    } else if pay.sign_only {
        ends_with_signatures(progress, blockhash)
    } else {
        waits_to_send(
            progress,
            client.spec_pubkey(),
            fees,
            ErrorDomain::Budget,
            Receipt::Contract(contract.spec_pubkey()),
            seq![client, contract],
            None,
        )
    }
}

/// Who may cancel the payment: the client where it is cancelable, and nobody else.
pub open spec fn may_cancel(pay: PayCommand, client: Keypair) -> Option<Pubkey> {
    if pay.cancelable {
        Some(client.spec_pubkey())
    } else {
        None
    }
}

/// The parts of the instructions that set up a contract.
proof fn lemma_contract(
    tx: TransactionView,
    client: Keypair,
    contract: Keypair,
    lamports: u64,
    condition: Seq<u8>,
    to: Pubkey,
    back: Option<Pubkey>,
    blockhash: Blockhash,
)
    requires
        ({
            let ixs = budget_contract_ixs(
                client.spec_pubkey(),
                contract.spec_pubkey(),
                lamports,
                conditional_bytes(condition, to, lamports, back),
            );
            &&& tx == signed_instructions(seq![client, contract], ixs, None, blockhash)
            &&& delivers(tx, ixs, None)
        }),
    ensures
        makes_contract(tx, lamports),
        makes_contract_in(tx, client, contract),
        is_contract(data_of(tx, 1), condition.len(), lamports, to, back),
        data_of(tx, 1).subrange(8, 8 + condition.len() as int) == condition,
        tx.message.recent_blockhash == blockhash,
{
    let expression = conditional_bytes(condition, to, lamports, back);
    let ixs = budget_contract_ixs(
        client.spec_pubkey(),
        contract.spec_pubkey(),
        lamports,
        expression,
    );
    let pairs = seq![client, contract];
    assert(pairs[0] == client && pairs[1] == contract);
    assert forall|key: Pubkey| #[trigger] must_sign(ixs, None, key) implies holds_key(
        pairs,
        key,
    ) by {
        let i = choose|i: int| 0 <= i < ixs.len() && is_signed_by(#[trigger] ixs[i], key);
        let j = choose|j: int|
            0 <= j < ixs[i].accounts.len() && (#[trigger] ixs[i].accounts[j]).is_signer
                && ixs[i].accounts[j].pubkey == key;
        assert(key == pairs[0].spec_pubkey() || key == pairs[1].spec_pubkey());
    }
    lemma_delivered(tx, pairs, ixs, None, blockhash);
    assert(account_of(tx, 0, 0) == ixs[0].accounts[0].pubkey);
    assert(account_of(tx, 0, 1) == ixs[0].accounts[1].pubkey);
    assert(account_of(tx, 1, 0) == ixs[1].accounts[0].pubkey);
    lemma_u32_bytes(0);
    lemma_u32_bytes(1);
    lemma_u32_bytes(2);
    lemma_u64_bytes(lamports);
    let data = data_of(tx, 1);
    assert(data == le_bytes(0, 4) + expression);
    assert(tx.message.instructions[1].data.len() <= 0xffff);
    let space = (2 + expression.len()) as u64;
    lemma_u64_bytes(space);
    let made = data_of(tx, 0);
    assert(made == ixs[0].data);
    assert(made.subrange(0, 4) =~= le_bytes(0, 4));
    assert(made.subrange(4, 12) =~= le_bytes(lamports as nat, 8));
    assert(made.subrange(12, 20) =~= le_bytes(space as nat, 8));
    assert(made.subrange(20, 52) =~= budget_program_id().bytes@);
    let c = condition.len() as int;
    assert(data.subrange(0, 4) =~= le_bytes(0, 4));
    assert(data.subrange(8, 8 + c) =~= condition);
    assert(data.subrange(8 + c, 12 + c) =~= le_bytes(0, 4));
    assert(data.subrange(12 + c, 20 + c) =~= le_bytes(lamports as nat, 8));
    assert(data.subrange(20 + c, 52 + c) =~= to.bytes@);
    match back {
        Some(key) => {
            assert(data.subrange(4, 8) =~= le_bytes(2, 4));
            assert(data.subrange(52 + c, 56 + c) =~= le_bytes(1, 4));
            assert(data.subrange(56 + c, 88 + c) =~= key.bytes@);
            assert(data.subrange(88 + c, 92 + c) =~= le_bytes(0, 4));
            assert(data.subrange(92 + c, 100 + c) =~= le_bytes(lamports as nat, 8));
            assert(data.subrange(100 + c, 132 + c) =~= key.bytes@);
        },
        None => {
            assert(data.subrange(4, 8) =~= le_bytes(1, 4));
        },
    }
}

/// What the command has on its way, or has signed, sets up the contract: with the same bytes where
/// it took over signatures, and between the client and the contract's account where it did not.
pub open spec fn carries_contract(
    tx: TransactionView,
    pay: PayCommand,
    client: Keypair,
    contract: Keypair,
    blockhash: Blockhash,
    condition: nat,
) -> bool {
    &&& makes_contract(tx, pay.lamports)
    &&& is_contract(
        data_of(tx, 1),
        condition,
        pay.lamports,
        pay.to,
        may_cancel(pay, client),
    )
    &&& tx.message.recent_blockhash == blockhash
    &&& pay.signers is None ==> makes_contract_in(tx, client, contract)
}

proof fn lemma_contract_goes_on(
    progress: Progress,
    pay: PayCommand,
    client: Keypair,
    contract: Keypair,
    held: TransactionView,
    blockhash: Blockhash,
    fees: FeeCalculator,
    condition: nat,
)
    requires
        match with_signers(held, optional_list(pay.signers)) {
            None => refuses_signers(progress),
            Some(tx) => if pay.sign_only {
                only_signs(progress, tx)
            } else {
                submits_tx(
                    progress,
                    tx,
                    seq![client, contract],
                    client.spec_pubkey(),
                    fees,
                    ErrorDomain::Budget,
                    Receipt::Contract(contract.spec_pubkey()),
                    None,
                )
            },
        },
        held.signatures.len() <= held.message.account_keys.len(),
        makes_contract(held, pay.lamports),
        makes_contract_in(held, client, contract),
        is_contract(data_of(held, 1), condition, pay.lamports, pay.to, may_cancel(pay, client)),
        held.message.recent_blockhash == blockhash,
    ensures
        goes_on_with_contract(progress, pay, client, contract, held, blockhash, fees),
        outgoing(progress) matches Some(tx) ==> carries_contract(
            tx,
            pay,
            client,
            contract,
            blockhash,
            condition,
        ) && tx.message.instructions == held.message.instructions,
{
    if pay.signers is Some {
        lemma_only_its_signatures_are_taken(held, pay.signers->0@);
        if are_its_signatures(held, pay.signers->0@) {
            lemma_replaced(held, pay.signers->0@);
        }
    }
    match with_signers(held, optional_list(pay.signers)) {
        Some(tx) => {
            if pay.sign_only {
                lemma_printed_signers(progress, tx);
            }
        },
        None => {},
    }
}

/// The payment goes on with a contract that waits for its date.
pub open spec fn goes_on_until_date(
    progress: Progress,
    client: Keypair,
    pay: PayCommand,
    contract: Keypair,
    blockhash: Blockhash,
    fees: FeeCalculator,
) -> bool {
    let when = pay.timestamp->0;
    let moment = moment_bytes(when.spec_secs(), when.spec_nanos());
    let by = match pay.timestamp_pubkey {
        Some(key) => key,
        None => client.spec_pubkey(),
    };
    &&& goes_on_with_contract(
        progress,
        pay,
        client,
        contract,
        dated_payment(client, pay, contract, blockhash),
        blockhash,
        fees,
    )
    &&& outgoing(progress) matches Some(tx) ==> {
        &&& carries_contract(tx, pay, client, contract, blockhash, 36 + moment.len())
        &&& waits_for_moment_at(data_of(tx, 1), 8, moment, by)
    }
}

/// The payment goes on with a contract that waits for its witness.
pub open spec fn goes_on_until_signed(
    progress: Progress,
    client: Keypair,
    pay: PayCommand,
    contract: Keypair,
    blockhash: Blockhash,
    fees: FeeCalculator,
) -> bool {
    &&& goes_on_with_contract(
        progress,
        pay,
        client,
        contract,
        witnessed_payment(client, pay, contract, blockhash),
        blockhash,
        fees,
    )
    &&& outgoing(progress) matches Some(tx) ==> {
        &&& carries_contract(tx, pay, client, contract, blockhash, 36)
        &&& waits_for_signature_at(data_of(tx, 1), 8, pay.witnesses->0@[0])
    }
}

proof fn lemma_dated(
    progress: Progress,
    client: Keypair,
    pay: PayCommand,
    contract: Keypair,
    blockhash: Blockhash,
    fees: FeeCalculator,
)
    requires
        pay.timestamp is Some,
        pays_dated(progress, client, pay, contract, blockhash, fees),
    ensures
        goes_on_until_date(progress, client, pay, contract, blockhash, fees),
{
    let when = pay.timestamp->0;
    let moment = moment_bytes(when.spec_secs(), when.spec_nanos());
    let by = match pay.timestamp_pubkey {
        Some(key) => key,
        None => client.spec_pubkey(),
    };
    let held = dated_payment(client, pay, contract, blockhash);
    let condition = dated_bytes(when.spec_secs(), when.spec_nanos(), by);
    lemma_contract(
        held,
        client,
        contract,
        pay.lamports,
        condition,
        pay.to,
        may_cancel(pay, client),
        blockhash,
    );
    lemma_u32_bytes(0);
    let m = moment.len() as int;
    let data = data_of(held, 1);
    let cut = data.subrange(8, 8 + condition.len() as int);
    assert(data.subrange(8, 12) =~= cut.subrange(0, 4));
    assert(condition.subrange(0, 4) =~= le_bytes(0, 4));
    assert(data.subrange(12, 12 + m) =~= cut.subrange(4, 4 + m));
    assert(condition.subrange(4, 4 + m) =~= moment);
    assert(data.subrange(12 + m, 44 + m) =~= cut.subrange(4 + m, 36 + m));
    assert(condition.subrange(4 + m, 36 + m) =~= by.bytes@);
    lemma_contract_goes_on(
        progress,
        pay,
        client,
        contract,
        held,
        blockhash,
        fees,
        condition.len(),
    );
}

proof fn lemma_witnessed(
    progress: Progress,
    client: Keypair,
    pay: PayCommand,
    contract: Keypair,
    blockhash: Blockhash,
    fees: FeeCalculator,
)
    requires
        pay.witnesses is Some,
        pays_witnessed(progress, client, pay, contract, blockhash, fees),
    ensures
        goes_on_until_signed(progress, client, pay, contract, blockhash, fees),
{
    let witness = pay.witnesses->0@[0];
    let held = witnessed_payment(client, pay, contract, blockhash);
    let condition = signed_bytes(witness);
    lemma_u32_bytes(1);
    lemma_contract(
        held,
        client,
        contract,
        pay.lamports,
        condition,
        pay.to,
        may_cancel(pay, client),
        blockhash,
    );
    let data = data_of(held, 1);
    let cut = data.subrange(8, 44);
    assert(data.subrange(8, 12) =~= cut.subrange(0, 4));
    assert(condition.subrange(0, 4) =~= le_bytes(1, 4));
    assert(data.subrange(12, 44) =~= cut.subrange(4, 36));
    assert(condition.subrange(4, 36) =~= witness.bytes@);
    lemma_contract_goes_on(progress, pay, client, contract, held, blockhash, fees, 36);
}

/// A payment held back until a date has its contract in the given account, and pays the lamports to
/// the account that the payment names once the one who has to attests the date: the key that it
/// names, or the client.  The client, and only where the payment is cancelable, may take the
/// lamports back.
pub proof fn lemma_contracts_wait_for_their_date(
    client: Keypair,
    pay: PayCommand,
    when: Timestamp,
    contract: Keypair,
    blockhash: Blockhash,
    fees: FeeCalculator,
    progress: Progress,
)
    requires
        pay.timestamp == Some(when),
        call_ensures(pay_dated, (&client, &pay, &when, &contract, blockhash, fees), progress),
    ensures
        goes_on_until_date(progress, client, pay, contract, blockhash, fees),
{
    lemma_dated(progress, client, pay, contract, blockhash, fees);
}

/// A payment held back until a witness signs has its contract in the given account, and pays the
/// lamports to the account that the payment names once its first witness signs.  The client, and
/// only where the payment is cancelable, may take the lamports back.
pub proof fn lemma_contracts_wait_for_their_witness(
    client: Keypair,
    pay: PayCommand,
    witnesses: Vec<Pubkey>,
    contract: Keypair,
    blockhash: Blockhash,
    fees: FeeCalculator,
    progress: Progress,
)
    requires
        pay.witnesses == Some(witnesses),
        witnesses@.len() > 0,
        call_ensures(
            pay_witnessed,
            (&client, &pay, &witnesses, &contract, blockhash, fees),
            progress,
        ),
    ensures
        goes_on_until_signed(progress, client, pay, contract, blockhash, fees),
{
    lemma_witnessed(progress, client, pay, contract, blockhash, fees);
}

/// A payment held back until a date sets up such a contract in an account of its own.
pub proof fn lemma_dated_payments_wait_for_their_date(
    config: CliConfig,
    pay: PayCommand,
    first: Progress,
    recent: (Blockhash, FeeCalculator),
    progress: Progress,
) -> (contract: Keypair)
    requires
        config.command == CliCommand::Pay(pay),
        pay.timestamp is Some,
        pay.witnesses is None,
        config.keypair.spec_pubkey() != pay.to,
        begins(config, first),
        comes_to_pass(first, recent, progress),
        progress == first ==> pay.blockhash_query is Given,
    ensures
        goes_on_until_date(
            progress,
            config.keypair,
            pay,
            contract,
            at(pay.blockhash_query, recent).0,
            at(pay.blockhash_query, recent).1,
        ),
{
    let client = config.keypair;
    let (blockhash, fees) = at(pay.blockhash_query, recent);
    assert(pays(progress, client, pay, blockhash, fees));
    let contract = choose|contract: Keypair| #[trigger]
        pays_dated(progress, client, pay, contract, blockhash, fees);
    lemma_dated(progress, client, pay, contract, blockhash, fees);
    contract
}

/// A payment held back until a witness signs sets up such a contract in an account of its own.
pub proof fn lemma_witnessed_payments_wait_for_their_witness(
    config: CliConfig,
    pay: PayCommand,
    first: Progress,
    recent: (Blockhash, FeeCalculator),
    progress: Progress,
) -> (contract: Keypair)
    requires
        config.command == CliCommand::Pay(pay),
        pay.timestamp is None,
        pay.witnesses is Some,
        config.keypair.spec_pubkey() != pay.to,
        begins(config, first),
        comes_to_pass(first, recent, progress),
        progress == first ==> pay.blockhash_query is Given,
    ensures
        goes_on_until_signed(
            progress,
            config.keypair,
            pay,
            contract,
            at(pay.blockhash_query, recent).0,
            at(pay.blockhash_query, recent).1,
        ),
{
    let client = config.keypair;
    let (blockhash, fees) = at(pay.blockhash_query, recent);
    assert(pays(progress, client, pay, blockhash, fees));
    let contract = choose|contract: Keypair| #[trigger]
        pays_witnessed(progress, client, pay, contract, blockhash, fees);
    lemma_witnessed(progress, client, pay, contract, blockhash, fees);
    contract
}

/// A payment to the client itself is refused at once.  One that is held back until a date and a
/// signature makes no transaction, and says so.  Any other waits for its blockhash where that is not
/// given.
pub proof fn lemma_payments_that_make_no_transaction(
    config: CliConfig,
    pay: PayCommand,
    first: Progress,
    recent: (Blockhash, FeeCalculator),
    progress: Progress,
)
    requires
        config.command == CliCommand::Pay(pay),
        begins(config, first),
        comes_to_pass(first, recent, progress),
    ensures
        config.keypair.spec_pubkey() == pay.to ==> ends_as_payment_to_oneself(first),
        config.keypair.spec_pubkey() != pay.to ==> (first is Blockhash <==> !(
        pay.blockhash_query is Given)),
        config.keypair.spec_pubkey() != pay.to && pay.timestamp is Some && pay.witnesses is Some
            && !(progress is Blockhash) ==> (progress matches Progress::Done(Ok(text)) && text@
            == "Combo transactions not yet handled"@),
{
    lemma_identical_text();
}

/// Two keys are told to be the same exactly where they are, by the names that they were given.
pub proof fn lemma_identical_keys_are_refused(
    one: (&Pubkey, String),
    other: (&Pubkey, String),
    checked: Result<(), CliError>,
)
    requires
        call_ensures(check_unique_pubkeys, (one, other), checked),
    ensures
        checked is Err <==> *one.0 == *other.0,
        checked matches Err(error) ==> (error matches CliError::BadParameter(text) && text@
            == "Identical pubkeys found: `"@ + one.1@ + "` and `"@ + other.1@
            + "` must be unique"@),
{
}

} // verus!
