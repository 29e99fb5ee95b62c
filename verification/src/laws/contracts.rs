//! What contracts are told: that they are cancelled, that someone signs, that a moment has come.
use crate::command::{CliCommand, CliConfig};
use crate::errors::ErrorDomain;
use crate::fees::FeeCalculator;
use crate::instruction::{
    apply_signature_ix, apply_timestamp_ix, budget_program_id, le_bytes, moment_bytes,
    InstructionView,
};
use crate::keys::{Blockhash, Keypair, Pubkey};
use crate::laws::bytes::{
    account_count, account_of, data_of, is_signed, le_value, lemma_delivered, lemma_u32_bytes,
    program_of,
};
use crate::laws::steps::{begins, goes_on_from_blockhash};
use crate::laws::transfers::{outgoing, waits_to_send};
use crate::progress::{Progress, Receipt};
use crate::transaction::{
    delivers, holds_key, is_signed_by, must_sign, signed_instructions, TransactionView,
};
use vstd::prelude::*;

verus! {

/// The transaction tells `contract` one thing, in the name of `client`, and that it is about the
/// account `to`.
pub open spec fn tells(
    tx: TransactionView,
    client: Keypair,
    contract: Pubkey,
    to: Pubkey,
    blockhash: Blockhash,
) -> bool {
    &&& tx.message.instructions.len() == 1
    &&& tx.message.recent_blockhash == blockhash
    &&& program_of(tx, 0) == budget_program_id()
    &&& account_of(tx, 0, 0) == client.spec_pubkey()
    &&& account_of(tx, 0, 1) == contract
    &&& if to == client.spec_pubkey() {
        account_count(tx, 0) == 2
    } else {
        account_count(tx, 0) == 3 && account_of(tx, 0, 2) == to
    }
    &&& is_signed(tx, seq![client])
}

/// The command waits for the client's balance and will then send the transaction.
pub open spec fn waits_to_tell(progress: Progress, client: Keypair, fees: FeeCalculator) -> bool {
    waits_to_send(
        progress,
        client.spec_pubkey(),
        fees,
        ErrorDomain::Budget,
        Receipt::Signature,
        seq![client],
        None,
    )
}

proof fn lemma_tells(
    tx: TransactionView,
    ix: InstructionView,
    client: Keypair,
    contract: Pubkey,
    to: Pubkey,
    blockhash: Blockhash,
)
    requires
        tx == signed_instructions(seq![client], seq![ix], None, blockhash),
        delivers(tx, seq![ix], None),
        ix.program_id == budget_program_id(),
        ix.accounts == apply_signature_ix(client.spec_pubkey(), contract, to).accounts,
    ensures
        tells(tx, client, contract, to, blockhash),
        data_of(tx, 0) == ix.data,
{
    let ixs = seq![ix];
    let pairs = seq![client];
    assert(pairs[0] == client);
    assert forall|key: Pubkey| #[trigger] must_sign(ixs, None, key) implies holds_key(
        pairs,
        key,
    ) by {
        let i = choose|i: int| 0 <= i < ixs.len() && is_signed_by(#[trigger] ixs[i], key);
        let j = choose|j: int|
            0 <= j < ixs[i].accounts.len() && (#[trigger] ixs[i].accounts[j]).is_signer
                && ixs[i].accounts[j].pubkey == key;
        assert(key == pairs[0].spec_pubkey());
    }
    lemma_delivered(tx, pairs, ixs, None, blockhash);
    assert(ixs[0] == ix);
    assert(account_of(tx, 0, 0) == ix.accounts[0].pubkey);
    assert(account_of(tx, 0, 1) == ix.accounts[1].pubkey);
    if to != client.spec_pubkey() {
        assert(account_of(tx, 0, 2) == ix.accounts[2].pubkey);
    }
}

/// Cancelling tells the contract that the client signs, for the client itself.  Telling it of a
/// signature names the recipient.  Either asks for a recent blockhash first, and then for the
/// client's balance.
pub proof fn lemma_signatures_reach_their_contract(
    config: CliConfig,
    first: Progress,
    recent: (Blockhash, FeeCalculator),
    progress: Progress,
)
    requires
        config.command is Cancel || config.command is Witness,
        begins(config, first),
        first is Blockhash ==> goes_on_from_blockhash(first->Blockhash_0, recent, progress),
    ensures
        first is Blockhash,
        waits_to_tell(progress, config.keypair, recent.1),
        outgoing(progress) matches Some(tx) && {
            let client = config.keypair;
            &&& data_of(tx, 0).len() == 4
            &&& le_value(data_of(tx, 0)) == 2
            &&& match config.command {
                CliCommand::Cancel(contract) => tells(
                    tx,
                    client,
                    contract,
                    client.spec_pubkey(),
                    recent.0,
                ),
                CliCommand::Witness(to, contract) => tells(tx, client, contract, to, recent.0),
                _ => false,
            }
        },
{
    let client = config.keypair;
    lemma_u32_bytes(2);
    let (to, contract) = match config.command {
        CliCommand::Cancel(contract) => (client.spec_pubkey(), contract),
        CliCommand::Witness(to, contract) => (to, contract),
        _ => arbitrary(),
    };
    let ix = apply_signature_ix(client.spec_pubkey(), contract, to);
    let tx = signed_instructions(seq![client], seq![ix], None, recent.0);
    assert(outgoing(progress) == Some(tx));
    lemma_tells(tx, ix, client, contract, to, recent.0);
}

/// Telling a contract of a moment names the recipient and the moment.
pub proof fn lemma_moments_reach_their_contract(
    config: CliConfig,
    first: Progress,
    recent: (Blockhash, FeeCalculator),
    progress: Progress,
)
    requires
        config.command is TimeElapsed,
        begins(config, first),
        first is Blockhash ==> goes_on_from_blockhash(first->Blockhash_0, recent, progress),
    ensures
        first is Blockhash,
        waits_to_tell(progress, config.keypair, recent.1),
        outgoing(progress) matches Some(tx) && config.command matches CliCommand::TimeElapsed(
            to,
            contract,
            when,
        ) && {
            let data = data_of(tx, 0);
            &&& tells(tx, config.keypair, contract, to, recent.0)
            &&& data.len() >= 4
            &&& le_value(data.subrange(0, 4)) == 1
            &&& data.skip(4) == moment_bytes(when.spec_secs(), when.spec_nanos())
        },
{
    let client = config.keypair;
    lemma_u32_bytes(1);
    match config.command {
        CliCommand::TimeElapsed(to, contract, when) => {
            let ix = apply_timestamp_ix(
                client.spec_pubkey(),
                contract,
                to,
                when.spec_secs(),
                when.spec_nanos(),
            );
            let tx = signed_instructions(seq![client], seq![ix], None, recent.0);
            assert(outgoing(progress) == Some(tx));
            lemma_tells(tx, ix, client, contract, to, recent.0);
            let data = data_of(tx, 0);
            assert(data.subrange(0, 4) =~= le_bytes(1, 4));
            assert(data.skip(4) =~= moment_bytes(when.spec_secs(), when.spec_nanos()));
        },
        _ => {},
    }
}

} // verus!
