//! What commands send.
use crate::command::{CliCommand, CliConfig};
use crate::fees::FeeCalculator;
use crate::keys::Blockhash;
use crate::laws::bytes::is_signed;
use crate::laws::steps::{begins, follows, goes_on_from_blockhash, is_run};
use crate::laws::transfers::{
    comes_to_pass, is_handed_over_transfer, is_plain_transfer, lemma_transfers_move_what_they_name,
    outgoing, pair_of,
};
use crate::progress::Progress;
use vstd::prelude::*;

verus! {

/// The command makes one transaction.
pub open spec fn makes_one_transaction(command: CliCommand) -> bool {
    command is Transfer || command is Pay || command is Cancel || command is Witness
        || command is TimeElapsed
}

/// The command has a transaction that was signed and waits, is sent, or is only shown.
pub open spec fn is_on_its_way(progress: Progress) -> bool {
    match progress {
        Progress::Signed(..) | Progress::Nonce(_) => true,
        Progress::Balance(step) => step.next is Fee,
        Progress::Send(step) => step.next is Report,
        _ => false,
    }
}

/// The transaction is the one that the command made at the start, or at a recent blockhash.
pub open spec fn is_the_one_made(first: Progress, progress: Progress) -> bool {
    exists|recent: (Blockhash, FeeCalculator), made: Progress| #[trigger]
        comes_to_pass(first, recent, made) && outgoing(made) == outgoing(progress)
}

/// A command that makes one transaction sends that one as it was made, and no other.
pub proof fn lemma_only_what_was_made_is_sent(config: CliConfig, steps: Seq<Progress>, i: int)
    requires
        is_run(config, steps),
        0 <= i < steps.len(),
        makes_one_transaction(config.command),
    ensures
        steps[i] is Done || (steps[i] is Blockhash && steps[i] == steps[0]) || is_on_its_way(
            steps[i],
        ),
        is_on_its_way(steps[i]) ==> outgoing(steps[i]) is Some && is_the_one_made(
            steps[0],
            steps[i],
        ),
    decreases i,
{
    let first = steps[0];
    let recent = arbitrary::<(Blockhash, FeeCalculator)>();
    if i == 0 {
        assert(begins(config, first));
        assert(comes_to_pass(first, recent, first));
    } else {
        lemma_only_what_was_made_is_sent(config, steps, i - 1);
        let before = steps[i - 1];
        let after = steps[i];
        assert(follows(before, after));
        if before is Blockhash {
            if !(after is Done) {
                let recent = choose|recent: (Blockhash, FeeCalculator)| #[trigger]
                    goes_on_from_blockhash(before->Blockhash_0, recent, after);
                assert(begins(config, first));
                assert(comes_to_pass(first, recent, after));
            }
        } else if is_on_its_way(before) && !(after is Done) {
            let (recent, made) = choose|recent: (Blockhash, FeeCalculator), made: Progress|
                #[trigger]
                comes_to_pass(first, recent, made) && outgoing(made) == outgoing(before);
            assert(outgoing(after) == outgoing(before));
            assert(comes_to_pass(first, recent, made));
        }
    }
}

/// Whatever a transfer sends or shows the signatures of, at any time, moves the lamports that the
/// command names to the account that it names.
pub proof fn lemma_sent_transfers_move_what_they_name(
    config: CliConfig,
    steps: Seq<Progress>,
    i: int,
)
    requires
        is_run(config, steps),
        0 <= i < steps.len(),
        config.command is Transfer,
        is_on_its_way(steps[i]),
    ensures
        outgoing(steps[i]) matches Some(tx) && config.command matches CliCommand::Transfer {
            lamports,
            to,
            from,
            signers,
            nonce_account,
            nonce_authority,
            fee_payer,
            ..
        } && {
            let client = config.keypair;
            match signers {
                None => {
                    &&& is_plain_transfer(
                        tx,
                        lamports,
                        pair_of(from, client).spec_pubkey(),
                        to,
                        nonce_account,
                        pair_of(nonce_authority, client).spec_pubkey(),
                    )
                    &&& tx.message.account_keys[0] == pair_of(fee_payer, client).spec_pubkey()
                    &&& is_signed(
                        tx,
                        seq![
                            pair_of(fee_payer, client),
                            pair_of(from, client),
                            pair_of(nonce_authority, client),
                        ],
                    )
                },
                Some(list) => is_handed_over_transfer(tx, list@, lamports, to, nonce_account),
            }
        },
{
    lemma_only_what_was_made_is_sent(config, steps, i);
    let tx = outgoing(steps[i])->0;
    let (recent, made) = choose|recent: (Blockhash, FeeCalculator), made: Progress| #[trigger]
        comes_to_pass(steps[0], recent, made) && outgoing(made) == outgoing(steps[i]);
    lemma_transfers_move_what_they_name(config, steps[0], recent, made, tx);
}

/// Where a deployment may stand.
pub open spec fn is_of_deployment(progress: Progress) -> bool {
    match progress {
        Progress::ReadFile(_)
        | Progress::Rent(_)
        | Progress::SendAll(_)
        | Progress::Done(_) => true,
        Progress::Blockhash(step) => step.next is Deploy,
        Progress::Balance(step) => step.next is DeployFees,
        Progress::Send(step) => step.next is WriteProgram || step.next is EndDeployment,
        _ => false,
    }
}

/// A deployment goes through its own steps alone.
pub proof fn lemma_deployments_keep_to_their_steps(
    config: CliConfig,
    steps: Seq<Progress>,
    i: int,
)
    requires
        is_run(config, steps),
        0 <= i < steps.len(),
        config.command is Deploy,
    ensures
        is_of_deployment(steps[i]),
    decreases i,
{
    if i > 0 {
        lemma_deployments_keep_to_their_steps(config, steps, i - 1);
        assert(follows(steps[i - 1], steps[i]));
    } else {
        assert(begins(config, steps[0]));
    }
}

} // verus!
