//! Transfers and payments that nothing holds back.
use crate::authority::{optional_list, SigningAuthority};
use crate::command::{CliCommand, CliConfig};
use crate::errors::{CliError, CommandError, ErrorDomain};
use crate::fees::{BlockhashQuery, FeeCalculator};
use crate::handover::{transfer_ixs, with_signers};
use crate::instruction::{
    advance_nonce_ix, le_bytes, recent_blockhashes_sysvar_id, transfer_ix, InstructionView,
};
use crate::keys::{
    blockhash_text, pubkey_text, signature_text, Blockhash, Keypair, Pubkey, Signature,
};
use crate::laws::bytes::{
    account_count, account_of, data_of, is_signed, is_signed_at, is_system_program, le_value,
    lemma_delivered, lemma_replaced, lemma_u32_bytes, lemma_u64_bytes, moves, program_of,
};
use crate::laws::steps::{begins, goes_on_from_blockhash};
use crate::pay::{identical_text, only_signs, transfer_of, transfers};
use crate::progress::{BalanceThen, NonceCheck, Progress, Receipt, Submission, TransferArgs};
use crate::signing::{object_text, replaced, signer_texts};
use crate::transaction::{
    delivers, holds_key, is_signed_by, message_signature, must_sign, signatures_hold,
    signed_instructions, stands_for, MessageView, TransactionView,
};
use vstd::prelude::*;

verus! {

/// The transaction that a command has signed, or is about to send.
pub open spec fn outgoing(progress: Progress) -> Option<TransactionView> {
    match progress {
        Progress::Signed(tx, _) => Some(tx@),
        Progress::Nonce(step) => Some(step.next.tx@),
        Progress::Balance(step) => match step.next {
            BalanceThen::Fee(held) => Some(held.tx@),
            _ => None,
        },
        Progress::Send(step) => Some(step.tx@),
        _ => None,
    }
}

/// What a command has on its way.
pub open spec fn submission(progress: Progress) -> Option<Submission> {
    match progress {
        Progress::Nonce(step) => Some(step.next),
        Progress::Balance(step) => match step.next {
            BalanceThen::Fee(held) => Some(held),
            _ => None,
        },
        _ => None,
    }
}

/// The command, which started with `first`, has come to `progress`: at once, or once the cluster
/// told it of a recent blockhash.
pub open spec fn comes_to_pass(
    first: Progress,
    recent: (Blockhash, FeeCalculator),
    progress: Progress,
) -> bool {
    ||| progress == first
    ||| first matches Progress::Blockhash(step) && goes_on_from_blockhash(step, recent, progress)
}

/// The blockhash and fees of a command.
pub open spec fn at(
    query: BlockhashQuery,
    recent: (Blockhash, FeeCalculator),
) -> (Blockhash, FeeCalculator) {
    match query {
        BlockhashQuery::Given(hash, fees) => (hash, fees),
        BlockhashQuery::FeeCalculator(hash) => (hash, recent.1),
        BlockhashQuery::All => recent,
    }
}

/// The key pair that signs for an authority here: its own, or the client's where there is none.
pub open spec fn pair_of(authority: Option<SigningAuthority>, client: Keypair) -> Keypair {
    match authority {
        Some(SigningAuthority::Online(pair)) => pair,
        Some(SigningAuthority::Offline(_, pair)) => pair,
        None => client,
    }
}

/// Whose signature an authority stands for.
pub open spec fn owner_of(authority: Option<SigningAuthority>, client: Keypair) -> Pubkey {
    match authority {
        Some(SigningAuthority::Online(pair)) => pair.spec_pubkey(),
        Some(SigningAuthority::Offline(key, _)) => key,
        None => client.spec_pubkey(),
    }
}

/// The first instruction uses up the nonce in `nonce`, by the leave of `authority`.
pub open spec fn advances(tx: TransactionView, nonce: Pubkey, authority: Pubkey) -> bool {
    &&& data_of(tx, 0).len() == 4
    &&& le_value(data_of(tx, 0)) == 4
    &&& is_system_program(program_of(tx, 0))
    &&& account_count(tx, 0) >= 2
    &&& account_of(tx, 0, 0) == nonce
    &&& exists|j: int|
        0 <= j < account_count(tx, 0) && #[trigger] account_of(tx, 0, j) == authority
}

/// The transaction moves `lamports` from `source` to `to` and does nothing else, but that it uses
/// up a nonce where there is one.
pub open spec fn is_plain_transfer(
    tx: TransactionView,
    lamports: u64,
    source: Pubkey,
    to: Pubkey,
    nonce: Option<Pubkey>,
    authority: Pubkey,
) -> bool {
    let last = tx.message.instructions.len() - 1;
    &&& tx.message.instructions.len() == if nonce is Some { 2int } else { 1 }
    &&& moves(tx, last, lamports)
    &&& is_system_program(program_of(tx, last))
    &&& account_of(tx, last, 0) == source
    &&& account_of(tx, last, 1) == to
    &&& nonce matches Some(nonce) ==> advances(tx, nonce, authority)
}

/// Where signatures were handed over, the transaction runs the same instructions: the amount is
/// the same, and so is every account that does not sign.
pub open spec fn is_handed_over_transfer(
    tx: TransactionView,
    signers: Seq<(Pubkey, Signature)>,
    lamports: u64,
    to: Pubkey,
    nonce: Option<Pubkey>,
) -> bool {
    let last = tx.message.instructions.len() - 1;
    &&& tx.message.instructions.len() == if nonce is Some { 2int } else { 1 }
    &&& moves(tx, last, lamports)
    &&& tx.message.instructions[last].accounts[1] as int >= signers.len() ==> account_of(
        tx,
        last,
        1,
    ) == to
    &&& tx.signatures == signers.map_values(|s: (Pubkey, Signature)| s.1)
    &&& tx.message.num_required_signatures == signers.len()
    &&& forall|i: int|
        0 <= i < signers.len() ==> #[trigger] tx.message.account_keys[i] == signers[i].0
    &&& signatures_hold(tx.signatures, tx.message)
}

/// The parts of a transfer's bytes.
pub(crate) proof fn lemma_transfer_bytes(lamports: u64)
    ensures
        ({
            let data = transfer_ix(
                arbitrary(),
                arbitrary(),
                lamports,
            ).data;
            &&& data.len() == 12
            &&& le_value(data.subrange(0, 4)) == 2
            &&& le_value(data.subrange(4, 12)) == lamports
        }),
{
    lemma_u32_bytes(2);
    lemma_u64_bytes(lamports);
    let data = transfer_ix(arbitrary(), arbitrary(), lamports).data;
    assert(data.subrange(0, 4) =~= le_bytes(2, 4));
    assert(data.subrange(4, 12) =~= le_bytes(lamports as nat, 8));
}

/// What a transaction that moves lamports holds.
pub(crate) proof fn lemma_plain_transfer(
    tx: TransactionView,
    pairs: Seq<Keypair>,
    from: Pubkey,
    authority: Pubkey,
    to: Pubkey,
    lamports: u64,
    nonce: Option<Pubkey>,
    payer: Option<Pubkey>,
    blockhash: Blockhash,
)
    requires
        tx == signed_instructions(
            pairs,
            transfer_ixs(from, authority, to, lamports, nonce),
            payer,
            blockhash,
        ),
        delivers(tx, transfer_ixs(from, authority, to, lamports, nonce), payer),
        holds_key(pairs, from),
        nonce is Some ==> holds_key(pairs, authority),
        payer matches Some(key) ==> holds_key(pairs, key),
    ensures
        is_plain_transfer(tx, lamports, from, to, nonce, authority),
        is_signed(tx, pairs),
        tx.message.recent_blockhash == blockhash,
        payer matches Some(key) ==> tx.message.account_keys[0] == key,
{
    let ixs = transfer_ixs(from, authority, to, lamports, nonce);
    assert forall|key: Pubkey| #[trigger] must_sign(ixs, payer, key) implies holds_key(
        pairs,
        key,
    ) by {
        if payer != Some(key) {
            let i = choose|i: int| 0 <= i < ixs.len() && is_signed_by(#[trigger] ixs[i], key);
            let j = choose|j: int|
                0 <= j < ixs[i].accounts.len() && (#[trigger] ixs[i].accounts[j]).is_signer
                    && ixs[i].accounts[j].pubkey == key;
            assert(key == from || (nonce is Some && key == authority));
        }
    }
    lemma_delivered(tx, pairs, ixs, payer, blockhash);
    lemma_transfer_bytes(lamports);
    let last = ixs.len() - 1;
    assert(ixs[last] == transfer_ix(from, to, lamports));
    assert(account_of(tx, last, 0) == ixs[last].accounts[0].pubkey);
    assert(account_of(tx, last, 1) == ixs[last].accounts[1].pubkey);
    if nonce is Some {
        lemma_u32_bytes(4);
        assert(ixs[0] == advance_nonce_ix(nonce->0, authority));
        assert(account_of(tx, 0, 0) == ixs[0].accounts[0].pubkey);
        let k: int = if authority == nonce->0 {
            0
        } else if authority == recent_blockhashes_sysvar_id() {
            1
        } else {
            2
        };
        assert(account_of(tx, 0, k) == ixs[0].accounts[k].pubkey);
        assert(account_of(tx, 0, k) == authority);
    }
}

pub(crate) proof fn lemma_handed_over(
    held: TransactionView,
    signers: Seq<(Pubkey, Signature)>,
    lamports: u64,
    from: Pubkey,
    to: Pubkey,
    nonce: Option<Pubkey>,
    authority: Pubkey,
)
    requires
        with_signers(held, Some(signers)) is Some,
        is_plain_transfer(held, lamports, from, to, nonce, authority),
        carries_somewhere(held),
    ensures
        is_handed_over_transfer(with_signers(held, Some(signers))->0, signers, lamports, to, nonce),
        with_signers(held, Some(signers))->0.message.recent_blockhash
            == held.message.recent_blockhash,
{
    lemma_replaced(held, signers);
}

/// The accounts of the instructions are keys of the message.
pub open spec fn carries_somewhere(tx: TransactionView) -> bool {
    forall|i: int, j: int|
        0 <= i < tx.message.instructions.len() && 0 <= j < account_count(tx, i)
            ==> (#[trigger] tx.message.instructions[i].accounts[j]) < tx.message.account_keys.len()
}

pub(crate) proof fn lemma_carries_somewhere(
    tx: TransactionView,
    ixs: Seq<InstructionView>,
    payer: Option<Pubkey>,
)
    requires
        delivers(tx, ixs, payer),
    ensures
        carries_somewhere(tx),
{
    assert forall|i: int, j: int|
        0 <= i < tx.message.instructions.len() && 0 <= j < account_count(tx, i) implies (
    #[trigger] tx.message.instructions[i].accounts[j]) < tx.message.account_keys.len() by {
        assert(stands_for(tx.message.instructions[i], tx.message.account_keys, ixs[i]));
    }
}

/// A transfer moves the lamports that the command names to the account that it names, and nothing
/// else, whoever signs it.  Without signatures made elsewhere they come from the source that the
/// command names, or the client, and the fee from its fee payer, or the client; these and the
/// nonce authority sign, each with its own key pair, at the blockhash that was asked for.
pub proof fn lemma_transfers_move_what_they_name(
    config: CliConfig,
    first: Progress,
    recent: (Blockhash, FeeCalculator),
    progress: Progress,
    tx: TransactionView,
)
    requires
        begins(config, first),
        comes_to_pass(first, recent, progress),
        config.command is Transfer,
        outgoing(progress) == Some(tx),
    ensures
        config.command matches CliCommand::Transfer {
            lamports,
            to,
            from,
            signers,
            blockhash_query,
            nonce_account,
            nonce_authority,
            fee_payer,
            ..
        } && {
            let client = config.keypair;
            let source = pair_of(from, client);
            let payer = pair_of(fee_payer, client);
            let authority = pair_of(nonce_authority, client);
            &&& tx.message.recent_blockhash == at(blockhash_query, recent).0
            &&& match signers {
                None => {
                    &&& is_plain_transfer(
                        tx,
                        lamports,
                        source.spec_pubkey(),
                        to,
                        nonce_account,
                        authority.spec_pubkey(),
                    )
                    &&& tx.message.account_keys[0] == payer.spec_pubkey()
                    &&& is_signed(tx, seq![payer, source, authority])
                },
                Some(list) => is_handed_over_transfer(tx, list@, lamports, to, nonce_account),
            }
        },
{
    match config.command {
        CliCommand::Transfer {
            lamports,
            to,
            from,
            sign_only,
            signers,
            blockhash_query,
            nonce_account,
            nonce_authority,
            fee_payer,
        } => {
            let args = TransferArgs {
                lamports,
                to: &to,
                from: &from,
                sign_only,
                signers: &signers,
                blockhash_query: &blockhash_query,
                nonce_account: &nonce_account,
                nonce_authority: &nonce_authority,
                fee_payer: &fee_payer,
            };
            let client = config.keypair;
            let (blockhash, fees) = at(blockhash_query, recent);
            assert(transfers(progress, client, args, blockhash, fees));
            let source = pair_of(from, client);
            let payer = pair_of(fee_payer, client);
            let authority = pair_of(nonce_authority, client);
            let held = transfer_of(client, args, blockhash);
            let pairs = if nonce_account is Some {
                seq![payer, source, authority]
            } else {
                seq![payer, source]
            };
            assert(pairs[0] == payer && pairs[1] == source);
            if nonce_account is Some {
                assert(pairs[2] == authority);
            }
            let ixs = transfer_ixs(
                source.spec_pubkey(),
                authority.spec_pubkey(),
                to,
                lamports,
                nonce_account,
            );
            lemma_plain_transfer(
                held,
                pairs,
                source.spec_pubkey(),
                authority.spec_pubkey(),
                to,
                lamports,
                nonce_account,
                Some(payer.spec_pubkey()),
                blockhash,
            );
            lemma_carries_somewhere(held, ixs, Some(payer.spec_pubkey()));
            match signers {
                Some(list) => {
                    lemma_handed_over(
                        held,
                        list@,
                        lamports,
                        source.spec_pubkey(),
                        to,
                        nonce_account,
                        authority.spec_pubkey(),
                    );
                },
                None => {
                    lemma_more_pairs(held, pairs, seq![payer, source, authority]);
                },
            }
        },
        _ => {},
    }
}

/// The command is about to ask for the nonce, where there is one to check, or for the balance that
/// the fee is taken from, and will then send the transaction.
pub open spec fn waits_to_send(
    progress: Progress,
    payer: Pubkey,
    fees: FeeCalculator,
    domain: ErrorDomain,
    receipt: Receipt,
    resigners: Seq<Keypair>,
    nonce: Option<NonceCheck>,
) -> bool {
    &&& submission(progress) matches Some(held)
    &&& held.payer == payer
    &&& held.fee_calculator == fees
    &&& held.domain == domain
    &&& held.receipt == receipt
    &&& held.signers@ == resigners
    &&& match nonce {
        Some(check) => progress matches Progress::Nonce(step) && step.check == check,
        None => progress matches Progress::Balance(step) && step.pubkey == payer,
    }
}

/// There is one signature for each that the transaction needs, and each is one of the transaction
/// with these signers in it.
pub open spec fn are_its_signatures(
    tx: TransactionView,
    signers: Seq<(Pubkey, Signature)>,
) -> bool {
    &&& signers.len() == tx.message.num_required_signatures
    &&& tx.signatures.len() == signers.len()
    &&& tx.message.account_keys.len() >= signers.len()
    &&& signatures_hold(
        signers.map_values(|s: (Pubkey, Signature)| s.1),
        MessageView {
            account_keys: signers.map_values(|s: (Pubkey, Signature)| s.0)
                + tx.message.account_keys.skip(signers.len() as int),
            ..tx.message
        },
    )
}

/// Signatures made elsewhere are taken exactly where they are the transaction's, and then stand in
/// it together with their keys.
pub proof fn lemma_only_its_signatures_are_taken(
    tx: TransactionView,
    signers: Seq<(Pubkey, Signature)>,
)
    ensures
        with_signers(tx, Some(signers)) is Some <==> are_its_signatures(tx, signers),
        with_signers(tx, None) == Some(tx),
        are_its_signatures(tx, signers) ==> with_signers(tx, Some(signers)) == Some(
            TransactionView {
                signatures: signers.map_values(|s: (Pubkey, Signature)| s.1),
                message: MessageView {
                    account_keys: signers.map_values(|s: (Pubkey, Signature)| s.0)
                        + tx.message.account_keys.skip(signers.len() as int),
                    ..tx.message
                },
            },
        ),
{
    if tx.message.account_keys.len() >= signers.len() {
        assert(replaced(tx, signers).message.account_keys =~= signers.map_values(
            |s: (Pubkey, Signature)| s.0,
        ) + tx.message.account_keys.skip(signers.len() as int));
    }
}

/// The command ends with the transaction's signatures, and sends nothing.
pub open spec fn ends_with_signatures(progress: Progress, blockhash: Blockhash) -> bool {
    &&& progress matches Progress::Signed(tx, Ok(text))
    &&& tx@.signatures.len() <= tx@.message.account_keys.len()
    &&& text@ == object_text(
        seq![("blockhash"@, blockhash_text(blockhash))],
        seq![
            (
                "signers"@,
                Seq::new(
                    tx@.signatures.len(),
                    |i: int|
                        pubkey_text(tx@.message.account_keys[i]) + "="@ + signature_text(
                            tx@.signatures[i],
                        ),
                ),
            ),
        ],
    )
}

/// The command ends because it has been given signatures that are not the transaction's.
pub open spec fn ends_without_signatures(progress: Progress) -> bool {
    &&& progress matches Progress::Done(Err(CommandError::Cli(CliError::BadParameter(text))))
    &&& text@
        == "Transaction construction failed, incorrect signature or public key provided"@
}

/// The command ends because the payer is the recipient.
pub open spec fn ends_as_payment_to_oneself(progress: Progress) -> bool {
    &&& progress matches Progress::Done(Err(CommandError::Cli(CliError::BadParameter(text))))
    &&& text@ == "Identical pubkeys found: `cli keypair` and `to` must be unique"@
}

pub(crate) proof fn lemma_identical_text()
    ensures
        identical_text("cli keypair"@, "to"@)
            == "Identical pubkeys found: `cli keypair` and `to` must be unique"@,
{
    reveal_strlit("Identical pubkeys found: `");
    reveal_strlit("cli keypair");
    reveal_strlit("` and `");
    reveal_strlit("to");
    reveal_strlit("` must be unique");
    reveal_strlit("Identical pubkeys found: `cli keypair` and `to` must be unique");
    assert(identical_text("cli keypair"@, "to"@)
        =~= "Identical pubkeys found: `cli keypair` and `to` must be unique"@);
}

pub(crate) proof fn lemma_printed_signers(progress: Progress, tx: TransactionView)
    requires
        only_signs(progress, tx),
        tx.signatures.len() <= tx.message.account_keys.len(),
    ensures
        ends_with_signatures(progress, tx.message.recent_blockhash),
{
    let wanted = Seq::new(
        tx.signatures.len(),
        |i: int|
            pubkey_text(tx.message.account_keys[i]) + "="@ + signature_text(tx.signatures[i]),
    );
    assert(signer_texts(tx) =~= wanted);
}

/// A transfer to its own source is refused at once.  Any other is, once its blockhash is known,
/// only signed where that was asked for, or else waits for its nonce to be checked and for the
/// balance of the first account, which is the fee payer's.  It ends before that only over
/// signatures made elsewhere.
pub proof fn lemma_transfers_are_signed_or_wait(
    config: CliConfig,
    first: Progress,
    recent: (Blockhash, FeeCalculator),
    progress: Progress,
)
    requires
        begins(config, first),
        comes_to_pass(first, recent, progress),
        config.command is Transfer,
    ensures
        config.command matches CliCommand::Transfer {
            lamports,
            to,
            from,
            sign_only,
            signers,
            blockhash_query,
            nonce_account,
            nonce_authority,
            fee_payer,
        } && {
            let client = config.keypair;
            let (blockhash, fees) = at(blockhash_query, recent);
            if owner_of(from, client) == to {
                ends_as_payment_to_oneself(first)
            } else if !(blockhash_query is Given) && progress == first {
                progress is Blockhash
            } else if signers is Some && !are_its_signatures(
                transfer_of(
                    client,
                    TransferArgs {
                        lamports,
                        to: &to,
                        from: &from,
                        sign_only,
                        signers: &signers,
                        blockhash_query: &blockhash_query,
                        nonce_account: &nonce_account,
                        nonce_authority: &nonce_authority,
                        fee_payer: &fee_payer,
                    },
                    blockhash,
                ),
                signers->0@,
            ) {
                ends_without_signatures(progress)
            } else if sign_only {
                ends_with_signatures(progress, blockhash)
            } else {
                &&& outgoing(progress) matches Some(tx)
                &&& waits_to_send(
                    progress,
                    tx.message.account_keys[0],
                    fees,
                    ErrorDomain::System,
                    Receipt::Signature,
                    seq![client],
                    match nonce_account {
                        Some(account) => Some(
                            NonceCheck {
                                account,
                                authority: owner_of(nonce_authority, client),
                                blockhash,
                            },
                        ),
                        None => None,
                    },
                )
            }
        },
{
    lemma_identical_text();
    match config.command {
        CliCommand::Transfer {
            lamports,
            to,
            from,
            sign_only,
            signers,
            blockhash_query,
            nonce_account,
            nonce_authority,
            fee_payer,
        } => {
            let args = TransferArgs {
                lamports,
                to: &to,
                from: &from,
                sign_only,
                signers: &signers,
                blockhash_query: &blockhash_query,
                nonce_account: &nonce_account,
                nonce_authority: &nonce_authority,
                fee_payer: &fee_payer,
            };
            let (blockhash, fees) = at(blockhash_query, recent);
            if owner_of(from, config.keypair) != to && !(!(blockhash_query is Given) && progress
                == first) {
                assert(transfers(progress, config.keypair, args, blockhash, fees));
                let held = transfer_of(config.keypair, args, blockhash);
                if signers is Some {
                    lemma_only_its_signatures_are_taken(held, signers->0@);
                }
                match with_signers(held, optional_list(signers)) {
                    Some(tx) => {
                        if sign_only {
                            lemma_printed_signers(progress, tx);
                        }
                    },
                    None => {},
                }
            }
        },
        _ => {},
    }
}

/// Who is signed by some key pairs is signed by more of them.
pub(crate) proof fn lemma_more_pairs(tx: TransactionView, few: Seq<Keypair>, many: Seq<Keypair>)
    requires
        is_signed(tx, few),
        few.len() <= many.len(),
        forall|k: int| 0 <= k < few.len() ==> #[trigger] few[k] == many[k],
    ensures
        is_signed(tx, many),
{
    assert forall|i: int| 0 <= i < tx.signatures.len() implies is_signed_at(
        tx,
        many,
        #[trigger] tx.message.account_keys[i],
        i,
    ) by {
        let key = tx.message.account_keys[i];
        assert(is_signed_at(tx, few, key, i));
        let k = choose|k: int|
            0 <= k < few.len() && (#[trigger] few[k]).spec_pubkey() == key && tx.signatures[i]
                == message_signature(few[k].secret@, tx.message);
        assert(many[k].spec_pubkey() == key);
    }
}

} // verus!
