//! Payments, transfers, and what contracts are told.
use crate::authority::{optional_list, SigningAuthority};
use crate::command::{CliConfig, PayCommand};
use crate::compose::{
    contract_tx, dated_payment_ixs, dated_payment_transaction, nonced_paid_transfer_transaction,
    nonced_paid_transfer_tx, nonced_transfer_transaction, nonced_transfer_tx,
    paid_transfer_transaction, paid_transfer_tx, signature_transaction, single_tx,
    timestamp_transaction, transfer_transaction, transfer_tx, witnessed_payment_ixs,
    witnessed_payment_transaction,
};
use crate::errors::{CliError, CommandError, ErrorDomain};
use crate::fees::FeeCalculator;
use crate::handover::{
    alike, lemma_transfer_taken_over, takes_over, transfer_ixs, transfer_keys, with_signers,
};
use crate::instruction::{apply_signature_ix, apply_timestamp_ix, InstructionView};
use crate::keys::{fresh_keypair, Blockhash, Keypair, Pubkey, Signature};
use crate::progress::{
    BalanceThen, BlockhashStep, BlockhashThen, NonceCheck, Progress, Receipt, Submission,
    TransferArgs,
};
use crate::signing::{
    is_refused_signer, replace_signatures, return_signers, signers_json, signers_of,
};
use crate::submit::{comes_to, submit};
use crate::text::joined;
use crate::time::Timestamp;
use crate::transaction::{compiles, delivers, signatures_hold, Transaction, TransactionView};
use vstd::prelude::*;

verus! {

/// The text of the error for two accounts that have to differ.
pub open spec fn identical_text(a: Seq<char>, b: Seq<char>) -> Seq<char> {
    "Identical pubkeys found: `"@ + a + "` and `"@ + b + "` must be unique"@
}

/// Two accounts that have to differ.
pub fn check_unique_pubkeys(pubkey0: (&Pubkey, String), pubkey1: (&Pubkey, String)) -> (r: Result<
    (),
    CliError,
>)
    ensures
        r is Ok <==> *pubkey0.0 != *pubkey1.0,
        r matches Err(error) ==> (error matches CliError::BadParameter(text) && text@
            == identical_text(pubkey0.1@, pubkey1.1@)),
{
    if *pubkey0.0 == *pubkey1.0 {
        let mut text = joined("Identical pubkeys found: `", pubkey0.1.as_str());
        text.append("` and `");
        text.append(pubkey1.1.as_str());
        text.append("` must be unique");
        Err(CliError::BadParameter(text))
    } else {
        Ok(())
    }
}

/// The command fails because the payer is the recipient.
pub open spec fn pays_itself(progress: Progress) -> bool {
    progress matches Progress::Done(Err(CommandError::Cli(CliError::BadParameter(text)))) && text@
        == identical_text("cli keypair"@, "to"@)
}

/// The command fails because of signatures that are not the transaction's.
pub open spec fn refuses_signers(progress: Progress) -> bool {
    progress matches Progress::Done(Err(error)) && is_refused_signer(error)
}

/// The command shows the signers of the transaction and sends nothing.
pub open spec fn only_signs(progress: Progress, tx: TransactionView) -> bool {
    &&& progress matches Progress::Signed(signed, Ok(text))
    &&& signed@ == tx
    &&& text@ == signers_json(tx)
}

/// `submission` is this transaction on its way.
pub open spec fn is_submission(
    submission: Submission,
    tx: TransactionView,
    signers: Seq<Keypair>,
    payer: Pubkey,
    fee_calculator: FeeCalculator,
    domain: ErrorDomain,
    receipt: Receipt,
) -> bool {
    &&& submission.tx@ == tx
    &&& submission.signers@ == signers
    &&& submission.payer == payer
    &&& submission.fee_calculator == fee_calculator
    &&& submission.domain == domain
    &&& submission.receipt == receipt
}

/// The command has this transaction to send, and checks the nonce or the fee first.
pub open spec fn submits_tx(
    progress: Progress,
    tx: TransactionView,
    signers: Seq<Keypair>,
    payer: Pubkey,
    fee_calculator: FeeCalculator,
    domain: ErrorDomain,
    receipt: Receipt,
    nonce: Option<NonceCheck>,
) -> bool {
    match nonce {
        Some(check) => {
            &&& progress matches Progress::Nonce(step)
            &&& step.check == check
            &&& is_submission(step.next, tx, signers, payer, fee_calculator, domain, receipt)
        },
        None => {
            &&& progress matches Progress::Balance(step)
            &&& step.pubkey == payer
            &&& step.next matches BalanceThen::Fee(held)
            &&& is_submission(held, tx, signers, payer, fee_calculator, domain, receipt)
        },
    }
}

fn place_signers(tx: Transaction, signers: &Option<Vec<(Pubkey, Signature)>>) -> (r: Result<
    Transaction,
    CommandError,
>)
    requires
        tx@.message.fits(),
    ensures
        match with_signers(tx@, optional_list(*signers)) {
            Some(view) => r matches Ok(signed) && signed@ == view,
            None => r matches Err(error) && is_refused_signer(error),
        },
{
    let mut tx = tx;
    if let Some(list) = signers {
        match replace_signatures(&mut tx, list) {
            Ok(_) => Ok(tx),
            Err(error) => Err(error),
        }
    } else {
        Ok(tx)
    }
}

fn show_signed<'a>(tx: Transaction) -> (r: Progress<'a>)
    ensures
        only_signs(r, tx@),
{
    let result = return_signers(&tx);
    Progress::Signed(tx, result)
}

// Payments.

/// The authority over the nonce account of a payment: its own, or the client.
pub open spec fn authority_or_client(
    authority: Option<SigningAuthority>,
    client: Keypair,
) -> SigningAuthority {
    match authority {
        Some(authority) => authority,
        None => SigningAuthority::Online(client),
    }
}

/// The transaction of a payment that nothing holds back, by `payer` and `authority`.
pub open spec fn payment_by(
    payer: Keypair,
    authority: Keypair,
    pay: PayCommand,
    blockhash: Blockhash,
) -> TransactionView {
    match pay.nonce_account {
        Some(nonce) => nonced_transfer_tx(
            payer,
            pay.to,
            pay.lamports,
            nonce,
            authority,
            blockhash,
        ),
        None => transfer_tx(payer, pay.to, pay.lamports, blockhash),
    }
}

/// The transaction of a payment that nothing holds back.
pub open spec fn plain_payment(
    client: Keypair,
    pay: PayCommand,
    blockhash: Blockhash,
) -> TransactionView {
    payment_by(
        client,
        authority_or_client(pay.nonce_authority, client).spec_keypair(),
        pay,
        blockhash,
    )
}

/// The instructions of a payment that nothing holds back.
pub open spec fn plain_payment_ixs(client: Keypair, pay: PayCommand) -> Seq<InstructionView> {
    transfer_ixs(
        client.spec_pubkey(),
        authority_or_client(pay.nonce_authority, client).spec_keypair().spec_pubkey(),
        pay.to,
        pay.lamports,
        pay.nonce_account,
    )
}

/// Who is named as the payer of a payment that nothing holds back: the client where it uses up a
/// nonce.  Where it does not, the client comes first as the only signer.
pub open spec fn plain_payment_payer(client: Keypair, pay: PayCommand) -> Option<Pubkey> {
    if pay.nonce_account is Some {
        Some(client.spec_pubkey())
    } else {
        None
    }
}

/// The keys of a payment that nothing holds back, each in its place.
pub open spec fn payment_keys(payer: Keypair, authority: Keypair, pay: PayCommand) -> Seq<Pubkey> {
    transfer_keys(
        payer.spec_pubkey(),
        payer.spec_pubkey(),
        authority.spec_pubkey(),
        pay.to,
        pay.nonce_account,
    )
}

/// The payment takes over the signatures of the same payment by others.
pub open spec fn takes_over_payment(client: Keypair, pay: PayCommand, blockhash: Blockhash) -> bool {
    forall|payer: Keypair, authority: Keypair|
        alike(
            payment_keys(
                client,
                authority_or_client(pay.nonce_authority, client).spec_keypair(),
                pay,
            ),
            payment_keys(payer, authority, pay),
        ) ==> takes_over(
            plain_payment(client, pay, blockhash),
            #[trigger] payment_by(payer, authority, pay, blockhash),
        )
}

/// What the nonce account of a payment has to be.
pub open spec fn nonce_check_of(
    account: Option<Pubkey>,
    authority: Option<SigningAuthority>,
    client: Keypair,
    blockhash: Blockhash,
) -> Option<NonceCheck> {
    match account {
        Some(account) => Some(
            NonceCheck {
                account,
                authority: authority_or_client(authority, client).spec_pubkey(),
                blockhash,
            },
        ),
        None => None,
    }
}

/// Who may cancel a payment that is held back.
pub open spec fn canceler(client: Keypair, pay: PayCommand) -> Option<Pubkey> {
    if pay.cancelable {
        Some(client.spec_pubkey())
    } else {
        None
    }
}

/// A payment that nothing holds back: signed, or submitted.
pub open spec fn pays_plainly(
    progress: Progress,
    client: Keypair,
    pay: PayCommand,
    blockhash: Blockhash,
    fee_calculator: FeeCalculator,
) -> bool {
    &&& delivers(
        plain_payment(client, pay, blockhash),
        plain_payment_ixs(client, pay),
        plain_payment_payer(client, pay),
    )
    &&& takes_over_payment(client, pay, blockhash)
    &&& match with_signers(plain_payment(client, pay, blockhash), optional_list(pay.signers)) {
        None => refuses_signers(progress),
        Some(tx) => if pay.sign_only {
            only_signs(progress, tx)
        } else {
            submits_tx(
                progress,
                tx,
                seq![client],
                client.spec_pubkey(),
                fee_calculator,
                ErrorDomain::System,
                Receipt::Signature,
                nonce_check_of(pay.nonce_account, pay.nonce_authority, client, blockhash),
            )
        },
    }
}

/// The instructions of a payment held back until a moment.
pub open spec fn until_moment_ixs(
    client: Keypair,
    pay: PayCommand,
    contract: Keypair,
) -> Seq<InstructionView> {
    dated_payment_ixs(
        client.spec_pubkey(),
        pay.to,
        contract.spec_pubkey(),
        pay.timestamp->0,
        match pay.timestamp_pubkey {
            Some(pubkey) => pubkey,
            None => client.spec_pubkey(),
        },
        canceler(client, pay),
        pay.lamports,
    )
}

/// The transaction of a payment held back until a moment.
pub open spec fn dated_payment(
    client: Keypair,
    pay: PayCommand,
    contract: Keypair,
    blockhash: Blockhash,
) -> TransactionView {
    contract_tx(client, contract, until_moment_ixs(client, pay, contract), blockhash)
}

/// A payment held back until a moment: signed, or submitted.
pub open spec fn pays_dated(
    progress: Progress,
    client: Keypair,
    pay: PayCommand,
    contract: Keypair,
    blockhash: Blockhash,
    fee_calculator: FeeCalculator,
) -> bool {
    let held = dated_payment(client, pay, contract, blockhash);
    &&& delivers(held, until_moment_ixs(client, pay, contract), None)
    &&& match with_signers(held, optional_list(pay.signers)) {
        None => refuses_signers(progress),
        Some(tx) => if pay.sign_only {
            only_signs(progress, tx)
        } else {
            submits_tx(
                progress,
                tx,
                seq![client, contract],
                client.spec_pubkey(),
                fee_calculator,
                ErrorDomain::Budget,
                Receipt::Contract(contract.spec_pubkey()),
                None,
            )
        },
    }
}

/// The instructions of a payment held back until the first witness signs.
pub open spec fn until_witness_ixs(
    client: Keypair,
    pay: PayCommand,
    contract: Keypair,
) -> Seq<InstructionView> {
    witnessed_payment_ixs(
        client.spec_pubkey(),
        pay.to,
        contract.spec_pubkey(),
        optional_list(pay.witnesses)->0[0],
        canceler(client, pay),
        pay.lamports,
    )
}

/// The transaction of a payment held back until the first witness signs.
pub open spec fn witnessed_payment(
    client: Keypair,
    pay: PayCommand,
    contract: Keypair,
    blockhash: Blockhash,
) -> TransactionView {
    contract_tx(client, contract, until_witness_ixs(client, pay, contract), blockhash)
}

/// A payment held back until a witness signs: signed, or submitted.
pub open spec fn pays_witnessed(
    progress: Progress,
    client: Keypair,
    pay: PayCommand,
    contract: Keypair,
    blockhash: Blockhash,
    fee_calculator: FeeCalculator,
) -> bool {
    let held = witnessed_payment(client, pay, contract, blockhash);
    &&& delivers(held, until_witness_ixs(client, pay, contract), None)
    &&& match with_signers(held, optional_list(pay.signers)) {
        None => refuses_signers(progress),
        Some(tx) => if pay.sign_only {
            only_signs(progress, tx)
        } else {
            submits_tx(
                progress,
                tx,
                seq![client, contract],
                client.spec_pubkey(),
                fee_calculator,
                ErrorDomain::Budget,
                Receipt::Contract(contract.spec_pubkey()),
                None,
            )
        },
    }
}

/// A payment that is held back has its contract in a new account.
pub open spec fn pays(
    progress: Progress,
    client: Keypair,
    pay: PayCommand,
    blockhash: Blockhash,
    fee_calculator: FeeCalculator,
) -> bool {
    match (pay.timestamp, pay.witnesses) {
        (None, None) => pays_plainly(progress, client, pay, blockhash, fee_calculator),
        (Some(_), None) => exists|contract: Keypair| #[trigger]
            pays_dated(progress, client, pay, contract, blockhash, fee_calculator),
        (None, Some(_)) => exists|contract: Keypair| #[trigger]
            pays_witnessed(progress, client, pay, contract, blockhash, fee_calculator),
        (Some(_), Some(_)) => comes_to(progress, "Combo transactions not yet handled"@),
    }
}

/// A payment that names witnesses, and no moment, names at least one.
pub open spec fn names_witness(pay: PayCommand) -> bool {
    pay.timestamp is None && pay.witnesses is Some ==> optional_list(pay.witnesses)->0.len() > 0
}

/// Whether the payment names a witness where it has to.
pub(crate) fn has_witness(pay: &PayCommand) -> (r: bool)
    ensures
        r == names_witness(*pay),
{
    match &pay.witnesses {
        Some(witnesses) => pay.timestamp.is_some() || witnesses.len() > 0,
        None => true,
    }
}

fn keypair_or_client(authority: &Option<SigningAuthority>, client: &Keypair) -> (r: Keypair)
    ensures
        r == authority_or_client(*authority, *client).spec_keypair(),
{
    match authority {
        Some(authority) => *authority.keypair(),
        None => *client,
    }
}

fn pubkey_or_client(authority: &Option<SigningAuthority>, client: &Keypair) -> (r: Pubkey)
    ensures
        r == authority_or_client(*authority, *client).spec_pubkey(),
{
    match authority {
        Some(authority) => authority.pubkey(),
        None => client.pubkey(),
    }
}

fn find_nonce_check(
    account: &Option<Pubkey>,
    authority: &Option<SigningAuthority>,
    client: &Keypair,
    blockhash: Blockhash,
) -> (r: Option<NonceCheck>)
    ensures
        r == nonce_check_of(*account, *authority, *client, blockhash),
{
    match account {
        Some(account) => Some(
            NonceCheck {
                account: *account,
                authority: pubkey_or_client(authority, client),
                blockhash,
            },
        ),
        None => None,
    }
}

fn find_canceler(client: &Keypair, pay: &PayCommand) -> (r: Option<Pubkey>)
    ensures
        r == canceler(*client, *pay),
{
    if pay.cancelable {
        Some(client.pubkey())
    } else {
        None
    }
}

proof fn lemma_takes_over_payment(client: Keypair, pay: PayCommand, blockhash: Blockhash)
    requires
        compiles(plain_payment_ixs(client, pay), plain_payment_payer(client, pay)),
    ensures
        takes_over_payment(client, pay, blockhash),
{
    let held = authority_or_client(pay.nonce_authority, client).spec_keypair();
    assert forall|payer: Keypair, authority: Keypair|
        alike(payment_keys(client, held, pay), payment_keys(payer, authority, pay)) implies takes_over(
        plain_payment(client, pay, blockhash),
        #[trigger] payment_by(payer, authority, pay, blockhash),
    ) by {
        lemma_transfer_taken_over(
            if pay.nonce_account is Some {
                (seq![client, held], seq![payer, authority])
            } else {
                (seq![client], seq![payer])
            },
            pay.nonce_account is Some,
            (client.spec_pubkey(), payer.spec_pubkey()),
            (client.spec_pubkey(), payer.spec_pubkey()),
            (held.spec_pubkey(), authority.spec_pubkey()),
            pay.to,
            pay.lamports,
            pay.nonce_account,
            blockhash,
        );
    }
}

fn pay_plainly<'a>(
    client: &Keypair,
    pay: &PayCommand,
    blockhash: Blockhash,
    fee_calculator: FeeCalculator,
) -> (r: Progress<'a>)
    ensures
        pays_plainly(r, *client, *pay, blockhash, fee_calculator),
{
    let tx = match &pay.nonce_account {
        Some(nonce) => nonced_transfer_transaction(
            client,
            &pay.to,
            pay.lamports,
            nonce,
            &keypair_or_client(&pay.nonce_authority, client),
            blockhash,
        ),
        None => transfer_transaction(client, &pay.to, pay.lamports, blockhash),
    };
    assert(tx@ == plain_payment(*client, *pay, blockhash));
    proof {
        lemma_takes_over_payment(*client, *pay, blockhash);
    }
    let tx = match place_signers(tx, &pay.signers) {
        Ok(tx) => tx,
        Err(error) => {
            return Progress::Done(Err(error));
        },
    };
    if pay.sign_only {
        return show_signed(tx);
    }
    let signers: Vec<Keypair> = vec![*client];
    assert(signers@ =~= seq![*client]);
    let nonce = find_nonce_check(&pay.nonce_account, &pay.nonce_authority, client, blockhash);
    submit(
        Submission {
            tx,
            signers,
            payer: client.pubkey(),
            fee_calculator,
            domain: ErrorDomain::System,
            receipt: Receipt::Signature,
        },
        nonce,
    )
}

/// A payment held back until a moment, with its contract in the account of `contract`.
pub fn pay_dated<'a>(
    client: &Keypair,
    pay: &PayCommand,
    when: &Timestamp,
    contract: &Keypair,
    blockhash: Blockhash,
    fee_calculator: FeeCalculator,
) -> (r: Progress<'a>)
    requires
        pay.timestamp == Some(*when),
    ensures
        pays_dated(r, *client, *pay, *contract, blockhash, fee_calculator),
{
    let by = match &pay.timestamp_pubkey {
        Some(pubkey) => *pubkey,
        None => client.pubkey(),
    };
    let back = find_canceler(client, pay);
    let tx = dated_payment_transaction(
        client,
        &pay.to,
        contract,
        when,
        &by,
        &back,
        pay.lamports,
        blockhash,
    );
    assert(tx@ == dated_payment(*client, *pay, *contract, blockhash));
    let tx = match place_signers(tx, &pay.signers) {
        Ok(tx) => tx,
        Err(error) => {
            return Progress::Done(Err(error));
        },
    };
    if pay.sign_only {
        return show_signed(tx);
    }
    let signers: Vec<Keypair> = vec![*client, *contract];
    assert(signers@ =~= seq![*client, *contract]);
    submit(
        Submission {
            tx,
            signers,
            payer: client.pubkey(),
            fee_calculator,
            domain: ErrorDomain::Budget,
            receipt: Receipt::Contract(contract.pubkey()),
        },
        None,
    )
}

/// A payment held back until the first witness signs, with its contract in the account of
/// `contract`.
pub fn pay_witnessed<'a>(
    client: &Keypair,
    pay: &PayCommand,
    witnesses: &Vec<Pubkey>,
    contract: &Keypair,
    blockhash: Blockhash,
    fee_calculator: FeeCalculator,
) -> (r: Progress<'a>)
    requires
        pay.witnesses == Some(*witnesses),
        witnesses@.len() > 0,
    ensures
        pays_witnessed(r, *client, *pay, *contract, blockhash, fee_calculator),
{
    let back = find_canceler(client, pay);
    let tx = witnessed_payment_transaction(
        client,
        &pay.to,
        contract,
        &witnesses[0],
        &back,
        pay.lamports,
        blockhash,
    );
    assert(tx@ == witnessed_payment(*client, *pay, *contract, blockhash));
    let tx = match place_signers(tx, &pay.signers) {
        Ok(tx) => tx,
        Err(error) => {
            return Progress::Done(Err(error));
        },
    };
    if pay.sign_only {
        return show_signed(tx);
    }
    let signers: Vec<Keypair> = vec![*client, *contract];
    assert(signers@ =~= seq![*client, *contract]);
    submit(
        Submission {
            tx,
            signers,
            payer: client.pubkey(),
            fee_calculator,
            domain: ErrorDomain::Budget,
            receipt: Receipt::Contract(contract.pubkey()),
        },
        None,
    )
}

/// A payment, once its blockhash and fees are known.
pub(crate) fn pay_at<'a>(
    client: &Keypair,
    pay: &PayCommand,
    blockhash: Blockhash,
    fee_calculator: FeeCalculator,
) -> (r: Progress<'a>)
    requires
        names_witness(*pay),
    ensures
        pays(r, *client, *pay, blockhash, fee_calculator),
{
    match (&pay.timestamp, &pay.witnesses) {
        (None, None) => pay_plainly(client, pay, blockhash, fee_calculator),
        (Some(when), None) => {
            let contract = fresh_keypair();
            pay_dated(client, pay, when, &contract, blockhash, fee_calculator)
        },
        (None, Some(witnesses)) => {
            let contract = fresh_keypair();
            pay_witnessed(client, pay, witnesses, &contract, blockhash, fee_calculator)
        },
        (Some(_), Some(_)) => Progress::Done(Ok("Combo transactions not yet handled".to_owned())),
    }
}

/// A payment starts: not to the payer itself, and with the blockhash and fees that are given or
/// asked for.
pub open spec fn starts_pay(progress: Progress, config: CliConfig, pay: PayCommand) -> bool {
    if config.keypair.spec_pubkey() == pay.to {
        pays_itself(progress)
    } else {
        match pay.blockhash_query.known() {
            Some((blockhash, fee_calculator)) => pays(
                progress,
                config.keypair,
                pay,
                blockhash,
                fee_calculator,
            ),
            None => {
                &&& progress matches Progress::Blockhash(step)
                &&& step.next matches BlockhashThen::Pay { client, pay: held }
                &&& *client == config.keypair
                &&& *held == pay
            },
        }
    }
}

/// A payment.
pub(crate) fn process_pay<'a>(config: &'a CliConfig, pay: &'a PayCommand) -> (r: Progress<'a>)
    requires
        config.keypair.spec_pubkey() != pay.to ==> names_witness(*pay),
    ensures
        starts_pay(r, *config, *pay),
{
    match check_unique_pubkeys(
        (&config.keypair.pubkey(), "cli keypair".to_owned()),
        (&pay.to, "to".to_owned()),
    ) {
        Ok(()) => {},
        Err(error) => {
            return Progress::Done(Err(CommandError::Cli(error)));
        },
    }
    match pay.blockhash_query.given() {
        Some((blockhash, fee_calculator)) => pay_at(
            &config.keypair,
            pay,
            blockhash,
            fee_calculator,
        ),
        None => Progress::Blockhash(
            BlockhashStep { next: BlockhashThen::Pay { client: &config.keypair, pay } },
        ),
    }
}

// Transfers.

/// The transaction of a transfer by `fee_payer`, `from` and `authority`.
pub open spec fn transfer_by(
    fee_payer: Keypair,
    from: Keypair,
    authority: Keypair,
    args: TransferArgs,
    blockhash: Blockhash,
) -> TransactionView {
    match *args.nonce_account {
        Some(nonce) => nonced_paid_transfer_tx(
            fee_payer,
            from,
            *args.to,
            args.lamports,
            nonce,
            authority,
            blockhash,
        ),
        None => paid_transfer_tx(fee_payer, from, *args.to, args.lamports, blockhash),
    }
}

/// The transaction of a transfer.
pub open spec fn transfer_of(
    client: Keypair,
    args: TransferArgs,
    blockhash: Blockhash,
) -> TransactionView {
    transfer_by(
        authority_or_client(*args.fee_payer, client).spec_keypair(),
        authority_or_client(*args.from, client).spec_keypair(),
        authority_or_client(*args.nonce_authority, client).spec_keypair(),
        args,
        blockhash,
    )
}

/// The instructions of a transfer.
pub open spec fn ixs_of_transfer(client: Keypair, args: TransferArgs) -> Seq<InstructionView> {
    transfer_ixs(
        authority_or_client(*args.from, client).spec_keypair().spec_pubkey(),
        authority_or_client(*args.nonce_authority, client).spec_keypair().spec_pubkey(),
        *args.to,
        args.lamports,
        *args.nonce_account,
    )
}

/// The keys of a transfer by `fee_payer`, `from` and `authority`, each in its place.
pub open spec fn keys_of_transfer(
    fee_payer: Keypair,
    from: Keypair,
    authority: Keypair,
    args: TransferArgs,
) -> Seq<Pubkey> {
    transfer_keys(
        fee_payer.spec_pubkey(),
        from.spec_pubkey(),
        authority.spec_pubkey(),
        *args.to,
        *args.nonce_account,
    )
}

/// The transfer takes over the signatures of the same transfer by others.
pub open spec fn takes_over_transfer(
    client: Keypair,
    args: TransferArgs,
    blockhash: Blockhash,
) -> bool {
    forall|fee_payer: Keypair, from: Keypair, authority: Keypair|
        alike(
            keys_of_transfer(
                authority_or_client(*args.fee_payer, client).spec_keypair(),
                authority_or_client(*args.from, client).spec_keypair(),
                authority_or_client(*args.nonce_authority, client).spec_keypair(),
                args,
            ),
            keys_of_transfer(fee_payer, from, authority, args),
        ) ==> takes_over(
            transfer_of(client, args, blockhash),
            #[trigger] transfer_by(fee_payer, from, authority, args, blockhash),
        )
}

/// A transfer: signed, or submitted at the cost of the transaction's first account.
pub open spec fn transfers(
    progress: Progress,
    client: Keypair,
    args: TransferArgs,
    blockhash: Blockhash,
    fee_calculator: FeeCalculator,
) -> bool {
    &&& delivers(
        transfer_of(client, args, blockhash),
        ixs_of_transfer(client, args),
        Some(authority_or_client(*args.fee_payer, client).spec_keypair().spec_pubkey()),
    )
    &&& takes_over_transfer(client, args, blockhash)
    &&& match with_signers(transfer_of(client, args, blockhash), optional_list(*args.signers)) {
        None => refuses_signers(progress),
        Some(tx) => if args.sign_only {
            only_signs(progress, tx)
        } else {
            submits_tx(
                progress,
                tx,
                seq![client],
                tx.message.account_keys[0],
                fee_calculator,
                ErrorDomain::System,
                Receipt::Signature,
                nonce_check_of(*args.nonce_account, *args.nonce_authority, client, blockhash),
            )
        },
    }
}

proof fn lemma_takes_over_transfer(client: Keypair, args: TransferArgs, blockhash: Blockhash)
    requires
        compiles(
            ixs_of_transfer(client, args),
            Some(authority_or_client(*args.fee_payer, client).spec_keypair().spec_pubkey()),
        ),
    ensures
        takes_over_transfer(client, args, blockhash),
{
    let payer = authority_or_client(*args.fee_payer, client).spec_keypair();
    let source = authority_or_client(*args.from, client).spec_keypair();
    let held = authority_or_client(*args.nonce_authority, client).spec_keypair();
    assert forall|fee_payer: Keypair, from: Keypair, authority: Keypair|
        alike(
            keys_of_transfer(payer, source, held, args),
            keys_of_transfer(fee_payer, from, authority, args),
        ) implies takes_over(
        transfer_of(client, args, blockhash),
        #[trigger] transfer_by(fee_payer, from, authority, args, blockhash),
    ) by {
        lemma_transfer_taken_over(
            if args.nonce_account is Some {
                (seq![payer, source, held], seq![fee_payer, from, authority])
            } else {
                (seq![payer, source], seq![fee_payer, from])
            },
            true,
            (payer.spec_pubkey(), fee_payer.spec_pubkey()),
            (source.spec_pubkey(), from.spec_pubkey()),
            (held.spec_pubkey(), authority.spec_pubkey()),
            *args.to,
            args.lamports,
            *args.nonce_account,
            blockhash,
        );
    }
}

/// A transfer, once its blockhash and fees are known.
pub(crate) fn transfer_at<'a>(
    client: &Keypair,
    args: &TransferArgs,
    blockhash: Blockhash,
    fee_calculator: FeeCalculator,
) -> (r: Progress<'a>)
    ensures
        transfers(r, *client, *args, blockhash, fee_calculator),
{
    let fee_payer = keypair_or_client(args.fee_payer, client);
    let from = keypair_or_client(args.from, client);
    let tx = match args.nonce_account {
        Some(nonce) => nonced_paid_transfer_transaction(
            &fee_payer,
            &from,
            args.to,
            args.lamports,
            nonce,
            &keypair_or_client(args.nonce_authority, client),
            blockhash,
        ),
        None => paid_transfer_transaction(&fee_payer, &from, args.to, args.lamports, blockhash),
    };
    assert(tx@ == transfer_of(*client, *args, blockhash));
    proof {
        assert(tx@.message.signing_keys().contains(fee_payer.spec_pubkey()));
        lemma_takes_over_transfer(*client, *args, blockhash);
    }
    let tx = match place_signers(tx, args.signers) {
        Ok(tx) => tx,
        Err(error) => {
            return Progress::Done(Err(error));
        },
    };
    if args.sign_only {
        return show_signed(tx);
    }
    let signers: Vec<Keypair> = vec![*client];
    assert(signers@ =~= seq![*client]);
    let nonce = find_nonce_check(args.nonce_account, args.nonce_authority, client, blockhash);
    let payer: Pubkey = tx.message.account_keys[0];
    submit(
        Submission {
            tx,
            signers,
            payer,
            fee_calculator,
            domain: ErrorDomain::System,
            receipt: Receipt::Signature,
        },
        nonce,
    )
}

/// A transfer starts: not to the account that it comes from, and with the blockhash and fees that
/// are given or asked for.
pub open spec fn starts_transfer(progress: Progress, config: CliConfig, args: TransferArgs) -> bool {
    if authority_or_client(*args.from, config.keypair).spec_pubkey() == *args.to {
        pays_itself(progress)
    } else {
        match args.blockhash_query.known() {
            Some((blockhash, fee_calculator)) => transfers(
                progress,
                config.keypair,
                args,
                blockhash,
                fee_calculator,
            ),
            None => {
                &&& progress matches Progress::Blockhash(step)
                &&& step.next matches BlockhashThen::Transfer { client, args: held }
                &&& *client == config.keypair
                &&& held == args
            },
        }
    }
}

/// A transfer.
pub(crate) fn process_transfer<'a>(config: &'a CliConfig, args: TransferArgs<'a>) -> (r: Progress<'a>)
    ensures
        starts_transfer(r, *config, args),
{
    match check_unique_pubkeys(
        (&pubkey_or_client(args.from, &config.keypair), "cli keypair".to_owned()),
        (args.to, "to".to_owned()),
    ) {
        Ok(()) => {},
        Err(error) => {
            return Progress::Done(Err(CommandError::Cli(error)));
        },
    }
    match args.blockhash_query.given() {
        Some((blockhash, fee_calculator)) => transfer_at(
            &config.keypair,
            &args,
            blockhash,
            fee_calculator,
        ),
        None => Progress::Blockhash(
            BlockhashStep { next: BlockhashThen::Transfer { client: &config.keypair, args } },
        ),
    }
}

/// A payment that is only signed sends nothing and asks for nothing: it ends with the signatures,
/// or with why there are none.
pub proof fn lemma_signing_a_payment_sends_nothing(
    progress: Progress,
    client: Keypair,
    pay: PayCommand,
    blockhash: Blockhash,
    fee_calculator: FeeCalculator,
)
    requires
        pay.sign_only,
        pays(progress, client, pay, blockhash, fee_calculator),
    ensures
        progress is Signed || progress is Done,
{
}

/// A transfer that is only signed sends nothing and asks for nothing: it ends with the signatures,
/// or with why there are none.
pub proof fn lemma_signing_a_transfer_sends_nothing(
    progress: Progress,
    client: Keypair,
    args: TransferArgs,
    blockhash: Blockhash,
    fee_calculator: FeeCalculator,
)
    requires
        args.sign_only,
        transfers(progress, client, args, blockhash, fee_calculator),
    ensures
        progress is Signed || progress is Done,
{
}

/// A transaction that takes signatures made elsewhere goes on only where each of them is its own,
/// and then holds these signatures and no others.
pub proof fn lemma_accepted_signatures_hold(
    tx: TransactionView,
    signers: Seq<(Pubkey, Signature)>,
)
    requires
        with_signers(tx, Some(signers)) is Some,
    ensures
        ({
            let signed = with_signers(tx, Some(signers))->0;
            &&& signatures_hold(signed.signatures, signed.message)
            &&& signed.signatures == signers.map_values(|s: (Pubkey, Signature)| s.1)
            &&& signed.message.signing_keys() == signers.map_values(|s: (Pubkey, Signature)| s.0)
            &&& signed.message.recent_blockhash == tx.message.recent_blockhash
            &&& signed.message.instructions == tx.message.instructions
        }),
{
    let signed = with_signers(tx, Some(signers))->0;
    assert(signed.message.signing_keys() =~= signers.map_values(|s: (Pubkey, Signature)| s.0));
}

/// A payment signed on one machine goes on from another: where the signatures are those of the same
/// payment by `payer` and `authority`, and they hold, it is their transaction that is submitted.
/// The keys on both machines have to be alike, which they are unless a placeholder happens to be
/// some other key of the payment.
pub proof fn lemma_payments_signed_elsewhere_go_on(
    progress: Progress,
    client: Keypair,
    pay: PayCommand,
    blockhash: Blockhash,
    fee_calculator: FeeCalculator,
    payer: Keypair,
    authority: Keypair,
)
    requires
        pays(progress, client, pay, blockhash, fee_calculator),
        pay.timestamp is None,
        pay.witnesses is None,
        !pay.sign_only,
        optional_list(pay.signers) == Some(
            signers_of(payment_by(payer, authority, pay, blockhash)),
        ),
        signatures_hold(
            payment_by(payer, authority, pay, blockhash).signatures,
            payment_by(payer, authority, pay, blockhash).message,
        ),
        alike(
            payment_keys(
                client,
                authority_or_client(pay.nonce_authority, client).spec_keypair(),
                pay,
            ),
            payment_keys(payer, authority, pay),
        ),
    ensures
        submits_tx(
            progress,
            payment_by(payer, authority, pay, blockhash),
            seq![client],
            client.spec_pubkey(),
            fee_calculator,
            ErrorDomain::System,
            Receipt::Signature,
            nonce_check_of(pay.nonce_account, pay.nonce_authority, client, blockhash),
        ),
{
    assert(takes_over(
        plain_payment(client, pay, blockhash),
        payment_by(payer, authority, pay, blockhash),
    ));
}

/// A transfer signed on one machine goes on from another: where the signatures are those of the
/// same transfer by `fee_payer`, `from` and `authority`, and they hold, it is their transaction that
/// is submitted.  The keys on both machines have to be alike, which they are unless a placeholder
/// happens to be some other key of the transfer.
pub proof fn lemma_transfers_signed_elsewhere_go_on(
    progress: Progress,
    client: Keypair,
    args: TransferArgs,
    blockhash: Blockhash,
    fee_calculator: FeeCalculator,
    fee_payer: Keypair,
    from: Keypair,
    authority: Keypair,
)
    requires
        transfers(progress, client, args, blockhash, fee_calculator),
        !args.sign_only,
        optional_list(*args.signers) == Some(
            signers_of(transfer_by(fee_payer, from, authority, args, blockhash)),
        ),
        signatures_hold(
            transfer_by(fee_payer, from, authority, args, blockhash).signatures,
            transfer_by(fee_payer, from, authority, args, blockhash).message,
        ),
        alike(
            keys_of_transfer(
                authority_or_client(*args.fee_payer, client).spec_keypair(),
                authority_or_client(*args.from, client).spec_keypair(),
                authority_or_client(*args.nonce_authority, client).spec_keypair(),
                args,
            ),
            keys_of_transfer(fee_payer, from, authority, args),
        ),
    ensures
        submits_tx(
            progress,
            transfer_by(fee_payer, from, authority, args, blockhash),
            seq![client],
            transfer_by(fee_payer, from, authority, args, blockhash).message.account_keys[0],
            fee_calculator,
            ErrorDomain::System,
            Receipt::Signature,
            nonce_check_of(*args.nonce_account, *args.nonce_authority, client, blockhash),
        ),
{
    assert(takes_over(
        transfer_of(client, args, blockhash),
        transfer_by(fee_payer, from, authority, args, blockhash),
    ));
}

/// A transfer that takes no signatures made elsewhere is charged to its fee payer, or to the client
/// where it has none.
pub proof fn lemma_transfers_are_charged_to_their_fee_payer(
    progress: Progress,
    client: Keypair,
    args: TransferArgs,
    blockhash: Blockhash,
    fee_calculator: FeeCalculator,
)
    requires
        transfers(progress, client, args, blockhash, fee_calculator),
        *args.signers is None,
        !args.sign_only,
    ensures
        submits_tx(
            progress,
            transfer_of(client, args, blockhash),
            seq![client],
            authority_or_client(*args.fee_payer, client).spec_keypair().spec_pubkey(),
            fee_calculator,
            ErrorDomain::System,
            Receipt::Signature,
            nonce_check_of(*args.nonce_account, *args.nonce_authority, client, blockhash),
        ),
{
}

/// Neither a payment nor a transfer is sent before its nonce or its fee has been asked for.
pub proof fn lemma_payments_are_checked_first(
    progress: Progress,
    client: Keypair,
    pay: PayCommand,
    args: TransferArgs,
    blockhash: Blockhash,
    fee_calculator: FeeCalculator,
)
    requires
        ({
            ||| pays(progress, client, pay, blockhash, fee_calculator)
            ||| transfers(progress, client, args, blockhash, fee_calculator)
        }),
    ensures
        !(progress is Send),
{
}

// What contracts are told.

/// The command tells a contract something in the client's name, with one instruction.
pub open spec fn tells_contract(
    progress: Progress,
    client: Keypair,
    ix: InstructionView,
    blockhash: Blockhash,
    fee_calculator: FeeCalculator,
) -> bool {
    &&& delivers(single_tx(client, ix, blockhash), seq![ix], None)
    &&& submits_tx(
        progress,
        single_tx(client, ix, blockhash),
        seq![client],
        client.spec_pubkey(),
        fee_calculator,
        ErrorDomain::Budget,
        Receipt::Signature,
        None,
    )
}

fn tell_contract<'a>(
    client: &Keypair,
    tx: Transaction,
    fee_calculator: FeeCalculator,
) -> (r: Progress<'a>)
    ensures
        submits_tx(
            r,
            tx@,
            seq![*client],
            client.spec_pubkey(),
            fee_calculator,
            ErrorDomain::Budget,
            Receipt::Signature,
            None,
        ),
{
    let signers: Vec<Keypair> = vec![*client];
    assert(signers@ =~= seq![*client]);
    submit(
        Submission {
            tx,
            signers,
            payer: client.pubkey(),
            fee_calculator,
            domain: ErrorDomain::Budget,
            receipt: Receipt::Signature,
        },
        None,
    )
}

/// Tells the contract that the client signs, on the way to `to`.  The client's own key there
/// cancels the payment.
pub(crate) fn witness_at<'a>(
    client: &Keypair,
    to: &Pubkey,
    process_id: &Pubkey,
    blockhash: Blockhash,
    fee_calculator: FeeCalculator,
) -> (r: Progress<'a>)
    ensures
        tells_contract(
            r,
            *client,
            apply_signature_ix(client.spec_pubkey(), *process_id, *to),
            blockhash,
            fee_calculator,
        ),
{
    let tx = signature_transaction(client, process_id, to, blockhash);
    tell_contract(client, tx, fee_calculator)
}

/// Tells the contract that the moment has come.
pub(crate) fn time_elapsed_at<'a>(
    client: &Keypair,
    to: &Pubkey,
    process_id: &Pubkey,
    when: &Timestamp,
    blockhash: Blockhash,
    fee_calculator: FeeCalculator,
) -> (r: Progress<'a>)
    ensures
        tells_contract(
            r,
            *client,
            apply_timestamp_ix(
                client.spec_pubkey(),
                *process_id,
                *to,
                when.spec_secs(),
                when.spec_nanos(),
            ),
            blockhash,
            fee_calculator,
        ),
{
    let tx = timestamp_transaction(client, process_id, to, when, blockhash);
    tell_contract(client, tx, fee_calculator)
}

} // verus!
