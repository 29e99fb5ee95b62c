//! Sending a transaction: the nonce is checked, then the fee, and only then is it sent.
use crate::errors::{
    log_instruction_custom_error, reported, ClientError, CommandError, ErrorDomain,
};
use crate::fees::{check_account_for_fee, fee_check};
use crate::keys::{pubkey_text, Pubkey};
use crate::progress::{
    BalanceStep, BalanceThen, NonceCheck, NonceStep, Progress, Receipt, Resigners, SendStep,
    SendThen, Submission,
};
use crate::signing::{field_texts, list_texts, object_text, show_object};
use vstd::prelude::*;

verus! {

/// The command has come to this text.
pub open spec fn comes_to(progress: Progress, text: Seq<char>) -> bool {
    progress matches Progress::Done(Ok(t)) && t@ == text
}

/// The command has failed with this error.
pub open spec fn fails_with(progress: Progress, error: CommandError) -> bool {
    progress matches Progress::Done(Err(e)) && e == error
}

/// The text that reports a contract.
pub open spec fn contract_json(signature: Seq<char>, contract: Pubkey) -> Seq<char> {
    object_text(
        seq![("signature"@, signature), ("processId"@, pubkey_text(contract))],
        Seq::empty(),
    )
}

/// The text that reports a successful transaction.
pub open spec fn receipt_text(signature: Seq<char>, receipt: Receipt) -> Seq<char> {
    match receipt {
        Receipt::Signature => signature,
        Receipt::Contract(contract) => contract_json(signature, contract),
    }
}

/// The command reports a transaction's outcome.
pub open spec fn reports(
    progress: Progress,
    result: Result<String, ClientError>,
    domain: ErrorDomain,
    receipt: Receipt,
) -> bool {
    match result {
        Ok(signature) => comes_to(progress, receipt_text(signature@, receipt)),
        Err(error) => fails_with(progress, reported(error, domain)),
    }
}

/// The command asks for the balance that the fee is taken from.
pub open spec fn asks_for_fee(progress: Progress, submission: Submission) -> bool {
    &&& progress matches Progress::Balance(step)
    &&& step.pubkey == submission.payer
    &&& step.next matches BalanceThen::Fee(held)
    &&& held == submission
}

/// The command sends the transaction and reports its outcome.
pub open spec fn sends(progress: Progress, submission: Submission) -> bool {
    &&& progress matches Progress::Send(step)
    &&& step.tx == submission.tx
    &&& step.signers == Resigners::Keypairs(submission.signers)
    &&& step.next matches SendThen::Report { domain, receipt }
    &&& domain == submission.domain
    &&& receipt == submission.receipt
}

/// The command has a transaction to send, and asks first whether the nonce is fit for use, where
/// it has one, and for the balance that the fee is taken from, where it has none.
pub open spec fn submits(
    progress: Progress,
    submission: Submission,
    nonce: Option<NonceCheck>,
) -> bool {
    match nonce {
        Some(check) => {
            &&& progress matches Progress::Nonce(step)
            &&& step.check == check
            &&& step.next == submission
        },
        None => asks_for_fee(progress, submission),
    }
}

pub(crate) fn submit<'a>(submission: Submission, nonce: Option<NonceCheck>) -> (r: Progress<'a>)
    ensures
        submits(r, submission, nonce),
{
    match nonce {
        Some(check) => Progress::Nonce(NonceStep { check, next: submission }),
        None => Progress::Balance(
            BalanceStep { pubkey: submission.payer, next: BalanceThen::Fee(submission) },
        ),
    }
}

impl NonceStep {
    /// Goes on with the fee where the nonce is fit for use, and fails where it is not.
    pub fn resume<'a>(self, reply: Result<(), CommandError>) -> (r: Progress<'a>)
        ensures
            match reply {
                Ok(()) => asks_for_fee(r, self.next),
                Err(error) => fails_with(r, error),
            },
    {
        match reply {
            Ok(()) => submit(self.next, None),
            Err(error) => Progress::Done(Err(error)),
        }
    }
}

/// Sends the transaction where the balance covers its fee, and fails where it does not.
pub(crate) fn send_if_covered<'a>(
    submission: Submission,
    balance: Result<Option<u64>, ClientError>,
) -> (r: Progress<'a>)
    ensures
        match fee_check(
            balance,
            submission.fee_calculator,
            seq![submission.tx@.message],
        ) {
            Ok(()) => sends(r, submission),
            Err(error) => fails_with(r, error),
        },
{
    match check_account_for_fee(balance, &submission.fee_calculator, &submission.tx.message) {
        Ok(()) => Progress::Send(
            SendStep {
                tx: submission.tx,
                signers: Resigners::Keypairs(submission.signers),
                next: SendThen::Report { domain: submission.domain, receipt: submission.receipt },
            },
        ),
        Err(error) => Progress::Done(Err(error)),
    }
}

/// Reports a transaction's outcome.
pub(crate) fn report<'a>(
    result: Result<String, ClientError>,
    domain: ErrorDomain,
    receipt: Receipt,
) -> (r: Progress<'a>)
    ensures
        reports(r, result, domain, receipt),
{
    match log_instruction_custom_error(result, domain) {
        Ok(signature) => match receipt {
            Receipt::Signature => Progress::Done(Ok(signature)),
            Receipt::Contract(contract) => {
                let ghost text = signature@;
                let fields: Vec<(&str, String)> = vec![
                    ("signature", signature),
                    ("processId", contract.to_string()),
                ];
                let lists: Vec<(&str, Vec<String>)> = vec![];
                assert(field_texts(fields@) =~= seq![
                    ("signature"@, text),
                    ("processId"@, pubkey_text(contract)),
                ]);
                assert(list_texts(lists@) =~= Seq::empty());
                Progress::Done(Ok(show_object(fields, lists)))
            },
        },
        Err(error) => Progress::Done(Err(error)),
    }
}

} // verus!
