//! What became of a transaction, as it is reported.
use crate::errors::{
    log_instruction_custom_error, BudgetError, ClientError, CommandError, ErrorDomain, SystemError,
};
use crate::keys::pubkey_text;
use crate::laws::steps::goes_on_from_sending;
use crate::progress::{Progress, Receipt, SendStep, SendThen};
use crate::signing::object_text;
use vstd::prelude::*;

verus! {

/// What the system program means by a code.
pub open spec fn is_system_code(code: u32, error: SystemError) -> bool {
    match error {
        SystemError::AccountAlreadyInUse => code == 0,
        SystemError::ResultWithNegativeLamports => code == 1,
        SystemError::InvalidProgramId => code == 2,
        SystemError::InvalidAccountDataLength => code == 3,
        SystemError::MaxSeedLengthExceeded => code == 4,
        SystemError::AddressWithSeedMismatch => code == 5,
    }
}

/// A failure is reported by the error that its code stands for in the program that it comes from, or
/// as it is where it has no code or one that stands for none.
pub open spec fn is_report_of(
    reported: CommandError,
    error: ClientError,
    domain: ErrorDomain,
) -> bool {
    match (error.custom_code, domain) {
        (Some(code), ErrorDomain::System) => if code <= 5 {
            reported matches CommandError::System(known) && is_system_code(code, known)
        } else {
            reported == CommandError::Client(error)
        },
        (Some(code), ErrorDomain::Budget) => if code == 0 {
            reported == CommandError::Budget(BudgetError::DestinationMissing)
        } else {
            reported == CommandError::Client(error)
        },
        (None, _) => reported == CommandError::Client(error),
    }
}

/// A transaction that succeeds is known by its signature, and one that fails by its program's error.
pub proof fn lemma_failures_are_told_by_their_codes(
    result: Result<String, ClientError>,
    domain: ErrorDomain,
    told: Result<String, CommandError>,
)
    requires
        call_ensures(log_instruction_custom_error, (result, domain), told),
    ensures
        match result {
            Ok(signature) => told == Ok::<String, CommandError>(signature),
            Err(error) => told matches Err(reported) && is_report_of(reported, error, domain),
        },
{
}

/// A transaction whose outcome is to be reported ends the command: with its signature, or with its
/// signature and the contract that it set up, or with its program's error.
pub proof fn lemma_outcomes_are_reported(
    step: SendStep,
    domain: ErrorDomain,
    receipt: Receipt,
    outcome: Result<String, ClientError>,
    last: Progress,
)
    requires
        step.next == (SendThen::Report { domain, receipt }),
        goes_on_from_sending(step, outcome, last),
    ensures
        match outcome {
            Ok(signature) => last matches Progress::Done(Ok(text)) && text@ == match receipt {
                Receipt::Signature => signature@,
                Receipt::Contract(contract) => object_text(
                    seq![("signature"@, signature@), ("processId"@, pubkey_text(contract))],
                    Seq::empty(),
                ),
            },
            Err(error) => last matches Progress::Done(Err(reported)) && is_report_of(
                reported,
                error,
                domain,
            ),
        },
{
}

/// An airdrop whose transaction fails is reported by the system program's error.
pub proof fn lemma_failed_airdrops_are_reported(
    step: SendStep,
    error: ClientError,
    last: Progress,
)
    requires
        step.next is EndAirdrop,
        goes_on_from_sending(step, Err(error), last),
    ensures
        last matches Progress::Done(Err(reported)) && is_report_of(
            reported,
            error,
            ErrorDomain::System,
        ),
{
}

} // verus!
