//! What can go wrong, and how a failed transaction is reported.
use solana_sdk::program_utils::DecodeError;
use solana_sdk::system_instruction::SystemError as SdkSystemError;
use vstd::prelude::*;

verus! {

/// What is wrong with a nonce account.
#[derive(Clone, Copy, Debug, PartialEq, Eq)]
pub enum CliNonceError {
    InvalidAccountOwner,
    InvalidAccountData,
    InvalidHash,
    InvalidAuthority,
    InvalidState,
}

/// The command line's own errors.
#[derive(Clone, Debug, PartialEq, Eq)]
pub enum CliError {
    BadParameter(String),
    CommandNotRecognized(String),
    InsufficientFundsForFee,
    InvalidNonce(CliNonceError),
    DynamicProgramError(String),
    RpcRequestError(String),
    KeypairFileNotFound(String),
}

/// What the system program reports of a failed instruction.
#[derive(Clone, Copy, Debug, PartialEq, Eq)]
pub enum SystemError {
    AccountAlreadyInUse,
    ResultWithNegativeLamports,
    InvalidProgramId,
    InvalidAccountDataLength,
    MaxSeedLengthExceeded,
    AddressWithSeedMismatch,
}

/// What the budget program reports of a failed instruction.
#[derive(Clone, Copy, Debug, PartialEq, Eq)]
pub enum BudgetError {
    DestinationMissing,
}

/// Why a request to the cluster failed.
#[derive(Clone, Debug, PartialEq, Eq)]
pub struct ClientError {
    /// The code that a program reported, where the failure is a transaction whose instruction
    /// failed with one.
    pub custom_code: Option<u32>,
    /// The failure in full.
    pub debug: String,
}

/// Why a command failed.
#[derive(Clone, Debug, PartialEq, Eq)]
pub enum CommandError {
    Cli(CliError),
    System(SystemError),
    Budget(BudgetError),
    Client(ClientError),
    /// A failure of the file system, the faucet, the wallet or a parser, in its own words.
    Other(String),
}

/// What a command comes to: the text to print, or why it failed.
pub type ProcessResult = Result<String, CommandError>;

/// The program whose codes a failed transaction reports.
#[derive(Clone, Copy, Debug, PartialEq, Eq)]
pub enum ErrorDomain {
    System,
    Budget,
}

impl CliError {
    /// The text of every error of this kind.
    pub fn to_string(&self) -> (r: String)
        ensures
            r@ == "invalid"@,
    {
        "invalid".to_owned()
    }

    /// The text of every error of this kind.
    pub fn description(&self) -> (r: &'static str)
        ensures
            r@ == "invalid"@,
    {
        "invalid"
    }
}

/// The error of the system program with this code.
pub open spec fn system_error(code: u32) -> Option<SystemError> {
    if code == 0 {
        Some(SystemError::AccountAlreadyInUse)
    } else if code == 1 {
        Some(SystemError::ResultWithNegativeLamports)
    } else if code == 2 {
        Some(SystemError::InvalidProgramId)
    } else if code == 3 {
        Some(SystemError::InvalidAccountDataLength)
    } else if code == 4 {
        Some(SystemError::MaxSeedLengthExceeded)
    } else if code == 5 {
        Some(SystemError::AddressWithSeedMismatch)
    } else {
        None
    }
}

/// The error of the budget program with this code.
pub open spec fn budget_error(code: u32) -> Option<BudgetError> {
    if code == 0 {
        Some(BudgetError::DestinationMissing)
    } else {
        None
    }
}

/// `solana_sdk::system_instruction::SystemError`'s `decode_custom_error_to_enum`.  Claimed: the
/// codes count the errors in the order in which they are declared, and no other code is one.
#[verifier::external_body]
fn decode_system_error(code: u32) -> (r: Option<SystemError>)
    ensures
        r == system_error(code),
{
    let error: SdkSystemError = <SdkSystemError as DecodeError<_>>::decode_custom_error_to_enum(code)?;
    Some(match error {
        SdkSystemError::AccountAlreadyInUse => SystemError::AccountAlreadyInUse,
        SdkSystemError::ResultWithNegativeLamports => SystemError::ResultWithNegativeLamports,
        SdkSystemError::InvalidProgramId => SystemError::InvalidProgramId,
        SdkSystemError::InvalidAccountDataLength => SystemError::InvalidAccountDataLength,
        SdkSystemError::MaxSeedLengthExceeded => SystemError::MaxSeedLengthExceeded,
        SdkSystemError::AddressWithSeedMismatch => SystemError::AddressWithSeedMismatch,
    })
}

/// `solana_budget_program::budget_instruction::BudgetError`'s `decode_custom_error_to_enum`.
/// Claimed: its one error has the code zero.
#[verifier::external_body]
fn decode_budget_error(code: u32) -> (r: Option<BudgetError>)
    ensures
        r == budget_error(code),
{
    let error = <solana_budget_program::budget_instruction::BudgetError as DecodeError<
        solana_budget_program::budget_instruction::BudgetError,
    >>::decode_custom_error_to_enum(code)?;
    Some(match error {
        solana_budget_program::budget_instruction::BudgetError::DestinationMissing =>
            BudgetError::DestinationMissing,
    })
}

/// What a failed transaction is reported as: the error that its code stands for in the domain,
/// or the failure itself where it has no code or the code stands for none.
pub open spec fn reported(error: ClientError, domain: ErrorDomain) -> CommandError {
    match (error.custom_code, domain) {
        (Some(code), ErrorDomain::System) if system_error(code) is Some => CommandError::System(
            system_error(code)->0,
        ),
        (Some(code), ErrorDomain::Budget) if budget_error(code) is Some => CommandError::Budget(
            budget_error(code)->0,
        ),
        _ => CommandError::Client(error),
    }
}

/// The result of a transaction, its failure told apart by the codes of one program.
pub fn log_instruction_custom_error(
    result: Result<String, ClientError>,
    domain: ErrorDomain,
) -> (r: ProcessResult)
    ensures
        r == match result {
            Ok(signature) => Ok::<String, CommandError>(signature),
            Err(error) => Err(reported(error, domain)),
        },
{
    match result {
        Err(error) => {
            if let Some(code) = error.custom_code {
                match domain {
                    ErrorDomain::System => {
                        if let Some(specific) = decode_system_error(code) {
                            return Err(CommandError::System(specific));
                        }
                    },
                    ErrorDomain::Budget => {
                        if let Some(specific) = decode_budget_error(code) {
                            return Err(CommandError::Budget(specific));
                        }
                    },
                }
            }
            Err(CommandError::Client(error))
        },
        Ok(signature) => Ok(signature),
    }
}

} // verus!
