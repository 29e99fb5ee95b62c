//! Accounts: their addresses, balances and contents, and what became of transactions.
use crate::amount::{balance_text, build_balance_message};
use crate::errors::{ClientError, CliError, CommandError, SystemError};
use crate::airdrop::{has_no_balance, no_balance};
use crate::keys::{pubkey_text, signature_text, Pubkey, Signature};
use crate::parse::byte_len;
use crate::progress::{
    AccountInfo, AccountStep, Line, LineView, Progress, StatusStep, WriteStep, line_views,
};
use crate::submit::{comes_to, fails_with};
use crate::text::joined;
use vstd::prelude::*;

verus! {

/// The address that a program's account has under a base key and a seed.
pub uninterp spec fn seeded_address(base: Pubkey, seed: Seq<char>, program_id: Pubkey) -> Pubkey;

/// `solana_sdk::system_instruction::create_address_with_seed`.  Claimed: a seed of more than 32
/// bytes is refused, and the address under another depends on the three arguments alone.
#[verifier::external_body]
fn derive_address(base: &Pubkey, seed: &str, program_id: &Pubkey) -> (r: Result<Pubkey, SystemError>)
    ensures
        r == if byte_len(seed@) > 32 {
            Err::<Pubkey, SystemError>(SystemError::MaxSeedLengthExceeded)
        } else {
            Ok(seeded_address(*base, seed@, *program_id))
        },
{
    let base = solana_sdk::pubkey::Pubkey::new(&base.bytes);
    let program_id = solana_sdk::pubkey::Pubkey::new(&program_id.bytes);
    match solana_sdk::system_instruction::create_address_with_seed(&base, seed, &program_id) {
        Ok(address) => Ok(Pubkey { bytes: address.to_bytes() }),
        Err(_) => Err(SystemError::MaxSeedLengthExceeded),
    }
}

/// The text that lays out bytes in hexadecimal.
pub uninterp spec fn hex_text(bytes: Seq<u8>) -> Seq<char>;

/// `pretty_hex::PrettyHex::hex_dump`, printed with `Debug`.  Claimed: the text depends on the
/// bytes alone.
#[verifier::external_body]
fn show_hex(bytes: &Vec<u8>) -> (r: String)
    ensures
        r@ == hex_text(bytes@),
{
    format!("{:?}", pretty_hex::PrettyHex::hex_dump(bytes))
}

/// The command comes to an address derived from a seed.
pub open spec fn derives(
    progress: Progress,
    base: Pubkey,
    seed: Seq<char>,
    program_id: Pubkey,
) -> bool {
    if byte_len(seed) > 32 {
        fails_with(progress, CommandError::System(SystemError::MaxSeedLengthExceeded))
    } else {
        comes_to(progress, pubkey_text(seeded_address(base, seed, program_id)))
    }
}

/// The address derived from the base key and the seed.
pub(crate) fn process_create_address_with_seed<'a>(
    base: &Pubkey,
    seed: &str,
    program_id: &Pubkey,
) -> (r: Progress<'a>)
    ensures
        derives(r, *base, seed@, *program_id),
{
    match derive_address(base, seed, program_id) {
        Ok(address) => Progress::Done(Ok(address.to_string())),
        Err(error) => Progress::Done(Err(CommandError::System(error))),
    }
}

/// The command comes to the balance.
pub open spec fn shows_balance(
    progress: Progress,
    balance: Result<Option<u64>, ClientError>,
    use_lamports_unit: bool,
) -> bool {
    match balance {
        Ok(Some(lamports)) => comes_to(progress, balance_text(lamports, use_lamports_unit, true)),
        Ok(None) => has_no_balance(progress),
        Err(error) => fails_with(progress, CommandError::Client(error)),
    }
}

pub(crate) fn show_balance<'a>(
    balance: Result<Option<u64>, ClientError>,
    use_lamports_unit: bool,
) -> (r: Progress<'a>)
    ensures
        shows_balance(r, balance, use_lamports_unit),
{
    match balance {
        Ok(Some(lamports)) => Progress::Done(
            Ok(build_balance_message(lamports, use_lamports_unit, true)),
        ),
        Ok(None) => no_balance(),
        Err(error) => Progress::Done(Err(CommandError::Client(error))),
    }
}

/// The command asks what became of the transaction.
pub open spec fn asks_status(progress: Progress, signature: Signature) -> bool {
    progress matches Progress::Status(step) && step.signature@ == signature_text(signature)
}

/// What became of a transaction.
pub(crate) fn process_confirm<'a>(signature: &Signature) -> (r: Progress<'a>)
    ensures
        asks_status(r, *signature),
{
    Progress::Status(StatusStep { signature: signature.to_string() })
}

impl StatusStep {
    /// Tells what the cluster knows of the transaction: nothing, that it succeeded, or why it
    /// failed.
    pub fn resume<'a>(self, reply: Result<Option<Result<(), String>>, ClientError>) -> (r: Progress<'a>)
        ensures
            match reply {
                Ok(Some(Ok(()))) => comes_to(r, "Confirmed"@),
                Ok(Some(Err(error))) => comes_to(r, "Transaction failed with error "@ + error@),
                Ok(None) => comes_to(r, "Not found"@),
                Err(error) => {
                    &&& r matches Progress::Done(Err(CommandError::Cli(
                        CliError::RpcRequestError(text),
                    )))
                    &&& text@ == "Unable to confirm: "@ + error.debug@
                },
            },
    {
        match reply {
            Ok(Some(Ok(()))) => Progress::Done(Ok("Confirmed".to_owned())),
            Ok(Some(Err(error))) => Progress::Done(
                Ok(joined("Transaction failed with error ", error.as_str())),
            ),
            Ok(None) => Progress::Done(Ok("Not found".to_owned())),
            Err(error) => Progress::Done(
                Err(
                    CommandError::Cli(
                        CliError::RpcRequestError(
                            joined("Unable to confirm: ", error.debug.as_str()),
                        ),
                    ),
                ),
            ),
        }
    }
}

/// What is shown of every account.
pub open spec fn account_lines(
    pubkey: Pubkey,
    account: AccountInfo,
    use_lamports_unit: bool,
) -> Seq<LineView> {
    seq![
        LineView::Blank,
        LineView::NameValue("Public Key:"@, pubkey_text(pubkey)),
        LineView::NameValue("Balance:"@, balance_text(account.lamports, use_lamports_unit, true)),
        LineView::NameValue("Owner:"@, pubkey_text(account.owner)),
        LineView::NameValue(
            "Executable:"@,
            if account.executable {
                "true"@
            } else {
                "false"@
            },
        ),
    ]
}

/// The command shows the account, and writes its data to the file, or lays it out where there is
/// no file and some data.
pub open spec fn shows_account(
    progress: Progress,
    pubkey: Pubkey,
    account: AccountInfo,
    output_file: Option<String>,
    use_lamports_unit: bool,
) -> bool {
    let lines = account_lines(pubkey, account, use_lamports_unit);
    &&& progress matches Progress::Print(printed, rest)
    &&& match output_file {
        Some(path) => {
            &&& line_views(printed@) == lines
            &&& *rest matches Progress::WriteFile(step)
            &&& step.path@ == path@
            &&& step.bytes@ == account.data@
        },
        None => {
            &&& line_views(printed@) == if account.data@.len() > 0 {
                lines.push(LineView::Text(hex_text(account.data@)))
            } else {
                lines
            }
            &&& comes_to(*rest, ""@)
        },
    }
}

impl<'a> AccountStep<'a> {
    /// Shows the account.
    pub fn resume(self, reply: Result<AccountInfo, ClientError>) -> (r: Progress<'a>)
        ensures
            match reply {
                Ok(account) => shows_account(
                    r,
                    self.pubkey,
                    account,
                    *self.output_file,
                    self.use_lamports_unit,
                ),
                Err(error) => fails_with(r, CommandError::Client(error)),
            },
    {
        let account = match reply {
            Ok(account) => account,
            Err(error) => {
                return Progress::Done(Err(CommandError::Client(error)));
            },
        };
        let balance = build_balance_message(account.lamports, self.use_lamports_unit, true);
        let executable = if account.executable {
            "true"
        } else {
            "false"
        };
        let mut lines: Vec<Line> = vec![
            Line::Blank,
            Line::NameValue("Public Key:", self.pubkey.to_string()),
            Line::NameValue("Balance:", balance),
            Line::NameValue("Owner:", account.owner.to_string()),
            Line::NameValue("Executable:", executable.to_owned()),
        ];
        let ghost wanted = account_lines(self.pubkey, account, self.use_lamports_unit);
        assert(line_views(lines@) =~= wanted);
        match self.output_file {
            Some(path) => Progress::Print(
                lines,
                Box::new(
                    Progress::WriteFile(WriteStep { path: path.as_str(), bytes: account.data }),
                ),
            ),
            None => {
                if account.data.len() > 0 {
                    lines.push(Line::Text(show_hex(&account.data)));
                    assert(line_views(lines@) =~= wanted.push(
                        LineView::Text(hex_text(account.data@)),
                    ));
                }
                Progress::Print(lines, Box::new(Progress::Done(Ok("".to_owned()))))
            },
        }
    }
}

impl<'a> WriteStep<'a> {
    /// Tells that the file was written.
    pub fn resume(self, reply: Result<(), String>) -> (r: Progress<'a>)
        ensures
            match reply {
                Ok(()) => {
                    &&& r matches Progress::Print(printed, rest)
                    &&& line_views(printed@) == seq![
                        LineView::Blank,
                        LineView::Text("Wrote account data to "@ + self.path@),
                    ]
                    &&& comes_to(*rest, ""@)
                },
                Err(text) => fails_with(r, CommandError::Other(text)),
            },
    {
        match reply {
            Ok(()) => {
                let lines: Vec<Line> = vec![
                    Line::Blank,
                    Line::Text(joined("Wrote account data to ", self.path)),
                ];
                assert(line_views(lines@) =~= seq![
                    LineView::Blank,
                    LineView::Text("Wrote account data to "@ + self.path@),
                ]);
                Progress::Print(lines, Box::new(Progress::Done(Ok("".to_owned()))))
            },
            Err(text) => Progress::Done(Err(CommandError::Other(text))),
        }
    }
}

} // verus!
