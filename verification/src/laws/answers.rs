//! Commands that only ask: for an address, a balance, an account, or what became of a transaction.
use crate::account::{hex_text, seeded_address};
use crate::amount::balance_text;
use crate::command::{CliCommand, CliConfig};
use crate::errors::{CliError, ClientError, CommandError, SystemError};
use crate::keys::{pubkey_text, signature_text, Pubkey};
use crate::laws::steps::{
    begins, follows, goes_on_from_balance, is_run, is_usb_path, lemma_usb_path,
};
use crate::progress::{
    line_views, AccountInfo, AccountStep, BalanceStep, BalanceThen, LineView, Progress, PubkeyUse,
    StatusStep, WalletStep, WalletThen, WriteStep,
};
use vstd::prelude::*;
use vstd::utf8::encode_utf8;

verus! {

/// The command ends with this text.
pub open spec fn ends_with(progress: Progress, text: Seq<char>) -> bool {
    progress matches Progress::Done(Ok(said)) && said@ == text
}

/// The command comes to the address that the seed gives under the key for the program, as long as
/// the seed is no longer than 32 bytes.
pub open spec fn comes_to_seeded_address(
    progress: Progress,
    base: Pubkey,
    seed: Seq<char>,
    program: Pubkey,
) -> bool {
    if encode_utf8(seed).len() <= 32 {
        ends_with(progress, pubkey_text(seeded_address(base, seed, program)))
    } else {
        progress == Progress::Done(Err(CommandError::System(SystemError::MaxSeedLengthExceeded)))
    }
}

/// The command asks for the balance of the account, to show it.
pub open spec fn asks_to_show(progress: Progress, key: Pubkey, unit: bool) -> bool {
    progress matches Progress::Balance(step) && step.pubkey == key && step.next
        == (BalanceThen::Show { use_lamports_unit: unit })
}

/// The command asks the hardware wallet of the configuration for its key.
pub open spec fn asks_its_wallet(progress: Progress, config: CliConfig) -> bool {
    &&& progress matches Progress::Wallet(step)
    &&& step.path@ == config.keypair_path->0@
    &&& step.derivation_path == config.derivation_path
}

/// What a command that only asks does with the client's key.
pub open spec fn serves(progress: Progress, command: CliCommand, key: Pubkey) -> bool {
    match command {
        CliCommand::Address => ends_with(progress, pubkey_text(key)),
        CliCommand::CreateAddressWithSeed { from_pubkey, seed, program_id } => {
            comes_to_seeded_address(
                progress,
                if from_pubkey is Some {
                    from_pubkey->0
                } else {
                    key
                },
                seed@,
                program_id,
            )
        },
        CliCommand::Balance { pubkey, use_lamports_unit } => asks_to_show(
            progress,
            if pubkey is Some {
                pubkey->0
            } else {
                key
            },
            use_lamports_unit,
        ),
        _ => false,
    }
}

/// An address, an address under a seed and a balance are those of the key that the command names,
/// or the client's own, which is the key pair's or its hardware wallet's.
pub proof fn lemma_questions_are_about_the_named_key(
    config: CliConfig,
    first: Progress,
    key: Pubkey,
    shown: Progress,
)
    requires
        begins(config, first),
        config.command is Address || config.command is CreateAddressWithSeed
            || config.command is Balance,
        first is Wallet ==> call_ensures(WalletStep::resume, (first->Wallet_0, Ok(key)), shown),
    ensures
        if is_usb_path(config.keypair_path) {
            asks_its_wallet(first, config) && serves(shown, config.command, key)
        } else {
            serves(first, config.command, config.keypair.spec_pubkey())
        },
{
    lemma_usb_path(config.keypair_path);
}

/// A balance is shown in the unit that was asked for, with its name.  An account that the cluster
/// does not know has none.
pub proof fn lemma_balances_are_shown(
    step: BalanceStep,
    unit: bool,
    balance: Result<Option<u64>, ClientError>,
    last: Progress,
)
    requires
        step.next == (BalanceThen::Show { use_lamports_unit: unit }),
        goes_on_from_balance(step, balance, last),
    ensures
        match balance {
            Ok(Some(lamports)) => ends_with(last, balance_text(lamports, unit, true)),
            Ok(None) => last matches Progress::Done(
                Err(CommandError::Cli(CliError::RpcRequestError(text))),
            ) && text@ == "Received result of an unexpected type"@,
            Err(error) => last == Progress::Done(Err(CommandError::Client(error))),
        },
{
}

/// What became of a transaction is asked by its signature, and told.
pub proof fn lemma_confirmations_tell_what_became_of_it(
    config: CliConfig,
    first: Progress,
    reply: Result<Option<Result<(), String>>, ClientError>,
    last: Progress,
)
    requires
        begins(config, first),
        config.command is Confirm,
        first is Status ==> call_ensures(StatusStep::resume, (first->Status_0, reply), last),
    ensures
        first is Status,
        first->Status_0.signature@ == signature_text(config.command->Confirm_0),
        match reply {
            Ok(Some(Ok(()))) => ends_with(last, "Confirmed"@),
            Ok(Some(Err(error))) => ends_with(last, "Transaction failed with error "@ + error@),
            Ok(None) => ends_with(last, "Not found"@),
            Err(error) => last matches Progress::Done(
                Err(CommandError::Cli(CliError::RpcRequestError(text))),
            ) && text@ == "Unable to confirm: "@ + error.debug@,
        },
{
}

/// An account is shown line by line: its key, its balance, its owner and whether it can be run.
/// Its bytes go to the file that the command names, or are laid out where it names none and there
/// are some.
pub proof fn lemma_accounts_are_shown(
    config: CliConfig,
    first: Progress,
    account: AccountInfo,
    shown: Progress,
)
    requires
        begins(config, first),
        config.command is ShowAccount,
        first is Account ==> call_ensures(
            AccountStep::resume,
            (first->Account_0, Ok(account)),
            shown,
        ),
    ensures
        config.command matches CliCommand::ShowAccount { pubkey, output_file, use_lamports_unit }
            && {
            &&& first matches Progress::Account(step)
            &&& step.pubkey == pubkey
            &&& shown matches Progress::Print(lines, rest)
            &&& lines@.len() >= 5
            &&& lines@[0]@ == LineView::Blank
            &&& lines@[1]@ == LineView::NameValue("Public Key:"@, pubkey_text(pubkey))
            &&& lines@[2]@ == LineView::NameValue(
                "Balance:"@,
                balance_text(account.lamports, use_lamports_unit, true),
            )
            &&& lines@[3]@ == LineView::NameValue("Owner:"@, pubkey_text(account.owner))
            &&& lines@[4]@ == LineView::NameValue(
                "Executable:"@,
                if account.executable {
                    "true"@
                } else {
                    "false"@
                },
            )
            &&& match output_file {
                Some(path) => {
                    &&& lines@.len() == 5
                    &&& *rest matches Progress::WriteFile(write)
                    &&& write.path@ == path@
                    &&& write.bytes@ == account.data@
                },
                None => {
                    &&& ends_with(*rest, ""@)
                    &&& lines@.len() == if account.data@.len() > 0 { 6int } else { 5 }
                    &&& account.data@.len() > 0 ==> lines@[5]@ == LineView::Text(
                        hex_text(account.data@),
                    )
                },
            }
        },
{
    let lines = shown->Print_0;
    let views = line_views(lines@);
    assert(views.len() == lines@.len());
    assert forall|i: int| 0 <= i < lines@.len() implies #[trigger] views[i] == lines@[i]@ by {}
    assert(views[0] == lines@[0]@ && views[1] == lines@[1]@ && views[2] == lines@[2]@ && views[3]
        == lines@[3]@ && views[4] == lines@[4]@);
    if lines@.len() > 5 {
        assert(views[5] == lines@[5]@);
    }
}

/// An account that cannot be had ends the command, and so does a file that cannot be written.  One
/// that could is named.
pub proof fn lemma_accounts_may_be_missing(
    asked: AccountStep,
    error: ClientError,
    missing: Progress,
    write: WriteStep,
    reply: Result<(), String>,
    written: Progress,
)
    requires
        call_ensures(AccountStep::resume, (asked, Err(error)), missing),
        call_ensures(WriteStep::resume, (write, reply), written),
    ensures
        missing == Progress::Done(Err(CommandError::Client(error))),
        match reply {
            Ok(()) => {
                &&& written matches Progress::Print(lines, rest)
                &&& lines@.len() == 2
                &&& lines@[0]@ == LineView::Blank
                &&& lines@[1]@ == LineView::Text("Wrote account data to "@ + write.path@)
                &&& ends_with(*rest, ""@)
            },
            Err(text) => written == Progress::Done(Err(CommandError::Other(text))),
        },
{
    if reply is Ok {
        let lines = written->Print_0;
        assert(line_views(lines@).len() == lines@.len());
        assert(line_views(lines@)[0] == lines@[0]@);
        assert(line_views(lines@)[1] == lines@[1]@);
    }
}

/// Where a command that only asks may stand: it has nothing to sign and nothing to send.
pub open spec fn only_asks(progress: Progress, command: CliCommand) -> bool {
    match progress {
        Progress::Done(_) => true,
        Progress::Wallet(step) => match step.next {
            WalletThen::Use(purpose) => match purpose {
                PubkeyUse::Airdrop { .. } => false,
                _ => true,
            },
            WalletThen::Show(_) => false,
        },
        Progress::Balance(step) => step.next is Show,
        Progress::Status(_) => command is Confirm,
        Progress::Account(_) => command is ShowAccount,
        Progress::WriteFile(_) => command is ShowAccount,
        Progress::Print(_, rest) => command is ShowAccount && (*rest is Done || *rest is WriteFile),
        _ => false,
    }
}

/// A command that only asks never signs anything and never sends anything.
pub proof fn lemma_questions_send_nothing(config: CliConfig, steps: Seq<Progress>, i: int)
    requires
        is_run(config, steps),
        0 <= i < steps.len(),
        config.command is Address || config.command is CreateAddressWithSeed
            || config.command is Balance || config.command is Confirm
            || config.command is ShowAccount,
    ensures
        only_asks(steps[i], config.command),
        !(steps[i] is Send || steps[i] is SendAll || steps[i] is Signed || steps[i] is Faucet),
    decreases i,
{
    lemma_usb_path(config.keypair_path);
    if i > 0 {
        lemma_questions_send_nothing(config, steps, i - 1);
        assert(follows(steps[i - 1], steps[i]));
    }
}

} // verus!
