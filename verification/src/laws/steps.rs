//! How a command goes from one step to the next.
use crate::account::shows_account;
use crate::airdrop::sends_airdrop;
use crate::command::{names_wallet, CliCommand, CliConfig, IpAddr};
use crate::deploy::deploys;
use crate::errors::{ClientError, CommandError};
use crate::fees::FeeCalculator;
use crate::keys::{pubkey_text, Blockhash, Keypair, Pubkey};
use crate::process::{
    goes_on_at, goes_on_with_balance, goes_on_with_outcome, needs_pubkey, process_command, runs,
    starts, try_process_command, url_host, uses_pubkey,
};
use crate::progress::{
    line_views, AccountInfo, AccountStep, BalanceStep, BalanceThen, BlockhashStep, BlockhashThen,
    Deployment, FaucetStep, FileError, HostStep, LineView, NonceStep, Progress, PubkeyUse, ReadStep,
    RentStep, SendAllStep, SendStep, SendThen, SocketAddr, StatusStep, WalletStep, WalletThen,
    WriteStep,
};
use crate::submit::asks_for_fee;
use crate::transaction::Transaction;
use vstd::prelude::*;

verus! {

/// The command of the configuration starts with `first`, once the configuration has been shown
/// where that is asked for.
pub open spec fn begins(config: CliConfig, first: Progress) -> bool {
    runs(first, config)
}

/// The command goes on from `step` to `next` at a recent blockhash.
pub open spec fn goes_on_from_blockhash(
    step: BlockhashStep,
    recent: (Blockhash, FeeCalculator),
    next: Progress,
) -> bool {
    goes_on_at(next, step.next, recent)
}

/// The command goes on from `step` to `next` with a balance, or without.
pub open spec fn goes_on_from_balance(
    step: BalanceStep,
    balance: Result<Option<u64>, ClientError>,
    next: Progress,
) -> bool {
    goes_on_with_balance(next, step, balance)
}

/// The command goes on from `step` to `next` with the outcome of its transaction.
pub open spec fn goes_on_from_sending(
    step: SendStep,
    outcome: Result<String, ClientError>,
    next: Progress,
) -> bool {
    goes_on_with_outcome(next, step, outcome)
}

/// The path names a hardware wallet.
pub open spec fn is_usb_path(path: Option<String>) -> bool {
    &&& path matches Some(text)
    &&& text@.len() >= 6
    &&& text@.take(6) == seq!['u', 's', 'b', ':', '/', '/']
}

pub(crate) proof fn lemma_usb_path(path: Option<String>)
    ensures
        is_usb_path(path) == names_wallet(path),
{
    reveal_strlit("usb://");
    assert("usb://"@ =~= seq!['u', 's', 'b', ':', '/', '/']);
}

/// The command has failed.
pub open spec fn has_failed(progress: Progress) -> bool {
    progress matches Progress::Done(result) && result is Err
}

/// The command may go from `before` to `after`, by one answer or another.
pub open spec fn follows(before: Progress, after: Progress) -> bool {
    match before {
        Progress::Print(_, rest) => after == *rest,
        Progress::Wallet(step) => {
            ||| has_failed(after)
            ||| match step.next {
                WalletThen::Show(command) => after matches Progress::Print(_, rest) && rest
                    == command,
                WalletThen::Use(purpose) => exists|key: Pubkey| #[trigger]
                    uses_pubkey(after, purpose, key),
            }
        },
        Progress::Host(step) => exists|ip: IpAddr|
            needs_pubkey(after, *step.config, #[trigger] airdrop_at(step, ip)),
        Progress::Blockhash(step) => {
            ||| has_failed(after)
            ||| exists|recent: (Blockhash, FeeCalculator)| #[trigger]
                goes_on_from_blockhash(step, recent, after)
        },
        Progress::Balance(step) => exists|reply: Result<Option<u64>, ClientError>| #[trigger]
            goes_on_from_balance(step, reply, after),
        Progress::Nonce(step) => has_failed(after) || asks_for_fee(after, step.next),
        Progress::Send(step) => exists|reply: Result<String, ClientError>| #[trigger]
            goes_on_from_sending(step, reply, after),
        Progress::SendAll(step) => {
            ||| has_failed(after)
            ||| after matches Progress::Send(last) && last.tx == step.finalize && last.next == (
            SendThen::EndDeployment { program: step.program })
        },
        Progress::Status(_) => after is Done,
        Progress::Account(step) => {
            ||| has_failed(after)
            ||| exists|account: AccountInfo|
                shows_account(
                    after,
                    step.pubkey,
                    account,
                    *step.output_file,
                    step.use_lamports_unit,
                )
        },
        Progress::WriteFile(_) => after is Done || (after matches Progress::Print(_, rest)
            && *rest is Done),
        Progress::ReadFile(step) => {
            ||| has_failed(after)
            ||| after matches Progress::Blockhash(asked) && (asked.next
                matches BlockhashThen::Deploy { config, program, .. } && config == step.config
                && program == step.program)
        },
        Progress::Rent(step) => {
            ||| has_failed(after)
            ||| exists|rent: u64, deployment: Deployment|
                deploys(
                    deployment,
                    *step.config,
                    step.program,
                    step.data@,
                    step.blockhash,
                    step.fee_calculator,
                    rent,
                ) && (after matches Progress::Balance(asked) && asked.next
                    == BalanceThen::DeployFees(deployment))
        },
        Progress::Faucet(step) => {
            ||| has_failed(after)
            ||| exists|tx: Transaction| #[trigger] sends_airdrop(after, tx, step.order)
            ||| after matches Progress::Faucet(again) && again.order == step.order && again.retries
                < step.retries
        },
        Progress::Signed(..) | Progress::Delegate(_) | Progress::Done(_) => false,
    }
}

/// The airdrop that goes on once the address of its host is known.
pub open spec fn airdrop_at(step: HostStep, ip: IpAddr) -> PubkeyUse {
    PubkeyUse::Airdrop {
        address: SocketAddr { ip, port: step.port },
        lamports: step.lamports,
        use_lamports_unit: step.use_lamports_unit,
    }
}

/// The steps of one run of the configuration's command, as far as it has come.
pub open spec fn is_run(config: CliConfig, steps: Seq<Progress>) -> bool {
    &&& steps.len() > 0
    &&& begins(config, steps[0])
    &&& forall|i: int| 0 < i < steps.len() ==> follows(steps[i - 1], #[trigger] steps[i])
}

/// The command begins at once where it is not to tell what it does.  Where it is, it prints the
/// cluster's address and the key pair's path first, and the public key of a hardware wallet.
pub open spec fn greets(config: CliConfig, greeted: Progress) -> bool {
    if !config.verbose {
        begins(config, greeted)
    } else {
        &&& greeted matches Progress::Print(lines, rest)
        &&& lines@.len() == if config.keypair_path is Some { 2int } else { 1 }
        &&& lines@[0]@ == LineView::NameValue("RPC URL:"@, config.json_rpc_url@)
        &&& config.keypair_path matches Some(path) ==> lines@[1]@ == LineView::NameValue(
            "Keypair Path:"@,
            path@,
        )
        &&& if is_usb_path(config.keypair_path) {
            &&& *rest matches Progress::Wallet(step)
            &&& step.path@ == config.keypair_path->0@
            &&& step.derivation_path == config.derivation_path
            &&& step.next matches WalletThen::Show(command)
            &&& begins(config, *command)
        } else {
            begins(config, *rest)
        }
    }
}

/// Every command begins so.
pub proof fn lemma_commands_begin(config: &CliConfig, greeted: Progress)
    requires
        call_ensures(process_command, (config,), greeted),
    ensures
        greets(*config, greeted),
{
    lemma_greets(*config, greeted);
}

proof fn lemma_greets(config: CliConfig, greeted: Progress)
    requires
        starts(greeted, config),
    ensures
        greets(config, greeted),
{
    lemma_usb_path(config.keypair_path);
    if config.verbose {
        let lines = greeted->Print_0;
        assert(line_views(lines@).len() == lines@.len());
        assert(line_views(lines@)[0] == lines@[0]@);
        if config.keypair_path is Some {
            assert(line_views(lines@)[1] == lines@[1]@);
        }
    }
}

/// Whether the payment is held back until a signature, and names nobody to sign.
pub open spec fn lacks_witness(command: CliCommand) -> bool {
    &&& command matches CliCommand::Pay(pay)
    &&& pay.timestamp is None
    &&& pay.witnesses matches Some(keys)
    &&& keys@.len() == 0
}

/// A command that is tried begins as any other, where it can: an airdrop has a faucet, or a cluster
/// to find it at, and a payment that a witness has to sign names one, unless it is refused for its
/// recipient.
pub proof fn lemma_tried_commands_begin(config: &CliConfig, tried: Option<Progress>)
    requires
        call_ensures(try_process_command, (config,), tried),
    ensures
        tried matches Some(first) ==> greets(*config, first),
        match config.command {
            CliCommand::Airdrop { faucet_host, .. } => tried is Some <==> faucet_host is Some
                || url_host(config.json_rpc_url@) is Some,
            CliCommand::Pay(pay) => tried is Some <==> config.keypair.spec_pubkey() == pay.to
                || !lacks_witness(config.command),
            _ => tried is Some,
        },
{
    if tried is Some {
        lemma_greets(*config, tried->0);
    }
}

/// Only a payment that lacks its witness cannot go on at a blockhash.
pub proof fn lemma_payments_go_on_with_their_witness(step: &BlockhashStep, ready: bool)
    requires
        call_ensures(BlockhashStep::is_ready, (step,), ready),
    ensures
        !ready <==> (step.next matches BlockhashThen::Pay { pay, .. } && lacks_witness(
            CliCommand::Pay(*pay),
        )),
{
}

/// A hardware wallet's public key is shown where that is what it is for, and used where it is not.
pub proof fn lemma_wallets_go_on(step: WalletStep, reply: Result<Pubkey, String>, after: Progress)
    requires
        call_ensures(WalletStep::resume, (step, reply), after),
    ensures
        follows(Progress::Wallet(step), after),
        match reply {
            Err(text) => after == Progress::Done(Err(CommandError::Other(text))),
            Ok(key) => match step.next {
                WalletThen::Show(command) => {
                    &&& after matches Progress::Print(lines, rest)
                    &&& lines@.len() == 1
                    &&& lines@[0]@ == LineView::NameValue("Pubkey:"@, pubkey_text(key))
                    &&& rest == command
                },
                WalletThen::Use(purpose) => uses_pubkey(after, purpose, key),
            },
        },
{
    if reply is Ok && step.next is Show {
        let lines = after->Print_0;
        assert(line_views(lines@).len() == lines@.len());
        assert(line_views(lines@)[0] == lines@[0]@);
    }
}

/// An airdrop goes on at the address of its host.
pub proof fn lemma_hosts_go_on(step: HostStep, ip: IpAddr, after: Progress)
    requires
        call_ensures(HostStep::resume, (step, ip), after),
    ensures
        follows(Progress::Host(step), after),
        needs_pubkey(
            after,
            *step.config,
            PubkeyUse::Airdrop {
                address: SocketAddr { ip, port: step.port },
                lamports: step.lamports,
                use_lamports_unit: step.use_lamports_unit,
            },
        ),
{
    assert(needs_pubkey(after, *step.config, airdrop_at(step, ip)));
}

/// A command goes on at a recent blockhash, and fails where the cluster knows of none.
pub proof fn lemma_blockhashes_go_on(
    step: BlockhashStep,
    reply: Result<(Blockhash, FeeCalculator), ClientError>,
    after: Progress,
)
    requires
        call_ensures(BlockhashStep::resume, (step, reply), after),
    ensures
        follows(Progress::Blockhash(step), after),
        match reply {
            Ok(recent) => goes_on_from_blockhash(step, recent, after),
            Err(error) => after == Progress::Done(Err(CommandError::Client(error))),
        },
{
    if reply is Ok {
        assert(goes_on_from_blockhash(step, reply->Ok_0, after));
    }
}

/// A command goes on with a balance, or without.
pub proof fn lemma_balances_go_on(
    step: BalanceStep,
    reply: Result<Option<u64>, ClientError>,
    after: Progress,
)
    requires
        call_ensures(BalanceStep::resume, (step, reply), after),
    ensures
        follows(Progress::Balance(step), after),
        goes_on_from_balance(step, reply, after),
{
    assert(goes_on_from_balance(step, reply, after));
}

/// A command goes on with the outcome of its transaction.
pub proof fn lemma_outcomes_go_on(
    step: SendStep,
    reply: Result<String, ClientError>,
    after: Progress,
)
    requires
        call_ensures(SendStep::resume, (step, reply), after),
    ensures
        follows(Progress::Send(step), after),
        goes_on_from_sending(step, reply, after),
{
    assert(goes_on_from_sending(step, reply, after));
}

/// A transaction whose nonce is fit for use waits for the balance of its payer, and one whose nonce
/// is not ends with what is wrong with it.
pub proof fn lemma_nonces_go_on(step: NonceStep, reply: Result<(), CommandError>, after: Progress)
    requires
        call_ensures(NonceStep::resume, (step, reply), after),
    ensures
        follows(Progress::Nonce(step), after),
        match reply {
            Ok(()) => {
                &&& after matches Progress::Balance(asked)
                &&& asked.pubkey == step.next.payer
                &&& asked.next == BalanceThen::Fee(step.next)
            },
            Err(error) => after == Progress::Done(Err(error)),
        },
{
}

/// A faucet that answers has its transaction sent, and one that does not is asked again.
pub proof fn lemma_faucets_go_on(
    step: FaucetStep,
    reply: Result<Transaction, String>,
    after: Progress,
)
    requires
        call_ensures(FaucetStep::resume, (step, reply), after),
    ensures
        follows(Progress::Faucet(step), after),
        reply matches Ok(tx) ==> sends_airdrop(after, tx, step.order),
{
}

/// A question goes on with its answer, and a file that was written ends the command.
pub proof fn lemma_questions_go_on(
    status: StatusStep,
    known: Result<Option<Result<(), String>>, ClientError>,
    after_status: Progress,
    asked: AccountStep,
    account: Result<AccountInfo, ClientError>,
    after_account: Progress,
    write: WriteStep,
    written: Result<(), String>,
    after_write: Progress,
)
    requires
        call_ensures(StatusStep::resume, (status, known), after_status),
        call_ensures(AccountStep::resume, (asked, account), after_account),
        call_ensures(WriteStep::resume, (write, written), after_write),
    ensures
        follows(Progress::Status(status), after_status),
        follows(Progress::Account(asked), after_account),
        follows(Progress::WriteFile(write), after_write),
{
}

/// A deployment goes on with its file, then with the rent, then with what became of its writes.
pub proof fn lemma_deployments_go_on(
    file: ReadStep,
    bytes: Result<Vec<u8>, FileError>,
    after_file: Progress,
    rent: RentStep,
    least: Result<u64, ClientError>,
    after_rent: Progress,
    all: SendAllStep,
    written: Result<(), String>,
    after_all: Progress,
)
    requires
        call_ensures(ReadStep::resume, (file, bytes), after_file),
        call_ensures(RentStep::resume, (rent, least), after_rent),
        call_ensures(SendAllStep::resume, (all, written), after_all),
    ensures
        follows(Progress::ReadFile(file), after_file),
        follows(Progress::Rent(rent), after_rent),
        follows(Progress::SendAll(all), after_all),
{
}

} // verus!
