//! Airdrops.
use crate::airdrop::{request_and_confirm_airdrop, FAUCET_RETRIES};
use crate::amount::balance_text;
use crate::command::{CliCommand, CliConfig, IpAddr};
use crate::errors::{CliError, ClientError, CommandError};
use crate::fees::FeeCalculator;
use crate::keys::{Blockhash, Pubkey};
use crate::laws::steps::{
    begins, follows, goes_on_from_balance, goes_on_from_blockhash, goes_on_from_sending, is_run,
    is_usb_path, lemma_usb_path,
};
use crate::process::url_host;
use crate::progress::{
    line_views, AfterAirdrop, AirdropOrder, BalanceStep, BalanceThen, BlockhashStep, BlockhashThen,
    FaucetStep, LineView, Progress, PubkeyUse, Resigners, SendThen, SocketAddr, WalletThen,
};
use crate::transaction::Transaction;
use vstd::prelude::*;

verus! {

/// The airdrop that the configuration asks for: the faucet's host, its port, the lamports and
/// whether amounts are shown in lamports.
pub open spec fn asks_for(
    config: CliConfig,
    host: Option<IpAddr>,
    port: u16,
    lamports: u64,
    unit: bool,
) -> bool {
    config.command == (CliCommand::Airdrop {
        faucet_host: host,
        faucet_port: port,
        lamports,
        use_lamports_unit: unit,
    })
}

/// The address is the faucet's.
pub open spec fn is_faucet(address: SocketAddr, host: Option<IpAddr>, port: u16) -> bool {
    &&& address.port == port
    &&& host matches Some(ip) ==> address.ip == ip
}

/// The key is the client's, where the client does not keep it in a hardware wallet.
pub open spec fn is_client(key: Pubkey, config: CliConfig) -> bool {
    !is_usb_path(config.keypair_path) ==> key == config.keypair.spec_pubkey()
}

/// What a faucet is asked for is what the command asks for.
pub open spec fn is_its_order(
    order: AirdropOrder,
    config: CliConfig,
    host: Option<IpAddr>,
    port: u16,
    lamports: u64,
    unit: bool,
) -> bool {
    &&& is_faucet(order.address, host, port)
    &&& is_client(order.to, config)
    &&& order.lamports == lamports
    &&& order.after matches AfterAirdrop::ShowBalance { use_lamports_unit, .. }
    &&& use_lamports_unit == unit
}

/// The step asks for the balance before the airdrop.
pub open spec fn asks_before(
    step: BalanceStep,
    config: CliConfig,
    host: Option<IpAddr>,
    port: u16,
    lamports: u64,
    unit: bool,
) -> bool {
    &&& is_client(step.pubkey, config)
    &&& step.next matches BalanceThen::BeforeAirdrop {
        address,
        lamports: wanted,
        use_lamports_unit,
    }
    &&& is_faucet(address, host, port)
    &&& wanted == lamports
    &&& use_lamports_unit == unit
}

/// Where an airdrop may stand.
pub open spec fn is_of_airdrop(
    progress: Progress,
    config: CliConfig,
    host: Option<IpAddr>,
    port: u16,
    lamports: u64,
    unit: bool,
) -> bool {
    match progress {
        Progress::Host(step) => {
            &&& host is None
            &&& *step.config == config
            &&& step.port == port
            &&& step.lamports == lamports
            &&& step.use_lamports_unit == unit
            &&& Some(step.host@) == url_host(config.json_rpc_url@)
        },
        Progress::Wallet(step) => {
            &&& is_usb_path(config.keypair_path)
            &&& step.path@ == config.keypair_path->0@
            &&& step.derivation_path == config.derivation_path
            &&& step.next matches WalletThen::Use(
                PubkeyUse::Airdrop { address, lamports: wanted, use_lamports_unit },
            )
            &&& is_faucet(address, host, port)
            &&& wanted == lamports
            &&& use_lamports_unit == unit
        },
        Progress::Print(lines, rest) => {
            &&& lines@.len() == 1
            &&& lines@[0]@ matches LineView::Airdrop(amount, address)
            &&& amount == balance_text(lamports, unit, true)
            &&& is_faucet(address, host, port)
            &&& *rest matches Progress::Balance(step)
            &&& asks_before(step, config, host, port, lamports, unit)
        },
        Progress::Balance(step) => {
            ||| asks_before(step, config, host, port, lamports, unit)
            ||| {
                &&& is_client(step.pubkey, config)
                &&& step.next matches BalanceThen::AfterAirdrop { use_lamports_unit, .. }
                &&& use_lamports_unit == unit
            }
        },
        Progress::Blockhash(step) => {
            &&& step.next matches BlockhashThen::Airdrop(order)
            &&& is_its_order(order, config, host, port, lamports, unit)
        },
        Progress::Faucet(step) => {
            &&& is_its_order(step.order, config, host, port, lamports, unit)
            &&& step.retries <= 5
        },
        Progress::Send(step) => {
            &&& step.signers matches Resigners::Faucet(keypair)
            &&& keypair.transaction@ == step.tx@
            &&& step.next matches SendThen::EndAirdrop { to, after }
            &&& is_client(to, config)
            &&& after matches AfterAirdrop::ShowBalance { use_lamports_unit, .. }
            &&& use_lamports_unit == unit
        },
        Progress::Done(_) => true,
        _ => false,
    }
}

proof fn lemma_first(
    config: CliConfig,
    first: Progress,
    host: Option<IpAddr>,
    port: u16,
    lamports: u64,
    unit: bool,
)
    requires
        asks_for(config, host, port, lamports, unit),
        begins(config, first),
    ensures
        is_of_airdrop(first, config, host, port, lamports, unit),
        first is Host <==> host is None,
        !(first is Done),
{
    lemma_usb_path(config.keypair_path);
    if first is Print {
        assert(line_views(first->Print_0@).len() == first->Print_0@.len());
        assert(line_views(first->Print_0@)[0] == first->Print_0@[0]@);
    }
}

proof fn lemma_next(
    config: CliConfig,
    before: Progress,
    after: Progress,
    host: Option<IpAddr>,
    port: u16,
    lamports: u64,
    unit: bool,
)
    requires
        asks_for(config, host, port, lamports, unit),
        is_of_airdrop(before, config, host, port, lamports, unit),
        follows(before, after),
    ensures
        is_of_airdrop(after, config, host, port, lamports, unit),
{
    lemma_usb_path(config.keypair_path);
    if after is Print {
        assert(line_views(after->Print_0@).len() == after->Print_0@.len());
        assert(line_views(after->Print_0@)[0] == after->Print_0@[0]@);
    }
}

/// Whatever happens, an airdrop asks the faucet that the command names, and no other, for the
/// lamports that it names and has announced, for the client, whatever the balance was before.  It
/// asks six times at most, and sends nothing but the faucet's transaction.
pub proof fn lemma_airdrops_ask_for_what_they_name(
    config: CliConfig,
    steps: Seq<Progress>,
    i: int,
    host: Option<IpAddr>,
    port: u16,
    lamports: u64,
    unit: bool,
)
    requires
        asks_for(config, host, port, lamports, unit),
        is_run(config, steps),
        0 <= i < steps.len(),
    ensures
        is_of_airdrop(steps[i], config, host, port, lamports, unit),
        steps[i] matches Progress::Faucet(step) ==> {
            &&& step.order.lamports == lamports
            &&& is_client(step.order.to, config)
            &&& is_faucet(step.order.address, host, port)
        },
    decreases i,
{
    if i == 0 {
        lemma_first(config, steps[0], host, port, lamports, unit);
    } else {
        lemma_airdrops_ask_for_what_they_name(config, steps, i - 1, host, port, lamports, unit);
        lemma_next(config, steps[i - 1], steps[i], host, port, lamports, unit);
    }
}

/// An airdrop whose balance before is known goes on to the faucet, at a recent blockhash.  A faucet
/// that does not answer is asked again for the same, up to five times more, and after a pause.  What
/// it answers with is sent as it came.  Then the new balance is shown, or the one before where the
/// cluster knows of none.
pub proof fn lemma_airdrops_go_on_to_the_new_balance(
    before: BalanceStep,
    previous: u64,
    asked: Progress,
    faucet: FaucetStep,
    error: String,
    again: Progress,
    brought: Transaction,
    sent: Progress,
    signature: String,
    shown: Progress,
    balance: Option<u64>,
    last: Progress,
)
    requires
        before.next is BeforeAirdrop,
        goes_on_from_balance(before, Ok(Some(previous)), asked),
        asked is Blockhash ==> asked->Blockhash_0.next == BlockhashThen::Airdrop(faucet.order),
        call_ensures(FaucetStep::resume, (faucet, Err(error)), again),
        call_ensures(FaucetStep::resume, (faucet, Ok(brought)), sent),
        sent is Send ==> goes_on_from_sending(sent->Send_0, Ok(signature), shown),
        shown is Balance ==> goes_on_from_balance(shown->Balance_0, Ok(balance), last),
    ensures
        asked is Blockhash,
        faucet.retries == 0 ==> again == Progress::Done(Err(CommandError::Other(error))),
        faucet.retries > 0 ==> {
            &&& again matches Progress::Faucet(step)
            &&& step.order == faucet.order
            &&& step.blockhash == faucet.blockhash
            &&& step.retries == faucet.retries - 1
            &&& step.pause
        },
        sent matches Progress::Send(step) && step.tx@ == brought@,
        shown matches Progress::Balance(step) && step.pubkey == before.pubkey,
        last matches Progress::Done(Ok(text)) && text@ == balance_text(
            match balance {
                Some(lamports) => lamports,
                None => previous,
            },
            before.next->BeforeAirdrop_use_lamports_unit,
            true,
        ),
{
}

/// A faucet is first asked at once, at the recent blockhash, and may be asked five times more.
pub proof fn lemma_faucets_are_asked_at_once(
    step: BlockhashStep,
    order: AirdropOrder,
    recent: (Blockhash, FeeCalculator),
    asked: Progress,
)
    requires
        step.next == BlockhashThen::Airdrop(order),
        goes_on_from_blockhash(step, recent, asked),
    ensures
        asked == Progress::Faucet(
            FaucetStep { order, blockhash: recent.0, retries: 5, pause: false },
        ),
{
}

/// An airdrop needs the balance before it, and fails where the cluster does not tell the one after
/// it.
pub proof fn lemma_airdrops_need_balances(
    step: BalanceStep,
    balance: Result<Option<u64>, ClientError>,
    after: Progress,
)
    requires
        step.next is BeforeAirdrop || step.next is AfterAirdrop,
        goes_on_from_balance(step, balance, after),
    ensures
        balance matches Err(error) ==> after == Progress::Done(Err(CommandError::Client(error))),
        balance == Ok::<Option<u64>, ClientError>(None) && step.next is BeforeAirdrop ==> (after
            matches Progress::Done(Err(CommandError::Cli(CliError::RpcRequestError(text)))) && text@
            == "Received result of an unexpected type"@),
        balance matches Ok(Some(_)) ==> (after is Blockhash <==> step.next is BeforeAirdrop),
{
}

/// An airdrop asked for outside of a command comes to the signature of what the faucet brought.
pub proof fn lemma_requested_airdrops_come_to_their_signature(
    faucet: FaucetStep,
    brought: Transaction,
    sent: Progress,
    signature: String,
    last: Progress,
)
    requires
        faucet.order.after is Nothing,
        call_ensures(FaucetStep::resume, (faucet, Ok(brought)), sent),
        sent is Send ==> goes_on_from_sending(sent->Send_0, Ok(signature), last),
    ensures
        sent is Send,
        sent->Send_0.tx@ == brought@,
        last matches Progress::Done(Ok(text)) && text@ == signature@,
{
}

/// An airdrop asked for outside of a command asks the given faucet for the given lamports, for the
/// given account, and comes to the signature of what it brought.
pub proof fn lemma_requested_airdrops_ask_for_what_is_given(
    address: SocketAddr,
    to: Pubkey,
    lamports: u64,
    first: Progress,
)
    requires
        call_ensures(request_and_confirm_airdrop, (address, &to, lamports), first),
    ensures
        first matches Progress::Blockhash(step) && step.next == BlockhashThen::Airdrop(
            AirdropOrder { address, to, lamports, after: AfterAirdrop::Nothing },
        ),
        FAUCET_RETRIES == 5,
{
}

} // verus!
