//! Airdrops: lamports asked of a faucet.
use crate::amount::{balance_text, build_balance_message};
use crate::errors::{
    log_instruction_custom_error, reported, ClientError, CliError, CommandError, ErrorDomain,
};
use crate::keys::{Blockhash, Pubkey, Signature};
use crate::progress::{
    AfterAirdrop, AirdropOrder, BalanceStep, BalanceThen, BlockhashStep, BlockhashThen,
    FaucetKeypair, FaucetStep, Progress, Resigners, SendStep, SendThen, SocketAddr,
};
use crate::submit::{comes_to, fails_with};
use crate::transaction::Transaction;
use vstd::prelude::*;

verus! {

/// How many more times a faucet is asked that does not answer.
pub const FAUCET_RETRIES: u8 = 5;

impl FaucetKeypair {
    /// The signer of a faucet's transaction.
    pub fn new_keypair(transaction: Transaction) -> (r: Self)
        ensures
            r.transaction == transaction,
    {
        FaucetKeypair { transaction }
    }

    /// A copy of the faucet's transaction.
    pub fn airdrop_transaction(&self) -> (r: Transaction)
        ensures
            r@ == self.transaction@,
    {
        self.transaction.copied()
    }

    /// The transaction's first account, which the faucet signs with.
    pub fn pubkey(&self) -> (r: Pubkey)
        requires
            self.transaction.message.account_keys@.len() > 0,
        ensures
            r == self.transaction.message.account_keys@[0],
    {
        self.transaction.message.account_keys[0]
    }

    /// The signature that the transaction came with, whatever the message.
    pub fn sign_message(&self, _message: &[u8]) -> (r: Signature)
        requires
            self.transaction.signatures@.len() > 0,
        ensures
            r == self.transaction.signatures@[0],
    {
        self.transaction.signatures[0]
    }
}

/// The command asks for a blockhash to give the faucet.
pub open spec fn orders(progress: Progress, order: AirdropOrder) -> bool {
    progress matches Progress::Blockhash(step) && step.next == BlockhashThen::Airdrop(order)
}

/// Asks a faucet for lamports, and comes to the signature of the transaction that brings them.
pub fn request_and_confirm_airdrop<'a>(address: SocketAddr, to: &Pubkey, lamports: u64) -> (r: Progress<
    'a,
>)
    ensures
        orders(r, AirdropOrder { address, to: *to, lamports, after: AfterAirdrop::Nothing }),
{
    Progress::Blockhash(
        BlockhashStep {
            next: BlockhashThen::Airdrop(
                AirdropOrder { address, to: *to, lamports, after: AfterAirdrop::Nothing },
            ),
        },
    )
}

/// The first request to the faucet.
pub(crate) fn first_request<'a>(order: AirdropOrder, blockhash: Blockhash) -> (r: Progress<'a>)
    ensures
        r == Progress::Faucet(
            FaucetStep { order, blockhash, retries: FAUCET_RETRIES, pause: false },
        ),
{
    Progress::Faucet(FaucetStep { order, blockhash, retries: FAUCET_RETRIES, pause: false })
}

/// The faucet's transaction is sent as it came.
pub open spec fn sends_airdrop(progress: Progress, tx: Transaction, order: AirdropOrder) -> bool {
    &&& progress matches Progress::Send(step)
    &&& step.tx@ == tx@
    &&& step.signers matches Resigners::Faucet(keypair)
    &&& keypair.transaction == tx
    &&& step.next == (SendThen::EndAirdrop { to: order.to, after: order.after })
}

/// The request that follows one without an answer, as long as there may be another.
pub open spec fn asked_again(step: FaucetStep) -> Option<FaucetStep> {
    if step.retries == 0 {
        None
    } else {
        Some(
            FaucetStep {
                order: step.order,
                blockhash: step.blockhash,
                retries: (step.retries - 1) as u8,
                pause: true,
            },
        )
    }
}

/// How many times a faucet that never answers is asked, from this request on.
pub open spec fn requests(step: FaucetStep) -> nat
    decreases step.retries,
{
    match asked_again(step) {
        Some(next) if next.retries < step.retries => 1 + requests(next),
        _ => 1,
    }
}

proof fn lemma_requests(step: FaucetStep)
    ensures
        requests(step) == step.retries + 1,
    decreases step.retries,
{
    if step.retries > 0 {
        lemma_requests(asked_again(step)->0);
    }
}

/// A faucet that never answers is asked six times.
pub proof fn lemma_faucet_is_asked_six_times(order: AirdropOrder, blockhash: Blockhash)
    ensures
        requests(FaucetStep { order, blockhash, retries: FAUCET_RETRIES, pause: false }) == 6,
{
    lemma_requests(FaucetStep { order, blockhash, retries: FAUCET_RETRIES, pause: false });
}

impl FaucetStep {
    /// Sends the faucet's transaction, or asks again after a pause as long as it may.
    pub fn resume<'a>(self, reply: Result<Transaction, String>) -> (r: Progress<'a>)
        ensures
            match reply {
                Ok(tx) => sends_airdrop(r, tx, self.order),
                Err(error) => match asked_again(self) {
                    Some(next) => r == Progress::Faucet(next),
                    None => fails_with(r, CommandError::Other(error)),
                },
            },
    {
        match reply {
            Ok(tx) => {
                let keypair = FaucetKeypair::new_keypair(tx);
                Progress::Send(
                    SendStep {
                        tx: keypair.airdrop_transaction(),
                        signers: Resigners::Faucet(keypair),
                        next: SendThen::EndAirdrop { to: self.order.to, after: self.order.after },
                    },
                )
            },
            Err(error) => if self.retries == 0 {
                Progress::Done(Err(CommandError::Other(error)))
            } else {
                Progress::Faucet(
                    FaucetStep {
                        order: self.order,
                        blockhash: self.blockhash,
                        retries: self.retries - 1,
                        pause: true,
                    },
                )
            },
        }
    }
}

/// What follows the outcome of the faucet's transaction.
pub open spec fn ends_airdrop(
    progress: Progress,
    result: Result<String, ClientError>,
    to: Pubkey,
    after: AfterAirdrop,
) -> bool {
    match (result, after) {
        (Err(error), _) => fails_with(progress, reported(error, ErrorDomain::System)),
        (Ok(signature), AfterAirdrop::Nothing) => comes_to(progress, signature@),
        (Ok(_), AfterAirdrop::ShowBalance { previous, use_lamports_unit }) => progress
            == Progress::Balance(
            BalanceStep {
                pubkey: to,
                next: BalanceThen::AfterAirdrop { previous, use_lamports_unit },
            },
        ),
    }
}

pub(crate) fn end_airdrop<'a>(
    result: Result<String, ClientError>,
    to: Pubkey,
    after: AfterAirdrop,
) -> (r: Progress<'a>)
    ensures
        ends_airdrop(r, result, to, after),
{
    match log_instruction_custom_error(result, ErrorDomain::System) {
        Ok(signature) => match after {
            AfterAirdrop::Nothing => Progress::Done(Ok(signature)),
            AfterAirdrop::ShowBalance { previous, use_lamports_unit } => Progress::Balance(
                BalanceStep {
                    pubkey: to,
                    next: BalanceThen::AfterAirdrop { previous, use_lamports_unit },
                },
            ),
        },
        Err(error) => Progress::Done(Err(error)),
    }
}

/// The command fails because the cluster did not answer with a balance.
pub open spec fn has_no_balance(progress: Progress) -> bool {
    progress matches Progress::Done(Err(CommandError::Cli(CliError::RpcRequestError(text))))
        && text@ == "Received result of an unexpected type"@
}

pub(crate) fn no_balance<'a>() -> (r: Progress<'a>)
    ensures
        has_no_balance(r),
{
    Progress::Done(
        Err(
            CommandError::Cli(
                CliError::RpcRequestError("Received result of an unexpected type".to_owned()),
            ),
        ),
    )
}

/// The airdrop starts once the balance before it is known.
pub open spec fn starts_airdrop(
    progress: Progress,
    balance: Result<Option<u64>, ClientError>,
    address: SocketAddr,
    to: Pubkey,
    lamports: u64,
    use_lamports_unit: bool,
) -> bool {
    match balance {
        Err(error) => fails_with(progress, CommandError::Client(error)),
        Ok(None) => has_no_balance(progress),
        Ok(Some(previous)) => orders(
            progress,
            AirdropOrder {
                address,
                to,
                lamports,
                after: AfterAirdrop::ShowBalance { previous, use_lamports_unit },
            },
        ),
    }
}

pub(crate) fn start_airdrop<'a>(
    balance: Result<Option<u64>, ClientError>,
    address: SocketAddr,
    to: Pubkey,
    lamports: u64,
    use_lamports_unit: bool,
) -> (r: Progress<'a>)
    ensures
        starts_airdrop(r, balance, address, to, lamports, use_lamports_unit),
{
    match balance {
        Err(error) => Progress::Done(Err(CommandError::Client(error))),
        Ok(None) => no_balance(),
        Ok(Some(previous)) => Progress::Blockhash(
            BlockhashStep {
                next: BlockhashThen::Airdrop(
                    AirdropOrder {
                        address,
                        to,
                        lamports,
                        after: AfterAirdrop::ShowBalance { previous, use_lamports_unit },
                    },
                ),
            },
        ),
    }
}

/// The airdrop ends with the balance, or the one before it where the cluster knows of none.
pub open spec fn shows_new_balance(
    progress: Progress,
    balance: Result<Option<u64>, ClientError>,
    previous: u64,
    use_lamports_unit: bool,
) -> bool {
    match balance {
        Err(error) => fails_with(progress, CommandError::Client(error)),
        Ok(Some(lamports)) => comes_to(progress, balance_text(lamports, use_lamports_unit, true)),
        Ok(None) => comes_to(progress, balance_text(previous, use_lamports_unit, true)),
    }
}

pub(crate) fn show_new_balance<'a>(
    balance: Result<Option<u64>, ClientError>,
    previous: u64,
    use_lamports_unit: bool,
) -> (r: Progress<'a>)
    ensures
        shows_new_balance(r, balance, previous, use_lamports_unit),
{
    match balance {
        Err(error) => Progress::Done(Err(CommandError::Client(error))),
        Ok(lamports) => {
            let current: u64 = match lamports {
                Some(lamports) => lamports,
                None => previous,
            };
            Progress::Done(Ok(build_balance_message(current, use_lamports_unit, true)))
        },
    }
}

} // verus!
