//! What transactions cost, and which blockhash they carry.
use crate::errors::{ClientError, CliError, CommandError};
use crate::keys::Blockhash;
use crate::transaction::{Message, MessageView};
use vstd::prelude::*;

verus! {

/// The price of a signature.
#[derive(Clone, Copy, Debug, PartialEq, Eq, Structural)]
pub struct FeeCalculator {
    pub lamports_per_signature: u64,
}

impl Default for FeeCalculator {
    fn default() -> (r: Self)
        ensures
            r == no_fee(),
    {
        FeeCalculator { lamports_per_signature: 0 }
    }
}

/// Signatures that cost nothing.
pub open spec fn no_fee() -> FeeCalculator {
    FeeCalculator { lamports_per_signature: 0 }
}

impl FeeCalculator {
    /// What `message` costs.
    pub open spec fn fee(self, message: MessageView) -> nat {
        self.lamports_per_signature as nat * message.num_required_signatures as nat
    }

    /// What `message` costs.
    pub fn calculate_fee(&self, message: &Message) -> (r: u128)
        ensures
            r == self.fee(message@),
    {
        let price: u128 = self.lamports_per_signature as u128;
        let count: u128 = message.num_required_signatures as u128;
        assert(price * count <= 0xffff_ffff_ffff_ffff * 255) by (nonlinear_arith)
            requires
                price <= 0xffff_ffff_ffff_ffff,
                count <= 255,
        ;
        assert(0 <= price * count) by (nonlinear_arith)
            requires
                price >= 0,
                count >= 0,
        ;
        price * count
    }
}

/// What the messages cost together.
pub open spec fn total_fee(fee_calculator: FeeCalculator, messages: Seq<MessageView>) -> nat
    decreases messages.len(),
{
    if messages.len() == 0 {
        0
    } else {
        total_fee(fee_calculator, messages.drop_last()) + fee_calculator.fee(messages.last())
    }
}

/// The views of messages.
pub open spec fn message_views(messages: Seq<&Message>) -> Seq<MessageView> {
    messages.map_values(|m: &Message| m@)
}

/// Whether an account with `lamports` can pay for the messages: it has to hold something, and no
/// less than they cost.
pub open spec fn can_pay(
    lamports: u64,
    fee_calculator: FeeCalculator,
    messages: Seq<MessageView>,
) -> bool {
    lamports != 0 && lamports >= total_fee(fee_calculator, messages)
}

/// What checking an account's balance against the price of the messages comes to.
pub open spec fn fee_check(
    balance: Result<Option<u64>, ClientError>,
    fee_calculator: FeeCalculator,
    messages: Seq<MessageView>,
) -> Result<(), CommandError> {
    match balance {
        Err(error) => Err(CommandError::Client(error)),
        Ok(Some(lamports)) if can_pay(lamports, fee_calculator, messages) => Ok(()),
        Ok(_) => Err(CommandError::Cli(CliError::InsufficientFundsForFee)),
    }
}

/// Whether the account with this balance can pay for the message.
pub fn check_account_for_fee(
    balance: Result<Option<u64>, ClientError>,
    fee_calculator: &FeeCalculator,
    message: &Message,
) -> (r: Result<(), CommandError>)
    ensures
        r == fee_check(balance, *fee_calculator, seq![message@]),
{
    let messages: Vec<&Message> = vec![message];
    assert(message_views(messages@) =~= seq![message@]);
    check_account_for_multiple_fees(balance, fee_calculator, &messages)
}

proof fn lemma_total_fee_grows(fee_calculator: FeeCalculator, messages: Seq<MessageView>, n: int)
    requires
        0 <= n <= messages.len(),
    ensures
        total_fee(fee_calculator, messages.take(n)) <= total_fee(fee_calculator, messages),
    decreases messages.len() - n,
{
    if n < messages.len() {
        lemma_total_fee_grows(fee_calculator, messages, n + 1);
        assert(messages.take(n + 1).drop_last() =~= messages.take(n));
    } else {
        assert(messages.take(n) =~= messages);
    }
}

/// Whether the account with this balance can pay for all of the messages.
pub fn check_account_for_multiple_fees(
    balance: Result<Option<u64>, ClientError>,
    fee_calculator: &FeeCalculator,
    messages: &Vec<&Message>,
) -> (r: Result<(), CommandError>)
    ensures
        r == fee_check(balance, *fee_calculator, message_views(messages@)),
{
    let lamports: u64 = match balance {
        Err(error) => {
            return Err(CommandError::Client(error));
        },
        Ok(None) => {
            return Err(CommandError::Cli(CliError::InsufficientFundsForFee));
        },
        Ok(Some(lamports)) => lamports,
    };
    let ghost views = message_views(messages@);
    if lamports == 0 {
        return Err(CommandError::Cli(CliError::InsufficientFundsForFee));
    }
    let mut left: u64 = lamports;
    let mut i: usize = 0;
    assert(views.take(0) =~= Seq::empty());
    while i < messages.len()
        invariant
            i <= messages@.len(),
            views == message_views(messages@),
            left <= lamports,
            lamports - left == total_fee(*fee_calculator, views.take(i as int)),
            balance == Ok::<Option<u64>, ClientError>(Some(lamports)),
        decreases messages.len() - i,
    {
        let fee: u128 = fee_calculator.calculate_fee(messages[i]);
        assert(views.take(i + 1).drop_last() =~= views.take(i as int));
        assert(views.take(i + 1).last() == messages@[i as int]@);
        if fee > left as u128 {
            proof {
                lemma_total_fee_grows(*fee_calculator, views, i + 1);
            }
            return Err(CommandError::Cli(CliError::InsufficientFundsForFee));
        }
        left = left - fee as u64;
        i += 1;
    }
    assert(views.take(i as int) =~= views);
    Ok(())
}

/// Where a transaction's blockhash and fees come from.
#[derive(Clone, Copy, Debug, PartialEq, Eq)]
pub enum BlockhashQuery {
    /// Both are given.
    Given(Blockhash, FeeCalculator),
    /// The blockhash is given, the fees are the cluster's.
    FeeCalculator(Blockhash),
    /// Both are the cluster's.
    All,
}

/// Whether the cluster has to be asked for a recent blockhash and its fees.
pub open spec fn asks_cluster(sign_only: bool, blockhash: Option<Blockhash>) -> bool {
    !(sign_only && blockhash is Some)
}

/// The blockhash that was given, or else the recent one; no fees for a transaction that is only
/// signed at a given blockhash, or else the recent ones.
pub open spec fn blockhash_and_fees(
    recent: Result<(Blockhash, FeeCalculator), ClientError>,
    sign_only: bool,
    blockhash: Option<Blockhash>,
) -> Result<(Blockhash, FeeCalculator), CommandError> {
    match (blockhash, recent) {
        (Some(hash), _) if sign_only => Ok((hash, no_fee())),
        (_, Err(error)) => Err(CommandError::Client(error)),
        (Some(hash), Ok(recent)) => Ok((hash, recent.1)),
        (None, Ok(recent)) => Ok(recent),
    }
}

/// The blockhash and fees of a transaction, given what the cluster says of recent ones.  Where
/// the transaction is only signed, at a given blockhash, what the cluster says plays no part.
pub fn get_blockhash_fee_calculator(
    recent: Result<(Blockhash, FeeCalculator), ClientError>,
    sign_only: bool,
    blockhash: Option<Blockhash>,
) -> (r: Result<(Blockhash, FeeCalculator), CommandError>)
    ensures
        r == blockhash_and_fees(recent, sign_only, blockhash),
{
    if let Some(blockhash) = blockhash {
        if sign_only {
            Ok((blockhash, FeeCalculator::default()))
        } else {
            match recent {
                Ok((_, fee_calculator)) => Ok((blockhash, fee_calculator)),
                Err(error) => Err(CommandError::Client(error)),
            }
        }
    } else {
        match recent {
            Ok(recent) => Ok(recent),
            Err(error) => Err(CommandError::Client(error)),
        }
    }
}

impl BlockhashQuery {
    /// The query for these arguments.
    pub open spec fn spec_new(blockhash: Option<Blockhash>, sign_only: bool) -> Self {
        match blockhash {
            Some(hash) if sign_only => BlockhashQuery::Given(hash, no_fee()),
            Some(hash) => BlockhashQuery::FeeCalculator(hash),
            None => BlockhashQuery::All,
        }
    }

    /// The query for these arguments.  A transaction that is only signed has its blockhash given.
    pub fn new(blockhash: Option<Blockhash>, sign_only: bool) -> (r: Self)
        requires
            sign_only ==> blockhash is Some,
        ensures
            r == Self::spec_new(blockhash, sign_only),
    {
        match blockhash {
            Some(hash) => if sign_only {
                BlockhashQuery::Given(hash, FeeCalculator::default())
            } else {
                BlockhashQuery::FeeCalculator(hash)
            },
            None => BlockhashQuery::All,
        }
    }

    /// The blockhash and fees, where the cluster need not be asked.
    pub open spec fn known(self) -> Option<(Blockhash, FeeCalculator)> {
        match self {
            BlockhashQuery::Given(hash, fee_calculator) => Some((hash, fee_calculator)),
            _ => None,
        }
    }

    /// The blockhash and fees, given the cluster's recent ones.
    pub open spec fn with_recent(
        self,
        recent: (Blockhash, FeeCalculator),
    ) -> (Blockhash, FeeCalculator) {
        match self {
            BlockhashQuery::Given(hash, fee_calculator) => (hash, fee_calculator),
            BlockhashQuery::FeeCalculator(hash) => (hash, recent.1),
            BlockhashQuery::All => recent,
        }
    }

    /// The blockhash and fees, where the cluster need not be asked.
    pub fn given(&self) -> (r: Option<(Blockhash, FeeCalculator)>)
        ensures
            r == self.known(),
    {
        match self {
            BlockhashQuery::Given(hash, fee_calculator) => Some((*hash, *fee_calculator)),
            _ => None,
        }
    }

    /// The blockhash and fees, given the cluster's recent ones.
    pub fn get_blockhash_fee_calculator(
        &self,
        recent: (Blockhash, FeeCalculator),
    ) -> (r: (Blockhash, FeeCalculator))
        ensures
            r == self.with_recent(recent),
    {
        match self {
            BlockhashQuery::Given(hash, fee_calculator) => (*hash, *fee_calculator),
            BlockhashQuery::FeeCalculator(hash) => (*hash, recent.1),
            BlockhashQuery::All => recent,
        }
    }
}

impl Default for BlockhashQuery {
    fn default() -> (r: Self)
        ensures
            r == BlockhashQuery::All,
    {
        BlockhashQuery::All
    }
}

/// A query made from arguments asks the cluster exactly when the arguments leave something open,
/// and comes to the same blockhash and fees as the arguments themselves.
pub proof fn lemma_query_agrees_with_arguments(
    recent: (Blockhash, FeeCalculator),
    sign_only: bool,
    blockhash: Option<Blockhash>,
)
    requires
        sign_only ==> blockhash is Some,
    ensures
        BlockhashQuery::spec_new(blockhash, sign_only).known() is Some <==> !asks_cluster(
            sign_only,
            blockhash,
        ),
        blockhash_and_fees(Ok(recent), sign_only, blockhash) == Ok::<
            (Blockhash, FeeCalculator),
            CommandError,
        >(BlockhashQuery::spec_new(blockhash, sign_only).with_recent(recent)),
{
}

/// An empty account pays for nothing, and one that pays for a list of messages pays for fewer.
pub proof fn lemma_paying_for_fewer(
    lamports: u64,
    fee_calculator: FeeCalculator,
    messages: Seq<MessageView>,
    n: int,
)
    requires
        0 <= n <= messages.len(),
    ensures
        !can_pay(0, fee_calculator, messages),
        can_pay(lamports, fee_calculator, messages) ==> can_pay(
            lamports,
            fee_calculator,
            messages.take(n),
        ),
{
    lemma_total_fee_grows(fee_calculator, messages, n);
}

} // verus!
