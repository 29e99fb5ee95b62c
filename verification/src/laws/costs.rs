//! Fees, and the blockhashes that they go with.
use crate::deploy::{deployment_messages, tx_views};
use crate::errors::{CliError, ClientError, CommandError};
use crate::fees::{
    check_account_for_fee, check_account_for_multiple_fees, get_blockhash_fee_calculator,
    message_views, total_fee, BlockhashQuery, FeeCalculator,
};
use crate::keys::Blockhash;
use crate::laws::steps::goes_on_from_balance;
use crate::progress::{
    BalanceStep, BalanceThen, Deployment, Progress, Resigners, SendThen, Submission,
};
use crate::transaction::{Message, MessageView};
use vstd::prelude::*;

verus! {

/// How many signatures the messages need together.
pub open spec fn signatures_needed(messages: Seq<MessageView>) -> nat
    decreases messages.len(),
{
    if messages.len() == 0 {
        0
    } else {
        messages[0].num_required_signatures as nat + signatures_needed(messages.skip(1))
    }
}

/// The account with this balance has something, and enough for each signature to be paid for.
pub open spec fn is_enough(lamports: u64, fees: FeeCalculator, messages: Seq<MessageView>) -> bool {
    lamports > 0 && lamports >= fees.lamports_per_signature as nat * signatures_needed(messages)
}

proof fn lemma_needed_last(messages: Seq<MessageView>)
    requires
        messages.len() > 0,
    ensures
        signatures_needed(messages) == signatures_needed(messages.drop_last())
            + messages.last().num_required_signatures,
    decreases messages.len(),
{
    if messages.len() == 1 {
        assert(messages.skip(1) =~= Seq::empty());
        assert(messages.drop_last() =~= Seq::empty());
        assert(signatures_needed(messages.skip(1)) == 0);
        assert(signatures_needed(messages.drop_last()) == 0);
    } else {
        lemma_needed_last(messages.skip(1));
        assert(messages.skip(1).drop_last() =~= messages.drop_last().skip(1));
        assert(messages.skip(1).last() == messages.last());
        assert(messages.drop_last()[0] == messages[0]);
    }
}

pub(crate) proof fn lemma_total_fee(fees: FeeCalculator, messages: Seq<MessageView>)
    ensures
        total_fee(fees, messages) == fees.lamports_per_signature as nat * signatures_needed(
            messages,
        ),
    decreases messages.len(),
{
    let price = fees.lamports_per_signature as nat;
    if messages.len() > 0 {
        lemma_total_fee(fees, messages.drop_last());
        lemma_needed_last(messages);
        let a = signatures_needed(messages.drop_last());
        let b = messages.last().num_required_signatures as nat;
        assert(price * (a + b) == price * a + price * b) by (nonlinear_arith);
    } else {
        assert(price * 0 == 0) by (nonlinear_arith);
    }
}

/// A message costs as much as each of the signatures that it needs.
pub proof fn lemma_messages_cost_their_signatures(
    fees: &FeeCalculator,
    message: &Message,
    fee: u128,
)
    requires
        call_ensures(FeeCalculator::calculate_fee, (fees, message), fee),
    ensures
        fee == fees.lamports_per_signature as nat * message.num_required_signatures as nat,
{
}

/// An account passes the check exactly where it has something and enough to pay for every signature
/// of every message.  One that the cluster does not know, or that has less, is refused for that, and
/// a failure to ask is reported as it is.
pub proof fn lemma_accounts_pay_for_every_signature(
    balance: Result<Option<u64>, ClientError>,
    fees: &FeeCalculator,
    messages: &Vec<&Message>,
    checked: Result<(), CommandError>,
)
    requires
        call_ensures(check_account_for_multiple_fees, (balance, fees, messages), checked),
    ensures
        checked is Ok <==> balance is Ok && balance->Ok_0 is Some && is_enough(
            balance->Ok_0->0,
            *fees,
            message_views(messages@),
        ),
        balance matches Err(error) ==> checked == Err::<(), CommandError>(
            CommandError::Client(error),
        ),
        balance is Ok && checked is Err ==> checked == Err::<(), CommandError>(
            CommandError::Cli(CliError::InsufficientFundsForFee),
        ),
{
    lemma_total_fee(*fees, message_views(messages@));
}

/// The same of one message.
pub proof fn lemma_accounts_pay_for_one_message(
    balance: Result<Option<u64>, ClientError>,
    fees: &FeeCalculator,
    message: &Message,
    checked: Result<(), CommandError>,
)
    requires
        call_ensures(check_account_for_fee, (balance, fees, message), checked),
    ensures
        checked is Ok <==> balance is Ok && balance->Ok_0 is Some && balance->Ok_0->0 > 0
            && balance->Ok_0->0 >= fees.lamports_per_signature as nat
            * message.num_required_signatures as nat,
        balance matches Err(error) ==> checked == Err::<(), CommandError>(
            CommandError::Client(error),
        ),
        balance is Ok && checked is Err ==> checked == Err::<(), CommandError>(
            CommandError::Cli(CliError::InsufficientFundsForFee),
        ),
{
    let one = seq![message@];
    lemma_total_fee(*fees, one);
    assert(one.skip(1) =~= Seq::empty());
    assert(signatures_needed(one.skip(1)) == 0);
    assert(signatures_needed(one) == message.num_required_signatures as nat);
}

/// A transaction that waits for a balance is sent as it is exactly where the account has something
/// and can pay for every one of its signatures, to be signed again by the same key pairs.
pub proof fn lemma_transactions_are_sent_where_they_are_paid_for(
    step: BalanceStep,
    held: Submission,
    balance: Result<Option<u64>, ClientError>,
    after: Progress,
)
    requires
        step.next == BalanceThen::Fee(held),
        goes_on_from_balance(step, balance, after),
    ensures
        match balance {
            Err(error) => after == Progress::Done(Err(CommandError::Client(error))),
            Ok(None) => after == Progress::Done(
                Err(CommandError::Cli(CliError::InsufficientFundsForFee)),
            ),
            Ok(Some(lamports)) => if lamports > 0 && lamports
                >= held.fee_calculator.lamports_per_signature as nat
                * held.tx@.message.num_required_signatures as nat {
                &&& after matches Progress::Send(sent)
                &&& sent.tx == held.tx
                &&& sent.signers == Resigners::Keypairs(held.signers)
                &&& sent.next == (SendThen::Report { domain: held.domain, receipt: held.receipt })
            } else {
                after == Progress::Done(Err(CommandError::Cli(CliError::InsufficientFundsForFee)))
            },
        },
{
    let one = seq![held.tx@.message];
    lemma_total_fee(held.fee_calculator, one);
    assert(one.skip(1) =~= Seq::empty());
    assert(signatures_needed(one.skip(1)) == 0);
    assert(signatures_needed(one) == held.tx@.message.num_required_signatures as nat);
}

/// The messages of a deployment, in the order in which they are sent.
pub open spec fn messages_of(deployment: Deployment) -> Seq<MessageView> {
    seq![deployment.create@.message] + Seq::new(
        deployment.writes@.len(),
        |i: int| deployment.writes@[i]@.message,
    ) + seq![deployment.finalize@.message]
}

/// A deployment starts exactly where the client has something and can pay for every signature of
/// every one of its transactions.
pub proof fn lemma_deployments_start_where_they_are_paid_for(
    step: BalanceStep,
    deployment: Deployment,
    balance: Result<Option<u64>, ClientError>,
    after: Progress,
)
    requires
        step.next == BalanceThen::DeployFees(deployment),
        goes_on_from_balance(step, balance, after),
    ensures
        match balance {
            Err(error) => after == Progress::Done(Err(CommandError::Client(error))),
            Ok(None) => after == Progress::Done(
                Err(CommandError::Cli(CliError::InsufficientFundsForFee)),
            ),
            Ok(Some(lamports)) => if is_enough(
                lamports,
                deployment.fee_calculator,
                messages_of(deployment),
            ) {
                after matches Progress::Send(sent) && sent.tx == deployment.create
            } else {
                after == Progress::Done(Err(CommandError::Cli(CliError::InsufficientFundsForFee)))
            },
        },
{
    let wanted = deployment_messages(
        deployment.create@,
        tx_views(deployment.writes@),
        deployment.finalize@,
    );
    assert(wanted =~= messages_of(deployment));
    lemma_total_fee(deployment.fee_calculator, wanted);
}

/// A blockhash that was given is the one that is used.  The fees are the cluster's, but for a
/// transaction that is only signed at a given blockhash, which has none and needs no answer.
pub proof fn lemma_given_blockhashes_are_used(
    recent: Result<(Blockhash, FeeCalculator), ClientError>,
    sign_only: bool,
    blockhash: Option<Blockhash>,
    found: Result<(Blockhash, FeeCalculator), CommandError>,
)
    requires
        call_ensures(get_blockhash_fee_calculator, (recent, sign_only, blockhash), found),
    ensures
        found matches Ok(pair) ==> {
            &&& blockhash matches Some(given) ==> pair.0 == given
            &&& blockhash is None ==> pair.0 == recent->Ok_0.0
            &&& if sign_only && blockhash is Some {
                pair.1.lamports_per_signature == 0
            } else {
                pair.1 == recent->Ok_0.1
            }
        },
        found is Err <==> recent is Err && !(sign_only && blockhash is Some),
        found matches Err(error) ==> recent matches Err(client) && error == CommandError::Client(
            client,
        ),
{
}

/// The same of a blockhash query.
pub proof fn lemma_queries_use_given_blockhashes(
    blockhash: Option<Blockhash>,
    sign_only: bool,
    query: BlockhashQuery,
    given: Option<(Blockhash, FeeCalculator)>,
    recent: (Blockhash, FeeCalculator),
    found: (Blockhash, FeeCalculator),
)
    requires
        sign_only ==> blockhash is Some,
        call_ensures(BlockhashQuery::new, (blockhash, sign_only), query),
        call_ensures(BlockhashQuery::given, (&query,), given),
        call_ensures(BlockhashQuery::get_blockhash_fee_calculator, (&query, recent), found),
    ensures
        given is Some <==> sign_only,
        given matches Some(pair) ==> pair == found,
        blockhash matches Some(hash) ==> found.0 == hash,
        blockhash is None ==> found.0 == recent.0,
        sign_only ==> found.1.lamports_per_signature == 0,
        !sign_only ==> found.1 == recent.1,
{
}

} // verus!
