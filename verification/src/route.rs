//! Which subcommand stands for which command.
use crate::command::{StakeAuthorize, VoteAuthorize};
use crate::text::text_eq;
use vstd::prelude::*;

verus! {

/// A subcommand whose arguments another module reads.
#[derive(Clone, Copy, Debug, PartialEq, Eq)]
pub enum ModuleParser {
    // Cluster Query Commands
    Catchup,
    GetBlockTime,
    GetEpochInfo,
    GetSlot,
    GetTransactionCount,
    Ping,
    ShowBlockProduction,
    ShowStakes,
    ShowValidators,
    // Nonce Commands
    AuthorizeNonceAccount,
    CreateNonceAccount,
    GetNonce,
    NewNonce,
    ShowNonceAccount,
    WithdrawFromNonceAccount,
    // Stake Commands
    CreateStakeAccount,
    DelegateStake,
    WithdrawStake,
    DeactivateStake,
    SplitStake,
    StakeAuthorize(StakeAuthorize),
    StakeSetLockup,
    ShowStakeAccount,
    ShowStakeHistory,
    // Storage Commands
    CreateArchiverStorageAccount,
    CreateValidatorStorageAccount,
    ClaimStorageReward,
    ShowStorageAccount,
    // Validator Info Commands
    SetValidatorInfo,
    GetValidatorInfo,
    // Vote Commands
    CreateVoteAccount,
    VoteUpdateValidator,
    VoteAuthorize(VoteAuthorize),
    ShowVoteAccount,
}

/// What a subcommand's name leads to.
#[derive(Clone, Copy, Debug, PartialEq, Eq)]
pub enum Route {
    // Commands without arguments
    ClusterVersion,
    Fees,
    GenesisHash,
    LeaderSchedule,
    Gossip,
    Address,
    // Commands whose arguments are read here
    CreateAddressWithSeed,
    Deploy,
    Airdrop,
    Balance,
    Cancel,
    Confirm,
    Pay,
    Account,
    SendSignature,
    SendTimestamp,
    Transfer,
    // Commands whose arguments another module reads
    Module(ModuleParser),
    /// A command with subcommands of its own.
    ValidatorInfo,
}

/// Where the names of the cluster query commands lead.
pub open spec fn cluster_route(name: Seq<char>) -> Option<Route> {
    if name == "catchup"@ {
        Some(Route::Module(ModuleParser::Catchup))
    } else if name == "cluster-version"@ {
        Some(Route::ClusterVersion)
    } else if name == "create-address-with-seed"@ {
        Some(Route::CreateAddressWithSeed)
    } else if name == "fees"@ {
        Some(Route::Fees)
    } else if name == "block-time"@ {
        Some(Route::Module(ModuleParser::GetBlockTime))
    } else if name == "epoch-info"@ {
        Some(Route::Module(ModuleParser::GetEpochInfo))
    } else if name == "genesis-hash"@ {
        Some(Route::GenesisHash)
    } else if name == "slot"@ {
        Some(Route::Module(ModuleParser::GetSlot))
    } else if name == "transaction-count"@ {
        Some(Route::Module(ModuleParser::GetTransactionCount))
    } else if name == "leader-schedule"@ {
        Some(Route::LeaderSchedule)
    } else if name == "ping"@ {
        Some(Route::Module(ModuleParser::Ping))
    } else if name == "block-production"@ {
        Some(Route::Module(ModuleParser::ShowBlockProduction))
    } else if name == "gossip"@ {
        Some(Route::Gossip)
    } else if name == "stakes"@ {
        Some(Route::Module(ModuleParser::ShowStakes))
    } else if name == "validators"@ {
        Some(Route::Module(ModuleParser::ShowValidators))
    } else {
        None
    }
}

/// Where the names of the nonce commands, and of program deployment, lead.
pub open spec fn nonce_route(name: Seq<char>) -> Option<Route> {
    if name == "authorize-nonce-account"@ {
        Some(Route::Module(ModuleParser::AuthorizeNonceAccount))
    } else if name == "create-nonce-account"@ {
        Some(Route::Module(ModuleParser::CreateNonceAccount))
    } else if name == "nonce"@ {
        Some(Route::Module(ModuleParser::GetNonce))
    } else if name == "new-nonce"@ {
        Some(Route::Module(ModuleParser::NewNonce))
    } else if name == "nonce-account"@ {
        Some(Route::Module(ModuleParser::ShowNonceAccount))
    } else if name == "withdraw-from-nonce-account"@ {
        Some(Route::Module(ModuleParser::WithdrawFromNonceAccount))
    } else if name == "deploy"@ {
        Some(Route::Deploy)
    } else {
        None
    }
}

/// Where the names of the stake commands lead.
pub open spec fn stake_route(name: Seq<char>) -> Option<Route> {
    if name == "create-stake-account"@ {
        Some(Route::Module(ModuleParser::CreateStakeAccount))
    } else if name == "delegate-stake"@ {
        Some(Route::Module(ModuleParser::DelegateStake))
    } else if name == "withdraw-stake"@ {
        Some(Route::Module(ModuleParser::WithdrawStake))
    } else if name == "deactivate-stake"@ {
        Some(Route::Module(ModuleParser::DeactivateStake))
    } else if name == "split-stake"@ {
        Some(Route::Module(ModuleParser::SplitStake))
    } else if name == "stake-authorize-staker"@ {
        Some(Route::Module(ModuleParser::StakeAuthorize(StakeAuthorize::Staker)))
    } else if name == "stake-authorize-withdrawer"@ {
        Some(Route::Module(ModuleParser::StakeAuthorize(StakeAuthorize::Withdrawer)))
    } else if name == "stake-set-lockup"@ {
        Some(Route::Module(ModuleParser::StakeSetLockup))
    } else if name == "stake-account"@ {
        Some(Route::Module(ModuleParser::ShowStakeAccount))
    } else if name == "stake-history"@ {
        Some(Route::Module(ModuleParser::ShowStakeHistory))
    } else {
        None
    }
}

/// Where the names of the storage, validator info and vote commands lead.
pub open spec fn storage_and_vote_route(name: Seq<char>) -> Option<Route> {
    if name == "create-archiver-storage-account"@ {
        Some(Route::Module(ModuleParser::CreateArchiverStorageAccount))
    } else if name == "create-validator-storage-account"@ {
        Some(Route::Module(ModuleParser::CreateValidatorStorageAccount))
    } else if name == "claim-storage-reward"@ {
        Some(Route::Module(ModuleParser::ClaimStorageReward))
    } else if name == "storage-account"@ {
        Some(Route::Module(ModuleParser::ShowStorageAccount))
    } else if name == "validator-info"@ {
        Some(Route::ValidatorInfo)
    } else if name == "create-vote-account"@ {
        Some(Route::Module(ModuleParser::CreateVoteAccount))
    } else if name == "vote-update-validator"@ {
        Some(Route::Module(ModuleParser::VoteUpdateValidator))
    } else if name == "vote-authorize-voter"@ {
        Some(Route::Module(ModuleParser::VoteAuthorize(VoteAuthorize::Voter)))
    } else if name == "vote-authorize-withdrawer"@ {
        Some(Route::Module(ModuleParser::VoteAuthorize(VoteAuthorize::Withdrawer)))
    } else if name == "vote-account"@ {
        Some(Route::Module(ModuleParser::ShowVoteAccount))
    } else {
        None
    }
}

/// Where the names of the wallet commands lead.
pub open spec fn wallet_route(name: Seq<char>) -> Option<Route> {
    if name == "address"@ {
        Some(Route::Address)
    } else if name == "airdrop"@ {
        Some(Route::Airdrop)
    } else if name == "balance"@ {
        Some(Route::Balance)
    } else if name == "cancel"@ {
        Some(Route::Cancel)
    } else if name == "confirm"@ {
        Some(Route::Confirm)
    } else if name == "pay"@ {
        Some(Route::Pay)
    } else if name == "account"@ {
        Some(Route::Account)
    } else if name == "send-signature"@ {
        Some(Route::SendSignature)
    } else if name == "send-timestamp"@ {
        Some(Route::SendTimestamp)
    } else if name == "transfer"@ {
        Some(Route::Transfer)
    } else {
        None
    }
}

/// Where a subcommand's name leads.
pub open spec fn route(name: Seq<char>) -> Option<Route> {
    if cluster_route(name) is Some {
        cluster_route(name)
    } else if nonce_route(name) is Some {
        nonce_route(name)
    } else if stake_route(name) is Some {
        stake_route(name)
    } else if storage_and_vote_route(name) is Some {
        storage_and_vote_route(name)
    } else {
        wallet_route(name)
    }
}

/// Where the names of the validator info subcommands lead.
pub open spec fn validator_info_route(name: Seq<char>) -> Option<ModuleParser> {
    if name == "publish"@ {
        Some(ModuleParser::SetValidatorInfo)
    } else if name == "get"@ {
        Some(ModuleParser::GetValidatorInfo)
    } else {
        None
    }
}

fn find_cluster_route(name: &str) -> (r: Option<Route>)
    ensures
        r == cluster_route(name@),
{
    if text_eq(name, "catchup") {
        Some(Route::Module(ModuleParser::Catchup))
    } else if text_eq(name, "cluster-version") {
        Some(Route::ClusterVersion)
    } else if text_eq(name, "create-address-with-seed") {
        Some(Route::CreateAddressWithSeed)
    } else if text_eq(name, "fees") {
        Some(Route::Fees)
    } else if text_eq(name, "block-time") {
        Some(Route::Module(ModuleParser::GetBlockTime))
    } else if text_eq(name, "epoch-info") {
        Some(Route::Module(ModuleParser::GetEpochInfo))
    } else if text_eq(name, "genesis-hash") {
        Some(Route::GenesisHash)
    } else if text_eq(name, "slot") {
        Some(Route::Module(ModuleParser::GetSlot))
    } else if text_eq(name, "transaction-count") {
        Some(Route::Module(ModuleParser::GetTransactionCount))
    } else if text_eq(name, "leader-schedule") {
        Some(Route::LeaderSchedule)
    } else if text_eq(name, "ping") {
        Some(Route::Module(ModuleParser::Ping))
    } else if text_eq(name, "block-production") {
        Some(Route::Module(ModuleParser::ShowBlockProduction))
    } else if text_eq(name, "gossip") {
        Some(Route::Gossip)
    } else if text_eq(name, "stakes") {
        Some(Route::Module(ModuleParser::ShowStakes))
    } else if text_eq(name, "validators") {
        Some(Route::Module(ModuleParser::ShowValidators))
    } else {
        None
    }
}

fn find_nonce_route(name: &str) -> (r: Option<Route>)
    ensures
        r == nonce_route(name@),
{
    if text_eq(name, "authorize-nonce-account") {
        Some(Route::Module(ModuleParser::AuthorizeNonceAccount))
    } else if text_eq(name, "create-nonce-account") {
        Some(Route::Module(ModuleParser::CreateNonceAccount))
    } else if text_eq(name, "nonce") {
        Some(Route::Module(ModuleParser::GetNonce))
    } else if text_eq(name, "new-nonce") {
        Some(Route::Module(ModuleParser::NewNonce))
    } else if text_eq(name, "nonce-account") {
        Some(Route::Module(ModuleParser::ShowNonceAccount))
    } else if text_eq(name, "withdraw-from-nonce-account") {
        Some(Route::Module(ModuleParser::WithdrawFromNonceAccount))
    } else if text_eq(name, "deploy") {
        Some(Route::Deploy)
    } else {
        None
    }
}

fn find_stake_route(name: &str) -> (r: Option<Route>)
    ensures
        r == stake_route(name@),
{
    if text_eq(name, "create-stake-account") {
        Some(Route::Module(ModuleParser::CreateStakeAccount))
    } else if text_eq(name, "delegate-stake") {
        Some(Route::Module(ModuleParser::DelegateStake))
    } else if text_eq(name, "withdraw-stake") {
        Some(Route::Module(ModuleParser::WithdrawStake))
    } else if text_eq(name, "deactivate-stake") {
        Some(Route::Module(ModuleParser::DeactivateStake))
    } else if text_eq(name, "split-stake") {
        Some(Route::Module(ModuleParser::SplitStake))
    } else if text_eq(name, "stake-authorize-staker") {
        Some(Route::Module(ModuleParser::StakeAuthorize(StakeAuthorize::Staker)))
    } else if text_eq(name, "stake-authorize-withdrawer") {
        Some(Route::Module(ModuleParser::StakeAuthorize(StakeAuthorize::Withdrawer)))
    } else if text_eq(name, "stake-set-lockup") {
        Some(Route::Module(ModuleParser::StakeSetLockup))
    } else if text_eq(name, "stake-account") {
        Some(Route::Module(ModuleParser::ShowStakeAccount))
    } else if text_eq(name, "stake-history") {
        Some(Route::Module(ModuleParser::ShowStakeHistory))
    } else {
        None
    }
}

fn find_storage_and_vote_route(name: &str) -> (r: Option<Route>)
    ensures
        r == storage_and_vote_route(name@),
{
    if text_eq(name, "create-archiver-storage-account") {
        Some(Route::Module(ModuleParser::CreateArchiverStorageAccount))
    } else if text_eq(name, "create-validator-storage-account") {
        Some(Route::Module(ModuleParser::CreateValidatorStorageAccount))
    } else if text_eq(name, "claim-storage-reward") {
        Some(Route::Module(ModuleParser::ClaimStorageReward))
    } else if text_eq(name, "storage-account") {
        Some(Route::Module(ModuleParser::ShowStorageAccount))
    } else if text_eq(name, "validator-info") {
        Some(Route::ValidatorInfo)
    } else if text_eq(name, "create-vote-account") {
        Some(Route::Module(ModuleParser::CreateVoteAccount))
    } else if text_eq(name, "vote-update-validator") {
        Some(Route::Module(ModuleParser::VoteUpdateValidator))
    } else if text_eq(name, "vote-authorize-voter") {
        Some(Route::Module(ModuleParser::VoteAuthorize(VoteAuthorize::Voter)))
    } else if text_eq(name, "vote-authorize-withdrawer") {
        Some(Route::Module(ModuleParser::VoteAuthorize(VoteAuthorize::Withdrawer)))
    } else if text_eq(name, "vote-account") {
        Some(Route::Module(ModuleParser::ShowVoteAccount))
    } else {
        None
    }
}

fn find_wallet_route(name: &str) -> (r: Option<Route>)
    ensures
        r == wallet_route(name@),
{
    if text_eq(name, "address") {
        Some(Route::Address)
    } else if text_eq(name, "airdrop") {
        Some(Route::Airdrop)
    } else if text_eq(name, "balance") {
        Some(Route::Balance)
    } else if text_eq(name, "cancel") {
        Some(Route::Cancel)
    } else if text_eq(name, "confirm") {
        Some(Route::Confirm)
    } else if text_eq(name, "pay") {
        Some(Route::Pay)
    } else if text_eq(name, "account") {
        Some(Route::Account)
    } else if text_eq(name, "send-signature") {
        Some(Route::SendSignature)
    } else if text_eq(name, "send-timestamp") {
        Some(Route::SendTimestamp)
    } else if text_eq(name, "transfer") {
        Some(Route::Transfer)
    } else {
        None
    }
}

/// Where a validator info subcommand's name leads.
pub fn find_validator_info_route(name: &str) -> (r: Option<ModuleParser>)
    ensures
        r == validator_info_route(name@),
{
    if text_eq(name, "publish") {
        Some(ModuleParser::SetValidatorInfo)
    } else if text_eq(name, "get") {
        Some(ModuleParser::GetValidatorInfo)
    } else {
        None
    }
}

/// Where a subcommand's name leads.
pub fn find_route(name: &str) -> (r: Option<Route>)
    ensures
        r == route(name@),
{
    if let Some(found) = find_cluster_route(name) {
        return Some(found);
    }
    if let Some(found) = find_nonce_route(name) {
        return Some(found);
    }
    if let Some(found) = find_stake_route(name) {
        return Some(found);
    }
    if let Some(found) = find_storage_and_vote_route(name) {
        return Some(found);
    }
    find_wallet_route(name)
}

} // verus!
