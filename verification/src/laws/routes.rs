//! Which command a name stands for.
use crate::command::{StakeAuthorize, VoteAuthorize};
use crate::route::{find_route, find_validator_info_route, route, ModuleParser, Route};
use vstd::prelude::*;

verus! {

/// What tells the names apart: their lengths, and some of their letters.
pub(crate) proof fn lemma_names()
    ensures
        "catchup"@.len() == 7,
        "catchup"@[0] == 'c',
        "catchup"@[1] == 'a',
        "cluster-version"@.len() == 15,
        "cluster-version"@[0] == 'c',
        "create-address-with-seed"@.len() == 24,
        "fees"@.len() == 4,
        "fees"@[0] == 'f',
        "block-time"@.len() == 10,
        "block-time"@[0] == 'b',
        "epoch-info"@.len() == 10,
        "epoch-info"@[0] == 'e',
        "genesis-hash"@.len() == 12,
        "genesis-hash"@[0] == 'g',
        "slot"@.len() == 4,
        "slot"@[0] == 's',
        "transaction-count"@.len() == 17,
        "leader-schedule"@.len() == 15,
        "leader-schedule"@[0] == 'l',
        "ping"@.len() == 4,
        "ping"@[0] == 'p',
        "block-production"@.len() == 16,
        "block-production"@[0] == 'b',
        "gossip"@.len() == 6,
        "gossip"@[0] == 'g',
        "stakes"@.len() == 6,
        "stakes"@[0] == 's',
        "validators"@.len() == 10,
        "validators"@[0] == 'v',
        "authorize-nonce-account"@.len() == 23,
        "create-nonce-account"@.len() == 20,
        "create-nonce-account"@[0] == 'c',
        "create-nonce-account"@[1] == 'r',
        "create-nonce-account"@[7] == 'n',
        "nonce"@.len() == 5,
        "new-nonce"@.len() == 9,
        "nonce-account"@.len() == 13,
        "nonce-account"@[0] == 'n',
        "withdraw-from-nonce-account"@.len() == 27,
        "deploy"@.len() == 6,
        "deploy"@[0] == 'd',
        "create-stake-account"@.len() == 20,
        "create-stake-account"@[0] == 'c',
        "create-stake-account"@[1] == 'r',
        "create-stake-account"@[7] == 's',
        "delegate-stake"@.len() == 14,
        "delegate-stake"@[0] == 'd',
        "withdraw-stake"@.len() == 14,
        "withdraw-stake"@[0] == 'w',
        "deactivate-stake"@.len() == 16,
        "deactivate-stake"@[0] == 'd',
        "split-stake"@.len() == 11,
        "stake-authorize-staker"@.len() == 22,
        "stake-authorize-withdrawer"@.len() == 26,
        "stake-set-lockup"@.len() == 16,
        "stake-set-lockup"@[0] == 's',
        "stake-account"@.len() == 13,
        "stake-account"@[0] == 's',
        "stake-account"@[6] == 'a',
        "stake-history"@.len() == 13,
        "stake-history"@[0] == 's',
        "stake-history"@[6] == 'h',
        "create-archiver-storage-account"@.len() == 31,
        "create-validator-storage-account"@.len() == 32,
        "claim-storage-reward"@.len() == 20,
        "claim-storage-reward"@[0] == 'c',
        "claim-storage-reward"@[1] == 'l',
        "storage-account"@.len() == 15,
        "storage-account"@[0] == 's',
        "validator-info"@.len() == 14,
        "validator-info"@[0] == 'v',
        "create-vote-account"@.len() == 19,
        "vote-update-validator"@.len() == 21,
        "vote-authorize-voter"@.len() == 20,
        "vote-authorize-voter"@[0] == 'v',
        "vote-authorize-withdrawer"@.len() == 25,
        "vote-account"@.len() == 12,
        "vote-account"@[0] == 'v',
        "address"@.len() == 7,
        "address"@[0] == 'a',
        "address"@[1] == 'd',
        "airdrop"@.len() == 7,
        "airdrop"@[0] == 'a',
        "airdrop"@[1] == 'i',
        "balance"@.len() == 7,
        "balance"@[0] == 'b',
        "cancel"@.len() == 6,
        "cancel"@[0] == 'c',
        "confirm"@.len() == 7,
        "confirm"@[0] == 'c',
        "confirm"@[1] == 'o',
        "pay"@.len() == 3,
        "account"@.len() == 7,
        "account"@[0] == 'a',
        "account"@[1] == 'c',
        "send-signature"@.len() == 14,
        "send-signature"@[0] == 's',
        "send-signature"@[5] == 's',
        "send-timestamp"@.len() == 14,
        "send-timestamp"@[0] == 's',
        "send-timestamp"@[5] == 't',
        "transfer"@.len() == 8,
{
    reveal_strlit("catchup");
    reveal_strlit("cluster-version");
    reveal_strlit("create-address-with-seed");
    reveal_strlit("fees");
    reveal_strlit("block-time");
    reveal_strlit("epoch-info");
    reveal_strlit("genesis-hash");
    reveal_strlit("slot");
    reveal_strlit("transaction-count");
    reveal_strlit("leader-schedule");
    reveal_strlit("ping");
    reveal_strlit("block-production");
    reveal_strlit("gossip");
    reveal_strlit("stakes");
    reveal_strlit("validators");
    reveal_strlit("authorize-nonce-account");
    reveal_strlit("create-nonce-account");
    reveal_strlit("nonce");
    reveal_strlit("new-nonce");
    reveal_strlit("nonce-account");
    reveal_strlit("withdraw-from-nonce-account");
    reveal_strlit("deploy");
    reveal_strlit("create-stake-account");
    reveal_strlit("delegate-stake");
    reveal_strlit("withdraw-stake");
    reveal_strlit("deactivate-stake");
    reveal_strlit("split-stake");
    reveal_strlit("stake-authorize-staker");
    reveal_strlit("stake-authorize-withdrawer");
    reveal_strlit("stake-set-lockup");
    reveal_strlit("stake-account");
    reveal_strlit("stake-history");
    reveal_strlit("create-archiver-storage-account");
    reveal_strlit("create-validator-storage-account");
    reveal_strlit("claim-storage-reward");
    reveal_strlit("storage-account");
    reveal_strlit("validator-info");
    reveal_strlit("create-vote-account");
    reveal_strlit("vote-update-validator");
    reveal_strlit("vote-authorize-voter");
    reveal_strlit("vote-authorize-withdrawer");
    reveal_strlit("vote-account");
    reveal_strlit("address");
    reveal_strlit("airdrop");
    reveal_strlit("balance");
    reveal_strlit("cancel");
    reveal_strlit("confirm");
    reveal_strlit("pay");
    reveal_strlit("account");
    reveal_strlit("send-signature");
    reveal_strlit("send-timestamp");
    reveal_strlit("transfer");
}

/// Every name stands for its own command, and every command for its own name.
pub open spec fn stands_for_its_own(name: Seq<char>, found: Option<Route>) -> bool {
    &&& name == "catchup"@ <==> found == Some(Route::Module(ModuleParser::Catchup))
    &&& name == "cluster-version"@ <==> found == Some(Route::ClusterVersion)
    &&& name == "create-address-with-seed"@ <==> found == Some(Route::CreateAddressWithSeed)
    &&& name == "fees"@ <==> found == Some(Route::Fees)
    &&& name == "block-time"@ <==> found == Some(Route::Module(ModuleParser::GetBlockTime))
    &&& name == "epoch-info"@ <==> found == Some(Route::Module(ModuleParser::GetEpochInfo))
    &&& name == "genesis-hash"@ <==> found == Some(Route::GenesisHash)
    &&& name == "slot"@ <==> found == Some(Route::Module(ModuleParser::GetSlot))
    &&& name == "transaction-count"@ <==> found == Some(
        Route::Module(ModuleParser::GetTransactionCount),
    )
    &&& name == "leader-schedule"@ <==> found == Some(Route::LeaderSchedule)
    &&& name == "ping"@ <==> found == Some(Route::Module(ModuleParser::Ping))
    &&& name == "block-production"@ <==> found == Some(
        Route::Module(ModuleParser::ShowBlockProduction),
    )
    &&& name == "gossip"@ <==> found == Some(Route::Gossip)
    &&& name == "stakes"@ <==> found == Some(Route::Module(ModuleParser::ShowStakes))
    &&& name == "validators"@ <==> found == Some(Route::Module(ModuleParser::ShowValidators))
    &&& name == "authorize-nonce-account"@ <==> found == Some(
        Route::Module(ModuleParser::AuthorizeNonceAccount),
    )
    &&& name == "create-nonce-account"@ <==> found == Some(
        Route::Module(ModuleParser::CreateNonceAccount),
    )
    &&& name == "nonce"@ <==> found == Some(Route::Module(ModuleParser::GetNonce))
    &&& name == "new-nonce"@ <==> found == Some(Route::Module(ModuleParser::NewNonce))
    &&& name == "nonce-account"@ <==> found == Some(Route::Module(ModuleParser::ShowNonceAccount))
    &&& name == "withdraw-from-nonce-account"@ <==> found == Some(
        Route::Module(ModuleParser::WithdrawFromNonceAccount),
    )
    &&& name == "deploy"@ <==> found == Some(Route::Deploy)
    &&& name == "create-stake-account"@ <==> found == Some(
        Route::Module(ModuleParser::CreateStakeAccount),
    )
    &&& name == "delegate-stake"@ <==> found == Some(Route::Module(ModuleParser::DelegateStake))
    &&& name == "withdraw-stake"@ <==> found == Some(Route::Module(ModuleParser::WithdrawStake))
    &&& name == "deactivate-stake"@ <==> found == Some(Route::Module(ModuleParser::DeactivateStake))
    &&& name == "split-stake"@ <==> found == Some(Route::Module(ModuleParser::SplitStake))
    &&& name == "stake-authorize-staker"@ <==> found == Some(
        Route::Module(ModuleParser::StakeAuthorize(StakeAuthorize::Staker)),
    )
    &&& name == "stake-authorize-withdrawer"@ <==> found == Some(
        Route::Module(ModuleParser::StakeAuthorize(StakeAuthorize::Withdrawer)),
    )
    &&& name == "stake-set-lockup"@ <==> found == Some(Route::Module(ModuleParser::StakeSetLockup))
    &&& name == "stake-account"@ <==> found == Some(Route::Module(ModuleParser::ShowStakeAccount))
    &&& name == "stake-history"@ <==> found == Some(Route::Module(ModuleParser::ShowStakeHistory))
    &&& name == "create-archiver-storage-account"@ <==> found == Some(
        Route::Module(ModuleParser::CreateArchiverStorageAccount),
    )
    &&& name == "create-validator-storage-account"@ <==> found == Some(
        Route::Module(ModuleParser::CreateValidatorStorageAccount),
    )
    &&& name == "claim-storage-reward"@ <==> found == Some(
        Route::Module(ModuleParser::ClaimStorageReward),
    )
    &&& name == "storage-account"@ <==> found == Some(
        Route::Module(ModuleParser::ShowStorageAccount),
    )
    &&& name == "validator-info"@ <==> found == Some(Route::ValidatorInfo)
    &&& name == "create-vote-account"@ <==> found == Some(
        Route::Module(ModuleParser::CreateVoteAccount),
    )
    &&& name == "vote-update-validator"@ <==> found == Some(
        Route::Module(ModuleParser::VoteUpdateValidator),
    )
    &&& name == "vote-authorize-voter"@ <==> found == Some(
        Route::Module(ModuleParser::VoteAuthorize(VoteAuthorize::Voter)),
    )
    &&& name == "vote-authorize-withdrawer"@ <==> found == Some(
        Route::Module(ModuleParser::VoteAuthorize(VoteAuthorize::Withdrawer)),
    )
    &&& name == "vote-account"@ <==> found == Some(Route::Module(ModuleParser::ShowVoteAccount))
    &&& name == "address"@ <==> found == Some(Route::Address)
    &&& name == "airdrop"@ <==> found == Some(Route::Airdrop)
    &&& name == "balance"@ <==> found == Some(Route::Balance)
    &&& name == "cancel"@ <==> found == Some(Route::Cancel)
    &&& name == "confirm"@ <==> found == Some(Route::Confirm)
    &&& name == "pay"@ <==> found == Some(Route::Pay)
    &&& name == "account"@ <==> found == Some(Route::Account)
    &&& name == "send-signature"@ <==> found == Some(Route::SendSignature)
    &&& name == "send-timestamp"@ <==> found == Some(Route::SendTimestamp)
    &&& name == "transfer"@ <==> found == Some(Route::Transfer)
    &&& found != Some(Route::Module(ModuleParser::SetValidatorInfo))
    &&& found != Some(Route::Module(ModuleParser::GetValidatorInfo))
}

#[verifier::rlimit(50)]
pub(crate) proof fn lemma_route(name: Seq<char>)
    ensures
        stands_for_its_own(name, route(name)),
{
    lemma_names();
}

/// Every name leads to its own command, and no other name leads to it.
pub proof fn lemma_names_lead_to_their_commands(name: &str, found: Option<Route>)
    requires
        call_ensures(find_route, (name,), found),
    ensures
        stands_for_its_own(name@, found),
{
    lemma_route(name@);
}

/// No two names lead to the same command.
pub proof fn lemma_different_names_lead_to_different_commands(
    one: &str,
    other: &str,
    found: Option<Route>,
    found_other: Option<Route>,
)
    requires
        call_ensures(find_route, (one,), found),
        call_ensures(find_route, (other,), found_other),
        one@ != other@,
    ensures
        found is Some ==> found != found_other,
{
    lemma_names_lead_to_their_commands(one, found);
    lemma_names_lead_to_their_commands(other, found_other);
}

/// The two names under `validator-info` lead to their own commands, and no other name does.
pub proof fn lemma_validator_info_names_lead_to_their_commands(
    name: &str,
    found: Option<ModuleParser>,
)
    requires
        call_ensures(find_validator_info_route, (name,), found),
    ensures
        name@ == "publish"@ <==> found == Some(ModuleParser::SetValidatorInfo),
        name@ == "get"@ <==> found == Some(ModuleParser::GetValidatorInfo),
        name@ != "publish"@ && name@ != "get"@ ==> found is None,
{
    reveal_strlit("publish");
    reveal_strlit("get");
    assert("publish"@.len() != "get"@.len());
}

} // verus!
