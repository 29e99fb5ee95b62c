//! Commands that other modules run.
use crate::command::{CliCommand, CliConfig};
use crate::delegate::{find_module_command, ModuleCommand};
use crate::laws::steps::begins;
use crate::progress::Progress;
use vstd::prelude::*;

verus! {

/// The command that the other module is asked to run.
pub open spec fn asked_of_module(asked: ModuleCommand) -> CliCommand {
    match asked {
        ModuleCommand::Catchup { node_pubkey } => CliCommand::Catchup { node_pubkey: *node_pubkey },
        ModuleCommand::ClusterVersion => CliCommand::ClusterVersion,
        ModuleCommand::Fees => CliCommand::Fees,
        ModuleCommand::GetBlockTime { slot } => CliCommand::GetBlockTime { slot },
        ModuleCommand::GetGenesisHash => CliCommand::GetGenesisHash,
        ModuleCommand::GetEpochInfo { commitment_config } => CliCommand::GetEpochInfo {
            commitment_config: *commitment_config,
        },
        ModuleCommand::GetSlot { commitment_config } => CliCommand::GetSlot {
            commitment_config: *commitment_config,
        },
        ModuleCommand::GetTransactionCount { commitment_config } => CliCommand::GetTransactionCount {
            commitment_config: *commitment_config,
        },
        ModuleCommand::LeaderSchedule => CliCommand::LeaderSchedule,
        ModuleCommand::Ping {
            lamports,
            interval,
            count,
            timeout,
            commitment_config,
            ..
        } => CliCommand::Ping {
            lamports,
            interval: *interval,
            count: *count,
            timeout: *timeout,
            commitment_config: *commitment_config,
        },
        ModuleCommand::ShowBlockProduction { epoch, slot_limit, .. } => CliCommand::ShowBlockProduction {
            epoch,
            slot_limit,
        },
        ModuleCommand::ShowGossip => CliCommand::ShowGossip,
        ModuleCommand::ShowStakes { use_lamports_unit, vote_account_pubkeys } => CliCommand::ShowStakes {
            use_lamports_unit,
            vote_account_pubkeys: *vote_account_pubkeys,
        },
        ModuleCommand::ShowValidators { use_lamports_unit } => CliCommand::ShowValidators {
            use_lamports_unit,
        },
        ModuleCommand::AuthorizeNonceAccount {
            nonce_account,
            nonce_authority,
            new_authority,
            ..
        } => CliCommand::AuthorizeNonceAccount {
            nonce_account: *nonce_account,
            nonce_authority: *nonce_authority,
            new_authority: *new_authority,
        },
        ModuleCommand::CreateNonceAccount {
            nonce_account,
            seed,
            nonce_authority,
            lamports,
            ..
        } => CliCommand::CreateNonceAccount {
            nonce_account: *nonce_account,
            seed: *seed,
            nonce_authority,
            lamports,
        },
        ModuleCommand::GetNonce { nonce_account } => CliCommand::GetNonce(*nonce_account),
        ModuleCommand::NewNonce { nonce_account, nonce_authority, .. } => CliCommand::NewNonce {
            nonce_account: *nonce_account,
            nonce_authority: *nonce_authority,
        },
        ModuleCommand::ShowNonceAccount { nonce_account_pubkey, use_lamports_unit } => CliCommand::ShowNonceAccount {
            nonce_account_pubkey: *nonce_account_pubkey,
            use_lamports_unit,
        },
        ModuleCommand::WithdrawFromNonceAccount {
            nonce_account,
            nonce_authority,
            destination_account_pubkey,
            lamports,
            ..
        } => CliCommand::WithdrawFromNonceAccount {
            nonce_account: *nonce_account,
            nonce_authority: *nonce_authority,
            destination_account_pubkey: *destination_account_pubkey,
            lamports,
        },
        ModuleCommand::CreateStakeAccount {
            stake_account,
            seed,
            staker,
            withdrawer,
            lockup,
            lamports,
            sign_only,
            signers,
            blockhash_query,
            nonce_account,
            nonce_authority,
            fee_payer,
            from,
            ..
        } => CliCommand::CreateStakeAccount {
            stake_account: *stake_account,
            seed: *seed,
            staker: *staker,
            withdrawer: *withdrawer,
            lockup: *lockup,
            lamports,
            sign_only,
            signers: *signers,
            blockhash_query: *blockhash_query,
            nonce_account: *nonce_account,
            nonce_authority: *nonce_authority,
            fee_payer: *fee_payer,
            from: *from,
        },
        ModuleCommand::DeactivateStakeAccount {
            stake_account_pubkey,
            stake_authority,
            sign_only,
            signers,
            blockhash_query,
            nonce_account,
            nonce_authority,
            fee_payer,
            ..
        } => CliCommand::DeactivateStake {
            stake_account_pubkey: *stake_account_pubkey,
            stake_authority: *stake_authority,
            sign_only,
            signers: *signers,
            blockhash_query: *blockhash_query,
            nonce_account,
            nonce_authority: *nonce_authority,
            fee_payer: *fee_payer,
        },
        ModuleCommand::DelegateStake {
            stake_account_pubkey,
            vote_account_pubkey,
            stake_authority,
            force,
            sign_only,
            signers,
            blockhash_query,
            nonce_account,
            nonce_authority,
            fee_payer,
            ..
        } => CliCommand::DelegateStake {
            stake_account_pubkey: *stake_account_pubkey,
            vote_account_pubkey: *vote_account_pubkey,
            stake_authority: *stake_authority,
            force,
            sign_only,
            signers: *signers,
            blockhash_query: *blockhash_query,
            nonce_account,
            nonce_authority: *nonce_authority,
            fee_payer: *fee_payer,
        },
        ModuleCommand::SplitStake {
            stake_account_pubkey,
            stake_authority,
            sign_only,
            signers,
            blockhash_query,
            nonce_account,
            nonce_authority,
            split_stake_account,
            seed,
            lamports,
            fee_payer,
            ..
        } => CliCommand::SplitStake {
            stake_account_pubkey: *stake_account_pubkey,
            stake_authority: *stake_authority,
            sign_only,
            signers: *signers,
            blockhash_query: *blockhash_query,
            nonce_account,
            nonce_authority: *nonce_authority,
            split_stake_account: *split_stake_account,
            seed: *seed,
            lamports,
            fee_payer: *fee_payer,
        },
        ModuleCommand::ShowStakeAccount { pubkey, use_lamports_unit, .. } => CliCommand::ShowStakeAccount {
            pubkey: *pubkey,
            use_lamports_unit,
        },
        ModuleCommand::ShowStakeHistory { use_lamports_unit, .. } => CliCommand::ShowStakeHistory {
            use_lamports_unit,
        },
        ModuleCommand::StakeAuthorize {
            stake_account_pubkey,
            new_authorized_pubkey,
            stake_authorize,
            authority,
            sign_only,
            signers,
            blockhash_query,
            nonce_account,
            nonce_authority,
            fee_payer,
            ..
        } => CliCommand::StakeAuthorize {
            stake_account_pubkey: *stake_account_pubkey,
            new_authorized_pubkey: *new_authorized_pubkey,
            stake_authorize,
            authority: *authority,
            sign_only,
            signers: *signers,
            blockhash_query: *blockhash_query,
            nonce_account,
            nonce_authority: *nonce_authority,
            fee_payer: *fee_payer,
        },
        ModuleCommand::StakeSetLockup {
            stake_account_pubkey,
            lockup,
            custodian,
            sign_only,
            signers,
            blockhash_query,
            nonce_account,
            nonce_authority,
            fee_payer,
            ..
        } => CliCommand::StakeSetLockup {
            stake_account_pubkey: *stake_account_pubkey,
            lockup,
            custodian: *custodian,
            sign_only,
            signers: *signers,
            blockhash_query: *blockhash_query,
            nonce_account,
            nonce_authority: *nonce_authority,
            fee_payer: *fee_payer,
        },
        ModuleCommand::WithdrawStake {
            stake_account_pubkey,
            destination_account_pubkey,
            lamports,
            withdraw_authority,
            sign_only,
            signers,
            blockhash_query,
            nonce_account,
            nonce_authority,
            fee_payer,
            ..
        } => CliCommand::WithdrawStake {
            stake_account_pubkey: *stake_account_pubkey,
            destination_account_pubkey: *destination_account_pubkey,
            lamports,
            withdraw_authority: *withdraw_authority,
            sign_only,
            signers: *signers,
            blockhash_query: *blockhash_query,
            nonce_account: *nonce_account,
            nonce_authority: *nonce_authority,
            fee_payer: *fee_payer,
        },
        ModuleCommand::CreateStorageAccount {
            account_owner,
            storage_account,
            account_type,
            ..
        } => CliCommand::CreateStorageAccount {
            account_owner: *account_owner,
            storage_account: *storage_account,
            account_type,
        },
        ModuleCommand::ClaimStorageReward {
            node_account_pubkey,
            storage_account_pubkey,
            ..
        } => CliCommand::ClaimStorageReward {
            node_account_pubkey: *node_account_pubkey,
            storage_account_pubkey: *storage_account_pubkey,
        },
        ModuleCommand::ShowStorageAccount { storage_account_pubkey, .. } => CliCommand::ShowStorageAccount(
            *storage_account_pubkey,
        ),
        ModuleCommand::GetValidatorInfo { info_pubkey } => CliCommand::GetValidatorInfo(
            info_pubkey,
        ),
        ModuleCommand::SetValidatorInfo {
            validator_info,
            force_keybase,
            info_pubkey,
            ..
        } => CliCommand::SetValidatorInfo {
            validator_info: *validator_info,
            force_keybase,
            info_pubkey,
        },
        ModuleCommand::CreateVoteAccount {
            vote_account,
            seed,
            node_pubkey,
            authorized_voter,
            authorized_withdrawer,
            commission,
            ..
        } => CliCommand::CreateVoteAccount {
            vote_account: *vote_account,
            seed: *seed,
            node_pubkey: *node_pubkey,
            authorized_voter: *authorized_voter,
            authorized_withdrawer: *authorized_withdrawer,
            commission,
        },
        ModuleCommand::ShowVoteAccount { pubkey, use_lamports_unit, .. } => CliCommand::ShowVoteAccount {
            pubkey: *pubkey,
            use_lamports_unit,
        },
        ModuleCommand::VoteAuthorize {
            vote_account_pubkey,
            new_authorized_pubkey,
            vote_authorize,
            ..
        } => CliCommand::VoteAuthorize {
            vote_account_pubkey: *vote_account_pubkey,
            new_authorized_pubkey: *new_authorized_pubkey,
            vote_authorize,
        },
        ModuleCommand::VoteUpdateValidator {
            vote_account_pubkey,
            new_identity_pubkey,
            authorized_voter,
            ..
        } => CliCommand::VoteUpdateValidator {
            vote_account_pubkey: *vote_account_pubkey,
            new_identity_pubkey: *new_identity_pubkey,
            authorized_voter: *authorized_voter,
        },
    }
}

/// The configuration that the other module is given, where it is given one.
pub open spec fn given_to_module(asked: ModuleCommand) -> Option<CliConfig> {
    match asked {
        ModuleCommand::Ping { config, .. } => Some(*config),
        ModuleCommand::ShowBlockProduction { config, .. } => Some(*config),
        ModuleCommand::AuthorizeNonceAccount { config, .. } => Some(*config),
        ModuleCommand::CreateNonceAccount { config, .. } => Some(*config),
        ModuleCommand::NewNonce { config, .. } => Some(*config),
        ModuleCommand::WithdrawFromNonceAccount { config, .. } => Some(*config),
        ModuleCommand::CreateStakeAccount { config, .. } => Some(*config),
        ModuleCommand::DeactivateStakeAccount { config, .. } => Some(*config),
        ModuleCommand::DelegateStake { config, .. } => Some(*config),
        ModuleCommand::SplitStake { config, .. } => Some(*config),
        ModuleCommand::ShowStakeAccount { config, .. } => Some(*config),
        ModuleCommand::ShowStakeHistory { config, .. } => Some(*config),
        ModuleCommand::StakeAuthorize { config, .. } => Some(*config),
        ModuleCommand::StakeSetLockup { config, .. } => Some(*config),
        ModuleCommand::WithdrawStake { config, .. } => Some(*config),
        ModuleCommand::CreateStorageAccount { config, .. } => Some(*config),
        ModuleCommand::ClaimStorageReward { config, .. } => Some(*config),
        ModuleCommand::ShowStorageAccount { config, .. } => Some(*config),
        ModuleCommand::SetValidatorInfo { config, .. } => Some(*config),
        ModuleCommand::CreateVoteAccount { config, .. } => Some(*config),
        ModuleCommand::ShowVoteAccount { config, .. } => Some(*config),
        ModuleCommand::VoteAuthorize { config, .. } => Some(*config),
        ModuleCommand::VoteUpdateValidator { config, .. } => Some(*config),
        _ => None,
    }
}

/// Whether the command is one that another module runs.
pub open spec fn is_for_module(command: CliCommand) -> bool {
    match command {
        CliCommand::Address
        | CliCommand::Airdrop { .. }
        | CliCommand::Balance { .. }
        | CliCommand::Cancel(_)
        | CliCommand::Confirm(_)
        | CliCommand::CreateAddressWithSeed { .. }
        | CliCommand::Deploy(_)
        | CliCommand::Pay(_)
        | CliCommand::ShowAccount { .. }
        | CliCommand::TimeElapsed(..)
        | CliCommand::Transfer { .. }
        | CliCommand::Witness(..) => false,
        _ => true,
    }
}

/// Whether the module signs, or prints, under the configuration.
pub open spec fn needs_configuration(command: CliCommand) -> bool {
    match command {
        CliCommand::Catchup { .. }
        | CliCommand::ClusterVersion
        | CliCommand::Fees
        | CliCommand::GetBlockTime { .. }
        | CliCommand::GetGenesisHash
        | CliCommand::GetEpochInfo { .. }
        | CliCommand::GetSlot { .. }
        | CliCommand::GetTransactionCount { .. }
        | CliCommand::LeaderSchedule
        | CliCommand::ShowGossip
        | CliCommand::ShowStakes { .. }
        | CliCommand::ShowValidators { .. }
        | CliCommand::GetNonce(_)
        | CliCommand::ShowNonceAccount { .. }
        | CliCommand::GetValidatorInfo(_) => false,
        _ => is_for_module(command),
    }
}

/// What another module is asked to run is the command itself, with all that it says, under its own
/// configuration.
#[verifier::rlimit(40)]
pub proof fn lemma_modules_are_asked_for_the_command(
    config: &CliConfig,
    asked: Option<ModuleCommand>,
)
    requires
        call_ensures(find_module_command, (config,), asked),
    ensures
        asked is Some <==> is_for_module(config.command),
        asked matches Some(command) ==> {
            &&& asked_of_module(command) == config.command
            &&& given_to_module(command) is Some <==> needs_configuration(config.command)
            &&& given_to_module(command) matches Some(given) ==> given == *config
        },
{
}

/// A command that another module runs is handed to it at once.
#[verifier::rlimit(40)]
pub proof fn lemma_commands_of_modules_are_handed_on(config: CliConfig, first: Progress)
    requires
        begins(config, first),
        is_for_module(config.command),
    ensures
        first matches Progress::Delegate(command) && asked_of_module(command) == config.command,
{
}

} // verus!
