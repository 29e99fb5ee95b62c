//! The commands of the other modules, which are handed on to them.
use crate::authority::SigningAuthority;
use crate::command::{
    CliCommand, CliConfig, CommitmentConfig, Lockup, StakeAuthorize, StorageAccountType,
    VoteAuthorize,
};
use crate::fees::BlockhashQuery;
use crate::keys::{KeypairEq, Pubkey, Signature};
use std::time::Duration;
use vstd::prelude::*;

verus! {

/// What another module is asked to do, and what it is given for it: the configuration where it
/// signs or prints under it, and the command's own arguments.
#[derive(Debug)]
#[allow(inconsistent_fields)]
pub enum ModuleCommand<'a> {
    // Cluster Query Commands
    Catchup { node_pubkey: &'a Pubkey },
    ClusterVersion,
    Fees,
    GetBlockTime { slot: u64 },
    GetGenesisHash,
    GetEpochInfo { commitment_config: &'a CommitmentConfig },
    GetSlot { commitment_config: &'a CommitmentConfig },
    GetTransactionCount { commitment_config: &'a CommitmentConfig },
    LeaderSchedule,
    Ping {
        config: &'a CliConfig,
        lamports: u64,
        interval: &'a Duration,
        count: &'a Option<u64>,
        timeout: &'a Duration,
        commitment_config: &'a CommitmentConfig,
    },
    ShowBlockProduction { config: &'a CliConfig, epoch: Option<u64>, slot_limit: Option<u64> },
    ShowGossip,
    ShowStakes { use_lamports_unit: bool, vote_account_pubkeys: &'a Option<Vec<Pubkey>> },
    ShowValidators { use_lamports_unit: bool },
    // Nonce Commands
    AuthorizeNonceAccount {
        config: &'a CliConfig,
        nonce_account: &'a Pubkey,
        nonce_authority: &'a Option<SigningAuthority>,
        new_authority: &'a Pubkey,
    },
    CreateNonceAccount {
        config: &'a CliConfig,
        nonce_account: &'a KeypairEq,
        seed: &'a Option<String>,
        nonce_authority: Option<Pubkey>,
        lamports: u64,
    },
    GetNonce { nonce_account: &'a Pubkey },
    NewNonce {
        config: &'a CliConfig,
        nonce_account: &'a Pubkey,
        nonce_authority: &'a Option<SigningAuthority>,
    },
    ShowNonceAccount { nonce_account_pubkey: &'a Pubkey, use_lamports_unit: bool },
    WithdrawFromNonceAccount {
        config: &'a CliConfig,
        nonce_account: &'a Pubkey,
        nonce_authority: &'a Option<SigningAuthority>,
        destination_account_pubkey: &'a Pubkey,
        lamports: u64,
    },
    // Stake Commands
    CreateStakeAccount {
        config: &'a CliConfig,
        stake_account: &'a SigningAuthority,
        seed: &'a Option<String>,
        staker: &'a Option<Pubkey>,
        withdrawer: &'a Option<Pubkey>,
        lockup: &'a Lockup,
        lamports: u64,
        sign_only: bool,
        signers: &'a Option<Vec<(Pubkey, Signature)>>,
        blockhash_query: &'a BlockhashQuery,
        nonce_account: &'a Option<Pubkey>,
        nonce_authority: &'a Option<SigningAuthority>,
        fee_payer: &'a Option<SigningAuthority>,
        from: &'a Option<SigningAuthority>,
    },
    DeactivateStakeAccount {
        config: &'a CliConfig,
        stake_account_pubkey: &'a Pubkey,
        stake_authority: &'a Option<SigningAuthority>,
        sign_only: bool,
        signers: &'a Option<Vec<(Pubkey, Signature)>>,
        blockhash_query: &'a BlockhashQuery,
        nonce_account: Option<Pubkey>,
        nonce_authority: &'a Option<SigningAuthority>,
        fee_payer: &'a Option<SigningAuthority>,
    },
    DelegateStake {
        config: &'a CliConfig,
        stake_account_pubkey: &'a Pubkey,
        vote_account_pubkey: &'a Pubkey,
        stake_authority: &'a Option<SigningAuthority>,
        force: bool,
        sign_only: bool,
        signers: &'a Option<Vec<(Pubkey, Signature)>>,
        blockhash_query: &'a BlockhashQuery,
        nonce_account: Option<Pubkey>,
        nonce_authority: &'a Option<SigningAuthority>,
        fee_payer: &'a Option<SigningAuthority>,
    },
    SplitStake {
        config: &'a CliConfig,
        stake_account_pubkey: &'a Pubkey,
        stake_authority: &'a Option<SigningAuthority>,
        sign_only: bool,
        signers: &'a Option<Vec<(Pubkey, Signature)>>,
        blockhash_query: &'a BlockhashQuery,
        nonce_account: Option<Pubkey>,
        nonce_authority: &'a Option<SigningAuthority>,
        split_stake_account: &'a KeypairEq,
        seed: &'a Option<String>,
        lamports: u64,
        fee_payer: &'a Option<SigningAuthority>,
    },
    ShowStakeAccount { config: &'a CliConfig, pubkey: &'a Pubkey, use_lamports_unit: bool },
    ShowStakeHistory { config: &'a CliConfig, use_lamports_unit: bool },
    StakeAuthorize {
        config: &'a CliConfig,
        stake_account_pubkey: &'a Pubkey,
        new_authorized_pubkey: &'a Pubkey,
        stake_authorize: StakeAuthorize,
        authority: &'a Option<SigningAuthority>,
        sign_only: bool,
        signers: &'a Option<Vec<(Pubkey, Signature)>>,
        blockhash_query: &'a BlockhashQuery,
        nonce_account: Option<Pubkey>,
        nonce_authority: &'a Option<SigningAuthority>,
        fee_payer: &'a Option<SigningAuthority>,
    },
    StakeSetLockup {
        config: &'a CliConfig,
        stake_account_pubkey: &'a Pubkey,
        lockup: Lockup,
        custodian: &'a Option<SigningAuthority>,
        sign_only: bool,
        signers: &'a Option<Vec<(Pubkey, Signature)>>,
        blockhash_query: &'a BlockhashQuery,
        nonce_account: Option<Pubkey>,
        nonce_authority: &'a Option<SigningAuthority>,
        fee_payer: &'a Option<SigningAuthority>,
    },
    WithdrawStake {
        config: &'a CliConfig,
        stake_account_pubkey: &'a Pubkey,
        destination_account_pubkey: &'a Pubkey,
        lamports: u64,
        withdraw_authority: &'a Option<SigningAuthority>,
        sign_only: bool,
        signers: &'a Option<Vec<(Pubkey, Signature)>>,
        blockhash_query: &'a BlockhashQuery,
        nonce_account: &'a Option<Pubkey>,
        nonce_authority: &'a Option<SigningAuthority>,
        fee_payer: &'a Option<SigningAuthority>,
    },
    // Storage Commands
    CreateStorageAccount {
        config: &'a CliConfig,
        account_owner: &'a Pubkey,
        storage_account: &'a KeypairEq,
        account_type: StorageAccountType,
    },
    ClaimStorageReward {
        config: &'a CliConfig,
        node_account_pubkey: &'a Pubkey,
        storage_account_pubkey: &'a Pubkey,
    },
    ShowStorageAccount { config: &'a CliConfig, storage_account_pubkey: &'a Pubkey },
    // Validator Info Commands
    GetValidatorInfo { info_pubkey: Option<Pubkey> },
    SetValidatorInfo {
        config: &'a CliConfig,
        validator_info: &'a serde_json::Value,
        force_keybase: bool,
        info_pubkey: Option<Pubkey>,
    },
    // Vote Commands
    CreateVoteAccount {
        config: &'a CliConfig,
        vote_account: &'a KeypairEq,
        seed: &'a Option<String>,
        node_pubkey: &'a Pubkey,
        authorized_voter: &'a Option<Pubkey>,
        authorized_withdrawer: &'a Option<Pubkey>,
        commission: u8,
    },
    ShowVoteAccount { config: &'a CliConfig, pubkey: &'a Pubkey, use_lamports_unit: bool },
    VoteAuthorize {
        config: &'a CliConfig,
        vote_account_pubkey: &'a Pubkey,
        new_authorized_pubkey: &'a Pubkey,
        vote_authorize: VoteAuthorize,
    },
    VoteUpdateValidator {
        config: &'a CliConfig,
        vote_account_pubkey: &'a Pubkey,
        new_identity_pubkey: &'a Pubkey,
        authorized_voter: &'a KeypairEq,
    },
}

/// What another module is asked to do for the command, where it is not one of this library's.
pub open spec fn module_command<'a>(config: &'a CliConfig) -> Option<ModuleCommand<'a>> {
    match &config.command {
        CliCommand::Catchup { node_pubkey } => Some(ModuleCommand::Catchup { node_pubkey }),
        CliCommand::ClusterVersion => Some(ModuleCommand::ClusterVersion),
        CliCommand::Fees => Some(ModuleCommand::Fees),
        CliCommand::GetBlockTime { slot } => Some(ModuleCommand::GetBlockTime { slot: *slot }),
        CliCommand::GetGenesisHash => Some(ModuleCommand::GetGenesisHash),
        CliCommand::GetEpochInfo { commitment_config } => Some(
            ModuleCommand::GetEpochInfo { commitment_config },
        ),
        CliCommand::GetSlot { commitment_config } => Some(
            ModuleCommand::GetSlot { commitment_config },
        ),
        CliCommand::GetTransactionCount { commitment_config } => Some(
            ModuleCommand::GetTransactionCount { commitment_config },
        ),
        CliCommand::LeaderSchedule => Some(ModuleCommand::LeaderSchedule),
        CliCommand::Ping { lamports, interval, count, timeout, commitment_config } => Some(
            ModuleCommand::Ping {
                config,
                lamports: *lamports,
                interval,
                count,
                timeout,
                commitment_config,
            },
        ),
        CliCommand::ShowBlockProduction { epoch, slot_limit } => Some(
            ModuleCommand::ShowBlockProduction { config, epoch: *epoch, slot_limit: *slot_limit },
        ),
        CliCommand::ShowGossip => Some(ModuleCommand::ShowGossip),
        CliCommand::ShowStakes { use_lamports_unit, vote_account_pubkeys } => Some(
            ModuleCommand::ShowStakes {
                use_lamports_unit: *use_lamports_unit,
                vote_account_pubkeys,
            },
        ),
        CliCommand::ShowValidators { use_lamports_unit } => Some(
            ModuleCommand::ShowValidators { use_lamports_unit: *use_lamports_unit },
        ),
        CliCommand::AuthorizeNonceAccount { nonce_account, nonce_authority, new_authority } => Some(
            ModuleCommand::AuthorizeNonceAccount {
                config,
                nonce_account,
                nonce_authority,
                new_authority,
            },
        ),
        CliCommand::CreateNonceAccount { nonce_account, seed, nonce_authority, lamports } => Some(
            ModuleCommand::CreateNonceAccount {
                config,
                nonce_account,
                seed,
                nonce_authority: *nonce_authority,
                lamports: *lamports,
            },
        ),
        CliCommand::GetNonce(nonce_account) => Some(ModuleCommand::GetNonce { nonce_account }),
        CliCommand::NewNonce { nonce_account, nonce_authority } => Some(
            ModuleCommand::NewNonce { config, nonce_account, nonce_authority },
        ),
        CliCommand::ShowNonceAccount { nonce_account_pubkey, use_lamports_unit } => Some(
            ModuleCommand::ShowNonceAccount {
                nonce_account_pubkey,
                use_lamports_unit: *use_lamports_unit,
            },
        ),
        CliCommand::WithdrawFromNonceAccount {
            nonce_account,
            nonce_authority,
            destination_account_pubkey,
            lamports,
        } => Some(
            ModuleCommand::WithdrawFromNonceAccount {
                config,
                nonce_account,
                nonce_authority,
                destination_account_pubkey,
                lamports: *lamports,
            },
        ),
        CliCommand::CreateStakeAccount {
            stake_account,
            seed,
            staker,
            withdrawer,
            lockup,
            lamports,
            sign_only,
            signers,
            blockhash_query,
            nonce_account,
            nonce_authority,
            fee_payer,
            from,
        } => Some(
            ModuleCommand::CreateStakeAccount {
                config,
                stake_account,
                seed,
                staker,
                withdrawer,
                lockup,
                lamports: *lamports,
                sign_only: *sign_only,
                signers,
                blockhash_query,
                nonce_account,
                nonce_authority,
                fee_payer,
                from,
            },
        ),
        CliCommand::DeactivateStake {
            stake_account_pubkey,
            stake_authority,
            sign_only,
            signers,
            blockhash_query,
            nonce_account,
            nonce_authority,
            fee_payer,
        } => Some(
            ModuleCommand::DeactivateStakeAccount {
                config,
                stake_account_pubkey,
                stake_authority,
                sign_only: *sign_only,
                signers,
                blockhash_query,
                nonce_account: *nonce_account,
                nonce_authority,
                fee_payer,
            },
        ),
        CliCommand::DelegateStake {
            stake_account_pubkey,
            vote_account_pubkey,
            stake_authority,
            force,
            sign_only,
            signers,
            blockhash_query,
            nonce_account,
            nonce_authority,
            fee_payer,
        } => Some(
            ModuleCommand::DelegateStake {
                config,
                stake_account_pubkey,
                vote_account_pubkey,
                stake_authority,
                force: *force,
                sign_only: *sign_only,
                signers,
                blockhash_query,
                nonce_account: *nonce_account,
                nonce_authority,
                fee_payer,
            },
        ),
        CliCommand::SplitStake {
            stake_account_pubkey,
            stake_authority,
            sign_only,
            signers,
            blockhash_query,
            nonce_account,
            nonce_authority,
            split_stake_account,
            seed,
            lamports,
            fee_payer,
        } => Some(
            ModuleCommand::SplitStake {
                config,
                stake_account_pubkey,
                stake_authority,
                sign_only: *sign_only,
                signers,
                blockhash_query,
                nonce_account: *nonce_account,
                nonce_authority,
                split_stake_account,
                seed,
                lamports: *lamports,
                fee_payer,
            },
        ),
        CliCommand::ShowStakeAccount { pubkey, use_lamports_unit } => Some(
            ModuleCommand::ShowStakeAccount {
                config,
                pubkey,
                use_lamports_unit: *use_lamports_unit,
            },
        ),
        CliCommand::ShowStakeHistory { use_lamports_unit } => Some(
            ModuleCommand::ShowStakeHistory { config, use_lamports_unit: *use_lamports_unit },
        ),
        CliCommand::StakeAuthorize {
            stake_account_pubkey,
            new_authorized_pubkey,
            stake_authorize,
            authority,
            sign_only,
            signers,
            blockhash_query,
            nonce_account,
            nonce_authority,
            fee_payer,
        } => Some(
            ModuleCommand::StakeAuthorize {
                config,
                stake_account_pubkey,
                new_authorized_pubkey,
                stake_authorize: *stake_authorize,
                authority,
                sign_only: *sign_only,
                signers,
                blockhash_query,
                nonce_account: *nonce_account,
                nonce_authority,
                fee_payer,
            },
        ),
        CliCommand::StakeSetLockup {
            stake_account_pubkey,
            lockup,
            custodian,
            sign_only,
            signers,
            blockhash_query,
            nonce_account,
            nonce_authority,
            fee_payer,
        } => Some(
            ModuleCommand::StakeSetLockup {
                config,
                stake_account_pubkey,
                lockup: *lockup,
                custodian,
                sign_only: *sign_only,
                signers,
                blockhash_query,
                nonce_account: *nonce_account,
                nonce_authority,
                fee_payer,
            },
        ),
        CliCommand::WithdrawStake {
            stake_account_pubkey,
            destination_account_pubkey,
            lamports,
            withdraw_authority,
            sign_only,
            signers,
            blockhash_query,
            nonce_account,
            nonce_authority,
            fee_payer,
        } => Some(
            ModuleCommand::WithdrawStake {
                config,
                stake_account_pubkey,
                destination_account_pubkey,
                lamports: *lamports,
                withdraw_authority,
                sign_only: *sign_only,
                signers,
                blockhash_query,
                nonce_account,
                nonce_authority,
                fee_payer,
            },
        ),
        CliCommand::CreateStorageAccount { account_owner, storage_account, account_type } => Some(
            ModuleCommand::CreateStorageAccount {
                config,
                account_owner,
                storage_account,
                account_type: *account_type,
            },
        ),
        CliCommand::ClaimStorageReward { node_account_pubkey, storage_account_pubkey } => Some(
            ModuleCommand::ClaimStorageReward {
                config,
                node_account_pubkey,
                storage_account_pubkey,
            },
        ),
        CliCommand::ShowStorageAccount(storage_account_pubkey) => Some(
            ModuleCommand::ShowStorageAccount { config, storage_account_pubkey },
        ),
        CliCommand::GetValidatorInfo(info_pubkey) => Some(
            ModuleCommand::GetValidatorInfo { info_pubkey: *info_pubkey },
        ),
        CliCommand::SetValidatorInfo { validator_info, force_keybase, info_pubkey } => Some(
            ModuleCommand::SetValidatorInfo {
                config,
                validator_info,
                force_keybase: *force_keybase,
                info_pubkey: *info_pubkey,
            },
        ),
        CliCommand::CreateVoteAccount {
            vote_account,
            seed,
            node_pubkey,
            authorized_voter,
            authorized_withdrawer,
            commission,
        } => Some(
            ModuleCommand::CreateVoteAccount {
                config,
                vote_account,
                seed,
                node_pubkey,
                authorized_voter,
                authorized_withdrawer,
                commission: *commission,
            },
        ),
        CliCommand::ShowVoteAccount { pubkey, use_lamports_unit } => Some(
            ModuleCommand::ShowVoteAccount {
                config,
                pubkey,
                use_lamports_unit: *use_lamports_unit,
            },
        ),
        CliCommand::VoteAuthorize {
            vote_account_pubkey,
            new_authorized_pubkey,
            vote_authorize,
        } => Some(
            ModuleCommand::VoteAuthorize {
                config,
                vote_account_pubkey,
                new_authorized_pubkey,
                vote_authorize: *vote_authorize,
            },
        ),
        CliCommand::VoteUpdateValidator {
            vote_account_pubkey,
            new_identity_pubkey,
            authorized_voter,
        } => Some(
            ModuleCommand::VoteUpdateValidator {
                config,
                vote_account_pubkey,
                new_identity_pubkey,
                authorized_voter,
            },
        ),
        _ => None,
    }
}

/// What another module is asked to do for the command, where it is not one of this library's.
pub fn find_module_command<'a>(config: &'a CliConfig) -> (r: Option<ModuleCommand<'a>>)
    ensures
        r == module_command(config),
{
    match &config.command {
        CliCommand::Catchup { node_pubkey } => Some(ModuleCommand::Catchup { node_pubkey }),
        CliCommand::ClusterVersion => Some(ModuleCommand::ClusterVersion),
        CliCommand::Fees => Some(ModuleCommand::Fees),
        CliCommand::GetBlockTime { slot } => Some(ModuleCommand::GetBlockTime { slot: *slot }),
        CliCommand::GetGenesisHash => Some(ModuleCommand::GetGenesisHash),
        CliCommand::GetEpochInfo { commitment_config } => Some(
            ModuleCommand::GetEpochInfo { commitment_config },
        ),
        CliCommand::GetSlot { commitment_config } => Some(
            ModuleCommand::GetSlot { commitment_config },
        ),
        CliCommand::GetTransactionCount { commitment_config } => Some(
            ModuleCommand::GetTransactionCount { commitment_config },
        ),
        CliCommand::LeaderSchedule => Some(ModuleCommand::LeaderSchedule),
        CliCommand::Ping { lamports, interval, count, timeout, commitment_config } => Some(
            ModuleCommand::Ping {
                config,
                lamports: *lamports,
                interval,
                count,
                timeout,
                commitment_config,
            },
        ),
        CliCommand::ShowBlockProduction { epoch, slot_limit } => Some(
            ModuleCommand::ShowBlockProduction { config, epoch: *epoch, slot_limit: *slot_limit },
        ),
        CliCommand::ShowGossip => Some(ModuleCommand::ShowGossip),
        CliCommand::ShowStakes { use_lamports_unit, vote_account_pubkeys } => Some(
            ModuleCommand::ShowStakes {
                use_lamports_unit: *use_lamports_unit,
                vote_account_pubkeys,
            },
        ),
        CliCommand::ShowValidators { use_lamports_unit } => Some(
            ModuleCommand::ShowValidators { use_lamports_unit: *use_lamports_unit },
        ),
        CliCommand::AuthorizeNonceAccount { nonce_account, nonce_authority, new_authority } => Some(
            ModuleCommand::AuthorizeNonceAccount {
                config,
                nonce_account,
                nonce_authority,
                new_authority,
            },
        ),
        CliCommand::CreateNonceAccount { nonce_account, seed, nonce_authority, lamports } => Some(
            ModuleCommand::CreateNonceAccount {
                config,
                nonce_account,
                seed,
                nonce_authority: *nonce_authority,
                lamports: *lamports,
            },
        ),
        CliCommand::GetNonce(nonce_account) => Some(ModuleCommand::GetNonce { nonce_account }),
        CliCommand::NewNonce { nonce_account, nonce_authority } => Some(
            ModuleCommand::NewNonce { config, nonce_account, nonce_authority },
        ),
        CliCommand::ShowNonceAccount { nonce_account_pubkey, use_lamports_unit } => Some(
            ModuleCommand::ShowNonceAccount {
                nonce_account_pubkey,
                use_lamports_unit: *use_lamports_unit,
            },
        ),
        CliCommand::WithdrawFromNonceAccount {
            nonce_account,
            nonce_authority,
            destination_account_pubkey,
            lamports,
        } => Some(
            ModuleCommand::WithdrawFromNonceAccount {
                config,
                nonce_account,
                nonce_authority,
                destination_account_pubkey,
                lamports: *lamports,
            },
        ),
        CliCommand::CreateStakeAccount {
            stake_account,
            seed,
            staker,
            withdrawer,
            lockup,
            lamports,
            sign_only,
            signers,
            blockhash_query,
            nonce_account,
            nonce_authority,
            fee_payer,
            from,
        } => Some(
            ModuleCommand::CreateStakeAccount {
                config,
                stake_account,
                seed,
                staker,
                withdrawer,
                lockup,
                lamports: *lamports,
                sign_only: *sign_only,
                signers,
                blockhash_query,
                nonce_account,
                nonce_authority,
                fee_payer,
                from,
            },
        ),
        CliCommand::DeactivateStake {
            stake_account_pubkey,
            stake_authority,
            sign_only,
            signers,
            blockhash_query,
            nonce_account,
            nonce_authority,
            fee_payer,
        } => Some(
            ModuleCommand::DeactivateStakeAccount {
                config,
                stake_account_pubkey,
                stake_authority,
                sign_only: *sign_only,
                signers,
                blockhash_query,
                nonce_account: *nonce_account,
                nonce_authority,
                fee_payer,
            },
        ),
        CliCommand::DelegateStake {
            stake_account_pubkey,
            vote_account_pubkey,
            stake_authority,
            force,
            sign_only,
            signers,
            blockhash_query,
            nonce_account,
            nonce_authority,
            fee_payer,
        } => Some(
            ModuleCommand::DelegateStake {
                config,
                stake_account_pubkey,
                vote_account_pubkey,
                stake_authority,
                force: *force,
                sign_only: *sign_only,
                signers,
                blockhash_query,
                nonce_account: *nonce_account,
                nonce_authority,
                fee_payer,
            },
        ),
        CliCommand::SplitStake {
            stake_account_pubkey,
            stake_authority,
            sign_only,
            signers,
            blockhash_query,
            nonce_account,
            nonce_authority,
            split_stake_account,
            seed,
            lamports,
            fee_payer,
        } => Some(
            ModuleCommand::SplitStake {
                config,
                stake_account_pubkey,
                stake_authority,
                sign_only: *sign_only,
                signers,
                blockhash_query,
                nonce_account: *nonce_account,
                nonce_authority,
                split_stake_account,
                seed,
                lamports: *lamports,
                fee_payer,
            },
        ),
        CliCommand::ShowStakeAccount { pubkey, use_lamports_unit } => Some(
            ModuleCommand::ShowStakeAccount {
                config,
                pubkey,
                use_lamports_unit: *use_lamports_unit,
            },
        ),
        CliCommand::ShowStakeHistory { use_lamports_unit } => Some(
            ModuleCommand::ShowStakeHistory { config, use_lamports_unit: *use_lamports_unit },
        ),
        CliCommand::StakeAuthorize {
            stake_account_pubkey,
            new_authorized_pubkey,
            stake_authorize,
            authority,
            sign_only,
            signers,
            blockhash_query,
            nonce_account,
            nonce_authority,
            fee_payer,
        } => Some(
            ModuleCommand::StakeAuthorize {
                config,
                stake_account_pubkey,
                new_authorized_pubkey,
                stake_authorize: *stake_authorize,
                authority,
                sign_only: *sign_only,
                signers,
                blockhash_query,
                nonce_account: *nonce_account,
                nonce_authority,
                fee_payer,
            },
        ),
        CliCommand::StakeSetLockup {
            stake_account_pubkey,
            lockup,
            custodian,
            sign_only,
            signers,
            blockhash_query,
            nonce_account,
            nonce_authority,
            fee_payer,
        } => Some(
            ModuleCommand::StakeSetLockup {
                config,
                stake_account_pubkey,
                lockup: *lockup,
                custodian,
                sign_only: *sign_only,
                signers,
                blockhash_query,
                nonce_account: *nonce_account,
                nonce_authority,
                fee_payer,
            },
        ),
        CliCommand::WithdrawStake {
            stake_account_pubkey,
            destination_account_pubkey,
            lamports,
            withdraw_authority,
            sign_only,
            signers,
            blockhash_query,
            nonce_account,
            nonce_authority,
            fee_payer,
        } => Some(
            ModuleCommand::WithdrawStake {
                config,
                stake_account_pubkey,
                destination_account_pubkey,
                lamports: *lamports,
                withdraw_authority,
                sign_only: *sign_only,
                signers,
                blockhash_query,
                nonce_account,
                nonce_authority,
                fee_payer,
            },
        ),
        CliCommand::CreateStorageAccount { account_owner, storage_account, account_type } => Some(
            ModuleCommand::CreateStorageAccount {
                config,
                account_owner,
                storage_account,
                account_type: *account_type,
            },
        ),
        CliCommand::ClaimStorageReward { node_account_pubkey, storage_account_pubkey } => Some(
            ModuleCommand::ClaimStorageReward {
                config,
                node_account_pubkey,
                storage_account_pubkey,
            },
        ),
        CliCommand::ShowStorageAccount(storage_account_pubkey) => Some(
            ModuleCommand::ShowStorageAccount { config, storage_account_pubkey },
        ),
        CliCommand::GetValidatorInfo(info_pubkey) => Some(
            ModuleCommand::GetValidatorInfo { info_pubkey: *info_pubkey },
        ),
        CliCommand::SetValidatorInfo { validator_info, force_keybase, info_pubkey } => Some(
            ModuleCommand::SetValidatorInfo {
                config,
                validator_info,
                force_keybase: *force_keybase,
                info_pubkey: *info_pubkey,
            },
        ),
        CliCommand::CreateVoteAccount {
            vote_account,
            seed,
            node_pubkey,
            authorized_voter,
            authorized_withdrawer,
            commission,
        } => Some(
            ModuleCommand::CreateVoteAccount {
                config,
                vote_account,
                seed,
                node_pubkey,
                authorized_voter,
                authorized_withdrawer,
                commission: *commission,
            },
        ),
        CliCommand::ShowVoteAccount { pubkey, use_lamports_unit } => Some(
            ModuleCommand::ShowVoteAccount {
                config,
                pubkey,
                use_lamports_unit: *use_lamports_unit,
            },
        ),
        CliCommand::VoteAuthorize {
            vote_account_pubkey,
            new_authorized_pubkey,
            vote_authorize,
        } => Some(
            ModuleCommand::VoteAuthorize {
                config,
                vote_account_pubkey,
                new_authorized_pubkey,
                vote_authorize: *vote_authorize,
            },
        ),
        CliCommand::VoteUpdateValidator {
            vote_account_pubkey,
            new_identity_pubkey,
            authorized_voter,
        } => Some(
            ModuleCommand::VoteUpdateValidator {
                config,
                vote_account_pubkey,
                new_identity_pubkey,
                authorized_voter,
            },
        ),
        _ => None,
    }
}

} // verus!
