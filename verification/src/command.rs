//! The commands, and the configuration that they run under.
use crate::authority::SigningAuthority;
use crate::fees::BlockhashQuery;
use crate::keys::{fresh_keypair, unset_pubkey, Keypair, KeypairEq, Pubkey, Signature};
use crate::text::{chars_of, starts_with};
use crate::time::Timestamp;
use std::time::Duration;
use vstd::prelude::*;

verus! {

/// A JSON value, which the commands only pass on.
#[verifier::external_type_specification]
#[verifier::external_body]
pub struct ExValue(serde_json::Value);

/// An Internet address.
#[derive(Clone, Copy, Debug, PartialEq, Eq)]
pub enum IpAddr {
    V4([u8; 4]),
    V6([u8; 16]),
}

/// How settled a block has to be.
#[derive(Clone, Copy, Debug, PartialEq, Eq)]
pub enum CommitmentLevel {
    Max,
    Recent,
    Root,
}

/// How settled the blocks that a command reads have to be.
#[derive(Clone, Copy, Debug, PartialEq, Eq)]
pub struct CommitmentConfig {
    pub commitment: CommitmentLevel,
}

impl Default for CommitmentConfig {
    fn default() -> (r: Self)
        ensures
            r.commitment == CommitmentLevel::Max,
    {
        CommitmentConfig { commitment: CommitmentLevel::Max }
    }
}

/// Until when stake is locked, and who may lift that.
#[derive(Clone, Copy, Debug, PartialEq, Eq)]
pub struct Lockup {
    pub unix_timestamp: i64,
    pub epoch: u64,
    pub custodian: Pubkey,
}

/// Which authority over stake is changed.
#[derive(Clone, Copy, Debug, PartialEq, Eq)]
pub enum StakeAuthorize {
    Staker,
    Withdrawer,
}

/// Which authority over votes is changed.
#[derive(Clone, Copy, Debug, PartialEq, Eq)]
pub enum VoteAuthorize {
    Voter,
    Withdrawer,
}

/// Who a storage account belongs to.
#[derive(Clone, Copy, Debug, PartialEq, Eq)]
pub enum StorageAccountType {
    Archiver,
    Validator,
}

/// Which key of a hardware wallet is meant.
#[derive(Clone, Copy, Debug, PartialEq, Eq)]
pub struct DerivationPath {
    pub account: Option<u32>,
    pub change: Option<u32>,
}

/// A payment, at once or held back.
#[derive(Debug, PartialEq)]
pub struct PayCommand {
    pub lamports: u64,
    pub to: Pubkey,
    pub timestamp: Option<Timestamp>,
    pub timestamp_pubkey: Option<Pubkey>,
    pub witnesses: Option<Vec<Pubkey>>,
    pub cancelable: bool,
    pub sign_only: bool,
    pub signers: Option<Vec<(Pubkey, Signature)>>,
    pub blockhash_query: BlockhashQuery,
    pub nonce_account: Option<Pubkey>,
    pub nonce_authority: Option<SigningAuthority>,
}

impl Default for PayCommand {
    fn default() -> (r: Self)
        ensures
            r == (PayCommand {
                lamports: 0,
                to: unset_pubkey(),
                timestamp: None,
                timestamp_pubkey: None,
                witnesses: None,
                cancelable: false,
                sign_only: false,
                signers: None,
                blockhash_query: BlockhashQuery::All,
                nonce_account: None,
                nonce_authority: None,
            }),
    {
        PayCommand {
            lamports: 0,
            to: Pubkey::default(),
            timestamp: None,
            timestamp_pubkey: None,
            witnesses: None,
            cancelable: false,
            sign_only: false,
            signers: None,
            blockhash_query: BlockhashQuery::default(),
            nonce_account: None,
            nonce_authority: None,
        }
    }
}

/// What a command line asks for.
#[derive(Debug, PartialEq)]
#[allow(inconsistent_fields)]
pub enum CliCommand {
    // Cluster Query Commands
    Catchup { node_pubkey: Pubkey },
    ClusterVersion,
    CreateAddressWithSeed { from_pubkey: Option<Pubkey>, seed: String, program_id: Pubkey },
    Fees,
    GetBlockTime { slot: u64 },
    GetEpochInfo { commitment_config: CommitmentConfig },
    GetGenesisHash,
    GetSlot { commitment_config: CommitmentConfig },
    GetTransactionCount { commitment_config: CommitmentConfig },
    LeaderSchedule,
    Ping {
        lamports: u64,
        interval: Duration,
        count: Option<u64>,
        timeout: Duration,
        commitment_config: CommitmentConfig,
    },
    ShowBlockProduction { epoch: Option<u64>, slot_limit: Option<u64> },
    ShowGossip,
    ShowStakes { use_lamports_unit: bool, vote_account_pubkeys: Option<Vec<Pubkey>> },
    ShowValidators { use_lamports_unit: bool },
    // Nonce Commands
    AuthorizeNonceAccount {
        nonce_account: Pubkey,
        nonce_authority: Option<SigningAuthority>,
        new_authority: Pubkey,
    },
    CreateNonceAccount {
        nonce_account: KeypairEq,
        seed: Option<String>,
        nonce_authority: Option<Pubkey>,
        lamports: u64,
    },
    GetNonce(Pubkey),
    NewNonce { nonce_account: Pubkey, nonce_authority: Option<SigningAuthority> },
    ShowNonceAccount { nonce_account_pubkey: Pubkey, use_lamports_unit: bool },
    WithdrawFromNonceAccount {
        nonce_account: Pubkey,
        nonce_authority: Option<SigningAuthority>,
        destination_account_pubkey: Pubkey,
        lamports: u64,
    },
    // Program Deployment
    Deploy(String),
    // Stake Commands
    CreateStakeAccount {
        stake_account: SigningAuthority,
        seed: Option<String>,
        staker: Option<Pubkey>,
        withdrawer: Option<Pubkey>,
        lockup: Lockup,
        lamports: u64,
        sign_only: bool,
        signers: Option<Vec<(Pubkey, Signature)>>,
        blockhash_query: BlockhashQuery,
        nonce_account: Option<Pubkey>,
        nonce_authority: Option<SigningAuthority>,
        fee_payer: Option<SigningAuthority>,
        from: Option<SigningAuthority>,
    },
    DeactivateStake {
        stake_account_pubkey: Pubkey,
        stake_authority: Option<SigningAuthority>,
        sign_only: bool,
        signers: Option<Vec<(Pubkey, Signature)>>,
        blockhash_query: BlockhashQuery,
        nonce_account: Option<Pubkey>,
        nonce_authority: Option<SigningAuthority>,
        fee_payer: Option<SigningAuthority>,
    },
    DelegateStake {
        stake_account_pubkey: Pubkey,
        vote_account_pubkey: Pubkey,
        stake_authority: Option<SigningAuthority>,
        force: bool,
        sign_only: bool,
        signers: Option<Vec<(Pubkey, Signature)>>,
        blockhash_query: BlockhashQuery,
        nonce_account: Option<Pubkey>,
        nonce_authority: Option<SigningAuthority>,
        fee_payer: Option<SigningAuthority>,
    },
    SplitStake {
        stake_account_pubkey: Pubkey,
        stake_authority: Option<SigningAuthority>,
        sign_only: bool,
        signers: Option<Vec<(Pubkey, Signature)>>,
        blockhash_query: BlockhashQuery,
        nonce_account: Option<Pubkey>,
        nonce_authority: Option<SigningAuthority>,
        split_stake_account: KeypairEq,
        seed: Option<String>,
        lamports: u64,
        fee_payer: Option<SigningAuthority>,
    },
    ShowStakeHistory { use_lamports_unit: bool },
    ShowStakeAccount { pubkey: Pubkey, use_lamports_unit: bool },
    StakeAuthorize {
        stake_account_pubkey: Pubkey,
        new_authorized_pubkey: Pubkey,
        stake_authorize: StakeAuthorize,
        authority: Option<SigningAuthority>,
        sign_only: bool,
        signers: Option<Vec<(Pubkey, Signature)>>,
        blockhash_query: BlockhashQuery,
        nonce_account: Option<Pubkey>,
        nonce_authority: Option<SigningAuthority>,
        fee_payer: Option<SigningAuthority>,
    },
    StakeSetLockup {
        stake_account_pubkey: Pubkey,
        lockup: Lockup,
        custodian: Option<SigningAuthority>,
        sign_only: bool,
        signers: Option<Vec<(Pubkey, Signature)>>,
        blockhash_query: BlockhashQuery,
        nonce_account: Option<Pubkey>,
        nonce_authority: Option<SigningAuthority>,
        fee_payer: Option<SigningAuthority>,
    },
    WithdrawStake {
        stake_account_pubkey: Pubkey,
        destination_account_pubkey: Pubkey,
        lamports: u64,
        withdraw_authority: Option<SigningAuthority>,
        sign_only: bool,
        signers: Option<Vec<(Pubkey, Signature)>>,
        blockhash_query: BlockhashQuery,
        nonce_account: Option<Pubkey>,
        nonce_authority: Option<SigningAuthority>,
        fee_payer: Option<SigningAuthority>,
    },
    // Storage Commands
    CreateStorageAccount {
        account_owner: Pubkey,
        storage_account: KeypairEq,
        account_type: StorageAccountType,
    },
    ClaimStorageReward { node_account_pubkey: Pubkey, storage_account_pubkey: Pubkey },
    ShowStorageAccount(Pubkey),
    // Validator Info Commands
    GetValidatorInfo(Option<Pubkey>),
    SetValidatorInfo {
        validator_info: serde_json::Value,
        force_keybase: bool,
        info_pubkey: Option<Pubkey>,
    },
    // Vote Commands
    CreateVoteAccount {
        vote_account: KeypairEq,
        seed: Option<String>,
        node_pubkey: Pubkey,
        authorized_voter: Option<Pubkey>,
        authorized_withdrawer: Option<Pubkey>,
        commission: u8,
    },
    ShowVoteAccount { pubkey: Pubkey, use_lamports_unit: bool },
    VoteAuthorize {
        vote_account_pubkey: Pubkey,
        new_authorized_pubkey: Pubkey,
        vote_authorize: VoteAuthorize,
    },
    VoteUpdateValidator {
        vote_account_pubkey: Pubkey,
        new_identity_pubkey: Pubkey,
        authorized_voter: KeypairEq,
    },
    // Wallet Commands
    Address,
    Airdrop {
        faucet_host: Option<IpAddr>,
        faucet_port: u16,
        lamports: u64,
        use_lamports_unit: bool,
    },
    Balance { pubkey: Option<Pubkey>, use_lamports_unit: bool },
    Cancel(Pubkey),
    Confirm(Signature),
    Pay(PayCommand),
    ShowAccount { pubkey: Pubkey, output_file: Option<String>, use_lamports_unit: bool },
    /// The recipient, the process and the moment.
    TimeElapsed(Pubkey, Pubkey, Timestamp),
    Transfer {
        lamports: u64,
        to: Pubkey,
        from: Option<SigningAuthority>,
        sign_only: bool,
        signers: Option<Vec<(Pubkey, Signature)>>,
        blockhash_query: BlockhashQuery,
        nonce_account: Option<Pubkey>,
        nonce_authority: Option<SigningAuthority>,
        fee_payer: Option<SigningAuthority>,
    },
    /// The recipient and the process.
    Witness(Pubkey, Pubkey),
}

/// A command, and whether it needs the client's key pair.
#[derive(Debug, PartialEq)]
pub struct CliCommandInfo {
    pub command: CliCommand,
    pub require_keypair: bool,
}

/// A command and what it runs under.
#[derive(Debug)]
pub struct CliConfig {
    pub command: CliCommand,
    pub json_rpc_url: String,
    pub keypair: Keypair,
    pub keypair_path: Option<String>,
    pub derivation_path: Option<DerivationPath>,
    pub verbose: bool,
}

/// Where the client's public key comes from.
#[derive(Clone, Debug, PartialEq)]
pub enum PubkeySource<'a> {
    /// The key pair at hand.
    Local(Pubkey),
    /// The hardware wallet that the path names.  A derivation path given apart from it takes the
    /// place of the path's own.
    Wallet { path: &'a str, derivation_path: Option<DerivationPath> },
}

/// Which key of a hardware wallet is asked for: the one given apart from the wallet's path, or else
/// the path's own.
pub fn derivation_for(given: Option<DerivationPath>, own: DerivationPath) -> (r: DerivationPath)
    ensures
        r == (if given is Some {
            given->0
        } else {
            own
        }),
{
    match given {
        Some(path) => path,
        None => own,
    }
}

/// Whether the key pair's path names a hardware wallet.
pub open spec fn names_wallet(path: Option<String>) -> bool {
    path matches Some(path) && "usb://"@.is_prefix_of(path@)
}

/// The key pair file under a home directory.
pub open spec fn keypair_path_under(home: Seq<char>, separator: Seq<char>) -> Seq<char> {
    (if home.len() > 0 && home.last() != separator[0] {
        home + separator
    } else {
        home
    }) + ".config"@ + separator + "solana"@ + separator + "id.json"@
}

/// `dirs::home_dir` as text.  It depends on the environment, so nothing is claimed of it.
#[verifier::external_body]
fn home_dir() -> (r: Option<String>) {
    Some(dirs::home_dir()?.to_str()?.to_string())
}

impl CliConfig {
    /// The key pair file under a home directory, whose parts the one character of `separator`
    /// keeps apart.
    pub fn keypair_path_in(home: &str, separator: &str) -> (r: String)
        requires
            separator@.len() == 1,
        ensures
            r@ == keypair_path_under(home@, separator@),
    {
        let chars = chars_of(home);
        let between = chars_of(separator);
        let mut path = home.to_owned();
        if chars.len() > 0 && chars[chars.len() - 1] != between[0] {
            path.append(separator);
        }
        path.append(".config");
        path.append(separator);
        path.append("solana");
        path.append(separator);
        path.append("id.json");
        path
    }

    /// The key pair file under the home directory, where there is one.
    pub fn keypair_path_for(home: Option<String>, separator: &str) -> (r: Option<String>)
        requires
            separator@.len() == 1,
        ensures
            match home {
                Some(home) => r matches Some(path) && path@ == keypair_path_under(
                    home@,
                    separator@,
                ),
                None => r is None,
            },
    {
        match home {
            Some(home) => Some(Self::keypair_path_in(home.as_str(), separator)),
            None => None,
        }
    }

    /// The key pair file under the user's home directory, where there is one.  Whether there is
    /// one, and which, is up to the environment.
    pub fn default_keypair_path(separator: &str) -> (r: Option<String>)
        requires
            separator@.len() == 1,
        ensures
            r matches Some(path) ==> exists|home: Seq<char>| path@ == #[trigger] keypair_path_under(
                home,
                separator@,
            ),
    {
        Self::keypair_path_for(home_dir(), separator)
    }

    /// The address of a cluster on this machine.
    pub fn default_json_rpc_url() -> (r: String)
        ensures
            r@ == "http://127.0.0.1:8899"@,
    {
        "http://127.0.0.1:8899".to_owned()
    }

    /// `self` is the configuration that holds until something else is asked for: the balance of
    /// the account of zeros, on a cluster on this machine.
    pub open spec fn is_default(self, keypair: Keypair, keypair_path: Seq<char>) -> bool {
        &&& self.command == (CliCommand::Balance {
            pubkey: Some(unset_pubkey()),
            use_lamports_unit: false,
        })
        &&& self.json_rpc_url@ == "http://127.0.0.1:8899"@
        &&& self.keypair == keypair
        &&& self.keypair_path matches Some(path) && path@ == keypair_path
        &&& self.derivation_path is None
        &&& !self.verbose
    }

    /// The configuration that holds until something else is asked for.
    pub fn new_default(keypair: Keypair, keypair_path: String) -> (r: Self)
        ensures
            r.is_default(keypair, keypair_path@),
    {
        CliConfig {
            command: CliCommand::Balance {
                pubkey: Some(Pubkey::default()),
                use_lamports_unit: false,
            },
            json_rpc_url: Self::default_json_rpc_url(),
            keypair,
            keypair_path: Some(keypair_path),
            derivation_path: None,
            verbose: false,
        }
    }

    /// The configuration that holds until something else is asked for, with the path of the key
    /// pair file under the home directory, where there is one.
    pub fn default_for(home: Option<String>, keypair: Keypair, separator: &str) -> (r: Option<Self>)
        requires
            separator@.len() == 1,
        ensures
            match home {
                Some(home) => r matches Some(config) && config.is_default(
                    keypair,
                    keypair_path_under(home@, separator@),
                ),
                None => r is None,
            },
    {
        match Self::keypair_path_for(home, separator) {
            Some(path) => Some(Self::new_default(keypair, path)),
            None => None,
        }
    }

    /// The configuration that holds until something else is asked for, with a new key pair and
    /// the path of the user's own, where there is a home directory to find it in.  Whether there
    /// is one, and which, is up to the environment.
    pub fn default(separator: &str) -> (r: Option<Self>)
        requires
            separator@.len() == 1,
        ensures
            r matches Some(config) ==> exists|home: Seq<char>|
                config.is_default(
                    config.keypair,
                    #[trigger] keypair_path_under(home, separator@),
                ),
    {
        Self::default_for(home_dir(), fresh_keypair(), separator)
    }

    /// Where the client's public key comes from: the hardware wallet where the key pair's path
    /// names one, and the key pair where it does not.
    pub fn pubkey(&self) -> (r: PubkeySource<'_>)
        ensures
            match r {
                PubkeySource::Local(key) => !names_wallet(self.keypair_path) && key
                    == self.keypair.spec_pubkey(),
                PubkeySource::Wallet { path, derivation_path } => names_wallet(self.keypair_path)
                    && path@ == self.keypair_path->0@ && derivation_path == self.derivation_path,
            },
    {
        if let Some(path) = &self.keypair_path {
            if starts_with(path.as_str(), "usb://") {
                return PubkeySource::Wallet {
                    path: path.as_str(),
                    derivation_path: self.derivation_path,
                };
            }
        }
        PubkeySource::Local(self.keypair.pubkey())
    }
}

} // verus!
