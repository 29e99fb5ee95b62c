//! How far a command has come: what it asks for next, or what it comes to.
//!
//! Each step names one thing that the command needs from outside and holds what it knows so far.
//! Resuming the step with the answer leads to the next one.
use crate::command::{CliConfig, DerivationPath, IpAddr, PayCommand};
use crate::delegate::ModuleCommand;
use crate::errors::{ErrorDomain, ProcessResult};
use crate::fees::{BlockhashQuery, FeeCalculator};
use crate::authority::SigningAuthority;
use crate::keys::{Blockhash, Keypair, Pubkey, Signature};
use crate::time::Timestamp;
use crate::transaction::Transaction;
use vstd::prelude::*;

verus! {

/// An Internet address and port.
#[derive(Clone, Copy, Debug, PartialEq, Eq)]
pub struct SocketAddr {
    pub ip: IpAddr,
    pub port: u16,
}

/// One line of output.
#[derive(Clone, Debug, PartialEq, Eq)]
pub enum Line {
    Blank,
    Text(String),
    /// A value under its name.
    NameValue(&'static str, String),
    /// The announcement of a request for an amount from a faucet.
    Airdrop(String, SocketAddr),
}

/// A line as a value to reason with.
pub enum LineView {
    Blank,
    Text(Seq<char>),
    NameValue(Seq<char>, Seq<char>),
    Airdrop(Seq<char>, SocketAddr),
}

impl View for Line {
    type V = LineView;

    open spec fn view(&self) -> LineView {
        match self {
            Line::Blank => LineView::Blank,
            Line::Text(text) => LineView::Text(text@),
            Line::NameValue(name, value) => LineView::NameValue(name@, value@),
            Line::Airdrop(amount, address) => LineView::Airdrop(amount@, *address),
        }
    }
}

/// The views of lines.
pub open spec fn line_views(lines: Seq<Line>) -> Seq<LineView> {
    lines.map_values(|line: Line| line@)
}

/// How far a command has come.
#[derive(Debug)]
pub enum Progress<'a> {
    /// Lines to print before going on.
    Print(Vec<Line>, Box<Progress<'a>>),
    /// A signed transaction whose signers are to be shown, and what the command comes to.
    Signed(Transaction, ProcessResult),
    /// The public key of a hardware wallet.
    Wallet(WalletStep<'a>),
    /// The address of a host.
    Host(HostStep<'a>),
    /// A recent blockhash and its fees.
    Blockhash(BlockhashStep<'a>),
    /// The balance of an account.
    Balance(BalanceStep<'a>),
    /// Whether a nonce account is fit for use.
    Nonce(NonceStep),
    /// The outcome of one transaction.
    Send(SendStep<'a>),
    /// The outcome of several transactions.
    SendAll(SendAllStep<'a>),
    /// What became of a transaction.
    Status(StatusStep),
    /// The contents of an account.
    Account(AccountStep<'a>),
    /// Bytes written to a file.
    WriteFile(WriteStep<'a>),
    /// The bytes of a file.
    ReadFile(ReadStep<'a>),
    /// The least balance of an account that pays no rent.
    Rent(RentStep<'a>),
    /// A transaction from a faucet.
    Faucet(FaucetStep),
    /// The command is another module's, which is asked to do this.
    Delegate(ModuleCommand<'a>),
    /// What the command comes to.
    Done(ProcessResult),
}

/// Asks a hardware wallet for its public key.
#[derive(Debug)]
pub struct WalletStep<'a> {
    pub path: &'a str,
    pub derivation_path: Option<DerivationPath>,
    pub next: WalletThen<'a>,
}

/// What the public key of a hardware wallet is for.
#[derive(Debug)]
pub enum WalletThen<'a> {
    /// To be shown before the command goes on.
    Show(Box<Progress<'a>>),
    /// To be used.
    Use(PubkeyUse<'a>),
}

/// What the client's public key is used for.
#[derive(Clone, Copy, Debug)]
pub enum PubkeyUse<'a> {
    /// The command comes to it.
    Address,
    /// It is the base of an address where there is no other.
    CreateAddress { from: Option<Pubkey>, seed: &'a str, program_id: Pubkey },
    /// Its balance is shown where there is no other key.
    Balance { pubkey: Option<Pubkey>, use_lamports_unit: bool },
    /// It is sent lamports.
    Airdrop { address: SocketAddr, lamports: u64, use_lamports_unit: bool },
}

/// Asks for the address of a host, for an airdrop.
#[derive(Debug)]
pub struct HostStep<'a> {
    pub config: &'a CliConfig,
    pub host: String,
    pub port: u16,
    pub lamports: u64,
    pub use_lamports_unit: bool,
}

/// Asks the cluster for a recent blockhash and its fees.
#[derive(Debug)]
pub struct BlockhashStep<'a> {
    pub next: BlockhashThen<'a>,
}

/// What a transfer is made of.
#[derive(Clone, Copy, Debug)]
pub struct TransferArgs<'a> {
    pub lamports: u64,
    pub to: &'a Pubkey,
    pub from: &'a Option<SigningAuthority>,
    pub sign_only: bool,
    pub signers: &'a Option<Vec<(Pubkey, Signature)>>,
    pub blockhash_query: &'a BlockhashQuery,
    pub nonce_account: &'a Option<Pubkey>,
    pub nonce_authority: &'a Option<SigningAuthority>,
    pub fee_payer: &'a Option<SigningAuthority>,
}

/// What a recent blockhash is for.
#[derive(Debug)]
pub enum BlockhashThen<'a> {
    Pay { client: &'a Keypair, pay: &'a PayCommand },
    Transfer { client: &'a Keypair, args: TransferArgs<'a> },
    Cancel { client: &'a Keypair, process_id: &'a Pubkey },
    TimeElapsed {
        client: &'a Keypair,
        to: &'a Pubkey,
        process_id: &'a Pubkey,
        when: &'a Timestamp,
    },
    Witness { client: &'a Keypair, to: &'a Pubkey, process_id: &'a Pubkey },
    Deploy { config: &'a CliConfig, program: Keypair, data: Vec<u8> },
    Airdrop(AirdropOrder),
}

/// A nonce account, who has to be its authority and what it has to hold.
#[derive(Clone, Copy, Debug, PartialEq, Eq)]
pub struct NonceCheck {
    pub account: Pubkey,
    pub authority: Pubkey,
    pub blockhash: Blockhash,
}

/// What a command comes to whose transaction succeeds.
#[derive(Clone, Copy, Debug, PartialEq, Eq)]
pub enum Receipt {
    /// The transaction's signature.
    Signature,
    /// The transaction's signature and the contract that it set up.
    Contract(Pubkey),
}

/// A transaction on its way to the cluster.
#[derive(Debug)]
pub struct Submission {
    pub tx: Transaction,
    /// The key pairs to sign it again with, at another blockhash.
    pub signers: Vec<Keypair>,
    /// The account that the fee is checked against.
    pub payer: Pubkey,
    pub fee_calculator: FeeCalculator,
    /// The program whose codes a failure reports.
    pub domain: ErrorDomain,
    pub receipt: Receipt,
}

/// Asks whether a nonce account is fit for use.
#[derive(Debug)]
pub struct NonceStep {
    pub check: NonceCheck,
    pub next: Submission,
}

/// Asks the cluster for an account's balance.
#[derive(Debug)]
pub struct BalanceStep<'a> {
    pub pubkey: Pubkey,
    pub next: BalanceThen<'a>,
}

/// What a balance is for.
#[derive(Debug)]
pub enum BalanceThen<'a> {
    /// To be compared with a transaction's fee before it is sent.
    Fee(Submission),
    /// To be compared with the fees of a deployment before it starts.
    DeployFees(Deployment<'a>),
    /// To be shown.
    Show { use_lamports_unit: bool },
    /// To be kept until an airdrop has come.
    BeforeAirdrop { address: SocketAddr, lamports: u64, use_lamports_unit: bool },
    /// To be shown once an airdrop has come.
    AfterAirdrop { previous: u64, use_lamports_unit: bool },
}

/// The transactions that deploy a program.
#[derive(Debug)]
pub struct Deployment<'a> {
    pub config: &'a CliConfig,
    pub program: Keypair,
    pub fee_calculator: FeeCalculator,
    pub create: Transaction,
    pub writes: Vec<Transaction>,
    pub finalize: Transaction,
}

/// Who signs a transaction again that is sent at another blockhash.
#[derive(Debug)]
pub enum Resigners {
    Keypairs(Vec<Keypair>),
    Faucet(FaucetKeypair),
}

/// Sends a transaction and waits for its outcome.
#[derive(Debug)]
pub struct SendStep<'a> {
    pub tx: Transaction,
    pub signers: Resigners,
    pub next: SendThen<'a>,
}

/// What a transaction's outcome is for.
#[derive(Debug)]
pub enum SendThen<'a> {
    /// To be reported.
    Report { domain: ErrorDomain, receipt: Receipt },
    /// To go on with a deployment, whose account was made.
    WriteProgram {
        config: &'a CliConfig,
        program: Keypair,
        writes: Vec<Transaction>,
        finalize: Transaction,
    },
    /// To end a deployment.
    EndDeployment { program: Keypair },
    /// To end an airdrop.
    EndAirdrop { to: Pubkey, after: AfterAirdrop },
}

/// Sends transactions and waits for their outcome.
#[derive(Debug)]
pub struct SendAllStep<'a> {
    pub config: &'a CliConfig,
    pub txs: Vec<Transaction>,
    pub signers: Vec<Keypair>,
    pub program: Keypair,
    pub finalize: Transaction,
}

/// Asks the cluster what became of a transaction.
#[derive(Debug)]
pub struct StatusStep {
    pub signature: String,
}

/// An account's contents.
#[derive(Debug)]
pub struct AccountInfo {
    pub lamports: u64,
    pub owner: Pubkey,
    pub executable: bool,
    pub data: Vec<u8>,
}

/// Asks the cluster for an account's contents.
#[derive(Debug)]
pub struct AccountStep<'a> {
    pub pubkey: Pubkey,
    pub output_file: &'a Option<String>,
    pub use_lamports_unit: bool,
}

/// Writes bytes to a file.
#[derive(Debug)]
pub struct WriteStep<'a> {
    pub path: &'a str,
    pub bytes: Vec<u8>,
}

/// Why a file could not be read.
#[derive(Clone, Debug, PartialEq, Eq)]
pub enum FileError {
    Open(String),
    Read(String),
}

/// Asks for the bytes of a program file.
#[derive(Debug)]
pub struct ReadStep<'a> {
    pub config: &'a CliConfig,
    pub path: &'a str,
    pub program: Keypair,
}

/// Asks the cluster for the least balance of an account of this size that pays no rent.
#[derive(Debug)]
pub struct RentStep<'a> {
    pub config: &'a CliConfig,
    pub program: Keypair,
    pub data: Vec<u8>,
    pub blockhash: Blockhash,
    pub fee_calculator: FeeCalculator,
}

/// What follows an airdrop.
#[derive(Clone, Copy, Debug, PartialEq, Eq)]
pub enum AfterAirdrop {
    /// The command comes to the transaction's signature.
    Nothing,
    /// The command comes to the balance, or to the one before where there is none.
    ShowBalance { previous: u64, use_lamports_unit: bool },
}

/// Lamports asked of a faucet.
#[derive(Clone, Copy, Debug, PartialEq, Eq)]
pub struct AirdropOrder {
    pub address: SocketAddr,
    pub to: Pubkey,
    pub lamports: u64,
    pub after: AfterAirdrop,
}

/// Asks a faucet for a transaction.
#[derive(Debug)]
pub struct FaucetStep {
    pub order: AirdropOrder,
    pub blockhash: Blockhash,
    /// How many more times the faucet may be asked after this.
    pub retries: u8,
    /// Whether to wait a second first.
    pub pause: bool,
}

/// A signer that only hands out the signature that a faucet's transaction came with.  It serves
/// a client that sends the transaction again, but not one that changes the blockhash.
#[derive(Debug)]
pub struct FaucetKeypair {
    pub transaction: Transaction,
}

} // verus!
