//! The grammar of the command line: the subcommands, their arguments and what these may be.
use vstd::prelude::*;

verus! {

/// What the values of an argument have to be.
#[derive(Clone, Copy, Debug, PartialEq, Eq)]
pub enum Validator {
    Anything,
    Pubkey,
    PubkeyOrKeypair,
    PubkeyOrKeypairOrAskKeyword,
    Blockhash,
    PubkeySig,
    Amount,
}

/// An argument.
#[derive(Clone, Copy, Debug, PartialEq, Eq)]
pub struct ArgSpec {
    pub name: &'static str,
    /// Its place among the arguments that no option announces.
    pub index: Option<u64>,
    pub long: Option<&'static str>,
    pub short: Option<&'static str>,
    pub value_name: Option<&'static str>,
    pub help: Option<&'static str>,
    pub takes_value: bool,
    pub required: bool,
    pub multiple: bool,
    pub use_delimiter: bool,
    /// The argument that has to be given too.
    pub requires: Option<&'static str>,
    pub default_value: Option<&'static str>,
    pub possible_values: Option<(&'static str, &'static str)>,
    pub validator: Validator,
}

/// A subcommand.
#[derive(Debug)]
pub struct CommandSpec {
    pub name: &'static str,
    pub about: &'static str,
    pub alias: Option<&'static str>,
    pub args: Vec<ArgSpec>,
}

/// The subcommands of another module.
#[derive(Clone, Copy, Debug, PartialEq, Eq)]
pub enum ModuleCommands {
    ClusterQuery,
    Nonce,
    Stake,
    Storage,
    ValidatorInfo,
    Vote,
}

/// A subcommand, or the place of another module's.
#[derive(Debug)]
pub enum Section {
    Command(CommandSpec),
    Module(ModuleCommands),
}

/// The command line.
#[derive(Debug)]
pub struct AppSpec<'a> {
    pub name: &'a str,
    pub about: &'a str,
    pub version: &'a str,
    /// Whether help is shown where no subcommand is given.
    pub subcommand_required_else_help: bool,
    pub sections: Vec<Section>,
}

/// A subcommand as a value to reason with.
#[verifier::ext_equal]
pub struct CommandSpecView {
    pub name: &'static str,
    pub about: &'static str,
    pub alias: Option<&'static str>,
    pub args: Seq<ArgSpec>,
}

/// A section as a value to reason with.
#[verifier::ext_equal]
pub enum SectionView {
    Command(CommandSpecView),
    Module(ModuleCommands),
}

impl View for CommandSpec {
    type V = CommandSpecView;

    open spec fn view(&self) -> CommandSpecView {
        CommandSpecView {
            name: self.name,
            about: self.about,
            alias: self.alias,
            args: self.args@,
        }
    }
}

impl View for Section {
    type V = SectionView;

    open spec fn view(&self) -> SectionView {
        match self {
            Section::Command(command) => SectionView::Command(command@),
            Section::Module(module) => SectionView::Module(*module),
        }
    }
}

/// The views of sections.
pub open spec fn section_views(sections: Seq<Section>) -> Seq<SectionView> {
    sections.map_values(|section: Section| section@)
}

// The kinds of arguments.

/// An argument that no option announces.
#[verifier::allow_in_spec]
pub fn positional(
    name: &'static str,
    index: u64,
    value_name: &'static str,
    validator: Validator,
    help: &'static str,
) -> ArgSpec
    returns
        (ArgSpec {
            name,
            index: Some(index),
            long: None,
            short: None,
            value_name: Some(value_name),
            help: Some(help),
            takes_value: true,
            required: true,
            multiple: false,
            use_delimiter: false,
            requires: None,
            default_value: None,
            possible_values: None,
            validator,
        }),
{
    ArgSpec {
        name,
        index: Some(index),
        long: None,
        short: None,
        value_name: Some(value_name),
        help: Some(help),
        takes_value: true,
        required: true,
        multiple: false,
        use_delimiter: false,
        requires: None,
        default_value: None,
        possible_values: None,
        validator,
    }
}

/// An option with a value.
#[verifier::allow_in_spec]
pub fn option(
    name: &'static str,
    long: &'static str,
    value_name: &'static str,
    validator: Validator,
    help: &'static str,
) -> ArgSpec
    returns
        (ArgSpec {
            name,
            index: None,
            long: Some(long),
            short: None,
            value_name: Some(value_name),
            help: Some(help),
            takes_value: true,
            required: false,
            multiple: false,
            use_delimiter: false,
            requires: None,
            default_value: None,
            possible_values: None,
            validator,
        }),
{
    ArgSpec {
        name,
        index: None,
        long: Some(long),
        short: None,
        value_name: Some(value_name),
        help: Some(help),
        takes_value: true,
        required: false,
        multiple: false,
        use_delimiter: false,
        requires: None,
        default_value: None,
        possible_values: None,
        validator,
    }
}

/// An option without a value.
#[verifier::allow_in_spec]
pub fn flag(name: &'static str, long: &'static str, help: Option<&'static str>) -> ArgSpec
    returns
        (ArgSpec {
            name,
            index: None,
            long: Some(long),
            short: None,
            value_name: None,
            help,
            takes_value: false,
            required: false,
            multiple: false,
            use_delimiter: false,
            requires: None,
            default_value: None,
            possible_values: None,
            validator: Validator::Anything,
        }),
{
    ArgSpec {
        name,
        index: None,
        long: Some(long),
        short: None,
        value_name: None,
        help,
        takes_value: false,
        required: false,
        multiple: false,
        use_delimiter: false,
        requires: None,
        default_value: None,
        possible_values: None,
        validator: Validator::Anything,
    }
}

// Arguments that several commands share.

/// The argument that names who pays the fee.
#[verifier::allow_in_spec]
pub fn fee_payer_arg() -> ArgSpec
    returns
        option(
            "fee_payer",
            "fee-payer",
            "KEYPAIR or PUBKEY",
            Validator::PubkeyOrKeypairOrAskKeyword,
            "Specify the fee-payer account. This may be a keypair file, the ASK keyword \nor the pubkey of an offline signer, provided an appropriate --signer argument \nis also passed. Defaults to the client keypair.",
        ),
{
    option(
        "fee_payer",
        "fee-payer",
        "KEYPAIR or PUBKEY",
        Validator::PubkeyOrKeypairOrAskKeyword,
        "Specify the fee-payer account. This may be a keypair file, the ASK keyword \nor the pubkey of an offline signer, provided an appropriate --signer argument \nis also passed. Defaults to the client keypair.",
    )
}

/// The argument that gives the blockhash to sign at.
#[verifier::allow_in_spec]
pub fn blockhash_arg() -> ArgSpec
    returns
        option(
            "blockhash",
            "blockhash",
            "BLOCKHASH",
            Validator::Blockhash,
            "Use the supplied blockhash",
        ),
{
    option(
        "blockhash",
        "blockhash",
        "BLOCKHASH",
        Validator::Blockhash,
        "Use the supplied blockhash",
    )
}

/// The argument that asks for signatures alone.
#[verifier::allow_in_spec]
pub fn sign_only_arg() -> ArgSpec
    returns
        (ArgSpec {
            requires: Some("blockhash"),
            ..flag("sign_only", "sign-only", Some("Sign the transaction offline"))
        }),
{
    ArgSpec {
        requires: Some("blockhash"),
        ..flag("sign_only", "sign-only", Some("Sign the transaction offline"))
    }
}

/// The argument that gives a signature made elsewhere.
#[verifier::allow_in_spec]
pub fn signer_arg() -> ArgSpec
    returns
        (ArgSpec {
            requires: Some("blockhash"),
            multiple: true,
            ..option(
                "signer",
                "signer",
                "BASE58_PUBKEY=BASE58_SIG",
                Validator::PubkeySig,
                "Provide a public-key/signature pair for the transaction",
            )
        }),
{
    ArgSpec {
        requires: Some("blockhash"),
        multiple: true,
        ..option(
            "signer",
            "signer",
            "BASE58_PUBKEY=BASE58_SIG",
            Validator::PubkeySig,
            "Provide a public-key/signature pair for the transaction",
        )
    }
}

/// The argument that names a nonce account.
#[verifier::allow_in_spec]
pub fn nonce_arg() -> ArgSpec
    returns
        (ArgSpec {
            requires: Some("blockhash"),
            ..option(
                "nonce",
                "nonce",
                "PUBKEY",
                Validator::Pubkey,
                "Provide the nonce account to use when creating a nonced transaction",
            )
        }),
{
    ArgSpec {
        requires: Some("blockhash"),
        ..option(
            "nonce",
            "nonce",
            "PUBKEY",
            Validator::Pubkey,
            "Provide the nonce account to use when creating a nonced transaction",
        )
    }
}

/// The argument that names the authority over a nonce account.
#[verifier::allow_in_spec]
pub fn nonce_authority_arg() -> ArgSpec
    returns
        (ArgSpec {
            requires: Some("nonce"),
            ..option(
                "nonce_authority",
                "nonce-authority",
                "KEYPAIR",
                Validator::PubkeyOrKeypairOrAskKeyword,
                "Provide the nonce authority keypair to use when signing a nonced transaction",
            )
        }),
{
    ArgSpec {
        requires: Some("nonce"),
        ..option(
            "nonce_authority",
            "nonce-authority",
            "KEYPAIR",
            Validator::PubkeyOrKeypairOrAskKeyword,
            "Provide the nonce authority keypair to use when signing a nonced transaction",
        )
    }
}

/// The argument that names the unit of an amount.
#[verifier::allow_in_spec]
pub fn unit_arg(index: u64, help: &'static str) -> ArgSpec
    returns
        (ArgSpec {
            required: false,
            possible_values: Some(("SOL", "lamports")),
            ..positional("unit", index, "UNIT", Validator::Anything, help)
        }),
{
    ArgSpec {
        required: false,
        possible_values: Some(("SOL", "lamports")),
        ..positional("unit", index, "UNIT", Validator::Anything, help)
    }
}

/// The argument that asks for balances in lamports.
#[verifier::allow_in_spec]
pub fn lamports_arg() -> ArgSpec
    returns
        flag("lamports", "lamports", Some("Display balance in lamports instead of SOL")),
{
    flag("lamports", "lamports", Some("Display balance in lamports instead of SOL"))
}

// The arguments of each command.

/// The arguments of `address`.
pub open spec fn address_args() -> Seq<ArgSpec> {
    Seq::empty()
}

fn address_command() -> (r: CommandSpec)
    ensures
        r@ == (CommandSpecView {
            name: "address",
            about: "Get your public key",
            alias: None,
            args: address_args(),
        }),
{
    let args: Vec<ArgSpec> = Vec::new();
    assert(args@ =~= address_args());
    CommandSpec { name: "address", about: "Get your public key", alias: None, args }
}

/// The arguments of `airdrop`.
pub open spec fn airdrop_args() -> Seq<ArgSpec> {
    seq![
        option("faucet_host", "faucet-host", "HOST", Validator::Anything, "Faucet host to use [default: the --url host]"),
        (ArgSpec {
            default_value: Some("9900"),
            ..option("faucet_port", "faucet-port", "PORT", Validator::Anything, "Faucet port to use")
        }),
        positional("amount", 1, "AMOUNT", Validator::Amount, "The airdrop amount to request (default unit SOL)"),
        unit_arg(2, "Specify unit to use for request and balance display"),
    ]
}

fn airdrop_command() -> (r: CommandSpec)
    ensures
        r@ == (CommandSpecView {
            name: "airdrop",
            about: "Request lamports",
            alias: None,
            args: airdrop_args(),
        }),
{
    let args: Vec<ArgSpec> = vec![
        option("faucet_host", "faucet-host", "HOST", Validator::Anything, "Faucet host to use [default: the --url host]"),
        (ArgSpec {
            default_value: Some("9900"),
            ..option("faucet_port", "faucet-port", "PORT", Validator::Anything, "Faucet port to use")
        }),
        positional("amount", 1, "AMOUNT", Validator::Amount, "The airdrop amount to request (default unit SOL)"),
        unit_arg(2, "Specify unit to use for request and balance display"),
    ];
    assert(args@ =~= airdrop_args());
    CommandSpec { name: "airdrop", about: "Request lamports", alias: None, args }
}

/// The arguments of `balance`.
pub open spec fn balance_args() -> Seq<ArgSpec> {
    seq![
        (ArgSpec {
            required: false,
            ..positional("pubkey", 1, "PUBKEY", Validator::PubkeyOrKeypair, "The public key of the balance to check")
        }),
        lamports_arg(),
    ]
}

fn balance_command() -> (r: CommandSpec)
    ensures
        r@ == (CommandSpecView {
            name: "balance",
            about: "Get your balance",
            alias: None,
            args: balance_args(),
        }),
{
    let args: Vec<ArgSpec> = vec![
        (ArgSpec {
            required: false,
            ..positional("pubkey", 1, "PUBKEY", Validator::PubkeyOrKeypair, "The public key of the balance to check")
        }),
        lamports_arg(),
    ];
    assert(args@ =~= balance_args());
    CommandSpec { name: "balance", about: "Get your balance", alias: None, args }
}

/// The arguments of `cancel`.
pub open spec fn cancel_args() -> Seq<ArgSpec> {
    seq![
        positional("process_id", 1, "PROCESS ID", Validator::Pubkey, "The process id of the transfer to cancel"),
    ]
}

fn cancel_command() -> (r: CommandSpec)
    ensures
        r@ == (CommandSpecView {
            name: "cancel",
            about: "Cancel a transfer",
            alias: None,
            args: cancel_args(),
        }),
{
    let args: Vec<ArgSpec> = vec![
        positional("process_id", 1, "PROCESS ID", Validator::Pubkey, "The process id of the transfer to cancel"),
    ];
    assert(args@ =~= cancel_args());
    CommandSpec { name: "cancel", about: "Cancel a transfer", alias: None, args }
}

/// The arguments of `confirm`.
pub open spec fn confirm_args() -> Seq<ArgSpec> {
    seq![
        positional("signature", 1, "SIGNATURE", Validator::Anything, "The transaction signature to confirm"),
    ]
}

fn confirm_command() -> (r: CommandSpec)
    ensures
        r@ == (CommandSpecView {
            name: "confirm",
            about: "Confirm transaction by signature",
            alias: None,
            args: confirm_args(),
        }),
{
    let args: Vec<ArgSpec> = vec![
        positional("signature", 1, "SIGNATURE", Validator::Anything, "The transaction signature to confirm"),
    ];
    assert(args@ =~= confirm_args());
    CommandSpec { name: "confirm", about: "Confirm transaction by signature", alias: None, args }
}

/// The arguments of `create-address-with-seed`.
pub open spec fn create_address_args() -> Seq<ArgSpec> {
    seq![
        positional("seed", 1, "SEED_STRING", Validator::Anything, "The seed.  Must not take more than 32 bytes to encode as utf-8"),
        positional("program_id", 2, "PROGRAM_ID", Validator::Anything, "The program_id that the address will ultimately be used for, \nor one of STAKE, VOTE, and STORAGE keywords"),
        option("from", "from", "PUBKEY", Validator::PubkeyOrKeypair, "From (base) key, defaults to client keypair."),
    ]
}

fn create_address_command() -> (r: CommandSpec)
    ensures
        r@ == (CommandSpecView {
            name: "create-address-with-seed",
            about: "Generate a derived account address with a seed",
            alias: None,
            args: create_address_args(),
        }),
{
    let args: Vec<ArgSpec> = vec![
        positional("seed", 1, "SEED_STRING", Validator::Anything, "The seed.  Must not take more than 32 bytes to encode as utf-8"),
        positional("program_id", 2, "PROGRAM_ID", Validator::Anything, "The program_id that the address will ultimately be used for, \nor one of STAKE, VOTE, and STORAGE keywords"),
        option("from", "from", "PUBKEY", Validator::PubkeyOrKeypair, "From (base) key, defaults to client keypair."),
    ];
    assert(args@ =~= create_address_args());
    CommandSpec { name: "create-address-with-seed", about: "Generate a derived account address with a seed", alias: None, args }
}

/// The arguments of `deploy`.
pub open spec fn deploy_args() -> Seq<ArgSpec> {
    seq![
        positional("program_location", 1, "PATH TO BPF PROGRAM", Validator::Anything, "/path/to/program.o"),
    ]
}

fn deploy_command() -> (r: CommandSpec)
    ensures
        r@ == (CommandSpecView {
            name: "deploy",
            about: "Deploy a program",
            alias: None,
            args: deploy_args(),
        }),
{
    let args: Vec<ArgSpec> = vec![
        positional("program_location", 1, "PATH TO BPF PROGRAM", Validator::Anything, "/path/to/program.o"),
    ];
    assert(args@ =~= deploy_args());
    CommandSpec { name: "deploy", about: "Deploy a program", alias: None, args }
}

/// The arguments of `pay`.
pub open spec fn pay_args() -> Seq<ArgSpec> {
    seq![
        positional("to", 1, "TO PUBKEY", Validator::PubkeyOrKeypair, "The pubkey of recipient"),
        positional("amount", 2, "AMOUNT", Validator::Amount, "The amount to send (default unit SOL)"),
        unit_arg(3, "Specify unit to use for request"),
        option("timestamp", "after", "DATETIME", Validator::Anything, "A timestamp after which transaction will execute"),
        (ArgSpec {
            requires: Some("timestamp"),
            ..option("timestamp_pubkey", "require-timestamp-from", "PUBKEY", Validator::Pubkey, "Require timestamp from this third party")
        }),
        (ArgSpec {
            multiple: true,
            use_delimiter: true,
            ..option("witness", "require-signature-from", "PUBKEY", Validator::Pubkey, "Any third party signatures required to unlock the lamports")
        }),
        flag("cancelable", "cancelable", None),
        blockhash_arg(),
        sign_only_arg(),
        signer_arg(),
        nonce_arg(),
        nonce_authority_arg(),
    ]
}

fn pay_command() -> (r: CommandSpec)
    ensures
        r@ == (CommandSpecView {
            name: "pay",
            about: "Send a payment",
            alias: None,
            args: pay_args(),
        }),
{
    let args: Vec<ArgSpec> = vec![
        positional("to", 1, "TO PUBKEY", Validator::PubkeyOrKeypair, "The pubkey of recipient"),
        positional("amount", 2, "AMOUNT", Validator::Amount, "The amount to send (default unit SOL)"),
        unit_arg(3, "Specify unit to use for request"),
        option("timestamp", "after", "DATETIME", Validator::Anything, "A timestamp after which transaction will execute"),
        (ArgSpec {
            requires: Some("timestamp"),
            ..option("timestamp_pubkey", "require-timestamp-from", "PUBKEY", Validator::Pubkey, "Require timestamp from this third party")
        }),
        (ArgSpec {
            multiple: true,
            use_delimiter: true,
            ..option("witness", "require-signature-from", "PUBKEY", Validator::Pubkey, "Any third party signatures required to unlock the lamports")
        }),
        flag("cancelable", "cancelable", None),
        blockhash_arg(),
        sign_only_arg(),
        signer_arg(),
        nonce_arg(),
        nonce_authority_arg(),
    ];
    assert(args@ =~= pay_args());
    CommandSpec { name: "pay", about: "Send a payment", alias: None, args }
}

/// The arguments of `send-signature`.
pub open spec fn send_signature_args() -> Seq<ArgSpec> {
    seq![
        positional("to", 1, "PUBKEY", Validator::Pubkey, "The pubkey of recipient"),
        positional("process_id", 2, "PROCESS ID", Validator::Anything, "The process id of the transfer to authorize"),
    ]
}

fn send_signature_command() -> (r: CommandSpec)
    ensures
        r@ == (CommandSpecView {
            name: "send-signature",
            about: "Send a signature to authorize a transfer",
            alias: None,
            args: send_signature_args(),
        }),
{
    let args: Vec<ArgSpec> = vec![
        positional("to", 1, "PUBKEY", Validator::Pubkey, "The pubkey of recipient"),
        positional("process_id", 2, "PROCESS ID", Validator::Anything, "The process id of the transfer to authorize"),
    ];
    assert(args@ =~= send_signature_args());
    CommandSpec { name: "send-signature", about: "Send a signature to authorize a transfer", alias: None, args }
}

/// The arguments of `send-timestamp`.
pub open spec fn send_timestamp_args() -> Seq<ArgSpec> {
    seq![
        positional("to", 1, "PUBKEY", Validator::Pubkey, "The pubkey of recipient"),
        positional("process_id", 2, "PROCESS ID", Validator::Anything, "The process id of the transfer to unlock"),
        option("datetime", "date", "DATETIME", Validator::Anything, "Optional arbitrary timestamp to apply"),
    ]
}

fn send_timestamp_command() -> (r: CommandSpec)
    ensures
        r@ == (CommandSpecView {
            name: "send-timestamp",
            about: "Send a timestamp to unlock a transfer",
            alias: None,
            args: send_timestamp_args(),
        }),
{
    let args: Vec<ArgSpec> = vec![
        positional("to", 1, "PUBKEY", Validator::Pubkey, "The pubkey of recipient"),
        positional("process_id", 2, "PROCESS ID", Validator::Anything, "The process id of the transfer to unlock"),
        option("datetime", "date", "DATETIME", Validator::Anything, "Optional arbitrary timestamp to apply"),
    ];
    assert(args@ =~= send_timestamp_args());
    CommandSpec { name: "send-timestamp", about: "Send a timestamp to unlock a transfer", alias: None, args }
}

/// The arguments of `transfer`.
pub open spec fn transfer_args() -> Seq<ArgSpec> {
    seq![
        positional("to", 1, "TO PUBKEY", Validator::PubkeyOrKeypair, "The pubkey of recipient"),
        positional("amount", 2, "AMOUNT", Validator::Amount, "The amount to send (default unit SOL)"),
        unit_arg(3, "Specify unit to use for request"),
        option("from", "from", "KEYPAIR or PUBKEY", Validator::PubkeyOrKeypairOrAskKeyword, "Source account of funds (if different from client local account)"),
        blockhash_arg(),
        sign_only_arg(),
        signer_arg(),
        nonce_arg(),
        nonce_authority_arg(),
        fee_payer_arg(),
    ]
}

fn transfer_command() -> (r: CommandSpec)
    ensures
        r@ == (CommandSpecView {
            name: "transfer",
            about: "Transfer funds between system accounts",
            alias: None,
            args: transfer_args(),
        }),
{
    let args: Vec<ArgSpec> = vec![
        positional("to", 1, "TO PUBKEY", Validator::PubkeyOrKeypair, "The pubkey of recipient"),
        positional("amount", 2, "AMOUNT", Validator::Amount, "The amount to send (default unit SOL)"),
        unit_arg(3, "Specify unit to use for request"),
        option("from", "from", "KEYPAIR or PUBKEY", Validator::PubkeyOrKeypairOrAskKeyword, "Source account of funds (if different from client local account)"),
        blockhash_arg(),
        sign_only_arg(),
        signer_arg(),
        nonce_arg(),
        nonce_authority_arg(),
        fee_payer_arg(),
    ];
    assert(args@ =~= transfer_args());
    CommandSpec { name: "transfer", about: "Transfer funds between system accounts", alias: None, args }
}

/// The arguments of `account`.
pub open spec fn account_args() -> Seq<ArgSpec> {
    seq![
        positional("account_pubkey", 1, "ACCOUNT PUBKEY", Validator::PubkeyOrKeypair, "Account pubkey"),
        (ArgSpec {
            short: Some("o"),
            ..option("output_file", "output", "FILE", Validator::Anything, "Write the account data to this file")
        }),
        lamports_arg(),
    ]
}

fn account_command() -> (r: CommandSpec)
    ensures
        r@ == (CommandSpecView {
            name: "account",
            about: "Show the contents of an account",
            alias: Some("account"),
            args: account_args(),
        }),
{
    let args: Vec<ArgSpec> = vec![
        positional("account_pubkey", 1, "ACCOUNT PUBKEY", Validator::PubkeyOrKeypair, "Account pubkey"),
        (ArgSpec {
            short: Some("o"),
            ..option("output_file", "output", "FILE", Validator::Anything, "Write the account data to this file")
        }),
        lamports_arg(),
    ];
    assert(args@ =~= account_args());
    CommandSpec { name: "account", about: "Show the contents of an account", alias: Some("account"), args }
}

/// A subcommand.
pub open spec fn command(
    name: &'static str,
    about: &'static str,
    alias: Option<&'static str>,
    args: Seq<ArgSpec>,
) -> SectionView {
    SectionView::Command(CommandSpecView { name, about, alias, args })
}

/// The subcommands, in the order in which they are shown.
pub open spec fn sections() -> Seq<SectionView> {
    seq![
        command("address", "Get your public key", None, address_args()),
        SectionView::Module(ModuleCommands::ClusterQuery),
        SectionView::Module(ModuleCommands::Nonce),
        SectionView::Module(ModuleCommands::Stake),
        SectionView::Module(ModuleCommands::Storage),
        command("airdrop", "Request lamports", None, airdrop_args()),
        command("balance", "Get your balance", None, balance_args()),
        command("cancel", "Cancel a transfer", None, cancel_args()),
        command("confirm", "Confirm transaction by signature", None, confirm_args()),
        command("create-address-with-seed", "Generate a derived account address with a seed", None, create_address_args()),
        command("deploy", "Deploy a program", None, deploy_args()),
        command("pay", "Send a payment", None, pay_args()),
        command("send-signature", "Send a signature to authorize a transfer", None, send_signature_args()),
        command("send-timestamp", "Send a timestamp to unlock a transfer", None, send_timestamp_args()),
        command("transfer", "Transfer funds between system accounts", None, transfer_args()),
        command("account", "Show the contents of an account", Some("account"), account_args()),
        SectionView::Module(ModuleCommands::ValidatorInfo),
        SectionView::Module(ModuleCommands::Vote),
    ]
}

/// The command line.
pub fn app<'a>(name: &'a str, about: &'a str, version: &'a str) -> (r: AppSpec<'a>)
    ensures
        r.name == name,
        r.about == about,
        r.version == version,
        r.subcommand_required_else_help,
        section_views(r.sections@) == sections(),
{
    let list: Vec<Section> = vec![
        Section::Command(address_command()),
        Section::Module(ModuleCommands::ClusterQuery),
        Section::Module(ModuleCommands::Nonce),
        Section::Module(ModuleCommands::Stake),
        Section::Module(ModuleCommands::Storage),
        Section::Command(airdrop_command()),
        Section::Command(balance_command()),
        Section::Command(cancel_command()),
        Section::Command(confirm_command()),
        Section::Command(create_address_command()),
        Section::Command(deploy_command()),
        Section::Command(pay_command()),
        Section::Command(send_signature_command()),
        Section::Command(send_timestamp_command()),
        Section::Command(transfer_command()),
        Section::Command(account_command()),
        Section::Module(ModuleCommands::ValidatorInfo),
        Section::Module(ModuleCommands::Vote),
    ];
    assert(section_views(list@) =~= sections());
    AppSpec { name, about, version, subcommand_required_else_help: true, sections: list }
}

} // verus!
