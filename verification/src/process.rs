//! Running a command, and going on with it when an answer has come.
use crate::account::{
    asks_status, derives, process_confirm, process_create_address_with_seed, show_balance,
    shows_balance,
};
use crate::airdrop::{
    end_airdrop, ends_airdrop, first_request, show_new_balance, shows_new_balance, start_airdrop,
    starts_airdrop, FAUCET_RETRIES,
};
use crate::amount::{balance_text, build_balance_message};
use crate::command::{
    names_wallet, CliCommand, CliCommandInfo, CliConfig, IpAddr, PayCommand, PubkeySource,
};
use crate::delegate::{find_module_command, module_command};
use crate::deploy::{
    deploy_if_covered, deployment_messages, end_deployment, makes_account, process_deploy,
    program_fails, program_json, tx_views, write_program, writes_program,
};
use crate::errors::{ClientError, CommandError};
use crate::fees::{can_pay, fee_check, FeeCalculator};
use crate::instruction::{apply_signature_ix, apply_timestamp_ix};
use crate::keys::{pubkey_text, Blockhash, Pubkey};
use crate::matches::ArgMatches;
use crate::parse::{admits_pay, admits_transfer, describes_pay, is_no_date, is_transfer};
use crate::pay::{
    has_witness, names_witness, pay_at, pays, process_pay, process_transfer, starts_pay, starts_transfer,
    tells_contract, time_elapsed_at, transfer_at, transfers, witness_at,
};
use crate::progress::{
    line_views, AccountStep, BalanceStep, BalanceThen, BlockhashStep, BlockhashThen, FaucetStep,
    HostStep, Line, LineView, Progress, PubkeyUse, RentStep, SendStep, SendThen, SocketAddr,
    TransferArgs, WalletStep, WalletThen,
};
use crate::submit::{
    comes_to, fails_with, report, reports, send_if_covered, sends,
};
use crate::text::optional_text;
use vstd::prelude::*;

verus! {

/// The host of an address on the web.
pub uninterp spec fn url_host(text: Seq<char>) -> Option<Seq<char>>;

/// `url::Url::parse`, then `url::Url::host`, printed.  Claimed: the host depends on the text
/// alone.
#[verifier::external_body]
fn read_host(text: &str) -> (r: Option<String>)
    ensures
        optional_text(r) == url_host(text@),
{
    Some(url::Url::parse(text).ok()?.host()?.to_string())
}

// The client's public key.

/// The command asks for the balance of an account.
pub open spec fn asks_balance(progress: Progress, pubkey: Pubkey, next: BalanceThen) -> bool {
    progress matches Progress::Balance(step) && step.pubkey == pubkey && step.next == next
}

/// The command prints what it asks a faucet for, and asks for the balance before.
pub open spec fn announces_airdrop(
    progress: Progress,
    pubkey: Pubkey,
    address: SocketAddr,
    lamports: u64,
    use_lamports_unit: bool,
) -> bool {
    &&& progress matches Progress::Print(lines, rest)
    &&& line_views(lines@) == seq![
        LineView::Airdrop(balance_text(lamports, use_lamports_unit, true), address),
    ]
    &&& asks_balance(
        *rest,
        pubkey,
        BalanceThen::BeforeAirdrop { address, lamports, use_lamports_unit },
    )
}

/// The command uses the client's public key.
pub open spec fn uses_pubkey(progress: Progress, purpose: PubkeyUse, pubkey: Pubkey) -> bool {
    match purpose {
        PubkeyUse::Address => comes_to(progress, pubkey_text(pubkey)),
        PubkeyUse::CreateAddress { from, seed, program_id } => derives(
            progress,
            match from {
                Some(from) => from,
                None => pubkey,
            },
            seed@,
            program_id,
        ),
        PubkeyUse::Balance { pubkey: other, use_lamports_unit } => asks_balance(
            progress,
            match other {
                Some(other) => other,
                None => pubkey,
            },
            BalanceThen::Show { use_lamports_unit },
        ),
        PubkeyUse::Airdrop { address, lamports, use_lamports_unit } => announces_airdrop(
            progress,
            pubkey,
            address,
            lamports,
            use_lamports_unit,
        ),
    }
}

/// The command asks the hardware wallet that the key pair's path names for its public key.
pub open spec fn asks_wallet(progress: Progress, config: CliConfig) -> bool {
    &&& progress matches Progress::Wallet(step)
    &&& step.path@ == config.keypair_path->0@
    &&& step.derivation_path == config.derivation_path
}

/// The command uses the client's public key, which a hardware wallet is asked for where the key
/// pair's path names one.
pub open spec fn needs_pubkey(progress: Progress, config: CliConfig, purpose: PubkeyUse) -> bool {
    if names_wallet(config.keypair_path) {
        &&& asks_wallet(progress, config)
        &&& progress matches Progress::Wallet(step)
        &&& step.next == WalletThen::Use(purpose)
    } else {
        uses_pubkey(progress, purpose, config.keypair.spec_pubkey())
    }
}

fn use_pubkey<'a>(purpose: PubkeyUse<'a>, pubkey: Pubkey) -> (r: Progress<'a>)
    ensures
        uses_pubkey(r, purpose, pubkey),
{
    match purpose {
        PubkeyUse::Address => Progress::Done(Ok(pubkey.to_string())),
        PubkeyUse::CreateAddress { from, seed, program_id } => {
            let base = match from {
                Some(from) => from,
                None => pubkey,
            };
            process_create_address_with_seed(&base, seed, &program_id)
        },
        PubkeyUse::Balance { pubkey: other, use_lamports_unit } => {
            let account = match other {
                Some(other) => other,
                None => pubkey,
            };
            Progress::Balance(
                BalanceStep { pubkey: account, next: BalanceThen::Show { use_lamports_unit } },
            )
        },
        PubkeyUse::Airdrop { address, lamports, use_lamports_unit } => {
            let amount = build_balance_message(lamports, use_lamports_unit, true);
            let ghost text = amount@;
            let lines: Vec<Line> = vec![Line::Airdrop(amount, address)];
            assert(line_views(lines@) =~= seq![LineView::Airdrop(text, address)]);
            Progress::Print(
                lines,
                Box::new(
                    Progress::Balance(
                        BalanceStep {
                            pubkey,
                            next: BalanceThen::BeforeAirdrop {
                                address,
                                lamports,
                                use_lamports_unit,
                            },
                        },
                    ),
                ),
            )
        },
    }
}

fn with_pubkey<'a>(config: &'a CliConfig, purpose: PubkeyUse<'a>) -> (r: Progress<'a>)
    ensures
        needs_pubkey(r, *config, purpose),
{
    match config.pubkey() {
        PubkeySource::Local(pubkey) => use_pubkey(purpose, pubkey),
        PubkeySource::Wallet { path, derivation_path } => Progress::Wallet(
            WalletStep { path, derivation_path, next: WalletThen::Use(purpose) },
        ),
    }
}

impl<'a> WalletStep<'a> {
    /// Goes on with the wallet's public key.
    pub fn resume(self, reply: Result<Pubkey, String>) -> (r: Progress<'a>)
        ensures
            match (reply, self.next) {
                (Err(text), _) => fails_with(r, CommandError::Other(text)),
                (Ok(pubkey), WalletThen::Show(rest)) => {
                    &&& r matches Progress::Print(lines, next)
                    &&& line_views(lines@) == seq![
                        LineView::NameValue("Pubkey:"@, pubkey_text(pubkey)),
                    ]
                    &&& next == rest
                },
                (Ok(pubkey), WalletThen::Use(purpose)) => uses_pubkey(r, purpose, pubkey),
            },
    {
        match reply {
            Err(text) => Progress::Done(Err(CommandError::Other(text))),
            Ok(pubkey) => match self.next {
                WalletThen::Show(rest) => {
                    let lines: Vec<Line> = vec![Line::NameValue("Pubkey:", pubkey.to_string())];
                    assert(line_views(lines@) =~= seq![
                        LineView::NameValue("Pubkey:"@, pubkey_text(pubkey)),
                    ]);
                    Progress::Print(lines, rest)
                },
                WalletThen::Use(purpose) => use_pubkey(purpose, pubkey),
            },
        }
    }
}

impl<'a> HostStep<'a> {
    /// Goes on with the airdrop at the host's address.
    pub fn resume(self, ip: IpAddr) -> (r: Progress<'a>)
        ensures
            needs_pubkey(
                r,
                *self.config,
                PubkeyUse::Airdrop {
                    address: SocketAddr { ip, port: self.port },
                    lamports: self.lamports,
                    use_lamports_unit: self.use_lamports_unit,
                },
            ),
    {
        with_pubkey(
            self.config,
            PubkeyUse::Airdrop {
                address: SocketAddr { ip, port: self.port },
                lamports: self.lamports,
                use_lamports_unit: self.use_lamports_unit,
            },
        )
    }
}

// Running a command.

/// The airdrop goes to the faucet's address, which is the cluster's own where none is given.
pub open spec fn airdrops(
    progress: Progress,
    config: CliConfig,
    faucet_host: Option<IpAddr>,
    port: u16,
    lamports: u64,
    use_lamports_unit: bool,
) -> bool {
    match faucet_host {
        Some(ip) => needs_pubkey(
            progress,
            config,
            PubkeyUse::Airdrop { address: SocketAddr { ip, port }, lamports, use_lamports_unit },
        ),
        None => {
            &&& progress matches Progress::Host(step)
            &&& *step.config == config
            &&& Some(step.host@) == url_host(config.json_rpc_url@)
            &&& step.port == port
            &&& step.lamports == lamports
            &&& step.use_lamports_unit == use_lamports_unit
        },
    }
}

/// The command asks for a recent blockhash.
pub open spec fn asks_blockhash(progress: Progress, next: BlockhashThen) -> bool {
    progress matches Progress::Blockhash(step) && step.next == next
}

/// The command runs.
pub open spec fn runs(progress: Progress, config: CliConfig) -> bool {
    match config.command {
        CliCommand::Address => needs_pubkey(progress, config, PubkeyUse::Address),
        CliCommand::CreateAddressWithSeed { from_pubkey, seed, program_id } => {
            if names_wallet(config.keypair_path) {
                &&& asks_wallet(progress, config)
                &&& progress matches Progress::Wallet(step)
                &&& step.next matches WalletThen::Use(
                    PubkeyUse::CreateAddress { from, seed: text, program_id: id },
                )
                &&& from == from_pubkey
                &&& text@ == seed@
                &&& id == program_id
            } else {
                derives(
                    progress,
                    match from_pubkey {
                        Some(from) => from,
                        None => config.keypair.spec_pubkey(),
                    },
                    seed@,
                    program_id,
                )
            }
        },
        CliCommand::Balance { pubkey, use_lamports_unit } => needs_pubkey(
            progress,
            config,
            PubkeyUse::Balance { pubkey, use_lamports_unit },
        ),
        CliCommand::Airdrop { faucet_host, faucet_port, lamports, use_lamports_unit } => airdrops(
            progress,
            config,
            faucet_host,
            faucet_port,
            lamports,
            use_lamports_unit,
        ),
        CliCommand::Cancel(process_id) => asks_blockhash(
            progress,
            BlockhashThen::Cancel { client: &config.keypair, process_id: &process_id },
        ),
        CliCommand::Confirm(signature) => asks_status(progress, signature),
        CliCommand::Deploy(path) => {
            &&& progress matches Progress::ReadFile(step)
            &&& *step.config == config
            &&& step.path@ == path@
        },
        CliCommand::Pay(pay) => starts_pay(progress, config, pay),
        CliCommand::ShowAccount { pubkey, output_file, use_lamports_unit } => {
            &&& progress matches Progress::Account(step)
            &&& step.pubkey == pubkey
            &&& *step.output_file == output_file
            &&& step.use_lamports_unit == use_lamports_unit
        },
        CliCommand::TimeElapsed(to, process_id, when) => asks_blockhash(
            progress,
            BlockhashThen::TimeElapsed {
                client: &config.keypair,
                to: &to,
                process_id: &process_id,
                when: &when,
            },
        ),
        CliCommand::Transfer {
            lamports,
            to,
            from,
            sign_only,
            signers,
            blockhash_query,
            nonce_account,
            nonce_authority,
            fee_payer,
        } => starts_transfer(
            progress,
            config,
            TransferArgs {
                lamports,
                to: &to,
                from: &from,
                sign_only,
                signers: &signers,
                blockhash_query: &blockhash_query,
                nonce_account: &nonce_account,
                nonce_authority: &nonce_authority,
                fee_payer: &fee_payer,
            },
        ),
        CliCommand::Witness(to, process_id) => asks_blockhash(
            progress,
            BlockhashThen::Witness { client: &config.keypair, to: &to, process_id: &process_id },
        ),
        _ => {
            &&& progress matches Progress::Delegate(command)
            &&& Some(command) == module_command(&config)
        },
    }
}

/// Whether the command can run: an airdrop knows its faucet, and a payment, unless it is refused as
/// one to the payer itself, its witness.
pub open spec fn can_run(config: CliConfig) -> bool {
    match config.command {
        CliCommand::Airdrop { faucet_host, .. } => faucet_host is Some || url_host(
            config.json_rpc_url@,
        ) is Some,
        CliCommand::Pay(pay) => config.keypair.spec_pubkey() != pay.to ==> names_witness(pay),
        _ => true,
    }
}

fn run<'a>(config: &'a CliConfig) -> (r: Progress<'a>)
    requires
        can_run(*config),
    ensures
        runs(r, *config),
{
    match &config.command {
        CliCommand::Address => with_pubkey(config, PubkeyUse::Address),
        CliCommand::CreateAddressWithSeed { from_pubkey, seed, program_id } => with_pubkey(
            config,
            PubkeyUse::CreateAddress {
                from: *from_pubkey,
                seed: seed.as_str(),
                program_id: *program_id,
            },
        ),
        CliCommand::Balance { pubkey, use_lamports_unit } => with_pubkey(
            config,
            PubkeyUse::Balance { pubkey: *pubkey, use_lamports_unit: *use_lamports_unit },
        ),
        CliCommand::Airdrop { faucet_host, faucet_port, lamports, use_lamports_unit } => {
            match faucet_host {
                Some(ip) => with_pubkey(
                    config,
                    PubkeyUse::Airdrop {
                        address: SocketAddr { ip: *ip, port: *faucet_port },
                        lamports: *lamports,
                        use_lamports_unit: *use_lamports_unit,
                    },
                ),
                None => Progress::Host(
                    HostStep {
                        config,
                        host: read_host(config.json_rpc_url.as_str()).unwrap(),
                        port: *faucet_port,
                        lamports: *lamports,
                        use_lamports_unit: *use_lamports_unit,
                    },
                ),
            }
        },
        CliCommand::Cancel(process_id) => Progress::Blockhash(
            BlockhashStep {
                next: BlockhashThen::Cancel { client: &config.keypair, process_id },
            },
        ),
        CliCommand::Confirm(signature) => process_confirm(signature),
        CliCommand::Deploy(path) => process_deploy(config, path.as_str()),
        CliCommand::Pay(pay) => process_pay(config, pay),
        CliCommand::ShowAccount { pubkey, output_file, use_lamports_unit } => Progress::Account(
            AccountStep { pubkey: *pubkey, output_file, use_lamports_unit: *use_lamports_unit },
        ),
        CliCommand::TimeElapsed(to, process_id, when) => Progress::Blockhash(
            BlockhashStep {
                next: BlockhashThen::TimeElapsed { client: &config.keypair, to, process_id, when },
            },
        ),
        CliCommand::Transfer {
            lamports,
            to,
            from,
            sign_only,
            signers,
            blockhash_query,
            nonce_account,
            nonce_authority,
            fee_payer,
        } => process_transfer(
            config,
            TransferArgs {
                lamports: *lamports,
                to,
                from,
                sign_only: *sign_only,
                signers,
                blockhash_query,
                nonce_account,
                nonce_authority,
                fee_payer,
            },
        ),
        CliCommand::Witness(to, process_id) => Progress::Blockhash(
            BlockhashStep {
                next: BlockhashThen::Witness { client: &config.keypair, to, process_id },
            },
        ),
        _ => Progress::Delegate(find_module_command(config).unwrap()),
    }
}

/// What is printed of the configuration before the command runs.
pub open spec fn verbose_lines(config: CliConfig) -> Seq<LineView> {
    let url = LineView::NameValue("RPC URL:"@, config.json_rpc_url@);
    match config.keypair_path {
        Some(path) => seq![url, LineView::NameValue("Keypair Path:"@, path@)],
        None => seq![url],
    }
}

/// The command runs, after the configuration has been shown where that is asked for.
pub open spec fn starts(progress: Progress, config: CliConfig) -> bool {
    if !config.verbose {
        runs(progress, config)
    } else {
        &&& progress matches Progress::Print(lines, rest)
        &&& line_views(lines@) == verbose_lines(config)
        &&& if names_wallet(config.keypair_path) {
            &&& asks_wallet(*rest, config)
            &&& *rest matches Progress::Wallet(step)
            &&& step.next matches WalletThen::Show(command)
            &&& runs(*command, config)
        } else {
            runs(*rest, config)
        }
    }
}

/// Runs the command.
pub fn process_command<'a>(config: &'a CliConfig) -> (r: Progress<'a>)
    requires
        can_run(*config),
    ensures
        starts(r, *config),
{
    let command = run(config);
    if !config.verbose {
        return command;
    }
    let mut lines: Vec<Line> = vec![Line::NameValue("RPC URL:", config.json_rpc_url.clone())];
    if let Some(path) = &config.keypair_path {
        lines.push(Line::NameValue("Keypair Path:", path.clone()));
    }
    assert(line_views(lines@) =~= verbose_lines(*config));
    let rest = match config.pubkey() {
        PubkeySource::Local(_) => command,
        PubkeySource::Wallet { path, derivation_path } => Progress::Wallet(
            WalletStep { path, derivation_path, next: WalletThen::Show(Box::new(command)) },
        ),
    };
    Progress::Print(lines, Box::new(rest))
}

/// Runs the command, where it can run.
pub fn try_process_command<'a>(config: &'a CliConfig) -> (r: Option<Progress<'a>>)
    ensures
        r is Some <==> can_run(*config),
        r matches Some(progress) ==> starts(progress, *config),
{
    let ready = match &config.command {
        CliCommand::Airdrop { faucet_host, .. } => faucet_host.is_some() || read_host(
            config.json_rpc_url.as_str(),
        ).is_some(),
        CliCommand::Pay(pay) => config.keypair.pubkey() == pay.to || has_witness(pay),
        _ => true,
    };
    if ready {
        Some(process_command(config))
    } else {
        None
    }
}

// Going on when an answer has come.

/// The command goes on at a blockhash.
pub open spec fn goes_on_at(
    progress: Progress,
    next: BlockhashThen,
    recent: (Blockhash, FeeCalculator),
) -> bool {
    match next {
        BlockhashThen::Pay { client, pay } => {
            let (blockhash, fee_calculator) = pay.blockhash_query.with_recent(recent);
            pays(progress, *client, *pay, blockhash, fee_calculator)
        },
        BlockhashThen::Transfer { client, args } => {
            let (blockhash, fee_calculator) = args.blockhash_query.with_recent(recent);
            transfers(progress, *client, args, blockhash, fee_calculator)
        },
        BlockhashThen::Cancel { client, process_id } => tells_contract(
            progress,
            *client,
            apply_signature_ix(client.spec_pubkey(), *process_id, client.spec_pubkey()),
            recent.0,
            recent.1,
        ),
        BlockhashThen::TimeElapsed { client, to, process_id, when } => tells_contract(
            progress,
            *client,
            apply_timestamp_ix(
                client.spec_pubkey(),
                *process_id,
                *to,
                when.spec_secs(),
                when.spec_nanos(),
            ),
            recent.0,
            recent.1,
        ),
        BlockhashThen::Witness { client, to, process_id } => tells_contract(
            progress,
            *client,
            apply_signature_ix(client.spec_pubkey(), *process_id, *to),
            recent.0,
            recent.1,
        ),
        BlockhashThen::Deploy { config, program, data } => progress == Progress::Rent(
            RentStep { config, program, data, blockhash: recent.0, fee_calculator: recent.1 },
        ),
        BlockhashThen::Airdrop(order) => progress == Progress::Faucet(
            FaucetStep { order, blockhash: recent.0, retries: FAUCET_RETRIES, pause: false },
        ),
    }
}

impl<'a> BlockhashStep<'a> {
    /// Whether the command can go on: a payment names a witness where it has to.
    pub open spec fn ready(self) -> bool {
        self.next matches BlockhashThen::Pay { pay, .. } ==> names_witness(*pay)
    }

    /// Whether the command can go on.
    pub fn is_ready(&self) -> (r: bool)
        ensures
            r == self.ready(),
    {
        match &self.next {
            BlockhashThen::Pay { pay, .. } => has_witness(pay),
            _ => true,
        }
    }

    /// Goes on at the blockhash.
    pub fn resume(self, reply: Result<(Blockhash, FeeCalculator), ClientError>) -> (r: Progress<'a>)
        requires
            self.ready(),
        ensures
            match reply {
                Ok(recent) => goes_on_at(r, self.next, recent),
                Err(error) => fails_with(r, CommandError::Client(error)),
            },
    {
        let recent = match reply {
            Ok(recent) => recent,
            Err(error) => {
                return Progress::Done(Err(CommandError::Client(error)));
            },
        };
        match self.next {
            BlockhashThen::Pay { client, pay } => {
                let (blockhash, fee_calculator) = pay.blockhash_query.get_blockhash_fee_calculator(
                    recent,
                );
                pay_at(client, pay, blockhash, fee_calculator)
            },
            BlockhashThen::Transfer { client, args } => {
                let (blockhash, fee_calculator) = args.blockhash_query.get_blockhash_fee_calculator(
                    recent,
                );
                transfer_at(client, &args, blockhash, fee_calculator)
            },
            BlockhashThen::Cancel { client, process_id } => witness_at(
                client,
                &client.pubkey(),
                process_id,
                recent.0,
                recent.1,
            ),
            BlockhashThen::TimeElapsed { client, to, process_id, when } => time_elapsed_at(
                client,
                to,
                process_id,
                when,
                recent.0,
                recent.1,
            ),
            BlockhashThen::Witness { client, to, process_id } => witness_at(
                client,
                to,
                process_id,
                recent.0,
                recent.1,
            ),
            BlockhashThen::Deploy { config, program, data } => Progress::Rent(
                RentStep { config, program, data, blockhash: recent.0, fee_calculator: recent.1 },
            ),
            BlockhashThen::Airdrop(order) => first_request(order, recent.0),
        }
    }
}

/// The command goes on with a balance.
pub open spec fn goes_on_with_balance(
    progress: Progress,
    step: BalanceStep,
    balance: Result<Option<u64>, ClientError>,
) -> bool {
    match step.next {
        BalanceThen::Fee(submission) => match fee_check(
            balance,
            submission.fee_calculator,
            seq![submission.tx@.message],
        ) {
            Ok(()) => sends(progress, submission),
            Err(error) => fails_with(progress, error),
        },
        BalanceThen::DeployFees(deployment) => match fee_check(
            balance,
            deployment.fee_calculator,
            deployment_messages(
                deployment.create@,
                tx_views(deployment.writes@),
                deployment.finalize@,
            ),
        ) {
            Ok(()) => makes_account(progress, deployment),
            Err(error) => fails_with(progress, error),
        },
        BalanceThen::Show { use_lamports_unit } => shows_balance(
            progress,
            balance,
            use_lamports_unit,
        ),
        BalanceThen::BeforeAirdrop { address, lamports, use_lamports_unit } => starts_airdrop(
            progress,
            balance,
            address,
            step.pubkey,
            lamports,
            use_lamports_unit,
        ),
        BalanceThen::AfterAirdrop { previous, use_lamports_unit } => shows_new_balance(
            progress,
            balance,
            previous,
            use_lamports_unit,
        ),
    }
}

impl<'a> BalanceStep<'a> {
    /// Goes on with the balance.
    pub fn resume(self, reply: Result<Option<u64>, ClientError>) -> (r: Progress<'a>)
        ensures
            goes_on_with_balance(r, self, reply),
    {
        match self.next {
            BalanceThen::Fee(submission) => send_if_covered(submission, reply),
            BalanceThen::DeployFees(deployment) => deploy_if_covered(deployment, reply),
            BalanceThen::Show { use_lamports_unit } => show_balance(reply, use_lamports_unit),
            BalanceThen::BeforeAirdrop { address, lamports, use_lamports_unit } => start_airdrop(
                reply,
                address,
                self.pubkey,
                lamports,
                use_lamports_unit,
            ),
            BalanceThen::AfterAirdrop { previous, use_lamports_unit } => show_new_balance(
                reply,
                previous,
                use_lamports_unit,
            ),
        }
    }
}

/// The command goes on with a transaction's outcome.
pub open spec fn goes_on_with_outcome(
    progress: Progress,
    step: SendStep,
    result: Result<String, ClientError>,
) -> bool {
    match step.next {
        SendThen::Report { domain, receipt } => reports(progress, result, domain, receipt),
        SendThen::WriteProgram { config, program, writes, finalize } => match result {
            Ok(_) => writes_program(progress, *config, program, writes, finalize),
            Err(_) => program_fails(progress, "Program allocate space failed"@),
        },
        SendThen::EndDeployment { program } => match result {
            Ok(_) => comes_to(progress, program_json(program.spec_pubkey())),
            Err(_) => program_fails(progress, "Program finalize transaction failed"@),
        },
        SendThen::EndAirdrop { to, after } => ends_airdrop(progress, result, to, after),
    }
}

impl<'a> SendStep<'a> {
    /// Goes on with the transaction's outcome.
    pub fn resume(self, reply: Result<String, ClientError>) -> (r: Progress<'a>)
        ensures
            goes_on_with_outcome(r, self, reply),
    {
        match self.next {
            SendThen::Report { domain, receipt } => report(reply, domain, receipt),
            SendThen::WriteProgram { config, program, writes, finalize } => write_program(
                config,
                program,
                writes,
                finalize,
                reply,
            ),
            SendThen::EndDeployment { program } => end_deployment(&program, reply),
            SendThen::EndAirdrop { to, after } => end_airdrop(reply, to, after),
        }
    }
}

// What holds from the command line to the cluster.

/// A payment read off a command line that only asks for signatures needs nothing from outside: it
/// is signed, or refused, at once.
pub proof fn lemma_signing_a_payment_needs_nothing(
    progress: Progress,
    config: CliConfig,
    matches: ArgMatches,
    pay: PayCommand,
)
    requires
        admits_pay(matches),
        describes_pay(pay, matches),
        matches.present("sign_only"@),
        starts_pay(progress, config, pay),
    ensures
        progress is Signed || progress is Done,
{
    assert(matches.amount("amount"@, "unit"@) is Some);
    assert(!is_no_date(matches, "timestamp"@));
}

/// A transfer read off a command line that only asks for signatures needs nothing from outside: it
/// is signed, or refused, at once.
pub proof fn lemma_signing_a_transfer_needs_nothing(
    progress: Progress,
    config: CliConfig,
    matches: ArgMatches,
    info: CliCommandInfo,
)
    requires
        admits_transfer(matches),
        is_transfer(Ok(info), matches),
        matches.present("sign_only"@),
        config.command == info.command,
        runs(progress, config),
    ensures
        progress is Signed || progress is Done,
{
}

/// A payment read off a command line can run, as long as an option that names witnesses names at
/// least one.
pub proof fn lemma_read_payments_can_run(config: CliConfig, matches: ArgMatches, pay: PayCommand)
    requires
        config.command == CliCommand::Pay(pay),
        describes_pay(pay, matches),
        matches.all_values("witness"@) matches Some(list) ==> list.len() > 0,
    ensures
        can_run(config),
{
}

/// A transaction that waits for its fee to be checked is sent only when the cluster says that the
/// account can pay, and is sent as it was signed.
pub proof fn lemma_sent_transactions_are_paid_for(
    progress: Progress,
    step: BalanceStep,
    balance: Result<Option<u64>, ClientError>,
)
    requires
        step.next is Fee,
        goes_on_with_balance(progress, step, balance),
        progress is Send,
    ensures
        balance matches Ok(Some(lamports)) && can_pay(
            lamports,
            step.next->Fee_0.fee_calculator,
            seq![step.next->Fee_0.tx@.message],
        ),
        progress->Send_0.tx == step.next->Fee_0.tx,
{
}

/// A transaction whose payer can pay is sent, and the command comes to what the cluster makes of it:
/// the receipt where it succeeds, and the program's error where it fails.
pub proof fn lemma_covered_transactions_are_sent_and_reported(
    step: BalanceStep,
    lamports: u64,
    after: Progress,
    result: Result<String, ClientError>,
    last: Progress,
)
    requires
        step.next is Fee,
        can_pay(
            lamports,
            step.next->Fee_0.fee_calculator,
            seq![step.next->Fee_0.tx@.message],
        ),
        goes_on_with_balance(after, step, Ok(Some(lamports))),
        after is Send ==> goes_on_with_outcome(last, after->Send_0, result),
    ensures
        after is Send,
        after->Send_0.tx == step.next->Fee_0.tx,
        reports(last, result, step.next->Fee_0.domain, step.next->Fee_0.receipt),
{
}

/// A program's account is made only when the cluster says that the client can pay for all of the
/// deployment.
pub proof fn lemma_deployments_are_paid_for(
    progress: Progress,
    step: BalanceStep,
    balance: Result<Option<u64>, ClientError>,
)
    requires
        step.next is DeployFees,
        goes_on_with_balance(progress, step, balance),
        progress is Send,
    ensures
        ({
            let deployment = step.next->DeployFees_0;
            balance matches Ok(Some(lamports)) && can_pay(
                lamports,
                deployment.fee_calculator,
                deployment_messages(
                    deployment.create@,
                    tx_views(deployment.writes@),
                    deployment.finalize@,
                ),
            )
        }),
{
}

} // verus!
