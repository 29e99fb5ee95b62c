//! Commands run to their end against a cluster, a faucet and files that answer from memory.
use solana_cli::authority::SigningAuthority;
use solana_cli::command::{
    CliCommand, CliConfig, CommitmentConfig, DerivationPath, IpAddr, Lockup, PayCommand,
    VoteAuthorize,
};
use solana_cli::delegate::{find_module_command, ModuleCommand};
use solana_cli::errors::{
    BudgetError, ClientError, CliError, CliNonceError, CommandError, ProcessResult, SystemError,
};
use solana_cli::fees::{BlockhashQuery, FeeCalculator};
use solana_cli::keys::{Blockhash, Keypair, Pubkey, Signature};
use solana_cli::process::{process_command, try_process_command};
use solana_cli::progress::{
    AccountInfo, FileError, Line, NonceCheck, Progress, Resigners, SocketAddr,
};
use solana_cli::time::Timestamp;
use solana_cli::transaction::{CompiledInstruction, Message, Transaction};
use std::time::Duration;

const SIGNATURE: &str =
    "43yNSFC6fYTuPgTNFFhF4axw7AfWxB2BPdurme8yrsWEYwm8299xh8n6TAHjGymiSub1XtyxTNyd9GBfY2hxoBw8";
const PUBKEY: &str = "7RoSF9fUmdphVCpabEoefH81WwrW7orsWonXWqTXkKV8";

/// The answers.
struct Mock {
    balances: Vec<Result<Option<u64>, ClientError>>,
    recent: Result<(Blockhash, FeeCalculator), ClientError>,
    outcome: Result<String, ClientError>,
    batch: Result<(), String>,
    status: Result<Option<Result<(), String>>, ClientError>,
    nonce: Result<(Pubkey, Blockhash), CommandError>,
    wallet: Result<Pubkey, String>,
    account: Result<AccountInfo, ClientError>,
    rent: Result<u64, ClientError>,
    faucet_failures: u32,
    file: Result<Vec<u8>, FileError>,
    write: Result<(), String>,
}

/// What was asked and printed on the way.
#[derive(Default)]
struct Log {
    steps: Vec<&'static str>,
    lines: Vec<Line>,
    sent: Vec<Transaction>,
    resigners: Vec<usize>,
    balances_of: Vec<Pubkey>,
    pauses: u32,
    shown: u32,
    written: Vec<u8>,
}

fn client_error(text: &str) -> ClientError {
    ClientError {
        custom_code: None,
        debug: text.to_string(),
    }
}

fn code(code: u32) -> ClientError {
    ClientError {
        custom_code: Some(code),
        debug: format!("code {}", code),
    }
}

fn recent_blockhash() -> Blockhash {
    Blockhash::parse(PUBKEY).unwrap()
}

fn succeeds() -> Mock {
    Mock {
        balances: vec![Ok(Some(50))],
        recent: Ok((recent_blockhash(), FeeCalculator::default())),
        outcome: Ok(SIGNATURE.to_string()),
        batch: Ok(()),
        status: Ok(Some(Ok(()))),
        nonce: Err(CommandError::Cli(CliError::InvalidNonce(
            CliNonceError::InvalidState,
        ))),
        wallet: Err("no wallet".to_string()),
        account: Err(client_error("no account")),
        rent: Ok(1234),
        faucet_failures: 0,
        file: Err(FileError::Open("no such file".to_string())),
        write: Ok(()),
    }
}

fn fails() -> Mock {
    Mock {
        balances: vec![Err(client_error("down"))],
        recent: Err(client_error("down")),
        outcome: Err(client_error("down")),
        batch: Err("down".to_string()),
        status: Err(client_error("down")),
        rent: Err(client_error("down")),
        ..succeeds()
    }
}

fn sdk_keypair(keypair: &Keypair) -> solana_sdk::signature::Keypair {
    solana_sdk::signature::keypair_from_seed(&keypair.secret).unwrap()
}

fn sdk_transaction(tx: &Transaction) -> solana_sdk::transaction::Transaction {
    let m = &tx.message;
    solana_sdk::transaction::Transaction {
        signatures: tx
            .signatures
            .iter()
            .map(|s| solana_sdk::signature::Signature::new(&s.bytes))
            .collect(),
        message: solana_sdk::message::Message::new_with_compiled_instructions(
            m.num_required_signatures,
            m.num_readonly_signed_accounts,
            m.num_readonly_unsigned_accounts,
            m.account_keys
                .iter()
                .map(|k| solana_sdk::pubkey::Pubkey::new(&k.bytes))
                .collect(),
            solana_sdk::hash::Hash::new(&m.recent_blockhash.bytes),
            m.instructions
                .iter()
                .map(|i| solana_sdk::instruction::CompiledInstruction {
                    program_id_index: i.program_id_index,
                    accounts: i.accounts.clone(),
                    data: i.data.clone(),
                })
                .collect(),
        ),
    }
}

fn own_transaction(tx: &solana_sdk::transaction::Transaction) -> Transaction {
    let m = &tx.message;
    let mut hash = [0u8; 32];
    hash.copy_from_slice(m.recent_blockhash.as_ref());
    Transaction {
        signatures: tx
            .signatures
            .iter()
            .map(|s| Signature::new(&(*s).into()))
            .collect(),
        message: Message {
            num_required_signatures: m.header.num_required_signatures,
            num_readonly_signed_accounts: m.header.num_readonly_signed_accounts,
            num_readonly_unsigned_accounts: m.header.num_readonly_unsigned_accounts,
            account_keys: m
                .account_keys
                .iter()
                .map(|k| Pubkey::new(&k.to_bytes()))
                .collect(),
            recent_blockhash: Blockhash::new(&hash),
            instructions: m
                .instructions
                .iter()
                .map(|i| CompiledInstruction {
                    program_id_index: i.program_id_index,
                    accounts: i.accounts.clone(),
                    data: i.data.clone(),
                })
                .collect(),
        },
    }
}

fn check_nonce(mock: &Mock, check: &NonceCheck) -> Result<(), CommandError> {
    let (authority, blockhash) = mock.nonce.clone()?;
    if blockhash != check.blockhash {
        Err(CommandError::Cli(CliError::InvalidNonce(
            CliNonceError::InvalidHash,
        )))
    } else if authority != check.authority {
        Err(CommandError::Cli(CliError::InvalidNonce(
            CliNonceError::InvalidAuthority,
        )))
    } else {
        Ok(())
    }
}

/// Runs a command to its end.  A command of another module ends with `None`.
fn drive<'a>(start: Progress<'a>, mock: &Mock) -> (Option<ProcessResult>, Log) {
    let mut log = Log::default();
    let mut progress = start;
    let mut balance = 0;
    let mut faucet = 0;
    loop {
        progress = match progress {
            Progress::Print(lines, rest) => {
                log.lines.extend(lines);
                *rest
            }
            Progress::Signed(tx, result) => {
                log.steps.push("signed");
                log.sent.push(tx);
                return (Some(result), log);
            }
            Progress::Wallet(step) => {
                log.steps.push("wallet");
                assert!(step.path.starts_with("usb://"));
                step.resume(mock.wallet.clone())
            }
            Progress::Host(step) => {
                log.steps.push("host");
                assert_eq!(step.host, "127.0.0.1");
                step.resume(IpAddr::V4([127, 0, 0, 1]))
            }
            Progress::Blockhash(step) => {
                log.steps.push("blockhash");
                step.resume(mock.recent.clone())
            }
            Progress::Balance(step) => {
                log.steps.push("balance");
                log.balances_of.push(step.pubkey);
                let answer = mock.balances[balance.min(mock.balances.len() - 1)].clone();
                balance += 1;
                step.resume(answer)
            }
            Progress::Nonce(step) => {
                log.steps.push("nonce");
                let answer = check_nonce(mock, &step.check);
                step.resume(answer)
            }
            Progress::Send(step) => {
                log.steps.push("send");
                log.sent.push(step.tx.clone());
                log.resigners.push(match &step.signers {
                    Resigners::Keypairs(pairs) => pairs.len(),
                    Resigners::Faucet(keypair) => {
                        assert_eq!(keypair.pubkey(), step.tx.message.account_keys[0]);
                        assert_eq!(keypair.sign_message(b"any"), step.tx.signatures[0]);
                        0
                    }
                });
                step.resume(mock.outcome.clone())
            }
            Progress::SendAll(step) => {
                log.steps.push("send all");
                log.sent.extend(step.txs.iter().cloned());
                step.resume(mock.batch.clone())
            }
            Progress::Status(step) => {
                log.steps.push("status");
                step.resume(mock.status.clone())
            }
            Progress::Account(step) => {
                log.steps.push("account");
                let answer = match &mock.account {
                    Ok(account) => Ok(AccountInfo {
                        lamports: account.lamports,
                        owner: account.owner,
                        executable: account.executable,
                        data: account.data.clone(),
                    }),
                    Err(error) => Err(error.clone()),
                };
                step.resume(answer)
            }
            Progress::WriteFile(step) => {
                log.steps.push("write");
                log.written = step.bytes.clone();
                step.resume(mock.write.clone())
            }
            Progress::ReadFile(step) => {
                log.steps.push("read");
                step.resume(mock.file.clone())
            }
            Progress::Rent(step) => {
                log.steps.push("rent");
                step.resume(mock.rent.clone())
            }
            Progress::Faucet(step) => {
                log.steps.push("faucet");
                if step.pause {
                    log.pauses += 1;
                }
                faucet += 1;
                if faucet <= mock.faucet_failures {
                    step.resume(Err("faucet is dry".to_string()))
                } else {
                    let key = solana_sdk::signature::Keypair::new();
                    let to = solana_sdk::pubkey::Pubkey::new_rand();
                    let tx = solana_sdk::system_transaction::transfer(
                        &key,
                        &to,
                        step.order.lamports,
                        solana_sdk::hash::Hash::default(),
                    );
                    step.resume(Ok(own_transaction(&tx)))
                }
            }
            Progress::Delegate(_) => {
                log.steps.push("delegate");
                return (None, log);
            }
            Progress::Done(result) => {
                log.shown += 1;
                return (Some(result), log);
            }
        }
    }
}

fn run(config: &CliConfig, mock: &Mock) -> (ProcessResult, Log) {
    let (result, log) = drive(process_command(config), mock);
    (result.unwrap(), log)
}

fn result(config: &CliConfig, mock: &Mock) -> ProcessResult {
    run(config, mock).0
}

fn is_delegated(config: &CliConfig) -> bool {
    drive(process_command(config), &succeeds()).0.is_none()
}

fn config(seed: u8, command: CliCommand) -> CliConfig {
    let mut config = CliConfig::new_default(
        Keypair::from_seed(&[seed; 32]),
        "/home/test/.config/solana/id.json".to_string(),
    );
    config.command = command;
    config
}

fn random_pubkey() -> Pubkey {
    Pubkey::new(&solana_sdk::pubkey::Pubkey::new_rand().to_bytes())
}

fn random_keypair() -> Keypair {
    let mut secret = [0u8; 32];
    secret.copy_from_slice(&solana_sdk::signature::Keypair::new().to_bytes()[..32]);
    Keypair::from_seed(&secret)
}

fn date() -> Timestamp {
    Timestamp::parse("2018-09-19T17:30:59Z").unwrap()
}

fn json_field(result: ProcessResult, name: &str) -> String {
    let value: serde_json::Value = serde_json::from_str(&result.unwrap()).unwrap();
    value
        .as_object()
        .unwrap()
        .get(name)
        .unwrap()
        .as_str()
        .unwrap()
        .to_string()
}

fn key(byte: u8) -> Pubkey {
    Pubkey::new(&[byte; 32])
}

/// The accounts of an instruction.
fn accounts(tx: &Transaction, i: usize) -> Vec<Pubkey> {
    tx.message.instructions[i]
        .accounts
        .iter()
        .map(|index| tx.message.account_keys[*index as usize])
        .collect()
}

fn program(tx: &Transaction, i: usize) -> Pubkey {
    tx.message.account_keys[tx.message.instructions[i].program_id_index as usize]
}

fn own_id(id: solana_sdk::pubkey::Pubkey) -> Pubkey {
    Pubkey::new(&id.to_bytes())
}

#[test]
fn test_cli_process_command() {
    // Success cases
    let mock = succeeds();
    let mut config = CliConfig::new_default(random_keypair(), "id.json".to_string());
    let pubkey = config.keypair.pubkey().to_string();
    config.command = CliCommand::Address;
    assert_eq!(result(&config, &mock).unwrap(), pubkey);

    config.command = CliCommand::Balance {
        pubkey: None,
        use_lamports_unit: true,
    };
    assert_eq!(result(&config, &mock).unwrap(), "50 lamports");

    config.command = CliCommand::Balance {
        pubkey: None,
        use_lamports_unit: false,
    };
    assert_eq!(result(&config, &mock).unwrap(), "0.00000005 SOL");

    let process_id = random_pubkey();
    config.command = CliCommand::Cancel(process_id);
    assert_eq!(result(&config, &mock).unwrap(), SIGNATURE);

    let good_signature = Signature::parse(SIGNATURE).unwrap();
    config.command = CliCommand::Confirm(good_signature);
    assert_eq!(result(&config, &mock).unwrap(), "Confirmed");

    let bob_keypair = random_keypair();
    let bob_pubkey = bob_keypair.pubkey();
    let node_pubkey = random_pubkey();
    config.command = CliCommand::CreateVoteAccount {
        vote_account: bob_keypair.into(),
        seed: None,
        node_pubkey,
        authorized_voter: Some(bob_pubkey),
        authorized_withdrawer: Some(bob_pubkey),
        commission: 0,
    };
    assert!(is_delegated(&config));

    let new_authorized_pubkey = random_pubkey();
    config.command = CliCommand::VoteAuthorize {
        vote_account_pubkey: bob_pubkey,
        new_authorized_pubkey,
        vote_authorize: VoteAuthorize::Voter,
    };
    assert!(is_delegated(&config));

    let new_identity_pubkey = random_pubkey();
    config.command = CliCommand::VoteUpdateValidator {
        vote_account_pubkey: bob_pubkey,
        new_identity_pubkey,
        authorized_voter: random_keypair().into(),
    };
    assert!(is_delegated(&config));

    let bob_keypair = random_keypair();
    let bob_pubkey = bob_keypair.pubkey();
    let custodian = random_pubkey();
    config.command = CliCommand::CreateStakeAccount {
        stake_account: bob_keypair.into(),
        seed: None,
        staker: None,
        withdrawer: None,
        lockup: Lockup {
            epoch: 0,
            unix_timestamp: 0,
            custodian,
        },
        lamports: 1234,
        sign_only: false,
        signers: None,
        blockhash_query: BlockhashQuery::All,
        nonce_account: None,
        nonce_authority: None,
        fee_payer: None,
        from: None,
    };
    assert!(is_delegated(&config));

    let stake_pubkey = random_pubkey();
    let to_pubkey = random_pubkey();
    config.command = CliCommand::WithdrawStake {
        stake_account_pubkey: stake_pubkey,
        destination_account_pubkey: to_pubkey,
        lamports: 100,
        withdraw_authority: None,
        sign_only: false,
        signers: None,
        blockhash_query: BlockhashQuery::All,
        nonce_account: None,
        nonce_authority: None,
        fee_payer: None,
    };
    assert!(is_delegated(&config));

    let stake_pubkey = random_pubkey();
    config.command = CliCommand::DeactivateStake {
        stake_account_pubkey: stake_pubkey,
        stake_authority: None,
        sign_only: false,
        signers: None,
        blockhash_query: BlockhashQuery::default(),
        nonce_account: None,
        nonce_authority: None,
        fee_payer: None,
    };
    assert!(is_delegated(&config));

    let stake_pubkey = random_pubkey();
    let split_stake_account = random_keypair();
    config.command = CliCommand::SplitStake {
        stake_account_pubkey: stake_pubkey,
        stake_authority: None,
        sign_only: false,
        signers: None,
        blockhash_query: BlockhashQuery::default(),
        nonce_account: None,
        nonce_authority: None,
        split_stake_account: split_stake_account.into(),
        seed: None,
        lamports: 1234,
        fee_payer: None,
    };
    assert!(is_delegated(&config));

    config.command = CliCommand::GetSlot {
        commitment_config: CommitmentConfig::default(),
    };
    assert!(is_delegated(&config));

    config.command = CliCommand::GetTransactionCount {
        commitment_config: CommitmentConfig::default(),
    };
    assert!(is_delegated(&config));

    config.command = CliCommand::Pay(PayCommand {
        lamports: 10,
        to: bob_pubkey,
        ..PayCommand::default()
    });
    assert_eq!(result(&config, &mock).unwrap(), SIGNATURE.to_string());

    let dt = date();
    config.command = CliCommand::Pay(PayCommand {
        lamports: 10,
        to: bob_pubkey,
        timestamp: Some(dt),
        timestamp_pubkey: Some(config.keypair.pubkey()),
        ..PayCommand::default()
    });
    assert_eq!(
        json_field(result(&config, &mock), "signature"),
        SIGNATURE.to_string()
    );

    let witness = random_pubkey();
    config.command = CliCommand::Pay(PayCommand {
        lamports: 10,
        to: bob_pubkey,
        witnesses: Some(vec![witness]),
        cancelable: true,
        ..PayCommand::default()
    });
    assert_eq!(
        json_field(result(&config, &mock), "signature"),
        SIGNATURE.to_string()
    );

    // Nonced pay
    let blockhash = Blockhash::default();
    let mock = Mock {
        nonce: Ok((config.keypair.pubkey(), blockhash)),
        ..succeeds()
    };
    config.command = CliCommand::Pay(PayCommand {
        lamports: 10,
        to: bob_pubkey,
        nonce_account: Some(bob_pubkey),
        blockhash_query: BlockhashQuery::FeeCalculator(blockhash),
        ..PayCommand::default()
    });
    assert_eq!(result(&config, &mock).unwrap(), SIGNATURE.to_string());

    // Nonced pay w/ non-payer authority
    let bob_keypair = random_keypair();
    let bob_pubkey = bob_keypair.pubkey();
    let blockhash = Blockhash::default();
    let mock = Mock {
        nonce: Ok((bob_pubkey, blockhash)),
        ..succeeds()
    };
    config.command = CliCommand::Pay(PayCommand {
        lamports: 10,
        to: bob_pubkey,
        blockhash_query: BlockhashQuery::FeeCalculator(blockhash),
        nonce_account: Some(bob_pubkey),
        nonce_authority: Some(bob_keypair.into()),
        ..PayCommand::default()
    });
    assert_eq!(result(&config, &mock).unwrap(), SIGNATURE.to_string());

    let process_id = random_pubkey();
    config.command = CliCommand::TimeElapsed(bob_pubkey, process_id, dt);
    assert_eq!(result(&config, &mock).unwrap(), SIGNATURE.to_string());

    let witness = random_pubkey();
    config.command = CliCommand::Witness(bob_pubkey, witness);
    assert_eq!(result(&config, &mock).unwrap(), SIGNATURE.to_string());

    // Need airdrop cases
    config.command = CliCommand::Airdrop {
        faucet_host: None,
        faucet_port: 1234,
        lamports: 50,
        use_lamports_unit: true,
    };
    assert!(result(&config, &mock).is_ok());

    config.command = CliCommand::TimeElapsed(bob_pubkey, process_id, dt);
    assert_eq!(result(&config, &mock).unwrap(), SIGNATURE.to_string());

    let witness = random_pubkey();
    config.command = CliCommand::Witness(bob_pubkey, witness);
    assert_eq!(result(&config, &mock).unwrap(), SIGNATURE.to_string());

    // sig_not_found case
    let mock = Mock {
        status: Ok(None),
        ..succeeds()
    };
    let missing_signature = Signature::parse("5VERv8NMvzbJMEkV8xnrLkEaWRtSz9CosKDYjCJjBRnbJLgp8uirBgmQpjKhoR4tjF3ZpRzrFmBV6UjKdiSZkQUW").unwrap();
    config.command = CliCommand::Confirm(missing_signature);
    assert_eq!(result(&config, &mock).unwrap(), "Not found");

    // Tx error case
    let account_in_use = solana_sdk::transaction::TransactionError::AccountInUse;
    let mock = Mock {
        status: Ok(Some(Err(format!("{:?}", account_in_use)))),
        ..succeeds()
    };
    let any_signature = Signature::parse(SIGNATURE).unwrap();
    config.command = CliCommand::Confirm(any_signature);
    assert_eq!(
        result(&config, &mock).unwrap(),
        format!("Transaction failed with error {:?}", account_in_use)
    );

    // Failure cases
    let mock = fails();

    config.command = CliCommand::Airdrop {
        faucet_host: None,
        faucet_port: 1234,
        lamports: 50,
        use_lamports_unit: true,
    };
    assert!(result(&config, &mock).is_err());

    config.command = CliCommand::Balance {
        pubkey: None,
        use_lamports_unit: false,
    };
    assert!(result(&config, &mock).is_err());

    let bob_keypair = random_keypair();
    config.command = CliCommand::CreateVoteAccount {
        vote_account: bob_keypair.into(),
        seed: None,
        node_pubkey,
        authorized_voter: Some(bob_pubkey),
        authorized_withdrawer: Some(bob_pubkey),
        commission: 0,
    };
    assert!(is_delegated(&config));

    config.command = CliCommand::VoteAuthorize {
        vote_account_pubkey: bob_pubkey,
        new_authorized_pubkey: bob_pubkey,
        vote_authorize: VoteAuthorize::Voter,
    };
    assert!(is_delegated(&config));

    config.command = CliCommand::VoteUpdateValidator {
        vote_account_pubkey: bob_pubkey,
        new_identity_pubkey: bob_pubkey,
        authorized_voter: random_keypair().into(),
    };
    assert!(is_delegated(&config));

    config.command = CliCommand::GetSlot {
        commitment_config: CommitmentConfig::default(),
    };
    assert!(is_delegated(&config));

    config.command = CliCommand::GetTransactionCount {
        commitment_config: CommitmentConfig::default(),
    };
    assert!(is_delegated(&config));

    config.command = CliCommand::Pay(PayCommand {
        lamports: 10,
        to: bob_pubkey,
        ..PayCommand::default()
    });
    assert!(result(&config, &mock).is_err());

    config.command = CliCommand::Pay(PayCommand {
        lamports: 10,
        to: bob_pubkey,
        timestamp: Some(dt),
        timestamp_pubkey: Some(config.keypair.pubkey()),
        ..PayCommand::default()
    });
    assert!(result(&config, &mock).is_err());

    config.command = CliCommand::Pay(PayCommand {
        lamports: 10,
        to: bob_pubkey,
        witnesses: Some(vec![witness]),
        cancelable: true,
        ..PayCommand::default()
    });
    assert!(result(&config, &mock).is_err());

    config.command = CliCommand::TimeElapsed(bob_pubkey, process_id, dt);
    assert!(result(&config, &mock).is_err());
}

#[test]
fn test_cli_deploy() {
    // Success case
    let mock = Mock {
        file: Ok((0..1000u32).map(|i| i as u8).collect()),
        ..succeeds()
    };
    let mut config = config(7, CliCommand::Deploy("tests/fixtures/noop.so".to_string()));
    let program_id = json_field(result(&config, &mock), "programId");
    assert!(Pubkey::parse(&program_id).is_some());

    // Failure case
    config.command = CliCommand::Deploy("bad/file/location.so".to_string());
    assert!(result(&config, &succeeds()).is_err());
}

#[test]
fn plain_payments_transfer_lamports() {
    let config = config(
        1,
        CliCommand::Pay(PayCommand {
            lamports: 0x0102_0304,
            to: key(2),
            ..PayCommand::default()
        }),
    );
    let (outcome, log) = run(&config, &succeeds());
    assert_eq!(outcome.unwrap(), SIGNATURE);
    assert_eq!(log.steps, ["blockhash", "balance", "send"]);
    assert_eq!(log.resigners, [1]);
    let client = config.keypair.pubkey();
    assert_eq!(log.balances_of, [client]);
    let tx = &log.sent[0];
    assert_eq!(tx.message.recent_blockhash, recent_blockhash());
    assert_eq!(accounts(tx, 0), [client, key(2)]);
    assert_eq!(program(tx, 0), Pubkey::default());
    assert_eq!(
        tx.message.instructions[0].data,
        [2, 0, 0, 0, 4, 3, 2, 1, 0, 0, 0, 0]
    );
    assert_eq!(tx.message.num_required_signatures, 1);
    let wanted = solana_sdk::system_transaction::transfer(
        &sdk_keypair(&config.keypair),
        &solana_sdk::pubkey::Pubkey::new(&[2; 32]),
        0x0102_0304,
        solana_sdk::hash::Hash::new(&recent_blockhash().bytes),
    );
    assert_eq!(sdk_transaction(tx), wanted);
    assert!(wanted.verify().is_ok());
}

#[test]
fn nonced_payments_advance_the_nonce() {
    let authority = Keypair::from_seed(&[4; 32]);
    let blockhash = Blockhash::new(&[9; 32]);
    let config = config(
        1,
        CliCommand::Pay(PayCommand {
            lamports: 5,
            to: key(2),
            nonce_account: Some(key(3)),
            nonce_authority: Some(authority.into()),
            blockhash_query: BlockhashQuery::FeeCalculator(blockhash),
            ..PayCommand::default()
        }),
    );
    let mock = Mock {
        nonce: Ok((authority.pubkey(), blockhash)),
        ..succeeds()
    };
    let (outcome, log) = run(&config, &mock);
    assert!(outcome.is_ok());
    assert_eq!(log.steps, ["blockhash", "nonce", "balance", "send"]);
    let tx = &log.sent[0];
    assert_eq!(tx.message.instructions[0].data, [4, 0, 0, 0]);
    assert_eq!(accounts(tx, 0)[0], key(3));
    assert_eq!(
        accounts(tx, 0)[1],
        own_id(solana_sdk::sysvar::recent_blockhashes::id())
    );
    assert_eq!(accounts(tx, 0)[2], authority.pubkey());
    let wanted = solana_sdk::system_transaction::nonced_transfer(
        &sdk_keypair(&config.keypair),
        &solana_sdk::pubkey::Pubkey::new(&[2; 32]),
        5,
        &solana_sdk::pubkey::Pubkey::new(&[3; 32]),
        &sdk_keypair(&authority),
        solana_sdk::hash::Hash::new(&[9; 32]),
    );
    assert_eq!(sdk_transaction(tx), wanted);

    let other = Mock {
        nonce: Ok((key(7), blockhash)),
        ..succeeds()
    };
    let (outcome, log) = run(&config, &other);
    assert_eq!(
        outcome,
        Err(CommandError::Cli(CliError::InvalidNonce(
            CliNonceError::InvalidAuthority
        )))
    );
    assert_eq!(log.steps, ["blockhash", "nonce"]);
}

#[test]
fn payments_to_oneself_are_refused() {
    let client = Keypair::from_seed(&[1; 32]).pubkey();
    let same = "Identical pubkeys found: `cli keypair` and `to` must be unique";
    let refused = Err(CommandError::Cli(CliError::BadParameter(same.to_string())));
    let mut config = config(
        1,
        CliCommand::Pay(PayCommand {
            lamports: 5,
            to: client,
            ..PayCommand::default()
        }),
    );
    let (outcome, log) = run(&config, &succeeds());
    assert_eq!(outcome, refused);
    assert!(log.steps.is_empty());
    config.command = transfer(client, BlockhashQuery::All, false);
    assert_eq!(result(&config, &succeeds()), refused);

    // Whatever else is wrong with the payment.
    config.command = CliCommand::Pay(PayCommand {
        lamports: 5,
        to: client,
        witnesses: Some(vec![]),
        ..PayCommand::default()
    });
    let start = try_process_command(&config).unwrap();
    assert_eq!(drive(start, &succeeds()).0, Some(refused));
}

fn transfer(to: Pubkey, blockhash_query: BlockhashQuery, sign_only: bool) -> CliCommand {
    CliCommand::Transfer {
        lamports: 42,
        to,
        from: None,
        sign_only,
        signers: None,
        blockhash_query,
        nonce_account: None,
        nonce_authority: None,
        fee_payer: None,
    }
}

#[test]
fn empty_or_poor_accounts_send_nothing() {
    let price = FeeCalculator {
        lamports_per_signature: 10,
    };
    let config = config(1, transfer(key(2), BlockhashQuery::All, false));
    for (balance, sends) in [
        (Some(0), false),
        (None, false),
        (Some(9), false),
        (Some(10), true),
        (Some(11), true),
    ] {
        let mock = Mock {
            balances: vec![Ok(balance)],
            recent: Ok((recent_blockhash(), price)),
            ..succeeds()
        };
        let (outcome, log) = run(&config, &mock);
        if sends {
            assert_eq!(outcome.unwrap(), SIGNATURE);
            assert_eq!(log.steps, ["blockhash", "balance", "send"]);
        } else {
            assert_eq!(
                outcome,
                Err(CommandError::Cli(CliError::InsufficientFundsForFee))
            );
            assert_eq!(log.steps, ["blockhash", "balance"]);
        }
    }
    let mock = Mock {
        balances: vec![Ok(Some(u64::max_value()))],
        recent: Ok((
            recent_blockhash(),
            FeeCalculator {
                lamports_per_signature: u64::max_value(),
            },
        )),
        ..succeeds()
    };
    assert!(result(&config, &mock).is_ok());
}

#[test]
fn transfers_have_their_own_payer_and_source() {
    let payer = Keypair::from_seed(&[5; 32]);
    let from = Keypair::from_seed(&[6; 32]);
    let config = config(
        1,
        CliCommand::Transfer {
            lamports: 42,
            to: key(2),
            from: Some(from.into()),
            sign_only: false,
            signers: None,
            blockhash_query: BlockhashQuery::FeeCalculator(Blockhash::new(&[9; 32])),
            nonce_account: Some(key(3)),
            nonce_authority: None,
            fee_payer: Some(payer.into()),
        },
    );
    let client = config.keypair.pubkey();
    let mock = Mock {
        nonce: Ok((client, Blockhash::new(&[9; 32]))),
        ..succeeds()
    };
    let (outcome, log) = run(&config, &mock);
    assert_eq!(outcome.unwrap(), SIGNATURE);
    assert_eq!(log.balances_of, [payer.pubkey()]);
    let tx = &log.sent[0];
    assert_eq!(tx.message.account_keys[0], payer.pubkey());
    assert_eq!(tx.message.num_required_signatures, 3);
    assert_eq!(accounts(tx, 1), [from.pubkey(), key(2)]);
    assert_eq!(accounts(tx, 0)[2], client);
    assert!(sdk_transaction(tx).verify().is_ok());
}

#[test]
fn transfers_without_a_nonce() {
    let from = Keypair::from_seed(&[6; 32]);
    let mut config = config(1, transfer(key(2), BlockhashQuery::All, false));
    config.command = CliCommand::Transfer {
        lamports: 42,
        to: key(2),
        from: Some(from.into()),
        sign_only: false,
        signers: None,
        blockhash_query: BlockhashQuery::All,
        nonce_account: None,
        nonce_authority: None,
        fee_payer: None,
    };
    let (_, log) = run(&config, &succeeds());
    let tx = &log.sent[0];
    assert_eq!(tx.message.account_keys[0], config.keypair.pubkey());
    assert_eq!(tx.signatures.len(), 2);
    assert!(sdk_transaction(tx).verify().is_ok());
}

#[test]
fn signing_alone_asks_for_nothing() {
    let blockhash = Blockhash::new(&[9; 32]);
    let query = BlockhashQuery::Given(blockhash, FeeCalculator::default());
    let mut config = config(1, transfer(key(2), query, true));
    let client = config.keypair.pubkey();
    let (outcome, log) = run(&config, &fails());
    assert_eq!(log.steps, ["signed"]);
    let tx = &log.sent[0];
    assert_eq!(
        outcome.unwrap(),
        format!(
            "{{\"blockhash\":\"{}\",\"signers\":[\"{}={}\"]}}",
            blockhash.to_string(),
            client.to_string(),
            tx.signatures[0].to_string()
        )
    );
    assert!(sdk_transaction(tx).verify().is_ok());

    for (timestamp, witnesses) in [
        (None, None),
        (Some(date()), None),
        (None, Some(vec![key(8)])),
    ] {
        config.command = CliCommand::Pay(PayCommand {
            lamports: 5,
            to: key(2),
            timestamp,
            witnesses,
            sign_only: true,
            blockhash_query: query,
            ..PayCommand::default()
        });
        let (outcome, log) = run(&config, &fails());
        assert!(outcome.is_ok());
        assert_eq!(log.steps, ["signed"]);
    }
}

#[test]
fn signatures_made_elsewhere_are_checked() {
    let blockhash = Blockhash::new(&[9; 32]);
    let query = BlockhashQuery::Given(blockhash, FeeCalculator::default());
    let from = Keypair::from_seed(&[6; 32]);

    // The source signs on its own machine.
    let there = config(6, transfer(key(2), query, true));
    let (_, log) = run(&there, &fails());
    let signed = &log.sent[0];

    // The transaction is sent from another.
    let mut here = config(1, transfer(key(2), query, false));
    let authority = SigningAuthority::from(from.pubkey());
    here.command = CliCommand::Transfer {
        lamports: 42,
        to: key(2),
        from: Some(authority),
        sign_only: false,
        signers: Some(vec![(from.pubkey(), signed.signatures[0])]),
        blockhash_query: BlockhashQuery::FeeCalculator(blockhash),
        nonce_account: None,
        nonce_authority: None,
        fee_payer: Some(authority),
    };
    let (outcome, log) = run(&here, &succeeds());
    assert_eq!(outcome.unwrap(), SIGNATURE);
    assert_eq!(&log.sent[0], signed);
    assert_eq!(log.balances_of, [from.pubkey()]);

    let refused = "Transaction construction failed, incorrect signature or public key provided";
    let refused = Err(CommandError::Cli(CliError::BadParameter(
        refused.to_string(),
    )));
    for signers in [
        vec![(from.pubkey(), Signature::new(&[7; 64]))],
        vec![],
        vec![
            (from.pubkey(), signed.signatures[0]),
            (from.pubkey(), signed.signatures[0]),
        ],
    ] {
        here.command = CliCommand::Transfer {
            lamports: 42,
            to: key(2),
            from: Some(authority),
            sign_only: false,
            signers: Some(signers),
            blockhash_query: BlockhashQuery::FeeCalculator(blockhash),
            nonce_account: None,
            nonce_authority: None,
            fee_payer: Some(authority),
        };
        let (outcome, log) = run(&here, &succeeds());
        assert_eq!(outcome, refused);
        assert_eq!(log.steps, ["blockhash"]);
    }
}

#[test]
fn payments_signed_elsewhere_go_on() {
    let payer = Keypair::from_seed(&[6; 32]);
    let authority = Keypair::from_seed(&[4; 32]);
    let blockhash = Blockhash::new(&[9; 32]);

    // Both signers are at hand on one machine.
    let there = config(
        6,
        CliCommand::Pay(PayCommand {
            lamports: 5,
            to: key(2),
            nonce_account: Some(key(3)),
            nonce_authority: Some(authority.into()),
            sign_only: true,
            blockhash_query: BlockhashQuery::Given(blockhash, FeeCalculator::default()),
            ..PayCommand::default()
        }),
    );
    let (_, log) = run(&there, &fails());
    let signed = &log.sent[0];
    assert_eq!(
        signed.message.account_keys[..2],
        [payer.pubkey(), authority.pubkey()]
    );

    // Neither is on the other.
    let here = config(
        1,
        CliCommand::Pay(PayCommand {
            lamports: 5,
            to: key(2),
            nonce_account: Some(key(3)),
            nonce_authority: Some(authority.pubkey().into()),
            signers: Some(vec![
                (payer.pubkey(), signed.signatures[0]),
                (authority.pubkey(), signed.signatures[1]),
            ]),
            blockhash_query: BlockhashQuery::FeeCalculator(blockhash),
            ..PayCommand::default()
        }),
    );
    let mock = Mock {
        nonce: Ok((authority.pubkey(), blockhash)),
        ..succeeds()
    };
    let (outcome, log) = run(&here, &mock);
    assert_eq!(outcome.unwrap(), SIGNATURE);
    assert_eq!(log.steps, ["blockhash", "nonce", "balance", "send"]);
    assert_eq!(&log.sent[0], signed);
    assert_eq!(log.balances_of, [here.keypair.pubkey()]);
}

#[test]
fn dated_payments_set_up_a_contract() {
    let config = config(
        1,
        CliCommand::Pay(PayCommand {
            lamports: 10,
            to: key(2),
            timestamp: Some(date()),
            timestamp_pubkey: Some(key(3)),
            cancelable: true,
            ..PayCommand::default()
        }),
    );
    let client = config.keypair.pubkey();
    let (outcome, log) = run(&config, &succeeds());
    assert_eq!(log.steps, ["blockhash", "balance", "send"]);
    assert_eq!(log.resigners, [2]);
    let tx = &log.sent[0];
    assert!(sdk_transaction(tx).verify().is_ok());
    let contract = accounts(tx, 1)[0];
    let text = outcome.unwrap();
    assert_eq!(
        json_field(Ok(text.clone()), "processId"),
        contract.to_string()
    );
    assert_eq!(json_field(Ok(text), "signature"), SIGNATURE);
    assert_eq!(accounts(tx, 0), [client, contract]);
    assert_eq!(program(tx, 1), own_id(solana_budget_program::id()));

    // The condition, the payment, the way back and the payment back.
    let mut expression: Vec<u8> = vec![2, 0, 0, 0];
    expression.extend(&[0, 0, 0, 0]);
    expression.extend(&20u64.to_le_bytes());
    expression.extend(b"2018-09-19T17:30:59Z");
    expression.extend(&key(3).bytes);
    expression.extend(&[0, 0, 0, 0]);
    expression.extend(&10u64.to_le_bytes());
    expression.extend(&key(2).bytes);
    expression.extend(&[1, 0, 0, 0]);
    expression.extend(&client.bytes);
    expression.extend(&[0, 0, 0, 0]);
    expression.extend(&10u64.to_le_bytes());
    expression.extend(&client.bytes);
    let mut data: Vec<u8> = vec![0, 0, 0, 0];
    data.extend(&expression);
    assert_eq!(tx.message.instructions[1].data, data);

    let mut create: Vec<u8> = vec![0, 0, 0, 0];
    create.extend(&10u64.to_le_bytes());
    create.extend(&(expression.len() as u64 + 2).to_le_bytes());
    create.extend(&own_id(solana_budget_program::id()).bytes);
    assert_eq!(tx.message.instructions[0].data, create);
}

#[test]
fn the_client_attests_the_date_where_nobody_else_does() {
    let config = config(
        1,
        CliCommand::Pay(PayCommand {
            lamports: 10,
            to: key(2),
            timestamp: Some(date()),
            ..PayCommand::default()
        }),
    );
    let client = config.keypair.pubkey();
    let (_, log) = run(&config, &succeeds());
    let data = &log.sent[0].message.instructions[1].data;
    let mut wanted: Vec<u8> = vec![0, 0, 0, 0, 1, 0, 0, 0, 0, 0, 0, 0];
    wanted.extend(&20u64.to_le_bytes());
    wanted.extend(b"2018-09-19T17:30:59Z");
    wanted.extend(&client.bytes);
    wanted.extend(&[0, 0, 0, 0]);
    wanted.extend(&10u64.to_le_bytes());
    wanted.extend(&key(2).bytes);
    assert_eq!(data, &wanted);
}

#[test]
fn witnessed_payments_check_the_fee_first() {
    let config = config(
        1,
        CliCommand::Pay(PayCommand {
            lamports: 10,
            to: key(2),
            witnesses: Some(vec![key(3), key(4)]),
            ..PayCommand::default()
        }),
    );
    let (outcome, log) = run(&config, &succeeds());
    assert_eq!(log.steps, ["blockhash", "balance", "send"]);
    assert_eq!(log.balances_of, [config.keypair.pubkey()]);
    let tx = &log.sent[0];
    let contract = accounts(tx, 1)[0];
    assert_eq!(json_field(outcome, "processId"), contract.to_string());
    let mut wanted: Vec<u8> = vec![0, 0, 0, 0, 1, 0, 0, 0, 1, 0, 0, 0];
    wanted.extend(&key(3).bytes);
    wanted.extend(&[0, 0, 0, 0]);
    wanted.extend(&10u64.to_le_bytes());
    wanted.extend(&key(2).bytes);
    assert_eq!(tx.message.instructions[1].data, wanted);

    // A client with nothing pays nothing.
    let poor = Mock {
        balances: vec![Ok(Some(0))],
        ..succeeds()
    };
    let (outcome, log) = run(&config, &poor);
    assert_eq!(
        outcome,
        Err(CommandError::Cli(CliError::InsufficientFundsForFee))
    );
    assert_eq!(log.steps, ["blockhash", "balance"]);
    assert!(log.sent.is_empty());
    let failed = Mock {
        outcome: Err(code(0)),
        ..succeeds()
    };
    assert_eq!(
        result(&config, &failed),
        Err(CommandError::Budget(BudgetError::DestinationMissing))
    );
}

#[test]
fn dates_and_witnesses_together_are_not_handled() {
    let config = config(
        1,
        CliCommand::Pay(PayCommand {
            lamports: 10,
            to: key(2),
            timestamp: Some(date()),
            witnesses: Some(vec![]),
            ..PayCommand::default()
        }),
    );
    assert_eq!(
        result(&config, &succeeds()).unwrap(),
        "Combo transactions not yet handled"
    );
}

#[test]
fn contracts_are_told_of_signatures_and_moments() {
    let mut config = config(1, CliCommand::Witness(key(2), key(3)));
    let client = config.keypair.pubkey();
    let (_, log) = run(&config, &succeeds());
    let tx = &log.sent[0];
    assert_eq!(accounts(tx, 0), [client, key(3), key(2)]);
    assert_eq!(tx.message.instructions[0].data, [2, 0, 0, 0]);
    assert_eq!(program(tx, 0), own_id(solana_budget_program::id()));
    assert!(sdk_transaction(tx).verify().is_ok());

    config.command = CliCommand::Cancel(key(3));
    let (_, log) = run(&config, &succeeds());
    assert_eq!(accounts(&log.sent[0], 0), [client, key(3)]);
    assert_eq!(log.sent[0].message.instructions[0].data, [2, 0, 0, 0]);

    config.command = CliCommand::TimeElapsed(key(2), key(3), date());
    let (_, log) = run(&config, &succeeds());
    let tx = &log.sent[0];
    assert_eq!(accounts(tx, 0), [client, key(3), key(2)]);
    let mut wanted: Vec<u8> = vec![1, 0, 0, 0];
    wanted.extend(&20u64.to_le_bytes());
    wanted.extend(b"2018-09-19T17:30:59Z");
    assert_eq!(tx.message.instructions[0].data, wanted);

    let failed = Mock {
        outcome: Err(code(0)),
        ..succeeds()
    };
    assert_eq!(
        result(&config, &failed),
        Err(CommandError::Budget(BudgetError::DestinationMissing))
    );
    let failed = Mock {
        outcome: Err(code(1)),
        ..succeeds()
    };
    assert_eq!(
        result(&config, &failed),
        Err(CommandError::Client(code(1)))
    );
}

#[test]
fn failed_transfers_report_the_system_program() {
    let config = config(1, transfer(key(2), BlockhashQuery::All, false));
    for (number, error) in [
        (0, SystemError::AccountAlreadyInUse),
        (1, SystemError::ResultWithNegativeLamports),
        (2, SystemError::InvalidProgramId),
        (3, SystemError::InvalidAccountDataLength),
        (4, SystemError::MaxSeedLengthExceeded),
        (5, SystemError::AddressWithSeedMismatch),
    ] {
        let mock = Mock {
            outcome: Err(code(number)),
            ..succeeds()
        };
        assert_eq!(result(&config, &mock), Err(CommandError::System(error)));
    }
    for error in [code(6), client_error("timeout")] {
        let mock = Mock {
            outcome: Err(error.clone()),
            ..succeeds()
        };
        assert_eq!(result(&config, &mock), Err(CommandError::Client(error)));
    }
}

#[test]
fn programs_are_written_in_chunks() {
    for len in [0usize, 1, 229, 230, 1000] {
        let program_data: Vec<u8> = (0..len).map(|i| (i % 251) as u8).collect();
        let config = config(1, CliCommand::Deploy("program.so".to_string()));
        let mock = Mock {
            file: Ok(program_data.clone()),
            ..succeeds()
        };
        let (outcome, log) = run(&config, &mock);
        assert_eq!(
            log.steps,
            ["read", "blockhash", "rent", "balance", "send", "send all", "send"]
        );
        let client = config.keypair.pubkey();
        let program_id = Pubkey::parse(&json_field(outcome, "programId")).unwrap();
        let create = &log.sent[0];
        let mut data: Vec<u8> = vec![0, 0, 0, 0];
        data.extend(&1234u64.to_le_bytes());
        data.extend(&(len as u64).to_le_bytes());
        data.extend(&own_id(solana_sdk::bpf_loader::id()).bytes);
        assert_eq!(create.message.instructions[0].data, data);
        assert_eq!(accounts(create, 0), [client, program_id]);

        let writes = &log.sent[1..log.sent.len() - 1];
        assert_eq!(writes.len(), (len + 228) / 229);
        let mut written: Vec<u8> = Vec::new();
        for tx in writes {
            let data = &tx.message.instructions[0].data;
            assert_eq!(data[..4], [0, 0, 0, 0]);
            assert_eq!(data[4..8], (written.len() as u32).to_le_bytes());
            assert_eq!(data[8..16], ((data.len() - 16) as u64).to_le_bytes());
            assert!(data.len() - 16 <= 229);
            written.extend(&data[16..]);
            assert_eq!(accounts(tx, 0), [program_id]);
            assert_eq!(program(tx, 0), own_id(solana_sdk::bpf_loader::id()));
            assert!(sdk_transaction(tx).verify().is_ok());
        }
        assert_eq!(written, program_data);

        let finalize = &log.sent[log.sent.len() - 1];
        assert_eq!(finalize.message.instructions[0].data, [1, 0, 0, 0]);
        assert_eq!(
            accounts(finalize, 0),
            [program_id, own_id(solana_sdk::sysvar::rent::id())]
        );
        assert!(sdk_transaction(finalize).verify().is_ok());
    }
}

#[test]
fn deployments_fail_for_their_own_reasons() {
    let config = config(1, CliCommand::Deploy("program.so".to_string()));
    let program_error =
        |text: &str| Err(CommandError::Cli(CliError::DynamicProgramError(text.to_string())));
    let mock = Mock {
        file: Err(FileError::Open("denied".to_string())),
        ..succeeds()
    };
    assert_eq!(
        result(&config, &mock),
        program_error("Unable to open program file: denied")
    );
    let mock = Mock {
        file: Err(FileError::Read("gone".to_string())),
        ..succeeds()
    };
    assert_eq!(
        result(&config, &mock),
        program_error("Unable to read program file: gone")
    );
    let mock = Mock {
        file: Ok(vec![1]),
        outcome: Err(code(0)),
        ..succeeds()
    };
    assert_eq!(
        result(&config, &mock),
        program_error("Program allocate space failed")
    );
    let mock = Mock {
        file: Ok(vec![1]),
        batch: Err("lost".to_string()),
        ..succeeds()
    };
    assert_eq!(
        result(&config, &mock),
        Err(CommandError::Other("lost".to_string()))
    );
    let mock = Mock {
        file: Ok(vec![1]),
        rent: Err(client_error("down")),
        ..succeeds()
    };
    assert_eq!(
        result(&config, &mock),
        Err(CommandError::Client(client_error("down")))
    );

    // Two signatures to make the account, two to write and two to finish.
    let price = FeeCalculator {
        lamports_per_signature: 10,
    };
    for (lamports, sends) in [(59, false), (60, true)] {
        let mock = Mock {
            file: Ok(vec![1]),
            balances: vec![Ok(Some(lamports))],
            recent: Ok((recent_blockhash(), price)),
            ..succeeds()
        };
        let (outcome, log) = run(&config, &mock);
        assert_eq!(outcome.is_ok(), sends);
        assert_eq!(log.steps.contains(&"send"), sends);
    }
}

#[test]
fn finalizing_may_fail() {
    let config = config(1, CliCommand::Deploy("program.so".to_string()));
    let mock = Mock {
        file: Ok(vec![1]),
        ..succeeds()
    };
    let mut progress = process_command(&config);
    let mut sends = 0;
    let outcome = loop {
        progress = match progress {
            Progress::ReadFile(step) => step.resume(mock.file.clone()),
            Progress::Blockhash(step) => step.resume(mock.recent.clone()),
            Progress::Rent(step) => step.resume(Ok(0)),
            Progress::Balance(step) => step.resume(Ok(Some(50))),
            Progress::SendAll(step) => step.resume(Ok(())),
            Progress::Send(step) => {
                sends += 1;
                if sends == 1 {
                    // An account that needs no rent still holds a lamport.
                    assert_eq!(
                        step.tx.message.instructions[0].data[4..12],
                        1u64.to_le_bytes()
                    );
                    step.resume(Ok(SIGNATURE.to_string()))
                } else {
                    step.resume(Err(code(0)))
                }
            }
            Progress::Done(outcome) => break outcome,
            other => panic!("{:?}", other),
        }
    };
    assert_eq!(
        outcome,
        Err(CommandError::Cli(CliError::DynamicProgramError(
            "Program finalize transaction failed".to_string()
        )))
    );
}

fn airdrop(config_host: Option<IpAddr>) -> CliCommand {
    CliCommand::Airdrop {
        faucet_host: config_host,
        faucet_port: 1234,
        lamports: 50,
        use_lamports_unit: true,
    }
}

#[test]
fn airdrops_show_the_new_balance() {
    let mut config = config(1, airdrop(Some(IpAddr::V4([10, 0, 0, 1]))));
    let mock = Mock {
        balances: vec![Ok(Some(50)), Ok(Some(100))],
        ..succeeds()
    };
    let (outcome, log) = run(&config, &mock);
    assert_eq!(outcome.unwrap(), "100 lamports");
    assert_eq!(
        log.steps,
        ["balance", "blockhash", "faucet", "send", "balance"]
    );
    assert_eq!(log.resigners, [0]);
    assert_eq!(
        log.lines,
        [Line::Airdrop(
            "50 lamports".to_string(),
            SocketAddr {
                ip: IpAddr::V4([10, 0, 0, 1]),
                port: 1234
            }
        )]
    );

    // Where the cluster does not know the balance afterwards, the one before is shown.
    let mock = Mock {
        balances: vec![Ok(Some(50)), Ok(None)],
        ..succeeds()
    };
    assert_eq!(result(&config, &mock).unwrap(), "50 lamports");
    let mock = Mock {
        balances: vec![Ok(None)],
        ..succeeds()
    };
    assert_eq!(
        result(&config, &mock),
        Err(CommandError::Cli(CliError::RpcRequestError(
            "Received result of an unexpected type".to_string()
        )))
    );

    config.command = airdrop(None);
    let (_, log) = run(&config, &succeeds());
    assert_eq!(log.steps[0], "host");
    let mock = Mock {
        outcome: Err(code(1)),
        ..succeeds()
    };
    assert_eq!(
        result(&config, &mock),
        Err(CommandError::System(
            SystemError::ResultWithNegativeLamports
        ))
    );
}

#[test]
fn faucets_are_asked_six_times() {
    let config = config(1, airdrop(Some(IpAddr::V4([10, 0, 0, 1]))));
    for failures in 0..8 {
        let mock = Mock {
            faucet_failures: failures,
            ..succeeds()
        };
        let (outcome, log) = run(&config, &mock);
        let asked = log.steps.iter().filter(|step| **step == "faucet").count() as u32;
        assert_eq!(asked, 6.min(failures + 1));
        assert_eq!(log.pauses, asked - 1);
        if failures < 6 {
            assert!(outcome.is_ok());
        } else {
            assert_eq!(
                outcome,
                Err(CommandError::Other("faucet is dry".to_string()))
            );
        }
    }
}

#[test]
fn airdrops_by_themselves_come_to_a_signature() {
    let address = SocketAddr {
        ip: IpAddr::V6([0; 16]),
        port: 1,
    };
    let start = solana_cli::airdrop::request_and_confirm_airdrop(address, &key(1), 5);
    let (outcome, log) = drive(start, &succeeds());
    assert_eq!(outcome.unwrap().unwrap(), SIGNATURE);
    assert_eq!(log.steps, ["blockhash", "faucet", "send"]);
}

#[test]
fn commands_that_cannot_run() {
    let mut config = config(1, airdrop(None));
    config.json_rpc_url = "not an address".to_string();
    assert!(try_process_command(&config).is_none());
    config.json_rpc_url = "https://[::1]:8899".to_string();
    match try_process_command(&config) {
        Some(Progress::Host(step)) => assert_eq!(step.host, "[::1]"),
        other => panic!("{:?}", other),
    }
    config.command = CliCommand::Pay(PayCommand {
        lamports: 10,
        to: key(2),
        witnesses: Some(vec![]),
        ..PayCommand::default()
    });
    assert!(try_process_command(&config).is_none());
}

#[test]
fn modules_are_given_their_arguments() {
    let mut config = config(
        1,
        CliCommand::Ping {
            lamports: 7,
            interval: Duration::from_secs(2),
            count: Some(3),
            timeout: Duration::from_secs(4),
            commitment_config: CommitmentConfig::default(),
        },
    );
    match process_command(&config) {
        Progress::Delegate(ModuleCommand::Ping {
            config: given,
            lamports,
            interval,
            count,
            timeout,
            ..
        }) => {
            assert_eq!(given.keypair.pubkey(), config.keypair.pubkey());
            assert_eq!(lamports, 7);
            assert_eq!((interval.as_secs(), timeout.as_secs()), (2, 4));
            assert_eq!(*count, Some(3));
        }
        other => panic!("{:?}", other),
    }
    config.command = CliCommand::DelegateStake {
        stake_account_pubkey: key(2),
        vote_account_pubkey: key(3),
        stake_authority: None,
        force: true,
        sign_only: false,
        signers: None,
        blockhash_query: BlockhashQuery::All,
        nonce_account: Some(key(4)),
        nonce_authority: None,
        fee_payer: None,
    };
    match process_command(&config) {
        Progress::Delegate(ModuleCommand::DelegateStake {
            stake_account_pubkey,
            vote_account_pubkey,
            force,
            nonce_account,
            ..
        }) => {
            assert_eq!(*stake_account_pubkey, key(2));
            assert_eq!(*vote_account_pubkey, key(3));
            assert!(force);
            assert_eq!(nonce_account, Some(key(4)));
        }
        other => panic!("{:?}", other),
    }
    config.command = CliCommand::GetNonce(key(5));
    match find_module_command(&config) {
        Some(ModuleCommand::GetNonce { nonce_account }) => assert_eq!(*nonce_account, key(5)),
        other => panic!("{:?}", other),
    }
    config.command = CliCommand::Address;
    assert!(find_module_command(&config).is_none());
}

#[test]
fn balances_of_other_accounts() {
    let config = config(
        1,
        CliCommand::Balance {
            pubkey: Some(key(4)),
            use_lamports_unit: false,
        },
    );
    let mock = Mock {
        balances: vec![Ok(Some(1_500_000_000))],
        ..succeeds()
    };
    let (outcome, log) = run(&config, &mock);
    assert_eq!(outcome.unwrap(), "1.5 SOL");
    assert_eq!(log.balances_of, [key(4)]);
    let mock = Mock {
        balances: vec![Ok(None)],
        ..succeeds()
    };
    assert_eq!(
        result(&config, &mock),
        Err(CommandError::Cli(CliError::RpcRequestError(
            "Received result of an unexpected type".to_string()
        )))
    );
}

#[test]
fn unanswered_questions_about_transactions() {
    let config = config(1, CliCommand::Confirm(Signature::new(&[1; 64])));
    assert_eq!(
        result(&config, &fails()),
        Err(CommandError::Cli(CliError::RpcRequestError(
            "Unable to confirm: down".to_string()
        )))
    );
}

#[test]
fn derived_addresses() {
    let mut config = config(
        1,
        CliCommand::CreateAddressWithSeed {
            from_pubkey: None,
            seed: "seed".to_string(),
            program_id: key(9),
        },
    );
    let derived = |base: Pubkey| {
        solana_sdk::system_instruction::create_address_with_seed(
            &solana_sdk::pubkey::Pubkey::new(&base.bytes),
            "seed",
            &solana_sdk::pubkey::Pubkey::new(&[9; 32]),
        )
        .unwrap()
        .to_string()
    };
    assert_eq!(
        result(&config, &succeeds()).unwrap(),
        derived(config.keypair.pubkey())
    );
    config.command = CliCommand::CreateAddressWithSeed {
        from_pubkey: Some(key(3)),
        seed: "seed".to_string(),
        program_id: key(9),
    };
    assert_eq!(result(&config, &succeeds()).unwrap(), derived(key(3)));
    config.command = CliCommand::CreateAddressWithSeed {
        from_pubkey: None,
        seed: "x".repeat(33),
        program_id: key(9),
    };
    assert_eq!(
        result(&config, &succeeds()),
        Err(CommandError::System(SystemError::MaxSeedLengthExceeded))
    );
}

fn account_mock(data: Vec<u8>) -> Mock {
    Mock {
        account: Ok(AccountInfo {
            lamports: 2_000_000_000,
            owner: key(6),
            executable: true,
            data,
        }),
        ..succeeds()
    }
}

fn show(output_file: Option<&str>) -> CliConfig {
    config(
        1,
        CliCommand::ShowAccount {
            pubkey: key(5),
            output_file: output_file.map(|path| path.to_string()),
            use_lamports_unit: false,
        },
    )
}

fn account_lines() -> Vec<Line> {
    vec![
        Line::Blank,
        Line::NameValue("Public Key:", key(5).to_string()),
        Line::NameValue("Balance:", "2 SOL".to_string()),
        Line::NameValue("Owner:", key(6).to_string()),
        Line::NameValue("Executable:", "true".to_string()),
    ]
}

#[test]
fn accounts_are_laid_out() {
    let config = show(None);
    let (outcome, log) = run(&config, &account_mock(vec![]));
    assert_eq!(outcome.unwrap(), "");
    assert_eq!(log.lines, account_lines());

    let (_, log) = run(&config, &account_mock(b"kiwi".to_vec()));
    let mut wanted = account_lines();
    wanted.push(Line::Text(format!(
        "Length: 4 (0x4) bytes\n0000:   6b 69 77 69{}kiwi",
        " ".repeat(42)
    )));
    assert_eq!(log.lines, wanted);
    assert_eq!(
        result(&config, &succeeds()),
        Err(CommandError::Client(client_error("no account")))
    );
}

#[test]
fn accounts_are_written_to_files() {
    let config = show(Some("out.bin"));
    let (outcome, log) = run(&config, &account_mock(vec![1, 2, 3]));
    assert_eq!(outcome.unwrap(), "");
    assert_eq!(log.written, [1, 2, 3]);
    let mut wanted = account_lines();
    wanted.push(Line::Blank);
    wanted.push(Line::Text("Wrote account data to out.bin".to_string()));
    assert_eq!(log.lines, wanted);
    let mock = Mock {
        write: Err("disk full".to_string()),
        ..account_mock(vec![1])
    };
    assert_eq!(
        result(&config, &mock),
        Err(CommandError::Other("disk full".to_string()))
    );
}

#[test]
fn hardware_wallets_are_asked_for_their_key() {
    let mut config = config(1, CliCommand::Address);
    config.keypair_path = Some("usb://ledger".to_string());
    config.derivation_path = Some(DerivationPath {
        account: Some(1),
        change: None,
    });
    match process_command(&config) {
        Progress::Wallet(step) => {
            assert_eq!(step.path, "usb://ledger");
            assert_eq!(step.derivation_path, config.derivation_path);
        }
        other => panic!("{:?}", other),
    }
    let mock = Mock {
        wallet: Ok(key(8)),
        ..succeeds()
    };
    assert_eq!(result(&config, &mock).unwrap(), key(8).to_string());
    assert_eq!(
        result(&config, &succeeds()),
        Err(CommandError::Other("no wallet".to_string()))
    );

    // The wallet is asked even where its key plays no part.
    config.command = CliCommand::Balance {
        pubkey: Some(key(4)),
        use_lamports_unit: true,
    };
    let (outcome, log) = run(&config, &mock);
    assert_eq!(outcome.unwrap(), "50 lamports");
    assert_eq!(log.steps, ["wallet", "balance"]);
    assert_eq!(log.balances_of, [key(4)]);
}

#[test]
fn verbose_runs_show_the_configuration() {
    let mut config = config(1, CliCommand::Address);
    config.verbose = true;
    let (outcome, log) = run(&config, &succeeds());
    assert_eq!(outcome.unwrap(), config.keypair.pubkey().to_string());
    assert_eq!(
        log.lines,
        [
            Line::NameValue("RPC URL:", "http://127.0.0.1:8899".to_string()),
            Line::NameValue(
                "Keypair Path:",
                "/home/test/.config/solana/id.json".to_string()
            ),
        ]
    );

    config.keypair_path = Some("usb://ledger".to_string());
    let mock = Mock {
        wallet: Ok(key(8)),
        ..succeeds()
    };
    let (_, log) = run(&config, &mock);
    assert_eq!(log.steps, ["wallet", "wallet"]);
    assert_eq!(
        log.lines[2],
        Line::NameValue("Pubkey:", key(8).to_string())
    );

    config.keypair_path = None;
    let (_, log) = run(&config, &succeeds());
    assert_eq!(log.lines.len(), 1);
}

#[test]
fn contracts_live_in_new_accounts() {
    let config = config(
        1,
        CliCommand::Pay(PayCommand {
            lamports: 10,
            to: key(2),
            witnesses: Some(vec![key(3)]),
            ..PayCommand::default()
        }),
    );
    let first = json_field(result(&config, &succeeds()), "processId");
    let second = json_field(result(&config, &succeeds()), "processId");
    assert_ne!(first, second);
}

#[test]
fn the_blockhash_may_be_given() {
    let blockhash = Blockhash::new(&[9; 32]);
    let config = config(
        1,
        transfer(key(2), BlockhashQuery::FeeCalculator(blockhash), false),
    );
    let (_, log) = run(&config, &succeeds());
    assert_eq!(log.sent[0].message.recent_blockhash, blockhash);
    let (outcome, log) = run(&config, &fails());
    assert_eq!(outcome, Err(CommandError::Client(client_error("down"))));
    assert_eq!(log.steps, ["blockhash"]);
}
