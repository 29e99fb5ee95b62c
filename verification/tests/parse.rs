//! Command lines, read by clap as the grammar describes them and then by the library.
use chrono::TimeZone;
use solana_cli::authority::SigningAuthority;
use solana_cli::command::{CliCommand, CliCommandInfo, IpAddr, PayCommand};
use solana_cli::errors::{CliError, CommandError};
use solana_cli::fees::{BlockhashQuery, FeeCalculator};
use solana_cli::grammar::{app, AppSpec, ArgSpec, CommandSpec, Section, Validator};
use solana_cli::keys::{Blockhash, Keypair, Pubkey, Signature};
use solana_cli::matches::{parse_signer, ArgMatches, ArgValues, SubCommand};
use solana_cli::parse::{parse_command, try_parse_command, Parsed, Surroundings};
use solana_cli::route::ModuleParser;
use solana_cli::time::Timestamp;
use solana_sdk::signature::Signer;

fn is_pubkey(text: &str) -> bool {
    text.parse::<solana_sdk::pubkey::Pubkey>().is_ok()
}

fn is_keypair(text: &str) -> bool {
    solana_sdk::signature::read_keypair_file(text).is_ok()
}

fn is_valid(validator: Validator, text: &str) -> bool {
    match validator {
        Validator::Anything => true,
        Validator::Pubkey => is_pubkey(text),
        Validator::PubkeyOrKeypair => is_pubkey(text) || is_keypair(text),
        Validator::PubkeyOrKeypairOrAskKeyword => {
            text == "ASK" || is_pubkey(text) || is_keypair(text)
        }
        Validator::Blockhash => text.parse::<solana_sdk::hash::Hash>().is_ok(),
        Validator::PubkeySig => parse_signer(text).is_some(),
        Validator::Amount => text.parse::<u64>().is_ok() || text.parse::<f64>().is_ok(),
    }
}

fn clap_arg(spec: &ArgSpec) -> clap::Arg<'static, 'static> {
    let validator = spec.validator;
    let mut arg = clap::Arg::with_name(spec.name)
        .takes_value(spec.takes_value)
        .required(spec.required)
        .multiple(spec.multiple);
    if let Some(index) = spec.index {
        arg = arg.index(index);
    }
    if let Some(long) = spec.long {
        arg = arg.long(long);
    }
    if let Some(short) = spec.short {
        arg = arg.short(short);
    }
    if let Some(value_name) = spec.value_name {
        arg = arg.value_name(value_name);
    }
    if let Some(help) = spec.help {
        arg = arg.help(help);
    }
    if spec.use_delimiter {
        arg = arg.use_delimiter(true);
    }
    if let Some(requires) = spec.requires {
        arg = arg.requires(requires);
    }
    if let Some(value) = spec.default_value {
        arg = arg.default_value(value);
    }
    if let Some((a, b)) = spec.possible_values {
        arg = arg.possible_values(&[a, b]);
    }
    if spec.takes_value {
        arg = arg.validator(move |text: String| {
            if is_valid(validator, &text) {
                Ok(())
            } else {
                Err("not accepted".to_string())
            }
        });
    }
    arg
}

fn commands<'a>(spec: &'a AppSpec<'static>) -> Vec<&'a CommandSpec> {
    spec.sections
        .iter()
        .filter_map(|section| match section {
            Section::Command(command) => Some(command),
            Section::Module(_) => None,
        })
        .collect()
}

fn clap_app(spec: &AppSpec<'static>) -> clap::App<'static, 'static> {
    let mut result = clap::App::new(spec.name)
        .about(spec.about)
        .version(spec.version);
    if spec.subcommand_required_else_help {
        result = result.setting(clap::AppSettings::SubcommandRequiredElseHelp);
    }
    for command in commands(spec) {
        let mut sub = clap::SubCommand::with_name(command.name).about(command.about);
        if let Some(alias) = command.alias {
            sub = sub.alias(alias);
        }
        for arg in &command.args {
            sub = sub.arg(clap_arg(arg));
        }
        result = result.subcommand(sub);
    }
    result
}

fn load_keypair(path: &str) -> Option<Keypair> {
    solana_sdk::signature::read_keypair_file(path)
        .ok()
        .map(|keypair| own_keypair(&keypair))
}

fn own_keypair(keypair: &solana_sdk::signature::Keypair) -> Keypair {
    let mut secret = [0u8; 32];
    secret.copy_from_slice(&keypair.to_bytes()[..32]);
    Keypair::from_seed(&secret)
}

fn random_pubkey() -> Pubkey {
    Pubkey::new(&solana_sdk::pubkey::Pubkey::new_rand().to_bytes())
}

fn sign(keypair: &solana_sdk::signature::Keypair, message: &[u8]) -> Signature {
    let bytes: [u8; 64] = keypair.sign_message(message).into();
    Signature::new(&bytes)
}

/// What clap makes of the words, as the library takes it.
fn read(words: &[&str]) -> ArgMatches {
    let spec = app("test", "desc", "version");
    let matches = clap_app(&spec).get_matches_from(words);
    let (name, sub) = matches.subcommand();
    let sub = sub.unwrap();
    let command = commands(&spec)
        .into_iter()
        .find(|command| command.name == name)
        .unwrap();
    let mut args = Vec::new();
    for arg in &command.args {
        if sub.is_present(arg.name) {
            let values: Vec<String> = sub
                .values_of(arg.name)
                .map(|values| values.map(|value| value.to_string()).collect())
                .unwrap_or_default();
            let keypair = values.first().and_then(|value| load_keypair(value));
            args.push(ArgValues {
                name: arg.name.to_string(),
                values,
                keypair,
            });
        }
    }
    ArgMatches {
        args: Vec::new(),
        subcommand: Some(Box::new(SubCommand {
            name: name.to_string(),
            matches: ArgMatches {
                args,
                subcommand: None,
            },
        })),
    }
}

fn now() -> Timestamp {
    Timestamp::new(1_600_000_000, 5).unwrap()
}

fn surroundings() -> Surroundings {
    Surroundings {
        faucet_host: Err("\"no such host\"".to_string()),
        now: now(),
    }
}

fn parse(words: &[&str]) -> Result<CliCommandInfo, CommandError> {
    match try_parse_command(&read(words), &surroundings()).unwrap()? {
        Parsed::Command(info) => Ok(info),
        Parsed::Module(module) => panic!("{:?}", module),
    }
}

/// The arguments by hand, for what clap would not let through.
fn by_hand(name: &str, given: &[(&str, &[&str])]) -> ArgMatches {
    let args = given
        .iter()
        .map(|(name, values)| ArgValues {
            name: name.to_string(),
            values: values.iter().map(|value| value.to_string()).collect(),
            keypair: None,
        })
        .collect();
    ArgMatches {
        args: Vec::new(),
        subcommand: Some(Box::new(SubCommand {
            name: name.to_string(),
            matches: ArgMatches {
                args,
                subcommand: None,
            },
        })),
    }
}

fn bad_parameter(text: &str) -> CommandError {
    CommandError::Cli(CliError::BadParameter(text.to_string()))
}

fn make_tmp_path(name: &str) -> String {
    let keypair = solana_sdk::signature::Keypair::new();
    format!("/tmp/farf/tmp/{}-{}", name, keypair.pubkey())
}

#[test]
fn test_cli_parse_command() {
    let pubkey = random_pubkey();
    let pubkey_string = pubkey.to_string();
    let witness0 = random_pubkey();
    let witness0_string = witness0.to_string();
    let witness1 = random_pubkey();
    let witness1_string = witness1.to_string();
    let date = chrono::Utc
        .with_ymd_and_hms(2018, 9, 19, 17, 30, 59)
        .unwrap();
    let dt = Timestamp::new(date.timestamp(), 0).unwrap();

    // Test Airdrop Subcommand
    assert_eq!(
        parse(&["test", "airdrop", "50", "lamports"]).unwrap(),
        CliCommandInfo {
            command: CliCommand::Airdrop {
                faucet_host: None,
                faucet_port: 9900,
                lamports: 50,
                use_lamports_unit: true,
            },
            require_keypair: true,
        }
    );

    // Test Balance Subcommand, incl pubkey and keypair-file inputs
    let keypair_file = make_tmp_path("keypair_file");
    solana_sdk::signature::write_keypair_file(
        &solana_sdk::signature::Keypair::new(),
        &keypair_file,
    )
    .unwrap();
    let keypair = solana_sdk::signature::read_keypair_file(&keypair_file).unwrap();
    let keypair_pubkey = own_keypair(&keypair).pubkey();
    assert_eq!(
        parse(&["test", "balance", &keypair.pubkey().to_string()]).unwrap(),
        CliCommandInfo {
            command: CliCommand::Balance {
                pubkey: Some(keypair_pubkey),
                use_lamports_unit: false
            },
            require_keypair: false
        }
    );
    assert_eq!(
        parse(&["test", "balance", &keypair_file, "--lamports"]).unwrap(),
        CliCommandInfo {
            command: CliCommand::Balance {
                pubkey: Some(keypair_pubkey),
                use_lamports_unit: true
            },
            require_keypair: false
        }
    );
    assert_eq!(
        parse(&["test", "balance", "--lamports"]).unwrap(),
        CliCommandInfo {
            command: CliCommand::Balance {
                pubkey: None,
                use_lamports_unit: true
            },
            require_keypair: true
        }
    );

    // Test Cancel Subcommand
    assert_eq!(
        parse(&["test", "cancel", &pubkey_string]).unwrap(),
        CliCommandInfo {
            command: CliCommand::Cancel(pubkey),
            require_keypair: true
        }
    );

    // Test Confirm Subcommand
    let signature = Signature::new(&[1; 64]);
    let signature_string = format!("{:?}", solana_sdk::signature::Signature::new(&[1; 64]));
    assert_eq!(
        parse(&["test", "confirm", &signature_string]).unwrap(),
        CliCommandInfo {
            command: CliCommand::Confirm(signature),
            require_keypair: false
        }
    );
    assert!(parse(&["test", "confirm", "deadbeef"]).is_err());

    // Test CreateAddressWithSeed
    let from_pubkey = Some(random_pubkey());
    let from_str = from_pubkey.unwrap().to_string();
    for (name, program_id) in &[
        ("STAKE", solana_stake_program::id()),
        ("VOTE", solana_vote_program::id()),
        ("STORAGE", solana_storage_program::id()),
    ] {
        assert_eq!(
            parse(&[
                "test",
                "create-address-with-seed",
                "seed",
                name,
                "--from",
                &from_str,
            ])
            .unwrap(),
            CliCommandInfo {
                command: CliCommand::CreateAddressWithSeed {
                    from_pubkey,
                    seed: "seed".to_string(),
                    program_id: Pubkey::new(&program_id.to_bytes())
                },
                require_keypair: false
            }
        );
    }
    assert_eq!(
        parse(&["test", "create-address-with-seed", "seed", "STAKE"]).unwrap(),
        CliCommandInfo {
            command: CliCommand::CreateAddressWithSeed {
                from_pubkey: None,
                seed: "seed".to_string(),
                program_id: Pubkey::new(&solana_stake_program::id().to_bytes()),
            },
            require_keypair: true
        }
    );

    // Test Deploy Subcommand
    assert_eq!(
        parse(&["test", "deploy", "/Users/test/program.o"]).unwrap(),
        CliCommandInfo {
            command: CliCommand::Deploy("/Users/test/program.o".to_string()),
            require_keypair: true
        }
    );

    // Test Simple Pay Subcommand
    assert_eq!(
        parse(&["test", "pay", &pubkey_string, "50", "lamports"]).unwrap(),
        CliCommandInfo {
            command: CliCommand::Pay(PayCommand {
                lamports: 50,
                to: pubkey,
                ..PayCommand::default()
            }),
            require_keypair: true
        }
    );

    // Test Pay Subcommand w/ Witness
    assert_eq!(
        parse(&[
            "test",
            "pay",
            &pubkey_string,
            "50",
            "lamports",
            "--require-signature-from",
            &witness0_string,
            "--require-signature-from",
            &witness1_string,
        ])
        .unwrap(),
        CliCommandInfo {
            command: CliCommand::Pay(PayCommand {
                lamports: 50,
                to: pubkey,
                witnesses: Some(vec![witness0, witness1]),
                ..PayCommand::default()
            }),
            require_keypair: true
        }
    );
    assert_eq!(
        parse(&[
            "test",
            "pay",
            &pubkey_string,
            "50",
            "lamports",
            "--require-signature-from",
            &witness0_string,
        ])
        .unwrap(),
        CliCommandInfo {
            command: CliCommand::Pay(PayCommand {
                lamports: 50,
                to: pubkey,
                witnesses: Some(vec![witness0]),
                ..PayCommand::default()
            }),
            require_keypair: true
        }
    );

    // Test Pay Subcommand w/ Timestamp
    assert_eq!(
        parse(&[
            "test",
            "pay",
            &pubkey_string,
            "50",
            "lamports",
            "--after",
            "2018-09-19T17:30:59",
            "--require-timestamp-from",
            &witness0_string,
        ])
        .unwrap(),
        CliCommandInfo {
            command: CliCommand::Pay(PayCommand {
                lamports: 50,
                to: pubkey,
                timestamp: Some(dt),
                timestamp_pubkey: Some(witness0),
                ..PayCommand::default()
            }),
            require_keypair: true
        }
    );

    // Test Pay Subcommand w/ sign-only
    let blockhash = Blockhash::default();
    let blockhash_string = blockhash.to_string();
    assert_eq!(
        parse(&[
            "test",
            "pay",
            &pubkey_string,
            "50",
            "lamports",
            "--blockhash",
            &blockhash_string,
            "--sign-only",
        ])
        .unwrap(),
        CliCommandInfo {
            command: CliCommand::Pay(PayCommand {
                lamports: 50,
                to: pubkey,
                blockhash_query: BlockhashQuery::Given(blockhash, FeeCalculator::default()),
                sign_only: true,
                ..PayCommand::default()
            }),
            require_keypair: true,
        }
    );

    // Test Pay Subcommand w/ signer
    let key1 = random_pubkey();
    let sig1 = sign(&solana_sdk::signature::Keypair::new(), &[0u8]);
    let signer1 = format!("{}={}", key1.to_string(), sig1.to_string());
    assert_eq!(
        parse(&[
            "test",
            "pay",
            &pubkey_string,
            "50",
            "lamports",
            "--blockhash",
            &blockhash_string,
            "--signer",
            &signer1,
        ])
        .unwrap(),
        CliCommandInfo {
            command: CliCommand::Pay(PayCommand {
                lamports: 50,
                to: pubkey,
                blockhash_query: BlockhashQuery::FeeCalculator(blockhash),
                signers: Some(vec![(key1, sig1)]),
                ..PayCommand::default()
            }),
            require_keypair: true
        }
    );

    // Test Pay Subcommand w/ signers
    let key2 = random_pubkey();
    let sig2 = sign(&solana_sdk::signature::Keypair::new(), &[1u8]);
    let signer2 = format!("{}={}", key2.to_string(), sig2.to_string());
    assert_eq!(
        parse(&[
            "test",
            "pay",
            &pubkey_string,
            "50",
            "lamports",
            "--blockhash",
            &blockhash_string,
            "--signer",
            &signer1,
            "--signer",
            &signer2,
        ])
        .unwrap(),
        CliCommandInfo {
            command: CliCommand::Pay(PayCommand {
                lamports: 50,
                to: pubkey,
                blockhash_query: BlockhashQuery::FeeCalculator(blockhash),
                signers: Some(vec![(key1, sig1), (key2, sig2)]),
                ..PayCommand::default()
            }),
            require_keypair: true
        }
    );

    // Test Pay Subcommand w/ Blockhash
    assert_eq!(
        parse(&[
            "test",
            "pay",
            &pubkey_string,
            "50",
            "lamports",
            "--blockhash",
            &blockhash_string,
        ])
        .unwrap(),
        CliCommandInfo {
            command: CliCommand::Pay(PayCommand {
                lamports: 50,
                to: pubkey,
                blockhash_query: BlockhashQuery::FeeCalculator(blockhash),
                ..PayCommand::default()
            }),
            require_keypair: true
        }
    );

    // Test Pay Subcommand w/ Nonce
    assert_eq!(
        parse(&[
            "test",
            "pay",
            &pubkey_string,
            "50",
            "lamports",
            "--blockhash",
            &blockhash_string,
            "--nonce",
            &pubkey_string,
        ])
        .unwrap(),
        CliCommandInfo {
            command: CliCommand::Pay(PayCommand {
                lamports: 50,
                to: pubkey,
                blockhash_query: BlockhashQuery::FeeCalculator(blockhash),
                nonce_account: Some(pubkey),
                ..PayCommand::default()
            }),
            require_keypair: true
        }
    );

    // Test Pay Subcommand w/ Nonce and Nonce Authority
    assert_eq!(
        parse(&[
            "test",
            "pay",
            &pubkey_string,
            "50",
            "lamports",
            "--blockhash",
            &blockhash_string,
            "--nonce",
            &pubkey_string,
            "--nonce-authority",
            &keypair_file,
        ])
        .unwrap(),
        CliCommandInfo {
            command: CliCommand::Pay(PayCommand {
                lamports: 50,
                to: pubkey,
                blockhash_query: BlockhashQuery::FeeCalculator(blockhash),
                nonce_account: Some(pubkey),
                nonce_authority: Some(own_keypair(&keypair).into()),
                ..PayCommand::default()
            }),
            require_keypair: true
        }
    );

    // Test Pay Subcommand w/ Nonce and Offline Nonce Authority
    let authority_pubkey = keypair_pubkey;
    let authority_pubkey_string = authority_pubkey.to_string();
    let sig = sign(&keypair, &[0u8]);
    let signer_arg = format!("{}={}", authority_pubkey_string, sig.to_string());
    assert_eq!(
        parse(&[
            "test",
            "pay",
            &pubkey_string,
            "50",
            "lamports",
            "--blockhash",
            &blockhash_string,
            "--nonce",
            &pubkey_string,
            "--nonce-authority",
            &authority_pubkey_string,
            "--signer",
            &signer_arg,
        ])
        .unwrap(),
        CliCommandInfo {
            command: CliCommand::Pay(PayCommand {
                lamports: 50,
                to: pubkey,
                blockhash_query: BlockhashQuery::FeeCalculator(blockhash),
                nonce_account: Some(pubkey),
                nonce_authority: Some(authority_pubkey.into()),
                signers: Some(vec![(authority_pubkey, sig)]),
                ..PayCommand::default()
            }),
            require_keypair: true
        }
    );

    // Test Pay Subcommand w/ Nonce and Offline Nonce Authority
    // authority pubkey not in signers fails
    let sig = sign(&keypair, &[0u8]);
    let signer_arg = format!("{}={}", random_pubkey().to_string(), sig.to_string());
    assert!(parse(&[
        "test",
        "pay",
        &pubkey_string,
        "50",
        "lamports",
        "--blockhash",
        &blockhash_string,
        "--nonce",
        &pubkey_string,
        "--nonce-authority",
        &authority_pubkey_string,
        "--signer",
        &signer_arg,
    ])
    .is_err());

    // Test Send-Signature Subcommand
    assert_eq!(
        parse(&["test", "send-signature", &pubkey_string, &pubkey_string]).unwrap(),
        CliCommandInfo {
            command: CliCommand::Witness(pubkey, pubkey),
            require_keypair: true
        }
    );
    assert_eq!(
        parse(&[
            "test",
            "pay",
            &pubkey_string,
            "50",
            "lamports",
            "--after",
            "2018-09-19T17:30:59",
            "--require-signature-from",
            &witness0_string,
            "--require-timestamp-from",
            &witness0_string,
            "--require-signature-from",
            &witness1_string,
        ])
        .unwrap(),
        CliCommandInfo {
            command: CliCommand::Pay(PayCommand {
                lamports: 50,
                to: pubkey,
                timestamp: Some(dt),
                timestamp_pubkey: Some(witness0),
                witnesses: Some(vec![witness0, witness1]),
                ..PayCommand::default()
            }),
            require_keypair: true
        }
    );

    // Test Send-Timestamp Subcommand
    assert_eq!(
        parse(&[
            "test",
            "send-timestamp",
            &pubkey_string,
            &pubkey_string,
            "--date",
            "2018-09-19T17:30:59",
        ])
        .unwrap(),
        CliCommandInfo {
            command: CliCommand::TimeElapsed(pubkey, pubkey, dt),
            require_keypair: true
        }
    );
    assert!(parse(&[
        "test",
        "send-timestamp",
        &pubkey_string,
        &pubkey_string,
        "--date",
        "20180919T17:30:59",
    ])
    .is_err());
}

#[test]
fn test_parse_transfer_subcommand() {
    //Test Transfer Subcommand, lamports
    let from_keypair = solana_sdk::signature::keypair_from_seed(&[0u8; 32]).unwrap();
    let from_pubkey = Keypair::from_seed(&[0u8; 32]).pubkey();
    let from_string = from_pubkey.to_string();
    let to_pubkey = Keypair::from_seed(&[1u8; 32]).pubkey();
    let to_string = to_pubkey.to_string();
    assert_eq!(
        parse(&["test", "transfer", &to_string, "42", "lamports"]).unwrap(),
        CliCommandInfo {
            command: CliCommand::Transfer {
                lamports: 42,
                to: to_pubkey,
                from: None,
                sign_only: false,
                signers: None,
                blockhash_query: BlockhashQuery::All,
                nonce_account: None,
                nonce_authority: None,
                fee_payer: None,
            },
            require_keypair: true,
        }
    );

    //Test Transfer Subcommand, SOL
    assert_eq!(
        parse(&["test", "transfer", &to_string, "42"]).unwrap(),
        CliCommandInfo {
            command: CliCommand::Transfer {
                lamports: 42_000_000_000,
                to: to_pubkey,
                from: None,
                sign_only: false,
                signers: None,
                blockhash_query: BlockhashQuery::All,
                nonce_account: None,
                nonce_authority: None,
                fee_payer: None,
            },
            require_keypair: true,
        }
    );

    //Test Transfer Subcommand, offline sign
    let blockhash = Blockhash::new(&[1u8; 32]);
    let blockhash_string = blockhash.to_string();
    assert_eq!(
        parse(&[
            "test",
            "transfer",
            &to_string,
            "42",
            "lamports",
            "--blockhash",
            &blockhash_string,
            "--sign-only",
        ])
        .unwrap(),
        CliCommandInfo {
            command: CliCommand::Transfer {
                lamports: 42,
                to: to_pubkey,
                from: None,
                sign_only: true,
                signers: None,
                blockhash_query: BlockhashQuery::Given(blockhash, FeeCalculator::default()),
                nonce_account: None,
                nonce_authority: None,
                fee_payer: None,
            },
            require_keypair: true,
        }
    );

    //Test Transfer Subcommand, submit offline `from`
    let from_sig = sign(&from_keypair, &[0u8]);
    let from_signer = format!("{}={}", from_string, from_sig.to_string());
    assert_eq!(
        parse(&[
            "test",
            "transfer",
            &to_string,
            "42",
            "lamports",
            "--from",
            &from_string,
            "--fee-payer",
            &from_string,
            "--signer",
            &from_signer,
            "--blockhash",
            &blockhash_string,
        ])
        .unwrap(),
        CliCommandInfo {
            command: CliCommand::Transfer {
                lamports: 42,
                to: to_pubkey,
                from: Some(from_pubkey.into()),
                sign_only: false,
                signers: Some(vec![(from_pubkey, from_sig)]),
                blockhash_query: BlockhashQuery::FeeCalculator(blockhash),
                nonce_account: None,
                nonce_authority: None,
                fee_payer: Some(from_pubkey.into()),
            },
            require_keypair: true,
        }
    );

    //Test Transfer Subcommand, with nonce
    let nonce_address = Pubkey::new(&[1u8; 32]);
    let nonce_address_string = nonce_address.to_string();
    let nonce_authority = solana_sdk::signature::keypair_from_seed(&[2u8; 32]).unwrap();
    let nonce_authority_file = make_tmp_path("nonce_authority_file");
    solana_sdk::signature::write_keypair_file(&nonce_authority, &nonce_authority_file).unwrap();
    assert_eq!(
        parse(&[
            "test",
            "transfer",
            &to_string,
            "42",
            "lamports",
            "--blockhash",
            &blockhash_string,
            "--nonce",
            &nonce_address_string,
            "--nonce-authority",
            &nonce_authority_file,
        ])
        .unwrap(),
        CliCommandInfo {
            command: CliCommand::Transfer {
                lamports: 42,
                to: to_pubkey,
                from: None,
                sign_only: false,
                signers: None,
                blockhash_query: BlockhashQuery::FeeCalculator(blockhash),
                nonce_account: Some(nonce_address),
                nonce_authority: Some(load_keypair(&nonce_authority_file).unwrap().into()),
                fee_payer: None,
            },
            require_keypair: true,
        }
    );
}

#[test]
fn test_signing_authority_dummy_keypairs() {
    let signing_authority: SigningAuthority = Pubkey::new(&[1u8; 32]).into();
    assert_eq!(signing_authority, Pubkey::new(&[1u8; 32]).into());
    assert_ne!(signing_authority, Pubkey::new(&[2u8; 32]).into());
}

#[test]
fn a_keypair_counts_as_its_public_half() {
    let keypair = Keypair::from_seed(&[9u8; 32]);
    let online: SigningAuthority = keypair.into();
    let offline: SigningAuthority = keypair.pubkey().into();
    assert_eq!(online, offline);
    assert_eq!(online.pubkey(), offline.pubkey());
    assert_eq!(online.keypair().secret, [9u8; 32]);
    assert_eq!(offline.keypair().secret, keypair.pubkey().bytes);
}

#[test]
fn no_subcommand_is_refused() {
    let matches = ArgMatches {
        args: Vec::new(),
        subcommand: None,
    };
    assert_eq!(
        parse_command(&matches, &surroundings()),
        Err(CommandError::Cli(CliError::CommandNotRecognized(
            "no subcommand given".to_string()
        )))
    );
}

#[test]
fn unknown_subcommands_cannot_be_read() {
    assert!(try_parse_command(&by_hand("nonsense", &[]), &surroundings()).is_none());
    assert!(try_parse_command(&by_hand("validator-info", &[]), &surroundings()).is_none());
}

#[test]
fn other_modules_read_their_own_arguments() {
    for (name, module) in [
        ("catchup", ModuleParser::Catchup),
        ("nonce", ModuleParser::GetNonce),
        (
            "stake-authorize-withdrawer",
            ModuleParser::StakeAuthorize(solana_cli::command::StakeAuthorize::Withdrawer),
        ),
        (
            "vote-authorize-voter",
            ModuleParser::VoteAuthorize(solana_cli::command::VoteAuthorize::Voter),
        ),
        ("storage-account", ModuleParser::ShowStorageAccount),
    ] {
        assert_eq!(
            parse_command(&by_hand(name, &[]), &surroundings()),
            Ok(Parsed::Module(module))
        );
    }
    let nested = ArgMatches {
        args: Vec::new(),
        subcommand: Some(Box::new(SubCommand {
            name: "validator-info".to_string(),
            matches: by_hand("publish", &[]),
        })),
    };
    assert_eq!(
        parse_command(&nested, &surroundings()),
        Ok(Parsed::Module(ModuleParser::SetValidatorInfo))
    );
}

#[test]
fn commands_without_arguments() {
    for (name, command, require_keypair) in [
        ("cluster-version", CliCommand::ClusterVersion, false),
        ("fees", CliCommand::Fees, false),
        ("genesis-hash", CliCommand::GetGenesisHash, false),
        ("leader-schedule", CliCommand::LeaderSchedule, false),
        ("gossip", CliCommand::ShowGossip, false),
        ("address", CliCommand::Address, true),
    ] {
        assert_eq!(
            parse_command(&by_hand(name, &[]), &surroundings()),
            Ok(Parsed::Command(CliCommandInfo {
                command,
                require_keypair
            }))
        );
    }
}

#[test]
fn missing_arguments_cannot_be_read() {
    for name in [
        "airdrop",
        "cancel",
        "confirm",
        "create-address-with-seed",
        "deploy",
        "pay",
        "send-signature",
        "send-timestamp",
        "transfer",
        "account",
    ] {
        assert!(try_parse_command(&by_hand(name, &[]), &surroundings()).is_none());
    }
    let key = Pubkey::new(&[3; 32]).to_string();
    assert!(try_parse_command(
        &by_hand("send-signature", &[("to", &[&key]), ("process_id", &["?"])]),
        &surroundings()
    )
    .is_none());
    assert!(try_parse_command(
        &by_hand(
            "pay",
            &[("to", &[&key]), ("amount", &["1"]), ("sign_only", &[])]
        ),
        &surroundings()
    )
    .is_none());
    assert!(try_parse_command(
        &by_hand(
            "pay",
            &[("to", &[&key]), ("amount", &["1"]), ("signer", &["a=b"])]
        ),
        &surroundings()
    )
    .is_none());
    assert!(try_parse_command(
        &by_hand(
            "pay",
            &[("to", &[&key]), ("amount", &["1"]), ("witness", &["?"])]
        ),
        &surroundings()
    )
    .is_none());
}

#[test]
fn fractional_lamports_are_refused() {
    let key = Pubkey::new(&[3; 32]).to_string();
    for command in ["pay", "transfer"] {
        assert_eq!(
            parse(&["test", command, &key, "1.5", "lamports"]),
            Err(bad_parameter("Lamports cannot be fractional: 1.5"))
        );
    }
    assert_eq!(
        parse(&["test", "airdrop", "1.5", "lamports"]),
        Err(bad_parameter("Lamports cannot be fractional: 1.5"))
    );
    assert_eq!(
        parse(&["test", "airdrop", "1.5", "SOL"]).unwrap().command,
        CliCommand::Airdrop {
            faucet_host: None,
            faucet_port: 9900,
            lamports: 1_500_000_000,
            use_lamports_unit: false,
        }
    );
}

#[test]
fn faucet_ports_and_hosts() {
    assert_eq!(
        parse(&["test", "airdrop", "1", "--faucet-port", "65536"]),
        Err(bad_parameter(
            "Invalid faucet port: ParseIntError { kind: PosOverflow }"
        ))
    );
    assert_eq!(
        parse(&["test", "airdrop", "1", "--faucet-port", "x"]),
        Err(bad_parameter(
            "Invalid faucet port: ParseIntError { kind: InvalidDigit }"
        ))
    );
    assert_eq!(
        parse(&["test", "airdrop", "1", "--faucet-host", "nowhere"]),
        Err(bad_parameter("Invalid faucet host: \"no such host\""))
    );
    let found = Surroundings {
        faucet_host: Ok(IpAddr::V4([10, 0, 0, 1])),
        now: now(),
    };
    let matches = read(&[
        "test",
        "airdrop",
        "7",
        "lamports",
        "--faucet-host",
        "somewhere",
        "--faucet-port",
        "+65535",
    ]);
    assert_eq!(
        parse_command(&matches, &found),
        Ok(Parsed::Command(CliCommandInfo {
            command: CliCommand::Airdrop {
                faucet_host: Some(IpAddr::V4([10, 0, 0, 1])),
                faucet_port: 65535,
                lamports: 7,
                use_lamports_unit: true,
            },
            require_keypair: true,
        }))
    );
}

#[test]
fn seeds_have_at_most_32_bytes() {
    let fits = "x".repeat(32);
    let longer = "x".repeat(33);
    let wide = "\u{e9}".repeat(17);
    assert!(parse(&["test", "create-address-with-seed", &fits, "VOTE"]).is_ok());
    for seed in [&longer, &wide] {
        assert_eq!(
            parse(&["test", "create-address-with-seed", seed, "VOTE"]),
            Err(bad_parameter(
                "Address seed must not be longer than 32 bytes"
            ))
        );
    }
    let program = Pubkey::new(&[8; 32]);
    assert_eq!(
        parse(&[
            "test",
            "create-address-with-seed",
            "seed",
            &program.to_string()
        ])
        .unwrap()
        .command,
        CliCommand::CreateAddressWithSeed {
            from_pubkey: None,
            seed: "seed".to_string(),
            program_id: program,
        }
    );
    assert!(try_parse_command(
        &by_hand(
            "create-address-with-seed",
            &[("seed", &["seed"]), ("program_id", &["nobody"])]
        ),
        &surroundings()
    )
    .is_none());
}

#[test]
fn bad_signatures_and_authorities_are_refused() {
    assert_eq!(
        parse(&["test", "confirm", "deadbeef"]),
        Err(bad_parameter("Invalid signature"))
    );
    let key = Pubkey::new(&[3; 32]).to_string();
    assert_eq!(
        parse(&["test", "transfer", &key, "1", "--from", &key]),
        Err(bad_parameter("Invalid authority"))
    );
    assert_eq!(
        parse(&["test", "transfer", &key, "1", "--fee-payer", &key]),
        Err(bad_parameter("Invalid authority"))
    );
}

#[test]
fn dates_without_a_zone_are_in_utc() {
    let key = Pubkey::new(&[3; 32]).to_string();
    let plain = parse(&["test", "pay", &key, "1", "--after", "2018-09-19T17:30:59"]).unwrap();
    let zulu = parse(&["test", "pay", &key, "1", "--after", "2018-09-19T17:30:59Z"]).unwrap();
    assert_eq!(plain, zulu);
    match parse(&["test", "pay", &key, "1", "--after", "tomorrow"]) {
        Err(CommandError::Other(text)) => assert!(!text.is_empty()),
        other => panic!("{:?}", other),
    }
}

#[test]
fn the_present_is_told_where_no_date_is_given() {
    let key = Pubkey::new(&[3; 32]);
    assert_eq!(
        parse(&["test", "send-timestamp", &key.to_string(), &key.to_string()])
            .unwrap()
            .command,
        CliCommand::TimeElapsed(key, key, now())
    );
}

#[test]
fn accounts_are_shown_or_written() {
    let key = Pubkey::new(&[3; 32]);
    assert_eq!(
        parse(&["test", "account", &key.to_string(), "-o", "out.bin"]).unwrap(),
        CliCommandInfo {
            command: CliCommand::ShowAccount {
                pubkey: key,
                output_file: Some("out.bin".to_string()),
                use_lamports_unit: false,
            },
            require_keypair: false,
        }
    );
    assert_eq!(
        parse(&["test", "account", &key.to_string(), "--lamports"])
            .unwrap()
            .command,
        CliCommand::ShowAccount {
            pubkey: key,
            output_file: None,
            use_lamports_unit: true,
        }
    );
}

#[test]
fn transfers_take_a_fee_payer_and_a_source() {
    let to = Pubkey::new(&[3; 32]);
    let payer_file = make_tmp_path("payer");
    let payer = solana_sdk::signature::keypair_from_seed(&[5u8; 32]).unwrap();
    solana_sdk::signature::write_keypair_file(&payer, &payer_file).unwrap();
    let info = parse(&[
        "test",
        "transfer",
        &to.to_string(),
        "1",
        "--fee-payer",
        &payer_file,
        "--from",
        &payer_file,
    ])
    .unwrap();
    match info.command {
        CliCommand::Transfer {
            from, fee_payer, ..
        } => {
            assert_eq!(from.unwrap().keypair().secret, [5u8; 32]);
            assert_eq!(fee_payer.unwrap().keypair().secret, [5u8; 32]);
        }
        other => panic!("{:?}", other),
    }
}

#[test]
fn witnesses_may_be_given_with_commas() {
    let to = Pubkey::new(&[3; 32]).to_string();
    let a = Pubkey::new(&[4; 32]);
    let b = Pubkey::new(&[5; 32]);
    let both = format!("{},{}", a.to_string(), b.to_string());
    match parse(&["test", "pay", &to, "1", "--require-signature-from", &both])
        .unwrap()
        .command
    {
        CliCommand::Pay(pay) => assert_eq!(pay.witnesses, Some(vec![a, b])),
        other => panic!("{:?}", other),
    }
}
