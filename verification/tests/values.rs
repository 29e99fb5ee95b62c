//! Keys, dates, amounts, fees and texts by themselves.
use solana_cli::amount::{build_balance_message, parse_amount};
use solana_cli::command::{
    derivation_for, CliCommand, CliConfig, DerivationPath, PubkeySource,
};
use solana_cli::errors::{
    log_instruction_custom_error, BudgetError, ClientError, CliError, CommandError, ErrorDomain,
    SystemError,
};
use solana_cli::fees::{
    check_account_for_fee, check_account_for_multiple_fees, get_blockhash_fee_calculator,
    BlockhashQuery, FeeCalculator,
};
use solana_cli::grammar::{app, ModuleCommands, Section};
use solana_cli::keys::{Blockhash, Keypair, KeypairEq, Pubkey, Signature};
use solana_cli::matches::{parse_signer, required_lamports_from, ArgMatches, ArgValues};
use solana_cli::pay::check_unique_pubkeys;
use solana_cli::route::{find_route, find_validator_info_route, ModuleParser, Route};
use solana_cli::signing::{replace_signatures, return_signers, show_signer, show_signers};
use solana_cli::text::{
    contains_char, cut_at, decimal, joined, parse_u64, starts_with, text_eq, trim_end,
};
use solana_cli::time::{quoted_date, Timestamp};
use solana_cli::transaction::{Message, Transaction};
use solana_sdk::signature::Signer;

fn client_error(custom_code: Option<u32>) -> ClientError {
    ClientError {
        custom_code,
        debug: "failed".to_string(),
    }
}

fn message(num_required_signatures: u8, account_keys: Vec<Pubkey>) -> Message {
    Message {
        num_required_signatures,
        num_readonly_signed_accounts: 0,
        num_readonly_unsigned_accounts: 0,
        account_keys,
        recent_blockhash: Blockhash::new(&[3; 32]),
        instructions: vec![],
    }
}

#[test]
fn keys_read_back_from_their_text() {
    let key = Pubkey::new(&[7; 32]);
    assert_eq!(
        key.to_string(),
        solana_sdk::pubkey::Pubkey::new(&[7; 32]).to_string()
    );
    assert_eq!(Pubkey::parse(&key.to_string()), Some(key));
    assert_eq!(Pubkey::parse("0"), None);
    let hash = Blockhash::new(&[8; 32]);
    assert_eq!(
        hash.to_string(),
        solana_sdk::hash::Hash::new(&[8; 32]).to_string()
    );
    assert_eq!(Blockhash::parse(&hash.to_string()), Some(hash));
    assert_eq!(Blockhash::parse("0"), None);
    let signature = Signature::new(&[9; 64]);
    assert_eq!(
        signature.to_string(),
        solana_sdk::signature::Signature::new(&[9; 64]).to_string()
    );
    assert_eq!(Signature::parse(&signature.to_string()), Some(signature));
    assert_eq!(Signature::parse("deadbeef"), None);
}

#[test]
fn public_halves_are_derived() {
    for seed in [[0u8; 32], [1u8; 32]] {
        let pair = solana_sdk::signature::keypair_from_seed(&seed).unwrap();
        assert_eq!(
            Keypair::from_seed(&seed).pubkey().bytes,
            pair.pubkey().to_bytes()
        );
    }
}

#[test]
fn keypairs_are_compared_by_their_public_halves() {
    let a: KeypairEq = Keypair::from_seed(&[1; 32]).into();
    let b: KeypairEq = Keypair::from_seed(&[1; 32]).into();
    let c: KeypairEq = Keypair::from_seed(&[2; 32]).into();
    assert_eq!(a, b);
    assert_ne!(a, c);
    assert_eq!(a.secret, [1; 32]);
}

#[test]
fn dates() {
    assert_eq!(quoted_date("2018-09-19"), "\"2018-09-19Z\"");
    assert_eq!(quoted_date("2018Z"), "\"2018Z\"");
    let date = Timestamp::parse("2018-09-19T17:30:59").unwrap();
    assert_eq!(date.secs(), 1_537_378_259);
    assert_eq!(date.nanos(), 0);
    assert_eq!(Timestamp::parse("2018-09-19T17:30:59Z"), Ok(date));
    let fine = Timestamp::parse("1969-12-31T23:59:59.25Z").unwrap();
    assert_eq!((fine.secs(), fine.nanos()), (-1, 250_000_000));
    assert!(Timestamp::parse("20180919T17:30:59").is_err());
}

#[test]
fn moments_lie_in_a_range() {
    assert!(Timestamp::new(0, 999_999_999).is_some());
    assert!(Timestamp::new(0, 1_000_000_000).is_none());
    assert!(Timestamp::new(59, 1_999_999_999).is_some());
    assert!(Timestamp::new(-1, 1_500_000_000).is_some());
    assert!(Timestamp::new(59, 2_000_000_000).is_none());
    for secs in [
        -8_334_601_228_801i64,
        -8_334_601_228_800,
        8_210_266_876_799,
        8_210_266_876_800,
    ] {
        assert_eq!(
            Timestamp::new(secs, 0).is_some(),
            chrono::DateTime::from_timestamp(secs, 0).is_some()
        );
    }
}

#[test]
fn amounts_are_shown_in_sol_or_lamports() {
    for (lamports, sol) in [
        (0, "0"),
        (1, "0.000000001"),
        (50, "0.00000005"),
        (1_000_000_000, "1"),
        (1_500_000_000, "1.5"),
        (100_000_000_000, "100"),
        (8_388_607_999_999_999, "8388607.999999999"),
        (123_456_789_012_345, "123456.789012345"),
    ] {
        assert_eq!(build_balance_message(lamports, false, false), sol);
        assert_eq!(
            build_balance_message(lamports, false, true),
            format!("{} SOL", sol)
        );
    }
    assert_eq!(build_balance_message(0, true, true), "0 lamports");
    assert_eq!(build_balance_message(1, true, true), "1 lamport");
    assert_eq!(build_balance_message(2, true, true), "2 lamports");
    assert_eq!(build_balance_message(1, true, false), "1");
    let all = build_balance_message(u64::max_value(), false, false);
    assert!(all.starts_with("18446744073.7"));
}

#[test]
fn shown_lamports_read_back() {
    for lamports in [0, 9, 10, 12_345, u64::max_value()] {
        let text = build_balance_message(lamports, true, false);
        assert_eq!(parse_amount(&text, true), Some(lamports));
    }
}

#[test]
fn amounts_are_read_in_their_unit() {
    assert_eq!(parse_amount("42", true), Some(42));
    assert_eq!(parse_amount("42", false), Some(42_000_000_000));
    assert_eq!(parse_amount("+4000000000", false), Some(4_000_000_000_000_000_000));
    assert_eq!(parse_amount("0.5", false), Some(500_000_000));
    assert_eq!(parse_amount("0.5", true), None);
    assert_eq!(parse_amount("x", false), None);
    assert_eq!(parse_amount("18446744073709551616", true), None);
}

#[test]
fn unreadable_amounts_name_the_amount() {
    let matches = ArgMatches {
        args: vec![ArgValues {
            name: "amount".to_string(),
            values: vec!["1.5".to_string()],
            keypair: None,
        }],
        subcommand: None,
    };
    assert_eq!(
        required_lamports_from(&matches, "lamports", "unit"),
        Err(CliError::BadParameter(
            "Lamports cannot be fractional: 1.5".to_string()
        ))
    );
    assert_eq!(
        required_lamports_from(&matches, "amount", "unit"),
        Ok(1_500_000_000)
    );

    // Under another name, its own value is quoted.
    let arg = |name: &str, value: &str| ArgValues {
        name: name.to_string(),
        values: vec![value.to_string()],
        keypair: None,
    };
    let matches = ArgMatches {
        args: vec![arg("lamports", "2.5"), arg("unit", "lamports")],
        subcommand: None,
    };
    assert_eq!(
        required_lamports_from(&matches, "lamports", "unit"),
        Err(CliError::BadParameter(
            "Lamports cannot be fractional: 2.5".to_string()
        ))
    );
}

#[test]
fn derivation_paths_given_apart_come_first() {
    let given = DerivationPath {
        account: Some(1),
        change: None,
    };
    let own = DerivationPath {
        account: Some(2),
        change: Some(3),
    };
    assert_eq!(derivation_for(Some(given), own), given);
    assert_eq!(derivation_for(None, own), own);
}

#[test]
fn texts() {
    assert!(text_eq("a", "a"));
    assert!(!text_eq("a", "A"));
    assert!(starts_with("usb://x", "usb://"));
    assert!(!starts_with("usb:/", "usb://"));
    assert!(contains_char("2018Z", 'Z'));
    assert!(!contains_char("2018", 'Z'));
    assert_eq!(cut_at("a=b=c", '='), ("a", Some("b=c")));
    assert_eq!(cut_at("abc", '='), ("abc", None));
    assert_eq!(trim_end("1.500", '0'), "1.5");
    assert_eq!(trim_end("000", '0'), "");
    assert_eq!(joined("a", "b"), "ab");
    assert_eq!(decimal(0), "0");
    assert_eq!(decimal(u64::max_value()), "18446744073709551615");
    assert_eq!(parse_u64("007"), Some(7));
    assert_eq!(parse_u64("+"), None);
    assert_eq!(parse_u64(""), None);
    assert_eq!(parse_u64("-1"), None);
    assert_eq!(parse_u64("99999999999999999999"), None);
}

#[test]
fn fees_are_per_signature() {
    let price = FeeCalculator {
        lamports_per_signature: 7,
    };
    let one = message(1, vec![]);
    let three = message(3, vec![]);
    assert_eq!(price.calculate_fee(&three), 21);
    let poor = Err(CommandError::Cli(CliError::InsufficientFundsForFee));
    assert_eq!(check_account_for_fee(Ok(Some(21)), &price, &three), Ok(()));
    assert_eq!(check_account_for_fee(Ok(Some(20)), &price, &three), poor);
    assert_eq!(check_account_for_fee(Ok(None), &price, &three), poor);
    assert_eq!(
        check_account_for_fee(Ok(Some(0)), &FeeCalculator::default(), &three),
        poor
    );
    assert_eq!(
        check_account_for_fee(Err(client_error(None)), &price, &three),
        Err(CommandError::Client(client_error(None)))
    );
    let both = vec![&one, &three];
    assert_eq!(
        check_account_for_multiple_fees(Ok(Some(28)), &price, &both),
        Ok(())
    );
    assert_eq!(
        check_account_for_multiple_fees(Ok(Some(27)), &price, &both),
        poor
    );
}

#[test]
fn blockhashes_are_given_or_recent() {
    let given = Blockhash::new(&[1; 32]);
    let recent = Blockhash::new(&[2; 32]);
    let price = FeeCalculator {
        lamports_per_signature: 7,
    };
    let answer = Ok((recent, price));
    assert_eq!(
        get_blockhash_fee_calculator(Err(client_error(None)), true, Some(given)),
        Ok((given, FeeCalculator::default()))
    );
    assert_eq!(
        get_blockhash_fee_calculator(answer.clone(), false, Some(given)),
        Ok((given, price))
    );
    assert_eq!(
        get_blockhash_fee_calculator(answer.clone(), true, None),
        Ok((recent, price))
    );
    assert_eq!(
        get_blockhash_fee_calculator(Err(client_error(None)), false, None),
        Err(CommandError::Client(client_error(None)))
    );
    assert_eq!(
        BlockhashQuery::new(Some(given), true),
        BlockhashQuery::Given(given, FeeCalculator::default())
    );
    assert_eq!(
        BlockhashQuery::new(Some(given), false).get_blockhash_fee_calculator((recent, price)),
        (given, price)
    );
    assert_eq!(
        BlockhashQuery::new(None, false).get_blockhash_fee_calculator((recent, price)),
        (recent, price)
    );
    assert_eq!(BlockhashQuery::default().given(), None);
}

#[test]
fn codes_stand_for_the_errors_of_their_program() {
    let fails = |code, domain| log_instruction_custom_error(Err(client_error(code)), domain);
    assert_eq!(
        fails(Some(5), ErrorDomain::System),
        Err(CommandError::System(SystemError::AddressWithSeedMismatch))
    );
    assert_eq!(
        fails(Some(0), ErrorDomain::Budget),
        Err(CommandError::Budget(BudgetError::DestinationMissing))
    );
    assert_eq!(
        fails(Some(5), ErrorDomain::Budget),
        Err(CommandError::Client(client_error(Some(5))))
    );
    assert_eq!(
        fails(None, ErrorDomain::System),
        Err(CommandError::Client(client_error(None)))
    );
    assert_eq!(
        log_instruction_custom_error(Ok("sig".to_string()), ErrorDomain::System),
        Ok("sig".to_string())
    );
}

#[test]
fn errors_are_called_invalid() {
    let error = CliError::KeypairFileNotFound("id.json".to_string());
    assert_eq!(error.to_string(), "invalid");
    assert_eq!(error.description(), "invalid");
}

#[test]
fn identical_pubkeys_are_named() {
    let a = Pubkey::new(&[1; 32]);
    let b = Pubkey::new(&[2; 32]);
    assert_eq!(
        check_unique_pubkeys((&a, "one".to_string()), (&b, "two".to_string())),
        Ok(())
    );
    assert_eq!(
        check_unique_pubkeys((&a, "one".to_string()), (&a, "two".to_string())),
        Err(CliError::BadParameter(
            "Identical pubkeys found: `one` and `two` must be unique".to_string()
        ))
    );
}

#[test]
fn signers_are_printed_and_read_back() {
    let key = Pubkey::new(&[1; 32]);
    let signature = Signature::new(&[2; 64]);
    let text = show_signer(&key, &signature);
    assert_eq!(
        text,
        format!("{}={}", key.to_string(), signature.to_string())
    );
    assert_eq!(parse_signer(&text), Some((key, signature)));
    assert_eq!(
        parse_signer(&format!("{}=more", text)),
        Some((key, signature))
    );
    assert_eq!(parse_signer(&key.to_string()), None);
    let tx = Transaction {
        signatures: vec![signature],
        message: message(1, vec![key, key]),
    };
    assert_eq!(show_signers(&tx), [text.clone()]);
    assert_eq!(
        return_signers(&tx).unwrap(),
        format!(
            "{{\"blockhash\":\"{}\",\"signers\":[\"{}\"]}}",
            Blockhash::new(&[3; 32]).to_string(),
            text
        )
    );
}

#[test]
fn replaced_signatures_are_checked() {
    let pair = solana_sdk::signature::keypair_from_seed(&[4; 32]).unwrap();
    let key = Keypair::from_seed(&[4; 32]).pubkey();
    let blank = || Transaction {
        signatures: vec![Signature::new(&[0; 64])],
        message: message(1, vec![Pubkey::new(&[9; 32]), Pubkey::new(&[8; 32])]),
    };
    let wanted = message(1, vec![key, Pubkey::new(&[8; 32])]);
    let bytes = solana_sdk::message::Message::new_with_compiled_instructions(
        1,
        0,
        0,
        wanted
            .account_keys
            .iter()
            .map(|key| solana_sdk::pubkey::Pubkey::new(&key.bytes))
            .collect(),
        solana_sdk::hash::Hash::new(&[3; 32]),
        vec![],
    )
    .serialize();
    let signature = Signature::new(&pair.sign_message(&bytes).into());
    let mut tx = blank();
    assert_eq!(
        replace_signatures(&mut tx, &vec![(key, signature)]),
        Ok("".to_string())
    );
    assert_eq!(
        tx,
        Transaction {
            signatures: vec![signature],
            message: wanted,
        }
    );
    let mut tx = blank();
    assert!(replace_signatures(&mut tx, &vec![(key, Signature::new(&[5; 64]))]).is_err());
    assert_eq!(tx.signatures, [Signature::new(&[5; 64])]);
    let mut tx = blank();
    assert!(replace_signatures(&mut tx, &vec![]).is_err());
    assert_eq!(tx, blank());
}

#[test]
fn names_lead_to_their_commands() {
    assert_eq!(find_route("pay"), Some(Route::Pay));
    assert_eq!(
        find_route("ping"),
        Some(Route::Module(ModuleParser::Ping))
    );
    assert_eq!(find_route(""), None);
    assert_eq!(
        find_validator_info_route("get"),
        Some(ModuleParser::GetValidatorInfo)
    );
    assert_eq!(find_validator_info_route("set"), None);
}

#[test]
fn the_grammar_describes_what_is_routed() {
    let spec = app("solana", "about", "1.0");
    assert_eq!((spec.name, spec.about, spec.version), ("solana", "about", "1.0"));
    let mut modules = Vec::new();
    let mut names = Vec::new();
    for section in &spec.sections {
        match section {
            Section::Command(command) => {
                assert!(find_route(command.name).is_some());
                names.push(command.name);
            }
            Section::Module(module) => modules.push(*module),
        }
    }
    assert_eq!(
        names,
        [
            "address",
            "airdrop",
            "balance",
            "cancel",
            "confirm",
            "create-address-with-seed",
            "deploy",
            "pay",
            "send-signature",
            "send-timestamp",
            "transfer",
            "account"
        ]
    );
    assert_eq!(
        modules,
        [
            ModuleCommands::ClusterQuery,
            ModuleCommands::Nonce,
            ModuleCommands::Stake,
            ModuleCommands::Storage,
            ModuleCommands::ValidatorInfo,
            ModuleCommands::Vote
        ]
    );
}

#[test]
fn configurations_start_with_defaults() {
    assert_eq!(
        CliConfig::keypair_path_in("/home/me", "/"),
        "/home/me/.config/solana/id.json"
    );
    assert_eq!(
        CliConfig::keypair_path_in("/", "/"),
        "/.config/solana/id.json"
    );
    assert_eq!(
        CliConfig::keypair_path_in("C:\\me", "\\"),
        "C:\\me\\.config\\solana\\id.json"
    );
    assert_eq!(CliConfig::default_json_rpc_url(), "http://127.0.0.1:8899");
    let config = CliConfig::new_default(Keypair::from_seed(&[1; 32]), "id.json".to_string());
    assert_eq!(
        config.command,
        CliCommand::Balance {
            pubkey: Some(Pubkey::default()),
            use_lamports_unit: false
        }
    );
    assert_eq!(config.keypair_path.as_deref(), Some("id.json"));
    assert!(!config.verbose);
    assert_eq!(
        config.pubkey(),
        PubkeySource::Local(Keypair::from_seed(&[1; 32]).pubkey())
    );
}

#[test]
fn configurations_need_a_home_directory() {
    let keypair = Keypair::from_seed(&[1; 32]);
    let home = Some("/home/me".to_string());
    let path = Some("/home/me/.config/solana/id.json".to_string());
    assert_eq!(CliConfig::keypair_path_for(home.clone(), "/"), path);
    assert_eq!(CliConfig::keypair_path_for(None, "/"), None);
    let config = CliConfig::default_for(home, keypair, "/").unwrap();
    assert_eq!(config.keypair_path, path);
    assert_eq!(config.keypair.secret, [1; 32]);
    assert_eq!(config.json_rpc_url, "http://127.0.0.1:8899");
    assert!(CliConfig::default_for(None, keypair, "/").is_none());
}

#[test]
fn default_configurations_have_new_keys() {
    if let (Some(a), Some(b)) = (CliConfig::default("/"), CliConfig::default("/")) {
        assert_ne!(a.keypair.secret, b.keypair.secret);
        let path = a.keypair_path.unwrap();
        assert!(path.ends_with("/.config/solana/id.json"));
        assert_eq!(CliConfig::default_keypair_path("/"), Some(path));
    }
}
