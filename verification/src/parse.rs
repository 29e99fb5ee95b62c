//! From the arguments of a command line to the command that it asks for.
use crate::authority::{optional_list, SigningAuthority};
use crate::command::{CliCommand, CliCommandInfo, IpAddr, PayCommand};
use crate::errors::{CliError, CommandError};
use crate::fees::BlockhashQuery;
use crate::instruction::{
    stake_id, stake_program_id, storage_id, storage_program_id, vote_id, vote_program_id,
};
use crate::keys::{signature_parsed, Pubkey, Signature};
use crate::matches::{
    fractional_lamports, pubkeys_parsed, required_lamports_from, signers_parsed, ArgMatches,
};
use crate::route::{
    find_route, find_validator_info_route, route, validator_info_route, ModuleParser, Route,
};
use crate::text::{joined, optional_text, text_eq, unsigned_value};
use crate::time::{date_json, date_parsed, is_date_of, Timestamp};
use vstd::prelude::*;

verus! {

/// What a command line comes to: a command, or arguments for another module to read.
#[derive(Debug, PartialEq)]
pub enum Parsed {
    Command(CliCommandInfo),
    Module(ModuleParser),
}

/// What reading the arguments needs from outside.
#[derive(Debug)]
pub struct Surroundings {
    /// The address of the host that the argument `faucet_host` names, or why it has none.
    pub faucet_host: Result<IpAddr, String>,
    /// The present moment.
    pub now: Timestamp,
}

/// The text of a port that is none, as the standard library's error describes it.
pub uninterp spec fn port_error(text: Seq<char>) -> Seq<char>;

/// `str::parse` into `u16`.  Claimed: the number that the text spells in decimal where it fits,
/// and an error whose text depends on the text alone where it does not.
#[verifier::external_body]
fn read_port(text: &str) -> (r: Result<u16, String>)
    ensures
        match unsigned_value(text@) {
            Some(port) if port <= u16::MAX => r == Ok::<u16, String>(port as u16),
            _ => r matches Err(error) && error@ == port_error(text@),
        },
{
    text.parse::<u16>().map_err(|error| format!("{:?}", error))
}

/// The number of bytes of a text.
pub open spec fn byte_len(text: Seq<char>) -> nat {
    vstd::utf8::encode_utf8(text).len()
}

/// The error is the command line's own complaint about a parameter.
pub open spec fn is_bad_parameter(error: CliError, text: Seq<char>) -> bool {
    error matches CliError::BadParameter(t) && t@ == text
}

/// The result is the command line's own complaint about a parameter.
pub open spec fn complains(r: Result<CliCommandInfo, CommandError>, text: Seq<char>) -> bool {
    r matches Err(CommandError::Cli(error)) && is_bad_parameter(error, text)
}

/// The command and whether it needs the client's key pair.
fn ask_for(command: CliCommand, require_keypair: bool) -> (r: Result<CliCommandInfo, CommandError>)
    ensures
        r matches Ok(info) && info.command == command && info.require_keypair == require_keypair,
{
    Ok(CliCommandInfo { command, require_keypair })
}

fn complain(text: String) -> (r: Result<CliCommandInfo, CommandError>)
    ensures
        complains(r, text@),
{
    Err(CommandError::Cli(CliError::BadParameter(text)))
}

// The program that a derived address is for.

/// The program that the argument `program_id` names: one of the keywords, or a public key.
pub open spec fn program_of(matches: ArgMatches) -> Option<Pubkey> {
    if matches.value("program_id"@) == Some("STAKE"@) {
        Some(stake_program_id())
    } else if matches.value("program_id"@) == Some("VOTE"@) {
        Some(vote_program_id())
    } else if matches.value("program_id"@) == Some("STORAGE"@) {
        Some(storage_program_id())
    } else if matches.value("program_id"@) is Some {
        matches.pubkey("program_id"@)
    } else {
        None
    }
}

fn find_program(matches: &ArgMatches) -> (r: Option<Pubkey>)
    ensures
        r == program_of(*matches),
{
    match matches.value_of("program_id") {
        Some(name) => if text_eq(name, "STAKE") {
            Some(stake_id())
        } else if text_eq(name, "VOTE") {
            Some(vote_id())
        } else if text_eq(name, "STORAGE") {
            Some(storage_id())
        } else {
            matches.pubkey_of("program_id")
        },
        None => None,
    }
}

/// Whether the arguments give what a derived address needs.
pub open spec fn admits_address(matches: ArgMatches) -> bool {
    program_of(matches) is Some && matches.value("seed"@) is Some
}

/// The command that derives an address.  A seed of more than 32 bytes is refused.
pub open spec fn is_create_address(
    r: Result<CliCommandInfo, CommandError>,
    matches: ArgMatches,
) -> bool {
    if byte_len(matches.value("seed"@)->0) > 32 {
        complains(r, "Address seed must not be longer than 32 bytes"@)
    } else {
        &&& r matches Ok(info)
        &&& info.command matches CliCommand::CreateAddressWithSeed {
            from_pubkey,
            seed,
            program_id,
        }
        &&& from_pubkey == matches.pubkey("from"@)
        &&& Some(seed@) == matches.value("seed"@)
        &&& Some(program_id) == program_of(matches)
        &&& info.require_keypair == matches.pubkey("from"@) is None
    }
}

/// The outcome with its error as the error of a command.
pub open spec fn outcome(r: Result<CliCommandInfo, CliError>) -> Result<CliCommandInfo, CommandError> {
    match r {
        Ok(info) => Ok(info),
        Err(error) => Err(CommandError::Cli(error)),
    }
}

/// The command that derives an address.
pub fn parse_create_address_with_seed(matches: &ArgMatches) -> (r: Result<CliCommandInfo, CliError>)
    requires
        admits_address(*matches),
    ensures
        is_create_address(outcome(r), *matches),
{
    let from_pubkey = matches.pubkey_of("from");
    let require_keypair = from_pubkey.is_none();
    let program_id = find_program(matches).unwrap();
    let seed = matches.value_of("seed").unwrap();
    if seed.as_bytes().len() > 32 {
        return Err(
            CliError::BadParameter("Address seed must not be longer than 32 bytes".to_owned()),
        );
    }
    Ok(
        CliCommandInfo {
            command: CliCommand::CreateAddressWithSeed {
                from_pubkey,
                seed: seed.to_owned(),
                program_id,
            },
            require_keypair,
        },
    )
}

// Airdrops and amounts.

/// The text of the error for a port that is none.
pub open spec fn bad_port(text: Seq<char>) -> Seq<char> {
    "Invalid faucet port: "@ + port_error(text)
}

/// The port that the argument `faucet_port` gives.
pub open spec fn port_of(matches: ArgMatches) -> Option<u16> {
    match unsigned_value(matches.value("faucet_port"@)->0) {
        Some(port) if port <= u16::MAX => Some(port as u16),
        _ => None,
    }
}

/// Whether the arguments give what an airdrop needs: a port, and an amount unless the port or the
/// host is refused first.
pub open spec fn admits_airdrop(matches: ArgMatches, host: Result<IpAddr, String>) -> bool {
    &&& matches.value("faucet_port"@) is Some
    &&& port_of(matches) is Some && !(matches.value("faucet_host"@) is Some && host is Err)
        ==> matches.value("amount"@) is Some
}

/// The command of an airdrop, or the first of the arguments that is refused: the port, the host,
/// the amount.
pub open spec fn is_airdrop(
    r: Result<CliCommandInfo, CommandError>,
    matches: ArgMatches,
    host: Result<IpAddr, String>,
) -> bool {
    if port_of(matches) is None {
        complains(r, bad_port(matches.value("faucet_port"@)->0))
    } else if matches.value("faucet_host"@) is Some && host is Err {
        complains(r, "Invalid faucet host: "@ + host->Err_0@)
    } else if matches.amount("amount"@, "unit"@) is None {
        complains(r, fractional_lamports(matches.value("amount"@)->0))
    } else {
        &&& r matches Ok(info)
        &&& info.require_keypair
        &&& info.command == (CliCommand::Airdrop {
            faucet_host: if matches.value("faucet_host"@) is Some {
                Some(host->Ok_0)
            } else {
                None
            },
            faucet_port: port_of(matches)->0,
            lamports: matches.amount("amount"@, "unit"@)->0,
            use_lamports_unit: matches.value("unit"@) == Some("lamports"@),
        })
    }
}

fn parse_airdrop(matches: &ArgMatches, host: &Result<IpAddr, String>) -> (r: Option<
    Result<CliCommandInfo, CommandError>,
>)
    ensures
        r is Some <==> admits_airdrop(*matches, *host),
        r matches Some(outcome) ==> is_airdrop(outcome, *matches, *host),
{
    let port_text = match matches.value_of("faucet_port") {
        Some(text) => text,
        None => {
            return None;
        },
    };
    let faucet_port: u16 = match read_port(port_text) {
        Ok(port) => port,
        Err(error) => {
            return Some(complain(joined("Invalid faucet port: ", error.as_str())));
        },
    };
    let faucet_host = if matches.value_of("faucet_host").is_some() {
        match host {
            Ok(address) => Some(*address),
            Err(error) => {
                return Some(complain(joined("Invalid faucet host: ", error.as_str())));
            },
        }
    } else {
        None
    };
    if matches.value_of("amount").is_none() {
        return None;
    }
    match required_lamports_from(matches, "amount", "unit") {
        Ok(lamports) => Some(
            ask_for(
                CliCommand::Airdrop {
                    faucet_host,
                    faucet_port,
                    lamports,
                    use_lamports_unit: matches.value_is("unit", "lamports"),
                },
                true,
            ),
        ),
        Err(error) => Some(Err(CommandError::Cli(error))),
    }
}

// Dates.

/// The date that the argument `name` gives, where it was given.
pub open spec fn is_date_argument(
    date: Option<Timestamp>,
    matches: ArgMatches,
    name: Seq<char>,
) -> bool {
    match date {
        Some(date) => matches.present(name) && is_date_of(Ok(date), matches.value(name)->0),
        None => !matches.present(name),
    }
}

/// Whether the argument `name` was given and is no date.
pub open spec fn is_no_date(matches: ArgMatches, name: Seq<char>) -> bool {
    matches.present(name) && date_parsed(date_json(matches.value(name)->0)) is Err
}

/// The error of an argument that is no date.
pub open spec fn rejects_date(
    r: Result<CliCommandInfo, CommandError>,
    matches: ArgMatches,
    name: Seq<char>,
) -> bool {
    r matches Err(CommandError::Other(text)) && date_parsed(date_json(matches.value(name)->0))
        == Err::<(i64, u32), Seq<char>>(text@)
}

fn parse_date(matches: &ArgMatches, name: &str) -> (r: Option<Result<Option<Timestamp>, String>>)
    ensures
        r is Some <==> (matches.present(name@) ==> matches.value(name@) is Some),
        match r {
            Some(Ok(date)) => is_date_argument(date, *matches, name@) && !is_no_date(
                *matches,
                name@,
            ),
            Some(Err(text)) => is_no_date(*matches, name@) && date_parsed(
                date_json(matches.value(name@)->0),
            ) == Err::<(i64, u32), Seq<char>>(text@),
            None => true,
        },
{
    if !matches.is_present(name) {
        return Some(Ok(None));
    }
    match matches.value_of(name) {
        Some(text) => match Timestamp::parse(text) {
            Ok(date) => Some(Ok(Some(date))),
            Err(error) => Some(Err(error)),
        },
        None => None,
    }
}

// Signing elsewhere.

/// The signers that the arguments give.
pub open spec fn signers_of(matches: ArgMatches) -> Option<Seq<(Pubkey, Signature)>> {
    match matches.all_values("signer"@) {
        Some(list) => signers_parsed(list),
        None => None,
    }
}

/// Whether the arguments about signing elsewhere can be read: each signer is one, and whoever
/// only signs gives the blockhash to sign at.
pub open spec fn admits_offline(matches: ArgMatches) -> bool {
    &&& matches.all_values("signer"@) matches Some(list) ==> signers_parsed(list) is Some
    &&& matches.present("sign_only"@) ==> matches.blockhash_value("blockhash"@) is Some
}

/// The signer that the argument `name` gives, where it was given.
pub open spec fn authority_of(matches: ArgMatches, name: Seq<char>) -> Option<SigningAuthority> {
    if matches.present(name) {
        SigningAuthority::from_matches(matches, name, signers_of(matches))
    } else {
        None
    }
}

/// Whether the argument `name` was given and is no signer.
pub open spec fn is_no_authority(matches: ArgMatches, name: Seq<char>) -> bool {
    matches.present(name) && authority_of(matches, name) is None
}

/// The blockhash query that the arguments give.
pub open spec fn query_of(matches: ArgMatches) -> BlockhashQuery {
    BlockhashQuery::spec_new(
        matches.blockhash_value("blockhash"@),
        matches.present("sign_only"@),
    )
}

fn find_query(matches: &ArgMatches) -> (r: Option<BlockhashQuery>)
    ensures
        r is Some <==> (matches.present("sign_only"@) ==> matches.blockhash_value(
            "blockhash"@,
        ) is Some),
        r matches Some(query) ==> query == query_of(*matches),
{
    let blockhash = matches.blockhash_value_of("blockhash");
    let sign_only = matches.is_present("sign_only");
    if sign_only && blockhash.is_none() {
        None
    } else {
        Some(BlockhashQuery::new(blockhash, sign_only))
    }
}

fn find_authority(
    matches: &ArgMatches,
    name: &str,
    signers: &Option<Vec<(Pubkey, Signature)>>,
) -> (r: Result<Option<SigningAuthority>, CommandError>)
    requires
        optional_list(*signers) == signers_of(*matches),
    ensures
        match r {
            Ok(authority) => !is_no_authority(*matches, name@) && authority == authority_of(
                *matches,
                name@,
            ),
            Err(CommandError::Cli(error)) => is_no_authority(*matches, name@) && is_bad_parameter(
                error,
                "Invalid authority"@,
            ),
            Err(_) => false,
        },
{
    match SigningAuthority::new_from_matches(matches, name, signers) {
        Ok(authority) => Ok(authority),
        Err(error) => Err(CommandError::Cli(error)),
    }
}

// Payments.

/// The witnesses that the arguments give.
pub open spec fn witnesses_of(matches: ArgMatches) -> Option<Seq<Pubkey>> {
    match matches.all_values("witness"@) {
        Some(list) => pubkeys_parsed(list),
        None => None,
    }
}

/// Whether the arguments give what a payment needs, up to the first that is refused.
pub open spec fn admits_pay(matches: ArgMatches) -> bool {
    &&& matches.value("amount"@) is Some
    &&& matches.amount("amount"@, "unit"@) is Some ==> {
        &&& matches.pubkey("to"@) is Some
        &&& matches.present("timestamp"@) ==> matches.value("timestamp"@) is Some
        &&& !is_no_date(matches, "timestamp"@) ==> {
            &&& matches.all_values("witness"@) matches Some(list) ==> pubkeys_parsed(list) is Some
            &&& admits_offline(matches)
        }
    }
}

/// `pay` is the payment that the arguments describe.
pub open spec fn describes_pay(pay: PayCommand, matches: ArgMatches) -> bool {
    &&& Some(pay.lamports) == matches.amount("amount"@, "unit"@)
    &&& Some(pay.to) == matches.pubkey("to"@)
    &&& is_date_argument(pay.timestamp, matches, "timestamp"@)
    &&& pay.timestamp_pubkey == matches.pubkey_value("timestamp_pubkey"@)
    &&& optional_list(pay.witnesses) == witnesses_of(matches)
    &&& pay.cancelable == matches.present("cancelable"@)
    &&& pay.sign_only == matches.present("sign_only"@)
    &&& optional_list(pay.signers) == signers_of(matches)
    &&& pay.blockhash_query == query_of(matches)
    &&& pay.nonce_account == matches.pubkey("nonce"@)
    &&& pay.nonce_authority == authority_of(matches, "nonce_authority"@)
}

/// The command of a payment, or the first of the arguments that is refused: the amount, the date,
/// the nonce authority.
pub open spec fn is_pay(r: Result<CliCommandInfo, CommandError>, matches: ArgMatches) -> bool {
    if matches.amount("amount"@, "unit"@) is None {
        complains(r, fractional_lamports(matches.value("amount"@)->0))
    } else if is_no_date(matches, "timestamp"@) {
        rejects_date(r, matches, "timestamp"@)
    } else if is_no_authority(matches, "nonce_authority"@) {
        complains(r, "Invalid authority"@)
    } else {
        &&& r matches Ok(info)
        &&& info.require_keypair
        &&& info.command matches CliCommand::Pay(pay)
        &&& describes_pay(pay, matches)
    }
}

fn parse_pay(matches: &ArgMatches) -> (r: Option<Result<CliCommandInfo, CommandError>>)
    ensures
        r is Some <==> admits_pay(*matches),
        r matches Some(outcome) ==> is_pay(outcome, *matches),
{
    if matches.value_of("amount").is_none() {
        return None;
    }
    let lamports: u64 = match required_lamports_from(matches, "amount", "unit") {
        Ok(lamports) => lamports,
        Err(error) => {
            return Some(Err(CommandError::Cli(error)));
        },
    };
    let to = match matches.pubkey_of("to") {
        Some(to) => to,
        None => {
            return None;
        },
    };
    let timestamp = match parse_date(matches, "timestamp") {
        Some(Ok(date)) => date,
        Some(Err(text)) => {
            return Some(Err(CommandError::Other(text)));
        },
        None => {
            return None;
        },
    };
    let timestamp_pubkey = matches.pubkey_value_of("timestamp_pubkey");
    let witnesses = match matches.pubkeys_of("witness") {
        Some(witnesses) => witnesses,
        None => {
            return None;
        },
    };
    let signers = match matches.pubkeys_sigs_of("signer") {
        Some(signers) => signers,
        None => {
            return None;
        },
    };
    let blockhash_query = match find_query(matches) {
        Some(query) => query,
        None => {
            return None;
        },
    };
    let nonce_authority = match find_authority(matches, "nonce_authority", &signers) {
        Ok(authority) => authority,
        Err(error) => {
            return Some(Err(error));
        },
    };
    let pay = PayCommand {
        lamports,
        to,
        timestamp,
        timestamp_pubkey,
        witnesses,
        cancelable: matches.is_present("cancelable"),
        sign_only: matches.is_present("sign_only"),
        signers,
        blockhash_query,
        nonce_account: matches.pubkey_of("nonce"),
        nonce_authority,
    };
    Some(ask_for(CliCommand::Pay(pay), true))
}

// Transfers.

/// Whether the arguments give what a transfer needs, up to the first that is refused.
pub open spec fn admits_transfer(matches: ArgMatches) -> bool {
    &&& matches.value("amount"@) is Some
    &&& matches.amount("amount"@, "unit"@) is Some ==> {
        &&& matches.pubkey("to"@) is Some
        &&& admits_offline(matches)
    }
}

/// The command of a transfer, or the first of the arguments that is refused: the amount, or one
/// of the signers.
pub open spec fn is_transfer(r: Result<CliCommandInfo, CommandError>, matches: ArgMatches) -> bool {
    if matches.amount("amount"@, "unit"@) is None {
        complains(r, fractional_lamports(matches.value("amount"@)->0))
    } else if is_no_authority(matches, "nonce_authority"@) || is_no_authority(
        matches,
        "fee_payer"@,
    ) || is_no_authority(matches, "from"@) {
        complains(r, "Invalid authority"@)
    } else {
        &&& r matches Ok(info)
        &&& info.require_keypair
        &&& info.command matches CliCommand::Transfer {
            lamports,
            to,
            from,
            sign_only,
            signers,
            blockhash_query,
            nonce_account,
            nonce_authority,
            fee_payer,
        }
        &&& Some(lamports) == matches.amount("amount"@, "unit"@)
        &&& Some(to) == matches.pubkey("to"@)
        &&& from == authority_of(matches, "from"@)
        &&& sign_only == matches.present("sign_only"@)
        &&& optional_list(signers) == signers_of(matches)
        &&& blockhash_query == query_of(matches)
        &&& nonce_account == matches.pubkey("nonce"@)
        &&& nonce_authority == authority_of(matches, "nonce_authority"@)
        &&& fee_payer == authority_of(matches, "fee_payer"@)
    }
}

fn parse_transfer(matches: &ArgMatches) -> (r: Option<Result<CliCommandInfo, CommandError>>)
    ensures
        r is Some <==> admits_transfer(*matches),
        r matches Some(outcome) ==> is_transfer(outcome, *matches),
{
    if matches.value_of("amount").is_none() {
        return None;
    }
    let lamports: u64 = match required_lamports_from(matches, "amount", "unit") {
        Ok(lamports) => lamports,
        Err(error) => {
            return Some(Err(CommandError::Cli(error)));
        },
    };
    let to = match matches.pubkey_of("to") {
        Some(to) => to,
        None => {
            return None;
        },
    };
    let signers = match matches.pubkeys_sigs_of("signer") {
        Some(signers) => signers,
        None => {
            return None;
        },
    };
    let blockhash_query = match find_query(matches) {
        Some(query) => query,
        None => {
            return None;
        },
    };
    let nonce_authority = match find_authority(matches, "nonce_authority", &signers) {
        Ok(authority) => authority,
        Err(error) => {
            return Some(Err(error));
        },
    };
    let fee_payer = match find_authority(matches, "fee_payer", &signers) {
        Ok(authority) => authority,
        Err(error) => {
            return Some(Err(error));
        },
    };
    let from = match find_authority(matches, "from", &signers) {
        Ok(authority) => authority,
        Err(error) => {
            return Some(Err(error));
        },
    };
    Some(
        ask_for(
            CliCommand::Transfer {
                lamports,
                to,
                from,
                sign_only: matches.is_present("sign_only"),
                signers,
                blockhash_query,
                nonce_account: matches.pubkey_of("nonce"),
                nonce_authority,
                fee_payer,
            },
            true,
        ),
    )
}

// The smaller commands.

/// The command that asks for a balance.
pub open spec fn is_balance(r: Result<CliCommandInfo, CommandError>, matches: ArgMatches) -> bool {
    &&& r matches Ok(info)
    &&& info.command == (CliCommand::Balance {
        pubkey: matches.pubkey("pubkey"@),
        use_lamports_unit: matches.present("lamports"@),
    })
    &&& info.require_keypair == matches.pubkey("pubkey"@) is None
}

fn parse_balance(matches: &ArgMatches) -> (r: Result<CliCommandInfo, CommandError>)
    ensures
        is_balance(r, *matches),
{
    let pubkey = matches.pubkey_of("pubkey");
    let require_keypair = pubkey.is_none();
    ask_for(
        CliCommand::Balance { pubkey, use_lamports_unit: matches.is_present("lamports") },
        require_keypair,
    )
}

/// The command that asks after a transaction.  A signature that is none is refused.
pub open spec fn is_confirm(r: Result<CliCommandInfo, CommandError>, matches: ArgMatches) -> bool {
    match signature_parsed(matches.value("signature"@)->0) {
        Some(signature) => {
            &&& r matches Ok(info)
            &&& info.command == CliCommand::Confirm(signature)
            &&& !info.require_keypair
        },
        None => complains(r, "Invalid signature"@),
    }
}

fn parse_confirm(matches: &ArgMatches) -> (r: Option<Result<CliCommandInfo, CommandError>>)
    ensures
        r is Some <==> matches.value("signature"@) is Some,
        r matches Some(outcome) ==> is_confirm(outcome, *matches),
{
    match matches.value_of("signature") {
        Some(text) => match Signature::parse(text) {
            Some(signature) => Some(ask_for(CliCommand::Confirm(signature), false)),
            None => Some(complain("Invalid signature".to_owned())),
        },
        None => None,
    }
}

/// The command that shows an account.
pub open spec fn is_account(r: Result<CliCommandInfo, CommandError>, matches: ArgMatches) -> bool {
    &&& r matches Ok(info)
    &&& !info.require_keypair
    &&& info.command matches CliCommand::ShowAccount { pubkey, output_file, use_lamports_unit }
    &&& Some(pubkey) == matches.pubkey("account_pubkey"@)
    &&& optional_text(output_file) == matches.value("output_file"@)
    &&& use_lamports_unit == matches.present("lamports"@)
}

fn parse_account(matches: &ArgMatches) -> (r: Option<Result<CliCommandInfo, CommandError>>)
    ensures
        r is Some <==> matches.pubkey("account_pubkey"@) is Some,
        r matches Some(outcome) ==> is_account(outcome, *matches),
{
    match matches.pubkey_of("account_pubkey") {
        Some(pubkey) => {
            let output_file = match matches.value_of("output_file") {
                Some(path) => Some(path.to_owned()),
                None => None,
            };
            Some(
                ask_for(
                    CliCommand::ShowAccount {
                        pubkey,
                        output_file,
                        use_lamports_unit: matches.is_present("lamports"),
                    },
                    false,
                ),
            )
        },
        None => None,
    }
}

/// Whether the arguments name a recipient and a process.
pub open spec fn names_process(matches: ArgMatches) -> bool {
    matches.pubkey_value("to"@) is Some && matches.pubkey_value("process_id"@) is Some
}

/// The command that tells a contract of a signature.
pub open spec fn is_send_signature(
    r: Result<CliCommandInfo, CommandError>,
    matches: ArgMatches,
) -> bool {
    &&& r matches Ok(info)
    &&& info.require_keypair
    &&& info.command == CliCommand::Witness(
        matches.pubkey_value("to"@)->0,
        matches.pubkey_value("process_id"@)->0,
    )
}

fn parse_send_signature(matches: &ArgMatches) -> (r: Option<Result<CliCommandInfo, CommandError>>)
    ensures
        r is Some <==> names_process(*matches),
        r matches Some(outcome) ==> is_send_signature(outcome, *matches),
{
    match (matches.pubkey_value_of("to"), matches.pubkey_value_of("process_id")) {
        (Some(to), Some(process_id)) => Some(ask_for(CliCommand::Witness(to, process_id), true)),
        _ => None,
    }
}

/// The command that tells a contract of a moment: the date that was given, or else the present.
/// A date that is none is refused.
pub open spec fn is_send_timestamp(
    r: Result<CliCommandInfo, CommandError>,
    matches: ArgMatches,
    now: Timestamp,
) -> bool {
    if is_no_date(matches, "datetime"@) {
        rejects_date(r, matches, "datetime"@)
    } else {
        &&& r matches Ok(info)
        &&& info.require_keypair
        &&& info.command matches CliCommand::TimeElapsed(to, process_id, when)
        &&& Some(to) == matches.pubkey_value("to"@)
        &&& Some(process_id) == matches.pubkey_value("process_id"@)
        &&& if matches.present("datetime"@) {
            is_date_argument(Some(when), matches, "datetime"@)
        } else {
            when == now
        }
    }
}

fn parse_send_timestamp(matches: &ArgMatches, now: &Timestamp) -> (r: Option<
    Result<CliCommandInfo, CommandError>,
>)
    ensures
        r is Some <==> names_process(*matches) && (matches.present("datetime"@) ==> matches.value(
            "datetime"@,
        ) is Some),
        r matches Some(outcome) ==> is_send_timestamp(outcome, *matches, *now),
{
    let (to, process_id) = match (
        matches.pubkey_value_of("to"),
        matches.pubkey_value_of("process_id"),
    ) {
        (Some(to), Some(process_id)) => (to, process_id),
        _ => {
            return None;
        },
    };
    let when = match parse_date(matches, "datetime") {
        Some(Ok(Some(date))) => date,
        Some(Ok(None)) => *now,
        Some(Err(text)) => {
            return Some(Err(CommandError::Other(text)));
        },
        None => {
            return None;
        },
    };
    Some(ask_for(CliCommand::TimeElapsed(to, process_id, when), true))
}

// All commands.

/// Whether the arguments of the command can be read.
pub open spec fn admits_command(
    found: Route,
    matches: ArgMatches,
    surroundings: Surroundings,
) -> bool {
    match found {
        Route::CreateAddressWithSeed => admits_address(matches),
        Route::Deploy => matches.value("program_location"@) is Some,
        Route::Airdrop => admits_airdrop(matches, surroundings.faucet_host),
        Route::Cancel => matches.pubkey_value("process_id"@) is Some,
        Route::Confirm => matches.value("signature"@) is Some,
        Route::Pay => admits_pay(matches),
        Route::Account => matches.pubkey("account_pubkey"@) is Some,
        Route::SendSignature => names_process(matches),
        Route::SendTimestamp => names_process(matches) && (matches.present("datetime"@)
            ==> matches.value("datetime"@) is Some),
        Route::Transfer => admits_transfer(matches),
        Route::ValidatorInfo => match matches.subcommand {
            Some(sub) => validator_info_route(sub.name@) is Some,
            None => false,
        },
        _ => true,
    }
}

/// Whether a command line can be read.
pub open spec fn admits(matches: ArgMatches, surroundings: Surroundings) -> bool {
    match matches.subcommand {
        Some(sub) => match route(sub.name@) {
            Some(found) => admits_command(found, sub.matches, surroundings),
            None => false,
        },
        None => true,
    }
}

/// The command has no arguments.
pub open spec fn is_bare(
    r: Result<CliCommandInfo, CommandError>,
    command: CliCommand,
    require_keypair: bool,
) -> bool {
    r matches Ok(info) && info.command == command && info.require_keypair == require_keypair
}

/// `r` is what reading the arguments of the command comes to.
pub open spec fn is_command(
    r: Result<CliCommandInfo, CommandError>,
    found: Route,
    matches: ArgMatches,
    surroundings: Surroundings,
) -> bool {
    match found {
        Route::ClusterVersion => is_bare(r, CliCommand::ClusterVersion, false),
        Route::Fees => is_bare(r, CliCommand::Fees, false),
        Route::GenesisHash => is_bare(r, CliCommand::GetGenesisHash, false),
        Route::LeaderSchedule => is_bare(r, CliCommand::LeaderSchedule, false),
        Route::Gossip => is_bare(r, CliCommand::ShowGossip, false),
        Route::Address => is_bare(r, CliCommand::Address, true),
        Route::CreateAddressWithSeed => is_create_address(r, matches),
        Route::Deploy => {
            &&& r matches Ok(info)
            &&& info.require_keypair
            &&& info.command matches CliCommand::Deploy(path)
            &&& Some(path@) == matches.value("program_location"@)
        },
        Route::Airdrop => is_airdrop(r, matches, surroundings.faucet_host),
        Route::Balance => is_balance(r, matches),
        Route::Cancel => is_bare(
            r,
            CliCommand::Cancel(matches.pubkey_value("process_id"@)->0),
            true,
        ),
        Route::Confirm => is_confirm(r, matches),
        Route::Pay => is_pay(r, matches),
        Route::Account => is_account(r, matches),
        Route::SendSignature => is_send_signature(r, matches),
        Route::SendTimestamp => is_send_timestamp(r, matches, surroundings.now),
        Route::Transfer => is_transfer(r, matches),
        Route::Module(_) => false,
        Route::ValidatorInfo => false,
    }
}

/// `r` is what reading the command line comes to.
pub open spec fn is_parsed(
    r: Result<Parsed, CommandError>,
    matches: ArgMatches,
    surroundings: Surroundings,
) -> bool {
    match matches.subcommand {
        None => r matches Err(CommandError::Cli(CliError::CommandNotRecognized(text))) && text@
            == "no subcommand given"@,
        Some(sub) => match route(sub.name@)->0 {
            Route::Module(module) => r == Ok::<Parsed, CommandError>(Parsed::Module(module)),
            Route::ValidatorInfo => r == Ok::<Parsed, CommandError>(
                Parsed::Module(validator_info_route(sub.matches.subcommand->0.name@)->0),
            ),
            found => match r {
                Ok(Parsed::Command(info)) => is_command(
                    Ok(info),
                    found,
                    sub.matches,
                    surroundings,
                ),
                Ok(Parsed::Module(_)) => false,
                Err(error) => is_command(Err(error), found, sub.matches, surroundings),
            },
        },
    }
}

fn read_command(found: Route, matches: &ArgMatches, surroundings: &Surroundings) -> (r: Option<
    Result<CliCommandInfo, CommandError>,
>)
    requires
        !(found is Module),
        !(found is ValidatorInfo),
    ensures
        r is Some <==> admits_command(found, *matches, *surroundings),
        r matches Some(outcome) ==> is_command(outcome, found, *matches, *surroundings),
{
    match found {
        Route::ClusterVersion => Some(ask_for(CliCommand::ClusterVersion, false)),
        Route::Fees => Some(ask_for(CliCommand::Fees, false)),
        Route::GenesisHash => Some(ask_for(CliCommand::GetGenesisHash, false)),
        Route::LeaderSchedule => Some(ask_for(CliCommand::LeaderSchedule, false)),
        Route::Gossip => Some(ask_for(CliCommand::ShowGossip, false)),
        Route::Address => Some(ask_for(CliCommand::Address, true)),
        Route::CreateAddressWithSeed => {
            if find_program(matches).is_none() || matches.value_of("seed").is_none() {
                return None;
            }
            Some(
                match parse_create_address_with_seed(matches) {
                    Ok(info) => Ok(info),
                    Err(error) => Err(CommandError::Cli(error)),
                },
            )
        },
        Route::Deploy => match matches.value_of("program_location") {
            Some(path) => Some(ask_for(CliCommand::Deploy(path.to_owned()), true)),
            None => None,
        },
        Route::Airdrop => parse_airdrop(matches, &surroundings.faucet_host),
        Route::Balance => Some(parse_balance(matches)),
        Route::Cancel => match matches.pubkey_value_of("process_id") {
            Some(process_id) => Some(ask_for(CliCommand::Cancel(process_id), true)),
            None => None,
        },
        Route::Confirm => parse_confirm(matches),
        Route::Pay => parse_pay(matches),
        Route::Account => parse_account(matches),
        Route::SendSignature => parse_send_signature(matches),
        Route::SendTimestamp => parse_send_timestamp(matches, &surroundings.now),
        Route::Transfer => parse_transfer(matches),
        Route::Module(_) => None,
        Route::ValidatorInfo => None,
    }
}

fn read_command_line(matches: &ArgMatches, surroundings: &Surroundings) -> (r: Option<
    Result<Parsed, CommandError>,
>)
    ensures
        r is Some <==> admits(*matches, *surroundings),
        r matches Some(outcome) ==> is_parsed(outcome, *matches, *surroundings),
{
    let sub = match &matches.subcommand {
        Some(sub) => sub,
        None => {
            return Some(
                Err(
                    CommandError::Cli(
                        CliError::CommandNotRecognized("no subcommand given".to_owned()),
                    ),
                ),
            );
        },
    };
    match find_route(sub.name.as_str()) {
        None => None,
        Some(Route::Module(module)) => Some(Ok(Parsed::Module(module))),
        Some(Route::ValidatorInfo) => match &sub.matches.subcommand {
            Some(inner) => match find_validator_info_route(inner.name.as_str()) {
                Some(module) => Some(Ok(Parsed::Module(module))),
                None => None,
            },
            None => None,
        },
        Some(found) => match read_command(found, &sub.matches, surroundings) {
            Some(Ok(info)) => Some(Ok(Parsed::Command(info))),
            Some(Err(error)) => Some(Err(error)),
            None => None,
        },
    }
}

/// The command that the command line asks for.
pub fn parse_command(matches: &ArgMatches, surroundings: &Surroundings) -> (r: Result<
    Parsed,
    CommandError,
>)
    requires
        admits(*matches, *surroundings),
    ensures
        is_parsed(r, *matches, *surroundings),
{
    read_command_line(matches, surroundings).unwrap()
}

/// The command that the command line asks for, where the command line can be read.
pub fn try_parse_command(matches: &ArgMatches, surroundings: &Surroundings) -> (r: Option<
    Result<Parsed, CommandError>,
>)
    ensures
        r is Some <==> admits(*matches, *surroundings),
        r matches Some(outcome) ==> is_parsed(outcome, *matches, *surroundings),
{
    if read_command_line(matches, surroundings).is_some() {
        Some(parse_command(matches, surroundings))
    } else {
        None
    }
}

} // verus!
