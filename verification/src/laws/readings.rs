//! From command lines to commands.
use crate::authority::SigningAuthority;
use crate::command::{CliCommand, CliCommandInfo, IpAddr};
use crate::errors::{CliError, CommandError};
use crate::fees::BlockhashQuery;
use crate::instruction::{stake_program_id, storage_program_id, vote_program_id};
use crate::keys::{signature_parsed, Pubkey, Signature};
use crate::laws::identities::has_signature_of;
use crate::laws::routes::{lemma_names, lemma_route};
use crate::matches::{pubkeys_parsed, signers_parsed, ArgMatches};
use crate::parse::{
    is_parsed, parse_command, parse_create_address_with_seed, port_error, try_parse_command, Parsed,
    Surroundings,
};
use crate::route::{
    find_route, find_validator_info_route, route, validator_info_route, ModuleParser, Route,
};
use crate::text::unsigned_value;
use crate::time::{date_json, date_parsed, Timestamp};
use vstd::prelude::*;
use vstd::utf8::encode_utf8;

verus! {

/// The command line names this command, with these arguments.
pub open spec fn names(matches: ArgMatches, name: Seq<char>, args: ArgMatches) -> bool {
    matches.subcommand matches Some(sub) && sub.name@ == name && sub.matches == args
}

/// The command line comes to this command, which needs the client's key pair or does not.
pub open spec fn comes_to_command(
    read: Result<Parsed, CommandError>,
    command: CliCommand,
    require_keypair: bool,
) -> bool {
    &&& read matches Ok(Parsed::Command(info))
    &&& info.command == command
    &&& info.require_keypair == require_keypair
}

/// The command line is refused over a parameter, with this text.
pub open spec fn is_refused(read: Result<Parsed, CommandError>, text: Seq<char>) -> bool {
    read matches Err(CommandError::Cli(CliError::BadParameter(said))) && said@ == text
}

/// The signers that are given are these.
pub open spec fn are_given_signers(
    signers: Option<Vec<(Pubkey, Signature)>>,
    args: ArgMatches,
) -> bool {
    match args.all_values("signer"@) {
        Some(list) => signers matches Some(signers) && Some(signers@) == signers_parsed(list),
        None => signers is None,
    }
}

/// The authority under this name is the key pair that was given, or else the key of one of the
/// signers, whose place is held by a key pair made from the key.
pub open spec fn is_given_authority(
    authority: Option<SigningAuthority>,
    args: ArgMatches,
    name: Seq<char>,
    signers: Option<Vec<(Pubkey, Signature)>>,
) -> bool {
    match authority {
        None => !args.present(name),
        Some(SigningAuthority::Online(pair)) => args.keypair(name) == Some(pair),
        Some(SigningAuthority::Offline(key, pair)) => {
            &&& args.keypair(name) is None
            &&& args.pubkey(name) == Some(key)
            &&& pair.secret == key.bytes
            &&& signers matches Some(signers) && has_signature_of(signers@, key)
        },
    }
}

/// The authority under this name is neither a key pair nor the key of a signer.
pub open spec fn is_invalid_authority(
    args: ArgMatches,
    name: Seq<char>,
    signers: Option<Seq<(Pubkey, Signature)>>,
) -> bool {
    &&& args.present(name)
    &&& args.keypair(name) is None
    &&& args.pubkey(name) matches Some(key) ==> !(signers matches Some(signers) && has_signature_of(
        signers,
        key,
    ))
}

/// The signers that are given, where each of them can be read.
pub open spec fn given_signers(args: ArgMatches) -> Option<Seq<(Pubkey, Signature)>> {
    match args.all_values("signer"@) {
        Some(list) => signers_parsed(list),
        None => None,
    }
}

/// The blockhash is the given one, without a fee where the transaction is only signed.
pub open spec fn is_given_query(query: BlockhashQuery, args: ArgMatches) -> bool {
    match query {
        BlockhashQuery::Given(hash, fees) => {
            &&& args.present("sign_only"@)
            &&& args.blockhash_value("blockhash"@) == Some(hash)
            &&& fees.lamports_per_signature == 0
        },
        BlockhashQuery::FeeCalculator(hash) => {
            &&& !args.present("sign_only"@)
            &&& args.blockhash_value("blockhash"@) == Some(hash)
        },
        BlockhashQuery::All => args.blockhash_value("blockhash"@) is None,
    }
}

/// The date is what the argument spells, in UTC where it names no zone.
pub open spec fn is_given_date(date: Option<Timestamp>, args: ArgMatches, name: Seq<char>) -> bool {
    match date {
        Some(date) => args.present(name) && date_parsed(date_json(args.value(name)->0)) == Ok::<
            (i64, u32),
            Seq<char>,
        >((date.spec_secs(), date.spec_nanos())),
        None => !args.present(name),
    }
}

/// The argument was given and is no date.
pub open spec fn is_invalid_date(args: ArgMatches, name: Seq<char>) -> bool {
    args.present(name) && date_parsed(date_json(args.value(name)->0)) is Err
}

/// A transfer is read off its arguments: the amount and its unit, the recipient, the source, the fee
/// payer, the nonce and its authority, and what was given of signing elsewhere.  An amount or an
/// authority that is none is refused.
pub proof fn lemma_transfers_are_read(
    matches: &ArgMatches,
    surroundings: &Surroundings,
    args: ArgMatches,
    read: Result<Parsed, CommandError>,
)
    requires
        call_ensures(parse_command, (matches, surroundings), read),
        names(*matches, "transfer"@, args),
    ensures
        if args.amount("amount"@, "unit"@) is None {
            is_refused(read, "Lamports cannot be fractional: "@ + args.value("amount"@)->0)
        } else if is_invalid_authority(args, "nonce_authority"@, given_signers(args))
            || is_invalid_authority(args, "fee_payer"@, given_signers(args))
            || is_invalid_authority(args, "from"@, given_signers(args)) {
            is_refused(read, "Invalid authority"@)
        } else {
            &&& read matches Ok(Parsed::Command(info))
            &&& info.require_keypair
            &&& info.command matches CliCommand::Transfer {
                lamports,
                to,
                from,
                sign_only,
                signers,
                blockhash_query,
                nonce_account,
                nonce_authority,
                fee_payer,
            }
            &&& args.amount("amount"@, "unit"@) == Some(lamports)
            &&& args.pubkey("to"@) is Some ==> args.pubkey("to"@) == Some(to)
            &&& sign_only == args.present("sign_only"@)
            &&& given_signers(args) is Some || args.all_values("signer"@) is None
                ==> are_given_signers(signers, args)
            &&& is_given_query(blockhash_query, args) || (args.present("sign_only"@)
                && args.blockhash_value("blockhash"@) is None)
            &&& nonce_account == args.pubkey("nonce"@)
            &&& is_given_authority(from, args, "from"@, signers)
            &&& is_given_authority(nonce_authority, args, "nonce_authority"@, signers)
            &&& is_given_authority(fee_payer, args, "fee_payer"@, signers)
        },
{
    lemma_route("transfer"@);
}

/// A payment is read off its arguments.  An amount, a date or an authority that is none is refused.
pub proof fn lemma_payments_are_read(
    matches: &ArgMatches,
    surroundings: &Surroundings,
    args: ArgMatches,
    read: Result<Parsed, CommandError>,
)
    requires
        call_ensures(parse_command, (matches, surroundings), read),
        names(*matches, "pay"@, args),
    ensures
        if args.amount("amount"@, "unit"@) is None {
            is_refused(read, "Lamports cannot be fractional: "@ + args.value("amount"@)->0)
        } else if is_invalid_date(args, "timestamp"@) {
            read matches Err(CommandError::Other(text)) && date_parsed(
                date_json(args.value("timestamp"@)->0),
            ) == Err::<(i64, u32), Seq<char>>(text@)
        } else if is_invalid_authority(args, "nonce_authority"@, given_signers(args)) {
            is_refused(read, "Invalid authority"@)
        } else {
            &&& read matches Ok(Parsed::Command(info))
            &&& info.require_keypair
            &&& info.command matches CliCommand::Pay(pay)
            &&& args.amount("amount"@, "unit"@) == Some(pay.lamports)
            &&& args.pubkey("to"@) is Some ==> args.pubkey("to"@) == Some(pay.to)
            &&& is_given_date(pay.timestamp, args, "timestamp"@)
            &&& pay.timestamp_pubkey == args.pubkey_value("timestamp_pubkey"@)
            &&& match args.all_values("witness"@) {
                Some(list) => pubkeys_parsed(list) is Some ==> (pay.witnesses matches Some(keys)
                    && Some(keys@) == pubkeys_parsed(list)),
                None => pay.witnesses is None,
            }
            &&& pay.cancelable == args.present("cancelable"@)
            &&& pay.sign_only == args.present("sign_only"@)
            &&& given_signers(args) is Some || args.all_values("signer"@) is None
                ==> are_given_signers(pay.signers, args)
            &&& is_given_query(pay.blockhash_query, args) || (args.present("sign_only"@)
                && args.blockhash_value("blockhash"@) is None)
            &&& pay.nonce_account == args.pubkey("nonce"@)
            &&& is_given_authority(pay.nonce_authority, args, "nonce_authority"@, pay.signers)
        },
{
    lemma_route("pay"@);
}

/// An airdrop is read off its arguments.  The port, the host or the amount is refused where it is
/// none, in that order.
pub proof fn lemma_airdrops_are_read(
    matches: &ArgMatches,
    surroundings: &Surroundings,
    args: ArgMatches,
    read: Result<Parsed, CommandError>,
)
    requires
        call_ensures(parse_command, (matches, surroundings), read),
        names(*matches, "airdrop"@, args),
    ensures
        ({
            let port = unsigned_value(args.value("faucet_port"@)->0);
            let asked = args.value("faucet_host"@) is Some;
            if port is None || port->0 > u16::MAX {
                is_refused(
                    read,
                    "Invalid faucet port: "@ + port_error(args.value("faucet_port"@)->0),
                )
            } else if asked && surroundings.faucet_host is Err {
                is_refused(read, "Invalid faucet host: "@ + surroundings.faucet_host->Err_0@)
            } else if args.amount("amount"@, "unit"@) is None {
                is_refused(read, "Lamports cannot be fractional: "@ + args.value("amount"@)->0)
            } else {
                &&& read matches Ok(Parsed::Command(info))
                &&& info.require_keypair
                &&& info.command matches CliCommand::Airdrop {
                    faucet_host,
                    faucet_port,
                    lamports,
                    use_lamports_unit,
                }
                &&& faucet_host is Some <==> asked
                &&& asked ==> surroundings.faucet_host == Ok::<IpAddr, String>(faucet_host->0)
                &&& faucet_port as nat == port->0
                &&& args.amount("amount"@, "unit"@) == Some(lamports)
                &&& use_lamports_unit <==> args.value("unit"@) == Some("lamports"@)
            }
        }),
{
    lemma_route("airdrop"@);
}

/// Commands without arguments are read as they are.
pub proof fn lemma_bare_commands_are_read(
    matches: &ArgMatches,
    surroundings: &Surroundings,
    args: ArgMatches,
    read: Result<Parsed, CommandError>,
)
    requires
        call_ensures(parse_command, (matches, surroundings), read),
        matches.subcommand matches Some(sub) && sub.matches == args,
    ensures
        names(*matches, "cluster-version"@, args) ==> comes_to_command(
            read,
            CliCommand::ClusterVersion,
            false,
        ),
        names(*matches, "fees"@, args) ==> comes_to_command(read, CliCommand::Fees, false),
        names(*matches, "genesis-hash"@, args) ==> comes_to_command(
            read,
            CliCommand::GetGenesisHash,
            false,
        ),
        names(*matches, "leader-schedule"@, args) ==> comes_to_command(
            read,
            CliCommand::LeaderSchedule,
            false,
        ),
        names(*matches, "gossip"@, args) ==> comes_to_command(read, CliCommand::ShowGossip, false),
        names(*matches, "address"@, args) ==> comes_to_command(read, CliCommand::Address, true),
{
    lemma_route(matches.subcommand->0.name@);
}

/// The commands with a key, a signature or a path are read off these.
pub proof fn lemma_small_commands_are_read(
    matches: &ArgMatches,
    surroundings: &Surroundings,
    args: ArgMatches,
    read: Result<Parsed, CommandError>,
)
    requires
        call_ensures(parse_command, (matches, surroundings), read),
        matches.subcommand matches Some(sub) && sub.matches == args,
    ensures
        names(*matches, "balance"@, args) ==> comes_to_command(
            read,
            CliCommand::Balance {
                pubkey: args.pubkey("pubkey"@),
                use_lamports_unit: args.present("lamports"@),
            },
            args.pubkey("pubkey"@) is None,
        ),
        names(*matches, "cancel"@, args) && args.pubkey_value("process_id"@) is Some
            ==> comes_to_command(
            read,
            CliCommand::Cancel(args.pubkey_value("process_id"@)->0),
            true,
        ),
        names(*matches, "confirm"@, args) ==> match signature_parsed(args.value("signature"@)->0) {
            Some(signature) => comes_to_command(read, CliCommand::Confirm(signature), false),
            None => is_refused(read, "Invalid signature"@),
        },
        names(*matches, "deploy"@, args) ==> {
            &&& read matches Ok(Parsed::Command(info))
            &&& info.require_keypair
            &&& info.command matches CliCommand::Deploy(path)
            &&& args.value("program_location"@) == Some(path@)
        },
        names(*matches, "account"@, args) ==> {
            &&& read matches Ok(Parsed::Command(info))
            &&& !info.require_keypair
            &&& info.command matches CliCommand::ShowAccount {
                pubkey,
                output_file,
                use_lamports_unit,
            }
            &&& args.pubkey("account_pubkey"@) == Some(pubkey)
            &&& match output_file {
                Some(path) => args.value("output_file"@) == Some(path@),
                None => args.value("output_file"@) is None,
            }
            &&& use_lamports_unit == args.present("lamports"@)
        },
        names(*matches, "send-signature"@, args) && args.pubkey_value("to"@) is Some
            && args.pubkey_value("process_id"@) is Some ==> comes_to_command(
            read,
            CliCommand::Witness(
                args.pubkey_value("to"@)->0,
                args.pubkey_value("process_id"@)->0,
            ),
            true,
        ),
        names(*matches, "send-timestamp"@, args) ==> if is_invalid_date(args, "datetime"@) {
            read matches Err(CommandError::Other(text)) && date_parsed(
                date_json(args.value("datetime"@)->0),
            ) == Err::<(i64, u32), Seq<char>>(text@)
        } else {
            &&& read matches Ok(Parsed::Command(info))
            &&& info.require_keypair
            &&& info.command matches CliCommand::TimeElapsed(to, contract, when)
            &&& args.pubkey_value("to"@) == Some(to)
            &&& args.pubkey_value("process_id"@) == Some(contract)
            &&& if args.present("datetime"@) {
                is_given_date(Some(when), args, "datetime"@)
            } else {
                when == surroundings.now
            }
        },
{
    lemma_route(matches.subcommand->0.name@);
}

/// The program is the one that the keyword stands for, or the key that was given.
pub open spec fn is_given_program(program: Pubkey, args: ArgMatches) -> bool {
    let given = args.value("program_id"@);
    if given == Some("STAKE"@) {
        program == stake_program_id()
    } else if given == Some("VOTE"@) {
        program == vote_program_id()
    } else if given == Some("STORAGE"@) {
        program == storage_program_id()
    } else {
        args.pubkey("program_id"@) == Some(program)
    }
}

/// An address under a seed is read off the base key, the seed and the program.  A seed of more than
/// 32 bytes is refused.  The client's key pair is needed where there is no base key.
pub proof fn lemma_seeded_addresses_are_read(
    args: &ArgMatches,
    read: Result<CliCommandInfo, CliError>,
)
    requires
        call_ensures(parse_create_address_with_seed, (args,), read),
        args.value("seed"@) is Some,
    ensures
        if encode_utf8(args.value("seed"@)->0).len() > 32 {
            read matches Err(CliError::BadParameter(text)) && text@
                == "Address seed must not be longer than 32 bytes"@
        } else {
            &&& read matches Ok(info)
            &&& info.command matches CliCommand::CreateAddressWithSeed {
                from_pubkey,
                seed,
                program_id,
            }
            &&& from_pubkey == args.pubkey("from"@)
            &&& args.value("seed"@) == Some(seed@)
            &&& is_given_program(program_id, *args)
            &&& info.require_keypair <==> args.pubkey("from"@) is None
        },
{
}

/// The command of that name comes to the same.
pub proof fn lemma_seeded_addresses_are_read_off_command_lines(
    matches: &ArgMatches,
    surroundings: &Surroundings,
    args: ArgMatches,
    read: Result<Parsed, CommandError>,
)
    requires
        call_ensures(parse_command, (matches, surroundings), read),
        names(*matches, "create-address-with-seed"@, args),
        args.value("seed"@) is Some,
    ensures
        if encode_utf8(args.value("seed"@)->0).len() > 32 {
            is_refused(read, "Address seed must not be longer than 32 bytes"@)
        } else {
            &&& read matches Ok(Parsed::Command(info))
            &&& info.command matches CliCommand::CreateAddressWithSeed {
                from_pubkey,
                seed,
                program_id,
            }
            &&& from_pubkey == args.pubkey("from"@)
            &&& args.value("seed"@) == Some(seed@)
            &&& is_given_program(program_id, args)
            &&& info.require_keypair <==> args.pubkey("from"@) is None
        },
{
    lemma_route("create-address-with-seed"@);
}

/// A command line whose name another module reads is left to that module, and no other is.
pub proof fn lemma_command_lines_are_left_to_their_modules(
    matches: &ArgMatches,
    surroundings: &Surroundings,
    name: &str,
    found: Option<Route>,
    inner: &str,
    info: Option<ModuleParser>,
    read: Result<Parsed, CommandError>,
)
    requires
        call_ensures(parse_command, (matches, surroundings), read),
        matches.subcommand is Some,
        name@ == matches.subcommand->0.name@,
        call_ensures(find_route, (name,), found),
        found == Some(Route::ValidatorInfo) ==> {
            &&& matches.subcommand->0.matches.subcommand matches Some(sub)
            &&& inner@ == sub.name@
        },
        call_ensures(find_validator_info_route, (inner,), info),
    ensures
        found matches Some(Route::Module(module)) ==> read == Ok::<Parsed, CommandError>(
            Parsed::Module(module),
        ),
        found == Some(Route::ValidatorInfo) && info is Some ==> read == Ok::<Parsed, CommandError>(
            Parsed::Module(info->0),
        ),
        found is Some && !(found->0 is Module) && !(found->0 is ValidatorInfo) ==> !(read
            matches Ok(Parsed::Module(_))),
{
}

/// A command line without a command is refused for that.
pub proof fn lemma_command_lines_name_a_command(
    matches: &ArgMatches,
    surroundings: &Surroundings,
    read: Result<Parsed, CommandError>,
)
    requires
        call_ensures(parse_command, (matches, surroundings), read),
        matches.subcommand is None,
    ensures
        read matches Err(CommandError::Cli(CliError::CommandNotRecognized(text))) && text@
            == "no subcommand given"@,
{
}

/// What the arguments have to give for the command to be read at all.
pub open spec fn gives_what_it_needs(name: Seq<char>, args: ArgMatches) -> bool {
    let signers = args.all_values("signer"@) is None || given_signers(args) is Some;
    let offline = signers && (args.present("sign_only"@) ==> args.blockhash_value(
        "blockhash"@,
    ) is Some);
    if name == "transfer"@ {
        &&& args.value("amount"@) is Some
        &&& args.amount("amount"@, "unit"@) is None || (args.pubkey("to"@) is Some && offline)
    } else if name == "cancel"@ {
        args.pubkey_value("process_id"@) is Some
    } else if name == "confirm"@ {
        args.value("signature"@) is Some
    } else if name == "deploy"@ {
        args.value("program_location"@) is Some
    } else if name == "account"@ {
        args.pubkey("account_pubkey"@) is Some
    } else if name == "send-signature"@ {
        args.pubkey_value("to"@) is Some && args.pubkey_value("process_id"@) is Some
    } else if name == "send-timestamp"@ {
        &&& args.pubkey_value("to"@) is Some
        &&& args.pubkey_value("process_id"@) is Some
        &&& args.present("datetime"@) ==> args.value("datetime"@) is Some
    } else if name == "create-address-with-seed"@ {
        &&& args.value("seed"@) is Some
        &&& args.value("program_id"@) is Some
        &&& args.value("program_id"@) == Some("STAKE"@) || args.value("program_id"@) == Some("VOTE"@)
            || args.value("program_id"@) == Some("STORAGE"@) || args.pubkey("program_id"@) is Some
    } else if name == "pay"@ {
        &&& args.value("amount"@) is Some
        &&& args.amount("amount"@, "unit"@) is None || {
            &&& args.pubkey("to"@) is Some
            &&& args.present("timestamp"@) ==> args.value("timestamp"@) is Some
            &&& is_invalid_date(args, "timestamp"@) || {
                &&& args.all_values("witness"@) matches Some(list) ==> pubkeys_parsed(list) is Some
                &&& offline
            }
        }
    } else {
        true
    }
}

/// A command line of these commands can be read exactly where it gives what the command needs, and
/// is then read as it always is.
pub proof fn lemma_command_lines_can_be_read(
    matches: &ArgMatches,
    surroundings: &Surroundings,
    name: Seq<char>,
    args: ArgMatches,
    tried: Option<Result<Parsed, CommandError>>,
)
    requires
        call_ensures(try_parse_command, (matches, surroundings), tried),
        names(*matches, name, args),
        name == "transfer"@ || name == "pay"@ || name == "cancel"@ || name == "confirm"@ || name
            == "deploy"@ || name == "account"@ || name == "send-signature"@ || name
            == "send-timestamp"@ || name == "create-address-with-seed"@ || name == "balance"@ || name
            == "address"@,
    ensures
        tried is Some <==> gives_what_it_needs(name, args),
{
    lemma_route(name);
    lemma_names();
}

/// An airdrop can be read exactly where it gives a port and, unless that or the host is refused, an
/// amount.
pub proof fn lemma_airdrops_can_be_read(
    matches: &ArgMatches,
    surroundings: &Surroundings,
    args: ArgMatches,
    tried: Option<Result<Parsed, CommandError>>,
)
    requires
        call_ensures(try_parse_command, (matches, surroundings), tried),
        names(*matches, "airdrop"@, args),
    ensures
        ({
            let port = unsigned_value(args.value("faucet_port"@)->0);
            let is_port = port is Some && port->0 <= u16::MAX;
            let is_host = args.value("faucet_host"@) is None || surroundings.faucet_host is Ok;
            tried is Some <==> args.value("faucet_port"@) is Some && (is_port && is_host
                ==> args.value("amount"@) is Some)
        }),
{
    lemma_route("airdrop"@);
}

/// What is tried is read as it is read without trying.  A command line for another module can always
/// be read, and so can one without arguments; one with a name that stands for nothing cannot.
pub proof fn lemma_tried_command_lines_are_read(
    matches: &ArgMatches,
    surroundings: &Surroundings,
    tried: Option<Result<Parsed, CommandError>>,
)
    requires
        call_ensures(try_parse_command, (matches, surroundings), tried),
    ensures
        matches.subcommand is None ==> tried is Some,
        tried matches Some(read) ==> is_parsed(read, *matches, *surroundings),
        matches.subcommand matches Some(sub) ==> match route(sub.name@) {
            None => tried is None,
            Some(Route::Module(_)) => tried is Some,
            Some(Route::ValidatorInfo) => tried is Some <==> (sub.matches.subcommand matches Some(
                inner,
            ) && validator_info_route(inner.name@) is Some),
            Some(found) => found is ClusterVersion || found is Fees || found is GenesisHash
                || found is LeaderSchedule || found is Gossip || found is Address
                || found is Balance ==> tried is Some,
        },
{
}

} // verus!
