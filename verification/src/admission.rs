//! What the grammar of the command line promises of the arguments that it lets through.
use crate::amount::{amount_parsed, sol_parsed};
use crate::grammar::{
    account_args, address_args, airdrop_args, balance_args, blockhash_arg, cancel_args, confirm_args,
    create_address_args, deploy_args, pay_args, sections, send_signature_args,
    send_timestamp_args, sign_only_arg, signer_arg, transfer_args, ArgSpec,
    Validator,
};
use crate::keys::{blockhash_parsed, pubkey_parsed, Keypair};
use crate::matches::{pubkeys_parsed, signer_parsed, signers_parsed, ArgMatches};
use crate::parse::{admits_command, admits_offline, program_of, Surroundings};
use crate::route::{route, Route};
use crate::text::texts;
use vstd::prelude::*;

verus! {

/// The value is what the validator lets through.  A file that holds a key pair is known by the
/// key pair that it led to.
pub open spec fn satisfies(validator: Validator, value: Seq<char>, keypair: Option<Keypair>) -> bool {
    match validator {
        Validator::Anything => true,
        Validator::Pubkey => pubkey_parsed(value) is Some,
        Validator::PubkeyOrKeypair => pubkey_parsed(value) is Some || keypair is Some,
        Validator::PubkeyOrKeypairOrAskKeyword => pubkey_parsed(value) is Some || keypair is Some
            || value == "ASK"@,
        Validator::Blockhash => blockhash_parsed(value) is Some,
        Validator::PubkeySig => signer_parsed(value) is Some,
        Validator::Amount => amount_parsed(value, true) is Some || sol_parsed(value) is Some,
    }
}

/// The argument is as its description says: given where it has to be, with values where it takes
/// any, each of which is let through, and together with the argument that it needs.
pub open spec fn respects(matches: ArgMatches, arg: ArgSpec) -> bool {
    &&& arg.required || arg.default_value is Some ==> matches.present(arg.name@)
    &&& matches.present(arg.name@) ==> {
        &&& arg.takes_value ==> matches.all_values(arg.name@)->0.len() > 0
        &&& forall|i: int|
            0 <= i < matches.all_values(arg.name@)->0.len() ==> satisfies(
                arg.validator,
                #[trigger] matches.all_values(arg.name@)->0[i],
                matches.found(arg.name@)->0.keypair,
            )
        &&& arg.requires matches Some(other) ==> matches.present(other@)
    }
}

/// All of the arguments are as their descriptions say.
pub open spec fn respects_all(matches: ArgMatches, args: Seq<ArgSpec>) -> bool {
    forall|i: int| 0 <= i < args.len() ==> respects(matches, #[trigger] args[i])
}

/// The arguments that a command describes.
pub open spec fn described_args(found: Route) -> Seq<ArgSpec> {
    match found {
        Route::CreateAddressWithSeed => create_address_args(),
        Route::Deploy => deploy_args(),
        Route::Airdrop => airdrop_args(),
        Route::Balance => balance_args(),
        Route::Cancel => cancel_args(),
        Route::Confirm => confirm_args(),
        Route::Pay => pay_args(),
        Route::Account => account_args(),
        Route::SendSignature => send_signature_args(),
        Route::SendTimestamp => send_timestamp_args(),
        Route::Transfer => transfer_args(),
        _ => Seq::empty(),
    }
}

proof fn lemma_value(matches: ArgMatches, arg: ArgSpec)
    requires
        respects(matches, arg),
        arg.takes_value,
        matches.present(arg.name@),
    ensures
        matches.value(arg.name@) is Some,
        satisfies(
            arg.validator,
            matches.value(arg.name@)->0,
            matches.found(arg.name@)->0.keypair,
        ),
        matches.keypair(arg.name@) == matches.found(arg.name@)->0.keypair,
{
    let list = matches.all_values(arg.name@)->0;
    assert(list == texts(matches.found(arg.name@)->0.values@));
    assert(list[0] == matches.found(arg.name@)->0.values@[0]@);
}

proof fn lemma_pubkeys(matches: ArgMatches, arg: ArgSpec)
    requires
        respects(matches, arg),
        arg.validator == Validator::Pubkey,
    ensures
        matches.all_values(arg.name@) matches Some(list) ==> pubkeys_parsed(list) is Some,
{
    if matches.present(arg.name@) {
        let list = matches.all_values(arg.name@)->0;
        assert forall|i: int| 0 <= i < list.len() implies pubkey_parsed(#[trigger] list[i]) is Some by {
            assert(satisfies(arg.validator, list[i], matches.found(arg.name@)->0.keypair));
        }
    }
}

proof fn lemma_offline(matches: ArgMatches)
    requires
        respects(matches, blockhash_arg()),
        respects(matches, sign_only_arg()),
        respects(matches, signer_arg()),
    ensures
        admits_offline(matches),
{
    if matches.present("sign_only"@) {
        lemma_value(matches, blockhash_arg());
    }
    if matches.present("signer"@) {
        let list = matches.all_values("signer"@)->0;
        assert forall|i: int| 0 <= i < list.len() implies signer_parsed(#[trigger] list[i]) is Some by {
            assert(satisfies(
                signer_arg().validator,
                matches.all_values(signer_arg().name@)->0[i],
                matches.found("signer"@)->0.keypair,
            ));
        }
        assert(signers_parsed(list) is Some);
    }
}

/// Arguments that the grammar lets through can be read.  The grammar does not look at the process
/// that is told of a signature or a moment, nor at the program that an address is for, so these
/// have to be keys, or a keyword, of their own.
pub proof fn lemma_described_arguments_can_be_read(
    found: Route,
    matches: ArgMatches,
    surroundings: Surroundings,
)
    requires
        respects_all(matches, described_args(found)),
        !(found is ValidatorInfo),
        found is SendSignature || found is SendTimestamp ==> matches.pubkey_value(
            "process_id"@,
        ) is Some,
        found is CreateAddressWithSeed ==> program_of(matches) is Some,
    ensures
        admits_command(found, matches, surroundings),
{
    let args = described_args(found);
    match found {
        Route::CreateAddressWithSeed => {
            lemma_value(matches, args[0]);
        },
        Route::Deploy => {
            lemma_value(matches, args[0]);
        },
        Route::Airdrop => {
            lemma_value(matches, args[1]);
            lemma_value(matches, args[2]);
        },
        Route::Cancel => {
            lemma_value(matches, args[0]);
        },
        Route::Confirm => {
            lemma_value(matches, args[0]);
        },
        Route::Account => {
            lemma_value(matches, args[0]);
        },
        Route::SendSignature => {
            lemma_value(matches, args[0]);
        },
        Route::SendTimestamp => {
            lemma_value(matches, args[0]);
            if matches.present("datetime"@) {
                lemma_value(matches, args[2]);
            }
        },
        Route::Pay => {
            lemma_value(matches, args[0]);
            lemma_value(matches, args[1]);
            if matches.present("timestamp"@) {
                lemma_value(matches, args[3]);
            }
            lemma_pubkeys(matches, args[5]);
            assert(args[7] == blockhash_arg() && args[8] == sign_only_arg() && args[9]
                == signer_arg());
            lemma_offline(matches);
        },
        Route::Transfer => {
            lemma_value(matches, args[0]);
            lemma_value(matches, args[1]);
            assert(args[4] == blockhash_arg() && args[5] == sign_only_arg() && args[6]
                == signer_arg());
            lemma_offline(matches);
        },
        _ => {},
    }
}

proof fn lemma_routes()
    ensures
        route("address"@) == Some(Route::Address),
        route("airdrop"@) == Some(Route::Airdrop),
        route("balance"@) == Some(Route::Balance),
        route("cancel"@) == Some(Route::Cancel),
        route("confirm"@) == Some(Route::Confirm),
        route("create-address-with-seed"@) == Some(Route::CreateAddressWithSeed),
        route("deploy"@) == Some(Route::Deploy),
        route("pay"@) == Some(Route::Pay),
        route("send-signature"@) == Some(Route::SendSignature),
        route("send-timestamp"@) == Some(Route::SendTimestamp),
        route("transfer"@) == Some(Route::Transfer),
        route("account"@) == Some(Route::Account),
{
    reveal_strlit("catchup");
    reveal_strlit("cluster-version");
    reveal_strlit("create-address-with-seed");
    reveal_strlit("fees");
    reveal_strlit("block-time");
    reveal_strlit("epoch-info");
    reveal_strlit("genesis-hash");
    reveal_strlit("slot");
    reveal_strlit("transaction-count");
    reveal_strlit("leader-schedule");
    reveal_strlit("ping");
    reveal_strlit("block-production");
    reveal_strlit("gossip");
    reveal_strlit("stakes");
    reveal_strlit("validators");
    reveal_strlit("authorize-nonce-account");
    reveal_strlit("create-nonce-account");
    reveal_strlit("nonce");
    reveal_strlit("new-nonce");
    reveal_strlit("nonce-account");
    reveal_strlit("withdraw-from-nonce-account");
    reveal_strlit("deploy");
    reveal_strlit("create-stake-account");
    reveal_strlit("delegate-stake");
    reveal_strlit("withdraw-stake");
    reveal_strlit("deactivate-stake");
    reveal_strlit("split-stake");
    reveal_strlit("stake-authorize-staker");
    reveal_strlit("stake-authorize-withdrawer");
    reveal_strlit("stake-set-lockup");
    reveal_strlit("stake-account");
    reveal_strlit("stake-history");
    reveal_strlit("create-archiver-storage-account");
    reveal_strlit("create-validator-storage-account");
    reveal_strlit("claim-storage-reward");
    reveal_strlit("storage-account");
    reveal_strlit("validator-info");
    reveal_strlit("create-vote-account");
    reveal_strlit("vote-update-validator");
    reveal_strlit("vote-authorize-voter");
    reveal_strlit("vote-authorize-withdrawer");
    reveal_strlit("vote-account");
    reveal_strlit("address");
    reveal_strlit("airdrop");
    reveal_strlit("balance");
    reveal_strlit("cancel");
    reveal_strlit("confirm");
    reveal_strlit("pay");
    reveal_strlit("account");
    reveal_strlit("send-signature");
    reveal_strlit("send-timestamp");
    reveal_strlit("transfer");
    assert("account"@[0] == 'a');
    assert("account"@[1] == 'c');
    assert("address"@[0] == 'a');
    assert("address"@[1] == 'd');
    assert("airdrop"@[0] == 'a');
    assert("airdrop"@[1] == 'i');
    assert("balance"@[0] == 'b');
    assert("cancel"@[0] == 'c');
    assert("catchup"@[0] == 'c');
    assert("catchup"@[1] == 'a');
    assert("confirm"@[0] == 'c');
    assert("confirm"@[1] == 'o');
    assert("delegate-stake"@[0] == 'd');
    assert("deploy"@[0] == 'd');
    assert("gossip"@[0] == 'g');
    assert("send-signature"@[0] == 's');
    assert("send-signature"@[5] == 's');
    assert("send-timestamp"@[0] == 's');
    assert("send-timestamp"@[5] == 't');
    assert("stakes"@[0] == 's');
    assert("validator-info"@[0] == 'v');
    assert("withdraw-stake"@[0] == 'w');
    assert("catchup"@.len() == 7);
    assert("cluster-version"@.len() == 15);
    assert("create-address-with-seed"@.len() == 24);
    assert("fees"@.len() == 4);
    assert("block-time"@.len() == 10);
    assert("epoch-info"@.len() == 10);
    assert("genesis-hash"@.len() == 12);
    assert("slot"@.len() == 4);
    assert("transaction-count"@.len() == 17);
    assert("leader-schedule"@.len() == 15);
    assert("ping"@.len() == 4);
    assert("block-production"@.len() == 16);
    assert("gossip"@.len() == 6);
    assert("stakes"@.len() == 6);
    assert("validators"@.len() == 10);
    assert("authorize-nonce-account"@.len() == 23);
    assert("create-nonce-account"@.len() == 20);
    assert("nonce"@.len() == 5);
    assert("new-nonce"@.len() == 9);
    assert("nonce-account"@.len() == 13);
    assert("withdraw-from-nonce-account"@.len() == 27);
    assert("deploy"@.len() == 6);
    assert("create-stake-account"@.len() == 20);
    assert("delegate-stake"@.len() == 14);
    assert("withdraw-stake"@.len() == 14);
    assert("deactivate-stake"@.len() == 16);
    assert("split-stake"@.len() == 11);
    assert("stake-authorize-staker"@.len() == 22);
    assert("stake-authorize-withdrawer"@.len() == 26);
    assert("stake-set-lockup"@.len() == 16);
    assert("stake-account"@.len() == 13);
    assert("stake-history"@.len() == 13);
    assert("create-archiver-storage-account"@.len() == 31);
    assert("create-validator-storage-account"@.len() == 32);
    assert("claim-storage-reward"@.len() == 20);
    assert("storage-account"@.len() == 15);
    assert("validator-info"@.len() == 14);
    assert("create-vote-account"@.len() == 19);
    assert("vote-update-validator"@.len() == 21);
    assert("vote-authorize-voter"@.len() == 20);
    assert("vote-authorize-withdrawer"@.len() == 25);
    assert("vote-account"@.len() == 12);
    assert("address"@.len() == 7);
    assert("airdrop"@.len() == 7);
    assert("balance"@.len() == 7);
    assert("cancel"@.len() == 6);
    assert("confirm"@.len() == 7);
    assert("pay"@.len() == 3);
    assert("account"@.len() == 7);
    assert("send-signature"@.len() == 14);
    assert("send-timestamp"@.len() == 14);
    assert("transfer"@.len() == 8);
}

/// Every subcommand that the grammar describes leads to the command that reads its arguments.
pub proof fn lemma_described_commands_are_routed(i: int)
    requires
        0 <= i < sections().len(),
        sections()[i] is Command,
    ensures
        ({
            let command = sections()[i]->Command_0;
            &&& route(command.name@) is Some
            &&& described_args(route(command.name@)->0) == command.args
        }),
{
    lemma_routes();
    assert(address_args() =~= Seq::empty());
}

} // verus!
