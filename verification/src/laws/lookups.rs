//! Arguments, found by their names.
use crate::errors::CliError;
use crate::keys::{
    blockhash_parsed, pubkey_parsed, signature_parsed, Blockhash, Keypair, Pubkey, Signature,
};
use crate::matches::{
    first_named, parse_signer, pubkeys_parsed, required_lamports_from, signer_parsed,
    signers_parsed, ArgMatches, ArgValues,
};
use crate::text::{lemma_cut, lemma_no_cut, texts};
use vstd::prelude::*;

verus! {

/// The argument at `i` is the first with this name.
pub open spec fn is_first(args: Seq<ArgValues>, name: Seq<char>, i: int) -> bool {
    &&& 0 <= i < args.len()
    &&& args[i].name@ == name
    &&& forall|j: int| 0 <= j < i ==> (#[trigger] args[j]).name@ != name
}

/// No argument has this name.
pub open spec fn is_missing(args: Seq<ArgValues>, name: Seq<char>) -> bool {
    forall|j: int| 0 <= j < args.len() ==> (#[trigger] args[j]).name@ != name
}

pub(crate) proof fn lemma_first(args: Seq<ArgValues>, name: Seq<char>, i: int)
    requires
        is_first(args, name, i),
    ensures
        first_named(args, name) == Some(args[i]),
    decreases i,
{
    if i > 0 {
        let rest = args.skip(1);
        assert(args[0].name@ != name);
        assert forall|j: int| 0 <= j < i - 1 implies (#[trigger] rest[j]).name@ != name by {
            assert(rest[j] == args[j + 1]);
        }
        assert(rest[i - 1] == args[i]);
        lemma_first(rest, name, i - 1);
    }
}

pub(crate) proof fn lemma_missing(args: Seq<ArgValues>, name: Seq<char>)
    requires
        is_missing(args, name),
    ensures
        first_named(args, name) is None,
    decreases args.len(),
{
    if args.len() > 0 {
        assert(args[0].name@ != name);
        let rest = args.skip(1);
        assert forall|j: int| 0 <= j < rest.len() implies (#[trigger] rest[j]).name@ != name by {
            assert(rest[j] == args[j + 1]);
        }
        lemma_missing(rest, name);
    }
}

/// An argument is what was first given under its name: its value is the first of its values, its
/// key pair the one that this leads to, and its public key or blockhash what the value spells.
pub proof fn lemma_arguments_are_found_by_name(
    matches: &ArgMatches,
    name: &str,
    i: int,
    present: bool,
    value: Option<&str>,
    keypair: Option<Keypair>,
    spelled: Option<Pubkey>,
    key: Option<Pubkey>,
    hash: Option<Blockhash>,
)
    requires
        is_first(matches.args@, name@, i),
        call_ensures(ArgMatches::is_present, (matches, name), present),
        call_ensures(ArgMatches::value_of, (matches, name), value),
        call_ensures(ArgMatches::keypair_of, (matches, name), keypair),
        call_ensures(ArgMatches::pubkey_value_of, (matches, name), spelled),
        call_ensures(ArgMatches::pubkey_of, (matches, name), key),
        call_ensures(ArgMatches::blockhash_value_of, (matches, name), hash),
    ensures
        present,
        matches.args@[i].values@.len() == 0 ==> value is None && keypair is None && spelled is None
            && key is None && hash is None,
        matches.args@[i].values@.len() > 0 ==> {
            let first = matches.args@[i].values@[0]@;
            &&& value matches Some(text) && text@ == first
            &&& keypair == matches.args@[i].keypair
            &&& spelled == pubkey_parsed(first)
            &&& hash == blockhash_parsed(first)
            &&& spelled is Some ==> key == spelled
            &&& spelled is None && keypair is Some ==> key == Some(keypair->0.spec_pubkey())
            &&& spelled is None && keypair is None ==> key is None
        },
{
    lemma_first(matches.args@, name@, i);
}

/// Nothing is found under a name that was not given.
pub proof fn lemma_missing_arguments_are_not_found(
    matches: &ArgMatches,
    name: &str,
    present: bool,
    value: Option<&str>,
    keypair: Option<Keypair>,
    key: Option<Pubkey>,
    hash: Option<Blockhash>,
    keys: Option<Option<Vec<Pubkey>>>,
    signers: Option<Option<Vec<(Pubkey, Signature)>>>,
)
    requires
        is_missing(matches.args@, name@),
        call_ensures(ArgMatches::is_present, (matches, name), present),
        call_ensures(ArgMatches::value_of, (matches, name), value),
        call_ensures(ArgMatches::keypair_of, (matches, name), keypair),
        call_ensures(ArgMatches::pubkey_of, (matches, name), key),
        call_ensures(ArgMatches::blockhash_value_of, (matches, name), hash),
        call_ensures(ArgMatches::pubkeys_of, (matches, name), keys),
        call_ensures(ArgMatches::pubkeys_sigs_of, (matches, name), signers),
    ensures
        !present,
        value is None,
        keypair is None,
        key is None,
        hash is None,
        keys == Some(None::<Vec<Pubkey>>),
        signers == Some(None::<Vec<(Pubkey, Signature)>>),
{
    lemma_missing(matches.args@, name@);
}

/// A list of keys, or of signers, has one of them for each value, in the order of the values, and is
/// refused where one of the values spells none.
pub proof fn lemma_lists_have_one_for_each_value(
    matches: &ArgMatches,
    name: &str,
    i: int,
    keys: Option<Option<Vec<Pubkey>>>,
    signers: Option<Option<Vec<(Pubkey, Signature)>>>,
)
    requires
        is_first(matches.args@, name@, i),
        call_ensures(ArgMatches::pubkeys_of, (matches, name), keys),
        call_ensures(ArgMatches::pubkeys_sigs_of, (matches, name), signers),
    ensures
        keys != Some(None::<Vec<Pubkey>>),
        signers != Some(None::<Vec<(Pubkey, Signature)>>),
        keys matches Some(Some(list)) ==> list@.len() == matches.args@[i].values@.len() && forall|
            k: int,
        |
            0 <= k < list@.len() ==> pubkey_parsed(matches.args@[i].values@[k]@) == Some(
                #[trigger] list@[k],
            ),
        signers matches Some(Some(list)) ==> list@.len() == matches.args@[i].values@.len()
            && forall|k: int|
            0 <= k < list@.len() ==> signer_parsed(matches.args@[i].values@[k]@) == Some(
                #[trigger] list@[k],
            ),
        keys is None ==> exists|k: int|
            0 <= k < matches.args@[i].values@.len() && pubkey_parsed(
                (#[trigger] matches.args@[i].values@[k])@,
            ) is None,
        signers is None ==> exists|k: int|
            0 <= k < matches.args@[i].values@.len() && signer_parsed(
                (#[trigger] matches.args@[i].values@[k])@,
            ) is None,
{
    lemma_first(matches.args@, name@, i);
    let values = matches.args@[i].values@;
    let list = texts(values);
    assert forall|k: int| 0 <= k < values.len() implies #[trigger] list[k] == values[k]@ by {}
    if keys is None {
        let k = choose|k: int| 0 <= k < list.len() && pubkey_parsed(#[trigger] list[k]) is None;
        assert(pubkey_parsed(values[k]@) is None);
    } else {
        assert(pubkeys_parsed(list) is Some);
    }
    if signers is None {
        let k = choose|k: int| 0 <= k < list.len() && signer_parsed(#[trigger] list[k]) is None;
        assert(signer_parsed(values[k]@) is None);
    } else {
        assert(signers_parsed(list) is Some);
    }
}

/// A signer is a key and a signature with a `=` between them, each of which spells one.
pub proof fn lemma_signers_are_keys_and_signatures(
    text: &str,
    key: Seq<char>,
    signature: Seq<char>,
    read: Option<(Pubkey, Signature)>,
)
    requires
        call_ensures(parse_signer, (text,), read),
        text@ == key + seq!['='] + signature,
        !key.contains('='),
        !signature.contains('='),
    ensures
        pubkey_parsed(key) is Some && signature_parsed(signature) is Some ==> read == Some(
            (pubkey_parsed(key)->0, signature_parsed(signature)->0),
        ),
        pubkey_parsed(key) is None || signature_parsed(signature) is None ==> read is None,
{
    lemma_cut(key, signature, '=');
    lemma_no_cut(signature, '=');
}

/// What follows a second `=` says nothing.
pub proof fn lemma_signers_end_at_the_second_mark(
    text: &str,
    longer: &str,
    key: Seq<char>,
    signature: Seq<char>,
    more: Seq<char>,
    read: Option<(Pubkey, Signature)>,
    read_longer: Option<(Pubkey, Signature)>,
)
    requires
        call_ensures(parse_signer, (text,), read),
        call_ensures(parse_signer, (longer,), read_longer),
        !key.contains('='),
        !signature.contains('='),
        text@ == key + seq!['='] + signature,
        longer@ == key + seq!['='] + (signature + seq!['='] + more),
    ensures
        read_longer == read,
{
    lemma_cut(key, signature, '=');
    lemma_no_cut(signature, '=');
    lemma_cut(key, signature + seq!['='] + more, '=');
    lemma_cut(signature, more, '=');
}

/// An argument has a value exactly where that is its first value.
pub proof fn lemma_values_are_compared_as_they_are(
    matches: &ArgMatches,
    name: &str,
    text: &str,
    value: Option<&str>,
    same: bool,
)
    requires
        call_ensures(ArgMatches::value_of, (matches, name), value),
        call_ensures(ArgMatches::value_is, (matches, name, text), same),
    ensures
        same <==> (value matches Some(given) && given@ == text@),
{
}

/// A text without a `=` is no signer.
pub proof fn lemma_signers_hold_their_mark(text: &str, read: Option<(Pubkey, Signature)>)
    requires
        call_ensures(parse_signer, (text,), read),
        !text@.contains('='),
    ensures
        read is None,
{
    lemma_no_cut(text@, '=');
}

/// An amount that cannot be read is refused, and quoted as it was given.
pub proof fn lemma_unreadable_amounts_are_quoted(
    matches: &ArgMatches,
    name: &str,
    unit: &str,
    i: int,
    lamports: Option<u64>,
    read: Result<u64, CliError>,
)
    requires
        is_first(matches.args@, name@, i),
        matches.args@[i].values@.len() > 0,
        call_ensures(ArgMatches::amount_of, (matches, name, unit), lamports),
        call_ensures(required_lamports_from, (matches, name, unit), read),
    ensures
        match lamports {
            Some(lamports) => read == Ok::<u64, CliError>(lamports),
            None => read matches Err(CliError::BadParameter(text)) && text@
                == "Lamports cannot be fractional: "@ + matches.args@[i].values@[0]@,
        },
{
    lemma_first(matches.args@, name@, i);
}

} // verus!
