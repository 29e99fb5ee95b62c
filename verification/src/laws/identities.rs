//! Keys, signers and the configuration that a command runs under.
use crate::authority::SigningAuthority;
use crate::command::{
    derivation_for, CliCommand, CliConfig, CommitmentConfig, CommitmentLevel, DerivationPath,
    PayCommand, PubkeySource,
};
use crate::errors::{CliError, CommandError};
use crate::fees::{BlockhashQuery, FeeCalculator};
use crate::keys::{
    blockhash_text, pubkey_text, signature_text, Blockhash, Keypair, KeypairEq, Pubkey, Signature,
};
use crate::laws::steps::{is_usb_path, lemma_usb_path};
use crate::laws::transfers::{are_its_signatures, owner_of};
use crate::matches::{parse_signer, ArgMatches};
use crate::progress::FaucetKeypair;
use crate::signing::{
    object_text, replace_signatures, replaced, return_signers, show_signer, show_signers,
    signer_texts,
};
use crate::text::texts;
use crate::transaction::Transaction;
use vstd::prelude::*;
use vstd::std_specs::cmp::PartialEqSpec;
use vstd::std_specs::convert::FromSpec;

verus! {

/// One of the signers has the key.
pub open spec fn has_signature_of(signers: Seq<(Pubkey, Signature)>, key: Pubkey) -> bool {
    exists|i: int| 0 <= i < signers.len() && (#[trigger] signers[i]).0 == key
}

/// Keys, blockhashes and signatures read back from the text that they are shown by.
pub proof fn lemma_shown_keys_read_back(
    key: &Pubkey,
    key_text: String,
    key_read: Option<Pubkey>,
    hash: &Blockhash,
    hash_text: String,
    hash_read: Option<Blockhash>,
    signature: &Signature,
    signature_shown: String,
    signature_read: Option<Signature>,
    a: &str,
    b: &str,
    c: &str,
)
    requires
        call_ensures(Pubkey::to_string, (key,), key_text),
        call_ensures(Blockhash::to_string, (hash,), hash_text),
        call_ensures(Signature::to_string, (signature,), signature_shown),
        a@ == key_text@,
        b@ == hash_text@,
        c@ == signature_shown@,
        call_ensures(Pubkey::parse, (a,), key_read),
        call_ensures(Blockhash::parse, (b,), hash_read),
        call_ensures(Signature::parse, (c,), signature_read),
    ensures
        key_read == Some(*key),
        hash_read == Some(*hash),
        signature_read == Some(*signature),
{
}

/// Keys, blockhashes and signatures are the bytes that they were made of, each in its place.
pub proof fn lemma_keys_are_their_bytes(
    bytes: &[u8; 32],
    long: &[u8; 64],
    key: Pubkey,
    hash: Blockhash,
    signature: Signature,
)
    requires
        call_ensures(Pubkey::new, (bytes,), key),
        call_ensures(Blockhash::new, (bytes,), hash),
        call_ensures(Signature::new, (long,), signature),
    ensures
        forall|i: int| 0 <= i < 32 ==> #[trigger] key.bytes@[i] == bytes@[i],
        forall|i: int| 0 <= i < 32 ==> #[trigger] hash.bytes@[i] == bytes@[i],
        forall|i: int| 0 <= i < 64 ==> #[trigger] signature.bytes@[i] == long@[i],
{
}

/// A signer reads back from the text that it is shown by.
pub proof fn lemma_shown_signers_read_back(
    key: &Pubkey,
    signature: &Signature,
    shown: String,
    text: &str,
    read: Option<(Pubkey, Signature)>,
)
    requires
        call_ensures(show_signer, (key, signature), shown),
        text@ == shown@,
        call_ensures(parse_signer, (text,), read),
    ensures
        shown@ == pubkey_text(*key) + "="@ + signature_text(*signature),
        read == Some((*key, *signature)),
{
}

/// The signers of a transaction are shown one by one, each with its own signature.
pub proof fn lemma_all_signers_are_shown(tx: &Transaction, shown: Vec<String>, i: int)
    requires
        call_ensures(show_signers, (tx,), shown),
        tx@.signatures.len() <= tx@.message.account_keys.len(),
    ensures
        shown@.len() == tx@.signatures.len(),
        0 <= i < shown@.len() ==> shown@[i]@ == pubkey_text(tx@.message.account_keys[i]) + "="@
            + signature_text(tx@.signatures[i]),
{
    assert(texts(shown@).len() == shown@.len());
    if 0 <= i < shown@.len() {
        assert(texts(shown@)[i] == shown@[i]@);
    }
}

/// Signers are put into a transaction where they are its own: each key and signature in its place,
/// and nothing else changed.  Where they are not they are refused, and where their number is wrong
/// the transaction stays as it was.
pub proof fn lemma_signers_are_put_in_their_places(
    tx: &mut Transaction,
    signers: &Vec<(Pubkey, Signature)>,
    said: Result<String, CommandError>,
)
    requires
        call_ensures(replace_signatures, (tx, signers), said),
    ensures
        said is Ok <==> are_its_signatures(old(tx)@, signers@),
        said matches Ok(text) ==> text@ == ""@,
        said matches Err(error) ==> (error matches CommandError::Cli(CliError::BadParameter(text))
            && text@
            == "Transaction construction failed, incorrect signature or public key provided"@),
        said is Ok ==> {
            &&& final(tx)@.signatures.len() == signers@.len()
            &&& final(tx)@.message.account_keys.len() == old(tx)@.message.account_keys.len()
            &&& final(tx)@.message.instructions == old(tx)@.message.instructions
            &&& final(tx)@.message.recent_blockhash == old(tx)@.message.recent_blockhash
            &&& forall|i: int|
                0 <= i < signers@.len() ==> (#[trigger] signers@[i]) == (
                    final(tx)@.message.account_keys[i],
                    final(tx)@.signatures[i],
                )
            &&& forall|i: int|
                signers@.len() <= i < old(tx)@.message.account_keys.len()
                    ==> #[trigger] final(tx)@.message.account_keys[i]
                    == old(tx)@.message.account_keys[i]
        },
        signers@.len() != old(tx)@.message.num_required_signatures ==> final(tx)@ == old(tx)@,
{
    let before = old(tx)@;
    if before.message.account_keys.len() >= signers@.len() {
        assert(replaced(before, signers@).message.account_keys =~= signers@.map_values(
            |s: (Pubkey, Signature)| s.0,
        ) + before.message.account_keys.skip(signers@.len() as int));
    }
}

/// What is printed of a signed transaction is its blockhash and its signers.
pub proof fn lemma_signed_transactions_are_printed(
    tx: &Transaction,
    printed: Result<String, CommandError>,
)
    requires
        call_ensures(return_signers, (tx,), printed),
        tx@.signatures.len() <= tx@.message.account_keys.len(),
    ensures
        printed matches Ok(text) && text@ == object_text(
            seq![("blockhash"@, blockhash_text(tx@.message.recent_blockhash))],
            seq![
                (
                    "signers"@,
                    Seq::new(
                        tx@.signatures.len(),
                        |i: int|
                            pubkey_text(tx@.message.account_keys[i]) + "="@ + signature_text(
                                tx@.signatures[i],
                            ),
                    ),
                ),
            ],
        ),
{
    assert(signer_texts(tx@) =~= Seq::new(
        tx@.signatures.len(),
        |i: int|
            pubkey_text(tx@.message.account_keys[i]) + "="@ + signature_text(tx@.signatures[i]),
    ));
}

/// A key pair is what its secret makes it, and an authority signs with its own key pair in the name
/// of its own key.
pub proof fn lemma_authorities_sign_for_themselves(
    seed: &[u8; 32],
    pair: Keypair,
    authority: &SigningAuthority,
    signs: &Keypair,
    key: Pubkey,
)
    requires
        call_ensures(Keypair::from_seed, (seed,), pair),
        call_ensures(SigningAuthority::keypair, (authority,), signs),
        call_ensures(SigningAuthority::pubkey, (authority,), key),
    ensures
        pair.secret == *seed,
        match *authority {
            SigningAuthority::Online(own) => *signs == own && key == own.spec_pubkey(),
            SigningAuthority::Offline(other, own) => *signs == own && key == other,
        },
{
}

/// An authority that was not given is none.  One that was is the key pair that it leads to, or else
/// its public key where one of the signers has it, and is refused where none does.
pub proof fn lemma_authorities_are_pairs_or_signers(
    matches: &ArgMatches,
    name: &str,
    signers: &Option<Vec<(Pubkey, Signature)>>,
    present: bool,
    pair: Option<Keypair>,
    key: Option<Pubkey>,
    found: Result<Option<SigningAuthority>, CliError>,
)
    requires
        call_ensures(ArgMatches::is_present, (matches, name), present),
        call_ensures(ArgMatches::keypair_of, (matches, name), pair),
        call_ensures(ArgMatches::pubkey_of, (matches, name), key),
        call_ensures(SigningAuthority::new_from_matches, (matches, name, signers), found),
    ensures
        !present ==> found == Ok::<Option<SigningAuthority>, CliError>(None),
        present && pair is Some ==> found == Ok::<Option<SigningAuthority>, CliError>(
            Some(SigningAuthority::Online(pair->0)),
        ),
        present && pair is None ==> if key is Some && signers is Some && has_signature_of(
            signers->0@,
            key->0,
        ) {
            &&& found matches Ok(Some(SigningAuthority::Offline(other, own)))
            &&& other == key->0
            &&& own.secret == other.bytes
        } else {
            found matches Err(CliError::BadParameter(text)) && text@ == "Invalid authority"@
        },
{
}

/// A faucet's signer has the first key and the first signature of the transaction that it came with,
/// whatever it is asked to sign.
pub proof fn lemma_faucets_sign_what_they_brought(
    transaction: Transaction,
    keypair: FaucetKeypair,
    copy: Transaction,
    key: Pubkey,
    message: &[u8],
    signature: Signature,
)
    requires
        transaction.message.account_keys@.len() > 0,
        transaction.signatures@.len() > 0,
        call_ensures(FaucetKeypair::new_keypair, (transaction,), keypair),
        call_ensures(FaucetKeypair::airdrop_transaction, (&keypair,), copy),
        call_ensures(FaucetKeypair::pubkey, (&keypair,), key),
        call_ensures(FaucetKeypair::sign_message, (&keypair, message), signature),
    ensures
        copy@ == transaction@,
        key == transaction.message.account_keys@[0],
        signature == transaction.signatures@[0],
{
}

/// The client's key is the key pair's, unless the path of the key pair names a hardware wallet: then
/// it is the wallet's, under the derivation path that was given.
pub proof fn lemma_clients_keep_their_key_in_one_place(config: &CliConfig, source: PubkeySource)
    requires
        call_ensures(CliConfig::pubkey, (config,), source),
    ensures
        if is_usb_path(config.keypair_path) {
            &&& source matches PubkeySource::Wallet { path, derivation_path }
            &&& path@ == config.keypair_path->0@
            &&& derivation_path == config.derivation_path
        } else {
            source == PubkeySource::Local(config.keypair.spec_pubkey())
        },
{
    lemma_usb_path(config.keypair_path);
}

/// A derivation path that was given comes before the wallet's own.
pub proof fn lemma_given_derivation_paths_come_first(
    given: Option<DerivationPath>,
    own: DerivationPath,
    found: DerivationPath,
)
    requires
        call_ensures(derivation_for, (given, own), found),
    ensures
        given is Some ==> Some(found) == given,
        given is None ==> found == own,
{
}

/// The key pair file lies in `.config/solana/id.json` under the home directory, with one separator
/// between the two, whether or not the home directory ends in one.
pub proof fn lemma_key_pair_files_lie_under_the_home_directory(
    home: &str,
    separator: &str,
    path: String,
)
    requires
        separator@.len() == 1,
        home@.len() > 0,
        call_ensures(CliConfig::keypair_path_in, (home, separator), path),
    ensures
        home@.last() != separator@[0] ==> path@ == home@ + separator@ + ".config"@ + separator@
            + "solana"@ + separator@ + "id.json"@,
        home@.last() == separator@[0] ==> path@ == home@ + ".config"@ + separator@ + "solana"@
            + separator@ + "id.json"@,
{
}

/// Until something else is asked for, a command asks for the balance of the key of zeros, in SOL, on
/// a cluster on this machine, and tells nothing of itself.
pub proof fn lemma_configurations_start_out_plain(
    keypair: Keypair,
    path: String,
    config: CliConfig,
    url: String,
    home: Option<String>,
    separator: &str,
    found: Option<CliConfig>,
    lies: Option<String>,
)
    requires
        separator@.len() == 1,
        call_ensures(CliConfig::new_default, (keypair, path), config),
        call_ensures(CliConfig::default_json_rpc_url, (), url),
        call_ensures(CliConfig::keypair_path_for, (home, separator), lies),
        call_ensures(CliConfig::default_for, (home, keypair, separator), found),
    ensures
        url@ == "http://127.0.0.1:8899"@,
        config.json_rpc_url@ == url@,
        config.keypair == keypair,
        config.keypair_path matches Some(text) && text@ == path@,
        config.derivation_path is None,
        !config.verbose,
        config.command matches CliCommand::Balance { pubkey, use_lamports_unit }
            && !use_lamports_unit && (pubkey matches Some(key) && forall|i: int|
            0 <= i < 32 ==> #[trigger] key.bytes@[i] == 0),
        home is Some <==> lies is Some,
        home is Some <==> found is Some,
        found matches Some(other) ==> {
            &&& other.keypair == keypair
            &&& other.command == config.command
            &&& other.json_rpc_url@ == url@
            &&& other.derivation_path is None
            &&& !other.verbose
            &&& other.keypair_path matches Some(text) && text@ == lies->0@
        },
{
}

/// Where nothing is said, a payment is one of nothing to the key of zeros that nothing holds back, a
/// signature costs nothing, the blockhash is the cluster's and the blocks are settled for good.
pub proof fn lemma_defaults_say_nothing(
    pay: PayCommand,
    fees: FeeCalculator,
    query: BlockhashQuery,
    key: Pubkey,
    hash: Blockhash,
    commitment: CommitmentConfig,
)
    requires
        call_ensures(PayCommand::default, (), pay),
        call_ensures(FeeCalculator::default, (), fees),
        call_ensures(BlockhashQuery::default, (), query),
        call_ensures(Pubkey::default, (), key),
        call_ensures(Blockhash::default, (), hash),
        call_ensures(CommitmentConfig::default, (), commitment),
    ensures
        pay.lamports == 0,
        pay.to == key,
        pay.timestamp is None,
        pay.timestamp_pubkey is None,
        pay.witnesses is None,
        !pay.cancelable,
        !pay.sign_only,
        pay.signers is None,
        pay.blockhash_query == query,
        pay.nonce_account is None,
        pay.nonce_authority is None,
        fees.lamports_per_signature == 0,
        query == BlockhashQuery::All,
        forall|i: int| 0 <= i < 32 ==> #[trigger] key.bytes@[i] == 0,
        forall|i: int| 0 <= i < 32 ==> #[trigger] hash.bytes@[i] == 0,
        commitment.commitment == CommitmentLevel::Max,
{
}

/// Key pairs and authorities are equal where their public keys are, whatever they sign with.
pub proof fn lemma_equal_signers_have_equal_keys(
    a: KeypairEq,
    b: KeypairEq,
    c: SigningAuthority,
    d: SigningAuthority,
)
    ensures
        a.eq_spec(&b) <==> a.0.spec_pubkey() == b.0.spec_pubkey(),
        c.eq_spec(&d) <==> owner_of(Some(c), a.0) == owner_of(Some(d), a.0),
{
}

/// A key pair makes an authority that is at hand, and a public key one that signs elsewhere, whose
/// place a key pair made from the key holds.
pub proof fn lemma_authorities_are_made_of_keys(pair: Keypair, key: Pubkey)
    ensures
        SigningAuthority::from_spec(pair) == SigningAuthority::Online(pair),
        SigningAuthority::from_spec(key) == SigningAuthority::Offline(
            key,
            Keypair { secret: key.bytes },
        ),
        KeypairEq::from_spec(pair).0 == pair,
{
}

/// An error of the command line says that something is invalid, whichever way it is asked.
pub proof fn lemma_errors_say_that_something_is_invalid(
    error: &CliError,
    text: String,
    description: &str,
)
    requires
        call_ensures(CliError::to_string, (error,), text),
        call_ensures(CliError::description, (error,), description),
    ensures
        text@ == "invalid"@,
        description@ == text@,
{
}

} // verus!
