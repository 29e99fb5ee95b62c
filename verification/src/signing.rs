//! Signatures handed over between machines: printed where they are made, put in where they are
//! used.
use crate::errors::{CliError, CommandError, ProcessResult};
use crate::instruction::InstructionView;
use crate::keys::{
    blockhash_text, pubkey_text, signature_text, Blockhash, Keypair, Pubkey, Signature,
};
use crate::matches::signer_parsed;
use crate::text::{joined, lemma_cut, lemma_no_cut, texts};
use crate::transaction::{
    compiled_message, compiles, mentions_key, must_sign, renamed_ixs, renamed_key,
    signatures_hold, signed_instructions, tells_apart, verify, MessageView, Transaction,
    TransactionView,
};
use vstd::prelude::*;

verus! {

/// A JSON object of texts and lists of texts, as `serde_json` prints it.
pub uninterp spec fn object_text(
    fields: Seq<(Seq<char>, Seq<char>)>,
    lists: Seq<(Seq<char>, Seq<Seq<char>>)>,
) -> Seq<char>;

/// The fields as values to reason with.
pub open spec fn field_texts(fields: Seq<(&str, String)>) -> Seq<(Seq<char>, Seq<char>)> {
    fields.map_values(|f: (&str, String)| (f.0@, f.1@))
}

/// The lists as values to reason with.
pub open spec fn list_texts(lists: Seq<(&str, Vec<String>)>) -> Seq<(Seq<char>, Seq<Seq<char>>)> {
    lists.map_values(|l: (&str, Vec<String>)| (l.0@, texts(l.1@)))
}

/// `serde_json::Map` filled with the fields and the lists, and its text as a
/// `serde_json::Value`.  Claimed: the text depends on them alone.
#[verifier::external_body]
pub(crate) fn show_object(fields: Vec<(&str, String)>, lists: Vec<(&str, Vec<String>)>) -> (r: String)
    ensures
        r@ == object_text(field_texts(fields@), list_texts(lists@)),
{
    let mut map = serde_json::Map::new();
    map.extend(fields.into_iter().map(|(name, text)| (name.to_string(), text.into())));
    map.extend(lists.into_iter().map(|(name, list)| (name.to_string(), list.into())));
    serde_json::Value::Object(map).to_string()
}

/// A signature and whose it is, with a `=` between them.
pub open spec fn signer_text(pubkey: Pubkey, signature: Signature) -> Seq<char> {
    pubkey_text(pubkey) + "="@ + signature_text(signature)
}

/// The transaction's signatures and whose they are, as far as there are both.
pub open spec fn signer_texts(tx: TransactionView) -> Seq<Seq<char>> {
    let n = if tx.signatures.len() <= tx.message.account_keys.len() {
        tx.signatures.len()
    } else {
        tx.message.account_keys.len()
    };
    Seq::new(n, |i: int| signer_text(tx.message.account_keys[i], tx.signatures[i]))
}

/// A signature and whose it is, as text that can be given as a signer.
pub fn show_signer(pubkey: &Pubkey, signature: &Signature) -> (r: String)
    ensures
        r@ == signer_text(*pubkey, *signature),
        signer_parsed(r@) == Some((*pubkey, *signature)),
{
    let key = pubkey.to_string();
    let rest = signature.to_string();
    let left = joined(key.as_str(), "=");
    let r = joined(left.as_str(), rest.as_str());
    proof {
        reveal_strlit("=");
        assert(r@ =~= key@ + seq!['='] + rest@);
        lemma_cut(key@, rest@, '=');
        lemma_no_cut(rest@, '=');
    }
    r
}

/// The transaction's signatures and whose they are, each as text that can be given as a signer.
pub fn show_signers(tx: &Transaction) -> (r: Vec<String>)
    ensures
        texts(r@) == signer_texts(tx@),
        forall|i: int|
            0 <= i < r@.len() ==> signer_parsed((#[trigger] r@[i])@) == Some(
                (tx.message.account_keys@[i], tx.signatures@[i]),
            ),
{
    let mut r: Vec<String> = Vec::new();
    let mut i: usize = 0;
    while i < tx.signatures.len() && i < tx.message.account_keys.len()
        invariant
            i <= tx.signatures@.len(),
            i <= tx.message.account_keys@.len(),
            r@.len() == i,
            forall|j: int|
                0 <= j < i ==> (#[trigger] r@[j])@ == signer_text(
                    tx.message.account_keys@[j],
                    tx.signatures@[j],
                ),
            forall|j: int|
                0 <= j < i ==> signer_parsed((#[trigger] r@[j])@) == Some(
                    (tx.message.account_keys@[j], tx.signatures@[j]),
                ),
        decreases tx.signatures.len() - i,
    {
        r.push(show_signer(&tx.message.account_keys[i], &tx.signatures[i]));
        i += 1;
    }
    assert(texts(r@) =~= signer_texts(tx@));
    r
}

/// What a transaction that is only signed comes to: its blockhash and its signers.
pub open spec fn signers_json(tx: TransactionView) -> Seq<char> {
    object_text(
        seq![("blockhash"@, blockhash_text(tx.message.recent_blockhash))],
        seq![("signers"@, signer_texts(tx))],
    )
}

/// What a transaction that is only signed comes to.
pub fn return_signers(tx: &Transaction) -> (r: ProcessResult)
    ensures
        r matches Ok(text) && text@ == signers_json(tx@),
{
    let fields: Vec<(&str, String)> = vec![("blockhash", tx.message.recent_blockhash.to_string())];
    let lists: Vec<(&str, Vec<String>)> = vec![("signers", show_signers(tx))];
    assert(field_texts(fields@) =~= seq![
        ("blockhash"@, blockhash_text(tx.message.recent_blockhash)),
    ]);
    assert(list_texts(lists@) =~= seq![("signers"@, signer_texts(tx@))]);
    Ok(show_object(fields, lists))
}

/// Whether there is one signer for each signature that the transaction needs.
pub open spec fn replaceable(tx: TransactionView, signers: Seq<(Pubkey, Signature)>) -> bool {
    let n = tx.message.num_required_signatures;
    signers.len() == n && tx.signatures.len() == n && tx.message.account_keys.len() >= n
}

/// The transaction with the signers in the place of its own.
pub open spec fn replaced(
    tx: TransactionView,
    signers: Seq<(Pubkey, Signature)>,
) -> TransactionView {
    TransactionView {
        signatures: signers.map_values(|s: (Pubkey, Signature)| s.1),
        message: MessageView {
            account_keys: Seq::new(
                tx.message.account_keys.len(),
                |i: int|
                    if i < signers.len() {
                        signers[i].0
                    } else {
                        tx.message.account_keys[i]
                    },
            ),
            ..tx.message
        },
    }
}

/// The transaction's signatures and whose they are.
pub open spec fn signers_of(tx: TransactionView) -> Seq<(Pubkey, Signature)> {
    Seq::new(tx.signatures.len(), |i: int| (tx.message.account_keys[i], tx.signatures[i]))
}

/// The transaction with the signers in place is one that they signed.
pub open spec fn accepts(tx: TransactionView, signers: Seq<(Pubkey, Signature)>) -> bool {
    replaceable(tx, signers) && signatures_hold(
        replaced(tx, signers).signatures,
        replaced(tx, signers).message,
    )
}

/// The text of the error for signers that did not sign the transaction.
pub open spec fn is_refused_signer(error: CommandError) -> bool {
    error matches CommandError::Cli(CliError::BadParameter(text)) && text@
        == "Transaction construction failed, incorrect signature or public key provided"@
}

/// Puts the signers into the transaction, in the order of the keys that sign.  They are refused
/// where their number is wrong, which leaves the transaction as it was, or where one of the
/// signatures is not one of the transaction.
pub fn replace_signatures(tx: &mut Transaction, signers: &Vec<(Pubkey, Signature)>) -> (r: ProcessResult)
    requires
        replaceable(old(tx)@, signers@) ==> old(tx)@.message.fits(),
    ensures
        final(tx)@ == if replaceable(old(tx)@, signers@) {
            replaced(old(tx)@, signers@)
        } else {
            old(tx)@
        },
        accepts(old(tx)@, signers@) ==> (r matches Ok(text) && text@ == ""@),
        !accepts(old(tx)@, signers@) ==> (r matches Err(error) && is_refused_signer(error)),
{
    let n: usize = tx.message.num_required_signatures as usize;
    let refused: ProcessResult = Err(
        CommandError::Cli(
            CliError::BadParameter(
                "Transaction construction failed, incorrect signature or public key provided".to_owned(),
            ),
        ),
    );
    if signers.len() != n || tx.signatures.len() != n || tx.message.account_keys.len() < n {
        return refused;
    }
    let ghost before = tx@;
    let mut i: usize = 0;
    while i < n
        invariant
            i <= n,
            signers@.len() == n,
            n == before.message.num_required_signatures,
            before.signatures.len() == n,
            before.message.account_keys.len() >= n,
            tx.signatures@ =~= Seq::new(
                n as nat,
                |j: int|
                    if j < i {
                        signers@[j].1
                    } else {
                        before.signatures[j]
                    },
            ),
            tx.message@ =~= (MessageView {
                account_keys: Seq::new(
                    before.message.account_keys.len(),
                    |j: int|
                        if j < i {
                            signers@[j].0
                        } else {
                            before.message.account_keys[j]
                        },
                ),
                ..before.message
            }),
        decreases n - i,
    {
        let (pubkey, signature) = signers[i];
        tx.signatures.set(i, signature);
        tx.message.account_keys.set(i, pubkey);
        i += 1;
    }
    assert(tx@ =~= replaced(before, signers@));
    assert(tx@.message.fits());
    if verify(tx) {
        Ok("".to_owned())
    } else {
        refused
    }
}

/// Signatures read off one machine and put into the same transaction on another give back the
/// transaction that was signed: who hands over what was printed hands over the transaction.
pub proof fn lemma_handing_over_signatures(tx: TransactionView)
    requires
        tx.signatures.len() == tx.message.num_required_signatures,
        tx.message.num_required_signatures <= tx.message.account_keys.len(),
    ensures
        signer_texts(tx) == signers_of(tx).map_values(
            |s: (Pubkey, Signature)| signer_text(s.0, s.1),
        ),
        replaceable(tx, signers_of(tx)),
        replaced(tx, signers_of(tx)) == tx,
{
    let signers = signers_of(tx);
    assert(signer_texts(tx) =~= signers.map_values(|s: (Pubkey, Signature)| signer_text(s.0, s.1)));
    assert(replaced(tx, signers).signatures =~= tx.signatures);
    assert(replaced(tx, signers).message.account_keys =~= tx.message.account_keys);
}

/// The same holds where placeholders signed on the other machine: the instructions there mention
/// other keys in the place of the signers, and these are replaced together with their signatures.
pub(crate) proof fn lemma_replacing_placeholders(
    here: Seq<Keypair>,
    there: Seq<Keypair>,
    ixs: Seq<InstructionView>,
    payer: Option<Pubkey>,
    blockhash: Blockhash,
    rename: spec_fn(Pubkey) -> Pubkey,
)
    requires
        compiles(ixs, payer),
        tells_apart(rename, ixs, payer),
        forall|key: Pubkey| #[trigger]
            mentions_key(ixs, payer, key) && !must_sign(ixs, payer, key) ==> rename(key) == key,
    ensures
        ({
            let tx = signed_instructions(
                there,
                renamed_ixs(ixs, rename),
                renamed_key(payer, rename),
                blockhash,
            );
            let held = signed_instructions(here, ixs, payer, blockhash);
            replaceable(held, signers_of(tx)) && replaced(held, signers_of(tx)) == tx
        }),
{
    let message = compiled_message(ixs, payer);
    let held = signed_instructions(here, ixs, payer, blockhash);
    let tx = signed_instructions(
        there,
        renamed_ixs(ixs, rename),
        renamed_key(payer, rename),
        blockhash,
    );
    assert(tx.message == message.renamed(rename).with_blockhash(blockhash));
    let n = message.num_required_signatures as int;
    let keys = message.account_keys;
    assert forall|i: int| n <= i < keys.len() implies rename(#[trigger] keys[i]) == keys[i] by {
        assert(mentions_key(ixs, payer, keys[i]));
        if must_sign(ixs, payer, keys[i]) {
            assert(message.signing_keys().contains(keys[i]));
            let j = choose|j: int| 0 <= j < n && message.signing_keys()[j] == keys[i];
            assert(keys[j] == keys[i]);
        }
    }
    let signers = signers_of(tx);
    assert(replaced(held, signers).signatures =~= tx.signatures);
    assert(replaced(held, signers).message.account_keys =~= tx.message.account_keys);
}

} // verus!
