//! Transactions signed on one machine and sent from another.
//!
//! The other machine has no secrets, so placeholders sign there and their public halves stand in
//! the place of the signers.  The signatures that are handed over take both places.
use crate::compose::nonced_transfer_ixs;
use crate::instruction::{
    advance_nonce_ix, recent_blockhashes_sysvar_id, system_program_id, transfer_ix, InstructionView,
};
use crate::keys::{Blockhash, Keypair, Pubkey, Signature};
use crate::signing::{accepts, lemma_replacing_placeholders, replaced, signers_of};
use crate::transaction::{
    compiles, is_signed_by, ix_mentions, mentions_key, must_sign,
    renamed_ix, renamed_ixs, renamed_key, signatures_hold, signed_instructions, TransactionView,
};
use vstd::prelude::*;

verus! {

/// The transaction with the signatures made elsewhere in place, where they are accepted.
pub open spec fn with_signers(
    tx: TransactionView,
    signers: Option<Seq<(Pubkey, Signature)>>,
) -> Option<TransactionView> {
    match signers {
        None => Some(tx),
        Some(list) => if accepts(tx, list) {
            Some(replaced(tx, list))
        } else {
            None
        },
    }
}

/// With the signatures of `tx` in place, `held` is `tx`, as long as these signatures hold.
pub open spec fn takes_over(held: TransactionView, tx: TransactionView) -> bool {
    with_signers(held, Some(signers_of(tx))) == if signatures_hold(tx.signatures, tx.message) {
        Some(tx)
    } else {
        None
    }
}

/// The two lists of keys have the same keys in the same places: two places of the one hold one key
/// where they do in the other.
pub open spec fn alike(here: Seq<Pubkey>, there: Seq<Pubkey>) -> bool {
    &&& here.len() == there.len()
    &&& forall|i: int, j: int|
        #![trigger here[i], here[j]]
        0 <= i < here.len() && 0 <= j < here.len() ==> (here[i] == here[j] <==> there[i]
            == there[j])
}

/// The keys of a transfer, each in its place.
pub open spec fn transfer_keys(
    payer: Pubkey,
    from: Pubkey,
    authority: Pubkey,
    to: Pubkey,
    nonce: Option<Pubkey>,
) -> Seq<Pubkey> {
    match nonce {
        Some(nonce) => seq![
            to,
            system_program_id(),
            payer,
            from,
            authority,
            nonce,
            recent_blockhashes_sysvar_id(),
        ],
        None => seq![to, system_program_id(), payer, from],
    }
}

/// The instructions of a transfer, which uses up a nonce where it has one.
pub open spec fn transfer_ixs(
    from: Pubkey,
    authority: Pubkey,
    to: Pubkey,
    lamports: u64,
    nonce: Option<Pubkey>,
) -> Seq<InstructionView> {
    match nonce {
        Some(nonce) => nonced_transfer_ixs(from, to, lamports, nonce, authority),
        None => seq![transfer_ix(from, to, lamports)],
    }
}

/// What stands in the place of a key.
spec fn counterpart(here: Seq<Pubkey>, there: Seq<Pubkey>) -> spec_fn(Pubkey) -> Pubkey {
    |key: Pubkey|
        if here.contains(key) {
            there[here.index_of(key)]
        } else {
            key
        }
}

proof fn lemma_counterpart(here: Seq<Pubkey>, there: Seq<Pubkey>, i: int)
    requires
        alike(here, there),
        0 <= i < here.len(),
    ensures
        counterpart(here, there)(here[i]) == there[i],
{
    assert(here.contains(here[i]));
    let j = here.index_of(here[i]);
    assert(0 <= j < here.len() && here[j] == here[i]);
}

proof fn lemma_counterparts_differ(here: Seq<Pubkey>, there: Seq<Pubkey>, a: Pubkey, b: Pubkey)
    requires
        alike(here, there),
        here.contains(a),
        here.contains(b),
        counterpart(here, there)(a) == counterpart(here, there)(b),
    ensures
        a == b,
{
    let i = here.index_of(a);
    let j = here.index_of(b);
    assert(0 <= i < here.len() && here[i] == a);
    assert(0 <= j < here.len() && here[j] == b);
    assert(there[i] == there[j]);
}

/// A transfer that is held on one machine takes over the signatures of the same transfer on
/// another.
pub(crate) proof fn lemma_transfer_taken_over(
    pairs: (Seq<Keypair>, Seq<Keypair>),
    paid_apart: bool,
    payer: (Pubkey, Pubkey),
    from: (Pubkey, Pubkey),
    authority: (Pubkey, Pubkey),
    to: Pubkey,
    lamports: u64,
    nonce: Option<Pubkey>,
    blockhash: Blockhash,
)
    requires
        ({
            let ixs = transfer_ixs(from.0, authority.0, to, lamports, nonce);
            let fee = if paid_apart { Some(payer.0) } else { None };
            compiles(ixs, fee)
        }),
        !paid_apart ==> payer == from,
        alike(
            transfer_keys(payer.0, from.0, authority.0, to, nonce),
            transfer_keys(payer.1, from.1, authority.1, to, nonce),
        ),
    ensures
        takes_over(
            signed_instructions(
                pairs.0,
                transfer_ixs(from.0, authority.0, to, lamports, nonce),
                if paid_apart { Some(payer.0) } else { None },
                blockhash,
            ),
            signed_instructions(
                pairs.1,
                transfer_ixs(from.1, authority.1, to, lamports, nonce),
                if paid_apart { Some(payer.1) } else { None },
                blockhash,
            ),
        ),
{
    let here = transfer_keys(payer.0, from.0, authority.0, to, nonce);
    let there = transfer_keys(payer.1, from.1, authority.1, to, nonce);
    let rename = counterpart(here, there);
    let ixs = transfer_ixs(from.0, authority.0, to, lamports, nonce);
    let fee = if paid_apart { Some(payer.0) } else { None };
    assert forall|i: int| 0 <= i < here.len() implies rename(#[trigger] here[i]) == there[i] by {
        lemma_counterpart(here, there, i);
    }
    assert(here[0] == to && here[1] == system_program_id() && here[2] == payer.0 && here[3]
        == from.0);
    if nonce is Some {
        assert(here[4] == authority.0 && here[5] == nonce->0 && here[6]
            == recent_blockhashes_sysvar_id());
    }
    assert forall|key: Pubkey| mentions_key(ixs, fee, key) implies here.contains(key) by {
        if fee != Some(key) {
            let i = choose|i: int| 0 <= i < ixs.len() && ix_mentions(#[trigger] ixs[i], key);
            if ixs[i].program_id != key {
                let j = choose|j: int|
                    0 <= j < ixs[i].accounts.len() && (#[trigger] ixs[i].accounts[j]).pubkey == key;
            }
        }
    }
    assert forall|a: Pubkey, b: Pubkey| #[trigger]
        mentions_key(ixs, fee, a) && #[trigger] mentions_key(ixs, fee, b) && rename(a) == rename(
            b,
        ) implies a == b by {
        lemma_counterparts_differ(here, there, a, b);
    }
    assert forall|key: Pubkey| #[trigger]
        mentions_key(ixs, fee, key) && !must_sign(ixs, fee, key) implies rename(key) == key by {
        let i = here.index_of(key);
        assert(here[i] == key);
        let last = ixs.len() - 1;
        assert(ixs[last].accounts[0].pubkey == from.0);
        assert(is_signed_by(ixs[last], from.0));
        if nonce is Some {
            let k: int = if authority.0 == nonce->0 {
                0
            } else if authority.0 == recent_blockhashes_sysvar_id() {
                1
            } else {
                2
            };
            assert(ixs[0].accounts[k].pubkey == authority.0 && ixs[0].accounts[k].is_signer);
            assert(is_signed_by(ixs[0], authority.0));
        }
    }
    let moved = transfer_ixs(from.1, authority.1, to, lamports, nonce);
    assert(renamed_ix(transfer_ix(from.0, to, lamports), rename) =~= transfer_ix(
        from.1,
        to,
        lamports,
    ));
    if nonce is Some {
        assert(here[4] == here[5] <==> there[4] == there[5]);
        assert(here[4] == here[6] <==> there[4] == there[6]);
        assert(renamed_ix(advance_nonce_ix(nonce->0, authority.0), rename) =~= advance_nonce_ix(
            nonce->0,
            authority.1,
        ));
    }
    assert(renamed_ixs(ixs, rename) =~= moved);
    assert(renamed_key(fee, rename) == if paid_apart { Some(payer.1) } else { None });
    lemma_replacing_placeholders(pairs.0, pairs.1, ixs, fee, blockhash, rename);
}

} // verus!
