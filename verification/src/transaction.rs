//! Messages and transactions: instructions compiled into one message, signed by its signers.
use crate::instruction::{instruction_views, AccountMeta, Instruction, InstructionView};
use crate::keys::{unset_blockhash, Blockhash, Keypair, Pubkey, Signature};
use solana_sdk::instruction::{
    AccountMeta as SdkAccountMeta, CompiledInstruction as SdkCompiledInstruction,
    Instruction as SdkInstruction,
};
use solana_sdk::hash::Hash as SdkHash;
use solana_sdk::message::Message as SdkMessage;
use solana_sdk::pubkey::Pubkey as SdkPubkey;
use solana_sdk::signature::{keypair_from_seed, Signer};
use solana_sdk::transaction::Transaction as SdkTransaction;
use vstd::prelude::*;

verus! {

/// An instruction inside a message: its program and accounts are indices into the message's keys.
#[derive(Clone, Debug, PartialEq, Eq)]
pub struct CompiledInstruction {
    pub program_id_index: u8,
    pub accounts: Vec<u8>,
    pub data: Vec<u8>,
}

/// What is signed and run as a whole.
#[derive(Clone, Debug, PartialEq, Eq)]
pub struct Message {
    /// The first so many of `account_keys` have to sign.
    pub num_required_signatures: u8,
    /// The last so many of the keys that sign are only read.
    pub num_readonly_signed_accounts: u8,
    /// The last so many of the keys that do not sign are only read.
    pub num_readonly_unsigned_accounts: u8,
    pub account_keys: Vec<Pubkey>,
    pub recent_blockhash: Blockhash,
    pub instructions: Vec<CompiledInstruction>,
}

/// A message and its signatures, in the order of the keys that sign.
#[derive(Clone, Debug, PartialEq, Eq)]
pub struct Transaction {
    pub signatures: Vec<Signature>,
    pub message: Message,
}

/// A compiled instruction as a value to reason with.
#[verifier::ext_equal]
pub struct CompiledInstructionView {
    pub program_id_index: u8,
    pub accounts: Seq<u8>,
    pub data: Seq<u8>,
}

/// A message as a value to reason with.
#[verifier::ext_equal]
pub struct MessageView {
    pub num_required_signatures: u8,
    pub num_readonly_signed_accounts: u8,
    pub num_readonly_unsigned_accounts: u8,
    pub account_keys: Seq<Pubkey>,
    pub recent_blockhash: Blockhash,
    pub instructions: Seq<CompiledInstructionView>,
}

/// A transaction as a value to reason with.
#[verifier::ext_equal]
pub struct TransactionView {
    pub signatures: Seq<Signature>,
    pub message: MessageView,
}

impl View for CompiledInstruction {
    type V = CompiledInstructionView;

    open spec fn view(&self) -> CompiledInstructionView {
        CompiledInstructionView {
            program_id_index: self.program_id_index,
            accounts: self.accounts@,
            data: self.data@,
        }
    }
}

impl View for Message {
    type V = MessageView;

    open spec fn view(&self) -> MessageView {
        MessageView {
            num_required_signatures: self.num_required_signatures,
            num_readonly_signed_accounts: self.num_readonly_signed_accounts,
            num_readonly_unsigned_accounts: self.num_readonly_unsigned_accounts,
            account_keys: self.account_keys@,
            recent_blockhash: self.recent_blockhash,
            instructions: self.instructions@.map_values(|i: CompiledInstruction| i@),
        }
    }
}

impl View for Transaction {
    type V = TransactionView;

    open spec fn view(&self) -> TransactionView {
        TransactionView { signatures: self.signatures@, message: self.message@ }
    }
}

impl MessageView {
    /// The keys that have to sign.
    pub open spec fn signing_keys(self) -> Seq<Pubkey> {
        self.account_keys.take(self.num_required_signatures as int)
    }

    /// The same message with another blockhash.
    pub open spec fn with_blockhash(self, blockhash: Blockhash) -> MessageView {
        MessageView { recent_blockhash: blockhash, ..self }
    }

    /// The same message with its keys renamed.
    pub open spec fn renamed(self, rename: spec_fn(Pubkey) -> Pubkey) -> MessageView {
        MessageView { account_keys: self.account_keys.map_values(rename), ..self }
    }

    /// Every list is short enough to be written with a two-byte length.
    pub open spec fn fits(self) -> bool {
        &&& self.account_keys.len() <= 0xffff
        &&& self.instructions.len() <= 0xffff
        &&& forall|i: int|
            0 <= i < self.instructions.len() ==> (#[trigger] self.instructions[i]).accounts.len() <= 0xffff
                && self.instructions[i].data.len() <= 0xffff
    }
}

/// How many keys the instructions mention, counting repetitions.
pub open spec fn mentions(ixs: Seq<InstructionView>) -> nat
    decreases ixs.len(),
{
    if ixs.len() == 0 {
        0
    } else {
        mentions(ixs.drop_last()) + ixs.last().accounts.len() + 1
    }
}

/// Whether the instruction names `key` as a signer.
pub open spec fn is_signed_by(ix: InstructionView, key: Pubkey) -> bool {
    exists|j: int|
        0 <= j < ix.accounts.len() && (#[trigger] ix.accounts[j]).is_signer && ix.accounts[j].pubkey
            == key
}

/// Whether a message that carries the instructions needs the signature of `key`.
pub open spec fn must_sign(ixs: Seq<InstructionView>, payer: Option<Pubkey>, key: Pubkey) -> bool {
    payer == Some(key) || exists|i: int| 0 <= i < ixs.len() && is_signed_by(#[trigger] ixs[i], key)
}

/// Whether the instruction mentions `key`.
pub open spec fn ix_mentions(ix: InstructionView, key: Pubkey) -> bool {
    ix.program_id == key || exists|j: int|
        0 <= j < ix.accounts.len() && (#[trigger] ix.accounts[j]).pubkey == key
}

/// Whether the instructions mention `key` or it pays.
pub open spec fn mentions_key(
    ixs: Seq<InstructionView>,
    payer: Option<Pubkey>,
    key: Pubkey,
) -> bool {
    payer == Some(key) || exists|i: int| 0 <= i < ixs.len() && ix_mentions(#[trigger] ixs[i], key)
}

/// `compiled` is the instruction `ix`, its keys taken from `keys`.
pub open spec fn stands_for(
    compiled: CompiledInstructionView,
    keys: Seq<Pubkey>,
    ix: InstructionView,
) -> bool {
    &&& compiled.program_id_index < keys.len()
    &&& keys[compiled.program_id_index as int] == ix.program_id
    &&& compiled.accounts.len() == ix.accounts.len()
    &&& forall|j: int|
        0 <= j < ix.accounts.len() ==> (#[trigger] compiled.accounts[j]) < keys.len()
            && keys[compiled.accounts[j] as int] == ix.accounts[j].pubkey
    &&& compiled.data == ix.data
}

/// `message` carries the instructions: each of them in its place, every key that they mention once
/// and no other, the signers first and the payer first of all.
pub open spec fn carries(
    message: MessageView,
    ixs: Seq<InstructionView>,
    payer: Option<Pubkey>,
) -> bool {
    &&& message.num_required_signatures <= message.account_keys.len() <= 255
    &&& message.account_keys.no_duplicates()
    &&& forall|i: int|
        0 <= i < message.account_keys.len() ==> mentions_key(
            ixs,
            payer,
            #[trigger] message.account_keys[i],
        )
    &&& forall|key: Pubkey|
        (#[trigger] message.signing_keys().contains(key)) <==> must_sign(ixs, payer, key)
    &&& payer matches Some(key) ==> message.account_keys[0] == key
    &&& message.instructions.len() == ixs.len()
    &&& forall|i: int|
        0 <= i < ixs.len() ==> stands_for(
            #[trigger] message.instructions[i],
            message.account_keys,
            ixs[i],
        )
}

/// The instruction with its keys renamed.
pub open spec fn renamed_ix(
    ix: InstructionView,
    rename: spec_fn(Pubkey) -> Pubkey,
) -> InstructionView {
    InstructionView {
        program_id: rename(ix.program_id),
        accounts: ix.accounts.map_values(
            |meta: AccountMeta| AccountMeta { pubkey: rename(meta.pubkey), ..meta },
        ),
        data: ix.data,
    }
}

/// The instructions with their keys renamed.
pub open spec fn renamed_ixs(
    ixs: Seq<InstructionView>,
    rename: spec_fn(Pubkey) -> Pubkey,
) -> Seq<InstructionView> {
    ixs.map_values(|ix: InstructionView| renamed_ix(ix, rename))
}

/// The key renamed, where there is one.
pub open spec fn renamed_key(
    key: Option<Pubkey>,
    rename: spec_fn(Pubkey) -> Pubkey,
) -> Option<Pubkey> {
    match key {
        Some(key) => Some(rename(key)),
        None => None,
    }
}

/// Renaming gives no two of the keys that are mentioned the same name.
pub open spec fn tells_apart(
    rename: spec_fn(Pubkey) -> Pubkey,
    ixs: Seq<InstructionView>,
    payer: Option<Pubkey>,
) -> bool {
    forall|a: Pubkey, b: Pubkey| #[trigger]
        mentions_key(ixs, payer, a) && #[trigger] mentions_key(ixs, payer, b) && rename(a) == rename(
            b,
        ) ==> a == b
}

/// The instructions are compiled into a message that carries them.  With their keys renamed, they
/// are compiled into the same message with its keys renamed.
pub open spec fn compiles(ixs: Seq<InstructionView>, payer: Option<Pubkey>) -> bool {
    &&& carries(compiled_message(ixs, payer), ixs, payer)
    &&& forall|rename: spec_fn(Pubkey) -> Pubkey|
        tells_apart(rename, ixs, payer) ==> #[trigger] compiled_message(
            renamed_ixs(ixs, rename),
            renamed_key(payer, rename),
        ) == compiled_message(ixs, payer).renamed(rename)
}

/// The message with these counts, keys and instructions, its blockhash not set yet.
pub open spec fn assembled(
    num_required_signatures: u8,
    num_readonly_signed_accounts: u8,
    num_readonly_unsigned_accounts: u8,
    account_keys: Seq<Pubkey>,
    instructions: Seq<CompiledInstruction>,
) -> MessageView {
    MessageView {
        num_required_signatures,
        num_readonly_signed_accounts,
        num_readonly_unsigned_accounts,
        account_keys,
        recent_blockhash: unset_blockhash(),
        instructions: instructions.map_values(|i: CompiledInstruction| i@),
    }
}

/// `tx` carries the instructions and holds a signature for each key that has to sign.
pub open spec fn delivers(
    tx: TransactionView,
    ixs: Seq<InstructionView>,
    payer: Option<Pubkey>,
) -> bool {
    &&& carries(tx.message, ixs, payer)
    &&& tx.signatures.len() == tx.message.num_required_signatures
    &&& tx.message.fits()
}

/// The message that the instructions are compiled into.
pub uninterp spec fn compiled_message(
    ixs: Seq<InstructionView>,
    payer: Option<Pubkey>,
) -> MessageView;

/// The signature of a message by the key pair with this secret.
pub uninterp spec fn message_signature(secret: Seq<u8>, message: MessageView) -> Signature;

/// Whether each signature is one of the message by the account key in its place.
pub uninterp spec fn signatures_hold(signatures: Seq<Signature>, message: MessageView) -> bool;

/// `solana_sdk::message::Message::new_with_payer`.  Claimed: the message depends on the
/// instructions and the payer alone, and carries them.  Of two keys it matters only whether they
/// are the same: with other keys in their places, the message is the same but for these keys.  Its
/// blockhash, which is not set yet, is not handed on.
#[verifier::external_body]
fn compile(ixs: Vec<Instruction>, payer: Option<Pubkey>) -> (r: (
    u8,
    u8,
    u8,
    Vec<Pubkey>,
    Vec<CompiledInstruction>,
))
    requires
        mentions(instruction_views(ixs@)) < 255,
    ensures
        assembled(r.0, r.1, r.2, r.3@, r.4@) == compiled_message(instruction_views(ixs@), payer),
        carries(assembled(r.0, r.1, r.2, r.3@, r.4@), instruction_views(ixs@), payer),
        forall|rename: spec_fn(Pubkey) -> Pubkey|
            tells_apart(rename, instruction_views(ixs@), payer) ==> #[trigger] compiled_message(
                renamed_ixs(instruction_views(ixs@), rename),
                renamed_key(payer, rename),
            ) == assembled(r.0, r.1, r.2, r.3@, r.4@).renamed(rename),
{
    let key = |Pubkey { bytes }| SdkPubkey::new(&bytes);
    let m = SdkMessage::new_with_payer(
        &ixs.into_iter().map(|Instruction { program_id, accounts, data }| SdkInstruction {
            program_id: key(program_id),
            accounts: accounts.into_iter().map(|AccountMeta { pubkey, is_signer, is_writable }|
                SdkAccountMeta { pubkey: key(pubkey), is_signer, is_writable }).collect(),
            data
        }).collect::<Vec<_>>(), payer.map(key).as_ref());
    (m.header.num_required_signatures, m.header.num_readonly_signed_accounts,
        m.header.num_readonly_unsigned_accounts,
        m.account_keys.iter().map(|k| Pubkey { bytes: k.to_bytes() }).collect(),
        m.instructions.into_iter().map(|SdkCompiledInstruction { program_id_index, accounts, data }|
            CompiledInstruction { program_id_index, accounts, data }).collect())
}

/// `solana_sdk::transaction::Transaction::verify`.  Claimed: the answer depends on the signatures
/// and the message alone.
#[verifier::external_body]
pub(crate) fn verify(tx: &Transaction) -> (r: bool)
    requires
        tx@.message.fits(),
    ensures
        r == signatures_hold(tx@.signatures, tx@.message),
{
    let m = &tx.message;
    let message = SdkMessage::new_with_compiled_instructions(
        m.num_required_signatures, m.num_readonly_signed_accounts, m.num_readonly_unsigned_accounts,
        m.account_keys.iter().map(|k| SdkPubkey::new(&k.bytes)).collect(),
        SdkHash::new(&m.recent_blockhash.bytes),
        m.instructions.iter().map(|i| SdkCompiledInstruction {
            program_id_index: i.program_id_index, accounts: i.accounts.clone(), data: i.data.clone(),
        }).collect());
    let signatures = tx.signatures.iter().map(|s| solana_sdk::signature::Signature::new(&s.bytes)).collect();
    SdkTransaction { signatures, message }.verify().is_ok()
}

/// The secret of the last of the key pairs whose public half is `key`.
pub open spec fn secret_for(pairs: Seq<Keypair>, key: Pubkey) -> Seq<u8>
    decreases pairs.len(),
{
    if pairs.len() == 0 {
        Seq::empty()
    } else if pairs.last().spec_pubkey() == key {
        pairs.last().secret@
    } else {
        secret_for(pairs.drop_last(), key)
    }
}

/// The message with a signature for each key that has to sign.
pub open spec fn signed(pairs: Seq<Keypair>, message: MessageView) -> TransactionView {
    TransactionView {
        signatures: Seq::new(
            message.num_required_signatures as nat,
            |i: int| message_signature(secret_for(pairs, message.account_keys[i]), message),
        ),
        message,
    }
}

/// The transaction that carries the instructions, signed by the key pairs.
pub open spec fn signed_instructions(
    pairs: Seq<Keypair>,
    ixs: Seq<InstructionView>,
    payer: Option<Pubkey>,
    blockhash: Blockhash,
) -> TransactionView {
    signed(pairs, compiled_message(ixs, payer).with_blockhash(blockhash))
}

/// Whether the key pairs include one with the public half `key`.
pub open spec fn holds_key(pairs: Seq<Keypair>, key: Pubkey) -> bool {
    exists|i: int| 0 <= i < pairs.len() && (#[trigger] pairs[i]).spec_pubkey() == key
}

/// The key pairs are those of the keys that have to sign, each of which stands in the message once.
pub open spec fn can_sign(pairs: Seq<Keypair>, message: MessageView) -> bool {
    &&& message.fits()
    &&& message.num_required_signatures <= message.account_keys.len()
    &&& message.account_keys.no_duplicates()
    &&& forall|key: Pubkey| #[trigger]
        message.signing_keys().contains(key) <==> holds_key(pairs, key)
}

/// `solana_sdk::transaction::Transaction::new`.  Claimed: at the place of each key that has to sign
/// stands the signature of the message by that key's pair, which is the last of those with the same
/// public half.  The signature depends on the secret and the message alone.
#[verifier::external_body]
fn sign(pairs: &Vec<Keypair>, m: Message) -> (r: Vec<Signature>)
    requires
        can_sign(pairs@, m@),
    ensures
        r@.len() == m@.num_required_signatures,
        forall|i: int|
            0 <= i < r@.len() ==> #[trigger] r@[i] == message_signature(
                secret_for(pairs@, m@.account_keys[i]),
                m@,
            ),
{
    let pairs: Vec<_> = pairs.iter().map(|p| keypair_from_seed(&p.secret).unwrap()).collect();
    let hash = SdkHash::new(&m.recent_blockhash.bytes);
    let message = SdkMessage::new_with_compiled_instructions(
        m.num_required_signatures, m.num_readonly_signed_accounts, m.num_readonly_unsigned_accounts,
        m.account_keys.iter().map(|k| SdkPubkey::new(&k.bytes)).collect(), hash,
        m.instructions.into_iter().map(|CompiledInstruction { program_id_index, accounts, data }|
            SdkCompiledInstruction { program_id_index, accounts, data }).collect());
    SdkTransaction::new(&pairs.iter().map(|p| p as _).collect::<Vec<&dyn Signer>>(), message, hash)
        .signatures.into_iter().map(|s| Signature { bytes: s.into() }).collect()
}

/// The key pairs are those that have to sign.
pub open spec fn are_signers(
    pairs: Seq<Keypair>,
    ixs: Seq<InstructionView>,
    payer: Option<Pubkey>,
) -> bool {
    forall|key: Pubkey| #[trigger] holds_key(pairs, key) <==> must_sign(ixs, payer, key)
}

/// The instructions fit into one message.
pub open spec fn fit_one_message(ixs: Seq<InstructionView>) -> bool {
    &&& mentions(ixs) < 255
    &&& forall|i: int| 0 <= i < ixs.len() ==> (#[trigger] ixs[i]).data.len() <= 0xffff
}

proof fn lemma_mentions(ixs: Seq<InstructionView>)
    ensures
        ixs.len() <= mentions(ixs),
        forall|i: int| 0 <= i < ixs.len() ==> (#[trigger] ixs[i]).accounts.len() < mentions(ixs),
    decreases ixs.len(),
{
    if ixs.len() > 0 {
        lemma_mentions(ixs.drop_last());
        assert forall|i: int| 0 <= i < ixs.len() implies (#[trigger] ixs[i]).accounts.len()
            < mentions(ixs) by {
            if i < ixs.len() - 1 {
                assert(ixs.drop_last()[i] == ixs[i]);
            }
        }
    }
}

proof fn lemma_carried_fits(message: MessageView, ixs: Seq<InstructionView>, payer: Option<Pubkey>)
    requires
        carries(message, ixs, payer),
        fit_one_message(ixs),
    ensures
        message.fits(),
{
    lemma_mentions(ixs);
    assert forall|i: int| 0 <= i < message.instructions.len() implies (
    #[trigger] message.instructions[i]).accounts.len() <= 0xffff
        && message.instructions[i].data.len() <= 0xffff by {
        assert(stands_for(message.instructions[i], message.account_keys, ixs[i]));
        assert(ixs[i].accounts.len() < mentions(ixs));
    }
}

impl Message {
    /// The message that carries the instructions, its blockhash not set yet.
    pub(crate) fn new_with_payer(ixs: Vec<Instruction>, payer: Option<Pubkey>) -> (r: Self)
        requires
            fit_one_message(instruction_views(ixs@)),
        ensures
            r@ == compiled_message(instruction_views(ixs@), payer),
            compiles(instruction_views(ixs@), payer),
            r@.recent_blockhash == unset_blockhash(),
            r@.fits(),
    {
        let ghost views = instruction_views(ixs@);
        let (
            num_required_signatures,
            num_readonly_signed_accounts,
            num_readonly_unsigned_accounts,
            account_keys,
            instructions,
        ) = compile(ixs, payer);
        let message = Message {
            num_required_signatures,
            num_readonly_signed_accounts,
            num_readonly_unsigned_accounts,
            account_keys,
            recent_blockhash: Blockhash::default(),
            instructions,
        };
        proof {
            lemma_carried_fits(message@, views, payer);
        }
        message
    }
}

/// A copy of bytes.
fn copied_bytes(bytes: &Vec<u8>) -> (r: Vec<u8>)
    ensures
        r@ == bytes@,
{
    let mut r: Vec<u8> = Vec::new();
    for b in it: bytes.iter()
        invariant
            r@.len() == it.index(),
            it.seq().len() == bytes@.len(),
            forall|i: int| 0 <= i < it.seq().len() ==> *(#[trigger] it.seq()[i]) == bytes@[i],
            forall|i: int| 0 <= i < it.index() ==> #[trigger] r@[i] == bytes@[i],
    {
        r.push(*b);
    }
    assert(r@ =~= bytes@);
    r
}

impl CompiledInstruction {
    fn copied(&self) -> (r: Self)
        ensures
            r@ == self@,
    {
        CompiledInstruction {
            program_id_index: self.program_id_index,
            accounts: copied_bytes(&self.accounts),
            data: copied_bytes(&self.data),
        }
    }
}

impl Message {
    /// A copy of the message.
    fn copied(&self) -> (r: Self)
        ensures
            r@ == self@,
    {
        let mut account_keys: Vec<Pubkey> = Vec::new();
        for k in it: self.account_keys.iter()
            invariant
                account_keys@.len() == it.index(),
                it.seq().len() == self.account_keys@.len(),
                forall|i: int|
                    0 <= i < it.seq().len() ==> *(#[trigger] it.seq()[i]) == self.account_keys@[i],
                forall|i: int|
                    0 <= i < it.index() ==> #[trigger] account_keys@[i] == self.account_keys@[i],
        {
            account_keys.push(*k);
        }
        let mut instructions: Vec<CompiledInstruction> = Vec::new();
        for c in it: self.instructions.iter()
            invariant
                instructions@.len() == it.index(),
                it.seq().len() == self.instructions@.len(),
                forall|i: int|
                    0 <= i < it.seq().len() ==> *(#[trigger] it.seq()[i]) == self.instructions@[i],
                forall|i: int|
                    0 <= i < it.index() ==> (#[trigger] instructions@[i])@ == self.instructions@[i]@,
        {
            instructions.push(c.copied());
        }
        let r = Message {
            num_required_signatures: self.num_required_signatures,
            num_readonly_signed_accounts: self.num_readonly_signed_accounts,
            num_readonly_unsigned_accounts: self.num_readonly_unsigned_accounts,
            account_keys,
            recent_blockhash: self.recent_blockhash,
            instructions,
        };
        assert(r.account_keys@ =~= self.account_keys@);
        assert(r@.instructions =~= self@.instructions);
        r
    }
}

impl Transaction {
    /// A copy of the transaction.
    pub(crate) fn copied(&self) -> (r: Self)
        ensures
            r@ == self@,
    {
        let mut signatures: Vec<Signature> = Vec::new();
        for s in it: self.signatures.iter()
            invariant
                signatures@.len() == it.index(),
                it.seq().len() == self.signatures@.len(),
                forall|i: int|
                    0 <= i < it.seq().len() ==> *(#[trigger] it.seq()[i]) == self.signatures@[i],
                forall|i: int| 0 <= i < it.index() ==> #[trigger] signatures@[i] == self.signatures@[i],
        {
            signatures.push(*s);
        }
        assert(signatures@ =~= self.signatures@);
        Transaction { signatures, message: self.message.copied() }
    }

    /// The message signed at `blockhash` by the key pairs, which are those that have to sign.
    pub(crate) fn new(pairs: &Vec<Keypair>, message: Message, blockhash: Blockhash) -> (r: Self)
        requires
            can_sign(pairs@, message@),
        ensures
            r@ == signed(pairs@, message@.with_blockhash(blockhash)),
    {
        let ghost wanted = message@.with_blockhash(blockhash);
        assert(wanted.signing_keys() == message@.signing_keys());
        let mut message = message;
        message.recent_blockhash = blockhash;
        assert(message@ =~= wanted);
        let signatures = sign(pairs, message.copied());
        assert(signatures@ =~= signed(pairs@, wanted).signatures);
        Transaction { signatures, message }
    }

    /// The transaction that carries the instructions, paid for by `payer` where there is one and
    /// signed at `blockhash` by the key pairs, which are those that have to sign.
    pub(crate) fn new_signed(
        pairs: &Vec<Keypair>,
        ixs: Vec<Instruction>,
        payer: Option<Pubkey>,
        blockhash: Blockhash,
    ) -> (r: Self)
        requires
            fit_one_message(instruction_views(ixs@)),
            are_signers(pairs@, instruction_views(ixs@), payer),
        ensures
            r@ == signed_instructions(pairs@, instruction_views(ixs@), payer, blockhash),
            delivers(r@, instruction_views(ixs@), payer),
            compiles(instruction_views(ixs@), payer),
    {
        let message = Message::new_with_payer(ixs, payer);
        let ghost compiled = message@;
        let r = Transaction::new(pairs, message, blockhash);
        assert(r@.message.signing_keys() == compiled.signing_keys());
        r
    }
}

} // verus!
