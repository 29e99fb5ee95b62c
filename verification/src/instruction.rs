//! Instructions: what a transaction asks of the programs on the cluster.
use crate::keys::{unset_pubkey, Pubkey};
use crate::time::is_moment;
use vstd::prelude::*;

verus! {

/// One account that an instruction touches.
#[derive(Clone, Copy, Debug, PartialEq, Eq)]
pub struct AccountMeta {
    pub pubkey: Pubkey,
    pub is_signer: bool,
    pub is_writable: bool,
}

/// What is asked of one program.
#[derive(Clone, Debug, PartialEq, Eq)]
pub struct Instruction {
    pub program_id: Pubkey,
    pub accounts: Vec<AccountMeta>,
    pub data: Vec<u8>,
}

/// An instruction as a value to reason with.
#[verifier::ext_equal]
pub struct InstructionView {
    pub program_id: Pubkey,
    pub accounts: Seq<AccountMeta>,
    pub data: Seq<u8>,
}

impl View for Instruction {
    type V = InstructionView;

    open spec fn view(&self) -> InstructionView {
        InstructionView { program_id: self.program_id, accounts: self.accounts@, data: self.data@ }
    }
}

/// The views of a list of instructions.
pub open spec fn instruction_views(list: Seq<Instruction>) -> Seq<InstructionView> {
    list.map_values(|i: Instruction| i@)
}

/// The lowest `width` bytes of `n`, the lowest first.
pub open spec fn le_bytes(n: nat, width: nat) -> Seq<u8>
    decreases width,
{
    if width == 0 {
        Seq::empty()
    } else {
        seq![(n % 256) as u8] + le_bytes(n / 256, (width - 1) as nat)
    }
}

/// `11111111111111111111111111111111`
pub open spec fn system_program_id() -> Pubkey {
    unset_pubkey()
}

/// `Stake11111111111111111111111111111111111111`
pub open spec fn stake_program_id() -> Pubkey {
    Pubkey { bytes: [6, 161, 216, 23, 145, 55, 84, 42, 152, 52, 55, 189, 254, 42, 122, 178, 85, 127, 83, 92, 138, 120, 114, 43, 104, 164, 157, 192, 0, 0, 0, 0] }
}

/// `Vote111111111111111111111111111111111111111`
pub open spec fn vote_program_id() -> Pubkey {
    Pubkey { bytes: [7, 97, 72, 29, 53, 116, 116, 187, 124, 77, 118, 36, 235, 211, 189, 179, 216, 53, 94, 115, 209, 16, 67, 252, 13, 163, 83, 128, 0, 0, 0, 0] }
}

/// `Storage111111111111111111111111111111111111`
pub open spec fn storage_program_id() -> Pubkey {
    Pubkey { bytes: [6, 162, 25, 123, 127, 68, 233, 59, 131, 151, 21, 152, 162, 120, 90, 37, 154, 88, 86, 5, 156, 221, 182, 201, 142, 103, 151, 112, 0, 0, 0, 0] }
}

/// `Budget1111111111111111111111111111111111111`
pub open spec fn budget_program_id() -> Pubkey {
    Pubkey { bytes: [2, 203, 81, 223, 225, 24, 34, 35, 203, 214, 138, 130, 144, 208, 35, 77, 63, 16, 87, 51, 47, 198, 115, 123, 98, 188, 19, 160, 0, 0, 0, 0] }
}

/// `BPFLoader1111111111111111111111111111111111`
pub open spec fn bpf_loader_id() -> Pubkey {
    Pubkey { bytes: [2, 168, 246, 145, 78, 136, 161, 107, 189, 35, 149, 133, 95, 100, 4, 217, 180, 244, 86, 183, 130, 27, 176, 20, 87, 73, 66, 140, 0, 0, 0, 0] }
}

/// `SysvarRent111111111111111111111111111111111`
pub open spec fn rent_sysvar_id() -> Pubkey {
    Pubkey { bytes: [6, 167, 213, 23, 25, 44, 92, 81, 33, 140, 201, 76, 61, 74, 241, 127, 88, 218, 238, 8, 155, 161, 253, 68, 227, 219, 217, 138, 0, 0, 0, 0] }
}

/// `SysvarRecentB1ockHashes11111111111111111111`
pub open spec fn recent_blockhashes_sysvar_id() -> Pubkey {
    Pubkey { bytes: [6, 167, 213, 23, 25, 44, 86, 142, 224, 138, 132, 95, 115, 210, 151, 136, 207, 3, 92, 49, 69, 178, 26, 179, 68, 216, 6, 46, 169, 64, 0, 0] }
}

/// An account that the instruction may change.
pub open spec fn writable(pubkey: Pubkey, is_signer: bool) -> AccountMeta {
    AccountMeta { pubkey, is_signer, is_writable: true }
}

/// An account that the instruction only reads.
pub open spec fn readonly(pubkey: Pubkey, is_signer: bool) -> AccountMeta {
    AccountMeta { pubkey, is_signer, is_writable: false }
}

/// The system program moves `lamports` from `from` to `to`.
pub open spec fn transfer_ix(from: Pubkey, to: Pubkey, lamports: u64) -> InstructionView {
    InstructionView {
        program_id: system_program_id(),
        accounts: seq![writable(from, true), writable(to, false)],
        data: le_bytes(2, 4) + le_bytes(lamports as nat, 8),
    }
}

/// The system program makes the account `to`, paid for by `from`.
pub open spec fn create_account_ix(
    from: Pubkey,
    to: Pubkey,
    lamports: u64,
    space: u64,
    owner: Pubkey,
) -> InstructionView {
    InstructionView {
        program_id: system_program_id(),
        accounts: seq![writable(from, true), writable(to, true)],
        data: le_bytes(0, 4) + le_bytes(lamports as nat, 8) + le_bytes(space as nat, 8)
            + owner.bytes@,
    }
}

/// The accounts of a nonce advance: the authority signs as the nonce account or the system
/// variable where it is one of them, and beside them where it is not.
pub open spec fn advance_nonce_accounts(nonce: Pubkey, authority: Pubkey) -> Seq<AccountMeta> {
    if authority == nonce {
        seq![writable(nonce, true), readonly(recent_blockhashes_sysvar_id(), false)]
    } else if authority == recent_blockhashes_sysvar_id() {
        seq![writable(nonce, false), readonly(recent_blockhashes_sysvar_id(), true)]
    } else {
        seq![
            writable(nonce, false),
            readonly(recent_blockhashes_sysvar_id(), false),
            readonly(authority, true),
        ]
    }
}

/// The system program uses up the nonce that `nonce` holds.
pub open spec fn advance_nonce_ix(nonce: Pubkey, authority: Pubkey) -> InstructionView {
    InstructionView {
        program_id: system_program_id(),
        accounts: advance_nonce_accounts(nonce, authority),
        data: le_bytes(4, 4),
    }
}

/// A loader program writes `bytes` into `account` from `offset` on.
pub open spec fn loader_write_ix(
    account: Pubkey,
    loader: Pubkey,
    offset: u32,
    bytes: Seq<u8>,
) -> InstructionView {
    InstructionView {
        program_id: loader,
        accounts: seq![writable(account, true)],
        data: le_bytes(0, 4) + le_bytes(offset as nat, 4) + le_bytes(bytes.len(), 8) + bytes,
    }
}

/// A loader program makes `account` executable.
pub open spec fn loader_finalize_ix(account: Pubkey, loader: Pubkey) -> InstructionView {
    InstructionView {
        program_id: loader,
        accounts: seq![writable(account, true), writable(rent_sysvar_id(), false)],
        data: le_bytes(1, 4),
    }
}

/// The bytes of a moment inside a budget instruction.
pub uninterp spec fn moment_bytes(secs: i64, nanos: u32) -> Seq<u8>;

/// A budget expression that pays `lamports` to `to`.
pub open spec fn payment_bytes(to: Pubkey, lamports: u64) -> Seq<u8> {
    le_bytes(0, 4) + le_bytes(lamports as nat, 8) + to.bytes@
}

/// The condition that `by` signs.
pub open spec fn signed_bytes(by: Pubkey) -> Seq<u8> {
    le_bytes(1, 4) + by.bytes@
}

/// The condition that `by` attests the moment, or a later one.
pub open spec fn dated_bytes(secs: i64, nanos: u32, by: Pubkey) -> Seq<u8> {
    le_bytes(0, 4) + moment_bytes(secs, nanos) + by.bytes@
}

/// A budget expression that pays `to` once `condition` holds, or, where the payment can be
/// cancelled, pays `cancelable` back once it signs.
pub open spec fn conditional_bytes(
    condition: Seq<u8>,
    to: Pubkey,
    lamports: u64,
    cancelable: Option<Pubkey>,
) -> Seq<u8> {
    match cancelable {
        None => le_bytes(1, 4) + condition + payment_bytes(to, lamports),
        Some(back) => le_bytes(2, 4) + condition + payment_bytes(to, lamports) + signed_bytes(back)
            + payment_bytes(back, lamports),
    }
}

/// Makes the account `contract`, large enough for the budget `expression`, and puts it there.
pub open spec fn budget_contract_ixs(
    from: Pubkey,
    contract: Pubkey,
    lamports: u64,
    expression: Seq<u8>,
) -> Seq<InstructionView> {
    seq![
        create_account_ix(
            from,
            contract,
            lamports,
            (2 + expression.len()) as u64,
            budget_program_id(),
        ),
        InstructionView {
            program_id: budget_program_id(),
            accounts: seq![writable(contract, false)],
            data: le_bytes(0, 4) + expression,
        },
    ]
}

/// The accounts of an instruction that tells a contract something on behalf of `from`.
pub open spec fn contract_accounts(from: Pubkey, contract: Pubkey, to: Pubkey) -> Seq<AccountMeta> {
    if from == to {
        seq![writable(from, true), writable(contract, false)]
    } else {
        seq![writable(from, true), writable(contract, false), writable(to, false)]
    }
}

/// The budget program takes note that `from` signed.
pub open spec fn apply_signature_ix(from: Pubkey, contract: Pubkey, to: Pubkey) -> InstructionView {
    InstructionView {
        program_id: budget_program_id(),
        accounts: contract_accounts(from, contract, to),
        data: le_bytes(2, 4),
    }
}

/// The budget program takes note that the moment has come.
pub open spec fn apply_timestamp_ix(
    from: Pubkey,
    contract: Pubkey,
    to: Pubkey,
    secs: i64,
    nanos: u32,
) -> InstructionView {
    InstructionView {
        program_id: budget_program_id(),
        accounts: contract_accounts(from, contract, to),
        data: le_bytes(1, 4) + moment_bytes(secs, nanos),
    }
}

/// `solana_stake_program::id`.  Claimed: the key whose base58 text the crate declares.
#[verifier::external_body]
pub(crate) fn stake_id() -> (r: Pubkey)
    ensures
        r == stake_program_id(),
{
    Pubkey { bytes: solana_stake_program::id().to_bytes() }
}

/// `solana_vote_program::id`.  Claimed: the key whose base58 text the crate declares.
#[verifier::external_body]
pub(crate) fn vote_id() -> (r: Pubkey)
    ensures
        r == vote_program_id(),
{
    Pubkey { bytes: solana_vote_program::id().to_bytes() }
}

/// `solana_storage_program::id`.  Claimed: the key whose base58 text the crate declares.
#[verifier::external_body]
pub(crate) fn storage_id() -> (r: Pubkey)
    ensures
        r == storage_program_id(),
{
    Pubkey { bytes: solana_storage_program::id().to_bytes() }
}

/// `solana_sdk::bpf_loader::id`.  Claimed: the key whose base58 text the crate declares.
#[verifier::external_body]
pub(crate) fn loader_id() -> (r: Pubkey)
    ensures
        r == bpf_loader_id(),
{
    Pubkey { bytes: solana_sdk::bpf_loader::id().to_bytes() }
}

/// `solana_sdk::system_instruction::transfer`.  Claimed: the instruction's program, accounts and
/// bytes.
#[verifier::external_body]
pub(crate) fn transfer(from: &Pubkey, to: &Pubkey, lamports: u64) -> (r: Instruction)
    ensures
        r@ == transfer_ix(*from, *to, lamports),
{
    let from = solana_sdk::pubkey::Pubkey::new(&from.bytes);
    let to = solana_sdk::pubkey::Pubkey::new(&to.bytes);
    let ix = solana_sdk::system_instruction::transfer(&from, &to, lamports);
    let accounts = ix.accounts.iter().map(|a| AccountMeta {
        pubkey: Pubkey { bytes: a.pubkey.to_bytes() },
        is_signer: a.is_signer,
        is_writable: a.is_writable,
    });
    let program_id = Pubkey { bytes: ix.program_id.to_bytes() };
    Instruction { program_id, accounts: accounts.collect(), data: ix.data.clone() }
}

/// `solana_sdk::system_instruction::create_account`.  Claimed: the instruction's program,
/// accounts and bytes.
#[verifier::external_body]
pub(crate) fn create_account(
    from: &Pubkey,
    to: &Pubkey,
    lamports: u64,
    space: u64,
    owner: &Pubkey,
) -> (r: Instruction)
    ensures
        r@ == create_account_ix(*from, *to, lamports, space, *owner),
{
    let from = solana_sdk::pubkey::Pubkey::new(&from.bytes);
    let to = solana_sdk::pubkey::Pubkey::new(&to.bytes);
    let owner = solana_sdk::pubkey::Pubkey::new(&owner.bytes);
    let ix = solana_sdk::system_instruction::create_account(&from, &to, lamports, space, &owner);
    let accounts = ix.accounts.iter().map(|a| AccountMeta {
        pubkey: Pubkey { bytes: a.pubkey.to_bytes() },
        is_signer: a.is_signer,
        is_writable: a.is_writable,
    });
    let program_id = Pubkey { bytes: ix.program_id.to_bytes() };
    Instruction { program_id, accounts: accounts.collect(), data: ix.data.clone() }
}

/// `solana_sdk::system_instruction::advance_nonce_account`.  Claimed: the instruction's program,
/// accounts and bytes.
#[verifier::external_body]
pub(crate) fn advance_nonce_account(nonce: &Pubkey, authority: &Pubkey) -> (r: Instruction)
    ensures
        r@ == advance_nonce_ix(*nonce, *authority),
{
    let nonce = solana_sdk::pubkey::Pubkey::new(&nonce.bytes);
    let authority = solana_sdk::pubkey::Pubkey::new(&authority.bytes);
    let ix = solana_sdk::system_instruction::advance_nonce_account(&nonce, &authority);
    let accounts = ix.accounts.iter().map(|a| AccountMeta {
        pubkey: Pubkey { bytes: a.pubkey.to_bytes() },
        is_signer: a.is_signer,
        is_writable: a.is_writable,
    });
    let program_id = Pubkey { bytes: ix.program_id.to_bytes() };
    Instruction { program_id, accounts: accounts.collect(), data: ix.data.clone() }
}

/// `solana_sdk::loader_instruction::write`.  Claimed: the instruction's program, accounts and
/// bytes.
#[verifier::external_body]
pub(crate) fn loader_write(
    account: &Pubkey,
    loader: &Pubkey,
    offset: u32,
    bytes: Vec<u8>,
) -> (r: Instruction)
    ensures
        r@ == loader_write_ix(*account, *loader, offset, bytes@),
{
    let account = solana_sdk::pubkey::Pubkey::new(&account.bytes);
    let loader = solana_sdk::pubkey::Pubkey::new(&loader.bytes);
    let ix = solana_sdk::loader_instruction::write(&account, &loader, offset, bytes);
    let accounts = ix.accounts.iter().map(|a| AccountMeta {
        pubkey: Pubkey { bytes: a.pubkey.to_bytes() },
        is_signer: a.is_signer,
        is_writable: a.is_writable,
    });
    let program_id = Pubkey { bytes: ix.program_id.to_bytes() };
    Instruction { program_id, accounts: accounts.collect(), data: ix.data.clone() }
}

/// `solana_sdk::loader_instruction::finalize`.  Claimed: the instruction's program, accounts and
/// bytes.
#[verifier::external_body]
pub(crate) fn loader_finalize(account: &Pubkey, loader: &Pubkey) -> (r: Instruction)
    ensures
        r@ == loader_finalize_ix(*account, *loader),
{
    let account = solana_sdk::pubkey::Pubkey::new(&account.bytes);
    let loader = solana_sdk::pubkey::Pubkey::new(&loader.bytes);
    let ix = solana_sdk::loader_instruction::finalize(&account, &loader);
    let accounts = ix.accounts.iter().map(|a| AccountMeta {
        pubkey: Pubkey { bytes: a.pubkey.to_bytes() },
        is_signer: a.is_signer,
        is_writable: a.is_writable,
    });
    let program_id = Pubkey { bytes: ix.program_id.to_bytes() };
    Instruction { program_id, accounts: accounts.collect(), data: ix.data.clone() }
}

/// `solana_budget_program::budget_instruction::on_date`.  Claimed: the two instructions that set
/// up a payment held back until `by` attests the moment.  The moment's bytes, a length and the
/// RFC 3339 text of at most 33 characters, are only named.
#[verifier::external_body]
pub(crate) fn on_date(
    from: &Pubkey,
    to: &Pubkey,
    contract: &Pubkey,
    when: (i64, u32),
    by: &Pubkey,
    cancelable: &Option<Pubkey>,
    lamports: u64,
) -> (r: Vec<Instruction>)
    requires
        is_moment(when.0 as int, when.1 as int),
    ensures
        instruction_views(r@) == budget_contract_ixs(
            *from,
            *contract,
            lamports,
            conditional_bytes(dated_bytes(when.0, when.1, *by), *to, lamports, *cancelable),
        ),
        r@[1].data@.len() <= 209,
{
    let key = |k: &Pubkey| solana_sdk::pubkey::Pubkey::new(&k.bytes);
    let date = chrono::DateTime::from_timestamp(when.0, when.1).unwrap();
    let back = cancelable.as_ref().map(key);
    solana_budget_program::budget_instruction::on_date(
        &key(from), &key(to), &key(contract), date, &key(by), back, lamports)
        .into_iter().map(|ix| Instruction {
            program_id: Pubkey { bytes: ix.program_id.to_bytes() },
            accounts: ix.accounts.iter().map(|a| AccountMeta {
                pubkey: Pubkey { bytes: a.pubkey.to_bytes() },
                is_signer: a.is_signer,
                is_writable: a.is_writable,
            }).collect(),
            data: ix.data,
        }).collect()
}

/// `solana_budget_program::budget_instruction::when_signed`.  Claimed: the two instructions that
/// set up a payment held back until `witness` signs.
#[verifier::external_body]
pub(crate) fn when_signed(
    from: &Pubkey,
    to: &Pubkey,
    contract: &Pubkey,
    witness: &Pubkey,
    cancelable: &Option<Pubkey>,
    lamports: u64,
) -> (r: Vec<Instruction>)
    ensures
        instruction_views(r@) == budget_contract_ixs(
            *from,
            *contract,
            lamports,
            conditional_bytes(signed_bytes(*witness), *to, lamports, *cancelable),
        ),
{
    let key = |k: &Pubkey| solana_sdk::pubkey::Pubkey::new(&k.bytes);
    let (from, to, contract, witness) = (key(from), key(to), key(contract), key(witness));
    let back = cancelable.as_ref().map(key);
    solana_budget_program::budget_instruction::when_signed(&from, &to, &contract, &witness, back, lamports)
        .into_iter().map(|ix| Instruction {
            program_id: Pubkey { bytes: ix.program_id.to_bytes() },
            accounts: ix.accounts.iter().map(|a| AccountMeta {
                pubkey: Pubkey { bytes: a.pubkey.to_bytes() },
                is_signer: a.is_signer,
                is_writable: a.is_writable,
            }).collect(),
            data: ix.data,
        }).collect()
}

/// `solana_budget_program::budget_instruction::apply_signature`.  Claimed: the instruction's
/// program, accounts and bytes.
#[verifier::external_body]
pub(crate) fn apply_signature(from: &Pubkey, contract: &Pubkey, to: &Pubkey) -> (r: Instruction)
    ensures
        r@ == apply_signature_ix(*from, *contract, *to),
{
    let key = |k: &Pubkey| solana_sdk::pubkey::Pubkey::new(&k.bytes);
    let (from, contract, to) = (key(from), key(contract), key(to));
    let ix = solana_budget_program::budget_instruction::apply_signature(&from, &contract, &to);
    let accounts = ix.accounts.iter().map(|a| AccountMeta {
        pubkey: Pubkey { bytes: a.pubkey.to_bytes() },
        is_signer: a.is_signer,
        is_writable: a.is_writable,
    });
    let program_id = Pubkey { bytes: ix.program_id.to_bytes() };
    Instruction { program_id, accounts: accounts.collect(), data: ix.data.clone() }
}

/// `solana_budget_program::budget_instruction::apply_timestamp`.  Claimed: the instruction's
/// program, accounts and bytes.  The moment's bytes, a length and the RFC 3339 text of at most 33
/// characters, are only named.
#[verifier::external_body]
pub(crate) fn apply_timestamp(
    from: &Pubkey,
    contract: &Pubkey,
    to: &Pubkey,
    when: (i64, u32),
) -> (r: Instruction)
    requires
        is_moment(when.0 as int, when.1 as int),
    ensures
        r@ == apply_timestamp_ix(*from, *contract, *to, when.0, when.1),
        r.data@ == le_bytes(1, 4) + moment_bytes(when.0, when.1),
        r.data@.len() <= 45,
{
    let key = |k: &Pubkey| solana_sdk::pubkey::Pubkey::new(&k.bytes);
    let (from, contract, to) = (key(from), key(contract), key(to));
    let date = chrono::DateTime::from_timestamp(when.0, when.1).unwrap();
    let ix = solana_budget_program::budget_instruction::apply_timestamp(&from, &contract, &to, date);
    let accounts = ix.accounts.iter().map(|a| AccountMeta {
        pubkey: Pubkey { bytes: a.pubkey.to_bytes() },
        is_signer: a.is_signer,
        is_writable: a.is_writable,
    });
    let program_id = Pubkey { bytes: ix.program_id.to_bytes() };
    Instruction { program_id, accounts: accounts.collect(), data: ix.data.clone() }
}

} // verus!
