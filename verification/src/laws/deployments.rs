//! Deploying a program.
use crate::command::{CliCommand, CliConfig};
use crate::deploy::{chunk, chunk_count, chunk_offset, deploy_as, deploys, tx_views};
use crate::errors::{CliError, ClientError, CommandError};
use crate::fees::FeeCalculator;
use crate::instruction::{
    bpf_loader_id, create_account_ix, le_bytes, loader_finalize_ix, loader_write_ix, rent_sysvar_id,
    InstructionView,
};
use crate::keys::{pubkey_text, Blockhash, Keypair, Pubkey};
use crate::laws::bytes::{
    account_count, account_of, data_of, is_signed, is_system_program, le_value, lemma_delivered,
    lemma_u32_bytes, lemma_u64_bytes, program_of,
};
use crate::laws::steps::{
    begins, goes_on_from_balance, goes_on_from_blockhash, goes_on_from_sending,
};
use crate::progress::{
    BalanceStep, BalanceThen, Deployment, FileError, Progress, ReadStep, RentStep, Resigners,
    SendAllStep, SendStep, SendThen,
};
use crate::signing::object_text;
use crate::transaction::{
    delivers, holds_key, is_signed_by, must_sign, signed_instructions, TransactionView,
};
use vstd::prelude::*;

verus! {

/// The transaction writes bytes into the account of `program`, for the BPF loader, paid for and
/// signed by `client`.
pub open spec fn writes_to(
    tx: TransactionView,
    client: Keypair,
    program: Keypair,
    blockhash: Blockhash,
) -> bool {
    let data = data_of(tx, 0);
    &&& tx.message.instructions.len() == 1
    &&& tx.message.recent_blockhash == blockhash
    &&& tx.message.account_keys[0] == client.spec_pubkey()
    &&& program_of(tx, 0) == bpf_loader_id()
    &&& account_count(tx, 0) == 1
    &&& account_of(tx, 0, 0) == program.spec_pubkey()
    &&& is_signed(tx, seq![client, program])
    &&& data.len() >= 16
    &&& le_value(data.subrange(0, 4)) == 0
    &&& le_value(data.subrange(8, 16)) == data.len() - 16
}

/// Where the transaction writes to.
pub open spec fn written_from(tx: TransactionView) -> nat {
    le_value(data_of(tx, 0).subrange(4, 8))
}

/// The bytes that the transaction writes.
pub open spec fn written_bytes(tx: TransactionView) -> Seq<u8> {
    data_of(tx, 0).skip(16)
}

/// An account's bytes once others have been put into it from an offset on.
pub open spec fn overwritten(account: Seq<u8>, from: nat, bytes: Seq<u8>) -> Seq<u8> {
    Seq::new(
        account.len(),
        |k: int|
            if from <= k < from + bytes.len() {
                bytes[k - from]
            } else {
                account[k]
            },
    )
}

/// An account's bytes once the transactions have been run, each of which puts its bytes at the
/// offset that its own instruction gives.
pub open spec fn replayed(account: Seq<u8>, txs: Seq<TransactionView>) -> Seq<u8>
    decreases txs.len(),
{
    if txs.len() == 0 {
        account
    } else {
        overwritten(
            replayed(account, txs.drop_last()),
            written_from(txs.last()),
            written_bytes(txs.last()),
        )
    }
}

/// The two signers of a deployment sign an instruction on the program's account.
proof fn lemma_signers(
    ixs: Seq<InstructionView>,
    payer: Option<Pubkey>,
    client: Keypair,
    program: Keypair,
)
    requires
        payer is Some ==> payer == Some(client.spec_pubkey()),
        ixs.len() == 1,
        forall|j: int|
            0 <= j < ixs[0].accounts.len() && (#[trigger] ixs[0].accounts[j]).is_signer
                ==> ixs[0].accounts[j].pubkey == client.spec_pubkey() || ixs[0].accounts[j].pubkey
                == program.spec_pubkey(),
    ensures
        forall|key: Pubkey| #[trigger]
            must_sign(ixs, payer, key) ==> holds_key(seq![client, program], key),
{
    let pairs = seq![client, program];
    assert(pairs[0] == client && pairs[1] == program);
    assert forall|key: Pubkey| #[trigger] must_sign(ixs, payer, key) implies holds_key(
        pairs,
        key,
    ) by {
        if payer != Some(key) {
            let i = choose|i: int| 0 <= i < ixs.len() && is_signed_by(#[trigger] ixs[i], key);
            let j = choose|j: int|
                0 <= j < ixs[i].accounts.len() && (#[trigger] ixs[i].accounts[j]).is_signer
                    && ixs[i].accounts[j].pubkey == key;
            assert(ixs[0].accounts[j].is_signer);
        }
        assert(key == pairs[0].spec_pubkey() || key == pairs[1].spec_pubkey());
    }
}

proof fn lemma_write(
    tx: TransactionView,
    client: Keypair,
    program: Keypair,
    offset: u32,
    bytes: Seq<u8>,
    blockhash: Blockhash,
)
    requires
        ({
            let ixs = seq![loader_write_ix(program.spec_pubkey(), bpf_loader_id(), offset, bytes)];
            &&& tx == signed_instructions(
                seq![client, program],
                ixs,
                Some(client.spec_pubkey()),
                blockhash,
            )
            &&& delivers(tx, ixs, Some(client.spec_pubkey()))
        }),
    ensures
        writes_to(tx, client, program, blockhash),
        written_from(tx) == offset,
        written_bytes(tx) == bytes,
{
    let ix = loader_write_ix(program.spec_pubkey(), bpf_loader_id(), offset, bytes);
    let ixs = seq![ix];
    assert(ixs[0] == ix);
    lemma_signers(ixs, Some(client.spec_pubkey()), client, program);
    lemma_delivered(tx, seq![client, program], ixs, Some(client.spec_pubkey()), blockhash);
    assert(account_of(tx, 0, 0) == ix.accounts[0].pubkey);
    let data = data_of(tx, 0);
    assert(tx.message.instructions[0].data.len() <= 0xffff);
    assert(bytes.len() <= data.len());
    lemma_u32_bytes(0);
    lemma_u32_bytes(offset);
    lemma_u64_bytes(bytes.len() as u64);
    assert(data.subrange(0, 4) =~= le_bytes(0, 4));
    assert(data.subrange(4, 8) =~= le_bytes(offset as nat, 4));
    assert(data.subrange(8, 16) =~= le_bytes(bytes.len(), 8));
    assert(data.skip(16) =~= bytes);
}

/// The deployment that follows the answer to how much rent there is.
pub open spec fn prepared(step: RentStep, rent: u64, deployment: Deployment) -> bool {
    deploys(
        deployment,
        *step.config,
        step.program,
        step.data@,
        step.blockhash,
        step.fee_calculator,
        rent,
    )
}

/// The `i`-th write of a deployment puts 229 bytes of the program, or what is left of it, at their
/// own place, into the program's account.
pub proof fn lemma_writes_put_their_bytes_in_place(
    step: RentStep,
    rent: u64,
    deployment: Deployment,
    i: int,
)
    requires
        prepared(step, rent, deployment),
        0 <= i < deployment.writes@.len(),
        step.data@.len() <= u32::MAX,
    ensures
        ({
            let tx = deployment.writes@[i]@;
            let len = step.data@.len();
            let end = if (i + 1) * 229 < len { (i + 1) * 229 } else { len as int };
            &&& writes_to(tx, step.config.keypair, step.program, step.blockhash)
            &&& i * 229 < len
            &&& written_from(tx) == i * 229
            &&& written_bytes(tx) == step.data@.subrange(i * 229, end)
        }),
{
    let client = step.config.keypair;
    let data = step.data@;
    let views = tx_views(deployment.writes@);
    assert(views[i] == deployment.writes@[i]@);
    assert(i < chunk_count(data.len()));
    lemma_write(
        views[i],
        client,
        step.program,
        chunk_offset(i),
        chunk(data, i),
        step.blockhash,
    );
}

proof fn lemma_replay_prefix(
    step: RentStep,
    rent: u64,
    deployment: Deployment,
    account: Seq<u8>,
    n: int,
)
    requires
        prepared(step, rent, deployment),
        step.data@.len() <= u32::MAX,
        account.len() == step.data@.len(),
        0 <= n <= deployment.writes@.len(),
    ensures
        ({
            let r = replayed(account, tx_views(deployment.writes@).take(n));
            &&& r.len() == step.data@.len()
            &&& forall|k: int| 0 <= k < r.len() && k < n * 229 ==> r[k] == step.data@[k]
        }),
    decreases n,
{
    let views = tx_views(deployment.writes@);
    let prefix = views.take(n);
    if n > 0 {
        lemma_replay_prefix(step, rent, deployment, account, n - 1);
        assert(prefix.drop_last() =~= views.take(n - 1));
        assert(prefix.last() == deployment.writes@[n - 1]@);
        lemma_writes_put_their_bytes_in_place(step, rent, deployment, n - 1);
        let before = replayed(account, views.take(n - 1));
        let r = replayed(account, prefix);
        assert forall|k: int| 0 <= k < r.len() && k < n * 229 implies r[k] == step.data@[k] by {
            if k < (n - 1) * 229 {
                assert(before[k] == step.data@[k]);
            }
        }
    }
}

/// Run one after the other on an account of the program's length, whatever it held, the writes of
/// a deployment leave exactly the program there.
pub proof fn lemma_writes_leave_the_program(
    step: RentStep,
    rent: u64,
    deployment: Deployment,
    account: Seq<u8>,
)
    requires
        prepared(step, rent, deployment),
        step.data@.len() <= u32::MAX,
        account.len() == step.data@.len(),
    ensures
        replayed(account, tx_views(deployment.writes@)) == step.data@,
{
    let views = tx_views(deployment.writes@);
    lemma_replay_prefix(step, rent, deployment, account, views.len() as int);
    assert(views.take(views.len() as int) =~= views);
    assert(views.len() == chunk_count(step.data@.len()));
    let n = views.len() as int;
    assert(n * 229 >= step.data@.len());
    assert(replayed(account, views) =~= step.data@);
}

/// A deployment first makes an account of the program's length for the BPF loader, with the
/// lamports that free it from rent and with one at least, and in the end makes it executable.  The
/// client pays, and signs together with the program's key pair.
pub proof fn lemma_deployments_make_and_finish_the_account(
    step: RentStep,
    rent: u64,
    deployment: Deployment,
)
    requires
        prepared(step, rent, deployment),
        step.data@.len() <= u64::MAX,
    ensures
        ({
            let client = step.config.keypair;
            let program = step.program;
            let tx = deployment.create@;
            let data = data_of(tx, 0);
            &&& tx.message.instructions.len() == 1
            &&& tx.message.recent_blockhash == step.blockhash
            &&& is_system_program(program_of(tx, 0))
            &&& account_count(tx, 0) == 2
            &&& account_of(tx, 0, 0) == client.spec_pubkey()
            &&& account_of(tx, 0, 1) == program.spec_pubkey()
            &&& is_signed(tx, seq![client, program])
            &&& data.len() == 52
            &&& le_value(data.subrange(0, 4)) == 0
            &&& le_value(data.subrange(4, 12)) >= 1
            &&& rent >= 1 ==> le_value(data.subrange(4, 12)) == rent
            &&& rent == 0 ==> le_value(data.subrange(4, 12)) == 1
            &&& le_value(data.subrange(12, 20)) == step.data@.len()
            &&& data.subrange(20, 52) == bpf_loader_id().bytes@
        }),
        ({
            let client = step.config.keypair;
            let program = step.program;
            let tx = deployment.finalize@;
            &&& tx.message.instructions.len() == 1
            &&& tx.message.recent_blockhash == step.blockhash
            &&& tx.message.account_keys[0] == client.spec_pubkey()
            &&& program_of(tx, 0) == bpf_loader_id()
            &&& account_count(tx, 0) == 2
            &&& account_of(tx, 0, 0) == program.spec_pubkey()
            &&& account_of(tx, 0, 1) == rent_sysvar_id()
            &&& is_signed(tx, seq![client, program])
            &&& data_of(tx, 0).len() == 4
            &&& le_value(data_of(tx, 0)) == 1
        }),
        deployment.fee_calculator == step.fee_calculator,
        *deployment.config == *step.config,
        deployment.program == step.program,
{
    let client = step.config.keypair;
    let program = step.program;
    let lamports: u64 = if rent < 1 {
        1
    } else {
        rent
    };
    let space = step.data@.len() as u64;
    lemma_u32_bytes(0);
    lemma_u32_bytes(1);
    lemma_u64_bytes(lamports);
    lemma_u64_bytes(space);
    let make = create_account_ix(
        client.spec_pubkey(),
        program.spec_pubkey(),
        lamports,
        space,
        bpf_loader_id(),
    );
    assert(seq![make][0] == make);
    lemma_signers(seq![make], None, client, program);
    let tx = deployment.create@;
    lemma_delivered(tx, seq![client, program], seq![make], None, step.blockhash);
    assert(account_of(tx, 0, 0) == make.accounts[0].pubkey);
    assert(account_of(tx, 0, 1) == make.accounts[1].pubkey);
    let data = data_of(tx, 0);
    assert(data == make.data);
    assert(data.subrange(0, 4) =~= le_bytes(0, 4));
    assert(data.subrange(4, 12) =~= le_bytes(lamports as nat, 8));
    assert(data.subrange(12, 20) =~= le_bytes(space as nat, 8));
    assert(data.subrange(20, 52) =~= bpf_loader_id().bytes@);
    let finish = loader_finalize_ix(program.spec_pubkey(), bpf_loader_id());
    assert(seq![finish][0] == finish);
    lemma_signers(seq![finish], Some(client.spec_pubkey()), client, program);
    let tx = deployment.finalize@;
    lemma_delivered(
        tx,
        seq![client, program],
        seq![finish],
        Some(client.spec_pubkey()),
        step.blockhash,
    );
    assert(account_of(tx, 0, 0) == finish.accounts[0].pubkey);
    assert(account_of(tx, 0, 1) == finish.accounts[1].pubkey);
}

/// The error that a deployment ends with.
pub open spec fn ends_with_program_error(progress: Progress, text: Seq<char>) -> bool {
    &&& progress matches Progress::Done(Err(CommandError::Cli(CliError::DynamicProgramError(t))))
    &&& t@ == text
}

/// Once the balance covers the fees of all its transactions, a deployment makes the account, then
/// writes the program, then finishes it, each with both key pairs to sign again.
pub proof fn lemma_deployments_go_on_in_order(
    step: BalanceStep,
    deployment: Deployment,
    balance: u64,
    made: Progress,
    outcome: Result<String, ClientError>,
    written: Progress,
    whole: Result<(), String>,
    finished: Progress,
)
    requires
        step.next == BalanceThen::DeployFees(deployment),
        goes_on_from_balance(step, Ok(Some(balance)), made),
        made is Send,
        goes_on_from_sending(made->Send_0, outcome, written),
        written is SendAll ==> call_ensures(
            SendAllStep::resume,
            (written->SendAll_0, whole),
            finished,
        ),
    ensures
        made->Send_0.tx == deployment.create,
        made->Send_0.signers matches Resigners::Keypairs(pairs) && pairs@ == seq![
            deployment.config.keypair,
            deployment.program,
        ],
        outcome is Ok ==> {
            &&& written matches Progress::SendAll(all)
            &&& all.txs == deployment.writes
            &&& all.signers@ == seq![deployment.config.keypair, deployment.program]
            &&& match whole {
                Ok(()) => {
                    &&& finished matches Progress::Send(last)
                    &&& last.tx == deployment.finalize
                    &&& last.signers matches Resigners::Keypairs(pairs)
                    &&& pairs@ == seq![deployment.config.keypair, deployment.program]
                    &&& last.next == (SendThen::EndDeployment { program: deployment.program })
                },
                Err(text) => finished == Progress::Done(Err(CommandError::Other(text))),
            }
        },
        outcome is Err ==> ends_with_program_error(written, "Program allocate space failed"@),
{
}

/// A finished program is reported by its key, and one that could not be finished by the failure.
pub proof fn lemma_deployments_end_with_the_program(
    step: SendStep,
    program: Keypair,
    outcome: Result<String, ClientError>,
    last: Progress,
)
    requires
        step.next == (SendThen::EndDeployment { program }),
        goes_on_from_sending(step, outcome, last),
    ensures
        outcome is Ok ==> (last matches Progress::Done(Ok(text)) && text@ == object_text(
            seq![("programId"@, pubkey_text(program.spec_pubkey()))],
            Seq::empty(),
        )),
        outcome is Err ==> ends_with_program_error(last, "Program finalize transaction failed"@),
{
}

/// A deployment reads the file that the command names, asks for a recent blockhash and for the rent
/// of an account of the program's length, and then for the client's balance.
pub proof fn lemma_deployments_read_the_file_they_name(
    config: CliConfig,
    path: String,
    first: Progress,
    data: Vec<u8>,
    asked: Progress,
    recent: (Blockhash, FeeCalculator),
    known: Progress,
    rent: u64,
    ready: Progress,
)
    requires
        config.command == CliCommand::Deploy(path),
        begins(config, first),
        first is ReadFile ==> call_ensures(
            ReadStep::resume,
            (first->ReadFile_0, Ok(data)),
            asked,
        ),
        asked is Blockhash ==> goes_on_from_blockhash(asked->Blockhash_0, recent, known),
        known is Rent ==> call_ensures(RentStep::resume, (known->Rent_0, Ok(rent)), ready),
    ensures
        first is ReadFile,
        first->ReadFile_0.path@ == path@,
        asked is Blockhash,
        known is Rent,
        *known->Rent_0.config == config,
        known->Rent_0.program == first->ReadFile_0.program,
        known->Rent_0.data@ == data@,
        known->Rent_0.blockhash == recent.0,
        known->Rent_0.fee_calculator == recent.1,
        ready is Balance,
        ready->Balance_0.pubkey == config.keypair.spec_pubkey(),
        ready->Balance_0.next matches BalanceThen::DeployFees(deployment) && prepared(
            known->Rent_0,
            rent,
            deployment,
        ),
{
}

/// A deployment in a given account goes on as any other, with that account.
pub proof fn lemma_deployments_may_be_given_their_account(
    config: &CliConfig,
    path: &str,
    program: Keypair,
    first: Progress,
)
    requires
        call_ensures(deploy_as, (config, path, program), first),
    ensures
        first matches Progress::ReadFile(step) && *step.config == *config && step.path@ == path@
            && step.program == program,
{
}

/// A program file that cannot be opened or read ends the deployment.
pub proof fn lemma_deployments_need_their_file(step: ReadStep, error: FileError, last: Progress)
    requires
        call_ensures(ReadStep::resume, (step, Err(error)), last),
    ensures
        match error {
            FileError::Open(text) => ends_with_program_error(
                last,
                "Unable to open program file: "@ + text@,
            ),
            FileError::Read(text) => ends_with_program_error(
                last,
                "Unable to read program file: "@ + text@,
            ),
        },
{
}

} // verus!
