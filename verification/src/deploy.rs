//! Deploying a program: an account is made for it, its bytes are written in chunks, and it is
//! made executable.
use crate::command::CliConfig;
use crate::compose::{
    create_account_transaction, create_account_tx, finalize_transaction, finalize_tx,
    write_transaction, write_tx,
};
use crate::errors::{ClientError, CliError, CommandError};
use crate::fees::{check_account_for_multiple_fees, fee_check, message_views, FeeCalculator};
use crate::instruction::{
    bpf_loader_id, create_account_ix, loader_finalize_ix, loader_id, loader_write_ix,
};
use crate::keys::{fresh_keypair, pubkey_text, Blockhash, Keypair, Pubkey};
use crate::progress::{
    BalanceStep, BalanceThen, BlockhashStep, BlockhashThen, Deployment, FileError, Progress,
    ReadStep, RentStep, Resigners, SendAllStep, SendStep, SendThen,
};
use crate::signing::{field_texts, list_texts, object_text, show_object};
use crate::submit::{comes_to, fails_with};
use crate::text::joined;
use crate::transaction::{delivers, Message, MessageView, Transaction, TransactionView};
use vstd::prelude::*;

verus! {

/// How many bytes one transaction writes, so that it fits into a packet.
pub const USERDATA_CHUNK_SIZE: usize = 229;

/// How many transactions it takes to write so many bytes.
pub open spec fn chunk_count(len: nat) -> nat {
    (len + USERDATA_CHUNK_SIZE - 1) as nat / USERDATA_CHUNK_SIZE as nat
}

/// Where the chunk ends.
pub open spec fn chunk_end(len: nat, i: int) -> int {
    if (i + 1) * USERDATA_CHUNK_SIZE <= len {
        (i + 1) * USERDATA_CHUNK_SIZE
    } else {
        len as int
    }
}

/// The bytes of one chunk.
pub open spec fn chunk(data: Seq<u8>, i: int) -> Seq<u8> {
    data.subrange(i * USERDATA_CHUNK_SIZE, chunk_end(data.len(), i))
}

/// Where one chunk is written to.
pub open spec fn chunk_offset(i: int) -> u32 {
    (i * USERDATA_CHUNK_SIZE) as u32
}

/// The transactions that write the program.
pub open spec fn write_txs(
    client: Keypair,
    program: Keypair,
    data: Seq<u8>,
    blockhash: Blockhash,
) -> Seq<TransactionView> {
    Seq::new(
        chunk_count(data.len()),
        |i: int| write_tx(client, program, chunk_offset(i), chunk(data, i), blockhash),
    )
}

/// Each of the transactions writes its chunk in one instruction that the client pays for.
pub open spec fn deliver_chunks(
    txs: Seq<TransactionView>,
    client: Keypair,
    program: Keypair,
    data: Seq<u8>,
) -> bool {
    forall|i: int|
        0 <= i < txs.len() ==> delivers(
            #[trigger] txs[i],
            seq![
                loader_write_ix(
                    program.spec_pubkey(),
                    bpf_loader_id(),
                    chunk_offset(i),
                    chunk(data, i),
                ),
            ],
            Some(client.spec_pubkey()),
        )
}

/// The views of transactions.
pub open spec fn tx_views(txs: Seq<Transaction>) -> Seq<TransactionView> {
    txs.map_values(|tx: Transaction| tx@)
}

/// The transactions that deploy the program.
pub open spec fn deploys(
    deployment: Deployment,
    config: CliConfig,
    program: Keypair,
    data: Seq<u8>,
    blockhash: Blockhash,
    fee_calculator: FeeCalculator,
    minimum_balance: u64,
) -> bool {
    let client = config.keypair;
    let lamports = if minimum_balance < 1 {
        1
    } else {
        minimum_balance
    };
    let space = data.len() as u64;
    &&& *deployment.config == config
    &&& deployment.program == program
    &&& deployment.fee_calculator == fee_calculator
    &&& deployment.create@ == create_account_tx(
        client,
        program,
        blockhash,
        lamports,
        space,
        bpf_loader_id(),
    )
    &&& delivers(
        deployment.create@,
        seq![
            create_account_ix(
                client.spec_pubkey(),
                program.spec_pubkey(),
                lamports,
                space,
                bpf_loader_id(),
            ),
        ],
        None,
    )
    &&& tx_views(deployment.writes@) == write_txs(client, program, data, blockhash)
    &&& deliver_chunks(tx_views(deployment.writes@), client, program, data)
    &&& deployment.finalize@ == finalize_tx(client, program, blockhash)
    &&& delivers(
        deployment.finalize@,
        seq![loader_finalize_ix(program.spec_pubkey(), bpf_loader_id())],
        Some(client.spec_pubkey()),
    )
}

/// The messages that a deployment has to pay for.
pub open spec fn deployment_messages(
    create: TransactionView,
    writes: Seq<TransactionView>,
    finalize: TransactionView,
) -> Seq<MessageView> {
    seq![create.message] + writes.map_values(|tx: TransactionView| tx.message) + seq![
        finalize.message,
    ]
}

/// The command fails because of the program.
pub open spec fn program_fails(progress: Progress, text: Seq<char>) -> bool {
    progress matches Progress::Done(Err(CommandError::Cli(CliError::DynamicProgramError(t)))) && t@
        == text
}

fn program_failure<'a>(text: String) -> (r: Progress<'a>)
    ensures
        program_fails(r, text@),
{
    Progress::Done(Err(CommandError::Cli(CliError::DynamicProgramError(text))))
}

/// Deploys the program in the file, in the account of `program`.
pub fn deploy_as<'a>(config: &'a CliConfig, path: &'a str, program: Keypair) -> (r: Progress<'a>)
    ensures
        r == Progress::ReadFile(ReadStep { config, path, program }),
{
    Progress::ReadFile(ReadStep { config, path, program })
}

/// Deploys the program in the file, in a new account.
pub(crate) fn process_deploy<'a>(config: &'a CliConfig, path: &'a str) -> (r: Progress<'a>)
    ensures
        exists|program: Keypair|
            r == Progress::ReadFile(#[trigger] reads_program(config, path, program)),
{
    let program = fresh_keypair();
    let r = deploy_as(config, path, program);
    assert(r == Progress::ReadFile(reads_program(config, path, program)));
    r
}

/// Asks for the bytes of the program.
pub open spec fn reads_program<'a>(config: &'a CliConfig, path: &'a str, program: Keypair) -> ReadStep<
    'a,
> {
    ReadStep { config, path, program }
}

impl<'a> ReadStep<'a> {
    /// Asks for a blockhash once the program has been read.
    pub fn resume(self, reply: Result<Vec<u8>, FileError>) -> (r: Progress<'a>)
        ensures
            match reply {
                Ok(data) => {
                    &&& r matches Progress::Blockhash(step)
                    &&& step.next == (BlockhashThen::Deploy {
                        config: self.config,
                        program: self.program,
                        data,
                    })
                },
                Err(FileError::Open(text)) => program_fails(
                    r,
                    "Unable to open program file: "@ + text@,
                ),
                Err(FileError::Read(text)) => program_fails(
                    r,
                    "Unable to read program file: "@ + text@,
                ),
            },
    {
        match reply {
            Ok(data) => Progress::Blockhash(
                BlockhashStep {
                    next: BlockhashThen::Deploy {
                        config: self.config,
                        program: self.program,
                        data,
                    },
                },
            ),
            Err(FileError::Open(text)) => program_failure(
                joined("Unable to open program file: ", text.as_str()),
            ),
            Err(FileError::Read(text)) => program_failure(
                joined("Unable to read program file: ", text.as_str()),
            ),
        }
    }
}

fn copy_range(data: &Vec<u8>, start: usize, end: usize) -> (r: Vec<u8>)
    requires
        start <= end <= data@.len(),
    ensures
        r@ == data@.subrange(start as int, end as int),
{
    let mut r: Vec<u8> = Vec::new();
    let mut i: usize = start;
    while i < end
        invariant
            start <= i <= end <= data@.len(),
            r@ == data@.subrange(start as int, i as int),
        decreases end - i,
    {
        r.push(data[i]);
        i += 1;
        assert(r@ =~= data@.subrange(start as int, i as int));
    }
    r
}

/// The transactions that write the program, in the order of its bytes.
fn build_writes(client: &Keypair, program: &Keypair, data: &Vec<u8>, blockhash: Blockhash) -> (r: Vec<
    Transaction,
>)
    ensures
        tx_views(r@) == write_txs(*client, *program, data@, blockhash),
        deliver_chunks(tx_views(r@), *client, *program, data@),
{
    let mut r: Vec<Transaction> = Vec::new();
    let mut start: usize = 0;
    let ghost mut i: int = 0;
    while start < data.len()
        invariant
            start <= data@.len(),
            start == chunk_end(data@.len(), i - 1) || (i == 0 && start == 0),
            0 <= i,
            start < data@.len() ==> start == i * USERDATA_CHUNK_SIZE,
            i <= chunk_count(data@.len()),
            start == data@.len() ==> i == chunk_count(data@.len()),
            r@.len() == i,
            forall|j: int|
                0 <= j < i ==> (#[trigger] r@[j])@ == write_tx(
                    *client,
                    *program,
                    chunk_offset(j),
                    chunk(data@, j),
                    blockhash,
                ),
            deliver_chunks(tx_views(r@), *client, *program, data@),
        decreases data.len() - start,
    {
        let end: usize = if data.len() - start < USERDATA_CHUNK_SIZE {
            data.len()
        } else {
            start + USERDATA_CHUNK_SIZE
        };
        assert(end == chunk_end(data@.len(), i));
        let bytes = copy_range(data, start, end);
        assert(bytes@ == chunk(data@, i));
        let offset: u32 = #[verifier::truncate] (start as u32);
        let ghost before = tx_views(r@);
        r.push(write_transaction(client, program, offset, bytes, blockhash));
        assert(tx_views(r@) =~= before.push(r@[i]@));
        start = end;
        proof {
            i = i + 1;
        }
    }
    assert(tx_views(r@) =~= write_txs(*client, *program, data@, blockhash));
    r
}

impl<'a> RentStep<'a> {
    /// Builds the transactions and asks for the balance that their fees are taken from.
    pub fn resume(self, reply: Result<u64, ClientError>) -> (r: Progress<'a>)
        ensures
            match reply {
                Ok(minimum_balance) => {
                    &&& r matches Progress::Balance(step)
                    &&& step.pubkey == self.config.keypair.spec_pubkey()
                    &&& step.next matches BalanceThen::DeployFees(deployment)
                    &&& deploys(
                        deployment,
                        *self.config,
                        self.program,
                        self.data@,
                        self.blockhash,
                        self.fee_calculator,
                        minimum_balance,
                    )
                },
                Err(error) => fails_with(r, CommandError::Client(error)),
            },
    {
        let minimum_balance: u64 = match reply {
            Ok(minimum_balance) => minimum_balance,
            Err(error) => {
                return Progress::Done(Err(CommandError::Client(error)));
            },
        };
        let client = &self.config.keypair;
        let create = create_account_transaction(
            client,
            &self.program,
            self.blockhash,
            if minimum_balance < 1 {
                1
            } else {
                minimum_balance
            },
            self.data.len() as u64,
            &loader_id(),
        );
        let writes = build_writes(client, &self.program, &self.data, self.blockhash);
        let finalize = finalize_transaction(client, &self.program, self.blockhash);
        Progress::Balance(
            BalanceStep {
                pubkey: client.pubkey(),
                next: BalanceThen::DeployFees(
                    Deployment {
                        config: self.config,
                        program: self.program,
                        fee_calculator: self.fee_calculator,
                        create,
                        writes,
                        finalize,
                    },
                ),
            },
        )
    }
}

/// The command makes the program's account and goes on from there.
pub open spec fn makes_account(progress: Progress, deployment: Deployment) -> bool {
    &&& progress matches Progress::Send(step)
    &&& step.tx == deployment.create
    &&& step.signers matches Resigners::Keypairs(pairs)
    &&& pairs@ == seq![deployment.config.keypair, deployment.program]
    &&& step.next == (SendThen::WriteProgram {
        config: deployment.config,
        program: deployment.program,
        writes: deployment.writes,
        finalize: deployment.finalize,
    })
}

/// Starts the deployment where the balance covers the fees of all its transactions.
pub(crate) fn deploy_if_covered<'a>(
    deployment: Deployment<'a>,
    balance: Result<Option<u64>, ClientError>,
) -> (r: Progress<'a>)
    ensures
        match fee_check(
            balance,
            deployment.fee_calculator,
            deployment_messages(
                deployment.create@,
                tx_views(deployment.writes@),
                deployment.finalize@,
            ),
        ) {
            Ok(()) => makes_account(r, deployment),
            Err(error) => fails_with(r, error),
        },
{
    let mut messages: Vec<&Message> = Vec::new();
    messages.push(&deployment.create.message);
    let mut i: usize = 0;
    while i < deployment.writes.len()
        invariant
            i <= deployment.writes@.len(),
            messages@.len() == i + 1,
            messages@[0]@ == deployment.create@.message,
            forall|j: int|
                0 <= j < i ==> (#[trigger] messages@[j + 1])@ == deployment.writes@[j]@.message,
        decreases deployment.writes.len() - i,
    {
        let ghost before = messages@;
        messages.push(&deployment.writes[i].message);
        assert forall|j: int| 0 <= j < i + 1 implies (#[trigger] messages@[j + 1])@
            == deployment.writes@[j]@.message by {
            if j < i {
                assert(messages@[j + 1] == before[j + 1]);
            }
        }
        i += 1;
    }
    messages.push(&deployment.finalize.message);
    proof {
        let wanted = deployment_messages(
            deployment.create@,
            tx_views(deployment.writes@),
            deployment.finalize@,
        );
        let n = deployment.writes@.len();
        assert(message_views(messages@).len() == wanted.len());
        assert forall|k: int| 0 <= k < wanted.len() implies message_views(messages@)[k] == wanted[k] by {
            if 0 < k <= n {
                assert(messages@[(k - 1) + 1]@ == deployment.writes@[k - 1]@.message);
            }
        }
        assert(message_views(messages@) =~= wanted);
    }
    match check_account_for_multiple_fees(balance, &deployment.fee_calculator, &messages) {
        Ok(()) => {
            let signers: Vec<Keypair> = vec![deployment.config.keypair, deployment.program];
            assert(signers@ =~= seq![deployment.config.keypair, deployment.program]);
            Progress::Send(
                SendStep {
                    tx: deployment.create,
                    signers: Resigners::Keypairs(signers),
                    next: SendThen::WriteProgram {
                        config: deployment.config,
                        program: deployment.program,
                        writes: deployment.writes,
                        finalize: deployment.finalize,
                    },
                },
            )
        },
        Err(error) => Progress::Done(Err(error)),
    }
}

/// The command writes the program and goes on from there.
pub open spec fn writes_program(
    progress: Progress,
    config: CliConfig,
    program: Keypair,
    writes: Vec<Transaction>,
    finalize: Transaction,
) -> bool {
    &&& progress matches Progress::SendAll(step)
    &&& *step.config == config
    &&& step.txs == writes
    &&& step.signers@ == seq![config.keypair, program]
    &&& step.program == program
    &&& step.finalize == finalize
}

/// Writes the program once its account has been made.
pub(crate) fn write_program<'a>(
    config: &'a CliConfig,
    program: Keypair,
    writes: Vec<Transaction>,
    finalize: Transaction,
    made: Result<String, ClientError>,
) -> (r: Progress<'a>)
    ensures
        match made {
            Ok(_) => writes_program(r, *config, program, writes, finalize),
            Err(_) => program_fails(r, "Program allocate space failed"@),
        },
{
    match made {
        Ok(_) => {
            let signers: Vec<Keypair> = vec![config.keypair, program];
            assert(signers@ =~= seq![config.keypair, program]);
            Progress::SendAll(SendAllStep { config, txs: writes, signers, program, finalize })
        },
        Err(_) => program_failure("Program allocate space failed".to_owned()),
    }
}

impl<'a> SendAllStep<'a> {
    /// Makes the program executable once it has been written.
    pub fn resume(self, reply: Result<(), String>) -> (r: Progress<'a>)
        ensures
            match reply {
                Ok(()) => {
                    &&& r matches Progress::Send(step)
                    &&& step.tx == self.finalize
                    &&& step.signers == Resigners::Keypairs(self.signers)
                    &&& step.next == (SendThen::EndDeployment { program: self.program })
                },
                Err(text) => fails_with(r, CommandError::Other(text)),
            },
    {
        match reply {
            Ok(()) => Progress::Send(
                SendStep {
                    tx: self.finalize,
                    signers: Resigners::Keypairs(self.signers),
                    next: SendThen::EndDeployment { program: self.program },
                },
            ),
            Err(text) => Progress::Done(Err(CommandError::Other(text))),
        }
    }
}

/// The text that reports a deployed program.
pub open spec fn program_json(program: Pubkey) -> Seq<char> {
    object_text(seq![("programId"@, pubkey_text(program))], Seq::empty())
}

/// Reports the program once it has been made executable.
pub(crate) fn end_deployment<'a>(program: &Keypair, finalized: Result<String, ClientError>) -> (r: Progress<
    'a,
>)
    ensures
        match finalized {
            Ok(_) => comes_to(r, program_json(program.spec_pubkey())),
            Err(_) => program_fails(r, "Program finalize transaction failed"@),
        },
{
    match finalized {
        Ok(_) => {
            let fields: Vec<(&str, String)> = vec![("programId", program.pubkey().to_string())];
            let lists: Vec<(&str, Vec<String>)> = vec![];
            assert(field_texts(fields@) =~= seq![
                ("programId"@, pubkey_text(program.spec_pubkey())),
            ]);
            assert(list_texts(lists@) =~= Seq::empty());
            Progress::Done(Ok(show_object(fields, lists)))
        },
        Err(_) => program_failure("Program finalize transaction failed".to_owned()),
    }
}

/// The chunks of a program are all of it: byte `k` stands in one of them and, in a program whose
/// length fits the offsets, is written to its own place.  No chunk is empty or too large.
pub proof fn lemma_chunks_are_the_program(data: Seq<u8>, k: int)
    requires
        0 <= k < data.len(),
    ensures
        ({
            let i = k / USERDATA_CHUNK_SIZE as int;
            let j = k % USERDATA_CHUNK_SIZE as int;
            &&& 0 <= i < chunk_count(data.len())
            &&& 0 <= j < chunk(data, i).len()
            &&& 1 <= chunk(data, i).len() <= USERDATA_CHUNK_SIZE
            &&& chunk(data, i)[j] == data[k]
            &&& data.len() <= u32::MAX ==> chunk_offset(i) + j == k
        }),
{
}

/// Put together again, the chunks of a program are the program.
pub proof fn lemma_chunks_put_together(data: Seq<u8>)
    ensures
        Seq::new(chunk_count(data.len()), |i: int| chunk(data, i)).flatten() == data,
{
    lemma_first_chunks(data, chunk_count(data.len()));
    assert(chunk_end(data.len(), chunk_count(data.len()) - 1) == data.len() || data.len() == 0);
    assert(data.subrange(0, data.len() as int) =~= data);
}

proof fn lemma_first_chunks(data: Seq<u8>, n: nat)
    requires
        n <= chunk_count(data.len()),
    ensures
        Seq::new(n, |i: int| chunk(data, i)).flatten() == data.subrange(
            0,
            if n == 0 {
                0
            } else {
                chunk_end(data.len(), n - 1)
            },
        ),
    decreases n,
{
    let chunks = Seq::new(n, |i: int| chunk(data, i));
    if n == 0 {
        assert(chunks =~= Seq::empty());
        assert(chunks.flatten() =~= data.subrange(0, 0));
    } else {
        let before = Seq::new((n - 1) as nat, |i: int| chunk(data, i));
        lemma_first_chunks(data, (n - 1) as nat);
        assert(chunks.drop_last() =~= before);
        chunks.lemma_flatten_and_flatten_alt_are_equivalent();
        before.lemma_flatten_and_flatten_alt_are_equivalent();
        assert(chunks.flatten() =~= before.flatten() + chunk(data, n - 1));
        assert(before.flatten() + chunk(data, n - 1) =~= data.subrange(
            0,
            chunk_end(data.len(), n - 1),
        ));
    }
}

} // verus!
