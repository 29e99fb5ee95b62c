//! The grammar of the command line, argument by argument.
use crate::grammar::{app, section_views, AppSpec, ArgSpec, ModuleCommands, Section, Validator};
use vstd::prelude::*;

verus! {

/// The text, where there is one.
pub open spec fn static_text(text: Option<&'static str>) -> Option<Seq<char>> {
    match text {
        Some(text) => Some(text@),
        None => None,
    }
}

/// The argument stands at a place of its own, and has one value.
pub open spec fn is_positional(
    arg: ArgSpec,
    name: Seq<char>,
    index: u64,
    validator: Validator,
    required: bool,
) -> bool {
    &&& arg.name@ == name
    &&& arg.index == Some(index)
    &&& arg.long is None
    &&& arg.short is None
    &&& arg.takes_value
    &&& arg.required == required
    &&& !arg.multiple
    &&& !arg.use_delimiter
    &&& arg.requires is None
    &&& arg.default_value is None
    &&& arg.validator == validator
    &&& match arg.possible_values {
        Some(units) => name == "unit"@ && units.0@ == "SOL"@ && units.1@ == "lamports"@,
        None => name != "unit"@,
    }
}

/// The argument is an option with a value, which may need another, be given more than once, or have
/// a value where it is not given.
pub open spec fn is_option(
    arg: ArgSpec,
    name: Seq<char>,
    long: Seq<char>,
    validator: Validator,
    needs: Option<Seq<char>>,
    multiple: bool,
    default: Option<Seq<char>>,
) -> bool {
    &&& arg.name@ == name
    &&& arg.index is None
    &&& static_text(arg.long) == Some(long)
    &&& static_text(arg.short) == if name == "output_file"@ { Some("o"@) } else { None }
    &&& arg.takes_value
    &&& !arg.required
    &&& arg.multiple == multiple
    &&& arg.use_delimiter <==> name == "witness"@
    &&& static_text(arg.requires) == needs
    &&& static_text(arg.default_value) == default
    &&& arg.possible_values is None
    &&& arg.validator == validator
}

/// The argument is an option without a value, which may need another.
pub open spec fn is_flag(
    arg: ArgSpec,
    name: Seq<char>,
    long: Seq<char>,
    needs: Option<Seq<char>>,
) -> bool {
    &&& arg.name@ == name
    &&& arg.index is None
    &&& static_text(arg.long) == Some(long)
    &&& arg.short is None
    &&& !arg.takes_value
    &&& !arg.required
    &&& !arg.multiple
    &&& static_text(arg.requires) == needs
    &&& arg.default_value is None
    &&& arg.validator == Validator::Anything
}

/// The section is a command of this name, which has so many arguments and no other name.
pub open spec fn is_command_section(
    section: Section,
    name: Seq<char>,
    about: Seq<char>,
    arguments: nat,
) -> bool {
    &&& section matches Section::Command(command)
    &&& command.name@ == name
    &&& command.about@ == about
    &&& command.args@.len() == arguments
    &&& static_text(command.alias) matches Some(alias) ==> alias == name
}

proof fn lemma_words()
    ensures
        "unit"@.len() == 4,
        "output_file"@.len() == 11,
        "witness"@.len() == 7,
        "account_pubkey"@.len() == 14,
        "amount"@.len() == 6,
        "blockhash"@.len() == 9,
        "cancelable"@.len() == 10,
        "datetime"@.len() == 8,
        "faucet_host"@.len() == 11,
        "faucet_port"@.len() == 11,
        "fee_payer"@.len() == 9,
        "from"@.len() == 4,
        "lamports"@.len() == 8,
        "nonce"@.len() == 5,
        "nonce_authority"@.len() == 15,
        "process_id"@.len() == 10,
        "program_id"@.len() == 10,
        "program_location"@.len() == 16,
        "pubkey"@.len() == 6,
        "seed"@.len() == 4,
        "sign_only"@.len() == 9,
        "signature"@.len() == 9,
        "signer"@.len() == 6,
        "timestamp"@.len() == 9,
        "timestamp_pubkey"@.len() == 16,
        "to"@.len() == 2,
        "faucet_host"@[0] == 'f',
        "faucet_port"@[0] == 'f',
        "from"@[0] == 'f',
        "seed"@[0] == 's',
        "unit"@[0] == 'u',
        "witness"@[0] == 'w',
        "output_file"@[0] == 'o',
{
    reveal_strlit("account_pubkey");
    reveal_strlit("amount");
    reveal_strlit("blockhash");
    reveal_strlit("cancelable");
    reveal_strlit("datetime");
    reveal_strlit("faucet_host");
    reveal_strlit("faucet_port");
    reveal_strlit("fee_payer");
    reveal_strlit("from");
    reveal_strlit("lamports");
    reveal_strlit("nonce");
    reveal_strlit("nonce_authority");
    reveal_strlit("output_file");
    reveal_strlit("process_id");
    reveal_strlit("program_id");
    reveal_strlit("program_location");
    reveal_strlit("pubkey");
    reveal_strlit("seed");
    reveal_strlit("sign_only");
    reveal_strlit("signature");
    reveal_strlit("signer");
    reveal_strlit("timestamp");
    reveal_strlit("timestamp_pubkey");
    reveal_strlit("to");
    reveal_strlit("unit");
    reveal_strlit("witness");
}

/// The command line holds its own commands and the places of the other modules', in this order, and
/// shows help where no command is given.
pub proof fn lemma_the_grammar_has_these_commands(
    name: &str,
    about: &str,
    version: &str,
    described: AppSpec,
)
    requires
        call_ensures(app, (name, about, version), described),
    ensures
        described.name@ == name@,
        described.about@ == about@,
        described.version@ == version@,
        described.subcommand_required_else_help,
        described.sections@.len() == 18,
        is_command_section(
            described.sections@[0],
            "address"@,
            "Get your public key"@,
            0,
        ),
        described.sections@[1] == Section::Module(ModuleCommands::ClusterQuery),
        described.sections@[2] == Section::Module(ModuleCommands::Nonce),
        described.sections@[3] == Section::Module(ModuleCommands::Stake),
        described.sections@[4] == Section::Module(ModuleCommands::Storage),
        is_command_section(
            described.sections@[5],
            "airdrop"@,
            "Request lamports"@,
            4,
        ),
        is_command_section(
            described.sections@[6],
            "balance"@,
            "Get your balance"@,
            2,
        ),
        is_command_section(
            described.sections@[7],
            "cancel"@,
            "Cancel a transfer"@,
            1,
        ),
        is_command_section(
            described.sections@[8],
            "confirm"@,
            "Confirm transaction by signature"@,
            1,
        ),
        is_command_section(
            described.sections@[9],
            "create-address-with-seed"@,
            "Generate a derived account address with a seed"@,
            3,
        ),
        is_command_section(
            described.sections@[10],
            "deploy"@,
            "Deploy a program"@,
            1,
        ),
        is_command_section(
            described.sections@[11],
            "pay"@,
            "Send a payment"@,
            12,
        ),
        is_command_section(
            described.sections@[12],
            "send-signature"@,
            "Send a signature to authorize a transfer"@,
            2,
        ),
        is_command_section(
            described.sections@[13],
            "send-timestamp"@,
            "Send a timestamp to unlock a transfer"@,
            3,
        ),
        is_command_section(
            described.sections@[14],
            "transfer"@,
            "Transfer funds between system accounts"@,
            10,
        ),
        is_command_section(
            described.sections@[15],
            "account"@,
            "Show the contents of an account"@,
            3,
        ),
        described.sections@[16] == Section::Module(ModuleCommands::ValidatorInfo),
        described.sections@[17] == Section::Module(ModuleCommands::Vote),
{
    let sections = described.sections@;
    let views = section_views(sections);
    assert(views.len() == sections.len());
    assert forall|i: int| 0 <= i < sections.len() implies #[trigger] views[i] == sections[i]@ by {}
    assert(views[0] == sections[0]@);
    assert(views[1] == sections[1]@);
    assert(views[2] == sections[2]@);
    assert(views[3] == sections[3]@);
    assert(views[4] == sections[4]@);
    assert(views[5] == sections[5]@);
    assert(views[6] == sections[6]@);
    assert(views[7] == sections[7]@);
    assert(views[8] == sections[8]@);
    assert(views[9] == sections[9]@);
    assert(views[10] == sections[10]@);
    assert(views[11] == sections[11]@);
    assert(views[12] == sections[12]@);
    assert(views[13] == sections[13]@);
    assert(views[14] == sections[14]@);
    assert(views[15] == sections[15]@);
    assert(views[16] == sections[16]@);
    assert(views[17] == sections[17]@);
}

/// The arguments of `airdrop`.
pub proof fn lemma_the_arguments_of_airdrop(
    name: &str,
    about: &str,
    version: &str,
    described: AppSpec,
)
    requires
        call_ensures(app, (name, about, version), described),
    ensures
        ({
            let args = described.sections@[5]->Command_0.args@;
            &&& is_option(
                args[0],
                "faucet_host"@,
                "faucet-host"@,
                Validator::Anything,
                None,
                false,
                None,
            )
            &&& is_option(
                args[1],
                "faucet_port"@,
                "faucet-port"@,
                Validator::Anything,
                None,
                false,
                Some("9900"@),
            )
            &&& is_positional(args[2], "amount"@, 1, Validator::Amount, true)
            &&& is_positional(args[3], "unit"@, 2, Validator::Anything, false)
        }),
{
    lemma_words();
    lemma_the_grammar_has_these_commands(name, about, version, described);
    let views = section_views(described.sections@);
    assert(views[5] == described.sections@[5]@);
}

/// The arguments of `balance`.
pub proof fn lemma_the_arguments_of_balance(
    name: &str,
    about: &str,
    version: &str,
    described: AppSpec,
)
    requires
        call_ensures(app, (name, about, version), described),
    ensures
        ({
            let args = described.sections@[6]->Command_0.args@;
            &&& is_positional(args[0], "pubkey"@, 1, Validator::PubkeyOrKeypair, false)
            &&& is_flag(args[1], "lamports"@, "lamports"@, None)
        }),
{
    lemma_words();
    lemma_the_grammar_has_these_commands(name, about, version, described);
    let views = section_views(described.sections@);
    assert(views[6] == described.sections@[6]@);
}

/// The arguments of `cancel`.
pub proof fn lemma_the_arguments_of_cancel(
    name: &str,
    about: &str,
    version: &str,
    described: AppSpec,
)
    requires
        call_ensures(app, (name, about, version), described),
    ensures
        ({
            let args = described.sections@[7]->Command_0.args@;
            &&& is_positional(args[0], "process_id"@, 1, Validator::Pubkey, true)
        }),
{
    lemma_words();
    lemma_the_grammar_has_these_commands(name, about, version, described);
    let views = section_views(described.sections@);
    assert(views[7] == described.sections@[7]@);
}

/// The arguments of `confirm`.
pub proof fn lemma_the_arguments_of_confirm(
    name: &str,
    about: &str,
    version: &str,
    described: AppSpec,
)
    requires
        call_ensures(app, (name, about, version), described),
    ensures
        ({
            let args = described.sections@[8]->Command_0.args@;
            &&& is_positional(args[0], "signature"@, 1, Validator::Anything, true)
        }),
{
    lemma_words();
    lemma_the_grammar_has_these_commands(name, about, version, described);
    let views = section_views(described.sections@);
    assert(views[8] == described.sections@[8]@);
}

/// The arguments of `create-address-with-seed`.
pub proof fn lemma_the_arguments_of_create_address_with_seed(
    name: &str,
    about: &str,
    version: &str,
    described: AppSpec,
)
    requires
        call_ensures(app, (name, about, version), described),
    ensures
        ({
            let args = described.sections@[9]->Command_0.args@;
            &&& is_positional(args[0], "seed"@, 1, Validator::Anything, true)
            &&& is_positional(args[1], "program_id"@, 2, Validator::Anything, true)
            &&& is_option(args[2], "from"@, "from"@, Validator::PubkeyOrKeypair, None, false, None)
        }),
{
    lemma_words();
    lemma_the_grammar_has_these_commands(name, about, version, described);
    let views = section_views(described.sections@);
    assert(views[9] == described.sections@[9]@);
}

/// The arguments of `deploy`.
pub proof fn lemma_the_arguments_of_deploy(
    name: &str,
    about: &str,
    version: &str,
    described: AppSpec,
)
    requires
        call_ensures(app, (name, about, version), described),
    ensures
        ({
            let args = described.sections@[10]->Command_0.args@;
            &&& is_positional(args[0], "program_location"@, 1, Validator::Anything, true)
        }),
{
    lemma_words();
    lemma_the_grammar_has_these_commands(name, about, version, described);
    let views = section_views(described.sections@);
    assert(views[10] == described.sections@[10]@);
}

/// The arguments of `pay`.
pub proof fn lemma_the_arguments_of_pay(
    name: &str,
    about: &str,
    version: &str,
    described: AppSpec,
)
    requires
        call_ensures(app, (name, about, version), described),
    ensures
        ({
            let args = described.sections@[11]->Command_0.args@;
            &&& is_positional(args[0], "to"@, 1, Validator::PubkeyOrKeypair, true)
            &&& is_positional(args[1], "amount"@, 2, Validator::Amount, true)
            &&& is_positional(args[2], "unit"@, 3, Validator::Anything, false)
            &&& is_option(args[3], "timestamp"@, "after"@, Validator::Anything, None, false, None)
            &&& is_option(
                args[4],
                "timestamp_pubkey"@,
                "require-timestamp-from"@,
                Validator::Pubkey,
                Some("timestamp"@),
                false,
                None,
            )
            &&& is_option(
                args[5],
                "witness"@,
                "require-signature-from"@,
                Validator::Pubkey,
                None,
                true,
                None,
            )
            &&& is_flag(args[6], "cancelable"@, "cancelable"@, None)
            &&& is_option(
                args[7],
                "blockhash"@,
                "blockhash"@,
                Validator::Blockhash,
                None,
                false,
                None,
            )
            &&& is_flag(args[8], "sign_only"@, "sign-only"@, Some("blockhash"@))
            &&& is_option(
                args[9],
                "signer"@,
                "signer"@,
                Validator::PubkeySig,
                Some("blockhash"@),
                true,
                None,
            )
            &&& is_option(
                args[10],
                "nonce"@,
                "nonce"@,
                Validator::Pubkey,
                Some("blockhash"@),
                false,
                None,
            )
            &&& is_option(
                args[11],
                "nonce_authority"@,
                "nonce-authority"@,
                Validator::PubkeyOrKeypairOrAskKeyword,
                Some("nonce"@),
                false,
                None,
            )
        }),
{
    lemma_words();
    lemma_the_grammar_has_these_commands(name, about, version, described);
    let views = section_views(described.sections@);
    assert(views[11] == described.sections@[11]@);
}

/// The arguments of `send-signature`.
pub proof fn lemma_the_arguments_of_send_signature(
    name: &str,
    about: &str,
    version: &str,
    described: AppSpec,
)
    requires
        call_ensures(app, (name, about, version), described),
    ensures
        ({
            let args = described.sections@[12]->Command_0.args@;
            &&& is_positional(args[0], "to"@, 1, Validator::Pubkey, true)
            &&& is_positional(args[1], "process_id"@, 2, Validator::Anything, true)
        }),
{
    lemma_words();
    lemma_the_grammar_has_these_commands(name, about, version, described);
    let views = section_views(described.sections@);
    assert(views[12] == described.sections@[12]@);
}

/// The arguments of `send-timestamp`.
pub proof fn lemma_the_arguments_of_send_timestamp(
    name: &str,
    about: &str,
    version: &str,
    described: AppSpec,
)
    requires
        call_ensures(app, (name, about, version), described),
    ensures
        ({
            let args = described.sections@[13]->Command_0.args@;
            &&& is_positional(args[0], "to"@, 1, Validator::Pubkey, true)
            &&& is_positional(args[1], "process_id"@, 2, Validator::Anything, true)
            &&& is_option(args[2], "datetime"@, "date"@, Validator::Anything, None, false, None)
        }),
{
    lemma_words();
    lemma_the_grammar_has_these_commands(name, about, version, described);
    let views = section_views(described.sections@);
    assert(views[13] == described.sections@[13]@);
}

/// The arguments of `transfer`.
pub proof fn lemma_the_arguments_of_transfer(
    name: &str,
    about: &str,
    version: &str,
    described: AppSpec,
)
    requires
        call_ensures(app, (name, about, version), described),
    ensures
        ({
            let args = described.sections@[14]->Command_0.args@;
            &&& is_positional(args[0], "to"@, 1, Validator::PubkeyOrKeypair, true)
            &&& is_positional(args[1], "amount"@, 2, Validator::Amount, true)
            &&& is_positional(args[2], "unit"@, 3, Validator::Anything, false)
            &&& is_option(
                args[3],
                "from"@,
                "from"@,
                Validator::PubkeyOrKeypairOrAskKeyword,
                None,
                false,
                None,
            )
            &&& is_option(
                args[4],
                "blockhash"@,
                "blockhash"@,
                Validator::Blockhash,
                None,
                false,
                None,
            )
            &&& is_flag(args[5], "sign_only"@, "sign-only"@, Some("blockhash"@))
            &&& is_option(
                args[6],
                "signer"@,
                "signer"@,
                Validator::PubkeySig,
                Some("blockhash"@),
                true,
                None,
            )
            &&& is_option(
                args[7],
                "nonce"@,
                "nonce"@,
                Validator::Pubkey,
                Some("blockhash"@),
                false,
                None,
            )
            &&& is_option(
                args[8],
                "nonce_authority"@,
                "nonce-authority"@,
                Validator::PubkeyOrKeypairOrAskKeyword,
                Some("nonce"@),
                false,
                None,
            )
            &&& is_option(
                args[9],
                "fee_payer"@,
                "fee-payer"@,
                Validator::PubkeyOrKeypairOrAskKeyword,
                None,
                false,
                None,
            )
        }),
{
    lemma_words();
    lemma_the_grammar_has_these_commands(name, about, version, described);
    let views = section_views(described.sections@);
    assert(views[14] == described.sections@[14]@);
}

/// The arguments of `account`.
pub proof fn lemma_the_arguments_of_account(
    name: &str,
    about: &str,
    version: &str,
    described: AppSpec,
)
    requires
        call_ensures(app, (name, about, version), described),
    ensures
        ({
            let args = described.sections@[15]->Command_0.args@;
            &&& is_positional(args[0], "account_pubkey"@, 1, Validator::PubkeyOrKeypair, true)
            &&& is_option(
                args[1],
                "output_file"@,
                "output"@,
                Validator::Anything,
                None,
                false,
                None,
            )
            &&& is_flag(args[2], "lamports"@, "lamports"@, None)
        }),
{
    lemma_words();
    lemma_the_grammar_has_these_commands(name, about, version, described);
    let views = section_views(described.sections@);
    assert(views[15] == described.sections@[15]@);
}

/// What is said of an argument: what its value is called, where it has one, and what it is for.
pub open spec fn is_explained(
    arg: ArgSpec,
    value_name: Option<Seq<char>>,
    help: Option<Seq<char>>,
) -> bool {
    static_text(arg.value_name) == value_name && static_text(arg.help) == help
}

/// What is said of the arguments of `airdrop`.
pub proof fn lemma_what_is_said_of_airdrop(
    name: &str,
    about: &str,
    version: &str,
    described: AppSpec,
)
    requires
        call_ensures(app, (name, about, version), described),
    ensures
        ({
            let args = described.sections@[5]->Command_0.args@;
            &&& is_explained(
                args[0],
                Some("HOST"@),
                Some("Faucet host to use [default: the --url host]"@),
            )
            &&& is_explained(args[1], Some("PORT"@), Some("Faucet port to use"@))
            &&& is_explained(
                args[2],
                Some("AMOUNT"@),
                Some("The airdrop amount to request (default unit SOL)"@),
            )
            &&& is_explained(
                args[3],
                Some("UNIT"@),
                Some("Specify unit to use for request and balance display"@),
            )
        }),
{
    lemma_the_grammar_has_these_commands(name, about, version, described);
    let views = section_views(described.sections@);
    assert(views[5] == described.sections@[5]@);
}

/// What is said of the arguments of `balance`.
pub proof fn lemma_what_is_said_of_balance(
    name: &str,
    about: &str,
    version: &str,
    described: AppSpec,
)
    requires
        call_ensures(app, (name, about, version), described),
    ensures
        ({
            let args = described.sections@[6]->Command_0.args@;
            &&& is_explained(
                args[0],
                Some("PUBKEY"@),
                Some("The public key of the balance to check"@),
            )
            &&& is_explained(args[1], None, Some("Display balance in lamports instead of SOL"@))
        }),
{
    lemma_the_grammar_has_these_commands(name, about, version, described);
    let views = section_views(described.sections@);
    assert(views[6] == described.sections@[6]@);
}

/// What is said of the arguments of `cancel`.
pub proof fn lemma_what_is_said_of_cancel(
    name: &str,
    about: &str,
    version: &str,
    described: AppSpec,
)
    requires
        call_ensures(app, (name, about, version), described),
    ensures
        ({
            let args = described.sections@[7]->Command_0.args@;
            &&& is_explained(
                args[0],
                Some("PROCESS ID"@),
                Some("The process id of the transfer to cancel"@),
            )
        }),
{
    lemma_the_grammar_has_these_commands(name, about, version, described);
    let views = section_views(described.sections@);
    assert(views[7] == described.sections@[7]@);
}

/// What is said of the arguments of `confirm`.
pub proof fn lemma_what_is_said_of_confirm(
    name: &str,
    about: &str,
    version: &str,
    described: AppSpec,
)
    requires
        call_ensures(app, (name, about, version), described),
    ensures
        ({
            let args = described.sections@[8]->Command_0.args@;
            &&& is_explained(
                args[0],
                Some("SIGNATURE"@),
                Some("The transaction signature to confirm"@),
            )
        }),
{
    lemma_the_grammar_has_these_commands(name, about, version, described);
    let views = section_views(described.sections@);
    assert(views[8] == described.sections@[8]@);
}

/// What is said of the arguments of `create-address-with-seed`.
pub proof fn lemma_what_is_said_of_create_address_with_seed(
    name: &str,
    about: &str,
    version: &str,
    described: AppSpec,
)
    requires
        call_ensures(app, (name, about, version), described),
    ensures
        ({
            let args = described.sections@[9]->Command_0.args@;
            &&& is_explained(
                args[0],
                Some("SEED_STRING"@),
                Some("The seed.  Must not take more than 32 bytes to encode as utf-8"@),
            )
            &&& is_explained(
                args[1],
                Some("PROGRAM_ID"@),
                Some("The program_id that the address will ultimately be used for, \nor one of STAKE, VOTE, and STORAGE keywords"@),
            )
            &&& is_explained(
                args[2],
                Some("PUBKEY"@),
                Some("From (base) key, defaults to client keypair."@),
            )
        }),
{
    lemma_the_grammar_has_these_commands(name, about, version, described);
    let views = section_views(described.sections@);
    assert(views[9] == described.sections@[9]@);
}

/// What is said of the arguments of `deploy`.
pub proof fn lemma_what_is_said_of_deploy(
    name: &str,
    about: &str,
    version: &str,
    described: AppSpec,
)
    requires
        call_ensures(app, (name, about, version), described),
    ensures
        ({
            let args = described.sections@[10]->Command_0.args@;
            &&& is_explained(args[0], Some("PATH TO BPF PROGRAM"@), Some("/path/to/program.o"@))
        }),
{
    lemma_the_grammar_has_these_commands(name, about, version, described);
    let views = section_views(described.sections@);
    assert(views[10] == described.sections@[10]@);
}

/// What is said of the arguments of `pay`.
pub proof fn lemma_what_is_said_of_pay(
    name: &str,
    about: &str,
    version: &str,
    described: AppSpec,
)
    requires
        call_ensures(app, (name, about, version), described),
    ensures
        ({
            let args = described.sections@[11]->Command_0.args@;
            &&& is_explained(args[0], Some("TO PUBKEY"@), Some("The pubkey of recipient"@))
            &&& is_explained(
                args[1],
                Some("AMOUNT"@),
                Some("The amount to send (default unit SOL)"@),
            )
            &&& is_explained(args[2], Some("UNIT"@), Some("Specify unit to use for request"@))
            &&& is_explained(
                args[3],
                Some("DATETIME"@),
                Some("A timestamp after which transaction will execute"@),
            )
            &&& is_explained(
                args[4],
                Some("PUBKEY"@),
                Some("Require timestamp from this third party"@),
            )
            &&& is_explained(
                args[5],
                Some("PUBKEY"@),
                Some("Any third party signatures required to unlock the lamports"@),
            )
            &&& is_explained(args[6], None, None)
            &&& is_explained(args[7], Some("BLOCKHASH"@), Some("Use the supplied blockhash"@))
            &&& is_explained(args[8], None, Some("Sign the transaction offline"@))
            &&& is_explained(
                args[9],
                Some("BASE58_PUBKEY=BASE58_SIG"@),
                Some("Provide a public-key/signature pair for the transaction"@),
            )
            &&& is_explained(
                args[10],
                Some("PUBKEY"@),
                Some("Provide the nonce account to use when creating a nonced transaction"@),
            )
            &&& is_explained(
                args[11],
                Some("KEYPAIR"@),
                Some("Provide the nonce authority keypair to use when signing a nonced transaction"@),
            )
        }),
{
    lemma_the_grammar_has_these_commands(name, about, version, described);
    let views = section_views(described.sections@);
    assert(views[11] == described.sections@[11]@);
}

/// What is said of the arguments of `send-signature`.
pub proof fn lemma_what_is_said_of_send_signature(
    name: &str,
    about: &str,
    version: &str,
    described: AppSpec,
)
    requires
        call_ensures(app, (name, about, version), described),
    ensures
        ({
            let args = described.sections@[12]->Command_0.args@;
            &&& is_explained(args[0], Some("PUBKEY"@), Some("The pubkey of recipient"@))
            &&& is_explained(
                args[1],
                Some("PROCESS ID"@),
                Some("The process id of the transfer to authorize"@),
            )
        }),
{
    lemma_the_grammar_has_these_commands(name, about, version, described);
    let views = section_views(described.sections@);
    assert(views[12] == described.sections@[12]@);
}

/// What is said of the arguments of `send-timestamp`.
pub proof fn lemma_what_is_said_of_send_timestamp(
    name: &str,
    about: &str,
    version: &str,
    described: AppSpec,
)
    requires
        call_ensures(app, (name, about, version), described),
    ensures
        ({
            let args = described.sections@[13]->Command_0.args@;
            &&& is_explained(args[0], Some("PUBKEY"@), Some("The pubkey of recipient"@))
            &&& is_explained(
                args[1],
                Some("PROCESS ID"@),
                Some("The process id of the transfer to unlock"@),
            )
            &&& is_explained(
                args[2],
                Some("DATETIME"@),
                Some("Optional arbitrary timestamp to apply"@),
            )
        }),
{
    lemma_the_grammar_has_these_commands(name, about, version, described);
    let views = section_views(described.sections@);
    assert(views[13] == described.sections@[13]@);
}

/// What is said of the arguments of `transfer`.
pub proof fn lemma_what_is_said_of_transfer(
    name: &str,
    about: &str,
    version: &str,
    described: AppSpec,
)
    requires
        call_ensures(app, (name, about, version), described),
    ensures
        ({
            let args = described.sections@[14]->Command_0.args@;
            &&& is_explained(args[0], Some("TO PUBKEY"@), Some("The pubkey of recipient"@))
            &&& is_explained(
                args[1],
                Some("AMOUNT"@),
                Some("The amount to send (default unit SOL)"@),
            )
            &&& is_explained(args[2], Some("UNIT"@), Some("Specify unit to use for request"@))
            &&& is_explained(
                args[3],
                Some("KEYPAIR or PUBKEY"@),
                Some("Source account of funds (if different from client local account)"@),
            )
            &&& is_explained(args[4], Some("BLOCKHASH"@), Some("Use the supplied blockhash"@))
            &&& is_explained(args[5], None, Some("Sign the transaction offline"@))
            &&& is_explained(
                args[6],
                Some("BASE58_PUBKEY=BASE58_SIG"@),
                Some("Provide a public-key/signature pair for the transaction"@),
            )
            &&& is_explained(
                args[7],
                Some("PUBKEY"@),
                Some("Provide the nonce account to use when creating a nonced transaction"@),
            )
            &&& is_explained(
                args[8],
                Some("KEYPAIR"@),
                Some("Provide the nonce authority keypair to use when signing a nonced transaction"@),
            )
            &&& is_explained(
                args[9],
                Some("KEYPAIR or PUBKEY"@),
                Some("Specify the fee-payer account. This may be a keypair file, the ASK keyword \nor the pubkey of an offline signer, provided an appropriate --signer argument \nis also passed. Defaults to the client keypair."@),
            )
        }),
{
    lemma_the_grammar_has_these_commands(name, about, version, described);
    let views = section_views(described.sections@);
    assert(views[14] == described.sections@[14]@);
}

/// What is said of the arguments of `account`.
pub proof fn lemma_what_is_said_of_account(
    name: &str,
    about: &str,
    version: &str,
    described: AppSpec,
)
    requires
        call_ensures(app, (name, about, version), described),
    ensures
        ({
            let args = described.sections@[15]->Command_0.args@;
            &&& is_explained(args[0], Some("ACCOUNT PUBKEY"@), Some("Account pubkey"@))
            &&& is_explained(args[1], Some("FILE"@), Some("Write the account data to this file"@))
            &&& is_explained(args[2], None, Some("Display balance in lamports instead of SOL"@))
        }),
{
    lemma_the_grammar_has_these_commands(name, about, version, described);
    let views = section_views(described.sections@);
    assert(views[15] == described.sections@[15]@);
}

} // verus!
