//! The arguments that a command line gives, and the values that they spell.
use crate::amount::{amount_parsed, parse_amount};
use crate::errors::CliError;
use crate::keys::{
    blockhash_parsed, pubkey_parsed, signature_parsed, Blockhash, Keypair, Pubkey, Signature,
};
use crate::text::{cut_at, joined, text_after, text_before, text_eq, texts};
use vstd::prelude::*;

verus! {

/// One argument that was given.
#[derive(Debug)]
pub struct ArgValues {
    pub name: String,
    /// Its values, none for a flag.
    pub values: Vec<String>,
    /// The key pair that the first value leads to: the one in the file that it names, or the one
    /// typed in where it asks for that.
    pub keypair: Option<Keypair>,
}

/// The arguments of a command, and the subcommand that follows them.
#[derive(Debug)]
pub struct ArgMatches {
    pub args: Vec<ArgValues>,
    pub subcommand: Option<Box<SubCommand>>,
}

/// A subcommand and its own arguments.
#[derive(Debug)]
pub struct SubCommand {
    pub name: String,
    pub matches: ArgMatches,
}

/// The first of the arguments with this name.
pub open spec fn first_named(args: Seq<ArgValues>, name: Seq<char>) -> Option<ArgValues>
    decreases args.len(),
{
    if args.len() == 0 {
        None
    } else if args[0].name@ == name {
        Some(args[0])
    } else {
        first_named(args.skip(1), name)
    }
}

/// A public key and a signature, written with a `=` between them.
pub open spec fn signer_parsed(text: Seq<char>) -> Option<(Pubkey, Signature)> {
    match text_after(text, '=') {
        Some(rest) => match (
            pubkey_parsed(text_before(text, '=')),
            signature_parsed(text_before(rest, '=')),
        ) {
            (Some(key), Some(signature)) => Some((key, signature)),
            _ => None,
        },
        None => None,
    }
}

/// The public keys that the texts spell, where each of them spells one.
pub open spec fn pubkeys_parsed(list: Seq<Seq<char>>) -> Option<Seq<Pubkey>> {
    if forall|i: int| 0 <= i < list.len() ==> pubkey_parsed(#[trigger] list[i]) is Some {
        Some(list.map_values(|text: Seq<char>| pubkey_parsed(text)->0))
    } else {
        None
    }
}

/// The signers that the texts spell, where each of them spells one.
pub open spec fn signers_parsed(list: Seq<Seq<char>>) -> Option<Seq<(Pubkey, Signature)>> {
    if forall|i: int| 0 <= i < list.len() ==> signer_parsed(#[trigger] list[i]) is Some {
        Some(list.map_values(|text: Seq<char>| signer_parsed(text)->0))
    } else {
        None
    }
}

impl ArgMatches {
    /// The argument with this name.
    pub open spec fn found(self, name: Seq<char>) -> Option<ArgValues> {
        first_named(self.args@, name)
    }

    /// Whether the argument was given.
    pub open spec fn present(self, name: Seq<char>) -> bool {
        self.found(name) is Some
    }

    /// The argument's values.
    pub open spec fn all_values(self, name: Seq<char>) -> Option<Seq<Seq<char>>> {
        match self.found(name) {
            Some(arg) => Some(texts(arg.values@)),
            None => None,
        }
    }

    /// The argument's first value.
    pub open spec fn value(self, name: Seq<char>) -> Option<Seq<char>> {
        match self.found(name) {
            Some(arg) if arg.values@.len() > 0 => Some(arg.values@[0]@),
            _ => None,
        }
    }

    /// The key pair that the argument's value leads to.
    pub open spec fn keypair(self, name: Seq<char>) -> Option<Keypair> {
        match self.found(name) {
            Some(arg) if arg.values@.len() > 0 => arg.keypair,
            _ => None,
        }
    }

    /// The public key that the argument's value spells.
    pub open spec fn pubkey_value(self, name: Seq<char>) -> Option<Pubkey> {
        match self.value(name) {
            Some(text) => pubkey_parsed(text),
            None => None,
        }
    }

    /// The public key that the argument's value spells, or the public half of the key pair that
    /// it leads to.
    pub open spec fn pubkey(self, name: Seq<char>) -> Option<Pubkey> {
        match self.pubkey_value(name) {
            Some(key) => Some(key),
            None => match self.keypair(name) {
                Some(keypair) => Some(keypair.spec_pubkey()),
                None => None,
            },
        }
    }

    /// The blockhash that the argument's value spells.
    pub open spec fn blockhash_value(self, name: Seq<char>) -> Option<Blockhash> {
        match self.value(name) {
            Some(text) => blockhash_parsed(text),
            None => None,
        }
    }

    /// The lamports that the argument `name` spells in the unit that the argument `unit` gives:
    /// lamports where it says so, and SOL where it does not.
    pub open spec fn amount(self, name: Seq<char>, unit: Seq<char>) -> Option<u64> {
        match self.value(name) {
            Some(text) => amount_parsed(text, self.value(unit) == Some("lamports"@)),
            None => None,
        }
    }

    fn find(&self, name: &str) -> (r: Option<&ArgValues>)
        ensures
            r is Some <==> self.found(name@) is Some,
            r matches Some(arg) ==> Some(*arg) == self.found(name@),
    {
        let mut i: usize = 0;
        assert(self.args@.skip(0) =~= self.args@);
        while i < self.args.len()
            invariant
                i <= self.args@.len(),
                self.found(name@) == first_named(self.args@.skip(i as int), name@),
            decreases self.args.len() - i,
        {
            let ghost rest = self.args@.skip(i as int);
            assert(rest[0] == self.args@[i as int]);
            assert(rest.skip(1) =~= self.args@.skip(i + 1));
            if text_eq(self.args[i].name.as_str(), name) {
                return Some(&self.args[i]);
            }
            i += 1;
        }
        None
    }

    /// Whether the argument was given.
    pub fn is_present(&self, name: &str) -> (r: bool)
        ensures
            r == self.present(name@),
    {
        self.find(name).is_some()
    }

    /// The argument's first value.
    pub fn value_of(&self, name: &str) -> (r: Option<&str>)
        ensures
            r is Some <==> self.value(name@) is Some,
            r matches Some(text) ==> Some(text@) == self.value(name@),
    {
        match self.find(name) {
            Some(arg) => if arg.values.len() > 0 {
                Some(arg.values[0].as_str())
            } else {
                None
            },
            None => None,
        }
    }

    /// Whether the argument's first value is `text`.
    pub fn value_is(&self, name: &str, text: &str) -> (r: bool)
        ensures
            r == (self.value(name@) == Some(text@)),
    {
        match self.value_of(name) {
            Some(value) => text_eq(value, text),
            None => false,
        }
    }

    /// The key pair that the argument's value leads to.
    pub fn keypair_of(&self, name: &str) -> (r: Option<Keypair>)
        ensures
            r == self.keypair(name@),
    {
        match self.find(name) {
            Some(arg) => if arg.values.len() > 0 {
                arg.keypair
            } else {
                None
            },
            None => None,
        }
    }

    /// The public key that the argument's value spells.
    pub fn pubkey_value_of(&self, name: &str) -> (r: Option<Pubkey>)
        ensures
            r == self.pubkey_value(name@),
    {
        match self.value_of(name) {
            Some(text) => Pubkey::parse(text),
            None => None,
        }
    }

    /// The public key that the argument's value spells or leads to.
    pub fn pubkey_of(&self, name: &str) -> (r: Option<Pubkey>)
        ensures
            r == self.pubkey(name@),
    {
        match self.pubkey_value_of(name) {
            Some(key) => Some(key),
            None => match self.keypair_of(name) {
                Some(keypair) => Some(keypair.pubkey()),
                None => None,
            },
        }
    }

    /// The blockhash that the argument's value spells.
    pub fn blockhash_value_of(&self, name: &str) -> (r: Option<Blockhash>)
        ensures
            r == self.blockhash_value(name@),
    {
        match self.value_of(name) {
            Some(text) => Blockhash::parse(text),
            None => None,
        }
    }

    /// The lamports that the argument `name` spells in the unit that the argument `unit` gives.
    pub fn amount_of(&self, name: &str, unit: &str) -> (r: Option<u64>)
        ensures
            r == self.amount(name@, unit@),
    {
        match self.value_of(name) {
            Some(text) => parse_amount(text, self.value_is(unit, "lamports")),
            None => None,
        }
    }

    /// The public keys that the argument's values spell: `Some(None)` where it was not given, and
    /// `None` where one of them spells none.
    pub fn pubkeys_of(&self, name: &str) -> (r: Option<Option<Vec<Pubkey>>>)
        ensures
            match self.all_values(name@) {
                None => r matches Some(None),
                Some(list) => match pubkeys_parsed(list) {
                    None => r is None,
                    Some(keys) => r matches Some(Some(v)) && v@ == keys,
                },
            },
    {
        let arg = match self.find(name) {
            Some(arg) => arg,
            None => {
                return Some(None);
            },
        };
        let ghost list = texts(arg.values@);
        let mut keys: Vec<Pubkey> = Vec::new();
        let mut i: usize = 0;
        while i < arg.values.len()
            invariant
                i <= arg.values@.len(),
                list == texts(arg.values@),
                keys@.len() == i,
                self.all_values(name@) == Some(list),
                forall|j: int|
                    0 <= j < i ==> pubkey_parsed(#[trigger] list[j]) == Some(keys@[j]),
            decreases arg.values.len() - i,
        {
            assert(list[i as int] == arg.values@[i as int]@);
            match Pubkey::parse(arg.values[i].as_str()) {
                Some(key) => {
                    keys.push(key);
                },
                None => {
                    assert(pubkey_parsed(list[i as int]) is None);
                    return None;
                },
            }
            i += 1;
        }
        assert(pubkeys_parsed(list) is Some && keys@ =~= pubkeys_parsed(list)->0);
        Some(Some(keys))
    }

    /// The signers that the argument's values spell: `Some(None)` where it was not given, and
    /// `None` where one of them spells none.
    pub fn pubkeys_sigs_of(&self, name: &str) -> (r: Option<Option<Vec<(Pubkey, Signature)>>>)
        ensures
            match self.all_values(name@) {
                None => r matches Some(None),
                Some(list) => match signers_parsed(list) {
                    None => r is None,
                    Some(signers) => r matches Some(Some(v)) && v@ == signers,
                },
            },
    {
        let arg = match self.find(name) {
            Some(arg) => arg,
            None => {
                return Some(None);
            },
        };
        let ghost list = texts(arg.values@);
        let mut signers: Vec<(Pubkey, Signature)> = Vec::new();
        let mut i: usize = 0;
        while i < arg.values.len()
            invariant
                i <= arg.values@.len(),
                list == texts(arg.values@),
                signers@.len() == i,
                self.all_values(name@) == Some(list),
                forall|j: int|
                    0 <= j < i ==> signer_parsed(#[trigger] list[j]) == Some(signers@[j]),
            decreases arg.values.len() - i,
        {
            assert(list[i as int] == arg.values@[i as int]@);
            match parse_signer(arg.values[i].as_str()) {
                Some(signer) => {
                    signers.push(signer);
                },
                None => {
                    assert(signer_parsed(list[i as int]) is None);
                    return None;
                },
            }
            i += 1;
        }
        assert(signers_parsed(list) is Some && signers@ =~= signers_parsed(list)->0);
        Some(Some(signers))
    }
}

/// The public key and signature that `text` spells.
pub fn parse_signer(text: &str) -> (r: Option<(Pubkey, Signature)>)
    ensures
        r == signer_parsed(text@),
{
    let (key, rest) = cut_at(text, '=');
    match rest {
        Some(rest) => {
            let (signature, _) = cut_at(rest, '=');
            match (Pubkey::parse(key), Signature::parse(signature)) {
                (Some(key), Some(signature)) => Some((key, signature)),
                _ => None,
            }
        },
        None => None,
    }
}

/// The text of the error for an amount that is none.
pub open spec fn fractional_lamports(amount: Seq<char>) -> Seq<char> {
    "Lamports cannot be fractional: "@ + amount
}

/// What an amount under `name` is quoted as: its own value, or what the argument `amount` says
/// where it has none.
pub open spec fn quoted_amount(matches: ArgMatches, name: Seq<char>) -> Option<Seq<char>> {
    match matches.value(name) {
        Some(text) => Some(text),
        None => matches.value("amount"@),
    }
}

/// The lamports that the argument `name` spells.  An amount that cannot be read is refused, and
/// quoted.
pub fn required_lamports_from(matches: &ArgMatches, name: &str, unit: &str) -> (r: Result<
    u64,
    CliError,
>)
    requires
        quoted_amount(*matches, name@) is Some,
    ensures
        match matches.amount(name@, unit@) {
            Some(lamports) => r == Ok::<u64, CliError>(lamports),
            None => r matches Err(CliError::BadParameter(text)) && text@ == fractional_lamports(
                quoted_amount(*matches, name@)->0,
            ),
        },
{
    match matches.amount_of(name, unit) {
        Some(lamports) => Ok(lamports),
        None => {
            let amount = match matches.value_of(name) {
                Some(text) => text,
                None => matches.value_of("amount").unwrap(),
            };
            Err(CliError::BadParameter(joined("Lamports cannot be fractional: ", amount)))
        },
    }
}

} // verus!
