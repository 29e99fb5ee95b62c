//! Who signs: a key pair at hand, or someone who signed elsewhere.
use crate::errors::CliError;
use crate::keys::{Keypair, Pubkey, Signature};
use crate::matches::ArgMatches;
use vstd::prelude::*;

verus! {

/// A signer.
#[derive(Clone, Copy, Debug)]
pub enum SigningAuthority {
    /// The key pair is at hand.
    Online(Keypair),
    /// The signature was made elsewhere by the owner of the public key.  The key pair makes the
    /// signature that holds its place until then.
    Offline(Pubkey, Keypair),
}

impl SigningAuthority {
    /// The key pair that signs here.
    pub open spec fn spec_keypair(self) -> Keypair {
        match self {
            SigningAuthority::Online(keypair) => keypair,
            SigningAuthority::Offline(_, keypair) => keypair,
        }
    }

    /// The public key of the signer.
    pub open spec fn spec_pubkey(self) -> Pubkey {
        match self {
            SigningAuthority::Online(keypair) => keypair.spec_pubkey(),
            SigningAuthority::Offline(pubkey, _) => pubkey,
        }
    }

    /// The key pair that signs here.
    pub fn keypair(&self) -> (r: &Keypair)
        ensures
            *r == self.spec_keypair(),
    {
        match self {
            SigningAuthority::Online(keypair) => keypair,
            SigningAuthority::Offline(_, keypair) => keypair,
        }
    }

    /// The public key of the signer.
    pub fn pubkey(&self) -> (r: Pubkey)
        ensures
            r == self.spec_pubkey(),
    {
        match self {
            SigningAuthority::Online(keypair) => keypair.pubkey(),
            SigningAuthority::Offline(pubkey, _) => *pubkey,
        }
    }

    /// The signer that the argument `name` gives: a key pair, or else the public key of one of
    /// the signers.
    pub open spec fn from_matches(
        matches: ArgMatches,
        name: Seq<char>,
        signers: Option<Seq<(Pubkey, Signature)>>,
    ) -> Option<SigningAuthority> {
        match (matches.keypair(name), matches.pubkey(name)) {
            (Some(keypair), _) => Some(SigningAuthority::Online(keypair)),
            (None, Some(pubkey)) if has_signed(signers, pubkey) => Some(offline(pubkey)),
            _ => None,
        }
    }

    /// The signer that the argument `name` gives, where it was given.  One that is neither a key
    /// pair nor among the signers is refused.
    pub fn new_from_matches(
        matches: &ArgMatches,
        name: &str,
        signers: &Option<Vec<(Pubkey, Signature)>>,
    ) -> (r: Result<Option<Self>, CliError>)
        ensures
            !matches.present(name@) ==> r == Ok::<Option<Self>, CliError>(None),
            matches.present(name@) ==> match Self::from_matches(*matches, name@, optional_list(*signers)) {
                Some(authority) => r == Ok::<Option<Self>, CliError>(Some(authority)),
                None => r matches Err(CliError::BadParameter(text)) && text@ == "Invalid authority"@,
            },
    {
        if !matches.is_present(name) {
            return Ok(None);
        }
        if let Some(keypair) = matches.keypair_of(name) {
            return Ok(Some(SigningAuthority::from(keypair)));
        }
        if let Some(pubkey) = matches.pubkey_of(name) {
            if is_among(signers, &pubkey) {
                return Ok(Some(SigningAuthority::from(pubkey)));
            }
        }
        Err(CliError::BadParameter("Invalid authority".to_owned()))
    }
}

/// The list as a value to reason with.
pub open spec fn optional_list<T>(list: Option<Vec<T>>) -> Option<Seq<T>> {
    match list {
        Some(list) => Some(list@),
        None => None,
    }
}

/// Whether there are signers and one of them has the public key.
pub open spec fn has_signed(signers: Option<Seq<(Pubkey, Signature)>>, pubkey: Pubkey) -> bool {
    match signers {
        Some(list) => lists_signer(list, pubkey),
        None => false,
    }
}

/// Whether one of the signers has the public key.
pub open spec fn lists_signer(list: Seq<(Pubkey, Signature)>, pubkey: Pubkey) -> bool {
    exists|i: int| 0 <= i < list.len() && (#[trigger] list[i]).0 == pubkey
}

/// The signer elsewhere with this public key, whose bytes are the secret that holds its place.
pub open spec fn offline(pubkey: Pubkey) -> SigningAuthority {
    SigningAuthority::Offline(pubkey, Keypair { secret: pubkey.bytes })
}

fn is_among(signers: &Option<Vec<(Pubkey, Signature)>>, pubkey: &Pubkey) -> (r: bool)
    ensures
        r == has_signed(optional_list(*signers), *pubkey),
{
    match signers {
        Some(list) => {
            let mut i: usize = 0;
            while i < list.len()
                invariant
                    i <= list@.len(),
                    forall|j: int| 0 <= j < i ==> (#[trigger] list@[j]).0 != *pubkey,
                    optional_list(*signers) == Some(list@),
                decreases list.len() - i,
            {
                if list[i].0 == *pubkey {
                    assert(list@[i as int].0 == *pubkey);
                    return true;
                }
                i += 1;
            }
            false
        },
        None => false,
    }
}

impl From<Keypair> for SigningAuthority {
    fn from(keypair: Keypair) -> (r: Self) {
        SigningAuthority::Online(keypair)
    }
}

impl vstd::std_specs::convert::FromSpecImpl<Keypair> for SigningAuthority {
    open spec fn obeys_from_spec() -> bool {
        true
    }

    open spec fn from_spec(keypair: Keypair) -> Self {
        SigningAuthority::Online(keypair)
    }
}

impl From<Pubkey> for SigningAuthority {
    fn from(pubkey: Pubkey) -> (r: Self) {
        SigningAuthority::Offline(pubkey, Keypair::from_seed(&pubkey.bytes))
    }
}

impl vstd::std_specs::convert::FromSpecImpl<Pubkey> for SigningAuthority {
    open spec fn obeys_from_spec() -> bool {
        true
    }

    open spec fn from_spec(pubkey: Pubkey) -> Self {
        offline(pubkey)
    }
}

impl PartialEq for SigningAuthority {
    fn eq(&self, other: &Self) -> (r: bool) {
        self.pubkey() == other.pubkey()
    }
}

impl vstd::std_specs::cmp::PartialEqSpecImpl for SigningAuthority {
    open spec fn obeys_eq_spec() -> bool {
        true
    }

    open spec fn eq_spec(&self, other: &Self) -> bool {
        self.spec_pubkey() == other.spec_pubkey()
    }
}

/// Signers elsewhere are told apart by their public keys alone, and a key pair at hand counts as
/// the signer with its public half.
pub proof fn lemma_authorities_are_their_public_keys(a: Pubkey, b: Pubkey, keypair: Keypair)
    ensures
        offline(a).spec_pubkey() == offline(b).spec_pubkey() <==> a == b,
        offline(keypair.spec_pubkey()).spec_pubkey() == SigningAuthority::Online(
            keypair,
        ).spec_pubkey(),
{
}

} // verus!
