//! Public keys, hashes, signatures and key pairs, as the bytes they are made of.
use vstd::prelude::*;

verus! {

/// Whether two arrays hold the same bytes.
fn same_bytes<const N: usize>(a: &[u8; N], b: &[u8; N]) -> (r: bool)
    ensures
        r == (*a == *b),
{
    let mut i: usize = 0;
    while i < N
        invariant
            i <= N,
            forall|j: int| 0 <= j < i ==> a@[j] == b@[j],
        decreases N - i,
    {
        if a[i] != b[i] {
            return false;
        }
        i += 1;
    }
    assert(*a =~= *b);
    true
}

/// An account's address.
#[derive(Clone, Copy, Debug, Eq)]
pub struct Pubkey {
    pub bytes: [u8; 32],
}

/// The hash of a recent block.
#[derive(Clone, Copy, Debug, Eq)]
pub struct Blockhash {
    pub bytes: [u8; 32],
}

/// A signature of a message.
#[derive(Clone, Copy, Debug, Eq)]
pub struct Signature {
    pub bytes: [u8; 64],
}

/// A key pair, held as the secret that its public half is derived from.
#[derive(Clone, Copy, Debug)]
pub struct Keypair {
    pub secret: [u8; 32],
}

impl PartialEq for Pubkey {
    fn eq(&self, other: &Self) -> (r: bool) {
        same_bytes(&self.bytes, &other.bytes)
    }
}

impl vstd::std_specs::cmp::PartialEqSpecImpl for Pubkey {
    open spec fn obeys_eq_spec() -> bool {
        true
    }

    open spec fn eq_spec(&self, other: &Self) -> bool {
        *self == *other
    }
}

impl PartialEq for Blockhash {
    fn eq(&self, other: &Self) -> (r: bool) {
        same_bytes(&self.bytes, &other.bytes)
    }
}

impl vstd::std_specs::cmp::PartialEqSpecImpl for Blockhash {
    open spec fn obeys_eq_spec() -> bool {
        true
    }

    open spec fn eq_spec(&self, other: &Self) -> bool {
        *self == *other
    }
}

impl PartialEq for Signature {
    fn eq(&self, other: &Self) -> (r: bool) {
        same_bytes(&self.bytes, &other.bytes)
    }
}

impl vstd::std_specs::cmp::PartialEqSpecImpl for Signature {
    open spec fn obeys_eq_spec() -> bool {
        true
    }

    open spec fn eq_spec(&self, other: &Self) -> bool {
        *self == *other
    }
}

/// The public key of zeros.
pub open spec fn unset_pubkey() -> Pubkey {
    Pubkey { bytes: [0, 0, 0, 0, 0, 0, 0, 0, 0, 0, 0, 0, 0, 0, 0, 0, 0, 0, 0, 0, 0, 0, 0, 0, 0, 0, 0, 0, 0, 0, 0, 0] }
}

/// The hash of zeros.
pub open spec fn unset_blockhash() -> Blockhash {
    Blockhash { bytes: [0, 0, 0, 0, 0, 0, 0, 0, 0, 0, 0, 0, 0, 0, 0, 0, 0, 0, 0, 0, 0, 0, 0, 0, 0, 0, 0, 0, 0, 0, 0, 0] }
}

/// The base58 text of a public key.
pub uninterp spec fn pubkey_text(key: Pubkey) -> Seq<char>;

/// The public key that a text spells in base58.
pub uninterp spec fn pubkey_parsed(text: Seq<char>) -> Option<Pubkey>;

/// The base58 text of a hash.
pub uninterp spec fn blockhash_text(hash: Blockhash) -> Seq<char>;

/// The hash that a text spells in base58.
pub uninterp spec fn blockhash_parsed(text: Seq<char>) -> Option<Blockhash>;

/// The base58 text of a signature.
pub uninterp spec fn signature_text(signature: Signature) -> Seq<char>;

/// The signature that a text spells in base58.
pub uninterp spec fn signature_parsed(text: Seq<char>) -> Option<Signature>;

/// The public half of the ed25519 key pair with this secret.
pub uninterp spec fn public_key_of(secret: Seq<u8>) -> Pubkey;

/// `solana_sdk::pubkey::Pubkey`'s `Display`.  Claimed: it prints the key's base58 text, which
/// reads back as the same key and, as no base58 text does, holds no `=`.
#[verifier::external_body]
fn show_pubkey(key: &Pubkey) -> (r: String)
    ensures
        r@ == pubkey_text(*key),
        pubkey_parsed(r@) == Some(*key),
        !r@.contains('='),
{
    solana_sdk::pubkey::Pubkey::new(&key.bytes).to_string()
}

/// `solana_sdk::pubkey::Pubkey`'s `FromStr`.  Claimed: the result depends on the text alone.
#[verifier::external_body]
fn read_pubkey(text: &str) -> (r: Option<Pubkey>)
    ensures
        r == pubkey_parsed(text@),
{
    let key = text.parse::<solana_sdk::pubkey::Pubkey>().ok()?;
    Some(Pubkey { bytes: key.to_bytes() })
}

/// `solana_sdk::hash::Hash`'s `Display`.  Claimed: it prints the hash's base58 text, which reads
/// back as the same hash.
#[verifier::external_body]
fn show_blockhash(hash: &Blockhash) -> (r: String)
    ensures
        r@ == blockhash_text(*hash),
        blockhash_parsed(r@) == Some(*hash),
{
    solana_sdk::hash::Hash::new(&hash.bytes).to_string()
}

/// `solana_sdk::hash::Hash`'s `FromStr`.  Claimed: the result depends on the text alone.
#[verifier::external_body]
fn read_blockhash(text: &str) -> (r: Option<Blockhash>)
    ensures
        r == blockhash_parsed(text@),
{
    let hash = text.parse::<solana_sdk::hash::Hash>().ok()?;
    let mut bytes = [0u8; 32];
    bytes.copy_from_slice(hash.as_ref());
    Some(Blockhash { bytes })
}

/// `solana_sdk::signature::Signature`'s `Display`.  Claimed: it prints the signature's base58
/// text, which reads back as the same signature and, as no base58 text does, holds no `=`.
#[verifier::external_body]
fn show_signature(signature: &Signature) -> (r: String)
    ensures
        r@ == signature_text(*signature),
        signature_parsed(r@) == Some(*signature),
        !r@.contains('='),
{
    solana_sdk::signature::Signature::new(&signature.bytes).to_string()
}

/// `solana_sdk::signature::Signature`'s `FromStr`.  Claimed: the result depends on the text
/// alone.
#[verifier::external_body]
fn read_signature(text: &str) -> (r: Option<Signature>)
    ensures
        r == signature_parsed(text@),
{
    let signature = text.parse::<solana_sdk::signature::Signature>().ok()?;
    Some(Signature { bytes: signature.into() })
}

/// `solana_sdk::signature::Keypair::new`, which draws a key pair at random: nothing is claimed of
/// the secret.
#[verifier::external_body]
pub(crate) fn fresh_keypair() -> (r: Keypair) {
    let mut secret = [0u8; 32];
    secret.copy_from_slice(&solana_sdk::signature::Keypair::new().to_bytes()[..32]);
    Keypair { secret }
}

/// `solana_sdk::signature::keypair_from_seed`, then `Signer::pubkey`.  Claimed: the public half
/// depends on the secret alone.
#[verifier::external_body]
fn derive_pubkey(secret: &[u8; 32]) -> (r: Pubkey)
    ensures
        r == public_key_of(secret@),
{
    let pair = solana_sdk::signature::keypair_from_seed(secret).unwrap();
    Pubkey { bytes: solana_sdk::signature::Signer::pubkey(&pair).to_bytes() }
}

impl Pubkey {
    /// The key with these bytes.
    pub fn new(bytes: &[u8; 32]) -> (r: Self)
        ensures
            r.bytes == *bytes,
    {
        Pubkey { bytes: *bytes }
    }

    /// The key's base58 text.
    pub fn to_string(&self) -> (r: String)
        ensures
            r@ == pubkey_text(*self),
            pubkey_parsed(r@) == Some(*self),
            !r@.contains('='),
    {
        show_pubkey(self)
    }

    /// The key that `text` spells.
    pub fn parse(text: &str) -> (r: Option<Self>)
        ensures
            r == pubkey_parsed(text@),
    {
        read_pubkey(text)
    }
}

impl Default for Pubkey {
    fn default() -> (r: Self)
        ensures
            r == unset_pubkey(),
    {
        let r = Pubkey { bytes: [0u8; 32] };
        assert(r.bytes =~= unset_pubkey().bytes);
        r
    }
}

impl Blockhash {
    /// The hash with these bytes.
    pub fn new(bytes: &[u8; 32]) -> (r: Self)
        ensures
            r.bytes == *bytes,
    {
        Blockhash { bytes: *bytes }
    }

    /// The hash's base58 text.
    pub fn to_string(&self) -> (r: String)
        ensures
            r@ == blockhash_text(*self),
            blockhash_parsed(r@) == Some(*self),
    {
        show_blockhash(self)
    }

    /// The hash that `text` spells.
    pub fn parse(text: &str) -> (r: Option<Self>)
        ensures
            r == blockhash_parsed(text@),
    {
        read_blockhash(text)
    }
}

impl Default for Blockhash {
    fn default() -> (r: Self)
        ensures
            r == unset_blockhash(),
    {
        let r = Blockhash { bytes: [0u8; 32] };
        assert(r.bytes =~= unset_blockhash().bytes);
        r
    }
}

impl Signature {
    /// The signature with these bytes.
    pub fn new(bytes: &[u8; 64]) -> (r: Self)
        ensures
            r.bytes == *bytes,
    {
        Signature { bytes: *bytes }
    }

    /// The signature's base58 text.
    pub fn to_string(&self) -> (r: String)
        ensures
            r@ == signature_text(*self),
            signature_parsed(r@) == Some(*self),
            !r@.contains('='),
    {
        show_signature(self)
    }

    /// The signature that `text` spells.
    pub fn parse(text: &str) -> (r: Option<Self>)
        ensures
            r == signature_parsed(text@),
    {
        read_signature(text)
    }
}

impl Keypair {
    /// The public half, as a value to reason with.
    pub open spec fn spec_pubkey(self) -> Pubkey {
        public_key_of(self.secret@)
    }

    /// The key pair with this secret.
    pub fn from_seed(seed: &[u8; 32]) -> (r: Self)
        ensures
            r.secret == *seed,
    {
        Keypair { secret: *seed }
    }

    /// The public half.
    pub fn pubkey(&self) -> (r: Pubkey)
        ensures
            r == self.spec_pubkey(),
    {
        derive_pubkey(&self.secret)
    }
}

/// A key pair that counts as equal to any other with the same public half.
#[derive(Clone, Copy, Debug)]
pub struct KeypairEq(pub Keypair);

impl From<Keypair> for KeypairEq {
    fn from(keypair: Keypair) -> (r: Self) {
        KeypairEq(keypair)
    }
}

impl vstd::std_specs::convert::FromSpecImpl<Keypair> for KeypairEq {
    open spec fn obeys_from_spec() -> bool {
        true
    }

    open spec fn from_spec(keypair: Keypair) -> Self {
        KeypairEq(keypair)
    }
}

impl PartialEq for KeypairEq {
    fn eq(&self, other: &Self) -> (r: bool) {
        self.0.pubkey() == other.0.pubkey()
    }
}

impl vstd::std_specs::cmp::PartialEqSpecImpl for KeypairEq {
    open spec fn obeys_eq_spec() -> bool {
        true
    }

    open spec fn eq_spec(&self, other: &Self) -> bool {
        self.0.spec_pubkey() == other.0.spec_pubkey()
    }
}

impl std::ops::Deref for KeypairEq {
    type Target = Keypair;

    /// The key pair itself.
    fn deref(&self) -> (r: &Keypair)
        ensures
            *r == self.0,
    {
        &self.0
    }
}

} // verus!
