//! Key material: parsing a secret seed URI into an sr25519 key pair.
//!
//! The library only ever reads one thing from a key pair: the 32 public key
//! bytes that become the `burned_register` argument.  Parsing and derivation
//! are done by the signer crate behind one trusted wrapper; the derived public
//! key is a pure function of the seed string, which is all the contracts need.

use core::str::FromStr;
use vstd::prelude::*;

use crate::errors::Error;

verus! {

/// Whether a secret seed URI parses into a valid sr25519 key pair.
pub uninterp spec fn seed_parses(seed: Seq<char>) -> bool;

/// The 32 public key bytes derived from a secret seed URI that parses.
pub uninterp spec fn public_key_of(seed: Seq<char>) -> Seq<u8>;

/// Relies on `subxt_signer::SecretUri::from_str` and
/// `subxt_signer::sr25519::Keypair::from_uri`: a seed URI either fails to
/// parse or yields a key pair whose 32 public key bytes depend on the seed
/// string alone.
#[verifier::external_body]
fn sr25519_public_from_seed(seed: &str) -> (r: Option<Vec<u8>>)
    ensures
        r is Some <==> seed_parses(seed@),
        r matches Some(p) ==> p@ == public_key_of(seed@) && p@.len() == 32,
{
    let uri = match subxt_signer::SecretUri::from_str(seed) {
        Ok(u) => u,
        Err(_) => return None,
    };
    match subxt_signer::sr25519::Keypair::from_uri(&uri) {
        Ok(k) => Some(k.public_key().0.to_vec()),
        Err(_) => None,
    }
}

/// The public half of a parsed key pair.
///
/// Signing itself stays with the chain client at submission time; the loop
/// only needs the public bytes, so only those are held here.
#[derive(Debug, Clone, PartialEq, Eq)]
pub struct KeyPair {
    /// The 32 public key bytes.
    pub public: Vec<u8>,
}

impl KeyPair {
    /// A well-formed key pair holds exactly 32 public key bytes.
    pub open spec fn wf(&self) -> bool {
        self.public@.len() == 32
    }

    /// Whether this key pair is the one derived from `seed`.
    pub open spec fn derived_from(&self, seed: Seq<char>) -> bool {
        &&& seed_parses(seed)
        &&& self.public@ == public_key_of(seed)
    }

    /// Parses a secret seed URI.  Succeeds exactly on the seeds the signature
    /// scheme accepts, and then returns the key pair derived from the seed;
    /// any other input is rejected as [`Error::InvalidKey`].
    pub fn from_seed(seed: &str) -> (r: Result<KeyPair, Error>)
        ensures
            r is Ok <==> seed_parses(seed@),
            r matches Ok(k) ==> k.wf() && k.derived_from(seed@),
            r matches Err(e) ==> e == Error::InvalidKey,
    {
        match sr25519_public_from_seed(seed) {
            Some(public) => Ok(KeyPair { public }),
            None => Err(Error::InvalidKey),
        }
    }
}

/// Key derivation is deterministic: two key pairs derived from the same seed
/// hold the same public key bytes.
pub proof fn lemma_key_derivation_deterministic(a: KeyPair, b: KeyPair, seed: Seq<char>)
    requires
        a.derived_from(seed),
        b.derived_from(seed),
    ensures
        a.public@ == b.public@,
{
}

} // verus!
