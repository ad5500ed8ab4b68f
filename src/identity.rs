//! Identity Generator: fresh address / signing-key pairs.

use vstd::prelude::*;
use solana_sdk::signer::keypair::Keypair;
use solana_sdk::signer::Signer;
use rand::Rng;

verus! {

#[verifier::external_type_specification]
#[verifier::external_body]
pub struct ExKeypair(Keypair);

/// The address (ed25519 public key) that the signing key grown from a
/// 32-byte seed answers to.
pub uninterp spec fn seed_address(seed: Seq<u8>) -> Seq<u8>;

/// Relies on rand's `thread_rng().gen()`: 32 bytes from the thread-local,
/// OS-seeded generator. Nothing is promised of their value.
#[verifier::external_body]
fn random_seed() -> (r: [u8; 32]) {
    rand::thread_rng().gen::<[u8; 32]>()
}

/// Relies on solana_sdk's `keypair_from_seed`: for a seed of 32 bytes it
/// builds the ed25519 keypair whose secret key is the seed (it fails only
/// for seeds shorter than 32 bytes), and `pubkey` reads its public half.
#[verifier::external_body]
fn keypair_from_seed(seed: [u8; 32]) -> (r: (Keypair, [u8; 32]))
    ensures
        r.1@ == seed_address(seed@),
{
    let keypair = solana_sdk::signer::keypair::keypair_from_seed(&seed).unwrap();
    let address = keypair.pubkey().to_bytes();
    (keypair, address)
}

/// A signing capability together with the address it signs for.
pub struct Credential {
    keypair: Keypair,
    seed: [u8; 32],
    address: [u8; 32],
}

impl Credential {
    /// Well-formedness: the address is the one that the seed's key signs for.
    pub open spec fn wf(&self) -> bool {
        self.address_spec() == seed_address(self.seed_spec())
    }

    /// The address, as a sequence of 32 bytes.
    pub closed spec fn address_spec(&self) -> Seq<u8> {
        self.address@
    }

    /// The secret seed, as a sequence of 32 bytes.
    pub closed spec fn seed_spec(&self) -> Seq<u8> {
        self.seed@
    }

    /// The credential whose secret key is `seed`.
    pub fn from_seed(seed: [u8; 32]) -> (r: Credential)
        ensures
            r.wf(),
            r.seed_spec() == seed@,
            r.address_spec() == seed_address(seed@),
    {
        let (keypair, address) = keypair_from_seed(seed);
        Credential { keypair, seed, address }
    }

    /// The address this credential signs for.
    pub fn address(&self) -> (r: [u8; 32])
        ensures
            r@ == self.address_spec(),
    {
        self.address
    }

    /// The signing key itself, for handing to a signer.
    pub fn keypair(&self) -> (r: &Keypair) {
        &self.keypair
    }
}

/// Generates a fresh credential from 32 bytes of OS-seeded randomness.
pub fn keys_gen() -> (r: Credential)
    ensures
        r.wf(),
{
    let seed = random_seed();
    Credential::from_seed(seed)
}

} // verus!
