//! The genesis validator roster.

use crate::shell::Shell;
use vstd::prelude::*;

verus! {

/// How many validators the genesis roster holds.
pub const VALIDATOR_COUNT: usize = 10;

/// The voting power of each genesis validator.
pub const VALIDATOR_VOTING_POWER: u64 = 10;

#[verifier::external_type_specification]
#[verifier::external_body]
pub struct ExStdRng(rand::rngs::StdRng);

#[verifier::external_type_specification]
#[verifier::external_body]
pub struct ExRandError(rand::Error);

/// Relies on rand's `SeedableRng::from_rng` for `StdRng`, seeded from
/// `OsRng`: it returns an error, and does not panic, where the operating
/// system gives no entropy. Nothing is promised of the generator.
#[verifier::external_body]
fn seeded_rng() -> (r: Result<rand::rngs::StdRng, rand::Error>) {
    <rand::rngs::StdRng as rand::SeedableRng>::from_rng(rand::rngs::OsRng)
}

/// Relies on ed25519-dalek's `Keypair::generate`, which draws a secret key
/// from `rng` and derives its public key; the result is that public key's
/// 32 bytes. Nothing is known of them beforehand.
#[verifier::external_body]
fn generate_public_key(rng: &mut rand::rngs::StdRng) -> (r: [u8; 32]) {
    ed25519_dalek::Keypair::generate(rng).public.to_bytes()
}

/// A genesis validator.
#[derive(Clone, Copy, Debug, PartialEq, Eq)]
pub struct ValidatorAccount {
    /// The validator's ed25519 public key.
    pub pk: [u8; 32],
    /// The validator's voting power.
    pub voting_power: u64,
    /// Placeholder for the validator's validity predicate.
    pub vp: (),
}

/// The parameters the chain starts from: its validator roster.
#[derive(Clone, Debug)]
pub struct InitialParameters {
    validators: Vec<ValidatorAccount>,
}

impl View for InitialParameters {
    type V = Seq<ValidatorAccount>;

    closed spec fn view(&self) -> Seq<ValidatorAccount> {
        self.validators@
    }
}

/// Why the genesis keys could not be generated.
#[derive(Clone, Copy, Debug, PartialEq, Eq)]
pub enum KeypairGenerationError {
    /// The operating system gave no entropy to seed the key generator.
    NoEntropy,
    /// Two generated keys coincide.
    DuplicateKey {
        /// The position of a key that repeats an earlier one.
        index: usize,
    },
}

/// No two of `keys` are the same.
pub open spec fn distinct_keys(keys: Seq<[u8; 32]>) -> bool {
    forall|a: int, b: int|
        #![trigger keys[a], keys[b]]
        0 <= a < b < keys.len() ==> keys[a]@ != keys[b]@
}

/// `roster` holds one validator of genesis voting power for each of `keys`,
/// in order.
pub open spec fn roster_of(keys: Seq<[u8; 32]>, roster: Seq<ValidatorAccount>) -> bool {
    &&& roster.len() == keys.len()
    &&& forall|k: int|
        #![trigger roster[k]]
        0 <= k < roster.len() ==> roster[k].pk@ == keys[k]@ && roster[k].voting_power
            == VALIDATOR_VOTING_POWER
}

/// A genesis roster: `VALIDATOR_COUNT` validators of genesis voting power,
/// with pairwise distinct public keys.
pub open spec fn is_genesis_roster(roster: Seq<ValidatorAccount>) -> bool {
    &&& roster.len() == VALIDATOR_COUNT
    &&& forall|k: int|
        #![trigger roster[k]]
        0 <= k < roster.len() ==> roster[k].voting_power == VALIDATOR_VOTING_POWER
    &&& forall|a: int, b: int|
        #![trigger roster[a], roster[b]]
        0 <= a < b < roster.len() ==> roster[a].pk@ != roster[b].pk@
}

fn same_key(x: &[u8; 32], y: &[u8; 32]) -> (r: bool)
    ensures
        r == (x@ == y@),
{
    let mut i: usize = 0;
    while i < 32
        invariant
            i <= 32,
            forall|k: int| 0 <= k < i ==> x@[k] == y@[k],
        decreases 32 - i,
    {
        if x[i] != y[i] {
            return false;
        }
        i = i + 1;
    }
    assert(x@ =~= y@);
    true
}

/// Builds the roster of one validator per key, each of genesis voting power;
/// fails where two keys coincide.
pub fn genesis_roster(keys: &Vec<[u8; 32]>) -> (r: Result<InitialParameters, KeypairGenerationError>)
    ensures
        match r {
            Ok(p) => distinct_keys(keys@) && roster_of(keys@, p@),
            Err(e) => !distinct_keys(keys@) && e is DuplicateKey,
        },
{
    let mut i: usize = 0;
    while i < keys.len()
        invariant
            i <= keys@.len(),
            forall|a: int, b: int|
                #![trigger keys@[a], keys@[b]]
                0 <= a < b < i ==> keys@[a]@ != keys@[b]@,
        decreases keys@.len() - i,
    {
        let mut j: usize = 0;
        while j < i
            invariant
                i < keys@.len(),
                j <= i,
                forall|a: int| #![trigger keys@[a]] 0 <= a < j ==> keys@[a]@ != keys@[i as int]@,
            decreases i - j,
        {
            if same_key(&keys[j], &keys[i]) {
                return Err(KeypairGenerationError::DuplicateKey { index: i });
            }
            j = j + 1;
        }
        i = i + 1;
    }
    let mut validators: Vec<ValidatorAccount> = Vec::new();
    let mut k: usize = 0;
    while k < keys.len()
        invariant
            k <= keys@.len(),
            roster_of(keys@.take(k as int), validators@),
        decreases keys@.len() - k,
    {
        validators.push(
            ValidatorAccount { pk: keys[k], voting_power: VALIDATOR_VOTING_POWER, vp: () },
        );
        k = k + 1;
    }
    assert(keys@.take(keys@.len() as int) =~= keys@);
    Ok(InitialParameters { validators })
}

impl InitialParameters {
    /// The validator roster.
    pub fn validators(&self) -> (r: &Vec<ValidatorAccount>)
        ensures
            r@ == self@,
    {
        &self.validators
    }
}

impl Shell {
    /// Generates the genesis roster: `VALIDATOR_COUNT` validators, each with
    /// a freshly generated ed25519 keypair and genesis voting power. Fails,
    /// fatally for chain initialization, where the key generator cannot be
    /// seeded or two generated keys coincide.
    pub fn init_chain() -> (r: Result<InitialParameters, KeypairGenerationError>)
        ensures
            r matches Ok(p) ==> is_genesis_roster(p@),
    {
        let mut rng = match seeded_rng() {
            Ok(rng) => rng,
            Err(_) => return Err(KeypairGenerationError::NoEntropy),
        };
        let mut keys: Vec<[u8; 32]> = Vec::new();
        let mut i: usize = 0;
        while i < VALIDATOR_COUNT
            invariant
                i <= VALIDATOR_COUNT,
                keys@.len() == i,
            decreases VALIDATOR_COUNT - i,
        {
            keys.push(generate_public_key(&mut rng));
            i = i + 1;
        }
        genesis_roster(&keys)
    }
}

} // verus!
