//! What the raffle asks of the runtime around it, besides the ledger: random
//! material for the current block, and the dispatch of encoded calls.

use vstd::prelude::*;

use crate::types::AccountId;

verus! {

/// A source of random material for the current block.
pub trait Randomness {
    /// The random material that the current block holds for `subject`.
    spec fn material(&self, subject: Seq<u8>) -> Seq<u8>;

    /// Random material for the current block, drawn for `subject`.
    fn random(&self, subject: &Vec<u8>) -> (r: [u8; 32])
        ensures
            r@ == self.material(subject@),
    ;
}

/// Randomness that holds the same material for every subject: a
/// deterministic stand-in for a block's randomness, for simulations and
/// replays.
#[derive(Clone, Copy, Debug, PartialEq, Eq)]
pub struct FixedRandomness {
    pub material: [u8; 32],
}

impl Randomness for FixedRandomness {
    open spec fn material(&self, subject: Seq<u8>) -> Seq<u8> {
        self.material@
    }

    fn random(&self, subject: &Vec<u8>) -> (r: [u8; 32]) {
        self.material
    }
}

/// Why the runtime did not carry out an encoded call.
#[derive(Clone, Copy, Debug, PartialEq, Eq)]
pub enum DispatchError {
    /// The bytes do not encode a call.
    Undecodable,
    /// The call ran and failed, with the runtime's error code.
    Failed(u32),
}

/// The runtime that decodes encoded calls and runs them.
pub trait Dispatcher {
    /// Decodes `encoded_call` and runs it on behalf of `origin`.
    fn dispatch(&mut self, origin: AccountId, encoded_call: &Vec<u8>) -> Result<(), DispatchError>;
}

/// The four little-endian bytes of `x`.
pub open spec fn le_bytes(x: u32) -> Seq<u8> {
    seq![
        (x % 256) as u8,
        ((x / 256) % 256) as u8,
        ((x / 65536) % 256) as u8,
        (x / 16777216) as u8,
    ]
}

/// The integer that the first four bytes of `b` encode, little-endian.
pub open spec fn le_u32(b: Seq<u8>) -> int
    recommends
        b.len() >= 4,
{
    b[0] + 256 * b[1] + 65536 * b[2] + 16777216 * b[3]
}

/// The subject from which the raffle draws a random number: its identifier
/// followed by the seed.
pub open spec fn random_subject(id: Seq<u8>, seed: u32) -> Seq<u8> {
    id + le_bytes(seed)
}

/// Encodes the pair of an identifier and a seed.
pub fn encode_subject(id: &[u8; 8], seed: u32) -> (r: Vec<u8>)
    ensures
        r@ == random_subject(id@, seed),
{
    let mut r: Vec<u8> = Vec::new();
    let mut i: usize = 0;
    while i < 8
        invariant
            i <= 8,
            id@.len() == 8,
            r@ == id@.subrange(0, i as int),
        decreases 8 - i,
    {
        r.push(id[i]);
        i = i + 1;
    }
    r.push((seed % 256) as u8);
    r.push(((seed / 256) % 256) as u8);
    r.push(((seed / 65536) % 256) as u8);
    r.push((seed / 16777216) as u8);
    assert(r@ =~= random_subject(id@, seed));
    r
}

/// Reads a little-endian integer from the first four bytes of `bytes`.
pub fn decode_u32(bytes: &[u8; 32]) -> (r: u32)
    ensures
        r as int == le_u32(bytes@),
{
    bytes[0] as u32 + 256 * (bytes[1] as u32) + 65536 * (bytes[2] as u32) + 16777216 * (
    bytes[3] as u32)
}

} // verus!
