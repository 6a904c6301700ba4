//! Plain values shared by the raffle's modules.

use vstd::prelude::*;

verus! {

/// An account of the ledger.
pub type AccountId = u64;

/// An amount of funds.
pub type Balance = u128;

/// A block number: the raffle's unit of time.
pub type BlockNumber = u64;

/// A ticket number within the current window.
pub type Ticket = u32;

/// Compact identifier of an encoded call: its first two bytes and its length
/// modulo 256.
pub type CallId = (u8, u8, u8);

/// The identifier of an encoded call that is at least two bytes long.
pub open spec fn fingerprint(encoded: Seq<u8>) -> CallId
    recommends
        encoded.len() >= 2,
{
    (encoded[0], encoded[1], (encoded.len() % 256) as u8)
}

/// Why an operation of the raffle was refused.
#[derive(Clone, Copy, Debug, PartialEq, Eq)]
pub enum Error {
    /// No round is configured.
    NotConfigured,
    /// A round is already in progress.
    AlreadyActive,
    /// The round no longer sells tickets.
    AlreadyEnded,
    /// The call is not one that buys a ticket.
    InvalidCall,
    /// The account already holds a ticket for this call in this round.
    AlreadyParticipating,
    /// More calls than the configured bound.
    TooManyCalls,
    /// An encoded call is shorter than two bytes.
    EncodingFailed,
    /// The call could not be decoded.
    UndecodableCall,
    /// A counter would wrap.
    Overflow,
    /// The origin may not perform this operation.
    BadOrigin,
    /// The played call itself failed, with the host's error code.
    Dispatch(u32),
    /// The ledger refused a transfer.
    Funds(LedgerError),
}

/// Why the ledger refused a transfer.
#[derive(Clone, Copy, Debug, PartialEq, Eq)]
pub enum LedgerError {
    /// The sender's free balance is below the amount.
    InsufficientBalance,
    /// The sender would be left below the minimum balance.
    KeepAlive,
    /// The recipient's balance would not fit.
    Overflow,
    /// The recipient would hold less than the minimum balance.
    BelowMinimum,
}

/// Who performs an operation.
#[derive(Clone, Copy, Debug, PartialEq, Eq)]
pub enum Origin {
    /// The system itself.
    Root,
    /// An account that signed the operation.
    Signed(AccountId),
}

/// Whether two call identifiers are the same.
pub fn same_call_id(a: CallId, b: CallId) -> (r: bool)
    ensures
        r == (a == b),
{
    a.0 == b.0 && a.1 == b.1 && a.2 == b.2
}

/// Reduces an encoded call to its identifier.
pub fn call_id(encoded_call: &Vec<u8>) -> (r: Result<CallId, Error>)
    ensures
        encoded_call@.len() < 2 ==> r == Err::<CallId, Error>(Error::EncodingFailed),
        encoded_call@.len() >= 2 ==> r == Ok::<CallId, Error>(fingerprint(encoded_call@)),
{
    if encoded_call.len() < 2 {
        return Err(Error::EncodingFailed);
    }
    Ok((encoded_call[0], encoded_call[1], (encoded_call.len() % 256) as u8))
}

} // verus!
