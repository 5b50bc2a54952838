use vstd::prelude::*;

verus! {

/// Why a call into an auction or the factory was rejected. A rejected call
/// leaves the state as it was.
#[derive(Clone, Copy, Debug, PartialEq, Eq, Structural)]
pub enum AuctionError {
    /// The caller is not the identity that this operation trusts.
    Unauthorized,
    /// The auction no longer accepts bids.
    NotOpen,
    /// The bid does not exceed the current highest bid.
    BidTooLow,
    /// The auction has not reached its end time yet.
    NotEnded,
    /// The lot has already been settled.
    AlreadyClaimed,
    /// The requested instance name is too long.
    InvalidName,
    /// The attached deposit does not cover a deployment.
    InsufficientDeposit,
    /// Creating or initializing the new instance failed.
    DeploymentFailed,
    /// An amount is not a decimal number that fits in 128 bits.
    InvalidAmount,
    /// A template is not valid base64.
    InvalidEncoding,
}

} // verus!
