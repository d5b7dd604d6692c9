//! The error taxonomy of the bridge.  Every failing operation returns one of
//! these to its immediate caller and leaves all entities unchanged.

use vstd::prelude::*;

verus! {

/// Errors of the token-transfer surface of the host program.  The escrow
/// protocol itself never raises these; they are part of the public surface
/// for callers that drive the transfer paths.
#[derive(Clone, Copy, PartialEq, Eq, Structural, Debug)]
pub enum OFTError {
    Unauthorized,
    InvalidSender,
    InvalidDecimals,
    SlippageExceeded,
    InvalidTokenDest,
    RateLimitExceeded,
    InvalidFee,
    InvalidMintAuthority,
    Paused,
}

/// Errors of the escrow/claim protocol.
#[derive(Clone, Copy, PartialEq, Eq, Structural, Debug)]
pub enum EscrowError {
    /// The claim code's escrow was already claimed.
    AlreadyClaimed,
    /// No usable escrow record exists for the claim code.
    InvalidClaimCode,
    /// A wire payload is malformed or undersized.
    InvalidMessage,
    /// The escrow's expiry time has passed.
    EscrowExpired,
    /// An inbound message declared a source chain other than the expected one.
    InvalidSourceChain,
}

impl EscrowError {
    /// A short name for logs and test output.
    pub fn describe(&self) -> (r: &'static str)
        ensures
            r@ == match *self {
                EscrowError::AlreadyClaimed => "Claim code already used"@,
                EscrowError::InvalidClaimCode => "Invalid claim code"@,
                EscrowError::InvalidMessage => "Invalid message format"@,
                EscrowError::EscrowExpired => "Escrow has expired"@,
                EscrowError::InvalidSourceChain => "Invalid source chain"@,
            },
    {
        match *self {
            EscrowError::AlreadyClaimed => "Claim code already used",
            EscrowError::InvalidClaimCode => "Invalid claim code",
            EscrowError::InvalidMessage => "Invalid message format",
            EscrowError::EscrowExpired => "Escrow has expired",
            EscrowError::InvalidSourceChain => "Invalid source chain",
        }
    }
}

} // verus!
