//! A cross-chain claim-code escrow bridge: a depositor locks value under a
//! secret claim code, and a claimant on a remote chain redeems it after a
//! verification handshake.  The crate holds the escrow/claim lifecycle state
//! machine, the fixed-layout wire codecs, and the verification
//! request/response protocol; the host ledger and the cross-chain transport
//! are outside collaborators that a caller wires in.

pub mod byteops;
pub mod codec;
pub mod coordinator;
pub mod errors;
pub mod events;
pub mod ledger;
pub mod protocol;
pub mod state;
