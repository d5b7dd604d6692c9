//! The observability events the bridge emits.  They are plain records: the
//! operations return them, and the host's log is the durable audit trail,
//! since transport delivery is not guaranteed.

use vstd::prelude::*;

verus! {

/// An outbound token transfer left for the destination chain.
#[derive(Debug)]
pub struct OFTSent {
    pub guid: [u8; 32],
    pub dst_eid: u32,
    pub from: [u8; 32],
    pub amount_sent_ld: u64,
    pub amount_received_ld: u64,
}

/// An inbound token transfer arrived and was credited.
#[derive(Debug)]
pub struct OFTReceived {
    pub guid: [u8; 32],
    pub src_eid: u32,
    pub to: [u8; 32],
    pub amount_received_ld: u64,
}

/// An escrow record was created.
#[derive(Debug)]
pub struct EscrowCreated {
    pub claim_code: Vec<u8>,
    pub amount: u64,
    pub depositor: [u8; 32],
    pub expires_at: i64,
}

/// A claim was initiated and its notification dispatched.
#[derive(Debug)]
pub struct ClaimInitiated {
    pub claim_code: Vec<u8>,
    pub dst_eid: u32,
    pub amount: u64,
    pub recipient: [u8; 32],
}

/// A claim arrived from another chain.
#[derive(Debug)]
pub struct CrossChainClaim {
    pub claim_code: Vec<u8>,
    pub amount: u64,
    pub src_eid: u32,
    pub claimer: [u8; 32],
}

/// A message of the claim protocol was handed to the transport.
#[derive(Debug)]
pub struct CrossChainMessageSent {
    pub claim_code: Vec<u8>,
    pub dst_eid: u32,
    pub claimer: [u8; 32],
    pub amount: u64,
}

/// A claim-code-scoped verification response was sent.
#[derive(Debug)]
pub struct EscrowVerificationSent {
    pub claim_code: Vec<u8>,
    pub amount: u64,
    pub claimer: [u8; 32],
    pub dst_eid: u32,
    pub verified: bool,
}

/// A verification request was answered; recorded whether or not the
/// verification succeeded.
#[derive(Debug)]
pub struct EthereumVerificationResponse {
    pub request_id: [u8; 32],
    pub eth_sender: [u8; 20],
    pub amount: u64,
    pub verified: bool,
    pub response_length: u32,
}

} // verus!
