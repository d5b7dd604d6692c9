//! The durable entities of the bridge: escrow records, claim requests, and
//! the bridge's configuration store, together with their ghost models.
//!
//! Host-specific account addressing is out of scope: records are plain
//! values keyed by their claim code, identities are 32-byte addresses, and
//! the `bump` byte is the stable identifier a host may use to re-derive a
//! record's storage slot.

use vstd::prelude::*;

verus! {

/// The longest claim code, in bytes.
pub const MAX_CLAIM_CODE_LEN: usize = 10;

/// The asset a claim pays out in.
#[derive(Clone, Copy, PartialEq, Eq, Structural, Debug)]
pub enum TokenType {
    Native,
    USDC,
    USDT,
}

/// The lifecycle of a claim request.  `Pending` advances to `Processing`
/// when the outbound dispatch is acknowledged, and `Processing` ends in one
/// of the terminal states `Completed` or `Failed`.
#[derive(Clone, Copy, PartialEq, Eq, Structural, Debug)]
pub enum ClaimStatus {
    Pending,
    Processing,
    Completed,
    Failed,
}

/// One locked deposit, redeemable under its claim code.
#[derive(Debug)]
pub struct TokenEscrow {
    pub depositor: [u8; 32],
    pub amount: u64,
    pub claim_code: Vec<u8>,
    pub claimed: bool,
    pub created_at: i64,
    pub expires_at: i64,
    pub bump: u8,
}

/// The ghost image of a `TokenEscrow`: byte fields as sequences.
pub struct EscrowModel {
    pub depositor: Seq<u8>,
    pub amount: u64,
    pub claim_code: Seq<u8>,
    pub claimed: bool,
    pub created_at: i64,
    pub expires_at: i64,
    pub bump: u8,
}

impl View for TokenEscrow {
    type V = EscrowModel;

    open spec fn view(&self) -> EscrowModel {
        EscrowModel {
            depositor: self.depositor@,
            amount: self.amount,
            claim_code: self.claim_code@,
            claimed: self.claimed,
            created_at: self.created_at,
            expires_at: self.expires_at,
            bump: self.bump,
        }
    }
}

/// A well-formed escrow record: its claim code fits the code length bound.
pub open spec fn escrow_wf(m: EscrowModel) -> bool {
    m.claim_code.len() <= MAX_CLAIM_CODE_LEN && m.depositor.len() == 32
}

/// Whether the record can still be claimed at time `now`.  The boundary is
/// inclusive throughout the crate: the record is live up to and including
/// `expires_at`, and expired strictly after it.
pub open spec fn escrow_live(m: EscrowModel, now: i64) -> bool {
    !m.claimed && now <= m.expires_at
}

/// One claim attempt against an escrow, kept forever as the audit trail.
#[derive(Debug)]
pub struct ClaimRequest {
    pub escrow_key: [u8; 32],
    pub claim_code: Vec<u8>,
    pub dst_eid: u32,
    pub token_type: TokenType,
    pub recipient: [u8; 32],
    pub status: ClaimStatus,
    pub created_at: i64,
    pub bump: u8,
}

/// The ghost image of a `ClaimRequest`.
pub struct ClaimRequestModel {
    pub escrow_key: Seq<u8>,
    pub claim_code: Seq<u8>,
    pub dst_eid: u32,
    pub token_type: TokenType,
    pub recipient: Seq<u8>,
    pub status: ClaimStatus,
    pub created_at: i64,
    pub bump: u8,
}

impl View for ClaimRequest {
    type V = ClaimRequestModel;

    open spec fn view(&self) -> ClaimRequestModel {
        ClaimRequestModel {
            escrow_key: self.escrow_key@,
            claim_code: self.claim_code@,
            dst_eid: self.dst_eid,
            token_type: self.token_type,
            recipient: self.recipient@,
            status: self.status,
            created_at: self.created_at,
            bump: self.bump,
        }
    }
}

impl ClaimRequest {
    /// Records that the outbound dispatch was acknowledged.
    pub fn mark_processing(&mut self)
        requires
            old(self).status == ClaimStatus::Pending,
        ensures
            final(self).status == ClaimStatus::Processing,
            final(self)@ == (ClaimRequestModel { status: ClaimStatus::Processing, ..old(self)@ }),
    {
        self.status = ClaimStatus::Processing;
    }

    /// Records confirmed remote settlement; `Completed` is terminal.
    pub fn mark_completed(&mut self)
        requires
            old(self).status == ClaimStatus::Processing,
        ensures
            final(self).status == ClaimStatus::Completed,
            final(self)@ == (ClaimRequestModel { status: ClaimStatus::Completed, ..old(self)@ }),
    {
        self.status = ClaimStatus::Completed;
    }

    /// Records a dispatch failure or a remote rejection; `Failed` is terminal.
    pub fn mark_failed(&mut self)
        requires
            old(self).status == ClaimStatus::Pending || old(self).status
                == ClaimStatus::Processing,
        ensures
            final(self).status == ClaimStatus::Failed,
            final(self)@ == (ClaimRequestModel { status: ClaimStatus::Failed, ..old(self)@ }),
    {
        self.status = ClaimStatus::Failed;
    }
}

/// The bridge's configuration account.
#[derive(Debug)]
pub struct Store {
    pub admin: [u8; 32],
    pub endpoint_program: [u8; 32],
    pub bump: u8,
    pub string: String,
}

/// The parameters that initialise the configuration store.
#[derive(Clone, Debug)]
pub struct InitStoreParams {
    pub admin: [u8; 32],
    pub endpoint: [u8; 32],
}

/// Builds the configuration store from its parameters.
pub fn init_store(params: &InitStoreParams, bump: u8) -> (s: Store)
    ensures
        s.admin == params.admin,
        s.endpoint_program == params.endpoint,
        s.bump == bump,
        s.string@ == "Nothing received yet."@,
{
    Store {
        admin: params.admin,
        endpoint_program: params.endpoint,
        bump,
        string: ("Nothing received yet.").to_owned(),
    }
}

} // verus!
