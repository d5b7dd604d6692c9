//! The claim coordinator: it validates a claim or a verification request
//! against the escrow ledger and builds the outbound message for the
//! transport.  It never marks an escrow claimed itself — claiming is a
//! distinct, separately authorised operation of the ledger.

use vstd::prelude::*;
use vstd::slice::slice_to_vec;
use crate::codec::{
    ClaimNotificationMessage, ClaimNotificationModel, spec_encode_claim_notification,
    EscrowVerificationResponse, EscrowVerificationResponseModel,
    spec_encode_escrow_verification_response,
};
use crate::errors::EscrowError;
use crate::events::{ClaimInitiated, EscrowVerificationSent};
use crate::ledger::{EscrowLedger, spec_lookup, spec_claim_err, lemma_find_props};
use crate::state::{ClaimRequest, ClaimRequestModel, ClaimStatus, EscrowModel, TokenType};

verus! {

/// Why initiating a claim of `code` at time `now` fails against `s`, or
/// `None` when it may go ahead.  The conditions are those of the claim
/// itself: the record must exist, be unclaimed, and be unexpired, with the
/// inclusive boundary `now <= expires_at`.
pub open spec fn spec_initiate_err(s: Seq<EscrowModel>, code: Seq<u8>, now: i64) -> Option<
    EscrowError,
> {
    spec_claim_err(s, code, now)
}

/// What a successful claim initiation hands back: the audit record, the
/// notification for the destination chain, its encoding for the transport,
/// and the event.
#[derive(Debug)]
pub struct ClaimInitiation {
    pub request: ClaimRequest,
    pub notification: ClaimNotificationMessage,
    pub message: Vec<u8>,
    pub event: ClaimInitiated,
}

/// Initiates a claim: validates the escrow under `params.claim_code`,
/// builds the `Pending` claim request and the claim notification carrying
/// the escrow's amount and expiry, and encodes the notification for
/// dispatch to `params.dst_eid`.  The ledger is read, never written.
pub fn initiate_claim(
    ledger: &EscrowLedger,
    params: &InitiateClaimParams,
    now: i64,
    escrow_key: [u8; 32],
    bump: u8,
) -> (r: Result<ClaimInitiation, EscrowError>)
    requires
        ledger.wf(),
    ensures
        match r {
            Ok(out) => {
                &&& spec_initiate_err(ledger@, params.claim_code@, now) is None
                &&& (spec_lookup(ledger@, params.claim_code@) matches Some(esc) && {
                    &&& out.request@ == (ClaimRequestModel {
                        escrow_key: escrow_key@,
                        claim_code: params.claim_code@,
                        dst_eid: params.dst_eid,
                        token_type: params.token_type,
                        recipient: params.recipient@,
                        status: ClaimStatus::Pending,
                        created_at: now,
                        bump: bump,
                    })
                    &&& out.notification@ == (ClaimNotificationModel {
                        claim_code: params.claim_code@,
                        amount: esc.amount,
                        token_type: params.token_type,
                        recipient: params.recipient@,
                        expiry: esc.expires_at,
                    })
                    &&& out.message@ == spec_encode_claim_notification(out.notification@)
                    &&& out.event.claim_code@ == params.claim_code@
                    &&& out.event.dst_eid == params.dst_eid
                    &&& out.event.amount == esc.amount
                    &&& out.event.recipient == params.recipient
                })
            },
            Err(e) => Some(e) == spec_initiate_err(ledger@, params.claim_code@, now),
        },
{
    proof {
        lemma_find_props(ledger@, params.claim_code@);
    }
    let esc = match ledger.lookup(params.claim_code.as_slice()) {
        Some(rec) => rec,
        None => {
            return Err(EscrowError::InvalidClaimCode);
        },
    };
    if esc.claimed {
        return Err(EscrowError::AlreadyClaimed);
    }
    if now > esc.expires_at {
        return Err(EscrowError::EscrowExpired);
    }
    let request = ClaimRequest {
        escrow_key,
        claim_code: slice_to_vec(params.claim_code.as_slice()),
        dst_eid: params.dst_eid,
        token_type: params.token_type,
        recipient: params.recipient,
        status: ClaimStatus::Pending,
        created_at: now,
        bump,
    };
    let notification = ClaimNotificationMessage {
        claim_code: slice_to_vec(params.claim_code.as_slice()),
        amount: esc.amount,
        token_type: params.token_type,
        recipient: params.recipient,
        expiry: esc.expires_at,
    };
    let message = notification.encode();
    let event = ClaimInitiated {
        claim_code: slice_to_vec(params.claim_code.as_slice()),
        dst_eid: params.dst_eid,
        amount: esc.amount,
        recipient: params.recipient,
    };
    Ok(ClaimInitiation { request, notification, message, event })
}

/// The parameters of claim initiation.
#[derive(Clone, Debug)]
pub struct InitiateClaimParams {
    pub claim_code: Vec<u8>,
    pub dst_eid: u32,
    pub token_type: TokenType,
    pub recipient: [u8; 32],
}

/// The parameters of a claim-code-scoped verification.
#[derive(Clone, Debug)]
pub struct VerifyEscrowParams {
    pub claim_code: Vec<u8>,
    pub requesting_claimer: [u8; 32],
    pub dst_eid: u32,
    pub options: Vec<u8>,
}

/// What a successful verification hands back: the response, its encoding
/// for the transport, and the event.
#[derive(Debug)]
pub struct EscrowVerification {
    pub response: EscrowVerificationResponse,
    pub message: Vec<u8>,
    pub event: EscrowVerificationSent,
}

/// Answers a claim-code-scoped verification: validates the escrow under
/// `params.claim_code` as claim initiation does — unclaimed and unexpired,
/// with the same inclusive boundary `now <= expires_at` — and builds the
/// escrow verification response for dispatch to `params.dst_eid`.
pub fn verify_escrow(ledger: &EscrowLedger, params: &VerifyEscrowParams, now: i64) -> (r: Result<
    EscrowVerification,
    EscrowError,
>)
    requires
        ledger.wf(),
    ensures
        match r {
            Ok(out) => {
                &&& spec_claim_err(ledger@, params.claim_code@, now) is None
                &&& (spec_lookup(ledger@, params.claim_code@) matches Some(esc) && {
                    &&& out.response@ == (EscrowVerificationResponseModel {
                        claim_code: params.claim_code@,
                        amount: esc.amount,
                        claimer: params.requesting_claimer@,
                        expires_at: esc.expires_at,
                        verified: true,
                    })
                    &&& out.message@ == spec_encode_escrow_verification_response(out.response@)
                    &&& out.event.claim_code@ == params.claim_code@
                    &&& out.event.amount == esc.amount
                    &&& out.event.claimer == params.requesting_claimer
                    &&& out.event.dst_eid == params.dst_eid
                    &&& out.event.verified == true
                })
            },
            Err(e) => Some(e) == spec_claim_err(ledger@, params.claim_code@, now),
        },
{
    proof {
        lemma_find_props(ledger@, params.claim_code@);
    }
    let esc = match ledger.lookup(params.claim_code.as_slice()) {
        Some(rec) => rec,
        None => {
            return Err(EscrowError::InvalidClaimCode);
        },
    };
    if esc.claimed {
        return Err(EscrowError::AlreadyClaimed);
    }
    if now > esc.expires_at {
        return Err(EscrowError::EscrowExpired);
    }
    let response = EscrowVerificationResponse {
        claim_code: slice_to_vec(params.claim_code.as_slice()),
        amount: esc.amount,
        claimer: params.requesting_claimer,
        expires_at: esc.expires_at,
        verified: true,
    };
    let message = response.encode();
    let event = EscrowVerificationSent {
        claim_code: slice_to_vec(params.claim_code.as_slice()),
        amount: esc.amount,
        claimer: params.requesting_claimer,
        dst_eid: params.dst_eid,
        verified: true,
    };
    Ok(EscrowVerification { response, message, event })
}

/// A claim initiation never succeeds against an escrow that is already
/// claimed, or one whose expiry time has passed.
pub proof fn lemma_initiate_claim_guard(s: Seq<EscrowModel>, code: Seq<u8>, now: i64)
    requires
        spec_lookup(s, code) matches Some(m) && (m.claimed || now > m.expires_at),
    ensures
        spec_initiate_err(s, code, now) is Some,
{
}

} // verus!
