//! The inbound half of the verification protocol: validating the source
//! chain, parsing the wire message, dispatching on its type byte, and
//! building the correlated response.
//!
//! The verification decision itself is a policy point: this protocol
//! instance answers every well-formed request as verified.  A deployment
//! that consults real escrow state plugs its decision in where the
//! verified flag is fixed below.

use vstd::prelude::*;
use crate::codec::{
    decode_verification_request, encode_verification_response, spec_parse_verification_request,
    spec_verification_request_ok, spec_encode_verification_response, VerificationResponseModel,
    MSG_TYPE_VERIFICATION_REQUEST,
};
use crate::errors::EscrowError;
use crate::events::EthereumVerificationResponse;

verus! {

/// The endpoint identifier of the expected remote chain.
pub const ETHEREUM_EID: u32 = 10161;

/// The inbound message as the transport delivers it.
#[derive(Clone, Debug)]
pub struct HandleEthereumMessageParams {
    pub src_eid: u32,
    pub message: Vec<u8>,
    pub executor: [u8; 32],
    pub extra_data: Vec<u8>,
}

/// A response ready for the transport: the encoded bytes, where to send
/// them, and the audit event.
#[derive(Debug)]
pub struct VerificationReply {
    pub response: Vec<u8>,
    pub dst_eid: u32,
    pub receiver: [u8; 20],
    pub event: EthereumVerificationResponse,
}

/// What a reply to a well-formed verification request must look like: the
/// 34-byte response echoing the request's correlation token with the
/// verified byte set, addressed back to the requester, and the audit event
/// recording the request's fields.
pub open spec fn spec_reply_matches(reply: VerificationReply, src_eid: u32, b: Seq<u8>) -> bool {
    let req = spec_parse_verification_request(b);
    &&& reply.response@ == spec_encode_verification_response(
        VerificationResponseModel {
            msg_type: 1u8,
            request_id: req.request_id,
            verified: 1u8,
        },
    )
    &&& reply.dst_eid == src_eid
    &&& reply.receiver@ == req.sender
    &&& reply.event.request_id@ == req.request_id
    &&& reply.event.eth_sender@ == req.sender
    &&& reply.event.amount == req.amount
    &&& reply.event.verified == true
    &&& reply.event.response_length == 34
}

/// Why handling an inbound message fails outright, or `None` when it is
/// dispatched: a wrong source chain is `InvalidSourceChain`, and a message
/// under 85 bytes is `InvalidMessage`.  Neither produces a response.
pub open spec fn spec_handle_err(src_eid: u32, b: Seq<u8>) -> Option<EscrowError> {
    if src_eid != ETHEREUM_EID {
        Some(EscrowError::InvalidSourceChain)
    } else if !spec_verification_request_ok(b) {
        Some(EscrowError::InvalidMessage)
    } else {
        None
    }
}

/// The chain-checked inbound handler.
#[derive(Debug)]
pub struct HandleEthereumMessage;

impl HandleEthereumMessage {
    /// Handles one inbound message: the declared source chain must be the
    /// expected remote chain and the message must parse; a request with
    /// type byte 0 is answered, and any other type byte is ignored without
    /// error or response.
    pub fn apply(params: &HandleEthereumMessageParams) -> (r: Result<
        Option<VerificationReply>,
        EscrowError,
    >)
        ensures
            match r {
                Err(e) => Some(e) == spec_handle_err(params.src_eid, params.message@),
                Ok(opt) => {
                    &&& spec_handle_err(params.src_eid, params.message@) is None
                    &&& (if spec_parse_verification_request(params.message@).msg_type == 0 {
                        opt matches Some(reply) && spec_reply_matches(
                            reply,
                            params.src_eid,
                            params.message@,
                        )
                    } else {
                        opt is None
                    })
                },
            },
    {
        if params.src_eid != ETHEREUM_EID {
            return Err(EscrowError::InvalidSourceChain);
        }
        let incoming = match decode_verification_request(params.message.as_slice()) {
            Ok(m) => m,
            Err(e) => {
                return Err(e);
            },
        };
        if incoming.msg_type != MSG_TYPE_VERIFICATION_REQUEST {
            return Ok(None);
        }
        let response = encode_verification_response(&incoming.request_id, true);
        let event = EthereumVerificationResponse {
            request_id: incoming.request_id,
            eth_sender: incoming.sender,
            amount: incoming.amount,
            verified: true,
            response_length: 34,
        };
        Ok(
            Some(
                VerificationReply {
                    response,
                    dst_eid: params.src_eid,
                    receiver: incoming.sender,
                    event,
                },
            ),
        )
    }
}

/// Answers a verification request whose type byte was already checked:
/// parses the 85-byte layout, builds the 34-byte response echoing the
/// correlation token, and records the audit event.  A message under 85
/// bytes is `InvalidMessage`.
pub fn handle_ethereum_verification_request(message: &[u8]) -> (r: Result<
    VerificationReply,
    EscrowError,
>)
    ensures
        match r {
            Ok(reply) => spec_verification_request_ok(message@) && spec_reply_matches(
                reply,
                ETHEREUM_EID,
                message@,
            ),
            Err(e) => !spec_verification_request_ok(message@) && e == EscrowError::InvalidMessage,
        },
{
    let incoming = match decode_verification_request(message) {
        Ok(m) => m,
        Err(e) => {
            return Err(e);
        },
    };
    let response = encode_verification_response(&incoming.request_id, true);
    let event = EthereumVerificationResponse {
        request_id: incoming.request_id,
        eth_sender: incoming.sender,
        amount: incoming.amount,
        verified: true,
        response_length: 34,
    };
    Ok(VerificationReply { response, dst_eid: ETHEREUM_EID, receiver: incoming.sender, event })
}

/// What the general receive path decided for one inbound message.
#[derive(Debug)]
pub enum ReceiveAction {
    /// A verification request was answered; the reply goes back out.
    Respond(VerificationReply),
    /// The message came from the expected chain with a type byte this
    /// protocol does not handle; it is ignored without error.
    Ignored,
    /// The message is for the default receive handling of the host.
    Fallthrough,
}

/// The general receive path.  A non-empty message from the expected remote
/// chain is dispatched by its type byte — 0 is answered, anything else
/// ignored — and every other message falls through to the host's default
/// handling.
pub fn lz_receive(src_eid: u32, message: &[u8]) -> (r: Result<ReceiveAction, EscrowError>)
    ensures
        (src_eid == ETHEREUM_EID && message@.len() > 0) ==> (if message@[0] == 0 {
            if spec_verification_request_ok(message@) {
                r matches Ok(ReceiveAction::Respond(reply)) && spec_reply_matches(
                    reply,
                    ETHEREUM_EID,
                    message@,
                )
            } else {
                r == Err::<ReceiveAction, EscrowError>(EscrowError::InvalidMessage)
            }
        } else {
            r matches Ok(a) && a is Ignored
        }),
        !(src_eid == ETHEREUM_EID && message@.len() > 0) ==> (r matches Ok(a) && a is Fallthrough),
{
    if src_eid == ETHEREUM_EID && message.len() > 0 {
        if message[0] == MSG_TYPE_VERIFICATION_REQUEST {
            match handle_ethereum_verification_request(message) {
                Ok(reply) => Ok(ReceiveAction::Respond(reply)),
                Err(e) => Err(e),
            }
        } else {
            Ok(ReceiveAction::Ignored)
        }
    } else {
        Ok(ReceiveAction::Fallthrough)
    }
}

} // verus!
