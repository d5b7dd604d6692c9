//! The wire codecs: bit-exact translation between the bridge's message
//! shapes and byte sequences.
//!
//! Layouts, all offsets fixed unless noted:
//! - verification request, 85 bytes: type (1) | request id (32) |
//!   sender (20) | numeric field (32).  Only the trailing 8 bytes of the
//!   numeric field carry the amount, read big-endian; a decoder accepts any
//!   message of at least 85 bytes and reads its first 85.
//! - verification response, 34 bytes: type (1) | request id (32) |
//!   verified flag (1).
//! - escrow verification response, variable: type (1) | code length,
//!   little-endian (4) | code | amount, little-endian (8) | claimer (32) |
//!   verified flag (1).
//! - claim notification, variable: code length, little-endian (4) | code |
//!   amount, little-endian (8) | token tag (1) | recipient (32) | expiry,
//!   little-endian (8).  A decoder ignores bytes after the expiry field.

use vstd::prelude::*;
use vstd::bytes::{
    spec_u32_to_le_bytes, spec_u32_from_le_bytes, lemma_auto_spec_u32_to_from_le_bytes,
    spec_u64_to_le_bytes, spec_u64_from_le_bytes, lemma_auto_spec_u64_to_from_le_bytes,
    u32_to_le_bytes, u32_from_le_bytes, u64_to_le_bytes, u64_from_le_bytes,
};
use vstd::slice::{slice_subrange, slice_to_vec};
use crate::byteops::{
    spec_u64_to_be_bytes, spec_u64_from_be_bytes, lemma_u64_be_bytes_round_trip,
    spec_i64_to_le_bytes, spec_i64_from_le_bytes, lemma_i64_le_bytes_round_trip, u64_to_be_bytes,
    u64_from_be_bytes, i64_to_le_bytes, i64_from_le_bytes, push_bytes,
};
use crate::errors::EscrowError;
use crate::state::{TokenType, MAX_CLAIM_CODE_LEN};

verus! {

/// The length of an encoded verification request.
pub const VERIFICATION_REQUEST_LEN: usize = 85;

/// The length of an encoded verification response.
pub const VERIFICATION_RESPONSE_LEN: usize = 34;

/// The type byte that opens a verification request.
pub const MSG_TYPE_VERIFICATION_REQUEST: u8 = 0;

/// The type byte that opens a verification response.
pub const MSG_TYPE_VERIFICATION_RESPONSE: u8 = 1;

// ---------------------------------------------------------------------------
// Verification request (inbound)
// ---------------------------------------------------------------------------

/// An inbound verification request from the remote chain.
#[derive(Debug)]
pub struct IncomingMessage {
    pub msg_type: u8,
    pub request_id: [u8; 32],
    pub sender: [u8; 20],
    pub amount: u64,
}

/// The ghost image of an `IncomingMessage`.
pub struct IncomingMessageModel {
    pub msg_type: u8,
    pub request_id: Seq<u8>,
    pub sender: Seq<u8>,
    pub amount: u64,
}

impl View for IncomingMessage {
    type V = IncomingMessageModel;

    open spec fn view(&self) -> IncomingMessageModel {
        IncomingMessageModel {
            msg_type: self.msg_type,
            request_id: self.request_id@,
            sender: self.sender@,
            amount: self.amount,
        }
    }
}

/// A well-formed request model: the identifier and address runs have their
/// wire widths.
pub open spec fn incoming_message_wf(m: IncomingMessageModel) -> bool {
    m.request_id.len() == 32 && m.sender.len() == 20
}

/// The 85-byte encoding of a verification request.  The amount sits in the
/// trailing 8 bytes of the 32-byte numeric field, big-endian; the leading
/// 24 bytes of that field are zero.
pub open spec fn spec_encode_verification_request(m: IncomingMessageModel) -> Seq<u8> {
    seq![m.msg_type] + m.request_id + m.sender + Seq::new(24, |i: int| 0u8)
        + spec_u64_to_be_bytes(m.amount)
}

/// Whether a byte run decodes as a verification request.
pub open spec fn spec_verification_request_ok(b: Seq<u8>) -> bool {
    b.len() >= 85
}

/// The request a byte run of at least 85 bytes decodes to.
pub open spec fn spec_parse_verification_request(b: Seq<u8>) -> IncomingMessageModel
    recommends
        spec_verification_request_ok(b),
{
    IncomingMessageModel {
        msg_type: b[0],
        request_id: b.subrange(1, 33),
        sender: b.subrange(33, 53),
        amount: spec_u64_from_be_bytes(b.subrange(77, 85)),
    }
}

/// Encodes a verification request into its 85-byte layout.
pub fn encode_verification_request(m: &IncomingMessage) -> (r: Vec<u8>)
    ensures
        r@ == spec_encode_verification_request(m@),
        r@.len() == 85,
{
    let mut out: Vec<u8> = Vec::new();
    out.push(m.msg_type);
    push_bytes(&mut out, m.request_id.as_slice());
    push_bytes(&mut out, m.sender.as_slice());
    let pad = [0u8; 24];
    push_bytes(&mut out, pad.as_slice());
    let amount_bytes = u64_to_be_bytes(m.amount);
    push_bytes(&mut out, amount_bytes.as_slice());
    proof {
        assert(pad@ =~= Seq::new(24, |i: int| 0u8));
        assert(out@ =~= spec_encode_verification_request(m@));
    }
    out
}

/// Decodes a verification request.  Succeeds exactly on inputs of at least
/// 85 bytes; anything shorter is `InvalidMessage`.
pub fn decode_verification_request(message: &[u8]) -> (r: Result<IncomingMessage, EscrowError>)
    ensures
        spec_verification_request_ok(message@) ==> (r matches Ok(m) && m@
            == spec_parse_verification_request(message@)),
        !spec_verification_request_ok(message@) ==> (r matches Err(e) && e
            == EscrowError::InvalidMessage),
{
    if message.len() < VERIFICATION_REQUEST_LEN {
        return Err(EscrowError::InvalidMessage);
    }
    let request_id = crate::byteops::read_arr32(message, 1);
    let sender = crate::byteops::read_arr20(message, 33);
    let amount = u64_from_be_bytes(slice_subrange(message, 77, 85));
    Ok(IncomingMessage { msg_type: message[0], request_id, sender, amount })
}

/// Encoding then decoding a well-formed verification request gives it back.
pub proof fn lemma_verification_request_round_trip(m: IncomingMessageModel)
    requires
        incoming_message_wf(m),
    ensures
        spec_encode_verification_request(m).len() == 85,
        spec_verification_request_ok(spec_encode_verification_request(m)),
        spec_parse_verification_request(spec_encode_verification_request(m)) == m,
{
    lemma_u64_be_bytes_round_trip();
    let b = spec_encode_verification_request(m);
    assert(b.subrange(1, 33) =~= m.request_id);
    assert(b.subrange(33, 53) =~= m.sender);
    assert(b.subrange(77, 85) =~= spec_u64_to_be_bytes(m.amount));
}

// ---------------------------------------------------------------------------
// Verification response (outbound)
// ---------------------------------------------------------------------------

/// An outbound verification response, echoing the request's correlation
/// token.  The `verified` byte is 0x01 for true and 0x00 for false.
#[derive(Debug)]
pub struct VerificationResponse {
    pub msg_type: u8,
    pub request_id: [u8; 32],
    pub verified: u8,
}

/// The ghost image of a `VerificationResponse`.
pub struct VerificationResponseModel {
    pub msg_type: u8,
    pub request_id: Seq<u8>,
    pub verified: u8,
}

impl View for VerificationResponse {
    type V = VerificationResponseModel;

    open spec fn view(&self) -> VerificationResponseModel {
        VerificationResponseModel {
            msg_type: self.msg_type,
            request_id: self.request_id@,
            verified: self.verified,
        }
    }
}

/// A well-formed response model: the correlation token has its wire width.
pub open spec fn verification_response_wf(m: VerificationResponseModel) -> bool {
    m.request_id.len() == 32
}

/// The 34-byte encoding of a verification response.
pub open spec fn spec_encode_verification_response(m: VerificationResponseModel) -> Seq<u8> {
    seq![m.msg_type] + m.request_id + seq![m.verified]
}

/// Whether a byte run decodes as a verification response.
pub open spec fn spec_verification_response_ok(b: Seq<u8>) -> bool {
    b.len() >= 34
}

/// The response a byte run of at least 34 bytes decodes to.
pub open spec fn spec_parse_verification_response(b: Seq<u8>) -> VerificationResponseModel
    recommends
        spec_verification_response_ok(b),
{
    VerificationResponseModel {
        msg_type: b[0],
        request_id: b.subrange(1, 33),
        verified: b[33],
    }
}

impl VerificationResponse {
    /// Encodes this response into its 34-byte layout.
    pub fn encode(&self) -> (r: Vec<u8>)
        ensures
            r@ == spec_encode_verification_response(self@),
            r@.len() == 34,
    {
        let mut out: Vec<u8> = Vec::new();
        out.push(self.msg_type);
        push_bytes(&mut out, self.request_id.as_slice());
        out.push(self.verified);
        proof {
            assert(out@ =~= spec_encode_verification_response(self@));
        }
        out
    }
}

/// Builds and encodes the response to a verification request: type byte 1,
/// the echoed correlation token, then 0x01 when verified and 0x00 when not.
pub fn encode_verification_response(request_id: &[u8; 32], verified: bool) -> (r: Vec<u8>)
    ensures
        r@ == spec_encode_verification_response(
            VerificationResponseModel {
                msg_type: 1u8,
                request_id: request_id@,
                verified: if verified { 1u8 } else { 0u8 },
            },
        ),
        r@.len() == 34,
{
    let response = VerificationResponse {
        msg_type: MSG_TYPE_VERIFICATION_RESPONSE,
        request_id: *request_id,
        verified: if verified { 0x01 } else { 0x00 },
    };
    response.encode()
}

/// Decodes a verification response.  Succeeds exactly on inputs of at least
/// 34 bytes; anything shorter is `InvalidMessage`.
pub fn decode_verification_response(message: &[u8]) -> (r: Result<
    VerificationResponse,
    EscrowError,
>)
    ensures
        spec_verification_response_ok(message@) ==> (r matches Ok(m) && m@
            == spec_parse_verification_response(message@)),
        !spec_verification_response_ok(message@) ==> (r matches Err(e) && e
            == EscrowError::InvalidMessage),
{
    if message.len() < VERIFICATION_RESPONSE_LEN {
        return Err(EscrowError::InvalidMessage);
    }
    let request_id = crate::byteops::read_arr32(message, 1);
    Ok(VerificationResponse { msg_type: message[0], request_id, verified: message[33] })
}

/// Encoding then decoding a well-formed verification response gives it back.
pub proof fn lemma_verification_response_round_trip(m: VerificationResponseModel)
    requires
        verification_response_wf(m),
    ensures
        spec_encode_verification_response(m).len() == 34,
        spec_verification_response_ok(spec_encode_verification_response(m)),
        spec_parse_verification_response(spec_encode_verification_response(m)) == m,
{
    let b = spec_encode_verification_response(m);
    assert(b.subrange(1, 33) =~= m.request_id);
}

// ---------------------------------------------------------------------------
// Escrow verification response (outbound, claim-code-scoped)
// ---------------------------------------------------------------------------

/// An outbound verification response scoped to a claim code rather than a
/// bare correlation token.
#[derive(Clone, Debug)]
pub struct EscrowVerificationResponse {
    pub claim_code: Vec<u8>,
    pub amount: u64,
    pub claimer: [u8; 32],
    pub expires_at: i64,
    pub verified: bool,
}

/// The ghost image of an `EscrowVerificationResponse`.
pub struct EscrowVerificationResponseModel {
    pub claim_code: Seq<u8>,
    pub amount: u64,
    pub claimer: Seq<u8>,
    pub expires_at: i64,
    pub verified: bool,
}

impl View for EscrowVerificationResponse {
    type V = EscrowVerificationResponseModel;

    open spec fn view(&self) -> EscrowVerificationResponseModel {
        EscrowVerificationResponseModel {
            claim_code: self.claim_code@,
            amount: self.amount,
            claimer: self.claimer@,
            expires_at: self.expires_at,
            verified: self.verified,
        }
    }
}

/// The variable-length encoding of an escrow verification response: type
/// byte 1, the code behind its 4-byte little-endian length, the amount, the
/// claimer, and the verified flag.
pub open spec fn spec_encode_escrow_verification_response(
    m: EscrowVerificationResponseModel,
) -> Seq<u8> {
    seq![1u8] + spec_u32_to_le_bytes(m.claim_code.len() as u32) + m.claim_code
        + spec_u64_to_le_bytes(m.amount) + m.claimer + seq![if m.verified { 1u8 } else { 0u8 }]
}

impl EscrowVerificationResponse {
    /// Encodes this response.  The code length must fit its 4-byte prefix.
    pub fn encode(&self) -> (r: Vec<u8>)
        requires
            self.claim_code@.len() <= u32::MAX,
        ensures
            r@ == spec_encode_escrow_verification_response(self@),
            r@.len() == 46 + self.claim_code@.len(),
    {
        let mut out: Vec<u8> = Vec::new();
        out.push(1u8);
        let len_bytes = u32_to_le_bytes(self.claim_code.len() as u32);
        push_bytes(&mut out, len_bytes.as_slice());
        push_bytes(&mut out, self.claim_code.as_slice());
        let amount_bytes = u64_to_le_bytes(self.amount);
        push_bytes(&mut out, amount_bytes.as_slice());
        push_bytes(&mut out, self.claimer.as_slice());
        out.push(if self.verified { 1u8 } else { 0u8 });
        proof {
            lemma_auto_spec_u32_to_from_le_bytes();
            lemma_auto_spec_u64_to_from_le_bytes();
            assert(out@ =~= spec_encode_escrow_verification_response(self@));
        }
        out
    }
}

// ---------------------------------------------------------------------------
// Claim notification (outbound, structured)
// ---------------------------------------------------------------------------

/// The message that propagates a claim to the destination chain.
#[derive(Clone, Debug)]
pub struct ClaimNotificationMessage {
    pub claim_code: Vec<u8>,
    pub amount: u64,
    pub token_type: TokenType,
    pub recipient: [u8; 32],
    pub expiry: i64,
}

/// The ghost image of a `ClaimNotificationMessage`.
pub struct ClaimNotificationModel {
    pub claim_code: Seq<u8>,
    pub amount: u64,
    pub token_type: TokenType,
    pub recipient: Seq<u8>,
    pub expiry: i64,
}

impl View for ClaimNotificationMessage {
    type V = ClaimNotificationModel;

    open spec fn view(&self) -> ClaimNotificationModel {
        ClaimNotificationModel {
            claim_code: self.claim_code@,
            amount: self.amount,
            token_type: self.token_type,
            recipient: self.recipient@,
            expiry: self.expiry,
        }
    }
}

/// A well-formed claim notification: the code fits the code length bound
/// and the recipient has its wire width.
pub open spec fn claim_notification_wf(m: ClaimNotificationModel) -> bool {
    m.claim_code.len() <= MAX_CLAIM_CODE_LEN && m.recipient.len() == 32
}

/// The one-byte tag of a token type.
pub open spec fn spec_token_type_tag(t: TokenType) -> u8 {
    match t {
        TokenType::Native => 0u8,
        TokenType::USDC => 1u8,
        TokenType::USDT => 2u8,
    }
}

/// The token type of a one-byte tag, if the tag is known.
pub open spec fn spec_token_type_from_tag(tag: u8) -> Option<TokenType> {
    if tag == 0 {
        Some(TokenType::Native)
    } else if tag == 1 {
        Some(TokenType::USDC)
    } else if tag == 2 {
        Some(TokenType::USDT)
    } else {
        None
    }
}

/// The one-byte tag of a token type, executable form.
pub fn token_type_tag(t: TokenType) -> (r: u8)
    ensures
        r == spec_token_type_tag(t),
{
    match t {
        TokenType::Native => 0,
        TokenType::USDC => 1,
        TokenType::USDT => 2,
    }
}

/// The structured encoding of a claim notification, fields in order:
/// claim code (length-prefixed), amount, token tag, recipient, expiry.
pub open spec fn spec_encode_claim_notification(m: ClaimNotificationModel) -> Seq<u8> {
    spec_u32_to_le_bytes(m.claim_code.len() as u32) + m.claim_code + spec_u64_to_le_bytes(m.amount)
        + seq![spec_token_type_tag(m.token_type)] + m.recipient + spec_i64_to_le_bytes(m.expiry)
}

/// Whether a byte run decodes as a claim notification: it declares a code
/// that it holds, has the 49 fixed bytes after the code, and carries a
/// known token tag.  Bytes past the expiry field are ignored.
pub open spec fn spec_claim_notification_ok(b: Seq<u8>) -> bool {
    &&& b.len() >= 4
    &&& {
        let n = spec_u32_from_le_bytes(b.subrange(0, 4)) as int;
        &&& b.len() - 4 >= n
        &&& b.len() - 4 - n >= 49
        &&& spec_token_type_from_tag(b[12 + n]) is Some
    }
}

/// The claim notification a suitable byte run decodes to.
pub open spec fn spec_parse_claim_notification(b: Seq<u8>) -> ClaimNotificationModel
    recommends
        spec_claim_notification_ok(b),
{
    let n = spec_u32_from_le_bytes(b.subrange(0, 4)) as int;
    ClaimNotificationModel {
        claim_code: b.subrange(4, 4 + n),
        amount: spec_u64_from_le_bytes(b.subrange(4 + n, 12 + n)),
        token_type: spec_token_type_from_tag(b[12 + n]).unwrap(),
        recipient: b.subrange(13 + n, 45 + n),
        expiry: spec_i64_from_le_bytes(b.subrange(45 + n, 53 + n)),
    }
}

impl ClaimNotificationMessage {
    /// Encodes this notification.  The code length must fit its 4-byte
    /// prefix.
    pub fn encode(&self) -> (r: Vec<u8>)
        requires
            self.claim_code@.len() <= u32::MAX,
        ensures
            r@ == spec_encode_claim_notification(self@),
            r@.len() == 53 + self.claim_code@.len(),
    {
        let mut out: Vec<u8> = Vec::new();
        let len_bytes = u32_to_le_bytes(self.claim_code.len() as u32);
        push_bytes(&mut out, len_bytes.as_slice());
        push_bytes(&mut out, self.claim_code.as_slice());
        let amount_bytes = u64_to_le_bytes(self.amount);
        push_bytes(&mut out, amount_bytes.as_slice());
        out.push(token_type_tag(self.token_type));
        push_bytes(&mut out, self.recipient.as_slice());
        let expiry_bytes = i64_to_le_bytes(self.expiry);
        push_bytes(&mut out, expiry_bytes.as_slice());
        proof {
            lemma_auto_spec_u32_to_from_le_bytes();
            lemma_auto_spec_u64_to_from_le_bytes();
            assert(out@ =~= spec_encode_claim_notification(self@));
        }
        out
    }

    /// Decodes a claim notification; any malformed input is
    /// `InvalidMessage`.
    pub fn decode(data: &[u8]) -> (r: Result<ClaimNotificationMessage, EscrowError>)
        ensures
            spec_claim_notification_ok(data@) ==> (r matches Ok(m) && m@
                == spec_parse_claim_notification(data@)),
            !spec_claim_notification_ok(data@) ==> (r matches Err(e) && e
                == EscrowError::InvalidMessage),
    {
        if data.len() < 4 {
            return Err(EscrowError::InvalidMessage);
        }
        let len_slice = slice_subrange(data, 0, 4);
        let n32 = u32_from_le_bytes(len_slice);
        let n = n32 as usize;
        if data.len() - 4 < n {
            return Err(EscrowError::InvalidMessage);
        }
        if data.len() - 4 - n < 49 {
            return Err(EscrowError::InvalidMessage);
        }
        let claim_code = slice_to_vec(slice_subrange(data, 4, 4 + n));
        let amount = u64_from_le_bytes(slice_subrange(data, 4 + n, 12 + n));
        let tag = data[12 + n];
        let token_type = if tag == 0 {
            TokenType::Native
        } else if tag == 1 {
            TokenType::USDC
        } else if tag == 2 {
            TokenType::USDT
        } else {
            return Err(EscrowError::InvalidMessage);
        };
        let recipient = crate::byteops::read_arr32(data, 13 + n);
        let expiry = i64_from_le_bytes(slice_subrange(data, 45 + n, 53 + n));
        Ok(ClaimNotificationMessage { claim_code, amount, token_type, recipient, expiry })
    }
}

/// Encoding then decoding a well-formed claim notification gives it back.
pub proof fn lemma_claim_notification_round_trip(m: ClaimNotificationModel)
    requires
        claim_notification_wf(m),
    ensures
        spec_encode_claim_notification(m).len() == 53 + m.claim_code.len(),
        spec_claim_notification_ok(spec_encode_claim_notification(m)),
        spec_parse_claim_notification(spec_encode_claim_notification(m)) == m,
{
    lemma_auto_spec_u32_to_from_le_bytes();
    lemma_auto_spec_u64_to_from_le_bytes();
    lemma_i64_le_bytes_round_trip();
    let b = spec_encode_claim_notification(m);
    let n = m.claim_code.len() as int;
    assert(b.subrange(0, 4) =~= spec_u32_to_le_bytes(m.claim_code.len() as u32));
    assert(spec_u32_from_le_bytes(b.subrange(0, 4)) == m.claim_code.len() as u32);
    assert(b.subrange(4, 4 + n) =~= m.claim_code);
    assert(b.subrange(4 + n, 12 + n) =~= spec_u64_to_le_bytes(m.amount));
    assert(b[12 + n] == spec_token_type_tag(m.token_type));
    assert(b.subrange(13 + n, 45 + n) =~= m.recipient);
    assert(b.subrange(45 + n, 53 + n) =~= spec_i64_to_le_bytes(m.expiry));
}

} // verus!
