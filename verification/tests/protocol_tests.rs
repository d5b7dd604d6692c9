use escrow_bridge::coordinator::{
    initiate_claim, verify_escrow, InitiateClaimParams, VerifyEscrowParams,
};
use escrow_bridge::errors::EscrowError;
use escrow_bridge::ledger::{CreateEscrowParams, EscrowLedger};
use escrow_bridge::protocol::{
    handle_ethereum_verification_request, lz_receive, HandleEthereumMessage,
    HandleEthereumMessageParams, ReceiveAction,
};
use escrow_bridge::state::{init_store, ClaimStatus, InitStoreParams, TokenType};

const T: i64 = 1_700_000_000;
const DAY: i64 = 86_400;

fn ledger_with(code: &[u8], amount: u64) -> EscrowLedger {
    let mut ledger = EscrowLedger::new();
    let params = CreateEscrowParams {
        amount,
        claim_code: code.to_vec(),
        expiry_days: 1,
    };
    ledger.create_escrow([0xD0; 32], &params, T, 0).unwrap();
    ledger
}

fn claim_params(code: &[u8]) -> InitiateClaimParams {
    InitiateClaimParams {
        claim_code: code.to_vec(),
        dst_eid: 10161,
        token_type: TokenType::Native,
        recipient: [0xAA; 32],
    }
}

fn request_message() -> Vec<u8> {
    let mut buf = vec![0u8];
    buf.extend_from_slice(&[0x11u8; 32]);
    buf.extend_from_slice(&[0x22u8; 20]);
    buf.extend_from_slice(&[0u8; 24]);
    buf.extend_from_slice(&[0x00, 0x00, 0x00, 0x00, 0x00, 0x00, 0x03, 0xE8]);
    buf
}

#[test]
fn initiate_claim_on_a_fresh_escrow_is_pending() {
    let ledger = ledger_with(b"ABC123", 1000);
    let out = initiate_claim(&ledger, &claim_params(b"ABC123"), T + 5, [0xEC; 32], 3).unwrap();
    assert!(matches!(out.request.status, ClaimStatus::Pending));
    assert_eq!(out.request.claim_code, b"ABC123".to_vec());
    assert_eq!(out.request.dst_eid, 10161);
    assert_eq!(out.request.escrow_key, [0xEC; 32]);
    assert_eq!(out.request.created_at, T + 5);
    assert_eq!(out.notification.amount, 1000);
    assert_eq!(out.notification.expiry, T + DAY);
    assert_eq!(out.message, out.notification.encode());
    assert_eq!(out.event.claim_code, b"ABC123".to_vec());
    assert_eq!(out.event.dst_eid, 10161);
    assert_eq!(out.event.amount, 1000);
}

#[test]
fn initiate_claim_fails_on_a_claimed_escrow() {
    let mut ledger = ledger_with(b"ABC123", 1000);
    ledger.claim(b"ABC123", T + 1).unwrap();
    assert_eq!(
        initiate_claim(&ledger, &claim_params(b"ABC123"), T + 2, [0; 32], 0).unwrap_err(),
        EscrowError::AlreadyClaimed
    );
}

#[test]
fn initiate_claim_fails_past_expiry() {
    let ledger = ledger_with(b"ABC123", 1000);
    assert_eq!(
        initiate_claim(&ledger, &claim_params(b"ABC123"), T + DAY + 1, [0; 32], 0).unwrap_err(),
        EscrowError::EscrowExpired
    );
}

#[test]
fn initiate_claim_fails_on_an_unknown_code() {
    let ledger = ledger_with(b"ABC123", 1000);
    assert_eq!(
        initiate_claim(&ledger, &claim_params(b"WRONG"), T, [0; 32], 0).unwrap_err(),
        EscrowError::InvalidClaimCode
    );
}

fn verify_params(code: &[u8]) -> VerifyEscrowParams {
    VerifyEscrowParams {
        claim_code: code.to_vec(),
        requesting_claimer: [0xCA; 32],
        dst_eid: 10161,
        options: Vec::new(),
    }
}

#[test]
fn verify_escrow_answers_verified() {
    let ledger = ledger_with(b"ABC123", 1000);
    let out = verify_escrow(&ledger, &verify_params(b"ABC123"), T + 10).unwrap();
    assert_eq!(out.response.claim_code, b"ABC123".to_vec());
    assert_eq!(out.response.amount, 1000);
    assert_eq!(out.response.claimer, [0xCA; 32]);
    assert!(out.response.verified);
    assert_eq!(out.message, out.response.encode());
    assert_eq!(out.message[0], 1);
    assert_eq!(*out.message.last().unwrap(), 1);
    assert!(out.event.verified);
    assert_eq!(out.event.dst_eid, 10161);
}

#[test]
fn verify_escrow_fails_on_claimed_or_expired() {
    let mut ledger = ledger_with(b"ABC123", 1000);
    assert_eq!(
        verify_escrow(&ledger, &verify_params(b"ABC123"), T + DAY + 1).unwrap_err(),
        EscrowError::EscrowExpired
    );
    // the boundary itself still verifies
    assert!(verify_escrow(&ledger, &verify_params(b"ABC123"), T + DAY).is_ok());
    ledger.claim(b"ABC123", T).unwrap();
    assert_eq!(
        verify_escrow(&ledger, &verify_params(b"ABC123"), T).unwrap_err(),
        EscrowError::AlreadyClaimed
    );
}

#[test]
fn wrong_source_chain_is_rejected_without_a_response() {
    let params = HandleEthereumMessageParams {
        src_eid: 9999,
        message: request_message(),
        executor: [0; 32],
        extra_data: Vec::new(),
    };
    assert_eq!(
        HandleEthereumMessage::apply(&params).unwrap_err(),
        EscrowError::InvalidSourceChain
    );
}

#[test]
fn a_good_request_is_answered() {
    let params = HandleEthereumMessageParams {
        src_eid: 10161,
        message: request_message(),
        executor: [0; 32],
        extra_data: Vec::new(),
    };
    let reply = HandleEthereumMessage::apply(&params).unwrap().unwrap();
    assert_eq!(reply.response.len(), 34);
    assert_eq!(reply.response[0], 1);
    assert_eq!(&reply.response[1..33], &[0x11; 32]);
    assert_eq!(reply.response[33], 0x01);
    assert_eq!(reply.dst_eid, 10161);
    assert_eq!(reply.receiver, [0x22; 20]);
    assert_eq!(reply.event.request_id, [0x11; 32]);
    assert_eq!(reply.event.eth_sender, [0x22; 20]);
    assert_eq!(reply.event.amount, 1000);
    assert!(reply.event.verified);
    assert_eq!(reply.event.response_length, 34);
}

#[test]
fn an_unknown_type_byte_is_ignored() {
    let mut message = request_message();
    message[0] = 7;
    let params = HandleEthereumMessageParams {
        src_eid: 10161,
        message,
        executor: [0; 32],
        extra_data: Vec::new(),
    };
    assert!(HandleEthereumMessage::apply(&params).unwrap().is_none());
}

#[test]
fn a_short_message_is_invalid() {
    let params = HandleEthereumMessageParams {
        src_eid: 10161,
        message: vec![0u8; 84],
        executor: [0; 32],
        extra_data: Vec::new(),
    };
    assert_eq!(
        HandleEthereumMessage::apply(&params).unwrap_err(),
        EscrowError::InvalidMessage
    );
}

#[test]
fn handle_request_directly() {
    let reply = handle_ethereum_verification_request(&request_message()).unwrap();
    assert_eq!(reply.response.len(), 34);
    assert_eq!(reply.event.amount, 1000);
    assert_eq!(
        handle_ethereum_verification_request(&[0u8; 84]).unwrap_err(),
        EscrowError::InvalidMessage
    );
}

#[test]
fn lz_receive_dispatches_by_chain_and_type() {
    let good = request_message();
    match lz_receive(10161, &good).unwrap() {
        ReceiveAction::Respond(reply) => {
            assert_eq!(reply.response.len(), 34);
            assert_eq!(reply.dst_eid, 10161);
        }
        _ => panic!("expected a response"),
    }

    let mut other_type = request_message();
    other_type[0] = 9;
    assert!(matches!(
        lz_receive(10161, &other_type).unwrap(),
        ReceiveAction::Ignored
    ));

    assert!(matches!(
        lz_receive(40000, &good).unwrap(),
        ReceiveAction::Fallthrough
    ));
    assert!(matches!(
        lz_receive(10161, &[]).unwrap(),
        ReceiveAction::Fallthrough
    ));

    let short = vec![0u8; 10];
    assert_eq!(
        lz_receive(10161, &short).unwrap_err(),
        EscrowError::InvalidMessage
    );
}

#[test]
fn claim_request_status_walks_its_lifecycle() {
    let ledger = ledger_with(b"ABC123", 1000);
    let mut out = initiate_claim(&ledger, &claim_params(b"ABC123"), T, [0; 32], 0).unwrap();
    out.request.mark_processing();
    assert!(matches!(out.request.status, ClaimStatus::Processing));
    out.request.mark_completed();
    assert!(matches!(out.request.status, ClaimStatus::Completed));

    let mut failed = initiate_claim(&ledger, &claim_params(b"ABC123"), T, [0; 32], 0).unwrap();
    failed.request.mark_failed();
    assert!(matches!(failed.request.status, ClaimStatus::Failed));
}

#[test]
fn init_store_fills_the_store() {
    let store = init_store(
        &InitStoreParams {
            admin: [1; 32],
            endpoint: [2; 32],
        },
        5,
    );
    assert_eq!(store.admin, [1; 32]);
    assert_eq!(store.endpoint_program, [2; 32]);
    assert_eq!(store.bump, 5);
    assert_eq!(store.string, "Nothing received yet.");
}
