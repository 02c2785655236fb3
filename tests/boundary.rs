use did_system::api::{ApiError, ApiResponse};
use did_system::ledger::{register_payload, BlockchainConfig};
use did_system::types::Error;

#[test]
fn api_error_codes_and_messages() {
    let e = ApiError::from(Error::NotFound("gone".to_string()));
    assert_eq!((e.message.as_str(), e.code), ("gone", 404));
    assert_eq!(ApiError::from(Error::InvalidInput("x".to_string())).code, 400);
    assert_eq!(ApiError::from(Error::Unauthorized("x".to_string())).code, 401);
    assert_eq!(ApiError::from(Error::InvalidState("x".to_string())).code, 409);
    let db = ApiError::from(Error::DatabaseError("locked".to_string()));
    assert_eq!((db.message.as_str(), db.code), ("Database error: locked", 500));
    let chain = ApiError::from(Error::BlockchainError("down".to_string()));
    assert_eq!(chain.message, "Blockchain error: down");
    let r: ApiResponse<u8> = ApiResponse::failure(Error::Unauthorized("no".to_string()));
    assert!(!r.success && r.data.is_none());
    assert_eq!(r.error.unwrap().code, 401);
    let ok = ApiResponse::ok(5u8);
    assert!(ok.success && ok.data == Some(5) && ok.error.is_none());
}

#[test]
fn ledger_urls_and_payload() {
    let config = BlockchainConfig::new("http://node");
    assert_eq!(config.status_url("did:example:a"), "http://node/did/did:example:a/status");
    assert_eq!(config.document_url("did:example:a"), "http://node/did/did:example:a");
    assert_eq!(config.endpoint_url("/did/register"), "http://node/did/register");
    assert_eq!(register_payload("ab", &[1, 2]), vec![b'a', b'b', 1, 2]);
}

#[test]
fn ledger_status_policy() {
    let open = BlockchainConfig::new("http://node");
    assert_eq!(open.read_status(true, Some(false)).unwrap(), false);
    assert_eq!(open.read_status(true, None).unwrap(), true);
    assert!(matches!(open.read_status(false, Some(true)), Err(Error::BlockchainError(_))));
    let mut strict = open.clone();
    strict.fail_open_on_parse_error = false;
    assert!(matches!(strict.read_status(true, None), Err(Error::BlockchainError(_))));
}

#[test]
fn error_text_has_kind_heading() {
    assert_eq!(Error::NotFound("x".to_string()).to_string(), "Resource not found: x");
    assert_eq!(Error::InvalidState("gone".to_string()).to_string(), "Invalid state: gone");
    assert_eq!(Error::CryptoError("bad".to_string()).message(), "bad");
}
