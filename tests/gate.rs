use receiver::{authorize, MiddlewareError};

fn bytes(s: &[u8]) -> Option<Vec<u8>> {
    Some(s.to_vec())
}

#[test]
fn matching_credential_passes() {
    let secret = "s3cr3t".to_string();
    assert_eq!(authorize(&bytes(b"s3cr3t"), Some(&secret)), Ok(()));
}

#[test]
fn wrong_credential_is_unauthorized() {
    let secret = "s3cr3t".to_string();
    assert_eq!(authorize(&bytes(b"wrong"), Some(&secret)), Err(MiddlewareError::Unauthorized));
}

#[test]
fn shared_prefix_is_unauthorized() {
    let secret = "s3cr3t".to_string();
    assert_eq!(authorize(&bytes(b"s3cr3"), Some(&secret)), Err(MiddlewareError::Unauthorized));
    assert_eq!(authorize(&bytes(b"s3cr3tt"), Some(&secret)), Err(MiddlewareError::Unauthorized));
    assert_eq!(authorize(&bytes(b"s3cr3T"), Some(&secret)), Err(MiddlewareError::Unauthorized));
}

#[test]
fn empty_credential_against_secret_is_unauthorized() {
    let secret = "s3cr3t".to_string();
    assert_eq!(authorize(&bytes(b""), Some(&secret)), Err(MiddlewareError::Unauthorized));
}

#[test]
fn missing_credential_is_unauthorized() {
    let secret = "s3cr3t".to_string();
    assert_eq!(authorize(&None, Some(&secret)), Err(MiddlewareError::Unauthorized));
}

#[test]
fn missing_secret_is_a_configuration_fault() {
    assert_eq!(
        authorize(&bytes(b"s3cr3t"), None),
        Err(MiddlewareError::Configuration("Passkey not configured".to_string()))
    );
    assert_eq!(
        authorize(&None, None),
        Err(MiddlewareError::Configuration("Passkey not configured".to_string()))
    );
}

#[test]
fn non_ascii_credential_compares_by_bytes() {
    let secret = "päss".to_string();
    assert_eq!(authorize(&bytes("päss".as_bytes()), Some(&secret)), Ok(()));
    assert_eq!(authorize(&bytes(b"pass"), Some(&secret)), Err(MiddlewareError::Unauthorized));
    assert_eq!(authorize(&bytes(&[b'p', 0xe4, b's', b's']), Some(&secret)), Err(MiddlewareError::Unauthorized));
}
