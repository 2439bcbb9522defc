//! Identities and the errors.

use asset_vault::error::{TransferError, VaultError};
use asset_vault::identity::Identity;

#[test]
fn identity_keeps_its_bytes() {
    let mut bytes = [0u8; 32];
    for (i, byte) in bytes.iter_mut().enumerate() {
        *byte = i as u8;
    }
    let identity = Identity::new(bytes);
    assert_eq!(identity.to_bytes(), bytes);
}

#[test]
fn identities_are_equal_byte_for_byte() {
    let zero = Identity::new([0u8; 32]);
    assert_eq!(zero, Identity::new([0u8; 32]));
    for at in [0usize, 1, 15, 30, 31] {
        let mut bytes = [0u8; 32];
        bytes[at] = 1;
        assert_ne!(zero, Identity::new(bytes));
        assert_eq!(Identity::new(bytes), Identity::new(bytes));
    }
    assert_ne!(Identity::new([1u8; 32]), Identity::new([2u8; 32]));
}

#[test]
fn gateway_failures_map_to_vault_errors() {
    assert_eq!(
        VaultError::from_transfer(TransferError::InsufficientBalance),
        VaultError::InsufficientFunds
    );
    assert_eq!(VaultError::from_transfer(TransferError::Unauthorized), VaultError::Unauthorized);
    assert_eq!(VaultError::from_transfer(TransferError::Unavailable), VaultError::Unavailable);
}

#[test]
fn only_unavailable_is_retryable() {
    assert!(VaultError::Unavailable.is_retryable());
    for error in [
        VaultError::InvalidAmount,
        VaultError::InsufficientFunds,
        VaultError::NoSuchDepositor,
        VaultError::Unauthorized,
        VaultError::ArithmeticOverflow,
        VaultError::AlreadyInitialized,
    ] {
        assert!(!error.is_retryable());
    }
}
