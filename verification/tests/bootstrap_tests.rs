use admin_auth::bootstrap::{
    check_setup_status, conclude_setup, prepare_setup, prepare_with, setup_gate, Identity, NewAdministrator,
    SetupStatus,
};
use admin_auth::error::AuthError;
use admin_auth::hasher::{verify_password, PasswordHasher};
use admin_auth::identity::AdministratorId;
use admin_auth::store::StoreError;

fn sample_id() -> AdministratorId {
    AdministratorId::from_bytes([9; 16])
}

#[test]
fn setup_is_required_exactly_while_there_is_no_user() {
    assert_eq!(check_setup_status(Ok(0)), Ok(SetupStatus { required: true }));
    assert_eq!(check_setup_status(Ok(1)), Ok(SetupStatus { required: false }));
    assert_eq!(check_setup_status(Ok(u64::MAX)), Ok(SetupStatus { required: false }));
    assert_eq!(check_setup_status(Err(StoreError::Unavailable)), Err(AuthError::StoreUnavailable));
}

#[test]
fn the_gate_is_open_exactly_while_there_is_no_user() {
    assert_eq!(setup_gate(Ok(0)), Ok(()));
    assert_eq!(setup_gate(Ok(1)), Err(AuthError::AlreadyInitialized));
    assert_eq!(setup_gate(Ok(2)), Err(AuthError::AlreadyInitialized));
    assert_eq!(setup_gate(Err(StoreError::Unavailable)), Err(AuthError::StoreUnavailable));
}

#[test]
fn setup_prepares_the_account_with_a_hash() {
    let hasher = PasswordHasher::with_cost(4);
    let new = prepare_setup(Ok(0), &hasher, "jake", "s3cret").unwrap();
    assert_eq!(new.username, "jake");
    assert_ne!(new.password_hash, "s3cret");
    assert!(verify_password("s3cret", &new.password_hash));
    assert!(!verify_password("wrong", &new.password_hash));
}

#[test]
fn setup_is_refused_once_a_user_exists() {
    let hasher = PasswordHasher::with_cost(4);
    assert_eq!(prepare_setup(Ok(1), &hasher, "jake", "s3cret"), Err(AuthError::AlreadyInitialized));
    assert_eq!(prepare_setup(Ok(7), &hasher, "other", ""), Err(AuthError::AlreadyInitialized));
    assert_eq!(
        prepare_setup(Ok(1), &PasswordHasher::with_cost(99), "jake", "s3cret"),
        Err(AuthError::AlreadyInitialized)
    );
}

#[test]
fn setup_reports_a_store_or_hasher_failure() {
    let hasher = PasswordHasher::with_cost(4);
    assert_eq!(
        prepare_setup(Err(StoreError::Unavailable), &hasher, "jake", "s3cret"),
        Err(AuthError::StoreUnavailable)
    );
    assert_eq!(
        prepare_setup(Ok(0), &PasswordHasher::with_cost(99), "jake", "s3cret"),
        Err(AuthError::HashingFailed)
    );
}

#[test]
fn preparing_with_an_outcome_of_hashing() {
    assert_eq!(
        prepare_with(Ok(0), "jake", Some("hash".to_string())),
        Ok(NewAdministrator { username: "jake".to_string(), password_hash: "hash".to_string() })
    );
    assert_eq!(prepare_with(Ok(0), "jake", None), Err(AuthError::HashingFailed));
    assert_eq!(prepare_with(Ok(3), "jake", Some("hash".to_string())), Err(AuthError::AlreadyInitialized));
    assert_eq!(prepare_with(Ok(3), "jake", None), Err(AuthError::AlreadyInitialized));
    assert_eq!(
        prepare_with(Err(StoreError::Unavailable), "jake", Some("hash".to_string())),
        Err(AuthError::StoreUnavailable)
    );
}

#[test]
fn setup_concludes_with_the_new_identity_or_the_refusal() {
    assert_eq!(
        conclude_setup(Ok(sample_id()), "jake"),
        Ok(Identity { id: sample_id(), username: "jake".to_string() })
    );
    assert_eq!(conclude_setup(Err(StoreError::Conflict), "jake"), Err(AuthError::Conflict));
    assert_eq!(conclude_setup(Err(StoreError::Unavailable), "jake"), Err(AuthError::StoreUnavailable));
}
