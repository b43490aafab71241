//! The bootstrap controller: the one-time creation of the administrator
//! account, open only while the store holds no user.
//!
//! The store is asked by the caller. Setup runs in three steps: the caller
//! counts the users, `prepare_setup` decides and hashes, the caller inserts
//! what it prepared, and `conclude_setup` reports. No session is issued: the
//! operator logs in afterwards.

use vstd::prelude::*;
use crate::error::AuthError;
use crate::hasher::{
    artifact_cost,
    hashing_outcome,
    password_matches,
    PasswordHasher,
    ARTIFACT_LEN,
    MAX_COST,
    MIN_COST,
};
use crate::identity::AdministratorId;
use crate::store::{StoreError, UserRow, UserTable};

verus! {

/// Whether the administrator account still has to be created.
#[derive(Clone, Copy, Debug, PartialEq, Eq, Structural)]
pub struct SetupStatus {
    pub required: bool,
}

/// The account to insert: the username as given and the hash of the password.
#[derive(Debug, PartialEq, Eq)]
pub struct NewAdministrator {
    pub username: String,
    pub password_hash: String,
}

/// Who an administrator is, without the secret part of the account.
#[derive(Debug, PartialEq, Eq)]
pub struct Identity {
    pub id: AdministratorId,
    pub username: String,
}

/// Whether setup may go on when the store holds `count` users.
pub open spec fn gate_on_count(count: nat) -> Result<(), AuthError> {
    if count > 0 {
        Err(AuthError::AlreadyInitialized)
    } else {
        Ok(())
    }
}

/// Whether setup may go on after the store's answer to the count.
pub open spec fn gate_on_reply(count: Result<u64, StoreError>) -> Result<(), AuthError> {
    match count {
        Ok(n) => gate_on_count(n as nat),
        Err(_) => Err(AuthError::StoreUnavailable),
    }
}

/// What setup prepares from the store's count and the outcome of hashing:
/// nothing once a user exists or the store failed, whatever the hasher did;
/// else the account to insert, or `HashingFailed`.
pub open spec fn prepared(
    count: Result<u64, StoreError>,
    username: Seq<char>,
    hashed: Option<Seq<char>>,
) -> Result<(Seq<char>, Seq<char>), AuthError> {
    match gate_on_reply(count) {
        Err(e) => Err(e),
        Ok(_) => match hashed {
            Some(h) => Ok((username, h)),
            None => Err(AuthError::HashingFailed),
        },
    }
}

/// What setup reports after the store's answer to the insertion.
pub open spec fn concluded(inserted: Result<Seq<u8>, StoreError>) -> Result<Seq<u8>, AuthError> {
    match inserted {
        Ok(id) => Ok(id),
        Err(StoreError::Conflict) => Err(AuthError::Conflict),
        Err(StoreError::Unavailable) => Err(AuthError::StoreUnavailable),
    }
}

/// The store's answer to an insertion as the contracts see it.
pub open spec fn insertion_reply(inserted: Result<AdministratorId, StoreError>) -> Result<
    Seq<u8>,
    StoreError,
> {
    match inserted {
        Ok(id) => Ok(id.bytes@),
        Err(e) => Err(e),
    }
}

/// Reports whether setup is still required: exactly while the store holds no
/// user. It reads and changes nothing else.
pub fn check_setup_status(count: Result<u64, StoreError>) -> (status: Result<
    SetupStatus,
    AuthError,
>)
    ensures
        match count {
            Ok(n) => status == Ok::<SetupStatus, AuthError>(SetupStatus { required: n == 0 }),
            Err(_) => status == Err::<SetupStatus, AuthError>(AuthError::StoreUnavailable),
        },
{
    match count {
        Ok(n) => Ok(SetupStatus { required: n == 0 }),
        Err(_) => Err(AuthError::StoreUnavailable),
    }
}

/// Decides whether setup may go on: `AlreadyInitialized` once any user
/// exists, `StoreUnavailable` where the count could not be had.
pub fn setup_gate(count: Result<u64, StoreError>) -> (gate: Result<(), AuthError>)
    ensures
        gate == gate_on_reply(count),
{
    match count {
        Ok(n) => if n > 0 {
            Err(AuthError::AlreadyInitialized)
        } else {
            Ok(())
        },
        Err(_) => Err(AuthError::StoreUnavailable),
    }
}

/// Makes the account to insert of the store's count and an outcome of
/// hashing the password.
pub fn prepare_with(count: Result<u64, StoreError>, username: &str, hashed: Option<String>) -> (new:
    Result<NewAdministrator, AuthError>)
    ensures
        match new {
            Ok(n) => hashed matches Some(h) && prepared(count, username@, Some(h@)) == Ok::<
                (Seq<char>, Seq<char>),
                AuthError,
            >((n.username@, n.password_hash@)),
            Err(e) => prepared(
                count,
                username@,
                match hashed {
                    Some(h) => Some(h@),
                    None => None,
                },
            ) == Err::<(Seq<char>, Seq<char>), AuthError>(e),
        },
{
    match setup_gate(count) {
        Err(e) => Err(e),
        Ok(_) => match hashing_outcome(hashed) {
            Ok(password_hash) => Ok(
                NewAdministrator { username: String::from_str(username), password_hash },
            ),
            Err(e) => Err(e),
        },
    }
}

/// First step of setup, after the caller counted the users. Once any user
/// exists it fails with `AlreadyInitialized` and the password is not even
/// hashed. Else it hashes the password with `hasher`, at its work factor and
/// at no other, and hands the outcome to `prepare_with`: the account to
/// insert, under the username as given, with a hash that checks against the
/// password and carries the hasher's work factor. A work factor outside 4
/// to 31 always fails; the only failure of an open gate is `HashingFailed`.
pub fn prepare_setup(
    count: Result<u64, StoreError>,
    hasher: &PasswordHasher,
    username: &str,
    password: &str,
) -> (new: Result<NewAdministrator, AuthError>)
    ensures
        gate_on_reply(count) is Ok && !(MIN_COST <= hasher.cost <= MAX_COST) ==> new is Err,
        match new {
            Ok(n) => prepared(count, username@, Some(n.password_hash@)) == Ok::<
                (Seq<char>, Seq<char>),
                AuthError,
            >((n.username@, n.password_hash@)) && password_matches(password@, n.password_hash@)
                && n.password_hash@.len() == ARTIFACT_LEN && artifact_cost(n.password_hash@)
                == hasher.cost,
            Err(e) => match gate_on_reply(count) {
                Err(refusal) => e == refusal,
                Ok(_) => e == AuthError::HashingFailed,
            },
        },
{
    match setup_gate(count) {
        Err(e) => Err(e),
        Ok(_) => {
            let hashed = match hasher.hash(password) {
                Ok(password_hash) => Some(password_hash),
                Err(_) => None,
            };
            prepare_with(count, username, hashed)
        },
    }
}

/// Last step of setup, after the caller inserted the account: the identity
/// of the new administrator, or the store's refusal.
pub fn conclude_setup(inserted: Result<AdministratorId, StoreError>, username: &str) -> (done:
    Result<Identity, AuthError>)
    ensures
        match done {
            Ok(who) => concluded(insertion_reply(inserted)) == Ok::<Seq<u8>, AuthError>(
                who.id.bytes@,
            ) && who.username@ == username@,
            Err(e) => concluded(insertion_reply(inserted)) == Err::<Seq<u8>, AuthError>(e),
        },
{
    match inserted {
        Ok(id) => Ok(Identity { id, username: String::from_str(username) }),
        Err(StoreError::Conflict) => Err(AuthError::Conflict),
        Err(StoreError::Unavailable) => Err(AuthError::StoreUnavailable),
    }
}

/// What one run of setup does to a store that answers: the table afterwards
/// and the report. The store counts its rows, the controller prepares, the
/// store inserts what was prepared and the controller concludes. `hashed` is
/// what hashing the password yields in this run and `fresh_id` the
/// identifier that the store assigns on insertion.
pub open spec fn setup_run(
    table: UserTable,
    username: Seq<char>,
    hashed: Option<Seq<char>>,
    fresh_id: Seq<u8>,
) -> (UserTable, Result<UserRow, AuthError>) {
    match prepared(Ok(table.count() as u64), username, hashed) {
        Err(e) => (table, Err(e)),
        Ok((name, hash)) => {
            let row = UserRow { id: fresh_id, username: name, password_hash: hash };
            let (after, reply) = match table.insert(row) {
                Ok(grown) => (grown, Ok::<Seq<u8>, StoreError>(fresh_id)),
                Err(e) => (table, Err::<Seq<u8>, StoreError>(e)),
            };
            match concluded(reply) {
                Ok(_) => (after, Ok(row)),
                Err(e) => (after, Err(e)),
            }
        },
    }
}

/// On a store without users, setup succeeds whenever hashing does, and
/// leaves exactly the new account behind. Every run after that, with any
/// username and password, fails with `AlreadyInitialized` and leaves the
/// store as it is.
pub proof fn lemma_setup_succeeds_once(
    table: UserTable,
    username: Seq<char>,
    password_hash: Seq<char>,
    fresh_id: Seq<u8>,
    later_username: Seq<char>,
    later_hashed: Option<Seq<char>>,
    later_id: Seq<u8>,
)
    requires
        table.count() == 0,
    ensures
        ({
            let (after, first) = setup_run(table, username, Some(password_hash), fresh_id);
            let row = UserRow { id: fresh_id, username: username, password_hash: password_hash };
            &&& first == Ok::<UserRow, AuthError>(row)
            &&& after.count() == 1
            &&& after.well_formed()
            &&& after.rows[0] == row
            &&& setup_run(after, later_username, later_hashed, later_id) == (
                after,
                Err::<UserRow, AuthError>(AuthError::AlreadyInitialized),
            )
        }),
{
    assert(!table.has_username(username));
}

/// Whenever the store holds a user, setup fails with `AlreadyInitialized`
/// and changes nothing.
pub proof fn lemma_setup_refused_once_initialized(
    table: UserTable,
    username: Seq<char>,
    hashed: Option<Seq<char>>,
    fresh_id: Seq<u8>,
)
    requires
        0 < table.count() <= u64::MAX,
    ensures
        setup_run(table, username, hashed, fresh_id) == (
            table,
            Err::<UserRow, AuthError>(AuthError::AlreadyInitialized),
        ),
{
}

} // verus!
