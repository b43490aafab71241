//! What the credential store holds and answers.
//!
//! The store itself is a durable service outside this library. Its answers
//! reach the library as plain values; `UserTable` states, for the contracts,
//! what a store that keeps its promises answers.

use vstd::prelude::*;
use crate::identity::AdministratorId;

verus! {

/// The one privileged account, as the store keeps it.
#[derive(Clone, Debug, PartialEq, Eq)]
pub struct Administrator {
    pub id: AdministratorId,
    pub username: String,
    /// What the password hasher made of the password; never the password.
    pub password_hash: String,
}

/// Why the store did not do what it was asked.
#[derive(Clone, Copy, Debug, PartialEq, Eq, Structural)]
pub enum StoreError {
    /// The username to insert is already taken.
    Conflict,
    /// The store could not be reached or failed.
    Unavailable,
}

/// A row of the users table as the contracts see it.
pub struct UserRow {
    pub id: Seq<u8>,
    pub username: Seq<char>,
    pub password_hash: Seq<char>,
}

impl View for Administrator {
    type V = UserRow;

    open spec fn view(&self) -> UserRow {
        UserRow { id: self.id.bytes@, username: self.username@, password_hash: self.password_hash@ }
    }
}

/// The users table as the contracts see it: its rows in the order in which
/// they were inserted.
pub struct UserTable {
    pub rows: Seq<UserRow>,
}

impl UserTable {
    /// The table without rows.
    pub open spec fn empty() -> UserTable {
        UserTable { rows: Seq::empty() }
    }

    /// Number of rows.
    pub open spec fn count(self) -> nat {
        self.rows.len()
    }

    /// Whether some row has the username `name`, compared exactly.
    pub open spec fn has_username(self, name: Seq<char>) -> bool {
        exists|i: int| 0 <= i < self.rows.len() && (#[trigger] self.rows[i]).username == name
    }

    /// Whether some row has the identifier `id`.
    pub open spec fn has_id(self, id: Seq<u8>) -> bool {
        exists|i: int| 0 <= i < self.rows.len() && (#[trigger] self.rows[i]).id == id
    }

    /// No two rows share a username or an identifier.
    pub open spec fn well_formed(self) -> bool {
        forall|i: int, j: int|
            0 <= i < j < self.rows.len() ==> (#[trigger] self.rows[i]).username != (
            #[trigger] self.rows[j]).username && self.rows[i].id != self.rows[j].id
    }

    /// The row with the username `name`, if there is one.
    pub open spec fn find_by_username(self, name: Seq<char>) -> Option<UserRow> {
        if self.has_username(name) {
            Some(
                self.rows[choose|i: int|
                    0 <= i < self.rows.len() && (#[trigger] self.rows[i]).username == name],
            )
        } else {
            None
        }
    }

    /// The row with the identifier `id`, if there is one.
    pub open spec fn find_by_id(self, id: Seq<u8>) -> Option<UserRow> {
        if self.has_id(id) {
            Some(
                self.rows[choose|i: int| 0 <= i < self.rows.len() && (#[trigger] self.rows[i]).id == id],
            )
        } else {
            None
        }
    }

    /// The table after an insertion of `row`, or `Conflict` where its
    /// username is taken.
    pub open spec fn insert(self, row: UserRow) -> Result<UserTable, StoreError> {
        if self.has_username(row.username) {
            Err(StoreError::Conflict)
        } else {
            Ok(UserTable { rows: self.rows.push(row) })
        }
    }
}

/// A well-formed table stays well formed under an insertion of a row with an
/// unused identifier, and the row inserted is found again under its username
/// and under its identifier.
pub proof fn lemma_insert_then_find(table: UserTable, row: UserRow)
    requires
        table.well_formed(),
        !table.has_id(row.id),
        !table.has_username(row.username),
    ensures
        table.insert(row) matches Ok(after) && after.well_formed() && after.count() == table.count()
            + 1 && after.find_by_username(row.username) == Some(row) && after.find_by_id(row.id)
            == Some(row),
{
    let after = UserTable { rows: table.rows.push(row) };
    let last = table.rows.len() as int;
    assert(after.rows[last] == row);
    assert forall|i: int, j: int| 0 <= i < j < after.rows.len() implies (
    #[trigger] after.rows[i]).username != (#[trigger] after.rows[j]).username && after.rows[i].id
        != after.rows[j].id by {
        assert(after.rows[i] == table.rows[i]);
        if j < last {
            assert(after.rows[j] == table.rows[j]);
        }
    }
    assert(after.has_username(row.username));
    assert(after.has_id(row.id));
    let by_name = choose|i: int|
        0 <= i < after.rows.len() && (#[trigger] after.rows[i]).username == row.username;
    if by_name < last {
        assert(table.rows[by_name] == after.rows[by_name]);
    }
    let by_id = choose|i: int| 0 <= i < after.rows.len() && (#[trigger] after.rows[i]).id == row.id;
    if by_id < last {
        assert(table.rows[by_id] == after.rows[by_id]);
    }
}

} // verus!
