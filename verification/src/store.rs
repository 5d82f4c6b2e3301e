//! The credential store: the users table and the two operations the
//! handlers need, creating a user and finding one by credentials.
//!
//! The table is modelled as the sequence of its rows in the order in which
//! they were inserted. Identifiers are assigned in increasing order, starting
//! at one, and a row is never changed or removed.

use crate::model::{copy_user, found_view, user_views, PersistenceError, User, UserView};
use vstd::prelude::*;

verus! {

/// Whether `row` carries exactly these credentials.
pub open spec fn row_matches(row: UserView, username: Seq<char>, password_hash: Seq<char>) -> bool {
    row.username == username && row.password_hash == password_hash
}

/// The rows of `rows` that carry these credentials, in table order.
pub open spec fn matching(
    rows: Seq<UserView>,
    username: Seq<char>,
    password_hash: Seq<char>,
) -> Seq<UserView> {
    rows.filter(|row: UserView| row_matches(row, username, password_hash))
}

/// The only row of `found`, if it holds exactly one.
pub open spec fn unique(found: Seq<UserView>) -> Option<UserView> {
    if found.len() == 1 {
        Some(found[0])
    } else {
        None
    }
}

/// The row found for these credentials: the matching row if exactly one
/// row matches, otherwise none.
pub open spec fn lookup(
    rows: Seq<UserView>,
    username: Seq<char>,
    password_hash: Seq<char>,
) -> Option<UserView> {
    unique(matching(rows, username, password_hash))
}

/// A table as this module keeps it: identifiers are positive, fit the
/// identifier type and grow strictly from each row to the next.
pub open spec fn valid_table(rows: Seq<UserView>) -> bool {
    &&& forall|i: int| 0 <= i < rows.len() ==> 1 <= (#[trigger] rows[i]).id <= i64::MAX
    &&& forall|i: int, j: int|
        0 <= i < j < rows.len() ==> (#[trigger] rows[i]).id < (#[trigger] rows[j]).id
}

/// The identifier that the next inserted row receives.
pub open spec fn next_id(rows: Seq<UserView>) -> int {
    if rows.len() == 0 {
        1
    } else {
        rows.last().id + 1
    }
}

/// Whether the table can still assign an identifier.
pub open spec fn can_insert(rows: Seq<UserView>) -> bool {
    next_id(rows) <= i64::MAX
}

/// The table after a row with these credentials was inserted.
pub open spec fn inserted(
    rows: Seq<UserView>,
    username: Seq<char>,
    password_hash: Seq<char>,
) -> Seq<UserView> {
    rows.push(UserView { id: next_id(rows), username, password_hash })
}

/// The detail of the error that an insert into a full table gives.
pub open spec fn identifiers_exhausted() -> Seq<char> {
    "user identifiers are exhausted"@
}

/// The users table.
pub struct CredentialStore {
    rows: Vec<User>,
}

impl View for CredentialStore {
    type V = Seq<UserView>;

    closed spec fn view(&self) -> Seq<UserView> {
        user_views(self.rows@)
    }
}

/// Returns the only row of `found`, if it holds exactly one.
pub fn single_match(found: Vec<User>) -> (user: Option<User>)
    ensures
        found_view(user) == unique(user_views(found@)),
{
    let mut found = found;
    if found.len() == 1 {
        found.pop()
    } else {
        None
    }
}

impl CredentialStore {
    #[verifier::type_invariant]
    spec fn well_formed(self) -> bool {
        valid_table(self@)
    }

    /// Opens an empty table.
    pub fn new() -> (store: CredentialStore)
        ensures
            store@ == Seq::<UserView>::empty(),
    {
        CredentialStore { rows: Vec::new() }
    }

    /// Adopts `rows` as the table, if they can be one: see `valid_table`.
    pub fn from_rows(rows: Vec<User>) -> (store: Option<CredentialStore>)
        ensures
            match store {
                Some(store) => valid_table(user_views(rows@)) && store@ == user_views(rows@),
                None => !valid_table(user_views(rows@)),
            },
    {
        let mut i: usize = 0;
        while i < rows.len()
            invariant
                i <= rows.len(),
                valid_table(user_views(rows@).take(i as int)),
            decreases rows.len() - i,
        {
            let id = rows[i].id;
            let ghost all = user_views(rows@);
            if id < 1 {
                assert(all[i as int].id < 1);
                return None;
            }
            if i > 0 && rows[i - 1].id >= id {
                assert(all[i as int - 1].id >= all[i as int].id);
                return None;
            }
            proof {
                let before = all.take(i as int);
                let after = all.take(i as int + 1);
                assert forall|a: int, b: int| 0 <= a < b < after.len() implies (#[trigger] after[a]).id
                    < (#[trigger] after[b]).id by {
                    if b < i {
                        assert(before[a].id < before[b].id);
                    } else if a < i - 1 {
                        assert(before[a].id < before[i as int - 1].id);
                    }
                }
                assert forall|a: int| 0 <= a < after.len() implies 1 <= (#[trigger] after[a]).id
                    <= i64::MAX by {
                    if a < i {
                        assert(before[a].id >= 1);
                    }
                }
            }
            i += 1;
        }
        assert(user_views(rows@).take(i as int) =~= user_views(rows@));
        Some(CredentialStore { rows })
    }

    /// The number of rows.
    pub fn len(&self) -> (n: usize)
        ensures
            n == self@.len(),
    {
        self.rows.len()
    }

    /// Inserts a row with these credentials and returns its identifier.
    ///
    /// No row is compared with the new one: a username may occur in any
    /// number of rows. The insert fails only when no identifier is left.
    pub fn create_user(&mut self, username: &str, password_hash: &str) -> (outcome: Result<
        i64,
        PersistenceError,
    >)
        ensures
            valid_table(old(self)@),
            valid_table(final(self)@),
            match outcome {
                Ok(id) => {
                    &&& can_insert(old(self)@)
                    &&& id == next_id(old(self)@)
                    &&& final(self)@ == inserted(old(self)@, username@, password_hash@)
                },
                Err(error) => {
                    &&& !can_insert(old(self)@)
                    &&& final(self)@ == old(self)@
                    &&& error@ == identifiers_exhausted()
                },
            },
    {
        proof {
            use_type_invariant(&*self);
        }
        let n = self.rows.len();
        let mut id: i64 = 1;
        if n > 0 {
            let last = self.rows[n - 1].id;
            if last == i64::MAX {
                return Err(
                    PersistenceError { detail: "user identifiers are exhausted".to_owned() },
                );
            }
            id = last + 1;
        }
        let user = User { id, username: username.to_owned(), password_hash: password_hash.to_owned() };
        let mut rows = Vec::new();
        std::mem::swap(&mut rows, &mut self.rows);
        rows.push(user);
        proof {
            let before = old(self)@;
            let after = user_views(rows@);
            assert(after =~= inserted(before, username@, password_hash@));
            assert forall|a: int, b: int| 0 <= a < b < after.len() implies (#[trigger] after[a]).id
                < (#[trigger] after[b]).id by {
                if b < before.len() {
                    assert(before[a].id < before[b].id);
                } else if a < before.len() - 1 {
                    assert(before[a].id < before[before.len() - 1].id);
                }
            }
        }
        self.rows = rows;
        Ok(id)
    }

    /// The rows that carry these credentials, in table order.
    pub fn matching_users(&self, username: &str, password_hash: &str) -> (found: Vec<User>)
        ensures
            user_views(found@) == matching(self@, username@, password_hash@),
    {
        let username = username.to_owned();
        let password_hash = password_hash.to_owned();
        let ghost wanted = |row: UserView| row_matches(row, username@, password_hash@);
        let mut found: Vec<User> = Vec::new();
        let mut i: usize = 0;
        proof {
            reveal(Seq::filter);
            assert(self@.take(0) =~= Seq::<UserView>::empty());
        }
        while i < self.rows.len()
            invariant
                i <= self.rows.len(),
                wanted == |row: UserView| row_matches(row, username@, password_hash@),
                user_views(found@) == self@.take(i as int).filter(wanted),
            decreases self.rows.len() - i,
        {
            let row = &self.rows[i];
            let ghost seen = self@.take(i as int);
            let ghost kept = user_views(found@);
            proof {
                reveal(Seq::filter);
                let next = self@.take(i as int + 1);
                assert(next.drop_last() =~= seen);
                assert(next.last() == row@);
            }
            if row.username == username && row.password_hash == password_hash {
                found.push(copy_user(row));
                assert(user_views(found@) =~= kept.push(row@));
            }
            i += 1;
        }
        assert(self@.take(i as int) =~= self@);
        found
    }

    /// Finds the user with these credentials: the matching row if exactly
    /// one row matches, otherwise none.
    pub fn find_user(&self, username: &str, password_hash: &str) -> (user: Option<User>)
        ensures
            found_view(user) == lookup(self@, username@, password_hash@),
    {
        single_match(self.matching_users(username, password_hash))
    }
}

} // verus!
