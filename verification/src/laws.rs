//! What holds of the handlers whatever the table and the credentials,
//! stated over the table model and proved.

use crate::digest::password_hash;
use crate::extension::{
    invalid_credentials, logged_in, login_on, register_on, registered, status_of,
    table_after_register,
};
use crate::model::{AuthResponseView, ErrorResponseView, UserView};
use crate::startup::{failure_prefix, init_decision, InitDecisionView, InitEventView, InitStep};
use crate::store::{can_insert, matching, next_id, row_matches, valid_table};
use vstd::prelude::*;

verus! {

/// The rows matching in a table that grew by one row are those that
/// matched before, followed by the new row if it matches.
pub proof fn lemma_matching_push(
    rows: Seq<UserView>,
    row: UserView,
    username: Seq<char>,
    password_hash: Seq<char>,
)
    ensures
        matching(rows.push(row), username, password_hash) == if row_matches(
            row,
            username,
            password_hash,
        ) {
            matching(rows, username, password_hash).push(row)
        } else {
            matching(rows, username, password_hash)
        },
{
    reveal(Seq::filter);
    assert(rows.push(row).drop_last() =~= rows);
}

/// Where no row carries the credentials, none matches.
pub proof fn lemma_matching_none(
    rows: Seq<UserView>,
    username: Seq<char>,
    password_hash: Seq<char>,
)
    requires
        forall|i: int|
            0 <= i < rows.len() ==> !row_matches(#[trigger] rows[i], username, password_hash),
    ensures
        matching(rows, username, password_hash).len() == 0,
    decreases rows.len(),
{
    reveal(Seq::filter);
    if rows.len() > 0 {
        let front = rows.drop_last();
        assert forall|i: int| 0 <= i < front.len() implies !row_matches(
            #[trigger] front[i],
            username,
            password_hash,
        ) by {
            assert(front[i] == rows[i]);
        }
        lemma_matching_none(front, username, password_hash);
        assert(!row_matches(rows[rows.len() - 1], username, password_hash));
    }
}

/// A registration keeps the table valid: identifiers stay positive and
/// strictly increasing, so no two rows share one.
pub proof fn register_keeps_table_valid(
    rows: Seq<UserView>,
    username: Seq<char>,
    password: Seq<char>,
)
    requires
        valid_table(rows),
    ensures
        valid_table(table_after_register(rows, username, password)),
        forall|i: int, j: int|
            #![trigger table_after_register(rows, username, password)[i], table_after_register(rows, username, password)[j]]
            0 <= i < table_after_register(rows, username, password).len() && 0 <= j
                < table_after_register(rows, username, password).len() && i != j
                ==> table_after_register(rows, username, password)[i].id != table_after_register(
                rows,
                username,
                password,
            )[j].id,
{
    let after = table_after_register(rows, username, password);
    if can_insert(rows) {
        assert forall|a: int, b: int| 0 <= a < b < after.len() implies (#[trigger] after[a]).id < (
        #[trigger] after[b]).id by {
            if b < rows.len() {
                assert(rows[a].id < rows[b].id);
            } else if a < rows.len() - 1 {
                assert(rows[a].id < rows[rows.len() - 1].id);
            }
        }
        assert forall|a: int| 0 <= a < after.len() implies 1 <= (#[trigger] after[a]).id
            <= i64::MAX by {
            if a < rows.len() {
                assert(rows[a].id >= 1);
            } else if rows.len() > 0 {
                assert(rows[rows.len() - 1].id >= 1);
            }
        }
    }
    assert forall|i: int, j: int| 0 <= i < after.len() && 0 <= j < after.len() && i != j implies (
    #[trigger] after[i]).id != (#[trigger] after[j]).id by {
        if i < j {
            assert(after[i].id < after[j].id);
        } else {
            assert(after[j].id < after[i].id);
        }
    }
}

/// Registering credentials that no row carries yet and then logging in
/// with the same credentials answers both requests with the same user
/// identifier.
pub proof fn register_then_login_gives_same_user(
    rows: Seq<UserView>,
    username: Seq<char>,
    password: Seq<char>,
)
    requires
        valid_table(rows),
        can_insert(rows),
        matching(rows, username, password_hash(password)).len() == 0,
    ensures
        register_on(rows) == Ok::<AuthResponseView, ErrorResponseView>(
            registered(next_id(rows)),
        ),
        login_on(table_after_register(rows, username, password), username, password) == Ok::<
            AuthResponseView,
            ErrorResponseView,
        >(logged_in(next_id(rows))),
        registered(next_id(rows)).user_id == logged_in(next_id(rows)).user_id,
{
    let hash = password_hash(password);
    let row = UserView { id: next_id(rows), username, password_hash: hash };
    lemma_matching_push(rows, row, username, hash);
    assert(matching(rows, username, hash).push(row).len() == 1);
    assert(matching(rows, username, hash).push(row)[0] == row);
}

/// A login with the username of some user and a password whose digest is
/// stored in no row of that username is refused with the
/// invalid-credentials error. It is sent as a client error, never as a
/// server error.
pub proof fn login_with_wrong_password_is_refused(
    rows: Seq<UserView>,
    username: Seq<char>,
    password: Seq<char>,
)
    requires
        exists|i: int| 0 <= i < rows.len() && (#[trigger] rows[i]).username == username,
        forall|i: int|
            0 <= i < rows.len() && (#[trigger] rows[i]).username == username
                ==> rows[i].password_hash != password_hash(password),
    ensures
        login_on(rows, username, password) == Err::<AuthResponseView, ErrorResponseView>(
            invalid_credentials(),
        ),
        status_of(login_on(rows, username, password)) == 401,
{
    lemma_matching_none(rows, username, password_hash(password));
}

/// A login with a username that no row carries is refused with the same
/// error as a login with a wrong password.
pub proof fn login_with_unknown_username_is_refused(
    rows: Seq<UserView>,
    username: Seq<char>,
    password: Seq<char>,
)
    requires
        forall|i: int| 0 <= i < rows.len() ==> (#[trigger] rows[i]).username != username,
    ensures
        login_on(rows, username, password) == Err::<AuthResponseView, ErrorResponseView>(
            invalid_credentials(),
        ),
        status_of(login_on(rows, username, password)) == 401,
{
    lemma_matching_none(rows, username, password_hash(password));
}

/// Usernames are not compared on registration: registering one username
/// twice, with whatever passwords, creates two users with distinct
/// identifiers, the second following the first.
pub proof fn registering_a_username_twice_gives_two_users(
    rows: Seq<UserView>,
    username: Seq<char>,
    first_password: Seq<char>,
    second_password: Seq<char>,
)
    requires
        valid_table(rows),
        next_id(rows) + 1 <= i64::MAX,
    ensures
        register_on(rows) == Ok::<AuthResponseView, ErrorResponseView>(
            registered(next_id(rows)),
        ),
        register_on(table_after_register(rows, username, first_password)) == Ok::<
            AuthResponseView,
            ErrorResponseView,
        >(registered(next_id(rows) + 1)),
        table_after_register(
            table_after_register(rows, username, first_password),
            username,
            second_password,
        ) == rows.push(
            UserView {
                id: next_id(rows),
                username,
                password_hash: password_hash(first_password),
            },
        ).push(
            UserView {
                id: next_id(rows) + 1,
                username,
                password_hash: password_hash(second_password),
            },
        ),
{
}

/// Once the same credentials were registered twice, two rows carry them
/// and a login with them is refused: a login needs exactly one such row.
pub proof fn login_after_repeated_registration_is_refused(
    rows: Seq<UserView>,
    username: Seq<char>,
    password: Seq<char>,
)
    requires
        valid_table(rows),
        next_id(rows) + 1 <= i64::MAX,
    ensures
        login_on(
            table_after_register(table_after_register(rows, username, password), username, password),
            username,
            password,
        ) == Err::<AuthResponseView, ErrorResponseView>(invalid_credentials()),
{
    let hash = password_hash(password);
    let first = UserView { id: next_id(rows), username, password_hash: hash };
    let once = rows.push(first);
    let second = UserView { id: next_id(once), username, password_hash: hash };
    lemma_matching_push(rows, first, username, hash);
    lemma_matching_push(once, second, username, hash);
    assert(matching(once.push(second), username, hash).len() >= 2);
}

/// The start-up is ready exactly when the migrations were the step
/// performed and did not fail; a failure of any step after the probe ends
/// it with that step's message.
pub proof fn startup_is_ready_only_after_migration(step: InitStep, event: InitEventView)
    ensures
        init_decision(step, event) == InitDecisionView::Ready <==> step == InitStep::Migrate
            && !(event is Failed),
        step != InitStep::ProbeDatabase && event is Failed ==> init_decision(step, event)
            == InitDecisionView::Abort(failure_prefix(step) + event->Failed_0),
        step == InitStep::ProbeDatabase ==> init_decision(step, event) is Proceed,
{
}

/// The stored digest depends on the password alone: equal passwords have
/// equal digests.
pub proof fn hash_is_deterministic(first: Seq<char>, second: Seq<char>)
    requires
        first == second,
    ensures
        password_hash(first) == password_hash(second),
{
}

} // verus!
