//! Queries on `users`.

use vstd::prelude::*;
use crate::models::{NewUser, User};
use crate::queries::{at_most_one_selected, is_lookup_answer, lemma_run_get_or_create_twice, run_get_or_create};

verus! {

/// A selection of rows of `users`.
#[derive(Clone, Copy, Debug, PartialEq)]
pub enum UserQuery<'a> {
    /// The users with this name.
    ByName(&'a str),
}

impl<'a> UserQuery<'a> {
    /// Whether the selection holds the user `u`.
    pub open spec fn selects(self, u: User) -> bool {
        match self {
            UserQuery::ByName(name) => u.name@ == name@,
        }
    }
}

impl<'a> NewUser<'a> {
    /// Whether `u` is a row that holds these values (under any id).
    pub open spec fn stored_as(self, u: User) -> bool {
        u.name@ == self.name@
    }
}

/// The lookup that starts a get-or-create of a user: users are the same
/// when their names are. Its answer goes to `crate::queries::found_or_insert`.
pub open spec fn spec_get_or_create<'a>(user: NewUser<'a>) -> UserQuery<'a> {
    UserQuery::ByName(user.name)
}

/// The lookup that starts a get-or-create of `user`.
pub fn get_or_create<'a>(user: &NewUser<'a>) -> (q: UserQuery<'a>)
    ensures
        q == spec_get_or_create(*user),
{
    UserQuery::ByName(user.name)
}

/// A user inserted by a get-or-create is found by the next get-or-create of
/// the same name.
pub proof fn lemma_get_or_create_finds_inserted(user: NewUser, row: User)
    requires
        user.stored_as(row),
    ensures
        spec_get_or_create(user).selects(row),
{
}


/// The rows that the lookup of a get-or-create of `user` selects.
pub open spec fn get_or_create_selects(user: NewUser) -> spec_fn(User) -> bool {
    |row: User| spec_get_or_create(user).selects(row)
}

/// Asking twice to get-or-create the same user, when every database call
/// succeeds and the table held at most one such row: the second asking gives
/// the row the first gave and leaves the table as the first left it, so at
/// most one row is added, whichever matching row each lookup answers.
pub proof fn lemma_get_or_create_twice(
    user: NewUser,
    table: Seq<User>,
    first_answer: Option<User>,
    first_insert: User,
    second_answer: Option<User>,
    second_insert: User,
)
    requires
        user.stored_as(first_insert),
        at_most_one_selected(table, get_or_create_selects(user)),
        is_lookup_answer(table, get_or_create_selects(user), first_answer),
        is_lookup_answer(
            run_get_or_create(table, first_answer, first_insert).0,
            get_or_create_selects(user),
            second_answer,
        ),
    ensures
        ({
            let (t1, a) = run_get_or_create(table, first_answer, first_insert);
            let (t2, b) = run_get_or_create(t1, second_answer, second_insert);
            &&& t2 == t1
            &&& b == a
            &&& at_most_one_selected(t1, get_or_create_selects(user))
        }),
{
    lemma_get_or_create_finds_inserted(user, first_insert);
    lemma_run_get_or_create_twice(
        table,
        get_or_create_selects(user),
        first_answer,
        first_insert,
        second_answer,
        second_insert,
    );
}
} // verus!
