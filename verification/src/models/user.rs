//! Users: the record and its row codec.

use vstd::prelude::*;
use crate::memory::Store;
use crate::store::{ambiguous, undecodable, user_rows, Failure, FailureView, Query, Statement};
use crate::text::opt_text;
use crate::values::{
    copy_opt_text, data, int_at, opt_text_at, read_int, read_opt_text, read_text, table, text_at, text_or_null,
    Datum, DecodeError, SqlValue,
};

verus! {

/// A user account. The id is supplied by the caller and is unique in the
/// store; the password is absent where it is not handed out.
#[derive(Clone, Debug, PartialEq, Eq)]
pub struct User {
    pub id: i64,
    pub name: String,
    pub email: String,
    pub password: Option<String>,
}

/// The mathematical content of a [`User`].
pub struct UserView {
    pub id: i64,
    pub name: Seq<char>,
    pub email: Seq<char>,
    pub password: Option<Seq<char>>,
}

impl View for User {
    type V = UserView;

    open spec fn view(&self) -> UserView {
        UserView { id: self.id, name: self.name@, email: self.email@, password: opt_text(self.password) }
    }
}

/// The content of a list of users.
pub open spec fn user_views(users: Seq<User>) -> Seq<UserView> {
    Seq::new(users.len(), |i: int| users[i]@)
}

/// The content of a decoding result.
pub open spec fn user_read(result: Result<User, DecodeError>) -> Result<UserView, DecodeError> {
    match result {
        Ok(user) => Ok(user@),
        Err(e) => Err(e),
    }
}

impl User {
    /// The number of columns of the `users` table: `id`, `name`, `email`,
    /// `password`, in this order.
    pub const WIDTH: usize = 4;

    /// The row that holds `user`: one cell per column, in column order.
    pub open spec fn row_of(user: UserView) -> Seq<Datum> {
        seq![Datum::Int(user.id), Datum::Text(user.name), Datum::Text(user.email), text_or_null(user.password)]
    }

    /// The user that `row` holds. `id`, `name` and `email` are mandatory and
    /// are reported, in this order, when one is missing, null or of another
    /// kind; `password` is optional.
    pub open spec fn decoded(row: Seq<Datum>) -> Result<UserView, DecodeError> {
        match int_at(row, 0) {
            Err(e) => Err(e),
            Ok(id) => match text_at(row, 1) {
                Err(e) => Err(e),
                Ok(name) => match text_at(row, 2) {
                    Err(e) => Err(e),
                    Ok(email) => Ok(UserView { id, name, email, password: opt_text_at(row, 3) }),
                },
            },
        }
    }

    /// Encodes the user as a row.
    pub fn encode(&self) -> (row: Vec<SqlValue>)
        ensures
            data(row@) == User::row_of(self@),
    {
        let row = vec![
            SqlValue::Int(self.id),
            SqlValue::text(&self.name),
            SqlValue::text(&self.email),
            SqlValue::opt_text(&self.password),
        ];
        row
    }

    /// Decodes a row of the `users` table.
    pub fn from(row: &Vec<SqlValue>) -> (result: Result<User, DecodeError>)
        ensures
            user_read(result) == User::decoded(data(row@)),
    {
        let id = read_int(row, 0)?;
        let name = read_text(row, 1)?;
        let email = read_text(row, 2)?;
        let password = read_opt_text(row, 3);
        Ok(User { id, name, email, password })
    }

    /// A copy with the same content.
    pub fn duplicate(&self) -> (copy: User)
        ensures
            copy@ == self@,
    {
        User {
            id: self.id,
            name: self.name.clone(),
            email: self.email.clone(),
            password: copy_opt_text(&self.password),
        }
    }
}

/// The content of an optional user.
pub open spec fn opt_user(user: Option<User>) -> Option<UserView> {
    match user {
        Some(u) => Some(u@),
        None => None,
    }
}

/// The content of the result of a creation.
pub open spec fn user_made(result: Result<User, Failure>) -> Result<UserView, FailureView> {
    match result {
        Ok(user) => Ok(user@),
        Err(failure) => Err(failure@),
    }
}

/// The content of the result of a point lookup.
pub open spec fn user_found(result: Result<Option<User>, Failure>) -> Result<Option<UserView>, FailureView> {
    match result {
        Ok(user) => Ok(opt_user(user)),
        Err(failure) => Err(failure@),
    }
}

/// The content of the result of a scan.
pub open spec fn users_found(result: Result<Vec<User>, Failure>) -> Result<Seq<UserView>, FailureView> {
    match result {
        Ok(users) => Ok(user_views(users@)),
        Err(failure) => Err(failure@),
    }
}

impl User {
    /// The bind parameters of the update of a user, in placeholder order.
    pub open spec fn update_params(
        id: i64,
        name: Seq<char>,
        email: Seq<char>,
        password: Option<Seq<char>>,
    ) -> Seq<Datum> {
        seq![Datum::Text(name), Datum::Text(email), text_or_null(password), Datum::Int(id)]
    }

    /// The statement that inserts this user.
    pub fn insert_statement(&self) -> (statement: Statement)
        ensures
            statement.query == Query::InsertUser,
            data(statement.params@) == User::row_of(self@),
    {
        Statement { query: Query::InsertUser, params: self.encode() }
    }

    /// The statement that replaces name, email and password of the user `id`.
    pub fn update_statement(id: i64, name: &String, email: &String, password: &Option<String>) -> (statement:
        Statement)
        ensures
            statement.query == Query::UpdateUser,
            data(statement.params@) == User::update_params(id, name@, email@, opt_text(*password)),
    {
        let params = vec![SqlValue::text(name), SqlValue::text(email), SqlValue::opt_text(password), SqlValue::Int(id)];
        Statement { query: Query::UpdateUser, params }
    }

    /// The statement that removes the user `id`.
    pub fn delete_statement(id: i64) -> (statement: Statement)
        ensures
            statement.query == Query::DeleteUser,
            data(statement.params@) == seq![Datum::Int(id)],
    {
        Statement::keyed(Query::DeleteUser, id)
    }

    /// The statement that selects the user `id`.
    pub fn select_statement(id: i64) -> (statement: Statement)
        ensures
            statement.query == Query::SelectUser,
            data(statement.params@) == seq![Datum::Int(id)],
    {
        Statement::keyed(Query::SelectUser, id)
    }

    /// The statement that selects every user.
    pub fn select_all_statement() -> (statement: Statement)
        ensures
            statement.query == Query::SelectUsers,
            data(statement.params@) == Seq::<Datum>::empty(),
    {
        Statement::bare(Query::SelectUsers)
    }

    /// What the rows of a point lookup hold: nobody where there is no row,
    /// the user of the one row, and a failure where the row does not decode
    /// or there are several.
    pub open spec fn one_of(rows: Seq<Seq<Datum>>) -> Result<Option<UserView>, FailureView> {
        if rows.len() == 0 {
            Ok(None)
        } else if rows.len() > 1 {
            Err(ambiguous())
        } else {
            match User::decoded(rows[0]) {
                Ok(user) => Ok(Some(user)),
                Err(_) => Err(undecodable()),
            }
        }
    }

    /// What the rows of a scan hold: the user of each row, in order, or a
    /// failure where a row does not decode.
    pub open spec fn all_of(rows: Seq<Seq<Datum>>) -> Result<Seq<UserView>, FailureView> {
        if forall|i: int| 0 <= i < rows.len() ==> (#[trigger] User::decoded(rows[i])) is Ok {
            Ok(Seq::new(rows.len(), |i: int| User::decoded(rows[i])->Ok_0))
        } else {
            Err(undecodable())
        }
    }

    /// Reads the answer to a point lookup.
    pub fn one_from(rows: &Vec<Vec<SqlValue>>) -> (result: Result<Option<User>, Failure>)
        ensures
            user_found(result) == User::one_of(table(rows@)),
    {
        if rows.len() == 0 {
            Ok(None)
        } else if rows.len() > 1 {
            Err(Failure::ambiguous())
        } else {
            match User::from(&rows[0]) {
                Ok(user) => Ok(Some(user)),
                Err(_) => Err(Failure::undecodable()),
            }
        }
    }

    /// Reads the answer to a scan.
    pub fn all_from(rows: &Vec<Vec<SqlValue>>) -> (result: Result<Vec<User>, Failure>)
        ensures
            users_found(result) == User::all_of(table(rows@)),
    {
        let mut users: Vec<User> = Vec::new();
        let mut i: usize = 0;
        while i < rows.len()
            invariant
                i <= rows.len(),
                users@.len() == i,
                forall|j: int| 0 <= j < i ==> User::decoded(#[trigger] table(rows@)[j]) == Ok::<UserView, DecodeError>(
                    users@[j]@,
                ),
            decreases rows.len() - i,
        {
            match User::from(&rows[i]) {
                Ok(user) => {
                    users.push(user);
                },
                Err(_) => {
                    assert(User::decoded(table(rows@)[i as int]) is Err);
                    return Err(Failure::undecodable());
                },
            }
            i += 1;
        }
        assert(user_views(users@) =~= Seq::new(table(rows@).len(), |i: int| User::decoded(table(rows@)[i])->Ok_0));
        Ok(users)
    }

    /// Creates a user. Fails with a conflict, and leaves the store as it
    /// was, where the id is taken; otherwise the user stands at the end of
    /// the table and is handed back as it was stored.
    pub fn new(id: i64, name: String, email: String, password: Option<String>, store: &mut Store) -> (result: Result<
        User,
        Failure,
    >)
        ensures
            (final(store)@, user_made(result)) == old(store)@.user_created(
                (UserView { id, name: name@, email: email@, password: opt_text(password) }),
            ),
            final(store)@.wf(),
    {
        let user = User { id, name, email, password };
        let statement = user.insert_statement();
        proof {
            lemma_user_row_decodes(user@);
        }
        match store.execute(&statement) {
            Ok(_) => Ok(user),
            Err(failure) => Err(failure),
        }
    }

    /// Replaces name, email and password of the user `id`. Where no user
    /// has this id nothing changes, and that is no error.
    pub fn update(store: &mut Store, id: i64, name: String, email: String, password: Option<String>) -> (result:
        Result<(), Failure>)
        ensures
            result is Ok,
            final(store)@ == old(store)@.user_changed(id, name@, email@, opt_text(password)),
            final(store)@.wf(),
    {
        let statement = User::update_statement(id, &name, &email, &password);
        match store.execute(&statement) {
            Ok(_) => Ok(()),
            Err(failure) => Err(failure),
        }
    }

    /// Removes the user `id`. Where no user has this id nothing changes,
    /// and that is no error.
    pub fn delete(store: &mut Store, id: i64) -> (result: Result<(), Failure>)
        ensures
            result is Ok,
            final(store)@ == old(store)@.user_removed(id),
            final(store)@.wf(),
    {
        let statement = User::delete_statement(id);
        match store.execute(&statement) {
            Ok(_) => Ok(()),
            Err(failure) => Err(failure),
        }
    }

    /// Looks the user `id` up. A user that is not there is `None`, not an
    /// error.
    pub fn get(store: &Store, id: i64) -> (result: Result<Option<User>, Failure>)
        ensures
            result matches Ok(found) && opt_user(found) == store@.user(id),
            store@.wf(),
    {
        let statement = User::select_statement(id);
        proof {
            if store@.user(id) is Some {
                lemma_user_row_decodes(store@.user(id)->0);
            }
        }
        match store.query(&statement) {
            Ok(rows) => User::one_from(&rows),
            Err(failure) => Err(failure),
        }
    }

    /// Reads every user, in table order.
    pub fn get_all(store: &Store) -> (result: Result<Vec<User>, Failure>)
        ensures
            result matches Ok(users) && user_views(users@) == store@.users,
            store@.wf(),
    {
        let statement = User::select_all_statement();
        match store.query(&statement) {
            Ok(rows) => {
                proof {
                    lemma_user_rows_decode(store@.users);
                }
                User::all_from(&rows)
            },
            Err(failure) => Err(failure),
        }
    }
}

/// Reading undoes writing for whole tables: the rows of a list of users
/// decode to that list.
pub proof fn lemma_user_rows_decode(users: Seq<UserView>)
    ensures
        User::all_of(user_rows(users)) == Ok::<Seq<UserView>, FailureView>(users),
{
    let rows = user_rows(users);
    assert forall|i: int| 0 <= i < rows.len() implies (#[trigger] User::decoded(rows[i])) == Ok::<
        UserView,
        DecodeError,
    >(users[i]) by {
        lemma_user_row_decodes(users[i]);
    }
    assert(Seq::new(rows.len(), |i: int| User::decoded(rows[i])->Ok_0) =~= users);
}

/// Decoding undoes encoding: the row of a user decodes to that user.
pub proof fn lemma_user_row_decodes(user: UserView)
    ensures
        User::decoded(User::row_of(user)) == Ok::<UserView, DecodeError>(user),
{
}

} // verus!
