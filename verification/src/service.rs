//! The service as a machine of two steps, for a web layer that talks to a
//! store of its own: [`plan_at`] decides, before anything reaches the store,
//! whether a request is answered at once or which statement is to be run;
//! [`finish`] turns what the store said into the response. [`serve_at`]
//! runs both against the store in memory.

use vstd::prelude::*;
use vstd::string::*;
use crate::auth::TokenAuthority;
use crate::clock::{now, Moment};
use crate::gate::{authorize_at, gate_verdict, Header};
use crate::handlers::{
    change_reply, change_view, confirmed, post_made_reply, post_reply, posts_reply, stamped, unauthorized, user_made_reply,
    user_reply, users_reply, Response, ResponseView,
};
use crate::memory::Store;
use crate::models::post::{
    lemma_post_row_cells, lemma_post_row_decodes, lemma_post_rows_decode, post_found, posts_found, Post, PostView,
};
use crate::models::user::{
    lemma_user_row_decodes, lemma_user_rows_decode, user_found, users_found, User, UserView,
};
use crate::store::{
    count_view, executed, post_rows, queried, rows_view, wrong_call, Failure, FailureView, Query, Selection, Statement,
    StorageError, StoreView,
};
use crate::text::{id_of, opt_text, parse_id, spaced};
use crate::values::{data, table, Datum, SqlValue};

verus! {

/// What a request asks of the store, with its typed arguments.
#[derive(Clone, Debug, PartialEq, Eq)]
pub enum Operation {
    ListUsers,
    GetUser(i64),
    AddUser(User),
    /// The id, then the new name, email and password.
    UpdateUser(i64, String, String, Option<String>),
    DeleteUser(i64),
    ListPosts,
    GetPost(i64),
    GetPostBySlug(String),
    /// The category as it stands in a path, with dashes for spaces.
    PostsByCategory(String),
    PostsByTag(String),
    AddPost(Post),
    /// The post whose id names the record and whose title, body, image,
    /// tags and category are the new ones.
    UpdatePost(Post),
    DeletePost(i64),
}

/// The mathematical content of an [`Operation`].
pub enum OperationView {
    ListUsers,
    GetUser(i64),
    AddUser(UserView),
    UpdateUser(i64, Seq<char>, Seq<char>, Option<Seq<char>>),
    DeleteUser(i64),
    ListPosts,
    GetPost(i64),
    GetPostBySlug(Seq<char>),
    PostsByCategory(Seq<char>),
    PostsByTag(Seq<char>),
    AddPost(PostView),
    UpdatePost(PostView),
    DeletePost(i64),
}

impl View for Operation {
    type V = OperationView;

    open spec fn view(&self) -> OperationView {
        match self {
            Operation::ListUsers => OperationView::ListUsers,
            Operation::GetUser(id) => OperationView::GetUser(*id),
            Operation::AddUser(user) => OperationView::AddUser(user@),
            Operation::UpdateUser(id, name, email, password) => OperationView::UpdateUser(
                *id,
                name@,
                email@,
                opt_text(*password),
            ),
            Operation::DeleteUser(id) => OperationView::DeleteUser(*id),
            Operation::ListPosts => OperationView::ListPosts,
            Operation::GetPost(id) => OperationView::GetPost(*id),
            Operation::GetPostBySlug(slug) => OperationView::GetPostBySlug(slug@),
            Operation::PostsByCategory(category) => OperationView::PostsByCategory(category@),
            Operation::PostsByTag(tag) => OperationView::PostsByTag(tag@),
            Operation::AddPost(post) => OperationView::AddPost(post@),
            Operation::UpdatePost(post) => OperationView::UpdatePost(post@),
            Operation::DeletePost(id) => OperationView::DeletePost(*id),
        }
    }
}

/// What is to be done next for a request.
#[derive(Clone, Debug, PartialEq, Eq)]
pub enum Step {
    /// Answer at once; the store is not touched.
    Reply(Response),
    /// Run the statement and come back with what the store said.
    Run(Statement),
}

/// The mathematical content of a [`Step`].
pub enum StepView {
    Reply(ResponseView),
    Run(Query, Seq<Datum>),
}

impl View for Step {
    type V = StepView;

    open spec fn view(&self) -> StepView {
        match self {
            Step::Reply(response) => StepView::Reply(response@),
            Step::Run(statement) => StepView::Run(statement.query, data(statement.params@)),
        }
    }
}

/// What the store said to a statement.
#[derive(Debug, PartialEq, Eq)]
pub enum Answer {
    /// The answer to a statement that changes a table.
    Count(Result<u64, Failure>),
    /// The answer to a statement that reads a table.
    Rows(Result<Vec<Vec<SqlValue>>, Failure>),
}

/// The mathematical content of an [`Answer`].
pub enum AnswerView {
    Count(Result<u64, FailureView>),
    Rows(Result<Seq<Seq<Datum>>, FailureView>),
}

impl View for Answer {
    type V = AnswerView;

    open spec fn view(&self) -> AnswerView {
        match self {
            Answer::Count(count) => AnswerView::Count(count_view(*count)),
            Answer::Rows(rows) => AnswerView::Rows(rows_view(*rows)),
        }
    }
}

impl AnswerView {
    /// The count that the answer holds; an answer of the other kind counts
    /// as a failure.
    pub open spec fn count(self) -> Result<(), FailureView> {
        match self {
            AnswerView::Count(Ok(_)) => Ok(()),
            AnswerView::Count(Err(failure)) => Err(failure),
            AnswerView::Rows(_) => Err(wrong_call()),
        }
    }

    /// The rows that the answer holds; an answer of the other kind counts
    /// as a failure.
    pub open spec fn rows(self) -> Result<Seq<Seq<Datum>>, FailureView> {
        match self {
            AnswerView::Rows(rows) => rows,
            AnswerView::Count(_) => Err(wrong_call()),
        }
    }

    /// The one user that the answer holds.
    pub open spec fn user(self) -> Result<Option<UserView>, FailureView> {
        match self.rows() {
            Ok(rows) => User::one_of(rows),
            Err(failure) => Err(failure),
        }
    }

    /// The users that the answer holds.
    pub open spec fn users(self) -> Result<Seq<UserView>, FailureView> {
        match self.rows() {
            Ok(rows) => User::all_of(rows),
            Err(failure) => Err(failure),
        }
    }

    /// The one post that the answer holds.
    pub open spec fn post(self) -> Result<Option<PostView>, FailureView> {
        match self.rows() {
            Ok(rows) => Post::one_of(rows),
            Err(failure) => Err(failure),
        }
    }

    /// The posts that the answer holds.
    pub open spec fn posts(self) -> Result<Seq<PostView>, FailureView> {
        match self.rows() {
            Ok(rows) => Post::all_of(rows),
            Err(failure) => Err(failure),
        }
    }
}

impl OperationView {
    /// Whether the operation stands behind the access gate: the three that
    /// change the posts.
    pub open spec fn is_protected(self) -> bool {
        self is AddPost || self is UpdatePost || self is DeletePost
    }

    /// The query of the operation.
    pub open spec fn query(self) -> Query {
        match self {
            OperationView::ListUsers => Query::SelectUsers,
            OperationView::GetUser(_) => Query::SelectUser,
            OperationView::AddUser(_) => Query::InsertUser,
            OperationView::UpdateUser(_, _, _, _) => Query::UpdateUser,
            OperationView::DeleteUser(_) => Query::DeleteUser,
            OperationView::ListPosts => Query::SelectPosts,
            OperationView::GetPost(_) => Query::SelectPost,
            OperationView::GetPostBySlug(_) => Query::SelectPostBySlug,
            OperationView::PostsByCategory(_) => Query::SelectPostsByCategory,
            OperationView::PostsByTag(_) => Query::SelectPostsByTag,
            OperationView::AddPost(_) => Query::InsertPost,
            OperationView::UpdatePost(_) => Query::UpdatePost,
            OperationView::DeletePost(_) => Query::DeletePost,
        }
    }

    /// The bind parameters of the operation, in the placeholder order of
    /// its query. A new post that names no instant of creation is stamped
    /// with `now`, in microseconds since the epoch.
    pub open spec fn params(self, now: i64) -> Seq<Datum> {
        match self {
            OperationView::ListUsers => Seq::empty(),
            OperationView::GetUser(id) => seq![Datum::Int(id)],
            OperationView::AddUser(user) => User::row_of(user),
            OperationView::UpdateUser(id, name, email, password) => User::update_params(id, name, email, password),
            OperationView::DeleteUser(id) => seq![Datum::Int(id)],
            OperationView::ListPosts => Seq::empty(),
            OperationView::GetPost(id) => seq![Datum::Int(id)],
            OperationView::GetPostBySlug(slug) => seq![Datum::Text(slug)],
            OperationView::PostsByCategory(category) => seq![Datum::Text(spaced(category))],
            OperationView::PostsByTag(tag) => seq![Datum::Text(tag)],
            OperationView::AddPost(post) => Post::row_of(stamped(post, now)),
            OperationView::UpdatePost(post) => Post::update_params(post),
            OperationView::DeletePost(id) => seq![Datum::Int(id)],
        }
    }
}

/// The first step for a request at the instant `now`: a guarded operation
/// whose headers the access gate turns down is answered at once with 401,
/// and no statement comes into being; every other request is a statement
/// to run.
pub open spec fn planned(
    operation: OperationView,
    headers: Seq<Header>,
    secret: Seq<char>,
    now: Moment,
) -> StepView {
    if operation.is_protected() && gate_verdict(headers, secret, now.seconds as int) is Err {
        StepView::Reply(unauthorized())
    } else {
        StepView::Run(operation.query(), operation.params(now.micros))
    }
}

/// The response to a request, given what the store said to its statement.
pub open spec fn finished(operation: OperationView, answer: AnswerView) -> ResponseView {
    match operation {
        OperationView::ListUsers => users_reply(answer.users()),
        OperationView::GetUser(_) => user_reply(answer.user()),
        OperationView::AddUser(_) => change_reply(
            answer.count(),
            "User added successfully"@,
            "Failed to add user: "@,
        ),
        OperationView::UpdateUser(_, _, _, _) => change_reply(
            answer.count(),
            "User updated successfully"@,
            "Failed to update user: "@,
        ),
        OperationView::DeleteUser(_) => change_reply(
            answer.count(),
            "User deleted successfully"@,
            "Failed to delete user: "@,
        ),
        OperationView::ListPosts => posts_reply(answer.posts()),
        OperationView::GetPost(_) => post_reply(answer.post()),
        OperationView::GetPostBySlug(_) => post_reply(answer.post()),
        OperationView::PostsByCategory(_) => posts_reply(answer.posts()),
        OperationView::PostsByTag(_) => posts_reply(answer.posts()),
        OperationView::AddPost(_) => change_reply(
            answer.count(),
            "Post added successfully"@,
            "Failed to add post: "@,
        ),
        OperationView::UpdatePost(_) => change_reply(
            answer.count(),
            "Post updated successfully"@,
            "Failed to update post: "@,
        ),
        OperationView::DeletePost(_) => change_reply(
            answer.count(),
            "Post deleted successfully"@,
            "Failed to delete post: "@,
        ),
    }
}

/// What a request leaves of the store in memory, and the response to it.
pub open spec fn served(
    store: StoreView,
    operation: OperationView,
    headers: Seq<Header>,
    secret: Seq<char>,
    now: Moment,
) -> (StoreView, ResponseView) {
    if operation.is_protected() && gate_verdict(headers, secret, now.seconds as int) is Err {
        (store, unauthorized())
    } else {
        match operation {
            OperationView::ListUsers => (store, users_reply(Ok(store.users))),
            OperationView::GetUser(id) => (store, user_reply(Ok(store.user(id)))),
            OperationView::AddUser(user) => (store.user_created(user).0, user_made_reply(store.user_created(user).1)),
            OperationView::UpdateUser(id, name, email, password) => (
                store.user_changed(id, name, email, password),
                confirmed("User updated successfully"@),
            ),
            OperationView::DeleteUser(id) => (store.user_removed(id), confirmed("User deleted successfully"@)),
            OperationView::ListPosts => (store, posts_reply(Ok(store.posts))),
            OperationView::GetPost(id) => (store, post_reply(Ok(store.post(id)))),
            OperationView::GetPostBySlug(slug) => (
                store,
                post_reply(Post::one_of(post_rows(store.selected(Selection::Slug, slug)))),
            ),
            OperationView::PostsByCategory(category) => (
                store,
                posts_reply(Ok(store.selected(Selection::Category, spaced(category)))),
            ),
            OperationView::PostsByTag(tag) => (store, posts_reply(Ok(store.selected(Selection::Tag, tag)))),
            OperationView::AddPost(post) => (
                store.post_created(stamped(post, now.micros)).0,
                post_made_reply(store.post_created(stamped(post, now.micros)).1),
            ),
            OperationView::UpdatePost(post) => (
                store.post_changed(post.id, post.title, post.body, post.image, post.tags, post.category),
                confirmed("Post updated successfully"@),
            ),
            OperationView::DeletePost(id) => (store.post_removed(id), confirmed("Post deleted successfully"@)),
        }
    }
}

/// The lookup that the key of a post stands for: by its id where the key
/// writes one, by its slug otherwise.
pub open spec fn post_lookup(key: Seq<char>) -> OperationView {
    match id_of(key) {
        Some(id) => OperationView::GetPost(id),
        None => OperationView::GetPostBySlug(key),
    }
}

impl Operation {
    /// The lookup of a post by the key that stands in a path. See
    /// [`post_lookup`].
    pub fn post_by_key(key: String) -> (operation: Operation)
        ensures
            operation@ == post_lookup(key@),
    {
        match parse_id(key.as_str()) {
            Some(id) => Operation::GetPost(id),
            None => Operation::GetPostBySlug(key),
        }
    }

    /// Whether the operation stands behind the access gate.
    pub fn is_protected(&self) -> (guarded: bool)
        ensures
            guarded == self@.is_protected(),
    {
        match self {
            Operation::AddPost(_) => true,
            Operation::UpdatePost(_) => true,
            Operation::DeletePost(_) => true,
            _ => false,
        }
    }

    /// The statement of the operation, at the instant `now` (microseconds
    /// since the epoch).
    pub fn statement(&self, now: i64) -> (statement: Statement)
        ensures
            statement.query == self@.query(),
            data(statement.params@) == self@.params(now),
    {
        match self {
            Operation::ListUsers => User::select_all_statement(),
            Operation::GetUser(id) => User::select_statement(*id),
            Operation::AddUser(user) => user.insert_statement(),
            Operation::UpdateUser(id, name, email, password) => User::update_statement(*id, name, email, password),
            Operation::DeleteUser(id) => User::delete_statement(*id),
            Operation::ListPosts => Post::select_all_statement(),
            Operation::GetPost(id) => Post::select_statement(*id),
            Operation::GetPostBySlug(slug) => Post::select_by_slug_statement(slug),
            Operation::PostsByCategory(category) => Post::select_by_category_statement(category),
            Operation::PostsByTag(tag) => Post::select_by_tag_statement(tag),
            Operation::AddPost(post) => post.duplicate().stamp(now).insert_statement(),
            Operation::UpdatePost(post) => post.update_statement(),
            Operation::DeletePost(id) => Post::delete_statement(*id),
        }
    }
}

impl Answer {
    /// The count that the answer holds.
    pub fn into_count(self) -> (count: Result<(), Failure>)
        ensures
            change_view(count) == self@.count(),
    {
        match self {
            Answer::Count(Ok(_)) => Ok(()),
            Answer::Count(Err(failure)) => Err(failure),
            Answer::Rows(_) => Err(
                Failure { error: StorageError::Io, detail: String::from_str("statement does not match the call") },
            ),
        }
    }

    /// The rows that the answer holds.
    pub fn into_rows(self) -> (rows: Result<Vec<Vec<SqlValue>>, Failure>)
        ensures
            rows_view(rows) == self@.rows(),
    {
        match self {
            Answer::Rows(rows) => rows,
            Answer::Count(_) => Err(
                Failure { error: StorageError::Io, detail: String::from_str("statement does not match the call") },
            ),
        }
    }

    /// The one user that the answer holds.
    pub fn into_user(self) -> (user: Result<Option<User>, Failure>)
        ensures
            user_found(user) == self@.user(),
    {
        match self.into_rows() {
            Ok(rows) => User::one_from(&rows),
            Err(failure) => Err(failure),
        }
    }

    /// The users that the answer holds.
    pub fn into_users(self) -> (users: Result<Vec<User>, Failure>)
        ensures
            users_found(users) == self@.users(),
    {
        match self.into_rows() {
            Ok(rows) => User::all_from(&rows),
            Err(failure) => Err(failure),
        }
    }

    /// The one post that the answer holds.
    pub fn into_post(self) -> (post: Result<Option<Post>, Failure>)
        ensures
            post_found(post) == self@.post(),
    {
        match self.into_rows() {
            Ok(rows) => Post::one_from(&rows),
            Err(failure) => Err(failure),
        }
    }

    /// The posts that the answer holds.
    pub fn into_posts(self) -> (posts: Result<Vec<Post>, Failure>)
        ensures
            posts_found(posts) == self@.posts(),
    {
        match self.into_rows() {
            Ok(rows) => Post::all_from(&rows),
            Err(failure) => Err(failure),
        }
    }
}

/// Decides the first step for a request at the instant `now`. See
/// [`planned`].
pub fn plan_at(operation: &Operation, headers: &Vec<Header>, authority: &TokenAuthority, now: Moment) -> (step: Step)
    ensures
        step@ == planned(operation@, headers@, authority.secret(), now),
{
    if operation.is_protected() {
        if authorize_at(headers, authority, now.seconds).is_err() {
            return Step::Reply(Response::unauthorized());
        }
    }
    Step::Run(operation.statement(now.micros))
}

/// Decides the first step for a request at the present instant.
pub fn plan(operation: &Operation, headers: &Vec<Header>, authority: &TokenAuthority) -> (step: Step)
    ensures
        exists|now: Moment| step@ == #[trigger] planned(operation@, headers@, authority.secret(), now),
{
    let moment = now();
    plan_at(operation, headers, authority, moment)
}

/// Turns what the store said into the response. See [`finished`].
pub fn finish(operation: &Operation, answer: Answer) -> (response: Response)
    ensures
        response@ == finished(operation@, answer@),
{
    match operation {
        Operation::ListUsers => Response::for_users(answer.into_users()),
        Operation::GetUser(_) => Response::for_user(answer.into_user()),
        Operation::AddUser(_) => Response::for_change(
            answer.into_count(),
            "User added successfully",
            "Failed to add user: ",
        ),
        Operation::UpdateUser(_, _, _, _) => Response::for_change(
            answer.into_count(),
            "User updated successfully",
            "Failed to update user: ",
        ),
        Operation::DeleteUser(_) => Response::for_change(
            answer.into_count(),
            "User deleted successfully",
            "Failed to delete user: ",
        ),
        Operation::ListPosts => Response::for_posts(answer.into_posts()),
        Operation::GetPost(_) => Response::for_post(answer.into_post()),
        Operation::GetPostBySlug(_) => Response::for_post(answer.into_post()),
        Operation::PostsByCategory(_) => Response::for_posts(answer.into_posts()),
        Operation::PostsByTag(_) => Response::for_posts(answer.into_posts()),
        Operation::AddPost(_) => Response::for_change(
            answer.into_count(),
            "Post added successfully",
            "Failed to add post: ",
        ),
        Operation::UpdatePost(_) => Response::for_change(
            answer.into_count(),
            "Post updated successfully",
            "Failed to update post: ",
        ),
        Operation::DeletePost(_) => Response::for_change(
            answer.into_count(),
            "Post deleted successfully",
            "Failed to delete post: ",
        ),
    }
}

impl Store {
    /// Carries out a statement of either kind.
    pub fn run(&mut self, statement: &Statement) -> (answer: Answer)
        ensures
            statement.query.reads() ==> final(self)@ == old(self)@ && answer@ == AnswerView::Rows(
                queried(old(self)@, statement.query, data(statement.params@)),
            ),
            !statement.query.reads() ==> (final(self)@, answer@) == (
                executed(old(self)@, statement.query, data(statement.params@)).0,
                AnswerView::Count(executed(old(self)@, statement.query, data(statement.params@)).1),
            ),
            final(self)@.wf(),
    {
        if statement.query.is_read() {
            Answer::Rows(self.query(statement))
        } else {
            Answer::Count(self.execute(statement))
        }
    }
}

/// What the two steps make of a request when the statement is run on a
/// store that does what [`executed`] and [`queried`] say.
pub open spec fn stepped(
    store: StoreView,
    operation: OperationView,
    headers: Seq<Header>,
    secret: Seq<char>,
    now: Moment,
) -> (StoreView, ResponseView) {
    match planned(operation, headers, secret, now) {
        StepView::Reply(response) => (store, response),
        StepView::Run(query, params) => if query.reads() {
            (store, finished(operation, AnswerView::Rows(queried(store, query, params))))
        } else {
            (
                executed(store, query, params).0,
                finished(operation, AnswerView::Count(executed(store, query, params).1)),
            )
        },
    }
}

/// The two steps serve what the handlers serve: whatever the request, to
/// plan it, run its statement and finish it leaves the store and answers
/// as [`served`] says. This is where the order of the bind parameters and
/// the two directions of each row codec have to fit one another.
pub proof fn law_steps_serve(
    store: StoreView,
    operation: OperationView,
    headers: Seq<Header>,
    secret: Seq<char>,
    now: Moment,
)
    requires
        store.wf(),
    ensures
        stepped(store, operation, headers, secret, now) == served(store, operation, headers, secret, now),
{
    if planned(operation, headers, secret, now) is Run {
        match operation {
            OperationView::ListUsers => {
                lemma_user_rows_decode(store.users);
            },
            OperationView::GetUser(id) => {
                if store.user(id) is Some {
                    lemma_user_row_decodes(store.user(id)->0);
                }
            },
            OperationView::AddUser(user) => {
                lemma_user_row_decodes(user);
            },
            OperationView::ListPosts => {
                lemma_post_rows_decode(store.posts);
            },
            OperationView::GetPost(id) => {
                if store.post(id) is Some {
                    lemma_post_row_decodes(store.post(id)->0);
                }
            },
            OperationView::PostsByCategory(category) => {
                lemma_post_rows_decode(store.selected(Selection::Category, spaced(category)));
            },
            OperationView::PostsByTag(tag) => {
                lemma_post_rows_decode(store.selected(Selection::Tag, tag));
            },
            OperationView::AddPost(post) => {
                lemma_post_row_decodes(stamped(post, now.micros));
                lemma_post_row_cells(stamped(post, now.micros));
            },
            _ => {},
        }
    }
}

/// Serves a request from the store in memory at the instant `now`. See
/// [`served`].
pub fn serve_at(
    store: &mut Store,
    operation: &Operation,
    headers: &Vec<Header>,
    authority: &TokenAuthority,
    now: Moment,
) -> (response: Response)
    ensures
        (final(store)@, response@) == served(old(store)@, operation@, headers@, authority.secret(), now),
        final(store)@.wf(),
{
    let ghost before = store@;
    match plan_at(operation, headers, authority, now) {
        Step::Reply(response) => {
            store.attest();
            proof {
                law_steps_serve(before, operation@, headers@, authority.secret(), now);
            }
            response
        },
        Step::Run(statement) => {
            store.attest();
            let answer = store.run(&statement);
            proof {
                law_steps_serve(before, operation@, headers@, authority.secret(), now);
            }
            finish(operation, answer)
        },
    }
}

/// Serves a request from the store in memory at the present instant.
pub fn serve(store: &mut Store, operation: &Operation, headers: &Vec<Header>, authority: &TokenAuthority) -> (response:
    Response)
    ensures
        exists|now: Moment|
            (final(store)@, response@) == #[trigger] served(old(store)@, operation@, headers@, authority.secret(), now),
        final(store)@.wf(),
{
    let moment = now();
    serve_at(store, operation, headers, authority, moment)
}

} // verus!
