//! The table store: the statements that the repositories send, what a store
//! answers, and a store that holds its tables in memory.
//!
//! A statement is one of a fixed set of queries with its bind parameters in
//! placeholder order. [`executed`] and [`queried`] say what each statement
//! does to the two tables; [`Store`] does exactly that in memory, and a
//! database that is sent [`Query::sql`] with the same parameters is expected
//! to do the same.

use vstd::prelude::*;
use vstd::string::*;
use crate::models::post::{Post, PostView};
use crate::models::user::{User, UserView};
use crate::values::{data, int_at, opt_text_at, opt_texts_at, table, text_at, Datum, SqlValue};

verus! {

/// Why the store could not carry out a statement.
#[derive(Clone, Copy, Debug, PartialEq, Eq, Structural)]
pub enum StorageError {
    /// The connection failed, or statement and store do not fit together.
    Io,
    /// A uniqueness constraint was violated.
    Conflict,
    /// The record does not exist.
    NotFound,
}

/// The statements of the service.
#[derive(Clone, Copy, Debug, PartialEq, Eq, Structural)]
pub enum Query {
    /// Parameters: `id`, `name`, `email`, `password`.
    InsertUser,
    /// Parameters: `name`, `email`, `password`, then the `id` to change.
    UpdateUser,
    /// Parameter: `id`.
    DeleteUser,
    /// Parameter: `id`.
    SelectUser,
    /// No parameters.
    SelectUsers,
    /// Parameters: the thirty columns of a post, in column order.
    InsertPost,
    /// Parameters: `title`, `body`, `image`, `tags`, `category`, then the
    /// `id` to change.
    UpdatePost,
    /// Parameter: `id`.
    DeletePost,
    /// Parameter: `id`.
    SelectPost,
    /// Parameter: `slug`.
    SelectPostBySlug,
    /// No parameters.
    SelectPosts,
    /// Parameter: `category`.
    SelectPostsByCategory,
    /// Parameter: a tag.
    SelectPostsByTag,
}

/// A query with its bind parameters, in placeholder order.
#[derive(Clone, Debug, PartialEq, Eq)]
pub struct Statement {
    pub query: Query,
    pub params: Vec<SqlValue>,
}

/// A failed statement: the kind of failure and what the store said.
#[derive(Clone, Debug, PartialEq, Eq)]
pub struct Failure {
    pub error: StorageError,
    pub detail: String,
}

/// The mathematical content of a [`Failure`].
pub struct FailureView {
    pub error: StorageError,
    pub detail: Seq<char>,
}

impl View for Failure {
    type V = FailureView;

    open spec fn view(&self) -> FailureView {
        FailureView { error: self.error, detail: self.detail@ }
    }
}

/// The content of the answer to a statement that changes a table.
pub open spec fn count_view(answer: Result<u64, Failure>) -> Result<u64, FailureView> {
    match answer {
        Ok(n) => Ok(n),
        Err(failure) => Err(failure@),
    }
}

/// The content of the answer to a statement that reads a table.
pub open spec fn rows_view(answer: Result<Vec<Vec<SqlValue>>, Failure>) -> Result<Seq<Seq<Datum>>, FailureView> {
    match answer {
        Ok(rows) => Ok(table(rows@)),
        Err(failure) => Err(failure@),
    }
}

/// The failure of a statement whose parameters do not fit its query.
pub open spec fn misfit() -> FailureView {
    FailureView { error: StorageError::Io, detail: "parameters do not fit the statement"@ }
}

/// The failure of an insert whose id is taken.
pub open spec fn conflict() -> FailureView {
    FailureView { error: StorageError::Conflict, detail: "duplicate key value violates unique constraint"@ }
}

/// The failure of a reading statement that was executed, or of a changing
/// statement that was queried.
pub open spec fn wrong_call() -> FailureView {
    FailureView { error: StorageError::Io, detail: "statement does not match the call"@ }
}

/// The kind of value that a column or a bind parameter holds.
#[derive(Clone, Copy, Debug, PartialEq, Eq, Structural)]
pub enum Kind {
    Int,
    Text,
    TextArray,
    Timestamp,
}

impl Datum {
    /// Whether the value may stand in a place of this kind: null may stand
    /// anywhere, every other value only in a place of its own kind.
    pub open spec fn fits(self, kind: Kind) -> bool {
        match self {
            Datum::Null => true,
            Datum::Int(_) => kind == Kind::Int,
            Datum::Text(_) => kind == Kind::Text,
            Datum::TextArray(_) => kind == Kind::TextArray,
            Datum::Timestamp(_) => kind == Kind::Timestamp,
        }
    }
}

impl SqlValue {
    /// Computes [`Datum::fits`].
    pub fn fits(&self, kind: Kind) -> (yes: bool)
        ensures
            yes == self@.fits(kind),
    {
        match self {
            SqlValue::Null => true,
            SqlValue::Int(_) => kind == Kind::Int,
            SqlValue::Text(_) => kind == Kind::Text,
            SqlValue::TextArray(_) => kind == Kind::TextArray,
            SqlValue::Timestamp(_) => kind == Kind::Timestamp,
        }
    }
}

/// Whether each value may stand in the place of the kind at its position.
pub open spec fn all_fit(values: Seq<Datum>, kinds: Seq<Kind>) -> bool {
    values.len() == kinds.len() && forall|i: int| 0 <= i < values.len() ==> (#[trigger] values[i]).fits(kinds[i])
}

/// The kinds of the columns of the `users` table, in column order.
pub open spec fn user_kinds() -> Seq<Kind> {
    seq![Kind::Int, Kind::Text, Kind::Text, Kind::Text]
}

/// The kinds of the columns of the `posts` table, in column order.
pub open spec fn post_kinds() -> Seq<Kind> {
    seq![
        Kind::Int,
        Kind::Text,
        Kind::Text,
        Kind::Text,
        Kind::TextArray,
        Kind::Text,
        Kind::Text,
        Kind::Text,
        Kind::Text,
        Kind::Timestamp,
        Kind::Text,
        Kind::Text,
        Kind::Text,
        Kind::Text,
        Kind::Text,
        Kind::Text,
        Kind::Text,
        Kind::Text,
        Kind::Text,
        Kind::Text,
        Kind::Text,
        Kind::Text,
        Kind::Text,
        Kind::Text,
        Kind::Text,
        Kind::Text,
        Kind::Text,
        Kind::Text,
        Kind::Text,
        Kind::Text,
    ]
}

impl Query {
    /// The kinds of the bind parameters, in placeholder order.
    pub open spec fn param_kinds(self) -> Seq<Kind> {
        match self {
            Query::InsertUser => user_kinds(),
            Query::UpdateUser => seq![Kind::Text, Kind::Text, Kind::Text, Kind::Int],
            Query::InsertPost => post_kinds(),
            Query::UpdatePost => seq![Kind::Text, Kind::Text, Kind::Text, Kind::TextArray, Kind::Text, Kind::Int],
            Query::SelectUsers => Seq::empty(),
            Query::SelectPosts => Seq::empty(),
            Query::SelectPostBySlug => seq![Kind::Text],
            Query::SelectPostsByCategory => seq![Kind::Text],
            Query::SelectPostsByTag => seq![Kind::Text],
            _ => seq![Kind::Int],
        }
    }

    /// The kinds of the columns of the rows that a reading query selects,
    /// in column order; nothing for a query that changes a table.
    pub open spec fn column_kinds(self) -> Seq<Kind> {
        match self {
            Query::SelectUser => user_kinds(),
            Query::SelectUsers => user_kinds(),
            Query::SelectPost => post_kinds(),
            Query::SelectPostBySlug => post_kinds(),
            Query::SelectPosts => post_kinds(),
            Query::SelectPostsByCategory => post_kinds(),
            Query::SelectPostsByTag => post_kinds(),
            _ => Seq::empty(),
        }
    }

    /// Computes [`Query::param_kinds`].
    pub fn kinds_of_params(self) -> (kinds: Vec<Kind>)
        ensures
            kinds@ == self.param_kinds(),
    {
        match self {
            Query::InsertUser => vec![Kind::Int, Kind::Text, Kind::Text, Kind::Text],
            Query::UpdateUser => vec![Kind::Text, Kind::Text, Kind::Text, Kind::Int],
            Query::InsertPost => post_kind_list(),
            Query::UpdatePost => vec![Kind::Text, Kind::Text, Kind::Text, Kind::TextArray, Kind::Text, Kind::Int],
            Query::SelectUsers => Vec::new(),
            Query::SelectPosts => Vec::new(),
            Query::SelectPostBySlug => vec![Kind::Text],
            Query::SelectPostsByCategory => vec![Kind::Text],
            Query::SelectPostsByTag => vec![Kind::Text],
            _ => vec![Kind::Int],
        }
    }

    /// Computes [`Query::column_kinds`].
    pub fn kinds_of_columns(self) -> (kinds: Vec<Kind>)
        ensures
            kinds@ == self.column_kinds(),
    {
        match self {
            Query::SelectUser => vec![Kind::Int, Kind::Text, Kind::Text, Kind::Text],
            Query::SelectUsers => vec![Kind::Int, Kind::Text, Kind::Text, Kind::Text],
            Query::SelectPost => post_kind_list(),
            Query::SelectPostBySlug => post_kind_list(),
            Query::SelectPosts => post_kind_list(),
            Query::SelectPostsByCategory => post_kind_list(),
            Query::SelectPostsByTag => post_kind_list(),
            _ => Vec::new(),
        }
    }
}

fn post_kind_list() -> (kinds: Vec<Kind>)
    ensures
        kinds@ == post_kinds(),
{
    vec![
        Kind::Int,
        Kind::Text,
        Kind::Text,
        Kind::Text,
        Kind::TextArray,
        Kind::Text,
        Kind::Text,
        Kind::Text,
        Kind::Text,
        Kind::Timestamp,
        Kind::Text,
        Kind::Text,
        Kind::Text,
        Kind::Text,
        Kind::Text,
        Kind::Text,
        Kind::Text,
        Kind::Text,
        Kind::Text,
        Kind::Text,
        Kind::Text,
        Kind::Text,
        Kind::Text,
        Kind::Text,
        Kind::Text,
        Kind::Text,
        Kind::Text,
        Kind::Text,
        Kind::Text,
        Kind::Text,
    ]
}

/// The failure of an answer that holds a row that does not decode.
pub open spec fn undecodable() -> FailureView {
    FailureView { error: StorageError::Io, detail: "row does not decode"@ }
}

/// The failure of an answer that holds several rows where one was asked for.
pub open spec fn ambiguous() -> FailureView {
    FailureView { error: StorageError::Io, detail: "query returned an unexpected number of rows"@ }
}

impl Failure {
    /// The failure [`undecodable`].
    pub fn undecodable() -> (failure: Failure)
        ensures
            failure@ == undecodable(),
    {
        Failure { error: StorageError::Io, detail: String::from_str("row does not decode") }
    }

    /// The failure [`ambiguous`].
    pub fn ambiguous() -> (failure: Failure)
        ensures
            failure@ == ambiguous(),
    {
        Failure { error: StorageError::Io, detail: String::from_str("query returned an unexpected number of rows") }
    }
}

impl Statement {
    /// A statement without parameters.
    pub fn bare(query: Query) -> (statement: Statement)
        ensures
            statement.query == query,
            data(statement.params@) == Seq::<Datum>::empty(),
    {
        let statement = Statement { query, params: Vec::new() };
        statement
    }

    /// A statement whose one parameter is an id.
    pub fn keyed(query: Query, id: i64) -> (statement: Statement)
        ensures
            statement.query == query,
            data(statement.params@) == seq![Datum::Int(id)],
    {
        let statement = Statement { query, params: vec![SqlValue::Int(id)] };
        statement
    }

    /// A statement whose one parameter is a text.
    pub fn named(query: Query, text: &String) -> (statement: Statement)
        ensures
            statement.query == query,
            data(statement.params@) == seq![Datum::Text(text@)],
    {
        let statement = Statement { query, params: vec![SqlValue::text(text)] };
        statement
    }
}

impl Query {
    /// The SQL text of the query.
    pub open spec fn text(self) -> Seq<char> {
        match self {
            Query::InsertUser => "INSERT INTO users (id, name, email, password) VALUES ($1, $2, $3, $4)"@,
            Query::UpdateUser => "UPDATE users SET name = $1, email = $2, password = $3 WHERE id = $4"@,
            Query::DeleteUser => "DELETE FROM users WHERE id = $1"@,
            Query::SelectUser => "SELECT id, name, email, password FROM users WHERE id = $1"@,
            Query::SelectUsers => "SELECT id, name, email, password FROM users"@,
            Query::InsertPost => "INSERT INTO posts (id, title, body, image, tags, category, company_name, company_logo, company_description, created_at, slug, video, body_2, body_3, body_4, body_5, body_6, title_2, title_3, list_1_title, list_1_description, list_2_title, list_2_description, list_3_title, list_3_description, quote_text, quote_author_name, quote_author_title, quote_author_role, quote_author_image) VALUES ($1, $2, $3, $4, $5, $6, $7, $8, $9, $10, $11, $12, $13, $14, $15, $16, $17, $18, $19, $20, $21, $22, $23, $24, $25, $26, $27, $28, $29, $30)"@,
            Query::UpdatePost => "UPDATE posts SET title = $1, body = $2, image = $3, tags = $4, category = $5 WHERE id = $6"@,
            Query::DeletePost => "DELETE FROM posts WHERE id = $1"@,
            Query::SelectPost => "SELECT id, title, body, image, tags, category, company_name, company_logo, company_description, created_at, slug, video, body_2, body_3, body_4, body_5, body_6, title_2, title_3, list_1_title, list_1_description, list_2_title, list_2_description, list_3_title, list_3_description, quote_text, quote_author_name, quote_author_title, quote_author_role, quote_author_image FROM posts WHERE id = $1"@,
            Query::SelectPostBySlug => "SELECT id, title, body, image, tags, category, company_name, company_logo, company_description, created_at, slug, video, body_2, body_3, body_4, body_5, body_6, title_2, title_3, list_1_title, list_1_description, list_2_title, list_2_description, list_3_title, list_3_description, quote_text, quote_author_name, quote_author_title, quote_author_role, quote_author_image FROM posts WHERE slug = $1"@,
            Query::SelectPosts => "SELECT id, title, body, image, tags, category, company_name, company_logo, company_description, created_at, slug, video, body_2, body_3, body_4, body_5, body_6, title_2, title_3, list_1_title, list_1_description, list_2_title, list_2_description, list_3_title, list_3_description, quote_text, quote_author_name, quote_author_title, quote_author_role, quote_author_image FROM posts"@,
            Query::SelectPostsByCategory => "SELECT id, title, body, image, tags, category, company_name, company_logo, company_description, created_at, slug, video, body_2, body_3, body_4, body_5, body_6, title_2, title_3, list_1_title, list_1_description, list_2_title, list_2_description, list_3_title, list_3_description, quote_text, quote_author_name, quote_author_title, quote_author_role, quote_author_image FROM posts WHERE category = $1"@,
            Query::SelectPostsByTag => "SELECT id, title, body, image, tags, category, company_name, company_logo, company_description, created_at, slug, video, body_2, body_3, body_4, body_5, body_6, title_2, title_3, list_1_title, list_1_description, list_2_title, list_2_description, list_3_title, list_3_description, quote_text, quote_author_name, quote_author_title, quote_author_role, quote_author_image FROM posts WHERE $1 = ANY(tags)"@,
        }
    }

    /// The number of bind parameters of the query.
    pub open spec fn arity(self) -> nat {
        match self {
            Query::InsertUser => 4,
            Query::UpdateUser => 4,
            Query::InsertPost => 30,
            Query::UpdatePost => 6,
            Query::SelectUsers => 0,
            Query::SelectPosts => 0,
            _ => 1,
        }
    }

    /// Whether the query reads and changes nothing.
    pub open spec fn reads(self) -> bool {
        match self {
            Query::SelectUser => true,
            Query::SelectUsers => true,
            Query::SelectPost => true,
            Query::SelectPostBySlug => true,
            Query::SelectPosts => true,
            Query::SelectPostsByCategory => true,
            Query::SelectPostsByTag => true,
            _ => false,
        }
    }

    /// The SQL text of the query, with `$1`, `$2`, ... where the bind
    /// parameters go.
    pub fn sql(self) -> (text: &'static str)
        ensures
            text@ == self.text(),
    {
        match self {
            Query::InsertUser => "INSERT INTO users (id, name, email, password) VALUES ($1, $2, $3, $4)",
            Query::UpdateUser => "UPDATE users SET name = $1, email = $2, password = $3 WHERE id = $4",
            Query::DeleteUser => "DELETE FROM users WHERE id = $1",
            Query::SelectUser => "SELECT id, name, email, password FROM users WHERE id = $1",
            Query::SelectUsers => "SELECT id, name, email, password FROM users",
            Query::InsertPost => "INSERT INTO posts (id, title, body, image, tags, category, company_name, company_logo, company_description, created_at, slug, video, body_2, body_3, body_4, body_5, body_6, title_2, title_3, list_1_title, list_1_description, list_2_title, list_2_description, list_3_title, list_3_description, quote_text, quote_author_name, quote_author_title, quote_author_role, quote_author_image) VALUES ($1, $2, $3, $4, $5, $6, $7, $8, $9, $10, $11, $12, $13, $14, $15, $16, $17, $18, $19, $20, $21, $22, $23, $24, $25, $26, $27, $28, $29, $30)",
            Query::UpdatePost => "UPDATE posts SET title = $1, body = $2, image = $3, tags = $4, category = $5 WHERE id = $6",
            Query::DeletePost => "DELETE FROM posts WHERE id = $1",
            Query::SelectPost => "SELECT id, title, body, image, tags, category, company_name, company_logo, company_description, created_at, slug, video, body_2, body_3, body_4, body_5, body_6, title_2, title_3, list_1_title, list_1_description, list_2_title, list_2_description, list_3_title, list_3_description, quote_text, quote_author_name, quote_author_title, quote_author_role, quote_author_image FROM posts WHERE id = $1",
            Query::SelectPostBySlug => "SELECT id, title, body, image, tags, category, company_name, company_logo, company_description, created_at, slug, video, body_2, body_3, body_4, body_5, body_6, title_2, title_3, list_1_title, list_1_description, list_2_title, list_2_description, list_3_title, list_3_description, quote_text, quote_author_name, quote_author_title, quote_author_role, quote_author_image FROM posts WHERE slug = $1",
            Query::SelectPosts => "SELECT id, title, body, image, tags, category, company_name, company_logo, company_description, created_at, slug, video, body_2, body_3, body_4, body_5, body_6, title_2, title_3, list_1_title, list_1_description, list_2_title, list_2_description, list_3_title, list_3_description, quote_text, quote_author_name, quote_author_title, quote_author_role, quote_author_image FROM posts",
            Query::SelectPostsByCategory => "SELECT id, title, body, image, tags, category, company_name, company_logo, company_description, created_at, slug, video, body_2, body_3, body_4, body_5, body_6, title_2, title_3, list_1_title, list_1_description, list_2_title, list_2_description, list_3_title, list_3_description, quote_text, quote_author_name, quote_author_title, quote_author_role, quote_author_image FROM posts WHERE category = $1",
            Query::SelectPostsByTag => "SELECT id, title, body, image, tags, category, company_name, company_logo, company_description, created_at, slug, video, body_2, body_3, body_4, body_5, body_6, title_2, title_3, list_1_title, list_1_description, list_2_title, list_2_description, list_3_title, list_3_description, quote_text, quote_author_name, quote_author_title, quote_author_role, quote_author_image FROM posts WHERE $1 = ANY(tags)",
        }
    }

    /// Computes [`Query::reads`].
    pub fn is_read(self) -> (reads: bool)
        ensures
            reads == self.reads(),
    {
        match self {
            Query::SelectUser => true,
            Query::SelectUsers => true,
            Query::SelectPost => true,
            Query::SelectPostBySlug => true,
            Query::SelectPosts => true,
            Query::SelectPostsByCategory => true,
            Query::SelectPostsByTag => true,
            _ => false,
        }
    }
}

/// The two tables, each in the order in which its records were inserted.
pub struct StoreView {
    pub users: Seq<UserView>,
    pub posts: Seq<PostView>,
}

/// The ids of a list of users.
pub open spec fn user_ids(users: Seq<UserView>) -> Seq<i64> {
    Seq::new(users.len(), |i: int| users[i].id)
}

/// The ids of a list of posts.
pub open spec fn post_ids(posts: Seq<PostView>) -> Seq<i64> {
    Seq::new(posts.len(), |i: int| posts[i].id)
}

/// The rows of a list of users.
pub open spec fn user_rows(users: Seq<UserView>) -> Seq<Seq<Datum>> {
    Seq::new(users.len(), |i: int| User::row_of(users[i]))
}

/// The rows of a list of posts.
pub open spec fn post_rows(posts: Seq<PostView>) -> Seq<Seq<Datum>> {
    Seq::new(posts.len(), |i: int| Post::row_of(posts[i]))
}

/// Which posts a reading statement selects.
#[derive(Clone, Copy, Debug, PartialEq, Eq, Structural)]
pub enum Selection {
    Slug,
    Category,
    Tag,
}

impl Selection {
    /// Whether `post` is selected under the key `key`.
    pub open spec fn picks(self, key: Seq<char>, post: PostView) -> bool {
        match self {
            Selection::Slug => post.slug == key,
            Selection::Category => post.category == Some(key),
            Selection::Tag => post.tags is Some && post.tags->0.contains(key),
        }
    }
}

impl Selection {
    /// [`Selection::picks`] under a fixed key, as a predicate on posts.
    pub open spec fn picker(self, key: Seq<char>) -> spec_fn(PostView) -> bool {
        |post: PostView| self.picks(key, post)
    }
}

impl StoreView {
    /// No id occurs twice in a table.
    pub open spec fn wf(self) -> bool {
        user_ids(self.users).no_duplicates() && post_ids(self.posts).no_duplicates()
    }

    /// The user with this id.
    pub open spec fn user(self, id: i64) -> Option<UserView> {
        if user_ids(self.users).contains(id) {
            Some(self.users[user_ids(self.users).index_of(id)])
        } else {
            None
        }
    }

    /// The post with this id.
    pub open spec fn post(self, id: i64) -> Option<PostView> {
        if post_ids(self.posts).contains(id) {
            Some(self.posts[post_ids(self.posts).index_of(id)])
        } else {
            None
        }
    }

    /// The store with one more user at the end of its table.
    pub open spec fn with_user(self, user: UserView) -> StoreView {
        StoreView { users: self.users.push(user), posts: self.posts }
    }

    /// The store with the name, email and password of the user `id`
    /// replaced; the store itself where no user has this id.
    pub open spec fn user_changed(
        self,
        id: i64,
        name: Seq<char>,
        email: Seq<char>,
        password: Option<Seq<char>>,
    ) -> StoreView {
        if user_ids(self.users).contains(id) {
            let at = user_ids(self.users).index_of(id);
            StoreView { users: self.users.update(at, UserView { id, name, email, password }), posts: self.posts }
        } else {
            self
        }
    }

    /// The store without the user `id`; the store itself where no user has
    /// this id.
    pub open spec fn user_removed(self, id: i64) -> StoreView {
        if user_ids(self.users).contains(id) {
            StoreView { users: self.users.remove(user_ids(self.users).index_of(id)), posts: self.posts }
        } else {
            self
        }
    }

    /// The store with one more post at the end of its table.
    pub open spec fn with_post(self, post: PostView) -> StoreView {
        StoreView { users: self.users, posts: self.posts.push(post) }
    }

    /// The store with title, body, image, tags and category of the post
    /// `id` replaced and its other fields as they were; the store itself
    /// where no post has this id.
    pub open spec fn post_changed(
        self,
        id: i64,
        title: Seq<char>,
        body: Seq<char>,
        image: Option<Seq<char>>,
        tags: Option<Seq<Seq<char>>>,
        category: Option<Seq<char>>,
    ) -> StoreView {
        if post_ids(self.posts).contains(id) {
            let at = post_ids(self.posts).index_of(id);
            let post = PostView { title, body, image, tags, category, ..self.posts[at] };
            StoreView { users: self.users, posts: self.posts.update(at, post) }
        } else {
            self
        }
    }

    /// The store without the post `id`; the store itself where no post has
    /// this id.
    pub open spec fn post_removed(self, id: i64) -> StoreView {
        if post_ids(self.posts).contains(id) {
            StoreView { users: self.users, posts: self.posts.remove(post_ids(self.posts).index_of(id)) }
        } else {
            self
        }
    }

    /// How many records a statement on the user `id` touches.
    pub open spec fn users_touched(self, id: i64) -> u64 {
        if user_ids(self.users).contains(id) {
            1
        } else {
            0
        }
    }

    /// How many records a statement on the post `id` touches.
    pub open spec fn posts_touched(self, id: i64) -> u64 {
        if post_ids(self.posts).contains(id) {
            1
        } else {
            0
        }
    }

    /// The posts that a selection picks, in table order.
    pub open spec fn selected(self, selection: Selection, key: Seq<char>) -> Seq<PostView> {
        self.posts.filter(selection.picker(key))
    }

    /// What the creation of a user leaves and gives: the store unchanged
    /// and a conflict where the id is taken, the store with the user at the
    /// end of its table and the user otherwise.
    pub open spec fn user_created(self, user: UserView) -> (StoreView, Result<UserView, FailureView>) {
        if self.user(user.id) is Some {
            (self, Err(conflict()))
        } else {
            (self.with_user(user), Ok(user))
        }
    }

    /// What the creation of a post leaves and gives.
    pub open spec fn post_created(self, post: PostView) -> (StoreView, Result<PostView, FailureView>) {
        if self.post(post.id) is Some {
            (self, Err(conflict()))
        } else {
            (self.with_post(post), Ok(post))
        }
    }

    /// The store after the insert of a user.
    pub open spec fn user_inserted(self, params: Seq<Datum>) -> (StoreView, Result<u64, FailureView>) {
        match User::decoded(params) {
            Err(_) => (self, Err(misfit())),
            Ok(user) => if self.user(user.id) is Some {
                (self, Err(conflict()))
            } else {
                (self.with_user(user), Ok(1))
            },
        }
    }

    /// The store after the update of a user: name, email and password are
    /// replaced; an id that is not there changes nothing and counts zero.
    pub open spec fn user_updated(self, params: Seq<Datum>) -> (StoreView, Result<u64, FailureView>) {
        match (text_at(params, 0), text_at(params, 1), int_at(params, 3)) {
            (Ok(name), Ok(email), Ok(id)) => (
                self.user_changed(id, name, email, opt_text_at(params, 2)),
                Ok(self.users_touched(id)),
            ),
            _ => (self, Err(misfit())),
        }
    }

    /// The store after the removal of a user: an id that is not there
    /// changes nothing and counts zero.
    pub open spec fn user_deleted(self, params: Seq<Datum>) -> (StoreView, Result<u64, FailureView>) {
        match int_at(params, 0) {
            Ok(id) => (self.user_removed(id), Ok(self.users_touched(id))),
            Err(_) => (self, Err(misfit())),
        }
    }

    /// The store after the insert of a post.
    pub open spec fn post_inserted(self, params: Seq<Datum>) -> (StoreView, Result<u64, FailureView>) {
        match Post::decoded(params) {
            Err(_) => (self, Err(misfit())),
            Ok(post) => if self.post(post.id) is Some {
                (self, Err(conflict()))
            } else {
                (self.with_post(post), Ok(1))
            },
        }
    }

    /// The store after the update of a post: title, body, image, tags and
    /// category are replaced and every other field stays; an id that is not
    /// there changes nothing and counts zero.
    pub open spec fn post_updated(self, params: Seq<Datum>) -> (StoreView, Result<u64, FailureView>) {
        match (text_at(params, 0), text_at(params, 1), int_at(params, 5)) {
            (Ok(title), Ok(body), Ok(id)) => (
                self.post_changed(
                    id,
                    title,
                    body,
                    opt_text_at(params, 2),
                    opt_texts_at(params, 3),
                    opt_text_at(params, 4),
                ),
                Ok(self.posts_touched(id)),
            ),
            _ => (self, Err(misfit())),
        }
    }

    /// The store after the removal of a post: an id that is not there
    /// changes nothing and counts zero.
    pub open spec fn post_deleted(self, params: Seq<Datum>) -> (StoreView, Result<u64, FailureView>) {
        match int_at(params, 0) {
            Ok(id) => (self.post_removed(id), Ok(self.posts_touched(id))),
            Err(_) => (self, Err(misfit())),
        }
    }

    /// The rows of the record with the id in the first parameter.
    pub open spec fn user_selected(self, params: Seq<Datum>) -> Result<Seq<Seq<Datum>>, FailureView> {
        match int_at(params, 0) {
            Ok(id) => match self.user(id) {
                Some(user) => Ok(seq![User::row_of(user)]),
                None => Ok(Seq::empty()),
            },
            Err(_) => Err(misfit()),
        }
    }

    /// The rows of the post with the id in the first parameter.
    pub open spec fn post_selected(self, params: Seq<Datum>) -> Result<Seq<Seq<Datum>>, FailureView> {
        match int_at(params, 0) {
            Ok(id) => match self.post(id) {
                Some(post) => Ok(seq![Post::row_of(post)]),
                None => Ok(Seq::empty()),
            },
            Err(_) => Err(misfit()),
        }
    }

    /// The rows of the posts that a selection picks under the key in the
    /// first parameter.
    pub open spec fn posts_selected(self, selection: Selection, params: Seq<Datum>) -> Result<Seq<Seq<Datum>>, FailureView> {
        match text_at(params, 0) {
            Ok(key) => Ok(post_rows(self.selected(selection, key))),
            Err(_) => Err(misfit()),
        }
    }
}

/// What a changing statement does: the store after it, and the number of
/// records it touched or the failure. A statement with the wrong number of
/// parameters, or a reading one, fails and changes nothing.
pub open spec fn executed(store: StoreView, query: Query, params: Seq<Datum>) -> (StoreView, Result<u64, FailureView>) {
    if query.reads() {
        (store, Err(wrong_call()))
    } else if params.len() != query.arity() {
        (store, Err(misfit()))
    } else {
        match query {
            Query::InsertUser => store.user_inserted(params),
            Query::UpdateUser => store.user_updated(params),
            Query::DeleteUser => store.user_deleted(params),
            Query::InsertPost => store.post_inserted(params),
            Query::UpdatePost => store.post_updated(params),
            _ => store.post_deleted(params),
        }
    }
}

/// What a reading statement answers: the rows it selects, in table order.
/// A statement with the wrong number of parameters, or a changing one,
/// fails.
pub open spec fn queried(store: StoreView, query: Query, params: Seq<Datum>) -> Result<Seq<Seq<Datum>>, FailureView> {
    if !query.reads() {
        Err(wrong_call())
    } else if params.len() != query.arity() {
        Err(misfit())
    } else {
        match query {
            Query::SelectUser => store.user_selected(params),
            Query::SelectUsers => Ok(user_rows(store.users)),
            Query::SelectPost => store.post_selected(params),
            Query::SelectPostBySlug => store.posts_selected(Selection::Slug, params),
            Query::SelectPosts => Ok(post_rows(store.posts)),
            Query::SelectPostsByCategory => store.posts_selected(Selection::Category, params),
            _ => store.posts_selected(Selection::Tag, params),
        }
    }
}

} // verus!
