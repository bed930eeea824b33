//! The handler layer: each operation of the service as a function from
//! typed arguments to a response, with the replies that turn a repository
//! result into a status and a payload.

use vstd::prelude::*;
use vstd::string::*;
use crate::auth::{is_valid_user, valid_credentials, LoginInfo, LoginResponse, TokenAuthority};
use crate::clock::{now, Moment};
use crate::gate::{authorize_at, gate_verdict, Header};
use crate::memory::Store;
use crate::models::post::{post_found, post_made, post_views, posts_found, Post, PostView};
use crate::models::user::{user_found, user_made, user_views, users_found, User, UserView};
use crate::store::{post_rows, Failure, FailureView, Selection, StorageError, StoreView};
use crate::text::{id_of, join, opt_text, parse_id, spaced};

verus! {

/// Status of a reply that carries what was asked for.
pub const OK: u16 = 200;

/// Status of a request whose fields are missing or malformed.
pub const BAD_REQUEST: u16 = 400;

/// Status of a request that the access gate turned down.
pub const UNAUTHORIZED: u16 = 401;

/// Status of a lookup that found nothing.
pub const NOT_FOUND: u16 = 404;

/// Status of a creation whose id is taken.
pub const CONFLICT: u16 = 409;

/// Status of a request that the store could not serve.
pub const INTERNAL_SERVER_ERROR: u16 = 500;

/// The payload of a response. The web layer renders `Message`, `Error`,
/// `Users` and `Posts` as a JSON object with the one key `message`, `error`,
/// `users` or `posts`, and `User` and `Post` as the bare record.
#[derive(Clone, Debug, PartialEq, Eq)]
pub enum Body {
    Empty,
    Message(String),
    Error(String),
    User(User),
    Users(Vec<User>),
    Post(Post),
    Posts(Vec<Post>),
}

/// The mathematical content of a [`Body`].
pub enum BodyView {
    Empty,
    Message(Seq<char>),
    Error(Seq<char>),
    User(UserView),
    Users(Seq<UserView>),
    Post(PostView),
    Posts(Seq<PostView>),
}

impl View for Body {
    type V = BodyView;

    open spec fn view(&self) -> BodyView {
        match self {
            Body::Empty => BodyView::Empty,
            Body::Message(text) => BodyView::Message(text@),
            Body::Error(text) => BodyView::Error(text@),
            Body::User(user) => BodyView::User(user@),
            Body::Users(users) => BodyView::Users(user_views(users@)),
            Body::Post(post) => BodyView::Post(post@),
            Body::Posts(posts) => BodyView::Posts(post_views(posts@)),
        }
    }
}

/// What a handler answers: a status and a payload.
#[derive(Clone, Debug, PartialEq, Eq)]
pub struct Response {
    pub status: u16,
    pub body: Body,
}

/// The mathematical content of a [`Response`].
pub struct ResponseView {
    pub status: u16,
    pub body: BodyView,
}

impl View for Response {
    type V = ResponseView;

    open spec fn view(&self) -> ResponseView {
        ResponseView { status: self.status, body: self.body@ }
    }
}

impl StorageError {
    /// The status that reports this kind of failure.
    pub open spec fn status(self) -> u16 {
        match self {
            StorageError::Io => INTERNAL_SERVER_ERROR,
            StorageError::Conflict => CONFLICT,
            StorageError::NotFound => NOT_FOUND,
        }
    }

    /// Computes [`StorageError::status`].
    pub fn to_status(self) -> (status: u16)
        ensures
            status == self.status(),
    {
        match self {
            StorageError::Io => INTERNAL_SERVER_ERROR,
            StorageError::Conflict => CONFLICT,
            StorageError::NotFound => NOT_FOUND,
        }
    }
}

/// Why a request cannot be served as it stands.
#[derive(Clone, Debug, PartialEq, Eq)]
pub enum ValidationError {
    /// The key in the path, which is held here, writes no id.
    MalformedId(String),
}

/// The mathematical content of a [`ValidationError`].
pub enum ValidationErrorView {
    MalformedId(Seq<char>),
}

impl View for ValidationError {
    type V = ValidationErrorView;

    open spec fn view(&self) -> ValidationErrorView {
        match self {
            ValidationError::MalformedId(key) => ValidationErrorView::MalformedId(key@),
        }
    }
}

/// The id that a key in a path writes, or what is wrong with the key.
pub open spec fn required_id(key: Seq<char>) -> Result<i64, ValidationErrorView> {
    match id_of(key) {
        Some(id) => Ok(id),
        None => Err(ValidationErrorView::MalformedId(key)),
    }
}

/// The content of the result of reading an id.
pub open spec fn id_read(result: Result<i64, ValidationError>) -> Result<i64, ValidationErrorView> {
    match result {
        Ok(id) => Ok(id),
        Err(error) => Err(error@),
    }
}

/// Reads the id that a key in a path writes.
pub fn require_id(key: &str) -> (result: Result<i64, ValidationError>)
    ensures
        id_read(result) == required_id(key@),
{
    match parse_id(key) {
        Some(id) => Ok(id),
        None => Err(ValidationError::MalformedId(key.to_owned())),
    }
}

/// The reply to a request that cannot be served as it stands: 400, and an
/// error envelope that names the fault.
pub open spec fn invalid(error: ValidationErrorView) -> ResponseView {
    match error {
        ValidationErrorView::MalformedId(key) => rejected("Invalid id: "@ + key),
    }
}

/// A user as it is handed out: without its password.
pub open spec fn hidden(user: UserView) -> UserView {
    UserView { password: None, ..user }
}

/// A list of users as it is handed out.
pub open spec fn all_hidden(users: Seq<UserView>) -> Seq<UserView> {
    Seq::new(users.len(), |i: int| hidden(users[i]))
}

/// A post with `now` as the instant of its creation, where it names none.
pub open spec fn stamped(post: PostView, now: i64) -> PostView {
    if post.created_at is Some {
        post
    } else {
        PostView { created_at: Some(now), ..post }
    }
}

/// The reply to a request that the access gate turned down.
pub open spec fn unauthorized() -> ResponseView {
    ResponseView { status: UNAUTHORIZED, body: BodyView::Empty }
}

/// The reply to a lookup that found nothing.
pub open spec fn not_found() -> ResponseView {
    ResponseView { status: NOT_FOUND, body: BodyView::Empty }
}

/// The reply that confirms a change.
pub open spec fn confirmed(message: Seq<char>) -> ResponseView {
    ResponseView { status: OK, body: BodyView::Message(message) }
}

/// The reply that reports a failure of the store: the status of its kind,
/// and an error envelope with what the store said behind `prefix`.
pub open spec fn failed(prefix: Seq<char>, failure: FailureView) -> ResponseView {
    ResponseView { status: failure.error.status(), body: BodyView::Error(prefix + failure.detail) }
}

/// The reply to a request with missing or malformed fields.
pub open spec fn rejected(detail: Seq<char>) -> ResponseView {
    ResponseView { status: BAD_REQUEST, body: BodyView::Error(detail) }
}

/// The reply to the result of a change.
pub open spec fn change_reply(result: Result<(), FailureView>, message: Seq<char>, prefix: Seq<char>) -> ResponseView {
    match result {
        Ok(_) => confirmed(message),
        Err(failure) => failed(prefix, failure),
    }
}

/// The reply to the result of the creation of a user.
pub open spec fn user_made_reply(result: Result<UserView, FailureView>) -> ResponseView {
    match result {
        Ok(_) => confirmed("User added successfully"@),
        Err(failure) => failed("Failed to add user: "@, failure),
    }
}

/// The reply to the result of the creation of a post.
pub open spec fn post_made_reply(result: Result<PostView, FailureView>) -> ResponseView {
    match result {
        Ok(_) => confirmed("Post added successfully"@),
        Err(failure) => failed("Failed to add post: "@, failure),
    }
}

/// The reply to the result of a lookup of a user.
pub open spec fn user_reply(result: Result<Option<UserView>, FailureView>) -> ResponseView {
    match result {
        Ok(Some(user)) => ResponseView { status: OK, body: BodyView::User(hidden(user)) },
        Ok(None) => not_found(),
        Err(failure) => failed("Failed to fetch user: "@, failure),
    }
}

/// The reply to the result of a scan of the users.
pub open spec fn users_reply(result: Result<Seq<UserView>, FailureView>) -> ResponseView {
    match result {
        Ok(users) => ResponseView { status: OK, body: BodyView::Users(all_hidden(users)) },
        Err(failure) => failed("Failed to fetch users: "@, failure),
    }
}

/// The reply to the result of a lookup of a post.
pub open spec fn post_reply(result: Result<Option<PostView>, FailureView>) -> ResponseView {
    match result {
        Ok(Some(post)) => ResponseView { status: OK, body: BodyView::Post(post) },
        Ok(None) => not_found(),
        Err(failure) => failed("Failed to fetch post: "@, failure),
    }
}

/// The reply to the result of a scan of the posts.
pub open spec fn posts_reply(result: Result<Seq<PostView>, FailureView>) -> ResponseView {
    match result {
        Ok(posts) => ResponseView { status: OK, body: BodyView::Posts(posts) },
        Err(failure) => failed("Failed to fetch posts: "@, failure),
    }
}

/// The content of the result of a change.
pub open spec fn change_view(result: Result<(), Failure>) -> Result<(), FailureView> {
    match result {
        Ok(_) => Ok(()),
        Err(failure) => Err(failure@),
    }
}

impl User {
    /// The user as it is handed out: without its password.
    pub fn public(self) -> (user: User)
        ensures
            user@ == hidden(self@),
    {
        User { id: self.id, name: self.name, email: self.email, password: None }
    }
}

impl Post {
    /// The post with `now` (microseconds since the epoch) as the instant of
    /// its creation, where it names none.
    pub fn stamp(self, now: i64) -> (post: Post)
        ensures
            post@ == stamped(self@, now),
    {
        if self.created_at.is_some() {
            self
        } else {
            let mut post = self;
            post.created_at = Some(now);
            post
        }
    }
}

impl Response {
    /// The reply to a request that the access gate turned down.
    pub fn unauthorized() -> (response: Response)
        ensures
            response@ == unauthorized(),
    {
        Response { status: UNAUTHORIZED, body: Body::Empty }
    }

    /// The reply to a lookup that found nothing.
    pub fn not_found() -> (response: Response)
        ensures
            response@ == not_found(),
    {
        Response { status: NOT_FOUND, body: Body::Empty }
    }

    /// The reply that confirms a change.
    pub fn confirmed(message: &str) -> (response: Response)
        ensures
            response@ == confirmed(message@),
    {
        Response { status: OK, body: Body::Message(message.to_owned()) }
    }

    /// The reply that reports a failure of the store.
    pub fn failed(prefix: &str, failure: &Failure) -> (response: Response)
        ensures
            response@ == failed(prefix@, failure@),
    {
        Response { status: failure.error.to_status(), body: Body::Error(join(prefix, failure.detail.as_str())) }
    }

    /// The reply to a request with missing or malformed fields.
    pub fn rejected(detail: &str) -> (response: Response)
        ensures
            response@ == rejected(detail@),
    {
        Response { status: BAD_REQUEST, body: Body::Error(detail.to_owned()) }
    }

    /// The reply to a request that cannot be served as it stands.
    pub fn invalid(error: &ValidationError) -> (response: Response)
        ensures
            response@ == invalid(error@),
    {
        match error {
            ValidationError::MalformedId(key) => Response {
                status: BAD_REQUEST,
                body: Body::Error(join("Invalid id: ", key.as_str())),
            },
        }
    }

    /// The reply to the result of a change.
    pub fn for_change(result: Result<(), Failure>, message: &str, prefix: &str) -> (response: Response)
        ensures
            response@ == change_reply(change_view(result), message@, prefix@),
    {
        match result {
            Ok(_) => Response::confirmed(message),
            Err(failure) => Response::failed(prefix, &failure),
        }
    }

    /// The reply to the result of the creation of a user.
    pub fn for_new_user(result: Result<User, Failure>) -> (response: Response)
        ensures
            response@ == user_made_reply(user_made(result)),
    {
        match result {
            Ok(_) => Response::confirmed("User added successfully"),
            Err(failure) => Response::failed("Failed to add user: ", &failure),
        }
    }

    /// The reply to the result of the creation of a post.
    pub fn for_new_post(result: Result<Post, Failure>) -> (response: Response)
        ensures
            response@ == post_made_reply(post_made(result)),
    {
        match result {
            Ok(_) => Response::confirmed("Post added successfully"),
            Err(failure) => Response::failed("Failed to add post: ", &failure),
        }
    }

    /// The reply to the result of a lookup of a user.
    pub fn for_user(result: Result<Option<User>, Failure>) -> (response: Response)
        ensures
            response@ == user_reply(user_found(result)),
    {
        match result {
            Ok(Some(user)) => Response { status: OK, body: Body::User(user.public()) },
            Ok(None) => Response::not_found(),
            Err(failure) => Response::failed("Failed to fetch user: ", &failure),
        }
    }

    /// The reply to the result of a scan of the users.
    pub fn for_users(result: Result<Vec<User>, Failure>) -> (response: Response)
        ensures
            response@ == users_reply(users_found(result)),
    {
        match result {
            Ok(users) => {
                let mut shown: Vec<User> = Vec::new();
                let mut i: usize = 0;
                while i < users.len()
                    invariant
                        i <= users.len(),
                        shown@.len() == i,
                        forall|j: int| 0 <= j < i ==> shown@[j]@ == hidden(users@[j]@),
                    decreases users.len() - i,
                {
                    shown.push(users[i].duplicate().public());
                    i += 1;
                }
                assert(user_views(shown@) =~= all_hidden(user_views(users@)));
                Response { status: OK, body: Body::Users(shown) }
            },
            Err(failure) => Response::failed("Failed to fetch users: ", &failure),
        }
    }

    /// The reply to the result of a lookup of a post.
    pub fn for_post(result: Result<Option<Post>, Failure>) -> (response: Response)
        ensures
            response@ == post_reply(post_found(result)),
    {
        match result {
            Ok(Some(post)) => Response { status: OK, body: Body::Post(post) },
            Ok(None) => Response::not_found(),
            Err(failure) => Response::failed("Failed to fetch post: ", &failure),
        }
    }

    /// The reply to the result of a scan of the posts.
    pub fn for_posts(result: Result<Vec<Post>, Failure>) -> (response: Response)
        ensures
            response@ == posts_reply(posts_found(result)),
    {
        match result {
            Ok(posts) => Response { status: OK, body: Body::Posts(posts) },
            Err(failure) => Response::failed("Failed to fetch posts: ", &failure),
        }
    }
}

/// `GET /users`: every user, without passwords.
pub fn get_all_users(store: &Store) -> (response: Response)
    ensures
        response@ == (ResponseView { status: OK, body: BodyView::Users(all_hidden(store@.users)) }),
{
    Response::for_users(User::get_all(store))
}

/// `GET /users/{id}`: the user without its password, or 404.
pub fn get_user(user_id: i64, store: &Store) -> (response: Response)
    ensures
        response@ == user_reply(Ok(store@.user(user_id))),
{
    Response::for_user(User::get(store, user_id))
}

/// `POST /users`: creates the user; 409 where the id is taken.
pub fn add_user(user: User, store: &mut Store) -> (response: Response)
    ensures
        final(store)@ == old(store)@.user_created(user@).0,
        response@ == user_made_reply(old(store)@.user_created(user@).1),
        final(store)@.wf(),
{
    Response::for_new_user(User::new(user.id, user.name, user.email, user.password, store))
}

/// `DELETE /users/{id}`: removes the user; an id that is not there is no
/// error.
pub fn delete_user(user_id: i64, store: &mut Store) -> (response: Response)
    ensures
        final(store)@ == old(store)@.user_removed(user_id),
        response@ == confirmed("User deleted successfully"@),
        final(store)@.wf(),
{
    Response::for_change(User::delete(store, user_id), "User deleted successfully", "Failed to delete user: ")
}

/// `PUT /users/{id}`: replaces name, email and password; an id that is not
/// there is no error.
pub fn update_user(user_id: i64, store: &mut Store, name: String, email: String, password: Option<String>) -> (response:
    Response)
    ensures
        final(store)@ == old(store)@.user_changed(user_id, name@, email@, opt_text(password)),
        response@ == confirmed("User updated successfully"@),
        final(store)@.wf(),
{
    Response::for_change(
        User::update(store, user_id, name, email, password),
        "User updated successfully",
        "Failed to update user: ",
    )
}

/// `GET /posts`: every post.
pub fn get_all_posts(store: &Store) -> (response: Response)
    ensures
        response@ == (ResponseView { status: OK, body: BodyView::Posts(store@.posts) }),
{
    Response::for_posts(Post::get_all(store))
}

/// `GET /posts/{id}`: the post, or 404.
pub fn get_post(post_id: i64, store: &Store) -> (response: Response)
    ensures
        response@ == post_reply(Ok(store@.post(post_id))),
{
    Response::for_post(Post::get(store, post_id))
}

/// `GET /posts/{slug}`: the post with this slug, or 404.
pub fn get_post_by_slug(slug: String, store: &Store) -> (response: Response)
    ensures
        response@ == post_reply(Post::one_of(post_rows(store@.selected(Selection::Slug, slug@)))),
{
    Response::for_post(Post::get_by_slug(store, slug))
}

/// `GET /posts/category/{category}`: the posts of a category, which comes
/// with dashes for spaces.
pub fn get_posts_by_category(store: &Store, category: String) -> (response: Response)
    ensures
        response@ == (ResponseView {
            status: OK,
            body: BodyView::Posts(store@.selected(Selection::Category, spaced(category@))),
        }),
{
    Response::for_posts(Post::get_category(store, category))
}

/// `GET /posts/tag/{tag}`: the posts that carry a tag.
pub fn get_posts_by_tag(store: &Store, tag: String) -> (response: Response)
    ensures
        response@ == (ResponseView { status: OK, body: BodyView::Posts(store@.selected(Selection::Tag, tag@)) }),
{
    Response::for_posts(Post::get_tag(store, tag))
}

/// What `POST /posts` leaves and answers at the instant `now`: nothing
/// changes and the reply is 401 unless the access gate lets the headers pass; then
/// the post is created, stamped with `now` where it names no instant of
/// creation.
pub open spec fn post_added(
    store: StoreView,
    headers: Seq<Header>,
    secret: Seq<char>,
    post: PostView,
    now: Moment,
) -> (StoreView, ResponseView) {
    if gate_verdict(headers, secret, now.seconds as int) is Err {
        (store, unauthorized())
    } else {
        (
            store.post_created(stamped(post, now.micros)).0,
            post_made_reply(store.post_created(stamped(post, now.micros)).1),
        )
    }
}

/// What `PUT /posts/{id}` leaves and answers at the instant `now`.
pub open spec fn post_replaced(
    store: StoreView,
    headers: Seq<Header>,
    secret: Seq<char>,
    post: PostView,
    now: Moment,
) -> (StoreView, ResponseView) {
    if gate_verdict(headers, secret, now.seconds as int) is Err {
        (store, unauthorized())
    } else {
        (
            store.post_changed(post.id, post.title, post.body, post.image, post.tags, post.category),
            confirmed("Post updated successfully"@),
        )
    }
}

/// What `DELETE /posts/{id}` leaves and answers at the instant `now`.
pub open spec fn post_dropped(
    store: StoreView,
    headers: Seq<Header>,
    secret: Seq<char>,
    id: i64,
    now: Moment,
) -> (StoreView, ResponseView) {
    if gate_verdict(headers, secret, now.seconds as int) is Err {
        (store, unauthorized())
    } else {
        (store.post_removed(id), confirmed("Post deleted successfully"@))
    }
}

/// `POST /posts` at a given instant. See [`post_added`].
pub fn add_post_at(store: &mut Store, headers: &Vec<Header>, authority: &TokenAuthority, post: Post, now: Moment) -> (response:
    Response)
    ensures
        (final(store)@, response@) == post_added(old(store)@, headers@, authority.secret(), post@, now),
{
    match authorize_at(headers, authority, now.seconds) {
        Err(_) => Response::unauthorized(),
        Ok(_) => Response::for_new_post(Post::new(post.stamp(now.micros), store)),
    }
}

/// `PUT /posts/{id}` at a given instant. See [`post_replaced`].
pub fn update_post_at(store: &mut Store, headers: &Vec<Header>, authority: &TokenAuthority, post: Post, now: Moment) -> (response:
    Response)
    ensures
        (final(store)@, response@) == post_replaced(old(store)@, headers@, authority.secret(), post@, now),
{
    match authorize_at(headers, authority, now.seconds) {
        Err(_) => Response::unauthorized(),
        Ok(_) => Response::for_change(
            Post::update(store, post),
            "Post updated successfully",
            "Failed to update post: ",
        ),
    }
}

/// `DELETE /posts/{id}` at a given instant. See [`post_dropped`].
pub fn delete_post_at(store: &mut Store, headers: &Vec<Header>, authority: &TokenAuthority, id: i64, now: Moment) -> (response:
    Response)
    ensures
        (final(store)@, response@) == post_dropped(old(store)@, headers@, authority.secret(), id, now),
{
    match authorize_at(headers, authority, now.seconds) {
        Err(_) => Response::unauthorized(),
        Ok(_) => Response::for_change(
            Post::delete(store, id),
            "Post deleted successfully",
            "Failed to delete post: ",
        ),
    }
}

/// `POST /posts` at the present instant.
pub fn add_post(store: &mut Store, headers: &Vec<Header>, authority: &TokenAuthority, post: Post) -> (response:
    Response)
    ensures
        exists|now: Moment|
            (final(store)@, response@) == #[trigger] post_added(old(store)@, headers@, authority.secret(), post@, now),
{
    let moment = now();
    add_post_at(store, headers, authority, post, moment)
}

/// `PUT /posts/{id}` at the present instant.
pub fn update_post(store: &mut Store, headers: &Vec<Header>, authority: &TokenAuthority, post: Post) -> (response:
    Response)
    ensures
        exists|now: Moment|
            (final(store)@, response@) == #[trigger] post_replaced(
                old(store)@,
                headers@,
                authority.secret(),
                post@,
                now,
            ),
{
    let moment = now();
    update_post_at(store, headers, authority, post, moment)
}

/// `DELETE /posts/{id}` at the present instant.
pub fn delete_post(store: &mut Store, headers: &Vec<Header>, authority: &TokenAuthority, id: i64) -> (response:
    Response)
    ensures
        exists|now: Moment|
            (final(store)@, response@) == #[trigger] post_dropped(old(store)@, headers@, authority.secret(), id, now),
{
    let moment = now();
    delete_post_at(store, headers, authority, id, moment)
}

/// What `POST /login` answers at the instant `now`, given the token that
/// the authority issued: the token for the known account, 500 where none
/// could be issued, and 401 for anybody else.
pub open spec fn login_reply(username: Seq<char>, password: Seq<char>, token: Option<Seq<char>>) -> Result<
    Seq<char>,
    u16,
> {
    if !valid_credentials(username, password) {
        Err(UNAUTHORIZED)
    } else {
        match token {
            Some(t) => Ok(t),
            None => Err(INTERNAL_SERVER_ERROR),
        }
    }
}

/// The content of a login result.
pub open spec fn login_view(result: Result<LoginResponse, u16>) -> Result<Seq<char>, u16> {
    match result {
        Ok(response) => Ok(response.token@),
        Err(status) => Err(status),
    }
}

/// `POST /login` at a given instant (seconds since the epoch).
pub fn login_at(login_info: &LoginInfo, authority: &TokenAuthority, now: i64) -> (result: Result<LoginResponse, u16>)
    ensures
        login_view(result) == login_reply(
            login_info.username@,
            login_info.password@,
            authority.issued(login_info.username@, now as int),
        ),
{
    if is_valid_user(login_info.username.as_str(), login_info.password.as_str()) {
        match authority.issue_at(login_info.username.as_str(), now) {
            Some(token) => Ok(LoginResponse { token }),
            None => Err(INTERNAL_SERVER_ERROR),
        }
    } else {
        Err(UNAUTHORIZED)
    }
}

/// `POST /login` at the present instant: a token that lives for 24 hours
/// for the known account, 401 for anybody else.
pub fn login_handler(login_info: &LoginInfo, authority: &TokenAuthority) -> (result: Result<LoginResponse, u16>)
    ensures
        !valid_credentials(login_info.username@, login_info.password@) ==> (result is Err && result->Err_0
            == UNAUTHORIZED),
        valid_credentials(login_info.username@, login_info.password@) ==> exists|now: int|
            login_view(result) == login_reply(
                login_info.username@,
                login_info.password@,
                #[trigger] authority.issued(login_info.username@, now),
            ),
{
    let moment = now();
    login_at(login_info, authority, moment.seconds)
}

/// What the access gate answers to a request for information at the instant `now`.
pub open spec fn info_reply(headers: Seq<Header>, secret: Seq<char>, now: int) -> Result<Seq<char>, u16> {
    if gate_verdict(headers, secret, now) is Ok {
        Ok("You are valid here is Info"@)
    } else {
        Err(UNAUTHORIZED)
    }
}

/// The content of an information result.
pub open spec fn info_view(result: Result<String, u16>) -> Result<Seq<char>, u16> {
    match result {
        Ok(text) => Ok(text@),
        Err(status) => Err(status),
    }
}

/// Passes the headers through the access gate at a given instant (seconds
/// since the epoch): a greeting where the bearer token is accepted, 401
/// otherwise.
pub fn get_info_at(header_map: &Vec<Header>, authority: &TokenAuthority, now: i64) -> (result: Result<String, u16>)
    ensures
        info_view(result) == info_reply(header_map@, authority.secret(), now as int),
{
    match authorize_at(header_map, authority, now) {
        Ok(_) => Ok("You are valid here is Info".to_owned()),
        Err(_) => Err(UNAUTHORIZED),
    }
}

/// Passes the headers through the access gate at the present instant.
pub fn get_info_handler(header_map: &Vec<Header>, authority: &TokenAuthority) -> (result: Result<String, u16>)
    ensures
        exists|now: int| info_view(result) == #[trigger] info_reply(header_map@, authority.secret(), now),
{
    let moment = now();
    get_info_at(header_map, authority, moment.seconds)
}

} // verus!
