use blog_api::auth::{LoginInfo, TokenAuthority};
use blog_api::clock::Moment;
use blog_api::gate::Header;
use blog_api::handlers::{
    add_post, add_post_at, add_user, delete_post, delete_post_at, delete_user, get_all_posts, get_all_users,
    get_info_at, get_info_handler, get_post, get_post_by_slug, get_posts_by_category, get_posts_by_tag, get_user,
    login_at, login_handler, require_id, update_post, update_post_at, update_user, Body, Response, ValidationError,
    BAD_REQUEST, CONFLICT,
    INTERNAL_SERVER_ERROR, NOT_FOUND, OK, UNAUTHORIZED,
};
use blog_api::memory::Store;
use blog_api::models::{Post, User};
use blog_api::store::{Failure, StorageError};

const NOW: Moment = Moment { seconds: 1_700_000_000, micros: 1_700_000_000_000_000 };

fn keeper() -> TokenAuthority {
    TokenAuthority::new(String::from("secret"))
}

fn with_token(token: &str) -> Vec<Header> {
    vec![Header { name: String::from("Authorization"), value: format!("Bearer {}", token) }]
}

fn fresh_headers() -> Vec<Header> {
    with_token(&keeper().issue_at("admin", NOW.seconds).unwrap())
}

fn member(id: i64, name: &str) -> User {
    User { id, name: String::from(name), email: format!("{}@x.com", name), password: Some(String::from("pw")) }
}

fn entry(id: i64, slug: &str) -> Post {
    Post::draft(id, format!("title {}", id), format!("body {}", id), String::from(slug))
}

fn message(text: &str) -> Response {
    Response { status: 200, body: Body::Message(String::from(text)) }
}

#[test]
fn status_codes_are_the_usual_ones() {
    assert_eq!((OK, BAD_REQUEST, UNAUTHORIZED, NOT_FOUND, CONFLICT, INTERNAL_SERVER_ERROR), (200, 400, 401, 404, 409, 500));
    assert_eq!(StorageError::Io.to_status(), 500);
    assert_eq!(StorageError::Conflict.to_status(), 409);
    assert_eq!(StorageError::NotFound.to_status(), 404);
}

#[test]
fn ready_made_replies() {
    assert_eq!(Response::unauthorized(), Response { status: 401, body: Body::Empty });
    assert_eq!(Response::not_found(), Response { status: 404, body: Body::Empty });
    assert_eq!(Response::confirmed("done"), message("done"));
    assert_eq!(Response::rejected("missing field `name`"), Response { status: 400, body: Body::Error(String::from("missing field `name`")) });
    let failure = Failure { error: StorageError::Io, detail: String::from("connection closed") };
    assert_eq!(
        Response::failed("Failed to fetch users: ", &failure),
        Response { status: 500, body: Body::Error(String::from("Failed to fetch users: connection closed")) }
    );
}

#[test]
fn replies_follow_the_kind_of_failure() {
    let io = Failure { error: StorageError::Io, detail: String::from("down") };
    let conflict = Failure { error: StorageError::Conflict, detail: String::from("taken") };
    let missing = Failure { error: StorageError::NotFound, detail: String::from("gone") };
    assert_eq!(Response::for_change(Ok(()), "m", "p: "), message("m"));
    assert_eq!(Response::for_change(Err(missing), "m", "p: "), Response { status: 404, body: Body::Error(String::from("p: gone")) });
    assert_eq!(Response::for_new_user(Ok(member(1, "a"))), message("User added successfully"));
    assert_eq!(
        Response::for_new_user(Err(conflict.clone())),
        Response { status: 409, body: Body::Error(String::from("Failed to add user: taken")) }
    );
    assert_eq!(Response::for_new_post(Ok(entry(1, "a"))), message("Post added successfully"));
    assert_eq!(
        Response::for_new_post(Err(conflict)),
        Response { status: 409, body: Body::Error(String::from("Failed to add post: taken")) }
    );
    assert_eq!(Response::for_user(Ok(None)), Response::not_found());
    assert_eq!(
        Response::for_user(Err(io.clone())),
        Response { status: 500, body: Body::Error(String::from("Failed to fetch user: down")) }
    );
    assert_eq!(
        Response::for_users(Err(io.clone())),
        Response { status: 500, body: Body::Error(String::from("Failed to fetch users: down")) }
    );
    assert_eq!(Response::for_post(Ok(None)), Response::not_found());
    assert_eq!(Response::for_post(Ok(Some(entry(1, "a")))), Response { status: 200, body: Body::Post(entry(1, "a")) });
    assert_eq!(
        Response::for_post(Err(io.clone())),
        Response { status: 500, body: Body::Error(String::from("Failed to fetch post: down")) }
    );
    assert_eq!(Response::for_posts(Ok(vec![])), Response { status: 200, body: Body::Posts(vec![]) });
    assert_eq!(
        Response::for_posts(Err(io)),
        Response { status: 500, body: Body::Error(String::from("Failed to fetch posts: down")) }
    );
}

#[test]
fn users_are_shown_without_passwords() {
    let shown = |id, name: &str| User { password: None, ..member(id, name) };
    assert_eq!(Response::for_user(Ok(Some(member(1, "a")))), Response { status: 200, body: Body::User(shown(1, "a")) });
    assert_eq!(
        Response::for_users(Ok(vec![member(1, "a"), member(2, "b")])),
        Response { status: 200, body: Body::Users(vec![shown(1, "a"), shown(2, "b")]) }
    );
    assert_eq!(Response::for_users(Ok(vec![])), Response { status: 200, body: Body::Users(vec![]) });
}

#[test]
fn user_handlers_walk_through_a_life() {
    let mut store = Store::new();
    assert_eq!(get_all_users(&store), Response { status: 200, body: Body::Users(vec![]) });
    assert_eq!(get_user(1, &store), Response::not_found());
    assert_eq!(add_user(member(1, "a"), &mut store), message("User added successfully"));
    assert_eq!(add_user(member(2, "b"), &mut store), message("User added successfully"));
    assert_eq!(
        add_user(member(1, "c"), &mut store),
        Response {
            status: 409,
            body: Body::Error(String::from("Failed to add user: duplicate key value violates unique constraint"))
        }
    );
    assert_eq!(
        update_user(2, &mut store, String::from("B"), String::from("B@y.org"), None),
        message("User updated successfully")
    );
    assert_eq!(update_user(9, &mut store, String::from("x"), String::from("y"), None), message("User updated successfully"));
    let a = User { password: None, ..member(1, "a") };
    let b = User { id: 2, name: String::from("B"), email: String::from("B@y.org"), password: None };
    assert_eq!(get_user(2, &store), Response { status: 200, body: Body::User(b.clone()) });
    assert_eq!(get_all_users(&store), Response { status: 200, body: Body::Users(vec![a.clone(), b]) });
    assert_eq!(delete_user(2, &mut store), message("User deleted successfully"));
    assert_eq!(delete_user(2, &mut store), message("User deleted successfully"));
    assert_eq!(get_user(2, &store), Response::not_found());
    assert_eq!(get_all_users(&store), Response { status: 200, body: Body::Users(vec![a]) });
}

#[test]
fn stored_password_survives_although_it_is_not_shown() {
    let mut store = Store::new();
    add_user(member(1, "a"), &mut store);
    assert_eq!(User::get(&store, 1), Ok(Some(member(1, "a"))));
}

#[test]
fn post_reads_need_no_token() {
    let mut store = Store::new();
    let mut post = entry(1, "one");
    post.category = Some(String::from("deep dives"));
    post.tags = Some(vec![String::from("rust")]);
    Post::new(post.clone(), &mut store).unwrap();
    assert_eq!(get_all_posts(&store), Response { status: 200, body: Body::Posts(vec![post.clone()]) });
    assert_eq!(get_post(1, &store), Response { status: 200, body: Body::Post(post.clone()) });
    assert_eq!(get_post(2, &store), Response::not_found());
    assert_eq!(get_post_by_slug(String::from("one"), &store), Response { status: 200, body: Body::Post(post.clone()) });
    assert_eq!(get_post_by_slug(String::from("two"), &store), Response::not_found());
    assert_eq!(
        get_posts_by_category(&store, String::from("deep-dives")),
        Response { status: 200, body: Body::Posts(vec![post.clone()]) }
    );
    assert_eq!(get_posts_by_tag(&store, String::from("rust")), Response { status: 200, body: Body::Posts(vec![post]) });
    assert_eq!(get_posts_by_tag(&store, String::from("web")), Response { status: 200, body: Body::Posts(vec![]) });
}

#[test]
fn ambiguous_slug_is_a_server_error() {
    let mut store = Store::new();
    Post::new(entry(1, "same"), &mut store).unwrap();
    Post::new(entry(2, "same"), &mut store).unwrap();
    assert_eq!(
        get_post_by_slug(String::from("same"), &store),
        Response {
            status: 500,
            body: Body::Error(String::from("Failed to fetch post: query returned an unexpected number of rows"))
        }
    );
}

#[test]
fn post_writes_pass_with_a_fresh_token() {
    let mut store = Store::new();
    let authority = keeper();
    let headers = fresh_headers();
    assert_eq!(add_post_at(&mut store, &headers, &authority, entry(7, "seven"), NOW), message("Post added successfully"));
    let stored = Post { created_at: Some(NOW.micros), ..entry(7, "seven") };
    assert_eq!(get_post(7, &store), Response { status: 200, body: Body::Post(stored.clone()) });
    assert_eq!(
        add_post_at(&mut store, &headers, &authority, entry(7, "again"), NOW),
        Response {
            status: 409,
            body: Body::Error(String::from("Failed to add post: duplicate key value violates unique constraint"))
        }
    );
    let mut change = entry(7, "ignored");
    change.title = String::from("T");
    change.category = Some(String::from("c"));
    assert_eq!(update_post_at(&mut store, &headers, &authority, change, NOW), message("Post updated successfully"));
    let changed = Post { title: String::from("T"), category: Some(String::from("c")), ..stored };
    assert_eq!(get_post(7, &store), Response { status: 200, body: Body::Post(changed) });
    assert_eq!(delete_post_at(&mut store, &headers, &authority, 7, NOW), message("Post deleted successfully"));
    assert_eq!(get_post(7, &store), Response::not_found());
    assert_eq!(delete_post_at(&mut store, &headers, &authority, 7, NOW), message("Post deleted successfully"));
}

#[test]
fn given_creation_time_is_kept() {
    let mut store = Store::new();
    let post = Post { created_at: Some(5), ..entry(7, "seven") };
    add_post_at(&mut store, &fresh_headers(), &keeper(), post.clone(), NOW);
    assert_eq!(Post::get(&store, 7), Ok(Some(post)));
}

#[test]
fn post_writes_are_rejected_before_the_store_is_touched() {
    let authority = keeper();
    let expired = authority.issue_at("admin", NOW.seconds - 86_400).unwrap();
    let forged = TokenAuthority::new(String::from("guess")).issue_at("admin", NOW.seconds).unwrap();
    let rejected: Vec<Vec<Header>> = vec![
        vec![],
        vec![Header { name: String::from("Authorization"), value: String::from("Basic abc") }],
        vec![Header { name: String::from("Authorization"), value: authority.issue_at("admin", NOW.seconds).unwrap() }],
        with_token(&expired),
        with_token(&forged),
        with_token("not-a-token"),
        with_token(""),
    ];
    for headers in rejected {
        let mut store = Store::new();
        Post::new(entry(1, "one"), &mut store).unwrap();
        assert_eq!(add_post_at(&mut store, &headers, &authority, entry(2, "two"), NOW), Response::unauthorized());
        assert_eq!(add_post_at(&mut store, &headers, &authority, entry(1, "dup"), NOW), Response::unauthorized());
        assert_eq!(update_post_at(&mut store, &headers, &authority, entry(1, "x"), NOW), Response::unauthorized());
        assert_eq!(delete_post_at(&mut store, &headers, &authority, 1, NOW), Response::unauthorized());
        assert_eq!(Post::get_all(&store), Ok(vec![entry(1, "one")]));
    }
}

#[test]
fn present_clock_post_handlers() {
    let mut store = Store::new();
    let authority = keeper();
    let headers = with_token(&authority.issue("admin").unwrap());
    assert_eq!(add_post(&mut store, &vec![], &authority, entry(1, "one")), Response::unauthorized());
    assert_eq!(add_post(&mut store, &headers, &authority, entry(1, "one")), message("Post added successfully"));
    let created = Post::get(&store, 1).unwrap().unwrap().created_at.expect("stamped");
    assert!(created > 1_600_000_000_000_000);
    let mut change = entry(1, "one");
    change.body = String::from("new body");
    assert_eq!(update_post(&mut store, &vec![], &authority, change.clone()), Response::unauthorized());
    assert_eq!(update_post(&mut store, &headers, &authority, change), message("Post updated successfully"));
    assert_eq!(Post::get(&store, 1).unwrap().unwrap().body, "new body");
    assert_eq!(delete_post(&mut store, &vec![], &authority, 1), Response::unauthorized());
    assert_eq!(Post::get_all(&store).unwrap().len(), 1);
    assert_eq!(delete_post(&mut store, &headers, &authority, 1), message("Post deleted successfully"));
    assert_eq!(Post::get_all(&store), Ok(vec![]));
}

#[test]
fn stale_token_is_rejected_by_the_present_clock() {
    let mut store = Store::new();
    let authority = keeper();
    let stale = with_token(&authority.issue_at("admin", 1_000_000_000).unwrap());
    assert_eq!(add_post(&mut store, &stale, &authority, entry(1, "one")), Response::unauthorized());
    assert_eq!(get_info_handler(&stale, &authority), Err(401));
    assert_eq!(Post::get_all(&store), Ok(vec![]));
}

#[test]
fn login_gives_a_token_to_the_known_account_only() {
    let authority = keeper();
    let good = LoginInfo { username: String::from("admin"), password: String::from("password") };
    let response = login_at(&good, &authority, NOW.seconds).expect("token");
    assert_eq!(Some(response.token.clone()), authority.issue_at("admin", NOW.seconds));
    assert_eq!(authority.verify_at(&response.token, NOW.seconds).unwrap().exp as i64, NOW.seconds + 86_400);
    for (username, password) in [("admin", "wrong"), ("root", "password"), ("", "")] {
        let bad = LoginInfo { username: String::from(username), password: String::from(password) };
        assert_eq!(login_at(&bad, &authority, NOW.seconds), Err(401));
        assert_eq!(login_handler(&bad, &authority), Err(401));
    }
    assert_eq!(login_at(&good, &authority, i64::MAX), Err(500));
    let now_token = login_handler(&good, &authority).expect("token").token;
    assert!(authority.verify(&now_token).is_ok());
}

#[test]
fn login_token_opens_the_post_routes() {
    let mut store = Store::new();
    let authority = keeper();
    let good = LoginInfo { username: String::from("admin"), password: String::from("password") };
    let token = login_at(&good, &authority, NOW.seconds).unwrap().token;
    let later = Moment { seconds: NOW.seconds + 3_600, micros: NOW.micros + 3_600_000_000 };
    assert_eq!(add_post_at(&mut store, &with_token(&token), &authority, entry(1, "one"), later).status, 200);
    let too_late = Moment { seconds: NOW.seconds + 86_400, micros: NOW.micros + 86_400_000_000 };
    assert_eq!(add_post_at(&mut store, &with_token(&token), &authority, entry(2, "two"), too_late).status, 401);
}

#[test]
fn info_is_given_to_token_holders_only() {
    let authority = keeper();
    assert_eq!(get_info_at(&fresh_headers(), &authority, NOW.seconds), Ok(String::from("You are valid here is Info")));
    assert_eq!(get_info_at(&fresh_headers(), &authority, NOW.seconds + 86_400), Err(401));
    assert_eq!(get_info_at(&vec![], &authority, NOW.seconds), Err(401));
    assert_eq!(get_info_at(&with_token("x"), &authority, NOW.seconds), Err(401));
    let live = with_token(&authority.issue("admin").unwrap());
    assert_eq!(get_info_handler(&live, &authority), Ok(String::from("You are valid here is Info")));
    assert_eq!(get_info_handler(&vec![], &authority), Err(401));
}

#[test]
fn keys_that_write_no_id_are_invalid() {
    assert_eq!(require_id("17"), Ok(17));
    assert_eq!(require_id("-17"), Ok(-17));
    assert_eq!(require_id("seventeen"), Err(ValidationError::MalformedId(String::from("seventeen"))));
    assert_eq!(require_id(""), Err(ValidationError::MalformedId(String::new())));
    assert_eq!(
        require_id("99999999999999999999"),
        Err(ValidationError::MalformedId(String::from("99999999999999999999")))
    );
    assert_eq!(
        Response::invalid(&ValidationError::MalformedId(String::from("x1"))),
        Response { status: 400, body: Body::Error(String::from("Invalid id: x1")) }
    );
}
