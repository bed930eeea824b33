use blog_api::auth::TokenAuthority;
use blog_api::clock::Moment;
use blog_api::gate::Header;
use blog_api::handlers::{Body, Response};
use blog_api::memory::Store;
use blog_api::models::{Post, User};
use blog_api::service::{finish, plan, plan_at, serve, serve_at, Answer, Operation, Step};
use blog_api::store::{Failure, Query, Statement, StorageError};
use blog_api::values::SqlValue;

const AT: Moment = Moment { seconds: 1_700_000_000, micros: 1_700_000_000_000_000 };

fn warden() -> TokenAuthority {
    TokenAuthority::new(String::from("secret"))
}

fn pass() -> Vec<Header> {
    let token = warden().issue_at("admin", AT.seconds).unwrap();
    vec![Header { name: String::from("authorization"), value: format!("Bearer {}", token) }]
}

fn someone(id: i64) -> User {
    User { id, name: format!("n{}", id), email: format!("e{}", id), password: Some(format!("p{}", id)) }
}

fn piece(id: i64) -> Post {
    Post::draft(id, format!("t{}", id), format!("b{}", id), format!("s{}", id))
}

fn every_operation() -> Vec<Operation> {
    vec![
        Operation::ListUsers,
        Operation::GetUser(1),
        Operation::AddUser(someone(1)),
        Operation::UpdateUser(1, String::from("n"), String::from("e"), None),
        Operation::DeleteUser(1),
        Operation::ListPosts,
        Operation::GetPost(1),
        Operation::GetPostBySlug(String::from("s1")),
        Operation::PostsByCategory(String::from("a-b")),
        Operation::PostsByTag(String::from("t")),
        Operation::AddPost(piece(1)),
        Operation::UpdatePost(piece(1)),
        Operation::DeletePost(1),
    ]
}

#[test]
fn only_changes_to_posts_are_guarded() {
    let guarded: Vec<bool> = every_operation().iter().map(|op| op.is_protected()).collect();
    assert_eq!(guarded, vec![false, false, false, false, false, false, false, false, false, false, true, true, true]);
}

#[test]
fn each_operation_has_its_statement() {
    let text = |s: &str| SqlValue::Text(String::from(s));
    let expected = vec![
        Statement { query: Query::SelectUsers, params: vec![] },
        Statement { query: Query::SelectUser, params: vec![SqlValue::Int(1)] },
        Statement { query: Query::InsertUser, params: someone(1).encode() },
        Statement { query: Query::UpdateUser, params: vec![text("n"), text("e"), SqlValue::Null, SqlValue::Int(1)] },
        Statement { query: Query::DeleteUser, params: vec![SqlValue::Int(1)] },
        Statement { query: Query::SelectPosts, params: vec![] },
        Statement { query: Query::SelectPost, params: vec![SqlValue::Int(1)] },
        Statement { query: Query::SelectPostBySlug, params: vec![text("s1")] },
        Statement { query: Query::SelectPostsByCategory, params: vec![text("a b")] },
        Statement { query: Query::SelectPostsByTag, params: vec![text("t")] },
        Statement { query: Query::InsertPost, params: Post { created_at: Some(99), ..piece(1) }.encode() },
        Statement { query: Query::UpdatePost, params: vec![text("t1"), text("b1"), SqlValue::Null, SqlValue::Null, SqlValue::Null, SqlValue::Int(1)] },
        Statement { query: Query::DeletePost, params: vec![SqlValue::Int(1)] },
    ];
    for (operation, statement) in every_operation().iter().zip(expected) {
        assert_eq!(operation.statement(99), statement);
    }
}

#[test]
fn plan_runs_open_operations_whatever_the_headers() {
    for operation in every_operation().iter().filter(|op| !op.is_protected()) {
        for headers in [vec![], pass()] {
            assert_eq!(plan_at(operation, &headers, &warden(), AT), Step::Run(operation.statement(AT.micros)));
        }
    }
}

#[test]
fn plan_runs_guarded_operations_behind_a_token() {
    for operation in every_operation().iter().filter(|op| op.is_protected()) {
        assert_eq!(plan_at(operation, &pass(), &warden(), AT), Step::Run(operation.statement(AT.micros)));
    }
}

#[test]
fn plan_answers_guarded_operations_without_a_token_at_once() {
    let expired = Moment { seconds: AT.seconds + 86_400, micros: AT.micros };
    for operation in every_operation().iter().filter(|op| op.is_protected()) {
        assert_eq!(plan_at(operation, &vec![], &warden(), AT), Step::Reply(Response::unauthorized()));
        assert_eq!(plan_at(operation, &pass(), &warden(), expired), Step::Reply(Response::unauthorized()));
    }
}

#[test]
fn finish_reads_rows_and_counts() {
    let done = |text: &str| Response { status: 200, body: Body::Message(String::from(text)) };
    let shown = User { password: None, ..someone(1) };
    assert_eq!(
        finish(&Operation::ListUsers, Answer::Rows(Ok(vec![someone(1).encode()]))),
        Response { status: 200, body: Body::Users(vec![shown.clone()]) }
    );
    assert_eq!(
        finish(&Operation::GetUser(1), Answer::Rows(Ok(vec![someone(1).encode()]))),
        Response { status: 200, body: Body::User(shown) }
    );
    assert_eq!(finish(&Operation::GetUser(1), Answer::Rows(Ok(vec![]))), Response::not_found());
    assert_eq!(finish(&Operation::AddUser(someone(1)), Answer::Count(Ok(1))), done("User added successfully"));
    assert_eq!(
        finish(&Operation::UpdateUser(1, String::new(), String::new(), None), Answer::Count(Ok(0))),
        done("User updated successfully")
    );
    assert_eq!(finish(&Operation::DeleteUser(1), Answer::Count(Ok(0))), done("User deleted successfully"));
    assert_eq!(
        finish(&Operation::ListPosts, Answer::Rows(Ok(vec![piece(1).encode(), piece(2).encode()]))),
        Response { status: 200, body: Body::Posts(vec![piece(1), piece(2)]) }
    );
    assert_eq!(
        finish(&Operation::GetPost(1), Answer::Rows(Ok(vec![piece(1).encode()]))),
        Response { status: 200, body: Body::Post(piece(1)) }
    );
    assert_eq!(finish(&Operation::GetPostBySlug(String::new()), Answer::Rows(Ok(vec![]))), Response::not_found());
    assert_eq!(
        finish(&Operation::PostsByCategory(String::new()), Answer::Rows(Ok(vec![]))),
        Response { status: 200, body: Body::Posts(vec![]) }
    );
    assert_eq!(
        finish(&Operation::PostsByTag(String::new()), Answer::Rows(Ok(vec![piece(3).encode()]))),
        Response { status: 200, body: Body::Posts(vec![piece(3)]) }
    );
    assert_eq!(finish(&Operation::AddPost(piece(1)), Answer::Count(Ok(1))), done("Post added successfully"));
    assert_eq!(finish(&Operation::UpdatePost(piece(1)), Answer::Count(Ok(1))), done("Post updated successfully"));
    assert_eq!(finish(&Operation::DeletePost(1), Answer::Count(Ok(1))), done("Post deleted successfully"));
}

#[test]
fn finish_reports_failures_with_their_kind() {
    let failure = |error| Failure { error, detail: String::from("why") };
    let prefixes = [
        "Failed to fetch users: ",
        "Failed to fetch user: ",
        "Failed to add user: ",
        "Failed to update user: ",
        "Failed to delete user: ",
        "Failed to fetch posts: ",
        "Failed to fetch post: ",
        "Failed to fetch post: ",
        "Failed to fetch posts: ",
        "Failed to fetch posts: ",
        "Failed to add post: ",
        "Failed to update post: ",
        "Failed to delete post: ",
    ];
    for (operation, prefix) in every_operation().iter().zip(prefixes) {
        for (error, status) in [(StorageError::Io, 500), (StorageError::Conflict, 409), (StorageError::NotFound, 404)] {
            let answer = if operation.statement(0).query.is_read() {
                Answer::Rows(Err(failure(error)))
            } else {
                Answer::Count(Err(failure(error)))
            };
            let expected = Response { status, body: Body::Error(format!("{}why", prefix)) };
            assert_eq!(finish(operation, answer), expected, "{:?}", operation);
        }
    }
}

#[test]
fn finish_refuses_an_answer_of_the_other_kind() {
    for operation in every_operation() {
        let answer = if operation.statement(0).query.is_read() { Answer::Count(Ok(1)) } else { Answer::Rows(Ok(vec![])) };
        let response = finish(&operation, answer);
        assert_eq!(response.status, 500, "{:?}", operation);
        assert!(matches!(response.body, Body::Error(ref text) if text.ends_with("statement does not match the call")));
    }
}

#[test]
fn finish_reports_rows_that_do_not_decode() {
    let broken = || Answer::Rows(Ok(vec![vec![SqlValue::Null]]));
    for operation in [Operation::ListUsers, Operation::GetUser(1), Operation::ListPosts, Operation::GetPost(1)] {
        let response = finish(&operation, broken());
        assert_eq!(response.status, 500);
        assert!(matches!(response.body, Body::Error(ref text) if text.ends_with("row does not decode")));
    }
}

#[test]
fn answers_unpack() {
    let wrong = Failure { error: StorageError::Io, detail: String::from("statement does not match the call") };
    assert_eq!(Answer::Count(Ok(3)).into_count(), Ok(()));
    assert_eq!(Answer::Rows(Ok(vec![])).into_count(), Err(wrong.clone()));
    assert_eq!(Answer::Rows(Ok(vec![vec![]])).into_rows(), Ok(vec![vec![]]));
    assert_eq!(Answer::Count(Ok(3)).into_rows(), Err(wrong.clone()));
    assert_eq!(Answer::Rows(Ok(vec![someone(1).encode()])).into_user(), Ok(Some(someone(1))));
    assert_eq!(Answer::Rows(Ok(vec![someone(1).encode()])).into_users(), Ok(vec![someone(1)]));
    assert_eq!(Answer::Rows(Ok(vec![piece(1).encode()])).into_post(), Ok(Some(piece(1))));
    assert_eq!(Answer::Rows(Ok(vec![piece(1).encode()])).into_posts(), Ok(vec![piece(1)]));
    assert_eq!(Answer::Count(Ok(1)).into_user(), Err(wrong.clone()));
    assert_eq!(Answer::Count(Ok(1)).into_posts(), Err(wrong));
}

#[test]
fn serving_by_steps_equals_the_handlers() {
    let authority = warden();
    let script = vec![
        Operation::AddUser(someone(1)),
        Operation::AddUser(someone(2)),
        Operation::AddUser(someone(1)),
        Operation::ListUsers,
        Operation::UpdateUser(2, String::from("n"), String::from("e"), None),
        Operation::GetUser(2),
        Operation::DeleteUser(1),
        Operation::GetUser(1),
        Operation::AddPost(piece(1)),
        Operation::AddPost(Post { category: Some(String::from("a b")), tags: Some(vec![String::from("t")]), ..piece(2) }),
        Operation::UpdatePost(Post { title: String::from("T"), ..piece(1) }),
        Operation::GetPost(1),
        Operation::GetPostBySlug(String::from("s2")),
        Operation::PostsByCategory(String::from("a-b")),
        Operation::PostsByTag(String::from("t")),
        Operation::DeletePost(2),
        Operation::ListPosts,
    ];
    let mut by_steps = Store::new();
    let mut by_handlers = Store::new();
    for operation in script {
        for headers in [vec![], pass()] {
            let stepped = serve_at(&mut by_steps, &operation, &headers, &authority, AT);
            let handled = match operation.clone() {
                Operation::ListUsers => blog_api::handlers::get_all_users(&by_handlers),
                Operation::GetUser(id) => blog_api::handlers::get_user(id, &by_handlers),
                Operation::AddUser(user) => blog_api::handlers::add_user(user, &mut by_handlers),
                Operation::UpdateUser(id, name, email, password) => {
                    blog_api::handlers::update_user(id, &mut by_handlers, name, email, password)
                }
                Operation::DeleteUser(id) => blog_api::handlers::delete_user(id, &mut by_handlers),
                Operation::ListPosts => blog_api::handlers::get_all_posts(&by_handlers),
                Operation::GetPost(id) => blog_api::handlers::get_post(id, &by_handlers),
                Operation::GetPostBySlug(slug) => blog_api::handlers::get_post_by_slug(slug, &by_handlers),
                Operation::PostsByCategory(category) => blog_api::handlers::get_posts_by_category(&by_handlers, category),
                Operation::PostsByTag(tag) => blog_api::handlers::get_posts_by_tag(&by_handlers, tag),
                Operation::AddPost(post) => blog_api::handlers::add_post_at(&mut by_handlers, &headers, &authority, post, AT),
                Operation::UpdatePost(post) => {
                    blog_api::handlers::update_post_at(&mut by_handlers, &headers, &authority, post, AT)
                }
                Operation::DeletePost(id) => blog_api::handlers::delete_post_at(&mut by_handlers, &headers, &authority, id, AT),
            };
            assert_eq!(stepped, handled, "{:?}", operation);
            assert_eq!(User::get_all(&by_steps), User::get_all(&by_handlers));
            assert_eq!(Post::get_all(&by_steps), Post::get_all(&by_handlers));
        }
    }
    assert_eq!(User::get_all(&by_steps).unwrap().len(), 1);
    assert_eq!(Post::get_all(&by_steps).unwrap().len(), 1);
}

#[test]
fn plan_reads_the_clock() {
    let authority = warden();
    let live = vec![Header { name: String::from("Authorization"), value: format!("Bearer {}", authority.issue("admin").unwrap()) }];
    assert_eq!(plan(&Operation::DeletePost(1), &pass(), &authority), Step::Reply(Response::unauthorized()));
    assert_eq!(plan(&Operation::DeletePost(1), &live, &authority), Step::Run(Operation::DeletePost(1).statement(0)));
    assert_eq!(plan(&Operation::GetUser(1), &vec![], &authority), Step::Run(Operation::GetUser(1).statement(0)));
    let before = chrono::Utc::now().timestamp_micros();
    let planned = plan(&Operation::AddPost(piece(1)), &live, &authority);
    let after = chrono::Utc::now().timestamp_micros();
    match planned {
        Step::Run(statement) => match statement.params[9] {
            SqlValue::Timestamp(stamp) => assert!(before <= stamp && stamp <= after),
            ref other => panic!("no instant of creation: {:?}", other),
        },
        other => panic!("no statement: {:?}", other),
    }
}

#[test]
fn serve_reads_the_clock() {
    let mut store = Store::new();
    let authority = warden();
    let live = vec![Header { name: String::from("Authorization"), value: format!("Bearer {}", authority.issue("admin").unwrap()) }];
    assert_eq!(serve(&mut store, &Operation::AddPost(piece(1)), &pass(), &authority), Response::unauthorized());
    assert_eq!(serve(&mut store, &Operation::AddPost(piece(1)), &live, &authority).status, 200);
    assert_eq!(serve(&mut store, &Operation::ListPosts, &vec![], &authority).status, 200);
    assert!(Post::get(&store, 1).unwrap().unwrap().created_at.is_some());
}

#[test]
fn a_key_of_digits_names_a_post_by_id_and_any_other_by_slug() {
    assert_eq!(Operation::post_by_key(String::from("42")), Operation::GetPost(42));
    assert_eq!(Operation::post_by_key(String::from("-7")), Operation::GetPost(-7));
    assert_eq!(Operation::post_by_key(String::from("+7")), Operation::GetPost(7));
    assert_eq!(Operation::post_by_key(String::from("my-first-post")), Operation::GetPostBySlug(String::from("my-first-post")));
    assert_eq!(Operation::post_by_key(String::from("42nd-street")), Operation::GetPostBySlug(String::from("42nd-street")));
    assert_eq!(Operation::post_by_key(String::new()), Operation::GetPostBySlug(String::new()));
    assert_eq!(
        Operation::post_by_key(String::from("9223372036854775808")),
        Operation::GetPostBySlug(String::from("9223372036854775808"))
    );
}
