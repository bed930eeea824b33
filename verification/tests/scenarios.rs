use blog_api::auth::{LoginInfo, TokenAuthority};
use blog_api::clock::Moment;
use blog_api::gate::Header;
use blog_api::handlers::{
    add_post_at, add_user, delete_post_at, get_post, get_user, login_at, update_post_at, Body, Response,
};
use blog_api::memory::Store;
use blog_api::models::{Post, User};
use blog_api::service::{plan_at, Operation, Step};

const DAY: i64 = 86_400;
const START: Moment = Moment { seconds: 1_700_000_000, micros: 1_700_000_000_000_000 };

fn office() -> TokenAuthority {
    TokenAuthority::new(String::from("secret"))
}

fn bearer_of(token: &str) -> Vec<Header> {
    vec![Header { name: String::from("Authorization"), value: format!("Bearer {}", token) }]
}

fn login(at: i64) -> String {
    let info = LoginInfo { username: String::from("admin"), password: String::from("password") };
    login_at(&info, &office(), at).expect("login").token
}

fn seeded(post: &Post) -> Store {
    let mut store = Store::new();
    let response = add_post_at(&mut store, &bearer_of(&login(START.seconds)), &office(), post.clone(), START);
    assert_eq!(response.status, 200);
    store
}

#[test]
fn scenario_post_user_then_get_user() {
    let mut store = Store::new();
    let user = User {
        id: 1,
        name: String::from("A"),
        email: String::from("a@x.com"),
        password: Some(String::from("p")),
    };
    let created = add_user(user, &mut store);
    assert_eq!(created.status, 200);
    assert_eq!(created.body, Body::Message(String::from("User added successfully")));
    let fetched = get_user(1, &store);
    assert_eq!(fetched.status, 200);
    assert_eq!(
        fetched.body,
        Body::User(User { id: 1, name: String::from("A"), email: String::from("a@x.com"), password: None })
    );
}

#[test]
fn scenario_delete_post_without_header_is_401_and_post_stays() {
    let original = Post {
        created_at: Some(1),
        tags: Some(vec![String::from("keep")]),
        ..Post::draft(42, String::from("Answer"), String::from("Everything"), String::from("answer"))
    };
    let mut store = seeded(&original);
    let response = delete_post_at(&mut store, &vec![], &office(), 42, START);
    assert_eq!(response, Response { status: 401, body: Body::Empty });
    assert_eq!(get_post(42, &store), Response { status: 200, body: Body::Post(original) });
}

#[test]
fn scenario_delete_post_without_header_plans_no_statement() {
    assert_eq!(plan_at(&Operation::DeletePost(42), &vec![], &office(), START), Step::Reply(Response::unauthorized()));
}

#[test]
fn scenario_put_post_with_expired_token_is_401_and_post_unchanged() {
    let original = Post { created_at: Some(1), ..Post::draft(7, String::from("Seven"), String::from("Body"), String::from("seven")) };
    let mut store = seeded(&original);
    let token = login(START.seconds);
    let after_expiry = Moment { seconds: START.seconds + DAY, micros: START.micros + DAY * 1_000_000 };
    let change = Post { title: String::from("Changed"), body: String::from("Changed"), ..original.clone() };
    let response = update_post_at(&mut store, &bearer_of(&token), &office(), change.clone(), after_expiry);
    assert_eq!(response, Response { status: 401, body: Body::Empty });
    assert_eq!(get_post(7, &store), Response { status: 200, body: Body::Post(original.clone()) });
    let in_time = Moment { seconds: START.seconds + DAY - 1, micros: START.micros };
    assert_eq!(update_post_at(&mut store, &bearer_of(&token), &office(), change.clone(), in_time).status, 200);
    assert_eq!(get_post(7, &store), Response { status: 200, body: Body::Post(change) });
}

#[test]
fn scenario_put_post_with_expired_token_plans_no_statement() {
    let token = login(START.seconds);
    let after_expiry = Moment { seconds: START.seconds + DAY + 1, micros: START.micros };
    let change = Post::draft(7, String::from("Changed"), String::from("Changed"), String::from("seven"));
    assert_eq!(
        plan_at(&Operation::UpdatePost(change), &bearer_of(&token), &office(), after_expiry),
        Step::Reply(Response::unauthorized())
    );
}
