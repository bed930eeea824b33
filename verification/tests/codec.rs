use blog_api::models::{Post, User};
use blog_api::values::{
    copy_opt_text, copy_opt_texts, copy_row, copy_texts, read_int, read_opt_text, read_opt_texts, read_opt_time,
    read_text, DecodeError, SqlValue,
};

fn text(s: &str) -> SqlValue {
    SqlValue::Text(String::from(s))
}

fn full_post() -> Post {
    let mut post = Post::draft(7, String::from("Title"), String::from("Body"), String::from("title"));
    post.image = Some(String::from("https://example.org/a.png"));
    post.tags = Some(vec![String::from("rust"), String::from("verus")]);
    post.category = Some(String::from("deep dives"));
    post.company_name = Some(String::from("cn"));
    post.company_logo = Some(String::from("cl"));
    post.company_description = Some(String::from("cd"));
    post.created_at = Some(1_700_000_000_123_456);
    post.video = Some(String::from("v"));
    post.body_2 = Some(String::from("b2"));
    post.body_3 = Some(String::from("b3"));
    post.body_4 = Some(String::from("b4"));
    post.body_5 = Some(String::from("b5"));
    post.body_6 = Some(String::from("b6"));
    post.title_2 = Some(String::from("t2"));
    post.title_3 = Some(String::from("t3"));
    post.list_1_title = Some(String::from("l1t"));
    post.list_1_description = Some(String::from("l1d"));
    post.list_2_title = Some(String::from("l2t"));
    post.list_2_description = Some(String::from("l2d"));
    post.list_3_title = Some(String::from("l3t"));
    post.list_3_description = Some(String::from("l3d"));
    post.quote_text = Some(String::from("qt"));
    post.quote_author_name = Some(String::from("qan"));
    post.quote_author_title = Some(String::from("qat"));
    post.quote_author_role = Some(String::from("qar"));
    post.quote_author_image = Some(String::from("qai"));
    post
}

#[test]
fn user_encodes_in_column_order() {
    let user = User { id: 1, name: String::from("A"), email: String::from("a@x.com"), password: Some(String::from("p")) };
    assert_eq!(user.encode(), vec![SqlValue::Int(1), text("A"), text("a@x.com"), text("p")]);
    assert_eq!(User::WIDTH, 4);
}

#[test]
fn user_without_password_encodes_null() {
    let user = User { id: -3, name: String::new(), email: String::new(), password: None };
    assert_eq!(user.encode(), vec![SqlValue::Int(-3), text(""), text(""), SqlValue::Null]);
}

#[test]
fn user_round_trips_through_its_row() {
    for password in [None, Some(String::from("p")), Some(String::new())] {
        let user = User { id: i64::MAX, name: String::from("Zoë"), email: String::from("z@x.com"), password };
        assert_eq!(User::from(&user.encode()), Ok(user));
    }
}

#[test]
fn user_decode_reports_first_bad_mandatory_column() {
    assert_eq!(User::from(&vec![]), Err(DecodeError::Missing(0)));
    assert_eq!(User::from(&vec![SqlValue::Int(1)]), Err(DecodeError::Missing(1)));
    assert_eq!(User::from(&vec![SqlValue::Int(1), text("A")]), Err(DecodeError::Missing(2)));
    assert_eq!(User::from(&vec![SqlValue::Null, SqlValue::Null, SqlValue::Null]), Err(DecodeError::Null(0)));
    assert_eq!(User::from(&vec![SqlValue::Int(1), SqlValue::Null, text("e")]), Err(DecodeError::Null(1)));
    assert_eq!(User::from(&vec![SqlValue::Int(1), text("A"), SqlValue::Null]), Err(DecodeError::Null(2)));
    assert_eq!(User::from(&vec![text("1"), text("A"), text("e")]), Err(DecodeError::WrongType(0)));
    assert_eq!(User::from(&vec![SqlValue::Int(1), SqlValue::Int(2), text("e")]), Err(DecodeError::WrongType(1)));
    assert_eq!(
        User::from(&vec![SqlValue::Int(1), text("A"), SqlValue::Timestamp(5)]),
        Err(DecodeError::WrongType(2))
    );
}

#[test]
fn user_decode_tolerates_absent_or_null_password() {
    let expected = User { id: 1, name: String::from("A"), email: String::from("e"), password: None };
    assert_eq!(User::from(&vec![SqlValue::Int(1), text("A"), text("e")]), Ok(expected.clone()));
    assert_eq!(User::from(&vec![SqlValue::Int(1), text("A"), text("e"), SqlValue::Null]), Ok(expected.clone()));
    assert_eq!(User::from(&vec![SqlValue::Int(1), text("A"), text("e"), SqlValue::Int(9)]), Ok(expected));
}

#[test]
fn post_encodes_thirty_cells_in_column_order() {
    let row = full_post().encode();
    assert_eq!(row.len(), 30);
    assert_eq!(Post::WIDTH, 30);
    assert_eq!(row[0], SqlValue::Int(7));
    assert_eq!(row[1], text("Title"));
    assert_eq!(row[2], text("Body"));
    assert_eq!(row[3], text("https://example.org/a.png"));
    assert_eq!(row[4], SqlValue::TextArray(vec![String::from("rust"), String::from("verus")]));
    assert_eq!(row[5], text("deep dives"));
    assert_eq!(row[6], text("cn"));
    assert_eq!(row[7], text("cl"));
    assert_eq!(row[8], text("cd"));
    assert_eq!(row[9], SqlValue::Timestamp(1_700_000_000_123_456));
    assert_eq!(row[10], text("title"));
    let rest: Vec<SqlValue> = ["v", "b2", "b3", "b4", "b5", "b6", "t2", "t3", "l1t", "l1d", "l2t", "l2d", "l3t", "l3d", "qt", "qan", "qat", "qar", "qai"]
        .iter()
        .map(|s| text(s))
        .collect();
    assert_eq!(&row[11..], &rest[..]);
}

#[test]
fn post_round_trips_through_its_row() {
    let post = full_post();
    assert_eq!(Post::_from(&post.encode()), Ok(post));
}

#[test]
fn bare_post_round_trips_through_its_row() {
    let post = Post::draft(0, String::new(), String::new(), String::new());
    let row = post.encode();
    assert_eq!(row.iter().filter(|cell| **cell == SqlValue::Null).count(), 26);
    assert_eq!(Post::_from(&row), Ok(post));
}

#[test]
fn post_with_empty_tag_list_round_trips() {
    let mut post = Post::draft(1, String::from("t"), String::from("b"), String::from("s"));
    post.tags = Some(vec![]);
    let row = post.encode();
    assert_eq!(row[4], SqlValue::TextArray(vec![]));
    assert_eq!(Post::_from(&row), Ok(post));
}

#[test]
fn post_decode_reports_first_bad_mandatory_column() {
    let good = full_post().encode();
    for (column, expected) in [(0usize, 0usize), (1, 1), (2, 2), (10, 10)] {
        let mut row = copy_row(&good);
        row[column] = SqlValue::Null;
        assert_eq!(Post::_from(&row), Err(DecodeError::Null(expected)));
        row[column] = SqlValue::TextArray(vec![]);
        assert_eq!(Post::_from(&row), Err(DecodeError::WrongType(expected)));
    }
    let mut two_bad = copy_row(&good);
    two_bad[10] = SqlValue::Null;
    two_bad[2] = SqlValue::Int(0);
    assert_eq!(Post::_from(&two_bad), Err(DecodeError::WrongType(2)));
    assert_eq!(Post::_from(&good[..10].to_vec()), Err(DecodeError::Missing(10)));
    assert_eq!(Post::_from(&vec![]), Err(DecodeError::Missing(0)));
}

#[test]
fn post_decode_tolerates_short_rows_and_nulls() {
    let row = vec![
        SqlValue::Int(5),
        text("t"),
        text("b"),
        SqlValue::Null,
        SqlValue::Null,
        SqlValue::Null,
        SqlValue::Null,
        SqlValue::Null,
        SqlValue::Null,
        SqlValue::Null,
        text("s"),
    ];
    assert_eq!(Post::_from(&row), Ok(Post::draft(5, String::from("t"), String::from("b"), String::from("s"))));
}

#[test]
fn draft_holds_only_the_mandatory_fields() {
    let post = Post::draft(9, String::from("t"), String::from("b"), String::from("s"));
    assert_eq!(post.id, 9);
    assert_eq!(post.title, "t");
    assert_eq!(post.body, "b");
    assert_eq!(post.slug, "s");
    assert_eq!(post.image, None);
    assert_eq!(post.tags, None);
    assert_eq!(post.category, None);
    assert_eq!(post.created_at, None);
    assert_eq!(post.quote_author_image, None);
}

#[test]
fn stamp_fills_only_a_missing_creation_time() {
    let post = Post::draft(9, String::from("t"), String::from("b"), String::from("s"));
    let stamped = post.clone().stamp(42);
    assert_eq!(stamped.created_at, Some(42));
    assert_eq!(Post { created_at: None, ..stamped.clone() }, post);
    assert_eq!(stamped.clone().stamp(43), stamped);
}

#[test]
fn duplicates_are_equal() {
    let post = full_post();
    assert_eq!(post.duplicate(), post);
    let user = User { id: 1, name: String::from("A"), email: String::from("e"), password: Some(String::from("p")) };
    assert_eq!(user.duplicate(), user);
    assert_eq!(user.clone().public(), User { password: None, ..user });
}

#[test]
fn readers_read_by_kind() {
    let row = vec![SqlValue::Int(4), text("x"), SqlValue::Null, SqlValue::TextArray(vec![String::from("a")]), SqlValue::Timestamp(-1)];
    assert_eq!(read_int(&row, 0), Ok(4));
    assert_eq!(read_int(&row, 1), Err(DecodeError::WrongType(1)));
    assert_eq!(read_int(&row, 2), Err(DecodeError::Null(2)));
    assert_eq!(read_int(&row, 5), Err(DecodeError::Missing(5)));
    assert_eq!(read_text(&row, 1), Ok(String::from("x")));
    assert_eq!(read_text(&row, 0), Err(DecodeError::WrongType(0)));
    assert_eq!(read_text(&row, 2), Err(DecodeError::Null(2)));
    assert_eq!(read_text(&row, 9), Err(DecodeError::Missing(9)));
    assert_eq!(read_opt_text(&row, 1), Some(String::from("x")));
    assert_eq!(read_opt_text(&row, 2), None);
    assert_eq!(read_opt_text(&row, 0), None);
    assert_eq!(read_opt_text(&row, 5), None);
    assert_eq!(read_opt_texts(&row, 3), Some(vec![String::from("a")]));
    assert_eq!(read_opt_texts(&row, 1), None);
    assert_eq!(read_opt_texts(&row, 7), None);
    assert_eq!(read_opt_time(&row, 4), Some(-1));
    assert_eq!(read_opt_time(&row, 0), None);
    assert_eq!(read_opt_time(&row, 5), None);
}

#[test]
fn cells_are_built_by_kind() {
    assert_eq!(SqlValue::text(&String::from("a")), text("a"));
    assert_eq!(SqlValue::opt_text(&Some(String::from("a"))), text("a"));
    assert_eq!(SqlValue::opt_text(&None), SqlValue::Null);
    assert_eq!(SqlValue::opt_texts(&Some(vec![String::from("a")])), SqlValue::TextArray(vec![String::from("a")]));
    assert_eq!(SqlValue::opt_texts(&None), SqlValue::Null);
    assert_eq!(SqlValue::opt_time(Some(3)), SqlValue::Timestamp(3));
    assert_eq!(SqlValue::opt_time(None), SqlValue::Null);
    for cell in [SqlValue::Null, SqlValue::Int(1), text("a"), SqlValue::TextArray(vec![String::from("b")]), SqlValue::Timestamp(2)] {
        assert_eq!(cell.duplicate(), cell);
    }
}

#[test]
fn copies_are_equal() {
    let items = vec![String::from("a"), String::new(), String::from("ccc")];
    assert_eq!(copy_texts(&items), items);
    assert_eq!(copy_texts(&vec![]), Vec::<String>::new());
    assert_eq!(copy_opt_texts(&Some(items.clone())), Some(items));
    assert_eq!(copy_opt_texts(&None), None);
    assert_eq!(copy_opt_text(&Some(String::from("x"))), Some(String::from("x")));
    assert_eq!(copy_opt_text(&None), None);
    let row = full_post().encode();
    assert_eq!(copy_row(&row), row);
}
