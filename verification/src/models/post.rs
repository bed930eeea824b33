//! Posts: the record and its row codec.

use vstd::prelude::*;
use crate::memory::Store;
use crate::store::{ambiguous, post_rows, undecodable, Failure, FailureView, Query, Selection, Statement};
use crate::text::{dashes_to_spaces, opt_text, opt_texts, spaced};
use crate::values::{
    copy_opt_text, copy_opt_texts, data, int_at, opt_text_at, opt_texts_at, opt_time_at, read_int, read_opt_text,
    read_opt_texts, read_opt_time, read_text, table, text_at, text_or_null, texts_or_null, time_or_null, Datum,
    DecodeError, SqlValue,
};

verus! {

/// A post. `id`, `title`, `body` and `slug` are always there; everything
/// else is optional. The fields after `slug` are display material that is
/// stored and handed back as it came.
#[derive(Clone, Debug, PartialEq, Eq)]
pub struct Post {
    pub id: i64,
    pub title: String,
    pub body: String,
    pub image: Option<String>,
    pub tags: Option<Vec<String>>,
    pub category: Option<String>,
    pub company_name: Option<String>,
    pub company_logo: Option<String>,
    pub company_description: Option<String>,
    /// The instant of creation, in microseconds since the Unix epoch.
    pub created_at: Option<i64>,
    pub slug: String,
    pub video: Option<String>,
    pub body_2: Option<String>,
    pub body_3: Option<String>,
    pub body_4: Option<String>,
    pub body_5: Option<String>,
    pub body_6: Option<String>,
    pub title_2: Option<String>,
    pub title_3: Option<String>,
    pub list_1_title: Option<String>,
    pub list_1_description: Option<String>,
    pub list_2_title: Option<String>,
    pub list_2_description: Option<String>,
    pub list_3_title: Option<String>,
    pub list_3_description: Option<String>,
    pub quote_text: Option<String>,
    pub quote_author_name: Option<String>,
    pub quote_author_title: Option<String>,
    pub quote_author_role: Option<String>,
    pub quote_author_image: Option<String>,
}

/// The mathematical content of a [`Post`].
pub struct PostView {
    pub id: i64,
    pub title: Seq<char>,
    pub body: Seq<char>,
    pub image: Option<Seq<char>>,
    pub tags: Option<Seq<Seq<char>>>,
    pub category: Option<Seq<char>>,
    pub company_name: Option<Seq<char>>,
    pub company_logo: Option<Seq<char>>,
    pub company_description: Option<Seq<char>>,
    pub created_at: Option<i64>,
    pub slug: Seq<char>,
    pub video: Option<Seq<char>>,
    pub body_2: Option<Seq<char>>,
    pub body_3: Option<Seq<char>>,
    pub body_4: Option<Seq<char>>,
    pub body_5: Option<Seq<char>>,
    pub body_6: Option<Seq<char>>,
    pub title_2: Option<Seq<char>>,
    pub title_3: Option<Seq<char>>,
    pub list_1_title: Option<Seq<char>>,
    pub list_1_description: Option<Seq<char>>,
    pub list_2_title: Option<Seq<char>>,
    pub list_2_description: Option<Seq<char>>,
    pub list_3_title: Option<Seq<char>>,
    pub list_3_description: Option<Seq<char>>,
    pub quote_text: Option<Seq<char>>,
    pub quote_author_name: Option<Seq<char>>,
    pub quote_author_title: Option<Seq<char>>,
    pub quote_author_role: Option<Seq<char>>,
    pub quote_author_image: Option<Seq<char>>,
}

impl View for Post {
    type V = PostView;

    open spec fn view(&self) -> PostView {
        PostView {
            id: self.id,
            title: self.title@,
            body: self.body@,
            image: opt_text(self.image),
            tags: opt_texts(self.tags),
            category: opt_text(self.category),
            company_name: opt_text(self.company_name),
            company_logo: opt_text(self.company_logo),
            company_description: opt_text(self.company_description),
            created_at: self.created_at,
            slug: self.slug@,
            video: opt_text(self.video),
            body_2: opt_text(self.body_2),
            body_3: opt_text(self.body_3),
            body_4: opt_text(self.body_4),
            body_5: opt_text(self.body_5),
            body_6: opt_text(self.body_6),
            title_2: opt_text(self.title_2),
            title_3: opt_text(self.title_3),
            list_1_title: opt_text(self.list_1_title),
            list_1_description: opt_text(self.list_1_description),
            list_2_title: opt_text(self.list_2_title),
            list_2_description: opt_text(self.list_2_description),
            list_3_title: opt_text(self.list_3_title),
            list_3_description: opt_text(self.list_3_description),
            quote_text: opt_text(self.quote_text),
            quote_author_name: opt_text(self.quote_author_name),
            quote_author_title: opt_text(self.quote_author_title),
            quote_author_role: opt_text(self.quote_author_role),
            quote_author_image: opt_text(self.quote_author_image),
        }
    }
}

/// The content of a list of posts.
pub open spec fn post_views(posts: Seq<Post>) -> Seq<PostView> {
    Seq::new(posts.len(), |i: int| posts[i]@)
}

/// The content of a decoding result.
pub open spec fn post_read(result: Result<Post, DecodeError>) -> Result<PostView, DecodeError> {
    match result {
        Ok(post) => Ok(post@),
        Err(e) => Err(e),
    }
}

impl Post {
    /// The number of columns of the `posts` table. The columns are the
    /// fields of [`Post`], in the order of their declaration.
    pub const WIDTH: usize = 30;

    /// The row that holds `post`: one cell per column, in column order.
    pub open spec fn row_of(post: PostView) -> Seq<Datum> {
        seq![
            Datum::Int(post.id),
            Datum::Text(post.title),
            Datum::Text(post.body),
            text_or_null(post.image),
            texts_or_null(post.tags),
            text_or_null(post.category),
            text_or_null(post.company_name),
            text_or_null(post.company_logo),
            text_or_null(post.company_description),
            time_or_null(post.created_at),
            Datum::Text(post.slug),
            text_or_null(post.video),
            text_or_null(post.body_2),
            text_or_null(post.body_3),
            text_or_null(post.body_4),
            text_or_null(post.body_5),
            text_or_null(post.body_6),
            text_or_null(post.title_2),
            text_or_null(post.title_3),
            text_or_null(post.list_1_title),
            text_or_null(post.list_1_description),
            text_or_null(post.list_2_title),
            text_or_null(post.list_2_description),
            text_or_null(post.list_3_title),
            text_or_null(post.list_3_description),
            text_or_null(post.quote_text),
            text_or_null(post.quote_author_name),
            text_or_null(post.quote_author_title),
            text_or_null(post.quote_author_role),
            text_or_null(post.quote_author_image),
        ]
    }

    /// The optional fields of the post that `row` holds, around the four
    /// mandatory ones.
    pub open spec fn assembled(row: Seq<Datum>, id: i64, title: Seq<char>, body: Seq<char>, slug: Seq<char>) -> PostView {
        PostView {
            id,
            title,
            body,
            image: opt_text_at(row, 3),
            tags: opt_texts_at(row, 4),
            category: opt_text_at(row, 5),
            company_name: opt_text_at(row, 6),
            company_logo: opt_text_at(row, 7),
            company_description: opt_text_at(row, 8),
            created_at: opt_time_at(row, 9),
            slug,
            video: opt_text_at(row, 11),
            body_2: opt_text_at(row, 12),
            body_3: opt_text_at(row, 13),
            body_4: opt_text_at(row, 14),
            body_5: opt_text_at(row, 15),
            body_6: opt_text_at(row, 16),
            title_2: opt_text_at(row, 17),
            title_3: opt_text_at(row, 18),
            list_1_title: opt_text_at(row, 19),
            list_1_description: opt_text_at(row, 20),
            list_2_title: opt_text_at(row, 21),
            list_2_description: opt_text_at(row, 22),
            list_3_title: opt_text_at(row, 23),
            list_3_description: opt_text_at(row, 24),
            quote_text: opt_text_at(row, 25),
            quote_author_name: opt_text_at(row, 26),
            quote_author_title: opt_text_at(row, 27),
            quote_author_role: opt_text_at(row, 28),
            quote_author_image: opt_text_at(row, 29),
        }
    }

    /// The post that `row` holds. `id`, `title`, `body` and `slug` are
    /// mandatory and are reported, in this order, when one is missing, null
    /// or of another kind; every other column is optional.
    pub open spec fn decoded(row: Seq<Datum>) -> Result<PostView, DecodeError> {
        match int_at(row, 0) {
            Err(e) => Err(e),
            Ok(id) => match text_at(row, 1) {
                Err(e) => Err(e),
                Ok(title) => match text_at(row, 2) {
                    Err(e) => Err(e),
                    Ok(body) => match text_at(row, 10) {
                        Err(e) => Err(e),
                        Ok(slug) => Ok(Post::assembled(row, id, title, body, slug)),
                    },
                },
            },
        }
    }

    /// Encodes the post as a row.
    pub fn encode(&self) -> (row: Vec<SqlValue>)
        ensures
            data(row@) == Post::row_of(self@),
    {
        let row = vec![
            SqlValue::Int(self.id),
            SqlValue::text(&self.title),
            SqlValue::text(&self.body),
            SqlValue::opt_text(&self.image),
            SqlValue::opt_texts(&self.tags),
            SqlValue::opt_text(&self.category),
            SqlValue::opt_text(&self.company_name),
            SqlValue::opt_text(&self.company_logo),
            SqlValue::opt_text(&self.company_description),
            SqlValue::opt_time(self.created_at),
            SqlValue::text(&self.slug),
            SqlValue::opt_text(&self.video),
            SqlValue::opt_text(&self.body_2),
            SqlValue::opt_text(&self.body_3),
            SqlValue::opt_text(&self.body_4),
            SqlValue::opt_text(&self.body_5),
            SqlValue::opt_text(&self.body_6),
            SqlValue::opt_text(&self.title_2),
            SqlValue::opt_text(&self.title_3),
            SqlValue::opt_text(&self.list_1_title),
            SqlValue::opt_text(&self.list_1_description),
            SqlValue::opt_text(&self.list_2_title),
            SqlValue::opt_text(&self.list_2_description),
            SqlValue::opt_text(&self.list_3_title),
            SqlValue::opt_text(&self.list_3_description),
            SqlValue::opt_text(&self.quote_text),
            SqlValue::opt_text(&self.quote_author_name),
            SqlValue::opt_text(&self.quote_author_title),
            SqlValue::opt_text(&self.quote_author_role),
            SqlValue::opt_text(&self.quote_author_image),
        ];
        row
    }

    /// Decodes a row of the `posts` table.
    pub fn _from(row: &Vec<SqlValue>) -> (result: Result<Post, DecodeError>)
        ensures
            post_read(result) == Post::decoded(data(row@)),
    {
        let id = read_int(row, 0)?;
        let title = read_text(row, 1)?;
        let body = read_text(row, 2)?;
        let slug = read_text(row, 10)?;
        Ok(Post {
            id,
            title,
            body,
            image: read_opt_text(row, 3),
            tags: read_opt_texts(row, 4),
            category: read_opt_text(row, 5),
            company_name: read_opt_text(row, 6),
            company_logo: read_opt_text(row, 7),
            company_description: read_opt_text(row, 8),
            created_at: read_opt_time(row, 9),
            slug,
            video: read_opt_text(row, 11),
            body_2: read_opt_text(row, 12),
            body_3: read_opt_text(row, 13),
            body_4: read_opt_text(row, 14),
            body_5: read_opt_text(row, 15),
            body_6: read_opt_text(row, 16),
            title_2: read_opt_text(row, 17),
            title_3: read_opt_text(row, 18),
            list_1_title: read_opt_text(row, 19),
            list_1_description: read_opt_text(row, 20),
            list_2_title: read_opt_text(row, 21),
            list_2_description: read_opt_text(row, 22),
            list_3_title: read_opt_text(row, 23),
            list_3_description: read_opt_text(row, 24),
            quote_text: read_opt_text(row, 25),
            quote_author_name: read_opt_text(row, 26),
            quote_author_title: read_opt_text(row, 27),
            quote_author_role: read_opt_text(row, 28),
            quote_author_image: read_opt_text(row, 29),
        })
    }

    /// The post that holds the four mandatory fields and nothing else.
    pub open spec fn bare(id: i64, title: Seq<char>, body: Seq<char>, slug: Seq<char>) -> PostView {
        PostView {
            id,
            title,
            body,
            image: None,
            tags: None,
            category: None,
            company_name: None,
            company_logo: None,
            company_description: None,
            created_at: None,
            slug,
            video: None,
            body_2: None,
            body_3: None,
            body_4: None,
            body_5: None,
            body_6: None,
            title_2: None,
            title_3: None,
            list_1_title: None,
            list_1_description: None,
            list_2_title: None,
            list_2_description: None,
            list_3_title: None,
            list_3_description: None,
            quote_text: None,
            quote_author_name: None,
            quote_author_title: None,
            quote_author_role: None,
            quote_author_image: None,
        }
    }

    /// A post with the four mandatory fields and every optional one absent.
    pub fn draft(id: i64, title: String, body: String, slug: String) -> (post: Post)
        ensures
            post@ == Post::bare(id, title@, body@, slug@),
    {
        Post {
            id,
            title,
            body,
            image: None,
            tags: None,
            category: None,
            company_name: None,
            company_logo: None,
            company_description: None,
            created_at: None,
            slug,
            video: None,
            body_2: None,
            body_3: None,
            body_4: None,
            body_5: None,
            body_6: None,
            title_2: None,
            title_3: None,
            list_1_title: None,
            list_1_description: None,
            list_2_title: None,
            list_2_description: None,
            list_3_title: None,
            list_3_description: None,
            quote_text: None,
            quote_author_name: None,
            quote_author_title: None,
            quote_author_role: None,
            quote_author_image: None,
        }
    }

    /// A copy with the same content.
    pub fn duplicate(&self) -> (copy: Post)
        ensures
            copy@ == self@,
    {
        Post {
            id: self.id,
            title: self.title.clone(),
            body: self.body.clone(),
            image: copy_opt_text(&self.image),
            tags: copy_opt_texts(&self.tags),
            category: copy_opt_text(&self.category),
            company_name: copy_opt_text(&self.company_name),
            company_logo: copy_opt_text(&self.company_logo),
            company_description: copy_opt_text(&self.company_description),
            created_at: self.created_at,
            slug: self.slug.clone(),
            video: copy_opt_text(&self.video),
            body_2: copy_opt_text(&self.body_2),
            body_3: copy_opt_text(&self.body_3),
            body_4: copy_opt_text(&self.body_4),
            body_5: copy_opt_text(&self.body_5),
            body_6: copy_opt_text(&self.body_6),
            title_2: copy_opt_text(&self.title_2),
            title_3: copy_opt_text(&self.title_3),
            list_1_title: copy_opt_text(&self.list_1_title),
            list_1_description: copy_opt_text(&self.list_1_description),
            list_2_title: copy_opt_text(&self.list_2_title),
            list_2_description: copy_opt_text(&self.list_2_description),
            list_3_title: copy_opt_text(&self.list_3_title),
            list_3_description: copy_opt_text(&self.list_3_description),
            quote_text: copy_opt_text(&self.quote_text),
            quote_author_name: copy_opt_text(&self.quote_author_name),
            quote_author_title: copy_opt_text(&self.quote_author_title),
            quote_author_role: copy_opt_text(&self.quote_author_role),
            quote_author_image: copy_opt_text(&self.quote_author_image),
        }
    }
}

/// The content of an optional post.
pub open spec fn opt_post(post: Option<Post>) -> Option<PostView> {
    match post {
        Some(p) => Some(p@),
        None => None,
    }
}

/// The content of the result of a creation.
pub open spec fn post_made(result: Result<Post, Failure>) -> Result<PostView, FailureView> {
    match result {
        Ok(post) => Ok(post@),
        Err(failure) => Err(failure@),
    }
}

/// The content of the result of a point lookup.
pub open spec fn post_found(result: Result<Option<Post>, Failure>) -> Result<Option<PostView>, FailureView> {
    match result {
        Ok(post) => Ok(opt_post(post)),
        Err(failure) => Err(failure@),
    }
}

/// The content of the result of a scan.
pub open spec fn posts_found(result: Result<Vec<Post>, Failure>) -> Result<Seq<PostView>, FailureView> {
    match result {
        Ok(posts) => Ok(post_views(posts@)),
        Err(failure) => Err(failure@),
    }
}

impl Post {
    /// The bind parameters of the update of a post, in placeholder order.
    pub open spec fn update_params(post: PostView) -> Seq<Datum> {
        seq![
            Datum::Text(post.title),
            Datum::Text(post.body),
            text_or_null(post.image),
            texts_or_null(post.tags),
            text_or_null(post.category),
            Datum::Int(post.id),
        ]
    }

    /// The statement that inserts this post.
    pub fn insert_statement(&self) -> (statement: Statement)
        ensures
            statement.query == Query::InsertPost,
            data(statement.params@) == Post::row_of(self@),
    {
        Statement { query: Query::InsertPost, params: self.encode() }
    }

    /// The statement that replaces title, body, image, tags and category of
    /// the post with this post's id by this post's.
    pub fn update_statement(&self) -> (statement: Statement)
        ensures
            statement.query == Query::UpdatePost,
            data(statement.params@) == Post::update_params(self@),
    {
        let params = vec![
            SqlValue::text(&self.title),
            SqlValue::text(&self.body),
            SqlValue::opt_text(&self.image),
            SqlValue::opt_texts(&self.tags),
            SqlValue::opt_text(&self.category),
            SqlValue::Int(self.id),
        ];
        Statement { query: Query::UpdatePost, params }
    }

    /// The statement that removes the post `id`.
    pub fn delete_statement(id: i64) -> (statement: Statement)
        ensures
            statement.query == Query::DeletePost,
            data(statement.params@) == seq![Datum::Int(id)],
    {
        Statement::keyed(Query::DeletePost, id)
    }

    /// The statement that selects the post `id`.
    pub fn select_statement(id: i64) -> (statement: Statement)
        ensures
            statement.query == Query::SelectPost,
            data(statement.params@) == seq![Datum::Int(id)],
    {
        Statement::keyed(Query::SelectPost, id)
    }

    /// The statement that selects the posts with this slug.
    pub fn select_by_slug_statement(slug: &String) -> (statement: Statement)
        ensures
            statement.query == Query::SelectPostBySlug,
            data(statement.params@) == seq![Datum::Text(slug@)],
    {
        Statement::named(Query::SelectPostBySlug, slug)
    }

    /// The statement that selects the posts of a category. The category
    /// comes as it stands in a path, with dashes for spaces.
    pub fn select_by_category_statement(category: &String) -> (statement: Statement)
        ensures
            statement.query == Query::SelectPostsByCategory,
            data(statement.params@) == seq![Datum::Text(spaced(category@))],
    {
        let key = dashes_to_spaces(category.as_str());
        Statement::named(Query::SelectPostsByCategory, &key)
    }

    /// The statement that selects the posts that carry a tag.
    pub fn select_by_tag_statement(tag: &String) -> (statement: Statement)
        ensures
            statement.query == Query::SelectPostsByTag,
            data(statement.params@) == seq![Datum::Text(tag@)],
    {
        Statement::named(Query::SelectPostsByTag, tag)
    }

    /// The statement that selects every post.
    pub fn select_all_statement() -> (statement: Statement)
        ensures
            statement.query == Query::SelectPosts,
            data(statement.params@) == Seq::<Datum>::empty(),
    {
        Statement::bare(Query::SelectPosts)
    }

    /// What the rows of a point lookup hold: nothing where there is no row,
    /// the post of the one row, and a failure where the row does not decode
    /// or there are several.
    pub open spec fn one_of(rows: Seq<Seq<Datum>>) -> Result<Option<PostView>, FailureView> {
        if rows.len() == 0 {
            Ok(None)
        } else if rows.len() > 1 {
            Err(ambiguous())
        } else {
            match Post::decoded(rows[0]) {
                Ok(post) => Ok(Some(post)),
                Err(_) => Err(undecodable()),
            }
        }
    }

    /// What the rows of a scan hold: the post of each row, in order, or a
    /// failure where a row does not decode.
    pub open spec fn all_of(rows: Seq<Seq<Datum>>) -> Result<Seq<PostView>, FailureView> {
        if forall|i: int| 0 <= i < rows.len() ==> (#[trigger] Post::decoded(rows[i])) is Ok {
            Ok(Seq::new(rows.len(), |i: int| Post::decoded(rows[i])->Ok_0))
        } else {
            Err(undecodable())
        }
    }

    /// Reads the answer to a point lookup.
    pub fn one_from(rows: &Vec<Vec<SqlValue>>) -> (result: Result<Option<Post>, Failure>)
        ensures
            post_found(result) == Post::one_of(table(rows@)),
    {
        if rows.len() == 0 {
            Ok(None)
        } else if rows.len() > 1 {
            Err(Failure::ambiguous())
        } else {
            match Post::_from(&rows[0]) {
                Ok(post) => Ok(Some(post)),
                Err(_) => Err(Failure::undecodable()),
            }
        }
    }

    /// Reads the answer to a scan.
    pub fn all_from(rows: &Vec<Vec<SqlValue>>) -> (result: Result<Vec<Post>, Failure>)
        ensures
            posts_found(result) == Post::all_of(table(rows@)),
    {
        let mut posts: Vec<Post> = Vec::new();
        let mut i: usize = 0;
        while i < rows.len()
            invariant
                i <= rows.len(),
                posts@.len() == i,
                forall|j: int| 0 <= j < i ==> Post::decoded(#[trigger] table(rows@)[j]) == Ok::<PostView, DecodeError>(
                    posts@[j]@,
                ),
            decreases rows.len() - i,
        {
            match Post::_from(&rows[i]) {
                Ok(post) => {
                    posts.push(post);
                },
                Err(_) => {
                    assert(Post::decoded(table(rows@)[i as int]) is Err);
                    return Err(Failure::undecodable());
                },
            }
            i += 1;
        }
        assert(post_views(posts@) =~= Seq::new(table(rows@).len(), |i: int| Post::decoded(table(rows@)[i])->Ok_0));
        Ok(posts)
    }

    /// Creates a post. Fails with a conflict, and leaves the store as it
    /// was, where the id is taken; otherwise the post stands at the end of
    /// the table and is handed back as it was stored.
    pub fn new(post: Post, store: &mut Store) -> (result: Result<Post, Failure>)
        ensures
            (final(store)@, post_made(result)) == old(store)@.post_created(post@),
            final(store)@.wf(),
    {
        let statement = post.insert_statement();
        proof {
            lemma_post_row_decodes(post@);
        }
        match store.execute(&statement) {
            Ok(_) => Ok(post),
            Err(failure) => Err(failure),
        }
    }

    /// Replaces title, body, image, tags and category of the post with the
    /// id of `post` by those of `post`; its other fields stay as they are
    /// stored. Where no post has this id nothing changes, and that is no
    /// error.
    pub fn update(store: &mut Store, post: Post) -> (result: Result<(), Failure>)
        ensures
            result is Ok,
            final(store)@ == old(store)@.post_changed(
                post.id,
                post@.title,
                post@.body,
                post@.image,
                post@.tags,
                post@.category,
            ),
            final(store)@.wf(),
    {
        let statement = post.update_statement();
        match store.execute(&statement) {
            Ok(_) => Ok(()),
            Err(failure) => Err(failure),
        }
    }

    /// Removes the post `id`. Where no post has this id nothing changes,
    /// and that is no error.
    pub fn delete(store: &mut Store, id: i64) -> (result: Result<(), Failure>)
        ensures
            result is Ok,
            final(store)@ == old(store)@.post_removed(id),
            final(store)@.wf(),
    {
        let statement = Post::delete_statement(id);
        match store.execute(&statement) {
            Ok(_) => Ok(()),
            Err(failure) => Err(failure),
        }
    }

    /// Looks the post `id` up. A post that is not there is `None`, not an
    /// error.
    pub fn get(store: &Store, id: i64) -> (result: Result<Option<Post>, Failure>)
        ensures
            result matches Ok(found) && opt_post(found) == store@.post(id),
            store@.wf(),
    {
        let statement = Post::select_statement(id);
        proof {
            if store@.post(id) is Some {
                lemma_post_row_decodes(store@.post(id)->0);
            }
        }
        match store.query(&statement) {
            Ok(rows) => Post::one_from(&rows),
            Err(failure) => Err(failure),
        }
    }

    /// Looks a post up by its slug: nothing where no post has it, the post
    /// where one has it, and a failure where several have it.
    pub fn get_by_slug(store: &Store, slug: String) -> (result: Result<Option<Post>, Failure>)
        ensures
            post_found(result) == Post::one_of(post_rows(store@.selected(Selection::Slug, slug@))),
            store@.selected(Selection::Slug, slug@).len() == 0 ==> result matches Ok(None),
            store@.selected(Selection::Slug, slug@).len() == 1 ==> (result matches Ok(Some(post)) && post@
                == store@.selected(Selection::Slug, slug@)[0]),
            store@.selected(Selection::Slug, slug@).len() > 1 ==> result is Err,
            store@.wf(),
    {
        let statement = Post::select_by_slug_statement(&slug);
        proof {
            let hits = store@.selected(Selection::Slug, slug@);
            if hits.len() == 1 {
                lemma_post_row_decodes(hits[0]);
            }
        }
        match store.query(&statement) {
            Ok(rows) => Post::one_from(&rows),
            Err(failure) => Err(failure),
        }
    }

    /// Reads the posts of a category, in table order. The category comes
    /// as it stands in a path, with dashes for spaces.
    pub fn get_category(store: &Store, category: String) -> (result: Result<Vec<Post>, Failure>)
        ensures
            result matches Ok(posts) && post_views(posts@) == store@.selected(Selection::Category, spaced(category@)),
            store@.wf(),
    {
        let statement = Post::select_by_category_statement(&category);
        match store.query(&statement) {
            Ok(rows) => {
                proof {
                    lemma_post_rows_decode(store@.selected(Selection::Category, spaced(category@)));
                }
                Post::all_from(&rows)
            },
            Err(failure) => Err(failure),
        }
    }

    /// Reads the posts that carry a tag, in table order.
    pub fn get_tag(store: &Store, tag: String) -> (result: Result<Vec<Post>, Failure>)
        ensures
            result matches Ok(posts) && post_views(posts@) == store@.selected(Selection::Tag, tag@),
            store@.wf(),
    {
        let statement = Post::select_by_tag_statement(&tag);
        match store.query(&statement) {
            Ok(rows) => {
                proof {
                    lemma_post_rows_decode(store@.selected(Selection::Tag, tag@));
                }
                Post::all_from(&rows)
            },
            Err(failure) => Err(failure),
        }
    }

    /// Reads every post, in table order.
    pub fn get_all(store: &Store) -> (result: Result<Vec<Post>, Failure>)
        ensures
            result matches Ok(posts) && post_views(posts@) == store@.posts,
            store@.wf(),
    {
        let statement = Post::select_all_statement();
        match store.query(&statement) {
            Ok(rows) => {
                proof {
                    lemma_post_rows_decode(store@.posts);
                }
                Post::all_from(&rows)
            },
            Err(failure) => Err(failure),
        }
    }
}

/// Reading undoes writing for whole tables: the rows of a list of posts
/// decode to that list.
pub proof fn lemma_post_rows_decode(posts: Seq<PostView>)
    ensures
        Post::all_of(post_rows(posts)) == Ok::<Seq<PostView>, FailureView>(posts),
{
    let rows = post_rows(posts);
    assert forall|i: int| 0 <= i < rows.len() implies (#[trigger] Post::decoded(rows[i])) == Ok::<
        PostView,
        DecodeError,
    >(posts[i]) by {
        lemma_post_row_decodes(posts[i]);
    }
    assert(Seq::new(rows.len(), |i: int| Post::decoded(rows[i])->Ok_0) =~= posts);
}

/// The row of a post, cell by cell.
pub proof fn lemma_post_row_cells(post: PostView)
    ensures
        Post::row_of(post).len() == 30,
        Post::row_of(post)[0] == Datum::Int(post.id),
        Post::row_of(post)[1] == Datum::Text(post.title),
        Post::row_of(post)[2] == Datum::Text(post.body),
        Post::row_of(post)[3] == text_or_null(post.image),
        Post::row_of(post)[4] == texts_or_null(post.tags),
        Post::row_of(post)[5] == text_or_null(post.category),
        Post::row_of(post)[6] == text_or_null(post.company_name),
        Post::row_of(post)[7] == text_or_null(post.company_logo),
        Post::row_of(post)[8] == text_or_null(post.company_description),
        Post::row_of(post)[9] == time_or_null(post.created_at),
        Post::row_of(post)[10] == Datum::Text(post.slug),
        Post::row_of(post)[11] == text_or_null(post.video),
        Post::row_of(post)[12] == text_or_null(post.body_2),
        Post::row_of(post)[13] == text_or_null(post.body_3),
        Post::row_of(post)[14] == text_or_null(post.body_4),
        Post::row_of(post)[15] == text_or_null(post.body_5),
        Post::row_of(post)[16] == text_or_null(post.body_6),
        Post::row_of(post)[17] == text_or_null(post.title_2),
        Post::row_of(post)[18] == text_or_null(post.title_3),
        Post::row_of(post)[19] == text_or_null(post.list_1_title),
        Post::row_of(post)[20] == text_or_null(post.list_1_description),
        Post::row_of(post)[21] == text_or_null(post.list_2_title),
        Post::row_of(post)[22] == text_or_null(post.list_2_description),
        Post::row_of(post)[23] == text_or_null(post.list_3_title),
        Post::row_of(post)[24] == text_or_null(post.list_3_description),
        Post::row_of(post)[25] == text_or_null(post.quote_text),
        Post::row_of(post)[26] == text_or_null(post.quote_author_name),
        Post::row_of(post)[27] == text_or_null(post.quote_author_title),
        Post::row_of(post)[28] == text_or_null(post.quote_author_role),
        Post::row_of(post)[29] == text_or_null(post.quote_author_image),
{
}

/// Decoding undoes encoding: the row of a post decodes to that post.
pub proof fn lemma_post_row_decodes(post: PostView)
    ensures
        Post::decoded(Post::row_of(post)) == Ok::<PostView, DecodeError>(post),
{
    lemma_post_row_cells(post);
    let row = Post::row_of(post);
    assert(Post::assembled(row, post.id, post.title, post.body, post.slug) == post);
}

} // verus!
