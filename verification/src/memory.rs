//! A table store that lives in memory.

use vstd::prelude::*;
use vstd::string::*;
use crate::models::post::{post_views, Post, PostView};
use crate::models::user::{user_views, User};
use crate::store::{
    conflict, count_view, executed, misfit, post_ids, post_rows, queried, rows_view, user_ids, user_rows, wrong_call,
    Failure, Query, Selection, Statement, StorageError, StoreView,
};
use crate::text::texts;
use crate::values::{
    data, read_int, read_opt_text, read_opt_texts, read_text, table, Datum, SqlValue,
};

verus! {

/// The two tables of the service, held in memory. No id occurs twice in a
/// table, and each table keeps the order in which its records came.
pub struct Store {
    users: Vec<User>,
    posts: Vec<Post>,
}

impl View for Store {
    type V = StoreView;

    closed spec fn view(&self) -> StoreView {
        StoreView { users: user_views(self.users@), posts: post_views(self.posts@) }
    }
}

fn failure_misfit() -> (failure: Failure)
    ensures
        failure@ == misfit(),
{
    Failure { error: StorageError::Io, detail: String::from_str("parameters do not fit the statement") }
}

fn failure_conflict() -> (failure: Failure)
    ensures
        failure@ == conflict(),
{
    Failure {
        error: StorageError::Conflict,
        detail: String::from_str("duplicate key value violates unique constraint"),
    }
}

fn failure_wrong_call() -> (failure: Failure)
    ensures
        failure@ == wrong_call(),
{
    Failure { error: StorageError::Io, detail: String::from_str("statement does not match the call") }
}

/// Whether `items` holds `key`.
fn holds_text(items: &Vec<String>, key: &String) -> (found: bool)
    ensures
        found == texts(items@).contains(key@),
{
    let mut i: usize = 0;
    while i < items.len()
        invariant
            i <= items.len(),
            forall|j: int| 0 <= j < i ==> texts(items@)[j] != key@,
        decreases items.len() - i,
    {
        if items[i] == *key {
            assert(texts(items@)[i as int] == key@);
            return true;
        }
        i += 1;
    }
    false
}

/// Whether a selection picks a post under a key.
fn picked(selection: Selection, key: &String, post: &Post) -> (yes: bool)
    ensures
        yes == selection.picks(key@, post@),
{
    match selection {
        Selection::Slug => post.slug == *key,
        Selection::Category => match &post.category {
            Some(category) => *category == *key,
            None => false,
        },
        Selection::Tag => match &post.tags {
            Some(tags) => holds_text(tags, key),
            None => false,
        },
    }
}

impl Store {
    #[verifier::type_invariant]
    closed spec fn inv(&self) -> bool {
        self@.wf()
    }

    /// A store with two empty tables.
    pub fn new() -> (store: Store)
        ensures
            store@.users.len() == 0,
            store@.posts.len() == 0,
    {
        Store { users: Vec::new(), posts: Vec::new() }
    }

    /// Does nothing, and lets the caller know that no id occurs twice in a
    /// table of this store.
    pub fn attest(&self)
        ensures
            self@.wf(),
    {
        proof {
            use_type_invariant(self);
        }
    }

    /// Where the user with this id stands.
    fn user_position(&self, id: i64) -> (at: Option<usize>)
        ensures
            at is Some == user_ids(self@.users).contains(id),
            at matches Some(i) ==> i < self.users@.len() && user_ids(self@.users).index_of(id) == i,
    {
        proof {
            use_type_invariant(self);
        }
        let ghost ids = user_ids(self@.users);
        let mut i: usize = 0;
        while i < self.users.len()
            invariant
                i <= self.users.len(),
                ids == user_ids(self@.users),
                ids.len() == self.users@.len(),
                ids.no_duplicates(),
                forall|j: int| 0 <= j < i ==> ids[j] != id,
            decreases self.users.len() - i,
        {
            if self.users[i].id == id {
                assert(ids[i as int] == id);
                return Some(i);
            }
            i += 1;
        }
        None
    }

    /// Where the post with this id stands.
    fn post_position(&self, id: i64) -> (at: Option<usize>)
        ensures
            at is Some == post_ids(self@.posts).contains(id),
            at matches Some(i) ==> i < self.posts@.len() && post_ids(self@.posts).index_of(id) == i,
    {
        proof {
            use_type_invariant(self);
        }
        let ghost ids = post_ids(self@.posts);
        let mut i: usize = 0;
        while i < self.posts.len()
            invariant
                i <= self.posts.len(),
                ids == post_ids(self@.posts),
                ids.len() == self.posts@.len(),
                ids.no_duplicates(),
                forall|j: int| 0 <= j < i ==> ids[j] != id,
            decreases self.posts.len() - i,
        {
            if self.posts[i].id == id {
                assert(ids[i as int] == id);
                return Some(i);
            }
            i += 1;
        }
        None
    }

    fn insert_user(&mut self, params: &Vec<SqlValue>) -> (answer: Result<u64, Failure>)
        ensures
            (final(self)@, count_view(answer)) == old(self)@.user_inserted(data(params@)),
    {
        match User::from(params) {
            Err(_) => Err(failure_misfit()),
            Ok(user) => {
                if self.user_position(user.id).is_some() {
                    return Err(failure_conflict());
                }
                proof {
                    use_type_invariant(&*self);
                }
                let ghost before = self@;
                let mut users: Vec<User> = Vec::new();
                core::mem::swap(&mut self.users, &mut users);
                users.push(user);
                proof {
                    assert(user_ids(user_views(users@)) =~= user_ids(before.users).push(user.id));
                }
                core::mem::swap(&mut self.users, &mut users);
                proof {
                    assert(self@.users =~= before.users.push(user@));
                }
                Ok(1)
            },
        }
    }

    fn update_user(&mut self, params: &Vec<SqlValue>) -> (answer: Result<u64, Failure>)
        ensures
            (final(self)@, count_view(answer)) == old(self)@.user_updated(data(params@)),
    {
        let name = match read_text(params, 0) {
            Ok(name) => name,
            Err(_) => {
                return Err(failure_misfit());
            },
        };
        let email = match read_text(params, 1) {
            Ok(email) => email,
            Err(_) => {
                return Err(failure_misfit());
            },
        };
        let id = match read_int(params, 3) {
            Ok(id) => id,
            Err(_) => {
                return Err(failure_misfit());
            },
        };
        let password = read_opt_text(params, 2);
        match self.user_position(id) {
            None => Ok(0),
            Some(at) => {
                proof {
                    use_type_invariant(&*self);
                }
                let ghost before = self@;
                let user = User { id, name, email, password };
                let mut users: Vec<User> = Vec::new();
                core::mem::swap(&mut self.users, &mut users);
                users.set(at, user);
                proof {
                    assert(user_ids(user_views(users@)) =~= user_ids(before.users));
                }
                core::mem::swap(&mut self.users, &mut users);
                proof {
                    assert(self@.users =~= before.users.update(at as int, user@));
                }
                Ok(1)
            },
        }
    }

    fn delete_user(&mut self, params: &Vec<SqlValue>) -> (answer: Result<u64, Failure>)
        ensures
            (final(self)@, count_view(answer)) == old(self)@.user_deleted(data(params@)),
    {
        let id = match read_int(params, 0) {
            Ok(id) => id,
            Err(_) => {
                return Err(failure_misfit());
            },
        };
        match self.user_position(id) {
            None => Ok(0),
            Some(at) => {
                proof {
                    use_type_invariant(&*self);
                }
                let ghost before = self@;
                let mut users: Vec<User> = Vec::new();
                core::mem::swap(&mut self.users, &mut users);
                users.remove(at);
                proof {
                    assert(user_ids(user_views(users@)) =~= user_ids(before.users).remove(at as int));
                }
                core::mem::swap(&mut self.users, &mut users);
                proof {
                    assert(self@.users =~= before.users.remove(at as int));
                    user_ids(before.users).remove_ensures(at as int);
                }
                Ok(1)
            },
        }
    }

    fn insert_post(&mut self, params: &Vec<SqlValue>) -> (answer: Result<u64, Failure>)
        ensures
            (final(self)@, count_view(answer)) == old(self)@.post_inserted(data(params@)),
    {
        match Post::_from(params) {
            Err(_) => Err(failure_misfit()),
            Ok(post) => {
                if self.post_position(post.id).is_some() {
                    return Err(failure_conflict());
                }
                proof {
                    use_type_invariant(&*self);
                }
                let ghost before = self@;
                let mut posts: Vec<Post> = Vec::new();
                core::mem::swap(&mut self.posts, &mut posts);
                posts.push(post);
                proof {
                    assert(post_ids(post_views(posts@)) =~= post_ids(before.posts).push(post.id));
                }
                core::mem::swap(&mut self.posts, &mut posts);
                proof {
                    assert(self@.posts =~= before.posts.push(post@));
                }
                Ok(1)
            },
        }
    }

    fn update_post(&mut self, params: &Vec<SqlValue>) -> (answer: Result<u64, Failure>)
        ensures
            (final(self)@, count_view(answer)) == old(self)@.post_updated(data(params@)),
    {
        let title = match read_text(params, 0) {
            Ok(title) => title,
            Err(_) => {
                return Err(failure_misfit());
            },
        };
        let body = match read_text(params, 1) {
            Ok(body) => body,
            Err(_) => {
                return Err(failure_misfit());
            },
        };
        let id = match read_int(params, 5) {
            Ok(id) => id,
            Err(_) => {
                return Err(failure_misfit());
            },
        };
        let image = read_opt_text(params, 2);
        let tags = read_opt_texts(params, 3);
        let category = read_opt_text(params, 4);
        match self.post_position(id) {
            None => Ok(0),
            Some(at) => {
                proof {
                    use_type_invariant(&*self);
                }
                let ghost before = self@;
                let mut post = self.posts[at].duplicate();
                post.title = title;
                post.body = body;
                post.image = image;
                post.tags = tags;
                post.category = category;
                let mut posts: Vec<Post> = Vec::new();
                core::mem::swap(&mut self.posts, &mut posts);
                posts.set(at, post);
                proof {
                    assert(post_ids(post_views(posts@)) =~= post_ids(before.posts));
                }
                core::mem::swap(&mut self.posts, &mut posts);
                proof {
                    assert(self@.posts =~= before.posts.update(at as int, post@));
                }
                Ok(1)
            },
        }
    }

    fn delete_post(&mut self, params: &Vec<SqlValue>) -> (answer: Result<u64, Failure>)
        ensures
            (final(self)@, count_view(answer)) == old(self)@.post_deleted(data(params@)),
    {
        let id = match read_int(params, 0) {
            Ok(id) => id,
            Err(_) => {
                return Err(failure_misfit());
            },
        };
        match self.post_position(id) {
            None => Ok(0),
            Some(at) => {
                proof {
                    use_type_invariant(&*self);
                }
                let ghost before = self@;
                let mut posts: Vec<Post> = Vec::new();
                core::mem::swap(&mut self.posts, &mut posts);
                posts.remove(at);
                proof {
                    assert(post_ids(post_views(posts@)) =~= post_ids(before.posts).remove(at as int));
                }
                core::mem::swap(&mut self.posts, &mut posts);
                proof {
                    assert(self@.posts =~= before.posts.remove(at as int));
                    post_ids(before.posts).remove_ensures(at as int);
                }
                Ok(1)
            },
        }
    }

    /// Carries out a statement that changes a table and answers with the
    /// number of records it touched.
    pub fn execute(&mut self, statement: &Statement) -> (answer: Result<u64, Failure>)
        ensures
            (final(self)@, count_view(answer)) == executed(old(self)@, statement.query, data(statement.params@)),
            final(self)@.wf(),
    {
        let answer = match statement.query {
            Query::InsertUser => if statement.params.len() != 4 {
                Err(failure_misfit())
            } else {
                self.insert_user(&statement.params)
            },
            Query::UpdateUser => if statement.params.len() != 4 {
                Err(failure_misfit())
            } else {
                self.update_user(&statement.params)
            },
            Query::DeleteUser => if statement.params.len() != 1 {
                Err(failure_misfit())
            } else {
                self.delete_user(&statement.params)
            },
            Query::InsertPost => if statement.params.len() != 30 {
                Err(failure_misfit())
            } else {
                self.insert_post(&statement.params)
            },
            Query::UpdatePost => if statement.params.len() != 6 {
                Err(failure_misfit())
            } else {
                self.update_post(&statement.params)
            },
            Query::DeletePost => if statement.params.len() != 1 {
                Err(failure_misfit())
            } else {
                self.delete_post(&statement.params)
            },
            _ => Err(failure_wrong_call()),
        };
        proof {
            use_type_invariant(&*self);
        }
        answer
    }

    fn select_user(&self, params: &Vec<SqlValue>) -> (answer: Result<Vec<Vec<SqlValue>>, Failure>)
        ensures
            rows_view(answer) == self@.user_selected(data(params@)),
    {
        let id = match read_int(params, 0) {
            Ok(id) => id,
            Err(_) => {
                return Err(failure_misfit());
            },
        };
        let mut rows: Vec<Vec<SqlValue>> = Vec::new();
        match self.user_position(id) {
            None => {
                assert(table(rows@) =~= Seq::<Seq<Datum>>::empty());
            },
            Some(at) => {
                rows.push(self.users[at].encode());
                assert(table(rows@) =~= seq![User::row_of(self@.users[at as int])]);
            },
        }
        Ok(rows)
    }

    fn select_users(&self) -> (rows: Vec<Vec<SqlValue>>)
        ensures
            table(rows@) == user_rows(self@.users),
    {
        let mut rows: Vec<Vec<SqlValue>> = Vec::new();
        let mut i: usize = 0;
        while i < self.users.len()
            invariant
                i <= self.users.len(),
                rows@.len() == i,
                forall|j: int| 0 <= j < i ==> data(#[trigger] rows@[j]@) == User::row_of(self.users@[j]@),
            decreases self.users.len() - i,
        {
            rows.push(self.users[i].encode());
            i += 1;
        }
        rows
    }

    fn select_post(&self, params: &Vec<SqlValue>) -> (answer: Result<Vec<Vec<SqlValue>>, Failure>)
        ensures
            rows_view(answer) == self@.post_selected(data(params@)),
    {
        let id = match read_int(params, 0) {
            Ok(id) => id,
            Err(_) => {
                return Err(failure_misfit());
            },
        };
        let mut rows: Vec<Vec<SqlValue>> = Vec::new();
        match self.post_position(id) {
            None => {
                assert(table(rows@) =~= Seq::<Seq<Datum>>::empty());
            },
            Some(at) => {
                rows.push(self.posts[at].encode());
                assert(table(rows@) =~= seq![Post::row_of(self@.posts[at as int])]);
            },
        }
        Ok(rows)
    }

    fn select_posts(&self) -> (rows: Vec<Vec<SqlValue>>)
        ensures
            table(rows@) == post_rows(self@.posts),
    {
        let mut rows: Vec<Vec<SqlValue>> = Vec::new();
        let mut i: usize = 0;
        while i < self.posts.len()
            invariant
                i <= self.posts.len(),
                rows@.len() == i,
                forall|j: int| 0 <= j < i ==> data(#[trigger] rows@[j]@) == Post::row_of(self.posts@[j]@),
            decreases self.posts.len() - i,
        {
            rows.push(self.posts[i].encode());
            i += 1;
        }
        rows
    }

    fn select_posts_where(&self, selection: Selection, params: &Vec<SqlValue>) -> (answer: Result<
        Vec<Vec<SqlValue>>,
        Failure,
    >)
        ensures
            rows_view(answer) == self@.posts_selected(selection, data(params@)),
    {
        let key = match read_text(params, 0) {
            Ok(key) => key,
            Err(_) => {
                return Err(failure_misfit());
            },
        };
        let ghost all = self@.posts;
        let ghost pick = selection.picker(key@);
        let mut rows: Vec<Vec<SqlValue>> = Vec::new();
        let mut i: usize = 0;
        proof {
            reveal(Seq::filter);
        }
        while i < self.posts.len()
            invariant
                i <= self.posts.len(),
                all == self@.posts,
                all.len() == self.posts@.len(),
                pick == selection.picker(key@),
                table(rows@) == post_rows(all.subrange(0, i as int).filter(pick)),
            decreases self.posts.len() - i,
        {
            let ghost head = all.subrange(0, i as int);
            let ghost next = all.subrange(0, i + 1);
            assert(next.drop_last() =~= head);
            proof {
                reveal(Seq::filter);
            }
            if picked(selection, &key, &self.posts[i]) {
                rows.push(self.posts[i].encode());
                assert(post_rows(next.filter(pick)) =~= post_rows(head.filter(pick)).push(Post::row_of(next.last())));
            }
            i += 1;
        }
        assert(all.subrange(0, i as int) =~= all);
        Ok(rows)
    }

    /// Carries out a statement that reads a table and answers with the rows
    /// it selects, in table order.
    pub fn query(&self, statement: &Statement) -> (answer: Result<Vec<Vec<SqlValue>>, Failure>)
        ensures
            rows_view(answer) == queried(self@, statement.query, data(statement.params@)),
            self@.wf(),
    {
        proof {
            use_type_invariant(self);
        }
        match statement.query {
            Query::SelectUser => if statement.params.len() != 1 {
                Err(failure_misfit())
            } else {
                self.select_user(&statement.params)
            },
            Query::SelectUsers => if statement.params.len() != 0 {
                Err(failure_misfit())
            } else {
                Ok(self.select_users())
            },
            Query::SelectPost => if statement.params.len() != 1 {
                Err(failure_misfit())
            } else {
                self.select_post(&statement.params)
            },
            Query::SelectPostBySlug => if statement.params.len() != 1 {
                Err(failure_misfit())
            } else {
                self.select_posts_where(Selection::Slug, &statement.params)
            },
            Query::SelectPosts => if statement.params.len() != 0 {
                Err(failure_misfit())
            } else {
                Ok(self.select_posts())
            },
            Query::SelectPostsByCategory => if statement.params.len() != 1 {
                Err(failure_misfit())
            } else {
                self.select_posts_where(Selection::Category, &statement.params)
            },
            Query::SelectPostsByTag => if statement.params.len() != 1 {
                Err(failure_misfit())
            } else {
                self.select_posts_where(Selection::Tag, &statement.params)
            },
            _ => Err(failure_wrong_call()),
        }
    }
}

} // verus!
