//! What holds of the service as a whole: the laws that relate creation,
//! lookup, update and removal, the life of a token, and the access gate.
//!
//! Each law is stated over the mathematical content of the store and of the
//! values involved, in the terms in which the repositories and handlers
//! state their own results.

use vstd::prelude::*;
use crate::auth::{accepted, refused, verdict, AuthError, ClaimsView};
use crate::clock::Moment;
use crate::gate::{bearer_token, gate_verdict, header_value, Header, Rejection};
use crate::handlers::{post_added, post_dropped, post_replaced, stamped, unauthorized};
use crate::models::post::{lemma_post_row_cells, lemma_post_row_decodes, Post, PostView};
use crate::models::user::{lemma_user_row_decodes, User, UserView};
use crate::service::OperationView;
use crate::store::{
    all_fit, conflict, executed, post_ids, post_kinds, queried, user_ids, user_kinds, FailureView, Query, StoreView,
};
use crate::token::{holding, token_content, ClaimSet, TokenDefect};
use crate::values::Datum;

verus! {

/// In a list without repetition, a value stands where it is seen and
/// nowhere else.
proof fn lemma_position(ids: Seq<i64>, id: i64, at: int)
    requires
        ids.no_duplicates(),
        0 <= at < ids.len(),
        ids[at] == id,
    ensures
        ids.contains(id),
        ids.index_of(id) == at,
{
}

/// A list without repetition stays one when an element is taken out, and
/// no longer holds that element.
proof fn lemma_removed(ids: Seq<i64>, at: int)
    requires
        ids.no_duplicates(),
        0 <= at < ids.len(),
    ensures
        ids.remove(at).no_duplicates(),
        !ids.remove(at).contains(ids[at]),
        forall|other: i64| other != ids[at] ==> ids.remove(at).contains(other) == ids.contains(other),
        forall|other: i64|
            other != ids[at] && ids.contains(other) ==> #[trigger] ids.remove(at).index_of(other) == if ids.index_of(
                other,
            ) < at {
                ids.index_of(other)
            } else {
                ids.index_of(other) - 1
            },
{
    let rest = ids.remove(at);
    assert forall|i: int| 0 <= i < rest.len() implies rest[i] == if i < at {
        ids[i]
    } else {
        ids[i + 1]
    } by {}
    assert forall|other: i64| other != ids[at] implies rest.contains(other) == ids.contains(other) by {
        if ids.contains(other) {
            let i = ids.index_of(other);
            if i < at {
                assert(rest[i] == other);
            } else {
                assert(rest[i - 1] == other);
            }
        }
    }
    assert forall|other: i64| other != ids[at] && ids.contains(other) implies #[trigger] rest.index_of(other) == if ids.index_of(
        other,
    ) < at {
        ids.index_of(other)
    } else {
        ids.index_of(other) - 1
    } by {
        let i = ids.index_of(other);
        if i < at {
            lemma_position(rest, other, i);
        } else {
            lemma_position(rest, other, i - 1);
        }
    }
}

/// Creation keeps the store well formed. A user that was created under a
/// free id is found under that id, equal to what was given, and every
/// other lookup answers as before.
pub proof fn law_user_create_then_get(store: StoreView, user: UserView)
    requires
        store.wf(),
        store.user(user.id) is None,
    ensures
        store.user_created(user).1 is Ok,
        store.user_created(user).1->Ok_0 == user,
        store.user_created(user).0.wf(),
        store.user_created(user).0.user(user.id) == Some(user),
        forall|other: i64| other != user.id ==> store.user_created(user).0.user(other) == store.user(other),
{
    let after = store.user_created(user).0;
    let ids = user_ids(store.users);
    let ids_after = user_ids(after.users);
    assert(ids_after =~= ids.push(user.id));
    lemma_position(ids_after, user.id, ids.len() as int);
    assert forall|other: i64| other != user.id implies after.user(other) == store.user(other) by {
        if ids.contains(other) {
            lemma_position(ids_after, other, ids.index_of(other));
        }
    }
}

/// Creation under an id that is taken fails with a conflict and changes
/// nothing.
pub proof fn law_user_create_conflict(store: StoreView, user: UserView)
    requires
        store.user(user.id) is Some,
    ensures
        store.user_created(user).0 == store,
        store.user_created(user).1 is Err,
        store.user_created(user).1->Err_0 == conflict(),
{
}

/// After the removal of an id no user is found under it, whether one was
/// there or not; every other lookup answers as before, and a second
/// removal changes nothing.
pub proof fn law_user_delete_then_get(store: StoreView, id: i64)
    requires
        store.wf(),
    ensures
        store.user_removed(id).wf(),
        store.user_removed(id).user(id) is None,
        forall|other: i64| other != id ==> store.user_removed(id).user(other) == store.user(other),
        store.user_removed(id).user_removed(id) == store.user_removed(id),
        store.user(id) is None ==> store.user_removed(id) == store,
        store.user_removed(id).posts == store.posts,
{
    let ids = user_ids(store.users);
    if ids.contains(id) {
        let at = ids.index_of(id);
        let after = store.user_removed(id);
        assert(user_ids(after.users) =~= ids.remove(at));
        lemma_removed(ids, at);
    }
}

/// An update replaces name, email and password of the user under the id
/// and nothing else: the user is found with the new fields, every other
/// lookup answers as before, the order of the table and the posts stay,
/// and an id that is not there changes nothing.
pub proof fn law_user_update_then_get(
    store: StoreView,
    id: i64,
    name: Seq<char>,
    email: Seq<char>,
    password: Option<Seq<char>>,
)
    requires
        store.wf(),
    ensures
        store.user_changed(id, name, email, password).wf(),
        store.user(id) is Some ==> store.user_changed(id, name, email, password).user(id) == Some(
            UserView { id, name, email, password },
        ),
        store.user(id) is None ==> store.user_changed(id, name, email, password) == store,
        forall|other: i64|
            other != id ==> store.user_changed(id, name, email, password).user(other) == store.user(other),
        user_ids(store.user_changed(id, name, email, password).users) == user_ids(store.users),
        store.user_changed(id, name, email, password).posts == store.posts,
{
    let ids = user_ids(store.users);
    let after = store.user_changed(id, name, email, password);
    assert(user_ids(after.users) =~= ids);
}

/// Creation keeps the store well formed. A post that was created under a
/// free id is found under that id, equal to what was given, and every
/// other lookup answers as before.
pub proof fn law_post_create_then_get(store: StoreView, post: PostView)
    requires
        store.wf(),
        store.post(post.id) is None,
    ensures
        store.post_created(post).1 is Ok,
        store.post_created(post).1->Ok_0 == post,
        store.post_created(post).0.wf(),
        store.post_created(post).0.post(post.id) == Some(post),
        forall|other: i64| other != post.id ==> store.post_created(post).0.post(other) == store.post(other),
{
    let after = store.post_created(post).0;
    let ids = post_ids(store.posts);
    let ids_after = post_ids(after.posts);
    assert(ids_after =~= ids.push(post.id));
    lemma_position(ids_after, post.id, ids.len() as int);
    assert forall|other: i64| other != post.id implies after.post(other) == store.post(other) by {
        if ids.contains(other) {
            lemma_position(ids_after, other, ids.index_of(other));
        }
    }
}

/// After the removal of an id no post is found under it, whether one was
/// there or not; every other lookup answers as before, and a second
/// removal changes nothing.
pub proof fn law_post_delete_then_get(store: StoreView, id: i64)
    requires
        store.wf(),
    ensures
        store.post_removed(id).wf(),
        store.post_removed(id).post(id) is None,
        forall|other: i64| other != id ==> store.post_removed(id).post(other) == store.post(other),
        store.post_removed(id).post_removed(id) == store.post_removed(id),
        store.post(id) is None ==> store.post_removed(id) == store,
        store.post_removed(id).users == store.users,
{
    let ids = post_ids(store.posts);
    if ids.contains(id) {
        let at = ids.index_of(id);
        let after = store.post_removed(id);
        assert(post_ids(after.posts) =~= ids.remove(at));
        lemma_removed(ids, at);
    }
}

/// An update replaces title, body, image, tags and category of the post
/// under the id and nothing else: the post is found with the new fields
/// and its other fields as they were, every other lookup answers as
/// before, the users stay, and an id that is not there changes nothing.
pub proof fn law_post_update_then_get(
    store: StoreView,
    id: i64,
    title: Seq<char>,
    body: Seq<char>,
    image: Option<Seq<char>>,
    tags: Option<Seq<Seq<char>>>,
    category: Option<Seq<char>>,
)
    requires
        store.wf(),
    ensures
        store.post_changed(id, title, body, image, tags, category).wf(),
        store.post(id) is Some ==> store.post_changed(id, title, body, image, tags, category).post(id) == Some(
            PostView { title, body, image, tags, category, ..store.post(id)->0 },
        ),
        store.post(id) is None ==> store.post_changed(id, title, body, image, tags, category) == store,
        forall|other: i64|
            other != id ==> store.post_changed(id, title, body, image, tags, category).post(other) == store.post(
                other,
            ),
        post_ids(store.post_changed(id, title, body, image, tags, category).posts) == post_ids(store.posts),
        store.post_changed(id, title, body, image, tags, category).users == store.users,
{
    let ids = post_ids(store.posts);
    let after = store.post_changed(id, title, body, image, tags, category);
    assert(post_ids(after.posts) =~= ids);
}

/// What the select statement for the id of `user` answers once the insert
/// statement of `user` has run on `store`.
pub open spec fn user_read_back(store: StoreView, user: UserView) -> Result<Seq<Seq<Datum>>, FailureView> {
    queried(
        executed(store, Query::InsertUser, User::row_of(user)).0,
        Query::SelectUser,
        seq![Datum::Int(user.id)],
    )
}

/// What the select statement for the id of `post` answers once the insert
/// statement of `post` has run on `store`.
pub open spec fn post_read_back(store: StoreView, post: PostView) -> Result<Seq<Seq<Datum>>, FailureView> {
    queried(
        executed(store, Query::InsertPost, Post::row_of(post)).0,
        Query::SelectPost,
        seq![Datum::Int(post.id)],
    )
}

/// The round trip through the statements themselves: the insert statement
/// of a user, with the user's row as its parameters, succeeds under a free
/// id, and the select statement for that id then answers with rows that
/// decode to the user, password and all.
pub proof fn law_user_insert_then_select(store: StoreView, user: UserView)
    requires
        store.wf(),
        store.user(user.id) is None,
    ensures
        executed(store, Query::InsertUser, User::row_of(user)).1 is Ok,
        user_read_back(store, user) is Ok,
        User::one_of(user_read_back(store, user)->Ok_0) is Ok,
        User::one_of(user_read_back(store, user)->Ok_0)->Ok_0 == Some(user),
{
    lemma_user_row_decodes(user);
    law_user_create_then_get(store, user);
}

/// The round trip through the statements themselves, for a post.
pub proof fn law_post_insert_then_select(store: StoreView, post: PostView)
    requires
        store.wf(),
        store.post(post.id) is None,
    ensures
        executed(store, Query::InsertPost, Post::row_of(post)).1 is Ok,
        post_read_back(store, post) is Ok,
        Post::one_of(post_read_back(store, post)->Ok_0) is Ok,
        Post::one_of(post_read_back(store, post)->Ok_0)->Ok_0 == Some(post),
{
    lemma_post_row_decodes(post);
    lemma_post_row_cells(post);
    law_post_create_then_get(store, post);
}

/// Every statement fits its query: whatever the operation, the bind
/// parameters are as many as the placeholders of its query, and each is
/// null or of the kind of its placeholder.
pub proof fn law_parameters_fit(operation: OperationView, now: i64)
    ensures
        operation.params(now).len() == operation.query().arity(),
        all_fit(operation.params(now), operation.query().param_kinds()),
{
    match operation {
        OperationView::AddPost(post) => {
            lemma_post_row_cells(stamped(post, now));
        },
        _ => {},
    }
}

/// Every row fits its table: the row of a user and the row of a post hold,
/// column by column, null or a value of the kind of the column.
pub proof fn law_rows_fit(user: UserView, post: PostView)
    ensures
        all_fit(User::row_of(user), user_kinds()),
        all_fit(Post::row_of(post), post_kinds()),
{
    lemma_post_row_cells(post);
}

/// A token lives until its expiry and not an instant longer: what reads
/// as a subject and an expiry is accepted at every instant before the
/// expiry, and turned down as invalid from the expiry on.
pub proof fn law_token_dies_at_expiry(subject: Seq<char>, expiry: u64, now: int)
    requires
        expiry <= usize::MAX,
    ensures
        now < expiry ==> verdict(holding(subject, expiry), now) == accepted(subject, expiry as int),
        now >= expiry ==> verdict(holding(subject, expiry), now) == refused(AuthError::Invalid),
{
}

/// A reading that failed with `defect`.
pub open spec fn unread(defect: TokenDefect) -> Result<ClaimSet, TokenDefect> {
    Err(defect)
}

/// A token that does not read is never accepted, at any instant.
pub proof fn law_unreadable_token_is_refused(defect: TokenDefect, now: int)
    ensures
        verdict(unread(defect), now) is Err,
{
}

/// The decision that turns a request away.
pub open spec fn turned_away(rejection: Rejection) -> Result<ClaimsView, Rejection> {
    Err(rejection)
}

/// The access gate stays shut without an `Authorization` header, with one that
/// does not begin with `Bearer `, and with a token that the authority
/// turns down, whatever the reason.
pub proof fn law_gate_rejects(headers: Seq<Header>, secret: Seq<char>, now: int)
    ensures
        header_value(headers, "Authorization"@) is None ==> gate_verdict(headers, secret, now) == turned_away(
            Rejection::MissingHeader,
        ),
        header_value(headers, "Authorization"@) is Some && bearer_token(header_value(headers, "Authorization"@)->0)
            is None ==> gate_verdict(headers, secret, now) == turned_away(Rejection::MalformedHeader),
        header_value(headers, "Authorization"@) is Some && bearer_token(header_value(headers, "Authorization"@)->0)
            is Some && verdict(
            token_content(secret, bearer_token(header_value(headers, "Authorization"@)->0)->0),
            now,
        ) is Err ==> gate_verdict(headers, secret, now) == turned_away(
            Rejection::Token(
                verdict(
                    token_content(secret, bearer_token(header_value(headers, "Authorization"@)->0)->0),
                    now,
                )->Err_0,
            ),
        ),
{
}

/// A request that the access gate turns down reaches no repository: each guarded
/// operation on posts answers 401 and leaves the store exactly as it was.
pub proof fn law_rejected_request_changes_nothing(
    store: StoreView,
    headers: Seq<Header>,
    secret: Seq<char>,
    post: PostView,
    id: i64,
    now: Moment,
)
    requires
        gate_verdict(headers, secret, now.seconds as int) is Err,
    ensures
        post_added(store, headers, secret, post, now) == (store, unauthorized()),
        post_replaced(store, headers, secret, post, now) == (store, unauthorized()),
        post_dropped(store, headers, secret, id, now) == (store, unauthorized()),
{
}

} // verus!
