//! A model of the storage service, and runs of the handlers against it.
//! The model is a specification only: it says how a service that keeps its
//! unique index on the email address answers, so that what the handlers
//! come to with such a service can be stated and proved.

use vstd::prelude::*;
use crate::error::{AppErrorView, DUPLICATE_KEY, StorageErrorView};
use crate::models::{BlogPostView, UserView};
use crate::rules::next_step;
use crate::steps::{ReplyView, StepView};
use crate::storage::{ActionView, EventView};

verus! {

/// What the storage service holds: the users, the posts, and how far the
/// open cursor over the posts has been read.
pub struct Store {
    pub users: Seq<UserView>,
    pub posts: Seq<BlogPostView>,
    pub cursor: nat,
}

/// What a run depends on besides the store: the signing key, the clock,
/// the digest that hashing a password gives (`None` where it fails), and
/// the identifier that the service assigns to a record that it stores.
pub struct Env {
    pub secret: Seq<char>,
    pub now: usize,
    pub digest: Option<Seq<char>>,
    pub fresh: Seq<u8>,
}

/// Whether a user with this email address is stored.
pub open spec fn has_email(users: Seq<UserView>, email: Seq<char>) -> bool {
    exists|i: int| 0 <= i < users.len() && (#[trigger] users[i]).email == email
}

/// The stored user with this email address.
pub open spec fn find_user(users: Seq<UserView>, email: Seq<char>) -> Option<UserView> {
    if has_email(users, email) {
        Some(users[choose|i: int| 0 <= i < users.len() && (#[trigger] users[i]).email == email])
    } else {
        None
    }
}

/// Whether a post with this identifier is stored.
pub open spec fn has_post(posts: Seq<BlogPostView>, id: Seq<u8>) -> bool {
    exists|i: int| 0 <= i < posts.len() && (#[trigger] posts[i]).id == Some(id)
}

/// The stored post with this identifier.
pub open spec fn find_post(posts: Seq<BlogPostView>, id: Seq<u8>) -> Option<BlogPostView> {
    if has_post(posts, id) {
        Some(posts[choose|i: int| 0 <= i < posts.len() && (#[trigger] posts[i]).id == Some(id)])
    } else {
        None
    }
}

/// A user as it is stored: with the identifier that the service assigns,
/// unless it came with one.
pub open spec fn stored_user(user: UserView, fresh: Seq<u8>) -> UserView {
    UserView { id: Some(if user.id is Some { user.id->Some_0 } else { fresh }), ..user }
}

/// A post as it is stored: with the identifier that the service assigns,
/// unless it came with one.
pub open spec fn stored_post(post: BlogPostView, fresh: Seq<u8>) -> BlogPostView {
    BlogPostView { id: Some(if post.id is Some { post.id->Some_0 } else { fresh }), ..post }
}

/// The failure with which the service refuses a second user with an email address.
pub open spec fn duplicate_key() -> StorageErrorView {
    StorageErrorView { code: Some(DUPLICATE_KEY), message: "E11000 duplicate key error"@ }
}

/// A post after an update of the post with the identifier `id`.
pub open spec fn updated(
    post: BlogPostView,
    id: Seq<u8>,
    title: Seq<char>,
    content: Seq<char>,
) -> BlogPostView {
    if post.id == Some(id) {
        BlogPostView { title, content, ..post }
    } else {
        post
    }
}

/// How the service carries out an action: what it holds afterwards, and
/// what it answers. It never fails but to keep email addresses unique.
pub open spec fn serve(store: Store, action: ActionView, fresh: Seq<u8>) -> (Store, EventView) {
    match action {
        ActionView::FindUserByEmail(email) => (
            store,
            EventView::User(find_user(store.users, email)),
        ),
        ActionView::InsertUser(user) => if has_email(store.users, user.email) {
            (store, EventView::Failed(duplicate_key()))
        } else {
            (Store { users: store.users.push(stored_user(user, fresh)), ..store }, EventView::Done)
        },
        ActionView::InsertPost(post) => (
            Store { posts: store.posts.push(stored_post(post, fresh)), ..store },
            EventView::Done,
        ),
        ActionView::FindPosts => (Store { cursor: 0, ..store }, EventView::Done),
        ActionView::NextPost => if store.cursor < store.posts.len() {
            (
                Store { cursor: store.cursor + 1, ..store },
                EventView::Post(Some(store.posts[store.cursor as int])),
            )
        } else {
            (store, EventView::Post(None))
        },
        ActionView::FindPost(id) => (store, EventView::Post(find_post(store.posts, id))),
        ActionView::UpdatePost { id, title, content } => (
            Store {
                posts: store.posts.map_values(|p: BlogPostView| updated(p, id, title, content)),
                ..store
            },
            EventView::Done,
        ),
        ActionView::DeletePost(id) => (
            Store { posts: store.posts.filter(|p: BlogPostView| p.id != Some(id)), ..store },
            EventView::Done,
        ),
    }
}

/// A handler run against the service for at most `fuel` actions: the
/// reply, if the handler came to its end, and what the service holds then.
pub open spec fn run(step: StepView, store: Store, env: Env, fuel: nat) -> (
    Option<Result<ReplyView, AppErrorView>>,
    Store,
)
    decreases fuel,
{
    match step {
        StepView::Finish(reply) => (Some(reply), store),
        StepView::Ask(pending, action) => if fuel == 0 {
            (None, store)
        } else {
            let (next, event) = serve(store, action, env.fresh);
            run(
                next_step(pending, event, env.secret, env.now, env.digest),
                next,
                env,
                (fuel - 1) as nat,
            )
        },
    }
}

} // verus!
