//! What each handler decides, as a function of the state in which it
//! waits and of the answer that it is handed.

use vstd::prelude::*;
use crate::auth::{ClaimsView, created_jwt, reads_back};
use crate::error::{AppErrorView, StorageErrorView};
use crate::models::{BlogPostView, LoginRequestView, RegisterRequestView, UserView};
use crate::oid::{bytes_of_hex, hex_of, is_object_id_text};
use crate::password::{HASH_COST, accepts, hashed, is_digest, password_matches};
use crate::steps::{
    ListingView, PendingView, PostDeletionView, PostUpdateView, RegistrationView, ReplyView,
    RequestView, StepView,
};
use crate::storage::{ActionView, EventView, unexpected_reply};

verus! {

/// The end of a request in failure.
pub open spec fn refused(e: AppErrorView) -> StepView {
    StepView::Finish(Err(e))
}

/// The end of a request because the storage service failed.
pub open spec fn storage_failed(e: StorageErrorView) -> StepView {
    refused(AppErrorView::MongoDb(e))
}

/// The failure of a registration whose email address is taken.
pub open spec fn email_in_use() -> AppErrorView {
    AppErrorView::BadRequest("Email already in use"@)
}

/// The failure of a login, whether the user is unknown or the password wrong.
pub open spec fn invalid_credentials() -> AppErrorView {
    AppErrorView::Auth("Invalid credentials"@)
}

/// The failure to find a post.
pub open spec fn post_not_found() -> AppErrorView {
    AppErrorView::NotFound("Post not found"@)
}

/// The failure of a path that holds no identifier.
pub open spec fn invalid_id() -> AppErrorView {
    AppErrorView::BadRequest("Invalid ID"@)
}

/// The user that a registration stores: no identifier yet, and the digest
/// in place of the password.
pub open spec fn new_user(request: RegisterRequestView, digest: Seq<char>) -> UserView {
    UserView {
        id: None,
        username: request.username,
        password: digest,
        email: request.email,
        phonenumber: request.phonenumber,
    }
}

/// How a registration goes on once the email address is known to be free,
/// given the outcome of hashing the password.
pub open spec fn registered(
    request: RegisterRequestView,
    hashed: Result<Seq<char>, AppErrorView>,
) -> StepView {
    match hashed {
        Ok(digest) => {
            let user = new_user(request, digest);
            StepView::Ask(
                PendingView::Register(RegistrationView::Insert(user)),
                ActionView::InsertUser(user),
            )
        },
        Err(e) => refused(e),
    }
}

/// The step of a registration on an answer of the storage service, where
/// hashing the password gives `digest`, or fails.
pub open spec fn register_step(
    phase: RegistrationView,
    event: EventView,
    digest: Option<Seq<char>>,
) -> StepView {
    match phase {
        RegistrationView::Lookup(request) => match event {
            EventView::Failed(e) => storage_failed(e),
            EventView::User(Some(_)) => refused(email_in_use()),
            EventView::User(None) => registered(request, hashed(digest)),
            _ => refused(unexpected_reply()),
        },
        RegistrationView::Insert(user) => match event {
            EventView::Done => StepView::Finish(Ok(ReplyView::User(user))),
            EventView::Failed(e) => if e.is_duplicate_key() {
                refused(email_in_use())
            } else {
                storage_failed(e)
            },
            _ => refused(unexpected_reply()),
        },
    }
}

/// The end of a login, given the outcome of issuing the token.
pub open spec fn token_reply(token: Result<Seq<char>, AppErrorView>) -> StepView {
    match token {
        Ok(token) => StepView::Finish(Ok(ReplyView::Token(token))),
        Err(e) => refused(e),
    }
}

/// The end of a login for a user that was found, given whether the
/// password passed the check against the stored digest.
pub open spec fn login_verdict(
    user: UserView,
    password_ok: bool,
    secret: Seq<char>,
    now: usize,
) -> StepView {
    if !password_ok {
        refused(invalid_credentials())
    } else {
        match user.id {
            Some(id) => token_reply(created_jwt(secret, hex_of(id), now)),
            None => refused(unexpected_reply()),
        }
    }
}

/// The step of a login on the answer of the storage service.
pub open spec fn login_step(
    request: LoginRequestView,
    event: EventView,
    secret: Seq<char>,
    now: usize,
) -> StepView {
    match event {
        EventView::Failed(e) => storage_failed(e),
        EventView::User(None) => refused(invalid_credentials()),
        EventView::User(Some(user)) => login_verdict(
            user,
            accepts(password_matches(request.password, user.password)),
            secret,
            now,
        ),
        _ => refused(unexpected_reply()),
    }
}

/// The step of the creation of a post on the answer of the storage service.
pub open spec fn create_post_step(post: BlogPostView, event: EventView) -> StepView {
    match event {
        EventView::Done => StepView::Finish(Ok(ReplyView::Post(post))),
        EventView::Failed(e) => storage_failed(e),
        _ => refused(unexpected_reply()),
    }
}

/// The step of the listing of all posts on an answer of the storage service.
pub open spec fn get_posts_step(phase: ListingView, event: EventView) -> StepView {
    match phase {
        ListingView::Open => match event {
            EventView::Done => StepView::Ask(
                PendingView::GetPosts(ListingView::Next(Seq::empty())),
                ActionView::NextPost,
            ),
            EventView::Failed(e) => storage_failed(e),
            _ => refused(unexpected_reply()),
        },
        ListingView::Next(posts) => match event {
            EventView::Post(Some(post)) => StepView::Ask(
                PendingView::GetPosts(ListingView::Next(posts.push(post))),
                ActionView::NextPost,
            ),
            EventView::Post(None) => StepView::Finish(Ok(ReplyView::Posts(posts))),
            EventView::Failed(e) => storage_failed(e),
            _ => refused(unexpected_reply()),
        },
    }
}

/// The step of the reading of one post on the answer of the storage service.
pub open spec fn get_post_step(event: EventView) -> StepView {
    match event {
        EventView::Post(Some(post)) => StepView::Finish(Ok(ReplyView::Post(post))),
        EventView::Post(None) => refused(post_not_found()),
        EventView::Failed(e) => storage_failed(e),
        _ => refused(unexpected_reply()),
    }
}

/// Whether `caller` is the owner of `post`: the identity must be the
/// lower-case hexadecimal text of the author's identifier.
pub open spec fn owns(caller: Seq<char>, post: BlogPostView) -> bool {
    hex_of(post.author_id) == caller
}

/// The value of a field after an update: the one supplied, or else the stored one.
pub open spec fn merged(supplied: Option<Seq<char>>, stored: Seq<char>) -> Seq<char> {
    match supplied {
        Some(text) => text,
        None => stored,
    }
}

/// The step of the update of a post on an answer of the storage service.
pub open spec fn update_post_step(phase: PostUpdateView, event: EventView) -> StepView {
    match phase {
        PostUpdateView::Lookup { caller, id, update } => match event {
            EventView::Failed(e) => storage_failed(e),
            EventView::Post(None) => refused(post_not_found()),
            EventView::Post(Some(post)) => if !owns(caller, post) {
                refused(AppErrorView::Auth("Not authorized to update this post"@))
            } else {
                StepView::Ask(
                    PendingView::UpdatePost(PostUpdateView::Write { id }),
                    ActionView::UpdatePost {
                        id,
                        title: merged(update.title, post.title),
                        content: merged(update.content, post.content),
                    },
                )
            },
            _ => refused(unexpected_reply()),
        },
        PostUpdateView::Write { id } => match event {
            EventView::Done => StepView::Ask(
                PendingView::UpdatePost(PostUpdateView::Reload),
                ActionView::FindPost(id),
            ),
            EventView::Failed(e) => storage_failed(e),
            _ => refused(unexpected_reply()),
        },
        PostUpdateView::Reload => match event {
            EventView::Post(Some(post)) => StepView::Finish(Ok(ReplyView::Post(post))),
            EventView::Post(None) => refused(
                AppErrorView::NotFound("Post not found after update"@),
            ),
            EventView::Failed(e) => storage_failed(e),
            _ => refused(unexpected_reply()),
        },
    }
}

/// The step of the deletion of a post on an answer of the storage service.
pub open spec fn delete_post_step(phase: PostDeletionView, event: EventView) -> StepView {
    match phase {
        PostDeletionView::Lookup { caller, id } => match event {
            EventView::Failed(e) => storage_failed(e),
            EventView::Post(None) => refused(post_not_found()),
            EventView::Post(Some(post)) => if !owns(caller, post) {
                refused(AppErrorView::Auth("Not authorized to delete this post"@))
            } else {
                StepView::Ask(
                    PendingView::DeletePost(PostDeletionView::Write),
                    ActionView::DeletePost(id),
                )
            },
            _ => refused(unexpected_reply()),
        },
        PostDeletionView::Write => match event {
            EventView::Done => StepView::Finish(Ok(ReplyView::NoContent)),
            EventView::Failed(e) => storage_failed(e),
            _ => refused(unexpected_reply()),
        },
    }
}

/// The first step of a request.
pub open spec fn first_step(request: RequestView) -> StepView {
    match request {
        RequestView::Register(body) => StepView::Ask(
            PendingView::Register(RegistrationView::Lookup(body)),
            ActionView::FindUserByEmail(body.email),
        ),
        RequestView::Login(body) => StepView::Ask(
            PendingView::Login(body),
            ActionView::FindUserByEmail(body.email),
        ),
        RequestView::CreatePost(caller, body) => if is_object_id_text(caller) {
            let post = BlogPostView {
                id: None,
                title: body.title,
                content: body.content,
                author_id: bytes_of_hex(caller),
            };
            StepView::Ask(PendingView::CreatePost(post), ActionView::InsertPost(post))
        } else {
            refused(AppErrorView::BadRequest("Invalid user ID"@))
        },
        RequestView::GetPosts => StepView::Ask(
            PendingView::GetPosts(ListingView::Open),
            ActionView::FindPosts,
        ),
        RequestView::GetPost(id) => if is_object_id_text(id) {
            StepView::Ask(PendingView::GetPost, ActionView::FindPost(bytes_of_hex(id)))
        } else {
            refused(invalid_id())
        },
        RequestView::UpdatePost(caller, id, update) => if is_object_id_text(id) {
            StepView::Ask(
                PendingView::UpdatePost(
                    PostUpdateView::Lookup { caller, id: bytes_of_hex(id), update },
                ),
                ActionView::FindPost(bytes_of_hex(id)),
            )
        } else {
            refused(invalid_id())
        },
        RequestView::DeletePost(caller, id) => if is_object_id_text(id) {
            StepView::Ask(
                PendingView::DeletePost(PostDeletionView::Lookup { caller, id: bytes_of_hex(id) }),
                ActionView::FindPost(bytes_of_hex(id)),
            )
        } else {
            refused(invalid_id())
        },
    }
}

/// The step of a waiting handler on the answer of the storage service, at
/// the second `now`, where hashing a password gives `digest`, or fails.
pub open spec fn next_step(
    pending: PendingView,
    event: EventView,
    secret: Seq<char>,
    now: usize,
    digest: Option<Seq<char>>,
) -> StepView {
    match pending {
        PendingView::Register(phase) => register_step(phase, event, digest),
        PendingView::Login(request) => login_step(request, event, secret, now),
        PendingView::CreatePost(post) => create_post_step(post, event),
        PendingView::GetPosts(phase) => get_posts_step(phase, event),
        PendingView::GetPost => get_post_step(event),
        PendingView::UpdatePost(phase) => update_post_step(phase, event),
        PendingView::DeletePost(phase) => delete_post_step(phase, event),
    }
}

/// The user that the storage service answered a search with, where it
/// answered with one that has an identifier.
pub open spec fn found_user_id(event: EventView) -> Option<Seq<u8>> {
    match event {
        EventView::User(Some(user)) => user.id,
        _ => None,
    }
}

/// Whether a digest is one that a registration may have stored for the
/// password: it has the shape of a digest, and the password passes the
/// check against it.
pub open spec fn digest_of(password: Seq<char>, digest: Seq<char>) -> bool {
    is_digest(digest, HASH_COST) && password_matches(password, digest) == Some(true)
}

/// Whether the token that ends a login at the second `now` is the one
/// issued to the user that was found: it reads back as the text of the
/// user's identifier, with the expiry an hour on.
pub open spec fn token_names(
    secret: Seq<char>,
    token: Seq<char>,
    event: EventView,
    now: usize,
) -> bool {
    found_user_id(event) matches Some(id) && reads_back(
        secret,
        token,
        ClaimsView::issued(hex_of(id), now),
    )
}

} // verus!
