//! The request handlers. A handler never waits for the storage service: it
//! says what to ask of it next, and goes on when it is handed the answer.

use vstd::prelude::*;
use vstd::string::StringExecFns;
use crate::auth::{AuthConfig, AuthUser, TOKEN_LIFETIME_SECS, create_jwt, token_view};
use crate::error::AppError;
use crate::models::{BlogPost, LoginRequest, RegisterRequest, User, posts_view, text_view};
use crate::oid::ObjectId;
use crate::password::{hash_password, hashed_view, verify_password};
use crate::rules::{
    create_post_step, delete_post_step, digest_of, first_step, get_post_step, get_posts_step,
    login_step, login_verdict, merged, next_step, owns, refused, register_step, registered,
    token_names, token_reply, update_post_step,
};
use crate::steps::{
    Listing, Pending, PostDeletion, PostUpdate, Registration, Reply, Request, Step,
};
use crate::storage::{Action, Event, EventView, unexpected, unexpected_reply};

verus! {

/// The end of a request in failure.
fn refuse(e: AppError) -> (r: Step)
    ensures
        r@ == refused(e@),
{
    Step::Finish(Err(e))
}

/// The end of a request on an answer that does not fit what was asked.
fn refuse_unexpected() -> (r: Step)
    ensures
        r@ == refused(unexpected_reply()),
{
    Step::Finish(Err(unexpected()))
}

/// Whether `caller` is the owner of `post`.
pub fn is_owner(caller: &AuthUser, post: &BlogPost) -> (r: bool)
    ensures
        r == owns(caller@, post@),
{
    post.author_id.to_hex() == caller.0
}

/// The value of a field after an update: the one supplied, or else the stored one.
pub fn merge(supplied: Option<String>, stored: String) -> (r: String)
    ensures
        r@ == merged(text_view(supplied), stored@),
{
    match supplied {
        Some(text) => text,
        None => stored,
    }
}

/// Goes on with a registration whose email address is free, given the
/// outcome of hashing the password: the new user is to be stored with the
/// digest in place of the password, or the registration ends in the failure.
pub fn register_user(request: RegisterRequest, hashed: Result<String, AppError>) -> (r: Step)
    ensures
        r@ == registered(request@, hashed_view(hashed)),
{
    match hashed {
        Ok(digest) => {
            let user = User {
                id: None,
                username: request.username,
                password: digest,
                email: request.email,
                phonenumber: request.phonenumber,
            };
            let kept = user.clone();
            Step::Ask(Pending::Register(Registration::Insert(kept)), Action::InsertUser(user))
        },
        Err(e) => refuse(e),
    }
}

/// Registration. A taken email address is a bad request, whether the
/// search finds it or the unique index refuses the insert; the password
/// is hashed only once the address was found free.
pub fn register(phase: Registration, event: Event) -> (r: Step)
    ensures
        r@ == register_step(phase@, event@, r@.digest()),
        r@.digest() matches Some(digest) ==> Pending::Register(phase)@.password() matches Some(
            password,
        ) && digest_of(password, digest),
{
    match phase {
        Registration::Lookup(request) => match event {
            Event::Failed(e) => refuse(AppError::MongoDb(e)),
            Event::User(Some(_)) => refuse(
                AppError::BadRequest(String::from_str("Email already in use")),
            ),
            Event::User(None) => {
                let hashed = hash_password(request.password.as_str());
                register_user(request, hashed)
            },
            _ => refuse_unexpected(),
        },
        Registration::Insert(user) => match event {
            Event::Done => Step::Finish(Ok(Reply::User(user))),
            Event::Failed(e) => {
                if e.is_duplicate_key() {
                    refuse(AppError::BadRequest(String::from_str("Email already in use")))
                } else {
                    refuse(AppError::MongoDb(e))
                }
            },
            _ => refuse_unexpected(),
        },
    }
}

/// The end of a login, given the outcome of issuing the token.
pub fn reply_token(token: Result<String, AppError>) -> (r: Step)
    ensures
        r@ == token_reply(token_view(token)),
{
    match token {
        Ok(token) => Step::Finish(Ok(Reply::Token(token))),
        Err(e) => refuse(e),
    }
}

/// Ends the login of a user that was found, given whether the password
/// passed the check: the token names the user's identifier as its subject.
pub fn conclude_login(user: &User, password_ok: bool, config: &AuthConfig, now: usize) -> (r: Step)
    requires
        now + TOKEN_LIFETIME_SECS <= usize::MAX,
    ensures
        r@ == login_verdict(user@, password_ok, config@, now),
        r@.token() matches Some(token) ==> token_names(
            config@,
            token,
            EventView::User(Some(user@)),
            now,
        ),
{
    if !password_ok {
        return refuse(AppError::Auth(String::from_str("Invalid credentials")));
    }
    match user.id {
        Some(id) => {
            let subject = id.to_hex();
            reply_token(create_jwt(config, subject.as_str(), now))
        },
        None => refuse_unexpected(),
    }
}

/// Login. An unknown email address and a wrong password end in the same failure.
pub fn login(request: LoginRequest, event: Event, config: &AuthConfig, now: usize) -> (r: Step)
    requires
        now + TOKEN_LIFETIME_SECS <= usize::MAX,
    ensures
        r@ == login_step(request@, event@, config@, now),
        r@.token() matches Some(token) ==> token_names(config@, token, event@, now),
{
    match event {
        Event::Failed(e) => refuse(AppError::MongoDb(e)),
        Event::User(None) => refuse(AppError::Auth(String::from_str("Invalid credentials"))),
        Event::User(Some(user)) => {
            let password_ok = verify_password(request.password.as_str(), user.password.as_str());
            conclude_login(&user, password_ok, config, now)
        },
        _ => refuse_unexpected(),
    }
}

/// Creation of a post: once it is stored, it is the reply.
pub fn create_post(post: BlogPost, event: Event) -> (r: Step)
    ensures
        r@ == create_post_step(post@, event@),
{
    match event {
        Event::Done => Step::Finish(Ok(Reply::Post(post))),
        Event::Failed(e) => refuse(AppError::MongoDb(e)),
        _ => refuse_unexpected(),
    }
}

/// Listing of all posts: the cursor is read to its end, and the posts are
/// replied in the order in which they came out of it.
pub fn get_posts(phase: Listing, event: Event) -> (r: Step)
    ensures
        r@ == get_posts_step(phase@, event@),
{
    match phase {
        Listing::Open => match event {
            Event::Done => {
                let posts: Vec<BlogPost> = Vec::new();
                assert(posts_view(posts@) =~= Seq::empty());
                Step::Ask(Pending::GetPosts(Listing::Next(posts)), Action::NextPost)
            },
            Event::Failed(e) => refuse(AppError::MongoDb(e)),
            _ => refuse_unexpected(),
        },
        Listing::Next(posts) => match event {
            Event::Post(Some(post)) => {
                let mut posts = posts;
                let ghost before = posts@;
                posts.push(post);
                assert(posts_view(posts@) =~= posts_view(before).push(post@));
                Step::Ask(Pending::GetPosts(Listing::Next(posts)), Action::NextPost)
            },
            Event::Post(None) => Step::Finish(Ok(Reply::Posts(posts))),
            Event::Failed(e) => refuse(AppError::MongoDb(e)),
            _ => refuse_unexpected(),
        },
    }
}

/// Reading of one post.
pub fn get_post(event: Event) -> (r: Step)
    ensures
        r@ == get_post_step(event@),
{
    match event {
        Event::Post(Some(post)) => Step::Finish(Ok(Reply::Post(post))),
        Event::Post(None) => refuse(AppError::NotFound(String::from_str("Post not found"))),
        Event::Failed(e) => refuse(AppError::MongoDb(e)),
        _ => refuse_unexpected(),
    }
}

/// Update of a post. The post is loaded and its owner compared with the
/// caller before anything is written; the fields that the request leaves
/// out keep their stored values; the post is read back after the write.
pub fn update_post(phase: PostUpdate, event: Event) -> (r: Step)
    ensures
        r@ == update_post_step(phase@, event@),
{
    match phase {
        PostUpdate::Lookup { caller, id, update } => match event {
            Event::Failed(e) => refuse(AppError::MongoDb(e)),
            Event::Post(None) => refuse(AppError::NotFound(String::from_str("Post not found"))),
            Event::Post(Some(post)) => {
                if !is_owner(&caller, &post) {
                    return refuse(
                        AppError::Auth(String::from_str("Not authorized to update this post")),
                    );
                }
                let title = merge(update.title, post.title);
                let content = merge(update.content, post.content);
                Step::Ask(
                    Pending::UpdatePost(PostUpdate::Write { id }),
                    Action::UpdatePost { id, title, content },
                )
            },
            _ => refuse_unexpected(),
        },
        PostUpdate::Write { id } => match event {
            Event::Done => Step::Ask(Pending::UpdatePost(PostUpdate::Reload), Action::FindPost(id)),
            Event::Failed(e) => refuse(AppError::MongoDb(e)),
            _ => refuse_unexpected(),
        },
        PostUpdate::Reload => match event {
            Event::Post(Some(post)) => Step::Finish(Ok(Reply::Post(post))),
            Event::Post(None) => refuse(
                AppError::NotFound(String::from_str("Post not found after update")),
            ),
            Event::Failed(e) => refuse(AppError::MongoDb(e)),
            _ => refuse_unexpected(),
        },
    }
}

/// Deletion of a post. The post is loaded and its owner compared with the
/// caller before it is removed.
pub fn delete_post(phase: PostDeletion, event: Event) -> (r: Step)
    ensures
        r@ == delete_post_step(phase@, event@),
{
    match phase {
        PostDeletion::Lookup { caller, id } => match event {
            Event::Failed(e) => refuse(AppError::MongoDb(e)),
            Event::Post(None) => refuse(AppError::NotFound(String::from_str("Post not found"))),
            Event::Post(Some(post)) => {
                if !is_owner(&caller, &post) {
                    return refuse(
                        AppError::Auth(String::from_str("Not authorized to delete this post")),
                    );
                }
                Step::Ask(Pending::DeletePost(PostDeletion::Write), Action::DeletePost(id))
            },
            _ => refuse_unexpected(),
        },
        PostDeletion::Write => match event {
            Event::Done => Step::Finish(Ok(Reply::NoContent)),
            Event::Failed(e) => refuse(AppError::MongoDb(e)),
            _ => refuse_unexpected(),
        },
    }
}

/// Takes up a request: what is to be asked of the storage service first,
/// or the failure of a request that cannot be served at all.
pub fn start(request: Request) -> (r: Step)
    ensures
        r@ == first_step(request@),
{
    match request {
        Request::Register(body) => {
            let email = body.email.clone();
            Step::Ask(Pending::Register(Registration::Lookup(body)), Action::FindUserByEmail(email))
        },
        Request::Login(body) => {
            let email = body.email.clone();
            Step::Ask(Pending::Login(body), Action::FindUserByEmail(email))
        },
        Request::CreatePost(caller, body) => match ObjectId::parse(caller.0.as_str()) {
            Some(author_id) => {
                let post = BlogPost {
                    id: None,
                    title: body.title,
                    content: body.content,
                    author_id,
                };
                let kept = post.clone();
                Step::Ask(Pending::CreatePost(kept), Action::InsertPost(post))
            },
            None => refuse(AppError::BadRequest(String::from_str("Invalid user ID"))),
        },
        Request::GetPosts => Step::Ask(Pending::GetPosts(Listing::Open), Action::FindPosts),
        Request::GetPost(id) => match ObjectId::parse(id.as_str()) {
            Some(id) => Step::Ask(Pending::GetPost, Action::FindPost(id)),
            None => refuse(AppError::BadRequest(String::from_str("Invalid ID"))),
        },
        Request::UpdatePost(caller, id, update) => match ObjectId::parse(id.as_str()) {
            Some(id) => Step::Ask(
                Pending::UpdatePost(PostUpdate::Lookup { caller, id, update }),
                Action::FindPost(id),
            ),
            None => refuse(AppError::BadRequest(String::from_str("Invalid ID"))),
        },
        Request::DeletePost(caller, id) => match ObjectId::parse(id.as_str()) {
            Some(id) => Step::Ask(
                Pending::DeletePost(PostDeletion::Lookup { caller, id }),
                Action::FindPost(id),
            ),
            None => refuse(AppError::BadRequest(String::from_str("Invalid ID"))),
        },
    }
}

/// Goes on with a waiting handler, at the second `now`, on the answer of
/// the storage service to what the handler asked.
pub fn resume(pending: Pending, event: Event, config: &AuthConfig, now: usize) -> (r: Step)
    requires
        now + TOKEN_LIFETIME_SECS <= usize::MAX,
    ensures
        r@ == next_step(pending@, event@, config@, now, r@.digest()),
        r@.digest() matches Some(digest) ==> pending@.password() matches Some(password)
            && digest_of(password, digest),
        r@.token() matches Some(token) ==> token_names(config@, token, event@, now),
{
    match pending {
        Pending::Register(phase) => register(phase, event),
        Pending::Login(request) => login(request, event, config, now),
        Pending::CreatePost(post) => create_post(post, event),
        Pending::GetPosts(phase) => get_posts(phase, event),
        Pending::GetPost => get_post(event),
        Pending::UpdatePost(phase) => update_post(phase, event),
        Pending::DeletePost(phase) => delete_post(phase, event),
    }
}

} // verus!
