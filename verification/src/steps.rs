//! Requests and replies, and the states in which a handler waits for the
//! storage service.

use vstd::prelude::*;
use crate::auth::AuthUser;
use crate::error::{AppError, AppErrorView};
use crate::models::{
    BlogPost, BlogPostView, CreatePostRequest, CreatePostRequestView, LoginRequest,
    LoginRequestView, RegisterRequest, RegisterRequestView, UpdatePostRequest,
    UpdatePostRequestView, User, UserView, posts_view,
};
use crate::oid::ObjectId;
use crate::storage::{Action, ActionView};

verus! {

/// A request, as the routing layer hands it over: the body, the identifier
/// in the path, and the caller's identity where the route asks for one.
#[derive(Debug, PartialEq, Eq)]
pub enum Request {
    Register(RegisterRequest),
    Login(LoginRequest),
    CreatePost(AuthUser, CreatePostRequest),
    GetPosts,
    GetPost(String),
    UpdatePost(AuthUser, String, UpdatePostRequest),
    DeletePost(AuthUser, String),
}

/// The view of [`Request`]: its texts as sequences of characters.
pub enum RequestView {
    Register(RegisterRequestView),
    Login(LoginRequestView),
    CreatePost(Seq<char>, CreatePostRequestView),
    GetPosts,
    GetPost(Seq<char>),
    UpdatePost(Seq<char>, Seq<char>, UpdatePostRequestView),
    DeletePost(Seq<char>, Seq<char>),
}

impl View for Request {
    type V = RequestView;

    open spec fn view(&self) -> RequestView {
        match self {
            Request::Register(body) => RequestView::Register(body@),
            Request::Login(body) => RequestView::Login(body@),
            Request::CreatePost(caller, body) => RequestView::CreatePost(caller@, body@),
            Request::GetPosts => RequestView::GetPosts,
            Request::GetPost(id) => RequestView::GetPost(id@),
            Request::UpdatePost(caller, id, body) => RequestView::UpdatePost(caller@, id@, body@),
            Request::DeletePost(caller, id) => RequestView::DeletePost(caller@, id@),
        }
    }
}

/// What a request is answered with when it succeeds.
#[derive(Debug, PartialEq, Eq)]
pub enum Reply {
    User(User),
    Token(String),
    Post(BlogPost),
    Posts(Vec<BlogPost>),
    NoContent,
}

/// The view of [`Reply`]: its texts as sequences of characters.
pub enum ReplyView {
    User(UserView),
    Token(Seq<char>),
    Post(BlogPostView),
    Posts(Seq<BlogPostView>),
    NoContent,
}

impl View for Reply {
    type V = ReplyView;

    open spec fn view(&self) -> ReplyView {
        match self {
            Reply::User(user) => ReplyView::User(user@),
            Reply::Token(token) => ReplyView::Token(token@),
            Reply::Post(post) => ReplyView::Post(post@),
            Reply::Posts(posts) => ReplyView::Posts(posts_view(posts@)),
            Reply::NoContent => ReplyView::NoContent,
        }
    }
}

impl ReplyView {
    /// The HTTP status that reports the success.
    pub open spec fn status(self) -> u16 {
        match self {
            ReplyView::NoContent => 204,
            _ => 200,
        }
    }
}

impl Reply {
    /// The HTTP status that reports the success.
    pub fn status_code(&self) -> (r: u16)
        ensures
            r == self@.status(),
    {
        match self {
            Reply::NoContent => 204,
            _ => 200,
        }
    }
}

/// Where a registration stands.
#[derive(Debug, PartialEq, Eq)]
pub enum Registration {
    /// The directory is being searched for the email address.
    Lookup(RegisterRequest),
    /// The new user is being stored.
    Insert(User),
}

/// The view of [`Registration`]: its texts as sequences of characters.
pub enum RegistrationView {
    Lookup(RegisterRequestView),
    Insert(UserView),
}

impl View for Registration {
    type V = RegistrationView;

    open spec fn view(&self) -> RegistrationView {
        match self {
            Registration::Lookup(request) => RegistrationView::Lookup(request@),
            Registration::Insert(user) => RegistrationView::Insert(user@),
        }
    }
}

/// Where the listing of all posts stands.
#[derive(Debug, PartialEq, Eq)]
pub enum Listing {
    /// The cursor is being opened.
    Open,
    /// The cursor is being read; these posts came out of it so far.
    Next(Vec<BlogPost>),
}

/// The view of [`Listing`]: its texts as sequences of characters.
pub enum ListingView {
    Open,
    Next(Seq<BlogPostView>),
}

impl View for Listing {
    type V = ListingView;

    open spec fn view(&self) -> ListingView {
        match self {
            Listing::Open => ListingView::Open,
            Listing::Next(posts) => ListingView::Next(posts_view(posts@)),
        }
    }
}

/// Where the update of a post stands.
#[derive(Debug, PartialEq, Eq)]
pub enum PostUpdate {
    /// The post is being loaded, to see whose it is.
    Lookup { caller: AuthUser, id: ObjectId, update: UpdatePostRequest },
    /// The new title and content are being written.
    Write { id: ObjectId },
    /// The post is being read back.
    Reload,
}

/// The view of [`PostUpdate`]: its texts as sequences of characters.
pub enum PostUpdateView {
    Lookup { caller: Seq<char>, id: Seq<u8>, update: UpdatePostRequestView },
    Write { id: Seq<u8> },
    Reload,
}

impl View for PostUpdate {
    type V = PostUpdateView;

    open spec fn view(&self) -> PostUpdateView {
        match self {
            PostUpdate::Lookup { caller, id, update } => PostUpdateView::Lookup {
                caller: caller@,
                id: id@,
                update: update@,
            },
            PostUpdate::Write { id } => PostUpdateView::Write { id: id@ },
            PostUpdate::Reload => PostUpdateView::Reload,
        }
    }
}

/// Where the deletion of a post stands.
#[derive(Debug, PartialEq, Eq)]
pub enum PostDeletion {
    /// The post is being loaded, to see whose it is.
    Lookup { caller: AuthUser, id: ObjectId },
    /// The post is being removed.
    Write,
}

/// The view of [`PostDeletion`]: its texts as sequences of characters.
pub enum PostDeletionView {
    Lookup { caller: Seq<char>, id: Seq<u8> },
    Write,
}

impl View for PostDeletion {
    type V = PostDeletionView;

    open spec fn view(&self) -> PostDeletionView {
        match self {
            PostDeletion::Lookup { caller, id } => PostDeletionView::Lookup {
                caller: caller@,
                id: id@,
            },
            PostDeletion::Write => PostDeletionView::Write,
        }
    }
}

/// A handler that waits for the storage service, and what it keeps meanwhile.
#[derive(Debug, PartialEq, Eq)]
pub enum Pending {
    Register(Registration),
    Login(LoginRequest),
    CreatePost(BlogPost),
    GetPosts(Listing),
    GetPost,
    UpdatePost(PostUpdate),
    DeletePost(PostDeletion),
}

/// The view of [`Pending`]: its texts as sequences of characters.
pub enum PendingView {
    Register(RegistrationView),
    Login(LoginRequestView),
    CreatePost(BlogPostView),
    GetPosts(ListingView),
    GetPost,
    UpdatePost(PostUpdateView),
    DeletePost(PostDeletionView),
}

impl View for Pending {
    type V = PendingView;

    open spec fn view(&self) -> PendingView {
        match self {
            Pending::Register(phase) => PendingView::Register(phase@),
            Pending::Login(request) => PendingView::Login(request@),
            Pending::CreatePost(post) => PendingView::CreatePost(post@),
            Pending::GetPosts(phase) => PendingView::GetPosts(phase@),
            Pending::GetPost => PendingView::GetPost,
            Pending::UpdatePost(phase) => PendingView::UpdatePost(phase@),
            Pending::DeletePost(phase) => PendingView::DeletePost(phase@),
        }
    }
}

/// What a handler has come to: work for the storage service, with the
/// state in which the handler waits for the answer, or the end of the request.
#[derive(Debug, PartialEq, Eq)]
pub enum Step {
    Ask(Pending, Action),
    Finish(Result<Reply, AppError>),
}

/// The view of [`Step`]: its texts as sequences of characters.
pub enum StepView {
    Ask(PendingView, ActionView),
    Finish(Result<ReplyView, AppErrorView>),
}

impl View for Step {
    type V = StepView;

    open spec fn view(&self) -> StepView {
        match self {
            Step::Ask(pending, action) => StepView::Ask(pending@, action@),
            Step::Finish(Ok(reply)) => StepView::Finish(Ok(reply@)),
            Step::Finish(Err(e)) => StepView::Finish(Err(e@)),
        }
    }
}

impl StepView {
    /// The token that the step replies, where it ends a login in success.
    pub open spec fn token(self) -> Option<Seq<char>> {
        match self {
            StepView::Finish(Ok(ReplyView::Token(token))) => Some(token),
            _ => None,
        }
    }

    /// The digest of the password in the user that the step asks to have
    /// stored, where it asks for that.
    pub open spec fn digest(self) -> Option<Seq<char>> {
        match self {
            StepView::Ask(PendingView::Register(RegistrationView::Insert(user)), _) => Some(
                user.password,
            ),
            _ => None,
        }
    }
}

/// The routes of the service, by what they do.
pub enum Route {
    Register,
    Login,
    CreatePost,
    GetPosts,
    GetPost,
    UpdatePost,
    DeletePost,
}

impl RequestView {
    /// The route that the request came in by.
    pub open spec fn route(self) -> Route {
        match self {
            RequestView::Register(_) => Route::Register,
            RequestView::Login(_) => Route::Login,
            RequestView::CreatePost(_, _) => Route::CreatePost,
            RequestView::GetPosts => Route::GetPosts,
            RequestView::GetPost(_) => Route::GetPost,
            RequestView::UpdatePost(_, _, _) => Route::UpdatePost,
            RequestView::DeletePost(_, _) => Route::DeletePost,
        }
    }
}

impl PendingView {
    /// The route whose handler is waiting.
    pub open spec fn route(self) -> Route {
        match self {
            PendingView::Register(_) => Route::Register,
            PendingView::Login(_) => Route::Login,
            PendingView::CreatePost(_) => Route::CreatePost,
            PendingView::GetPosts(_) => Route::GetPosts,
            PendingView::GetPost => Route::GetPost,
            PendingView::UpdatePost(_) => Route::UpdatePost,
            PendingView::DeletePost(_) => Route::DeletePost,
        }
    }

    /// The password of the registration that waits to hear whether its
    /// email address is free.
    pub open spec fn password(self) -> Option<Seq<char>> {
        match self {
            PendingView::Register(RegistrationView::Lookup(request)) => Some(request.password),
            _ => None,
        }
    }

    /// The caller on whose behalf the handler waits to see whose a post is.
    pub open spec fn caller(self) -> Option<Seq<char>> {
        match self {
            PendingView::UpdatePost(PostUpdateView::Lookup { caller, .. }) => Some(caller),
            PendingView::DeletePost(PostDeletionView::Lookup { caller, .. }) => Some(caller),
            _ => None,
        }
    }
}

impl ReplyView {
    /// Whether the reply is of the kind that the route answers with.
    pub open spec fn fits(self, route: Route) -> bool {
        match route {
            Route::Register => self is User,
            Route::Login => self is Token,
            Route::CreatePost => self is Post,
            Route::GetPosts => self is Posts,
            Route::GetPost => self is Post,
            Route::UpdatePost => self is Post,
            Route::DeletePost => self is NoContent,
        }
    }
}

} // verus!
