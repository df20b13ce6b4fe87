//! The narrow interface to the storage service: what a handler asks of it,
//! and what it answers.

use vstd::prelude::*;
use vstd::string::StringExecFns;
use crate::error::{AppError, AppErrorView, StorageError, StorageErrorView};
use crate::models::{BlogPost, BlogPostView, User, UserView};
use crate::oid::ObjectId;

verus! {

/// Work for the storage service.
#[derive(Debug, PartialEq, Eq)]
pub enum Action {
    /// Look for the user with this email address.
    FindUserByEmail(String),
    /// Store a new user. The unique index on the email address may refuse it.
    InsertUser(User),
    /// Store a new post.
    InsertPost(BlogPost),
    /// Open a cursor over all posts.
    FindPosts,
    /// Take the next post from the open cursor.
    NextPost,
    /// Look for the post with this identifier.
    FindPost(ObjectId),
    /// Set the title and the content of the post with this identifier.
    UpdatePost { id: ObjectId, title: String, content: String },
    /// Remove the post with this identifier.
    DeletePost(ObjectId),
}

/// The view of [`Action`]: its texts as sequences of characters.
pub enum ActionView {
    FindUserByEmail(Seq<char>),
    InsertUser(UserView),
    InsertPost(BlogPostView),
    FindPosts,
    NextPost,
    FindPost(Seq<u8>),
    UpdatePost { id: Seq<u8>, title: Seq<char>, content: Seq<char> },
    DeletePost(Seq<u8>),
}

impl View for Action {
    type V = ActionView;

    open spec fn view(&self) -> ActionView {
        match self {
            Action::FindUserByEmail(email) => ActionView::FindUserByEmail(email@),
            Action::InsertUser(user) => ActionView::InsertUser(user@),
            Action::InsertPost(post) => ActionView::InsertPost(post@),
            Action::FindPosts => ActionView::FindPosts,
            Action::NextPost => ActionView::NextPost,
            Action::FindPost(id) => ActionView::FindPost(id@),
            Action::UpdatePost { id, title, content } => ActionView::UpdatePost {
                id: id@,
                title: title@,
                content: content@,
            },
            Action::DeletePost(id) => ActionView::DeletePost(id@),
        }
    }
}

/// The answer of the storage service to an action.
#[derive(Debug, PartialEq, Eq)]
pub enum Event {
    /// The user that was looked for, if there is one.
    User(Option<User>),
    /// The post that was looked for, or the next one of the cursor, if there is one.
    Post(Option<BlogPost>),
    /// The write was carried out, or the cursor is open.
    Done,
    /// The service failed.
    Failed(StorageError),
}

/// The view of [`Event`]: its texts as sequences of characters.
pub enum EventView {
    User(Option<UserView>),
    Post(Option<BlogPostView>),
    Done,
    Failed(StorageErrorView),
}

impl View for Event {
    type V = EventView;

    open spec fn view(&self) -> EventView {
        match self {
            Event::User(Some(user)) => EventView::User(Some(user@)),
            Event::User(None) => EventView::User(None),
            Event::Post(Some(post)) => EventView::Post(Some(post@)),
            Event::Post(None) => EventView::Post(None),
            Event::Done => EventView::Done,
            Event::Failed(e) => EventView::Failed(e@),
        }
    }
}

/// The failure that stands for an answer that does not fit the action it
/// answers: a user where a post was asked for, or a stored user without an
/// identifier.
pub open spec fn unexpected_reply() -> AppErrorView {
    AppErrorView::MongoDb(
        StorageErrorView { code: None, message: "Unexpected reply from storage"@ },
    )
}

/// The failure that stands for an answer that does not fit its action.
pub fn unexpected() -> (r: AppError)
    ensures
        r@ == unexpected_reply(),
{
    AppError::MongoDb(
        StorageError { code: None, message: String::from_str("Unexpected reply from storage") },
    )
}

} // verus!
