//! The stored records and the bodies of the requests that create and change them.

use vstd::prelude::*;
use crate::oid::ObjectId;

verus! {

/// The view of an identifier that may not have been assigned yet.
pub open spec fn id_view(id: Option<ObjectId>) -> Option<Seq<u8>> {
    match id {
        Some(id) => Some(id@),
        None => None,
    }
}

/// The view of a text that a request may leave out.
pub open spec fn text_view(text: Option<String>) -> Option<Seq<char>> {
    match text {
        Some(text) => Some(text@),
        None => None,
    }
}

/// A registered user. `password` holds the digest, never the password itself.
#[derive(Debug, PartialEq, Eq)]
pub struct User {
    pub id: Option<ObjectId>,
    pub username: String,
    pub password: String,
    pub email: String,
    pub phonenumber: String,
}

/// The view of [`User`]: its texts as sequences of characters.
pub struct UserView {
    pub id: Option<Seq<u8>>,
    pub username: Seq<char>,
    pub password: Seq<char>,
    pub email: Seq<char>,
    pub phonenumber: Seq<char>,
}

impl View for User {
    type V = UserView;

    open spec fn view(&self) -> UserView {
        UserView {
            id: id_view(self.id),
            username: self.username@,
            password: self.password@,
            email: self.email@,
            phonenumber: self.phonenumber@,
        }
    }
}

impl Clone for User {
    fn clone(&self) -> (r: Self)
        ensures
            r == *self,
    {
        User {
            id: self.id,
            username: self.username.clone(),
            password: self.password.clone(),
            email: self.email.clone(),
            phonenumber: self.phonenumber.clone(),
        }
    }
}

/// A post and the user it belongs to.
#[derive(Debug, PartialEq, Eq)]
pub struct BlogPost {
    pub id: Option<ObjectId>,
    pub title: String,
    pub content: String,
    pub author_id: ObjectId,
}

/// The view of [`BlogPost`]: its texts as sequences of characters.
pub struct BlogPostView {
    pub id: Option<Seq<u8>>,
    pub title: Seq<char>,
    pub content: Seq<char>,
    pub author_id: Seq<u8>,
}

impl View for BlogPost {
    type V = BlogPostView;

    open spec fn view(&self) -> BlogPostView {
        BlogPostView {
            id: id_view(self.id),
            title: self.title@,
            content: self.content@,
            author_id: self.author_id@,
        }
    }
}

impl Clone for BlogPost {
    fn clone(&self) -> (r: Self)
        ensures
            r == *self,
    {
        BlogPost {
            id: self.id,
            title: self.title.clone(),
            content: self.content.clone(),
            author_id: self.author_id,
        }
    }
}

/// The views of a list of posts, in order.
pub open spec fn posts_view(posts: Seq<BlogPost>) -> Seq<BlogPostView> {
    posts.map_values(|p: BlogPost| p@)
}

/// The body of a login request.
#[derive(Debug, PartialEq, Eq)]
pub struct LoginRequest {
    pub email: String,
    pub password: String,
}

/// The view of [`LoginRequest`]: its texts as sequences of characters.
pub struct LoginRequestView {
    pub email: Seq<char>,
    pub password: Seq<char>,
}

impl View for LoginRequest {
    type V = LoginRequestView;

    open spec fn view(&self) -> LoginRequestView {
        LoginRequestView { email: self.email@, password: self.password@ }
    }
}

/// The body of a request that creates a post.
#[derive(Debug, PartialEq, Eq)]
pub struct CreatePostRequest {
    pub title: String,
    pub content: String,
}

/// The view of [`CreatePostRequest`]: its texts as sequences of characters.
pub struct CreatePostRequestView {
    pub title: Seq<char>,
    pub content: Seq<char>,
}

impl View for CreatePostRequest {
    type V = CreatePostRequestView;

    open spec fn view(&self) -> CreatePostRequestView {
        CreatePostRequestView { title: self.title@, content: self.content@ }
    }
}

/// The body of a request that changes a post. A field left out keeps its stored value.
#[derive(Debug, PartialEq, Eq)]
pub struct UpdatePostRequest {
    pub title: Option<String>,
    pub content: Option<String>,
}

/// The view of [`UpdatePostRequest`]: its texts as sequences of characters.
pub struct UpdatePostRequestView {
    pub title: Option<Seq<char>>,
    pub content: Option<Seq<char>>,
}

impl View for UpdatePostRequest {
    type V = UpdatePostRequestView;

    open spec fn view(&self) -> UpdatePostRequestView {
        UpdatePostRequestView { title: text_view(self.title), content: text_view(self.content) }
    }
}

/// The body of a registration request.
#[derive(Debug, PartialEq, Eq)]
pub struct RegisterRequest {
    pub username: String,
    pub email: String,
    pub password: String,
    pub phonenumber: String,
}

/// The view of [`RegisterRequest`]: its texts as sequences of characters.
pub struct RegisterRequestView {
    pub username: Seq<char>,
    pub email: Seq<char>,
    pub password: Seq<char>,
    pub phonenumber: Seq<char>,
}

impl View for RegisterRequest {
    type V = RegisterRequestView;

    open spec fn view(&self) -> RegisterRequestView {
        RegisterRequestView {
            username: self.username@,
            email: self.email@,
            password: self.password@,
            phonenumber: self.phonenumber@,
        }
    }
}

} // verus!
