//! Posts as the instance returns them, and their mathematical models.

use vstd::prelude::*;

verus! {

/// The author of a post, as embedded in each post.
#[derive(Clone, Debug, PartialEq, Eq)]
pub struct User {
    /// Display name.
    pub name: String,
    /// Account name, without `@`.
    pub username: String,
    /// Home instance; `None` for an account of the instance that was asked.
    pub host: Option<String>,
}

/// Model of a [`User`]: every string as its sequence of characters.
pub struct UserView {
    pub name: Seq<char>,
    pub username: Seq<char>,
    pub host: Option<Seq<char>>,
}

/// One post. Its `id` is opaque; the instance hands posts out newest first.
#[derive(Clone, Debug, PartialEq, Eq)]
pub struct Post {
    /// Identifier given by the instance.
    pub id: String,
    /// Body; absent for a post that only carries attachments.
    pub text: Option<String>,
    /// Content warning shown in front of the body.
    pub cw: Option<String>,
    /// Author.
    pub user: User,
}

/// Model of a [`Post`].
pub struct PostView {
    pub id: Seq<char>,
    pub text: Option<Seq<char>>,
    pub cw: Option<Seq<char>>,
    pub user: UserView,
}

/// The instance's answer to a submitted note: the note as it was created.
#[derive(Clone, Debug, PartialEq, Eq)]
pub struct CreatedNote {
    created_note: Post,
}

impl View for User {
    type V = UserView;

    open spec fn view(&self) -> UserView {
        UserView { name: self.name@, username: self.username@, host: self.host.deep_view() }
    }
}

impl DeepView for User {
    type V = UserView;

    open spec fn deep_view(&self) -> UserView {
        self@
    }
}

impl View for Post {
    type V = PostView;

    open spec fn view(&self) -> PostView {
        PostView {
            id: self.id@,
            text: self.text.deep_view(),
            cw: self.cw.deep_view(),
            user: self.user@,
        }
    }
}

impl DeepView for Post {
    type V = PostView;

    open spec fn deep_view(&self) -> PostView {
        self@
    }
}

impl View for CreatedNote {
    type V = PostView;

    closed spec fn view(&self) -> PostView {
        self.created_note@
    }
}

impl CreatedNote {
    /// Wraps the note that the instance reported as created.
    pub fn new(created_note: Post) -> (note: CreatedNote)
        ensures
            note@ == created_note@,
    {
        CreatedNote { created_note }
    }

    /// The created note's identifier.
    pub fn id(&self) -> (id: &String)
        ensures
            id@ == self@.id,
    {
        &self.created_note.id
    }

    /// Gives the created note back.
    pub fn into_post(self) -> (post: Post)
        ensures
            post@ == self@,
    {
        self.created_note
    }
}

} // verus!
