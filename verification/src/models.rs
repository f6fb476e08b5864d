//! The records the service stores and the bodies its requests carry.

use vstd::prelude::*;
use crate::object_id::RecordId;

verus! {

/// Copies an optional text field.
pub fn copy_text(o: &Option<String>) -> (res: Option<String>)
    ensures
        res.deep_view() == o.deep_view(),
{
    match o {
        Some(s) => Some(s.clone()),
        None => None,
    }
}

/// The bytes of an optional identifier.
pub open spec fn id_view(o: Option<RecordId>) -> Option<Seq<u8>> {
    match o {
        Some(r) => Some(r.bytes@),
        None => None,
    }
}

/// A stored paste.
#[derive(Debug)]
pub struct Paste {
    pub id: Option<RecordId>,
    pub user_id: Option<String>,
    pub username: Option<String>,
    pub title: Option<String>,
    pub paste: Option<String>,
    pub description: Option<String>,
    pub tags: Option<String>,
    pub paste_password: Option<String>,
    pub is_private: Option<bool>,
    pub created_at: Option<String>,
}

pub struct PasteView {
    pub id: Option<Seq<u8>>,
    pub user_id: Option<Seq<char>>,
    pub username: Option<Seq<char>>,
    pub title: Option<Seq<char>>,
    pub paste: Option<Seq<char>>,
    pub description: Option<Seq<char>>,
    pub tags: Option<Seq<char>>,
    pub paste_password: Option<Seq<char>>,
    pub is_private: Option<bool>,
    pub created_at: Option<Seq<char>>,
}

impl View for Paste {
    type V = PasteView;

    open spec fn view(&self) -> PasteView {
        PasteView {
            id: id_view(self.id),
            user_id: self.user_id.deep_view(),
            username: self.username.deep_view(),
            title: self.title.deep_view(),
            paste: self.paste.deep_view(),
            description: self.description.deep_view(),
            tags: self.tags.deep_view(),
            paste_password: self.paste_password.deep_view(),
            is_private: self.is_private,
            created_at: self.created_at.deep_view(),
        }
    }
}

/// A paste with every field absent.
pub open spec fn empty_paste_view() -> PasteView {
    PasteView {
        id: None,
        user_id: None,
        username: None,
        title: None,
        paste: None,
        description: None,
        tags: None,
        paste_password: None,
        is_private: None,
        created_at: None,
    }
}

impl Paste {
    /// A paste with every field absent.
    pub fn empty() -> (res: Paste)
        ensures
            res@ == empty_paste_view(),
    {
        Paste {
            id: None,
            user_id: None,
            username: None,
            title: None,
            paste: None,
            description: None,
            tags: None,
            paste_password: None,
            is_private: None,
            created_at: None,
        }
    }

    /// A field-by-field copy.
    pub fn copy(&self) -> (res: Paste)
        ensures
            res@ == self@,
    {
        Paste {
            id: self.id,
            user_id: copy_text(&self.user_id),
            username: copy_text(&self.username),
            title: copy_text(&self.title),
            paste: copy_text(&self.paste),
            description: copy_text(&self.description),
            tags: copy_text(&self.tags),
            paste_password: copy_text(&self.paste_password),
            is_private: self.is_private,
            created_at: copy_text(&self.created_at),
        }
    }
}

/// The credentials that come with a paste request.
#[derive(Debug)]
pub struct Auth {
    pub token: Option<String>,
}

/// A paste request: the paste and the credentials of its author.
#[derive(Debug)]
pub struct PasteDTO {
    pub paste: Paste,
    pub auth: Auth,
}

pub struct PasteDTOView {
    pub paste: PasteView,
    pub token: Option<Seq<char>>,
}

impl View for PasteDTO {
    type V = PasteDTOView;

    open spec fn view(&self) -> PasteDTOView {
        PasteDTOView { paste: self.paste@, token: self.auth.token.deep_view() }
    }
}

/// The fields of a paste that a change may carry.
#[derive(Debug)]
pub struct PasteUpdateDto {
    pub title: Option<String>,
    pub paste: Option<String>,
    pub description: Option<String>,
    pub tags: Option<String>,
    pub paste_password: Option<String>,
    pub is_private: Option<bool>,
}

/// A sign-in form.
#[derive(Debug)]
pub struct UserSignIn {
    pub id: Option<RecordId>,
    pub email: Option<String>,
    pub passwd: Option<String>,
}

pub struct UserSignInView {
    pub id: Option<Seq<u8>>,
    pub email: Option<Seq<char>>,
    pub passwd: Option<Seq<char>>,
}

impl View for UserSignIn {
    type V = UserSignInView;

    open spec fn view(&self) -> UserSignInView {
        UserSignInView {
            id: id_view(self.id),
            email: self.email.deep_view(),
            passwd: self.passwd.deep_view(),
        }
    }
}

/// A registered user (or a registration form).
#[derive(Debug)]
pub struct User {
    pub id: Option<RecordId>,
    pub username: Option<String>,
    pub email: Option<String>,
    pub passwd: Option<String>,
}

pub struct UserView {
    pub id: Option<Seq<u8>>,
    pub username: Option<Seq<char>>,
    pub email: Option<Seq<char>>,
    pub passwd: Option<Seq<char>>,
}

impl View for User {
    type V = UserView;

    open spec fn view(&self) -> UserView {
        UserView {
            id: id_view(self.id),
            username: self.username.deep_view(),
            email: self.email.deep_view(),
            passwd: self.passwd.deep_view(),
        }
    }
}

/// The password that comes with a request to read a protected paste.
#[derive(Debug)]
pub struct PasswordDto {
    pub password: Option<String>,
}

} // verus!
