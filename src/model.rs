use vstd::prelude::*;

verus! {

/// A registered user. `password` holds the salted PHC hash, never the
/// plain password; `email` is stored in ASCII lower case.
#[derive(Debug, Clone, Default, PartialEq, Eq)]
pub struct User {
    pub id: String,
    pub email: String,
    pub password: String,
    pub username: String,
}

/// The fields of the registration form.
#[derive(Debug, Clone, PartialEq, Eq)]
pub struct RegisterUserSchema {
    pub email: String,
    pub password: String,
    pub username: String,
}

/// The fields of the login form.
#[derive(Debug, Clone, PartialEq, Eq)]
pub struct LoginUserSchema {
    pub email: String,
    pub password: String,
}

/// The claims a token carries: its subject (a user id), and when it was
/// issued and expires, in seconds since the Unix epoch.
#[derive(Debug, Clone, PartialEq, Eq)]
pub struct TokenClaims {
    pub sub: String,
    pub iat: usize,
    pub exp: usize,
}

/// A todo item as stored; `created_at` is in seconds since the Unix epoch (UTC).
#[derive(Debug, Clone, Default, PartialEq, Eq)]
pub struct Todo {
    pub id: i64,
    pub created_by: String,
    pub title: String,
    pub description: String,
    pub status: bool,
    pub created_at: i64,
}

/// The fields of the todo creation form.
#[derive(Debug, Clone, PartialEq, Eq)]
pub struct TodoSchema {
    pub title: String,
    pub description: String,
}

/// The fields of the todo edit form.
#[derive(Debug, Clone, PartialEq, Eq)]
pub struct TodoEditSchema {
    pub title: String,
    pub description: String,
    pub status: bool,
}

/// The todo id carried in a query string.
#[derive(Debug, Clone, Copy, PartialEq, Eq)]
pub struct QueryParams {
    pub id: i64,
}

impl Todo {
    /// A copy of this todo, field for field.
    pub fn duplicate(&self) -> (r: Todo)
        ensures
            r == *self,
    {
        Todo {
            id: self.id,
            created_by: self.created_by.clone(),
            title: self.title.clone(),
            description: self.description.clone(),
            status: self.status,
            created_at: self.created_at,
        }
    }
}

} // verus!
