//! Building an identity field by field.

use vstd::prelude::*;
use super::{built, Author};
use crate::email_address::is_refused;
use crate::error::{missing_field, AuthorFieldError, Error};

verus! {

/// Collects a name and an email address, and makes a complete identity of
/// them.
#[derive(Debug)]
pub struct AuthorBuilder {
    name: Option<String>,
    email: Option<String>,
}

impl View for AuthorBuilder {
    type V = (Option<Seq<char>>, Option<Seq<char>>);

    /// The name and the email address as they were given last.
    closed spec fn view(&self) -> (Option<Seq<char>>, Option<Seq<char>>) {
        (self.name.deep_view(), self.email.deep_view())
    }
}

impl AuthorBuilder {
    #[allow(clippy::new_without_default)]
    pub fn new() -> (builder: AuthorBuilder)
        ensures
            builder@ == (None::<Seq<char>>, None::<Seq<char>>),
    {
        AuthorBuilder { name: None, email: None }
    }

    pub fn name(self, name: &str) -> (builder: AuthorBuilder)
        ensures
            builder@ == (Some(name@), self@.1),
    {
        AuthorBuilder { name: Some(name.to_owned()), email: self.email }
    }

    pub fn email(self, email: &str) -> (builder: AuthorBuilder)
        ensures
            builder@ == (self@.0, Some(email@)),
    {
        AuthorBuilder { name: self.name, email: Some(email.to_owned()) }
    }

    /// The identity, where it is complete; else the error that says what
    /// is wrong: an email address that is none, or the fields that are
    /// absent.
    pub fn build(self) -> (r: Result<Author, Error>)
        ensures
            match r {
                Ok(author) => {
                    &&& !is_refused(self@.1)
                    &&& author@ == built(self@.0, self@.1)
                    &&& author@.is_complete()
                },
                Err(Error::InvalidEmailAddress(e)) => is_refused(self@.1) && self@.1 == Some(e@),
                Err(Error::AuthorField(e)) => !is_refused(self@.1) && missing_field(
                    built(self@.0, self@.1),
                ) == Some(e),
                Err(_) => false,
            },
    {
        let name = match &self.name {
            Some(n) => Some(n.as_str()),
            None => None,
        };
        let email = match &self.email {
            Some(e) => Some(e.as_str()),
            None => None,
        };
        let author = match Author::parse(name, email) {
            Ok(author) => author,
            Err(e) => {
                return Err(Error::InvalidEmailAddress(e));
            },
        };
        match AuthorFieldError::new(&author) {
            Ok(e) => Err(Error::AuthorField(e)),
            Err(_) => Ok(author),
        }
    }
}

} // verus!
