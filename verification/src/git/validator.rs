//! The check that filters and targets make of their identities before
//! they write them into a script.

use vstd::prelude::*;
use super::author::{Author, AuthorView};
use crate::error::{
    missing_field, AuthorFieldError, AuthorHasNoneField, CommitterHasNoneField, CompileFailure,
    ConditionTextError, InvalidArguments, ProccessingContentError,
};
use crate::shell::{can_embed, is_embeddable};

verus! {

/// The part that an identity plays in a commit.
#[derive(Debug, Clone, Copy, PartialEq, Eq, Structural)]
pub enum Role {
    Author,
    Committer,
}

/// Why an identity cannot be written into a script.
#[derive(Debug, Clone, Copy, PartialEq, Eq, Structural)]
pub enum Refusal {
    /// The identity lacks a field.
    Incomplete { role: Role, missing: AuthorFieldError },
    /// A field of the identity holds a NUL character, for which the shell
    /// has no notation.
    Nul { role: Role },
}

impl Refusal {
    /// The refusal as the errors of filters and targets tell it.
    pub open spec fn failure(self) -> CompileFailure {
        match self {
            Refusal::Incomplete { role: Role::Author, missing } => {
                CompileFailure::AuthorHasNoneField(missing)
            },
            Refusal::Incomplete { role: Role::Committer, missing } => {
                CompileFailure::CommitterHasNoneField(missing)
            },
            Refusal::Nul { role: Role::Author } => CompileFailure::InvalidArguments(
                "author has a NUL character."@,
            ),
            Refusal::Nul { role: Role::Committer } => CompileFailure::InvalidArguments(
                "committer has a NUL character."@,
            ),
        }
    }

    /// What is said of an identity with a NUL character.
    fn nul_message(role: Role) -> (message: InvalidArguments)
        ensures
            CompileFailure::InvalidArguments(message@) == (Refusal::Nul { role }).failure(),
    {
        match role {
            Role::Author => InvalidArguments("author has a NUL character.".to_owned()),
            Role::Committer => InvalidArguments("committer has a NUL character.".to_owned()),
        }
    }
}

impl ConditionTextError {
    /// The error of a filter one of whose identities is refused.
    pub fn refused(refusal: Refusal) -> (e: Self)
        ensures
            e@ == refusal.failure(),
    {
        match refusal {
            Refusal::Incomplete { role: Role::Author, missing } => {
                ConditionTextError::AuthorHasNoneField(AuthorHasNoneField(missing))
            },
            Refusal::Incomplete { role: Role::Committer, missing } => {
                ConditionTextError::CommitterHasNoneField(CommitterHasNoneField(missing))
            },
            Refusal::Nul { role } => ConditionTextError::InvalidArguments(
                Refusal::nul_message(role),
            ),
        }
    }
}

impl ProccessingContentError {
    /// The error of a target one of whose identities is refused.
    pub fn refused(refusal: Refusal) -> (e: Self)
        ensures
            e@ == refusal.failure(),
    {
        match refusal {
            Refusal::Incomplete { role: Role::Author, missing } => {
                ProccessingContentError::AuthorHasNoneField(AuthorHasNoneField(missing))
            },
            Refusal::Incomplete { role: Role::Committer, missing } => {
                ProccessingContentError::CommitterHasNoneField(CommitterHasNoneField(missing))
            },
            Refusal::Nul { role } => ProccessingContentError::InvalidArguments(
                Refusal::nul_message(role),
            ),
        }
    }
}

/// An identity that is there and lacks a field.
pub open spec fn lacks_field(identity: Option<AuthorView>) -> bool {
    identity is Some && missing_field(identity->0) is Some
}

/// An identity with both fields can be written into a script unless one
/// of them holds a NUL character.
pub open spec fn can_be_written(identity: AuthorView) -> bool {
    is_embeddable(identity.name->0) && is_embeddable(identity.email->0)
}

/// The first reason for which an author and a committer, as far as they
/// are there, cannot be written into a script: an incomplete author, an
/// incomplete committer, an author with a NUL character, a committer with
/// one.
pub open spec fn first_refusal(author: Option<AuthorView>, committer: Option<AuthorView>) -> Option<
    Refusal,
> {
    if lacks_field(author) {
        Some(Refusal::Incomplete { role: Role::Author, missing: missing_field(author->0)->0 })
    } else if lacks_field(committer) {
        Some(
            Refusal::Incomplete { role: Role::Committer, missing: missing_field(committer->0)->0 },
        )
    } else if author is Some && !can_be_written(author->0) {
        Some(Refusal::Nul { role: Role::Author })
    } else if committer is Some && !can_be_written(committer->0) {
        Some(Refusal::Nul { role: Role::Committer })
    } else {
        None
    }
}

/// The first refusal as the errors of filters and targets tell it.
pub open spec fn first_failure(author: Option<AuthorView>, committer: Option<AuthorView>) -> Option<
    CompileFailure,
> {
    match first_refusal(author, committer) {
        Some(refusal) => Some(refusal.failure()),
        None => None,
    }
}

/// An identity that may be absent, as plain values.
pub open spec fn view_of(identity: Option<&Author>) -> Option<AuthorView> {
    match identity {
        Some(identity) => Some(identity@),
        None => None,
    }
}

/// The name and the email address of an identity that has both.
pub fn complete_fields(identity: &Author) -> (r: Result<(&str, &str), AuthorFieldError>)
    ensures
        match r {
            Ok((name, email)) => identity@.is(name@, email@),
            Err(e) => missing_field(identity@) == Some(e),
        },
{
    match (identity.name(), identity.email()) {
        (Some(name), Some(email)) => Ok((name.as_str(), email.as_str())),
        (None, None) => Err(AuthorFieldError::NameAndEmailAreNone),
        (None, _) => Err(AuthorFieldError::NameIsNone),
        (_, None) => Err(AuthorFieldError::EmailIsNone),
    }
}

/// The name and the email address of a complete identity.
pub fn fields(identity: &Author) -> (fields: (&str, &str))
    requires
        identity@.is_complete(),
    ensures
        identity@.is(fields.0@, fields.1@),
{
    (identity.name().as_ref().unwrap().as_str(), identity.email().as_ref().unwrap().as_str())
}

/// What an identity that is there lacks, if anything.
fn missing(identity: Option<&Author>) -> (missing: Option<AuthorFieldError>)
    ensures
        missing is Some == lacks_field(view_of(identity)),
        missing matches Some(e) ==> missing_field(identity->0@) == Some(e),
{
    match identity {
        Some(identity) => match AuthorFieldError::new(identity) {
            Ok(e) => Some(e),
            Err(_) => None,
        },
        None => None,
    }
}

/// Whether a complete identity that is there holds a NUL character.
fn holds_nul(identity: Option<&Author>) -> (b: bool)
    requires
        !lacks_field(view_of(identity)),
    ensures
        b == (identity is Some && !can_be_written(identity->0@)),
{
    match identity {
        Some(identity) => {
            let (name, email) = fields(identity);
            !can_embed(name) || !can_embed(email)
        },
        None => false,
    }
}

/// Checks that an author and a committer, as far as they are there, can
/// be written into a script, and says why not where they cannot.
pub fn check_identities(author: Option<&Author>, committer: Option<&Author>) -> (r: Result<
    (),
    Refusal,
>)
    ensures
        match r {
            Ok(_) => first_refusal(view_of(author), view_of(committer)) is None,
            Err(refusal) => first_refusal(view_of(author), view_of(committer)) == Some(refusal),
        },
{
    if let Some(missing) = missing(author) {
        Err(Refusal::Incomplete { role: Role::Author, missing })
    } else if let Some(missing) = missing(committer) {
        Err(Refusal::Incomplete { role: Role::Committer, missing })
    } else if holds_nul(author) {
        Err(Refusal::Nul { role: Role::Author })
    } else if holds_nul(committer) {
        Err(Refusal::Nul { role: Role::Committer })
    } else {
        Ok(())
    }
}

} // verus!
