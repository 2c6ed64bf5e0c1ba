//! The errors of the crate.

use vstd::prelude::*;
use vstd::string::StringExecFns;
use crate::git::{Author, AuthorView, Completeness};

verus! {

/// `std::io::Error`, the error of an operation of `std::io`.
#[verifier::external_type_specification]
#[verifier::external_body]
pub struct ExIoError(std::io::Error);

/// A text that was offered as an email address and is none.
#[derive(Debug, PartialEq, Eq)]
pub struct InvalidEmailAddressError {
    address: String,
}

impl View for InvalidEmailAddressError {
    type V = Seq<char>;

    /// The rejected text.
    closed spec fn view(&self) -> Seq<char> {
        self.address@
    }
}

impl Clone for InvalidEmailAddressError {
    fn clone(&self) -> (copy: Self)
        ensures
            copy@ == self@,
    {
        Self { address: self.address.clone() }
    }
}

impl InvalidEmailAddressError {
    pub fn new(address: &str) -> (e: Self)
        ensures
            e@ == address@,
    {
        Self { address: address.to_owned() }
    }

    pub fn address(&self) -> (a: &String)
        ensures
            a@ == self@,
    {
        &self.address
    }

    /// The error in words.
    pub fn to_string(&self) -> (s: String)
        ensures
            s@ == "Invalid email address error: "@ + self@,
    {
        let mut s = "Invalid email address error: ".to_owned();
        s.append(self.address.as_str());
        s
    }
}

/// Application error
#[derive(Debug)]
pub enum Error {
    /// A text that is no email address was given for one.
    InvalidEmailAddress(InvalidEmailAddressError),
    /// The arguments do not fit together.
    InvalidArguments(InvalidArguments),
    /// An identity lacks a field.
    AuthorField(AuthorFieldError),
    /// The configured identity could not be read.
    Get(GetError),
    /// The configured identity could not be written.
    SetAuthor(SetError),
    /// The configured identity could not be removed.
    Unset(UnsetError),
    /// The commits could not be rewritten.
    Replace(ReplaceError),
}

/// What can go wrong with the output of a command.
#[derive(Debug)]
pub enum OutputError {
    /// Command execution error.
    CommandExecute(CommandExecuteError),
    /// The output is not UTF-8.
    FromUtf8(std::string::FromUtf8Error),
    /// The command could not be run.
    Io(std::io::Error),
}

/// A command that ran and failed, with what it wrote to its error stream.
#[derive(Debug, PartialEq, Eq)]
pub struct CommandExecuteError(pub String);

impl View for CommandExecuteError {
    type V = Seq<char>;

    open spec fn view(&self) -> Seq<char> {
        self.0@
    }
}

/// Arguments that do not fit together, with the reason.
#[derive(Debug, PartialEq, Eq)]
pub struct InvalidArguments(pub String);

impl View for InvalidArguments {
    type V = Seq<char>;

    open spec fn view(&self) -> Seq<char> {
        self.0@
    }
}

/// Which fields an incomplete identity lacks.
#[derive(Debug, Clone, Copy, PartialEq, Eq, Structural)]
pub enum AuthorFieldError {
    NameIsNone,
    EmailIsNone,
    NameAndEmailAreNone,
}

/// What an identity lacks, if anything.
pub open spec fn missing_field(author: AuthorView) -> Option<AuthorFieldError> {
    match author.classify() {
        Completeness::Complete => None,
        Completeness::NameMissing => Some(AuthorFieldError::NameIsNone),
        Completeness::EmailMissing => Some(AuthorFieldError::EmailIsNone),
        Completeness::BothMissing => Some(AuthorFieldError::NameAndEmailAreNone),
    }
}

impl AuthorFieldError {
    /// Names what `author` lacks; to ask this of a complete identity is an
    /// error of its own.
    pub fn new(author: &Author) -> (r: Result<Self, InvalidArguments>)
        ensures
            match r {
                Ok(e) => missing_field(author@) == Some(e),
                Err(e) => missing_field(author@) is None && e@
                    == "author has no None parameter."@,
            },
    {
        match author.classify() {
            Completeness::Complete => Err(
                InvalidArguments("author has no None parameter.".to_owned()),
            ),
            Completeness::BothMissing => Ok(AuthorFieldError::NameAndEmailAreNone),
            Completeness::NameMissing => Ok(AuthorFieldError::NameIsNone),
            Completeness::EmailMissing => Ok(AuthorFieldError::EmailIsNone),
        }
    }
}

/// The author of a filter or target is incomplete.
#[derive(Debug, Clone, Copy, PartialEq, Eq, Structural)]
pub struct AuthorHasNoneField(pub AuthorFieldError);

/// The committer of a filter or target is incomplete.
#[derive(Debug, Clone, Copy, PartialEq, Eq, Structural)]
pub struct CommitterHasNoneField(pub AuthorFieldError);

/// Why a filter or a target cannot be turned into script text, as plain
/// values.
pub enum CompileFailure {
    AuthorHasNoneField(AuthorFieldError),
    CommitterHasNoneField(AuthorFieldError),
    InvalidArguments(Seq<char>),
}

/// Why a filter has no condition text.
#[derive(Debug, PartialEq, Eq)]
pub enum ConditionTextError {
    AuthorHasNoneField(AuthorHasNoneField),
    CommitterHasNoneField(CommitterHasNoneField),
    InvalidArguments(InvalidArguments),
}

impl View for ConditionTextError {
    type V = CompileFailure;

    open spec fn view(&self) -> CompileFailure {
        match *self {
            ConditionTextError::AuthorHasNoneField(e) => CompileFailure::AuthorHasNoneField(e.0),
            ConditionTextError::CommitterHasNoneField(e) => CompileFailure::CommitterHasNoneField(
                e.0,
            ),
            ConditionTextError::InvalidArguments(e) => CompileFailure::InvalidArguments(e@),
        }
    }
}

/// Why a target has no content text.
#[derive(Debug, PartialEq, Eq)]
pub enum ProccessingContentError {
    AuthorHasNoneField(AuthorHasNoneField),
    CommitterHasNoneField(CommitterHasNoneField),
    InvalidArguments(InvalidArguments),
}

impl View for ProccessingContentError {
    type V = CompileFailure;

    open spec fn view(&self) -> CompileFailure {
        match *self {
            ProccessingContentError::AuthorHasNoneField(e) => CompileFailure::AuthorHasNoneField(
                e.0,
            ),
            ProccessingContentError::CommitterHasNoneField(e) => {
                CompileFailure::CommitterHasNoneField(e.0)
            },
            ProccessingContentError::InvalidArguments(e) => CompileFailure::InvalidArguments(e@),
        }
    }
}

/// Why the configured identity could not be read.
#[derive(Debug)]
pub enum GetError {
    /// The command that reads a setting failed.
    Output(OutputError),
    /// Error returned when parse email address.
    InvalidEmailAddress(InvalidEmailAddressError),
}

/// Why the configured identity could not be written.
#[derive(Debug)]
pub enum SetError {
    /// The identity to write lacks a field.
    AuthorField(AuthorFieldError),
    /// The command that writes a setting failed.
    Output(OutputError),
}

/// Why the configured identity could not be removed.
#[derive(Debug)]
pub enum UnsetError {
    /// The command that removes a setting ran and failed.
    CommandExecute(CommandExecuteError),
    /// The command that removes a setting failed.
    Output(OutputError),
}

/// Why the commits could not be rewritten.
#[derive(Debug)]
pub enum ReplaceError {
    /// The filter has no condition text.
    ConditionText(ConditionTextError),
    /// The target has no content text.
    ProccessingContent(ProccessingContentError),
    /// The command that rewrites could not be run.
    Io(std::io::Error),
    /// The command that rewrites ran and failed.
    CommandExecute(CommandExecuteError),
    /// The command that rewrites failed.
    Output(OutputError),
}

} // verus!
