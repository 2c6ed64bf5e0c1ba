//! Filters: which commits a replacement applies to.

use vstd::prelude::*;
use vstd::string::StringExecFns;
use super::author::{Author, AuthorView};
use super::validator::{
    can_be_written, check_identities, fields, first_failure, lacks_field, view_of,
};
use crate::error::{missing_field, CompileFailure, ConditionTextError};
use crate::shell::{quote, quoted};

verus! {

/// The test that the shell variable `variable` holds `value`.
pub open spec fn comparison(variable: Seq<char>, value: Seq<char>) -> Seq<char> {
    "\"$"@ + variable + "\" = "@ + quoted(value)
}

/// The test that the author of the commit at hand has this name and email
/// address.
pub open spec fn author_condition(name: Seq<char>, email: Seq<char>) -> Seq<char> {
    comparison("GIT_AUTHOR_NAME"@, name) + " -a "@ + comparison("GIT_AUTHOR_EMAIL"@, email)
}

/// The test that the committer of the commit at hand has this name and
/// email address.
pub open spec fn committer_condition(name: Seq<char>, email: Seq<char>) -> Seq<char> {
    comparison("GIT_COMMITTER_NAME"@, name) + " -a "@ + comparison("GIT_COMMITTER_EMAIL"@, email)
}

/// Which commits a replacement applies to.
#[derive(Debug, PartialEq, Eq)]
pub enum ReplaceFilter {
    AuthorOnly(Author),
    CommitterOnly(Author),
    AuthorOrCommitter { author: Author, committer: Author },
    AuthorAndCommitter { author: Author, committer: Author },
}

/// A filter as plain values.
pub enum ReplaceFilterView {
    AuthorOnly(AuthorView),
    CommitterOnly(AuthorView),
    AuthorOrCommitter { author: AuthorView, committer: AuthorView },
    AuthorAndCommitter { author: AuthorView, committer: AuthorView },
}

impl View for ReplaceFilter {
    type V = ReplaceFilterView;

    open spec fn view(&self) -> ReplaceFilterView {
        match *self {
            ReplaceFilter::AuthorOnly(a) => ReplaceFilterView::AuthorOnly(a@),
            ReplaceFilter::CommitterOnly(c) => ReplaceFilterView::CommitterOnly(c@),
            ReplaceFilter::AuthorOrCommitter { author, committer } => {
                ReplaceFilterView::AuthorOrCommitter { author: author@, committer: committer@ }
            },
            ReplaceFilter::AuthorAndCommitter { author, committer } => {
                ReplaceFilterView::AuthorAndCommitter { author: author@, committer: committer@ }
            },
        }
    }
}

impl ReplaceFilterView {
    /// The identity that the author of a commit is held against, if any.
    pub open spec fn author(self) -> Option<AuthorView> {
        match self {
            ReplaceFilterView::AuthorOnly(a) => Some(a),
            ReplaceFilterView::CommitterOnly(_) => None,
            ReplaceFilterView::AuthorOrCommitter { author, .. } => Some(author),
            ReplaceFilterView::AuthorAndCommitter { author, .. } => Some(author),
        }
    }

    /// The identity that the committer of a commit is held against, if any.
    pub open spec fn committer(self) -> Option<AuthorView> {
        match self {
            ReplaceFilterView::AuthorOnly(_) => None,
            ReplaceFilterView::CommitterOnly(c) => Some(c),
            ReplaceFilterView::AuthorOrCommitter { committer, .. } => Some(committer),
            ReplaceFilterView::AuthorAndCommitter { committer, .. } => Some(committer),
        }
    }

    /// Why the filter has no condition text, if it has none: the first of
    /// an incomplete author, an incomplete committer, an author with a NUL
    /// character, a committer with one.
    pub open spec fn failure(self) -> Option<CompileFailure> {
        first_failure(self.author(), self.committer())
    }

    /// The condition text of a filter whose identities are complete.
    pub open spec fn condition(self) -> Seq<char> {
        match self {
            ReplaceFilterView::AuthorOnly(a) => author_condition(a.name->0, a.email->0),
            ReplaceFilterView::CommitterOnly(c) => committer_condition(c.name->0, c.email->0),
            ReplaceFilterView::AuthorOrCommitter { author, committer } => author_condition(
                author.name->0,
                author.email->0,
            ) + " -o "@ + committer_condition(committer.name->0, committer.email->0),
            ReplaceFilterView::AuthorAndCommitter { author, committer } => author_condition(
                author.name->0,
                author.email->0,
            ) + " -a "@ + committer_condition(committer.name->0, committer.email->0),
        }
    }

    /// What `to_condition_text` returns.
    pub open spec fn condition_text(self) -> Result<Seq<char>, CompileFailure> {
        match self.failure() {
            Some(failure) => Err(failure),
            None => Ok(self.condition()),
        }
    }
}

/// A filter with an incomplete identity has no condition text: the error
/// names the author where the author is incomplete, and the committer
/// where it is the first that is, each with what it lacks.
pub proof fn lemma_incomplete_filter_fails(filter: ReplaceFilterView)
    ensures
        lacks_field(filter.author()) ==> filter.condition_text() == Err::<
            Seq<char>,
            CompileFailure,
        >(CompileFailure::AuthorHasNoneField(missing_field(filter.author()->0)->0)),
        !lacks_field(filter.author()) && lacks_field(filter.committer())
            ==> filter.condition_text() == Err::<Seq<char>, CompileFailure>(
            CompileFailure::CommitterHasNoneField(missing_field(filter.committer()->0)->0),
        ),
{
}

/// A filter whose identities are complete and hold no NUL character has
/// a condition text.
pub proof fn lemma_complete_filter_compiles(filter: ReplaceFilterView)
    requires
        filter.author() matches Some(a) ==> a.is_complete() && can_be_written(a),
        filter.committer() matches Some(c) ==> c.is_complete() && can_be_written(c),
    ensures
        filter.condition_text() == Ok::<Seq<char>, CompileFailure>(filter.condition()),
{
}

/// The condition of a filter of two identities is the condition of the
/// author, a connective, and the condition of the committer: `-o` where
/// either is to match, `-a` where both are.
pub proof fn lemma_connectives(author: AuthorView, committer: AuthorView)
    ensures
        (ReplaceFilterView::AuthorOrCommitter { author, committer }).condition()
            == ReplaceFilterView::AuthorOnly(author).condition() + " -o "@
            + ReplaceFilterView::CommitterOnly(committer).condition(),
        (ReplaceFilterView::AuthorAndCommitter { author, committer }).condition()
            == ReplaceFilterView::AuthorOnly(author).condition() + " -a "@
            + ReplaceFilterView::CommitterOnly(committer).condition(),
{
}

/// The text of `comparison`.
pub fn comparison_format(variable: &str, value: &str) -> (text: String)
    ensures
        text@ == comparison(variable@, value@),
{
    let mut text = "\"$".to_owned();
    text.append(variable);
    text.append("\" = ");
    text.append(quote(value).as_str());
    text
}

/// The text of `author_condition`.
pub fn author_condition_format(name: &str, email: &str) -> (text: String)
    ensures
        text@ == author_condition(name@, email@),
{
    let mut text = comparison_format("GIT_AUTHOR_NAME", name);
    text.append(" -a ");
    text.append(comparison_format("GIT_AUTHOR_EMAIL", email).as_str());
    text
}

/// The text of `committer_condition`.
pub fn committer_condition_format(name: &str, email: &str) -> (text: String)
    ensures
        text@ == committer_condition(name@, email@),
{
    let mut text = comparison_format("GIT_COMMITTER_NAME", name);
    text.append(" -a ");
    text.append(comparison_format("GIT_COMMITTER_EMAIL", email).as_str());
    text
}

/// The condition text of an author that is complete.
fn author_condition_of(author: &Author) -> (text: String)
    requires
        author@.is_complete(),
    ensures
        text@ == author_condition(author@.name->0, author@.email->0),
{
    let (name, email) = fields(author);
    author_condition_format(name, email)
}

/// The condition text of a committer that is complete.
fn committer_condition_of(committer: &Author) -> (text: String)
    requires
        committer@.is_complete(),
    ensures
        text@ == committer_condition(committer@.name->0, committer@.email->0),
{
    let (name, email) = fields(committer);
    committer_condition_format(name, email)
}

impl ReplaceFilter {
    /// The identity that the author of a commit is held against, if any.
    pub fn author(&self) -> (author: Option<&Author>)
        ensures
            view_of(author) == self@.author(),
    {
        match self {
            ReplaceFilter::AuthorOnly(author) => Some(author),
            ReplaceFilter::CommitterOnly(_) => None,
            ReplaceFilter::AuthorOrCommitter { author, .. } => Some(author),
            ReplaceFilter::AuthorAndCommitter { author, .. } => Some(author),
        }
    }

    /// The identity that the committer of a commit is held against, if
    /// any.
    pub fn committer(&self) -> (committer: Option<&Author>)
        ensures
            view_of(committer) == self@.committer(),
    {
        match self {
            ReplaceFilter::AuthorOnly(_) => None,
            ReplaceFilter::CommitterOnly(committer) => Some(committer),
            ReplaceFilter::AuthorOrCommitter { committer, .. } => Some(committer),
            ReplaceFilter::AuthorAndCommitter { committer, .. } => Some(committer),
        }
    }

    /// The condition under which a commit is rewritten, as the text of a
    /// shell test.
    pub fn to_condition_text(&self) -> (r: Result<String, ConditionTextError>)
        ensures
            match r {
                Ok(text) => self@.condition_text() == Ok::<Seq<char>, CompileFailure>(text@),
                Err(e) => self@.condition_text() == Err::<Seq<char>, CompileFailure>(e@),
            },
    {
        if let Err(refusal) = check_identities(self.author(), self.committer()) {
            return Err(ConditionTextError::refused(refusal));
        }
        match self {
            ReplaceFilter::AuthorOnly(author) => Ok(author_condition_of(author)),
            ReplaceFilter::CommitterOnly(committer) => Ok(committer_condition_of(committer)),
            ReplaceFilter::AuthorOrCommitter { author, committer } => {
                let mut text = author_condition_of(author);
                text.append(" -o ");
                text.append(committer_condition_of(committer).as_str());
                Ok(text)
            },
            ReplaceFilter::AuthorAndCommitter { author, committer } => {
                let mut text = author_condition_of(author);
                text.append(" -a ");
                text.append(committer_condition_of(committer).as_str());
                Ok(text)
            },
        }
    }
}

} // verus!
