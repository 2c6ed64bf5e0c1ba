//! Targets: what a replacement writes into a commit.

use vstd::prelude::*;
use vstd::string::StringExecFns;
use super::author::{Author, AuthorView};
use super::validator::{
    can_be_written, check_identities, fields, first_failure, lacks_field, view_of,
};
use crate::error::{missing_field, CompileFailure, InvalidArguments, ProccessingContentError};
use crate::shell::{quote, quoted};
use crate::text::same_text;

verus! {

/// The statement that gives the shell variable `variable` the value `value`.
pub open spec fn assignment(variable: Seq<char>, value: Seq<char>) -> Seq<char> {
    variable + "="@ + quoted(value)
}

/// The statements that make this name and email address the author of the
/// commit at hand.
pub open spec fn author_content(name: Seq<char>, email: Seq<char>) -> Seq<char> {
    assignment("GIT_AUTHOR_NAME"@, name) + " "@ + assignment("GIT_AUTHOR_EMAIL"@, email) + ";"@
}

/// The statements that make this name and email address the committer of
/// the commit at hand.
pub open spec fn committer_content(name: Seq<char>, email: Seq<char>) -> Seq<char> {
    assignment("GIT_COMMITTER_NAME"@, name) + " "@ + assignment("GIT_COMMITTER_EMAIL"@, email)
        + ";"@
}

/// Which of the two identities of a commit a replacement is asked to
/// write.
#[derive(Debug, Clone, Copy, PartialEq, Eq, Structural)]
pub enum ReplaceTargetKind {
    AuthorOnly,
    CommitterOnly,
    AuthorAndCommitter,
}

impl ReplaceTargetKind {
    /// The kind that a word of the command line names.
    pub open spec fn named(word: Seq<char>) -> Option<Self> {
        if word == "author"@ {
            Some(ReplaceTargetKind::AuthorOnly)
        } else if word == "committer"@ {
            Some(ReplaceTargetKind::CommitterOnly)
        } else if word == "author-and-committer"@ {
            Some(ReplaceTargetKind::AuthorAndCommitter)
        } else {
            None
        }
    }

    /// The kind that `s` names; any other word is refused.
    pub fn from_str(s: &str) -> (r: Result<Self, InvalidArguments>)
        ensures
            match r {
                Ok(kind) => Self::named(s@) == Some(kind),
                Err(e) => Self::named(s@) is None && e@
                    == "The only value that can be specified for replace-target is `author` or `committer` or `author-and-committer`."@,
            },
    {
        proof {
            reveal_strlit("author");
            reveal_strlit("committer");
            reveal_strlit("author-and-committer");
        }
        if same_text(s, "author") {
            Ok(ReplaceTargetKind::AuthorOnly)
        } else if same_text(s, "committer") {
            Ok(ReplaceTargetKind::CommitterOnly)
        } else if same_text(s, "author-and-committer") {
            Ok(ReplaceTargetKind::AuthorAndCommitter)
        } else {
            Err(
                InvalidArguments(
                    "The only value that can be specified for replace-target is `author` or `committer` or `author-and-committer`.".to_owned(),
                ),
            )
        }
    }
}

/// What a replacement writes into a commit.
#[derive(Debug, PartialEq, Eq)]
pub enum ReplaceTarget {
    Author { new_author: Author },
    Committer { new_committer: Author },
    AuthorAndCommitter { new_author: Author, new_committer: Author },
}

/// A target as plain values.
pub enum ReplaceTargetView {
    Author { new_author: AuthorView },
    Committer { new_committer: AuthorView },
    AuthorAndCommitter { new_author: AuthorView, new_committer: AuthorView },
}

impl View for ReplaceTarget {
    type V = ReplaceTargetView;

    open spec fn view(&self) -> ReplaceTargetView {
        match *self {
            ReplaceTarget::Author { new_author } => ReplaceTargetView::Author {
                new_author: new_author@,
            },
            ReplaceTarget::Committer { new_committer } => ReplaceTargetView::Committer {
                new_committer: new_committer@,
            },
            ReplaceTarget::AuthorAndCommitter { new_author, new_committer } => {
                ReplaceTargetView::AuthorAndCommitter {
                    new_author: new_author@,
                    new_committer: new_committer@,
                }
            },
        }
    }
}

impl ReplaceTargetView {
    /// The identity that becomes the author of a commit, if any.
    pub open spec fn author(self) -> Option<AuthorView> {
        match self {
            ReplaceTargetView::Author { new_author } => Some(new_author),
            ReplaceTargetView::Committer { .. } => None,
            ReplaceTargetView::AuthorAndCommitter { new_author, .. } => Some(new_author),
        }
    }

    /// The identity that becomes the committer of a commit, if any.
    pub open spec fn committer(self) -> Option<AuthorView> {
        match self {
            ReplaceTargetView::Author { .. } => None,
            ReplaceTargetView::Committer { new_committer } => Some(new_committer),
            ReplaceTargetView::AuthorAndCommitter { new_committer, .. } => Some(new_committer),
        }
    }

    /// Why the target has no content text, if it has none: the first of an
    /// incomplete author, an incomplete committer, an author with a NUL
    /// character, a committer with one.
    pub open spec fn failure(self) -> Option<CompileFailure> {
        first_failure(self.author(), self.committer())
    }

    /// The content text of a target whose identities are complete.
    pub open spec fn content(self) -> Seq<char> {
        match self {
            ReplaceTargetView::Author { new_author } => author_content(
                new_author.name->0,
                new_author.email->0,
            ),
            ReplaceTargetView::Committer { new_committer } => committer_content(
                new_committer.name->0,
                new_committer.email->0,
            ),
            ReplaceTargetView::AuthorAndCommitter { new_author, new_committer } => author_content(
                new_author.name->0,
                new_author.email->0,
            ) + " "@ + committer_content(new_committer.name->0, new_committer.email->0),
        }
    }

    /// What `to_proccessing_content_text` returns.
    pub open spec fn content_text(self) -> Result<Seq<char>, CompileFailure> {
        match self.failure() {
            Some(failure) => Err(failure),
            None => Ok(self.content()),
        }
    }
}

/// A target with an incomplete identity has no content text: the error
/// names the author where the author is incomplete, and the committer
/// where it is the first that is, each with what it lacks.
pub proof fn lemma_incomplete_target_fails(target: ReplaceTargetView)
    ensures
        lacks_field(target.author()) ==> target.content_text() == Err::<
            Seq<char>,
            CompileFailure,
        >(CompileFailure::AuthorHasNoneField(missing_field(target.author()->0)->0)),
        !lacks_field(target.author()) && lacks_field(target.committer())
            ==> target.content_text() == Err::<Seq<char>, CompileFailure>(
            CompileFailure::CommitterHasNoneField(missing_field(target.committer()->0)->0),
        ),
{
}

/// A target whose identities are complete and hold no NUL character has
/// a content text.
pub proof fn lemma_complete_target_compiles(target: ReplaceTargetView)
    requires
        target.author() matches Some(a) ==> a.is_complete() && can_be_written(a),
        target.committer() matches Some(c) ==> c.is_complete() && can_be_written(c),
    ensures
        target.content_text() == Ok::<Seq<char>, CompileFailure>(target.content()),
{
}

/// The text of `assignment`.
pub fn assignment_format(variable: &str, value: &str) -> (text: String)
    ensures
        text@ == assignment(variable@, value@),
{
    let mut text = variable.to_owned();
    text.append("=");
    text.append(quote(value).as_str());
    text
}

/// The text of `author_content`.
pub fn author_format(name: &str, email: &str) -> (text: String)
    ensures
        text@ == author_content(name@, email@),
{
    let mut text = assignment_format("GIT_AUTHOR_NAME", name);
    text.append(" ");
    text.append(assignment_format("GIT_AUTHOR_EMAIL", email).as_str());
    text.append(";");
    text
}

/// The text of `committer_content`.
pub fn committer_format(name: &str, email: &str) -> (text: String)
    ensures
        text@ == committer_content(name@, email@),
{
    let mut text = assignment_format("GIT_COMMITTER_NAME", name);
    text.append(" ");
    text.append(assignment_format("GIT_COMMITTER_EMAIL", email).as_str());
    text.append(";");
    text
}

/// The content text of an author that is complete.
fn author_content_of(author: &Author) -> (text: String)
    requires
        author@.is_complete(),
    ensures
        text@ == author_content(author@.name->0, author@.email->0),
{
    let (name, email) = fields(author);
    author_format(name, email)
}

/// The content text of a committer that is complete.
fn committer_content_of(committer: &Author) -> (text: String)
    requires
        committer@.is_complete(),
    ensures
        text@ == committer_content(committer@.name->0, committer@.email->0),
{
    let (name, email) = fields(committer);
    committer_format(name, email)
}

impl ReplaceTarget {
    /// The identity that becomes the author of a commit, if any.
    pub fn author(&self) -> (author: Option<&Author>)
        ensures
            view_of(author) == self@.author(),
    {
        match self {
            ReplaceTarget::Author { new_author } => Some(new_author),
            ReplaceTarget::Committer { .. } => None,
            ReplaceTarget::AuthorAndCommitter { new_author, .. } => Some(new_author),
        }
    }

    /// The identity that becomes the committer of a commit, if any.
    pub fn committer(&self) -> (committer: Option<&Author>)
        ensures
            view_of(committer) == self@.committer(),
    {
        match self {
            ReplaceTarget::Author { .. } => None,
            ReplaceTarget::Committer { new_committer } => Some(new_committer),
            ReplaceTarget::AuthorAndCommitter { new_committer, .. } => Some(new_committer),
        }
    }

    /// The statements that write the new identity into a commit, as the
    /// text of shell assignments.
    pub fn to_proccessing_content_text(&self) -> (r: Result<String, ProccessingContentError>)
        ensures
            match r {
                Ok(text) => self@.content_text() == Ok::<Seq<char>, CompileFailure>(text@),
                Err(e) => self@.content_text() == Err::<Seq<char>, CompileFailure>(e@),
            },
    {
        if let Err(refusal) = check_identities(self.author(), self.committer()) {
            return Err(ProccessingContentError::refused(refusal));
        }
        match self {
            ReplaceTarget::Author { new_author } => Ok(author_content_of(new_author)),
            ReplaceTarget::Committer { new_committer } => Ok(committer_content_of(new_committer)),
            ReplaceTarget::AuthorAndCommitter { new_author, new_committer } => {
                let mut text = author_content_of(new_author);
                text.append(" ");
                text.append(committer_content_of(new_committer).as_str());
                Ok(text)
            },
        }
    }
}

} // verus!
