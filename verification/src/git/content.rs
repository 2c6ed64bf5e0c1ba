//! What the content text of a target means to the shell.

use vstd::prelude::*;
use super::author::AuthorView;
use super::condition::{commit_in, lemma_variable_names, Commit};
use super::replace_target::{assignment, committer_content, author_content, ReplaceTargetView};
use crate::shell::{
    is_blank, is_embeddable, is_name, lemma_name_prefix, lemma_word_of_quoted, perform, quoted,
    Variables,
};

verus! {

impl ReplaceTargetView {
    /// The commit at hand after the new identities have been written into
    /// it.
    pub open spec fn apply(self, commit: Commit) -> Commit {
        match self {
            ReplaceTargetView::Author { new_author } => Commit {
                author_name: new_author.name->0,
                author_email: new_author.email->0,
                ..commit
            },
            ReplaceTargetView::Committer { new_committer } => Commit {
                committer_name: new_committer.name->0,
                committer_email: new_committer.email->0,
                ..commit
            },
            ReplaceTargetView::AuthorAndCommitter { new_author, new_committer } => Commit {
                author_name: new_author.name->0,
                author_email: new_author.email->0,
                committer_name: new_committer.name->0,
                committer_email: new_committer.email->0,
            },
        }
    }

    /// The variables of a shell after the new identities have been
    /// assigned.
    pub open spec fn assign(self, vars: Variables) -> Variables {
        match self {
            ReplaceTargetView::Author { new_author } => assign_author(vars, new_author),
            ReplaceTargetView::Committer { new_committer } => assign_committer(
                vars,
                new_committer,
            ),
            ReplaceTargetView::AuthorAndCommitter { new_author, new_committer } => {
                assign_committer(assign_author(vars, new_author), new_committer)
            },
        }
    }
}

/// The variables of a shell after an author has been assigned.
pub open spec fn assign_author(vars: Variables, author: AuthorView) -> Variables {
    vars.insert("GIT_AUTHOR_NAME"@, author.name->0).insert("GIT_AUTHOR_EMAIL"@, author.email->0)
}

/// The variables of a shell after a committer has been assigned.
pub open spec fn assign_committer(vars: Variables, committer: AuthorView) -> Variables {
    vars.insert("GIT_COMMITTER_NAME"@, committer.name->0).insert(
        "GIT_COMMITTER_EMAIL"@,
        committer.email->0,
    )
}

/// An assignment gives the variable the value as it is, whatever
/// characters the value holds.
pub proof fn lemma_assignment_performs(
    variable: Seq<char>,
    value: Seq<char>,
    rest: Seq<char>,
    vars: Variables,
)
    requires
        is_name(variable),
        is_embeddable(value),
        rest.len() == 0 || rest[0] == ' ' || rest[0] == ';',
    ensures
        perform(assignment(variable, value) + rest, vars) == perform(
            rest,
            vars.insert(variable, value),
        ),
{
    reveal_strlit("=");
    let text = assignment(variable, value) + rest;
    let after_name = seq!['='] + quoted(value) + rest;
    assert(text =~= variable + after_name);
    lemma_name_prefix(variable, after_name);
    assert(text[0] == variable[0]);
    assert(text[variable.len() as int] == '=');
    assert(text.skip(variable.len() as int + 1) =~= quoted(value) + rest);
    lemma_word_of_quoted(value, rest, vars);
    assert(text.skip(variable.len() as int + 1 + quoted(value).len() as int) =~= rest);
}

/// The two assignments of an identity give the two variables the name
/// and the email address.
pub proof fn lemma_identity_content_performs(
    name_variable: Seq<char>,
    email_variable: Seq<char>,
    name: Seq<char>,
    email: Seq<char>,
    rest: Seq<char>,
    vars: Variables,
)
    requires
        is_name(name_variable),
        is_name(email_variable),
        is_embeddable(name),
        is_embeddable(email),
    ensures
        perform(
            assignment(name_variable, name) + " "@ + assignment(email_variable, email) + ";"@
                + rest,
            vars,
        ) == perform(rest, vars.insert(name_variable, name).insert(email_variable, email)),
{
    reveal_strlit(" ");
    reveal_strlit(";");
    let r3 = seq![';'] + rest;
    let r2 = assignment(email_variable, email) + r3;
    let r1 = seq![' '] + r2;
    let named = vars.insert(name_variable, name);
    assert(assignment(name_variable, name) + " "@ + assignment(email_variable, email) + ";"@
        + rest =~= assignment(name_variable, name) + r1);
    lemma_assignment_performs(name_variable, name, r1, vars);
    assert(r1[0] == ' ' && r1.drop_first() =~= r2);
    assert(perform(r1, named) == perform(r2, named));
    lemma_assignment_performs(email_variable, email, r3, named);
    assert(r3[0] == ';' && r3.drop_first() =~= rest);
}

/// The shell performs the content text of a target as the assignment of
/// its identities.
pub proof fn lemma_content_performs(target: ReplaceTargetView, vars: Variables)
    requires
        target.failure() is None,
    ensures
        perform(target.content(), vars) == Some(target.assign(vars)),
{
    lemma_variable_names();
    reveal_strlit(" ");
    let end = Seq::<char>::empty();
    match target {
        ReplaceTargetView::Author { new_author } => {
            lemma_identity_content_performs(
                "GIT_AUTHOR_NAME"@,
                "GIT_AUTHOR_EMAIL"@,
                new_author.name->0,
                new_author.email->0,
                end,
                vars,
            );
            assert(target.content() + end =~= target.content());
        },
        ReplaceTargetView::Committer { new_committer } => {
            lemma_identity_content_performs(
                "GIT_COMMITTER_NAME"@,
                "GIT_COMMITTER_EMAIL"@,
                new_committer.name->0,
                new_committer.email->0,
                end,
                vars,
            );
            assert(target.content() + end =~= target.content());
        },
        ReplaceTargetView::AuthorAndCommitter { new_author, new_committer } => {
            let right = committer_content(new_committer.name->0, new_committer.email->0);
            let rest = seq![' '] + right;
            let authored = assign_author(vars, new_author);
            assert(target.content() =~= author_content(new_author.name->0, new_author.email->0)
                + rest);
            lemma_identity_content_performs(
                "GIT_AUTHOR_NAME"@,
                "GIT_AUTHOR_EMAIL"@,
                new_author.name->0,
                new_author.email->0,
                rest,
                vars,
            );
            assert(rest[0] == ' ' && rest.drop_first() =~= right);
            assert(perform(rest, authored) == perform(right, authored));
            lemma_identity_content_performs(
                "GIT_COMMITTER_NAME"@,
                "GIT_COMMITTER_EMAIL"@,
                new_committer.name->0,
                new_committer.email->0,
                end,
                authored,
            );
            assert(right + end =~= right);
        },
    }
}

/// Assigning the identities of a target changes the commit that the
/// variables describe as the target says.
pub proof fn lemma_assign_applies(target: ReplaceTargetView, vars: Variables)
    ensures
        commit_in(target.assign(vars)) == target.apply(commit_in(vars)),
{
    lemma_variable_names();
}

/// The content text of a target begins with the name of a variable.
pub proof fn lemma_content_begins_with_name(target: ReplaceTargetView)
    ensures
        target.content().len() > 0,
        !is_blank(target.content()[0]),
{
    reveal_strlit("GIT_AUTHOR_NAME");
    reveal_strlit("GIT_COMMITTER_NAME");
}

} // verus!
