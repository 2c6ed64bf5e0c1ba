//! What a rewrite does to a commit: a filter and a target taken
//! together.

use vstd::prelude::*;
use super::author::AuthorView;
use super::condition::{commit_in, lemma_condition_decides_match, lemma_variable_names, Commit};
use super::content::{lemma_assign_applies, lemma_content_performs};
use super::replace_filter::ReplaceFilterView;
use super::replace_target::ReplaceTargetView;
use crate::shell::{evaluate, perform, Variables};

verus! {

/// The variables of the shell after one rewrite: the identities of the
/// target are assigned where the filter selects the commit at hand, and
/// nothing is changed where it does not.
pub open spec fn rewritten(
    filter: ReplaceFilterView,
    target: ReplaceTargetView,
    vars: Variables,
) -> Variables {
    if filter.matches(commit_in(vars)) {
        target.assign(vars)
    } else {
        vars
    }
}

/// A commit after one rewrite.
pub open spec fn rewritten_commit(
    filter: ReplaceFilterView,
    target: ReplaceTargetView,
    commit: Commit,
) -> Commit {
    if filter.matches(commit) {
        target.apply(commit)
    } else {
        commit
    }
}

/// The variables of the shell after one simple replacement of `old` by
/// `new`: the first that applies of three rewrites, of author and
/// committer where both are `old`, of the author where the author is, of
/// the committer where the committer is.
pub open spec fn simply_rewritten(old: AuthorView, new: AuthorView, vars: Variables) -> Variables {
    let commit = commit_in(vars);
    if (ReplaceFilterView::AuthorAndCommitter { author: old, committer: old }).matches(commit) {
        (ReplaceTargetView::AuthorAndCommitter { new_author: new, new_committer: new }).assign(
            vars,
        )
    } else if ReplaceFilterView::AuthorOnly(old).matches(commit) {
        (ReplaceTargetView::Author { new_author: new }).assign(vars)
    } else if ReplaceFilterView::CommitterOnly(old).matches(commit) {
        (ReplaceTargetView::Committer { new_committer: new }).assign(vars)
    } else {
        vars
    }
}

/// A commit in which `new` stands wherever `old` stood, as author and as
/// committer.
pub open spec fn replaced_in(old: AuthorView, new: AuthorView, commit: Commit) -> Commit {
    let author = old.is(commit.author_name, commit.author_email);
    let committer = old.is(commit.committer_name, commit.committer_email);
    Commit {
        author_name: if author {
            new.name->0
        } else {
            commit.author_name
        },
        author_email: if author {
            new.email->0
        } else {
            commit.author_email
        },
        committer_name: if committer {
            new.name->0
        } else {
            commit.committer_name
        },
        committer_email: if committer {
            new.email->0
        } else {
            commit.committer_email
        },
    }
}

/// Two identities that differ in their name or in their email address.
pub open spec fn differ(a: AuthorView, b: AuthorView) -> bool {
    a.name != b.name || a.email != b.email
}

impl ReplaceFilterView {
    /// The target writes another author than the one that the filter asks
    /// for.
    pub open spec fn author_is_replaced_by(self, target: ReplaceTargetView) -> bool {
        self.author() is Some && target.author() is Some && differ(
            self.author()->0,
            target.author()->0,
        )
    }

    /// The target writes another committer than the one that the filter
    /// asks for.
    pub open spec fn committer_is_replaced_by(self, target: ReplaceTargetView) -> bool {
        self.committer() is Some && target.committer() is Some && differ(
            self.committer()->0,
            target.committer()->0,
        )
    }

    /// The target takes away what the filter selects by: the identity that
    /// it asks for, one of the two where it asks for both, both where it
    /// asks for either.
    pub open spec fn is_undone_by(self, target: ReplaceTargetView) -> bool {
        match self {
            ReplaceFilterView::AuthorOnly(_) => self.author_is_replaced_by(target),
            ReplaceFilterView::CommitterOnly(_) => self.committer_is_replaced_by(target),
            ReplaceFilterView::AuthorOrCommitter { .. } => self.author_is_replaced_by(target)
                && self.committer_is_replaced_by(target),
            ReplaceFilterView::AuthorAndCommitter { .. } => self.author_is_replaced_by(target)
                || self.committer_is_replaced_by(target),
        }
    }
}

/// The variables after a rewrite describe the commit after the rewrite.
pub proof fn lemma_rewritten_describes_commit(
    filter: ReplaceFilterView,
    target: ReplaceTargetView,
    vars: Variables,
)
    ensures
        commit_in(rewritten(filter, target, vars)) == rewritten_commit(
            filter,
            target,
            commit_in(vars),
        ),
{
    lemma_assign_applies(target, vars);
}

/// A commit that has been rewritten is no longer selected: where the
/// target takes away what the filter selects by, the condition of the
/// filter is false of every commit to which the content of the target has
/// been applied.
pub proof fn lemma_rewritten_commit_is_not_selected(
    filter: ReplaceFilterView,
    target: ReplaceTargetView,
    vars: Variables,
)
    requires
        filter.failure() is None,
        target.failure() is None,
        filter.is_undone_by(target),
    ensures
        perform(target.content(), vars) == Some(target.assign(vars)),
        evaluate(filter.condition(), target.assign(vars)) == Some(false),
        !filter.matches(target.apply(commit_in(vars))),
{
    lemma_content_performs(target, vars);
    lemma_assign_applies(target, vars);
    lemma_condition_decides_match(filter, target.assign(vars));
}

/// A second rewrite changes nothing: what one rewrite makes of a commit,
/// another leaves as it is.
pub proof fn lemma_rewrite_is_idempotent(
    filter: ReplaceFilterView,
    target: ReplaceTargetView,
    vars: Variables,
)
    ensures
        rewritten(filter, target, rewritten(filter, target, vars)) == rewritten(
            filter,
            target,
            vars,
        ),
        rewritten_commit(filter, target, rewritten_commit(filter, target, commit_in(vars)))
            == rewritten_commit(filter, target, commit_in(vars)),
{
    assert(target.assign(target.assign(vars)) =~= target.assign(vars));
    lemma_assign_applies(target, vars);
    lemma_assign_applies(target, target.assign(vars));
}

/// A simple replacement puts the new identity wherever the old one
/// stands, as author and as committer, and changes nothing else.
pub proof fn lemma_simple_rewrite_replaces(old: AuthorView, new: AuthorView, vars: Variables)
    ensures
        commit_in(simply_rewritten(old, new, vars)) == replaced_in(old, new, commit_in(vars)),
{
    lemma_assign_applies(
        ReplaceTargetView::AuthorAndCommitter { new_author: new, new_committer: new },
        vars,
    );
    lemma_assign_applies(ReplaceTargetView::Author { new_author: new }, vars);
    lemma_assign_applies(ReplaceTargetView::Committer { new_committer: new }, vars);
}

/// A second simple replacement changes nothing.
pub proof fn lemma_simple_rewrite_is_idempotent(old: AuthorView, new: AuthorView, vars: Variables)
    requires
        old.is_complete(),
        new.is_complete(),
    ensures
        simply_rewritten(old, new, simply_rewritten(old, new, vars)) == simply_rewritten(
            old,
            new,
            vars,
        ),
{
    lemma_variable_names();
    let once = simply_rewritten(old, new, vars);
    assert(simply_rewritten(old, new, once) =~= once);
}

} // verus!
