//! The script that a replacement hands to git.

use vstd::prelude::*;
use vstd::string::StringExecFns;
use super::author::{Author, AuthorView};
use super::replace_filter::{ReplaceFilter, ReplaceFilterView};
use super::replace_target::{ReplaceTarget, ReplaceTargetKind, ReplaceTargetView};
use super::validator::first_failure;
use crate::error::ReplaceError;

verus! {

/// One branch of a conditional, from its test on: the condition in
/// brackets, the content on a line of its own, and on the next line what
/// closes the branch.
pub open spec fn branch(condition: Seq<char>, content: Seq<char>, closing: Seq<char>) -> Seq<
    char,
> {
    "[ "@ + condition + " ]; then\n            "@ + content + "\n        "@ + closing
}

/// The script that performs `content` on each commit that meets
/// `condition`.
pub open spec fn conditional(condition: Seq<char>, content: Seq<char>) -> Seq<char> {
    "\n        if "@ + branch(condition, content, "fi"@)
}

/// The text of `branch`.
pub fn branch_format(condition: &str, content: &str, closing: &str) -> (text: String)
    ensures
        text@ == branch(condition@, content@, closing@),
{
    let mut text = "[ ".to_owned();
    text.append(condition);
    text.append(" ]; then\n            ");
    text.append(content);
    text.append("\n        ");
    text.append(closing);
    text
}

/// What `replace` returns.
pub open spec fn replace_script(filter: ReplaceFilterView, target: ReplaceTargetView) -> Seq<char> {
    conditional(filter.condition(), target.content())
}

/// Replaces committer and author from past commits in the current branch:
/// the script that rewrites each commit that `filter` selects as `target`
/// says.
pub fn replace(filter: ReplaceFilter, target: ReplaceTarget) -> (r: Result<String, ReplaceError>)
    ensures
        match r {
            Ok(script) => {
                &&& filter@.failure() is None
                &&& target@.failure() is None
                &&& script@ == replace_script(filter@, target@)
            },
            Err(ReplaceError::ConditionText(e)) => filter@.failure() == Some(e@),
            Err(ReplaceError::ProccessingContent(e)) => filter@.failure() is None
                && target@.failure() == Some(e@),
            Err(_) => false,
        },
{
    let condition = match filter.to_condition_text() {
        Ok(text) => text,
        Err(e) => {
            return Err(ReplaceError::ConditionText(e));
        },
    };
    let content = match target.to_proccessing_content_text() {
        Ok(text) => text,
        Err(e) => {
            return Err(ReplaceError::ProccessingContent(e));
        },
    };
    let mut script = "\n        if ".to_owned();
    script.append(branch_format(condition.as_str(), content.as_str(), "fi").as_str());
    Ok(script)
}

/// What `replace_simple` returns: the script that rewrites a commit by the
/// first that applies of: author and committer where both are `old`, the
/// author where the author is, the committer where the committer is.
pub open spec fn simple_script(old: AuthorView, new: AuthorView) -> Seq<char> {
    "\n        if "@ + branch(
        (ReplaceFilterView::AuthorAndCommitter { author: old, committer: old }).condition(),
        (ReplaceTargetView::AuthorAndCommitter { new_author: new, new_committer: new }).content(),
        "elif "@ + branch(
            ReplaceFilterView::AuthorOnly(old).condition(),
            (ReplaceTargetView::Author { new_author: new }).content(),
            "elif "@ + branch(
                ReplaceFilterView::CommitterOnly(old).condition(),
                (ReplaceTargetView::Committer { new_committer: new }).content(),
                "fi"@,
            ),
        ),
    )
}

/// Replaces committer and author from past commits in the current branch.
///
/// # Arguments
/// * `target` - Old AUTHOR or COMMITTER
/// * `new_author` - New AUTHOR or COMMITTER
pub fn replace_simple(target: Author, new_author: Author) -> (r: Result<String, ReplaceError>)
    ensures
        match r {
            Ok(script) => {
                &&& first_failure(Some(target@), Some(target@)) is None
                &&& first_failure(Some(new_author@), Some(new_author@)) is None
                &&& script@ == simple_script(target@, new_author@)
            },
            Err(ReplaceError::ConditionText(e)) => first_failure(Some(target@), Some(target@))
                == Some(e@),
            Err(ReplaceError::ProccessingContent(e)) => {
                &&& first_failure(Some(target@), Some(target@)) is None
                &&& first_failure(Some(new_author@), Some(new_author@)) == Some(e@)
            },
            Err(_) => false,
        },
{
    let both = match (ReplaceFilter::AuthorAndCommitter {
        author: target.clone(),
        committer: target.clone(),
    }).to_condition_text() {
        Ok(text) => text,
        Err(e) => {
            return Err(ReplaceError::ConditionText(e));
        },
    };
    let both_content = match (ReplaceTarget::AuthorAndCommitter {
        new_author: new_author.clone(),
        new_committer: new_author.clone(),
    }).to_proccessing_content_text() {
        Ok(text) => text,
        Err(e) => {
            return Err(ReplaceError::ProccessingContent(e));
        },
    };
    let author = match ReplaceFilter::AuthorOnly(target.clone()).to_condition_text() {
        Ok(text) => text,
        Err(e) => {
            return Err(ReplaceError::ConditionText(e));
        },
    };
    let author_content = match (ReplaceTarget::Author {
        new_author: new_author.clone(),
    }).to_proccessing_content_text() {
        Ok(text) => text,
        Err(e) => {
            return Err(ReplaceError::ProccessingContent(e));
        },
    };
    let committer = match ReplaceFilter::CommitterOnly(target).to_condition_text() {
        Ok(text) => text,
        Err(e) => {
            return Err(ReplaceError::ConditionText(e));
        },
    };
    let committer_content = match (ReplaceTarget::Committer {
        new_committer: new_author,
    }).to_proccessing_content_text() {
        Ok(text) => text,
        Err(e) => {
            return Err(ReplaceError::ProccessingContent(e));
        },
    };
    let mut last = "elif ".to_owned();
    last.append(branch_format(committer.as_str(), committer_content.as_str(), "fi").as_str());
    let mut second = "elif ".to_owned();
    second.append(branch_format(author.as_str(), author_content.as_str(), last.as_str()).as_str());
    let mut script = "\n        if ".to_owned();
    script.append(branch_format(both.as_str(), both_content.as_str(), second.as_str()).as_str());
    Ok(script)
}

/// The filter and the target that stand for a replacement of `old` by
/// `new` in the field that `kind` names.
pub open spec fn selection(kind: ReplaceTargetKind, old: AuthorView, new: AuthorView) -> (
    ReplaceFilterView,
    ReplaceTargetView,
) {
    match kind {
        ReplaceTargetKind::AuthorOnly => (
            ReplaceFilterView::AuthorOnly(old),
            ReplaceTargetView::Author { new_author: new },
        ),
        ReplaceTargetKind::CommitterOnly => (
            ReplaceFilterView::CommitterOnly(old),
            ReplaceTargetView::Committer { new_committer: new },
        ),
        ReplaceTargetKind::AuthorAndCommitter => (
            ReplaceFilterView::AuthorAndCommitter { author: old, committer: old },
            ReplaceTargetView::AuthorAndCommitter { new_author: new, new_committer: new },
        ),
    }
}

/// The script of a replacement of `old` by `new` in the field that `kind`
/// names; where it names both, in each field that holds `old`.
pub open spec fn selected_script(kind: ReplaceTargetKind, old: AuthorView, new: AuthorView) -> Seq<
    char,
> {
    match kind {
        ReplaceTargetKind::AuthorAndCommitter => simple_script(old, new),
        _ => replace_script(selection(kind, old, new).0, selection(kind, old, new).1),
    }
}

/// The script that replaces the identity `target` by `new_author` in the
/// field that `kind` names; where it names both, in each field that holds
/// `target`.
pub fn replace_target(kind: ReplaceTargetKind, target: Author, new_author: Author) -> (r: Result<
    String,
    ReplaceError,
>)
    ensures
        match r {
            Ok(script) => {
                &&& selection(kind, target@, new_author@).0.failure() is None
                &&& selection(kind, target@, new_author@).1.failure() is None
                &&& script@ == selected_script(kind, target@, new_author@)
            },
            Err(ReplaceError::ConditionText(e)) => selection(
                kind,
                target@,
                new_author@,
            ).0.failure() == Some(e@),
            Err(ReplaceError::ProccessingContent(e)) => {
                &&& selection(kind, target@, new_author@).0.failure() is None
                &&& selection(kind, target@, new_author@).1.failure() == Some(e@)
            },
            Err(_) => false,
        },
{
    match kind {
        ReplaceTargetKind::AuthorOnly => replace(
            ReplaceFilter::AuthorOnly(target),
            ReplaceTarget::Author { new_author },
        ),
        ReplaceTargetKind::CommitterOnly => replace(
            ReplaceFilter::CommitterOnly(target),
            ReplaceTarget::Committer { new_committer: new_author },
        ),
        ReplaceTargetKind::AuthorAndCommitter => replace_simple(target, new_author),
    }
}

} // verus!
