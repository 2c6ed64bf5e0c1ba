//! What the shell does with the script of a replacement.

use vstd::prelude::*;
use super::author::AuthorView;
use super::condition::{commit_in, lemma_condition_reads_as_words, lemma_words_decide_match};
use super::content::{lemma_content_begins_with_name, lemma_content_performs};
use super::replace_filter::ReplaceFilterView;
use super::replace_target::ReplaceTargetView;
use super::rewrite::{
    lemma_rewrite_is_idempotent, lemma_simple_rewrite_is_idempotent, rewritten,
    simply_rewritten,
};
use super::script::{branch, replace_script, simple_script};
use super::validator::first_failure;
use crate::shell::{
    begins_with, bracket, is_blank, is_plain_text, lemma_command_after_blank,
    lemma_command_after_word, lemma_perform_line_extends, lemma_read_command_extends,
    lemma_skip_blanks, lemma_word_of_plain, otherwise, perform_line, read_command, run,
    run_branches, skip_blanks, Variables,
};

verus! {

/// A line feed and `n` blanks after it.
spec fn indent(n: nat) -> Seq<char> {
    seq!['\n'] + Seq::new(n, |i: int| ' ')
}

/// The fixed parts of a script, as characters.
proof fn lemma_layout()
    ensures
        "\n        if "@ == indent(8) + "if "@,
        "[ "@ == seq!['[', ' '],
        " ]; then\n            "@ == seq![' ', ']'] + "; then"@ + indent(12),
        "\n        "@ == indent(8),
        "["@ == seq!['['],
        "]"@ == seq![']'],
        "; then"@.len() == 6 && "; then"@[0] == ';',
        "if "@.len() == 3 && "if "@[0] == 'i',
        "fi"@.len() == 2 && "fi"@[0] == 'f',
        "elif "@.len() == 5 && "elif "@[0] == 'e',
{
    reveal_strlit("\n        if ");
    reveal_strlit("[ ");
    reveal_strlit(" ]; then\n            ");
    reveal_strlit("\n        ");
    reveal_strlit("[");
    reveal_strlit("]");
    reveal_strlit("; then");
    reveal_strlit("if ");
    reveal_strlit("fi");
    reveal_strlit("elif ");
    assert("\n        if "@ =~= indent(8) + "if "@);
    assert("[ "@ =~= seq!['[', ' ']);
    assert(" ]; then\n            "@ =~= seq![' ', ']'] + "; then"@ + indent(12));
    assert("\n        "@ =~= indent(8));
    assert("["@ =~= seq!['[']);
    assert("]"@ =~= seq![']']);
}

/// What follows the condition in a branch: the closing bracket, `; then`,
/// and the content on a line of its own before what closes the branch.
spec fn after_condition(content: Seq<char>, closing: Seq<char>) -> Seq<char> {
    seq![' ', ']'] + then_line(content, closing)
}

/// What follows the test in a branch.
spec fn then_line(content: Seq<char>, closing: Seq<char>) -> Seq<char> {
    "; then"@ + (indent(12) + (content + (indent(8) + closing)))
}

/// A branch is a bracket, a blank, the condition and what follows it.
proof fn lemma_branch_parts(condition: Seq<char>, content: Seq<char>, closing: Seq<char>)
    ensures
        branch(condition, content, closing) == seq!['[', ' '] + (condition + after_condition(
            content,
            closing,
        )),
{
    lemma_layout();
    assert(branch(condition, content, closing) =~= seq!['[', ' '] + (condition + after_condition(
        content,
        closing,
    )));
}

/// The test of a branch is one command, in which the words of the filter
/// stand between brackets: its value tells whether the filter selects the
/// commit at hand.
proof fn lemma_branch_test(
    filter: ReplaceFilterView,
    content: Seq<char>,
    closing: Seq<char>,
    vars: Variables,
)
    requires
        filter.failure() is None,
    ensures
        read_command(branch(filter.condition(), content, closing), vars) matches Some(
            (words, taken),
        ) && taken == filter.condition().len() + 4 && bracket(words) == Some(
            filter.matches(commit_in(vars)),
        ),
{
    lemma_layout();
    let condition = filter.condition();
    let commit = commit_in(vars);
    let after = then_line(content, closing);
    let tail = seq![' '] + (seq![']'] + after);
    let none = Seq::<Seq<char>>::empty();
    lemma_branch_parts(condition, content, closing);
    assert(after_condition(content, closing) =~= tail);
    assert(seq!['[', ' '] + (condition + tail) =~= seq!['['] + (seq![' '] + (condition + tail)));
    assert(is_plain_text(seq!['[']));
    lemma_word_of_plain(seq!['['], seq![' '] + (condition + tail), vars);
    lemma_command_after_word(seq!['['], seq!['['], seq![' '] + (condition + tail), vars);
    lemma_command_after_blank(condition + tail, vars);
    lemma_condition_reads_as_words(filter, vars);
    lemma_read_command_extends(condition, tail, vars);
    lemma_command_after_blank(seq![']'] + after, vars);
    assert(is_plain_text(seq![']']));
    assert(after[0] == ';');
    lemma_word_of_plain(seq![']'], after, vars);
    lemma_command_after_word(seq![']'], seq![']'], after, vars);
    assert(read_command(after, vars) == Some((none, 0int)));
    let words = seq!["["@] + filter.words(commit) + seq!["]"@];
    assert(seq![seq!['[']] + (none + (filter.words(commit) + (none + (seq![seq![']']] + none))))
        =~= words);
    assert(words.subrange(1, words.len() - 1) =~= filter.words(commit));
    lemma_words_decide_match(filter, commit);
}

/// The body of a branch is one line, on which the identities of the
/// target are assigned, and after which comes what closes the branch.
proof fn lemma_branch_body(target: ReplaceTargetView, closing: Seq<char>, vars: Variables)
    requires
        target.failure() is None,
        closing.len() > 0,
        !is_blank(closing[0]),
    ensures
        begins_with(then_line(target.content(), closing), "; then"@),
        perform_line(
            skip_blanks(then_line(target.content(), closing).skip("; then"@.len() as int)),
            vars,
        ) == Some((target.assign(vars), target.content().len() as int)),
        skip_blanks(
            skip_blanks(then_line(target.content(), closing).skip("; then"@.len() as int)).skip(
                target.content().len() as int,
            ),
        ) == closing,
{
    lemma_layout();
    let content = target.content();
    let line = content + (indent(8) + closing);
    let after = then_line(content, closing);
    assert(after.subrange(0, 6) =~= "; then"@);
    assert(after.skip(6) =~= indent(12) + line);
    lemma_content_begins_with_name(target);
    assert(line[0] == content[0]);
    lemma_skip_blanks(indent(12), line);
    lemma_content_performs(target, vars);
    assert((indent(8) + closing)[0] == '\n');
    lemma_perform_line_extends(content, indent(8) + closing, vars);
    assert(line.skip(content.len() as int) =~= indent(8) + closing);
    lemma_skip_blanks(indent(8), closing);
}

/// The shell runs a branch of a filter and a target as the two say: the
/// identities of the target are assigned where the filter selects the
/// commit at hand, and the shell goes on with what closes the branch where
/// it does not.
pub proof fn lemma_branch_runs(
    filter: ReplaceFilterView,
    target: ReplaceTargetView,
    closing: Seq<char>,
    vars: Variables,
)
    requires
        filter.failure() is None,
        target.failure() is None,
        closing.len() > 0,
        !is_blank(closing[0]),
    ensures
        run_branches(branch(filter.condition(), target.content(), closing), vars) == match otherwise(
            closing,
            vars,
        ) {
            Some(other) => Some(
                if filter.matches(commit_in(vars)) {
                    target.assign(vars)
                } else {
                    other
                },
            ),
            None => None,
        },
{
    let text = branch(filter.condition(), target.content(), closing);
    let taken = filter.condition().len() as int + 4;
    lemma_branch_test(filter, target.content(), closing, vars);
    lemma_branch_body(target, closing, vars);
    lemma_branch_parts(filter.condition(), target.content(), closing);
    assert(text.skip(taken) =~= then_line(target.content(), closing));
    assert("elif "@.len() == 5) by {
        reveal_strlit("elif ");
    }
}

/// The shell runs the script of a replacement as one rewrite: the
/// identities of the target are assigned where the filter selects the
/// commit at hand, and nothing is changed where it does not. No name and
/// no email address, whatever characters it holds, makes the shell do
/// anything else.
pub proof fn lemma_script_runs(
    filter: ReplaceFilterView,
    target: ReplaceTargetView,
    vars: Variables,
)
    requires
        filter.failure() is None,
        target.failure() is None,
    ensures
        run(replace_script(filter, target), vars) == Some(rewritten(filter, target, vars)),
{
    lemma_layout();
    lemma_run_begins(branch(filter.condition(), target.content(), "fi"@), vars);
    lemma_branch_runs(filter, target, "fi"@, vars);
    lemma_closed("fi"@, vars);
}

/// After `fi` nothing more is done.
proof fn lemma_closed(closing: Seq<char>, vars: Variables)
    requires
        closing == "fi"@,
    ensures
        otherwise(closing, vars) == Some(vars),
{
    lemma_layout();
    assert(closing.subrange(0, 2) =~= "fi"@);
    assert(closing.skip(2) =~= Seq::<char>::empty());
}

/// After `elif` the branches to come are run.
proof fn lemma_continued(more: Seq<char>, vars: Variables)
    ensures
        otherwise("elif "@ + more, vars) == run_branches(more, vars),
        ("elif "@ + more).len() > 0,
        !is_blank(("elif "@ + more)[0]),
{
    lemma_layout();
    let closing = "elif "@ + more;
    assert(closing[0] == 'e' && closing[1] == 'l') by {
        reveal_strlit("elif ");
    }
    assert("fi"@[0] == 'f');
    assert(closing.subrange(0, 2)[0] == closing[0]);
    assert(closing.subrange(0, 5) =~= "elif "@);
    assert(closing.skip(5) =~= more);
}

/// A script begins with a line feed, blanks and `if`, after which its
/// branches are run.
proof fn lemma_run_begins(branches: Seq<char>, vars: Variables)
    ensures
        run("\n        if "@ + branches, vars) == run_branches(branches, vars),
{
    lemma_layout();
    let script = "\n        if "@ + branches;
    assert(script =~= indent(8) + ("if "@ + branches));
    assert(("if "@ + branches)[0] == 'i');
    lemma_skip_blanks(indent(8), "if "@ + branches);
    assert(("if "@ + branches).subrange(0, 3) =~= "if "@);
    assert(("if "@ + branches).skip(3) =~= branches);
}

/// The shell runs the script of a simple replacement as the first that
/// applies of its three rewrites.
pub proof fn lemma_simple_script_runs(old: AuthorView, new: AuthorView, vars: Variables)
    requires
        first_failure(Some(old), Some(old)) is None,
        first_failure(Some(new), Some(new)) is None,
    ensures
        run(simple_script(old, new), vars) == Some(simply_rewritten(old, new, vars)),
{
    let commit = commit_in(vars);
    let both = ReplaceFilterView::AuthorAndCommitter { author: old, committer: old };
    let both_new = ReplaceTargetView::AuthorAndCommitter { new_author: new, new_committer: new };
    let author = ReplaceFilterView::AuthorOnly(old);
    let author_new = ReplaceTargetView::Author { new_author: new };
    let committer = ReplaceFilterView::CommitterOnly(old);
    let committer_new = ReplaceTargetView::Committer { new_committer: new };
    let third = branch(committer.condition(), committer_new.content(), "fi"@);
    let second = branch(author.condition(), author_new.content(), "elif "@ + third);
    let first = branch(both.condition(), both_new.content(), "elif "@ + second);
    let last = rewritten(committer, committer_new, vars);
    let middle = if author.matches(commit) {
        author_new.assign(vars)
    } else {
        last
    };
    assert(run_branches(third, vars) == Some(last)) by {
        lemma_layout();
        lemma_closed("fi"@, vars);
        lemma_branch_runs(committer, committer_new, "fi"@, vars);
    }
    assert(run_branches(second, vars) == Some(middle)) by {
        lemma_continued(third, vars);
        lemma_branch_runs(author, author_new, "elif "@ + third, vars);
    }
    assert(run_branches(first, vars) == Some(simply_rewritten(old, new, vars))) by {
        lemma_continued(second, vars);
        lemma_branch_runs(both, both_new, "elif "@ + second, vars);
    }
    lemma_run_begins(first, vars);
}

/// To run the script of a replacement on what it has made of a commit
/// changes nothing.
pub proof fn lemma_script_is_idempotent(
    filter: ReplaceFilterView,
    target: ReplaceTargetView,
    vars: Variables,
)
    requires
        filter.failure() is None,
        target.failure() is None,
    ensures
        run(replace_script(filter, target), vars) matches Some(once) && run(
            replace_script(filter, target),
            once,
        ) == Some(once),
{
    lemma_script_runs(filter, target, vars);
    lemma_rewrite_is_idempotent(filter, target, vars);
    lemma_script_runs(filter, target, rewritten(filter, target, vars));
}

/// To run the script of a simple replacement on what it has made of a
/// commit changes nothing.
pub proof fn lemma_simple_script_is_idempotent(old: AuthorView, new: AuthorView, vars: Variables)
    requires
        first_failure(Some(old), Some(old)) is None,
        first_failure(Some(new), Some(new)) is None,
    ensures
        run(simple_script(old, new), vars) matches Some(once) && run(
            simple_script(old, new),
            once,
        ) == Some(once),
{
    lemma_simple_script_runs(old, new, vars);
    lemma_simple_rewrite_is_idempotent(old, new, vars);
    lemma_simple_script_runs(old, new, simply_rewritten(old, new, vars));
}

} // verus!
