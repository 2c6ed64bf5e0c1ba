//! How the shell runs a conditional whose tests are comparisons and whose
//! bodies are assignments.

use vstd::prelude::*;
use super::{disjunction, perform_line, read_command, Variables};

verus! {

/// The characters that may stand between the parts of a conditional.
pub open spec fn is_blank(c: char) -> bool {
    c == ' ' || c == '\n'
}

/// `text` without the blanks that it begins with.
pub open spec fn skip_blanks(text: Seq<char>) -> Seq<char>
    decreases text.len(),
{
    if text.len() > 0 && is_blank(text[0]) {
        skip_blanks(text.drop_first())
    } else {
        text
    }
}

/// Whether `text` begins with `start`.
pub open spec fn begins_with(text: Seq<char>, start: Seq<char>) -> bool {
    start.len() <= text.len() && text.subrange(0, start.len() as int) == start
}

/// The value of the command `[` with its arguments: the test that stands
/// between `[` and `]`.
pub open spec fn bracket(words: Seq<Seq<char>>) -> Option<bool> {
    if words.len() >= 2 && words.first() == "["@ && words.last() == "]"@ {
        disjunction(words.subrange(1, words.len() - 1))
    } else {
        None
    }
}

/// What the shell does with the branches of a conditional, from the test
/// of the first of them on: a test in brackets, `; then`, a line of
/// assignments, and then what closes the branch. The variables after it
/// are those after the assignments of the first branch whose test holds,
/// and the same as before where none holds. `None` where the text is
/// anything else.
pub open spec fn run_branches(text: Seq<char>, vars: Variables) -> Option<Variables>
    decreases text.len(), 1int,
{
    match read_command(text, vars) {
        Some((words, taken)) => match bracket(words) {
            Some(holds) => {
                let after = text.skip(taken);
                if 0 < taken <= text.len() && begins_with(after, "; then"@) {
                    let body = skip_blanks(after.skip("; then"@.len() as int));
                    match perform_line(body, vars) {
                        Some((done, length)) => {
                            let closing = skip_blanks(body.skip(length));
                            if closing.len() < text.len() {
                                match otherwise(closing, vars) {
                                    Some(other) => Some(
                                        if holds {
                                            done
                                        } else {
                                            other
                                        },
                                    ),
                                    None => None,
                                }
                            } else {
                                None
                            }
                        },
                        None => None,
                    }
                } else {
                    None
                }
            },
            None => None,
        },
        None => None,
    }
}

/// What the shell does after a branch whose test does not hold, told by
/// what closes the branch: nothing after `fi`, and what the branches to
/// come do after `elif`.
pub open spec fn otherwise(closing: Seq<char>, vars: Variables) -> Option<Variables>
    decreases closing.len(), 0int,
{
    if begins_with(closing, "fi"@) && skip_blanks(closing.skip("fi"@.len() as int)).len() == 0 {
        Some(vars)
    } else if begins_with(closing, "elif "@) && 0 < "elif "@.len() <= closing.len() {
        run_branches(closing.skip("elif "@.len() as int), vars)
    } else {
        None
    }
}

/// What the shell does with a script that is one conditional.
pub open spec fn run(script: Seq<char>, vars: Variables) -> Option<Variables> {
    let start = skip_blanks(script);
    if begins_with(start, "if "@) {
        run_branches(start.skip("if "@.len() as int), vars)
    } else {
        None
    }
}

/// Blanks before a text that begins with another character are skipped
/// and nothing more.
pub proof fn lemma_skip_blanks(blanks: Seq<char>, rest: Seq<char>)
    requires
        forall|i: int| 0 <= i < blanks.len() ==> is_blank(#[trigger] blanks[i]),
        rest.len() == 0 || !is_blank(rest[0]),
    ensures
        skip_blanks(blanks + rest) == rest,
    decreases blanks.len(),
{
    let text = blanks + rest;
    if blanks.len() == 0 {
        assert(text =~= rest);
    } else {
        assert(text[0] == blanks[0]);
        assert(text.drop_first() =~= blanks.drop_first() + rest);
        assert forall|i: int| 0 <= i < blanks.drop_first().len() implies is_blank(
            #[trigger] blanks.drop_first()[i],
        ) by {
            assert(blanks.drop_first()[i] == blanks[i + 1]);
        }
        lemma_skip_blanks(blanks.drop_first(), rest);
    }
}

} // verus!
