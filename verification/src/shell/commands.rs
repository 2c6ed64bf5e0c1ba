//! What two kinds of command do: a test of comparisons, and a line of
//! assignments.

use vstd::prelude::*;
use super::{
    is_name, lemma_name_prefix_extends, lemma_read_word_extends, name_prefix, read_word,
    read_words, Variables,
};

verus! {

/// The value of the comparisons with which `words` begin, as far as `-a`
/// joins them, and the number of words that they take. A comparison is
/// three words, the second of them `=`, and holds where the first and the
/// third are equal.
pub open spec fn conjunction(words: Seq<Seq<char>>) -> Option<(bool, int)>
    decreases words.len(),
{
    if words.len() >= 3 && words[1] == "="@ {
        let holds = words[0] == words[2];
        if words.len() > 3 && words[3] == "-a"@ {
            match conjunction(words.skip(4)) {
                Some((rest, taken)) => Some((holds && rest, taken + 4)),
                None => None,
            }
        } else {
            Some((holds, 3))
        }
    } else {
        None
    }
}

/// The value of a test whose arguments are `words`: comparisons that `-a`
/// and `-o` join, of which `-a` binds closer. The words are taken by their
/// places: none of them is looked at to see whether it could be an
/// operator where an operand is due. `None` where the words are no such
/// test.
pub open spec fn disjunction(words: Seq<Seq<char>>) -> Option<bool>
    decreases words.len(),
{
    match conjunction(words) {
        Some((holds, taken)) => if taken == words.len() {
            Some(holds)
        } else if 0 < taken < words.len() && words[taken] == "-o"@ {
            match disjunction(words.skip(taken + 1)) {
                Some(rest) => Some(holds || rest),
                None => None,
            }
        } else {
            None
        },
        None => None,
    }
}

/// The value of the test whose arguments are written in `text`, in a shell
/// whose variables are `vars`.
pub open spec fn evaluate(text: Seq<char>, vars: Variables) -> Option<bool> {
    match read_words(text, vars) {
        Some(words) => disjunction(words),
        None => None,
    }
}

/// The variables after a step of a line of assignments, and the
/// characters that the line has taken with that step.
pub open spec fn then_performed(taken: int, rest: Option<(Variables, int)>) -> Option<
    (Variables, int),
> {
    match rest {
        Some((vars, n)) => Some((vars, taken + n)),
        None => None,
    }
}

/// How the shell performs the line of assignments with which `text`
/// begins: the variables after it, and the number of characters up to the
/// end of the line. An assignment is a name, `=` and a word; blanks and
/// `;` stand between assignments. `None` where the line is anything else.
pub open spec fn perform_line(text: Seq<char>, vars: Variables) -> Option<(Variables, int)>
    decreases text.len(),
{
    if text.len() == 0 || text[0] == '\n' {
        Some((vars, 0))
    } else if text[0] == ' ' || text[0] == ';' {
        then_performed(1, perform_line(text.drop_first(), vars))
    } else {
        let name = name_prefix(text);
        let length = name.len() as int;
        if is_name(name) && length < text.len() && text[length] == '=' {
            match read_word(text.skip(length + 1), vars) {
                Some((value, taken)) => if 0 <= taken && length + 1 + taken <= text.len() {
                    then_performed(
                        length + 1 + taken,
                        perform_line(text.skip(length + 1 + taken), vars.insert(name, value)),
                    )
                } else {
                    None
                },
                None => None,
            }
        } else {
            None
        }
    }
}

/// The variables after the shell has performed a text that is one line of
/// assignments.
pub open spec fn perform(text: Seq<char>, vars: Variables) -> Option<Variables> {
    match perform_line(text, vars) {
        Some((done, taken)) => if taken == text.len() {
            Some(done)
        } else {
            None
        },
        None => None,
    }
}

/// What the shell performs of a line is within the line.
pub proof fn lemma_line_length(text: Seq<char>, vars: Variables)
    ensures
        perform_line(text, vars) matches Some((_, taken)) ==> 0 <= taken <= text.len(),
    decreases text.len(),
{
    if text.len() == 0 || text[0] == '\n' {
    } else if text[0] == ' ' || text[0] == ';' {
        lemma_line_length(text.drop_first(), vars);
    } else {
        let name = name_prefix(text);
        let length = name.len() as int;
        if is_name(name) && length < text.len() && text[length] == '=' {
            match read_word(text.skip(length + 1), vars) {
                Some((value, taken)) => {
                    if 0 <= taken && length + 1 + taken <= text.len() {
                        lemma_line_length(
                            text.skip(length + 1 + taken),
                            vars.insert(name, value),
                        );
                    }
                },
                None => {},
            }
        }
    }
}

/// A text that is one line of assignments, before the end of the line:
/// the shell performs the line and stops there.
pub proof fn lemma_perform_line_extends(text: Seq<char>, tail: Seq<char>, vars: Variables)
    requires
        perform(text, vars) is Some,
        tail.len() == 0 || tail[0] == '\n',
    ensures
        perform_line(text + tail, vars) == Some((perform(text, vars)->0, text.len() as int)),
    decreases text.len(),
{
    let longer = text + tail;
    if text.len() == 0 {
        assert(longer =~= tail);
    } else {
        assert(longer[0] == text[0]);
        if text[0] == ' ' || text[0] == ';' {
            assert(longer.drop_first() =~= text.drop_first() + tail);
            lemma_line_length(text.drop_first(), vars);
            lemma_perform_line_extends(text.drop_first(), tail, vars);
        } else {
            let name = name_prefix(text);
            let length = name.len() as int;
            lemma_name_prefix_extends(text, tail);
            assert(longer[length] == text[length]);
            let value = (read_word(text.skip(length + 1), vars)->0).0;
            let taken = (read_word(text.skip(length + 1), vars)->0).1;
            assert(longer.skip(length + 1) =~= text.skip(length + 1) + tail);
            lemma_read_word_extends(text.skip(length + 1), tail, vars);
            let rest = text.skip(length + 1 + taken);
            assert(longer.skip(length + 1 + taken) =~= rest + tail);
            lemma_line_length(rest, vars.insert(name, value));
            lemma_perform_line_extends(rest, tail, vars.insert(name, value));
        }
    }
}

} // verus!
