//! How the shell splits a line into words.

use vstd::prelude::*;
use super::quotes::{
    is_name, is_name_char, lemma_quoted_reads_back, lemma_read_quoted_extends,
    lemma_reference_reads, read_quoted, then_read, value_of, Variables,
};
use super::{escaped, is_embeddable, quoted};

verus! {

/// The characters that end a word.
pub open spec fn ends_word(c: char) -> bool {
    c == ' ' || c == '\t' || c == '\n' || c == ';'
}

/// The characters that end a command.
pub open spec fn ends_command(c: char) -> bool {
    c == '\n' || c == ';'
}

/// The characters that a word may hold outside quotes, as far as the
/// scripts of this crate go: those of names, `-`, `=`, `[` and `]`.
pub open spec fn is_plain(c: char) -> bool {
    is_name_char(c) || c == '-' || c == '=' || c == '[' || c == ']'
}

/// A text of plain characters.
pub open spec fn is_plain_text(s: Seq<char>) -> bool {
    forall|i: int| 0 <= i < s.len() ==> is_plain(#[trigger] s[i])
}

/// A text at which a word ends: the end of the line, or a character that
/// ends a word.
pub open spec fn is_word_end(rest: Seq<char>) -> bool {
    rest.len() == 0 || ends_word(rest[0])
}

/// How the shell reads the word with which `text` begins: its value and
/// the number of characters that it takes. A word is made of plain
/// characters and of double-quoted parts, and lasts up to the end of the
/// line or a character that ends a word. `None` where the text is outside
/// this description.
pub open spec fn read_word(text: Seq<char>, vars: Variables) -> Option<(Seq<char>, int)>
    decreases text.len(),
{
    if text.len() == 0 || ends_word(text[0]) {
        Some((Seq::empty(), 0))
    } else if text[0] == '"' {
        match read_quoted(text.drop_first(), vars) {
            Some((value, taken)) => if 0 < taken < text.len() {
                then_read(value, 1 + taken, read_word(text.skip(1 + taken), vars))
            } else {
                None
            },
            None => None,
        }
    } else if is_plain(text[0]) {
        then_read(seq![text[0]], 1, read_word(text.drop_first(), vars))
    } else {
        None
    }
}

/// Words that have been read, before what the rest of a command reads
/// as: the words and the numbers of characters taken add up.
pub open spec fn with_words(
    words: Seq<Seq<char>>,
    taken: int,
    rest: Option<(Seq<Seq<char>>, int)>,
) -> Option<(Seq<Seq<char>>, int)> {
    match rest {
        Some((more, n)) => Some((words + more, taken + n)),
        None => None,
    }
}

/// How the shell reads the command with which `text` begins: the values
/// of its words, which blanks separate, up to the end of the text or a
/// character that ends a command, and the number of characters that they
/// take.
pub open spec fn read_command(text: Seq<char>, vars: Variables) -> Option<
    (Seq<Seq<char>>, int),
>
    decreases text.len(),
{
    if text.len() == 0 || ends_command(text[0]) {
        Some((Seq::empty(), 0))
    } else if text[0] == ' ' {
        with_words(Seq::empty(), 1, read_command(text.drop_first(), vars))
    } else {
        match read_word(text, vars) {
            Some((value, taken)) => if 0 < taken <= text.len() {
                with_words(seq![value], taken, read_command(text.skip(taken), vars))
            } else {
                None
            },
            None => None,
        }
    }
}

/// How the shell reads a text that is one command: the values of its
/// words, in order.
pub open spec fn read_words(text: Seq<char>, vars: Variables) -> Option<Seq<Seq<char>>> {
    match read_command(text, vars) {
        Some((words, taken)) => if taken == text.len() {
            Some(words)
        } else {
            None
        },
        None => None,
    }
}

/// A quoted reference to a variable is a word whose value is the value of
/// the variable.
pub proof fn lemma_word_of_reference(name: Seq<char>, rest: Seq<char>, vars: Variables)
    requires
        is_name(name),
        is_word_end(rest),
    ensures
        read_word(seq!['"', '$'] + name + seq!['"'] + rest, vars) == Some(
            (value_of(vars, name), name.len() as int + 3),
        ),
{
    let text = seq!['"', '$'] + name + seq!['"'] + rest;
    lemma_reference_reads(name, rest, vars);
    assert(text[0] == '"');
    assert(text.drop_first() =~= seq!['$'] + name + seq!['"'] + rest);
    assert(text.skip(1 + (name.len() as int + 2)) =~= rest);
    assert(read_word(rest, vars) == Some((Seq::<char>::empty(), 0int)));
    assert(value_of(vars, name) + Seq::<char>::empty() =~= value_of(vars, name));
}

/// A quoted text is a word whose value is the text.
pub proof fn lemma_word_of_quoted(s: Seq<char>, rest: Seq<char>, vars: Variables)
    requires
        is_embeddable(s),
        is_word_end(rest),
    ensures
        read_word(quoted(s) + rest, vars) == Some((s, quoted(s).len() as int)),
{
    let text = quoted(s) + rest;
    lemma_quoted_reads_back(s, rest, vars);
    assert(quoted(s).len() == escaped(s).len() + 2);
    assert(text[0] == '"');
    assert(text.drop_first() =~= escaped(s) + seq!['"'] + rest);
    assert(text.skip(1 + (escaped(s).len() as int + 1)) =~= rest);
    assert(read_word(rest, vars) == Some((Seq::<char>::empty(), 0int)));
    assert(s + Seq::<char>::empty() =~= s);
}

/// A plain text is a word whose value is the text.
pub proof fn lemma_word_of_plain(s: Seq<char>, rest: Seq<char>, vars: Variables)
    requires
        is_plain_text(s),
        is_word_end(rest),
    ensures
        read_word(s + rest, vars) == Some((s, s.len() as int)),
    decreases s.len(),
{
    let text = s + rest;
    if s.len() == 0 {
        assert(text =~= rest);
        assert(s =~= Seq::<char>::empty());
    } else {
        assert(text[0] == s[0]);
        assert(is_plain(s[0]));
        assert(text.drop_first() =~= s.drop_first() + rest);
        assert forall|i: int| 0 <= i < s.drop_first().len() implies is_plain(
            #[trigger] s.drop_first()[i],
        ) by {
            assert(s.drop_first()[i] == s[i + 1]);
        }
        lemma_word_of_plain(s.drop_first(), rest, vars);
        assert(seq![s[0]] + s.drop_first() =~= s);
    }
}

/// A value before the values of the words that follow it.
pub open spec fn before(value: Seq<char>, words: Option<Seq<Seq<char>>>) -> Option<
    Seq<Seq<char>>,
> {
    match words {
        Some(words) => Some(seq![value] + words),
        None => None,
    }
}

/// A text that follows a word on a line: nothing, or a blank and more.
pub open spec fn follows_word(rest: Seq<char>) -> bool {
    rest.len() == 0 || rest[0] == ' '
}

/// What the shell reads of a command is within the command.
pub proof fn lemma_command_length(text: Seq<char>, vars: Variables)
    ensures
        read_command(text, vars) matches Some((_, taken)) ==> 0 <= taken <= text.len(),
    decreases text.len(),
{
    if text.len() == 0 || ends_command(text[0]) {
    } else if text[0] == ' ' {
        lemma_command_length(text.drop_first(), vars);
    } else {
        match read_word(text, vars) {
            Some((value, taken)) => {
                if 0 < taken <= text.len() {
                    lemma_command_length(text.skip(taken), vars);
                }
            },
            None => {},
        }
    }
}

/// A command that begins with a word reads as that word before what the
/// rest of the command reads as.
pub proof fn lemma_command_after_word(
    word: Seq<char>,
    value: Seq<char>,
    rest: Seq<char>,
    vars: Variables,
)
    requires
        word.len() > 0,
        word[0] != ' ',
        read_word(word + rest, vars) == Some((value, word.len() as int)),
    ensures
        read_command(word + rest, vars) == with_words(
            seq![value],
            word.len() as int,
            read_command(rest, vars),
        ),
{
    let text = word + rest;
    assert(text[0] == word[0]);
    assert(text.skip(word.len() as int) =~= rest);
}

/// A blank before a command takes one character and adds no word.
pub proof fn lemma_command_after_blank(rest: Seq<char>, vars: Variables)
    ensures
        read_command(seq![' '] + rest, vars) == with_words(
            Seq::empty(),
            1,
            read_command(rest, vars),
        ),
{
    let text = seq![' '] + rest;
    assert(text[0] == ' ');
    assert(text.drop_first() =~= rest);
}

/// A line that begins with a word reads as that word before what the rest
/// of the line reads as.
pub proof fn lemma_words_after_word(
    word: Seq<char>,
    value: Seq<char>,
    rest: Seq<char>,
    vars: Variables,
)
    requires
        word.len() > 0,
        word[0] != ' ',
        follows_word(rest),
        read_word(word + rest, vars) == Some((value, word.len() as int)),
    ensures
        read_words(word + rest, vars) == before(value, read_words(rest, vars)),
{
    lemma_command_after_word(word, value, rest, vars);
    lemma_command_length(rest, vars);
}

/// A blank before a line changes nothing.
pub proof fn lemma_words_after_blank(rest: Seq<char>, vars: Variables)
    ensures
        read_words(seq![' '] + rest, vars) == read_words(rest, vars),
{
    lemma_command_after_blank(rest, vars);
    match read_command(rest, vars) {
        Some((words, taken)) => {
            assert(Seq::<Seq<char>>::empty() + words =~= words);
        },
        None => {},
    }
}

/// The word with which a text begins stays the same when more text
/// follows, as long as the word ends within the text or the text that
/// follows ends it.
pub proof fn lemma_read_word_extends(text: Seq<char>, tail: Seq<char>, vars: Variables)
    requires
        read_word(text, vars) matches Some((_, taken)) && (taken < text.len() || is_word_end(
            tail,
        )),
    ensures
        read_word(text + tail, vars) == read_word(text, vars),
        read_word(text, vars) matches Some((_, taken)) && 0 <= taken <= text.len(),
    decreases text.len(),
{
    let longer = text + tail;
    if text.len() == 0 {
        assert(longer =~= tail);
    } else {
        assert(longer[0] == text[0]);
        if ends_word(text[0]) {
        } else if text[0] == '"' {
            let taken = (read_quoted(text.drop_first(), vars)->0).1;
            assert(longer.drop_first() =~= text.drop_first() + tail);
            lemma_read_quoted_extends(text.drop_first(), tail, vars);
            assert(longer.skip(1 + taken) =~= text.skip(1 + taken) + tail);
            lemma_read_word_extends(text.skip(1 + taken), tail, vars);
        } else {
            assert(longer.drop_first() =~= text.drop_first() + tail);
            lemma_read_word_extends(text.drop_first(), tail, vars);
        }
    }
}

/// A text that reads as one command, before more text: the words of the
/// command come before what the text that follows reads as.
pub proof fn lemma_read_command_extends(text: Seq<char>, tail: Seq<char>, vars: Variables)
    requires
        read_words(text, vars) is Some,
        is_word_end(tail),
    ensures
        read_command(text + tail, vars) == with_words(
            read_words(text, vars)->0,
            text.len() as int,
            read_command(tail, vars),
        ),
    decreases text.len(),
{
    let longer = text + tail;
    let none = Seq::<Seq<char>>::empty();
    if text.len() == 0 {
        assert(longer =~= tail);
        match read_command(tail, vars) {
            Some((words, taken)) => {
                assert(none + words =~= words);
            },
            None => {},
        }
    } else {
        assert(longer[0] == text[0]);
        if text[0] == ' ' {
            assert(longer.drop_first() =~= text.drop_first() + tail);
            lemma_command_length(text.drop_first(), vars);
            lemma_read_command_extends(text.drop_first(), tail, vars);
            let words = read_words(text, vars)->0;
            assert(none + words =~= words);
            assert(read_words(text.drop_first(), vars)->0 =~= words);
            match read_command(tail, vars) {
                Some((more, taken)) => {
                    assert(none + (words + more) =~= words + more);
                },
                None => {},
            }
        } else {
            let value = (read_word(text, vars)->0).0;
            let taken = (read_word(text, vars)->0).1;
            let rest = text.skip(taken);
            lemma_command_length(rest, vars);
            lemma_read_word_extends(text, tail, vars);
            assert(longer.skip(taken) =~= rest + tail);
            lemma_read_command_extends(rest, tail, vars);
            let words = read_words(rest, vars)->0;
            match read_command(tail, vars) {
                Some((more, n)) => {
                    assert(seq![value] + (words + more) =~= (seq![value] + words) + more);
                },
                None => {},
            }
        }
    }
}

} // verus!
