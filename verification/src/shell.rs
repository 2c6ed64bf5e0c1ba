//! Embedding text in a POSIX shell script as double-quoted words, and a
//! description of how the shell reads such a script: what stands between
//! quotes (`quotes`), words and commands (`words`), tests and assignments
//! (`commands`), and conditionals (`script`). The description covers the
//! scripts that this crate writes and says so where a text is outside it.

mod commands;
mod quotes;
mod script;
mod words;

pub use commands::{
    conjunction, disjunction, evaluate, lemma_line_length, lemma_perform_line_extends, perform,
    perform_line, then_performed,
};
pub use quotes::{
    is_digit, is_name, is_name_char, lemma_name_prefix, lemma_name_prefix_extends,
    lemma_quoted_reads_back, lemma_read_quoted_extends, lemma_reference_reads, name_prefix,
    read_quoted, then_read, value_of, Variables,
};
pub use script::{
    begins_with, bracket, is_blank, lemma_skip_blanks, otherwise, run, run_branches,
    skip_blanks,
};
use vstd::prelude::*;
pub use words::{
    before, ends_command, ends_word, follows_word, is_plain, is_plain_text, is_word_end,
    lemma_command_after_blank, lemma_command_after_word, lemma_command_length,
    lemma_read_command_extends, lemma_read_word_extends, lemma_word_of_plain,
    lemma_word_of_quoted, lemma_word_of_reference, lemma_words_after_blank,
    lemma_words_after_word, read_command, read_word, read_words, with_words,
};

verus! {

/// The characters that keep a meaning of their own between double quotes.
pub open spec fn needs_escape(c: char) -> bool {
    c == '"' || c == '\\' || c == '$' || c == '`'
}

/// `s` with a backslash before each character that needs one.
pub open spec fn escaped(s: Seq<char>) -> Seq<char>
    decreases s.len(),
{
    if s.len() == 0 {
        Seq::empty()
    } else if needs_escape(s.first()) {
        seq!['\\', s.first()] + escaped(s.drop_first())
    } else {
        seq![s.first()] + escaped(s.drop_first())
    }
}

/// `s` as a double-quoted word.
pub open spec fn quoted(s: Seq<char>) -> Seq<char> {
    seq!['"'] + escaped(s) + seq!['"']
}

/// A text can stand in a script unless it holds a NUL character, for which
/// the shell has no notation.
pub open spec fn is_embeddable(s: Seq<char>) -> bool {
    forall|i: int| 0 <= i < s.len() ==> s[i] != '\0'
}

/// Escaping goes character by character.
pub proof fn lemma_escaped_push(s: Seq<char>, c: char)
    ensures
        escaped(s.push(c)) == escaped(s) + escaped(seq![c]),
        escaped(seq![c]) == if needs_escape(c) {
            seq!['\\', c]
        } else {
            seq![c]
        },
    decreases s.len(),
{
    assert(seq![c].drop_first() =~= Seq::<char>::empty());
    assert(escaped(seq![c].drop_first()) =~= Seq::<char>::empty());
    assert(seq![c].first() == c);
    assert(escaped(seq![c]) =~= if needs_escape(c) {
        seq!['\\', c]
    } else {
        seq![c]
    });
    if s.len() == 0 {
        assert(s.push(c) =~= seq![c]);
        assert(escaped(s) + escaped(seq![c]) =~= escaped(seq![c]));
    } else {
        lemma_escaped_push(s.drop_first(), c);
        assert(s.push(c).drop_first() =~= s.drop_first().push(c));
        assert(escaped(s.push(c)) =~= escaped(s) + escaped(seq![c]));
    }
}

/// Whether `s` can stand in a script.
pub fn can_embed(s: &str) -> (b: bool)
    ensures
        b == is_embeddable(s@),
{
    let mut b = true;
    for c in it: s.chars()
        invariant
            it.seq() == s@,
            b == is_embeddable(it.seq().take(it.index())),
    {
        if c == '\0' {
            b = false;
        }
        assert(it.seq().take(it.index() + 1) =~= it.seq().take(it.index()).push(c));
        assert(it.seq().take(it.index() + 1)[it.index()] == c);
    }
    assert(s@.take(s@.len() as int) =~= s@);
    b
}

/// `s` as a double-quoted word of a shell script.
pub fn quote(s: &str) -> (q: String)
    ensures
        q@ == quoted(s@),
{
    let mut q = String::new();
    q.push('"');
    for c in it: s.chars()
        invariant
            it.seq() == s@,
            q@ == seq!['"'] + escaped(it.seq().take(it.index())),
    {
        if c == '"' || c == '\\' || c == '$' || c == '`' {
            q.push('\\');
        }
        q.push(c);
        proof {
            lemma_escaped_push(it.seq().take(it.index()), c);
            assert(it.seq().take(it.index() + 1) =~= it.seq().take(it.index()).push(c));
        }
    }
    assert(s@.take(s@.len() as int) =~= s@);
    q.push('"');
    q
}

} // verus!
