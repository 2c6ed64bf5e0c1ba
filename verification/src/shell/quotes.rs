//! How the shell reads what stands between double quotes.

use vstd::prelude::*;
use super::{escaped, is_embeddable, needs_escape};

verus! {

/// The variables of a shell and their values.
pub type Variables = Map<Seq<char>, Seq<char>>;

/// The value of a variable; one that is not set reads as the empty text.
pub open spec fn value_of(vars: Variables, name: Seq<char>) -> Seq<char> {
    if vars.contains_key(name) {
        vars[name]
    } else {
        Seq::empty()
    }
}

pub open spec fn is_digit(c: char) -> bool {
    '0' <= c <= '9'
}

/// The characters of which the names of variables are made.
pub open spec fn is_name_char(c: char) -> bool {
    'a' <= c <= 'z' || 'A' <= c <= 'Z' || c == '_' || is_digit(c)
}

/// A name of a variable: name characters, the first of them no digit.
pub open spec fn is_name(s: Seq<char>) -> bool {
    &&& s.len() > 0
    &&& !is_digit(s[0])
    &&& forall|i: int| 0 <= i < s.len() ==> is_name_char(#[trigger] s[i])
}

/// The name characters with which `text` begins.
pub open spec fn name_prefix(text: Seq<char>) -> Seq<char>
    decreases text.len(),
{
    if text.len() > 0 && is_name_char(text[0]) {
        seq![text[0]] + name_prefix(text.drop_first())
    } else {
        Seq::empty()
    }
}

/// A piece of a word that has been read, before what the rest of the word
/// reads as: the value and the number of characters taken add up.
pub open spec fn then_read(value: Seq<char>, taken: int, rest: Option<(Seq<char>, int)>) -> Option<
    (Seq<char>, int),
> {
    match rest {
        Some((v, n)) => Some((value + v, taken + n)),
        None => None,
    }
}

/// How the shell reads what follows an opening double quote: the value up
/// to the closing quote, and the number of characters up to and with that
/// quote. A backslash makes the next character an ordinary one where that
/// character needs it, vanishes together with a line feed, and is ordinary
/// itself elsewhere; `$` and a name stand for the value of that variable.
/// `None` where the text is outside this description: no closing quote, a
/// backquote, a `$` without a name, a NUL character.
pub open spec fn read_quoted(text: Seq<char>, vars: Variables) -> Option<(Seq<char>, int)>
    decreases text.len(),
{
    if text.len() == 0 {
        None
    } else if text[0] == '"' {
        Some((Seq::empty(), 1))
    } else if text[0] == '`' || text[0] == '\0' {
        None
    } else if text[0] == '$' {
        let name = name_prefix(text.drop_first());
        if is_name(name) && name.len() < text.len() {
            then_read(
                value_of(vars, name),
                1 + name.len() as int,
                read_quoted(text.skip(1 + name.len() as int), vars),
            )
        } else {
            None
        }
    } else if text[0] == '\\' && text.len() >= 2 && needs_escape(text[1]) {
        then_read(seq![text[1]], 2, read_quoted(text.skip(2), vars))
    } else if text[0] == '\\' && text.len() >= 2 && text[1] == '\n' {
        then_read(Seq::empty(), 2, read_quoted(text.skip(2), vars))
    } else {
        then_read(seq![text[0]], 1, read_quoted(text.skip(1), vars))
    }
}

/// The shell reads a quoted text back as it was before it was escaped,
/// whatever the text holds but a NUL character, whatever follows the
/// closing quote and whatever the variables hold.
pub proof fn lemma_quoted_reads_back(s: Seq<char>, rest: Seq<char>, vars: Variables)
    requires
        is_embeddable(s),
    ensures
        read_quoted(escaped(s) + seq!['"'] + rest, vars) == Some((s, escaped(s).len() as int + 1)),
    decreases s.len(),
{
    let text = escaped(s) + seq!['"'] + rest;
    if s.len() == 0 {
        assert(text[0] == '"');
        assert(s =~= Seq::<char>::empty());
    } else {
        let c = s.first();
        let tail = s.drop_first();
        let tail_text = escaped(tail) + seq!['"'] + rest;
        lemma_quoted_reads_back(tail, rest, vars);
        assert(c == s[0]);
        assert(c != '\0');
        if needs_escape(c) {
            assert(text =~= seq!['\\', c] + tail_text);
            assert(text.skip(2) =~= tail_text);
            assert(seq![c] + tail =~= s);
        } else {
            assert(text =~= seq![c] + tail_text);
            assert(text.skip(1) =~= tail_text);
            assert(seq![c] + tail =~= s);
        }
    }
}

/// A name that stands before a character of another kind is read whole.
pub proof fn lemma_name_prefix(name: Seq<char>, rest: Seq<char>)
    requires
        forall|i: int| 0 <= i < name.len() ==> is_name_char(#[trigger] name[i]),
        rest.len() == 0 || !is_name_char(rest[0]),
    ensures
        name_prefix(name + rest) == name,
    decreases name.len(),
{
    let text = name + rest;
    if name.len() == 0 {
        assert(text =~= rest);
        assert(name =~= Seq::<char>::empty());
    } else {
        assert(text[0] == name[0]);
        assert(text.drop_first() =~= name.drop_first() + rest);
        assert forall|i: int| 0 <= i < name.drop_first().len() implies is_name_char(
            #[trigger] name.drop_first()[i],
        ) by {
            assert(name.drop_first()[i] == name[i + 1]);
        }
        lemma_name_prefix(name.drop_first(), rest);
        assert(seq![name[0]] + name.drop_first() =~= name);
    }
}

/// Between double quotes, `$` and a name read as the value of the
/// variable of that name.
pub proof fn lemma_reference_reads(name: Seq<char>, rest: Seq<char>, vars: Variables)
    requires
        is_name(name),
    ensures
        read_quoted(seq!['$'] + name + seq!['"'] + rest, vars) == Some(
            (value_of(vars, name), name.len() as int + 2),
        ),
{
    let text = seq!['$'] + name + seq!['"'] + rest;
    let after = seq!['"'] + rest;
    assert(text.drop_first() =~= name + after);
    lemma_name_prefix(name, after);
    assert(text.skip(1 + name.len() as int) =~= after);
    assert(read_quoted(after, vars) == Some((Seq::<char>::empty(), 1int)));
    assert(value_of(vars, name) + Seq::<char>::empty() =~= value_of(vars, name));
}

/// The name with which a text begins stays the same when more text
/// follows, as long as the name ends within the text.
pub proof fn lemma_name_prefix_extends(text: Seq<char>, tail: Seq<char>)
    requires
        name_prefix(text).len() < text.len(),
    ensures
        name_prefix(text + tail) == name_prefix(text),
    decreases text.len(),
{
    let longer = text + tail;
    assert(longer[0] == text[0]);
    if is_name_char(text[0]) {
        assert(longer.drop_first() =~= text.drop_first() + tail);
        lemma_name_prefix_extends(text.drop_first(), tail);
    }
}

/// What the shell reads between double quotes stays the same when more
/// text follows the closing quote.
pub proof fn lemma_read_quoted_extends(text: Seq<char>, tail: Seq<char>, vars: Variables)
    requires
        read_quoted(text, vars) is Some,
    ensures
        read_quoted(text + tail, vars) == read_quoted(text, vars),
        read_quoted(text, vars) matches Some((_, taken)) && 0 < taken <= text.len(),
    decreases text.len(),
{
    let longer = text + tail;
    assert(longer[0] == text[0]);
    if text[0] == '"' {
    } else if text[0] == '$' {
        let name = name_prefix(text.drop_first());
        let after = 1 + name.len() as int;
        assert(read_quoted(text.skip(after), vars) is Some);
        assert(longer.drop_first() =~= text.drop_first() + tail);
        lemma_name_prefix_extends(text.drop_first(), tail);
        assert(longer.skip(after) =~= text.skip(after) + tail);
        lemma_read_quoted_extends(text.skip(after), tail, vars);
    } else if text[0] == '\\' && text.len() >= 2 && (needs_escape(text[1]) || text[1] == '\n') {
        assert(longer[1] == text[1]);
        assert(longer.skip(2) =~= text.skip(2) + tail);
        lemma_read_quoted_extends(text.skip(2), tail, vars);
    } else {
        if text.len() >= 2 {
            assert(longer[1] == text[1]);
        }
        assert(longer.skip(1) =~= text.skip(1) + tail);
        lemma_read_quoted_extends(text.skip(1), tail, vars);
    }
}

} // verus!
