//! What the condition text of a filter means to the shell.

use vstd::prelude::*;
use super::author::AuthorView;
use super::replace_filter::{author_condition, committer_condition, comparison, ReplaceFilterView};
use super::validator::can_be_written;
use crate::shell::{
    before, conjunction, disjunction, evaluate, follows_word, is_embeddable, is_name,
    is_plain_text, lemma_word_of_plain, lemma_word_of_quoted, lemma_word_of_reference,
    lemma_words_after_blank, lemma_words_after_word, quoted, read_words, value_of, Variables,
};

verus! {

/// The names of the four variables are names, each different from the
/// others.
pub proof fn lemma_variable_names()
    ensures
        is_name("GIT_AUTHOR_NAME"@),
        is_name("GIT_AUTHOR_EMAIL"@),
        is_name("GIT_COMMITTER_NAME"@),
        is_name("GIT_COMMITTER_EMAIL"@),
        "GIT_AUTHOR_NAME"@.len() == 15,
        "GIT_AUTHOR_EMAIL"@.len() == 16,
        "GIT_COMMITTER_NAME"@.len() == 18,
        "GIT_COMMITTER_EMAIL"@.len() == 19,
{
    reveal_strlit("GIT_AUTHOR_NAME");
    reveal_strlit("GIT_AUTHOR_EMAIL");
    reveal_strlit("GIT_COMMITTER_NAME");
    reveal_strlit("GIT_COMMITTER_EMAIL");
}

/// A comparison reads as three words: the value of the variable, `=`, and
/// the value that it is held against.
pub proof fn lemma_comparison_words(
    variable: Seq<char>,
    value: Seq<char>,
    rest: Seq<char>,
    vars: Variables,
)
    requires
        is_name(variable),
        is_embeddable(value),
        follows_word(rest),
    ensures
        read_words(comparison(variable, value) + rest, vars) == before(
            value_of(vars, variable),
            before("="@, before(value, read_words(rest, vars))),
        ),
{
    reveal_strlit("\"$");
    reveal_strlit("\" = ");
    reveal_strlit("=");
    let r4 = quoted(value) + rest;
    let r3 = seq![' '] + r4;
    let r2 = seq!['='] + r3;
    let r1 = seq![' '] + r2;
    let w1 = seq!['"', '$'] + variable + seq!['"'];
    assert(comparison(variable, value) + rest =~= w1 + r1);
    lemma_word_of_reference(variable, r1, vars);
    assert(seq!['"', '$'] + variable + seq!['"'] + r1 =~= w1 + r1);
    lemma_words_after_word(w1, value_of(vars, variable), r1, vars);
    lemma_words_after_blank(r2, vars);
    assert(is_plain_text(seq!['=']));
    lemma_word_of_plain(seq!['='], r3, vars);
    lemma_words_after_word(seq!['='], seq!['='], r3, vars);
    assert(seq!['='] =~= "="@);
    lemma_words_after_blank(r4, vars);
    lemma_word_of_quoted(value, rest, vars);
    lemma_words_after_word(quoted(value), value, rest, vars);
}

/// A connective between blanks reads as one word.
pub proof fn lemma_connective_words(connective: Seq<char>, rest: Seq<char>, vars: Variables)
    requires
        connective.len() > 0,
        is_plain_text(connective),
    ensures
        read_words(seq![' '] + connective + seq![' '] + rest, vars) == before(
            connective,
            read_words(rest, vars),
        ),
{
    let r1 = seq![' '] + rest;
    assert(seq![' '] + connective + seq![' '] + rest =~= seq![' '] + (connective + r1));
    lemma_words_after_blank(connective + r1, vars);
    lemma_word_of_plain(connective, r1, vars);
    assert(connective[0] != ' ');
    lemma_words_after_word(connective, connective, r1, vars);
    lemma_words_after_blank(rest, vars);
}

/// The words of the test that two variables hold a name and an email
/// address.
pub open spec fn identity_words(
    name_value: Seq<char>,
    email_value: Seq<char>,
    name: Seq<char>,
    email: Seq<char>,
) -> Seq<Seq<char>> {
    seq![name_value, "="@, name, "-a"@, email_value, "="@, email]
}

/// The test of an identity reads as its seven words.
pub proof fn lemma_identity_words(
    name_variable: Seq<char>,
    email_variable: Seq<char>,
    name: Seq<char>,
    email: Seq<char>,
    rest: Seq<char>,
    vars: Variables,
)
    requires
        is_name(name_variable),
        is_name(email_variable),
        is_embeddable(name),
        is_embeddable(email),
        follows_word(rest),
    ensures
        read_words(
            comparison(name_variable, name) + " -a "@ + comparison(email_variable, email) + rest,
            vars,
        ) == match read_words(rest, vars) {
            Some(words) => Some(
                identity_words(
                    value_of(vars, name_variable),
                    value_of(vars, email_variable),
                    name,
                    email,
                ) + words,
            ),
            None => None,
        },
{
    reveal_strlit(" -a ");
    reveal_strlit("-a");
    let r2 = comparison(email_variable, email) + rest;
    let r1 = " -a "@ + r2;
    assert(comparison(name_variable, name) + " -a "@ + comparison(email_variable, email) + rest
        =~= comparison(name_variable, name) + r1);
    lemma_comparison_words(name_variable, name, r1, vars);
    assert(r1 =~= seq![' '] + "-a"@ + seq![' '] + r2);
    assert(is_plain_text("-a"@));
    lemma_connective_words("-a"@, r2, vars);
    lemma_comparison_words(email_variable, email, rest, vars);
    match read_words(rest, vars) {
        Some(words) => {
            assert(seq![value_of(vars, name_variable)] + (seq!["="@] + (seq![name] + (seq!["-a"@]
                + (seq![value_of(vars, email_variable)] + (seq!["="@] + (seq![email] + words))))))
                =~= identity_words(
                value_of(vars, name_variable),
                value_of(vars, email_variable),
                name,
                email,
            ) + words);
        },
        None => {},
    }
}

/// The four values that git hands to an environment filter for the commit
/// at hand.
pub struct Commit {
    pub author_name: Seq<char>,
    pub author_email: Seq<char>,
    pub committer_name: Seq<char>,
    pub committer_email: Seq<char>,
}

/// The commit that the variables of a shell describe.
pub open spec fn commit_in(vars: Variables) -> Commit {
    Commit {
        author_name: value_of(vars, "GIT_AUTHOR_NAME"@),
        author_email: value_of(vars, "GIT_AUTHOR_EMAIL"@),
        committer_name: value_of(vars, "GIT_COMMITTER_NAME"@),
        committer_email: value_of(vars, "GIT_COMMITTER_EMAIL"@),
    }
}

impl AuthorView {
    /// The identity is complete and has this name and this email address.
    pub open spec fn is(self, name: Seq<char>, email: Seq<char>) -> bool {
        self.name == Some(name) && self.email == Some(email)
    }
}

impl ReplaceFilterView {
    /// Whether the filter selects a commit.
    pub open spec fn matches(self, commit: Commit) -> bool {
        match self {
            ReplaceFilterView::AuthorOnly(a) => a.is(commit.author_name, commit.author_email),
            ReplaceFilterView::CommitterOnly(c) => c.is(
                commit.committer_name,
                commit.committer_email,
            ),
            ReplaceFilterView::AuthorOrCommitter { author, committer } => author.is(
                commit.author_name,
                commit.author_email,
            ) || committer.is(commit.committer_name, commit.committer_email),
            ReplaceFilterView::AuthorAndCommitter { author, committer } => author.is(
                commit.author_name,
                commit.author_email,
            ) && committer.is(commit.committer_name, commit.committer_email),
        }
    }

    /// The words that the shell makes of the condition text of a filter
    /// whose identities are complete, for a commit.
    pub open spec fn words(self, commit: Commit) -> Seq<Seq<char>> {
        match self {
            ReplaceFilterView::AuthorOnly(a) => author_words(a, commit),
            ReplaceFilterView::CommitterOnly(c) => committer_words(c, commit),
            ReplaceFilterView::AuthorOrCommitter { author, committer } => author_words(
                author,
                commit,
            ) + seq!["-o"@] + committer_words(committer, commit),
            ReplaceFilterView::AuthorAndCommitter { author, committer } => author_words(
                author,
                commit,
            ) + seq!["-a"@] + committer_words(committer, commit),
        }
    }
}

/// The words of the test that the author of a commit is `author`.
pub open spec fn author_words(author: AuthorView, commit: Commit) -> Seq<Seq<char>> {
    identity_words(commit.author_name, commit.author_email, author.name->0, author.email->0)
}

/// The words of the test that the committer of a commit is `committer`.
pub open spec fn committer_words(committer: AuthorView, commit: Commit) -> Seq<Seq<char>> {
    identity_words(
        commit.committer_name,
        commit.committer_email,
        committer.name->0,
        committer.email->0,
    )
}

/// A filter that has a condition text has identities that are complete
/// and can be written.
pub proof fn lemma_accepted_filter(filter: ReplaceFilterView)
    requires
        filter.failure() is None,
    ensures
        filter.author() matches Some(a) ==> a.is_complete() && can_be_written(a),
        filter.committer() matches Some(c) ==> c.is_complete() && can_be_written(c),
{
}

/// The two connectives between blanks, as characters.
proof fn lemma_connective_texts()
    ensures
        " -a "@ == seq![' '] + "-a"@ + seq![' '],
        " -o "@ == seq![' '] + "-o"@ + seq![' '],
        "-a"@.len() > 0 && is_plain_text("-a"@),
        "-o"@.len() > 0 && is_plain_text("-o"@),
{
    reveal_strlit(" -a ");
    reveal_strlit("-a");
    reveal_strlit(" -o ");
    reveal_strlit("-o");
    assert(" -a "@ =~= seq![' '] + "-a"@ + seq![' ']);
    assert(" -o "@ =~= seq![' '] + "-o"@ + seq![' ']);
}

/// The test of an author reads as its words.
proof fn lemma_author_condition_words(author: AuthorView, vars: Variables)
    requires
        can_be_written(author),
    ensures
        read_words(author_condition(author.name->0, author.email->0), vars) == Some(
            author_words(author, commit_in(vars)),
        ),
{
    lemma_variable_names();
    let end = Seq::<char>::empty();
    let text = author_condition(author.name->0, author.email->0);
    assert(read_words(end, vars) == Some(Seq::<Seq<char>>::empty()));
    lemma_identity_words(
        "GIT_AUTHOR_NAME"@,
        "GIT_AUTHOR_EMAIL"@,
        author.name->0,
        author.email->0,
        end,
        vars,
    );
    assert(text + end =~= text);
    assert(author_words(author, commit_in(vars)) + Seq::<Seq<char>>::empty() =~= author_words(
        author,
        commit_in(vars),
    ));
}

/// The test of a committer reads as its words.
proof fn lemma_committer_condition_words(committer: AuthorView, vars: Variables)
    requires
        can_be_written(committer),
    ensures
        read_words(committer_condition(committer.name->0, committer.email->0), vars) == Some(
            committer_words(committer, commit_in(vars)),
        ),
{
    lemma_variable_names();
    let end = Seq::<char>::empty();
    let text = committer_condition(committer.name->0, committer.email->0);
    assert(read_words(end, vars) == Some(Seq::<Seq<char>>::empty()));
    lemma_identity_words(
        "GIT_COMMITTER_NAME"@,
        "GIT_COMMITTER_EMAIL"@,
        committer.name->0,
        committer.email->0,
        end,
        vars,
    );
    assert(text + end =~= text);
    assert(committer_words(committer, commit_in(vars)) + Seq::<Seq<char>>::empty()
        =~= committer_words(committer, commit_in(vars)));
}

/// The shell reads the condition text of a filter as the words of the
/// filter: each name and each email address comes back as it is, whatever
/// characters it holds.
pub proof fn lemma_condition_reads_as_words(filter: ReplaceFilterView, vars: Variables)
    requires
        filter.failure() is None,
    ensures
        read_words(filter.condition(), vars) == Some(filter.words(commit_in(vars))),
{
    lemma_accepted_filter(filter);
    lemma_connective_texts();
    match filter {
        ReplaceFilterView::AuthorOnly(a) => {
            lemma_author_condition_words(a, vars);
        },
        ReplaceFilterView::CommitterOnly(c) => {
            lemma_committer_condition_words(c, vars);
        },
        ReplaceFilterView::AuthorOrCommitter { author, committer } => {
            lemma_joined_condition_words(author, committer, "-o"@, vars);
            assert(filter.condition() =~= author_condition(author.name->0, author.email->0) + (
            seq![' '] + "-o"@ + seq![' '] + committer_condition(
                committer.name->0,
                committer.email->0,
            )));
        },
        ReplaceFilterView::AuthorAndCommitter { author, committer } => {
            lemma_joined_condition_words(author, committer, "-a"@, vars);
            assert(filter.condition() =~= author_condition(author.name->0, author.email->0) + (
            seq![' '] + "-a"@ + seq![' '] + committer_condition(
                committer.name->0,
                committer.email->0,
            )));
        },
    }
}

/// The tests of an author and of a committer with a connective between
/// them read as the words of the one, the connective, and the words of
/// the other.
proof fn lemma_joined_condition_words(
    author: AuthorView,
    committer: AuthorView,
    connective: Seq<char>,
    vars: Variables,
)
    requires
        can_be_written(author),
        can_be_written(committer),
        connective.len() > 0,
        is_plain_text(connective),
    ensures
        read_words(
            author_condition(author.name->0, author.email->0) + (seq![' '] + connective + seq![' ']
                + committer_condition(committer.name->0, committer.email->0)),
            vars,
        ) == Some(
            author_words(author, commit_in(vars)) + seq![connective] + committer_words(
                committer,
                commit_in(vars),
            ),
        ),
{
    lemma_variable_names();
    let commit = commit_in(vars);
    let right = committer_condition(committer.name->0, committer.email->0);
    let rest = seq![' '] + connective + seq![' '] + right;
    lemma_committer_condition_words(committer, vars);
    lemma_connective_words(connective, right, vars);
    lemma_identity_words(
        "GIT_AUTHOR_NAME"@,
        "GIT_AUTHOR_EMAIL"@,
        author.name->0,
        author.email->0,
        rest,
        vars,
    );
    assert(author_words(author, commit) + (seq![connective] + committer_words(committer, commit))
        =~= author_words(author, commit) + seq![connective] + committer_words(committer, commit));
}

/// The seven words of the test of an identity are two comparisons that
/// `-a` joins; where another `-a` follows them, the conjunction goes on.
proof fn lemma_identity_conjunction(
    name_value: Seq<char>,
    email_value: Seq<char>,
    name: Seq<char>,
    email: Seq<char>,
    rest: Seq<Seq<char>>,
)
    ensures
        conjunction(identity_words(name_value, email_value, name, email) + rest) == if rest.len()
            > 0 && rest[0] == "-a"@ {
            match conjunction(rest.skip(1)) {
                Some((holds, taken)) => Some(
                    (name_value == name && email_value == email && holds, taken + 8),
                ),
                None => None,
            }
        } else {
            Some((name_value == name && email_value == email, 7int))
        },
{
    reveal_strlit("=");
    reveal_strlit("-a");
    let words = identity_words(name_value, email_value, name, email) + rest;
    let second = words.skip(4);
    assert(words[1] == "="@ && words[3] == "-a"@);
    assert(second[0] == email_value && second[1] == "="@ && second[2] == email);
    assert(second.len() == 3 + rest.len());
    if rest.len() > 0 && rest[0] == "-a"@ {
        assert(second[3] == "-a"@);
        assert(second.skip(4) =~= rest.skip(1));
    } else {
        if rest.len() > 0 {
            assert(second[3] == rest[0]);
        }
        assert(conjunction(second) == Some((email_value == email, 3int)));
    }
}

/// The test that the words of a filter make holds of a commit where the
/// filter selects the commit.
pub proof fn lemma_words_decide_match(filter: ReplaceFilterView, commit: Commit)
    requires
        filter.failure() is None,
    ensures
        disjunction(filter.words(commit)) == Some(filter.matches(commit)),
{
    reveal_strlit("-a");
    reveal_strlit("-o");
    assert("-o"@ != "-a"@) by {
        assert("-o"@[1] == 'o' && "-a"@[1] == 'a');
    }
    let none = Seq::<Seq<char>>::empty();
    match filter {
        ReplaceFilterView::AuthorOnly(a) => {
            lemma_identity_conjunction(
                commit.author_name,
                commit.author_email,
                a.name->0,
                a.email->0,
                none,
            );
            assert(author_words(a, commit) + none =~= author_words(a, commit));
            assert(author_words(a, commit).len() == 7);
        },
        ReplaceFilterView::CommitterOnly(c) => {
            lemma_identity_conjunction(
                commit.committer_name,
                commit.committer_email,
                c.name->0,
                c.email->0,
                none,
            );
            assert(committer_words(c, commit) + none =~= committer_words(c, commit));
            assert(committer_words(c, commit).len() == 7);
        },
        ReplaceFilterView::AuthorOrCommitter { author, committer } => {
            let right = committer_words(committer, commit);
            let rest = seq!["-o"@] + right;
            let words = filter.words(commit);
            assert(words =~= author_words(author, commit) + rest);
            assert(rest[0] == "-o"@);
            lemma_identity_conjunction(
                commit.author_name,
                commit.author_email,
                author.name->0,
                author.email->0,
                rest,
            );
            assert(words.len() == 15);
            assert(conjunction(words) == Some(
                (author.is(commit.author_name, commit.author_email), 7int),
            ));
            assert(words[7] == "-o"@);
            assert(words.skip(8) =~= right);
            lemma_identity_conjunction(
                commit.committer_name,
                commit.committer_email,
                committer.name->0,
                committer.email->0,
                none,
            );
            assert(right + none =~= right);
            assert(disjunction(right) == Some(
                committer.is(commit.committer_name, commit.committer_email),
            ));
        },
        ReplaceFilterView::AuthorAndCommitter { author, committer } => {
            let right = committer_words(committer, commit);
            let rest = seq!["-a"@] + right;
            let words = filter.words(commit);
            assert(words =~= author_words(author, commit) + rest);
            assert(rest[0] == "-a"@);
            assert(rest.skip(1) =~= right);
            lemma_identity_conjunction(
                commit.committer_name,
                commit.committer_email,
                committer.name->0,
                committer.email->0,
                none,
            );
            assert(right + none =~= right);
            lemma_identity_conjunction(
                commit.author_name,
                commit.author_email,
                author.name->0,
                author.email->0,
                rest,
            );
        },
    }
}

/// The condition text of a filter, evaluated by the shell for a commit,
/// holds where the filter selects the commit, and only there: no name and
/// no email address, whatever characters it holds, changes what the text
/// means.
pub proof fn lemma_condition_decides_match(filter: ReplaceFilterView, vars: Variables)
    requires
        filter.failure() is None,
    ensures
        evaluate(filter.condition(), vars) == Some(filter.matches(commit_in(vars))),
{
    lemma_condition_reads_as_words(filter, vars);
    lemma_words_decide_match(filter, commit_in(vars));
}

} // verus!
