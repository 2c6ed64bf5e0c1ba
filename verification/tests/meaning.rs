use git_author::email_address::EmailAddress;
use git_author::git::{replace, replace_simple, Author, ReplaceFilter, ReplaceTarget};
use git_author::shell::quote;

/// The four variables that an environment filter sees.
#[derive(Debug, Clone, PartialEq, Eq)]
struct Commit {
    author_name: String,
    author_email: String,
    committer_name: String,
    committer_email: String,
}

impl Commit {
    fn new(author: (&str, &str), committer: (&str, &str)) -> Self {
        Commit {
            author_name: author.0.to_string(),
            author_email: author.1.to_string(),
            committer_name: committer.0.to_string(),
            committer_email: committer.1.to_string(),
        }
    }

    fn get(&self, name: &str) -> String {
        match name {
            "GIT_AUTHOR_NAME" => self.author_name.clone(),
            "GIT_AUTHOR_EMAIL" => self.author_email.clone(),
            "GIT_COMMITTER_NAME" => self.committer_name.clone(),
            "GIT_COMMITTER_EMAIL" => self.committer_email.clone(),
            _ => String::new(),
        }
    }

    fn put(&mut self, name: &str, value: String) {
        match name {
            "GIT_AUTHOR_NAME" => self.author_name = value,
            "GIT_AUTHOR_EMAIL" => self.author_email = value,
            "GIT_COMMITTER_NAME" => self.committer_name = value,
            "GIT_COMMITTER_EMAIL" => self.committer_email = value,
            _ => panic!("unexpected variable {}", name),
        }
    }
}

fn is_name_char(c: char) -> bool {
    c.is_ascii_alphanumeric() || c == '_'
}

/// Reads what follows an opening double quote as a shell does, and
/// returns the value and the place after the closing quote.
fn read_quoted(text: &[char], mut at: usize, commit: &Commit) -> (String, usize) {
    let mut value = String::new();
    loop {
        let c = text[at];
        if c == '"' {
            return (value, at + 1);
        } else if c == '`' || c == '\0' {
            panic!("the shell would not read this as text");
        } else if c == '$' {
            let mut end = at + 1;
            while end < text.len() && is_name_char(text[end]) {
                end += 1;
            }
            assert!(end > at + 1, "a substitution that is no variable");
            let name: String = text[at + 1..end].iter().collect();
            value.push_str(&commit.get(&name));
            at = end;
        } else if c == '\\' && matches!(text[at + 1], '"' | '\\' | '$' | '`') {
            value.push(text[at + 1]);
            at += 2;
        } else if c == '\\' && text[at + 1] == '\n' {
            at += 2;
        } else {
            value.push(c);
            at += 1;
        }
    }
}

/// Reads one word and returns its value and the place after it.
fn read_word(text: &[char], mut at: usize, commit: &Commit) -> (String, usize) {
    let mut value = String::new();
    while at < text.len() && !matches!(text[at], ' ' | '\t' | '\n' | ';') {
        if text[at] == '"' {
            let (part, next) = read_quoted(text, at + 1, commit);
            value.push_str(&part);
            at = next;
        } else {
            assert!(is_name_char(text[at]) || text[at] == '-' || text[at] == '=');
            value.push(text[at]);
            at += 1;
        }
    }
    (value, at)
}

fn read_words(text: &str, commit: &Commit) -> Vec<String> {
    let text: Vec<char> = text.chars().collect();
    let mut words = Vec::new();
    let mut at = 0;
    while at < text.len() {
        if text[at] == ' ' {
            at += 1;
        } else {
            let (word, next) = read_word(&text, at, commit);
            assert!(next > at);
            words.push(word);
            at = next;
        }
    }
    words
}

/// The value of a test of comparisons that `-a` and `-o` join.
fn evaluate(text: &str, commit: &Commit) -> bool {
    let words = read_words(text, commit);
    let mut any = false;
    let mut all = true;
    let mut at = 0;
    loop {
        assert_eq!(words[at + 1], "=");
        all = all && words[at] == words[at + 2];
        at += 3;
        if at == words.len() {
            return any || all;
        }
        match words[at].as_str() {
            "-a" => {}
            "-o" => {
                any = any || all;
                all = true;
            }
            other => panic!("unexpected word {}", other),
        }
        at += 1;
    }
}

/// Performs a line of assignments.
fn perform(text: &str, commit: &Commit) -> Commit {
    let text: Vec<char> = text.chars().collect();
    let mut commit = commit.clone();
    let mut at = 0;
    while at < text.len() {
        if text[at] == ' ' || text[at] == ';' {
            at += 1;
            continue;
        }
        let mut end = at;
        while end < text.len() && is_name_char(text[end]) {
            end += 1;
        }
        assert!(end > at && text[end] == '=');
        let name: String = text[at..end].iter().collect();
        let (value, next) = read_word(&text, end + 1, &commit);
        commit.put(&name, value);
        at = next;
    }
    commit
}

fn skip_blanks(text: &[char], mut at: usize) -> usize {
    while at < text.len() && (text[at] == ' ' || text[at] == '\n') {
        at += 1;
    }
    at
}

fn expect(text: &[char], at: usize, word: &str) -> usize {
    let word: Vec<char> = word.chars().collect();
    assert_eq!(&text[at..at + word.len()], &word[..]);
    at + word.len()
}

/// Runs a conditional whose tests stand in brackets and whose bodies are
/// lines of assignments.
fn run(script: &str, commit: &Commit) -> Commit {
    let text: Vec<char> = script.chars().collect();
    let mut at = expect(&text, skip_blanks(&text, 0), "if ");
    let mut result = None;
    loop {
        let end = (at..text.len()).find(|&i| text[i] == ';').unwrap();
        let test: String = text[at..end].iter().collect();
        let test = test.strip_prefix("[ ").unwrap().strip_suffix(" ]").unwrap();
        let holds = evaluate(test, commit);
        at = skip_blanks(&text, expect(&text, end, "; then"));
        let line_end = (at..text.len()).find(|&i| text[i] == '\n').unwrap();
        let line: String = text[at..line_end].iter().collect();
        if holds && result.is_none() {
            result = Some(perform(&line, commit));
        }
        at = skip_blanks(&text, line_end);
        if text[at..].starts_with(&['f', 'i']) {
            assert_eq!(skip_blanks(&text, at + 2), text.len());
            return result.unwrap_or_else(|| commit.clone());
        }
        at = expect(&text, at, "elif ");
    }
}

fn identity(name: &str, email: &str) -> Author {
    Author::new(Some(name), Some(EmailAddress::from_str(email).unwrap()))
}

const TRICKY: [&str; 10] = [
    "Alice",
    "a\"b",
    "a$b",
    "$GIT_AUTHOR_NAME",
    "a`b`",
    "back\\slash\\",
    "\\\"",
    "-a",
    "$(echo x)\n${y}",
    "a' = 'a",
];

#[test]
fn quoted_text_reads_back_as_it_was() {
    let commit = Commit::new(("x", "y"), ("z", "w"));
    for value in TRICKY {
        let quoted: Vec<char> = quote(value).chars().collect();
        assert_eq!(quoted[0], '"');
        let (read, end) = read_quoted(&quoted, 1, &commit);
        assert_eq!(read, value);
        assert_eq!(end, quoted.len());
    }
}

#[test]
fn condition_holds_only_where_the_values_match() {
    let email = "alice$x`y@example.com";
    for name in TRICKY {
        let filter = ReplaceFilter::AuthorOnly(identity(name, email));
        let condition = filter.to_condition_text().unwrap();
        let same = Commit::new((name, email), ("c", "c@example.com"));
        assert!(evaluate(&condition, &same));
        assert_eq!(
            read_words(&condition, &same),
            vec![name, "=", name, "-a", email, "=", email]
        );
        let other_name = Commit::new(("someone", email), (name, email));
        assert!(!evaluate(&condition, &other_name));
        let other_email = Commit::new((name, "alice@example.com"), (name, email));
        assert!(!evaluate(&condition, &other_email));
    }
}

#[test]
fn either_and_both_combine_author_and_committer() {
    let alice = || identity("Alice", "alice@example.com");
    let bob = || identity("Bob", "bob@x.com");
    let either = ReplaceFilter::AuthorOrCommitter {
        author: alice(),
        committer: bob(),
    }
    .to_condition_text()
    .unwrap();
    let both = ReplaceFilter::AuthorAndCommitter {
        author: alice(),
        committer: bob(),
    }
    .to_condition_text()
    .unwrap();
    let a = ("Alice", "alice@example.com");
    let b = ("Bob", "bob@x.com");
    let mixed = ("Alice", "bob@x.com");
    for (commit, in_either, in_both) in [
        (Commit::new(a, b), true, true),
        (Commit::new(a, a), true, false),
        (Commit::new(b, b), true, false),
        (Commit::new(b, a), false, false),
        (Commit::new(mixed, mixed), false, false),
        (Commit::new(mixed, b), true, false),
    ] {
        assert_eq!(evaluate(&either, &commit), in_either);
        assert_eq!(evaluate(&both, &commit), in_both);
    }
}

#[test]
fn content_assigns_the_values_as_they_are() {
    let before = Commit::new(("x", "y"), ("z", "w"));
    for name in TRICKY {
        let target = ReplaceTarget::AuthorAndCommitter {
            new_author: identity(name, "a$b@example.com"),
            new_committer: identity("C", "c`d@example.com"),
        };
        let content = target.to_proccessing_content_text().unwrap();
        assert_eq!(
            perform(&content, &before),
            Commit::new((name, "a$b@example.com"), ("C", "c`d@example.com"))
        );
    }
    let target = ReplaceTarget::Committer {
        new_committer: identity("C", "c@example.com"),
    };
    assert_eq!(
        perform(&target.to_proccessing_content_text().unwrap(), &before),
        Commit::new(("x", "y"), ("C", "c@example.com"))
    );
}

#[test]
fn a_rewritten_commit_is_not_selected_again() {
    let old = || identity("Alice", "alice@example.com");
    let new = || identity("A. Smith", "asmith@example.com");
    let condition = ReplaceFilter::AuthorOnly(old()).to_condition_text().unwrap();
    let content = ReplaceTarget::Author { new_author: new() }
        .to_proccessing_content_text()
        .unwrap();
    let commit = Commit::new(
        ("Alice", "alice@example.com"),
        ("Alice", "alice@example.com"),
    );
    assert!(evaluate(&condition, &commit));
    let once = perform(&content, &commit);
    assert_eq!(
        once,
        Commit::new(
            ("A. Smith", "asmith@example.com"),
            ("Alice", "alice@example.com")
        )
    );
    assert!(!evaluate(&condition, &once));
}

#[test]
fn a_second_rewrite_changes_nothing() {
    let old = || identity("Alice", "alice@example.com");
    let new = || identity("A. Smith", "asmith@example.com");
    let condition = ReplaceFilter::AuthorOnly(old()).to_condition_text().unwrap();
    let content = ReplaceTarget::Committer {
        new_committer: new(),
    }
    .to_proccessing_content_text()
    .unwrap();
    let rewrite = |commit: &Commit| {
        if evaluate(&condition, commit) {
            perform(&content, commit)
        } else {
            commit.clone()
        }
    };
    for commit in [
        Commit::new(("Alice", "alice@example.com"), ("Bob", "bob@x.com")),
        Commit::new(("Bob", "bob@x.com"), ("Alice", "alice@example.com")),
    ] {
        let once = rewrite(&commit);
        assert_eq!(rewrite(&once), once);
    }
}

#[test]
fn the_script_rewrites_what_the_filter_selects() {
    let old = || identity("Alice", "alice@example.com");
    let new = || identity("A. \"Al\" Smith", "a$mith@example.com");
    let script = replace(
        ReplaceFilter::AuthorOnly(old()),
        ReplaceTarget::AuthorAndCommitter {
            new_author: new(),
            new_committer: new(),
        },
    )
    .unwrap();
    let alice = ("Alice", "alice@example.com");
    let bob = ("Bob", "bob@x.com");
    let smith = ("A. \"Al\" Smith", "a$mith@example.com");
    assert_eq!(
        run(&script, &Commit::new(alice, bob)),
        Commit::new(smith, smith)
    );
    assert_eq!(
        run(&script, &Commit::new(bob, alice)),
        Commit::new(bob, alice)
    );
    let once = run(&script, &Commit::new(alice, alice));
    assert_eq!(run(&script, &once), once);
}

#[test]
fn the_simple_script_replaces_each_field_that_holds_the_old_identity() {
    let script = replace_simple(
        identity("Alice", "alice@example.com"),
        identity("A. Smith", "asmith@example.com"),
    )
    .unwrap();
    let alice = ("Alice", "alice@example.com");
    let bob = ("Bob", "bob@x.com");
    let smith = ("A. Smith", "asmith@example.com");
    let half = ("Alice", "bob@x.com");
    for (before, after) in [
        (Commit::new(alice, alice), Commit::new(smith, smith)),
        (Commit::new(alice, bob), Commit::new(smith, bob)),
        (Commit::new(bob, alice), Commit::new(bob, smith)),
        (Commit::new(bob, bob), Commit::new(bob, bob)),
        (Commit::new(half, alice), Commit::new(half, smith)),
        (Commit::new(smith, alice), Commit::new(smith, smith)),
    ] {
        assert_eq!(run(&script, &before), after);
        assert_eq!(run(&script, &after), after);
    }
}

#[test]
fn the_simple_script_of_an_identity_by_itself_changes_nothing() {
    let script = replace_simple(
        identity("Alice", "alice@example.com"),
        identity("Alice", "alice@example.com"),
    )
    .unwrap();
    let alice = ("Alice", "alice@example.com");
    let bob = ("Bob", "bob@x.com");
    for commit in [Commit::new(alice, alice), Commit::new(alice, bob)] {
        assert_eq!(run(&script, &commit), commit);
    }
}
