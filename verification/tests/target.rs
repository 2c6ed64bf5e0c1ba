use git_author::email_address::EmailAddress;
use git_author::error::{
    AuthorFieldError, AuthorHasNoneField, CommitterHasNoneField, InvalidArguments,
    ProccessingContentError,
};
use git_author::git::{
    assignment_format, author_format, committer_format, Author, ReplaceTarget, ReplaceTargetKind,
};

fn identity(name: &str, email: &str) -> Author {
    Author::new(Some(name), Some(EmailAddress::from_str(email).unwrap()))
}

fn smith() -> Author {
    identity("A. Smith", "asmith@example.com")
}

fn bob() -> Author {
    identity("Bob", "bob@x.com")
}

fn no_name() -> Author {
    Author::new(None, Some(EmailAddress::from_str("alice@example.com").unwrap()))
}

fn no_email() -> Author {
    Author::new(Some("Alice"), None)
}

fn nothing() -> Author {
    Author::new(None, None)
}

fn with_nul() -> Author {
    Author::new(
        Some("\0"),
        Some(EmailAddress::from_str("alice@example.com").unwrap()),
    )
}

fn author_error(e: AuthorFieldError) -> Result<String, ProccessingContentError> {
    Err(ProccessingContentError::AuthorHasNoneField(AuthorHasNoneField(e)))
}

fn committer_error(e: AuthorFieldError) -> Result<String, ProccessingContentError> {
    Err(ProccessingContentError::CommitterHasNoneField(
        CommitterHasNoneField(e),
    ))
}

fn nul_error(role: &str) -> Result<String, ProccessingContentError> {
    Err(ProccessingContentError::InvalidArguments(InvalidArguments(
        format!("{} has a NUL character.", role),
    )))
}

#[test]
fn assignment_quotes_the_value() {
    assert_eq!(assignment_format("X", "y z"), "X=\"y z\"");
    assert_eq!(assignment_format("X", "$(boom)"), "X=\"\\$(boom)\"");
}

#[test]
fn content_formats_name_the_variables() {
    assert_eq!(
        author_format("A. Smith", "asmith@example.com"),
        "GIT_AUTHOR_NAME=\"A. Smith\" GIT_AUTHOR_EMAIL=\"asmith@example.com\";"
    );
    assert_eq!(
        committer_format("Bob", "bob@x.com"),
        "GIT_COMMITTER_NAME=\"Bob\" GIT_COMMITTER_EMAIL=\"bob@x.com\";"
    );
}

#[test]
fn author_target_assigns_the_author() {
    let target = ReplaceTarget::Author { new_author: smith() };
    assert_eq!(
        target.to_proccessing_content_text().unwrap(),
        "GIT_AUTHOR_NAME=\"A. Smith\" GIT_AUTHOR_EMAIL=\"asmith@example.com\";"
    );
}

#[test]
fn committer_target_assigns_the_committer() {
    let target = ReplaceTarget::Committer {
        new_committer: smith(),
    };
    assert_eq!(
        target.to_proccessing_content_text().unwrap(),
        "GIT_COMMITTER_NAME=\"A. Smith\" GIT_COMMITTER_EMAIL=\"asmith@example.com\";"
    );
}

#[test]
fn author_and_committer_target_assigns_all_four() {
    let target = ReplaceTarget::AuthorAndCommitter {
        new_author: smith(),
        new_committer: bob(),
    };
    assert_eq!(
        target.to_proccessing_content_text().unwrap(),
        "GIT_AUTHOR_NAME=\"A. Smith\" GIT_AUTHOR_EMAIL=\"asmith@example.com\"; \
         GIT_COMMITTER_NAME=\"Bob\" GIT_COMMITTER_EMAIL=\"bob@x.com\";"
    );
}

#[test]
fn content_escapes_the_values() {
    let target = ReplaceTarget::Author {
        new_author: identity("\"; rm -rf ~; \"", "a`b@example.com"),
    };
    assert_eq!(
        target.to_proccessing_content_text().unwrap(),
        "GIT_AUTHOR_NAME=\"\\\"; rm -rf ~; \\\"\" GIT_AUTHOR_EMAIL=\"a\\`b@example.com\";"
    );
}

#[test]
fn target_names_the_role_and_what_is_missing() {
    assert_eq!(
        ReplaceTarget::Author { new_author: no_name() }.to_proccessing_content_text(),
        author_error(AuthorFieldError::NameIsNone)
    );
    assert_eq!(
        ReplaceTarget::Author { new_author: no_email() }.to_proccessing_content_text(),
        author_error(AuthorFieldError::EmailIsNone)
    );
    assert_eq!(
        ReplaceTarget::Author { new_author: nothing() }.to_proccessing_content_text(),
        author_error(AuthorFieldError::NameAndEmailAreNone)
    );
    assert_eq!(
        ReplaceTarget::Committer { new_committer: no_name() }.to_proccessing_content_text(),
        committer_error(AuthorFieldError::NameIsNone)
    );
    assert_eq!(
        ReplaceTarget::Committer { new_committer: no_email() }.to_proccessing_content_text(),
        committer_error(AuthorFieldError::EmailIsNone)
    );
    assert_eq!(
        ReplaceTarget::Committer { new_committer: nothing() }.to_proccessing_content_text(),
        committer_error(AuthorFieldError::NameAndEmailAreNone)
    );
}

#[test]
fn target_of_two_names_the_first_that_is_incomplete() {
    let target = ReplaceTarget::AuthorAndCommitter {
        new_author: no_email(),
        new_committer: nothing(),
    };
    assert_eq!(
        target.to_proccessing_content_text(),
        author_error(AuthorFieldError::EmailIsNone)
    );
    let target = ReplaceTarget::AuthorAndCommitter {
        new_author: smith(),
        new_committer: nothing(),
    };
    assert_eq!(
        target.to_proccessing_content_text(),
        committer_error(AuthorFieldError::NameAndEmailAreNone)
    );
    let target = ReplaceTarget::AuthorAndCommitter {
        new_author: with_nul(),
        new_committer: no_name(),
    };
    assert_eq!(
        target.to_proccessing_content_text(),
        committer_error(AuthorFieldError::NameIsNone)
    );
}

#[test]
fn target_refuses_a_nul_character() {
    assert_eq!(
        ReplaceTarget::Author { new_author: with_nul() }.to_proccessing_content_text(),
        nul_error("author")
    );
    assert_eq!(
        ReplaceTarget::Committer { new_committer: with_nul() }.to_proccessing_content_text(),
        nul_error("committer")
    );
    let target = ReplaceTarget::AuthorAndCommitter {
        new_author: smith(),
        new_committer: with_nul(),
    };
    assert_eq!(target.to_proccessing_content_text(), nul_error("committer"));
    let target = ReplaceTarget::AuthorAndCommitter {
        new_author: with_nul(),
        new_committer: with_nul(),
    };
    assert_eq!(target.to_proccessing_content_text(), nul_error("author"));
}

#[test]
fn target_kind_is_named_by_a_word() {
    assert_eq!(
        ReplaceTargetKind::from_str("author"),
        Ok(ReplaceTargetKind::AuthorOnly)
    );
    assert_eq!(
        ReplaceTargetKind::from_str("committer"),
        Ok(ReplaceTargetKind::CommitterOnly)
    );
    assert_eq!(
        ReplaceTargetKind::from_str("author-and-committer"),
        Ok(ReplaceTargetKind::AuthorAndCommitter)
    );
}

#[test]
fn target_kind_refuses_another_word() {
    for word in ["", "Author", "author-only", "committer-only", "both", "author "] {
        assert_eq!(
            ReplaceTargetKind::from_str(word),
            Err(InvalidArguments(
                "The only value that can be specified for replace-target is `author` or \
                 `committer` or `author-and-committer`."
                    .to_string()
            ))
        );
    }
}
