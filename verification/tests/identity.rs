use git_author::email_address::{checked_address, EmailAddress};
use git_author::error::{AuthorFieldError, InvalidEmailAddressError};
use git_author::git::{Author, Completeness};

fn email(text: &str) -> EmailAddress {
    EmailAddress::from_str(text).unwrap()
}

#[test]
fn email_address_accepts_an_address() {
    let address = EmailAddress::from_str("alice@example.com").unwrap();
    assert_eq!(address.as_str(), "alice@example.com");
    assert_eq!(address.to_string(), "alice@example.com");
    assert_eq!(address.clone(), address);
}

#[test]
fn email_address_accepts_unicode_and_quoted_local_parts() {
    assert_eq!(email("foö@bücher.de").as_str(), "foö@bücher.de");
    assert_eq!(email("\"a b\"@example.com").as_str(), "\"a b\"@example.com");
    assert_eq!(email("a$b`c@example.com").as_str(), "a$b`c@example.com");
}

#[test]
fn email_address_refuses_what_is_no_address() {
    for text in ["not-an-email", "", "@", "a@", "@b.com", "test@-iana.org", "a b@c.com"] {
        let error = EmailAddress::from_str(text).unwrap_err();
        assert_eq!(error.address(), text);
    }
}

#[test]
fn checked_address_follows_the_parser() {
    assert_eq!(
        checked_address("x", Some("canonical@example.com".to_string())),
        Ok("canonical@example.com".to_string())
    );
    assert_eq!(
        checked_address("not-an-email", None),
        Err(InvalidEmailAddressError::new("not-an-email"))
    );
}

#[test]
fn invalid_email_address_error_keeps_the_text() {
    let error = InvalidEmailAddressError::new("nobody");
    assert_eq!(error.address(), "nobody");
    assert_eq!(error.clone(), error);
    assert_eq!(error.to_string(), "Invalid email address error: nobody");
}

#[test]
fn author_trims_the_name() {
    let author = Author::new(Some("  Alice Liddell \t\n"), Some(email("alice@example.com")));
    assert_eq!(author.name(), &Some("Alice Liddell".to_string()));
    assert_eq!(author.email(), &Some(email("alice@example.com")));
}

#[test]
fn author_trims_unicode_white_space() {
    let author = Author::new(Some("\u{3000}\u{a0}Alice\u{2003}"), None);
    assert_eq!(author.name(), &Some("Alice".to_string()));
}

#[test]
fn author_takes_a_blank_name_for_none() {
    for name in ["", " ", "\t \n", "\u{3000}"] {
        let author = Author::new(Some(name), None);
        assert_eq!(author.name(), &None);
    }
    assert_eq!(Author::new(None, None).name(), &None);
}

#[test]
fn author_keeps_inner_white_space() {
    let author = Author::new(Some(" A.  Smith "), None);
    assert_eq!(author.name(), &Some("A.  Smith".to_string()));
}

#[test]
fn classify_names_what_is_missing() {
    let complete = Author::new(Some("Alice"), Some(email("alice@example.com")));
    let no_name = Author::new(None, Some(email("alice@example.com")));
    let blank_name = Author::new(Some("  "), Some(email("alice@example.com")));
    let no_email = Author::new(Some("Alice"), None);
    let nothing = Author::new(None, None);
    assert_eq!(complete.classify(), Completeness::Complete);
    assert_eq!(no_name.classify(), Completeness::NameMissing);
    assert_eq!(blank_name.classify(), Completeness::NameMissing);
    assert_eq!(no_email.classify(), Completeness::EmailMissing);
    assert_eq!(nothing.classify(), Completeness::BothMissing);
    assert!(!complete.has_none_field());
    assert!(no_name.has_none_field());
    assert!(no_email.has_none_field());
    assert!(nothing.has_none_field());
}

#[test]
fn author_field_error_names_what_is_missing() {
    let complete = Author::new(Some("Alice"), Some(email("alice@example.com")));
    let no_name = Author::new(None, Some(email("alice@example.com")));
    let no_email = Author::new(Some("Alice"), None);
    let nothing = Author::new(None, None);
    assert_eq!(
        AuthorFieldError::new(&complete).unwrap_err().0,
        "author has no None parameter."
    );
    assert_eq!(AuthorFieldError::new(&no_name), Ok(AuthorFieldError::NameIsNone));
    assert_eq!(AuthorFieldError::new(&no_email), Ok(AuthorFieldError::EmailIsNone));
    assert_eq!(
        AuthorFieldError::new(&nothing),
        Ok(AuthorFieldError::NameAndEmailAreNone)
    );
}

#[test]
fn author_parse_validates_the_email() {
    let author = Author::parse(Some(" Bob "), Some("bob@x.com")).unwrap();
    assert_eq!(author.to_string(), "Bob <bob@x.com>");
    let author = Author::parse(Some("Bob"), None).unwrap();
    assert_eq!(author.classify(), Completeness::EmailMissing);
    let author = Author::parse(None, None).unwrap();
    assert_eq!(author.classify(), Completeness::BothMissing);
}

#[test]
fn author_parse_refuses_an_invalid_email() {
    let error = Author::parse(Some("Bob"), Some("not-an-email")).unwrap_err();
    assert_eq!(error.address(), "not-an-email");
    let error = Author::parse(None, Some("")).unwrap_err();
    assert_eq!(error.address(), "");
}

#[test]
fn author_displays_what_it_has() {
    let address = || Some(email("alice@example.com"));
    assert_eq!(
        Author::new(Some("Alice"), address()).to_string(),
        "Alice <alice@example.com>"
    );
    assert_eq!(Author::new(Some("Alice"), None).to_string(), "Alice");
    assert_eq!(Author::new(None, address()).to_string(), "<alice@example.com>");
    assert_eq!(Author::new(None, None).to_string(), "");
}

#[test]
fn author_report_says_what_is_empty() {
    let address = || Some(email("alice@example.com"));
    assert_eq!(
        Author::new(Some("Alice"), address()).report(),
        "Alice <alice@example.com>"
    );
    assert_eq!(
        Author::new(Some("Alice"), None).report(),
        "Alice (email is empty)"
    );
    assert_eq!(
        Author::new(None, address()).report(),
        "<alice@example.com> (name is empty)"
    );
    assert_eq!(Author::new(None, None).report(), "name and email are empty");
}

#[test]
fn author_clone_is_equal() {
    let author = Author::new(Some("Alice"), Some(email("alice@example.com")));
    assert_eq!(author.clone(), author);
    let nothing = Author::new(None, None);
    assert_eq!(nothing.clone(), nothing);
}
