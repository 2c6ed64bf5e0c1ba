use git_author::email_address::EmailAddress;
use git_author::error::{AuthorFieldError, Error};
use git_author::git::{Author, AuthorBuilder};

#[test]
fn biuld() {
    let author = AuthorBuilder::new()
        .name("hoge")
        .email("fuga@foo.com")
        .build()
        .unwrap();
    assert_eq!(
        author,
        Author::new(
            Some("hoge"),
            Some(EmailAddress::from_str("fuga@foo.com").unwrap())
        )
    );
    assert_eq!(author.name(), &Some("hoge".to_string()));
    assert_eq!(
        author.email().as_ref().map(|e| e.to_string()),
        Some("fuga@foo.com".to_string())
    );
}

#[test]
#[should_panic]
fn build_empty_name() {
    let _ = AuthorBuilder::new().email("fuga@foo.com").build().unwrap();
}

#[test]
#[should_panic]
fn build_empty_email() {
    let _ = AuthorBuilder::new().name("hoge").build().unwrap();
}

#[test]
#[should_panic]
fn build_empty_params() {
    let _ = AuthorBuilder::new().build().unwrap();
}

#[test]
fn build_names_what_is_missing() {
    assert!(matches!(
        AuthorBuilder::new().email("fuga@foo.com").build(),
        Err(Error::AuthorField(AuthorFieldError::NameIsNone))
    ));
    assert!(matches!(
        AuthorBuilder::new().name("hoge").build(),
        Err(Error::AuthorField(AuthorFieldError::EmailIsNone))
    ));
    assert!(matches!(
        AuthorBuilder::new().build(),
        Err(Error::AuthorField(AuthorFieldError::NameAndEmailAreNone))
    ));
}

#[test]
fn build_takes_a_blank_name_for_none() {
    assert!(matches!(
        AuthorBuilder::new().name("   ").email("fuga@foo.com").build(),
        Err(Error::AuthorField(AuthorFieldError::NameIsNone))
    ));
}

#[test]
fn build_refuses_an_invalid_email() {
    match AuthorBuilder::new().name("hoge").email("not-an-email").build() {
        Err(Error::InvalidEmailAddress(e)) => assert_eq!(e.address(), "not-an-email"),
        other => panic!("unexpected: {:?}", other),
    }
}

#[test]
fn build_keeps_the_last_value_given() {
    let author = AuthorBuilder::new()
        .name("first")
        .name(" second ")
        .email("a@foo.com")
        .email("b@foo.com")
        .build()
        .unwrap();
    assert_eq!(author.to_string(), "second <b@foo.com>");
}
