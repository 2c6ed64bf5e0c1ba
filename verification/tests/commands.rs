use git_author::email_address::EmailAddress;
use git_author::error::{
    AuthorFieldError, CommandExecuteError, GetError, InvalidArguments, OutputError, ReplaceError,
    SetError,
};
use git_author::git::{
    command_failure, decode, get_author, get_git_user_param, get_git_user_param_args, new_author,
    output_to_result, replace_impl, replace_impl_args, set_author, set_git_user_param,
    set_git_user_param_args, unset_author,
    unset_git_user_param, unset_git_user_param_args, Author, CommandOutput, ConfigFileLocation,
    User, UserParameter,
};

fn output(success: bool, stdout: &[u8], stderr: &[u8]) -> CommandOutput {
    CommandOutput {
        success,
        stdout: stdout.to_vec(),
        stderr: stderr.to_vec(),
    }
}

fn strings(words: &[&str]) -> Vec<String> {
    words.iter().map(|w| w.to_string()).collect()
}

#[test]
fn config_file_location_names_its_option() {
    assert_eq!(ConfigFileLocation::Global.to_arg(), "--global");
    assert_eq!(ConfigFileLocation::Local.to_arg(), "--local");
    assert_eq!(ConfigFileLocation::Global.to_string(), "global");
    assert_eq!(ConfigFileLocation::Local.to_string(), "local");
    assert_eq!(
        ConfigFileLocation::VARIANTRS,
        [ConfigFileLocation::Global, ConfigFileLocation::Local]
    );
}

#[test]
fn config_file_location_follows_the_flags() {
    assert_eq!(
        ConfigFileLocation::from_flags(true, false),
        Some(ConfigFileLocation::Local)
    );
    assert_eq!(
        ConfigFileLocation::from_flags(false, true),
        Some(ConfigFileLocation::Global)
    );
    assert_eq!(
        ConfigFileLocation::from_flags(true, true),
        Some(ConfigFileLocation::Local)
    );
    assert_eq!(ConfigFileLocation::from_flags(false, false), None);
}

#[test]
fn user_parameters_name_their_keys() {
    assert_eq!(UserParameter::Name.to_arg(), "user.name");
    assert_eq!(UserParameter::Email.to_arg(), "user.email");
    assert_eq!(User::Name.to_arg(), "user.name");
    assert_eq!(User::Email.to_arg(), "user.email");
}

#[test]
fn get_arguments_name_location_and_key() {
    assert_eq!(
        get_git_user_param_args(Some(ConfigFileLocation::Global), UserParameter::Name),
        strings(&["config", "--global", "user.name"])
    );
    assert_eq!(
        get_git_user_param_args(Some(ConfigFileLocation::Local), UserParameter::Email),
        strings(&["config", "--local", "user.email"])
    );
    assert_eq!(
        get_git_user_param_args(None, UserParameter::Email),
        strings(&["config", "user.email"])
    );
}

#[test]
fn set_arguments_name_location_key_and_value() {
    assert_eq!(
        set_git_user_param_args(ConfigFileLocation::Local, UserParameter::Name, "A. Smith"),
        strings(&["config", "--local", "user.name", "A. Smith"])
    );
}

#[test]
fn unset_arguments_name_location_and_key() {
    assert_eq!(
        unset_git_user_param_args(Some(ConfigFileLocation::Global), UserParameter::Email),
        strings(&["config", "--global", "--unset", "user.email"])
    );
    assert_eq!(
        unset_git_user_param_args(None, UserParameter::Name),
        strings(&["config", "--unset", "user.name"])
    );
    assert_eq!(
        unset_author(Some(ConfigFileLocation::Local)),
        (
            strings(&["config", "--local", "--unset", "user.name"]),
            strings(&["config", "--local", "--unset", "user.email"])
        )
    );
    assert_eq!(
        unset_author(None),
        (
            strings(&["config", "--unset", "user.name"]),
            strings(&["config", "--unset", "user.email"])
        )
    );
}

#[test]
fn replace_arguments_hand_the_script_to_the_filter() {
    assert_eq!(
        replace_impl_args("if true; then :; fi"),
        strings(&["filter-branch", "-f", "--env-filter", "if true; then :; fi"])
    );
}

#[test]
fn set_author_writes_name_then_email() {
    let author = Author::new(
        Some("A. Smith"),
        Some(EmailAddress::from_str("asmith@example.com").unwrap()),
    );
    let (name, email) = set_author(ConfigFileLocation::Global, &author).unwrap();
    assert_eq!(name, strings(&["config", "--global", "user.name", "A. Smith"]));
    assert_eq!(
        email,
        strings(&["config", "--global", "user.email", "asmith@example.com"])
    );
}

#[test]
fn set_author_refuses_an_incomplete_identity() {
    let no_email = Author::new(Some("A. Smith"), None);
    assert!(matches!(
        set_author(ConfigFileLocation::Local, &no_email),
        Err(SetError::AuthorField(AuthorFieldError::EmailIsNone))
    ));
    let no_name = Author::new(None, Some(EmailAddress::from_str("a@b.com").unwrap()));
    assert!(matches!(
        set_author(ConfigFileLocation::Local, &no_name),
        Err(SetError::AuthorField(AuthorFieldError::NameIsNone))
    ));
    let nothing = Author::new(None, None);
    assert!(matches!(
        set_author(ConfigFileLocation::Local, &nothing),
        Err(SetError::AuthorField(AuthorFieldError::NameAndEmailAreNone))
    ));
}

#[test]
fn decode_reads_utf8() {
    assert_eq!(decode("héllo".as_bytes().to_vec()).unwrap(), "héllo");
    assert_eq!(decode(Vec::new()).unwrap(), "");
    assert!(matches!(
        decode(vec![0x66, 0xff, 0x6f]),
        Err(OutputError::FromUtf8(_))
    ));
    assert!(matches!(decode(vec![0xc3]), Err(OutputError::FromUtf8(_))));
}

#[test]
fn command_failure_carries_the_diagnostic() {
    match command_failure(b"fatal: not a git repository\n".to_vec()) {
        OutputError::CommandExecute(CommandExecuteError(text)) => {
            assert_eq!(text, "fatal: not a git repository\n")
        }
        other => panic!("unexpected: {:?}", other),
    }
    assert!(matches!(
        command_failure(vec![0xff]),
        OutputError::FromUtf8(_)
    ));
}

#[test]
fn output_to_result_returns_the_output_verbatim() {
    assert_eq!(
        output_to_result(output(true, b"Rewrite 1/1\n", b"warning\n")).unwrap(),
        "Rewrite 1/1\n"
    );
    assert_eq!(output_to_result(output(true, b"", b"")).unwrap(), "");
}

#[test]
fn output_to_result_surfaces_the_diagnostic_of_a_failure() {
    match output_to_result(output(false, b"partial", b"fatal: bad revision\n")) {
        Err(OutputError::CommandExecute(CommandExecuteError(text))) => {
            assert_eq!(text, "fatal: bad revision\n")
        }
        other => panic!("unexpected: {:?}", other),
    }
    match output_to_result(output(false, b"", b"")) {
        Err(OutputError::CommandExecute(CommandExecuteError(text))) => assert_eq!(text, ""),
        other => panic!("unexpected: {:?}", other),
    }
}

#[test]
fn output_to_result_reports_what_cannot_be_decoded() {
    assert!(matches!(
        output_to_result(output(true, &[0xff], b"")),
        Err(OutputError::FromUtf8(_))
    ));
    assert!(matches!(
        output_to_result(output(false, b"", &[0xff])),
        Err(OutputError::FromUtf8(_))
    ));
    assert!(output_to_result(output(true, b"fine", &[0xff])).is_ok());
}

#[test]
fn get_git_user_param_strips_the_line_end() {
    assert_eq!(
        get_git_user_param(output(true, b"Bob\n", b"")).unwrap(),
        Some("Bob".to_string())
    );
    assert_eq!(
        get_git_user_param(output(true, b"Bob", b"")).unwrap(),
        Some("Bob".to_string())
    );
    assert_eq!(
        get_git_user_param(output(true, b"\n", b"")).unwrap(),
        Some(String::new())
    );
}

#[test]
fn get_git_user_param_takes_a_silent_failure_for_absent() {
    assert_eq!(get_git_user_param(output(false, b"", b"")).unwrap(), None);
    assert_eq!(get_git_user_param(output(false, b"x", b"")).unwrap(), None);
}

#[test]
fn get_git_user_param_reports_a_failure() {
    match get_git_user_param(output(false, b"", b"error: key does not exist\n")) {
        Err(OutputError::CommandExecute(CommandExecuteError(text))) => {
            assert_eq!(text, "error: key does not exist\n")
        }
        other => panic!("unexpected: {:?}", other),
    }
    assert!(matches!(
        get_git_user_param(output(true, &[0x80], b"")),
        Err(OutputError::FromUtf8(_))
    ));
    assert!(matches!(
        get_git_user_param(output(false, b"", &[0x80])),
        Err(OutputError::FromUtf8(_))
    ));
}

#[test]
fn unset_git_user_param_accepts_success_and_silence() {
    assert!(unset_git_user_param(output(true, b"", b"")).is_ok());
    assert!(unset_git_user_param(output(true, b"", b"warning")).is_ok());
    assert!(unset_git_user_param(output(false, b"", b"")).is_ok());
}

#[test]
fn unset_git_user_param_reports_a_failure() {
    match unset_git_user_param(output(false, b"", b"error: could not lock config file\n")) {
        Err(OutputError::CommandExecute(CommandExecuteError(text))) => {
            assert_eq!(text, "error: could not lock config file\n")
        }
        other => panic!("unexpected: {:?}", other),
    }
    assert!(matches!(
        unset_git_user_param(output(false, b"", &[0xfe])),
        Err(OutputError::FromUtf8(_))
    ));
}

#[test]
fn get_author_with_an_empty_store_has_nothing() {
    let name = get_git_user_param(output(false, b"", b"")).unwrap();
    let email = get_git_user_param(output(false, b"", b"")).unwrap();
    let author = get_author(name, email).unwrap();
    assert_eq!(author.report(), "name and email are empty");
}

#[test]
fn get_author_reads_what_is_stored() {
    let name = get_git_user_param(output(true, b"Bob\n", b"")).unwrap();
    let email = get_git_user_param(output(true, b"bob@x.com\n", b"")).unwrap();
    let author = get_author(name, email).unwrap();
    assert_eq!(author.report(), "Bob <bob@x.com>");
    let author = get_author(Some("Bob".to_string()), None).unwrap();
    assert_eq!(author.report(), "Bob (email is empty)");
    let author = get_author(None, Some("bob@x.com".to_string())).unwrap();
    assert_eq!(author.report(), "<bob@x.com> (name is empty)");
}

#[test]
fn get_author_refuses_a_stored_text_that_is_no_email() {
    match get_author(Some("Bob".to_string()), Some("bob".to_string())) {
        Err(GetError::InvalidEmailAddress(e)) => assert_eq!(e.address(), "bob"),
        other => panic!("unexpected: {:?}", other),
    }
}

#[test]
fn new_author_takes_both_or_neither() {
    let address = || EmailAddress::from_str("asmith@example.com").unwrap();
    let author = new_author(Some(" A. Smith "), Some(address())).unwrap().unwrap();
    assert_eq!(author.to_string(), "A. Smith <asmith@example.com>");
    assert_eq!(new_author(None, None), Ok(None));
    let together = InvalidArguments("new-name and new-email must be given together.".to_string());
    assert_eq!(new_author(Some("A. Smith"), None), Err(together));
    assert!(new_author(None, Some(address())).is_err());
}

#[test]
fn set_git_user_param_reads_the_outcome() {
    assert_eq!(set_git_user_param(output(true, b"", b"")).unwrap(), "");
    match set_git_user_param(output(false, b"", b"error: could not lock config file\n")) {
        Err(OutputError::CommandExecute(CommandExecuteError(text))) => {
            assert_eq!(text, "error: could not lock config file\n")
        }
        other => panic!("unexpected: {:?}", other),
    }
    assert!(matches!(
        set_git_user_param(output(false, b"", &[0xff])),
        Err(OutputError::FromUtf8(_))
    ));
}

#[test]
fn replace_impl_returns_the_output_or_the_diagnostic() {
    assert_eq!(
        replace_impl(output(true, b"Ref 'refs/heads/main' was rewritten\n", b"WARNING\n")).unwrap(),
        "Ref 'refs/heads/main' was rewritten\n"
    );
    match replace_impl(output(false, b"", b"fatal: not a git repository\n")) {
        Err(ReplaceError::Output(OutputError::CommandExecute(CommandExecuteError(text)))) => {
            assert_eq!(text, "fatal: not a git repository\n")
        }
        other => panic!("unexpected: {:?}", other),
    }
    assert!(matches!(
        replace_impl(output(true, &[0xff], b"")),
        Err(ReplaceError::Output(OutputError::FromUtf8(_)))
    ));
}
