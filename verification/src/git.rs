//! Identities, filters, targets, and what is handed to git and made of its
//! answers. Nothing here runs a command: each function either makes the
//! arguments of one or reads what one has written.
//!
//! What the texts that filters and targets make mean to the shell is told
//! in `condition` and `content`; what a rewrite does to a commit, in
//! `rewrite`; and that the shell runs the script of a replacement as that
//! rewrite, in `run`.

mod author;
pub mod condition;
mod config_file_location;
pub mod content;
mod params;
mod replace_filter;
mod replace_target;
pub mod rewrite;
pub mod run;
mod script;
mod user_parameter;
mod validator;

pub use author::{
    built, lemma_classify, normalized_name, Author, AuthorBuilder, AuthorView, Completeness,
};
pub use config_file_location::ConfigFileLocation;
pub use params::User;
pub use replace_filter::{
    author_condition, author_condition_format, committer_condition, committer_condition_format,
    comparison, comparison_format, lemma_complete_filter_compiles, lemma_connectives,
    lemma_incomplete_filter_fails, ReplaceFilter, ReplaceFilterView,
};
pub use replace_target::{
    assignment, assignment_format, author_content, author_format, committer_content,
    committer_format, lemma_complete_target_compiles, lemma_incomplete_target_fails,
    ReplaceTarget, ReplaceTargetKind, ReplaceTargetView,
};
pub use script::{
    branch, branch_format, conditional, replace, replace_script, replace_simple, replace_target,
    selected_script, selection, simple_script,
};
pub use user_parameter::UserParameter;
pub use validator::{
    can_be_written, check_identities, complete_fields, first_failure, first_refusal, lacks_field,
    view_of, Refusal, Role,
};
use vstd::prelude::*;
use vstd::utf8::{decode_utf8, valid_utf8};
use crate::email_address::{is_refused, EmailAddress};
use crate::error::{
    missing_field, CommandExecuteError, GetError, InvalidArguments, OutputError, ReplaceError,
    SetError,
};
use crate::text::{strip_trailing, without_trailing};

verus! {

/// What a command left behind: whether it succeeded, and what it wrote to
/// its output and to its error stream.
#[derive(Debug, PartialEq, Eq)]
pub struct CommandOutput {
    pub success: bool,
    pub stdout: Vec<u8>,
    pub stderr: Vec<u8>,
}

/// The text that `bytes` encode, or the error that says that they encode
/// none.
pub fn decode(bytes: Vec<u8>) -> (r: Result<String, OutputError>)
    ensures
        match r {
            Ok(text) => valid_utf8(bytes@) && text@ == decode_utf8(bytes@),
            Err(OutputError::FromUtf8(_)) => !valid_utf8(bytes@),
            Err(_) => false,
        },
{
    match String::from_utf8(bytes) {
        Ok(text) => Ok(text),
        Err(e) => Err(OutputError::FromUtf8(e)),
    }
}

/// The failure of a command, told by what it wrote to its error stream.
pub fn command_failure(stderr: Vec<u8>) -> (e: OutputError)
    ensures
        match e {
            OutputError::CommandExecute(e) => valid_utf8(stderr@) && e@ == decode_utf8(stderr@),
            OutputError::FromUtf8(_) => !valid_utf8(stderr@),
            OutputError::Io(_) => false,
        },
{
    match decode(stderr) {
        Ok(description) => OutputError::CommandExecute(CommandExecuteError(description)),
        Err(e) => e,
    }
}

/// What a command wrote, where it succeeded; else its failure.
pub fn output_to_result(output: CommandOutput) -> (r: Result<String, OutputError>)
    ensures
        match r {
            Ok(text) => output.success && valid_utf8(output.stdout@) && text@ == decode_utf8(
                output.stdout@,
            ),
            Err(OutputError::CommandExecute(e)) => !output.success && valid_utf8(output.stderr@)
                && e@ == decode_utf8(output.stderr@),
            Err(OutputError::FromUtf8(_)) => if output.success {
                !valid_utf8(output.stdout@)
            } else {
                !valid_utf8(output.stderr@)
            },
            Err(OutputError::Io(_)) => false,
        },
{
    if output.success {
        decode(output.stdout)
    } else {
        Err(command_failure(output.stderr))
    }
}

/// The arguments with which git reads one setting.
pub open spec fn get_arguments(
    location: Option<ConfigFileLocation>,
    parameter: UserParameter,
) -> Seq<Seq<char>> {
    match location {
        Some(location) => seq!["config"@, "--"@ + location.name(), parameter.key()],
        None => seq!["config"@, parameter.key()],
    }
}

/// The arguments with which git writes one setting.
pub open spec fn set_arguments(
    location: ConfigFileLocation,
    parameter: UserParameter,
    value: Seq<char>,
) -> Seq<Seq<char>> {
    seq!["config"@, "--"@ + location.name(), parameter.key(), value]
}

/// The arguments with which git removes one setting.
pub open spec fn unset_arguments(
    location: Option<ConfigFileLocation>,
    parameter: UserParameter,
) -> Seq<Seq<char>> {
    match location {
        Some(location) => seq!["config"@, "--"@ + location.name(), "--unset"@, parameter.key()],
        None => seq!["config"@, "--unset"@, parameter.key()],
    }
}

/// The arguments with which git rewrites the commits of the current
/// branch under an environment filter.
pub open spec fn replace_arguments(script: Seq<char>) -> Seq<Seq<char>> {
    seq!["filter-branch"@, "-f"@, "--env-filter"@, script]
}

/// The arguments of the command that reads `user.name` or `user.email`.
pub fn get_git_user_param_args(
    location: Option<ConfigFileLocation>,
    user_parameter: UserParameter,
) -> (args: Vec<String>)
    ensures
        args.deep_view() == get_arguments(location, user_parameter),
{
    let mut args: Vec<String> = Vec::new();
    args.push("config".to_owned());
    if let Some(location) = location {
        args.push(location.to_arg());
    }
    args.push(user_parameter.to_arg());
    assert(args.deep_view() =~= get_arguments(location, user_parameter));
    args
}

/// The value of a setting, told by what the command that reads it left
/// behind: absent where the command failed without a word.
pub fn get_git_user_param(output: CommandOutput) -> (r: Result<Option<String>, OutputError>)
    ensures
        match r {
            Ok(Some(value)) => output.success && valid_utf8(output.stdout@) && value@
                == without_trailing(decode_utf8(output.stdout@), '\n'),
            Ok(None) => !output.success && output.stderr@.len() == 0,
            Err(OutputError::CommandExecute(e)) => !output.success && output.stderr@.len() > 0
                && valid_utf8(output.stderr@) && e@ == decode_utf8(output.stderr@),
            Err(OutputError::FromUtf8(_)) => if output.success {
                !valid_utf8(output.stdout@)
            } else {
                output.stderr@.len() > 0 && !valid_utf8(output.stderr@)
            },
            Err(OutputError::Io(_)) => false,
        },
{
    if output.success {
        let s = decode(output.stdout)?;
        Ok(Some(strip_trailing(s.as_str(), '\n')))
    } else if output.stderr.len() == 0 {
        Ok(None)
    } else {
        Err(command_failure(output.stderr))
    }
}

/// get author(user.name and email): the identity that the two settings
/// make, as the commands that read them gave them.
pub fn get_author(name: Option<String>, email: Option<String>) -> (r: Result<Author, GetError>)
    ensures
        match r {
            Ok(author) => !is_refused(email.deep_view()) && author@ == built(
                name.deep_view(),
                email.deep_view(),
            ),
            Err(GetError::InvalidEmailAddress(e)) => is_refused(email.deep_view()) && Some(e@)
                == email.deep_view(),
            Err(GetError::Output(_)) => false,
        },
{
    let name_text = match &name {
        Some(n) => Some(n.as_str()),
        None => None,
    };
    let email_text = match &email {
        Some(e) => Some(e.as_str()),
        None => None,
    };
    match Author::parse(name_text, email_text) {
        Ok(author) => Ok(author),
        Err(e) => Err(GetError::InvalidEmailAddress(e)),
    }
}

/// The arguments of the command that writes `user.name` or `user.email`.
pub fn set_git_user_param_args(
    location: ConfigFileLocation,
    user_parameter: UserParameter,
    value: &str,
) -> (args: Vec<String>)
    ensures
        args.deep_view() == set_arguments(location, user_parameter, value@),
{
    let mut args: Vec<String> = Vec::new();
    args.push("config".to_owned());
    args.push(location.to_arg());
    args.push(user_parameter.to_arg());
    args.push(value.to_owned());
    assert(args.deep_view() =~= set_arguments(location, user_parameter, value@));
    args
}

/// What the command that writes a setting wrote, where it succeeded; else
/// its failure.
pub fn set_git_user_param(output: CommandOutput) -> (r: Result<String, OutputError>)
    ensures
        match r {
            Ok(text) => output.success && valid_utf8(output.stdout@) && text@ == decode_utf8(
                output.stdout@,
            ),
            Err(OutputError::CommandExecute(e)) => !output.success && valid_utf8(output.stderr@)
                && e@ == decode_utf8(output.stderr@),
            Err(OutputError::FromUtf8(_)) => if output.success {
                !valid_utf8(output.stdout@)
            } else {
                !valid_utf8(output.stderr@)
            },
            Err(OutputError::Io(_)) => false,
        },
{
    output_to_result(output)
}

/// Set git author: the arguments of the two commands that write the name
/// and the email address of a complete identity, in this order.
pub fn set_author(location: ConfigFileLocation, author: &Author) -> (r: Result<
    (Vec<String>, Vec<String>),
    SetError,
>)
    ensures
        match r {
            Ok((name, email)) => {
                &&& author@.is_complete()
                &&& name.deep_view() == set_arguments(
                    location,
                    UserParameter::Name,
                    author@.name->0,
                )
                &&& email.deep_view() == set_arguments(
                    location,
                    UserParameter::Email,
                    author@.email->0,
                )
            },
            Err(SetError::AuthorField(e)) => missing_field(author@) == Some(e),
            Err(SetError::Output(_)) => false,
        },
{
    match complete_fields(author) {
        Ok((name, email)) => Ok(
            (
                set_git_user_param_args(location, UserParameter::Name, name),
                set_git_user_param_args(location, UserParameter::Email, email),
            ),
        ),
        Err(e) => Err(SetError::AuthorField(e)),
    }
}

/// The arguments of the command that removes `user.name` or `user.email`.
pub fn unset_git_user_param_args(
    location: Option<ConfigFileLocation>,
    user_parameter: UserParameter,
) -> (args: Vec<String>)
    ensures
        args.deep_view() == unset_arguments(location, user_parameter),
{
    let mut args: Vec<String> = Vec::new();
    args.push("config".to_owned());
    if let Some(location) = location {
        args.push(location.to_arg());
    }
    args.push("--unset".to_owned());
    args.push(user_parameter.to_arg());
    assert(args.deep_view() =~= unset_arguments(location, user_parameter));
    args
}

/// Whether a setting is gone, told by what the command that removes it
/// left behind: one that failed without a word had nothing to remove.
pub fn unset_git_user_param(output: CommandOutput) -> (r: Result<(), OutputError>)
    ensures
        match r {
            Ok(_) => output.success || output.stderr@.len() == 0,
            Err(OutputError::CommandExecute(e)) => !output.success && output.stderr@.len() > 0
                && valid_utf8(output.stderr@) && e@ == decode_utf8(output.stderr@),
            Err(OutputError::FromUtf8(_)) => !output.success && output.stderr@.len() > 0
                && !valid_utf8(output.stderr@),
            Err(OutputError::Io(_)) => false,
        },
{
    if output.success || output.stderr.len() == 0 {
        Ok(())
    } else {
        Err(command_failure(output.stderr))
    }
}

/// Unset the author parameters: the arguments of the two commands that
/// remove the name and the email address, in this order.
pub fn unset_author(location: Option<ConfigFileLocation>) -> (args: (Vec<String>, Vec<String>))
    ensures
        args.0.deep_view() == unset_arguments(location, UserParameter::Name),
        args.1.deep_view() == unset_arguments(location, UserParameter::Email),
{
    (
        unset_git_user_param_args(location, UserParameter::Name),
        unset_git_user_param_args(location, UserParameter::Email),
    )
}

/// The identity that a replacement writes, as the command line gives it:
/// one of a name and an email address, none where neither was given (the
/// configured identity then takes its place). One of the two alone is
/// refused.
pub fn new_author(new_name: Option<&str>, new_email: Option<EmailAddress>) -> (r: Result<
    Option<Author>,
    InvalidArguments,
>)
    ensures
        match r {
            Ok(Some(author)) => {
                &&& new_name is Some
                &&& new_email is Some
                &&& author@.name == normalized_name(new_name.deep_view())
                &&& author@.email == new_email.deep_view()
            },
            Ok(None) => new_name is None && new_email is None,
            Err(e) => (new_name is Some) != (new_email is Some) && e@
                == "new-name and new-email must be given together."@,
        },
{
    match (new_name, new_email) {
        (Some(name), Some(email)) => Ok(Some(Author::new(Some(name), Some(email)))),
        (None, None) => Ok(None),
        _ => Err(InvalidArguments("new-name and new-email must be given together.".to_owned())),
    }
}

/// The arguments of the command that rewrites the commits of the current
/// branch with `condition_arg` as its environment filter.
pub fn replace_impl_args(condition_arg: &str) -> (args: Vec<String>)
    ensures
        args.deep_view() == replace_arguments(condition_arg@),
{
    let mut args: Vec<String> = Vec::new();
    args.push("filter-branch".to_owned());
    args.push("-f".to_owned());
    args.push("--env-filter".to_owned());
    args.push(condition_arg.to_owned());
    assert(args.deep_view() =~= replace_arguments(condition_arg@));
    args
}

/// What the command that rewrites the commits wrote, where it succeeded;
/// else its failure. Nothing is tried a second time: what a run that
/// failed has left of the commits is for the caller to look at.
pub fn replace_impl(output: CommandOutput) -> (r: Result<String, ReplaceError>)
    ensures
        match r {
            Ok(text) => output.success && valid_utf8(output.stdout@) && text@ == decode_utf8(
                output.stdout@,
            ),
            Err(ReplaceError::Output(OutputError::CommandExecute(e))) => !output.success
                && valid_utf8(output.stderr@) && e@ == decode_utf8(output.stderr@),
            Err(ReplaceError::Output(OutputError::FromUtf8(_))) => if output.success {
                !valid_utf8(output.stdout@)
            } else {
                !valid_utf8(output.stderr@)
            },
            Err(_) => false,
        },
{
    match output_to_result(output) {
        Ok(text) => Ok(text),
        Err(e) => Err(ReplaceError::Output(e)),
    }
}

} // verus!
