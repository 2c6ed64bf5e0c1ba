//! The settings under `user` in a git configuration.

use vstd::prelude::*;

verus! {

#[derive(Debug, Clone, Copy, PartialEq, Eq, Structural)]
pub enum User {
    Name,
    Email,
}

impl User {
    /// The key of the setting.
    pub open spec fn key(self) -> Seq<char> {
        match self {
            User::Name => "user.name"@,
            User::Email => "user.email"@,
        }
    }

    pub fn to_arg(self) -> (arg: String)
        ensures
            arg@ == self.key(),
    {
        match self {
            User::Name => "user.name".to_owned(),
            User::Email => "user.email".to_owned(),
        }
    }
}

} // verus!
