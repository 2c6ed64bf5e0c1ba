//! The two settings that make up an identity.

use vstd::prelude::*;

verus! {

#[derive(Debug, Clone, Copy, PartialEq, Eq, Structural)]
pub enum UserParameter {
    Name,
    Email,
}

impl UserParameter {
    /// The key of the setting.
    pub open spec fn key(self) -> Seq<char> {
        match self {
            UserParameter::Name => "user.name"@,
            UserParameter::Email => "user.email"@,
        }
    }

    pub fn to_arg(self) -> (arg: String)
        ensures
            arg@ == self.key(),
    {
        match self {
            UserParameter::Name => "user.name".to_owned(),
            UserParameter::Email => "user.email".to_owned(),
        }
    }
}

} // verus!
