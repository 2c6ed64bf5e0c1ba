//! Which configuration file a setting is read from or written to.

use vstd::prelude::*;
use vstd::string::StringExecFns;

verus! {

/// Config file location
#[derive(Debug, Clone, Copy, PartialEq, Eq, Structural)]
pub enum ConfigFileLocation {
    /// use global config file
    Global,
    /// use repository config file
    Local,
}

impl ConfigFileLocation {
    pub const VARIANTRS: [Self; 2] = [Self::Global, Self::Local];

    /// The name of the location.
    pub open spec fn name(self) -> Seq<char> {
        match self {
            ConfigFileLocation::Global => "global"@,
            ConfigFileLocation::Local => "local"@,
        }
    }

    /// The location that two command-line flags ask for: the local one
    /// where both are given, none where neither is.
    pub open spec fn of_flags(local: bool, global: bool) -> Option<Self> {
        if local {
            Some(ConfigFileLocation::Local)
        } else if global {
            Some(ConfigFileLocation::Global)
        } else {
            None
        }
    }

    pub fn from_flags(local: bool, global: bool) -> (location: Option<Self>)
        ensures
            location == Self::of_flags(local, global),
    {
        match (local, global) {
            (true, _) => Some(ConfigFileLocation::Local),
            (_, true) => Some(ConfigFileLocation::Global),
            _ => None,
        }
    }

    /// The name of the location.
    pub fn to_string(self) -> (s: String)
        ensures
            s@ == self.name(),
    {
        match self {
            ConfigFileLocation::Global => "global".to_owned(),
            ConfigFileLocation::Local => "local".to_owned(),
        }
    }

    /// The option of `git config` that selects the location.
    pub fn to_arg(self) -> (arg: String)
        ensures
            arg@ == "--"@ + self.name(),
    {
        let mut arg = "--".to_owned();
        arg.append(self.to_string().as_str());
        arg
    }
}

} // verus!
