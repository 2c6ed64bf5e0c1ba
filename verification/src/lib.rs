//! Reading and rewriting git authorship: identities, the commit filters
//! and replacement targets built from them, and the shell script that
//! applies a replacement to every commit of a branch.

pub mod email_address;
pub mod error;
pub mod git;
pub mod shell;
pub mod text;
