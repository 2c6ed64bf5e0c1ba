//! Email addresses that have passed validation.

use vstd::prelude::*;
use crate::error::InvalidEmailAddressError;

verus! {

/// What `email_address_parser::EmailAddress::parse` makes of a text in its
/// strict mode: the address in its canonical form, which is its local part,
/// `@` and its domain, or `None` where the text is no address.
pub uninterp spec fn canonical_address(text: Seq<char>) -> Option<Seq<char>>;

/// A text is canonical when it is the canonical form of some address.
pub open spec fn is_canonical(text: Seq<char>) -> bool {
    exists|source: Seq<char>| canonical_address(source) == Some(text)
}

/// An email address that was given and is none.
pub open spec fn is_refused(email: Option<Seq<char>>) -> bool {
    email is Some && canonical_address(email->0) is None
}

/// The canonical form of an email address that may be absent.
pub open spec fn canonical(email: Option<Seq<char>>) -> Option<Seq<char>> {
    match email {
        Some(e) => canonical_address(e),
        None => None,
    }
}

/// Calls `email_address_parser::EmailAddress::parse` without options, which
/// is its strict mode, and renders the address that it returns with the
/// `Display` impl of the crate. The contract says only that the outcome
/// depends on the text alone.
#[verifier::external_body]
fn parse_address(text: &str) -> (parsed: Option<String>)
    ensures
        parsed.deep_view() == canonical_address(text@),
{
    match email_address_parser::EmailAddress::parse(text, None) {
        Some(address) => Some(address.to_string()),
        None => None,
    }
}

/// Turns the parser's outcome for `text` into the canonical address or the
/// error that names the rejected text.
pub fn checked_address(text: &str, parsed: Option<String>) -> (r: Result<
    String,
    InvalidEmailAddressError,
>)
    ensures
        match r {
            Ok(address) => parsed == Some(address),
            Err(e) => parsed is None && e@ == text@,
        },
{
    match parsed {
        Some(address) => Ok(address),
        None => Err(InvalidEmailAddressError::new(text)),
    }
}

/// An email address in canonical form.
#[derive(Debug, PartialEq, Eq)]
pub struct EmailAddress {
    text: String,
}

impl View for EmailAddress {
    type V = Seq<char>;

    closed spec fn view(&self) -> Seq<char> {
        self.text@
    }
}

impl DeepView for EmailAddress {
    type V = Seq<char>;

    open spec fn deep_view(&self) -> Seq<char> {
        self@
    }
}

impl Clone for EmailAddress {
    fn clone(&self) -> (copy: Self)
        ensures
            copy@ == self@,
    {
        proof {
            use_type_invariant(self);
        }
        EmailAddress { text: self.text.clone() }
    }
}

impl EmailAddress {
    /// Every address is the canonical form of a text that the parser took.
    #[verifier::type_invariant]
    pub open spec fn is_valid(&self) -> bool {
        is_canonical(self@)
    }

    /// Validates `text` and keeps its canonical form.
    pub fn from_str(text: &str) -> (r: Result<EmailAddress, InvalidEmailAddressError>)
        ensures
            match r {
                Ok(address) => canonical_address(text@) == Some(address@),
                Err(e) => canonical_address(text@) is None && e@ == text@,
            },
    {
        match checked_address(text, parse_address(text)) {
            Ok(address) => Ok(EmailAddress { text: address }),
            Err(e) => Err(e),
        }
    }

    /// The address as text.
    pub fn as_str(&self) -> (s: &str)
        ensures
            s@ == self@,
            is_canonical(s@),
    {
        proof {
            use_type_invariant(self);
        }
        self.text.as_str()
    }

    /// The address as an owned string.
    pub fn to_string(&self) -> (s: String)
        ensures
            s@ == self@,
    {
        self.text.clone()
    }
}

} // verus!
