//! The identity of an author or committer.

mod author_builder;

pub use author_builder::AuthorBuilder;
use vstd::prelude::*;
use vstd::string::StringExecFns;
use crate::email_address::{canonical, is_canonical, is_refused, EmailAddress};
use crate::error::InvalidEmailAddressError;
use crate::text::{is_trimmed, lemma_trimmed_is_trimmed, trim, trimmed};

verus! {

/// Which of its two fields an identity has.
#[derive(Debug, Clone, Copy, PartialEq, Eq, Structural)]
pub enum Completeness {
    Complete,
    NameMissing,
    EmailMissing,
    BothMissing,
}

/// An identity as plain values: a display name and an email address, each
/// of which may be absent.
pub struct AuthorView {
    pub name: Option<Seq<char>>,
    pub email: Option<Seq<char>>,
}

impl AuthorView {
    /// A name, where present, is not empty and has no white space around
    /// it; an email address, where present, is canonical.
    pub open spec fn wf(self) -> bool {
        &&& self.name matches Some(n) ==> n.len() > 0 && is_trimmed(n)
        &&& self.email matches Some(e) ==> is_canonical(e)
    }

    /// Which of its two fields the identity has.
    pub open spec fn classify(self) -> Completeness {
        match (self.name, self.email) {
            (Some(_), Some(_)) => Completeness::Complete,
            (None, Some(_)) => Completeness::NameMissing,
            (Some(_), None) => Completeness::EmailMissing,
            (None, None) => Completeness::BothMissing,
        }
    }

    /// The identity has both fields.
    pub open spec fn is_complete(self) -> bool {
        self.name is Some && self.email is Some
    }

    /// The identity on one line: `name <email>`, with an absent part left out.
    pub open spec fn display(self) -> Seq<char> {
        match (self.name, self.email) {
            (Some(n), Some(e)) => n + " <"@ + e + ">"@,
            (Some(n), None) => n,
            (None, Some(e)) => "<"@ + e + ">"@,
            (None, None) => Seq::empty(),
        }
    }

    /// The identity as it is reported to the user, with a remark on what
    /// is absent.
    pub open spec fn report(self) -> Seq<char> {
        match (self.name, self.email) {
            (Some(n), Some(e)) => n + " <"@ + e + ">"@,
            (Some(n), None) => n + " (email is empty)"@,
            (None, Some(e)) => "<"@ + e + "> (name is empty)"@,
            (None, None) => "name and email are empty"@,
        }
    }
}

/// An identity with both fields is complete; one that lacks a field is
/// classified by what it lacks.
pub proof fn lemma_classify(identity: AuthorView)
    ensures
        identity.name is Some && identity.email is Some ==> identity.classify()
            == Completeness::Complete,
        identity.name is None && identity.email is Some ==> identity.classify()
            == Completeness::NameMissing,
        identity.name is Some && identity.email is None ==> identity.classify()
            == Completeness::EmailMissing,
        identity.name is None && identity.email is None ==> identity.classify()
            == Completeness::BothMissing,
        identity.classify() == Completeness::Complete <==> identity.is_complete(),
{
}

/// A name as an identity keeps it: trimmed, and absent where nothing but
/// white space was given.
pub open spec fn normalized_name(name: Option<Seq<char>>) -> Option<Seq<char>> {
    match name {
        Some(n) => if trimmed(n).len() == 0 {
            None
        } else {
            Some(trimmed(n))
        },
        None => None,
    }
}

/// The identity that a name and an email address as given make, where
/// the email address is one.
pub open spec fn built(name: Option<Seq<char>>, email: Option<Seq<char>>) -> AuthorView {
    AuthorView { name: normalized_name(name), email: canonical(email) }
}

/// The identity of an author or committer.
#[derive(Debug, PartialEq, Eq)]
pub struct Author {
    name: Option<String>,
    email: Option<EmailAddress>,
}

impl View for Author {
    type V = AuthorView;

    closed spec fn view(&self) -> AuthorView {
        AuthorView { name: self.name.deep_view(), email: self.email.deep_view() }
    }
}

impl Clone for Author {
    fn clone(&self) -> (copy: Self)
        ensures
            copy@ == self@,
    {
        proof {
            use_type_invariant(self);
        }
        let name = match &self.name {
            Some(n) => Some(n.clone()),
            None => None,
        };
        let email = match &self.email {
            Some(e) => Some(e.clone()),
            None => None,
        };
        Author { name, email }
    }
}

impl Author {
    #[verifier::type_invariant]
    pub open spec fn is_valid(&self) -> bool {
        self@.wf()
    }

    /// An identity of a name as given and an address that was validated.
    pub fn new(name: Option<&str>, email: Option<EmailAddress>) -> (author: Author)
        ensures
            author@.name == normalized_name(name.deep_view()),
            author@.email == email.deep_view(),
            author@.wf(),
    {
        let name = match name {
            Some(n) => {
                let t = trim(n);
                proof {
                    lemma_trimmed_is_trimmed(n@);
                }
                if t.as_str().is_empty() {
                    None
                } else {
                    Some(t)
                }
            },
            None => None,
        };
        proof {
            if let Some(e) = &email {
                use_type_invariant(e);
            }
        }
        Author { name, email }
    }

    /// An identity of a name and an email address as given: the address
    /// is validated, and the identity refused where it is none.
    pub fn parse(name: Option<&str>, email: Option<&str>) -> (r: Result<
        Author,
        InvalidEmailAddressError,
    >)
        ensures
            match r {
                Ok(author) => !is_refused(email.deep_view()) && author@ == built(
                    name.deep_view(),
                    email.deep_view(),
                ),
                Err(e) => is_refused(email.deep_view()) && Some(e@) == email.deep_view(),
            },
    {
        let email = match email {
            Some(e) => match EmailAddress::from_str(e) {
                Ok(address) => Some(address),
                Err(e) => {
                    return Err(e);
                },
            },
            None => None,
        };
        Ok(Author::new(name, email))
    }

    pub fn name(&self) -> (name: &Option<String>)
        ensures
            name.deep_view() == self@.name,
    {
        &self.name
    }

    pub fn email(&self) -> (email: &Option<EmailAddress>)
        ensures
            email.deep_view() == self@.email,
    {
        &self.email
    }

    /// Which fields the identity has.
    pub fn classify(&self) -> (c: Completeness)
        ensures
            c == self@.classify(),
    {
        match (&self.name, &self.email) {
            (Some(_), Some(_)) => Completeness::Complete,
            (None, Some(_)) => Completeness::NameMissing,
            (Some(_), None) => Completeness::EmailMissing,
            (None, None) => Completeness::BothMissing,
        }
    }

    pub fn has_none_field(&self) -> (b: bool)
        ensures
            b == !self@.is_complete(),
    {
        self.name.is_none() || self.email.is_none()
    }

    /// The identity on one line.
    pub fn to_string(&self) -> (s: String)
        ensures
            s@ == self@.display(),
    {
        match (&self.name, &self.email) {
            (Some(name), Some(email)) => {
                let mut s = name.clone();
                s.append(" <");
                s.append(email.as_str());
                s.append(">");
                s
            },
            (Some(name), None) => name.clone(),
            (None, Some(email)) => {
                let mut s = "<".to_owned();
                s.append(email.as_str());
                s.append(">");
                s
            },
            (None, None) => String::new(),
        }
    }

    /// The identity as it is reported to the user.
    pub fn report(&self) -> (s: String)
        ensures
            s@ == self@.report(),
    {
        match (&self.name, &self.email) {
            (Some(name), Some(email)) => {
                let mut s = name.clone();
                s.append(" <");
                s.append(email.as_str());
                s.append(">");
                s
            },
            (Some(name), None) => {
                let mut s = name.clone();
                s.append(" (email is empty)");
                s
            },
            (None, Some(email)) => {
                let mut s = "<".to_owned();
                s.append(email.as_str());
                s.append("> (name is empty)");
                s
            },
            (None, None) => "name and email are empty".to_owned(),
        }
    }
}

} // verus!
