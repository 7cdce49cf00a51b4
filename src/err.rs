use vstd::prelude::*;

verus! {

/// The kinds of failure that the library distinguishes.
#[derive(Clone, Copy, Debug, PartialEq, Eq, Structural)]
pub enum ErrorKind {
    /// A lookup by id, secret or username found no row.
    NotFound,
    /// A password did not match the stored hash.
    InvalidCredentials,
    /// The acting user does not own the resource.
    NotOwner,
    /// The acting user is not an administrator.
    NotAdmin,
    /// The input was rejected (a bad key, an unknown kind, a duplicate name).
    InvalidInput,
    /// A collaborator (hashing, storage) failed for reasons opaque to the caller.
    Downstream,
}

/// The error value that every fallible operation of the library returns.
#[derive(Debug)]
pub struct CleoErr {
    pub kind: ErrorKind,
    pub details: String,
}

impl Clone for CleoErr {
    fn clone(&self) -> (r: Self)
        ensures
            r == *self,
    {
        CleoErr { kind: self.kind, details: self.details.clone() }
    }
}

impl CleoErr {
    /// An error carrying an opaque message from a collaborator.
    pub fn new(details: &str) -> (r: CleoErr)
        ensures
            r.kind == ErrorKind::Downstream,
            r.details@ == details@,
    {
        CleoErr { kind: ErrorKind::Downstream, details: details.to_owned() }
    }

    /// An error of the given kind.
    pub fn with_kind(kind: ErrorKind, details: &str) -> (r: CleoErr)
        ensures
            r.kind == kind,
            r.details@ == details@,
    {
        CleoErr { kind, details: details.to_owned() }
    }

    /// The human-readable message of this error.
    pub fn to_string(self) -> (r: String)
        ensures
            r@ == self.details@,
    {
        self.details
    }
}

} // verus!
