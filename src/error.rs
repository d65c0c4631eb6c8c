use vstd::prelude::*;

verus! {

/// The caller-facing kinds of failure.
#[derive(Clone, Copy, Debug, PartialEq, Eq, Structural)]
pub enum ErrorKind {
    InternalError,
    BadRequest,
    NotFound,
}

/// The closed set of classified failures, each with a fixed, non-sensitive
/// message. Internal detail never travels in it; it goes to the audit log.
#[derive(Clone, Copy, Debug, PartialEq, Eq, Structural)]
pub enum MyError {
    /// No storage handle could be acquired.
    ClientUnavailable,
    /// No record exists for the token that an update needs.
    NotLinked,
    /// The store refused the update.
    UpdateFailed,
    /// The privilege authority failed to reconcile roles.
    RoleSyncFailed,
    /// The token is already linked to the requested external id.
    AlreadyLinked,
    /// The store refused the creation.
    CreateFailed,
    /// No record exists for the token that a delete names.
    DeleteFailed,
    /// The token is already linked to another external id.
    TokenBoundElsewhere,
    /// The external id is already linked to another token.
    IdBoundElsewhere,
    /// A probe found no record; used inside the create workflow only.
    NotFound,
    /// The store failed while a create probed for existing links.
    LookupFailed,
    /// The store refused a create because the token or the external id was
    /// linked meanwhile by another request.
    LinkConflict,
}

impl MyError {
    /// The kind of a classified failure.
    pub open spec fn spec_kind(self) -> ErrorKind {
        match self {
            MyError::TokenBoundElsewhere | MyError::IdBoundElsewhere | MyError::LinkConflict => ErrorKind::BadRequest,
            MyError::NotFound => ErrorKind::NotFound,
            _ => ErrorKind::InternalError,
        }
    }

    /// The fixed message of a classified failure.
    pub open spec fn text(self) -> Seq<char> {
        match self {
            MyError::ClientUnavailable => "request failed at creating database client, please try again"@,
            MyError::NotLinked => "Failed at retrieving existing data, you may not have your account linked yet"@,
            MyError::UpdateFailed => "The request has unfortunately failed the update"@,
            MyError::RoleSyncFailed => "The role-handling process has failed"@,
            MyError::AlreadyLinked => "You're already linked, please use the update endpoint"@,
            MyError::CreateFailed => "The request has unfortunately failed at creating your account"@,
            MyError::DeleteFailed => "Failed at deleting userdata, this token may not be valid"@,
            MyError::TokenBoundElsewhere => "This account is already bound to another discord id"@,
            MyError::IdBoundElsewhere => "This discord id is already bound to another account"@,
            MyError::NotFound => "The requested data could not be found"@,
            MyError::LookupFailed => "The request has unfortunately failed at checking existing links"@,
            MyError::LinkConflict => "This account or discord id has just been linked by another request"@,
        }
    }

    pub fn kind(&self) -> (r: ErrorKind)
        ensures
            r == self.spec_kind(),
    {
        match self {
            MyError::TokenBoundElsewhere | MyError::IdBoundElsewhere | MyError::LinkConflict => ErrorKind::BadRequest,
            MyError::NotFound => ErrorKind::NotFound,
            _ => ErrorKind::InternalError,
        }
    }

    pub fn message(&self) -> (r: &'static str)
        ensures
            r@ == self.text(),
    {
        match self {
            MyError::ClientUnavailable => "request failed at creating database client, please try again",
            MyError::NotLinked => "Failed at retrieving existing data, you may not have your account linked yet",
            MyError::UpdateFailed => "The request has unfortunately failed the update",
            MyError::RoleSyncFailed => "The role-handling process has failed",
            MyError::AlreadyLinked => "You're already linked, please use the update endpoint",
            MyError::CreateFailed => "The request has unfortunately failed at creating your account",
            MyError::DeleteFailed => "Failed at deleting userdata, this token may not be valid",
            MyError::TokenBoundElsewhere => "This account is already bound to another discord id",
            MyError::IdBoundElsewhere => "This discord id is already bound to another account",
            MyError::NotFound => "The requested data could not be found",
            MyError::LookupFailed => "The request has unfortunately failed at checking existing links",
            MyError::LinkConflict => "This account or discord id has just been linked by another request",
        }
    }
}

} // verus!
