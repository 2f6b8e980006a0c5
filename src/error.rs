use vstd::prelude::*;

verus! {

/// Everything that can go wrong in the federation core.
#[derive(Clone, Copy, Debug, PartialEq, Eq, Structural)]
pub enum ApiError {
    /// An object or actor cannot be resolved locally or remotely.
    NotFound,
    /// An identifier or URL does not parse.
    InvalidUrl,
    /// The domains of two identifiers differ.
    DomainsDoNotMatch,
    /// Two identifiers differ where they must be the same.
    UrlsDoNotMatch,
    /// An activity about a public object is not addressed to the public.
    ObjectIsNotPublic,
    /// An activity about a private object is addressed to the public.
    ObjectIsNotPrivate,
    /// The actor is neither a moderator of the community nor an admin.
    NotAModOrAdmin,
    /// The actor is banned from the site or from the community.
    PersonIsBanned,
    /// The operation is not supported for this kind of object.
    Unreachable,
    /// The person or the community has been deleted or removed.
    Deleted,
    /// A value could not be updated.
    CouldntUpdate,
    /// Only the creator of a comment may edit or delete it.
    NoCommentEditAllowed,
    /// Only the recipient of a private message may mark it.
    CouldntUpdatePrivateMessage,
    /// The acting admin is not senior to every target admin.
    NotHigherAdmin,
    /// The acting moderator is not senior to every target moderator.
    NotHigherMod,
    /// Another local user already uses this email address.
    EmailAlreadyTaken,
    /// The text links to a blocked URL.
    BlockedUrl,
    /// A blocklist pattern is not a valid regular expression.
    InvalidRegex,
    /// A password could not be hashed.
    PasswordHashFailed,
    /// A pagination cursor is malformed.
    CouldntParsePaginationToken,
}

impl ApiError {
    /// Whether the error belongs to the verification class: the activity is
    /// well formed but its actor may not do what it claims.
    pub open spec fn is_verification_failure_spec(self) -> bool {
        match self {
            ApiError::DomainsDoNotMatch | ApiError::UrlsDoNotMatch | ApiError::ObjectIsNotPublic
            | ApiError::ObjectIsNotPrivate | ApiError::NotAModOrAdmin
            | ApiError::PersonIsBanned => true,
            _ => false,
        }
    }

    pub fn is_verification_failure(&self) -> (r: bool)
        ensures
            r == self.is_verification_failure_spec(),
    {
        match self {
            ApiError::DomainsDoNotMatch | ApiError::UrlsDoNotMatch | ApiError::ObjectIsNotPublic
            | ApiError::ObjectIsNotPrivate | ApiError::NotAModOrAdmin
            | ApiError::PersonIsBanned => true,
            _ => false,
        }
    }
}

} // verus!
