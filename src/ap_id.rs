use vstd::prelude::*;
use vstd::string::*;
use crate::error::ApiError;

verus! {

/// What `url::Url::parse` makes of a string: its serialisation and its
/// domain, or `None` where it does not parse.
pub uninterp spec fn parsed_url(s: Seq<char>) -> Option<(Seq<char>, Option<Seq<char>>)>;

/// Relies on `url::Url::parse`, read back through `Url::as_str` and
/// `Url::domain`: the result is a function of the input alone.
#[verifier::external_body]
fn parse_url(s: &str) -> (r: Option<(String, Option<String>)>)
    ensures
        match r {
            Some((u, d)) => parsed_url(s@) == Some((u@, opt_view(d))),
            None => parsed_url(s@) is None,
        },
{
    match url::Url::parse(s) {
        Ok(u) => Some((u.as_str().to_string(), u.domain().map(|d| d.to_string()))),
        Err(_) => None,
    }
}

/// The domain of a URL, `None` where it does not parse or has none.
pub open spec fn url_domain(s: Seq<char>) -> Option<Seq<char>> {
    match parsed_url(s) {
        Some((_, d)) => d,
        None => None,
    }
}

/// The view of an optional string.
pub open spec fn opt_view(o: Option<String>) -> Option<Seq<char>> {
    match o {
        Some(s) => Some(s@),
        None => None,
    }
}

/// Equality of two optional strings.
pub fn opt_str_eq(a: &Option<String>, b: &Option<String>) -> (r: bool)
    ensures
        r == (opt_view(*a) == opt_view(*b)),
{
    match (a, b) {
        (Some(x), Some(y)) => x.eq(y),
        (None, None) => true,
        _ => false,
    }
}

/// The globally unique identifier (IRI) of a federated actor, object or
/// activity, held as the serialisation of its URL.
#[derive(Debug)]
pub struct ApId {
    pub url: String,
}

impl Clone for ApId {
    fn clone(&self) -> (r: Self)
        ensures
            r == *self,
    {
        ApId { url: self.url.clone() }
    }
}

/// The public collection: an activity addressed to it is visible to everyone.
pub const PUBLIC_COLLECTION: &'static str = "https://www.w3.org/ns/activitystreams#Public";

impl ApId {
    /// The identifier as a sequence of characters.
    pub open spec fn iri(&self) -> Seq<char> {
        self.url@
    }

    /// The domain of the identifier.
    pub open spec fn host(&self) -> Option<Seq<char>> {
        url_domain(self.url@)
    }

    /// The public collection's IRI.
    pub open spec fn public_iri() -> Seq<char> {
        PUBLIC_COLLECTION@
    }

    /// Parses a URL into an identifier.
    pub fn parse(s: &str) -> (r: Result<ApId, ApiError>)
        ensures
            r is Ok <==> parsed_url(s@) is Some,
            r is Ok ==> r->Ok_0.iri() == parsed_url(s@)->Some_0.0,
            r is Err ==> r->Err_0 == ApiError::InvalidUrl,
    {
        match parse_url(s) {
            Some((u, _)) => Ok(ApId { url: u }),
            None => Err(ApiError::InvalidUrl),
        }
    }

    /// The public collection.
    pub fn public() -> (r: ApId)
        ensures
            r.iri() == Self::public_iri(),
    {
        ApId { url: PUBLIC_COLLECTION.to_string() }
    }

    /// The identifier as a string slice.
    pub fn as_str(&self) -> (r: &str)
        ensures
            r@ == self.iri(),
    {
        self.url.as_str()
    }

    /// The domain of the identifier.
    pub fn domain(&self) -> (r: Option<String>)
        ensures
            opt_view(r) == self.host(),
    {
        match parse_url(self.url.as_str()) {
            Some((_, d)) => d,
            None => None,
        }
    }

    /// Whether two identifiers name the same thing.
    pub fn same(&self, other: &ApId) -> (r: bool)
        ensures
            r == (self.iri() == other.iri()),
    {
        self.url == other.url
    }
}

/// Succeeds exactly when both identifiers have the same domain.
pub fn verify_domains_match(a: &ApId, b: &ApId) -> (r: Result<(), ApiError>)
    ensures
        r == if a.host() == b.host() {
            Ok::<(), ApiError>(())
        } else {
            Err(ApiError::DomainsDoNotMatch)
        },
{
    let da = a.domain();
    let db = b.domain();
    if opt_str_eq(&da, &db) {
        Ok(())
    } else {
        Err(ApiError::DomainsDoNotMatch)
    }
}

/// Succeeds exactly when both identifiers are the same.
pub fn verify_urls_match(a: &ApId, b: &ApId) -> (r: Result<(), ApiError>)
    ensures
        r == if a.iri() == b.iri() {
            Ok::<(), ApiError>(())
        } else {
            Err(ApiError::UrlsDoNotMatch)
        },
{
    if a.same(b) {
        Ok(())
    } else {
        Err(ApiError::UrlsDoNotMatch)
    }
}

/// Whether the identifier occurs in the list.
pub open spec fn contains_iri(ids: Seq<ApId>, iri: Seq<char>) -> bool {
    exists|i: int| 0 <= i < ids.len() && #[trigger] ids[i].iri() == iri
}

/// Whether the list holds the identifier.
pub fn list_contains(ids: &Vec<ApId>, id: &ApId) -> (r: bool)
    ensures
        r == contains_iri(ids@, id.iri()),
{
    let mut i: usize = 0;
    while i < ids.len()
        invariant
            0 <= i <= ids.len(),
            forall|j: int| 0 <= j < i ==> ids@[j].iri() != id.iri(),
        decreases ids.len() - i,
    {
        if ids[i].same(id) {
            return true;
        }
        i = i + 1;
    }
    false
}

/// Succeeds exactly when the list is addressed to the public collection.
pub fn verify_is_public(to: &Vec<ApId>) -> (r: Result<(), ApiError>)
    ensures
        r == if contains_iri(to@, ApId::public_iri()) {
            Ok::<(), ApiError>(())
        } else {
            Err(ApiError::ObjectIsNotPublic)
        },
{
    let p = ApId::public();
    if list_contains(to, &p) {
        Ok(())
    } else {
        Err(ApiError::ObjectIsNotPublic)
    }
}

} // verus!
