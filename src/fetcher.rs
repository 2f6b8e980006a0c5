use vstd::prelude::*;
use crate::error::ApiError;
use crate::local_user::LocalUser;
use crate::store::{Community, LocalStore, Person, Site};
use crate::text::{eq_ignore_case, find_char, is_first_char, lower_of, lowercase};
use crate::ap_id::url_domain;

verus! {

/// Which kind of actor an identifier is resolved to.
#[derive(Clone, Copy, Debug, PartialEq, Eq, Structural)]
pub enum ActorKind {
    Person,
    Community,
}

/// A person or a community.
#[derive(Debug)]
pub enum UserOrCommunity {
    Person(Person),
    Community(Community),
}

/// A site, a person or a community.
#[derive(Debug)]
pub enum SiteOrCommunityOrUser {
    Site(Site),
    User(UserOrCommunity),
}

/// The instance that an actor belongs to.
pub fn get_instance_id(s: &SiteOrCommunityOrUser) -> (r: i32)
    ensures
        r == match s {
            SiteOrCommunityOrUser::Site(s) => s.instance_id,
            SiteOrCommunityOrUser::User(UserOrCommunity::Person(p)) => p.instance_id,
            SiteOrCommunityOrUser::User(UserOrCommunity::Community(c)) => c.instance_id,
        },
{
    match s {
        SiteOrCommunityOrUser::Site(s) => s.instance_id,
        SiteOrCommunityOrUser::User(UserOrCommunity::Person(p)) => p.instance_id,
        SiteOrCommunityOrUser::User(UserOrCommunity::Community(c)) => c.instance_id,
    }
}

/// The outcome of resolving an identifier: an actor found in the local store,
/// or a handle to discover on its home instance.
#[derive(Debug)]
pub enum Resolution {
    Found(UserOrCommunity),
    Discover(String),
}

/// Two strings agree once lowercased.
pub open spec fn same_ignoring_case(a: Seq<char>, b: Seq<char>) -> bool {
    lower_of(a) == lower_of(b)
}

/// An identifier's domain agrees with `domain` once lowercased.
pub open spec fn domain_matches(host: Option<Seq<char>>, domain: Seq<char>) -> bool {
    host is Some && same_ignoring_case(host->Some_0, domain)
}

/// The person is the one named by `name` at `domain`.
pub open spec fn person_at(p: Person, name: Seq<char>, domain: Seq<char>) -> bool {
    same_ignoring_case(p.name@, name) && domain_matches(url_domain(p.ap_id.url@), domain)
}

/// The community is the one named by `name` at `domain`.
pub open spec fn community_at(c: Community, name: Seq<char>, domain: Seq<char>) -> bool {
    same_ignoring_case(c.name@, name) && domain_matches(url_domain(c.ap_id.url@), domain)
}

/// The person is the local one named by `name`, and counts unless deleted.
pub open spec fn local_person_named(p: Person, name: Seq<char>, include_deleted: bool) -> bool {
    p.local && same_ignoring_case(p.name@, name) && (include_deleted || !p.deleted)
}

/// The community is the local one named by `name`, and counts unless deleted
/// or removed.
pub open spec fn local_community_named(c: Community, name: Seq<char>, include_deleted: bool) -> bool {
    c.local && same_ignoring_case(c.name@, name) && (include_deleted || (!c.deleted && !c.removed))
}

/// The predicate `person_at` for a fixed name and domain.
pub open spec fn person_at_pred(name: Seq<char>, domain: Seq<char>) -> spec_fn(Person) -> bool {
    |p: Person| person_at(p, name, domain)
}

/// The predicate `community_at` for a fixed name and domain.
pub open spec fn community_at_pred(name: Seq<char>, domain: Seq<char>) -> spec_fn(Community) -> bool {
    |c: Community| community_at(c, name, domain)
}

/// The predicate `local_person_named` for a fixed name.
pub open spec fn local_person_pred(name: Seq<char>, include_deleted: bool) -> spec_fn(Person) -> bool {
    |p: Person| local_person_named(p, name, include_deleted)
}

/// The predicate `local_community_named` for a fixed name.
pub open spec fn local_community_pred(name: Seq<char>, include_deleted: bool) -> spec_fn(Community) -> bool {
    |c: Community| local_community_named(c, name, include_deleted)
}

/// `i` is the first position whose row satisfies `f`.
pub open spec fn is_first_match<T>(s: Seq<T>, f: spec_fn(T) -> bool, i: int) -> bool {
    &&& 0 <= i < s.len()
    &&& f(s[i])
    &&& forall|j: int| 0 <= j < i ==> !f(#[trigger] s[j])
}

/// The first row that satisfies `f`.
pub open spec fn first_match<T>(s: Seq<T>, f: spec_fn(T) -> bool) -> Option<T> {
    if exists|i: int| is_first_match(s, f, i) {
        Some(s[choose|i: int| is_first_match(s, f, i)])
    } else {
        None
    }
}

/// A first match is the only one.
proof fn lemma_first_match_unique<T>(s: Seq<T>, f: spec_fn(T) -> bool, i: int)
    requires
        is_first_match(s, f, i),
    ensures
        first_match(s, f) == Some(s[i]),
{
    let k = choose|k: int| is_first_match(s, f, k);
    if k < i {
        assert(!f(s[k]));
    } else if k > i {
        assert(!f(s[i]));
    }
}

/// No row satisfies `f`.
proof fn lemma_no_match<T>(s: Seq<T>, f: spec_fn(T) -> bool)
    requires
        forall|j: int| 0 <= j < s.len() ==> !f(#[trigger] s[j]),
    ensures
        first_match(s, f) is None,
{
    assert(!exists|i: int| is_first_match(s, f, i));
}

/// The actor of this kind in the store named `name` at `domain`.
pub open spec fn actor_at(
    persons: Seq<Person>,
    communities: Seq<Community>,
    kind: ActorKind,
    name: Seq<char>,
    domain: Seq<char>,
) -> Option<UserOrCommunity> {
    match kind {
        ActorKind::Person => match first_match(persons, person_at_pred(name, domain)) {
            Some(p) => Some(UserOrCommunity::Person(p)),
            None => None,
        },
        ActorKind::Community => match first_match(communities, community_at_pred(name, domain)) {
            Some(c) => Some(UserOrCommunity::Community(c)),
            None => None,
        },
    }
}

/// The local actor of this kind named `name`.
pub open spec fn local_actor_named(
    persons: Seq<Person>,
    communities: Seq<Community>,
    kind: ActorKind,
    name: Seq<char>,
    include_deleted: bool,
) -> Option<UserOrCommunity> {
    match kind {
        ActorKind::Person => match first_match(persons, local_person_pred(name, include_deleted)) {
            Some(p) => Some(UserOrCommunity::Person(p)),
            None => None,
        },
        ActorKind::Community => match first_match(communities, local_community_pred(name, include_deleted)) {
            Some(c) => Some(UserOrCommunity::Community(c)),
            None => None,
        },
    }
}

/// How an identifier resolves. `name@domain` is looked up locally; where it is
/// not there, an authenticated requester has the lowercased handle discovered
/// on its home instance and an anonymous one gets `NotFound`, so that nobody
/// can make the instance fetch from others without logging in. A bare `name`
/// is a local actor or nothing.
pub open spec fn resolution_of(
    persons: Seq<Person>,
    communities: Seq<Community>,
    identifier: Seq<char>,
    kind: ActorKind,
    authenticated: bool,
    include_deleted: bool,
) -> Result<Option<UserOrCommunity>, ApiError> {
    if exists|k: int| is_first_char(identifier, '@', k) {
        let k = choose|k: int| is_first_char(identifier, '@', k);
        let name = identifier.subrange(0, k);
        let domain = identifier.subrange(k + 1, identifier.len() as int);
        match actor_at(persons, communities, kind, name, domain) {
            Some(a) => Ok(Some(a)),
            None => if authenticated {
                Ok(None)
            } else {
                Err(ApiError::NotFound)
            },
        }
    } else {
        match local_actor_named(persons, communities, kind, identifier, include_deleted) {
            Some(a) => Ok(Some(a)),
            None => Err(ApiError::NotFound),
        }
    }
}

/// Whether the identifier's domain agrees with `domain` once lowercased.
fn ap_id_domain_matches(id: &crate::ap_id::ApId, domain: &str) -> (r: bool)
    ensures
        r == domain_matches(url_domain(id.url@), domain@),
{
    match id.domain() {
        Some(d) => eq_ignore_case(d.as_str(), domain),
        None => false,
    }
}

impl LocalStore {
    /// Finds the actor of this kind named `name` at `domain`.
    pub fn read_from_name_and_domain(&self, kind: ActorKind, name: &str, domain: &str) -> (r: Option<UserOrCommunity>)
        ensures
            r == actor_at(self.persons@, self.communities@, kind, name@, domain@),
    {
        match kind {
            ActorKind::Person => {
                let ghost f = person_at_pred(name@, domain@);
                let mut i: usize = 0;
                while i < self.persons.len()
                    invariant
                        0 <= i <= self.persons.len(),
                        f == person_at_pred(name@, domain@),
                        kind == ActorKind::Person,
                        forall|j: int| 0 <= j < i ==> !f(#[trigger] self.persons@[j]),
                    decreases self.persons.len() - i,
                {
                    let p = &self.persons[i];
                    if eq_ignore_case(p.name.as_str(), name) && ap_id_domain_matches(&p.ap_id, domain) {
                        proof {
                            assert(f(self.persons@[i as int]));
                            lemma_first_match_unique(self.persons@, f, i as int);
                        }
                        return Some(UserOrCommunity::Person(p.clone()));
                    }
                    i = i + 1;
                }
                proof {
                    lemma_no_match(self.persons@, f);
                }
                None
            },
            ActorKind::Community => {
                let ghost f = community_at_pred(name@, domain@);
                let mut i: usize = 0;
                while i < self.communities.len()
                    invariant
                        0 <= i <= self.communities.len(),
                        f == community_at_pred(name@, domain@),
                        kind == ActorKind::Community,
                        forall|j: int| 0 <= j < i ==> !f(#[trigger] self.communities@[j]),
                    decreases self.communities.len() - i,
                {
                    let c = &self.communities[i];
                    if eq_ignore_case(c.name.as_str(), name) && ap_id_domain_matches(&c.ap_id, domain) {
                        proof {
                            assert(f(self.communities@[i as int]));
                            lemma_first_match_unique(self.communities@, f, i as int);
                        }
                        return Some(UserOrCommunity::Community(c.clone()));
                    }
                    i = i + 1;
                }
                proof {
                    lemma_no_match(self.communities@, f);
                }
                None
            },
        }
    }

    /// Finds the local actor of this kind named `name`; deleted (or removed)
    /// ones only with `include_deleted`.
    pub fn read_from_name(&self, kind: ActorKind, name: &str, include_deleted: bool) -> (r: Option<UserOrCommunity>)
        ensures
            r == local_actor_named(self.persons@, self.communities@, kind, name@, include_deleted),
    {
        match kind {
            ActorKind::Person => {
                let ghost f = local_person_pred(name@, include_deleted);
                let mut i: usize = 0;
                while i < self.persons.len()
                    invariant
                        0 <= i <= self.persons.len(),
                        f == local_person_pred(name@, include_deleted),
                        kind == ActorKind::Person,
                        forall|j: int| 0 <= j < i ==> !f(#[trigger] self.persons@[j]),
                    decreases self.persons.len() - i,
                {
                    let p = &self.persons[i];
                    if p.local && eq_ignore_case(p.name.as_str(), name) && (include_deleted || !p.deleted) {
                        proof {
                            assert(f(self.persons@[i as int]));
                            lemma_first_match_unique(self.persons@, f, i as int);
                        }
                        return Some(UserOrCommunity::Person(p.clone()));
                    }
                    i = i + 1;
                }
                proof {
                    lemma_no_match(self.persons@, f);
                }
                None
            },
            ActorKind::Community => {
                let ghost f = local_community_pred(name@, include_deleted);
                let mut i: usize = 0;
                while i < self.communities.len()
                    invariant
                        0 <= i <= self.communities.len(),
                        f == local_community_pred(name@, include_deleted),
                        kind == ActorKind::Community,
                        forall|j: int| 0 <= j < i ==> !f(#[trigger] self.communities@[j]),
                    decreases self.communities.len() - i,
                {
                    let c = &self.communities[i];
                    if c.local && eq_ignore_case(c.name.as_str(), name) && (include_deleted || (!c.deleted
                        && !c.removed)) {
                        proof {
                            assert(f(self.communities@[i as int]));
                            lemma_first_match_unique(self.communities@, f, i as int);
                        }
                        return Some(UserOrCommunity::Community(c.clone()));
                    }
                    i = i + 1;
                }
                proof {
                    lemma_no_match(self.communities@, f);
                }
                None
            },
        }
    }
}

/// Resolves an actor identifier such as `news@example.com` or `alice`.
/// Returns the actor where the local store has it; for `name@domain` that it
/// lacks, asks an authenticated requester's caller to discover the lowercased
/// handle on the actor's home instance, and refuses an anonymous one.
pub fn resolve_ap_identifier(
    store: &LocalStore,
    identifier: &str,
    kind: ActorKind,
    local_user_view: &Option<LocalUser>,
    include_deleted: bool,
) -> (r: Result<Resolution, ApiError>)
    ensures
        match resolution_of(
            store.persons@,
            store.communities@,
            identifier@,
            kind,
            local_user_view is Some,
            include_deleted,
        ) {
            Ok(Some(a)) => r == Ok::<Resolution, ApiError>(Resolution::Found(a)),
            Ok(None) => r matches Ok(Resolution::Discover(h)) && h@ == lower_of(identifier@),
            Err(e) => r == Err::<Resolution, ApiError>(e),
        },
{
    match find_char(identifier, '@') {
        Some(k) => {
            proof {
                let c = choose|c: int| is_first_char(identifier@, '@', c);
                assert(c == k as int) by {
                    if c < k as int {
                        assert(identifier@[c] != '@');
                    } else if c > k as int {
                        assert(identifier@[k as int] != '@');
                    }
                }
            }
            let n = identifier.unicode_len();
            let name = identifier.substring_char(0, k);
            let domain = identifier.substring_char(k + 1, n);
            match store.read_from_name_and_domain(kind, name, domain) {
                Some(a) => Ok(Resolution::Found(a)),
                None => if local_user_view.is_some() {
                    Ok(Resolution::Discover(lowercase(identifier)))
                } else {
                    Err(ApiError::NotFound)
                },
            }
        },
        None => {
            match store.read_from_name(kind, identifier, include_deleted) {
                Some(a) => Ok(Resolution::Found(a)),
                None => Err(ApiError::NotFound),
            }
        },
    }
}

/// An identifier `name@domain` that the store lacks sends an authenticated
/// requester to discovery on the home instance, and fails an anonymous one
/// with `NotFound`.
pub proof fn lemma_resolver_fallback(
    persons: Seq<Person>,
    communities: Seq<Community>,
    identifier: Seq<char>,
    kind: ActorKind,
    include_deleted: bool,
    k: int,
)
    requires
        is_first_char(identifier, '@', k),
        actor_at(persons, communities, kind, identifier.subrange(0, k), identifier.subrange(k + 1, identifier.len() as int)) is None,
    ensures
        resolution_of(persons, communities, identifier, kind, true, include_deleted) == Ok::<Option<UserOrCommunity>, ApiError>(None),
        resolution_of(persons, communities, identifier, kind, false, include_deleted) == Err::<Option<UserOrCommunity>, ApiError>(ApiError::NotFound),
{
    let c = choose|c: int| is_first_char(identifier, '@', c);
    assert(c == k) by {
        if c < k {
            assert(identifier[c] != '@');
        } else if c > k {
            assert(identifier[k] != '@');
        }
    }
}

} // verus!
