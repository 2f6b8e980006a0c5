use vstd::prelude::*;
use crate::ap_id::ApId;
use crate::error::ApiError;

verus! {

/// Who may see a community's content, and whether it federates.
#[derive(Clone, Copy, Debug, PartialEq, Eq, Structural)]
pub enum CommunityVisibility {
    Public,
    Unlisted,
    Private,
    LocalOnlyPublic,
    LocalOnlyPrivate,
}

impl CommunityVisibility {
    /// Whether content of a community with this visibility leaves the instance.
    pub open spec fn federates(self) -> bool {
        !(self is LocalOnlyPublic || self is LocalOnlyPrivate)
    }

    pub fn can_federate(&self) -> (r: bool)
        ensures
            r == self.federates(),
    {
        !matches!(self, CommunityVisibility::LocalOnlyPublic | CommunityVisibility::LocalOnlyPrivate)
    }
}

/// A person: a user account, local or remote.
#[derive(Debug)]
pub struct Person {
    pub id: i32,
    pub ap_id: ApId,
    pub name: String,
    pub local: bool,
    pub deleted: bool,
    pub banned: bool,
    pub is_admin: bool,
    pub inbox: String,
    pub shared_inbox: Option<String>,
    pub instance_id: i32,
}

/// A community: a group that posts and comments belong to.
#[derive(Debug)]
pub struct Community {
    pub id: i32,
    pub ap_id: ApId,
    pub name: String,
    pub local: bool,
    pub deleted: bool,
    pub removed: bool,
    pub visibility: CommunityVisibility,
    pub inbox: String,
    pub shared_inbox: Option<String>,
    pub instance_id: i32,
}

/// A post in a community.
#[derive(Debug)]
pub struct Post {
    pub id: i32,
    pub ap_id: ApId,
    pub creator_id: i32,
    pub community_id: i32,
    pub deleted: bool,
}

/// A comment on a post.
#[derive(Debug)]
pub struct Comment {
    pub id: i32,
    pub ap_id: ApId,
    pub creator_id: i32,
    pub post_id: i32,
    pub deleted: bool,
}

/// A private message between two persons.
#[derive(Debug)]
pub struct PrivateMessage {
    pub id: i32,
    pub ap_id: ApId,
    pub creator_id: i32,
    pub recipient_id: i32,
    pub deleted: bool,
    pub read: bool,
}

/// A site: the actor that stands for a whole instance.
#[derive(Debug)]
pub struct Site {
    pub id: i32,
    pub ap_id: ApId,
    pub inbox: String,
    pub instance_id: i32,
    pub local: bool,
    pub content_warning: Option<String>,
}

/// A person follows a community.
#[derive(Clone, Copy, Debug, PartialEq, Eq, Structural)]
pub struct CommunityFollower {
    pub community_id: i32,
    pub person_id: i32,
}

/// A person moderates a community since the given time.
#[derive(Clone, Copy, Debug, PartialEq, Eq, Structural)]
pub struct CommunityModerator {
    pub community_id: i32,
    pub person_id: i32,
    pub became_moderator_at: i64,
}

/// A person is banned from a community.
#[derive(Clone, Copy, Debug, PartialEq, Eq, Structural)]
pub struct CommunityBan {
    pub community_id: i32,
    pub person_id: i32,
}

impl Clone for Person {
    fn clone(&self) -> (r: Self)
        ensures
            r == *self,
    {
        Person {
            id: self.id,
            ap_id: self.ap_id.clone(),
            name: self.name.clone(),
            local: self.local,
            deleted: self.deleted,
            banned: self.banned,
            is_admin: self.is_admin,
            inbox: self.inbox.clone(),
            shared_inbox: self.shared_inbox.clone(),
            instance_id: self.instance_id,
        }
    }
}

impl Clone for Community {
    fn clone(&self) -> (r: Self)
        ensures
            r == *self,
    {
        Community {
            id: self.id,
            ap_id: self.ap_id.clone(),
            name: self.name.clone(),
            local: self.local,
            deleted: self.deleted,
            removed: self.removed,
            visibility: self.visibility,
            inbox: self.inbox.clone(),
            shared_inbox: self.shared_inbox.clone(),
            instance_id: self.instance_id,
        }
    }
}

impl Clone for Post {
    fn clone(&self) -> (r: Self)
        ensures
            r == *self,
    {
        Post {
            id: self.id,
            ap_id: self.ap_id.clone(),
            creator_id: self.creator_id,
            community_id: self.community_id,
            deleted: self.deleted,
        }
    }
}

impl Clone for Comment {
    fn clone(&self) -> (r: Self)
        ensures
            r == *self,
    {
        Comment {
            id: self.id,
            ap_id: self.ap_id.clone(),
            creator_id: self.creator_id,
            post_id: self.post_id,
            deleted: self.deleted,
        }
    }
}

impl Clone for PrivateMessage {
    fn clone(&self) -> (r: Self)
        ensures
            r == *self,
    {
        PrivateMessage {
            id: self.id,
            ap_id: self.ap_id.clone(),
            creator_id: self.creator_id,
            recipient_id: self.recipient_id,
            deleted: self.deleted,
            read: self.read,
        }
    }
}

impl Clone for Site {
    fn clone(&self) -> (r: Self)
        ensures
            r == *self,
    {
        Site {
            id: self.id,
            ap_id: self.ap_id.clone(),
            inbox: self.inbox.clone(),
            instance_id: self.instance_id,
            local: self.local,
            content_warning: self.content_warning.clone(),
        }
    }
}

/// A stored row that carries a federated identifier.
pub trait Federated {
    spec fn iri_of(&self) -> Seq<char>;

    spec fn id_of(&self) -> i32;

    fn row_id(&self) -> (r: i32)
        ensures
            r == self.id_of(),
    ;

    fn ap_id(&self) -> (r: &ApId)
        ensures
            r.iri() == self.iri_of(),
    ;
}

impl Federated for Person {
    open spec fn iri_of(&self) -> Seq<char> {
        self.ap_id.iri()
    }

    open spec fn id_of(&self) -> i32 {
        self.id
    }

    fn row_id(&self) -> (r: i32) {
        self.id
    }

    fn ap_id(&self) -> (r: &ApId) {
        &self.ap_id
    }
}

impl Federated for Community {
    open spec fn iri_of(&self) -> Seq<char> {
        self.ap_id.iri()
    }

    open spec fn id_of(&self) -> i32 {
        self.id
    }

    fn row_id(&self) -> (r: i32) {
        self.id
    }

    fn ap_id(&self) -> (r: &ApId) {
        &self.ap_id
    }
}

impl Federated for Post {
    open spec fn iri_of(&self) -> Seq<char> {
        self.ap_id.iri()
    }

    open spec fn id_of(&self) -> i32 {
        self.id
    }

    fn row_id(&self) -> (r: i32) {
        self.id
    }

    fn ap_id(&self) -> (r: &ApId) {
        &self.ap_id
    }
}

impl Federated for Comment {
    open spec fn iri_of(&self) -> Seq<char> {
        self.ap_id.iri()
    }

    open spec fn id_of(&self) -> i32 {
        self.id
    }

    fn row_id(&self) -> (r: i32) {
        self.id
    }

    fn ap_id(&self) -> (r: &ApId) {
        &self.ap_id
    }
}

impl Federated for PrivateMessage {
    open spec fn iri_of(&self) -> Seq<char> {
        self.ap_id.iri()
    }

    open spec fn id_of(&self) -> i32 {
        self.id
    }

    fn row_id(&self) -> (r: i32) {
        self.id
    }

    fn ap_id(&self) -> (r: &ApId) {
        &self.ap_id
    }
}

/// `i` is the first position of a row with this identifier.
pub open spec fn is_first_iri<T: Federated>(s: Seq<T>, iri: Seq<char>, i: int) -> bool {
    &&& 0 <= i < s.len()
    &&& s[i].iri_of() == iri
    &&& forall|j: int| 0 <= j < i ==> #[trigger] s[j].iri_of() != iri
}

/// The first position of a row with this identifier.
pub open spec fn index_of_iri<T: Federated>(s: Seq<T>, iri: Seq<char>) -> Option<int> {
    if exists|i: int| is_first_iri(s, iri, i) {
        Some(choose|i: int| is_first_iri(s, iri, i))
    } else {
        None
    }
}

/// Finds the first row with the identifier.
pub fn find_by_ap_id<T: Federated>(rows: &Vec<T>, id: &ApId) -> (r: Option<usize>)
    ensures
        match r {
            Some(i) => index_of_iri(rows@, id.iri()) == Some(i as int),
            None => index_of_iri(rows@, id.iri()).is_none(),
        },
        r.is_none() <==> forall|j: int| 0 <= j < rows@.len() ==> #[trigger] rows@[j].iri_of() != id.iri(),
{
    let mut i: usize = 0;
    while i < rows.len()
        invariant
            0 <= i <= rows.len(),
            forall|j: int| 0 <= j < i ==> #[trigger] rows@[j].iri_of() != id.iri(),
        decreases rows.len() - i,
    {
        if rows[i].ap_id().same(id) {
            assert(is_first_iri(rows@, id.iri(), i as int));
            let ghost k = choose|k: int| is_first_iri(rows@, id.iri(), k);
            assert(k == i as int) by {
                if k < i as int {
                    assert(rows@[k].iri_of() != id.iri());
                } else if k > i as int {
                    assert(rows@[i as int].iri_of() != id.iri());
                }
            }
            return Some(i);
        }
        i = i + 1;
    }
    None
}

/// `i` is the first position of a row with this numeric id.
pub open spec fn is_first_id<T: Federated>(s: Seq<T>, id: i32, i: int) -> bool {
    &&& 0 <= i < s.len()
    &&& s[i].id_of() == id
    &&& forall|j: int| 0 <= j < i ==> #[trigger] s[j].id_of() != id
}

/// The first position of a row with this numeric id.
pub open spec fn index_of_id<T: Federated>(s: Seq<T>, id: i32) -> Option<int> {
    if exists|i: int| is_first_id(s, id, i) {
        Some(choose|i: int| is_first_id(s, id, i))
    } else {
        None
    }
}

/// Finds the first row with the numeric id.
pub fn find_by_id<T: Federated>(rows: &Vec<T>, id: i32) -> (r: Option<usize>)
    ensures
        match r {
            Some(i) => index_of_id(rows@, id) == Some(i as int),
            None => index_of_id(rows@, id).is_none(),
        },
{
    let mut i: usize = 0;
    while i < rows.len()
        invariant
            0 <= i <= rows.len(),
            forall|j: int| 0 <= j < i ==> #[trigger] rows@[j].id_of() != id,
        decreases rows.len() - i,
    {
        if rows[i].row_id() == id {
            assert(is_first_id(rows@, id, i as int));
            let ghost k = choose|k: int| is_first_id(rows@, id, k);
            assert(k == i as int) by {
                if k < i as int {
                    assert(rows@[k].id_of() != id);
                } else if k > i as int {
                    assert(rows@[i as int].id_of() != id);
                }
            }
            return Some(i);
        }
        i = i + 1;
    }
    None
}

/// Inserts the row, or replaces the first row with the same identifier.
pub fn upsert_row<T: Federated>(rows: &mut Vec<T>, row: T)
    ensures
        match index_of_iri(old(rows)@, row.iri_of()) {
            Some(i) => final(rows)@ == old(rows)@.update(i, row),
            None => final(rows)@ == old(rows)@.push(row),
        },
        index_of_iri(final(rows)@, row.iri_of()) matches Some(i) && final(rows)@[i] == row,
{
    let ghost iri = row.iri_of();
    match find_by_ap_id(rows, row.ap_id()) {
        Some(i) => {
            let ghost before = rows@;
            rows[i] = row;
            proof {
                lemma_same_iris_same_index(before, rows@, iri);
            }
        },
        None => {
            let ghost before = rows@;
            rows.push(row);
            proof {
                let n = before.len() as int;
                assert(is_first_iri(rows@, iri, n)) by {
                    assert forall|j: int| 0 <= j < n implies #[trigger] rows@[j].iri_of() != iri by {
                        assert(rows@[j] == before[j]);
                    }
                }
                let k = choose|k: int| is_first_iri(rows@, iri, k);
                assert(k == n) by {
                    if k < n {
                        assert(rows@[k] == before[k]);
                    } else if k > n {
                        assert(rows@[n].iri_of() != iri);
                    }
                }
            }
        },
    }
}

/// Rows whose identifiers agree position by position are found at the same
/// positions.
pub proof fn lemma_same_iris_same_index<T: Federated>(s1: Seq<T>, s2: Seq<T>, iri: Seq<char>)
    requires
        s1.len() == s2.len(),
        forall|k: int| 0 <= k < s1.len() ==> #[trigger] s1[k].iri_of() == s2[k].iri_of(),
    ensures
        index_of_iri(s1, iri) == index_of_iri(s2, iri),
{
    if exists|i: int| is_first_iri(s1, iri, i) {
        let a = choose|i: int| is_first_iri(s1, iri, i);
        assert(is_first_iri(s2, iri, a)) by {
            assert forall|j: int| 0 <= j < a implies #[trigger] s2[j].iri_of() != iri by {
                assert(s1[j].iri_of() != iri);
            }
        }
        let b = choose|i: int| is_first_iri(s2, iri, i);
        assert(a == b) by {
            if a < b {
                assert(s2[a].iri_of() != iri);
            } else if b < a {
                assert(s2[b].iri_of() != iri);
            }
        }
    } else {
        assert forall|i: int| !is_first_iri(s2, iri, i) by {
            if is_first_iri(s2, iri, i) {
                assert forall|j: int| 0 <= j < i implies #[trigger] s1[j].iri_of() != iri by {
                    assert(s2[j].iri_of() != iri);
                }
                assert(is_first_iri(s1, iri, i));
            }
        }
    }
}

/// The persisted state of the local instance, as the federation core sees it:
/// one table per federated kind and the relations between them.
#[derive(Debug)]
pub struct LocalStore {
    pub persons: Vec<Person>,
    pub communities: Vec<Community>,
    pub posts: Vec<Post>,
    pub comments: Vec<Comment>,
    pub private_messages: Vec<PrivateMessage>,
    pub sites: Vec<Site>,
    pub followers: Vec<CommunityFollower>,
    pub moderators: Vec<CommunityModerator>,
    pub bans: Vec<CommunityBan>,
}

/// The mathematical view of the local store: one sequence per table.
pub struct StoreView {
    pub persons: Seq<Person>,
    pub communities: Seq<Community>,
    pub posts: Seq<Post>,
    pub comments: Seq<Comment>,
    pub private_messages: Seq<PrivateMessage>,
    pub sites: Seq<Site>,
    pub followers: Seq<CommunityFollower>,
    pub moderators: Seq<CommunityModerator>,
    pub bans: Seq<CommunityBan>,
}

impl View for LocalStore {
    type V = StoreView;

    open spec fn view(&self) -> StoreView {
        StoreView {
            persons: self.persons@,
            communities: self.communities@,
            posts: self.posts@,
            comments: self.comments@,
            private_messages: self.private_messages@,
            sites: self.sites@,
            followers: self.followers@,
            moderators: self.moderators@,
            bans: self.bans@,
        }
    }
}

impl StoreView {
    /// The person with this numeric id.
    pub open spec fn person_by_id(self, id: i32) -> Option<Person> {
        match index_of_id(self.persons, id) {
            Some(i) => Some(self.persons[i]),
            None => None,
        }
    }

    /// The community with this numeric id.
    pub open spec fn community_by_id(self, id: i32) -> Option<Community> {
        match index_of_id(self.communities, id) {
            Some(i) => Some(self.communities[i]),
            None => None,
        }
    }

    /// The post with this numeric id.
    pub open spec fn post_by_id(self, id: i32) -> Option<Post> {
        match index_of_id(self.posts, id) {
            Some(i) => Some(self.posts[i]),
            None => None,
        }
    }

    /// The person with this identifier.
    pub open spec fn person_by_iri(self, iri: Seq<char>) -> Option<Person> {
        match index_of_iri(self.persons, iri) {
            Some(i) => Some(self.persons[i]),
            None => None,
        }
    }

    /// The person moderates the community.
    pub open spec fn is_moderator(self, community_id: i32, person_id: i32) -> bool {
        exists|i: int|
            0 <= i < self.moderators.len() && #[trigger] self.moderators[i].community_id
                == community_id && self.moderators[i].person_id == person_id
    }

    /// The person is banned from the community.
    pub open spec fn is_banned_from(self, community_id: i32, person_id: i32) -> bool {
        exists|i: int|
            0 <= i < self.bans.len() && #[trigger] self.bans[i].community_id == community_id
                && self.bans[i].person_id == person_id
    }
}

impl LocalStore {
    /// Finds a person by numeric id.
    pub fn read_person(&self, id: i32) -> (r: Result<Person, ApiError>)
        ensures
            match self@.person_by_id(id) {
                Some(p) => r == Ok::<Person, ApiError>(p),
                None => r == Err::<Person, ApiError>(ApiError::NotFound),
            },
    {
        match find_by_id(&self.persons, id) {
            Some(i) => Ok(self.persons[i].clone()),
            None => Err(ApiError::NotFound),
        }
    }

    /// Finds a community by numeric id.
    pub fn read_community(&self, id: i32) -> (r: Result<Community, ApiError>)
        ensures
            match self@.community_by_id(id) {
                Some(c) => r == Ok::<Community, ApiError>(c),
                None => r == Err::<Community, ApiError>(ApiError::NotFound),
            },
    {
        match find_by_id(&self.communities, id) {
            Some(i) => Ok(self.communities[i].clone()),
            None => Err(ApiError::NotFound),
        }
    }

    /// Finds a post by numeric id.
    pub fn read_post(&self, id: i32) -> (r: Result<Post, ApiError>)
        ensures
            match self@.post_by_id(id) {
                Some(p) => r == Ok::<Post, ApiError>(p),
                None => r == Err::<Post, ApiError>(ApiError::NotFound),
            },
    {
        match find_by_id(&self.posts, id) {
            Some(i) => Ok(self.posts[i].clone()),
            None => Err(ApiError::NotFound),
        }
    }

    /// Finds a person by identifier.
    pub fn read_person_by_ap_id(&self, id: &ApId) -> (r: Result<Person, ApiError>)
        ensures
            match self@.person_by_iri(id.iri()) {
                Some(p) => r == Ok::<Person, ApiError>(p),
                None => r == Err::<Person, ApiError>(ApiError::NotFound),
            },
    {
        match find_by_ap_id(&self.persons, id) {
            Some(i) => Ok(self.persons[i].clone()),
            None => Err(ApiError::NotFound),
        }
    }

    /// Persists a person resolved from elsewhere, replacing an earlier copy,
    /// so that later lookups find it locally.
    pub fn upsert_person(&mut self, p: Person)
        ensures
            match index_of_iri(old(self).persons@, p.ap_id.iri()) {
                Some(i) => final(self).persons@ == old(self).persons@.update(i, p),
                None => final(self).persons@ == old(self).persons@.push(p),
            },
            index_of_iri(final(self).persons@, p.ap_id.iri()) matches Some(i) && final(self).persons@[i] == p,
            final(self)@.person_by_iri(p.ap_id.iri()) == Some(p),
            final(self)@ == (StoreView { persons: final(self).persons@, ..old(self)@ }),
    {
        upsert_row(&mut self.persons, p);
    }

    /// Persists a community resolved from elsewhere, replacing an earlier
    /// copy, so that later lookups find it locally.
    pub fn upsert_community(&mut self, c: Community)
        ensures
            match index_of_iri(old(self).communities@, c.ap_id.iri()) {
                Some(i) => final(self).communities@ == old(self).communities@.update(i, c),
                None => final(self).communities@ == old(self).communities@.push(c),
            },
            index_of_iri(final(self).communities@, c.ap_id.iri()) matches Some(i) && final(self).communities@[i] == c,
            final(self)@ == (StoreView { communities: final(self).communities@, ..old(self)@ }),
    {
        upsert_row(&mut self.communities, c);
    }

    /// Persists a post fetched from elsewhere, replacing an earlier copy.
    pub fn upsert_post(&mut self, p: Post)
        ensures
            match index_of_iri(old(self).posts@, p.ap_id.iri()) {
                Some(i) => final(self).posts@ == old(self).posts@.update(i, p),
                None => final(self).posts@ == old(self).posts@.push(p),
            },
            index_of_iri(final(self).posts@, p.ap_id.iri()) matches Some(i) && final(self).posts@[i] == p,
            final(self)@ == (StoreView { posts: final(self).posts@, ..old(self)@ }),
    {
        upsert_row(&mut self.posts, p);
    }

    /// Persists a comment fetched from elsewhere, replacing an earlier copy.
    pub fn upsert_comment(&mut self, c: Comment)
        ensures
            match index_of_iri(old(self).comments@, c.ap_id.iri()) {
                Some(i) => final(self).comments@ == old(self).comments@.update(i, c),
                None => final(self).comments@ == old(self).comments@.push(c),
            },
            index_of_iri(final(self).comments@, c.ap_id.iri()) matches Some(i) && final(self).comments@[i] == c,
            final(self)@ == (StoreView { comments: final(self).comments@, ..old(self)@ }),
    {
        upsert_row(&mut self.comments, c);
    }

    /// Whether the person moderates the community.
    pub fn is_moderator(&self, community_id: i32, person_id: i32) -> (r: bool)
        ensures
            r == self@.is_moderator(community_id, person_id),
    {
        let mut i: usize = 0;
        while i < self.moderators.len()
            invariant
                0 <= i <= self.moderators.len(),
                forall|j: int|
                    0 <= j < i ==> !(#[trigger] self.moderators@[j].community_id == community_id
                        && self.moderators@[j].person_id == person_id),
            decreases self.moderators.len() - i,
        {
            let m = self.moderators[i];
            if m.community_id == community_id && m.person_id == person_id {
                assert(self@.moderators[i as int].community_id == community_id);
                return true;
            }
            i = i + 1;
        }
        false
    }

    /// Whether the person is banned from the community.
    pub fn is_banned_from(&self, community_id: i32, person_id: i32) -> (r: bool)
        ensures
            r == self@.is_banned_from(community_id, person_id),
    {
        let mut i: usize = 0;
        while i < self.bans.len()
            invariant
                0 <= i <= self.bans.len(),
                forall|j: int|
                    0 <= j < i ==> !(#[trigger] self.bans@[j].community_id == community_id
                        && self.bans@[j].person_id == person_id),
            decreases self.bans.len() - i,
        {
            let b = self.bans[i];
            if b.community_id == community_id && b.person_id == person_id {
                assert(self@.bans[i as int].community_id == community_id);
                return true;
            }
            i = i + 1;
        }
        false
    }
}

} // verus!
