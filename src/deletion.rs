use vstd::prelude::*;
use crate::activity::{AnnouncableActivity, Delete, Outgoing, UndoDelete};
use crate::ap_id::{
    contains_iri, list_contains, verify_domains_match, verify_is_public, verify_urls_match, ApId,
};
use crate::error::ApiError;
use crate::send_targets::{
    is_follower_inbox, lemma_community_followers_fan_out, shared_inbox_or_inbox, ActivitySendTargets,
};
use crate::store::{
    find_by_ap_id, index_of_iri, lemma_same_iris_same_index, Comment, Community,
    CommunityVisibility, LocalStore, Person, Post, PrivateMessage, StoreView,
};

verus! {

/// The objects that a deletion can be about.
#[derive(Debug)]
pub enum DeletableObjects {
    Community(Community),
    Person(Person),
    Comment(Comment),
    Post(Post),
    PrivateMessage(PrivateMessage),
}

impl DeletableObjects {
    /// The identifier of the object.
    pub open spec fn ap_id_spec(&self) -> ApId {
        match self {
            DeletableObjects::Community(c) => c.ap_id,
            DeletableObjects::Person(p) => p.ap_id,
            DeletableObjects::Comment(c) => c.ap_id,
            DeletableObjects::Post(p) => p.ap_id,
            DeletableObjects::PrivateMessage(p) => p.ap_id,
        }
    }

    /// The identifier of the object.
    pub fn id(&self) -> (r: &ApId)
        ensures
            *r == self.ap_id_spec(),
    {
        match self {
            DeletableObjects::Community(c) => &c.ap_id,
            DeletableObjects::Person(p) => &p.ap_id,
            DeletableObjects::Comment(c) => &c.ap_id,
            DeletableObjects::Post(p) => &p.ap_id,
            DeletableObjects::PrivateMessage(p) => &p.ap_id,
        }
    }

    /// Finds the object with this identifier, trying communities, persons,
    /// posts, comments and private messages in turn.
    pub fn read_from_db(store: &LocalStore, ap_id: &ApId) -> (r: Result<DeletableObjects, ApiError>)
        ensures
            match store@.deletable(ap_id.iri()) {
                Some(o) => r == Ok::<DeletableObjects, ApiError>(o),
                None => r == Err::<DeletableObjects, ApiError>(ApiError::NotFound),
            },
    {
        if let Some(i) = find_by_ap_id(&store.communities, ap_id) {
            return Ok(DeletableObjects::Community(store.communities[i].clone()));
        }
        if let Some(i) = find_by_ap_id(&store.persons, ap_id) {
            return Ok(DeletableObjects::Person(store.persons[i].clone()));
        }
        if let Some(i) = find_by_ap_id(&store.posts, ap_id) {
            return Ok(DeletableObjects::Post(store.posts[i].clone()));
        }
        if let Some(i) = find_by_ap_id(&store.comments, ap_id) {
            return Ok(DeletableObjects::Comment(store.comments[i].clone()));
        }
        if let Some(i) = find_by_ap_id(&store.private_messages, ap_id) {
            return Ok(DeletableObjects::PrivateMessage(store.private_messages[i].clone()));
        }
        Err(ApiError::NotFound)
    }
}

impl StoreView {
    /// The object that a deletion with this identifier is about.
    pub open spec fn deletable(self, iri: Seq<char>) -> Option<DeletableObjects> {
        match index_of_iri(self.communities, iri) {
            Some(i) => Some(DeletableObjects::Community(self.communities[i])),
            None => match index_of_iri(self.persons, iri) {
                Some(i) => Some(DeletableObjects::Person(self.persons[i])),
                None => match index_of_iri(self.posts, iri) {
                    Some(i) => Some(DeletableObjects::Post(self.posts[i])),
                    None => match index_of_iri(self.comments, iri) {
                        Some(i) => Some(DeletableObjects::Comment(self.comments[i])),
                        None => match index_of_iri(self.private_messages, iri) {
                            Some(i) => Some(DeletableObjects::PrivateMessage(self.private_messages[i])),
                            None => None,
                        },
                    },
                },
            },
        }
    }

    /// The community that an object belongs to.
    pub open spec fn community_of(self, o: DeletableObjects) -> Result<Community, ApiError> {
        let id = match o {
            DeletableObjects::Community(c) => Some(c.id),
            DeletableObjects::Post(p) => Some(p.community_id),
            DeletableObjects::Comment(c) => match self.post_by_id(c.post_id) {
                Some(p) => Some(p.community_id),
                None => None,
            },
            _ => None,
        };
        match id {
            Some(cid) => match self.community_by_id(cid) {
                Some(c) => Ok(c),
                None => Err(ApiError::NotFound),
            },
            None => Err(ApiError::NotFound),
        }
    }

    /// The actor is a moderator of the community, or an admin.
    pub open spec fn is_mod_or_admin(self, actor: Seq<char>, c: Community) -> bool {
        match self.person_by_iri(actor) {
            Some(p) => self.is_moderator(c.id, p.id) || p.is_admin,
            None => false,
        }
    }

    /// The actor is known and not banned from the site.
    pub open spec fn person_check(self, actor: Seq<char>) -> Result<(), ApiError> {
        match self.person_by_iri(actor) {
            Some(p) => if p.banned {
                Err(ApiError::PersonIsBanned)
            } else {
                Ok(())
            },
            None => Err(ApiError::NotFound),
        }
    }

    /// The actor is known, and banned neither from the site nor from the
    /// community.
    pub open spec fn person_in_community_check(self, actor: Seq<char>, c: Community) -> Result<(), ApiError> {
        match self.person_by_iri(actor) {
            Some(p) => if p.banned || self.is_banned_from(c.id, p.id) {
                Err(ApiError::PersonIsBanned)
            } else {
                Ok(())
            },
            None => Err(ApiError::NotFound),
        }
    }

    /// The actor holds moderator or admin authority over the community.
    pub open spec fn mod_action_check(self, actor: Seq<char>, c: Community) -> Result<(), ApiError> {
        match self.person_by_iri(actor) {
            Some(p) => if self.is_moderator(c.id, p.id) || p.is_admin {
                Ok(())
            } else {
                Err(ApiError::NotAModOrAdmin)
            },
            None => Err(ApiError::NotFound),
        }
    }

    /// The checks on the deletion of a post or comment once its community is
    /// known: a moderator's removal needs authority over the community, an
    /// author's deletion needs the actor to come from the object's domain.
    pub open spec fn post_or_comment_check(
        self,
        actor: ApId,
        object: ApId,
        c: Community,
        is_mod_action: bool,
    ) -> Result<(), ApiError> {
        if self.person_in_community_check(actor.iri(), c) is Err {
            self.person_in_community_check(actor.iri(), c)
        } else if is_mod_action {
            self.mod_action_check(actor.iri(), c)
        } else if actor.host() != object.host() {
            Err(ApiError::DomainsDoNotMatch)
        } else {
            Ok(())
        }
    }

    /// The outcome of verifying a deletion of `object` by `actor`, addressed to
    /// `to`.
    pub open spec fn delete_verification(
        self,
        actor: ApId,
        to: Seq<ApId>,
        object: ApId,
        is_mod_action: bool,
    ) -> Result<(), ApiError> {
        match self.deletable(object.iri()) {
            None => Err(ApiError::NotFound),
            Some(DeletableObjects::Community(c)) => if visibility_check(to, c) is Err {
                visibility_check(to, c)
            } else if !c.local && self.person_in_community_check(actor.iri(), c) is Err {
                self.person_in_community_check(actor.iri(), c)
            } else {
                self.mod_action_check(actor.iri(), c)
            },
            Some(DeletableObjects::Person(p)) => if !contains_iri(to, ApId::public_iri()) {
                Err(ApiError::ObjectIsNotPublic)
            } else if self.person_check(actor.iri()) is Err {
                self.person_check(actor.iri())
            } else if p.ap_id.iri() != actor.iri() {
                Err(ApiError::UrlsDoNotMatch)
            } else {
                Ok(())
            },
            Some(DeletableObjects::Post(p)) => match self.community_of(DeletableObjects::Post(p)) {
                Err(e) => Err(e),
                Ok(c) => if visibility_check(to, c) is Err {
                    visibility_check(to, c)
                } else {
                    self.post_or_comment_check(actor, p.ap_id, c, is_mod_action)
                },
            },
            Some(DeletableObjects::Comment(k)) => match self.community_of(DeletableObjects::Comment(k)) {
                Err(e) => Err(e),
                Ok(c) => if visibility_check(to, c) is Err {
                    visibility_check(to, c)
                } else {
                    self.post_or_comment_check(actor, k.ap_id, c, is_mod_action)
                },
            },
            Some(DeletableObjects::PrivateMessage(_)) => if self.person_check(actor.iri()) is Err {
                self.person_check(actor.iri())
            } else if actor.host() != object.host() {
                Err(ApiError::DomainsDoNotMatch)
            } else {
                Ok(())
            },
        }
    }
}

/// The recipients of an activity agree with the community's visibility: a
/// public community's content is addressed to the public, a private one's is
/// not, and local-only content never federates.
pub open spec fn visibility_check(to: Seq<ApId>, c: Community) -> Result<(), ApiError> {
    let public = contains_iri(to, ApId::public_iri());
    match c.visibility {
        CommunityVisibility::Public | CommunityVisibility::Unlisted => if public {
            Ok(())
        } else {
            Err(ApiError::ObjectIsNotPublic)
        },
        CommunityVisibility::Private => if public {
            Err(ApiError::ObjectIsNotPrivate)
        } else {
            Ok(())
        },
        _ => Err(ApiError::NotFound),
    }
}

/// Checks that the recipients agree with the community's visibility.
pub fn verify_visibility(to: &Vec<ApId>, community: &Community) -> (r: Result<(), ApiError>)
    ensures
        r == visibility_check(to@, *community),
{
    let public = list_contains(to, &ApId::public());
    match community.visibility {
        CommunityVisibility::Public | CommunityVisibility::Unlisted => if public {
            Ok(())
        } else {
            Err(ApiError::ObjectIsNotPublic)
        },
        CommunityVisibility::Private => if public {
            Err(ApiError::ObjectIsNotPrivate)
        } else {
            Ok(())
        },
        _ => Err(ApiError::NotFound),
    }
}

/// The recipients of an activity in the community: the community itself, and
/// the public where its content can be read without logging in.
pub fn generate_to(community: &Community) -> (r: Vec<ApId>)
    ensures
        r@.len() == (if community.visibility is Public || community.visibility is Unlisted {
            2int
        } else {
            1int
        }),
        r@[0] == community.ap_id,
        r@.len() == 2 ==> r@[1].iri() == ApId::public_iri(),
{
    let mut to: Vec<ApId> = Vec::new();
    to.push(community.ap_id.clone());
    match community.visibility {
        CommunityVisibility::Public | CommunityVisibility::Unlisted => {
            let p = ApId::public();
            to.push(p);
            assert(to@[1].iri() == ApId::public_iri());
        },
        _ => {},
    }
    to
}

impl LocalStore {
    /// The community that an object belongs to.
    pub fn community_of(&self, o: &DeletableObjects) -> (r: Result<Community, ApiError>)
        ensures
            r == self@.community_of(*o),
    {
        let id = match o {
            DeletableObjects::Community(c) => c.id,
            DeletableObjects::Post(p) => p.community_id,
            DeletableObjects::Comment(c) => match self.read_post(c.post_id) {
                Ok(p) => p.community_id,
                Err(e) => return Err(e),
            },
            _ => return Err(ApiError::NotFound),
        };
        self.read_community(id)
    }

    /// Checks that the actor is known and not banned from the site.
    pub fn verify_person(&self, actor: &ApId) -> (r: Result<(), ApiError>)
        ensures
            r == self@.person_check(actor.iri()),
    {
        let p = self.read_person_by_ap_id(actor)?;
        if p.banned {
            Err(ApiError::PersonIsBanned)
        } else {
            Ok(())
        }
    }

    /// Checks that the actor is known to the community and not banned from it.
    pub fn verify_person_in_community(&self, actor: &ApId, community: &Community) -> (r: Result<(), ApiError>)
        ensures
            r == self@.person_in_community_check(actor.iri(), *community),
    {
        let p = self.read_person_by_ap_id(actor)?;
        if p.banned || self.is_banned_from(community.id, p.id) {
            Err(ApiError::PersonIsBanned)
        } else {
            Ok(())
        }
    }

    /// Checks that the actor moderates the community or is an admin.
    pub fn verify_mod_action(&self, actor: &ApId, community: &Community) -> (r: Result<(), ApiError>)
        ensures
            r == self@.mod_action_check(actor.iri(), *community),
    {
        let p = self.read_person_by_ap_id(actor)?;
        if self.is_moderator(community.id, p.id) || p.is_admin {
            Ok(())
        } else {
            Err(ApiError::NotAModOrAdmin)
        }
    }
}

/// Checks a deletion of a post or comment: the actor must be known to the
/// community, and either hold authority over it (a moderator's removal) or
/// come from the object's domain (the author's own deletion).
pub fn verify_delete_post_or_comment(
    store: &LocalStore,
    actor: &ApId,
    object_id: &ApId,
    community: &Community,
    is_mod_action: bool,
) -> (r: Result<(), ApiError>)
    ensures
        r == store@.post_or_comment_check(*actor, *object_id, *community, is_mod_action),
{
    let checked = store.verify_person_in_community(actor, community);
    if checked.is_err() {
        return checked;
    }
    if is_mod_action {
        store.verify_mod_action(actor, community)
    } else {
        verify_domains_match(actor, object_id)
    }
}

/// Verifies an inbound deletion against the local store, failing at the
/// first check that does not hold.
pub fn verify_delete_activity(store: &LocalStore, activity: &Delete, is_mod_action: bool) -> (r: Result<(), ApiError>)
    ensures
        r == store@.delete_verification(activity.actor, activity.to@, activity.object, is_mod_action),
{
    let object = match DeletableObjects::read_from_db(store, &activity.object) {
        Ok(o) => o,
        Err(e) => return Err(e),
    };
    match object {
        DeletableObjects::Community(community) => {
            let visible = verify_visibility(&activity.to, &community);
            if visible.is_err() {
                return visible;
            }
            if !community.local {
                // A local community told of its own deletion is not asked
                // about its members: it is about to be marked deleted.
                let member = store.verify_person_in_community(&activity.actor, &community);
                if member.is_err() {
                    return member;
                }
            }
            // Deleting a community is always a moderator's or an admin's act.
            store.verify_mod_action(&activity.actor, &community)
        },
        DeletableObjects::Person(person) => {
            let public = verify_is_public(&activity.to);
            if public.is_err() {
                return public;
            }
            let known = store.verify_person(&activity.actor);
            if known.is_err() {
                return known;
            }
            verify_urls_match(&person.ap_id, &activity.actor)
        },
        DeletableObjects::Post(p) => {
            let community = match store.community_of(&DeletableObjects::Post(p.clone())) {
                Ok(c) => c,
                Err(e) => return Err(e),
            };
            let visible = verify_visibility(&activity.to, &community);
            if visible.is_err() {
                return visible;
            }
            verify_delete_post_or_comment(store, &activity.actor, &p.ap_id, &community, is_mod_action)
        },
        DeletableObjects::Comment(c) => {
            let community = match store.community_of(&DeletableObjects::Comment(c.clone())) {
                Ok(c) => c,
                Err(e) => return Err(e),
            };
            let visible = verify_visibility(&activity.to, &community);
            if visible.is_err() {
                return visible;
            }
            verify_delete_post_or_comment(store, &activity.actor, &c.ap_id, &community, is_mod_action)
        },
        DeletableObjects::PrivateMessage(_) => {
            let known = store.verify_person(&activity.actor);
            if known.is_err() {
                return known;
            }
            verify_domains_match(&activity.actor, &activity.object)
        },
    }
}

} // verus!

verus! {

/// The community with its deleted flag set to `d`.
pub open spec fn community_with_deleted(c: Community, d: bool) -> Community {
    Community { deleted: d, ..c }
}

/// The person with its account marked deleted.
pub open spec fn person_deleted(p: Person) -> Person {
    Person { deleted: true, ..p }
}

/// The post with its deleted flag set to `d`.
pub open spec fn post_with_deleted(p: Post, d: bool) -> Post {
    Post { deleted: d, ..p }
}

/// The comment with its deleted flag set to `d`.
pub open spec fn comment_with_deleted(c: Comment, d: bool) -> Comment {
    Comment { deleted: d, ..c }
}

/// The private message with its deleted flag set to `d`.
pub open spec fn message_with_deleted(m: PrivateMessage, d: bool) -> PrivateMessage {
    PrivateMessage { deleted: d, ..m }
}

/// The post, marked deleted where the person created it.
pub open spec fn post_purged(p: Post, person_id: i32) -> Post {
    if p.creator_id == person_id {
        post_with_deleted(p, true)
    } else {
        p
    }
}

/// The comment, marked deleted where the person created it.
pub open spec fn comment_purged(c: Comment, person_id: i32) -> Comment {
    if c.creator_id == person_id {
        comment_with_deleted(c, true)
    } else {
        c
    }
}

impl StoreView {
    /// The store once the person at position `i` has deleted their account;
    /// with `purge`, everything they posted or commented is deleted too.
    pub open spec fn after_account_deletion(self, i: int, purge: bool) -> StoreView {
        let pid = self.persons[i].id;
        let persons = self.persons.update(i, person_deleted(self.persons[i]));
        if purge {
            StoreView {
                persons,
                posts: self.posts.map_values(|p: Post| post_purged(p, pid)),
                comments: self.comments.map_values(|c: Comment| comment_purged(c, pid)),
                ..self
            }
        } else {
            StoreView { persons, ..self }
        }
    }

    /// The store once a deletion (`deleted`) or its reversal (`!deleted`) of
    /// the object with this identifier is applied. Posts and comments that
    /// already are in the wanted state are left alone; a person's account is
    /// deleted either way.
    pub open spec fn after_delete_action(self, iri: Seq<char>, deleted: bool, purge: bool) -> StoreView {
        match index_of_iri(self.communities, iri) {
            Some(i) => StoreView {
                communities: self.communities.update(i, community_with_deleted(self.communities[i], deleted)),
                ..self
            },
            None => match index_of_iri(self.persons, iri) {
                Some(i) => self.after_account_deletion(i, purge),
                None => match index_of_iri(self.posts, iri) {
                    Some(i) => if self.posts[i].deleted != deleted {
                        StoreView { posts: self.posts.update(i, post_with_deleted(self.posts[i], deleted)), ..self }
                    } else {
                        self
                    },
                    None => match index_of_iri(self.comments, iri) {
                        Some(i) => if self.comments[i].deleted != deleted {
                            StoreView {
                                comments: self.comments.update(i, comment_with_deleted(self.comments[i], deleted)),
                                ..self
                            }
                        } else {
                            self
                        },
                        None => match index_of_iri(self.private_messages, iri) {
                            Some(i) => StoreView {
                                private_messages: self.private_messages.update(
                                    i,
                                    message_with_deleted(self.private_messages[i], deleted),
                                ),
                                ..self
                            },
                            None => self,
                        },
                    },
                },
            },
        }
    }

    /// Applying a deletion fails where the object is unknown, or where it is a
    /// local community and the actor is unknown.
    pub open spec fn delete_action_error(self, iri: Seq<char>, actor: Seq<char>) -> Option<ApiError> {
        match self.deletable(iri) {
            None => Some(ApiError::NotFound),
            Some(DeletableObjects::Community(c)) => if c.local && self.person_by_iri(actor) is None {
                Some(ApiError::NotFound)
            } else {
                None
            },
            _ => None,
        }
    }

    /// The local community whose own deletion the instance must pass on to its
    /// followers.
    pub open spec fn rebroadcast_for(self, iri: Seq<char>) -> Option<Community> {
        match self.deletable(iri) {
            Some(DeletableObjects::Community(c)) => if c.local {
                Some(c)
            } else {
                None
            },
            _ => None,
        }
    }

    /// The store after an inbound deletion is verified and applied, or the
    /// store unchanged where verification fails.
    pub open spec fn after_delete(self, d: Delete) -> StoreView {
        if self.delete_verification(d.actor, d.to@, d.object, d.summary is Some) is Ok {
            self.after_delete_action(d.object.iri(), true, d.remove_data == Some(true))
        } else {
            self
        }
    }

    /// The outcome of verifying the reversal of a deletion: its actor must be
    /// the deletion's, and the deletion must verify.
    pub open spec fn undo_verification(self, u: UndoDelete) -> Result<(), ApiError> {
        if u.actor.iri() != u.object.actor.iri() {
            Err(ApiError::UrlsDoNotMatch)
        } else {
            self.delete_verification(u.object.actor, u.object.to@, u.object.object, u.object.summary is Some)
        }
    }

    /// The store after an inbound reversal is verified and applied, or the
    /// store unchanged where verification fails.
    pub open spec fn after_undo(self, u: UndoDelete) -> StoreView {
        if self.undo_verification(u) is Ok {
            self.after_delete_action(u.object.object.iri(), false, false)
        } else {
            self
        }
    }
}

impl LocalStore {
    /// Marks the account of the person at position `i` deleted and, with
    /// `purge`, everything they posted or commented.
    fn delete_account(&mut self, i: usize, purge: bool)
        requires
            i < old(self).persons.len(),
        ensures
            final(self)@ == old(self)@.after_account_deletion(i as int, purge),
    {
        let pid = self.persons[i].id;
        self.persons[i].deleted = true;
        if purge {
            let ghost posts0 = self.posts@;
            let mut j: usize = 0;
            while j < self.posts.len()
                invariant
                    0 <= j <= self.posts.len(),
                    self.posts@.len() == posts0.len(),
                    forall|k: int| 0 <= k < j ==> self.posts@[k] == post_purged(posts0[k], pid),
                    forall|k: int| j <= k < posts0.len() ==> self.posts@[k] == posts0[k],
                    self.persons@ == old(self).persons@.update(i as int, person_deleted(old(self).persons@[i as int])),
                    posts0 == old(self).posts@,
                    self.comments@ == old(self).comments@,
                    self.communities@ == old(self).communities@,
                    self.private_messages@ == old(self).private_messages@,
                    self.sites@ == old(self).sites@,
                    self.followers@ == old(self).followers@,
                    self.moderators@ == old(self).moderators@,
                    self.bans@ == old(self).bans@,
                    pid == old(self).persons@[i as int].id,
                decreases posts0.len() - j,
            {
                if self.posts[j].creator_id == pid {
                    self.posts[j].deleted = true;
                }
                j = j + 1;
            }
            assert(self.posts@ =~= posts0.map_values(|p: Post| post_purged(p, pid)));
            let ghost comments0 = self.comments@;
            let mut j: usize = 0;
            while j < self.comments.len()
                invariant
                    0 <= j <= self.comments.len(),
                    self.comments@.len() == comments0.len(),
                    forall|k: int| 0 <= k < j ==> self.comments@[k] == comment_purged(comments0[k], pid),
                    forall|k: int| j <= k < comments0.len() ==> self.comments@[k] == comments0[k],
                    self.persons@ == old(self).persons@.update(i as int, person_deleted(old(self).persons@[i as int])),
                    self.posts@ == old(self).posts@.map_values(|p: Post| post_purged(p, pid)),
                    comments0 == old(self).comments@,
                    self.communities@ == old(self).communities@,
                    self.private_messages@ == old(self).private_messages@,
                    self.sites@ == old(self).sites@,
                    self.followers@ == old(self).followers@,
                    self.moderators@ == old(self).moderators@,
                    self.bans@ == old(self).bans@,
                    pid == old(self).persons@[i as int].id,
                decreases comments0.len() - j,
            {
                if self.comments[j].creator_id == pid {
                    self.comments[j].deleted = true;
                }
                j = j + 1;
            }
            assert(self.comments@ =~= comments0.map_values(|c: Comment| comment_purged(c, pid)));
        }
        assert(self.persons@ =~= old(self).persons@.update(i as int, person_deleted(old(self).persons@[i as int])));
    }
}

/// Applies a verified deletion (`deleted`) or its reversal (`!deleted`) of the
/// object to the local store. Returns the local community whose deletion the
/// instance must itself pass on to the community's followers, if that is the
/// object.
pub fn receive_delete_action(
    store: &mut LocalStore,
    object: &ApId,
    actor: &ApId,
    deleted: bool,
    do_purge_user_account: Option<bool>,
) -> (r: Result<Option<Community>, ApiError>)
    ensures
        match old(store)@.delete_action_error(object.iri(), actor.iri()) {
            Some(e) => r == Err::<Option<Community>, ApiError>(e) && final(store)@ == old(store)@,
            None => r == Ok::<Option<Community>, ApiError>(old(store)@.rebroadcast_for(object.iri()))
                && final(store)@ == old(store)@.after_delete_action(
                object.iri(),
                deleted,
                do_purge_user_account == Some(true),
            ),
        },
{
    if let Some(i) = find_by_ap_id(&store.communities, object) {
        let community = store.communities[i].clone();
        if community.local {
            // The community lives here: its deletion is passed on from here,
            // on behalf of the moderator who asked for it.
            if find_by_ap_id(&store.persons, actor).is_none() {
                return Err(ApiError::NotFound);
            }
        }
        store.communities[i].deleted = deleted;
        if community.local {
            return Ok(Some(community));
        }
        return Ok(None);
    }
    if let Some(i) = find_by_ap_id(&store.persons, object) {
        let purge = match do_purge_user_account {
            Some(b) => b,
            None => false,
        };
        store.delete_account(i, purge);
        return Ok(None);
    }
    if let Some(i) = find_by_ap_id(&store.posts, object) {
        if deleted != store.posts[i].deleted {
            store.posts[i].deleted = deleted;
        }
        return Ok(None);
    }
    if let Some(i) = find_by_ap_id(&store.comments, object) {
        if deleted != store.comments[i].deleted {
            store.comments[i].deleted = deleted;
        }
        return Ok(None);
    }
    if let Some(i) = find_by_ap_id(&store.private_messages, object) {
        store.private_messages[i].deleted = deleted;
        return Ok(None);
    }
    Err(ApiError::NotFound)
}

/// A verified deletion never fails to apply: where the object is a local
/// community, verification has already found the actor.
proof fn lemma_verified_applies(v: StoreView, actor: ApId, to: Seq<ApId>, object: ApId, is_mod_action: bool)
    requires
        v.delete_verification(actor, to, object, is_mod_action) is Ok,
    ensures
        v.delete_action_error(object.iri(), actor.iri()) is None,
{
}

impl Delete {
    /// Verifies an inbound deletion and applies it. Where the object is a
    /// local community, also returns the same activity addressed to the
    /// community's followers, for the instance to pass on.
    pub fn receive(&self, store: &mut LocalStore) -> (r: Result<Option<Outgoing>, ApiError>)
        ensures
            final(store)@ == old(store)@.after_delete(*self),
            match old(store)@.delete_verification(self.actor, self.to@, self.object, self.summary is Some) {
                Err(e) => r == Err::<Option<Outgoing>, ApiError>(e),
                Ok(_) => r is Ok && (r->Ok_0 is Some <==> old(store)@.rebroadcast_for(self.object.iri()) is Some),
            },
            r matches Ok(Some(o)) ==> o.activity matches AnnouncableActivity::Delete(d) && d.id == self.id
                && d.object == self.object && o.targets.inboxes@.len() == 0 && !o.targets.all_instances
                && o.targets.community_followers_of@ == seq![old(store)@.rebroadcast_for(self.object.iri())->Some_0.id],
    {
        let verified = verify_delete_activity(store, self, self.summary.is_some());
        if let Err(e) = verified {
            return Err(e);
        }
        proof {
            lemma_verified_applies(store@, self.actor, self.to@, self.object, self.summary is Some);
        }
        let purge = self.remove_data;
        match receive_delete_action(store, &self.object, &self.actor, true, purge) {
            Ok(Some(c)) => Ok(
                Some(
                    Outgoing {
                        activity: AnnouncableActivity::Delete(self.clone()),
                        targets: ActivitySendTargets::to_local_community_followers(c.id),
                    },
                ),
            ),
            Ok(None) => Ok(None),
            Err(e) => Err(e),
        }
    }
}

impl UndoDelete {
    /// Verifies an inbound reversal of a deletion and applies it. Where the
    /// object is a local community, also returns the same activity addressed
    /// to the community's followers, for the instance to pass on.
    pub fn receive(&self, store: &mut LocalStore) -> (r: Result<Option<Outgoing>, ApiError>)
        ensures
            final(store)@ == old(store)@.after_undo(*self),
            match old(store)@.undo_verification(*self) {
                Err(e) => r == Err::<Option<Outgoing>, ApiError>(e),
                Ok(_) => r is Ok && (r->Ok_0 is Some <==> old(store)@.rebroadcast_for(self.object.object.iri()) is Some),
            },
            r matches Ok(Some(o)) ==> o.activity matches AnnouncableActivity::UndoDelete(u) && u.id == self.id
                && o.targets.inboxes@.len() == 0 && !o.targets.all_instances
                && o.targets.community_followers_of@ == seq![old(store)@.rebroadcast_for(self.object.object.iri())->Some_0.id],
    {
        let same_actor = verify_urls_match(&self.actor, &self.object.actor);
        if let Err(e) = same_actor {
            return Err(e);
        }
        let verified = verify_delete_activity(store, &self.object, self.object.summary.is_some());
        if let Err(e) = verified {
            return Err(e);
        }
        proof {
            lemma_verified_applies(
                store@,
                self.object.actor,
                self.object.to@,
                self.object.object,
                self.object.summary is Some,
            );
        }
        match receive_delete_action(store, &self.object.object, &self.actor, false, None) {
            Ok(Some(c)) => Ok(
                Some(
                    Outgoing {
                        activity: AnnouncableActivity::UndoDelete(self.clone()),
                        targets: ActivitySendTargets::to_local_community_followers(c.id),
                    },
                ),
            ),
            Ok(None) => Ok(None),
            Err(e) => Err(e),
        }
    }
}

} // verus!

verus! {

/// Applying the same deletion action twice leaves the store as applying it
/// once.
pub proof fn lemma_delete_action_idempotent(v: StoreView, iri: Seq<char>, deleted: bool, purge: bool)
    ensures
        v.after_delete_action(iri, deleted, purge).after_delete_action(iri, deleted, purge)
            == v.after_delete_action(iri, deleted, purge),
{
    let w = v.after_delete_action(iri, deleted, purge);
    match index_of_iri(v.communities, iri) {
        Some(i) => {
            lemma_same_iris_same_index(v.communities, w.communities, iri);
            assert(w.communities.update(i, community_with_deleted(w.communities[i], deleted)) =~= w.communities);
        },
        None => match index_of_iri(v.persons, iri) {
            Some(i) => {
                lemma_same_iris_same_index(v.communities, w.communities, iri);
                lemma_same_iris_same_index(v.persons, w.persons, iri);
                let pid = v.persons[i].id;
                assert(w.persons[i].id == pid);
                assert(w.persons.update(i, person_deleted(w.persons[i])) =~= w.persons);
                if purge {
                    assert(w.posts.map_values(|p: Post| post_purged(p, pid)) =~= w.posts);
                    assert(w.comments.map_values(|c: Comment| comment_purged(c, pid)) =~= w.comments);
                }
            },
            None => match index_of_iri(v.posts, iri) {
                Some(i) => {
                    lemma_same_iris_same_index(v.posts, w.posts, iri);
                },
                None => match index_of_iri(v.comments, iri) {
                    Some(i) => {
                        lemma_same_iris_same_index(v.comments, w.comments, iri);
                    },
                    None => match index_of_iri(v.private_messages, iri) {
                        Some(i) => {
                            lemma_same_iris_same_index(v.private_messages, w.private_messages, iri);
                            assert(w.private_messages.update(i, message_with_deleted(w.private_messages[i], deleted))
                                =~= w.private_messages);
                        },
                        None => {},
                    },
                },
            },
        },
    }
}

/// Receiving the same deletion twice leaves the store as receiving it once.
pub proof fn lemma_delete_idempotent(v: StoreView, d: Delete)
    ensures
        v.after_delete(d).after_delete(d) == v.after_delete(d),
{
    lemma_delete_action_idempotent(v, d.object.iri(), true, d.remove_data == Some(true));
}

/// Receiving the same reversal of a deletion twice leaves the store as
/// receiving it once.
pub proof fn lemma_undo_idempotent(v: StoreView, u: UndoDelete)
    ensures
        v.after_undo(u).after_undo(u) == v.after_undo(u),
{
    lemma_delete_action_idempotent(v, u.object.object.iri(), false, false);
}

/// An author's deletion (one without a reason) of anything but a community
/// verifies only where the actor comes from the object's domain, which is
/// the domain of the object's creator.
pub proof fn lemma_author_deletion_same_domain(v: StoreView, d: Delete)
    requires
        d.summary is None,
        v.delete_verification(d.actor, d.to@, d.object, false) is Ok,
        !(v.deletable(d.object.iri()) matches Some(DeletableObjects::Community(_))),
    ensures
        d.actor.host() == d.object.host(),
{
    match index_of_iri(v.communities, d.object.iri()) {
        Some(i) => {},
        None => match index_of_iri(v.persons, d.object.iri()) {
            Some(i) => {
                assert(v.persons[i].ap_id.iri() == d.object.iri());
            },
            None => match index_of_iri(v.posts, d.object.iri()) {
                Some(i) => {
                    assert(v.posts[i].ap_id.iri() == d.object.iri());
                },
                None => match index_of_iri(v.comments, d.object.iri()) {
                    Some(i) => {
                        assert(v.comments[i].ap_id.iri() == d.object.iri());
                    },
                    None => {},
                },
            },
        },
    }
}

/// The community that an object is judged against: a community is its own.
pub open spec fn community_context(v: StoreView, o: DeletableObjects) -> Option<Community> {
    match o {
        DeletableObjects::Community(c) => Some(c),
        DeletableObjects::Post(_) | DeletableObjects::Comment(_) => match v.community_of(o) {
            Ok(c) => Some(c),
            Err(_) => None,
        },
        _ => None,
    }
}

/// A moderator's removal (a deletion with a reason) of a community, post or
/// comment verifies only where the actor is a moderator of the object's
/// community or an admin.
pub proof fn lemma_removal_needs_authority(v: StoreView, d: Delete)
    requires
        d.summary is Some,
        v.delete_verification(d.actor, d.to@, d.object, true) is Ok,
        v.deletable(d.object.iri()) matches Some(o) && (o is Community || o is Post || o is Comment),
    ensures
        community_context(v, v.deletable(d.object.iri())->Some_0) matches Some(c) && v.is_mod_or_admin(
            d.actor.iri(),
            c,
        ),
{
}

/// The post with this identifier, if there is one.
pub open spec fn post_by_iri(v: StoreView, iri: Seq<char>) -> Option<Post> {
    match index_of_iri(v.posts, iri) {
        Some(i) => Some(v.posts[i]),
        None => None,
    }
}

/// A deletion built for a known post and received back marks the post
/// deleted, and the reversal built afterwards from the same actor, recipients
/// and reason marks it not deleted again: the reversal verifies wherever the
/// deletion did, whatever the post's deleted flag.
pub proof fn lemma_post_delete_round_trip(v: StoreView, post: Post, d: Delete, u: UndoDelete)
    requires
        v.deletable(post.ap_id.iri()) == Some(DeletableObjects::Post(post)),
        d.object == DeletableObjects::Post(post).ap_id_spec(),
        u.object.object == DeletableObjects::Post(post).ap_id_spec(),
        u.actor == d.actor,
        u.object.actor == d.actor,
        u.object.to@ == d.to@,
        u.object.summary == d.summary,
        v.delete_verification(d.actor, d.to@, d.object, d.summary is Some) is Ok,
    ensures
        post_by_iri(v.after_delete(d), post.ap_id.iri()) == Some(post_with_deleted(post, true)),
        post_by_iri(v.after_delete(d).after_undo(u), post.ap_id.iri()) == Some(post_with_deleted(post, false)),
{
    let iri = post.ap_id.iri();
    let w = v.after_delete(d);
    lemma_same_iris_same_index(v.posts, w.posts, iri);
    assert(w.deletable(iri) == Some(DeletableObjects::Post(post_with_deleted(post, true))));
    assert(w.community_of(DeletableObjects::Post(post_with_deleted(post, true))) == v.community_of(
        DeletableObjects::Post(post),
    ));
    assert(w.delete_verification(d.actor, d.to@, d.object, d.summary is Some) == v.delete_verification(
        d.actor,
        d.to@,
        d.object,
        d.summary is Some,
    ));
    assert(w.undo_verification(u) is Ok);
    let x = w.after_undo(u);
    lemma_same_iris_same_index(w.posts, x.posts, iri);
}

} // verus!

verus! {

/// `to` addresses the community as `generate_to` does: the community, and
/// the public where its content can be read without logging in.
pub open spec fn addressed_to_community(to: Seq<ApId>, c: Community) -> bool {
    &&& to.len() == (if c.visibility is Public || c.visibility is Unlisted {
        2int
    } else {
        1int
    })
    &&& to[0] == c.ap_id
    &&& to.len() == 2 ==> to[1].iri() == ApId::public_iri()
}

/// `o` is the deletion (`deleted`) or its reversal (`!deleted`) of `object`
/// by `actor` in the community `c`, with the given reason and fresh ids,
/// going to the community's followers where `c` is local and to the
/// community's inbox where it is not.
pub open spec fn is_community_deletion(
    o: Outgoing,
    actor: Person,
    c: Community,
    object: ApId,
    reason: Option<String>,
    deleted: bool,
    activity_id: ApId,
    inner_id: ApId,
) -> bool {
    &&& if deleted {
        (o.activity matches AnnouncableActivity::Delete(d) && d.actor == actor.ap_id && d.object == object
            && d.summary == reason && d.remove_data is None && d.id == activity_id && addressed_to_community(
            d.to@,
            c,
        ))
    } else {
        (o.activity matches AnnouncableActivity::UndoDelete(u) && u.actor == actor.ap_id && u.id == activity_id
            && addressed_to_community(u.to@, c) && u.object.actor == actor.ap_id && u.object.object == object
            && u.object.summary == reason && u.object.remove_data is None && u.object.id == inner_id
            && addressed_to_community(u.object.to@, c))
    }
    &&& !o.targets.all_instances
    &&& if c.local {
        o.targets.inboxes@.len() == 0 && o.targets.community_followers_of@ == seq![c.id]
    } else {
        o.targets.inboxes@.len() == 1 && o.targets.inboxes@[0]@ == community_inbox(c)
            && o.targets.community_followers_of@.len() == 0
    }
}

/// The inbox that activities for a community are delivered to.
pub open spec fn community_inbox(c: Community) -> Seq<char> {
    match c.shared_inbox {
        Some(s) => s@,
        None => c.inbox@,
    }
}

/// The inbox that activities for a community are delivered to: the shared
/// inbox of its instance where there is one.
pub fn community_shared_inbox_or_inbox(c: &Community) -> (r: String)
    ensures
        r@ == community_inbox(*c),
{
    match &c.shared_inbox {
        Some(s) => s.clone(),
        None => c.inbox.clone(),
    }
}

/// Where an activity in a community goes: a local community passes it on to
/// its followers; a remote one receives it in its inbox and forwards it there.
/// Content of a local-only community goes nowhere.
pub fn send_activity_in_community(
    activity: AnnouncableActivity,
    community: &Community,
    extra_inboxes: ActivitySendTargets,
) -> (r: Option<Outgoing>)
    ensures
        r is None <==> !community.visibility.federates(),
        r matches Some(o) ==> o.activity == activity && o.targets.all_instances == extra_inboxes.all_instances
            && if community.local {
            o.targets.inboxes@ == extra_inboxes.inboxes@ && o.targets.community_followers_of@
                == extra_inboxes.community_followers_of@.push(community.id)
        } else {
            o.targets.inboxes@.len() == extra_inboxes.inboxes@.len() + 1
                && o.targets.inboxes@.drop_last() == extra_inboxes.inboxes@
                && o.targets.inboxes@.last()@ == community_inbox(*community)
                && o.targets.community_followers_of@ == extra_inboxes.community_followers_of@
        },
{
    if !community.visibility.can_federate() {
        return None;
    }
    let mut targets = extra_inboxes;
    if community.local {
        targets.add_local_community_followers(community.id);
    } else {
        targets.add_inbox(community_shared_inbox_or_inbox(community));
    }
    Some(Outgoing { activity, targets })
}

/// Builds the deletion (`deleted`) or its reversal (`!deleted`) of an object
/// in a community and where it goes. A `reason` marks a moderator's removal.
/// `activity_id` is the fresh id of the activity sent; a reversal embeds a
/// deletion with the fresh id `inner_id`.
pub fn send_apub_delete_in_community(
    actor: &Person,
    community: &Community,
    object: &DeletableObjects,
    reason: Option<String>,
    deleted: bool,
    activity_id: ApId,
    inner_id: ApId,
) -> (r: Option<Outgoing>)
    ensures
        r is None <==> !community.visibility.federates(),
        r matches Some(o) ==> is_community_deletion(
            o,
            *actor,
            *community,
            object.ap_id_spec(),
            reason,
            deleted,
            activity_id,
            inner_id,
        ),
        r matches Some(o) ==> (community.local ==> forall|v: StoreView, s: Seq<char>|
            #[trigger] o.targets.targets_inbox(v, s) <==> is_follower_inbox(v, community.id, s)),
{
    let to = generate_to(community);
    let activity = if deleted {
        AnnouncableActivity::Delete(Delete::new(actor, object, to, Some(community), reason, activity_id))
    } else {
        AnnouncableActivity::UndoDelete(
            UndoDelete::new(actor, object, to, Some(community), reason, inner_id, activity_id),
        )
    };
    let r = send_activity_in_community(activity, community, ActivitySendTargets::empty());
    proof {
        if r is Some && !community.local {
            assert(r->Some_0.targets.inboxes@[0] == r->Some_0.targets.inboxes@.last());
        }
        if r is Some && community.local {
            assert(r->Some_0.targets.community_followers_of@ =~= seq![community.id]);
            assert forall|v: StoreView, s: Seq<char>|
                #[trigger] r->Some_0.targets.targets_inbox(v, s) <==> is_follower_inbox(v, community.id, s) by {
                lemma_community_followers_fan_out(v, r->Some_0.targets, community.id);
            }
        }
    }
    r
}

/// Builds the deletion (`deleted`) or its reversal (`!deleted`) of a private
/// message, addressed to its recipient alone. Fails where the recipient is
/// unknown.
pub fn send_apub_delete_private_message(
    store: &LocalStore,
    actor: &Person,
    pm: PrivateMessage,
    deleted: bool,
    activity_id: ApId,
    inner_id: ApId,
) -> (r: Result<Outgoing, ApiError>)
    ensures
        match store@.person_by_id(pm.recipient_id) {
            None => r == Err::<Outgoing, ApiError>(ApiError::NotFound),
            Some(recipient) => r matches Ok(o) && o.targets.inboxes@.len() == 1
                && o.targets.inboxes@[0]@ == crate::send_targets::inbox_of(recipient)
                && o.targets.community_followers_of@.len() == 0 && !o.targets.all_instances && (if deleted {
                o.activity matches AnnouncableActivity::Delete(d) && d.actor == actor.ap_id && d.object
                    == pm.ap_id && d.to@ == seq![recipient.ap_id] && d.summary is None && d.id == activity_id
            } else {
                o.activity matches AnnouncableActivity::UndoDelete(u) && u.actor == actor.ap_id
                    && u.object.object == pm.ap_id && u.to@ == seq![recipient.ap_id] && u.id == activity_id
                    && u.object.id == inner_id && u.object.summary is None && u.object.actor == actor.ap_id
                    && u.object.to@ == seq![recipient.ap_id]
            }),
        },
{
    let recipient = match store.read_person(pm.recipient_id) {
        Ok(p) => p,
        Err(e) => return Err(e),
    };
    let deletable = DeletableObjects::PrivateMessage(pm);
    let inbox = ActivitySendTargets::to_inbox(shared_inbox_or_inbox(&recipient));
    let mut to: Vec<ApId> = Vec::new();
    to.push(recipient.ap_id.clone());
    assert(to@ =~= seq![recipient.ap_id]);
    let activity = if deleted {
        AnnouncableActivity::Delete(Delete::new(actor, &deletable, to, None, None, activity_id))
    } else {
        AnnouncableActivity::UndoDelete(UndoDelete::new(actor, &deletable, to, None, None, inner_id, activity_id))
    };
    Ok(Outgoing { activity, targets: inbox })
}

/// Builds the deletion of a person's account, addressed to the public and
/// sent to every known instance. `remove_data` asks the receivers to purge
/// everything the person posted as well.
pub fn send_apub_delete_user(person: Person, remove_data: bool, activity_id: ApId) -> (r: Outgoing)
    ensures
        r.activity matches AnnouncableActivity::Delete(d) && d.actor == person.ap_id && d.object == person.ap_id
            && d.to@.len() == 1 && d.to@[0].iri() == ApId::public_iri() && d.remove_data == Some(remove_data)
            && d.summary is None && d.id == activity_id,
        r.targets.all_instances && r.targets.inboxes@.len() == 0 && r.targets.community_followers_of@.len() == 0,
{
    let deletable = DeletableObjects::Person(person.clone());
    let mut to: Vec<ApId> = Vec::new();
    to.push(ApId::public());
    let mut delete = Delete::new(&person, &deletable, to, None, None, activity_id);
    delete.remove_data = Some(remove_data);
    Outgoing { activity: AnnouncableActivity::Delete(delete), targets: ActivitySendTargets::to_all_instances() }
}

} // verus!

verus! {

/// An activity as it arrives in the inbox, already signature-checked.
#[derive(Debug)]
pub enum InboxActivity {
    Delete(Delete),
    UndoDelete(UndoDelete),
}

/// Verifies and applies an inbound activity. A failure leaves the store
/// untouched; the activity is then dropped, not retried. Returns what the
/// instance must pass on, if anything.
pub fn receive_activity(store: &mut LocalStore, activity: &InboxActivity) -> (r: Result<Option<Outgoing>, ApiError>)
    ensures
        match activity {
            InboxActivity::Delete(d) => {
                &&& final(store)@ == old(store)@.after_delete(*d)
                &&& match old(store)@.delete_verification(d.actor, d.to@, d.object, d.summary is Some) {
                    Err(e) => r == Err::<Option<Outgoing>, ApiError>(e),
                    Ok(_) => r is Ok && (r->Ok_0 is Some <==> old(store)@.rebroadcast_for(d.object.iri()) is Some),
                }
                &&& r matches Ok(Some(o)) ==> o.activity matches AnnouncableActivity::Delete(e) && e.id == d.id
                    && e.object == d.object && o.targets.inboxes@.len() == 0 && !o.targets.all_instances
                    && o.targets.community_followers_of@ == seq![old(store)@.rebroadcast_for(d.object.iri())->Some_0.id]
            },
            InboxActivity::UndoDelete(u) => {
                &&& final(store)@ == old(store)@.after_undo(*u)
                &&& match old(store)@.undo_verification(*u) {
                    Err(e) => r == Err::<Option<Outgoing>, ApiError>(e),
                    Ok(_) => r is Ok && (r->Ok_0 is Some <==> old(store)@.rebroadcast_for(u.object.object.iri()) is Some),
                }
                &&& r matches Ok(Some(o)) ==> o.activity matches AnnouncableActivity::UndoDelete(e) && e.id == u.id
                    && o.targets.inboxes@.len() == 0 && !o.targets.all_instances
                    && o.targets.community_followers_of@ == seq![old(store)@.rebroadcast_for(u.object.object.iri())->Some_0.id]
            },
        },
        r is Err ==> final(store)@ == old(store)@,
{
    match activity {
        InboxActivity::Delete(d) => d.receive(store),
        InboxActivity::UndoDelete(u) => u.receive(store),
    }
}

} // verus!
