use vstd::prelude::*;
use crate::activity::Outgoing;
use crate::ap_id::ApId;
use crate::deletion::{
    comment_with_deleted, is_community_deletion, send_apub_delete_in_community, DeletableObjects,
};
use crate::error::ApiError;
use crate::local_user::LocalUser;
use crate::store::{
    find_by_id, index_of_id, Community, CommunityVisibility, LocalStore, Person, PrivateMessage, StoreView,
};

verus! {

/// The private message with its read flag set to `read`.
pub open spec fn message_with_read(m: PrivateMessage, read: bool) -> PrivateMessage {
    PrivateMessage { read, ..m }
}

/// The person may act in the community: neither of them is deleted or
/// removed, and the person is banned neither from the site nor from the
/// community.
pub open spec fn user_action_check(v: StoreView, person: Person, c: Community) -> Result<(), ApiError> {
    if person.banned {
        Err(ApiError::PersonIsBanned)
    } else if person.deleted {
        Err(ApiError::Deleted)
    } else if c.deleted || c.removed {
        Err(ApiError::Deleted)
    } else if v.is_banned_from(c.id, person.id) {
        Err(ApiError::PersonIsBanned)
    } else {
        Ok(())
    }
}

/// Checks that the person may act in the community.
pub fn check_community_user_action(store: &LocalStore, person: &Person, community: &Community) -> (r: Result<(), ApiError>)
    ensures
        r == user_action_check(store@, *person, *community),
{
    if person.banned {
        Err(ApiError::PersonIsBanned)
    } else if person.deleted {
        Err(ApiError::Deleted)
    } else if community.deleted || community.removed {
        Err(ApiError::Deleted)
    } else if store.is_banned_from(community.id, person.id) {
        Err(ApiError::PersonIsBanned)
    } else {
        Ok(())
    }
}

/// Deletes (`deleted`) or restores (`!deleted`) a comment on behalf of its
/// creator, and builds the one activity that tells the comment's community:
/// the deletion (or its reversal) of the comment by the person, without a
/// reason. Fails where the comment or its community is unknown, where the
/// comment already is in the wanted state, where the person may not act in
/// the community, and where somebody else asks.
pub fn delete_comment(
    store: &mut LocalStore,
    comment_id: i32,
    deleted: bool,
    person: &Person,
    activity_id: ApId,
    inner_id: ApId,
) -> (r: Result<Option<Outgoing>, ApiError>)
    ensures
        ({
            let v = old(store)@;
            match index_of_id(v.comments, comment_id) {
                None => r == Err::<Option<Outgoing>, ApiError>(ApiError::NotFound) && final(store)@ == v,
                Some(i) => {
                    let c = v.comments[i];
                    match v.community_of(DeletableObjects::Comment(c)) {
                        Err(e) => r == Err::<Option<Outgoing>, ApiError>(e) && final(store)@ == v,
                        Ok(community) => if c.deleted == deleted {
                            r == Err::<Option<Outgoing>, ApiError>(ApiError::CouldntUpdate) && final(store)@ == v
                        } else if user_action_check(v, *person, community) is Err {
                            r == Err::<Option<Outgoing>, ApiError>(user_action_check(v, *person, community)->Err_0)
                                && final(store)@ == v
                        } else if person.id != c.creator_id {
                            r == Err::<Option<Outgoing>, ApiError>(ApiError::NoCommentEditAllowed) && final(store)@ == v
                        } else {
                            &&& r matches Ok(o) && (o is None <==> !community.visibility.federates())
                            &&& r matches Ok(Some(out)) ==> is_community_deletion(
                                out,
                                *person,
                                community,
                                c.ap_id,
                                None,
                                deleted,
                                activity_id,
                                inner_id,
                            )
                            &&& final(store)@ == StoreView {
                                comments: v.comments.update(i, comment_with_deleted(c, deleted)),
                                ..v
                            }
                        },
                    }
                },
            }
        }),
{
    let i = match find_by_id(&store.comments, comment_id) {
        Some(i) => i,
        None => return Err(ApiError::NotFound),
    };
    let orig = store.comments[i].clone();
    let community = match store.community_of(&DeletableObjects::Comment(orig.clone())) {
        Ok(c) => c,
        Err(e) => return Err(e),
    };
    // Nothing to do where the comment already is in the wanted state.
    if orig.deleted == deleted {
        return Err(ApiError::CouldntUpdate);
    }
    if let Err(e) = check_community_user_action(store, person, &community) {
        return Err(e);
    }
    // Only the creator may delete a comment.
    if person.id != orig.creator_id {
        return Err(ApiError::NoCommentEditAllowed);
    }
    store.comments[i].deleted = deleted;
    let updated = store.comments[i].clone();
    assert(store.comments@ =~= old(store).comments@.update(i as int, comment_with_deleted(orig, deleted)));
    Ok(
        send_apub_delete_in_community(
            person,
            &community,
            &DeletableObjects::Comment(updated),
            None,
            deleted,
            activity_id,
            inner_id,
        ),
    )
}

/// Marks a private message read (`read`) or unread on behalf of its
/// recipient. Fails where the message is unknown or somebody else asks.
pub fn mark_pm_as_read(store: &mut LocalStore, private_message_id: i32, read: bool, person_id: i32) -> (r: Result<(), ApiError>)
    ensures
        ({
            let v = old(store)@;
            match index_of_id(v.private_messages, private_message_id) {
                None => r == Err::<(), ApiError>(ApiError::NotFound) && final(store)@ == v,
                Some(i) => if v.private_messages[i].recipient_id != person_id {
                    r == Err::<(), ApiError>(ApiError::CouldntUpdatePrivateMessage) && final(store)@ == v
                } else {
                    r == Ok::<(), ApiError>(()) && final(store)@ == StoreView {
                        private_messages: v.private_messages.update(i, message_with_read(v.private_messages[i], read)),
                        ..v
                    }
                },
            }
        }),
{
    let i = match find_by_id(&store.private_messages, private_message_id) {
        Some(i) => i,
        None => return Err(ApiError::NotFound),
    };
    if store.private_messages[i].recipient_id != person_id {
        return Err(ApiError::CouldntUpdatePrivateMessage);
    }
    store.private_messages[i].read = read;
    assert(store.private_messages@ =~= old(store).private_messages@.update(
        i as int,
        message_with_read(old(store).private_messages@[i as int], read),
    ));
    Ok(())
}

/// A community as shown to a viewer.
#[derive(Debug)]
pub struct CommunityView {
    pub community: Community,
}

/// A viewer may see the community: deleted and removed ones only as a
/// moderator or admin, and non-public ones only when logged in.
pub open spec fn community_visible_to(c: Community, logged_in: bool, is_mod_or_admin: bool) -> bool {
    (is_mod_or_admin || (!c.deleted && !c.removed)) && (logged_in || c.visibility == CommunityVisibility::Public)
}

impl CommunityView {
    /// Reads the community as the viewer may see it.
    pub fn read(
        store: &LocalStore,
        community_id: i32,
        my_local_user: Option<&LocalUser>,
        is_mod_or_admin: bool,
    ) -> (r: Result<CommunityView, ApiError>)
        ensures
            match store@.community_by_id(community_id) {
                Some(c) => if community_visible_to(c, my_local_user is Some, is_mod_or_admin) {
                    r == Ok::<CommunityView, ApiError>(CommunityView { community: c })
                } else {
                    r == Err::<CommunityView, ApiError>(ApiError::NotFound)
                },
                None => r == Err::<CommunityView, ApiError>(ApiError::NotFound),
            },
    {
        let c = match store.read_community(community_id) {
            Ok(c) => c,
            Err(e) => return Err(e),
        };
        // Deleted and removed communities are hidden but from moderators and
        // admins.
        if !is_mod_or_admin && (c.deleted || c.removed) {
            return Err(ApiError::NotFound);
        }
        if my_local_user.is_none() && c.visibility != CommunityVisibility::Public {
            return Err(ApiError::NotFound);
        }
        Ok(CommunityView { community: c })
    }

    /// Checks that the person moderates the community or is an admin of this
    /// instance.
    pub fn check_is_mod_or_admin(store: &LocalStore, person_id: i32, community_id: i32) -> (r: Result<(), ApiError>)
        ensures
            r == if store@.is_moderator(community_id, person_id) || (store@.person_by_id(person_id) matches Some(
                p,
            ) && p.is_admin) {
                Ok::<(), ApiError>(())
            } else {
                Err(ApiError::NotAModOrAdmin)
            },
    {
        if store.is_moderator(community_id, person_id) {
            return Ok(());
        }
        match store.read_person(person_id) {
            Ok(p) => if p.is_admin {
                Ok(())
            } else {
                Err(ApiError::NotAModOrAdmin)
            },
            Err(_) => Err(ApiError::NotAModOrAdmin),
        }
    }

    /// Checks that the person moderates some community or is an admin of
    /// this instance.
    pub fn check_is_mod_of_any_or_admin(store: &LocalStore, person_id: i32) -> (r: Result<(), ApiError>)
        ensures
            r == if (exists|k: int| 0 <= k < store@.moderators.len() && #[trigger] store@.moderators[k].person_id == person_id)
                || (store@.person_by_id(person_id) matches Some(p) && p.is_admin) {
                Ok::<(), ApiError>(())
            } else {
                Err(ApiError::NotAModOrAdmin)
            },
    {
        let mut k: usize = 0;
        while k < store.moderators.len()
            invariant
                0 <= k <= store.moderators.len(),
                forall|j: int| 0 <= j < k ==> #[trigger] store@.moderators[j].person_id != person_id,
            decreases store.moderators.len() - k,
        {
            if store.moderators[k].person_id == person_id {
                assert(store@.moderators[k as int].person_id == person_id);
                return Ok(());
            }
            k = k + 1;
        }
        match store.read_person(person_id) {
            Ok(p) => if p.is_admin {
                Ok(())
            } else {
                Err(ApiError::NotAModOrAdmin)
            },
            Err(_) => Err(ApiError::NotAModOrAdmin),
        }
    }
}

} // verus!
