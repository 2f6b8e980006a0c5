use lemmy_federation::activity::AnnouncableActivity;
use lemmy_federation::ap_id::ApId;
use lemmy_federation::api::{delete_comment, mark_pm_as_read, CommunityView};
use lemmy_federation::combined::{
    CursorTarget, InternalToCombinedView, PersonContentCombinedView, PersonContentCombinedViewInternal,
};
use lemmy_federation::error::ApiError;
use lemmy_federation::kinds::PersonContentType;
use lemmy_federation::local_user::{LocalUser, RegistrationApplication, WEEK_SECONDS};
use lemmy_federation::store::{
    CommunityBan, Comment, Community, CommunityModerator, CommunityVisibility, LocalStore, Person, Post, PrivateMessage,
};

fn id(s: &str) -> ApId {
    ApId::parse(s).unwrap()
}

fn person(pid: i32, name: &str, admin: bool) -> Person {
    Person {
        id: pid,
        ap_id: id(&format!("https://local.tld/u/{}", name)),
        name: name.to_string(),
        local: true,
        deleted: false,
        banned: false,
        is_admin: admin,
        inbox: format!("https://local.tld/u/{}/inbox", name),
        shared_inbox: None,
        instance_id: 1,
    }
}

fn store() -> LocalStore {
    LocalStore {
        persons: vec![person(1, "alice", false), person(2, "bob", false), person(3, "root", true)],
        communities: vec![Community {
            id: 10,
            ap_id: id("https://local.tld/c/news"),
            name: "news".to_string(),
            local: true,
            deleted: false,
            removed: false,
            visibility: CommunityVisibility::Public,
            inbox: "https://local.tld/c/news/inbox".to_string(),
            shared_inbox: None,
            instance_id: 1,
        }],
        posts: vec![Post { id: 100, ap_id: id("https://local.tld/post/100"), creator_id: 1, community_id: 10, deleted: false }],
        comments: vec![Comment {
            id: 200,
            ap_id: id("https://local.tld/comment/200"),
            creator_id: 1,
            post_id: 100,
            deleted: false,
        }],
        private_messages: vec![PrivateMessage {
            id: 300,
            ap_id: id("https://local.tld/pm/300"),
            creator_id: 2,
            recipient_id: 1,
            deleted: false,
            read: false,
        }],
        sites: vec![],
        followers: vec![],
        moderators: vec![CommunityModerator { community_id: 10, person_id: 2, became_moderator_at: 1 }],
        bans: vec![],
    }
}

#[test]
fn comment_deletion_by_creator() {
    let mut s = store();
    let alice = s.persons[0].clone();
    let out = delete_comment(
        &mut s,
        200,
        true,
        &alice,
        id("https://local.tld/activities/delete/1"),
        id("https://local.tld/activities/delete/0"),
    )
    .unwrap()
    .unwrap();
    assert!(s.comments[0].deleted);
    assert!(matches!(out.activity, AnnouncableActivity::Delete(_)));
    assert_eq!(out.targets.community_followers_of, vec![10]);
}

#[test]
fn comment_deletion_errors() {
    let mut s = store();
    let alice = s.persons[0].clone();
    let bob = s.persons[1].clone();
    let a = id("https://local.tld/activities/delete/1");
    let b = id("https://local.tld/activities/delete/2");
    assert_eq!(
        delete_comment(&mut s, 200, false, &alice, a.clone(), b.clone()).unwrap_err(),
        ApiError::CouldntUpdate
    );
    assert_eq!(
        delete_comment(&mut s, 200, true, &bob, a.clone(), b.clone()).unwrap_err(),
        ApiError::NoCommentEditAllowed
    );
    assert_eq!(delete_comment(&mut s, 201, true, &alice, a, b).unwrap_err(), ApiError::NotFound);
    assert!(!s.comments[0].deleted);
}

#[test]
fn private_message_read_by_recipient() {
    let mut s = store();
    assert_eq!(mark_pm_as_read(&mut s, 300, true, 2), Err(ApiError::CouldntUpdatePrivateMessage));
    assert!(!s.private_messages[0].read);
    assert_eq!(mark_pm_as_read(&mut s, 300, true, 1), Ok(()));
    assert!(s.private_messages[0].read);
    assert_eq!(mark_pm_as_read(&mut s, 301, true, 1), Err(ApiError::NotFound));
}

#[test]
fn mod_or_admin_checks() {
    let s = store();
    assert_eq!(CommunityView::check_is_mod_or_admin(&s, 2, 10), Ok(()));
    assert_eq!(CommunityView::check_is_mod_or_admin(&s, 3, 10), Ok(()));
    assert_eq!(CommunityView::check_is_mod_or_admin(&s, 1, 10), Err(ApiError::NotAModOrAdmin));
    assert_eq!(CommunityView::check_is_mod_or_admin(&s, 9, 10), Err(ApiError::NotAModOrAdmin));
    assert_eq!(CommunityView::check_is_mod_of_any_or_admin(&s, 2), Ok(()));
    assert_eq!(CommunityView::check_is_mod_of_any_or_admin(&s, 3), Ok(()));
    assert_eq!(CommunityView::check_is_mod_of_any_or_admin(&s, 1), Err(ApiError::NotAModOrAdmin));
}

#[test]
fn community_read_hides_deleted() {
    let mut s = store();
    assert_eq!(CommunityView::read(&s, 10, None, false).unwrap().community.id, 10);
    s.communities[0].deleted = true;
    assert_eq!(CommunityView::read(&s, 10, None, false).unwrap_err(), ApiError::NotFound);
    assert!(CommunityView::read(&s, 10, None, true).is_ok());
    s.communities[0].deleted = false;
    s.communities[0].visibility = CommunityVisibility::Private;
    assert_eq!(CommunityView::read(&s, 10, None, false).unwrap_err(), ApiError::NotFound);
    let viewer = LocalUser {
        id: 1,
        person_id: 1,
        password_encrypted: None,
        email: None,
        admin: false,
        show_nsfw: false,
        show_bot_accounts: true,
        show_read_posts: true,
        hide_media: false,
        email_verified: true,
        accepted_application: true,
    };
    assert!(CommunityView::read(&s, 10, Some(&viewer), false).is_ok());
    assert_eq!(CommunityView::read(&s, 11, Some(&viewer), true).unwrap_err(), ApiError::NotFound);
}

fn row(with_comment: bool) -> PersonContentCombinedViewInternal {
    let s = store();
    PersonContentCombinedViewInternal {
        comment: if with_comment { Some(s.comments[0].clone()) } else { None },
        post: s.posts[0].clone(),
        community: s.communities[0].clone(),
        item_creator: s.persons[0].clone(),
    }
}

#[test]
fn combined_rows_and_cursors() {
    assert!(row(true).kept_by(Some(PersonContentType::Comments)));
    assert!(!row(true).kept_by(Some(PersonContentType::Posts)));
    assert!(row(false).kept_by(Some(PersonContentType::Posts)));
    assert!(row(false).kept_by(None));
    let c = row(true).map_to_enum().unwrap();
    assert!(matches!(c, PersonContentCombinedView::Comment(_)));
    assert_eq!(c.to_cursor(), ('C', 200));
    let p = row(false).map_to_enum().unwrap();
    assert_eq!(p.to_cursor(), ('P', 100));
    assert_eq!(PersonContentCombinedView::from_cursor('C', 200), Ok(CursorTarget::Comment(200)));
    assert_eq!(PersonContentCombinedView::from_cursor('P', 100), Ok(CursorTarget::Post(100)));
    assert_eq!(
        PersonContentCombinedView::from_cursor('X', 1),
        Err(ApiError::CouldntParsePaginationToken)
    );
}

#[test]
fn old_denied_users() {
    let mut denied = LocalUser {
        id: 1,
        person_id: 11,
        password_encrypted: None,
        email: None,
        admin: false,
        show_nsfw: false,
        show_bot_accounts: true,
        show_read_posts: true,
        hide_media: false,
        email_verified: true,
        accepted_application: false,
    };
    let users = vec![denied.clone(), {
        denied.id = 2;
        denied.person_id = 12;
        denied.clone()
    }, {
        denied.id = 3;
        denied.person_id = 13;
        denied.accepted_application = true;
        denied.clone()
    }];
    let now = 10 * WEEK_SECONDS;
    let apps = vec![
        RegistrationApplication { local_user_id: 1, admin_id: Some(5), published_at: now - 2 * WEEK_SECONDS },
        RegistrationApplication { local_user_id: 2, admin_id: Some(5), published_at: now - 1 },
        RegistrationApplication { local_user_id: 3, admin_id: Some(5), published_at: 0 },
    ];
    assert_eq!(LocalUser::delete_old_denied_local_users(&users, &apps, now), vec![11]);
}

#[test]
fn update_password_hashes() {
    let mut u = LocalUser {
        id: 1,
        person_id: 11,
        password_encrypted: None,
        email: None,
        admin: false,
        show_nsfw: false,
        show_bot_accounts: true,
        show_read_posts: true,
        hide_media: false,
        email_verified: true,
        accepted_application: true,
    };
    u.update_password("secret").unwrap();
    let h = u.password_encrypted.unwrap();
    assert!(h.starts_with("$2b$12$"));
    assert!(bcrypt::verify("secret", &h).unwrap());
}

#[test]
fn comment_deletion_needs_standing_in_community() {
    let a = id("https://local.tld/activities/delete/1");
    let b = id("https://local.tld/activities/delete/2");
    let mut s = store();
    let alice = s.persons[0].clone();
    s.bans.push(CommunityBan { community_id: 10, person_id: 1 });
    assert_eq!(delete_comment(&mut s, 200, true, &alice, a.clone(), b.clone()).unwrap_err(), ApiError::PersonIsBanned);
    let mut s = store();
    s.communities[0].removed = true;
    assert_eq!(delete_comment(&mut s, 200, true, &alice, a.clone(), b.clone()).unwrap_err(), ApiError::Deleted);
    let mut s = store();
    let mut banned = alice.clone();
    banned.banned = true;
    assert_eq!(delete_comment(&mut s, 200, true, &banned, a, b).unwrap_err(), ApiError::PersonIsBanned);
    assert!(!s.comments[0].deleted);
}

#[test]
fn comment_restore_sends_reversal() {
    let mut s = store();
    s.comments[0].deleted = true;
    let alice = s.persons[0].clone();
    let out = delete_comment(
        &mut s,
        200,
        false,
        &alice,
        id("https://local.tld/activities/undo/1"),
        id("https://local.tld/activities/delete/1"),
    )
    .unwrap()
    .unwrap();
    assert!(!s.comments[0].deleted);
    match out.activity {
        AnnouncableActivity::UndoDelete(u) => {
            assert_eq!(u.object.object.as_str(), "https://local.tld/comment/200");
            assert_eq!(u.actor.as_str(), "https://local.tld/u/alice");
            assert_eq!(u.object.summary, None);
            assert_eq!(u.to.len(), 2);
        }
        _ => panic!("expected a reversal"),
    }
}
