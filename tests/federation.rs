use lemmy_federation::activity::{AnnouncableActivity, Delete, UndoDelete};
use lemmy_federation::ap_id::{verify_domains_match, ApId};
use lemmy_federation::deletion::{
    receive_activity, receive_delete_action, send_apub_delete_in_community, InboxActivity, send_apub_delete_private_message,
    send_apub_delete_user, verify_delete_activity, DeletableObjects,
};
use lemmy_federation::error::ApiError;
use lemmy_federation::fetcher::{
    get_instance_id, resolve_ap_identifier, ActorKind, Resolution, SiteOrCommunityOrUser, UserOrCommunity,
};
use lemmy_federation::local_user::LocalUser;
use lemmy_federation::report::{
    CandidateStep, IdStep, PrivateMessageReport, Report, ReportObject, ReportableObjects,
};
use lemmy_federation::send_targets::ActivitySendTargets;
use lemmy_federation::store::{
    Comment, Community, CommunityBan, CommunityFollower, CommunityModerator, CommunityVisibility, LocalStore,
    Person, Post, PrivateMessage, Site,
};

fn id(s: &str) -> ApId {
    ApId::parse(s).unwrap()
}

fn person(pid: i32, url: &str, name: &str, local: bool, shared_inbox: Option<&str>) -> Person {
    Person {
        id: pid,
        ap_id: id(url),
        name: name.to_string(),
        local,
        deleted: false,
        banned: false,
        is_admin: false,
        inbox: format!("{}/inbox", url),
        shared_inbox: shared_inbox.map(|s| s.to_string()),
        instance_id: if local { 1 } else { 2 },
    }
}

fn community(cid: i32, url: &str, name: &str, local: bool, visibility: CommunityVisibility) -> Community {
    Community {
        id: cid,
        ap_id: id(url),
        name: name.to_string(),
        local,
        deleted: false,
        removed: false,
        visibility,
        inbox: format!("{}/inbox", url),
        shared_inbox: None,
        instance_id: if local { 1 } else { 2 },
    }
}

fn local_user(id: i32, person_id: i32) -> LocalUser {
    LocalUser {
        id,
        person_id,
        password_encrypted: None,
        email: None,
        admin: false,
        show_nsfw: false,
        show_bot_accounts: true,
        show_read_posts: true,
        hide_media: false,
        email_verified: false,
        accepted_application: true,
    }
}

/// A local instance `local.tld` with a public community, its local author
/// alice, a remote person bob, a moderator carol, and a post and a comment
/// by alice.
fn store() -> LocalStore {
    let mut carol = person(3, "https://local.tld/u/carol", "carol", true, None);
    carol.is_admin = false;
    LocalStore {
        persons: vec![
            person(1, "https://local.tld/u/alice", "alice", true, None),
            person(2, "https://remote.tld/u/bob", "bob", false, Some("https://remote.tld/inbox")),
            carol,
        ],
        communities: vec![community(10, "https://local.tld/c/news", "news", true, CommunityVisibility::Public)],
        posts: vec![Post {
            id: 100,
            ap_id: id("https://local.tld/post/100"),
            creator_id: 1,
            community_id: 10,
            deleted: false,
        }],
        comments: vec![Comment {
            id: 200,
            ap_id: id("https://local.tld/comment/200"),
            creator_id: 1,
            post_id: 100,
            deleted: false,
        }],
        private_messages: vec![PrivateMessage {
            id: 300,
            ap_id: id("https://remote.tld/pm/300"),
            creator_id: 2,
            recipient_id: 1,
            deleted: false,
            read: false,
        }],
        sites: vec![
            Site {
                id: 1,
                ap_id: id("https://local.tld/"),
                inbox: "https://local.tld/inbox".to_string(),
                instance_id: 1,
                local: true,
                content_warning: None,
            },
            Site {
                id: 2,
                ap_id: id("https://remote.tld/"),
                inbox: "https://remote.tld/inbox".to_string(),
                instance_id: 2,
                local: false,
                content_warning: None,
            },
        ],
        followers: vec![],
        moderators: vec![CommunityModerator { community_id: 10, person_id: 3, became_moderator_at: 5 }],
        bans: vec![],
    }
}

fn public_to(c: &Community) -> Vec<ApId> {
    vec![c.ap_id.clone(), ApId::public()]
}

fn delete_of(actor: &str, object: &str, to: Vec<ApId>, summary: Option<&str>) -> Delete {
    Delete {
        actor: id(actor),
        to,
        object: id(object),
        cc: vec![],
        summary: summary.map(|s| s.to_string()),
        remove_data: None,
        id: id("https://local.tld/activities/delete/1"),
    }
}

#[test]
fn parse_and_domain() {
    let a = id("https://Remote.TLD/u/alice");
    assert_eq!(a.as_str(), "https://remote.tld/u/alice");
    assert_eq!(a.domain(), Some("remote.tld".to_string()));
    assert_eq!(ApId::parse("not a url").unwrap_err(), ApiError::InvalidUrl);
    assert!(verify_domains_match(&id("https://a.tld/x"), &id("https://a.tld/y")).is_ok());
    assert_eq!(
        verify_domains_match(&id("https://a.tld/x"), &id("https://b.tld/x")),
        Err(ApiError::DomainsDoNotMatch)
    );
}

#[test]
fn read_from_db_tries_each_kind() {
    let s = store();
    assert!(matches!(
        DeletableObjects::read_from_db(&s, &id("https://local.tld/c/news")),
        Ok(DeletableObjects::Community(_))
    ));
    assert!(matches!(
        DeletableObjects::read_from_db(&s, &id("https://remote.tld/u/bob")),
        Ok(DeletableObjects::Person(_))
    ));
    assert!(matches!(
        DeletableObjects::read_from_db(&s, &id("https://local.tld/post/100")),
        Ok(DeletableObjects::Post(_))
    ));
    assert!(matches!(
        DeletableObjects::read_from_db(&s, &id("https://local.tld/comment/200")),
        Ok(DeletableObjects::Comment(_))
    ));
    assert!(matches!(
        DeletableObjects::read_from_db(&s, &id("https://remote.tld/pm/300")),
        Ok(DeletableObjects::PrivateMessage(_))
    ));
    assert!(matches!(
        DeletableObjects::read_from_db(&s, &id("https://local.tld/post/999")),
        Err(ApiError::NotFound)
    ));
    let o = DeletableObjects::read_from_db(&s, &id("https://local.tld/post/100")).unwrap();
    assert_eq!(o.id().as_str(), "https://local.tld/post/100");
}

#[test]
fn author_deletes_own_post() {
    let mut s = store();
    let to = public_to(&s.communities[0]);
    let d = delete_of("https://local.tld/u/alice", "https://local.tld/post/100", to, None);
    assert!(verify_delete_activity(&s, &d, false).is_ok());
    assert!(d.receive(&mut s).unwrap().is_none());
    assert!(s.posts[0].deleted);
}

#[test]
fn remote_author_cannot_delete_foreign_post() {
    let mut s = store();
    let to = public_to(&s.communities[0]);
    let d = delete_of("https://remote.tld/u/bob", "https://local.tld/post/100", to, None);
    assert_eq!(d.receive(&mut s).unwrap_err(), ApiError::DomainsDoNotMatch);
    assert!(!s.posts[0].deleted);
}

#[test]
fn removal_needs_moderator() {
    let mut s = store();
    let to = public_to(&s.communities[0]);
    let by_author = delete_of("https://local.tld/u/alice", "https://local.tld/comment/200", to.clone(), Some("spam"));
    assert_eq!(by_author.receive(&mut s).unwrap_err(), ApiError::NotAModOrAdmin);
    assert!(!s.comments[0].deleted);
    let by_mod = delete_of("https://local.tld/u/carol", "https://local.tld/comment/200", to, Some("spam"));
    assert!(by_mod.receive(&mut s).is_ok());
    assert!(s.comments[0].deleted);
}

#[test]
fn removal_by_admin() {
    let mut s = store();
    s.persons[0].is_admin = true;
    let to = public_to(&s.communities[0]);
    let d = delete_of("https://local.tld/u/alice", "https://local.tld/post/100", to, Some("rules"));
    assert!(d.receive(&mut s).is_ok());
    assert!(s.posts[0].deleted);
}

#[test]
fn visibility_must_match() {
    let mut s = store();
    let d = delete_of("https://local.tld/u/alice", "https://local.tld/post/100", vec![], None);
    assert_eq!(d.receive(&mut s).unwrap_err(), ApiError::ObjectIsNotPublic);
    s.communities[0].visibility = CommunityVisibility::Private;
    let to = public_to(&s.communities[0]);
    let d = delete_of("https://local.tld/u/alice", "https://local.tld/post/100", to, None);
    assert_eq!(d.receive(&mut s).unwrap_err(), ApiError::ObjectIsNotPrivate);
    s.communities[0].visibility = CommunityVisibility::LocalOnlyPublic;
    let to = public_to(&s.communities[0]);
    let d = delete_of("https://local.tld/u/alice", "https://local.tld/post/100", to, None);
    assert_eq!(d.receive(&mut s).unwrap_err(), ApiError::NotFound);
    assert!(!s.posts[0].deleted);
}

#[test]
fn banned_person_cannot_delete() {
    let mut s = store();
    s.bans.push(CommunityBan { community_id: 10, person_id: 1 });
    let to = public_to(&s.communities[0]);
    let d = delete_of("https://local.tld/u/alice", "https://local.tld/post/100", to, None);
    assert_eq!(d.receive(&mut s).unwrap_err(), ApiError::PersonIsBanned);
}

#[test]
fn unknown_object_is_not_found() {
    let mut s = store();
    let d = delete_of("https://local.tld/u/alice", "https://local.tld/post/7", vec![ApId::public()], None);
    assert_eq!(d.receive(&mut s).unwrap_err(), ApiError::NotFound);
}

#[test]
fn delete_twice_is_delete_once() {
    let mut s = store();
    let to = public_to(&s.communities[0]);
    let d = delete_of("https://local.tld/u/alice", "https://local.tld/post/100", to, None);
    d.receive(&mut s).unwrap();
    let once = format!("{:?}", s);
    d.receive(&mut s).unwrap();
    assert_eq!(format!("{:?}", s), once);
}

#[test]
fn post_round_trip() {
    let mut s = store();
    let alice = s.persons[0].clone();
    let news = s.communities[0].clone();
    let post = DeletableObjects::Post(s.posts[0].clone());
    let out = send_apub_delete_in_community(
        &alice,
        &news,
        &post,
        None,
        true,
        id("https://local.tld/activities/delete/1"),
        id("https://local.tld/activities/delete/0"),
    )
    .unwrap();
    let delete = match out.activity {
        AnnouncableActivity::Delete(d) => d,
        _ => panic!("expected a deletion"),
    };
    assert_eq!(out.targets.community_followers_of, vec![10]);
    delete.receive(&mut s).unwrap();
    assert!(s.posts[0].deleted);
    let out = send_apub_delete_in_community(
        &alice,
        &news,
        &post,
        None,
        false,
        id("https://local.tld/activities/undo/2"),
        id("https://local.tld/activities/delete/2"),
    )
    .unwrap();
    let undo = match out.activity {
        AnnouncableActivity::UndoDelete(u) => u,
        _ => panic!("expected a reversal"),
    };
    undo.receive(&mut s).unwrap();
    assert!(!s.posts[0].deleted);
}

#[test]
fn undo_by_other_actor_fails() {
    let mut s = store();
    let alice = s.persons[0].clone();
    let post = DeletableObjects::Post(s.posts[0].clone());
    let to = public_to(&s.communities[0]);
    let mut undo = UndoDelete::new(
        &alice,
        &post,
        to,
        None,
        None,
        id("https://local.tld/activities/delete/3"),
        id("https://local.tld/activities/undo/3"),
    );
    undo.actor = id("https://remote.tld/u/bob");
    assert_eq!(undo.receive(&mut s).unwrap_err(), ApiError::UrlsDoNotMatch);
}

#[test]
fn local_community_deletion_is_passed_on() {
    let mut s = store();
    let to = public_to(&s.communities[0]);
    let d = delete_of("https://local.tld/u/carol", "https://local.tld/c/news", to, Some("closed"));
    let out = d.receive(&mut s).unwrap().unwrap();
    assert!(s.communities[0].deleted);
    assert_eq!(out.targets.community_followers_of, vec![10]);
    assert!(matches!(out.activity, AnnouncableActivity::Delete(_)));
}

#[test]
fn person_deletion_with_purge() {
    let mut s = store();
    let alice = s.persons[0].clone();
    let out = send_apub_delete_user(alice, true, id("https://local.tld/activities/delete/9"));
    assert!(out.targets.all_instances);
    let d = match out.activity {
        AnnouncableActivity::Delete(d) => d,
        _ => panic!("expected a deletion"),
    };
    assert_eq!(d.remove_data, Some(true));
    d.receive(&mut s).unwrap();
    assert!(s.persons[0].deleted);
    assert!(s.posts[0].deleted);
    assert!(s.comments[0].deleted);
}

#[test]
fn person_deletion_by_other_fails() {
    let mut s = store();
    let d = delete_of("https://local.tld/u/carol", "https://local.tld/u/alice", vec![ApId::public()], None);
    assert_eq!(d.receive(&mut s).unwrap_err(), ApiError::UrlsDoNotMatch);
    let d = delete_of("https://local.tld/u/alice", "https://local.tld/u/alice", vec![], None);
    assert_eq!(d.receive(&mut s).unwrap_err(), ApiError::ObjectIsNotPublic);
    assert!(!s.persons[0].deleted);
}

#[test]
fn private_message_deletion() {
    let mut s = store();
    let bob = s.persons[1].clone();
    let pm = s.private_messages[0].clone();
    let out = send_apub_delete_private_message(
        &s,
        &bob,
        pm,
        true,
        id("https://remote.tld/activities/delete/4"),
        id("https://remote.tld/activities/delete/5"),
    )
    .unwrap();
    assert_eq!(out.targets.inboxes, vec!["https://local.tld/u/alice/inbox".to_string()]);
    let d = match out.activity {
        AnnouncableActivity::Delete(d) => d,
        _ => panic!("expected a deletion"),
    };
    d.receive(&mut s).unwrap();
    assert!(s.private_messages[0].deleted);
    let forged = delete_of("https://local.tld/u/alice", "https://remote.tld/pm/300", vec![], None);
    assert_eq!(verify_delete_activity(&s, &forged, false), Err(ApiError::DomainsDoNotMatch));
}

#[test]
fn receive_action_unknown_object() {
    let mut s = store();
    assert_eq!(
        receive_delete_action(&mut s, &id("https://x.tld/1"), &id("https://local.tld/u/alice"), true, None)
            .unwrap_err(),
        ApiError::NotFound
    );
}

#[test]
fn remote_community_gets_activity_in_inbox() {
    let alice = person(1, "https://local.tld/u/alice", "alice", true, None);
    let mut c = community(11, "https://remote.tld/c/tech", "tech", false, CommunityVisibility::Public);
    c.shared_inbox = Some("https://remote.tld/inbox".to_string());
    let post = DeletableObjects::Post(Post {
        id: 5,
        ap_id: id("https://local.tld/post/5"),
        creator_id: 1,
        community_id: 11,
        deleted: false,
    });
    let out = send_apub_delete_in_community(
        &alice,
        &c,
        &post,
        Some("spam".to_string()),
        true,
        id("https://local.tld/activities/delete/6"),
        id("https://local.tld/activities/delete/7"),
    )
    .unwrap();
    assert_eq!(out.targets.inboxes, vec!["https://remote.tld/inbox".to_string()]);
    c.visibility = CommunityVisibility::LocalOnlyPrivate;
    assert!(send_apub_delete_in_community(
        &alice,
        &c,
        &post,
        None,
        true,
        id("https://local.tld/activities/delete/8"),
        id("https://local.tld/activities/delete/9"),
    )
    .is_none());
}

#[test]
fn fan_out_deduplicates_follower_inboxes() {
    let mut s = store();
    s.persons.push(person(4, "https://remote.tld/u/dave", "dave", false, Some("https://remote.tld/inbox")));
    s.persons.push(person(5, "https://other.tld/u/erin", "erin", false, None));
    s.followers = vec![
        CommunityFollower { community_id: 10, person_id: 2 },
        CommunityFollower { community_id: 10, person_id: 4 },
        CommunityFollower { community_id: 10, person_id: 5 },
        CommunityFollower { community_id: 99, person_id: 1 },
    ];
    let t = ActivitySendTargets::to_local_community_followers(10);
    let mut inboxes = t.resolve(&s);
    inboxes.sort();
    assert_eq!(
        inboxes,
        vec!["https://other.tld/u/erin/inbox".to_string(), "https://remote.tld/inbox".to_string()]
    );
    assert!(ActivitySendTargets::empty().resolve(&s).is_empty());
    assert_eq!(ActivitySendTargets::to_all_instances().resolve(&s), vec!["https://remote.tld/inbox".to_string()]);
    let mut single = ActivitySendTargets::to_inbox("https://a.tld/inbox".to_string());
    single.add_inbox("https://a.tld/inbox".to_string());
    assert_eq!(single.resolve(&s), vec!["https://a.tld/inbox".to_string()]);
}

#[test]
fn resolver_finds_local_actors() {
    let s = store();
    match resolve_ap_identifier(&s, "Alice", ActorKind::Person, &None, false) {
        Ok(Resolution::Found(UserOrCommunity::Person(p))) => assert_eq!(p.id, 1),
        _ => panic!("expected alice"),
    }
    match resolve_ap_identifier(&s, "bob@remote.tld", ActorKind::Person, &None, false) {
        Ok(Resolution::Found(UserOrCommunity::Person(p))) => assert_eq!(p.id, 2),
        _ => panic!("expected bob"),
    }
    match resolve_ap_identifier(&s, "news", ActorKind::Community, &None, false) {
        Ok(Resolution::Found(UserOrCommunity::Community(c))) => assert_eq!(c.id, 10),
        _ => panic!("expected news"),
    }
    assert!(matches!(
        resolve_ap_identifier(&s, "bob", ActorKind::Person, &None, false),
        Err(ApiError::NotFound)
    ));
}

#[test]
fn resolver_deleted_local_actor() {
    let mut s = store();
    s.persons[0].deleted = true;
    assert!(matches!(
        resolve_ap_identifier(&s, "alice", ActorKind::Person, &None, false),
        Err(ApiError::NotFound)
    ));
    assert!(matches!(
        resolve_ap_identifier(&s, "alice", ActorKind::Person, &None, true),
        Ok(Resolution::Found(_))
    ));
}

#[test]
fn resolver_fallback_to_discovery() {
    let s = store();
    let me = Some(local_user(1, 1));
    match resolve_ap_identifier(&s, "Alice@Remote.tld", ActorKind::Person, &me, false) {
        Ok(Resolution::Discover(h)) => assert_eq!(h, "alice@remote.tld"),
        _ => panic!("expected discovery"),
    }
    assert!(matches!(
        resolve_ap_identifier(&s, "alice@remote.tld", ActorKind::Person, &None, false),
        Err(ApiError::NotFound)
    ));
}

#[test]
fn resolved_actor_is_kept_locally() {
    let mut s = store();
    s.upsert_person(person(7, "https://remote.tld/u/alice", "alice", false, None));
    match resolve_ap_identifier(&s, "alice@remote.tld", ActorKind::Person, &None, false) {
        Ok(Resolution::Found(UserOrCommunity::Person(p))) => assert_eq!(p.id, 7),
        _ => panic!("expected the stored actor"),
    }
    s.upsert_person(person(8, "https://remote.tld/u/alice", "alice", false, None));
    assert_eq!(s.persons.len(), 4);
}

#[test]
fn instance_of_actor() {
    let s = store();
    assert_eq!(get_instance_id(&SiteOrCommunityOrUser::Site(s.sites[1].clone())), 2);
    assert_eq!(
        get_instance_id(&SiteOrCommunityOrUser::User(UserOrCommunity::Person(s.persons[1].clone()))),
        2
    );
    assert_eq!(
        get_instance_id(&SiteOrCommunityOrUser::User(UserOrCommunity::Community(s.communities[0].clone()))),
        1
    );
}

#[test]
fn report_candidates_first_valid_wins() {
    let s = store();
    let object = ReportObject::Mastodon(vec![id("https://gone.tld/x"), id("https://local.tld/post/100")]);
    let step = object.dereference(&s, 0);
    let position = match step {
        CandidateStep::Fetch(k, url) => {
            assert_eq!(url.as_str(), "https://gone.tld/x");
            k
        }
        _ => panic!("expected a fetch of the first candidate"),
    };
    match object.after_fetch(&s, position, None) {
        CandidateStep::Found(1, ReportableObjects::Post(p)) => assert_eq!(p.id, 100),
        _ => panic!("expected the post"),
    }
    match object.object_id(&s, 1) {
        IdStep::Id(i) => assert_eq!(i.as_str(), "https://local.tld/post/100"),
        _ => panic!("expected the post's id"),
    }
    assert!(matches!(object.dereference(&s, 2), CandidateStep::NotFound));
}

#[test]
fn report_native_object() {
    let s = store();
    let object = ReportObject::Lemmy(id("https://local.tld/comment/200"));
    assert!(matches!(object.dereference(&s, 0), CandidateStep::Found(0, ReportableObjects::Comment(_))));
    assert!(matches!(object.dereference(&s, 1), CandidateStep::NotFound));
    let unknown = ReportObject::Lemmy(id("https://remote.tld/post/1"));
    assert!(matches!(unknown.object_id(&s, 0), IdStep::Id(_)));
    assert!(matches!(unknown.dereference(&s, 0), CandidateStep::Fetch(0, _)));
}

#[test]
fn report_reason_and_community() {
    let s = store();
    let mut r = Report {
        actor: id("https://remote.tld/u/bob"),
        to: id("https://local.tld/c/news"),
        object: ReportObject::Lemmy(id("https://local.tld/post/100")),
        summary: Some("spam".to_string()),
        content: Some("other".to_string()),
        id: id("https://remote.tld/activities/flag/1"),
    };
    assert_eq!(r.reason().unwrap(), "spam");
    r.summary = None;
    assert_eq!(r.reason().unwrap(), "other");
    r.content = None;
    assert_eq!(r.reason().unwrap_err(), ApiError::NotFound);
    assert_eq!(r.community(&s).unwrap().id, 10);
    r.to = id("https://local.tld/");
    assert_eq!(r.community(&s).unwrap_err(), ApiError::NotFound);
}

#[test]
fn error_classes() {
    assert!(ApiError::DomainsDoNotMatch.is_verification_failure());
    assert!(ApiError::NotAModOrAdmin.is_verification_failure());
    assert!(ApiError::ObjectIsNotPublic.is_verification_failure());
    assert!(!ApiError::NotFound.is_verification_failure());
    assert!(!ApiError::Unreachable.is_verification_failure());
}

#[test]
fn remote_community_deletion_checks_membership() {
    let mut s = store();
    s.communities.push(community(11, "https://remote.tld/c/tech", "tech", false, CommunityVisibility::Public));
    s.moderators.push(CommunityModerator { community_id: 11, person_id: 2, became_moderator_at: 1 });
    s.bans.push(CommunityBan { community_id: 11, person_id: 2 });
    let to = public_to(&s.communities[1]);
    let d = delete_of("https://remote.tld/u/bob", "https://remote.tld/c/tech", to.clone(), Some("closed"));
    assert_eq!(d.receive(&mut s).unwrap_err(), ApiError::PersonIsBanned);
    s.bans.clear();
    assert!(d.receive(&mut s).unwrap().is_none());
    assert!(s.communities[1].deleted);
}

#[test]
fn private_message_report_lifecycle() {
    let mut r = PrivateMessageReport {
        id: 1,
        creator_id: 2,
        private_message_id: 300,
        reason: "spam".to_string(),
        resolved: false,
        resolver_id: None,
        updated_at: None,
    };
    r.resolve(3, 1000);
    assert!(r.resolved);
    assert_eq!(r.resolver_id, Some(3));
    assert_eq!(r.updated_at, Some(1000));
    r.unresolve(4, 2000);
    assert!(!r.resolved);
    assert_eq!(r.resolver_id, Some(4));
    assert_eq!(PrivateMessageReport::resolve_apub(300, 2, 3), Err(ApiError::Unreachable));
    assert_eq!(PrivateMessageReport::resolve_all_for_object(300, 3), Err(ApiError::NotFound));
}

#[test]
fn inbox_dispatch() {
    let mut s = store();
    let to = public_to(&s.communities[0]);
    let d = delete_of("https://local.tld/u/alice", "https://local.tld/post/100", to, None);
    assert!(receive_activity(&mut s, &InboxActivity::Delete(d)).is_ok());
    assert!(s.posts[0].deleted);
    let forged = delete_of("https://remote.tld/u/bob", "https://local.tld/comment/200", vec![ApId::public()], None);
    assert_eq!(receive_activity(&mut s, &InboxActivity::Delete(forged)).unwrap_err(), ApiError::DomainsDoNotMatch);
    assert!(!s.comments[0].deleted);
}

#[test]
fn private_message_restore_has_no_reason() {
    let s = store();
    let bob = s.persons[1].clone();
    let pm = s.private_messages[0].clone();
    let out = send_apub_delete_private_message(
        &s,
        &bob,
        pm,
        false,
        id("https://remote.tld/activities/undo/4"),
        id("https://remote.tld/activities/delete/4"),
    )
    .unwrap();
    match out.activity {
        AnnouncableActivity::UndoDelete(u) => {
            assert_eq!(u.object.summary, None);
            assert_eq!(u.object.actor.as_str(), "https://remote.tld/u/bob");
            assert_eq!(u.object.to.len(), 1);
            assert_eq!(u.object.to[0].as_str(), "https://local.tld/u/alice");
        }
        _ => panic!("expected a reversal"),
    }
    let mut missing = s.private_messages[0].clone();
    missing.recipient_id = 42;
    assert!(send_apub_delete_private_message(
        &s,
        &bob,
        missing,
        true,
        id("https://remote.tld/activities/delete/6"),
        id("https://remote.tld/activities/delete/7"),
    )
    .is_err());
}
