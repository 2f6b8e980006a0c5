use lemmy_federation::error::ApiError;
use lemmy_federation::local_user::{hash_password, LocalUser, LocalUserInsertForm, LocalUserOptionHelper};
use lemmy_federation::store::{Community, CommunityModerator, CommunityVisibility, Site};
use lemmy_federation::ap_id::ApId;

fn user(id: i32, person_id: i32, admin: bool) -> LocalUser {
    LocalUser {
        id,
        person_id,
        password_encrypted: None,
        email: None,
        admin,
        show_nsfw: false,
        show_bot_accounts: false,
        show_read_posts: false,
        hide_media: true,
        email_verified: false,
        accepted_application: true,
    }
}

#[test]
fn test_admin_higher_check() {
    // fiona was made admin before delores
    let users = vec![user(1, 11, true), user(2, 12, true)];
    let admin_person_ids = vec![11, 12];

    let fiona_higher_check = LocalUser::is_higher_admin_check(&users, 11, admin_person_ids.clone());
    assert!(fiona_higher_check.is_ok());

    let delores_higher_check = LocalUser::is_higher_admin_check(&users, 12, admin_person_ids);
    assert!(delores_higher_check.is_err());
}

#[test]
fn higher_admin_errors() {
    let users = vec![user(5, 11, true), user(2, 12, true), user(1, 13, false)];
    assert_eq!(LocalUser::is_higher_admin_check(&users, 11, vec![12]), Err(ApiError::NotHigherAdmin));
    assert_eq!(LocalUser::is_higher_admin_check(&users, 12, vec![11, 13]), Ok(()));
    assert_eq!(LocalUser::is_higher_admin_check(&users, 13, vec![]), Err(ApiError::NotFound));
}

#[test]
fn higher_mod_or_admin() {
    let users = vec![user(1, 11, true), user(2, 12, false), user(3, 13, false)];
    let mods = vec![
        CommunityModerator { community_id: 7, person_id: 13, became_moderator_at: 20 },
        CommunityModerator { community_id: 7, person_id: 12, became_moderator_at: 10 },
        CommunityModerator { community_id: 8, person_id: 13, became_moderator_at: 1 },
    ];
    assert_eq!(LocalUser::is_higher_mod_or_admin_check(&users, &mods, 7, 12, vec![13]), Ok(()));
    assert_eq!(
        LocalUser::is_higher_mod_or_admin_check(&users, &mods, 7, 13, vec![12]),
        Err(ApiError::NotHigherMod)
    );
    assert_eq!(LocalUser::is_higher_mod_or_admin_check(&users, &mods, 7, 11, vec![12]), Ok(()));
    assert_eq!(
        LocalUser::is_higher_mod_or_admin_check(&users, &mods, 7, 12, vec![11]),
        Err(ApiError::NotHigherMod)
    );
    assert_eq!(
        LocalUser::is_higher_mod_or_admin_check(&users, &mods, 9, 12, vec![13]),
        Err(ApiError::NotHigherMod)
    );
}

#[test]
fn test_email_taken() {
    let darwin_email = "charles.darwin@gmail.com";
    let mut darwin = user(1, 11, true);
    darwin.email = Some(darwin_email.into());
    let users = vec![darwin];

    let check = LocalUser::check_is_email_taken(&users, darwin_email);
    assert!(check.is_err());

    let passed_check = LocalUser::check_is_email_taken(&users, "not_charles@gmail.com");
    assert!(passed_check.is_ok());
}

#[test]
fn email_taken_ignores_case() {
    let mut u = user(1, 11, false);
    u.email = Some("Someone@Example.com".into());
    let users = vec![u, user(2, 12, false)];
    assert_eq!(LocalUser::check_is_email_taken(&users, "someone@example.COM"), Err(ApiError::EmailAlreadyTaken));
    assert_eq!(LocalUser::check_is_email_taken(&users, ""), Err(ApiError::EmailAlreadyTaken));
    assert_eq!(LocalUser::check_is_email_taken(&vec![], "a@b.c"), Ok(()));
}

#[test]
fn test_forms() {
    let f = LocalUserInsertForm::test_form(4);
    assert_eq!(f.person_id, 4);
    assert_eq!(f.password_encrypted, Some(String::new()));
    assert_eq!(f.admin, None);
    let a = LocalUserInsertForm::test_form_admin(4);
    assert_eq!(a.admin, Some(true));
    assert_eq!(a.password_encrypted, Some(String::new()));
}

#[test]
fn password_is_hashed() {
    let h = hash_password("hunter2").unwrap();
    assert_eq!(h.len(), 60);
    assert!(h.starts_with("$2b$12$"));
    assert!(bcrypt::verify("hunter2", &h).unwrap());
    let form = LocalUserInsertForm::new(3, Some("hunter2".to_string())).with_encrypted_password().unwrap();
    let stored = form.password_encrypted.unwrap();
    assert_ne!(stored, "hunter2");
    assert!(bcrypt::verify("hunter2", &stored).unwrap());
    let none = LocalUserInsertForm::new(3, None).with_encrypted_password().unwrap();
    assert_eq!(none.password_encrypted, None);
}

fn site(content_warning: Option<&str>) -> Site {
    Site {
        id: 1,
        ap_id: ApId::parse("https://local.tld/").unwrap(),
        inbox: "https://local.tld/inbox".to_string(),
        instance_id: 1,
        local: true,
        content_warning: content_warning.map(String::from),
    }
}

fn community(id: i32, visibility: CommunityVisibility) -> Community {
    Community {
        id,
        ap_id: ApId::parse(&format!("https://local.tld/c/{}", id)).unwrap(),
        name: format!("c{}", id),
        local: true,
        deleted: false,
        removed: false,
        visibility,
        inbox: String::new(),
        shared_inbox: None,
        instance_id: 1,
    }
}

#[test]
fn option_helpers() {
    let u = user(3, 33, true);
    let some: Option<&LocalUser> = Some(&u);
    let none: Option<&LocalUser> = None;
    assert_eq!(some.person_id(), Some(33));
    assert_eq!(some.local_user_id(), Some(3));
    assert_eq!(none.person_id(), None);
    assert!(!some.show_bot_accounts());
    assert!(none.show_bot_accounts());
    assert!(!some.show_read_posts());
    assert!(none.show_read_posts());
    assert!(some.is_admin());
    assert!(!none.is_admin());
    assert!(some.hide_media());
    assert!(!none.hide_media());
    assert!(!some.show_nsfw(&site(None)));
    assert!(none.show_nsfw(&site(Some("careful"))));
    assert!(!none.show_nsfw(&site(None)));
    let cs = vec![
        community(1, CommunityVisibility::Public),
        community(2, CommunityVisibility::Private),
        community(3, CommunityVisibility::Public),
    ];
    let ids: Vec<i32> = none.visible_communities_only(cs.clone()).iter().map(|c| c.id).collect();
    assert_eq!(ids, vec![1, 3]);
    assert_eq!(some.visible_communities_only(cs).len(), 3);
}
