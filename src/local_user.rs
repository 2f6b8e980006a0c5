use vstd::prelude::*;
use crate::error::ApiError;
use crate::store::{Community, CommunityModerator, CommunityVisibility, Site};
use crate::text::{lower_of, lowercase};

verus! {

/// The account of a person registered on this instance.
#[derive(Debug)]
pub struct LocalUser {
    pub id: i32,
    pub person_id: i32,
    pub password_encrypted: Option<String>,
    pub email: Option<String>,
    pub admin: bool,
    pub show_nsfw: bool,
    pub show_bot_accounts: bool,
    pub show_read_posts: bool,
    pub hide_media: bool,
    pub email_verified: bool,
    pub accepted_application: bool,
}

impl Clone for LocalUser {
    fn clone(&self) -> (r: Self)
        ensures
            r == *self,
    {
        LocalUser {
            id: self.id,
            person_id: self.person_id,
            password_encrypted: crate::activity::clone_opt_string(&self.password_encrypted),
            email: crate::activity::clone_opt_string(&self.email),
            admin: self.admin,
            show_nsfw: self.show_nsfw,
            show_bot_accounts: self.show_bot_accounts,
            show_read_posts: self.show_read_posts,
            hide_media: self.hide_media,
            email_verified: self.email_verified,
            accepted_application: self.accepted_application,
        }
    }
}

/// The values a new local user is created with; unset ones take the
/// defaults of the store.
#[derive(Debug)]
pub struct LocalUserInsertForm {
    pub person_id: i32,
    pub password_encrypted: Option<String>,
    pub email: Option<String>,
    pub admin: Option<bool>,
    pub show_nsfw: Option<bool>,
    pub email_verified: Option<bool>,
    pub accepted_application: Option<bool>,
}

impl LocalUserInsertForm {
    /// A form with the person and password and nothing else set.
    pub fn new(person_id: i32, password_encrypted: Option<String>) -> (r: LocalUserInsertForm)
        ensures
            r.person_id == person_id,
            r.password_encrypted == password_encrypted,
            r.email is None && r.admin is None && r.show_nsfw is None && r.email_verified is None
                && r.accepted_application is None,
    {
        LocalUserInsertForm {
            person_id,
            password_encrypted,
            email: None,
            admin: None,
            show_nsfw: None,
            email_verified: None,
            accepted_application: None,
        }
    }

    /// A form for tests: the person with an empty password.
    pub fn test_form(person_id: i32) -> (r: LocalUserInsertForm)
        ensures
            r.person_id == person_id,
            r.password_encrypted matches Some(p) && p@.len() == 0,
            r.email is None && r.admin is None && r.show_nsfw is None && r.email_verified is None
                && r.accepted_application is None,
    {
        Self::new(person_id, Some(String::new()))
    }

    /// A form for tests: an admin with an empty password.
    pub fn test_form_admin(person_id: i32) -> (r: LocalUserInsertForm)
        ensures
            r.person_id == person_id,
            r.password_encrypted matches Some(p) && p@.len() == 0,
            r.admin == Some(true),
            r.email is None && r.show_nsfw is None && r.email_verified is None && r.accepted_application is None,
    {
        let mut form = Self::test_form(person_id);
        form.admin = Some(true);
        form
    }

    /// The form with its password replaced by a bcrypt hash of it, ready to
    /// be stored; a form without password stays as it is.
    pub fn with_encrypted_password(self) -> (r: Result<LocalUserInsertForm, ApiError>)
        ensures
            r matches Ok(f) ==> f.person_id == self.person_id && f.email == self.email && f.admin == self.admin
                && f.show_nsfw == self.show_nsfw && f.email_verified == self.email_verified
                && f.accepted_application == self.accepted_application && match self.password_encrypted {
                None => f.password_encrypted is None,
                Some(p) => f.password_encrypted matches Some(h) && is_bcrypt_hash(h@) && bcrypt_verifies(p@, h@),
            },
            r matches Err(e) ==> self.password_encrypted is Some && e == ApiError::PasswordHashFailed,
    {
        let mut form = self;
        match &form.password_encrypted {
            Some(p) => {
                let h = hash_password(p.as_str());
                match h {
                    Ok(h) => {
                        form.password_encrypted = Some(h);
                        Ok(form)
                    },
                    Err(e) => Err(e),
                }
            },
            None => Ok(form),
        }
    }
}

#[verifier::external_type_specification]
#[verifier::external_body]
pub struct ExBcryptError(bcrypt::BcryptError);

/// A string in the shape bcrypt writes a hash at its default cost: the
/// `$2b$12$` prefix, the salt and the hash, sixty characters in all.
pub open spec fn is_bcrypt_hash(h: Seq<char>) -> bool {
    h.len() == 60 && h.subrange(0, 7) == seq!['$', '2', 'b', '$', '1', '2', '$']
}

/// Whether `bcrypt::verify` accepts the password against the hash.
pub uninterp spec fn bcrypt_verifies(password: Seq<char>, hash: Seq<char>) -> bool;

/// Relies on `bcrypt::hash` at `DEFAULT_COST` (12): the salt is random, so
/// of the result only its format is known, and that `bcrypt::verify`, which
/// hashes the password again with the salt and cost read from the hash,
/// accepts the password against it. It fails only where the operating
/// system gives no randomness.
#[verifier::external_body]
fn bcrypt_hash(password: &str) -> (r: Result<String, bcrypt::BcryptError>)
    ensures
        r matches Ok(h) ==> is_bcrypt_hash(h@) && bcrypt_verifies(password@, h@),
{
    bcrypt::hash(password, bcrypt::DEFAULT_COST)
}

/// Hashes a password for storage.
pub fn hash_password(password: &str) -> (r: Result<String, ApiError>)
    ensures
        r matches Ok(h) ==> is_bcrypt_hash(h@) && bcrypt_verifies(password@, h@),
        r matches Err(e) ==> e == ApiError::PasswordHashFailed,
{
    match bcrypt_hash(password) {
        Ok(h) => Ok(h),
        Err(_) => Err(ApiError::PasswordHashFailed),
    }
}

/// The person is the acting one or one of the targets.
pub open spec fn in_persons(targets: Seq<i32>, actor: i32, person_id: i32) -> bool {
    person_id == actor || targets.contains(person_id)
}

/// `u` is an admin among the persons compared.
pub open spec fn admin_candidate(u: LocalUser, targets: Seq<i32>, actor: i32) -> bool {
    u.admin && in_persons(targets, actor, u.person_id)
}

/// `i` is the senior admin among the persons compared: the one with the
/// lowest local user id, the earlier row on a tie.
pub open spec fn is_senior_admin(users: Seq<LocalUser>, targets: Seq<i32>, actor: i32, i: int) -> bool {
    &&& 0 <= i < users.len()
    &&& admin_candidate(users[i], targets, actor)
    &&& forall|j: int|
        0 <= j < users.len() && admin_candidate(#[trigger] users[j], targets, actor) ==> users[i].id < users[j].id
            || (users[i].id == users[j].id && i <= j)
}

/// The person id of the senior admin among the persons compared.
pub open spec fn senior_admin(users: Seq<LocalUser>, targets: Seq<i32>, actor: i32) -> Option<i32> {
    if exists|i: int| is_senior_admin(users, targets, actor, i) {
        Some(users[choose|i: int| is_senior_admin(users, targets, actor, i)].person_id)
    } else {
        None
    }
}

/// `m` moderates the community and is among the persons compared.
pub open spec fn mod_candidate(m: CommunityModerator, community_id: i32, targets: Seq<i32>, actor: i32) -> bool {
    m.community_id == community_id && in_persons(targets, actor, m.person_id)
}

/// `i` is the senior moderator among the persons compared: the one who
/// became moderator first, the earlier row on a tie.
pub open spec fn is_senior_mod(
    mods: Seq<CommunityModerator>,
    community_id: i32,
    targets: Seq<i32>,
    actor: i32,
    i: int,
) -> bool {
    &&& 0 <= i < mods.len()
    &&& mod_candidate(mods[i], community_id, targets, actor)
    &&& forall|j: int|
        0 <= j < mods.len() && mod_candidate(#[trigger] mods[j], community_id, targets, actor)
            ==> mods[i].became_moderator_at < mods[j].became_moderator_at || (mods[i].became_moderator_at
            == mods[j].became_moderator_at && i <= j)
}

/// The person id of the senior moderator among the persons compared.
pub open spec fn senior_mod(mods: Seq<CommunityModerator>, community_id: i32, targets: Seq<i32>, actor: i32) -> Option<i32> {
    if exists|i: int| is_senior_mod(mods, community_id, targets, actor, i) {
        Some(mods[choose|i: int| is_senior_mod(mods, community_id, targets, actor, i)].person_id)
    } else {
        None
    }
}

/// Finds the senior admin among the acting person and the targets.
fn find_senior_admin(users: &Vec<LocalUser>, targets: &Vec<i32>, actor: i32) -> (r: Option<i32>)
    ensures
        r == senior_admin(users@, targets@, actor),
{
    let mut best: Option<usize> = None;
    let mut i: usize = 0;
    while i < users.len()
        invariant
            0 <= i <= users.len(),
            match best {
                Some(b) => b < i && admin_candidate(users@[b as int], targets@, actor) && forall|j: int|
                    0 <= j < i && admin_candidate(#[trigger] users@[j], targets@, actor) ==> users@[b as int].id
                        < users@[j].id || (users@[b as int].id == users@[j].id && b <= j),
                None => forall|j: int| 0 <= j < i ==> !admin_candidate(#[trigger] users@[j], targets@, actor),
            },
        decreases users.len() - i,
    {
        let u = &users[i];
        if u.admin && (u.person_id == actor || crate::send_targets::contains_i32(targets, u.person_id)) {
            match best {
                Some(b) => {
                    if u.id < users[b].id {
                        best = Some(i);
                    }
                },
                None => {
                    best = Some(i);
                },
            }
        }
        i = i + 1;
    }
    match best {
        Some(b) => {
            proof {
                assert(is_senior_admin(users@, targets@, actor, b as int));
                let k = choose|k: int| is_senior_admin(users@, targets@, actor, k);
                assert(k == b as int) by {
                    assert(admin_candidate(users@[k], targets@, actor));
                    assert(admin_candidate(users@[b as int], targets@, actor));
                }
            }
            Some(users[b].person_id)
        },
        None => {
            proof {
                assert(!exists|k: int| is_senior_admin(users@, targets@, actor, k)) by {
                    if exists|k: int| is_senior_admin(users@, targets@, actor, k) {
                        let k = choose|k: int| is_senior_admin(users@, targets@, actor, k);
                        assert(admin_candidate(users@[k], targets@, actor));
                    }
                }
            }
            None
        },
    }
}

/// Finds the senior moderator of the community among the acting person and
/// the targets.
fn find_senior_mod(mods: &Vec<CommunityModerator>, community_id: i32, targets: &Vec<i32>, actor: i32) -> (r: Option<i32>)
    ensures
        r == senior_mod(mods@, community_id, targets@, actor),
{
    let mut best: Option<usize> = None;
    let mut i: usize = 0;
    while i < mods.len()
        invariant
            0 <= i <= mods.len(),
            match best {
                Some(b) => b < i && mod_candidate(mods@[b as int], community_id, targets@, actor) && forall|j: int|
                    0 <= j < i && mod_candidate(#[trigger] mods@[j], community_id, targets@, actor)
                        ==> mods@[b as int].became_moderator_at < mods@[j].became_moderator_at || (
                    mods@[b as int].became_moderator_at == mods@[j].became_moderator_at && b <= j),
                None => forall|j: int| 0 <= j < i ==> !mod_candidate(#[trigger] mods@[j], community_id, targets@, actor),
            },
        decreases mods.len() - i,
    {
        let m = mods[i];
        if m.community_id == community_id && (m.person_id == actor || crate::send_targets::contains_i32(
            targets,
            m.person_id,
        )) {
            match best {
                Some(b) => {
                    if m.became_moderator_at < mods[b].became_moderator_at {
                        best = Some(i);
                    }
                },
                None => {
                    best = Some(i);
                },
            }
        }
        i = i + 1;
    }
    match best {
        Some(b) => {
            proof {
                assert(is_senior_mod(mods@, community_id, targets@, actor, b as int));
                let k = choose|k: int| is_senior_mod(mods@, community_id, targets@, actor, k);
                assert(k == b as int) by {
                    assert(mod_candidate(mods@[k], community_id, targets@, actor));
                    assert(mod_candidate(mods@[b as int], community_id, targets@, actor));
                }
            }
            Some(mods[b].person_id)
        },
        None => {
            proof {
                assert(!exists|k: int| is_senior_mod(mods@, community_id, targets@, actor, k)) by {
                    if exists|k: int| is_senior_mod(mods@, community_id, targets@, actor, k) {
                        let k = choose|k: int| is_senior_mod(mods@, community_id, targets@, actor, k);
                        assert(mod_candidate(mods@[k], community_id, targets@, actor));
                    }
                }
            }
            None
        },
    }
}

/// The coalesced, lowercased email of a local user.
pub open spec fn email_key(u: LocalUser) -> Seq<char> {
    match u.email {
        Some(e) => lower_of(e@),
        None => lower_of(Seq::<char>::empty()),
    }
}

impl LocalUser {
    /// Checks that the acting admin is senior to (was made admin before) every
    /// target admin, among the local users given.
    pub fn is_higher_admin_check(
        local_users: &Vec<LocalUser>,
        admin_person_id: i32,
        target_person_ids: Vec<i32>,
    ) -> (r: Result<(), ApiError>)
        ensures
            r == match senior_admin(local_users@, target_person_ids@, admin_person_id) {
                None => Err(ApiError::NotFound),
                Some(p) => if p == admin_person_id {
                    Ok(())
                } else {
                    Err(ApiError::NotHigherAdmin)
                },
            },
    {
        match find_senior_admin(local_users, &target_person_ids, admin_person_id) {
            None => Err(ApiError::NotFound),
            Some(p) => if p == admin_person_id {
                Ok(())
            } else {
                Err(ApiError::NotHigherAdmin)
            },
        }
    }

    /// Checks that the acting person comes first among the admins (the
    /// senior one) and, where none of the persons is an admin, among the
    /// community's moderators (the earliest one).
    pub fn is_higher_mod_or_admin_check(
        local_users: &Vec<LocalUser>,
        moderators: &Vec<CommunityModerator>,
        for_community_id: i32,
        admin_person_id: i32,
        target_person_ids: Vec<i32>,
    ) -> (r: Result<(), ApiError>)
        ensures
            r == match senior_admin(local_users@, target_person_ids@, admin_person_id) {
                Some(p) => if p == admin_person_id {
                    Ok(())
                } else {
                    Err(ApiError::NotHigherMod)
                },
                None => match senior_mod(moderators@, for_community_id, target_person_ids@, admin_person_id) {
                    Some(p) => if p == admin_person_id {
                        Ok(())
                    } else {
                        Err(ApiError::NotHigherMod)
                    },
                    None => Err(ApiError::NotHigherMod),
                },
            },
    {
        let first = match find_senior_admin(local_users, &target_person_ids, admin_person_id) {
            Some(p) => Some(p),
            None => find_senior_mod(moderators, for_community_id, &target_person_ids, admin_person_id),
        };
        match first {
            Some(p) => if p == admin_person_id {
                Ok(())
            } else {
                Err(ApiError::NotHigherMod)
            },
            None => Err(ApiError::NotHigherMod),
        }
    }

    /// Checks that no local user has this email, compared without regard to
    /// case; a user without email counts as having the empty one.
    pub fn check_is_email_taken(local_users: &Vec<LocalUser>, email: &str) -> (r: Result<(), ApiError>)
        ensures
            r == if exists|i: int| 0 <= i < local_users@.len() && #[trigger] email_key(local_users@[i]) == lower_of(email@) {
                Err(ApiError::EmailAlreadyTaken)
            } else {
                Ok::<(), ApiError>(())
            },
    {
        let wanted = lowercase(email);
        let empty = String::new();
        let mut i: usize = 0;
        while i < local_users.len()
            invariant
                0 <= i <= local_users.len(),
                wanted@ == lower_of(email@),
                empty@ == Seq::<char>::empty(),
                forall|j: int| 0 <= j < i ==> #[trigger] email_key(local_users@[j]) != lower_of(email@),
            decreases local_users.len() - i,
        {
            let key = match &local_users[i].email {
                Some(e) => lowercase(e.as_str()),
                None => lowercase(empty.as_str()),
            };
            if key == wanted {
                assert(email_key(local_users@[i as int]) == lower_of(email@));
                return Err(ApiError::EmailAlreadyTaken);
            }
            i = i + 1;
        }
        Ok(())
    }
}

/// An application to register on this instance.
#[derive(Clone, Copy, Debug, PartialEq, Eq, Structural)]
pub struct RegistrationApplication {
    pub local_user_id: i32,
    /// The admin who handled it, if one has.
    pub admin_id: Option<i32>,
    /// When it was made, in seconds.
    pub published_at: i64,
}

/// Seconds in a week.
pub const WEEK_SECONDS: i64 = 604800;

/// The user's application was handled by an admin more than a week before
/// `now` and the user was not accepted.
pub open spec fn is_old_denied(u: LocalUser, apps: Seq<RegistrationApplication>, now: i64) -> bool {
    !u.accepted_application && exists|k: int|
        0 <= k < apps.len() && #[trigger] apps[k].local_user_id == u.id && apps[k].admin_id is Some
            && apps[k].published_at < now - WEEK_SECONDS
}

impl LocalUser {
    /// Replaces the password with a bcrypt hash of the new one.
    pub fn update_password(&mut self, new_password: &str) -> (r: Result<(), ApiError>)
        ensures
            r is Ok ==> (final(self).password_encrypted matches Some(h) && is_bcrypt_hash(h@)
                && bcrypt_verifies(new_password@, h@)),
            r is Ok ==> *final(self) == (LocalUser { password_encrypted: final(self).password_encrypted, ..*old(self) }),
            r matches Err(e) ==> e == ApiError::PasswordHashFailed && *final(self) == *old(self),
    {
        match hash_password(new_password) {
            Ok(h) => {
                self.password_encrypted = Some(h);
                Ok(())
            },
            Err(e) => Err(e),
        }
    }

    /// The persons whose local users were denied registration more than a
    /// week before `now`: the ones to delete.
    pub fn delete_old_denied_local_users(
        local_users: &Vec<LocalUser>,
        applications: &Vec<RegistrationApplication>,
        now: i64,
    ) -> (r: Vec<i32>)
        requires
            now >= i64::MIN + WEEK_SECONDS,
        ensures
            forall|p: i32| r@.contains(p) <==> exists|i: int|
                0 <= i < local_users@.len() && #[trigger] local_users@[i].person_id == p && is_old_denied(
                    local_users@[i],
                    applications@,
                    now,
                ),
    {
        let cutoff = now - WEEK_SECONDS;
        let mut out: Vec<i32> = Vec::new();
        let mut i: usize = 0;
        while i < local_users.len()
            invariant
                0 <= i <= local_users.len(),
                cutoff == now - WEEK_SECONDS,
                forall|p: i32| out@.contains(p) <==> exists|j: int|
                    0 <= j < i && #[trigger] local_users@[j].person_id == p && is_old_denied(
                        local_users@[j],
                        applications@,
                        now,
                    ),
            decreases local_users.len() - i,
        {
            let u = &local_users[i];
            let mut denied = false;
            if !u.accepted_application {
                let mut k: usize = 0;
                while k < applications.len()
                    invariant
                        0 <= k <= applications.len(),
                        cutoff == now - WEEK_SECONDS,
                        !u.accepted_application,
                        *u == local_users@[i as int],
                        denied <==> exists|m: int|
                            0 <= m < k && #[trigger] applications@[m].local_user_id == u.id
                                && applications@[m].admin_id is Some && applications@[m].published_at < cutoff,
                    decreases applications.len() - k,
                {
                    let a = applications[k];
                    if a.local_user_id == u.id && a.admin_id.is_some() && a.published_at < cutoff {
                        denied = true;
                    }
                    proof {
                        if a.local_user_id == u.id && a.admin_id.is_some() && a.published_at < cutoff {
                            assert(applications@[k as int].local_user_id == u.id);
                        }
                        if exists|m: int|
                            0 <= m < k + 1 && #[trigger] applications@[m].local_user_id == u.id
                                && applications@[m].admin_id is Some && applications@[m].published_at < cutoff {
                            let m = choose|m: int|
                                0 <= m < k + 1 && #[trigger] applications@[m].local_user_id == u.id
                                    && applications@[m].admin_id is Some && applications@[m].published_at < cutoff;
                            if m < k {
                                assert(applications@[m].local_user_id == u.id);
                            }
                        }
                    }
                    k = k + 1;
                }
            }
            assert(denied == is_old_denied(local_users@[i as int], applications@, now));
            let ghost before = out@;
            if denied {
                out.push(u.person_id);
            }
            proof {
                assert forall|p: i32| out@.contains(p) <==> exists|j: int|
                    0 <= j < i + 1 && #[trigger] local_users@[j].person_id == p && is_old_denied(
                        local_users@[j],
                        applications@,
                        now,
                    ) by {
                    if out@.contains(p) {
                        if !before.contains(p) {
                            let q = choose|q: int| 0 <= q < out@.len() && out@[q] == p;
                            assert(q == before.len());
                            assert(local_users@[i as int].person_id == p);
                        } else {
                            let j = choose|j: int|
                                0 <= j < i && #[trigger] local_users@[j].person_id == p && is_old_denied(
                                    local_users@[j],
                                    applications@,
                                    now,
                                );
                            assert(0 <= j < i + 1);
                        }
                    }
                    if exists|j: int|
                        0 <= j < i + 1 && #[trigger] local_users@[j].person_id == p && is_old_denied(
                            local_users@[j],
                            applications@,
                            now,
                        ) {
                        let j = choose|j: int|
                            0 <= j < i + 1 && #[trigger] local_users@[j].person_id == p && is_old_denied(
                                local_users@[j],
                                applications@,
                                now,
                            );
                        if j < i {
                            assert(before.contains(p));
                            let q = choose|q: int| 0 <= q < before.len() && before[q] == p;
                            assert(out@[q] == p);
                        } else {
                            assert(out@[before.len() as int] == p);
                        }
                    }
                }
            }
            i = i + 1;
        }
        out
    }
}

/// Settings that depend on whether somebody is logged in: a visitor gets the
/// instance's defaults.
pub trait LocalUserOptionHelper {
    spec fn user(&self) -> Option<LocalUser>;

    fn person_id(&self) -> (r: Option<i32>)
        ensures
            r == match self.user() {
                Some(u) => Some(u.person_id),
                None => None,
            },
    ;

    fn local_user_id(&self) -> (r: Option<i32>)
        ensures
            r == match self.user() {
                Some(u) => Some(u.id),
                None => None,
            },
    ;

    fn show_bot_accounts(&self) -> (r: bool)
        ensures
            r == match self.user() {
                Some(u) => u.show_bot_accounts,
                None => true,
            },
    ;

    fn show_read_posts(&self) -> (r: bool)
        ensures
            r == match self.user() {
                Some(u) => u.show_read_posts,
                None => true,
            },
    ;

    fn is_admin(&self) -> (r: bool)
        ensures
            r == match self.user() {
                Some(u) => u.admin,
                None => false,
            },
    ;

    fn show_nsfw(&self, site: &Site) -> (r: bool)
        ensures
            r == match self.user() {
                Some(u) => u.show_nsfw,
                None => site.content_warning is Some,
            },
    ;

    fn hide_media(&self) -> (r: bool)
        ensures
            r == match self.user() {
                Some(u) => u.hide_media,
                None => false,
            },
    ;

    /// Keeps the communities that the viewer may see: a visitor sees public
    /// communities only.
    fn visible_communities_only(&self, communities: Vec<Community>) -> (r: Vec<Community>)
        ensures
            self.user() is Some ==> r@ == communities@,
            self.user() is None ==> r@ == communities@.filter(|c: Community| c.visibility == CommunityVisibility::Public),
    ;
}

impl<'a> LocalUserOptionHelper for Option<&'a LocalUser> {
    open spec fn user(&self) -> Option<LocalUser> {
        match self {
            Some(u) => Some(**u),
            None => None,
        }
    }

    fn person_id(&self) -> (r: Option<i32>) {
        match self {
            Some(l) => Some(l.person_id),
            None => None,
        }
    }

    fn local_user_id(&self) -> (r: Option<i32>) {
        match self {
            Some(l) => Some(l.id),
            None => None,
        }
    }

    fn show_bot_accounts(&self) -> (r: bool) {
        match self {
            Some(l) => l.show_bot_accounts,
            None => true,
        }
    }

    fn show_read_posts(&self) -> (r: bool) {
        match self {
            Some(l) => l.show_read_posts,
            None => true,
        }
    }

    fn is_admin(&self) -> (r: bool) {
        match self {
            Some(l) => l.admin,
            None => false,
        }
    }

    fn show_nsfw(&self, site: &Site) -> (r: bool) {
        match self {
            Some(l) => l.show_nsfw,
            None => site.content_warning.is_some(),
        }
    }

    fn hide_media(&self) -> (r: bool) {
        match self {
            Some(l) => l.hide_media,
            None => false,
        }
    }

    fn visible_communities_only(&self, communities: Vec<Community>) -> (r: Vec<Community>) {
        if self.is_some() {
            return communities;
        }
        let mut out: Vec<Community> = Vec::new();
        let mut i: usize = 0;
        let ghost keep = |c: Community| c.visibility == CommunityVisibility::Public;
        while i < communities.len()
            invariant
                0 <= i <= communities.len(),
                keep == (|c: Community| c.visibility == CommunityVisibility::Public),
                out@ == communities@.subrange(0, i as int).filter(keep),
            decreases communities.len() - i,
        {
            if communities[i].visibility == CommunityVisibility::Public {
                out.push(communities[i].clone());
            }
            proof {
                reveal(Seq::filter);
                let s1 = communities@.subrange(0, i + 1 as int);
                assert(s1.drop_last() =~= communities@.subrange(0, i as int));
                assert(s1.last() == communities@[i as int]);
            }
            i = i + 1;
        }
        assert(communities@.subrange(0, communities@.len() as int) == communities@);
        out
    }
}

/// What a user exports of their account: the identifiers of what they
/// follow, saved and blocked, and the domains of the instances they blocked.
#[derive(Debug)]
pub struct UserBackupLists {
    pub followed_communities: Vec<String>,
    pub saved_posts: Vec<String>,
    pub saved_comments: Vec<String>,
    pub blocked_communities: Vec<String>,
    pub blocked_users: Vec<String>,
    pub blocked_instances_communities: Vec<String>,
    pub blocked_instances_persons: Vec<String>,
}

} // verus!
