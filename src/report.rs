use vstd::prelude::*;
use crate::activity::clone_opt_string;
use crate::ap_id::ApId;
use crate::error::ApiError;
use crate::store::{find_by_ap_id, index_of_iri, Comment, Community, LocalStore, Post, StoreView};

verus! {

/// The objects that can be reported.
#[derive(Debug)]
pub enum ReportableObjects {
    Post(Post),
    Comment(Comment),
}

impl StoreView {
    /// The reportable object with this identifier: a post, else a comment.
    pub open spec fn reportable(self, iri: Seq<char>) -> Option<ReportableObjects> {
        match index_of_iri(self.posts, iri) {
            Some(i) => Some(ReportableObjects::Post(self.posts[i])),
            None => match index_of_iri(self.comments, iri) {
                Some(i) => Some(ReportableObjects::Comment(self.comments[i])),
                None => None,
            },
        }
    }

    /// The community with this identifier.
    pub open spec fn community_by_iri(self, iri: Seq<char>) -> Option<Community> {
        match index_of_iri(self.communities, iri) {
            Some(i) => Some(self.communities[i]),
            None => None,
        }
    }
}

impl LocalStore {
    /// Finds the reportable object with this identifier.
    pub fn read_reportable(&self, id: &ApId) -> (r: Option<ReportableObjects>)
        ensures
            r == self@.reportable(id.iri()),
    {
        if let Some(i) = find_by_ap_id(&self.posts, id) {
            return Some(ReportableObjects::Post(self.posts[i].clone()));
        }
        if let Some(i) = find_by_ap_id(&self.comments, id) {
            return Some(ReportableObjects::Comment(self.comments[i].clone()));
        }
        None
    }
}

/// What a report is about: one object (as sent by this software), or a list of
/// candidate URLs of which the first that resolves counts (as sent by
/// Mastodon, which lists the reported user and one or more posts).
#[derive(Debug)]
pub enum ReportObject {
    Lemmy(ApId),
    Mastodon(Vec<ApId>),
}

/// A step in resolving what a report is about.
#[derive(Debug)]
pub enum CandidateStep {
    /// The candidate at this position resolved to the object.
    Found(usize, ReportableObjects),
    /// The candidate at this position is not known here: fetch it from its
    /// home instance.
    Fetch(usize, ApId),
    /// No candidate resolved.
    NotFound,
}

/// A step in resolving the identifier of what a report is about.
#[derive(Debug)]
pub enum IdStep {
    Id(ApId),
    Fetch(usize, ApId),
    NotFound,
}

impl ReportObject {
    /// The candidates in the order they are tried.
    pub open spec fn candidates(&self) -> Seq<ApId> {
        match self {
            ReportObject::Lemmy(l) => seq![*l],
            ReportObject::Mastodon(v) => v@,
        }
    }

    /// The step from the candidate at `position` on, where every earlier one
    /// has failed: the object where the store knows it, else a fetch of it.
    pub open spec fn step_spec(&self, v: StoreView, position: int) -> Option<(int, Option<ReportableObjects>)> {
        if position < self.candidates().len() {
            Some((position, v.reportable(self.candidates()[position].iri())))
        } else {
            None
        }
    }

    /// Looks at the candidate at `position`, every earlier one having failed.
    /// Returns the object where the store has it (no network call), asks for
    /// a fetch where it does not, and gives up once no candidate is left.
    pub fn dereference(&self, store: &LocalStore, position: usize) -> (r: CandidateStep)
        ensures
            match self.step_spec(store@, position as int) {
                None => r is NotFound,
                Some((k, Some(o))) => r == CandidateStep::Found(k as usize, o),
                Some((k, None)) => r matches CandidateStep::Fetch(j, id) && j == k && id == self.candidates()[k],
            },
    {
        let candidate = match self {
            ReportObject::Lemmy(l) => {
                if position >= 1 {
                    return CandidateStep::NotFound;
                }
                l
            },
            ReportObject::Mastodon(objects) => {
                if position >= objects.len() {
                    return CandidateStep::NotFound;
                }
                &objects[position]
            },
        };
        match store.read_reportable(candidate) {
            Some(o) => CandidateStep::Found(position, o),
            None => CandidateStep::Fetch(position, candidate.clone()),
        }
    }

    /// Goes on after the candidate at `position` was fetched: the fetched
    /// object where the fetch gave one of a reportable kind, else the next
    /// candidate. Never tries a candidate twice.
    pub fn after_fetch(&self, store: &LocalStore, position: usize, fetched: Option<ReportableObjects>) -> (r: CandidateStep)
        ensures
            match fetched {
                Some(o) => r == CandidateStep::Found(position, o),
                None => if position + 1 > usize::MAX {
                    r is NotFound
                } else {
                    match self.step_spec(store@, position + 1) {
                        None => r is NotFound,
                        Some((k, Some(o))) => r == CandidateStep::Found(k as usize, o),
                        Some((k, None)) => r matches CandidateStep::Fetch(j, id) && j == k && id == self.candidates()[k],
                    }
                },
            },
    {
        match fetched {
            Some(o) => CandidateStep::Found(position, o),
            None => if position == usize::MAX {
                CandidateStep::NotFound
            } else {
                self.dereference(store, position + 1)
            },
        }
    }

    /// The identifier of what the report is about: the object of a native
    /// report as it stands, else the first candidate that resolves.
    pub fn object_id(&self, store: &LocalStore, position: usize) -> (r: IdStep)
        ensures
            match self {
                ReportObject::Lemmy(l) => r == IdStep::Id(*l),
                ReportObject::Mastodon(_) => match self.step_spec(store@, position as int) {
                    None => r is NotFound,
                    Some((k, Some(_))) => r == IdStep::Id(self.candidates()[k]),
                    Some((k, None)) => r matches IdStep::Fetch(j, id) && j == k && id == self.candidates()[k],
                },
            },
    {
        match self {
            ReportObject::Lemmy(l) => IdStep::Id(l.clone()),
            ReportObject::Mastodon(objects) => match self.dereference(store, position) {
                CandidateStep::Found(k, _) => IdStep::Id(objects[k].clone()),
                CandidateStep::Fetch(k, id) => IdStep::Fetch(k, id),
                CandidateStep::NotFound => IdStep::NotFound,
            },
        }
    }
}

/// A report of an object to the moderators of its community (or the admins
/// of a site).
#[derive(Debug)]
pub struct Report {
    pub actor: ApId,
    pub to: ApId,
    pub object: ReportObject,
    /// The reason, as this software sends it.
    pub summary: Option<String>,
    /// The reason, as Mastodon sends it.
    pub content: Option<String>,
    pub id: ApId,
}

impl Report {
    /// The reason for the report: the summary, else the content.
    pub fn reason(&self) -> (r: Result<String, ApiError>)
        ensures
            match (self.summary, self.content) {
                (Some(s), _) => r == Ok::<String, ApiError>(s),
                (None, Some(c)) => r == Ok::<String, ApiError>(c),
                (None, None) => r == Err::<String, ApiError>(ApiError::NotFound),
            },
    {
        match clone_opt_string(&self.summary) {
            Some(s) => Ok(s),
            None => match clone_opt_string(&self.content) {
                Some(c) => Ok(c),
                None => Err(ApiError::NotFound),
            },
        }
    }

    /// The community that the report is addressed to; a report addressed to a
    /// site, or to anything the store does not know as a community, has none.
    pub fn community(&self, store: &LocalStore) -> (r: Result<Community, ApiError>)
        ensures
            match store@.community_by_iri(self.to.iri()) {
                Some(c) => r == Ok::<Community, ApiError>(c),
                None => r == Err::<Community, ApiError>(ApiError::NotFound),
            },
    {
        match find_by_ap_id(&store.communities, &self.to) {
            Some(i) => Ok(store.communities[i].clone()),
            None => Err(ApiError::NotFound),
        }
    }
}

/// A request to follow a community.
#[derive(Debug)]
pub struct Follow {
    pub actor: ApId,
    pub object: ApId,
    pub id: ApId,
}

/// A community's refusal of a follow request, which it carries so that the
/// follower can find the follow to tear down. Older peers omit the recipient.
#[derive(Debug)]
pub struct RejectFollow {
    pub actor: ApId,
    pub to: Option<ApId>,
    pub object: Follow,
    pub id: ApId,
}

impl RejectFollow {
    /// The recipients: the follower where given, else nobody.
    pub fn recipients(&self) -> (r: Vec<ApId>)
        ensures
            r@ == match self.to {
                Some(p) => seq![p],
                None => Seq::<ApId>::empty(),
            },
    {
        let mut out: Vec<ApId> = Vec::new();
        match &self.to {
            Some(p) => {
                out.push(p.clone());
                assert(out@ =~= seq![*p]);
            },
            None => {
                assert(out@ =~= Seq::<ApId>::empty());
            },
        }
        out
    }
}

} // verus!

verus! {

/// A report of a private message to the admins.
#[derive(Debug)]
pub struct PrivateMessageReport {
    pub id: i32,
    pub creator_id: i32,
    pub private_message_id: i32,
    pub reason: String,
    pub resolved: bool,
    pub resolver_id: Option<i32>,
    /// When the report was last changed, in seconds.
    pub updated_at: Option<i64>,
}

impl PrivateMessageReport {
    /// Marks the report resolved by `resolver_id` at `now`.
    pub fn resolve(&mut self, resolver_id: i32, now: i64)
        ensures
            final(self).resolved,
            final(self).resolver_id == Some(resolver_id),
            final(self).updated_at == Some(now),
            final(self).id == old(self).id && final(self).creator_id == old(self).creator_id
                && final(self).private_message_id == old(self).private_message_id
                && final(self).reason == old(self).reason,
    {
        self.resolved = true;
        self.resolver_id = Some(resolver_id);
        self.updated_at = Some(now);
    }

    /// Marks the report unresolved by `resolver_id` at `now`.
    pub fn unresolve(&mut self, resolver_id: i32, now: i64)
        ensures
            !final(self).resolved,
            final(self).resolver_id == Some(resolver_id),
            final(self).updated_at == Some(now),
            final(self).id == old(self).id && final(self).creator_id == old(self).creator_id
                && final(self).private_message_id == old(self).private_message_id
                && final(self).reason == old(self).reason,
    {
        self.resolved = false;
        self.resolver_id = Some(resolver_id);
        self.updated_at = Some(now);
    }

    /// Resolving reports of a private message through federation is not
    /// supported: private messages have no moderators elsewhere.
    pub fn resolve_apub(_private_message_id: i32, _report_creator_id: i32, _resolver_id: i32) -> (r: Result<usize, ApiError>)
        ensures
            r == Err::<usize, ApiError>(ApiError::Unreachable),
    {
        Err(ApiError::Unreachable)
    }

    /// Resolving every report of a private message at once is not supported.
    pub fn resolve_all_for_object(_private_message_id: i32, _resolver_id: i32) -> (r: Result<usize, ApiError>)
        ensures
            r == Err::<usize, ApiError>(ApiError::NotFound),
    {
        Err(ApiError::NotFound)
    }
}

} // verus!
