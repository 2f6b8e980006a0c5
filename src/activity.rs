use vstd::prelude::*;
use crate::ap_id::ApId;
use crate::deletion::DeletableObjects;
use crate::send_targets::ActivitySendTargets;
use crate::store::{Community, Person};

verus! {

/// Copies a list of identifiers.
pub fn clone_ids(v: &Vec<ApId>) -> (r: Vec<ApId>)
    ensures
        r@ == v@,
{
    let mut out: Vec<ApId> = Vec::new();
    let mut i: usize = 0;
    while i < v.len()
        invariant
            0 <= i <= v.len(),
            out@ == v@.subrange(0, i as int),
        decreases v.len() - i,
    {
        out.push(v[i].clone());
        i = i + 1;
        assert(out@ =~= v@.subrange(0, i as int));
    }
    assert(out@ =~= v@);
    out
}

/// Copies an optional string.
pub fn clone_opt_string(s: &Option<String>) -> (r: Option<String>)
    ensures
        r == *s,
{
    match s {
        Some(x) => Some(x.clone()),
        None => None,
    }
}

/// An activity that deletes an object. A `summary` (the reason) marks it as a
/// moderator's removal; without one the author deletes their own object.
#[derive(Debug)]
pub struct Delete {
    pub actor: ApId,
    pub to: Vec<ApId>,
    pub object: ApId,
    pub cc: Vec<ApId>,
    pub summary: Option<String>,
    pub remove_data: Option<bool>,
    pub id: ApId,
}

impl Clone for Delete {
    fn clone(&self) -> (r: Self)
        ensures
            r.actor == self.actor,
            r.to@ == self.to@,
            r.object == self.object,
            r.cc@ == self.cc@,
            r.summary == self.summary,
            r.remove_data == self.remove_data,
            r.id == self.id,
    {
        Delete {
            actor: self.actor.clone(),
            to: clone_ids(&self.to),
            object: self.object.clone(),
            cc: clone_ids(&self.cc),
            summary: clone_opt_string(&self.summary),
            remove_data: self.remove_data,
            id: self.id.clone(),
        }
    }
}

impl Delete {
    /// Builds the deletion of `object` by `actor`, addressed to `to`, within the
    /// community if there is one, under the fresh activity id `id`.
    pub fn new(
        actor: &Person,
        object: &DeletableObjects,
        to: Vec<ApId>,
        community: Option<&Community>,
        summary: Option<String>,
        id: ApId,
    ) -> (r: Delete)
        ensures
            r.actor == actor.ap_id,
            r.object == object.ap_id_spec(),
            r.to@ == to@,
            r.cc@ == (match community {
                Some(c) => seq![c.ap_id],
                None => Seq::<ApId>::empty(),
            }),
            r.summary == summary,
            r.remove_data.is_none(),
            r.id == id,
    {
        let mut cc: Vec<ApId> = Vec::new();
        match community {
            Some(c) => cc.push(c.ap_id.clone()),
            None => {},
        }
        proof {
            match community {
                Some(c) => assert(cc@ =~= seq![c.ap_id]),
                None => assert(cc@ =~= Seq::<ApId>::empty()),
            }
        }
        Delete {
            actor: actor.ap_id.clone(),
            to,
            object: object.id().clone(),
            cc,
            summary,
            remove_data: None,
            id,
        }
    }
}

/// An activity that reverses an earlier deletion, which it carries.
#[derive(Debug)]
pub struct UndoDelete {
    pub actor: ApId,
    pub to: Vec<ApId>,
    pub object: Delete,
    pub cc: Vec<ApId>,
    pub id: ApId,
}

impl Clone for UndoDelete {
    fn clone(&self) -> (r: Self)
        ensures
            r.actor == self.actor,
            r.to@ == self.to@,
            r.object.actor == self.object.actor,
            r.object.to@ == self.object.to@,
            r.object.object == self.object.object,
            r.object.summary == self.object.summary,
            r.object.remove_data == self.object.remove_data,
            r.object.id == self.object.id,
            r.cc@ == self.cc@,
            r.id == self.id,
    {
        UndoDelete {
            actor: self.actor.clone(),
            to: clone_ids(&self.to),
            object: self.object.clone(),
            cc: clone_ids(&self.cc),
            id: self.id.clone(),
        }
    }
}

impl UndoDelete {
    /// Builds the reversal of a deletion of `object` by `actor`: the deletion
    /// gets the id `delete_id`, the reversal the id `id`.
    pub fn new(
        actor: &Person,
        object: &DeletableObjects,
        to: Vec<ApId>,
        community: Option<&Community>,
        summary: Option<String>,
        delete_id: ApId,
        id: ApId,
    ) -> (r: UndoDelete)
        ensures
            r.actor == actor.ap_id,
            r.object.actor == actor.ap_id,
            r.object.object == object.ap_id_spec(),
            r.object.to@ == to@,
            r.to@ == to@,
            r.object.summary == summary,
            r.object.remove_data.is_none(),
            r.object.id == delete_id,
            r.id == id,
    {
        let object = Delete::new(actor, object, clone_ids(&to), community, summary, delete_id);
        let cc = clone_ids(&object.cc);
        UndoDelete { actor: actor.ap_id.clone(), to, object, cc, id }
    }
}

/// An activity that a community forwards to its followers.
#[derive(Debug)]
pub enum AnnouncableActivity {
    Delete(Delete),
    UndoDelete(UndoDelete),
}

/// An activity together with where it is to be delivered; handed to the
/// delivery queue, which expands the targets when it sends.
#[derive(Debug)]
pub struct Outgoing {
    pub activity: AnnouncableActivity,
    pub targets: ActivitySendTargets,
}

} // verus!
