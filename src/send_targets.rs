use vstd::prelude::*;
use crate::store::{find_by_id, LocalStore, Person, StoreView};

verus! {

/// The inbox that activities for a person are delivered to: the shared inbox
/// of its instance where there is one.
pub open spec fn inbox_of(p: Person) -> Seq<char> {
    match p.shared_inbox {
        Some(s) => s@,
        None => p.inbox@,
    }
}

/// The inbox that activities for a person are delivered to.
pub fn shared_inbox_or_inbox(p: &Person) -> (r: String)
    ensures
        r@ == inbox_of(*p),
{
    match &p.shared_inbox {
        Some(s) => s.clone(),
        None => p.inbox.clone(),
    }
}

/// The list holds this string.
pub open spec fn contains_str(v: Seq<String>, s: Seq<char>) -> bool {
    exists|i: int| 0 <= i < v.len() && #[trigger] v[i]@ == s
}

/// No string occurs twice in the list.
pub open spec fn no_duplicates(v: Seq<String>) -> bool {
    forall|i: int, j: int| 0 <= i < j < v.len() ==> #[trigger] v[i]@ != #[trigger] v[j]@
}

/// Follower row `f` of the store names a person of the store whose inbox is `s`.
pub open spec fn follower_inbox_at(v: StoreView, f: int, s: Seq<char>) -> bool {
    &&& 0 <= f < v.followers.len()
    &&& v.person_by_id(v.followers[f].person_id) is Some
    &&& inbox_of(v.person_by_id(v.followers[f].person_id).unwrap()) == s
}

/// `s` is the inbox of a current follower of the community.
pub open spec fn is_follower_inbox(v: StoreView, community_id: i32, s: Seq<char>) -> bool {
    exists|f: int| #[trigger] follower_inbox_at(v, f, s) && v.followers[f].community_id == community_id
}

/// `s` is the inbox of a remote site.
pub open spec fn is_remote_site_inbox(v: StoreView, s: Seq<char>) -> bool {
    exists|k: int| 0 <= k < v.sites.len() && !v.sites[k].local && #[trigger] v.sites[k].inbox@ == s
}

/// Where an outbound activity goes: explicit inboxes, the followers of local
/// communities, and every known remote instance. Expanded into inboxes only
/// when the activity is sent.
#[derive(Debug)]
pub struct ActivitySendTargets {
    pub inboxes: Vec<String>,
    pub community_followers_of: Vec<i32>,
    pub all_instances: bool,
}

impl ActivitySendTargets {
    /// Nobody.
    pub open spec fn is_empty_spec(&self) -> bool {
        self.inboxes@.len() == 0 && self.community_followers_of@.len() == 0 && !self.all_instances
    }

    /// `s` is one of the inboxes that the targets expand to in the store.
    pub open spec fn targets_inbox(&self, v: StoreView, s: Seq<char>) -> bool {
        ||| contains_str(self.inboxes@, s)
        ||| exists|f: int|
            #[trigger] follower_inbox_at(v, f, s) && self.community_followers_of@.contains(
                v.followers[f].community_id,
            )
        ||| (self.all_instances && is_remote_site_inbox(v, s))
    }

    pub fn empty() -> (r: ActivitySendTargets)
        ensures
            r.is_empty_spec(),
    {
        ActivitySendTargets { inboxes: Vec::new(), community_followers_of: Vec::new(), all_instances: false }
    }

    /// A single inbox.
    pub fn to_inbox(inbox: String) -> (r: ActivitySendTargets)
        ensures
            r.inboxes@ == seq![inbox],
            r.community_followers_of@.len() == 0,
            !r.all_instances,
    {
        let mut inboxes = Vec::new();
        inboxes.push(inbox);
        ActivitySendTargets { inboxes, community_followers_of: Vec::new(), all_instances: false }
    }

    /// Every known remote instance.
    pub fn to_all_instances() -> (r: ActivitySendTargets)
        ensures
            r.inboxes@.len() == 0,
            r.community_followers_of@.len() == 0,
            r.all_instances,
    {
        ActivitySendTargets { inboxes: Vec::new(), community_followers_of: Vec::new(), all_instances: true }
    }

    /// The followers of a local community.
    pub fn to_local_community_followers(community_id: i32) -> (r: ActivitySendTargets)
        ensures
            r.inboxes@.len() == 0,
            r.community_followers_of@ == seq![community_id],
            !r.all_instances,
    {
        let mut ids = Vec::new();
        ids.push(community_id);
        ActivitySendTargets { inboxes: Vec::new(), community_followers_of: ids, all_instances: false }
    }

    /// Adds one inbox.
    pub fn add_inbox(&mut self, inbox: String)
        ensures
            final(self).inboxes@ == old(self).inboxes@.push(inbox),
            final(self).community_followers_of@ == old(self).community_followers_of@,
            final(self).all_instances == old(self).all_instances,
    {
        self.inboxes.push(inbox);
    }

    /// Adds the followers of a local community.
    pub fn add_local_community_followers(&mut self, community_id: i32)
        ensures
            final(self).inboxes@ == old(self).inboxes@,
            final(self).community_followers_of@ == old(self).community_followers_of@.push(community_id),
            final(self).all_instances == old(self).all_instances,
    {
        self.community_followers_of.push(community_id);
    }

    /// Expands the targets into the inboxes that the activity is delivered to,
    /// each once.
    pub fn resolve(&self, store: &LocalStore) -> (r: Vec<String>)
        ensures
            no_duplicates(r@),
            forall|s: Seq<char>| contains_str(r@, s) <==> #[trigger] self.targets_inbox(store@, s),
    {
        let mut out: Vec<String> = Vec::new();
        let mut i: usize = 0;
        while i < self.inboxes.len()
            invariant
                0 <= i <= self.inboxes.len(),
                no_duplicates(out@),
                forall|s: Seq<char>|
                    contains_str(out@, s) <==> exists|j: int| 0 <= j < i && #[trigger] self.inboxes@[j]@ == s,
            decreases self.inboxes.len() - i,
        {
            let ghost before = out@;
            push_unique(&mut out, self.inboxes[i].clone());
            proof {
                assert forall|s: Seq<char>|
                    contains_str(out@, s) <==> exists|j: int| 0 <= j < i + 1 && #[trigger] self.inboxes@[j]@ == s by {
                    if contains_str(out@, s) && s != self.inboxes@[i as int]@ {
                        assert(contains_str(before, s));
                    }
                    if exists|j: int| 0 <= j < i + 1 && #[trigger] self.inboxes@[j]@ == s {
                        let j = choose|j: int| 0 <= j < i + 1 && #[trigger] self.inboxes@[j]@ == s;
                        if j < i {
                            assert(contains_str(before, s));
                        }
                    }
                }
            }
            i = i + 1;
        }
        let ghost from_inboxes = out@;
        assert(forall|s: Seq<char>| contains_str(from_inboxes, s) <==> contains_str(self.inboxes@, s));
        let mut f: usize = 0;
        while f < store.followers.len()
            invariant
                0 <= f <= store.followers.len(),
                no_duplicates(out@),
                forall|s: Seq<char>|
                    contains_str(out@, s) <==> (contains_str(self.inboxes@, s) || exists|g: int|
                        0 <= g < f && #[trigger] follower_inbox_at(store@, g, s)
                            && self.community_followers_of@.contains(store@.followers[g].community_id)),
            decreases store.followers.len() - f,
        {
            let row = store.followers[f];
            if contains_i32(&self.community_followers_of, row.community_id) {
                match find_by_id(&store.persons, row.person_id) {
                    Some(p) => {
                        let ghost before = out@;
                        let inbox = shared_inbox_or_inbox(&store.persons[p]);
                        let ghost new_s = inbox@;
                        assert(follower_inbox_at(store@, f as int, new_s));
                        push_unique(&mut out, inbox);
                        proof {
                            assert forall|s: Seq<char>|
                                contains_str(out@, s) <==> (contains_str(self.inboxes@, s) || exists|g: int|
                                    0 <= g < f + 1 && #[trigger] follower_inbox_at(store@, g, s)
                                        && self.community_followers_of@.contains(store@.followers[g].community_id)) by {
                                if contains_str(out@, s) && s != new_s {
                                    assert(contains_str(before, s));
                                }
                                if exists|g: int|
                                    0 <= g < f + 1 && #[trigger] follower_inbox_at(store@, g, s)
                                        && self.community_followers_of@.contains(store@.followers[g].community_id) {
                                    let g = choose|g: int|
                                        0 <= g < f + 1 && #[trigger] follower_inbox_at(store@, g, s)
                                            && self.community_followers_of@.contains(store@.followers[g].community_id);
                                    if g < f {
                                        assert(contains_str(before, s));
                                    }
                                }
                            }
                        }
                    },
                    None => {
                        proof {
                            assert forall|s: Seq<char>|
                                contains_str(out@, s) <==> (contains_str(self.inboxes@, s) || exists|g: int|
                                    0 <= g < f + 1 && #[trigger] follower_inbox_at(store@, g, s)
                                        && self.community_followers_of@.contains(store@.followers[g].community_id)) by {
                                if exists|g: int|
                                    0 <= g < f + 1 && #[trigger] follower_inbox_at(store@, g, s)
                                        && self.community_followers_of@.contains(store@.followers[g].community_id) {
                                    let g = choose|g: int|
                                        0 <= g < f + 1 && #[trigger] follower_inbox_at(store@, g, s)
                                            && self.community_followers_of@.contains(store@.followers[g].community_id);
                                    assert(g != f);
                                }
                            }
                        }
                    },
                }
            } else {
                proof {
                    assert forall|s: Seq<char>|
                        contains_str(out@, s) <==> (contains_str(self.inboxes@, s) || exists|g: int|
                            0 <= g < f + 1 && #[trigger] follower_inbox_at(store@, g, s)
                                && self.community_followers_of@.contains(store@.followers[g].community_id)) by {
                        if exists|g: int|
                            0 <= g < f + 1 && #[trigger] follower_inbox_at(store@, g, s)
                                && self.community_followers_of@.contains(store@.followers[g].community_id) {
                            let g = choose|g: int|
                                0 <= g < f + 1 && #[trigger] follower_inbox_at(store@, g, s)
                                    && self.community_followers_of@.contains(store@.followers[g].community_id);
                            assert(g != f);
                        }
                    }
                }
            }
            f = f + 1;
        }
        if self.all_instances {
            let mut k: usize = 0;
            while k < store.sites.len()
                invariant
                    self.all_instances,
                    0 <= k <= store.sites.len(),
                    no_duplicates(out@),
                    forall|s: Seq<char>|
                        contains_str(out@, s) <==> (contains_str(self.inboxes@, s) || (exists|g: int|
                            #[trigger] follower_inbox_at(store@, g, s)
                                && self.community_followers_of@.contains(store@.followers[g].community_id))
                            || exists|m: int|
                            0 <= m < k && !store@.sites[m].local && #[trigger] store@.sites[m].inbox@ == s),
                decreases store.sites.len() - k,
            {
                if !store.sites[k].local {
                    let ghost before = out@;
                    let inbox = store.sites[k].inbox.clone();
                    push_unique(&mut out, inbox);
                    proof {
                        assert forall|s: Seq<char>|
                            contains_str(out@, s) <==> (contains_str(self.inboxes@, s) || (exists|g: int|
                                #[trigger] follower_inbox_at(store@, g, s)
                                    && self.community_followers_of@.contains(store@.followers[g].community_id))
                                || exists|m: int|
                                0 <= m < k + 1 && !store@.sites[m].local && #[trigger] store@.sites[m].inbox@ == s) by {
                            if contains_str(out@, s) && s != store@.sites[k as int].inbox@ {
                                assert(contains_str(before, s));
                            }
                            if exists|m: int|
                                0 <= m < k + 1 && !store@.sites[m].local && #[trigger] store@.sites[m].inbox@ == s {
                                let m = choose|m: int|
                                    0 <= m < k + 1 && !store@.sites[m].local && #[trigger] store@.sites[m].inbox@ == s;
                                if m < k {
                                    assert(contains_str(before, s));
                                }
                            }
                        }
                    }
                } else {
                    proof {
                        assert forall|s: Seq<char>|
                            contains_str(out@, s) <==> (contains_str(self.inboxes@, s) || (exists|g: int|
                                #[trigger] follower_inbox_at(store@, g, s)
                                    && self.community_followers_of@.contains(store@.followers[g].community_id))
                                || exists|m: int|
                                0 <= m < k + 1 && !store@.sites[m].local && #[trigger] store@.sites[m].inbox@ == s) by {
                            if exists|m: int|
                                0 <= m < k + 1 && !store@.sites[m].local && #[trigger] store@.sites[m].inbox@ == s {
                                let m = choose|m: int|
                                    0 <= m < k + 1 && !store@.sites[m].local && #[trigger] store@.sites[m].inbox@ == s;
                                assert(m != k);
                            }
                        }
                    }
                }
                k = k + 1;
            }
        }
        out
    }
}

/// Whether the list holds the id.
pub fn contains_i32(v: &Vec<i32>, x: i32) -> (r: bool)
    ensures
        r == v@.contains(x),
{
    let mut i: usize = 0;
    while i < v.len()
        invariant
            0 <= i <= v.len(),
            forall|j: int| 0 <= j < i ==> v@[j] != x,
        decreases v.len() - i,
    {
        if v[i] == x {
            assert(v@[i as int] == x);
            return true;
        }
        i = i + 1;
    }
    false
}

/// Appends the string unless the list already holds it.
pub fn push_unique(out: &mut Vec<String>, s: String)
    requires
        no_duplicates(old(out)@),
    ensures
        no_duplicates(final(out)@),
        forall|t: Seq<char>| contains_str(final(out)@, t) <==> (contains_str(old(out)@, t) || t == s@),
{
    let mut i: usize = 0;
    while i < out.len()
        invariant
            0 <= i <= out.len(),
            out@ == old(out)@,
            no_duplicates(out@),
            forall|j: int| 0 <= j < i ==> out@[j]@ != s@,
        decreases out.len() - i,
    {
        if out[i] == s {
            assert(out@[i as int]@ == s@);
            return;
        }
        i = i + 1;
    }
    let ghost before = out@;
    out.push(s);
    proof {
        assert(out@[before.len() as int] == s);
        assert forall|t: Seq<char>| contains_str(out@, t) <==> (contains_str(before, t) || t == s@) by {
            if contains_str(out@, t) {
                let j = choose|j: int| 0 <= j < out@.len() && #[trigger] out@[j]@ == t;
                if j < before.len() {
                    assert(before[j]@ == t);
                }
            }
            if contains_str(before, t) {
                let j = choose|j: int| 0 <= j < before.len() && #[trigger] before[j]@ == t;
                assert(out@[j]@ == t);
            }
        }
    }
}

/// The followers of a community expand to exactly the inboxes of its current
/// followers, each once: resolving `to_local_community_followers(c)` yields no
/// inbox twice and every inbox of a follower of `c`, and nothing else.
pub proof fn lemma_community_followers_fan_out(v: StoreView, t: ActivitySendTargets, c: i32)
    requires
        t.inboxes@.len() == 0,
        t.community_followers_of@ == seq![c],
        !t.all_instances,
    ensures
        forall|s: Seq<char>| #[trigger] t.targets_inbox(v, s) <==> is_follower_inbox(v, c, s),
{
    assert forall|s: Seq<char>| #[trigger] t.targets_inbox(v, s) <==> is_follower_inbox(v, c, s) by {
        assert(!contains_str(t.inboxes@, s));
        if t.targets_inbox(v, s) {
            let f = choose|f: int|
                #[trigger] follower_inbox_at(v, f, s) && t.community_followers_of@.contains(
                    v.followers[f].community_id,
                );
            let k = choose|k: int| 0 <= k < t.community_followers_of@.len() && t.community_followers_of@[k] == v.followers[f].community_id;
            assert(k == 0);
        }
        if is_follower_inbox(v, c, s) {
            let f = choose|f: int| #[trigger] follower_inbox_at(v, f, s) && v.followers[f].community_id == c;
            assert(t.community_followers_of@[0] == c);
            assert(t.community_followers_of@.contains(v.followers[f].community_id));
        }
    }
}

} // verus!
