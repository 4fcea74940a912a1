//! The tunnel registry: the table from tunnel id to the handle of its
//! running session.
//!
//! The registry owns the only persistent state of the supervisor: which ids
//! currently have a live session. It is generic in the handle type; the
//! caller keeps whatever it needs to reach a session (its cancellation
//! signal, its task handle) inside the handle, wraps the registry in its
//! mutual-exclusion primitive, and signals the handles that the operations
//! return.

use vstd::prelude::*;

verus! {

/// A session is registered for `id` in the table `s`.
pub open spec fn has_id<H>(s: Seq<(Seq<char>, H)>, id: Seq<char>) -> bool {
    exists|i: int| 0 <= i < s.len() && s[i].0 == id
}

/// No two entries of `s` share an id.
pub open spec fn distinct_ids<H>(s: Seq<(Seq<char>, H)>) -> bool {
    forall|i: int, j: int| 0 <= i < j < s.len() ==> s[i].0 != s[j].0
}

/// The id-to-session table.
pub struct CloudflareManager<H> {
    entries: Vec<(String, H)>,
}

impl<H> View for CloudflareManager<H> {
    type V = Seq<(Seq<char>, H)>;

    /// The registry's mathematical value: its (id, handle) pairs in
    /// insertion order.
    closed spec fn view(&self) -> Seq<(Seq<char>, H)> {
        self.entries@.map_values(|e: (String, H)| (e.0@, e.1))
    }
}

impl<H> CloudflareManager<H> {
    /// The registry invariant: at most one session per id.
    pub open spec fn wf(&self) -> bool {
        distinct_ids(self@)
    }

    /// An empty registry.
    pub fn new() -> (m: CloudflareManager<H>)
        ensures
            m@ == Seq::<(Seq<char>, H)>::empty(),
            m.wf(),
    {
        let m = CloudflareManager { entries: Vec::new() };
        proof {
            assert(m@ =~= Seq::<(Seq<char>, H)>::empty());
        }
        m
    }

    /// Index of the entry for `id`, if one is registered.
    fn index_of(&self, id: &String) -> (r: Option<usize>)
        ensures
            match r {
                Some(i) => i < self@.len() && self@[i as int].0 == id@ && forall|j: int|
                    0 <= j < i ==> self@[j].0 != id@,
                None => !has_id(self@, id@),
            },
    {
        let mut i: usize = 0;
        while i < self.entries.len()
            invariant
                i <= self.entries@.len(),
                self@.len() == self.entries@.len(),
                forall|j: int| 0 <= j < i ==> self@[j].0 != id@,
            decreases self.entries@.len() - i,
        {
            let e = &self.entries[i];
            if e.0 == *id {
                return Some(i);
            }
            i = i + 1;
        }
        None
    }

    /// Remove the session registered for `id` and hand back its handle, so
    /// that the caller can signal its cancellation. On an id with no session
    /// this is a no-op: the registry is unchanged and there is no handle to
    /// signal, hence no event.
    pub fn disconnect(&mut self, id: &String) -> (r: Option<H>)
        requires
            old(self).wf(),
        ensures
            final(self).wf(),
            r is Some <==> has_id(old(self)@, id@),
            r is Some ==> exists|i: int|
                0 <= i < old(self)@.len() && old(self)@[i].0 == id@ && r == Some(old(self)@[i].1)
                    && final(self)@ == old(self)@.remove(i),
            r is None ==> *final(self) == *old(self),
            !has_id(final(self)@, id@),
    {
        match self.index_of(id) {
            Some(i) => {
                let e = self.entries.remove(i);
                proof {
                    assert(self@ =~= old(self)@.remove(i as int));
                    assert forall|k: int| 0 <= k < self@.len() implies self@[k].0 != id@ by {
                        if k < i {
                            assert(old(self)@[k].0 != old(self)@[i as int].0);
                        } else {
                            assert(old(self)@[k + 1].0 != old(self)@[i as int].0);
                        }
                    }
                }
                Some(e.1)
            },
            None => None,
        }
    }

    /// Register a session for `id`. Any session already registered for the
    /// id is removed first and its handle returned, so that the caller can
    /// signal the old session to stop before or while the new one starts.
    pub fn connect(&mut self, id: &String, handle: H) -> (prev: Option<H>)
        requires
            old(self).wf(),
        ensures
            final(self).wf(),
            prev is Some <==> has_id(old(self)@, id@),
            prev is Some ==> exists|i: int|
                0 <= i < old(self)@.len() && old(self)@[i].0 == id@ && prev == Some(
                    old(self)@[i].1,
                ) && final(self)@ == old(self)@.remove(i).push((id@, handle)),
            prev is None ==> final(self)@ == old(self)@.push((id@, handle)),
            has_id(final(self)@, id@),
    {
        let prev = self.disconnect(id);
        let ghost mid = self@;
        self.entries.push((id.clone(), handle));
        proof {
            assert(self@ =~= mid.push((id@, handle)));
            let n = self@.len() - 1;
            assert(self@[n].0 == id@);
            assert(has_id(self@, id@));
            assert forall|i: int, j: int| 0 <= i < j < self@.len() implies self@[i].0
                != self@[j].0 by {
                if j < n {
                    assert(mid[i].0 != mid[j].0);
                } else {
                    assert(!has_id(mid, id@));
                    assert(mid[i].0 != id@);
                }
            }
        }
        prev
    }

    /// Remove every session and hand back all handles, in registration
    /// order, so that the caller can signal each one.
    pub fn disconnect_all(&mut self) -> (hs: Vec<H>)
        ensures
            final(self)@ == Seq::<(Seq<char>, H)>::empty(),
            final(self).wf(),
            hs@.len() == old(self)@.len(),
            forall|i: int| 0 <= i < hs@.len() ==> hs@[i] == old(self)@[i].1,
    {
        let mut hs: Vec<H> = Vec::new();
        while self.entries.len() > 0
            invariant
                hs@.len() + self@.len() == old(self)@.len(),
                self@ == old(self)@.subrange(hs@.len() as int, old(self)@.len() as int),
                forall|i: int| 0 <= i < hs@.len() ==> hs@[i] == old(self)@[i].1,
            decreases self.entries@.len(),
        {
            let ghost pre = self@;
            let ghost k = hs@.len() as int;
            let e = self.entries.remove(0);
            hs.push(e.1);
            proof {
                assert(self@ =~= pre.remove(0));
                assert(pre[0].1 == e.1);
                assert(pre[0] == old(self)@[k]);
                assert(self@ =~= old(self)@.subrange(hs@.len() as int, old(self)@.len() as int));
            }
        }
        proof {
            assert(self@ =~= Seq::<(Seq<char>, H)>::empty());
        }
        hs
    }

    /// Coarse presence check: `"active"` exactly when a session is
    /// registered for `id`. Detailed status is only delivered through
    /// emitted events, never queried.
    pub fn get_status(&self, id: &String) -> (r: &'static str)
        ensures
            has_id(self@, id@) ==> r@ == "active"@,
            !has_id(self@, id@) ==> r@ == "inactive"@,
    {
        match self.index_of(id) {
            Some(_) => "active",
            None => "inactive",
        }
    }
}

/// Law: at most one session is registered per id at any instant: two
/// distinct entries of a well-formed registry never share an id.
pub proof fn lemma_at_most_one_session<H>(m: &CloudflareManager<H>, i: int, j: int)
    requires
        m.wf(),
        0 <= i < m@.len(),
        0 <= j < m@.len(),
        i != j,
    ensures
        m@[i].0 != m@[j].0,
{
}

} // verus!
