//! The instance-state mirror: the authoritative local copy of one runner's
//! instance set, keyed by the opaque instance id the remote assigns.
//!
//! The mirror is a map in spirit and its view is a `Map` from id characters
//! to instances. Mutations are exactly the three the protocol needs: a full
//! replacement after a resync, an insert-or-overwrite for a modify event, and
//! a remove for a delete event (a no-op when the id is absent).

use vstd::prelude::*;

use crate::instance::Instance;

verus! {

/// The map a pair list denotes: later pairs win on an id collision.
pub open spec fn map_of(s: Seq<(String, Instance)>) -> Map<Seq<char>, Instance>
    decreases s.len(),
{
    if s.len() == 0 {
        Map::empty()
    } else {
        map_of(s.drop_last()).insert(s.last().0@, s.last().1)
    }
}

/// No two pairs carry the same id.
pub open spec fn keys_unique(s: Seq<(String, Instance)>) -> bool {
    forall|i: int, j: int| 0 <= i < j < s.len() ==> s[i].0@ != s[j].0@
}

/// The local copy of one runner's instance set.
pub struct InstanceMirror {
    entries: Vec<(String, Instance)>,
}

impl View for InstanceMirror {
    type V = Map<Seq<char>, Instance>;

    closed spec fn view(&self) -> Map<Seq<char>, Instance> {
        map_of(self.entries@)
    }
}

proof fn lemma_map_of_absent(s: Seq<(String, Instance)>, k: Seq<char>)
    requires
        forall|i: int| 0 <= i < s.len() ==> s[i].0@ != k,
    ensures
        !map_of(s).dom().contains(k),
    decreases s.len(),
{
    if s.len() > 0 {
        assert(forall|i: int| 0 <= i < s.drop_last().len() ==> s.drop_last()[i].0@ != k);
        lemma_map_of_absent(s.drop_last(), k);
    }
}

proof fn lemma_map_of_present(s: Seq<(String, Instance)>, i: int)
    requires
        keys_unique(s),
        0 <= i < s.len(),
    ensures
        map_of(s).dom().contains(s[i].0@),
        map_of(s)[s[i].0@] == s[i].1,
    decreases s.len(),
{
    if i < s.len() - 1 {
        assert(keys_unique(s.drop_last()));
        assert(s.drop_last()[i] == s[i]);
        lemma_map_of_present(s.drop_last(), i);
        assert(s[i].0@ != s.last().0@);
    }
}

proof fn lemma_map_of_update(s: Seq<(String, Instance)>, i: int, p: (String, Instance))
    requires
        keys_unique(s),
        0 <= i < s.len(),
        p.0@ == s[i].0@,
    ensures
        map_of(s.update(i, p)) == map_of(s).insert(p.0@, p.1),
        keys_unique(s.update(i, p)),
    decreases s.len(),
{
    let t = s.update(i, p);
    assert(forall|j: int| 0 <= j < s.len() && j != i ==> t[j] == s[j]);
    if i == s.len() - 1 {
        assert(t.drop_last() =~= s.drop_last());
        assert(map_of(t) == map_of(s.drop_last()).insert(p.0@, p.1));
        assert(map_of(s.drop_last()).insert(p.0@, p.1) =~= map_of(s).insert(p.0@, p.1));
    } else {
        assert(t.drop_last() =~= s.drop_last().update(i, p));
        assert(t.last() == s.last());
        assert(keys_unique(s.drop_last()));
        assert(s.drop_last()[i] == s[i]);
        lemma_map_of_update(s.drop_last(), i, p);
        assert(map_of(t) == map_of(s.drop_last()).insert(p.0@, p.1).insert(s.last().0@, s.last().1));
        assert(p.0@ != s.last().0@);
        assert(map_of(s.drop_last()).insert(p.0@, p.1).insert(s.last().0@, s.last().1) =~= map_of(
            s,
        ).insert(p.0@, p.1));
    }
}

proof fn lemma_map_of_remove(s: Seq<(String, Instance)>, i: int)
    requires
        keys_unique(s),
        0 <= i < s.len(),
    ensures
        map_of(s.remove(i)) == map_of(s).remove(s[i].0@),
        keys_unique(s.remove(i)),
    decreases s.len(),
{
    let t = s.remove(i);
    assert(forall|j: int| 0 <= j < i ==> t[j] == s[j]);
    assert(forall|j: int| i <= j < t.len() ==> t[j] == s[j + 1]);
    if i == s.len() - 1 {
        assert(t =~= s.drop_last());
        assert(forall|j: int| 0 <= j < t.len() ==> t[j].0@ != s[i].0@);
        lemma_map_of_absent(t, s[i].0@);
        assert(map_of(t).insert(s[i].0@, s[i].1) == map_of(s));
        assert(map_of(t) =~= map_of(t).insert(s[i].0@, s[i].1).remove(s[i].0@));
    } else {
        assert(t.drop_last() =~= s.drop_last().remove(i));
        assert(t.last() == s.last());
        assert(keys_unique(s.drop_last()));
        assert(s.drop_last()[i] == s[i]);
        lemma_map_of_remove(s.drop_last(), i);
        assert(map_of(t) == map_of(s.drop_last()).remove(s[i].0@).insert(s.last().0@, s.last().1));
        assert(s[i].0@ != s.last().0@);
        assert(map_of(s.drop_last()).remove(s[i].0@).insert(s.last().0@, s.last().1) =~= map_of(
            s,
        ).remove(s[i].0@));
    }
}

fn set_entry(v: &mut Vec<(String, Instance)>, i: usize, p: (String, Instance))
    requires
        i < old(v)@.len(),
    ensures
        final(v)@ == old(v)@.update(i as int, p),
{
    let slot = &mut v[i];
    *slot = p;
}

impl InstanceMirror {
    /// The pair list behind the mirror, in its storage order.
    pub closed spec fn entry_seq(self) -> Seq<(String, Instance)> {
        self.entries@
    }

    /// Ids are unique, so the pair list and the map view carry the same
    /// information.
    pub closed spec fn wf(self) -> bool {
        keys_unique(self.entries@)
    }

    /// An empty mirror.
    pub fn new() -> (m: Self)
        ensures
            m.wf(),
            m@ == Map::<Seq<char>, Instance>::empty(),
            m.entry_seq().len() == 0,
    {
        InstanceMirror { entries: Vec::new() }
    }

    /// How many instances the mirror holds.
    pub fn len(&self) -> (n: usize)
        requires
            self.wf(),
        ensures
            n == self.entry_seq().len(),
            n == self@.dom().len(),
    {
        proof {
            lemma_entry_count(self.entries@);
        }
        self.entries.len()
    }

    /// Insert-or-overwrite for one id; the write is last-write-wins.
    pub fn apply_modify(&mut self, id: String, instance: Instance)
        requires
            old(self).wf(),
        ensures
            final(self).wf(),
            final(self)@ == old(self)@.insert(id@, instance),
    {
        let n = self.entries.len();
        let mut i: usize = 0;
        while i < n
            invariant
                n == self.entries@.len(),
                i <= n,
                *self == *old(self),
                old(self).wf(),
                forall|k: int| 0 <= k < i ==> self.entries@[k].0@ != id@,
            decreases n - i,
        {
            let entry = &self.entries[i];
            if <String as PartialEq>::eq(&entry.0, &id) {
                proof {
                    lemma_map_of_update(self.entries@, i as int, (id, instance));
                }
                set_entry(&mut self.entries, i, (id, instance));
                return ;
            }
            i = i + 1;
        }
        proof {
            lemma_map_of_absent(self.entries@, id@);
            assert(self.entries@.push((id, instance)).drop_last() =~= self.entries@);
        }
        self.entries.push((id, instance));
    }

    /// Remove one id; removing an absent id leaves the mirror as it was and
    /// is not an error.
    pub fn apply_delete(&mut self, id: &String)
        requires
            old(self).wf(),
        ensures
            final(self).wf(),
            final(self)@ == old(self)@.remove(id@),
            !old(self)@.dom().contains(id@) ==> final(self)@ == old(self)@,
    {
        let n = self.entries.len();
        let mut i: usize = 0;
        while i < n
            invariant
                n == self.entries@.len(),
                i <= n,
                *self == *old(self),
                old(self).wf(),
                forall|k: int| 0 <= k < i ==> self.entries@[k].0@ != id@,
            decreases n - i,
        {
            let entry = &self.entries[i];
            if <String as PartialEq>::eq(&entry.0, id) {
                proof {
                    lemma_map_of_remove(self.entries@, i as int);
                }
                self.entries.remove(i);
                return ;
            }
            i = i + 1;
        }
        proof {
            lemma_map_of_absent(self.entries@, id@);
            assert(map_of(self.entries@) =~= map_of(self.entries@).remove(id@));
        }
    }

    /// Swap the whole mirror for a freshly decoded snapshot.
    pub fn replace_all(&mut self, snapshot: InstanceMirror)
        requires
            snapshot.wf(),
        ensures
            final(self).wf(),
            final(self)@ == snapshot@,
            final(self).entry_seq() == snapshot.entry_seq(),
    {
        *self = snapshot;
    }

    /// Look one instance up by id.
    pub fn get(&self, id: &String) -> (r: Option<&Instance>)
        requires
            self.wf(),
        ensures
            match r {
                Some(instance) => self@.dom().contains(id@) && self@[id@] == *instance,
                None => !self@.dom().contains(id@),
            },
    {
        let n = self.entries.len();
        let mut i: usize = 0;
        while i < n
            invariant
                n == self.entries@.len(),
                i <= n,
                self.wf(),
                forall|k: int| 0 <= k < i ==> self.entries@[k].0@ != id@,
            decreases n - i,
        {
            let entry = &self.entries[i];
            if <String as PartialEq>::eq(&entry.0, id) {
                proof {
                    lemma_map_of_present(self.entries@, i as int);
                }
                return Some(&self.entries[i].1);
            }
            i = i + 1;
        }
        proof {
            lemma_map_of_absent(self.entries@, id@);
        }
        None
    }

    /// A copy of the mirror's contents, in storage order. Reading the mirror
    /// never requires a notification to be valid.
    pub fn snapshot(&self) -> (r: Vec<(String, Instance)>)
        requires
            self.wf(),
        ensures
            r@ == self.entry_seq(),
            map_of(r@) == self@,
    {
        let n = self.entries.len();
        let mut out: Vec<(String, Instance)> = Vec::new();
        let mut i: usize = 0;
        while i < n
            invariant
                n == self.entries@.len(),
                i <= n,
                out@ =~= self.entries@.take(i as int),
            decreases n - i,
        {
            let entry = &self.entries[i];
            out.push((entry.0.clone(), entry.1.duplicate()));
            proof {
                assert(out@ =~= self.entries@.take(i + 1));
            }
            i = i + 1;
        }
        proof {
            assert(out@ =~= self.entries@);
        }
        out
    }
}

/// With unique ids, the pair list and the map domain have the same size.
proof fn lemma_entry_count(s: Seq<(String, Instance)>)
    requires
        keys_unique(s),
    ensures
        map_of(s).dom().len() == s.len(),
        map_of(s).dom().finite(),
    decreases s.len(),
{
    if s.len() > 0 {
        assert(keys_unique(s.drop_last()));
        lemma_entry_count(s.drop_last());
        lemma_map_of_absent(s.drop_last(), s.last().0@);
        assert(map_of(s).dom() =~= map_of(s.drop_last()).dom().insert(s.last().0@));
        vstd::set::axiom_set_insert_len(map_of(s.drop_last()).dom(), s.last().0@);
    }
}

/// Law: applying the same modify event twice in a row leaves the mirror
/// exactly as applying it once. The two `requires` clauses are the mirror's
/// own contract for `apply_modify`, applied to the same event both times.
pub proof fn lemma_modify_idempotent(
    before: Map<Seq<char>, Instance>,
    once: Map<Seq<char>, Instance>,
    twice: Map<Seq<char>, Instance>,
    id: Seq<char>,
    instance: Instance,
)
    requires
        once == before.insert(id, instance),
        twice == once.insert(id, instance),
    ensures
        twice == once,
{
    assert(twice =~= once);
}

/// Law: deleting an id that is absent from the mirror does not alter the
/// mirror (and `apply_delete` reports no error: it returns normally on every
/// input).
pub proof fn lemma_delete_missing_noop(
    before: Map<Seq<char>, Instance>,
    after: Map<Seq<char>, Instance>,
    id: Seq<char>,
)
    requires
        !before.dom().contains(id),
        after == before.remove(id),
    ensures
        after == before,
{
    assert(after =~= before);
}

} // verus!
