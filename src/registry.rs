//! The set of live connections, and who receives a broadcast.
use vstd::prelude::*;

verus! {

/// The handles of the members that a broadcast from `sender` reaches, in registry order.
pub open spec fn recipients_of<H>(members: Seq<(u64, H)>, sender: u64) -> Seq<H>
    decreases members.len(),
{
    if members.len() == 0 {
        Seq::empty()
    } else {
        let rest = recipients_of(members.drop_last(), sender);
        if members.last().0 == sender {
            rest
        } else {
            rest.push(members.last().1)
        }
    }
}

/// A broadcast from `sender` is queued to the handle of every member but `sender`, and
/// to nothing else: each handle it reaches belongs to a member whose id is not `sender`.
pub proof fn lemma_broadcast_reaches_all_but_sender<H>(members: Seq<(u64, H)>, sender: u64)
    ensures
        forall|x: H|
            recipients_of(members, sender).contains(x) ==> exists|i: int|
                0 <= i < members.len() && members[i].0 != sender && members[i].1 == x,
        forall|i: int|
            0 <= i < members.len() && members[i].0 != sender ==> recipients_of(
                members,
                sender,
            ).contains(#[trigger] members[i].1),
    decreases members.len(),
{
    if members.len() > 0 {
        let init = members.drop_last();
        lemma_broadcast_reaches_all_but_sender(init, sender);
        let rest = recipients_of(init, sender);
        let r = recipients_of(members, sender);
        assert forall|x: H| r.contains(x) implies exists|i: int|
            0 <= i < members.len() && members[i].0 != sender && members[i].1 == x by {
            if rest.contains(x) {
                let i = choose|i: int| 0 <= i < init.len() && init[i].0 != sender && init[i].1 == x;
                assert(members[i] == init[i]);
            } else {
                assert(members.last().0 != sender);
                assert(r == rest.push(members.last().1));
                let k = choose|k: int| 0 <= k < r.len() && r[k] == x;
                assert(k == rest.len());
                assert(members[members.len() - 1].1 == x);
            }
        }
        assert forall|i: int| 0 <= i < members.len() && members[i].0 != sender implies r.contains(
            #[trigger] members[i].1,
        ) by {
            if i < init.len() {
                assert(members[i] == init[i]);
                assert(rest.contains(init[i].1));
                let k = choose|k: int| 0 <= k < rest.len() && rest[k] == init[i].1;
                if members.last().0 != sender {
                    assert(r[k] == rest[k]);
                }
            } else {
                assert(r == rest.push(members.last().1));
                assert(r[rest.len() as int] == members[i].1);
            }
        }
    }
}

/// The connection ids among `members`.
pub open spec fn ids_of<H>(members: Seq<(u64, H)>) -> Set<u64> {
    Set::new(|k: u64| exists|i: int| 0 <= i < members.len() && #[trigger] members[i].0 == k)
}

/// Whether no two members share a connection id.
pub open spec fn unique_ids<H>(members: Seq<(u64, H)>) -> bool {
    forall|i: int, j: int|
        0 <= i < members.len() && 0 <= j < members.len() && i != j ==> #[trigger] members[i].0
            != #[trigger] members[j].0
}

/// The live connections: each one a connection id with a handle for sending to it.
pub struct Registry<H> {
    entries: Vec<(u64, H)>,
}

impl<H> Registry<H> {
    /// The members, in the order in which they registered.
    pub closed spec fn members(&self) -> Seq<(u64, H)> {
        self.entries@
    }

    /// The ids of the live connections.
    pub open spec fn ids(&self) -> Set<u64> {
        ids_of(self.members())
    }

    /// Each connection id occurs at most once.
    pub open spec fn wf(&self) -> bool {
        unique_ids(self.members())
    }

    /// An empty registry.
    pub fn new() -> (r: Registry<H>)
        ensures
            r.wf(),
            r.members() == Seq::<(u64, H)>::empty(),
            r.ids() == Set::<u64>::empty(),
    {
        let r = Registry { entries: Vec::new() };
        assert(r.ids() =~= Set::<u64>::empty());
        r
    }

    /// The number of live connections.
    pub fn len(&self) -> (r: usize)
        ensures
            r == self.members().len(),
    {
        self.entries.len()
    }

    /// Whether connection `id` is live.
    pub fn contains(&self, id: u64) -> (r: bool)
        ensures
            r == self.ids().contains(id),
    {
        let mut i: usize = 0;
        while i < self.entries.len()
            invariant
                i <= self.entries@.len(),
                forall|j: int| 0 <= j < i ==> self.entries@[j].0 != id,
            decreases self.entries@.len() - i,
        {
            if self.entries[i].0 == id {
                return true;
            }
            i = i + 1;
        }
        false
    }

    /// Adds connection `id`, reached through `handle`. A connection that is already
    /// live keeps its first handle.
    pub fn register(&mut self, id: u64, handle: H)
        requires
            old(self).wf(),
        ensures
            final(self).wf(),
            final(self).ids() == old(self).ids().insert(id),
            old(self).ids().contains(id) ==> final(self).members() == old(self).members(),
            !old(self).ids().contains(id) ==> final(self).members() == old(self).members().push(
                (id, handle),
            ),
    {
        if self.contains(id) {
            assert(self.ids() =~= old(self).ids().insert(id));
            return ;
        }
        self.entries.push((id, handle));
        assert(self.ids() =~= old(self).ids().insert(id)) by {
            assert(self.members()[old(self).members().len() as int].0 == id);
            assert forall|k: u64| old(self).ids().contains(k) implies self.ids().contains(k) by {
                let i = choose|i: int| 0 <= i < old(self).members().len() && #[trigger] old(self).members()[i].0 == k;
                assert(self.members()[i].0 == k);
            }
        }
    }

    /// Removes connection `id`, if it is live.
    pub fn deregister(&mut self, id: u64)
        requires
            old(self).wf(),
        ensures
            final(self).wf(),
            final(self).ids() == old(self).ids().remove(id),
            !old(self).ids().contains(id) ==> final(self).members() == old(self).members(),
            old(self).ids().contains(id) ==> exists|i: int|
                0 <= i < old(self).members().len() && old(self).members()[i].0 == id
                    && final(self).members() == old(self).members().remove(i),
    {
        let mut i: usize = 0;
        while i < self.entries.len()
            invariant
                self.entries@ == old(self).entries@,
                unique_ids(self.entries@),
                i <= self.entries@.len(),
                forall|j: int| 0 <= j < i ==> self.entries@[j].0 != id,
            decreases self.entries@.len() - i,
        {
            if self.entries[i].0 == id {
                let ghost before = self.entries@;
                self.entries.remove(i);
                assert(self.entries@ == before.remove(i as int));
                assert forall|j: int| 0 <= j < self.entries@.len() implies #[trigger] self.entries@[j]
                    == (if j < i { before[j] } else { before[j + 1] }) by {}
                assert(unique_ids(self.members())) by {
                    assert forall|a: int, b: int|
                        0 <= a < self.members().len() && 0 <= b < self.members().len() && a != b
                        implies #[trigger] self.members()[a].0 != #[trigger] self.members()[b].0 by {
                        let a0 = if a < i { a } else { a + 1 };
                        let b0 = if b < i { b } else { b + 1 };
                        assert(before[a0].0 != before[b0].0);
                    }
                }
                assert(self.ids() =~= old(self).ids().remove(id)) by {
                    assert forall|k: u64| self.ids().contains(k) implies old(self).ids().contains(k)
                        && k != id by {
                        let j = choose|j: int| 0 <= j < self.members().len() && #[trigger] self.members()[j].0 == k;
                        let j0 = if j < i { j } else { j + 1 };
                        assert(before[j0].0 == k);
                        assert(j0 != i);
                        assert(before[i as int].0 == id);
                        assert(old(self).ids().contains(k));
                    }
                    assert forall|k: u64| old(self).ids().contains(k) && k != id implies self.ids().contains(k) by {
                        let j = choose|j: int| 0 <= j < before.len() && #[trigger] before[j].0 == k;
                        if j < i {
                            assert(self.members()[j].0 == k);
                        } else {
                            assert(j != i);
                            assert(self.members()[j - 1].0 == k);
                        }
                    }
                }
                return ;
            }
            i = i + 1;
        }
        assert(self.ids() =~= old(self).ids().remove(id));
    }

    /// The handles that a broadcast from connection `sender` is queued to: every
    /// member but the sender, in registry order.
    pub fn recipients(&self, sender: u64) -> (r: Vec<&H>)
        ensures
            r@.len() == recipients_of(self.members(), sender).len(),
            forall|k: int|
                0 <= k < r@.len() ==> *#[trigger] r@[k] == recipients_of(self.members(), sender)[k],
    {
        let mut r: Vec<&H> = Vec::new();
        let mut i: usize = 0;
        while i < self.entries.len()
            invariant
                i <= self.entries@.len(),
                r@.len() == recipients_of(self.entries@.subrange(0, i as int), sender).len(),
                forall|k: int|
                    0 <= k < r@.len() ==> *#[trigger] r@[k] == recipients_of(
                        self.entries@.subrange(0, i as int),
                        sender,
                    )[k],
            decreases self.entries@.len() - i,
        {
            assert(self.entries@.subrange(0, i + 1).drop_last() =~= self.entries@.subrange(0, i as int));
            if self.entries[i].0 != sender {
                r.push(&self.entries[i].1);
            }
            i = i + 1;
        }
        assert(self.entries@.subrange(0, i as int) =~= self.entries@);
        r
    }
}

} // verus!
