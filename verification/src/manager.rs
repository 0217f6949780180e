//! The message store fed by the ingest hook: delivered messages grouped by
//! sender, each group in arrival order.  Persisting the store to disk is a
//! collaborator's concern; this module only defines the store and the ingest
//! step.

use crate::message::MiraiMessage;
use vstd::prelude::*;

verus! {

/// All messages delivered so far from one sender, oldest first.
pub struct SenderHistory {
    pub sender_id: u64,
    pub messages: Vec<MiraiMessage>,
}

/// The messages of the sender `id`, as grouped in `entries`: the first
/// group carrying `id`, or nothing if no group does.
pub open spec fn history_of(entries: Seq<SenderHistory>, id: u64) -> Seq<MiraiMessage>
    decreases entries.len(),
{
    if entries.len() == 0 {
        Seq::empty()
    } else if entries[0].sender_id == id {
        entries[0].messages@
    } else {
        history_of(entries.drop_first(), id)
    }
}

/// Whether some group in `entries` carries the sender `id`.
pub open spec fn has_sender(entries: Seq<SenderHistory>, id: u64) -> bool {
    exists|j: int| 0 <= j < entries.len() && entries[j].sender_id == id
}

/// The sender ids of the groups, in group order.
pub open spec fn sender_ids(entries: Seq<SenderHistory>) -> Seq<u64> {
    Seq::new(entries.len(), |j: int| entries[j].sender_id)
}

/// A group whose sender no earlier group carries holds exactly that
/// sender's history.
proof fn lemma_history_at(entries: Seq<SenderHistory>, k: int)
    requires
        0 <= k < entries.len(),
        forall|j: int| 0 <= j < k ==> entries[j].sender_id != entries[k].sender_id,
    ensures
        history_of(entries, entries[k].sender_id) == entries[k].messages@,
    decreases k,
{
    if k > 0 {
        lemma_history_at(entries.drop_first(), k - 1);
    }
}

/// A sender no group carries has an empty history.
proof fn lemma_history_absent(entries: Seq<SenderHistory>, id: u64)
    requires
        !has_sender(entries, id),
    ensures
        history_of(entries, id) == Seq::<MiraiMessage>::empty(),
    decreases entries.len(),
{
    if entries.len() > 0 {
        assert(!has_sender(entries.drop_first(), id));
        lemma_history_absent(entries.drop_first(), id);
    }
}

/// Replacing one group with a group of the same sender leaves every other
/// sender's history unchanged.
proof fn lemma_history_update_other(
    entries: Seq<SenderHistory>,
    k: int,
    e: SenderHistory,
    id: u64,
)
    requires
        0 <= k < entries.len(),
        e.sender_id == entries[k].sender_id,
        id != entries[k].sender_id,
    ensures
        history_of(entries.update(k, e), id) == history_of(entries, id),
    decreases entries.len(),
{
    if k == 0 {
        assert(entries.update(0, e).drop_first() =~= entries.drop_first());
    } else {
        assert(entries.update(k, e).drop_first() =~= entries.drop_first().update(k - 1, e));
        lemma_history_update_other(entries.drop_first(), k - 1, e, id);
    }
}

/// Appending a group changes no history but the appended sender's, and that
/// one only if no earlier group carries the same sender.
proof fn lemma_history_push(entries: Seq<SenderHistory>, e: SenderHistory, id: u64)
    ensures
        history_of(entries.push(e), id) == (if !has_sender(entries, id) && e.sender_id == id {
            e.messages@
        } else {
            history_of(entries, id)
        }),
    decreases entries.len(),
{
    let pushed = entries.push(e);
    assert(pushed.len() == entries.len() + 1);
    if entries.len() == 0 {
        assert(pushed[0] == e);
        assert(pushed.drop_first() =~= Seq::<SenderHistory>::empty());
        if e.sender_id == id {
            assert(history_of(pushed, id) == e.messages@);
        } else {
            assert(history_of(pushed, id) == history_of(pushed.drop_first(), id));
            assert(history_of(pushed, id) == Seq::<MiraiMessage>::empty());
        }
        assert(!has_sender(entries, id));
        assert(history_of(entries, id) == Seq::<MiraiMessage>::empty());
    } else {
        assert(pushed[0] == entries[0]);
        assert(pushed.drop_first() =~= entries.drop_first().push(e));
        lemma_history_push(entries.drop_first(), e, id);
        if entries[0].sender_id == id {
            assert(history_of(pushed, id) == entries[0].messages@);
            assert(history_of(entries, id) == entries[0].messages@);
            assert(has_sender(entries, id));
        } else {
            assert(history_of(pushed, id) == history_of(entries.drop_first().push(e), id));
            assert(history_of(entries, id) == history_of(entries.drop_first(), id));
            if has_sender(entries, id) {
                let j = choose|j: int| 0 <= j < entries.len() && entries[j].sender_id == id;
                assert(entries.drop_first()[j - 1].sender_id == id);
                assert(has_sender(entries.drop_first(), id));
            } else {
                assert(!has_sender(entries.drop_first(), id)) by {
                    if has_sender(entries.drop_first(), id) {
                        let j = choose|j: int|
                            0 <= j < entries.drop_first().len() && entries.drop_first()[j].sender_id
                                == id;
                        assert(entries[j + 1].sender_id == id);
                    }
                }
            }
        }
    }
}

/// Delivered messages grouped by the sender's id, each group in arrival
/// order.
pub struct MiraiMessageManager {
    pub messages: Vec<SenderHistory>,
}

impl MiraiMessageManager {
    /// No two groups carry the same sender, so each sender's history lives
    /// in exactly one group.
    pub open spec fn wf(self) -> bool {
        forall|i: int, j: int|
            0 <= i < j < self.messages@.len() ==> self.messages@[i].sender_id
                != self.messages@[j].sender_id
    }

    /// The history delivered so far from the sender `id`, oldest first.
    pub open spec fn history(self, id: u64) -> Seq<MiraiMessage> {
        history_of(self.messages@, id)
    }

    /// The senders seen so far, in the order their first message arrived.
    pub open spec fn senders(self) -> Seq<u64> {
        sender_ids(self.messages@)
    }

    /// An empty store.
    pub fn new() -> (m: MiraiMessageManager)
        ensures
            m.messages@ == Seq::<SenderHistory>::empty(),
            m.wf(),
    {
        MiraiMessageManager { messages: Vec::new() }
    }

    /// The index of the group carrying `id`, if any group does.
    fn position_of(&self, id: u64) -> (r: Option<usize>)
        ensures
            match r {
                Some(i) => i < self.messages@.len() && self.messages@[i as int].sender_id == id
                    && forall|j: int| 0 <= j < i ==> self.messages@[j].sender_id != id,
                None => !has_sender(self.messages@, id),
            },
    {
        let n = self.messages.len();
        let mut i: usize = 0;
        while i < n
            invariant
                i <= n,
                n == self.messages@.len(),
                forall|j: int| 0 <= j < i ==> self.messages@[j].sender_id != id,
            decreases n - i,
        {
            if self.messages[i].sender_id == id {
                return Some(i);
            }
            i += 1;
        }
        None
    }

    /// The ingest hook: record one delivered message under its sender.  A
    /// sender already seen has the message appended to its history; a new
    /// sender gets a fresh group at the end.  Every other sender's history
    /// is untouched.
    pub fn ingest(&mut self, m: MiraiMessage)
        requires
            old(self).wf(),
        ensures
            final(self).wf(),
            final(self).history(m.data.sender.id) == old(self).history(m.data.sender.id).push(m),
            forall|id: u64|
                id != m.data.sender.id ==> final(self).history(id) == old(self).history(id),
            has_sender(old(self).messages@, m.data.sender.id) ==> final(self).senders() == old(
                self,
            ).senders(),
            !has_sender(old(self).messages@, m.data.sender.id) ==> final(self).senders() == old(
                self,
            ).senders().push(m.data.sender.id),
    {
        let id = m.data.sender.id;
        let ghost m_ghost = m;
        match self.position_of(id) {
            Some(i) => {
                let ghost before = self.messages@;
                let mut entry = self.messages.remove(i);
                entry.messages.push(m);
                self.messages.insert(i, entry);
                proof {
                    assert(self.messages@ =~= before.update(i as int, self.messages@[i as int]));
                    let after = self.messages@;
                    assert(after[i as int].sender_id == id);
                    assert(after[i as int].messages@ == before[i as int].messages@.push(m_ghost));
                    lemma_history_at(before, i as int);
                    lemma_history_at(after, i as int);
                    assert forall|other: u64| other != id implies history_of(after, other)
                        == history_of(before, other) by {
                        lemma_history_update_other(before, i as int, after[i as int], other);
                    }
                    assert(sender_ids(after) =~= sender_ids(before));
                }
            },
            None => {
                let ghost before = self.messages@;
                let mut group: Vec<MiraiMessage> = Vec::new();
                group.push(m);
                let entry = SenderHistory { sender_id: id, messages: group };
                let ghost entry_ghost = entry;
                self.messages.push(entry);
                proof {
                    let after = self.messages@;
                    lemma_history_absent(before, id);
                    assert forall|any: u64| true implies history_of(after, any) == (if any == id {
                        entry_ghost.messages@
                    } else {
                        history_of(before, any)
                    }) by {
                        lemma_history_push(before, entry_ghost, any);
                    }
                    assert(entry_ghost.messages@ =~= Seq::<MiraiMessage>::empty().push(m_ghost));
                    assert(sender_ids(after) =~= sender_ids(before).push(id));
                }
            },
        }
    }
}

} // verus!
