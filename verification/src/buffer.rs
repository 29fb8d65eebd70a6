//! The bounded history of snapshots.

use std::collections::VecDeque;
use vstd::prelude::*;
use crate::api::Info;

verus! {

/// What a history of the given capacity retains of everything pushed so
/// far: the newest `capacity` entries, oldest first, or all of them while
/// there are fewer.
pub open spec fn retained(pushed: Seq<Info>, capacity: nat) -> Seq<Info> {
    if pushed.len() <= capacity {
        pushed
    } else {
        pushed.skip(pushed.len() - capacity)
    }
}

/// The history after `info` is pushed onto `history`.
pub open spec fn history_after_push(history: Seq<Info>, capacity: nat, info: Info) -> Seq<Info> {
    retained(history.push(info), capacity)
}

/// The history after every entry of `pushes` is pushed onto `history`, in
/// order.
pub open spec fn history_after_pushes(history: Seq<Info>, capacity: nat, pushes: Seq<Info>) -> Seq<
    Info,
>
    decreases pushes.len(),
{
    if pushes.len() == 0 {
        history
    } else {
        history_after_push(
            history_after_pushes(history, capacity, pushes.drop_last()),
            capacity,
            pushes.last(),
        )
    }
}

/// A first-in, first-out history of snapshots with a capacity fixed at
/// construction. Its view is the sequence of retained snapshots, oldest
/// first; it never holds more than `capacity()` of them.
pub struct SnapshotBuffer {
    data: VecDeque<Info>,
    capacity: usize,
}

impl View for SnapshotBuffer {
    type V = Seq<Info>;

    closed spec fn view(&self) -> Seq<Info> {
        self.data@
    }
}

impl SnapshotBuffer {
    #[verifier::type_invariant]
    spec fn within_capacity(&self) -> bool {
        self.data@.len() <= self.capacity
    }

    /// The capacity the buffer was made with.
    pub closed spec fn spec_capacity(&self) -> usize {
        self.capacity
    }

    /// An empty buffer that retains at most `capacity` snapshots.
    pub fn new(capacity: usize) -> (buffer: SnapshotBuffer)
        ensures
            buffer@ == Seq::<Info>::empty(),
            buffer.capacity() == capacity,
    {
        SnapshotBuffer { data: VecDeque::new(), capacity }
    }

    /// The capacity the buffer was made with.
    #[verifier::when_used_as_spec(spec_capacity)]
    pub fn capacity(&self) -> (capacity: usize)
        ensures
            capacity == self.spec_capacity(),
    {
        self.capacity
    }

    /// Number of snapshots retained, never more than the capacity.
    pub fn len(&self) -> (len: usize)
        ensures
            len == self@.len(),
            len <= self.capacity(),
    {
        proof {
            use_type_invariant(self);
        }
        self.data.len()
    }

    /// Whether no snapshot has been retained.
    pub fn is_empty(&self) -> (empty: bool)
        ensures
            empty == (self@.len() == 0),
    {
        self.data.len() == 0
    }

    /// Appends `info` as the newest snapshot. When the buffer is full the
    /// oldest snapshot is dropped first; the others keep their order. A
    /// buffer of capacity zero retains nothing.
    pub fn push(&mut self, info: Info)
        ensures
            final(self).capacity() == old(self).capacity(),
            final(self)@ == history_after_push(old(self)@, old(self).capacity() as nat, info),
    {
        proof {
            use_type_invariant(&*self);
        }
        if self.capacity == 0 {
            assert(self.data@.push(info).skip(1) =~= self.data@);
            return ;
        }
        // The queue is moved out while it changes, so that the buffer itself
        // is never seen holding more than its capacity.
        let mut data: VecDeque<Info> = VecDeque::new();
        std::mem::swap(&mut self.data, &mut data);
        if data.len() == self.capacity {
            let _ = data.pop_front();
        }
        data.push_back(info);
        assert(data@ =~= history_after_push(old(self)@, old(self).capacity() as nat, info));
        self.data = data;
    }

    /// The most recently pushed snapshot, or `None` while nothing has been
    /// pushed.
    pub fn latest(&self) -> (latest: Option<&Info>)
        ensures
            latest == if self@.len() == 0 {
                None
            } else {
                Some(&self@.last())
            },
    {
        let len: usize = self.data.len();
        if len == 0 {
            None
        } else {
            Some(&self.data[len - 1])
        }
    }

    /// The snapshot at `index`, counted from the oldest, or `None` past the
    /// newest.
    pub fn get(&self, index: usize) -> (entry: Option<&Info>)
        ensures
            entry == if index < self@.len() {
                Some(&self@[index as int])
            } else {
                None
            },
    {
        if index < self.data.len() {
            Some(&self.data[index])
        } else {
            None
        }
    }

    /// The retained snapshots from oldest to newest. The buffer is left
    /// untouched, so the walk can be repeated at will.
    pub fn iterate(&self) -> (entries: Vec<&Info>)
        ensures
            entries@.len() == self@.len(),
            forall|i: int| 0 <= i < self@.len() ==> *entries@[i] == self@[i],
    {
        let mut entries: Vec<&Info> = Vec::new();
        let len: usize = self.data.len();
        let mut i: usize = 0;
        while i < len
            invariant
                len == self.data@.len(),
                i <= len,
                entries@.len() == i,
                forall|j: int| 0 <= j < i ==> *entries@[j] == self.data@[j],
            decreases len - i,
        {
            entries.push(&self.data[i]);
            i += 1;
        }
        entries
    }
}

/// What is retained never exceeds the capacity.
pub proof fn lemma_retained_len(pushed: Seq<Info>, capacity: nat)
    ensures
        retained(pushed, capacity).len() == if pushed.len() <= capacity {
            pushed.len()
        } else {
            capacity
        },
{
}

/// Pushing onto what a history retains gives what the history would retain
/// had it kept everything before the push.
pub proof fn lemma_push_onto_retained(pushed: Seq<Info>, capacity: nat, info: Info)
    ensures
        history_after_push(retained(pushed, capacity), capacity, info) == retained(
            pushed.push(info),
            capacity,
        ),
{
    assert(history_after_push(retained(pushed, capacity), capacity, info) =~= retained(
        pushed.push(info),
        capacity,
    ));
}

/// A series of pushes onto a history leaves what the history would retain
/// of its former entries followed by all the pushes.
pub proof fn lemma_pushes_onto_retained(history: Seq<Info>, capacity: nat, pushes: Seq<Info>)
    requires
        history.len() <= capacity,
    ensures
        history_after_pushes(history, capacity, pushes) == retained(history + pushes, capacity),
    decreases pushes.len(),
{
    if pushes.len() == 0 {
        assert(history + pushes =~= history);
    } else {
        let earlier = pushes.drop_last();
        lemma_pushes_onto_retained(history, capacity, earlier);
        lemma_push_onto_retained(history + earlier, capacity, pushes.last());
        assert((history + earlier).push(pushes.last()) =~= history + pushes);
    }
}

/// After more pushes than the capacity, a history holds exactly the newest
/// `capacity` of the pushed snapshots, in the order they were pushed, and
/// nothing of what it held before.
pub proof fn lemma_pushes_keep_newest(history: Seq<Info>, capacity: nat, pushes: Seq<Info>)
    requires
        history.len() <= capacity,
        capacity < pushes.len(),
    ensures
        history_after_pushes(history, capacity, pushes) == pushes.skip(pushes.len() - capacity),
        history_after_pushes(history, capacity, pushes).len() == capacity,
{
    lemma_pushes_onto_retained(history, capacity, pushes);
    assert(retained(history + pushes, capacity) =~= pushes.skip(pushes.len() - capacity));
}

} // verus!
