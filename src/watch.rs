use tokio::sync::broadcast::{Receiver, Sender};
use vstd::prelude::*;

verus! {

#[verifier::external_type_specification]
#[verifier::external_body]
#[verifier::reject_recursive_types(T)]
pub struct ExSender<T>(Sender<T>);

#[verifier::external_type_specification]
#[verifier::external_body]
#[verifier::reject_recursive_types(T)]
pub struct ExReceiver<T>(Receiver<T>);

/// Relies on tokio's `broadcast::Sender::new`: a channel with room for one
/// message and no receiver yet (it panics only on a capacity of zero or of
/// more than half the address space).
#[verifier::external_body]
fn change_channel() -> Sender<()> {
    Sender::new(1)
}

/// Relies on tokio's `broadcast::Sender::send`: the receivers subscribed at
/// this moment are woken; with none subscribed the message is dropped.
#[verifier::external_body]
fn announce_change(tx: &Sender<()>) {
    let _ = tx.send(());
}

/// Relies on tokio's `broadcast::Sender::subscribe`: a receiver that sees the
/// messages sent from now on.
#[verifier::external_body]
fn subscribe_changes(tx: &Sender<()>) -> Receiver<()> {
    tx.subscribe()
}

/// Queue order: delays never decrease from front to back.
pub open spec fn sorted<ID>(s: Seq<(ID, u64)>) -> bool {
    forall|i: int, j: int| 0 <= i <= j < s.len() ==> #[trigger] s[i].1 <= #[trigger] s[j].1
}

/// The queue after inserting `n`: in front of the first node with a strictly
/// greater delay, so that nodes of equal delay keep their insertion order.
pub open spec fn sorted_insert<ID>(s: Seq<(ID, u64)>, n: (ID, u64)) -> Seq<(ID, u64)>
    decreases s.len(),
{
    if s.len() == 0 {
        seq![n]
    } else if n.1 < s[0].1 {
        seq![n] + s
    } else {
        seq![s[0]] + sorted_insert(s.drop_first(), n)
    }
}

/// The queue built by inserting the entries of `es` one after another into an
/// empty queue.
pub open spec fn schedule<ID>(es: Seq<(ID, u64)>) -> Seq<(ID, u64)>
    decreases es.len(),
{
    if es.len() == 0 {
        Seq::empty()
    } else {
        sorted_insert(schedule(es.drop_last()), es.last())
    }
}

/// A delay measured from a reference instant `d` later: it never goes below zero.
pub open spec fn rebase(t: u64, d: u64) -> u64 {
    if t < d {
        0
    } else {
        (t - d) as u64
    }
}

/// The queue once its front node has fired: the other nodes count from the
/// moment it fired.
pub open spec fn after_due<ID>(s: Seq<(ID, u64)>) -> Seq<(ID, u64)>
    recommends
        s.len() > 0,
{
    s.drop_first().map_values(|n: (ID, u64)| (n.0, rebase(n.1, s[0].1)))
}

/// Where `sorted_insert` places the new node.
pub open spec fn insert_pos<ID>(s: Seq<(ID, u64)>, n: (ID, u64)) -> int
    decreases s.len(),
{
    if s.len() == 0 || n.1 < s[0].1 {
        0
    } else {
        1 + insert_pos(s.drop_first(), n)
    }
}

/// How many nodes of `s` carry the key `k`.
pub open spec fn key_count<ID>(s: Seq<(ID, u64)>, k: ID) -> nat
    decreases s.len(),
{
    if s.len() == 0 {
        0
    } else {
        (if s[0].0 == k {
            1nat
        } else {
            0nat
        }) + key_count(s.drop_first(), k)
    }
}

/// The keys of the nodes in turn, as repeated waits hand them out.
pub open spec fn due_keys<ID>(s: Seq<(ID, u64)>) -> Seq<ID>
    decreases s.len(),
{
    if s.len() == 0 {
        Seq::empty()
    } else {
        seq![s[0].0] + due_keys(after_due(s))
    }
}

/// For repeated waits, the time from the first wait's start at which each
/// key comes due.
pub open spec fn due_times<ID>(s: Seq<(ID, u64)>) -> Seq<int>
    decreases s.len(),
{
    if s.len() == 0 {
        Seq::empty()
    } else {
        seq![s[0].1 as int] + due_times(after_due(s)).map_values(|t: int| t + s[0].1)
    }
}

proof fn lemma_insert_pos<ID>(s: Seq<(ID, u64)>, n: (ID, u64))
    ensures
        0 <= insert_pos(s, n) <= s.len(),
        sorted_insert(s, n) == s.insert(insert_pos(s, n), n),
        forall|i: int| 0 <= i < insert_pos(s, n) ==> s[i].1 <= n.1,
        insert_pos(s, n) < s.len() ==> n.1 < s[insert_pos(s, n)].1,
    decreases s.len(),
{
    if s.len() == 0 || n.1 < s[0].1 {
        assert(sorted_insert(s, n) =~= s.insert(0, n));
    } else {
        let t = s.drop_first();
        lemma_insert_pos(t, n);
        let k = insert_pos(s, n);
        assert forall|i: int| 0 <= i < k implies s[i].1 <= n.1 by {
            if i > 0 {
                assert(s[i] == t[i - 1]);
            }
        }
        assert(sorted_insert(s, n) =~= s.insert(k, n));
    }
}

proof fn lemma_sorted_insert_sorted<ID>(s: Seq<(ID, u64)>, n: (ID, u64))
    requires
        sorted(s),
    ensures
        sorted(sorted_insert(s, n)),
        sorted_insert(s, n).to_multiset() == s.to_multiset().insert(n),
        sorted_insert(s, n).len() == s.len() + 1,
{
    lemma_insert_pos(s, n);
    let k = insert_pos(s, n);
    let r = s.insert(k, n);
    assert forall|i: int, j: int| 0 <= i <= j < r.len() implies #[trigger] r[i].1
        <= #[trigger] r[j].1 by {
        if j < k {
        } else if j == k {
        } else if i < k {
            assert(r[j] == s[j - 1]);
        } else if i == k {
            assert(r[j] == s[j - 1]);
            assert(s[k].1 <= s[j - 1].1);
        } else {
            assert(r[i] == s[i - 1]);
            assert(r[j] == s[j - 1]);
        }
    }
    vstd::seq_lib::to_multiset_insert(s, k, n);
}

proof fn lemma_schedule<ID>(es: Seq<(ID, u64)>)
    ensures
        sorted(schedule(es)),
        schedule(es).to_multiset() == es.to_multiset(),
    decreases es.len(),
{
    if es.len() > 0 {
        let init = es.drop_last();
        lemma_schedule(init);
        lemma_sorted_insert_sorted(schedule(init), es.last());
        assert(init.push(es.last()) == es);
        vstd::seq_lib::to_multiset_build(init, es.last());
    } else {
        assert(es =~= schedule(es));
    }
}

proof fn lemma_sorted_drain<ID>(s: Seq<(ID, u64)>)
    requires
        sorted(s),
    ensures
        due_keys(s) == s.map_values(|n: (ID, u64)| n.0),
        due_times(s) == s.map_values(|n: (ID, u64)| n.1 as int),
    decreases s.len(),
{
    if s.len() > 0 {
        let a = after_due(s);
        assert forall|i: int| 0 <= i < a.len() implies #[trigger] a[i] == (s[i + 1].0, (s[i + 1].1 - s[0].1) as u64) by {
            assert(s[0].1 <= s[i + 1].1);
        }
        assert(sorted(a)) by {
            assert forall|i: int, j: int| 0 <= i <= j < a.len() implies #[trigger] a[i].1
                <= #[trigger] a[j].1 by {
                assert(s[i + 1].1 <= s[j + 1].1);
            }
        }
        lemma_sorted_drain(a);
        assert(due_keys(s) =~= s.map_values(|n: (ID, u64)| n.0));
        assert(due_times(s) =~= s.map_values(|n: (ID, u64)| n.1 as int));
    }
}

/// For any sequence of pushes into an empty queue, repeated waits hand the
/// keys out in order of their delays, keys of equal delay in the order they
/// were pushed: exactly as a list kept sorted by delay, holding every pushed
/// node once, would. Each key comes due its own delay after the first wait
/// starts, so the due times never decrease.
pub proof fn lemma_due_order<ID>(es: Seq<(ID, u64)>)
    ensures
        sorted(schedule(es)),
        schedule(es).to_multiset() == es.to_multiset(),
        due_keys(schedule(es)) == schedule(es).map_values(|n: (ID, u64)| n.0),
        due_times(schedule(es)) == schedule(es).map_values(|n: (ID, u64)| n.1 as int),
        forall|i: int, j: int|
            0 <= i <= j < es.len() ==> #[trigger] due_times(schedule(es))[i] <= #[trigger] due_times(
                schedule(es),
            )[j],
{
    lemma_schedule(es);
    lemma_sorted_drain(schedule(es));
    assert(schedule(es).len() == es.len()) by {
        broadcast use vstd::seq_lib::group_to_multiset_ensures;
        assert(schedule(es).to_multiset().len() == schedule(es).len());
        assert(es.to_multiset().len() == es.len());
    }
}

/// A node pushed with a smaller delay than the current front becomes the
/// front, so it is the next key to come due, after its own, shorter delay.
pub proof fn lemma_push_preempts<ID>(s: Seq<(ID, u64)>, id: ID, t: u64)
    requires
        sorted(s),
        s.len() > 0,
        t < s[0].1,
    ensures
        sorted_insert(s, (id, t))[0] == (id, t),
        due_keys(sorted_insert(s, (id, t)))[0] == id,
        due_times(sorted_insert(s, (id, t)))[0] == t,
{
}

/// Pushing never replaces: a key that already has a node gets one more.
pub proof fn lemma_push_adds_node<ID>(s: Seq<(ID, u64)>, n: (ID, u64))
    ensures
        key_count(sorted_insert(s, n), n.0) == key_count(s, n.0) + 1,
    decreases s.len(),
{
    let r = sorted_insert(s, n);
    if s.len() == 0 {
        assert(r.drop_first() =~= Seq::<(ID, u64)>::empty());
        assert(key_count(r, n.0) == 1 + key_count(r.drop_first(), n.0));
    } else if n.1 < s[0].1 {
        assert(r.drop_first() =~= s);
        assert(key_count(r, n.0) == 1 + key_count(r.drop_first(), n.0));
    } else {
        let t = s.drop_first();
        lemma_push_adds_node(t, n);
        assert(r.drop_first() =~= sorted_insert(t, n));
        assert(r[0] == s[0]);
    }
}

/// A relative-time priority queue of keys. Each node holds the delay, in
/// milliseconds, until it is due, counted from the instant at which the last
/// node fired.
pub struct Watcher<ID> {
    pq: Vec<(ID, u64)>,
    change_chan: Sender<()>,
    pending: usize,
    wakes: Ghost<nat>,
}

impl<ID> View for Watcher<ID> {
    type V = Seq<(ID, u64)>;

    closed spec fn view(&self) -> Seq<(ID, u64)> {
        self.pq@
    }
}

impl<ID: Copy> Watcher<ID> {
    /// The queue is kept in order of delay.
    pub closed spec fn wf(&self) -> bool {
        sorted(self.pq@)
    }

    /// How many waits are outstanding.
    pub closed spec fn waiters(&self) -> nat {
        self.pending as nat
    }

    /// How many change messages have been sent to waiters so far.
    pub closed spec fn wakeups(&self) -> nat {
        self.wakes@
    }

    pub fn new() -> (r: Self)
        ensures
            r.wf(),
            r@ == Seq::<(ID, u64)>::empty(),
            r.waiters() == 0,
            r.wakeups() == 0,
    {
        Watcher { pq: Vec::new(), change_chan: change_channel(), pending: 0, wakes: Ghost(0) }
    }

    /// Inserts a node keeping the order; returns where it went.
    fn insert_sorted(&mut self, id: ID, timer: u64) -> (k: usize)
        requires
            old(self).wf(),
        ensures
            final(self).wf(),
            final(self)@ == sorted_insert(old(self)@, (id, timer)),
            final(self).waiters() == old(self).waiters(),
            final(self).wakeups() == old(self).wakeups(),
            k == 0 <==> (old(self)@.len() == 0 || timer < old(self)@[0].1),
    {
        let n = self.pq.len();
        let mut k: usize = 0;
        while k < n && self.pq[k].1 <= timer
            invariant
                n == self.pq@.len(),
                k <= n,
                forall|i: int| 0 <= i < k ==> self.pq@[i].1 <= timer,
            decreases n - k,
        {
            k = k + 1;
        }
        proof {
            lemma_insert_pos(self.pq@, (id, timer));
            lemma_sorted_insert_sorted(self.pq@, (id, timer));
        }
        self.pq.insert(k, (id, timer));
        k
    }

    /// Queues `id` to be due after `timer` milliseconds. A key already queued
    /// gets a second node. When the new node lands at the front while a wait
    /// is outstanding, the waiter is woken so that it restarts on it.
    pub fn push(&mut self, id: ID, timer: u64)
        requires
            old(self).wf(),
        ensures
            final(self).wf(),
            final(self)@ == sorted_insert(old(self)@, (id, timer)),
            final(self).waiters() == old(self).waiters(),
            final(self).wakeups() == old(self).wakeups() + if old(self).waiters() > 0 && (old(
                self,
            )@.len() == 0 || timer < old(self)@[0].1) {
                1nat
            } else {
                0nat
            },
    {
        let k = self.insert_sorted(id, timer);
        if k == 0 && self.pending > 0 {
            announce_change(&self.change_chan);
            self.wakes = Ghost(self.wakes@ + 1);
        }
    }

    /// The key at the front of the queue.
    pub fn peek(&self) -> (r: Option<ID>)
        ensures
            self@.len() == 0 ==> r is None,
            self@.len() > 0 ==> r == Some(self@[0].0),
    {
        if self.pq.len() == 0 {
            None
        } else {
            Some(self.pq[0].0)
        }
    }

    /// The delay of the node at the front of the queue.
    pub fn front_delay(&self) -> (r: Option<u64>)
        ensures
            self@.len() == 0 ==> r is None,
            self@.len() > 0 ==> r == Some(self@[0].1),
    {
        if self.pq.len() == 0 {
            None
        } else {
            Some(self.pq[0].1)
        }
    }

    /// Removes the front node without touching the delays of the others, and
    /// wakes an outstanding waiter.
    pub fn pop(&mut self) -> (r: Option<ID>)
        requires
            old(self).wf(),
        ensures
            final(self).wf(),
            final(self).waiters() == old(self).waiters(),
            old(self)@.len() == 0 ==> r is None && final(self)@ == old(self)@ && final(self).wakeups()
                == old(self).wakeups(),
            old(self)@.len() > 0 ==> r == Some(old(self)@[0].0) && final(self)@
                == old(self)@.drop_first() && final(self).wakeups() == old(self).wakeups() + 1,
    {
        if self.pq.len() == 0 {
            None
        } else {
            let front = self.pq.remove(0);
            assert(sorted(self.pq@)) by {
                assert forall|i: int, j: int| 0 <= i <= j < self.pq@.len() implies #[trigger] self.pq@[i].1
                    <= #[trigger] self.pq@[j].1 by {
                    assert(self.pq@[i] == old(self).pq@[i + 1]);
                    assert(self.pq@[j] == old(self).pq@[j + 1]);
                }
            }
            assert(self.pq@ =~= old(self)@.drop_first());
            announce_change(&self.change_chan);
            self.wakes = Ghost(self.wakes@ + 1);
            Some(front.0)
        }
    }

    /// Registers a wait for the front node. The receiver is woken when a
    /// node is pushed ahead of the one being waited for.
    pub fn begin_wait(&mut self) -> (r: Receiver<()>)
        requires
            old(self).wf(),
        ensures
            final(self).wf(),
            final(self)@ == old(self)@,
            final(self).wakeups() == old(self).wakeups(),
            final(self).waiters() == if old(self).waiters() < usize::MAX {
                old(self).waiters() + 1
            } else {
                old(self).waiters()
            },
    {
        if self.pending < usize::MAX {
            self.pending = self.pending + 1;
        }
        subscribe_changes(&self.change_chan)
    }

    /// Ends a wait: the front node has become due. It is removed and its key
    /// returned, and every other delay is counted from now, that is reduced
    /// by the delay of the removed node, never below zero. On an empty queue
    /// nothing is due and the wait ends with `None`.
    pub fn take_due(&mut self) -> (r: Option<ID>)
        requires
            old(self).wf(),
        ensures
            final(self).wf(),
            final(self).wakeups() == old(self).wakeups(),
            final(self).waiters() == if old(self).waiters() > 0 {
                old(self).waiters() - 1
            } else {
                0
            },
            old(self)@.len() == 0 ==> r is None && final(self)@ == old(self)@,
            old(self)@.len() > 0 ==> {
                &&& r == Some(old(self)@[0].0)
                &&& final(self)@ == after_due(old(self)@)
                &&& final(self)@.len() == old(self)@.len() - 1
                &&& forall|i: int|
                    0 <= i < final(self)@.len() ==> #[trigger] final(self)@[i] == (
                        old(self)@[i + 1].0,
                        rebase(old(self)@[i + 1].1, old(self)@[0].1),
                    )
            },
    {
        if self.pending > 0 {
            self.pending = self.pending - 1;
        }
        if self.pq.len() == 0 {
            return None;
        }
        let ghost s = self.pq@;
        let front = self.pq.remove(0);
        let d = front.1;
        let n = self.pq.len();
        let mut i: usize = 0;
        while i < n
            invariant
                s == old(self).pq@,
                self.wakes == old(self).wakes,
                s.len() == n + 1,
                d == s[0].1,
                self.pq@.len() == n,
                i <= n,
                self.pending as nat == if old(self).pending > 0 {
                    old(self).pending - 1
                } else {
                    0
                },
                forall|j: int| 0 <= j < i ==> #[trigger] self.pq@[j] == (s[j + 1].0, rebase(s[j + 1].1, d)),
                forall|j: int| i <= j < n ==> #[trigger] self.pq@[j] == s[j + 1],
            decreases n - i,
        {
            let node = self.pq[i];
            let t = if node.1 < d { 0 } else { node.1 - d };
            self.pq.set(i, (node.0, t));
            i = i + 1;
        }
        proof {
            assert(self.pq@ =~= after_due(s));
            assert forall|a: int, b: int| 0 <= a <= b < self.pq@.len() implies #[trigger] self.pq@[a].1
                <= #[trigger] self.pq@[b].1 by {
                assert(self.pq@[a] == (s[a + 1].0, rebase(s[a + 1].1, d)));
                assert(self.pq@[b] == (s[b + 1].0, rebase(s[b + 1].1, d)));
                assert(s[a + 1].1 <= s[b + 1].1);
            }
        }
        Some(front.0)
    }

    /// Builds a queue from entries, as if each were pushed in turn.
    pub fn from_iter(entries: Vec<(ID, u64)>) -> (r: Self)
        ensures
            r.wf(),
            r@ == schedule(entries@),
            r.waiters() == 0,
    {
        let mut w = Watcher::new();
        let mut i: usize = 0;
        while i < entries.len()
            invariant
                i <= entries@.len(),
                w.wf(),
                w.waiters() == 0,
                w@ == schedule(entries@.take(i as int)),
            decreases entries@.len() - i,
        {
            let e = entries[i];
            w.insert_sorted(e.0, e.1);
            assert(entries@.take(i + 1).drop_last() =~= entries@.take(i as int));
            i = i + 1;
        }
        assert(entries@.take(entries@.len() as int) =~= entries@);
        w
    }
}

} // verus!
