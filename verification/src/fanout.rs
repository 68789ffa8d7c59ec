use std::collections::VecDeque;
use vstd::prelude::*;

verus! {

/// Receive queue of one subscriber. `cursor` is the position in the publish
/// history of the next line this subscriber can receive; everything queued
/// is the suffix of the history starting there.
struct Subscriber {
    queue: VecDeque<String>,
    open: bool,
    cursor: Ghost<int>,
}

/// Multi-subscriber fan-out point for log lines. Every open subscriber
/// receives the lines published after it subscribed, in publish order,
/// through a bounded queue of its own: when that queue is full, its oldest
/// pending line is dropped so that publishing never blocks or fails.
pub struct LogBroadcaster {
    subs: Vec<Subscriber>,
    capacity: usize,
    history: Ghost<Seq<String>>,
}

impl LogBroadcaster {
    /// Every line ever published, in publish order.
    pub closed spec fn history(&self) -> Seq<String> {
        self.history@
    }

    /// The bound on each subscriber's pending queue.
    pub closed spec fn cap(&self) -> int {
        self.capacity as int
    }

    /// Number of subscriber handles handed out so far (open or closed).
    pub closed spec fn sub_count(&self) -> int {
        self.subs@.len() as int
    }

    pub closed spec fn is_open(&self, id: int) -> bool {
        self.subs@[id].open
    }

    /// The lines pending for subscriber `id`, oldest first.
    pub closed spec fn pending(&self, id: int) -> Seq<String> {
        self.subs@[id].queue@
    }

    /// Position in the publish history of the next line subscriber `id`
    /// can receive.
    pub closed spec fn cursor(&self, id: int) -> int {
        self.subs@[id].cursor@
    }

    pub open spec fn sub_wf(&self, id: int) -> bool {
        &&& 0 <= self.cursor(id)
        &&& self.cursor(id) + self.pending(id).len() == self.history().len()
        &&& self.pending(id) == self.history().skip(self.cursor(id))
        &&& self.pending(id).len() <= self.cap()
    }

    pub open spec fn wf(&self) -> bool {
        &&& 1 <= self.cap()
        &&& forall|id: int|
            0 <= id < self.sub_count() && self.is_open(id) ==> self.sub_wf(id)
    }

    pub fn new(capacity: usize) -> (broadcaster: LogBroadcaster)
        requires
            1 <= capacity,
        ensures
            broadcaster.wf(),
            broadcaster.cap() == capacity,
            broadcaster.sub_count() == 0,
            broadcaster.history() == Seq::<String>::empty(),
    {
        LogBroadcaster { subs: Vec::new(), capacity, history: Ghost(Seq::empty()) }
    }

    /// Registers a new subscriber and returns its handle. The subscriber
    /// starts with an empty queue: it observes only lines published from
    /// this point forward, never the backlog.
    pub fn subscribe(&mut self) -> (id: usize)
        requires
            old(self).wf(),
        ensures
            final(self).wf(),
            id == old(self).sub_count(),
            final(self).sub_count() == old(self).sub_count() + 1,
            final(self).is_open(id as int),
            final(self).pending(id as int) == Seq::<String>::empty(),
            final(self).cursor(id as int) == old(self).history().len(),
            final(self).history() == old(self).history(),
            final(self).cap() == old(self).cap(),
            forall|other: int|
                0 <= other < old(self).sub_count() ==> final(self).sub_unchanged(
                    *old(self),
                    other,
                ),
    {
        let id = self.subs.len();
        let cursor: Ghost<int> = Ghost(self.history@.len() as int);
        self.subs.push(Subscriber { queue: VecDeque::new(), open: true, cursor });
        proof {
            assert forall|sid: int|
                0 <= sid < self.sub_count() && self.is_open(sid) implies self.sub_wf(sid) by {
                if sid < id {
                    assert(self.subs@[sid] == old(self).subs@[sid]);
                    assert(old(self).sub_wf(sid));
                } else {
                    assert(self.pending(sid) =~= self.history().skip(self.cursor(sid)));
                }
            }
        }
        id
    }

    /// Subscriber `id` has the same queue, cursor and open flag in `self`
    /// as in `other`.
    pub open spec fn sub_unchanged(&self, other: LogBroadcaster, id: int) -> bool {
        &&& self.is_open(id) == other.is_open(id)
        &&& self.pending(id) == other.pending(id)
        &&& self.cursor(id) == other.cursor(id)
    }

    /// Delivers `line` to every open subscriber. A subscriber whose queue
    /// is full loses its oldest pending line — only that subscriber is
    /// affected, and the publisher itself never waits or fails. With no
    /// subscribers the line is simply recorded as published and discarded.
    pub fn publish(&mut self, line: String)
        requires
            old(self).wf(),
        ensures
            final(self).wf(),
            final(self).history() == old(self).history().push(line),
            final(self).sub_count() == old(self).sub_count(),
            final(self).cap() == old(self).cap(),
            forall|id: int|
                0 <= id < old(self).sub_count() ==> final(self).is_open(id) == old(self).is_open(id),
            forall|id: int|
                0 <= id < old(self).sub_count() && !old(self).is_open(id) ==> final(self).pending(id) == old(self).pending(id),
            forall|id: int|
                0 <= id < old(self).sub_count() && old(self).is_open(id) ==> final(self).pending(id) == (if old(self).pending(id).len() < old(self).cap() {
                    old(self).pending(id).push(line)
                } else {
                    old(self).pending(id).skip(1).push(line)
                }),
    {
        let ghost pre = *self;
        let mut i: usize = 0;
        while i < self.subs.len()
            invariant
                pre.wf(),
                i <= self.subs@.len(),
                self.subs@.len() == pre.sub_count(),
                self.capacity == pre.capacity,
                self.history@ == pre.history(),
                forall|id: int| i <= id < pre.sub_count() ==> self.subs@[id] == pre.subs@[id],
                forall|id: int|
                    0 <= id < i ==> self.is_open(id) == pre.is_open(id) && self.cursor(id)
                        == (if pre.is_open(id) && pre.pending(id).len() >= pre.cap() {
                        pre.cursor(id) + 1
                    } else {
                        pre.cursor(id)
                    }),
                forall|id: int| 0 <= id < i && !pre.is_open(id) ==> self.pending(id) == pre.pending(id),
                forall|id: int|
                    0 <= id < i && pre.is_open(id) ==> self.pending(id) == (if pre.pending(
                        id,
                    ).len() < pre.cap() {
                        pre.pending(id).push(line)
                    } else {
                        pre.pending(id).skip(1).push(line)
                    }),
            decreases self.subs@.len() - i,
        {
            if self.subs[i].open {
                if self.subs[i].queue.len() >= self.capacity {
                    let sub = &mut self.subs[i];
                    let _ = sub.queue.pop_front();
                    sub.cursor = Ghost(sub.cursor@ + 1);
                    proof {
                        assert(self.subs@[i as int].queue@ =~= pre.pending(i as int).skip(1));
                    }
                }
                let sub = &mut self.subs[i];
                sub.queue.push_back(line.clone());
            }
            i = i + 1;
        }
        self.history = Ghost(self.history@.push(line));
        proof {
            assert forall|id: int|
                0 <= id < self.sub_count() && self.is_open(id) implies self.sub_wf(id) by {
                assert(pre.is_open(id) ==> pre.sub_wf(id));
                assert(self.pending(id) =~= self.history().skip(self.cursor(id)));
            }
        }
    }

    /// Takes the oldest pending line for subscriber `id`, or `None` when
    /// nothing is pending (or the subscriber is closed). Lines arrive in
    /// publish order: the line returned is the one at the subscriber's
    /// cursor in the publish history.
    pub fn recv(&mut self, id: usize) -> (line: Option<String>)
        requires
            old(self).wf(),
            id < old(self).sub_count(),
        ensures
            final(self).wf(),
            final(self).history() == old(self).history(),
            final(self).sub_count() == old(self).sub_count(),
            final(self).cap() == old(self).cap(),
            forall|other: int|
                0 <= other < old(self).sub_count() && other != id ==> final(self).sub_unchanged(
                    *old(self),
                    other,
                ),
            final(self).is_open(id as int) == old(self).is_open(id as int),
            old(self).is_open(id as int) && old(self).pending(id as int).len() > 0 ==> {
                &&& line == Some(old(self).pending(id as int)[0])
                &&& line == Some(old(self).history()[old(self).cursor(id as int)])
                &&& final(self).pending(id as int) == old(self).pending(id as int).skip(1)
                &&& final(self).cursor(id as int) == old(self).cursor(id as int) + 1
            },
            !(old(self).is_open(id as int) && old(self).pending(id as int).len() > 0) ==> {
                &&& line is None
                &&& final(self).sub_unchanged(*old(self), id as int)
            },
    {
        proof {
            assert(old(self).is_open(id as int) ==> old(self).sub_wf(id as int));
        }
        if !self.subs[id].open {
            return None;
        }
        let sub = &mut self.subs[id];
        let taken = sub.queue.pop_front();
        if taken.is_some() {
            sub.cursor = Ghost(sub.cursor@ + 1);
        }
        proof {
            if old(self).pending(id as int).len() > 0 {
                assert(self.pending(id as int) =~= old(self).pending(id as int).skip(1));
                assert(self.pending(id as int) =~= self.history().skip(self.cursor(id as int)));
            }
            assert forall|sid: int|
                0 <= sid < self.sub_count() && self.is_open(sid) implies self.sub_wf(sid) by {
                if sid != id {
                    assert(self.subs@[sid] == old(self).subs@[sid]);
                    assert(old(self).sub_wf(sid));
                }
            }
        }
        taken
    }

    /// Closes subscriber `id`: its pending lines are discarded and later
    /// publishes no longer reach it. Publishing to a closed subscriber is
    /// a no-op, not an error.
    pub fn unsubscribe(&mut self, id: usize)
        requires
            old(self).wf(),
            id < old(self).sub_count(),
        ensures
            final(self).wf(),
            final(self).history() == old(self).history(),
            final(self).sub_count() == old(self).sub_count(),
            final(self).cap() == old(self).cap(),
            !final(self).is_open(id as int),
            final(self).pending(id as int) == Seq::<String>::empty(),
            forall|other: int|
                0 <= other < old(self).sub_count() && other != id ==> final(self).sub_unchanged(
                    *old(self),
                    other,
                ),
    {
        let sub = &mut self.subs[id];
        sub.open = false;
        sub.queue.clear();
        proof {
            assert forall|sid: int|
                0 <= sid < self.sub_count() && self.is_open(sid) implies self.sub_wf(sid) by {
                assert(self.subs@[sid] == old(self).subs@[sid]);
                assert(old(self).sub_wf(sid));
            }
        }
    }

    /// The number of subscriber handles handed out so far.
    pub fn subscriber_count(&self) -> (n: usize)
        ensures
            n == self.sub_count(),
    {
        self.subs.len()
    }
}

/// Law: no backlog replay. For a well-formed broadcaster, everything pending
/// for an open subscriber is exactly the suffix of the publish history that
/// starts at the subscriber's cursor: every line it can still receive was
/// published at or after that cursor, in publish order. Since `subscribe`
/// sets the cursor to the length of the history at subscription time and no
/// operation ever moves a cursor backwards, a subscriber that joins after
/// `n` lines were published receives only lines published after those `n`,
/// never any of the first `n`.
pub proof fn lemma_no_backlog_replay(broadcaster: &LogBroadcaster, id: int)
    requires
        broadcaster.wf(),
        0 <= id < broadcaster.sub_count(),
        broadcaster.is_open(id),
    ensures
        broadcaster.pending(id) == broadcaster.history().skip(broadcaster.cursor(id)),
        forall|k: int|
            0 <= k < broadcaster.pending(id).len() ==> broadcaster.pending(id)[k]
                == broadcaster.history()[broadcaster.cursor(id) + k],
{
    assert(broadcaster.sub_wf(id));
    assert forall|k: int| 0 <= k < broadcaster.pending(id).len() implies broadcaster.pending(id)[k]
        == broadcaster.history()[broadcaster.cursor(id) + k] by {
        assert(broadcaster.pending(id)[k] == broadcaster.history().skip(broadcaster.cursor(id))[k]);
    }
}

} // verus!
