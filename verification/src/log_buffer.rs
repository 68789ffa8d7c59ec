use std::collections::VecDeque;
use vstd::prelude::*;

verus! {

/// Append-only log store holding at most a fixed number of lines.
/// Once the capacity is reached, appending a new line first evicts the
/// oldest one (FIFO eviction).
pub struct BoundedLogBuffer {
    lines: VecDeque<String>,
    capacity: usize,
}

/// One append into a buffer of capacity `cap` that currently holds `s`:
/// the new line goes to the end, and the oldest line is evicted first
/// when the buffer is full.
pub open spec fn evict_push(s: Seq<String>, line: String, cap: int) -> Seq<String> {
    if s.len() < cap {
        s.push(line)
    } else {
        s.skip(1).push(line)
    }
}

/// Appending each line of `ls`, in order, into a buffer of capacity `cap`
/// that currently holds `s`.
pub open spec fn evict_push_all(s: Seq<String>, ls: Seq<String>, cap: int) -> Seq<String>
    decreases ls.len(),
{
    if ls.len() == 0 {
        s
    } else {
        evict_push_all(evict_push(s, ls[0], cap), ls.skip(1), cap)
    }
}

impl BoundedLogBuffer {
    /// The retained lines, oldest first.
    pub closed spec fn contents(&self) -> Seq<String> {
        self.lines@
    }

    /// The fixed capacity chosen at construction.
    pub closed spec fn cap(&self) -> int {
        self.capacity as int
    }

    pub open spec fn wf(&self) -> bool {
        &&& 1 <= self.cap()
        &&& self.contents().len() <= self.cap()
    }

    pub fn new(capacity: usize) -> (buffer: BoundedLogBuffer)
        requires
            1 <= capacity,
        ensures
            buffer.wf(),
            buffer.cap() == capacity,
            buffer.contents() == Seq::<String>::empty(),
    {
        BoundedLogBuffer { lines: VecDeque::new(), capacity }
    }

    /// Adds `line` at the end; if the buffer is full, the oldest line is
    /// evicted first.
    pub fn append(&mut self, line: String)
        requires
            old(self).wf(),
        ensures
            final(self).wf(),
            final(self).cap() == old(self).cap(),
            final(self).contents() == evict_push(old(self).contents(), line, old(self).cap()),
    {
        if self.lines.len() == self.capacity {
            let _ = self.lines.pop_front();
            proof {
                assert(self.lines@ =~= old(self).contents().skip(1));
            }
        }
        self.lines.push_back(line);
    }

    /// An ordered copy of the current contents, oldest first.
    pub fn snapshot(&self) -> (lines: Vec<String>)
        ensures
            lines@ == self.contents(),
    {
        let mut lines: Vec<String> = Vec::new();
        let mut i: usize = 0;
        while i < self.lines.len()
            invariant
                i <= self.contents().len(),
                lines@ =~= self.contents().subrange(0, i as int),
            decreases self.contents().len() - i,
        {
            lines.push(self.lines[i].clone());
            i = i + 1;
        }
        proof {
            assert(lines@ =~= self.contents());
        }
        lines
    }

    /// The number of retained lines.
    pub fn len(&self) -> (n: usize)
        ensures
            n == self.contents().len(),
    {
        self.lines.len()
    }
}

/// Law: a bounded buffer retains exactly the most recent lines. After
/// appending the lines of `ls`, in order, to a buffer of capacity `cap`
/// holding `s`, the contents are the last `cap` lines of `s + ls` (all of
/// them when `s + ls` has no more than `cap` lines), oldest evicted first.
pub proof fn lemma_retains_most_recent(s: Seq<String>, ls: Seq<String>, cap: int)
    requires
        1 <= cap,
        s.len() <= cap,
    ensures
        evict_push_all(s, ls, cap) == (s + ls).skip(
            if s.len() + ls.len() > cap {
                s.len() + ls.len() - cap
            } else {
                0
            },
        ),
    decreases ls.len(),
{
    if ls.len() == 0 {
        assert((s + ls).skip(0) =~= s);
    } else {
        let s1 = evict_push(s, ls[0], cap);
        lemma_retains_most_recent(s1, ls.skip(1), cap);
        let drop1 = if s1.len() + ls.skip(1).len() > cap {
            s1.len() + ls.skip(1).len() - cap
        } else {
            0
        };
        if s.len() < cap {
            assert(s1 + ls.skip(1) =~= s + ls);
        } else {
            assert(s1 + ls.skip(1) =~= (s + ls).skip(1));
            assert((s + ls).skip(1).skip(drop1) =~= (s + ls).skip(1 + drop1));
        }
    }
}

} // verus!
