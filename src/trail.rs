use std::collections::VecDeque;
use vstd::prelude::*;

use crate::geometry::{behind_dx, behind_dy, in_reach, segment_position, Config, Direction, Point};

verus! {

/// Identifier of a body that lives in the rendering and physics substrate.
/// The library never looks inside it; it only hands it back.
#[derive(Clone, Copy, Debug, PartialEq, Eq, Structural)]
pub struct EntityId {
    pub bits: u64,
}

/// One static wall block of a trail.
#[derive(Clone, Copy, Debug, PartialEq, Eq, Structural)]
pub struct Segment {
    pub handle: EntityId,
    pub pos: Point,
}

/// The segments after one more is laid: the newest goes to the front, and
/// where the trail is full the oldest, at the back, leaves first.
pub open spec fn grown(segs: Seq<Segment>, cap: nat, s: Segment) -> Seq<Segment> {
    if segs.len() >= cap {
        seq![s] + segs.drop_last()
    } else {
        seq![s] + segs
    }
}

/// The segments after each of `news` is laid, in order.
pub open spec fn grown_all(segs: Seq<Segment>, cap: nat, news: Seq<Segment>) -> Seq<Segment>
    decreases news.len(),
{
    if news.len() == 0 {
        segs
    } else {
        grown(grown_all(segs, cap, news.drop_last()), cap, news.last())
    }
}

/// The segments a vehicle has left behind, newest first, never more than
/// `capacity` of them.
pub struct Trail {
    segments: VecDeque<Segment>,
    capacity: usize,
}

impl Trail {
    pub closed spec fn segs(&self) -> Seq<Segment> {
        self.segments@
    }

    pub closed spec fn cap(&self) -> nat {
        self.capacity as nat
    }

    pub open spec fn wf(&self) -> bool {
        &&& self.cap() >= 1
        &&& self.segs().len() <= self.cap()
    }

    /// An empty trail that keeps at most `capacity` segments.
    pub fn new(capacity: usize) -> (r: Trail)
        requires
            capacity >= 1,
        ensures
            r.wf(),
            r.segs() == Seq::<Segment>::empty(),
            r.cap() == capacity,
    {
        Trail { segments: VecDeque::new(), capacity }
    }

    pub fn len(&self) -> (r: usize)
        ensures
            r == self.segs().len(),
    {
        self.segments.len()
    }

    pub fn capacity(&self) -> (r: usize)
        ensures
            r == self.cap(),
    {
        self.capacity
    }

    /// The `i`-th segment, counted from the newest.
    pub fn get(&self, i: usize) -> (r: Option<Segment>)
        ensures
            i < self.segs().len() ==> r == Some(self.segs()[i as int]),
            i >= self.segs().len() ==> r is None,
    {
        if i < self.segments.len() {
            Some(self.segments[i])
        } else {
            None
        }
    }

    /// The segments, newest first.
    pub fn segments(&self) -> (r: Vec<Segment>)
        ensures
            r@ == self.segs(),
    {
        let mut out: Vec<Segment> = Vec::new();
        let n = self.segments.len();
        let mut i: usize = 0;
        while i < n
            invariant
                n == self.segs().len(),
                i <= n,
                out@ == self.segs().subrange(0, i as int),
            decreases n - i,
        {
            out.push(self.segments[i]);
            i = i + 1;
            proof {
                assert(out@ =~= self.segs().subrange(0, i as int));
            }
        }
        assert(out@ =~= self.segs());
        out
    }

    /// Lays a segment with the given handle behind a vehicle at `head`
    /// heading `d`. Where the trail is full, the oldest segment is removed
    /// first and handed back, so that its body can be destroyed.
    pub fn grow(&mut self, head: Point, d: Direction, c: &Config, handle: EntityId) -> (evicted:
        Option<Segment>)
        requires
            old(self).wf(),
            c.wf(),
            in_reach(head),
        ensures
            final(self).wf(),
            final(self).cap() == old(self).cap(),
            ({
                let s = Segment { handle, pos: Point { x: (head.x + behind_dx(d, *c)) as i64, y: (head.y + behind_dy(d, *c)) as i64 } };
                final(self).segs() == grown(old(self).segs(), old(self).cap(), s)
            }),
            old(self).segs().len() == old(self).cap() ==> evicted == Some(old(self).segs().last()),
            old(self).segs().len() < old(self).cap() ==> evicted is None,
    {
        let mut evicted: Option<Segment> = None;
        if self.segments.len() == self.capacity {
            evicted = self.segments.pop_back();
        }
        let pos = segment_position(head, d, c);
        self.segments.push_front(Segment { handle, pos });
        evicted
    }
}

/// However many segments are laid, a trail never holds more than its
/// capacity: it grows by one per segment until it is full, and from then on
/// keeps its length, one old segment leaving for each new one.
pub proof fn lemma_trail_bound(segs: Seq<Segment>, cap: nat, news: Seq<Segment>)
    requires
        cap >= 1,
        segs.len() <= cap,
    ensures
        grown_all(segs, cap, news).len() <= cap,
        segs.len() + news.len() <= cap ==> grown_all(segs, cap, news).len() == segs.len() + news.len(),
        segs.len() + news.len() > cap ==> grown_all(segs, cap, news).len() == cap,
    decreases news.len(),
{
    if news.len() > 0 {
        lemma_trail_bound(segs, cap, news.drop_last());
    }
}

/// Laying one segment on a full trail removes exactly its oldest segment and
/// keeps the others, in order, behind the new one.
pub proof fn lemma_one_in_one_out(segs: Seq<Segment>, cap: nat, s: Segment)
    requires
        cap >= 1,
        segs.len() == cap,
    ensures
        grown(segs, cap, s).len() == cap,
        grown(segs, cap, s)[0] == s,
        forall|i: int| 1 <= i < cap ==> grown(segs, cap, s)[i] == segs[i - 1],
{
}

} // verus!
