use vstd::prelude::*;

use crate::geometry::Position;

verus! {

/// One unit of the snake: a position and the identifier of its visual
/// representation, which only the presentation layer interprets.
#[derive(Clone, Copy, Debug, PartialEq, Eq, Structural)]
pub struct Segment {
    pub pos: Position,
    pub handle: u64,
}

/// The positions of a sequence of segments.
pub open spec fn positions_of(s: Seq<Segment>) -> Seq<Position> {
    s.map_values(|seg: Segment| seg.pos)
}

/// The handles of a sequence of segments.
pub open spec fn handles_of(s: Seq<Segment>) -> Seq<u64> {
    s.map_values(|seg: Segment| seg.handle)
}

pub open spec fn has_handle(s: Seq<Segment>, h: u64) -> bool {
    exists|i: int| 0 <= i < s.len() && s[i].handle == h
}

/// No two segments share a handle.
pub open spec fn handles_distinct(s: Seq<Segment>) -> bool {
    forall|i: int, j: int| 0 <= i < s.len() && 0 <= j < s.len() && i != j ==> s[i].handle != s[j].handle
}

/// One step of movement along the chain: each segment takes the position that
/// the segment ahead of it held, the first one takes `lead`, and every segment
/// keeps its handle.
pub open spec fn shifted(s: Seq<Segment>, lead: Position) -> Seq<Segment> {
    Seq::new(
        s.len(),
        |i: int| Segment { pos: if i == 0 { lead } else { s[i - 1].pos }, handle: s[i].handle },
    )
}

/// The snake's trailing body, ordered from the segment nearest the head to
/// the tail.
pub struct SegmentList {
    segments: Vec<Segment>,
}

impl View for SegmentList {
    type V = Seq<Segment>;

    closed spec fn view(&self) -> Seq<Segment> {
        self.segments@
    }
}

impl SegmentList {
    pub open spec fn wf(&self) -> bool {
        handles_distinct(self@)
    }

    pub fn new() -> (r: SegmentList)
        ensures
            r@ == Seq::<Segment>::empty(),
            r.wf(),
    {
        SegmentList { segments: Vec::new() }
    }

    pub fn len(&self) -> (r: usize)
        ensures
            r == self@.len(),
    {
        self.segments.len()
    }

    pub fn is_empty(&self) -> (r: bool)
        ensures
            r == (self@.len() == 0),
    {
        self.segments.len() == 0
    }

    pub fn get(&self, i: usize) -> (r: Segment)
        requires
            i < self@.len(),
        ensures
            r == self@[i as int],
    {
        self.segments[i]
    }

    /// Tests whether some segment carries the handle `h`.
    pub fn contains_handle(&self, h: u64) -> (r: bool)
        ensures
            r == has_handle(self@, h),
    {
        let mut i: usize = 0;
        while i < self.segments.len()
            invariant
                i <= self@.len(),
                forall|k: int| 0 <= k < i ==> self@[k].handle != h,
            decreases self@.len() - i,
        {
            if self.segments[i].handle == h {
                return true;
            }
            i = i + 1;
        }
        false
    }

    /// Appends a segment at the tail. The handle must be new to the list.
    pub fn push_back(&mut self, pos: Position, handle: u64)
        requires
            old(self).wf(),
            !has_handle(old(self)@, handle),
        ensures
            final(self)@ == old(self)@.push(Segment { pos, handle }),
            final(self).wf(),
    {
        self.segments.push(Segment { pos, handle });
        proof {
            let s = self@;
            assert forall|i: int, j: int|
                0 <= i < s.len() && 0 <= j < s.len() && i != j implies s[i].handle != s[j].handle by {
                if i == s.len() - 1 {
                    assert(old(self)@[j].handle == s[j].handle);
                } else if j == s.len() - 1 {
                    assert(old(self)@[i].handle == s[i].handle);
                }
            }
        }
    }

    /// The position of the last segment, if there is one.
    pub fn tail_position(&self) -> (r: Option<Position>)
        ensures
            self@.len() == 0 ==> r is None,
            self@.len() > 0 ==> r == Some(self@.last().pos),
    {
        if self.segments.len() == 0 {
            None
        } else {
            Some(self.segments[self.segments.len() - 1].pos)
        }
    }

    /// Moves the chain one step: the first segment takes `lead`, each other
    /// segment takes the position that the segment ahead of it held before the
    /// call. The old tail position is dropped.
    pub fn shift_from(&mut self, lead: Position)
        requires
            old(self).wf(),
        ensures
            final(self)@ == shifted(old(self)@, lead),
            final(self).wf(),
    {
        let ghost before = self@;
        let mut carry = lead;
        let mut i: usize = 0;
        while i < self.segments.len()
            invariant
                i <= self@.len(),
                self@.len() == before.len(),
                i == 0 ==> carry == lead,
                i > 0 ==> carry == before[i - 1].pos,
                forall|k: int| 0 <= k < i ==> #[trigger] self@[k] == shifted(before, lead)[k],
                forall|k: int| i <= k < self@.len() ==> #[trigger] self@[k] == before[k],
            decreases self@.len() - i,
        {
            let seg = self.segments[i];
            self.segments.set(i, Segment { pos: carry, handle: seg.handle });
            carry = seg.pos;
            i = i + 1;
        }
        proof {
            assert(self@ =~= shifted(before, lead));
            assert forall|a: int, b: int|
                0 <= a < self@.len() && 0 <= b < self@.len() && a != b implies self@[a].handle
                != self@[b].handle by {
                assert(self@[a].handle == before[a].handle);
                assert(self@[b].handle == before[b].handle);
            }
        }
    }

    /// The handles of all segments, front to back.
    pub fn handles(&self) -> (r: Vec<u64>)
        ensures
            r@ == handles_of(self@),
    {
        let mut out: Vec<u64> = Vec::new();
        let mut i: usize = 0;
        while i < self.segments.len()
            invariant
                i <= self@.len(),
                out@ == handles_of(self@.take(i as int)),
            decreases self@.len() - i,
        {
            out.push(self.segments[i].handle);
            proof {
                assert(self@.take(i + 1) =~= self@.take(i as int).push(self@[i as int]));
            }
            i = i + 1;
        }
        proof {
            assert(self@.take(self@.len() as int) =~= self@);
        }
        out
    }
}

} // verus!
