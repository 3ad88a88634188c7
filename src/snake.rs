use vstd::prelude::*;

use crate::body::{handles_distinct, has_handle, shifted, Segment, SegmentList};
use crate::config::{MOVE_COOLDOWN_MICROS, START_X, START_Y, STEP_SIZE};
use crate::geometry::Position;

verus! {

/// A one-shot timer that gates movement: it fires once `interval`
/// microseconds have accumulated, and then starts again from zero.
#[derive(Clone, Copy, Debug, PartialEq, Eq, Structural)]
pub struct Cooldown {
    pub interval: u64,
    pub elapsed: u64,
}

impl Cooldown {
    pub open spec fn wf(self) -> bool {
        self.interval > 0 && self.elapsed < self.interval
    }

    /// Adding `delta` reaches the interval.
    pub open spec fn fires(self, delta: u64) -> bool {
        self.elapsed + delta >= self.interval
    }

    /// The timer after `delta` microseconds: reset when it fired, else advanced.
    pub open spec fn after(self, delta: u64) -> Cooldown {
        if self.fires(delta) {
            Cooldown { interval: self.interval, elapsed: 0 }
        } else {
            Cooldown { interval: self.interval, elapsed: (self.elapsed + delta) as u64 }
        }
    }

    pub fn new(interval: u64) -> (r: Cooldown)
        requires
            interval > 0,
        ensures
            r == (Cooldown { interval, elapsed: 0 }),
            r.wf(),
    {
        Cooldown { interval, elapsed: 0 }
    }

    /// Lets `delta` microseconds pass; returns whether the timer fired, in
    /// which case it is reset.
    pub fn tick(&mut self, delta: u64) -> (fired: bool)
        requires
            old(self).wf(),
        ensures
            fired == old(self).fires(delta),
            *final(self) == old(self).after(delta),
            final(self).wf(),
    {
        if delta >= self.interval - self.elapsed {
            self.elapsed = 0;
            true
        } else {
            self.elapsed = self.elapsed + delta;
            false
        }
    }
}

/// The directional keys held during a tick. Several may be held at once:
/// their displacements add up, so diagonal moves are possible, and opposite
/// keys cancel out while still counting as a move.
#[derive(Clone, Copy, Debug, PartialEq, Eq, Structural)]
pub struct Directions {
    pub up: bool,
    pub down: bool,
    pub left: bool,
    pub right: bool,
}

impl Directions {
    pub open spec fn any(self) -> bool {
        self.up || self.down || self.left || self.right
    }

    pub fn none() -> (r: Directions)
        ensures
            !r.any(),
    {
        Directions { up: false, down: false, left: false, right: false }
    }

    pub fn is_any(&self) -> (r: bool)
        ensures
            r == self.any(),
    {
        self.up || self.down || self.left || self.right
    }
}

/// `p` moved by `step` along each pressed axis.
pub open spec fn displaced(p: Position, d: Directions, step: int) -> (int, int) {
    (
        p.x + (if d.right { step } else { 0 }) - (if d.left { step } else { 0 }),
        p.y + (if d.up { step } else { 0 }) - (if d.down { step } else { 0 }),
    )
}

/// A position far enough from the limits of `i32` to take one step.
pub open spec fn can_step(p: Position) -> bool {
    &&& i32::MIN + STEP_SIZE <= p.x <= i32::MAX - STEP_SIZE
    &&& i32::MIN + STEP_SIZE <= p.y <= i32::MAX - STEP_SIZE
}

/// What a snake is, mathematically: its head, its body from front to tail,
/// and its movement timer.
pub struct SnakeModel {
    pub head: Segment,
    pub body: Seq<Segment>,
    pub cooldown: Cooldown,
}

impl SnakeModel {
    /// The body's handles are distinct and differ from the head's, and the
    /// timer is well formed.
    pub open spec fn wf(self) -> bool {
        handles_distinct(self.body) && !has_handle(self.body, self.head.handle) && self.cooldown.wf()
    }

    /// The position the tail holds: the last body segment's, or the head's
    /// when the body is empty.
    pub open spec fn tail(self) -> Position {
        if self.body.len() == 0 {
            self.head.pos
        } else {
            self.body.last().pos
        }
    }
}

/// The snake after `delta` microseconds with the keys `d` held. Nothing moves
/// unless the timer fires and a key is held; then the head is displaced and
/// the body follows one step behind it.
pub open spec fn advanced(s: SnakeModel, delta: u64, d: Directions) -> SnakeModel {
    if s.cooldown.fires(delta) && d.any() {
        let (x, y) = displaced(s.head.pos, d, STEP_SIZE as int);
        SnakeModel {
            head: Segment { pos: Position { x: x as i32, y: y as i32 }, handle: s.head.handle },
            body: shifted(s.body, s.head.pos),
            cooldown: s.cooldown.after(delta),
        }
    } else {
        SnakeModel { head: s.head, body: s.body, cooldown: s.cooldown.after(delta) }
    }
}

/// The body a new game starts with: a short vertical line above the head,
/// whose gaps widen toward the tail.
pub open spec fn initial_body(first_handle: u64) -> Seq<Segment> {
    seq![
        Segment { pos: Position { x: START_X, y: (START_Y + 2 * STEP_SIZE) as i32 }, handle: (first_handle + 1) as u64 },
        Segment { pos: Position { x: START_X, y: (START_Y + 5 * STEP_SIZE) as i32 }, handle: (first_handle + 2) as u64 },
        Segment { pos: Position { x: START_X, y: (START_Y + 9 * STEP_SIZE) as i32 }, handle: (first_handle + 3) as u64 },
    ]
}

/// The snake a new game starts with; its head carries `first_handle` and
/// its body segments the three handles that follow.
pub open spec fn initial_snake(first_handle: u64) -> SnakeModel {
    SnakeModel {
        head: Segment { pos: Position { x: START_X, y: (START_Y + STEP_SIZE) as i32 }, handle: first_handle },
        body: initial_body(first_handle),
        cooldown: Cooldown { interval: MOVE_COOLDOWN_MICROS, elapsed: 0 },
    }
}

/// The head, the trailing body and the movement timer.
pub struct Snake {
    head: Segment,
    body: SegmentList,
    cooldown: Cooldown,
}

impl View for Snake {
    type V = SnakeModel;

    closed spec fn view(&self) -> SnakeModel {
        SnakeModel { head: self.head, body: self.body@, cooldown: self.cooldown }
    }
}

impl Snake {
    pub open spec fn wf(&self) -> bool {
        self@.wf()
    }

    spec fn inner_wf(&self) -> bool {
        self.body.wf() && !has_handle(self.body@, self.head.handle) && self.cooldown.wf()
    }

    /// A snake with the given head and body and a fresh movement timer.
    pub fn from_parts(head: Segment, body: SegmentList) -> (r: Snake)
        requires
            body.wf(),
            !has_handle(body@, head.handle),
        ensures
            r@ == (SnakeModel {
                head,
                body: body@,
                cooldown: Cooldown { interval: MOVE_COOLDOWN_MICROS, elapsed: 0 },
            }),
            r.wf(),
    {
        Snake { head, body, cooldown: Cooldown::new(MOVE_COOLDOWN_MICROS) }
    }

    /// The snake a new game starts with, its handles numbered from
    /// `first_handle`.
    pub fn initial(first_handle: u64) -> (r: Snake)
        requires
            first_handle <= u64::MAX - 4,
        ensures
            r@ == initial_snake(first_handle),
            r.wf(),
    {
        let x = START_X;
        let y = START_Y;
        let head = Segment { pos: Position { x, y: y + STEP_SIZE }, handle: first_handle };
        let mut body = SegmentList::new();
        body.push_back(Position { x, y: y + 2 * STEP_SIZE }, first_handle + 1);
        body.push_back(Position { x, y: y + 5 * STEP_SIZE }, first_handle + 2);
        body.push_back(Position { x, y: y + 9 * STEP_SIZE }, first_handle + 3);
        let r = Snake { head, body, cooldown: Cooldown::new(MOVE_COOLDOWN_MICROS) };
        proof {
            assert(r@.body =~= initial_body(first_handle));
        }
        r
    }

    pub fn head(&self) -> (r: Segment)
        ensures
            r == self@.head,
    {
        self.head
    }

    pub fn body(&self) -> (r: &SegmentList)
        ensures
            r@ == self@.body,
            self.wf() ==> r.wf(),
    {
        &self.body
    }

    pub fn cooldown(&self) -> (r: Cooldown)
        ensures
            r == self@.cooldown,
    {
        self.cooldown
    }

    /// The position the tail holds: the last body segment's, or the head's
    /// when the body is empty.
    pub fn tail_position(&self) -> (r: Position)
        ensures
            r == self@.tail(),
    {
        match self.body.tail_position() {
            Some(p) => p,
            None => self.head.pos,
        }
    }

    /// Lets `delta` microseconds pass with the keys `input` held. When the
    /// timer fires it is reset; if a key is held the head moves by
    /// `STEP_SIZE` along each pressed axis and each body segment takes the
    /// position that the one ahead of it held (the first takes the head's).
    /// Returns whether anything moved.
    pub fn advance(&mut self, delta: u64, input: Directions) -> (moved: bool)
        requires
            old(self).wf(),
            can_step(old(self)@.head.pos),
        ensures
            final(self).wf(),
            final(self)@ == advanced(old(self)@, delta, input),
            moved == (old(self)@.cooldown.fires(delta) && input.any()),
            !input.any() ==> final(self)@.head == old(self)@.head && final(self)@.body
                == old(self)@.body,
            old(self)@.cooldown.fires(delta) ==> final(self)@.cooldown.elapsed == 0,
            moved ==> final(self)@.body.len() == old(self)@.body.len() && forall|i: int|
                0 <= i < old(self)@.body.len() ==> (#[trigger] final(self)@.body[i]).pos == (if i
                    == 0 {
                    old(self)@.head.pos
                } else {
                    old(self)@.body[i - 1].pos
                }),
    {
        proof {
            assert(self.inner_wf());
        }
        let fired = self.cooldown.tick(delta);
        if !(fired && input.is_any()) {
            return false;
        }
        let before = self.head.pos;
        let mut p = self.head.pos;
        if input.down {
            p.y = p.y - STEP_SIZE;
        }
        if input.up {
            p.y = p.y + STEP_SIZE;
        }
        if input.left {
            p.x = p.x - STEP_SIZE;
        }
        if input.right {
            p.x = p.x + STEP_SIZE;
        }
        self.head.pos = p;
        self.body.shift_from(before);
        true
    }

    /// Appends a segment at `pos` with a handle new to the snake.
    pub fn grow(&mut self, pos: Position, handle: u64)
        requires
            old(self).wf(),
            !has_handle(old(self)@.body, handle),
            handle != old(self)@.head.handle,
        ensures
            final(self).wf(),
            final(self)@ == (SnakeModel {
                body: old(self)@.body.push(Segment { pos, handle }),
                ..old(self)@
            }),
    {
        proof {
            assert(self.inner_wf());
        }
        self.body.push_back(pos, handle);
        proof {
            let b = self.body@;
            if has_handle(b, self.head.handle) {
                let i = choose|i: int| 0 <= i < b.len() && b[i].handle == self.head.handle;
                if i < b.len() - 1 {
                    assert(old(self)@.body[i] == b[i]);
                }
            }
        }
    }
}

} // verus!
