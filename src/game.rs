use vstd::prelude::*;

use crate::arena::{
    food_spawn_position, head_hits_food, head_hits_wall, hits_food, hits_wall, in_food_area,
};
use crate::body::{has_handle, positions_of, Segment};
use crate::config::{BOTTOM_WALL, HEAD_HITBOX, LEFT_WALL, RIGHT_WALL, STEP_SIZE, TOP_WALL, WALL_THICKNESS};
use crate::geometry::Position;
use crate::snake::{advanced, initial_snake, Directions, Snake, SnakeModel};

verus! {

/// The single food item: its position and the handle of its visual.
#[derive(Clone, Copy, Debug, PartialEq, Eq, Structural)]
pub struct Food {
    pub pos: Position,
    pub handle: u64,
}

#[derive(Clone, Copy, Debug, PartialEq, Eq, Structural)]
pub enum GameState {
    Playing,
    GameOver,
}

/// What a created visual represents.
#[derive(Clone, Copy, Debug, PartialEq, Eq, Structural)]
pub enum EntityKind {
    Head,
    Segment,
    Food,
}

/// What the presentation layer has to do after a call into the engine.
#[derive(Clone, Copy, Debug, PartialEq, Eq, Structural)]
pub enum Event {
    /// Create the visual `handle` for a new entity at `pos`.
    Spawned { handle: u64, kind: EntityKind, pos: Position },
    /// Remove the visual `handle`.
    Despawned { handle: u64 },
    /// The scoreboard now reads `score`.
    ScoreChanged { score: u64 },
    EnteredPlaying,
    /// Show the final-score panel.
    EnteredGameOver { final_score: u64 },
}

/// The entities of a game in progress, mathematically.
pub struct RoundModel {
    pub snake: SnakeModel,
    pub food: Food,
}

/// A game, mathematically: the round in progress (none after game over),
/// the scoreboard, the score shown on the last game-over panel, and the next
/// handle to hand out.
pub struct GameModel {
    pub round: Option<RoundModel>,
    pub score: u64,
    pub final_score: u64,
    pub next_handle: u64,
}

impl GameModel {
    /// While playing, the round's handles are distinct and all below
    /// `next_handle`, and the head is clear of the walls; the score never
    /// exceeds `next_handle`.
    pub open spec fn wf(self) -> bool {
        &&& self.round is Some ==> round_wf(self.round.unwrap(), self.next_handle)
        &&& self.score <= self.next_handle
    }

    pub open spec fn state(self) -> GameState {
        if self.round is Some {
            GameState::Playing
        } else {
            GameState::GameOver
        }
    }
}

/// Enough handles remain for any one call into the engine.
pub open spec fn has_room(next_handle: u64) -> bool {
    next_handle <= u64::MAX - 8
}

/// Within one step of `p` on each axis.
pub open spec fn within_step(p: Position, q: Position) -> bool {
    &&& p.x - STEP_SIZE <= q.x <= p.x + STEP_SIZE
    &&& p.y - STEP_SIZE <= q.y <= p.y + STEP_SIZE
}

/// A head whose hitbox stays clear of every wall.
pub open spec fn clear_of_walls(p: Position) -> bool {
    &&& LEFT_WALL + WALL_THICKNESS / 2 + HEAD_HITBOX / 2 < p.x
    &&& p.x < RIGHT_WALL - WALL_THICKNESS / 2 - HEAD_HITBOX / 2
    &&& BOTTOM_WALL + WALL_THICKNESS / 2 + HEAD_HITBOX / 2 < p.y
    &&& p.y < TOP_WALL - WALL_THICKNESS / 2 - HEAD_HITBOX / 2
}

/// Every handle of the round is below `n`, and no two are equal.
pub open spec fn round_wf(r: RoundModel, n: u64) -> bool {
    &&& r.snake.wf()
    &&& r.snake.head.handle < n
    &&& forall|i: int| 0 <= i < r.snake.body.len() ==> (#[trigger] r.snake.body[i]).handle < n
    &&& r.food.handle < n
    &&& r.food.handle != r.snake.head.handle
    &&& !has_handle(r.snake.body, r.food.handle)
    &&& clear_of_walls(r.snake.head.pos)
}

/// The events that create the visuals of a round: head, body front to back,
/// then food.
pub open spec fn spawn_events(r: RoundModel) -> Seq<Event> {
    seq![Event::Spawned { handle: r.snake.head.handle, kind: EntityKind::Head, pos: r.snake.head.pos }]
        + r.snake.body.map_values(
        |s: Segment| Event::Spawned { handle: s.handle, kind: EntityKind::Segment, pos: s.pos },
    ) + seq![Event::Spawned { handle: r.food.handle, kind: EntityKind::Food, pos: r.food.pos }]
}

/// The events that remove the visuals of a round: head, body front to back,
/// then food.
pub open spec fn teardown_events(r: RoundModel) -> Seq<Event> {
    seq![Event::Despawned { handle: r.snake.head.handle }] + r.snake.body.map_values(
        |s: Segment| Event::Despawned { handle: s.handle },
    ) + seq![Event::Despawned { handle: r.food.handle }]
}

/// A fresh round: the initial snake with handles from `h`, and food at
/// `food_at` with the handle after them.
pub open spec fn fresh_round(h: u64, food_at: Position) -> RoundModel {
    RoundModel { snake: initial_snake(h), food: Food { pos: food_at, handle: (h + 4) as u64 } }
}

/// The game that `Game::new` creates, with its events.
pub open spec fn new_game(food_at: Position) -> (GameModel, Seq<Event>) {
    (
        GameModel { round: Some(fresh_round(0, food_at)), score: 0, final_score: 0, next_handle: 5 },
        seq![Event::EnteredPlaying] + spawn_events(fresh_round(0, food_at)) + seq![
            Event::ScoreChanged { score: 0 },
        ],
    )
}

/// The restart signal: after game over, a fresh round with new handles and a
/// zero score; while playing, nothing happens.
pub open spec fn restarted(g: GameModel, food_at: Position) -> (GameModel, Seq<Event>) {
    if g.round is Some {
        (g, seq![])
    } else {
        let r = fresh_round(g.next_handle, food_at);
        (
            GameModel {
                round: Some(r),
                score: 0,
                final_score: g.final_score,
                next_handle: (g.next_handle + 5) as u64,
            },
            seq![Event::EnteredPlaying] + spawn_events(r) + seq![Event::ScoreChanged { score: 0 }],
        )
    }
}

/// The round after the head ate the food: the old food goes, new food with
/// the next handle appears at `food_at`, and the snake gains a segment at
/// `tail` with the handle after that.
pub open spec fn eaten(r: RoundModel, h: u64, tail: Position, food_at: Position) -> RoundModel {
    RoundModel {
        snake: SnakeModel {
            body: r.snake.body.push(Segment { pos: tail, handle: (h + 1) as u64 }),
            ..r.snake
        },
        food: Food { pos: food_at, handle: h },
    }
}

/// One update while playing, after `delta` microseconds with the keys
/// `input` held: the snake moves; if its head then touches the food, the
/// score goes up by one, the food moves to `food_at`, and the snake grows by
/// a segment where its tail was before the move; if the head touches a wall,
/// every entity is removed, the score is shown on the game-over panel and
/// reset to zero. After game over an update does nothing.
pub open spec fn stepped(g: GameModel, delta: u64, input: Directions, food_at: Position) -> (
    GameModel,
    Seq<Event>,
) {
    match g.round {
        None => (g, seq![]),
        Some(r) => {
            let moved = RoundModel { snake: advanced(r.snake, delta, input), food: r.food };
            let head = moved.snake.head.pos;
            let h = g.next_handle;
            let ate = hits_food(head, r.food.pos);
            let r2 = if ate {
                eaten(moved, h, r.snake.tail(), food_at)
            } else {
                moved
            };
            let score = if ate {
                (g.score + 1) as u64
            } else {
                g.score
            };
            let next = if ate {
                (h + 2) as u64
            } else {
                h
            };
            let ev = if ate {
                seq![
                    Event::Despawned { handle: r.food.handle },
                    Event::Spawned { handle: h, kind: EntityKind::Food, pos: food_at },
                    Event::Spawned { handle: (h + 1) as u64, kind: EntityKind::Segment, pos: r.snake.tail() },
                    Event::ScoreChanged { score },
                ]
            } else {
                seq![]
            };
            if hits_wall(head) {
                (
                    GameModel { round: None, score: 0, final_score: score, next_handle: next },
                    ev + teardown_events(r2) + seq![
                        Event::EnteredGameOver { final_score: score },
                        Event::ScoreChanged { score: 0 },
                    ],
                )
            } else {
                (
                    GameModel { round: Some(r2), score, final_score: g.final_score, next_handle: next },
                    ev,
                )
            }
        },
    }
}

/// Eating one food item, with no wall touched, lengthens the body by exactly
/// one segment, placed where the tail was before the move, and raises the
/// score by exactly one; afterward there is again exactly one food item, new,
/// at the spawn position, inside the inset arena.
pub proof fn lemma_eating_grows(g: GameModel, delta: u64, input: Directions, food_at: Position)
    requires
        g.wf(),
        has_room(g.next_handle),
        g.round is Some,
        in_food_area(food_at),
        hits_food(advanced(g.round.unwrap().snake, delta, input).head.pos, g.round.unwrap().food.pos),
        !hits_wall(advanced(g.round.unwrap().snake, delta, input).head.pos),
    ensures
        ({
            let (g2, events) = stepped(g, delta, input, food_at);
            let r = g.round.unwrap();
            &&& g2.round is Some
            &&& g2.round.unwrap().snake.body.len() == r.snake.body.len() + 1
            &&& g2.round.unwrap().snake.body.last().pos == r.snake.tail()
            &&& g2.score == g.score + 1
            &&& g2.round.unwrap().food.pos == food_at
            &&& g2.round.unwrap().food.handle != r.food.handle
            &&& in_food_area(g2.round.unwrap().food.pos)
            &&& events.contains(Event::Despawned { handle: r.food.handle })
        }),
{
    let (g2, events) = stepped(g, delta, input, food_at);
    assert(events[0] == Event::Despawned { handle: g.round.unwrap().food.handle });
}

/// When the head touches a wall, the game ends: the entities are gone, the
/// game-over panel shows the score that the scoreboard held just before the
/// transition, and the scoreboard reads zero.
pub proof fn lemma_wall_ends_game(g: GameModel, delta: u64, input: Directions, food_at: Position)
    requires
        g.wf(),
        has_room(g.next_handle),
        g.round is Some,
        hits_wall(advanced(g.round.unwrap().snake, delta, input).head.pos),
    ensures
        ({
            let (g2, events) = stepped(g, delta, input, food_at);
            let r = g.round.unwrap();
            let ate = hits_food(advanced(r.snake, delta, input).head.pos, r.food.pos);
            let before = if ate {
                g.score + 1
            } else {
                g.score as int
            };
            &&& g2.state() == GameState::GameOver
            &&& g2.final_score == before
            &&& g2.score == 0
            &&& events.contains(Event::EnteredGameOver { final_score: g2.final_score })
        }),
{
    let (g2, events) = stepped(g, delta, input, food_at);
    assert(events[events.len() - 2] == Event::EnteredGameOver { final_score: g2.final_score });
}

/// Restarting after game over gives the same snake (head, body length and
/// body positions), the same food position and the same zero score as a
/// newly created game.
pub proof fn lemma_restart_matches_new(g: GameModel, food_at: Position)
    requires
        g.wf(),
        g.round is None,
    ensures
        ({
            let (g2, _) = restarted(g, food_at);
            let (fresh, _) = new_game(food_at);
            &&& g2.state() == GameState::Playing
            &&& g2.score == fresh.score == 0
            &&& g2.round.unwrap().snake.head.pos == fresh.round.unwrap().snake.head.pos
            &&& g2.round.unwrap().snake.body.len() == fresh.round.unwrap().snake.body.len()
            &&& positions_of(g2.round.unwrap().snake.body) == positions_of(fresh.round.unwrap().snake.body)
            &&& g2.round.unwrap().snake.cooldown == fresh.round.unwrap().snake.cooldown
            &&& g2.round.unwrap().food.pos == fresh.round.unwrap().food.pos
        }),
{
    let (g2, _) = restarted(g, food_at);
    let (fresh, _) = new_game(food_at);
    assert(positions_of(g2.round.unwrap().snake.body) =~= positions_of(fresh.round.unwrap().snake.body));
}

struct Round {
    snake: Snake,
    food: Food,
}

impl Round {
    spec fn model(&self) -> RoundModel {
        RoundModel { snake: self.snake@, food: self.food }
    }
}

/// The whole game: the round in progress, if any, and the scoreboard.
pub struct Game {
    round: Option<Round>,
    score: u64,
    final_score: u64,
    next_handle: u64,
}

impl View for Game {
    type V = GameModel;

    closed spec fn view(&self) -> GameModel {
        GameModel {
            round: match self.round {
                Some(r) => Some(r.model()),
                None => None,
            },
            score: self.score,
            final_score: self.final_score,
            next_handle: self.next_handle,
        }
    }
}

/// A head that was clear of the walls and moved at most one step stays clear
/// unless it now touches a wall.
proof fn lemma_stays_clear(p: Position, q: Position)
    requires
        clear_of_walls(p),
        within_step(p, q),
        !hits_wall(q),
    ensures
        clear_of_walls(q),
{
}

/// Appends the events that create the round's visuals.
fn push_spawn_events(r: &Round, events: &mut Vec<Event>)
    ensures
        final(events)@ == old(events)@ + spawn_events(r.model()),
{
    let ghost start = events@;
    let head = r.snake.head();
    events.push(Event::Spawned { handle: head.handle, kind: EntityKind::Head, pos: head.pos });
    let body = r.snake.body();
    let ghost segs = r.model().snake.body;
    let mut i: usize = 0;
    while i < body.len()
        invariant
            i <= segs.len(),
            body@ == segs,
            events@ == start + seq![Event::Spawned { handle: head.handle, kind: EntityKind::Head, pos: head.pos }]
                + segs.take(i as int).map_values(
                |s: Segment| Event::Spawned { handle: s.handle, kind: EntityKind::Segment, pos: s.pos },
            ),
        decreases segs.len() - i,
    {
        let seg = body.get(i);
        events.push(Event::Spawned { handle: seg.handle, kind: EntityKind::Segment, pos: seg.pos });
        proof {
            assert(segs.take(i + 1) =~= segs.take(i as int).push(seg));
            assert(segs.take(i + 1).map_values(
                |s: Segment| Event::Spawned { handle: s.handle, kind: EntityKind::Segment, pos: s.pos },
            ) =~= segs.take(i as int).map_values(
                |s: Segment| Event::Spawned { handle: s.handle, kind: EntityKind::Segment, pos: s.pos },
            ).push(Event::Spawned { handle: seg.handle, kind: EntityKind::Segment, pos: seg.pos }));
        }
        i = i + 1;
    }
    events.push(Event::Spawned { handle: r.food.handle, kind: EntityKind::Food, pos: r.food.pos });
    proof {
        assert(segs.take(segs.len() as int) =~= segs);
        assert(events@ =~= start + spawn_events(r.model()));
    }
}

/// Appends the events that remove the round's visuals.
fn push_teardown_events(r: &Round, events: &mut Vec<Event>)
    ensures
        final(events)@ == old(events)@ + teardown_events(r.model()),
{
    let ghost start = events@;
    let head = r.snake.head();
    events.push(Event::Despawned { handle: head.handle });
    let body = r.snake.body();
    let ghost segs = r.model().snake.body;
    let mut i: usize = 0;
    while i < body.len()
        invariant
            i <= segs.len(),
            body@ == segs,
            events@ == start + seq![Event::Despawned { handle: head.handle }] + segs.take(
                i as int,
            ).map_values(|s: Segment| Event::Despawned { handle: s.handle }),
        decreases segs.len() - i,
    {
        let seg = body.get(i);
        events.push(Event::Despawned { handle: seg.handle });
        proof {
            assert(segs.take(i + 1) =~= segs.take(i as int).push(seg));
            assert(segs.take(i + 1).map_values(|s: Segment| Event::Despawned { handle: s.handle })
                =~= segs.take(i as int).map_values(
                |s: Segment| Event::Despawned { handle: s.handle },
            ).push(Event::Despawned { handle: seg.handle }));
        }
        i = i + 1;
    }
    events.push(Event::Despawned { handle: r.food.handle });
    proof {
        assert(segs.take(segs.len() as int) =~= segs);
        assert(events@ =~= start + teardown_events(r.model()));
    }
}

impl Game {
    pub open spec fn wf(&self) -> bool {
        self@.wf()
    }

    /// A game in the playing state, with food at `food_at`. The events create
    /// every entity and show a zero score.
    pub fn new(food_at: Position) -> (r: (Game, Vec<Event>))
        ensures
            (r.0@, r.1@) == new_game(food_at),
            r.0.wf(),
    {
        let round = Round { snake: Snake::initial(0), food: Food { pos: food_at, handle: 4 } };
        let mut events: Vec<Event> = Vec::new();
        events.push(Event::EnteredPlaying);
        push_spawn_events(&round, &mut events);
        events.push(Event::ScoreChanged { score: 0 });
        let g = Game { round: Some(round), score: 0, final_score: 0, next_handle: 5 };
        proof {
            assert(g@.round.unwrap() == fresh_round(0, food_at));
            assert(events@ =~= new_game(food_at).1);
        }
        (g, events)
    }

    /// A game in the playing state, with food at a random place.
    pub fn start() -> (r: (Game, Vec<Event>))
        ensures
            exists|p: Position| in_food_area(p) && (r.0@, r.1@) == new_game(p),
            r.0.wf(),
    {
        let p = food_spawn_position();
        Game::new(p)
    }

    pub fn state(&self) -> (r: GameState)
        ensures
            r == self@.state(),
    {
        match &self.round {
            Some(_) => GameState::Playing,
            None => GameState::GameOver,
        }
    }

    pub fn score(&self) -> (r: u64)
        ensures
            r == self@.score,
    {
        self.score
    }

    /// The score shown on the last game-over panel.
    pub fn final_score(&self) -> (r: u64)
        ensures
            r == self@.final_score,
    {
        self.final_score
    }

    /// Whether enough handles remain for the next call into the engine.
    pub fn has_room(&self) -> (r: bool)
        ensures
            r == has_room(self@.next_handle),
    {
        self.next_handle <= u64::MAX - 8
    }

    /// The snake, while playing.
    pub fn snake(&self) -> (r: Option<&Snake>)
        ensures
            r is Some == self@.round is Some,
            r is Some ==> r.unwrap()@ == self@.round.unwrap().snake,
    {
        match &self.round {
            Some(round) => Some(&round.snake),
            None => None,
        }
    }

    /// The food, while playing.
    pub fn food(&self) -> (r: Option<Food>)
        ensures
            r is Some == self@.round is Some,
            r is Some ==> r.unwrap() == self@.round.unwrap().food,
    {
        match &self.round {
            Some(round) => Some(round.food),
            None => None,
        }
    }

    /// One update: `delta` microseconds passed with the keys `input` held,
    /// and `food_at` is where food goes if the snake eats. See `stepped`.
    pub fn step(&mut self, delta: u64, input: Directions, food_at: Position) -> (events: Vec<
        Event,
    >)
        requires
            old(self).wf(),
            has_room(old(self)@.next_handle),
        ensures
            final(self).wf(),
            (final(self)@, events@) == stepped(old(self)@, delta, input, food_at),
    {
        let ghost g = self@;
        let mut events: Vec<Event> = Vec::new();
        let taken = self.round.take();
        let mut round = match taken {
            None => {
                return events;
            },
            Some(round) => round,
        };
        let ghost r0 = round.model();
        let tail = round.snake.tail_position();
        round.snake.advance(delta, input);
        let head = round.snake.head().pos;
        proof {
            assert(within_step(r0.snake.head.pos, head));
            assert forall|i: int| 0 <= i < round.model().snake.body.len() implies (
            #[trigger] round.model().snake.body[i]).handle == r0.snake.body[i].handle by {}
        }
        let ate = head_hits_food(head, round.food.pos);
        if ate {
            let h = self.next_handle;
            events.push(Event::Despawned { handle: round.food.handle });
            round.food = Food { pos: food_at, handle: h };
            events.push(Event::Spawned { handle: h, kind: EntityKind::Food, pos: food_at });
            proof {
                if has_handle(round.model().snake.body, (h + 1) as u64) {
                    let i = choose|i: int|
                        0 <= i < round.model().snake.body.len() && round.model().snake.body[i].handle == (h + 1) as u64;
                    assert(r0.snake.body[i].handle < h);
                }
            }
            round.snake.grow(tail, h + 1);
            events.push(Event::Spawned { handle: h + 1, kind: EntityKind::Segment, pos: tail });
            self.score = self.score + 1;
            self.next_handle = h + 2;
            events.push(Event::ScoreChanged { score: self.score });
            proof {
                let b = round.model().snake.body;
                assert forall|i: int| 0 <= i < b.len() implies (#[trigger] b[i]).handle < self.next_handle by {
                    if i < b.len() - 1 {
                        assert(b[i].handle == r0.snake.body[i].handle);
                    }
                }
                if has_handle(b, h) {
                    let i = choose|i: int| 0 <= i < b.len() && b[i].handle == h;
                    if i < b.len() - 1 {
                        assert(b[i].handle == r0.snake.body[i].handle);
                    }
                }
                assert(round.model() == eaten(
                    RoundModel { snake: advanced(r0.snake, delta, input), food: r0.food },
                    h,
                    r0.snake.tail(),
                    food_at,
                ));
            }
        } else {
            proof {
                let b = round.model().snake.body;
                if has_handle(b, round.food.handle) {
                    let i = choose|i: int| 0 <= i < b.len() && b[i].handle == round.food.handle;
                    assert(b[i].handle == r0.snake.body[i].handle);
                }
            }
        }
        if head_hits_wall(head) {
            push_teardown_events(&round, &mut events);
            self.final_score = self.score;
            self.score = 0;
            events.push(Event::EnteredGameOver { final_score: self.final_score });
            events.push(Event::ScoreChanged { score: 0 });
            proof {
                assert(events@ =~= stepped(g, delta, input, food_at).1);
            }
        } else {
            proof {
                lemma_stays_clear(r0.snake.head.pos, head);
            }
            self.round = Some(round);
        }
        events
    }

    /// One update with food, if it is eaten, placed at random.
    pub fn update(&mut self, delta: u64, input: Directions) -> (events: Vec<Event>)
        requires
            old(self).wf(),
            has_room(old(self)@.next_handle),
        ensures
            final(self).wf(),
            exists|p: Position|
                in_food_area(p) && (final(self)@, events@) == stepped(old(self)@, delta, input, p),
    {
        let p = food_spawn_position();
        self.step(delta, input, p)
    }

    /// The restart signal, with new food at `food_at`. See `restarted`.
    pub fn restart(&mut self, food_at: Position) -> (events: Vec<Event>)
        requires
            old(self).wf(),
            has_room(old(self)@.next_handle),
        ensures
            final(self).wf(),
            (final(self)@, events@) == restarted(old(self)@, food_at),
    {
        let mut events: Vec<Event> = Vec::new();
        if self.round.is_some() {
            return events;
        }
        let h = self.next_handle;
        let round = Round { snake: Snake::initial(h), food: Food { pos: food_at, handle: h + 4 } };
        events.push(Event::EnteredPlaying);
        push_spawn_events(&round, &mut events);
        events.push(Event::ScoreChanged { score: 0 });
        self.round = Some(round);
        self.score = 0;
        self.next_handle = h + 5;
        proof {
            assert(self@.round.unwrap() == fresh_round(h, food_at));
            assert(events@ =~= restarted(old(self)@, food_at).1);
        }
        events
    }

    /// The restart signal, with new food at a random place.
    pub fn restart_random(&mut self) -> (events: Vec<Event>)
        requires
            old(self).wf(),
            has_room(old(self)@.next_handle),
        ensures
            final(self).wf(),
            exists|p: Position|
                in_food_area(p) && (final(self)@, events@) == restarted(old(self)@, p),
    {
        let p = food_spawn_position();
        self.restart(p)
    }
}

} // verus!
