//! Movement, collision and game-state engine of a grid snake game.
//!
//! Positions are integer coordinates in arena space. The presentation layer
//! feeds the engine elapsed time and decoded directional input, and reads back
//! positions and a list of events (entities to create or remove, score changes,
//! state changes).
mod arena;
mod body;
mod collision;
mod config;
mod game;
mod geometry;
mod snake;

pub use body::{handles_distinct, handles_of, has_handle, positions_of, shifted, Segment, SegmentList};
pub use collision::{collide, collision_of, lemma_overlap_symmetric, overlaps, side_of, Collision};
pub use config::{
    BOTTOM_WALL, HEAD_HITBOX, LEFT_WALL, MOVE_COOLDOWN_MICROS, RIGHT_WALL, START_X, START_Y,
    STEP_SIZE, TOP_WALL, WALL_THICKNESS,
};
pub use geometry::{Aabb, Position};
pub use snake::{
    advanced, can_step, displaced, initial_body, initial_snake, Cooldown, Directions, Snake,
    SnakeModel,
};
pub use arena::{
    food_spawn_position, head_hits_food, head_hits_wall, hitbox, hitbox_at, hits_food, hits_wall,
    in_food_area, wall_box, wall_center, wall_size, WallLocation,
};
pub use game::{
    clear_of_walls, eaten, fresh_round, has_room, lemma_eating_grows, lemma_restart_matches_new,
    lemma_wall_ends_game, new_game, restarted, round_wf, spawn_events,
    stepped, teardown_events, within_step, EntityKind, Event, Food, Game, GameModel, GameState,
    RoundModel,
};
