//! Game rules of a set of small 2D demos: the Breakout arena layout and its
//! collision response, sprite-sheet frame stepping, keyboard controls, and the
//! layout and control logic of a frame-stepping debug overlay.
//!
//! Everything here works on integers, flags and signs; the host engine reads
//! input, does the floating-point geometry and applies the decisions.
mod animation;
mod arena;
mod collision;
mod controls;
mod stepping;

pub use animation::next_frame;
pub use arena::{
    brick_center_doubled, brick_grid, paddle_bounds, paddle_height_position, WallLocation,
    BOTTOM_WALL, BRICK_HEIGHT, BRICK_WIDTH, GAP_BETWEEN_BRICKS, GAP_BETWEEN_BRICKS_AND_CEILING,
    GAP_BETWEEN_BRICKS_AND_SIDES, GAP_BETWEEN_PADDLE_AND_BRICKS, GAP_BETWEEN_PADDLE_AND_FLOOR,
    LEFT_WALL, PADDLE_HEIGHT, PADDLE_PADDING, PADDLE_WIDTH, RIGHT_WALL, TOP_WALL, WALL_THICKNESS,
};
pub use collision::{
    collision_side, reflect, resolve_hits, Collision, ContactOffset, Heading, Hit, Sign,
    StepOutcome,
};
pub use controls::{paddle_direction, steering, volume_step, Steering, VolumeStep};
pub use stepping::{
    cursor_marks, initialized, is_engine_system, plan_layout, respond_to_keys, visibility_change,
    Advance, OverlayLayout, OverlaySpan, OverlayVisibility, SteppedSystem, SteppingKeys,
    SteppingResponse, SystemRef,
};
