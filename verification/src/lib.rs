//! A verified core for a two-player paddle-and-ball game.
//!
//! The playing field, the ball and the paddles are modelled with integer
//! coordinates.  Every state change of one simulation tick — paddle motion,
//! ball motion with wall reflection, ball/paddle deflection and scoring — is
//! an executable function whose exact effect is stated over a mathematical
//! model of the state.

use vstd::prelude::*;

mod court;
mod ball;
mod paddle;
mod collision;
mod scoring;
mod game;

pub use court::Court;
pub use court::CourtModel;
pub use ball::Ball;
pub use ball::BallModel;
pub use ball::ball_step;
pub use ball::ball_movement;
pub use ball::lemma_wall_clamp_top;
pub use ball::lemma_wall_clamp_bottom;
pub use paddle::Paddle;
pub use paddle::PaddleModel;
pub use paddle::clamp;
pub use paddle::paddle_step;
pub use paddle::paddle_run;
pub use paddle::paddle_movement;
pub use paddle::lemma_paddle_stays_in_court;
pub use collision::Contact;
pub use collision::int_abs;
pub use collision::overlaps;
pub use collision::contact_face;
pub use collision::flush_offset;
pub use collision::deflect;
pub use collision::collide;
pub use collision::ball_collision;
pub use collision::lemma_left_face_deflection;
pub use collision::lemma_deflect_clears_overlap;
pub use scoring::passed_right;
pub use scoring::passed_left;
pub use scoring::flip_vx;
pub use scoring::score_step;
pub use scoring::score;
pub use scoring::serve;
pub use scoring::lemma_right_exit_scores_left;
pub use scoring::lemma_left_exit_scores_right;
pub use game::GameModel;
pub use game::GameState;
pub use game::mid_play;
pub use game::tick_model;
pub use game::lemma_paddle_step_placed;
pub use game::lemma_ball_step_mid;
pub use game::lemma_deflect_mid;
pub use game::lemma_score_step_in_play;
pub use game::lemma_tick_preserves_wf;
pub use game::lemma_tick_scores_monotonic;

verus! {

/// Largest magnitude a court bound may have.
pub const COURT_LIMIT: i64 = 1_000_000;

/// Largest width or height the ball or a paddle may have.
pub const SIZE_LIMIT: i64 = 500_000;

/// Largest magnitude a velocity component or a paddle speed may have.
pub const VEL_LIMIT: i64 = 100_000;

/// Largest magnitude a coordinate handled by the collision and scoring
/// routines may have.  Every state reachable from a well-formed game stays
/// well inside this bound.
pub const PLAY_LIMIT: i64 = 2_000_000;

} // verus!
