//! The ball: position, velocity and size, moved once per tick and reflected
//! off the top and bottom walls.

use vstd::prelude::*;
use crate::court::Court;
use crate::court::CourtModel;

verus! {

/// Mathematical model of the ball.
pub struct BallModel {
    pub x: int,
    pub y: int,
    pub vx: int,
    pub vy: int,
    pub width: int,
    pub height: int,
}

impl BallModel {
    /// Intrinsic well-formedness: a positive size of moderate magnitude and a
    /// bounded velocity.  Position bounds are stated relative to a court, by
    /// [`in_play`](BallModel::in_play).
    pub open spec fn wf(self) -> bool {
        &&& 0 < self.width <= crate::SIZE_LIMIT as int
        &&& 0 < self.height <= crate::SIZE_LIMIT as int
        &&& -(crate::VEL_LIMIT as int) <= self.vx <= crate::VEL_LIMIT as int
        &&& -(crate::VEL_LIMIT as int) <= self.vy <= crate::VEL_LIMIT as int
    }

    /// Magnitude of the horizontal velocity.
    pub open spec fn vx_mag(self) -> int {
        if self.vx >= 0 { self.vx } else { -self.vx }
    }

    /// Position invariant of the ball relative to a court.  Vertically the
    /// ball never leaves the walls by more than its own height (a deflection
    /// off a paddle edge can push it past a wall by half its height, rounded
    /// up).  Horizontally the ball may leave the court to trigger scoring,
    /// but only just: while it travels outward its centre is at most half a
    /// width past the court edge, plus one unit of flush-reposition
    /// rounding, and the tick that detects the exit turns the horizontal
    /// velocity around, so the ball is never farther out than one velocity
    /// step beyond that band.
    pub open spec fn in_play(self, c: CourtModel) -> bool {
        &&& c.bottom - self.height <= self.y <= c.top + self.height
        &&& self.vx > 0 ==> self.x <= c.right + self.width / 2 + 1
        &&& self.vx < 0 ==> self.x >= c.left - self.width / 2 - 1
        &&& c.left - self.width / 2 - 1 - self.vx_mag() <= self.x
        &&& self.x <= c.right + self.width / 2 + 1 + self.vx_mag()
    }
}

/// One movement step on the model: the velocity is added to the position;
/// if the new centre is at or past a wall, it is clamped to that wall and the
/// vertical velocity sign is flipped.  The bottom wall is tested first.
pub open spec fn ball_step(b: BallModel, c: CourtModel) -> BallModel {
    let x = b.x + b.vx;
    let y = b.y + b.vy;
    if y <= c.bottom {
        BallModel { x, y: c.bottom, vy: -b.vy, ..b }
    } else if y >= c.top {
        BallModel { x, y: c.top, vy: -b.vy, ..b }
    } else {
        BallModel { x, y, ..b }
    }
}

/// The ball of the executable game state.
pub struct Ball {
    pub x: i64,
    pub y: i64,
    pub vx: i64,
    pub vy: i64,
    pub width: i64,
    pub height: i64,
}

impl View for Ball {
    type V = BallModel;

    open spec fn view(&self) -> BallModel {
        BallModel {
            x: self.x as int,
            y: self.y as int,
            vx: self.vx as int,
            vy: self.vy as int,
            width: self.width as int,
            height: self.height as int,
        }
    }
}

impl Ball {
    /// Well-formedness of the executable ball is that of its model.
    pub open spec fn wf(self) -> bool {
        self@.wf()
    }

    /// Builds a ball from position, velocity and size.
    pub fn new(x: i64, y: i64, vx: i64, vy: i64, width: i64, height: i64) -> (b: Ball)
        requires
            0 < width <= crate::SIZE_LIMIT,
            0 < height <= crate::SIZE_LIMIT,
            -crate::VEL_LIMIT <= vx <= crate::VEL_LIMIT,
            -crate::VEL_LIMIT <= vy <= crate::VEL_LIMIT,
        ensures
            b.wf(),
            b@ == (BallModel {
                x: x as int,
                y: y as int,
                vx: vx as int,
                vy: vy as int,
                width: width as int,
                height: height as int,
            }),
    {
        Ball { x, y, vx, vy, width, height }
    }
}

/// Moves the ball by its velocity and reflects it off the top and bottom
/// walls, exactly as [`ball_step`] states.
pub fn ball_movement(ball: &mut Ball, court: &Court)
    requires
        old(ball).wf(),
        court.wf(),
        -crate::PLAY_LIMIT <= old(ball).x <= crate::PLAY_LIMIT,
        -crate::PLAY_LIMIT <= old(ball).y <= crate::PLAY_LIMIT,
    ensures
        final(ball)@ == ball_step(old(ball)@, court@),
        final(ball).wf(),
{
    ball.x = ball.x + ball.vx;
    ball.y = ball.y + ball.vy;
    if ball.y <= court.bottom {
        ball.y = court.bottom;
        ball.vy = -ball.vy;
    } else if ball.y >= court.top {
        ball.y = court.top;
        ball.vy = -ball.vy;
    }
}

/// Law: a ball at or beyond the top wall, not moving downward, ends the step
/// clamped to the top wall with its vertical velocity sign flipped.
pub proof fn lemma_wall_clamp_top(b: BallModel, c: CourtModel)
    requires
        c.wf(),
        b.y >= c.top,
        b.vy >= 0,
    ensures
        ball_step(b, c).y == c.top,
        ball_step(b, c).vy == -b.vy,
        ball_step(b, c).x == b.x + b.vx,
{
}

/// Law: a ball at or beyond the bottom wall, not moving upward, ends the step
/// clamped to the bottom wall with its vertical velocity sign flipped.
pub proof fn lemma_wall_clamp_bottom(b: BallModel, c: CourtModel)
    requires
        c.wf(),
        b.y <= c.bottom,
        b.vy <= 0,
    ensures
        ball_step(b, c).y == c.bottom,
        ball_step(b, c).vy == -b.vy,
        ball_step(b, c).x == b.x + b.vx,
{
}

} // verus!
