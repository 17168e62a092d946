//! A player's paddle: a rectangle moved up or down by held keys, clamped to
//! the court vertically, carrying that player's score.

use vstd::prelude::*;
use crate::court::Court;
use crate::court::CourtModel;

verus! {

/// Mathematical model of a paddle and its player's score.
pub struct PaddleModel {
    pub x: int,
    pub y: int,
    pub width: int,
    pub height: int,
    pub speed: int,
    pub score: int,
}

impl PaddleModel {
    /// Intrinsic well-formedness: positive size of moderate magnitude, a
    /// nonnegative bounded speed, a nonnegative score.
    pub open spec fn wf(self) -> bool {
        &&& 0 < self.width <= crate::SIZE_LIMIT as int
        &&& 0 < self.height <= crate::SIZE_LIMIT as int
        &&& 0 <= self.speed <= crate::VEL_LIMIT as int
        &&& 0 <= self.score
    }

    /// Placement invariant relative to a court: the paddle stands fully
    /// inside the court horizontally and within the clamping range
    /// vertically, and it fits between the walls.
    pub open spec fn placed(self, c: CourtModel) -> bool {
        &&& self.height <= c.top - c.bottom
        &&& self.width <= c.right - c.left
        &&& c.left + self.width / 2 <= self.x <= c.right - self.width / 2
        &&& c.bottom + self.height / 2 <= self.y <= c.top - self.height / 2
    }
}

/// Clamping as the movement step applies it: first raise to `lo`, then lower
/// to `hi` (so `hi` wins if the range is empty).
pub open spec fn clamp(v: int, lo: int, hi: int) -> int {
    let raised = if v >= lo { v } else { lo };
    if raised <= hi { raised } else { hi }
}

/// One movement step on the model.  A held "up" key moves the paddle up by
/// its speed; otherwise a held "down" key moves it down ("up" wins when both
/// are held).  The result is clamped so the paddle stays between the walls.
pub open spec fn paddle_step(p: PaddleModel, up: bool, down: bool, c: CourtModel) -> PaddleModel {
    let moved = if up {
        p.y + p.speed
    } else if down {
        p.y - p.speed
    } else {
        p.y
    };
    PaddleModel { y: clamp(moved, c.bottom + p.height / 2, c.top - p.height / 2), ..p }
}

/// Iterated movement: `n` steps with the same keys held throughout.
pub open spec fn paddle_run(p: PaddleModel, up: bool, down: bool, c: CourtModel, n: nat) -> PaddleModel
    decreases n,
{
    if n == 0 {
        p
    } else {
        paddle_step(paddle_run(p, up, down, c, (n - 1) as nat), up, down, c)
    }
}

/// A paddle of the executable game state.
pub struct Paddle {
    pub x: i64,
    pub y: i64,
    pub width: i64,
    pub height: i64,
    pub speed: i64,
    pub score: u64,
}

impl View for Paddle {
    type V = PaddleModel;

    open spec fn view(&self) -> PaddleModel {
        PaddleModel {
            x: self.x as int,
            y: self.y as int,
            width: self.width as int,
            height: self.height as int,
            speed: self.speed as int,
            score: self.score as int,
        }
    }
}

impl Paddle {
    /// Well-formedness of the executable paddle is that of its model.
    pub open spec fn wf(self) -> bool {
        self@.wf()
    }

    /// Builds a paddle with a zero score.
    pub fn new(x: i64, y: i64, width: i64, height: i64, speed: i64) -> (p: Paddle)
        requires
            0 < width <= crate::SIZE_LIMIT,
            0 < height <= crate::SIZE_LIMIT,
            0 <= speed <= crate::VEL_LIMIT,
        ensures
            p.wf(),
            p@ == (PaddleModel {
                x: x as int,
                y: y as int,
                width: width as int,
                height: height as int,
                speed: speed as int,
                score: 0,
            }),
    {
        Paddle { x, y, width, height, speed, score: 0 }
    }
}

/// Moves the paddle by the held keys and clamps it to the court, exactly as
/// [`paddle_step`] states.
pub fn paddle_movement(paddle: &mut Paddle, up: bool, down: bool, court: &Court)
    requires
        old(paddle).wf(),
        court.wf(),
        -crate::PLAY_LIMIT <= old(paddle).y <= crate::PLAY_LIMIT,
    ensures
        final(paddle)@ == paddle_step(old(paddle)@, up, down, court@),
        final(paddle).wf(),
{
    if up {
        paddle.y = paddle.y + paddle.speed;
    } else if down {
        paddle.y = paddle.y - paddle.speed;
    }
    let lo = court.bottom + paddle.height / 2;
    let hi = court.top - paddle.height / 2;
    if paddle.y < lo {
        paddle.y = lo;
    }
    if paddle.y > hi {
        paddle.y = hi;
    }
}

/// Law: with only "up" or only "down" held, any positive number of movement
/// steps leaves the paddle within the court's vertical clamping range
/// (and its shape, speed and score unchanged).
pub proof fn lemma_paddle_stays_in_court(p: PaddleModel, up: bool, down: bool, c: CourtModel, n: nat)
    requires
        c.wf(),
        p.wf(),
        p.height <= c.top - c.bottom,
        (up && !down) || (!up && down),
        n >= 1,
    ensures
        c.bottom + p.height / 2 <= paddle_run(p, up, down, c, n).y <= c.top - p.height / 2,
        paddle_run(p, up, down, c, n).x == p.x,
        paddle_run(p, up, down, c, n).width == p.width,
        paddle_run(p, up, down, c, n).height == p.height,
        paddle_run(p, up, down, c, n).speed == p.speed,
        paddle_run(p, up, down, c, n).score == p.score,
    decreases n,
{
    reveal_with_fuel(paddle_run, 2);
    if n > 1 {
        lemma_paddle_stays_in_court(p, up, down, c, (n - 1) as nat);
    }
}

} // verus!
