//! The whole game state and the fixed-timestep tick that drives it:
//! read input, move the paddles, move the ball, resolve ball/paddle
//! deflections, then check scoring.

use vstd::prelude::*;
use crate::ball::Ball;
use crate::ball::BallModel;
use crate::ball::ball_step;
use crate::ball::ball_movement;
use crate::collision::deflect;
use crate::collision::ball_collision;
use crate::court::Court;
use crate::court::CourtModel;
use crate::paddle::Paddle;
use crate::paddle::PaddleModel;
use crate::paddle::paddle_step;
use crate::paddle::paddle_movement;
use crate::scoring::score_step;
use crate::scoring::score;

verus! {

/// Mathematical model of the whole game.
pub struct GameModel {
    pub court: CourtModel,
    pub ball: BallModel,
    pub left: PaddleModel,
    pub right: PaddleModel,
}

impl GameModel {
    /// The game invariant: every part is well formed, both paddles stand
    /// inside the court, and the ball is in play relative to the court.
    pub open spec fn wf(self) -> bool {
        &&& self.court.wf()
        &&& self.ball.wf()
        &&& self.left.wf()
        &&& self.right.wf()
        &&& self.left.placed(self.court)
        &&& self.right.placed(self.court)
        &&& self.ball.in_play(self.court)
    }
}

/// Where the ball can be in the middle of a tick, after movement but before
/// scoring has turned an escaped ball around: within a velocity step of the
/// in-play region, and never past the court edge it is moving away from by
/// more than the half-width scoring band and its rounding unit.
pub open spec fn mid_play(b: BallModel, c: CourtModel) -> bool {
    &&& c.bottom - b.height <= b.y <= c.top + b.height
    &&& c.left - b.width / 2 - 1 - b.vx_mag() <= b.x
    &&& b.x <= c.right + b.width / 2 + 1 + b.vx_mag()
    &&& b.vx <= 0 ==> b.x <= c.right + b.width / 2 + 1
    &&& b.vx >= 0 ==> b.x >= c.left - b.width / 2 - 1
}

/// One full tick on the model, in the order the simulation runs it:
/// both paddles move by their held keys, the ball moves and reflects off the
/// walls, the ball deflects off the left then the right paddle, and scoring
/// is resolved last.
pub open spec fn tick_model(
    g: GameModel,
    left_up: bool,
    left_down: bool,
    right_up: bool,
    right_down: bool,
) -> GameModel {
    let l1 = paddle_step(g.left, left_up, left_down, g.court);
    let r1 = paddle_step(g.right, right_up, right_down, g.court);
    let b1 = ball_step(g.ball, g.court);
    let b2 = deflect(b1, l1);
    let b3 = deflect(b2, r1);
    let s = score_step(b3, l1.score, r1.score, g.court);
    GameModel {
        court: g.court,
        ball: s.0,
        left: PaddleModel { score: s.1, ..l1 },
        right: PaddleModel { score: s.2, ..r1 },
    }
}

/// A movement step keeps a placed paddle placed and changes nothing but its
/// vertical position.
pub proof fn lemma_paddle_step_placed(p: PaddleModel, up: bool, down: bool, c: CourtModel)
    requires
        c.wf(),
        p.wf(),
        p.placed(c),
    ensures
        paddle_step(p, up, down, c).wf(),
        paddle_step(p, up, down, c).placed(c),
        paddle_step(p, up, down, c) == (PaddleModel { y: paddle_step(p, up, down, c).y, ..p }),
{
}

/// A ball movement step keeps the ball well formed, puts its centre between
/// the walls, and leaves it in the mid-tick region horizontally.
pub proof fn lemma_ball_step_mid(b: BallModel, c: CourtModel)
    requires
        c.wf(),
        b.wf(),
        b.in_play(c),
    ensures
        ball_step(b, c).wf(),
        mid_play(ball_step(b, c), c),
        c.bottom <= ball_step(b, c).y <= c.top,
        ball_step(b, c).width == b.width,
        ball_step(b, c).height == b.height,
        ball_step(b, c).vx == b.vx,
{
}

/// A deflection off a placed paddle keeps the ball well formed and in the
/// mid-tick region, and does not change its size or the magnitude of its
/// horizontal velocity.
pub proof fn lemma_deflect_mid(b: BallModel, p: PaddleModel, c: CourtModel)
    requires
        c.wf(),
        b.wf(),
        p.wf(),
        p.placed(c),
        mid_play(b, c),
    ensures
        deflect(b, p).wf(),
        mid_play(deflect(b, p), c),
        deflect(b, p).width == b.width,
        deflect(b, p).height == b.height,
        deflect(b, p).vx_mag() == b.vx_mag(),
{
}

/// A scoring step on a mid-tick ball returns a ball that is fully in play:
/// an escaped ball is turned back toward the court, so every conjunct of the
/// in-play invariant is restored.
pub proof fn lemma_score_step_in_play(b: BallModel, ls: int, rs: int, c: CourtModel)
    requires
        c.wf(),
        b.wf(),
        mid_play(b, c),
    ensures
        score_step(b, ls, rs, c).0.wf(),
        score_step(b, ls, rs, c).0.in_play(c),
{
}

/// Law: one full tick preserves the game invariant, whatever keys are held.
pub proof fn lemma_tick_preserves_wf(
    g: GameModel,
    left_up: bool,
    left_down: bool,
    right_up: bool,
    right_down: bool,
)
    requires
        g.wf(),
    ensures
        tick_model(g, left_up, left_down, right_up, right_down).wf(),
{
    let l1 = paddle_step(g.left, left_up, left_down, g.court);
    let r1 = paddle_step(g.right, right_up, right_down, g.court);
    let b1 = ball_step(g.ball, g.court);
    let b2 = deflect(b1, l1);
    let b3 = deflect(b2, r1);
    lemma_paddle_step_placed(g.left, left_up, left_down, g.court);
    lemma_paddle_step_placed(g.right, right_up, right_down, g.court);
    lemma_ball_step_mid(g.ball, g.court);
    lemma_deflect_mid(b1, l1, g.court);
    lemma_deflect_mid(b2, r1, g.court);
    lemma_score_step_in_play(b3, l1.score, r1.score, g.court);
}

/// Law: the court is immutable and the scores only ever grow — each by at
/// most one per tick, and never both in the same tick.
pub proof fn lemma_tick_scores_monotonic(
    g: GameModel,
    left_up: bool,
    left_down: bool,
    right_up: bool,
    right_down: bool,
)
    ensures
        tick_model(g, left_up, left_down, right_up, right_down).court == g.court,
        g.left.score <= tick_model(g, left_up, left_down, right_up, right_down).left.score
            <= g.left.score + 1,
        g.right.score <= tick_model(g, left_up, left_down, right_up, right_down).right.score
            <= g.right.score + 1,
        tick_model(g, left_up, left_down, right_up, right_down).left.score + tick_model(
            g,
            left_up,
            left_down,
            right_up,
            right_down,
        ).right.score <= g.left.score + g.right.score + 1,
{
}

/// The whole executable game: the court, the ball, and the two players'
/// paddles, the left one defending the left side.
pub struct GameState {
    pub court: Court,
    pub ball: Ball,
    pub left: Paddle,
    pub right: Paddle,
}

impl View for GameState {
    type V = GameModel;

    open spec fn view(&self) -> GameModel {
        GameModel { court: self.court@, ball: self.ball@, left: self.left@, right: self.right@ }
    }
}

impl GameState {
    /// Well-formedness of the executable state is the model invariant.
    pub open spec fn wf(self) -> bool {
        self@.wf()
    }

    /// Assembles a game from its parts, which must satisfy the invariant.
    pub fn new(court: Court, ball: Ball, left: Paddle, right: Paddle) -> (g: GameState)
        requires
            court.wf(),
            ball.wf(),
            left.wf(),
            right.wf(),
            left@.placed(court@),
            right@.placed(court@),
            ball@.in_play(court@),
        ensures
            g.wf(),
            g@ == (GameModel { court: court@, ball: ball@, left: left@, right: right@ }),
    {
        GameState { court, ball, left, right }
    }

    /// Builds the standard layout from the screen dimensions: a court
    /// covering the screen and centred on the origin, a square ball in the
    /// middle whose side is 3% of the screen width, and one paddle per
    /// player — three quarters of a ball wide and 24% of the screen high —
    /// standing two paddle widths in from each side.  Velocities are the
    /// callers' to choose, as they depend on the tick rate.
    pub fn standard(
        screen_width: i64,
        screen_height: i64,
        ball_vx: i64,
        ball_vy: i64,
        paddle_speed: i64,
    ) -> (g: GameState)
        requires
            100 <= screen_width <= 1_000_000,
            100 <= screen_height <= 1_000_000,
            -crate::VEL_LIMIT <= ball_vx <= crate::VEL_LIMIT,
            -crate::VEL_LIMIT <= ball_vy <= crate::VEL_LIMIT,
            0 <= paddle_speed <= crate::VEL_LIMIT,
        ensures
            g.wf(),
            g@.court == (CourtModel {
                top: screen_height as int / 2,
                bottom: -(screen_height as int / 2),
                left: -(screen_width as int / 2),
                right: screen_width as int / 2,
            }),
            g@.ball == (BallModel {
                x: 0,
                y: 0,
                vx: ball_vx as int,
                vy: ball_vy as int,
                width: screen_width as int * 3 / 100,
                height: screen_width as int * 3 / 100,
            }),
            g@.left == (PaddleModel {
                x: -(screen_width as int / 2) + 2 * (screen_width as int * 3 / 100 * 3 / 4),
                y: 0,
                width: screen_width as int * 3 / 100 * 3 / 4,
                height: screen_height as int * 24 / 100,
                speed: paddle_speed as int,
                score: 0,
            }),
            g@.right == (PaddleModel {
                x: screen_width as int / 2 - 2 * (screen_width as int * 3 / 100 * 3 / 4),
                y: 0,
                width: screen_width as int * 3 / 100 * 3 / 4,
                height: screen_height as int * 24 / 100,
                speed: paddle_speed as int,
                score: 0,
            }),
    {
        let half_w: i64 = screen_width / 2;
        let half_h: i64 = screen_height / 2;
        let ball_size: i64 = screen_width * 3 / 100;
        let paddle_width: i64 = ball_size * 3 / 4;
        let paddle_height: i64 = screen_height * 24 / 100;
        let court = Court::new(half_h, -half_h, -half_w, half_w);
        let ball = Ball::new(0, 0, ball_vx, ball_vy, ball_size, ball_size);
        let left = Paddle::new(-half_w + 2 * paddle_width, 0, paddle_width, paddle_height, paddle_speed);
        let right = Paddle::new(half_w - 2 * paddle_width, 0, paddle_width, paddle_height, paddle_speed);
        GameState::new(court, ball, left, right)
    }

    /// Runs one fixed-timestep tick: moves both paddles by the held keys,
    /// moves the ball with wall reflection, deflects it off the left then
    /// the right paddle, and resolves scoring.  The exact result is
    /// [`tick_model`] of the previous state, and the invariant is preserved.
    ///
    /// A scored point only turns the ball's horizontal velocity around; the
    /// ball is not recentred here.  A caller that wants each point to start
    /// a fresh rally calls [`crate::serve`] after a tick on which a score
    /// changed — when to serve and with what velocity is the caller's
    /// choice.
    pub fn tick(&mut self, left_up: bool, left_down: bool, right_up: bool, right_down: bool)
        requires
            old(self).wf(),
            old(self).left.score < u64::MAX,
            old(self).right.score < u64::MAX,
        ensures
            final(self)@ == tick_model(old(self)@, left_up, left_down, right_up, right_down),
            final(self).wf(),
    {
        proof {
            lemma_tick_preserves_wf(self@, left_up, left_down, right_up, right_down);
            lemma_paddle_step_placed(self@.left, left_up, left_down, self@.court);
            lemma_paddle_step_placed(self@.right, right_up, right_down, self@.court);
        }
        paddle_movement(&mut self.left, left_up, left_down, &self.court);
        paddle_movement(&mut self.right, right_up, right_down, &self.court);
        proof {
            lemma_ball_step_mid(self@.ball, self@.court);
        }
        ball_movement(&mut self.ball, &self.court);
        proof {
            lemma_deflect_mid(self@.ball, self@.left, self@.court);
        }
        ball_collision(&mut self.ball, &self.left);
        proof {
            lemma_deflect_mid(self@.ball, self@.right, self@.court);
        }
        ball_collision(&mut self.ball, &self.right);
        score(&mut self.ball, &mut self.left, &mut self.right, &self.court);
    }
}

} // verus!
