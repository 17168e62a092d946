//! Scoring: detecting that the ball has fully passed a side of the court,
//! crediting the defending player, and serving the ball anew.

use vstd::prelude::*;
use crate::ball::Ball;
use crate::ball::BallModel;
use crate::court::Court;
use crate::court::CourtModel;
use crate::paddle::Paddle;
use crate::paddle::PaddleModel;

verus! {

/// The ball has fully passed the court's right edge: its left edge, half a
/// width from its centre, is beyond the bound.
pub open spec fn passed_right(b: BallModel, c: CourtModel) -> bool {
    b.x - b.width / 2 > c.right
}

/// The ball has fully passed the court's left edge: its right edge, half a
/// width from its centre, is beyond the bound.
pub open spec fn passed_left(b: BallModel, c: CourtModel) -> bool {
    b.x + b.width / 2 < c.left
}

/// The ball with its horizontal velocity reversed.
pub open spec fn flip_vx(b: BallModel) -> BallModel {
    BallModel { vx: -b.vx, ..b }
}

/// One scoring step on the model, taking the two scores as integers.  A ball
/// past the right edge credits the left-side player; a ball past the left
/// edge credits the right-side player; either way the horizontal velocity is
/// reversed so the ball heads back toward the court.  Otherwise nothing
/// changes.  On a well-formed court the two exits are mutually exclusive.
pub open spec fn score_step(b: BallModel, left_score: int, right_score: int, c: CourtModel) -> (
    BallModel,
    int,
    int,
) {
    if passed_right(b, c) {
        (flip_vx(b), left_score + 1, right_score)
    } else if passed_left(b, c) {
        (flip_vx(b), left_score, right_score + 1)
    } else {
        (b, left_score, right_score)
    }
}

/// Detects a scored point and applies it, exactly as [`score_step`] states:
/// the defending player's score is incremented and the ball's horizontal
/// velocity reversed; everything else is untouched.  The ball is
/// deliberately not recentred here — that is [`serve`], at the caller's
/// choice of moment and velocity.
pub fn score(ball: &mut Ball, left: &mut Paddle, right: &mut Paddle, court: &Court)
    requires
        old(ball).wf(),
        old(left).wf(),
        old(right).wf(),
        court.wf(),
        -crate::PLAY_LIMIT <= old(ball).x <= crate::PLAY_LIMIT,
        old(left).score < u64::MAX,
        old(right).score < u64::MAX,
    ensures
        final(ball)@ == score_step(old(ball)@, old(left)@.score, old(right)@.score, court@).0,
        final(left)@ == (PaddleModel {
            score: score_step(old(ball)@, old(left)@.score, old(right)@.score, court@).1,
            ..old(left)@
        }),
        final(right)@ == (PaddleModel {
            score: score_step(old(ball)@, old(left)@.score, old(right)@.score, court@).2,
            ..old(right)@
        }),
        final(ball).wf(),
        final(left).wf(),
        final(right).wf(),
{
    if ball.x - ball.width / 2 > court.right {
        left.score = left.score + 1;
        ball.vx = -ball.vx;
    } else if ball.x + ball.width / 2 < court.left {
        right.score = right.score + 1;
        ball.vx = -ball.vx;
    }
}

/// Recentres the ball in the court and gives it a fresh serve velocity.
/// The centre is computed from the left and bottom bounds upward, so it is
/// exact on a well-formed court whatever the signs of the bounds.
pub fn serve(ball: &mut Ball, court: &Court, vx: i64, vy: i64)
    requires
        old(ball).wf(),
        court.wf(),
        -crate::VEL_LIMIT <= vx <= crate::VEL_LIMIT,
        -crate::VEL_LIMIT <= vy <= crate::VEL_LIMIT,
    ensures
        final(ball)@ == (BallModel {
            x: court@.left + (court@.right - court@.left) / 2,
            y: court@.bottom + (court@.top - court@.bottom) / 2,
            vx: vx as int,
            vy: vy as int,
            ..old(ball)@
        }),
        final(ball).wf(),
{
    ball.x = court.left + (court.right - court.left) / 2;
    ball.y = court.bottom + (court.top - court.bottom) / 2;
    ball.vx = vx;
    ball.vy = vy;
}

/// Law: when the ball has fully passed the court's right edge, one scoring
/// step increments the left-side player's score by exactly one, leaves the
/// right-side player's score unchanged, and only reverses the ball's
/// horizontal velocity.
pub proof fn lemma_right_exit_scores_left(b: BallModel, left_score: int, right_score: int, c: CourtModel)
    requires
        c.wf(),
        b.wf(),
        passed_right(b, c),
    ensures
        score_step(b, left_score, right_score, c).1 == left_score + 1,
        score_step(b, left_score, right_score, c).2 == right_score,
        score_step(b, left_score, right_score, c).0 == flip_vx(b),
{
}

/// Law: when the ball has fully passed the court's left edge, one scoring
/// step increments the right-side player's score by exactly one, leaves the
/// left-side player's score unchanged, and only reverses the ball's
/// horizontal velocity.
pub proof fn lemma_left_exit_scores_right(b: BallModel, left_score: int, right_score: int, c: CourtModel)
    requires
        c.wf(),
        b.wf(),
        passed_left(b, c),
    ensures
        score_step(b, left_score, right_score, c).1 == left_score,
        score_step(b, left_score, right_score, c).2 == right_score + 1,
        score_step(b, left_score, right_score, c).0 == flip_vx(b),
{
}

} // verus!
