//! Ball/paddle collision: axis-aligned bounding-box overlap, face
//! determination and the deflection response.

use vstd::prelude::*;
use crate::ball::Ball;
use crate::ball::BallModel;
use crate::paddle::Paddle;
use crate::paddle::PaddleModel;

verus! {

/// The face of a paddle the ball struck.
#[derive(Clone, Copy, Debug, PartialEq, Eq, Structural)]
pub enum Contact {
    Left,
    Right,
    Top,
    Bottom,
}

/// Magnitude of an integer.
pub open spec fn int_abs(v: int) -> int {
    if v >= 0 { v } else { -v }
}

/// Whether the ball's and the paddle's boxes overlap: on each axis the
/// centres are closer than the two half-extents together.  Comparisons are
/// strict, so boxes that merely touch do not overlap.  Doubling both sides
/// keeps the test exact for odd sizes.
pub open spec fn overlaps(b: BallModel, p: PaddleModel) -> bool {
    &&& 2 * int_abs(b.x - p.x) < b.width + p.width
    &&& 2 * int_abs(b.y - p.y) < b.height + p.height
}

/// The face struck, if the boxes overlap.  The axis of shallower penetration
/// decides, the side of that axis the ball's centre lies on names the face.
/// Ties are broken deterministically: equal penetration picks the horizontal
/// axis, a centre exactly on the paddle's centre line picks `Left` on the
/// horizontal axis and `Bottom` on the vertical one.
pub open spec fn contact_face(b: BallModel, p: PaddleModel) -> Option<Contact> {
    if !overlaps(b, p) {
        Option::None
    } else {
        let x_pen = b.width + p.width - 2 * int_abs(b.x - p.x);
        let y_pen = b.height + p.height - 2 * int_abs(b.y - p.y);
        if x_pen <= y_pen {
            if b.x <= p.x { Option::Some(Contact::Left) } else { Option::Some(Contact::Right) }
        } else {
            if b.y <= p.y { Option::Some(Contact::Bottom) } else { Option::Some(Contact::Top) }
        }
    }
}

/// The flush distance between the centres of two boxes that touch along an
/// axis: the two half-extents together, rounded up.  When the sizes sum to
/// an even number this is exactly half the one plus half the other; the
/// round-up covers an odd sum, where any smaller whole distance would leave
/// the boxes still overlapping.
pub open spec fn flush_offset(a: int, b: int) -> int {
    (a + b + 1) / 2
}

/// The deflection response on the model.  A struck vertical face reflects
/// the horizontal velocity and sets the ball flush against that face, half a
/// ball width plus half a paddle width (rounded up) from the paddle's
/// centre; a struck horizontal face forces the vertical velocity away from
/// the paddle and sets the ball flush above or below.  Flush means the boxes
/// no longer overlap, so the same contact cannot trigger again.
pub open spec fn deflect(b: BallModel, p: PaddleModel) -> BallModel {
    match contact_face(b, p) {
        Option::None => b,
        Option::Some(Contact::Left) => BallModel {
            vx: -b.vx,
            x: p.x - flush_offset(b.width, p.width),
            ..b
        },
        Option::Some(Contact::Right) => BallModel {
            vx: -b.vx,
            x: p.x + flush_offset(b.width, p.width),
            ..b
        },
        Option::Some(Contact::Top) => BallModel {
            vy: int_abs(b.vy),
            y: p.y + flush_offset(b.height, p.height),
            ..b
        },
        Option::Some(Contact::Bottom) => BallModel {
            vy: -int_abs(b.vy),
            y: p.y - flush_offset(b.height, p.height),
            ..b
        },
    }
}

/// Overlap test and face determination, exactly as [`contact_face`] states.
pub fn collide(ball: &Ball, paddle: &Paddle) -> (r: Option<Contact>)
    requires
        ball.wf(),
        paddle.wf(),
        -crate::PLAY_LIMIT <= ball.x <= crate::PLAY_LIMIT,
        -crate::PLAY_LIMIT <= ball.y <= crate::PLAY_LIMIT,
        -crate::PLAY_LIMIT <= paddle.x <= crate::PLAY_LIMIT,
        -crate::PLAY_LIMIT <= paddle.y <= crate::PLAY_LIMIT,
    ensures
        r == contact_face(ball@, paddle@),
{
    let dx: i64 = ball.x - paddle.x;
    let adx: i64 = if dx >= 0 { dx } else { -dx };
    let dy: i64 = ball.y - paddle.y;
    let ady: i64 = if dy >= 0 { dy } else { -dy };
    if !(2 * adx < ball.width + paddle.width && 2 * ady < ball.height + paddle.height) {
        return Option::None;
    }
    let x_pen: i64 = ball.width + paddle.width - 2 * adx;
    let y_pen: i64 = ball.height + paddle.height - 2 * ady;
    if x_pen <= y_pen {
        if ball.x <= paddle.x {
            Option::Some(Contact::Left)
        } else {
            Option::Some(Contact::Right)
        }
    } else {
        if ball.y <= paddle.y {
            Option::Some(Contact::Bottom)
        } else {
            Option::Some(Contact::Top)
        }
    }
}

/// Applies the deflection response against one paddle, exactly as
/// [`deflect`] states.  A ball that does not overlap the paddle is left
/// unchanged.
pub fn ball_collision(ball: &mut Ball, paddle: &Paddle)
    requires
        old(ball).wf(),
        paddle.wf(),
        -crate::PLAY_LIMIT <= old(ball).x <= crate::PLAY_LIMIT,
        -crate::PLAY_LIMIT <= old(ball).y <= crate::PLAY_LIMIT,
        -crate::PLAY_LIMIT <= paddle.x <= crate::PLAY_LIMIT,
        -crate::PLAY_LIMIT <= paddle.y <= crate::PLAY_LIMIT,
    ensures
        final(ball)@ == deflect(old(ball)@, paddle@),
        final(ball).wf(),
{
    let face = collide(ball, paddle);
    match face {
        Option::None => {},
        Option::Some(Contact::Left) => {
            ball.vx = -ball.vx;
            ball.x = paddle.x - (ball.width + paddle.width + 1) / 2;
        },
        Option::Some(Contact::Right) => {
            ball.vx = -ball.vx;
            ball.x = paddle.x + (ball.width + paddle.width + 1) / 2;
        },
        Option::Some(Contact::Top) => {
            ball.vy = if ball.vy >= 0 { ball.vy } else { -ball.vy };
            ball.y = paddle.y + (ball.height + paddle.height + 1) / 2;
        },
        Option::Some(Contact::Bottom) => {
            ball.vy = if ball.vy >= 0 { -ball.vy } else { ball.vy };
            ball.y = paddle.y - (ball.height + paddle.height + 1) / 2;
        },
    }
}

/// Law: an overlap resolved on the paddle's left face reflects the
/// horizontal velocity and repositions the ball exactly half a ball width
/// plus half a paddle width to the left of the paddle's centre (the exact
/// half-sum whenever the two widths sum to an even number, one more
/// otherwise), leaving all other ball fields unchanged.
pub proof fn lemma_left_face_deflection(b: BallModel, p: PaddleModel)
    requires
        contact_face(b, p) == Option::Some(Contact::Left),
    ensures
        deflect(b, p).vx == -b.vx,
        deflect(b, p).x == p.x - flush_offset(b.width, p.width),
        (b.width + p.width) % 2 == 0 ==> deflect(b, p).x == p.x - (b.width + p.width) / 2,
        b.width % 2 == 0 && p.width % 2 == 0 ==> deflect(b, p).x == p.x - (b.width / 2 + p.width
            / 2),
        deflect(b, p).y == b.y,
        deflect(b, p).vy == b.vy,
        deflect(b, p).width == b.width,
        deflect(b, p).height == b.height,
{
}

/// Law: a deflection separates the boxes — after the flush reposition the
/// ball no longer overlaps the paddle it struck, so the same contact cannot
/// trigger again on the next test.
pub proof fn lemma_deflect_clears_overlap(b: BallModel, p: PaddleModel)
    requires
        b.wf(),
        p.wf(),
        contact_face(b, p) is Some,
    ensures
        !overlaps(deflect(b, p), p),
{
}

} // verus!
