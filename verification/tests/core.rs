//! Scenario tests for the verified game core.

use pong::Ball;
use pong::Contact;
use pong::Court;
use pong::GameState;
use pong::Paddle;
use pong::ball_collision;
use pong::ball_movement;
use pong::collide;
use pong::paddle_movement;
use pong::score;
use pong::serve;

fn demo_court() -> Court {
    Court::new(450, -450, -800, 800)
}

#[test]
fn ball_reflects_at_top_wall() {
    // Court top 450, ball at y = 449 moving up by 4: one tick clamps the
    // ball to the top wall and flips the vertical velocity.
    let court = demo_court();
    let mut ball = Ball::new(0, 449, 3, 4, 48, 48);
    ball_movement(&mut ball, &court);
    assert_eq!(ball.y, 450);
    assert_eq!(ball.vy, -4);
    assert_eq!(ball.x, 3);
    assert_eq!(ball.vx, 3);
}

#[test]
fn ball_reflects_at_bottom_wall() {
    let court = demo_court();
    let mut ball = Ball::new(10, -449, 0, -4, 48, 48);
    ball_movement(&mut ball, &court);
    assert_eq!(ball.y, -450);
    assert_eq!(ball.vy, 4);
    assert_eq!(ball.x, 10);
}

#[test]
fn ball_starting_beyond_wall_is_clamped() {
    // Already past the top wall and still moving outward: clamped to the
    // wall, velocity flipped.
    let court = demo_court();
    let mut ball = Ball::new(0, 460, 0, 2, 48, 48);
    ball_movement(&mut ball, &court);
    assert_eq!(ball.y, 450);
    assert_eq!(ball.vy, -2);
}

#[test]
fn ball_moves_freely_between_walls() {
    let court = demo_court();
    let mut ball = Ball::new(5, 7, 4, -3, 48, 48);
    ball_movement(&mut ball, &court);
    assert_eq!((ball.x, ball.y, ball.vx, ball.vy), (9, 4, 4, -3));
}

#[test]
fn paddle_moves_up_unclamped() {
    // Paddle at y = 100 with speed 5 and "up" held; the effective maximum is
    // 450 - 108 = 342, so the paddle simply moves to 105.
    let court = demo_court();
    let mut paddle = Paddle::new(-728, 100, 36, 216, 5);
    paddle_movement(&mut paddle, true, false, &court);
    assert_eq!(paddle.y, 105);
}

#[test]
fn paddle_moves_down() {
    let court = demo_court();
    let mut paddle = Paddle::new(-728, 100, 36, 216, 5);
    paddle_movement(&mut paddle, false, true, &court);
    assert_eq!(paddle.y, 95);
}

#[test]
fn paddle_idles_without_input() {
    let court = demo_court();
    let mut paddle = Paddle::new(-728, 100, 36, 216, 5);
    paddle_movement(&mut paddle, false, false, &court);
    assert_eq!(paddle.y, 100);
}

#[test]
fn paddle_up_wins_when_both_keys_held() {
    let court = demo_court();
    let mut paddle = Paddle::new(-728, 100, 36, 216, 5);
    paddle_movement(&mut paddle, true, true, &court);
    assert_eq!(paddle.y, 105);
}

#[test]
fn paddle_clamps_at_top() {
    let court = demo_court();
    let mut paddle = Paddle::new(-728, 340, 36, 216, 5);
    paddle_movement(&mut paddle, true, false, &court);
    assert_eq!(paddle.y, 342);
}

#[test]
fn paddle_stays_in_court_over_many_ticks() {
    // Holding "up" for a long run never pushes the paddle past
    // top - half height = 342, and holding "down" never below -342.
    let court = demo_court();
    let mut paddle = Paddle::new(-728, 0, 36, 216, 5);
    for _ in 0..200 {
        paddle_movement(&mut paddle, true, false, &court);
        assert!(paddle.y <= 342);
        assert!(paddle.y >= -342);
    }
    assert_eq!(paddle.y, 342);
    for _ in 0..200 {
        paddle_movement(&mut paddle, false, true, &court);
        assert!(paddle.y <= 342);
        assert!(paddle.y >= -342);
    }
    assert_eq!(paddle.y, -342);
}

#[test]
fn collide_reports_left_face() {
    let ball = Ball::new(-10, 0, 4, 4, 48, 48);
    let paddle = Paddle::new(20, 0, 36, 216, 5);
    assert_eq!(collide(&ball, &paddle), Some(Contact::Left));
}

#[test]
fn collide_reports_right_face() {
    let ball = Ball::new(50, 0, -4, 4, 48, 48);
    let paddle = Paddle::new(20, 0, 36, 216, 5);
    assert_eq!(collide(&ball, &paddle), Some(Contact::Right));
}

#[test]
fn collide_reports_top_face() {
    let ball = Ball::new(30, 225, 4, -4, 48, 48);
    let paddle = Paddle::new(0, 100, 36, 216, 5);
    assert_eq!(collide(&ball, &paddle), Some(Contact::Top));
}

#[test]
fn collide_reports_bottom_face() {
    let ball = Ball::new(30, -25, 4, 4, 48, 48);
    let paddle = Paddle::new(0, 100, 36, 216, 5);
    assert_eq!(collide(&ball, &paddle), Some(Contact::Bottom));
}

#[test]
fn collide_reports_no_contact_apart() {
    let ball = Ball::new(200, 0, 4, 4, 48, 48);
    let paddle = Paddle::new(0, 0, 36, 216, 5);
    assert_eq!(collide(&ball, &paddle), None);
}

#[test]
fn collide_touching_boxes_do_not_overlap() {
    // Half widths 24 + 18 = 42: centres exactly 42 apart only touch.
    let ball = Ball::new(42, 0, 4, 4, 48, 48);
    let paddle = Paddle::new(0, 0, 36, 216, 5);
    assert_eq!(collide(&ball, &paddle), None);
}

#[test]
fn left_face_deflection_repositions_ball() {
    // Overlap on the paddle's left face: the horizontal velocity is
    // reflected and the ball lands exactly half a ball width plus half a
    // paddle width (24 + 18) left of the paddle's centre.
    let mut ball = Ball::new(-10, 0, 4, 3, 48, 48);
    let paddle = Paddle::new(20, 0, 36, 216, 5);
    ball_collision(&mut ball, &paddle);
    assert_eq!(ball.vx, -4);
    assert_eq!(ball.x, 20 - (24 + 18));
    assert_eq!(ball.y, 0);
    assert_eq!(ball.vy, 3);
}

#[test]
fn right_face_deflection_repositions_ball() {
    let mut ball = Ball::new(50, 0, -4, 3, 48, 48);
    let paddle = Paddle::new(20, 0, 36, 216, 5);
    ball_collision(&mut ball, &paddle);
    assert_eq!(ball.vx, 4);
    assert_eq!(ball.x, 20 + (24 + 18));
}

#[test]
fn top_face_deflection_forces_ball_upward() {
    let mut ball = Ball::new(30, 225, 4, -6, 48, 48);
    let paddle = Paddle::new(0, 100, 36, 216, 5);
    ball_collision(&mut ball, &paddle);
    assert_eq!(ball.vy, 6);
    assert_eq!(ball.y, 100 + (24 + 108));
    assert_eq!(ball.x, 30);
    assert_eq!(ball.vx, 4);
}

#[test]
fn bottom_face_deflection_forces_ball_downward() {
    let mut ball = Ball::new(30, -25, 4, 6, 48, 48);
    let paddle = Paddle::new(0, 100, 36, 216, 5);
    ball_collision(&mut ball, &paddle);
    assert_eq!(ball.vy, -6);
    assert_eq!(ball.y, 100 - (24 + 108));
}

#[test]
fn odd_size_deflection_clears_overlap() {
    // Odd sizes: 49-wide ball, 37-wide paddle.  The flush offset rounds up
    // to (49 + 37 + 1) / 2 = 43, so the repositioned ball no longer
    // overlaps the paddle and the contact cannot re-trigger.
    let mut ball = Ball::new(-10, 0, 4, 3, 49, 49);
    let paddle = Paddle::new(20, 0, 37, 217, 5);
    assert_eq!(collide(&ball, &paddle), Some(Contact::Left));
    ball_collision(&mut ball, &paddle);
    assert_eq!(ball.x, 20 - 43);
    assert_eq!(ball.vx, -4);
    assert_eq!(collide(&ball, &paddle), None);
}

#[test]
fn no_overlap_leaves_ball_unchanged() {
    let mut ball = Ball::new(200, 10, 4, 6, 48, 48);
    let paddle = Paddle::new(0, 0, 36, 216, 5);
    ball_collision(&mut ball, &paddle);
    assert_eq!((ball.x, ball.y, ball.vx, ball.vy), (200, 10, 4, 6));
}

#[test]
fn right_exit_scores_left_player() {
    // Ball fully past the right edge: its left edge 850 - 24 is beyond 800.
    // The left-side player is credited one point, the other score is
    // untouched, and the ball turns back.
    let court = demo_court();
    let mut ball = Ball::new(850, 0, 6, 2, 48, 48);
    let mut left = Paddle::new(-728, 0, 36, 216, 5);
    let mut right = Paddle::new(728, 0, 36, 216, 5);
    score(&mut ball, &mut left, &mut right, &court);
    assert_eq!(left.score, 1);
    assert_eq!(right.score, 0);
    assert_eq!(ball.vx, -6);
    assert_eq!(ball.x, 850);
}

#[test]
fn left_exit_scores_right_player() {
    let court = demo_court();
    let mut ball = Ball::new(-850, 0, -6, 2, 48, 48);
    let mut left = Paddle::new(-728, 0, 36, 216, 5);
    let mut right = Paddle::new(728, 0, 36, 216, 5);
    score(&mut ball, &mut left, &mut right, &court);
    assert_eq!(left.score, 0);
    assert_eq!(right.score, 1);
    assert_eq!(ball.vx, 6);
}

#[test]
fn ball_inside_court_scores_nobody() {
    let court = demo_court();
    let mut ball = Ball::new(0, 0, 6, 2, 48, 48);
    let mut left = Paddle::new(-728, 0, 36, 216, 5);
    let mut right = Paddle::new(728, 0, 36, 216, 5);
    score(&mut ball, &mut left, &mut right, &court);
    assert_eq!(left.score, 0);
    assert_eq!(right.score, 0);
    assert_eq!(ball.vx, 6);
    assert_eq!(ball.x, 0);
}

#[test]
fn ball_just_at_edge_scores_nobody() {
    // The ball's left edge sits exactly on the bound: 824 - 24 = 800 is not
    // beyond it, so no point yet.
    let court = demo_court();
    let mut ball = Ball::new(824, 0, 6, 2, 48, 48);
    let mut left = Paddle::new(-728, 0, 36, 216, 5);
    let mut right = Paddle::new(728, 0, 36, 216, 5);
    score(&mut ball, &mut left, &mut right, &court);
    assert_eq!(left.score, 0);
    assert_eq!(right.score, 0);
    assert_eq!(ball.vx, 6);
}

#[test]
fn ball_just_past_edge_scores() {
    // One unit farther the left edge clears the bound: 825 - 24 = 801 > 800.
    let court = demo_court();
    let mut ball = Ball::new(825, 0, 6, 2, 48, 48);
    let mut left = Paddle::new(-728, 0, 36, 216, 5);
    let mut right = Paddle::new(728, 0, 36, 216, 5);
    score(&mut ball, &mut left, &mut right, &court);
    assert_eq!(left.score, 1);
    assert_eq!(right.score, 0);
    assert_eq!(ball.vx, -6);
}

#[test]
fn ball_half_width_past_edge_scores() {
    // A 48-wide ball at x = 830 is fully past right = 800 (left edge 806),
    // though its centre is less than a full width beyond the bound.
    let court = demo_court();
    let mut ball = Ball::new(830, 0, 6, 2, 48, 48);
    let mut left = Paddle::new(-728, 0, 36, 216, 5);
    let mut right = Paddle::new(728, 0, 36, 216, 5);
    score(&mut ball, &mut left, &mut right, &court);
    assert_eq!(left.score, 1);
    assert_eq!(right.score, 0);
    assert_eq!(ball.vx, -6);
}

#[test]
fn serve_recentres_ball() {
    let court = demo_court();
    let mut ball = Ball::new(850, -30, -6, 2, 48, 48);
    serve(&mut ball, &court, 4, -4);
    assert_eq!((ball.x, ball.y, ball.vx, ball.vy), (0, 0, 4, -4));
}

#[test]
fn standard_layout_matches_screen() {
    // 1600 x 900 screen: ball side 48, paddle 36 x 216, paddles two paddle
    // widths in from the sides.
    let game = GameState::standard(1600, 900, 4, 4, 7);
    assert_eq!(game.court.top, 450);
    assert_eq!(game.court.bottom, -450);
    assert_eq!(game.court.left, -800);
    assert_eq!(game.court.right, 800);
    assert_eq!((game.ball.x, game.ball.y), (0, 0));
    assert_eq!((game.ball.width, game.ball.height), (48, 48));
    assert_eq!((game.ball.vx, game.ball.vy), (4, 4));
    assert_eq!((game.left.width, game.left.height), (36, 216));
    assert_eq!(game.left.x, -800 + 72);
    assert_eq!(game.right.x, 800 - 72);
    assert_eq!(game.left.y, 0);
    assert_eq!(game.left.speed, 7);
    assert_eq!((game.left.score, game.right.score), (0, 0));
}

#[test]
fn tick_moves_ball_and_paddles() {
    let mut game = GameState::standard(1600, 900, 4, 4, 7);
    game.tick(true, false, false, true);
    assert_eq!((game.ball.x, game.ball.y), (4, 4));
    assert_eq!(game.left.y, 7);
    assert_eq!(game.right.y, -7);
    assert_eq!((game.left.score, game.right.score), (0, 0));
}

#[test]
fn tick_scores_when_ball_escapes_right() {
    let mut game = GameState::standard(1600, 900, 60, 0, 7);
    game.ball.x = 790;
    game.tick(false, false, false, false);
    assert_eq!(game.ball.x, 850);
    assert_eq!(game.left.score, 1);
    assert_eq!(game.right.score, 0);
    assert_eq!(game.ball.vx, -60);
}

#[test]
fn tick_deflects_ball_off_right_paddle() {
    // The right paddle guards x = 728; a ball arriving on its left face is
    // sent back and repositioned flush against the face.
    let mut game = GameState::standard(1600, 900, 20, 0, 7);
    game.ball.x = 680;
    game.tick(false, false, false, false);
    assert_eq!(game.ball.x, 728 - (24 + 18));
    assert_eq!(game.ball.vx, -20);
    assert_eq!((game.left.score, game.right.score), (0, 0));
}
