use pong::game::App;
use pong::game::GameKey;
use pong::game::Pong;
use pong::geom::Aabb;
use pong::geom::Vec2;

fn fresh() -> App {
    App::new(400_000, 400_000)
}

#[test]
fn new_game_starts_centered() {
    let app = fresh();
    assert_eq!(app.left_score, 0);
    assert_eq!(app.right_score, 0);
    assert_eq!(app.left_y, 200_000);
    assert_eq!(app.right_y, 200_000);
    assert_eq!(app.left_key, None);
    assert_eq!(app.right_key, None);
    assert_eq!(app.pong.pos, Vec2 { x: 200_000, y: 200_000 });
    assert_eq!(app.pong.vel, Vec2 { x: 200, y: 0 });
    assert_eq!(app.window_w, 400_000);
    assert_eq!(app.window_h, 400_000);
    assert_eq!(app.border_top, Aabb { min_x: 0, min_y: 0, max_x: 400_000, max_y: 0 });
    assert_eq!(app.border_bottom, Aabb { min_x: 0, min_y: 400_000, max_x: 400_000, max_y: 400_000 });
    assert_eq!(app.border_left, Aabb { min_x: 0, min_y: 0, max_x: 0, max_y: 400_000 });
    assert_eq!(app.border_right, Aabb { min_x: 400_000, min_y: 0, max_x: 400_000, max_y: 400_000 });
    assert!(!app.left_contact);
    assert!(!app.right_contact);
}

#[test]
fn new_game_halves_odd_sizes_downward() {
    let app = App::new(401_001, 333_333);
    assert_eq!(app.pong.pos, Vec2 { x: 200_500, y: 166_666 });
}

#[test]
fn ball_flies_straight_without_collision() {
    let mut app = fresh();
    app.pong.vel = Vec2 { x: 10, y: 5 };
    app.update(100);
    assert_eq!(app.pong.pos, Vec2 { x: 201_000, y: 200_500 });
    assert_eq!(app.pong.vel, Vec2 { x: 10, y: 5 });
    assert_eq!(app.left_score, 0);
    assert_eq!(app.right_score, 0);
    assert!(!app.left_contact);
    assert!(!app.right_contact);
}

#[test]
fn pong_moves_by_velocity_times_time() {
    let mut ball = Pong { pos: Vec2 { x: 1_000, y: 2_000 }, vel: Vec2 { x: -3, y: 7 } };
    ball.update(500);
    assert_eq!(ball.pos, Vec2 { x: -500, y: 5_500 });
    assert_eq!(ball.vel, Vec2 { x: -3, y: 7 });
}

#[test]
fn right_boundary_scores_for_the_left_side() {
    // A 400 by 400 pixel window, the ball at the center moving right at
    // 200 px/s, a one-second frame: the ball lands exactly on the right
    // border, the left side scores, and the ball is re-centered.
    let mut app = fresh();
    app.update(1_000);
    assert_eq!(app.left_score, 1);
    assert_eq!(app.right_score, 0);
    assert_eq!(app.pong.pos, Vec2 { x: 200_000, y: 200_000 });
    assert_eq!(app.pong.vel, Vec2 { x: -200, y: 0 });
}

#[test]
fn left_boundary_scores_for_the_right_side() {
    let mut app = fresh();
    app.pong.pos = Vec2 { x: 3_000, y: 200_000 };
    app.pong.vel = Vec2 { x: -100, y: 0 };
    app.update(0);
    assert_eq!(app.right_score, 1);
    assert_eq!(app.left_score, 0);
    assert_eq!(app.pong.pos, Vec2 { x: 200_000, y: 200_000 });
    assert_eq!(app.pong.vel, Vec2 { x: 150, y: 0 });
}

#[test]
fn paddle_hit_reflects_and_steers_upward() {
    // The left paddle spans y in [200, 300] px, the ball sits at (25, 250) px
    // touching the paddle's court-side face while W is held: the horizontal
    // velocity flips and the vertical velocity becomes the upward push.
    let mut app = fresh();
    app.pong.pos = Vec2 { x: 25_000, y: 250_000 };
    app.pong.vel = Vec2 { x: -200, y: 0 };
    app.key_press(GameKey::W);
    app.update(0);
    assert_eq!(app.pong.vel, Vec2 { x: 200, y: -200 });
    assert_eq!(app.pong.pos, Vec2 { x: 25_000, y: 250_000 });
    assert!(app.left_contact);
}

#[test]
fn paddle_hit_steers_downward_with_s() {
    let mut app = fresh();
    app.pong.pos = Vec2 { x: 25_000, y: 250_000 };
    app.pong.vel = Vec2 { x: -200, y: 0 };
    app.key_press(GameKey::S);
    app.update(0);
    assert_eq!(app.pong.vel.x, 200);
    assert_eq!(app.pong.vel.y, 200);
}

#[test]
fn right_paddle_reflects_and_steers() {
    let mut app = fresh();
    app.pong.pos = Vec2 { x: 375_000, y: 250_000 };
    app.pong.vel = Vec2 { x: 200, y: 0 };
    app.key_press(GameKey::Up);
    app.update(0);
    assert_eq!(app.pong.vel, Vec2 { x: -200, y: -200 });
    assert!(app.right_contact);
}

#[test]
fn touch_from_behind_does_not_reflect() {
    // The ball grazes the left paddle's back face: contact is recorded but
    // the ray toward the paddle's center enters through the wrong face, so
    // the horizontal velocity keeps its sign.
    let mut app = fresh();
    app.pong.pos = Vec2 { x: 15_000, y: 250_000 };
    app.pong.vel = Vec2 { x: 100, y: 0 };
    app.update(0);
    assert_eq!(app.pong.vel, Vec2 { x: 100, y: 0 });
    assert!(app.left_contact);
}

#[test]
fn corner_graze_does_not_reflect() {
    // The ray from the ball's center toward the paddle box's center passes
    // exactly through the box's corner: neither face counts, no reflection.
    let mut app = fresh();
    app.pong.pos = Vec2 { x: 25_250, y: 305_000 };
    app.pong.vel = Vec2 { x: -40, y: -40 };
    app.update(0);
    assert_eq!(app.pong.vel, Vec2 { x: -40, y: -40 });
    assert!(app.left_contact);
}

#[test]
fn sustained_contact_reflects_only_once() {
    let mut app = fresh();
    app.pong.pos = Vec2 { x: 25_000, y: 250_000 };
    app.pong.vel = Vec2 { x: -200, y: 0 };
    app.update(0);
    assert_eq!(app.pong.vel.x, 200);
    // The ball has not moved and still touches the paddle; without the
    // contact debounce this frame would flip the sign right back.
    app.update(0);
    assert_eq!(app.pong.vel.x, 200);
}

#[test]
fn top_wall_bounces_the_ball() {
    let mut app = fresh();
    app.pong.pos = Vec2 { x: 200_000, y: 10_000 };
    app.pong.vel = Vec2 { x: 0, y: -10 };
    app.update(1_000);
    assert_eq!(app.pong.pos, Vec2 { x: 200_000, y: 0 });
    assert_eq!(app.pong.vel, Vec2 { x: 0, y: 10 });
}

#[test]
fn bottom_wall_bounces_the_ball() {
    let mut app = fresh();
    app.pong.pos = Vec2 { x: 200_000, y: 390_000 };
    app.pong.vel = Vec2 { x: 0, y: 10 };
    app.update(1_000);
    assert_eq!(app.pong.pos, Vec2 { x: 200_000, y: 400_000 });
    assert_eq!(app.pong.vel, Vec2 { x: 0, y: -10 });
}

#[test]
fn paddles_move_only_while_keys_are_held() {
    let mut app = fresh();
    app.update(100);
    assert_eq!(app.left_y, 200_000);
    assert_eq!(app.right_y, 200_000);
    app.key_press(GameKey::W);
    app.key_press(GameKey::Down);
    app.update(100);
    assert_eq!(app.left_y, 170_000);
    assert_eq!(app.right_y, 230_000);
    app.key_release(GameKey::W);
    app.key_release(GameKey::Down);
    app.update(100);
    assert_eq!(app.left_y, 170_000);
    assert_eq!(app.right_y, 230_000);
}

#[test]
fn press_overwrites_the_active_key() {
    let mut app = fresh();
    app.key_press(GameKey::Up);
    app.key_press(GameKey::Down);
    assert_eq!(app.right_key, Some(GameKey::Down));
    app.key_press(GameKey::W);
    app.key_press(GameKey::S);
    assert_eq!(app.left_key, Some(GameKey::S));
}

#[test]
fn release_clears_the_side_whichever_key_was_active() {
    let mut app = fresh();
    app.key_press(GameKey::Up);
    app.key_release(GameKey::Down);
    assert_eq!(app.right_key, None);
    app.key_press(GameKey::S);
    app.key_release(GameKey::W);
    assert_eq!(app.left_key, None);
}

#[test]
fn unmapped_keys_change_nothing() {
    let mut app = fresh();
    app.key_press(GameKey::W);
    app.key_press(GameKey::Up);
    app.key_press(GameKey::Other);
    assert_eq!(app.left_key, Some(GameKey::W));
    assert_eq!(app.right_key, Some(GameKey::Up));
    app.key_release(GameKey::Other);
    assert_eq!(app.left_key, Some(GameKey::W));
    assert_eq!(app.right_key, Some(GameKey::Up));
}

#[test]
fn release_on_an_idle_side_stays_idle() {
    let mut app = fresh();
    app.key_release(GameKey::Up);
    app.key_release(GameKey::S);
    assert_eq!(app.left_key, None);
    assert_eq!(app.right_key, None);
}

#[test]
fn releasing_one_side_spares_the_other() {
    let mut app = fresh();
    app.key_press(GameKey::W);
    app.key_press(GameKey::Down);
    app.key_release(GameKey::Up);
    assert_eq!(app.left_key, Some(GameKey::W));
    assert_eq!(app.right_key, None);
}

#[test]
fn viewport_refresh_rebuilds_borders_from_the_previous_size() {
    let mut app = fresh();
    app.refresh_viewport(500_000, 300_000);
    // Borders come from the size stored before the call.
    assert_eq!(app.border_top, Aabb { min_x: 0, min_y: 0, max_x: 400_000, max_y: 0 });
    assert_eq!(app.border_bottom, Aabb { min_x: 0, min_y: 400_000, max_x: 400_000, max_y: 400_000 });
    assert_eq!(app.border_left, Aabb { min_x: 22_500, min_y: 0, max_x: 22_500, max_y: 400_000 });
    assert_eq!(app.border_right, Aabb { min_x: 377_500, min_y: 0, max_x: 377_500, max_y: 400_000 });
    assert_eq!(app.window_w, 500_000);
    assert_eq!(app.window_h, 300_000);
    // A second refresh shows the one-frame lag: borders now use the size
    // the previous call stored.
    app.refresh_viewport(420_000, 410_000);
    assert_eq!(app.border_right, Aabb { min_x: 477_500, min_y: 0, max_x: 477_500, max_y: 300_000 });
    assert_eq!(app.border_bottom, Aabb { min_x: 0, min_y: 300_000, max_x: 500_000, max_y: 300_000 });
    assert_eq!(app.window_w, 420_000);
    assert_eq!(app.window_h, 410_000);
}

#[test]
fn scoring_line_sits_behind_the_paddle_after_a_refresh() {
    let mut app = fresh();
    app.refresh_viewport(400_000, 400_000);
    app.pong.pos = Vec2 { x: 22_000, y: 50_000 };
    app.pong.vel = Vec2 { x: -100, y: 0 };
    app.update(0);
    assert_eq!(app.right_score, 1);
    assert_eq!(app.pong.pos, Vec2 { x: 200_000, y: 200_000 });
    assert_eq!(app.pong.vel, Vec2 { x: 150, y: 0 });
}
