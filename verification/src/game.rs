//! The game state and the exact rules of one frame.
//!
//! A frame runs in a fixed order: move the paddles
//! by the held keys, move the ball, reflect the ball off a paddle it has just
//! come into contact with (when the ray toward the paddle's center enters
//! through the face that looks at the court), steer the ball while a paddle
//! in contact is moving, bounce off the top and bottom borders, and finally
//! score and re-serve when the ball reaches a side border.

use vstd::prelude::*;

use crate::geom::Aabb;
use crate::geom::Vec2;
use crate::geom::boxes_touch;
use crate::geom::enters_left_face;
use crate::geom::enters_right_face;
use crate::geom::aabb_within;
use crate::geom::intersects;
use crate::geom::ray_enters_vertical_face;

verus! {

/// Paddle speed while a key is held, in milliunits per millisecond.
pub const PADDLE_SPEED: i64 = 300;

/// Paddle width in milliunits.
pub const PADDLE_WIDTH: i64 = 5_000;

/// Paddle height in milliunits.
pub const PADDLE_HEIGHT: i64 = 100_000;

/// Ball radius in milliunits.
pub const PONG_RADIUS: i64 = 5_000;

/// Gap between a side of the court and its paddle, in milliunits.
pub const PADDING: i64 = 20_000;

/// Ball speed, in milliunits per millisecond: the opening serve moves right
/// at this speed, and a moving paddle pushes the ball vertically at it.
pub const PONG_SPEED: i64 = 200;

/// Rightward speed of the serve after the right side scores a point.
pub const SERVE_SPEED: i64 = 150;

/// Distance from a side of the court to the scoring line behind each paddle:
/// the padding plus half the paddle width.
pub const SCORE_LINE_INSET: i64 = 22_500;

/// Both paddles start this far down from the top of the court.
pub const START_PADDLE_Y: i64 = 200_000;

/// Positions, paddle offsets and window sides stay within this many
/// milliunits, so that a frame's arithmetic fits in 64 bits.
pub const COORD_LIMIT: i64 = 1_000_000_000_000;

/// Border boxes stay within this many milliunits.
pub const BORDER_LIMIT: i64 = 2_000_000_000_000;

/// Velocity components stay within this many milliunits per millisecond.
pub const VEL_LIMIT: i64 = 1_000_000;

/// A frame's elapsed time is at most this many milliseconds.
pub const DT_LIMIT: i64 = 1_000_000;

/// A keyboard key as the game sees it: the four movement keys, and one
/// variant standing for every key that moves no paddle.
#[derive(Clone, Copy, Debug, PartialEq, Eq, Structural)]
pub enum GameKey {
    Up,
    Down,
    W,
    S,
    Other,
}

/// The ball: a position and a velocity on the milliunit grid.
#[derive(Clone, Copy, Debug, PartialEq, Eq, Structural)]
pub struct Pong {
    pub pos: Vec2,
    pub vel: Vec2,
}

impl Pong {
    /// One step of the only position integrator there is: explicit Euler
    /// with the frame's elapsed time.
    pub fn update(&mut self, dt: i64)
        requires
            0 <= dt <= DT_LIMIT,
            -COORD_LIMIT <= old(self).pos.x <= COORD_LIMIT,
            -COORD_LIMIT <= old(self).pos.y <= COORD_LIMIT,
            -VEL_LIMIT <= old(self).vel.x <= VEL_LIMIT,
            -VEL_LIMIT <= old(self).vel.y <= VEL_LIMIT,
        ensures
            final(self).pos.x == old(self).pos.x + old(self).vel.x * dt,
            final(self).pos.y == old(self).pos.y + old(self).vel.y * dt,
            final(self).vel == old(self).vel,
    {
        let vx: i64 = self.vel.x;
        let vy: i64 = self.vel.y;
        proof {
            assert(-1_000_000_000_000int <= (vx as int) * (dt as int)
                <= 1_000_000_000_000int) by (nonlinear_arith)
                requires
                    -1_000_000 <= vx <= 1_000_000,
                    0 <= dt <= 1_000_000,
            ;
            assert(-1_000_000_000_000int <= (vy as int) * (dt as int)
                <= 1_000_000_000_000int) by (nonlinear_arith)
                requires
                    -1_000_000 <= vy <= 1_000_000,
                    0 <= dt <= 1_000_000,
            ;
        }
        let dx: i64 = vx * dt;
        let dy: i64 = vy * dt;
        self.pos.x = self.pos.x + dx;
        self.pos.y = self.pos.y + dy;
    }
}

/// The whole game: scores, paddles, held keys, the ball, the window size as
/// last reported, the four border boxes, and which paddles the ball was in
/// contact with at the end of the previous frame.
#[derive(Clone, Copy, Debug)]
pub struct App {
    pub left_score: u64,
    pub right_score: u64,
    pub left_y: i64,
    pub right_y: i64,
    pub left_key: Option<GameKey>,
    pub right_key: Option<GameKey>,
    pub pong: Pong,
    pub window_w: i64,
    pub window_h: i64,
    pub border_left: Aabb,
    pub border_right: Aabb,
    pub border_top: Aabb,
    pub border_bottom: Aabb,
    pub left_contact: bool,
    pub right_contact: bool,
}

/// The machine-limit bounds under which a frame's arithmetic cannot
/// overflow.  These are generous — a milliunit grid of a thousand million
/// pixels — and say nothing about the game's rules.
pub open spec fn in_bounds(s: App) -> bool {
    &&& -COORD_LIMIT <= s.pong.pos.x <= COORD_LIMIT
    &&& -COORD_LIMIT <= s.pong.pos.y <= COORD_LIMIT
    &&& -VEL_LIMIT <= s.pong.vel.x <= VEL_LIMIT
    &&& -VEL_LIMIT <= s.pong.vel.y <= VEL_LIMIT
    &&& -COORD_LIMIT <= s.left_y <= COORD_LIMIT
    &&& -COORD_LIMIT <= s.right_y <= COORD_LIMIT
    &&& 0 <= s.window_w <= COORD_LIMIT
    &&& 0 <= s.window_h <= COORD_LIMIT
    &&& aabb_within(s.border_left, BORDER_LIMIT as int)
    &&& aabb_within(s.border_right, BORDER_LIMIT as int)
    &&& aabb_within(s.border_top, BORDER_LIMIT as int)
    &&& aabb_within(s.border_bottom, BORDER_LIMIT as int)
}

/// Where the left paddle's offset ends up: moved at paddle speed while its
/// key is held, untouched otherwise.  Screen y grows downward, so W moves up.
pub open spec fn moved_left_y(s: App, dt: int) -> int {
    match s.left_key {
        Some(GameKey::W) => s.left_y - PADDLE_SPEED * dt,
        Some(GameKey::S) => s.left_y + PADDLE_SPEED * dt,
        _ => s.left_y as int,
    }
}

/// Where the right paddle's offset ends up.
pub open spec fn moved_right_y(s: App, dt: int) -> int {
    match s.right_key {
        Some(GameKey::Up) => s.right_y - PADDLE_SPEED * dt,
        Some(GameKey::Down) => s.right_y + PADDLE_SPEED * dt,
        _ => s.right_y as int,
    }
}

/// The ball's x after this frame's straight-line motion.
pub open spec fn moved_ball_x(s: App, dt: int) -> int {
    s.pong.pos.x + s.pong.vel.x * dt
}

/// The ball's y after this frame's straight-line motion.
pub open spec fn moved_ball_y(s: App, dt: int) -> int {
    s.pong.pos.y + s.pong.vel.y * dt
}

/// The moved ball's bounding box touches the moved left paddle's box.
pub open spec fn ball_hits_left_paddle(s: App, dt: int) -> bool {
    boxes_touch(
        PADDING as int,
        moved_left_y(s, dt),
        PADDING + PADDLE_WIDTH,
        moved_left_y(s, dt) + PADDLE_HEIGHT,
        moved_ball_x(s, dt) - PONG_RADIUS,
        moved_ball_y(s, dt) - PONG_RADIUS,
        moved_ball_x(s, dt) + PONG_RADIUS,
        moved_ball_y(s, dt) + PONG_RADIUS,
    )
}

/// The moved ball's bounding box touches the moved right paddle's box.
pub open spec fn ball_hits_right_paddle(s: App, dt: int) -> bool {
    boxes_touch(
        s.window_w - PADDING - PADDLE_WIDTH,
        moved_right_y(s, dt),
        s.window_w - PADDING,
        moved_right_y(s, dt) + PADDLE_HEIGHT,
        moved_ball_x(s, dt) - PONG_RADIUS,
        moved_ball_y(s, dt) - PONG_RADIUS,
        moved_ball_x(s, dt) + PONG_RADIUS,
        moved_ball_y(s, dt) + PONG_RADIUS,
    )
}

/// The left paddle reflects the ball this frame: the ball has just come into
/// contact (it was not touching at the end of the previous frame), and the
/// ray from the ball's center toward the paddle box's center enters through
/// the paddle's right-hand face, the one that looks at the court.
pub open spec fn left_reflects(s: App, dt: int) -> bool {
    ball_hits_left_paddle(s, dt) && !s.left_contact && enters_right_face(
        PADDING as int,
        moved_left_y(s, dt),
        PADDING + PADDLE_WIDTH,
        moved_left_y(s, dt) + PADDLE_HEIGHT,
        moved_ball_x(s, dt),
        moved_ball_y(s, dt),
    )
}

/// The right paddle reflects the ball this frame, through its left-hand face.
pub open spec fn right_reflects(s: App, dt: int) -> bool {
    ball_hits_right_paddle(s, dt) && !s.right_contact && enters_left_face(
        s.window_w - PADDING - PADDLE_WIDTH,
        moved_right_y(s, dt),
        s.window_w - PADDING,
        moved_right_y(s, dt) + PADDLE_HEIGHT,
        moved_ball_x(s, dt),
        moved_ball_y(s, dt),
    )
}

/// The ball's horizontal velocity after both paddle reflections have had
/// their turn, each negating whatever the previous step left.
pub open spec fn vx_after_paddles(s: App, dt: int) -> int {
    let v0: int = s.pong.vel.x as int;
    let v1: int = if left_reflects(s, dt) {
        -v0
    } else {
        v0
    };
    if right_reflects(s, dt) {
        -v1
    } else {
        v1
    }
}

/// The ball's vertical velocity after steering: while a paddle is in contact
/// and its key is held, the ball's vertical velocity is overwritten with the
/// push speed in the key's direction.
pub open spec fn vy_after_steer(s: App, dt: int) -> int {
    let v0: int = s.pong.vel.y as int;
    let v1: int = if ball_hits_left_paddle(s, dt) {
        match s.left_key {
            Some(GameKey::W) => -PONG_SPEED as int,
            Some(GameKey::S) => PONG_SPEED as int,
            _ => v0,
        }
    } else {
        v0
    };
    if ball_hits_right_paddle(s, dt) {
        match s.right_key {
            Some(GameKey::Up) => -PONG_SPEED as int,
            Some(GameKey::Down) => PONG_SPEED as int,
            _ => v1,
        }
    } else {
        v1
    }
}

/// The moved ball's box touches the top or the bottom border.
pub open spec fn ball_hits_wall(s: App, dt: int) -> bool {
    aabbs_touch_ball(s, dt, s.border_bottom) || aabbs_touch_ball(s, dt, s.border_top)
}

/// The moved ball's bounding box touches the given stored box.
pub open spec fn aabbs_touch_ball(s: App, dt: int, b: Aabb) -> bool {
    boxes_touch(
        moved_ball_x(s, dt) - PONG_RADIUS,
        moved_ball_y(s, dt) - PONG_RADIUS,
        moved_ball_x(s, dt) + PONG_RADIUS,
        moved_ball_y(s, dt) + PONG_RADIUS,
        b.min_x as int,
        b.min_y as int,
        b.max_x as int,
        b.max_y as int,
    )
}

/// The ball's vertical velocity after the wall bounce.
pub open spec fn vy_after_wall(s: App, dt: int) -> int {
    if ball_hits_wall(s, dt) {
        -vy_after_steer(s, dt)
    } else {
        vy_after_steer(s, dt)
    }
}

/// The moved ball reached the left border: the right side scores.
pub open spec fn ball_out_left(s: App, dt: int) -> bool {
    aabbs_touch_ball(s, dt, s.border_left)
}

/// The moved ball reached the right border: the left side scores.
pub open spec fn ball_out_right(s: App, dt: int) -> bool {
    aabbs_touch_ball(s, dt, s.border_right)
}

/// The ball's x at the end of the frame: the middle of the stored window
/// after a point, the straight-line position otherwise.
pub open spec fn updated_ball_x(s: App, dt: int) -> int {
    if ball_out_left(s, dt) || ball_out_right(s, dt) {
        s.window_w / 2
    } else {
        moved_ball_x(s, dt)
    }
}

/// The ball's y at the end of the frame.
pub open spec fn updated_ball_y(s: App, dt: int) -> int {
    if ball_out_left(s, dt) || ball_out_right(s, dt) {
        s.window_h / 2
    } else {
        moved_ball_y(s, dt)
    }
}

/// The ball's horizontal velocity at the end of the frame.  A point re-serves
/// the ball toward the side that just scored, the right border's serve
/// overriding the left's when the ball somehow reached both.
pub open spec fn updated_vel_x(s: App, dt: int) -> int {
    if ball_out_right(s, dt) {
        -PONG_SPEED as int
    } else if ball_out_left(s, dt) {
        SERVE_SPEED as int
    } else {
        vx_after_paddles(s, dt)
    }
}

/// The ball's vertical velocity at the end of the frame: a serve is level.
pub open spec fn updated_vel_y(s: App, dt: int) -> int {
    if ball_out_left(s, dt) || ball_out_right(s, dt) {
        0
    } else {
        vy_after_wall(s, dt)
    }
}

/// The left score at the end of the frame.
pub open spec fn updated_left_score(s: App, dt: int) -> int {
    s.left_score + if ball_out_right(s, dt) {
        1int
    } else {
        0int
    }
}

/// The right score at the end of the frame.
pub open spec fn updated_right_score(s: App, dt: int) -> int {
    s.right_score + if ball_out_left(s, dt) {
        1int
    } else {
        0int
    }
}

/// What pressing a key leaves as the left side's active key: W or S take it
/// over, every other key leaves it alone.
pub open spec fn press_left(cur: Option<GameKey>, k: GameKey) -> Option<GameKey> {
    match k {
        GameKey::W => Some(GameKey::W),
        GameKey::S => Some(GameKey::S),
        _ => cur,
    }
}

/// What pressing a key leaves as the right side's active key.
pub open spec fn press_right(cur: Option<GameKey>, k: GameKey) -> Option<GameKey> {
    match k {
        GameKey::Up => Some(GameKey::Up),
        GameKey::Down => Some(GameKey::Down),
        _ => cur,
    }
}

/// What releasing a key leaves as the left side's active key: releasing
/// either of the left side's keys clears it, whichever of the two was
/// active; every other key leaves it alone.
pub open spec fn release_left(cur: Option<GameKey>, k: GameKey) -> Option<GameKey> {
    match k {
        GameKey::W => None,
        GameKey::S => None,
        _ => cur,
    }
}

/// What releasing a key leaves as the right side's active key.
pub open spec fn release_right(cur: Option<GameKey>, k: GameKey) -> Option<GameKey> {
    match k {
        GameKey::Up => None,
        GameKey::Down => None,
        _ => cur,
    }
}

/// Floor of half of a non-negative count.
fn half_of(x: i64) -> (r: i64)
    requires
        0 <= x,
    ensures
        r == x as int / 2,
{
    ((x as u64) / 2) as i64
}

impl App {
    /// A fresh game in a window of the given size: both scores zero, paddles
    /// at their start offset, no key held, the ball serving rightward from
    /// the center, and the borders lying on the window's four edges.
    pub fn new(w: i64, h: i64) -> (s: App)
        requires
            0 <= w <= COORD_LIMIT,
            0 <= h <= COORD_LIMIT,
        ensures
            s.left_score == 0,
            s.right_score == 0,
            s.left_y == START_PADDLE_Y,
            s.right_y == START_PADDLE_Y,
            s.left_key is None,
            s.right_key is None,
            s.pong.pos.x == w as int / 2,
            s.pong.pos.y == h as int / 2,
            s.pong.vel.x == PONG_SPEED,
            s.pong.vel.y == 0,
            s.window_w == w,
            s.window_h == h,
            s.border_top == (Aabb { min_x: 0, min_y: 0, max_x: w, max_y: 0 }),
            s.border_bottom == (Aabb { min_x: 0, min_y: h, max_x: w, max_y: h }),
            s.border_left == (Aabb { min_x: 0, min_y: 0, max_x: 0, max_y: h }),
            s.border_right == (Aabb { min_x: w, min_y: 0, max_x: w, max_y: h }),
            !s.left_contact,
            !s.right_contact,
            in_bounds(s),
    {
        App {
            left_score: 0,
            right_score: 0,
            left_y: START_PADDLE_Y,
            right_y: START_PADDLE_Y,
            left_key: None,
            right_key: None,
            pong: Pong {
                pos: Vec2 { x: half_of(w), y: half_of(h) },
                vel: Vec2 { x: PONG_SPEED, y: 0 },
            },
            window_w: w,
            window_h: h,
            border_top: Aabb { min_x: 0, min_y: 0, max_x: w, max_y: 0 },
            border_bottom: Aabb { min_x: 0, min_y: h, max_x: w, max_y: h },
            border_left: Aabb { min_x: 0, min_y: 0, max_x: 0, max_y: h },
            border_right: Aabb { min_x: w, min_y: 0, max_x: w, max_y: h },
            left_contact: false,
            right_contact: false,
        }
    }

    /// A key went down.  The four movement keys each take over their side's
    /// active key — pressing a second key overwrites the first — and every
    /// other key changes nothing.
    pub fn key_press(&mut self, k: GameKey)
        ensures
            *final(self) == (App {
                left_key: press_left(old(self).left_key, k),
                right_key: press_right(old(self).right_key, k),
                ..*old(self)
            }),
    {
        match k {
            GameKey::Up => self.right_key = Some(GameKey::Up),
            GameKey::Down => self.right_key = Some(GameKey::Down),
            GameKey::W => self.left_key = Some(GameKey::W),
            GameKey::S => self.left_key = Some(GameKey::S),
            GameKey::Other => {},
        }
    }

    /// A key went up.  Releasing either of a side's movement keys clears
    /// that side's active key no matter which of the two was active; every
    /// other key changes nothing.
    pub fn key_release(&mut self, k: GameKey)
        ensures
            *final(self) == (App {
                left_key: release_left(old(self).left_key, k),
                right_key: release_right(old(self).right_key, k),
                ..*old(self)
            }),
    {
        match k {
            GameKey::Up => self.right_key = None,
            GameKey::Down => self.right_key = None,
            GameKey::W => self.left_key = None,
            GameKey::S => self.left_key = None,
            GameKey::Other => {},
        }
    }

    /// The render step's bookkeeping: the four borders are rebuilt from the
    /// window size stored on the previous frame — the side borders standing on the scoring lines
    /// behind the paddles — and only then is the newly reported size stored.
    /// Border geometry therefore lags the reported size by one frame, on
    /// purpose.
    pub fn refresh_viewport(&mut self, w: i64, h: i64)
        requires
            0 <= old(self).window_w <= COORD_LIMIT,
            0 <= old(self).window_h <= COORD_LIMIT,
            0 <= w <= COORD_LIMIT,
            0 <= h <= COORD_LIMIT,
        ensures
            *final(self) == (App {
                border_top: Aabb {
                    min_x: 0,
                    min_y: 0,
                    max_x: old(self).window_w,
                    max_y: 0,
                },
                border_bottom: Aabb {
                    min_x: 0,
                    min_y: old(self).window_h,
                    max_x: old(self).window_w,
                    max_y: old(self).window_h,
                },
                border_left: Aabb {
                    min_x: SCORE_LINE_INSET,
                    min_y: 0,
                    max_x: SCORE_LINE_INSET,
                    max_y: old(self).window_h,
                },
                border_right: Aabb {
                    min_x: (old(self).window_w - SCORE_LINE_INSET) as i64,
                    min_y: 0,
                    max_x: (old(self).window_w - SCORE_LINE_INSET) as i64,
                    max_y: old(self).window_h,
                },
                window_w: w,
                window_h: h,
                ..*old(self)
            }),
    {
        self.border_top = Aabb { min_x: 0, min_y: 0, max_x: self.window_w, max_y: 0 };
        self.border_bottom = Aabb {
            min_x: 0,
            min_y: self.window_h,
            max_x: self.window_w,
            max_y: self.window_h,
        };
        self.border_left = Aabb {
            min_x: SCORE_LINE_INSET,
            min_y: 0,
            max_x: SCORE_LINE_INSET,
            max_y: self.window_h,
        };
        self.border_right = Aabb {
            min_x: self.window_w - SCORE_LINE_INSET,
            min_y: 0,
            max_x: self.window_w - SCORE_LINE_INSET,
            max_y: self.window_h,
        };
        self.window_w = w;
        self.window_h = h;
    }

    /// One frame of the game, `dt` milliseconds long.
    #[verifier::rlimit(100)]
    pub fn update(&mut self, dt: i64)
        requires
            in_bounds(*old(self)),
            0 <= dt <= DT_LIMIT,
            old(self).left_score < u64::MAX,
            old(self).right_score < u64::MAX,
        ensures
            final(self).left_y == moved_left_y(*old(self), dt as int),
            final(self).right_y == moved_right_y(*old(self), dt as int),
            final(self).pong.pos.x == updated_ball_x(*old(self), dt as int),
            final(self).pong.pos.y == updated_ball_y(*old(self), dt as int),
            final(self).pong.vel.x == updated_vel_x(*old(self), dt as int),
            final(self).pong.vel.y == updated_vel_y(*old(self), dt as int),
            final(self).left_score == updated_left_score(*old(self), dt as int),
            final(self).right_score == updated_right_score(*old(self), dt as int),
            final(self).left_contact == ball_hits_left_paddle(*old(self), dt as int),
            final(self).right_contact == ball_hits_right_paddle(*old(self), dt as int),
            final(self).left_key == old(self).left_key,
            final(self).right_key == old(self).right_key,
            final(self).window_w == old(self).window_w,
            final(self).window_h == old(self).window_h,
            final(self).border_left == old(self).border_left,
            final(self).border_right == old(self).border_right,
            final(self).border_top == old(self).border_top,
            final(self).border_bottom == old(self).border_bottom,
    {
        let ghost s0 = *old(self);
        let ghost dti = dt as int;

        match self.left_key {
            Some(GameKey::W) => self.left_y = self.left_y - PADDLE_SPEED * dt,
            Some(GameKey::S) => self.left_y = self.left_y + PADDLE_SPEED * dt,
            _ => {},
        }
        match self.right_key {
            Some(GameKey::Up) => self.right_y = self.right_y - PADDLE_SPEED * dt,
            Some(GameKey::Down) => self.right_y = self.right_y + PADDLE_SPEED * dt,
            _ => {},
        }
        assert(self.left_y == moved_left_y(s0, dti));
        assert(self.right_y == moved_right_y(s0, dti));

        self.pong.update(dt);
        assert(self.pong.pos.x == moved_ball_x(s0, dti));
        assert(self.pong.pos.y == moved_ball_y(s0, dti));
        proof {
            assert(-1_000_000_000_000int <= (s0.pong.vel.x as int) * (dt as int)
                <= 1_000_000_000_000int) by (nonlinear_arith)
                requires
                    -1_000_000 <= s0.pong.vel.x <= 1_000_000,
                    0 <= dt <= 1_000_000,
            ;
            assert(-1_000_000_000_000int <= (s0.pong.vel.y as int) * (dt as int)
                <= 1_000_000_000_000int) by (nonlinear_arith)
                requires
                    -1_000_000 <= s0.pong.vel.y <= 1_000_000,
                    0 <= dt <= 1_000_000,
            ;
        }

        let ball_box = Aabb {
            min_x: self.pong.pos.x - PONG_RADIUS,
            min_y: self.pong.pos.y - PONG_RADIUS,
            max_x: self.pong.pos.x + PONG_RADIUS,
            max_y: self.pong.pos.y + PONG_RADIUS,
        };
        let left_box = Aabb {
            min_x: PADDING,
            min_y: self.left_y,
            max_x: PADDING + PADDLE_WIDTH,
            max_y: self.left_y + PADDLE_HEIGHT,
        };
        let right_box = Aabb {
            min_x: self.window_w - PADDING - PADDLE_WIDTH,
            min_y: self.right_y,
            max_x: self.window_w - PADDING,
            max_y: self.right_y + PADDLE_HEIGHT,
        };

        let touch_left = intersects(&left_box, &ball_box);
        let touch_right = intersects(&right_box, &ball_box);
        assert(touch_left == ball_hits_left_paddle(s0, dti));
        assert(touch_right == ball_hits_right_paddle(s0, dti));

        if touch_left && !self.left_contact && self.pong.pos.x >= left_box.max_x
            && ray_enters_vertical_face(&left_box, self.pong.pos.x, self.pong.pos.y) {
            self.pong.vel.x = -self.pong.vel.x;
        }
        if touch_right && !self.right_contact && self.pong.pos.x <= right_box.min_x
            && ray_enters_vertical_face(&right_box, self.pong.pos.x, self.pong.pos.y) {
            self.pong.vel.x = -self.pong.vel.x;
        }
        assert(self.pong.vel.x == vx_after_paddles(s0, dti));

        if touch_left {
            match self.left_key {
                Some(GameKey::W) => self.pong.vel.y = -PONG_SPEED,
                Some(GameKey::S) => self.pong.vel.y = PONG_SPEED,
                _ => {},
            }
        }
        if touch_right {
            match self.right_key {
                Some(GameKey::Up) => self.pong.vel.y = -PONG_SPEED,
                Some(GameKey::Down) => self.pong.vel.y = PONG_SPEED,
                _ => {},
            }
        }
        assert(self.pong.vel.y == vy_after_steer(s0, dti));

        if intersects(&ball_box, &self.border_bottom) || intersects(&ball_box, &self.border_top) {
            self.pong.vel.y = -self.pong.vel.y;
        }
        assert(self.pong.vel.y == vy_after_wall(s0, dti));

        let out_left = intersects(&ball_box, &self.border_left);
        let out_right = intersects(&ball_box, &self.border_right);
        assert(out_left == ball_out_left(s0, dti));
        assert(out_right == ball_out_right(s0, dti));

        if out_left {
            self.pong.pos = Vec2 { x: half_of(self.window_w), y: half_of(self.window_h) };
            self.pong.vel = Vec2 { x: SERVE_SPEED, y: 0 };
            self.right_score = self.right_score + 1;
        }
        if out_right {
            self.pong.pos = Vec2 { x: half_of(self.window_w), y: half_of(self.window_h) };
            self.pong.vel = Vec2 { x: -PONG_SPEED, y: 0 };
            self.left_score = self.left_score + 1;
        }

        self.left_contact = touch_left;
        self.right_contact = touch_right;
    }
}

} // verus!
