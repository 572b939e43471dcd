//! The laws of the game, each proved once and for all states.
//!
//! Every lemma here speaks in the same spec functions that `App::update`,
//! `App::key_press` and `App::key_release` promise in their contracts, so
//! what is proved of the spec functions holds of every run of the game.

use vstd::prelude::*;

use crate::game::App;
use crate::game::GameKey;
use crate::game::PADDLE_SPEED;
use crate::game::ball_hits_left_paddle;
use crate::game::ball_hits_right_paddle;
use crate::game::ball_hits_wall;
use crate::game::ball_out_left;
use crate::game::ball_out_right;
use crate::game::left_reflects;
use crate::game::moved_left_y;
use crate::game::moved_right_y;
use crate::game::press_left;
use crate::game::press_right;
use crate::game::release_left;
use crate::game::release_right;
use crate::game::right_reflects;
use crate::game::updated_ball_x;
use crate::game::updated_ball_y;
use crate::game::updated_left_score;
use crate::game::updated_right_score;
use crate::game::updated_vel_x;
use crate::game::updated_vel_y;

verus! {

/// A frame without any collision moves the ball in a straight line: the new
/// position is exactly the old position plus velocity times elapsed time,
/// and velocity and scores are untouched.
pub proof fn lemma_free_flight(s: App, dt: int)
    requires
        !ball_hits_left_paddle(s, dt),
        !ball_hits_right_paddle(s, dt),
        !ball_hits_wall(s, dt),
        !ball_out_left(s, dt),
        !ball_out_right(s, dt),
    ensures
        updated_ball_x(s, dt) == s.pong.pos.x + s.pong.vel.x * dt,
        updated_ball_y(s, dt) == s.pong.pos.y + s.pong.vel.y * dt,
        updated_vel_x(s, dt) == s.pong.vel.x,
        updated_vel_y(s, dt) == s.pong.vel.y,
        updated_left_score(s, dt) == s.left_score,
        updated_right_score(s, dt) == s.right_score,
{
}

/// A reflection that fires alone — one paddle, no point scored the same
/// frame — flips the sign of the ball's horizontal velocity exactly once.
pub proof fn lemma_reflection_flips_sign(s: App, dt: int)
    requires
        left_reflects(s, dt) != right_reflects(s, dt),
        !ball_out_left(s, dt),
        !ball_out_right(s, dt),
    ensures
        updated_vel_x(s, dt) == -s.pong.vel.x,
{
}

/// A reflection fires only on entry into contact, never again while the
/// contact lasts: whatever frame follows one that found the ball touching a
/// paddle, that paddle cannot reflect again, because the update records the
/// contact and a recorded contact blocks the reflection.  `s2` is any state
/// whose contact flags the update's contract produced from frame `(s, dt)`.
pub proof fn lemma_reflect_once_per_contact(s: App, dt: int, s2: App, dt2: int)
    requires
        s2.left_contact == ball_hits_left_paddle(s, dt),
        s2.right_contact == ball_hits_right_paddle(s, dt),
    ensures
        ball_hits_left_paddle(s, dt) ==> !left_reflects(s2, dt2),
        ball_hits_right_paddle(s, dt) ==> !right_reflects(s2, dt2),
{
}

/// The ball reaching the left border always scores exactly one point for the
/// right side and re-centers the ball at the midpoint of the stored window
/// size; the left score moves only if the ball reached the right border too.
pub proof fn lemma_left_border_scores_right(s: App, dt: int)
    requires
        ball_out_left(s, dt),
    ensures
        updated_right_score(s, dt) == s.right_score + 1,
        updated_ball_x(s, dt) == s.window_w / 2,
        updated_ball_y(s, dt) == s.window_h / 2,
        !ball_out_right(s, dt) ==> updated_left_score(s, dt) == s.left_score,
{
}

/// The mirror of `lemma_left_border_scores_right`: the right border scores
/// one point for the left side and re-centers the ball.
pub proof fn lemma_right_border_scores_left(s: App, dt: int)
    requires
        ball_out_right(s, dt),
    ensures
        updated_left_score(s, dt) == s.left_score + 1,
        updated_ball_x(s, dt) == s.window_w / 2,
        updated_ball_y(s, dt) == s.window_h / 2,
        !ball_out_left(s, dt) ==> updated_right_score(s, dt) == s.right_score,
{
}

/// Scores never go down, whatever the frame does.
pub proof fn lemma_scores_monotone(s: App, dt: int)
    ensures
        updated_left_score(s, dt) >= s.left_score,
        updated_right_score(s, dt) >= s.right_score,
{
}

/// A paddle moves in a frame exactly when its key is held: held keys move
/// their paddle by paddle speed times elapsed time in the key's direction,
/// and a paddle whose side holds no key does not move at all.
pub proof fn lemma_paddle_follows_key(s: App, dt: int)
    ensures
        s.left_key is None ==> moved_left_y(s, dt) == s.left_y,
        s.left_key == Some(GameKey::W) ==> moved_left_y(s, dt) == s.left_y - PADDLE_SPEED * dt,
        s.left_key == Some(GameKey::S) ==> moved_left_y(s, dt) == s.left_y + PADDLE_SPEED * dt,
        moved_left_y(s, dt) != s.left_y ==> (s.left_key == Some(GameKey::W) || s.left_key
            == Some(GameKey::S)),
        s.right_key is None ==> moved_right_y(s, dt) == s.right_y,
        s.right_key == Some(GameKey::Up) ==> moved_right_y(s, dt) == s.right_y - PADDLE_SPEED
            * dt,
        s.right_key == Some(GameKey::Down) ==> moved_right_y(s, dt) == s.right_y + PADDLE_SPEED
            * dt,
        moved_right_y(s, dt) != s.right_y ==> (s.right_key == Some(GameKey::Up) || s.right_key
            == Some(GameKey::Down)),
{
}

/// Releasing a key that moves no paddle changes neither side's active key;
/// releasing one side's key never touches the other side; and a side with no
/// active key still has none after any release.  (Releasing a side's other
/// movement key, though, does clear that side — by design.)
pub proof fn lemma_release_spares_the_unconcerned(
    cur_left: Option<GameKey>,
    cur_right: Option<GameKey>,
    k: GameKey,
)
    ensures
        release_left(cur_left, GameKey::Other) == cur_left,
        release_right(cur_right, GameKey::Other) == cur_right,
        release_left(cur_left, GameKey::Up) == cur_left,
        release_left(cur_left, GameKey::Down) == cur_left,
        release_right(cur_right, GameKey::W) == cur_right,
        release_right(cur_right, GameKey::S) == cur_right,
        cur_left is None ==> release_left(cur_left, k) is None,
        cur_right is None ==> release_right(cur_right, k) is None,
{
}

/// Pressing a key that moves no paddle changes neither side's active key.
pub proof fn lemma_press_other_is_ignored(cur_left: Option<GameKey>, cur_right: Option<GameKey>)
    ensures
        press_left(cur_left, GameKey::Other) == cur_left,
        press_right(cur_right, GameKey::Other) == cur_right,
{
}

} // verus!
