//! Decisions of the paddle-and-ball toy: how the keys push the paddle and how
//! the ball bounces off it.
use vstd::prelude::*;

verus! {

/// Speed given to the paddle per fixed step while an arrow key is held.
pub const PADDLE_PUSH: i32 = 10;

/// The horizontal push on the paddle in one fixed step: leftwards while the
/// left arrow is held, rightwards while the right arrow is held, both cancel.
pub fn paddle_push(left_pressed: bool, right_pressed: bool) -> (r: i32)
    ensures
        r == (if right_pressed {
            PADDLE_PUSH
        } else {
            0
        }) - (if left_pressed {
            PADDLE_PUSH
        } else {
            0
        }),
{
    let mut push: i32 = 0;
    if left_pressed {
        push = push - PADDLE_PUSH;
    }
    if right_pressed {
        push = push + PADDLE_PUSH;
    }
    push
}

/// The side of the paddle on which the ball touches it.
#[derive(Clone, Copy, Debug, PartialEq, Eq, Structural)]
pub enum CollisionSide {
    Left,
    Right,
    Top,
    Bottom,
    Inside,
}

/// What a ball-paddle contact does: whether a collision event is sent, and
/// which components of the ball's velocity change sign.
#[derive(Clone, Copy, Debug, PartialEq, Eq, Structural)]
pub struct CollisionResponse {
    pub send_event: bool,
    pub flip_x: bool,
    pub flip_y: bool,
}

/// A contact on the left or right side reverses the horizontal motion.
pub open spec fn reverses_x(side: CollisionSide) -> bool {
    side == CollisionSide::Left || side == CollisionSide::Right
}

/// A contact on the top or bottom side reverses the vertical motion.
pub open spec fn reverses_y(side: CollisionSide) -> bool {
    side == CollisionSide::Top || side == CollisionSide::Bottom
}

/// The response to the outcome of the ball-paddle overlap test: nothing
/// without contact; otherwise an event, and a bounce off the side touched
/// (none when the ball is inside the paddle).
pub fn collision_response(collision: Option<CollisionSide>) -> (r: CollisionResponse)
    ensures
        r.send_event == collision.is_some(),
        r.flip_x == (collision.is_some() && reverses_x(collision.unwrap())),
        r.flip_y == (collision.is_some() && reverses_y(collision.unwrap())),
{
    match collision {
        None => CollisionResponse { send_event: false, flip_x: false, flip_y: false },
        Some(side) => match side {
            CollisionSide::Left | CollisionSide::Right => CollisionResponse {
                send_event: true,
                flip_x: true,
                flip_y: false,
            },
            CollisionSide::Top | CollisionSide::Bottom => CollisionResponse {
                send_event: true,
                flip_x: false,
                flip_y: true,
            },
            CollisionSide::Inside => CollisionResponse {
                send_event: true,
                flip_x: false,
                flip_y: false,
            },
        },
    }
}

} // verus!
