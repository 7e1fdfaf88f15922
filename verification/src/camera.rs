//! What a first-person camera takes from one frame of input: how far to
//! turn, and the direction, in its own frame, in which it is asked to move.

use crate::input::{Button, InputModel, InputState};
use crate::vector::{offset_of, Offset};
use cgmath::Vector2;
use vstd::prelude::*;

verus! {

/// One step along an axis for the button that points up it, one step back for
/// the button that points down it: held together, the two cancel.
pub open spec fn axis(up: bool, down: bool) -> int {
    (if up { 1int } else { 0int }) - (if down { 1int } else { 0int })
}

/// The direction of movement that the held buttons ask for. Right is `+x`
/// and left is `-x`; forward is `-y` and backward is `+y`.
pub open spec fn input_direction(input: InputModel) -> Offset {
    Offset {
        x: axis(input.held.contains(Button::MoveRight), input.held.contains(Button::MoveLeft)),
        y: axis(
            input.held.contains(Button::MoveBackward),
            input.held.contains(Button::MoveForward),
        ),
    }
}

/// The direction of movement that the held buttons ask for, each component
/// -1, 0 or 1. The zero vector asks for no movement at all, and a caller must
/// not normalise it.
pub fn input_dir(input: &InputState) -> (dir: Vector2<i32>)
    ensures
        offset_of(dir) == input_direction(input@),
{
    let mut x: i32 = 0;
    let mut y: i32 = 0;
    if input.get(Button::MoveForward) {
        y -= 1;
    }
    if input.get(Button::MoveBackward) {
        y += 1;
    }
    if input.get(Button::MoveRight) {
        x += 1;
    }
    if input.get(Button::MoveLeft) {
        x -= 1;
    }
    Vector2::new(x, y)
}

/// What a camera is to do with one frame of input.
#[derive(Clone, Copy, Debug)]
pub struct Steering {
    /// The pointer's travel to turn the view by: `x` turns it about the
    /// vertical axis, `y` tilts it.
    pub look: Vector2<i32>,
    /// The direction to move in, in the camera's own frame, still to be
    /// turned into the world and brought to unit length. `None` where no
    /// movement is asked for: there is no direction then to bring to unit
    /// length.
    pub direction: Option<Vector2<i32>>,
}

/// What a [`Steering`] stands for.
pub struct SteeringModel {
    pub look: Offset,
    pub direction: Option<Offset>,
}

impl View for Steering {
    type V = SteeringModel;

    open spec fn view(&self) -> SteeringModel {
        SteeringModel {
            look: offset_of(self.look),
            direction: match self.direction {
                Some(dir) => Some(offset_of(dir)),
                None => None,
            },
        }
    }
}

/// The steering that `input` asks for: turn by the travel of the frame, and
/// move in the direction of the held buttons unless that is the zero vector.
pub open spec fn steering_of(input: InputModel) -> SteeringModel {
    SteeringModel {
        look: input.frame_mouse,
        direction: if input_direction(input) == Offset::zero() {
            None
        } else {
            Some(input_direction(input))
        },
    }
}

/// Reads from `input` what a camera is to do this tick. The input itself is
/// left as it is: ending the frame is the game's business.
pub fn steering(input: &InputState) -> (steer: Steering)
    ensures
        steer@ == steering_of(input@),
{
    let dir = input_dir(input);
    let direction = if dir.x == 0 && dir.y == 0 {
        None
    } else {
        Some(dir)
    };
    Steering { look: input.frame_mouse(), direction }
}

/// A direction that is handed out is never the zero vector, and each of its
/// components is -1, 0 or 1: turned and brought to unit length, it moves the
/// camera equally fast along an axis and along a diagonal.
pub proof fn lemma_direction_is_not_zero(input: InputModel)
    ensures
        match steering_of(input).direction {
            Some(dir) => {
                &&& dir != Offset::zero()
                &&& -1 <= dir.x <= 1
                &&& -1 <= dir.y <= 1
                &&& dir == input_direction(input)
            },
            None => input_direction(input) == Offset::zero(),
        },
{
}

/// Opposing buttons cancel: with forward and backward both held the
/// direction has no component along that axis, and likewise for right and
/// left. With both pairs cancelling, or the other pair idle, no movement is
/// asked for.
pub proof fn lemma_opposing_buttons_cancel(input: InputModel)
    ensures
        input.held.contains(Button::MoveForward) == input.held.contains(Button::MoveBackward)
            <==> input_direction(input).y == 0,
        input.held.contains(Button::MoveRight) == input.held.contains(Button::MoveLeft)
            <==> input_direction(input).x == 0,
        -1 <= input_direction(input).x <= 1,
        -1 <= input_direction(input).y <= 1,
        input.held.contains(Button::MoveForward) && input.held.contains(Button::MoveBackward)
            && input.held.contains(Button::MoveRight) == input.held.contains(Button::MoveLeft)
            ==> input_direction(input) == Offset::zero() && steering_of(input).direction is None,
{
}

/// A single movement button asks for one step along its own axis and none
/// along the other: forward alone is `(0, -1)`, and so on round.
pub proof fn lemma_single_button_direction(input: InputModel, button: Button)
    requires
        button != Button::Menu,
        forall|other: Button|
            other != Button::Menu ==> (input.held.contains(other) <==> other == button),
    ensures
        input_direction(input) == match button {
            Button::MoveForward => Offset { x: 0, y: -1 },
            Button::MoveBackward => Offset { x: 0, y: 1 },
            Button::MoveRight => Offset { x: 1, y: 0 },
            _ => Offset { x: -1, y: 0 },
        },
        steering_of(input).direction == Some(input_direction(input)),
{
    assert(input.held.contains(Button::MoveForward) <==> Button::MoveForward == button);
    assert(input.held.contains(Button::MoveBackward) <==> Button::MoveBackward == button);
    assert(input.held.contains(Button::MoveRight) <==> Button::MoveRight == button);
    assert(input.held.contains(Button::MoveLeft) <==> Button::MoveLeft == button);
}

} // verus!
