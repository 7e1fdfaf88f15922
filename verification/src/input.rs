//! The input a simulation tick consumes: which buttons are held, where the
//! pointer is, and how far it has travelled since the last frame boundary.

use crate::vector::{difference_fits, offset_of, sum_fits, vector_difference, vector_sum, Offset};
use cgmath::Vector2;
use vstd::prelude::*;

verus! {

/// The logical buttons a host can report.
#[derive(Clone, Copy, Debug, PartialEq, Eq, Hash, Structural)]
pub enum Button {
    MoveForward,
    MoveBackward,
    MoveRight,
    MoveLeft,
    /// Menu, or escape.
    Menu,
}

/// What an [`InputState`] stands for.
pub struct InputModel {
    /// The buttons that are currently held.
    pub held: Set<Button>,
    /// The last known absolute position of the pointer.
    pub mouse_position: Offset,
    /// The pointer's tracked travel since the last frame boundary.
    pub frame_mouse: Offset,
}

impl InputModel {
    /// Nothing held, the pointer at the origin, no travel.
    pub open spec fn initial() -> InputModel {
        InputModel { held: Set::empty(), mouse_position: Offset::zero(), frame_mouse: Offset::zero() }
    }

    /// The input with `button` held or not, as `state` says, whatever it was
    /// before.
    pub open spec fn set(self, button: Button, state: bool) -> InputModel {
        InputModel {
            held: if state {
                self.held.insert(button)
            } else {
                self.held.remove(button)
            },
            ..self
        }
    }

    /// How far a move to `position` takes the pointer from where it is.
    pub open spec fn displacement(self, position: Offset) -> Offset {
        position.minus(self.mouse_position)
    }

    /// The input with the pointer at `position`. A tracked move adds its
    /// displacement to the travel; one that is not tracked leaves the travel
    /// alone and only moves the point that the next displacement is taken
    /// from.
    pub open spec fn set_mouse(self, position: Offset, should_track: bool) -> InputModel {
        InputModel {
            frame_mouse: if should_track {
                self.frame_mouse.plus(self.displacement(position))
            } else {
                self.frame_mouse
            },
            mouse_position: position,
            ..self
        }
    }

    /// The input after a tracked move by `value` from where the pointer is.
    pub open spec fn add_mouse(self, value: Offset) -> InputModel {
        self.set_mouse(self.mouse_position.plus(value), true)
    }

    /// The input at the start of the next frame: no travel yet, all else as
    /// it is.
    pub open spec fn end_frame(self) -> InputModel {
        InputModel { frame_mouse: Offset::zero(), ..self }
    }

    /// A move to `position` can be recorded: where it is tracked, neither the
    /// displacement nor the travel it adds up to leaves the range of `i32`.
    pub open spec fn can_set_mouse(self, position: Offset, should_track: bool) -> bool {
        &&& position.fits()
        &&& should_track ==> self.displacement(position).fits()
        &&& self.set_mouse(position, should_track).frame_mouse.fits()
    }

    /// A relative move by `value` can be recorded.
    pub open spec fn can_add_mouse(self, value: Offset) -> bool {
        self.can_set_mouse(self.mouse_position.plus(value), true)
    }
}

/// One report of the pointer: a call of `set_mouse` or of `add_mouse`.
pub enum PointerMove {
    /// `set_mouse` with this position and this choice of tracking.
    To(Offset, bool),
    /// `add_mouse` with this displacement.
    By(Offset),
}

impl InputModel {
    /// The input after the report `step`.
    pub open spec fn moved(self, step: PointerMove) -> InputModel {
        match step {
            PointerMove::To(position, should_track) => self.set_mouse(position, should_track),
            PointerMove::By(value) => self.add_mouse(value),
        }
    }

    /// The displacement that `step` makes from the pointer's previous
    /// position, as far as it is tracked: a move that is not tracked counts
    /// as none.
    pub open spec fn counted(self, step: PointerMove) -> Offset {
        match step {
            PointerMove::To(position, should_track) => if should_track {
                self.displacement(position)
            } else {
                Offset::zero()
            },
            PointerMove::By(value) => value,
        }
    }

    /// The input after the reports of `steps`, first to last.
    pub open spec fn replay(self, steps: Seq<PointerMove>) -> InputModel
        decreases steps.len(),
    {
        if steps.len() == 0 {
            self
        } else {
            self.moved(steps[0]).replay(steps.drop_first())
        }
    }

    /// The vector sum of the tracked displacements of `steps`, each taken
    /// from the position that the reports before it left.
    pub open spec fn travel(self, steps: Seq<PointerMove>) -> Offset
        decreases steps.len(),
    {
        if steps.len() == 0 {
            Offset::zero()
        } else {
            self.counted(steps[0]).plus(self.moved(steps[0]).travel(steps.drop_first()))
        }
    }

    /// However many pointer reports arrive, the travel grows by the vector
    /// sum of their tracked displacements, and the buttons stay as they are.
    pub proof fn lemma_travel_accumulates(self, steps: Seq<PointerMove>)
        ensures
            self.replay(steps).frame_mouse == self.frame_mouse.plus(self.travel(steps)),
            self.replay(steps).held == self.held,
        decreases steps.len(),
    {
        if steps.len() > 0 {
            self.moved(steps[0]).lemma_travel_accumulates(steps.drop_first());
        }
    }

    /// Within one frame, that is from a frame boundary on, the travel is the
    /// vector sum of the tracked displacements reported since.
    pub proof fn lemma_frame_travel(self, steps: Seq<PointerMove>)
        ensures
            self.end_frame().replay(steps).frame_mouse == self.end_frame().travel(steps),
    {
        self.end_frame().lemma_travel_accumulates(steps);
    }

    /// Ending the frame brings the travel to zero and leaves every button,
    /// and the pointer's position, as it was.
    pub proof fn lemma_end_frame_keeps_buttons(self)
        ensures
            self.end_frame().frame_mouse == Offset::zero(),
            self.end_frame().held == self.held,
            self.end_frame().mouse_position == self.mouse_position,
    {
    }

    /// A button reads as it was last set, and setting it changes no other.
    pub proof fn lemma_set_then_get(self, button: Button, state: bool, other: Button)
        ensures
            self.set(button, state).held.contains(button) == state,
            other != button ==> self.set(button, state).held.contains(other)
                == self.held.contains(other),
            self.set(button, state).mouse_position == self.mouse_position,
            self.set(button, state).frame_mouse == self.frame_mouse,
    {
    }

    /// With nothing held, pressing a button, releasing it and pressing
    /// another leaves exactly that other button held.
    pub proof fn lemma_release_then_press(self, button: Button, other: Button)
        requires
            self.held == Set::<Button>::empty(),
        ensures
            self.set(button, true).held == Set::<Button>::empty().insert(button),
            self.set(button, true).set(button, false).set(other, true).held
                == Set::<Button>::empty().insert(other),
    {
        assert(self.set(button, true).set(button, false).set(other, true).held
            =~= Set::<Button>::empty().insert(other));
    }
}

/// The buttons and the pointer as the game sees them. The buttons say what is
/// held now and stay as they are from frame to frame; the pointer's travel
/// adds up within a frame and starts again at zero with the next.
#[derive(Clone, Copy, Debug)]
pub struct InputState {
    forward: bool,
    backward: bool,
    right: bool,
    left: bool,
    menu: bool,
    mouse_position: Vector2<i32>,
    frame_mouse: Vector2<i32>,
}

impl View for InputState {
    type V = InputModel;

    closed spec fn view(&self) -> InputModel {
        InputModel {
            held: Set::new(|button: Button| self.down(button)),
            mouse_position: offset_of(self.mouse_position),
            frame_mouse: offset_of(self.frame_mouse),
        }
    }
}

impl InputState {
    spec fn down(self, button: Button) -> bool {
        match button {
            Button::MoveForward => self.forward,
            Button::MoveBackward => self.backward,
            Button::MoveRight => self.right,
            Button::MoveLeft => self.left,
            Button::Menu => self.menu,
        }
    }

    /// Nothing held, the pointer at the origin, no travel.
    pub fn new() -> (input: InputState)
        ensures
            input@ == InputModel::initial(),
    {
        let input = InputState {
            forward: false,
            backward: false,
            right: false,
            left: false,
            menu: false,
            mouse_position: Vector2::new(0, 0),
            frame_mouse: Vector2::new(0, 0),
        };
        assert(input@.held =~= Set::<Button>::empty());
        input
    }

    /// Overwrites whether `button` is held.
    pub fn set(&mut self, button: Button, state: bool)
        ensures
            final(self)@ == old(self)@.set(button, state),
    {
        match button {
            Button::MoveForward => self.forward = state,
            Button::MoveBackward => self.backward = state,
            Button::MoveRight => self.right = state,
            Button::MoveLeft => self.left = state,
            Button::Menu => self.menu = state,
        }
        assert(self@.held =~= old(self)@.set(button, state).held);
    }

    /// Whether `button` is held; a button that was never set is not.
    pub fn get(&self, button: Button) -> (held: bool)
        ensures
            held == self@.held.contains(button),
    {
        match button {
            Button::MoveForward => self.forward,
            Button::MoveBackward => self.backward,
            Button::MoveRight => self.right,
            Button::MoveLeft => self.left,
            Button::Menu => self.menu,
        }
    }

    /// Tells whether [`add_mouse`](Self::add_mouse) accepts `value` now.
    pub fn can_add_mouse(&self, value: Vector2<i32>) -> (accepted: bool)
        ensures
            accepted == self@.can_add_mouse(offset_of(value)),
    {
        sum_fits(self.mouse_position, value) && sum_fits(self.frame_mouse, value)
    }

    /// Moves the pointer by `value` and tracks the move.
    pub fn add_mouse(&mut self, value: Vector2<i32>)
        requires
            old(self)@.can_add_mouse(offset_of(value)),
        ensures
            final(self)@ == old(self)@.add_mouse(offset_of(value)),
    {
        let new = vector_sum(self.mouse_position, value);
        self.set_mouse(new, true);
    }

    /// Tells whether [`set_mouse`](Self::set_mouse) accepts these arguments
    /// now.
    pub fn can_set_mouse(&self, position: Vector2<i32>, should_track: bool) -> (accepted: bool)
        ensures
            accepted == self@.can_set_mouse(offset_of(position), should_track),
    {
        if should_track {
            if difference_fits(position, self.mouse_position) {
                let difference = vector_difference(position, self.mouse_position);
                sum_fits(self.frame_mouse, difference)
            } else {
                false
            }
        } else {
            true
        }
    }

    /// Moves the pointer to `position`. Where `should_track` holds, the
    /// displacement from the previous position is added to the travel of this
    /// frame; where it does not, the travel stays as it is.
    pub fn set_mouse(&mut self, position: Vector2<i32>, should_track: bool)
        requires
            old(self)@.can_set_mouse(offset_of(position), should_track),
        ensures
            final(self)@ == old(self)@.set_mouse(offset_of(position), should_track),
    {
        if should_track {
            let difference = vector_difference(position, self.mouse_position);
            self.frame_mouse = vector_sum(self.frame_mouse, difference);
        }
        self.mouse_position = position;
        assert(self@.held =~= old(self)@.held);
    }

    /// Ends the frame: the travel starts again at zero. Buttons and the
    /// pointer's position stay.
    pub fn end_frame(&mut self)
        ensures
            final(self)@ == old(self)@.end_frame(),
    {
        self.frame_mouse = Vector2::new(0, 0);
        assert(self@.held =~= old(self)@.held);
    }

    /// The pointer's tracked travel since the last frame boundary.
    pub fn frame_mouse(&self) -> (travel: Vector2<i32>)
        ensures
            offset_of(travel) == self@.frame_mouse,
    {
        self.frame_mouse
    }

    /// The last known absolute position of the pointer.
    pub fn mouse_position(&self) -> (position: Vector2<i32>)
        ensures
            offset_of(position) == self@.mouse_position,
    {
        self.mouse_position
    }

    /// Whatever an `InputState` holds, its position and its travel fit `i32`.
    pub proof fn lemma_fits(self)
        ensures
            self@.mouse_position.fits(),
            self@.frame_mouse.fits(),
    {
    }
}

} // verus!
