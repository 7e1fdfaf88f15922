//! The game actor: it owns the input, takes the events of the presentation
//! side one by one, hands out once per tick the input that the world is to be
//! advanced with, and queues the commands it has for its host.

use crate::input::{InputModel, InputState, Button};
use crate::vector::offset_of;
use cgmath::Vector2;
use std::collections::VecDeque;
use vstd::prelude::*;

verus! {

/// What the presentation side tells the game.
#[derive(Clone, Copy, Debug, PartialEq, Eq)]
pub enum ClientGameEvent {
    /// A button was pressed (`true`) or released (`false`).
    ButtonState(Button, bool),
    /// The pointer is at this position; the flag says whether the way there
    /// counts as travel.
    MouseMove(Vector2<i32>, bool),
    /// The window was closed, or the presentation side is gone.
    Closed,
}

/// What the game asks of its host.
#[derive(Clone, Copy, Debug, PartialEq, Eq, Structural)]
pub enum ClientGameCommand {
    /// Leave the loop and release the game.
    Stop,
}

/// What a [`ClientGame`] stands for.
pub struct GameModel {
    /// Running, or stopped for good.
    pub running: bool,
    pub input: InputModel,
    /// The commands not yet handed to the host, oldest first.
    pub commands: Seq<ClientGameCommand>,
}

impl GameModel {
    /// A running game with untouched input and nothing to say.
    pub open spec fn connected() -> GameModel {
        GameModel { running: true, input: InputModel::initial(), commands: Seq::empty() }
    }

    /// A running game has nothing queued; a stopped one has at most the one
    /// command that it stopped with.
    pub open spec fn wf(self) -> bool {
        &&& self.running ==> self.commands.len() == 0
        &&& self.commands.len() <= 1
    }

    /// The event can be applied to the input as it stands. Only a pointer
    /// report can fail this: one whose displacement, or the travel that it
    /// adds up to, cannot be held.
    pub open spec fn accepts(self, event: ClientGameEvent) -> bool {
        match event {
            ClientGameEvent::MouseMove(position, should_track) => self.input.can_set_mouse(
                offset_of(position),
                should_track,
            ),
            _ => true,
        }
    }

    /// The game after `event`. A stopped game takes no event, and a running
    /// one passes over an event that it cannot apply.
    pub open spec fn handle_event(self, event: ClientGameEvent) -> GameModel {
        if !self.running || !self.accepts(event) {
            self
        } else {
            match event {
                ClientGameEvent::ButtonState(button, state) => GameModel {
                    input: self.input.set(button, state),
                    ..self
                },
                ClientGameEvent::MouseMove(position, should_track) => GameModel {
                    input: self.input.set_mouse(offset_of(position), should_track),
                    ..self
                },
                ClientGameEvent::Closed => GameModel {
                    running: false,
                    commands: self.commands.push(ClientGameCommand::Stop),
                    ..self
                },
            }
        }
    }

    /// The input that a tick hands out for the world to be advanced with:
    /// the input as it stands, while the game runs.
    pub open spec fn seen(self) -> Option<InputModel> {
        if self.running {
            Some(self.input)
        } else {
            None
        }
    }

    /// The game after a tick: the frame is ended once its input has been
    /// handed out. A stopped game stays as it is.
    pub open spec fn update(self) -> GameModel {
        if self.running {
            GameModel { input: self.input.end_frame(), ..self }
        } else {
            self
        }
    }

    /// The oldest command that the host has not taken yet.
    pub open spec fn pending(self) -> Option<ClientGameCommand> {
        if self.commands.len() > 0 {
            Some(self.commands[0])
        } else {
            None
        }
    }

    /// The game once the host has taken the oldest command.
    pub open spec fn next_command(self) -> GameModel {
        if self.commands.len() > 0 {
            GameModel { commands: self.commands.drop_first(), ..self }
        } else {
            self
        }
    }

    /// Every step keeps a well-formed game well formed.
    pub proof fn lemma_steps_keep_wf(self, event: ClientGameEvent)
        requires
            self.wf(),
        ensures
            GameModel::connected().wf(),
            self.handle_event(event).wf(),
            self.update().wf(),
            self.next_command().wf(),
    {
    }

    /// A running game that is told of the closed window stops and queues
    /// exactly one `Stop`: the host takes it once and finds nothing after it.
    /// From then on a tick hands out nothing and changes nothing, and no
    /// event is taken.
    pub proof fn lemma_close_stops(self, later: ClientGameEvent)
        requires
            self.wf(),
            self.running,
        ensures
            ({
                let closed = self.handle_event(ClientGameEvent::Closed);
                let drained = closed.next_command();
                &&& !closed.running
                &&& closed.input == self.input
                &&& closed.commands == seq![ClientGameCommand::Stop]
                &&& closed.pending() == Some(ClientGameCommand::Stop)
                &&& drained.pending() is None
                &&& drained.next_command() == drained
                &&& closed.seen() is None
                &&& closed.update() == closed
                &&& drained.seen() is None
                &&& drained.update() == drained
                &&& closed.handle_event(later) == closed
                &&& drained.handle_event(later) == drained
            }),
    {
        let closed = self.handle_event(ClientGameEvent::Closed);
        assert(closed.commands =~= seq![ClientGameCommand::Stop]);
        assert(closed.next_command().commands =~= Seq::<ClientGameCommand>::empty());
    }

    /// A tick ends the frame and touches neither the buttons nor the queue.
    pub proof fn lemma_update_ends_frame(self)
        requires
            self.running,
        ensures
            self.seen() == Some(self.input),
            self.update().input == self.input.end_frame(),
            self.update().input.held == self.input.held,
            self.update().commands == self.commands,
            self.update().running,
    {
    }
}

/// The game: running until the window closes, then stopped for good. It
/// alone changes the input that it owns.
pub struct ClientGame {
    input: InputState,
    commands: VecDeque<ClientGameCommand>,
    running: bool,
}

impl View for ClientGame {
    type V = GameModel;

    closed spec fn view(&self) -> GameModel {
        GameModel { running: self.running, input: self.input@, commands: self.commands@ }
    }
}

impl ClientGame {
    /// A running game with untouched input.
    pub fn connect() -> (game: ClientGame)
        ensures
            game@ == GameModel::connected(),
            game@.wf(),
    {
        ClientGame { input: InputState::new(), commands: VecDeque::new(), running: true }
    }

    /// Whether the game still runs.
    pub fn is_running(&self) -> (running: bool)
        ensures
            running == self@.running,
    {
        self.running
    }

    /// The input as it stands.
    pub fn input(&self) -> (input: &InputState)
        ensures
            input@ == self@.input,
    {
        &self.input
    }

    /// Takes one event. A button event changes the button at once, a pointer
    /// report moves the pointer, and the closing of the window stops the game
    /// and queues `Stop` for the host. Never fails: a stopped game passes
    /// over every event, and a running one over a pointer report that it
    /// cannot hold.
    pub fn handle_event(&mut self, event: ClientGameEvent)
        ensures
            final(self)@ == old(self)@.handle_event(event),
            old(self)@.wf() ==> final(self)@.wf(),
    {
        if !self.running {
            return ;
        }
        match event {
            ClientGameEvent::ButtonState(button, state) => self.input.set(button, state),
            ClientGameEvent::MouseMove(position, should_track) => {
                if self.input.can_set_mouse(position, should_track) {
                    self.input.set_mouse(position, should_track);
                }
            },
            ClientGameEvent::Closed => {
                self.running = false;
                self.commands.push_back(ClientGameCommand::Stop);
            },
        }
    }

    /// Takes the oldest command that the game has for its host, if there is
    /// one.
    pub fn next_command(&mut self) -> (command: Option<ClientGameCommand>)
        ensures
            command == old(self)@.pending(),
            final(self)@ == old(self)@.next_command(),
            old(self)@.wf() ==> final(self)@.wf(),
    {
        self.commands.pop_front()
    }

    /// One tick. While the game runs, hands out the input that the world is
    /// to be advanced with, as it stood before the call, and ends the frame.
    /// Once the game has stopped, hands out nothing and changes nothing.
    pub fn update(&mut self) -> (seen: Option<InputState>)
        ensures
            final(self)@ == old(self)@.update(),
            old(self)@.wf() ==> final(self)@.wf(),
            match seen {
                Some(input) => old(self)@.seen() == Some(input@),
                None => old(self)@.seen() is None,
            },
    {
        if self.running {
            let seen = self.input;
            self.input.end_frame();
            Some(seen)
        } else {
            None
        }
    }
}

} // verus!
