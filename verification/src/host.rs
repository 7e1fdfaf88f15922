//! The host's side of a frame, with game and presentation on one thread: pass
//! the frame's events on, tick the game, act on what it commands, and say
//! whether there is a frame to render.

use crate::frontend::FrontendEvent;
use crate::game::{ClientGame, ClientGameCommand, ClientGameEvent, GameModel};
use crate::input::{Button, InputModel, InputState};
use crate::runtime::handle_all;
use vstd::prelude::*;

verus! {

/// How a frame ends for the host.
pub enum FrameOutcome {
    /// Advance the world with this input and render it.
    Render(InputModel),
    /// Leave the loop.
    Quit,
}

/// How a frame ends for the host.
#[derive(Clone, Copy, Debug)]
pub enum FrameStep {
    /// Advance the world with this input and render it.
    Render(InputState),
    /// Leave the loop.
    Quit,
}

impl View for FrameStep {
    type V = FrameOutcome;

    open spec fn view(&self) -> FrameOutcome {
        match *self {
            FrameStep::Render(input) => FrameOutcome::Render(input@),
            FrameStep::Quit => FrameOutcome::Quit,
        }
    }
}

/// The menu button, pressed or released, is the host's own sign to leave.
pub open spec fn asks_to_leave(event: FrontendEvent) -> bool {
    event matches FrontendEvent::ButtonState(Button::Menu, _)
}

/// What the host passes on to the game for `event`: everything but the menu
/// button, the closing of the window included.
pub open spec fn forwarded(event: FrontendEvent) -> Option<ClientGameEvent> {
    match event {
        FrontendEvent::Close => Some(ClientGameEvent::Closed),
        FrontendEvent::ButtonState(button, state) => if button == Button::Menu {
            None
        } else {
            Some(ClientGameEvent::ButtonState(button, state))
        },
        FrontendEvent::MouseMove(position, should_track) => Some(
            ClientGameEvent::MouseMove(position, should_track),
        ),
    }
}

/// Puts an event of the presentation side into the game's vocabulary. The
/// menu button has no place in it: it is the host's own business.
pub fn forward(event: FrontendEvent) -> (passed: Option<ClientGameEvent>)
    ensures
        passed == forwarded(event),
{
    match event {
        FrontendEvent::Close => Some(ClientGameEvent::Closed),
        FrontendEvent::ButtonState(button, state) => {
            if button == Button::Menu {
                None
            } else {
                Some(ClientGameEvent::ButtonState(button, state))
            }
        },
        FrontendEvent::MouseMove(position, should_track) => Some(
            ClientGameEvent::MouseMove(position, should_track),
        ),
    }
}

/// The game after one event of the presentation side.
pub open spec fn delivered(game: GameModel, event: FrontendEvent) -> GameModel {
    match forwarded(event) {
        Some(passed) => game.handle_event(passed),
        None => game,
    }
}

/// The game after the events of a frame, first to last.
pub open spec fn deliver(game: GameModel, events: Seq<FrontendEvent>) -> GameModel
    decreases events.len(),
{
    if events.len() == 0 {
        game
    } else {
        delivered(deliver(game, events.drop_last()), events.last())
    }
}

/// Some event of the frame is the host's sign to leave.
pub open spec fn leaves(events: Seq<FrontendEvent>) -> bool {
    exists|i: int| 0 <= i < events.len() && asks_to_leave(#[trigger] events[i])
}

/// The game after a frame with these events.
pub open spec fn frame_game(game: GameModel, events: Seq<FrontendEvent>) -> GameModel {
    let informed = deliver(game, events);
    if leaves(events) {
        informed
    } else {
        informed.update().next_command()
    }
}

/// How a frame with these events ends. Every event is passed on first. The
/// host then leaves if an event asked for it, without a tick. Otherwise the
/// game ticks, and the host leaves if the game commands it, or has stopped
/// before; else it renders with the input that the tick handed out.
pub open spec fn frame_outcome(game: GameModel, events: Seq<FrontendEvent>) -> FrameOutcome {
    let informed = deliver(game, events);
    if leaves(events) || informed.update().pending() is Some {
        FrameOutcome::Quit
    } else {
        match informed.seen() {
            Some(input) => FrameOutcome::Render(input),
            None => FrameOutcome::Quit,
        }
    }
}

/// A stopped game stays stopped, and as it is, whatever the presentation
/// side goes on to report.
pub proof fn lemma_stopped_stays(game: GameModel, events: Seq<FrontendEvent>)
    requires
        !game.running,
    ensures
        deliver(game, events) == game,
        frame_outcome(game, events) == FrameOutcome::Quit,
    decreases events.len(),
{
    if events.len() > 0 {
        lemma_stopped_stays(game, events.drop_last());
    }
}

/// A frame in which the window closes stops the game, and the host leaves:
/// nothing is rendered for it, whatever else the frame holds.
pub proof fn lemma_closed_window_quits(game: GameModel, events: Seq<FrontendEvent>, at: int)
    requires
        0 <= at < events.len(),
        events[at] == FrontendEvent::Close,
    ensures
        !deliver(game, events).running,
        !frame_game(game, events).running,
        frame_outcome(game, events) == FrameOutcome::Quit,
    decreases events.len(),
{
    if at < events.len() - 1 {
        lemma_closed_window_quits(game, events.drop_last(), at);
    }
}

/// Runs one frame of the host's loop on `game` with the events that the
/// presentation side reported for it.
pub fn frame(game: &mut ClientGame, events: &Vec<FrontendEvent>) -> (step: FrameStep)
    ensures
        final(game)@ == frame_game(old(game)@, events@),
        step@ == frame_outcome(old(game)@, events@),
{
    let mut should_break = false;
    let mut i: usize = 0;
    while i < events.len()
        invariant
            i <= events.len(),
            game@ == deliver(old(game)@, events@.take(i as int)),
            should_break == leaves(events@.take(i as int)),
        decreases events.len() - i,
    {
        proof {
            lemma_leaves_grows(events@, i as int);
            assert(events@.take(i + 1).drop_last() == events@.take(i as int));
        }
        match forward(events[i]) {
            Some(passed) => game.handle_event(passed),
            None => should_break = true,
        }
        i += 1;
    }
    assert(events@.take(i as int) == events@);
    if should_break {
        return FrameStep::Quit;
    }
    let seen = game.update();
    match game.next_command() {
        Some(ClientGameCommand::Stop) => FrameStep::Quit,
        None => match seen {
            Some(input) => FrameStep::Render(input),
            None => FrameStep::Quit,
        },
    }
}

/// What the host passes on to the game of the events of a frame, in order.
pub open spec fn passed_on(events: Seq<FrontendEvent>) -> Seq<ClientGameEvent>
    decreases events.len(),
{
    if events.len() == 0 {
        Seq::empty()
    } else {
        match forwarded(events.last()) {
            Some(passed) => passed_on(events.drop_last()).push(passed),
            None => passed_on(events.drop_last()),
        }
    }
}

/// What the host does with a frame when the game runs on a thread of its own.
pub struct Relay {
    /// The events to send to the game, in order.
    pub outbound: Vec<ClientGameEvent>,
    /// Whether to render and go round again, or to leave the loop.
    pub render: bool,
}

/// Decides a frame of the host whose game runs on a thread of its own, from
/// the events that the presentation side reported, the command that the game
/// sent, if any, and whether the game's channel still stands. Every event but
/// the menu button is passed on. The host leaves if an event asked for it, if
/// the game commands it, or if the game is gone.
pub fn relay(events: &Vec<FrontendEvent>, command: Option<ClientGameCommand>, connected: bool) -> (round:
    Relay)
    ensures
        round.outbound@ == passed_on(events@),
        round.render == (!leaves(events@) && command is None && connected),
{
    let mut outbound: Vec<ClientGameEvent> = Vec::new();
    let mut should_break = false;
    let mut i: usize = 0;
    while i < events.len()
        invariant
            i <= events.len(),
            outbound@ == passed_on(events@.take(i as int)),
            should_break == leaves(events@.take(i as int)),
        decreases events.len() - i,
    {
        proof {
            lemma_leaves_grows(events@, i as int);
            assert(events@.take(i + 1).drop_last() == events@.take(i as int));
        }
        match forward(events[i]) {
            Some(passed) => outbound.push(passed),
            None => should_break = true,
        }
        i += 1;
    }
    assert(events@.take(i as int) == events@);
    let stop = match command {
        Some(ClientGameCommand::Stop) => true,
        None => false,
    };
    Relay { outbound, render: !should_break && !stop && connected }
}

/// The events up to and with the one at `i` hold a sign to leave if those
/// before it do, or if it is one.
pub proof fn lemma_leaves_grows(events: Seq<FrontendEvent>, i: int)
    requires
        0 <= i < events.len(),
    ensures
        leaves(events.take(i + 1)) <==> leaves(events.take(i)) || asks_to_leave(events[i]),
{
    let before = events.take(i);
    let after = events.take(i + 1);
    if leaves(before) {
        let j = choose|j: int| 0 <= j < before.len() && asks_to_leave(#[trigger] before[j]);
        assert(asks_to_leave(after[j]));
    }
    if leaves(after) && !asks_to_leave(events[i]) {
        let j = choose|j: int| 0 <= j < after.len() && asks_to_leave(#[trigger] after[j]);
        assert(asks_to_leave(before[j]));
    }
    if asks_to_leave(events[i]) {
        assert(asks_to_leave(after[i]));
    }
}

/// One thread or two, the game ends up the same: taking what the host
/// relays, event by event, is taking the frame's events in the host's own
/// loop.
pub proof fn lemma_relay_delivers(game: GameModel, events: Seq<FrontendEvent>)
    ensures
        handle_all(game, passed_on(events)) == deliver(game, events),
    decreases events.len(),
{
    if events.len() > 0 {
        lemma_relay_delivers(game, events.drop_last());
        let rest = passed_on(events.drop_last());
        match forwarded(events.last()) {
            Some(passed) => {
                assert(rest.push(passed).drop_last() == rest);
            },
            None => {},
        }
    }
}

/// What a session leaves behind.
pub struct Session {
    /// The input of each frame that was rendered, in order.
    pub rendered: Vec<InputState>,
    /// Whether the host left the loop, rather than ran out of frames.
    pub stopped: bool,
}

/// What a [`Session`] stands for.
pub struct SessionModel {
    pub rendered: Seq<InputModel>,
    pub stopped: bool,
}

impl View for Session {
    type V = SessionModel;

    open spec fn view(&self) -> SessionModel {
        SessionModel {
            rendered: self.rendered@.map_values(|input: InputState| input@),
            stopped: self.stopped,
        }
    }
}

/// The session that `game` goes through on the frames from `from` on: frame
/// after frame until one ends with the host leaving, or none is left.
pub open spec fn run_from(game: GameModel, frames: Seq<Seq<FrontendEvent>>, from: int) -> SessionModel
    decreases frames.len() - from,
{
    if from < 0 || from >= frames.len() {
        SessionModel { rendered: Seq::empty(), stopped: false }
    } else {
        match frame_outcome(game, frames[from]) {
            FrameOutcome::Quit => SessionModel { rendered: Seq::empty(), stopped: true },
            FrameOutcome::Render(input) => {
                let rest = run_from(frame_game(game, frames[from]), frames, from + 1);
                SessionModel { rendered: seq![input] + rest.rendered, stopped: rest.stopped }
            },
        }
    }
}

/// The session of a newly connected game on `frames`.
pub open spec fn session(frames: Seq<Seq<FrontendEvent>>) -> SessionModel {
    run_from(GameModel::connected(), frames, 0)
}

/// A session renders at most one frame for each round, in order from the
/// first, and it is cut short only by the host leaving.
pub proof fn lemma_session_length(game: GameModel, frames: Seq<Seq<FrontendEvent>>, from: int)
    requires
        0 <= from <= frames.len(),
    ensures
        run_from(game, frames, from).rendered.len() <= frames.len() - from,
        run_from(game, frames, from).stopped <==> run_from(game, frames, from).rendered.len()
            < frames.len() - from,
    decreases frames.len() - from,
{
    if from < frames.len() {
        lemma_session_length(frame_game(game, frames[from]), frames, from + 1);
    }
}

/// Once the window has closed in a round, no later round is rendered.
pub proof fn lemma_session_ends_with_close(
    game: GameModel,
    frames: Seq<Seq<FrontendEvent>>,
    from: int,
    round: int,
    at: int,
)
    requires
        0 <= from <= round < frames.len(),
        0 <= at < frames[round].len(),
        frames[round][at] == FrontendEvent::Close,
    ensures
        run_from(game, frames, from).stopped,
        run_from(game, frames, from).rendered.len() <= round - from,
    decreases round - from,
{
    if from == round {
        lemma_closed_window_quits(game, frames[round], at);
    } else {
        match frame_outcome(game, frames[from]) {
            FrameOutcome::Quit => {},
            FrameOutcome::Render(_) => {
                lemma_session_ends_with_close(
                    frame_game(game, frames[from]),
                    frames,
                    from + 1,
                    round,
                    at,
                );
            },
        }
    }
}

/// The events of each frame, as sequences.
pub open spec fn batches(frames: Seq<Vec<FrontendEvent>>) -> Seq<Seq<FrontendEvent>> {
    frames.map_values(|events: Vec<FrontendEvent>| events@)
}

/// Connects a game and runs the host's loop on it, one round for each entry
/// of `frames`, which holds the events that the presentation side reports in
/// that round. Ends with the first frame on which the host leaves.
pub fn run(frames: &Vec<Vec<FrontendEvent>>) -> (ran: Session)
    ensures
        ran@ == session(batches(frames@)),
{
    let mut game = ClientGame::connect();
    let mut rendered: Vec<InputState> = Vec::new();
    let mut stopped = false;
    let mut i: usize = 0;
    let ghost all = batches(frames@);
    while i < frames.len() && !stopped
        invariant
            i <= frames.len(),
            all == batches(frames@),
            stopped ==> session(all) == (SessionModel {
                rendered: rendered@.map_values(|input: InputState| input@),
                stopped: true,
            }),
            !stopped ==> session(all) == (SessionModel {
                rendered: rendered@.map_values(|input: InputState| input@) + run_from(
                    game@,
                    all,
                    i as int,
                ).rendered,
                stopped: run_from(game@, all, i as int).stopped,
            }),
        decreases frames.len() - i + (if stopped { 0int } else { 1int }),
    {
        let ghost shown = rendered@.map_values(|input: InputState| input@);
        assert(all[i as int] == frames@[i as int]@);
        match frame(&mut game, &frames[i]) {
            FrameStep::Quit => {
                stopped = true;
                assert(shown + Seq::<InputModel>::empty() == shown);
            },
            FrameStep::Render(input) => {
                rendered.push(input);
                i += 1;
                proof {
                    let rest = run_from(game@, all, i as int);
                    assert(rendered@.map_values(|input: InputState| input@) == shown.push(input@));
                    assert(shown + (seq![input@] + rest.rendered) == shown.push(input@)
                        + rest.rendered);
                }
            },
        }
    }
    proof {
        if !stopped {
            let shown = rendered@.map_values(|input: InputState| input@);
            assert(shown + Seq::<InputModel>::empty() == shown);
        }
    }
    Session { rendered, stopped }
}

} // verus!
