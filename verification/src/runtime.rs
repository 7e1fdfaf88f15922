//! The game's side of a tick when it runs on a thread of its own, fed through
//! a channel: take in whatever has queued up, treat a lost channel as the
//! sign to stop, hand the pending commands over, and tick.

use crate::game::{ClientGame, ClientGameCommand, ClientGameEvent, GameModel};
use crate::input::{InputModel, InputState};
use vstd::prelude::*;

verus! {

/// What a tick of the game's thread comes to.
pub struct Tick {
    /// The input to advance the world with. `None` once the game has stopped:
    /// the thread then sends what is in `outbound` and ends.
    pub seen: Option<InputState>,
    /// The commands to send to the host, oldest first.
    pub outbound: Vec<ClientGameCommand>,
}

/// What a [`Tick`] stands for.
pub struct TickModel {
    pub seen: Option<InputModel>,
    pub outbound: Seq<ClientGameCommand>,
}

impl View for Tick {
    type V = TickModel;

    open spec fn view(&self) -> TickModel {
        TickModel {
            seen: match self.seen {
                Some(input) => Some(input@),
                None => None,
            },
            outbound: self.outbound@,
        }
    }
}

/// The game after `events`, first to last.
pub open spec fn handle_all(game: GameModel, events: Seq<ClientGameEvent>) -> GameModel
    decreases events.len(),
{
    if events.len() == 0 {
        game
    } else {
        handle_all(game, events.drop_last()).handle_event(events.last())
    }
}

/// The game once it has taken in what queued up, and has learnt whether the
/// channel still stands: a lost channel counts as a closed window.
pub open spec fn informed(game: GameModel, queued: Seq<ClientGameEvent>, connected: bool)
    -> GameModel {
    let drained = handle_all(game, queued);
    if connected {
        drained
    } else {
        drained.handle_event(ClientGameEvent::Closed)
    }
}

/// The game after the tick: nothing is left to send, and the frame is ended
/// if the game still runs.
pub open spec fn tick_game(game: GameModel, queued: Seq<ClientGameEvent>, connected: bool)
    -> GameModel {
    let now = informed(game, queued, connected);
    GameModel { commands: Seq::empty(), ..now.update() }
}

/// What the tick comes to: every pending command goes out, and the input is
/// handed out as it stands after the queued events, before the frame ends.
pub open spec fn tick_outcome(game: GameModel, queued: Seq<ClientGameEvent>, connected: bool)
    -> TickModel {
    let now = informed(game, queued, connected);
    TickModel { seen: now.seen(), outbound: now.commands }
}

/// One tick of the game's thread. `queued` holds the events that were waiting
/// in the channel, oldest first, and `connected` says whether the channel
/// still stands.
pub fn tick(game: &mut ClientGame, queued: &Vec<ClientGameEvent>, connected: bool) -> (step: Tick)
    ensures
        final(game)@ == tick_game(old(game)@, queued@, connected),
        step@ == tick_outcome(old(game)@, queued@, connected),
{
    let mut i: usize = 0;
    while i < queued.len()
        invariant
            i <= queued.len(),
            game@ == handle_all(old(game)@, queued@.take(i as int)),
        decreases queued.len() - i,
    {
        assert(queued@.take(i + 1).drop_last() == queued@.take(i as int));
        game.handle_event(queued[i]);
        i += 1;
    }
    assert(queued@.take(i as int) == queued@);
    if !connected {
        game.handle_event(ClientGameEvent::Closed);
    }
    let ghost now = game@;
    let mut outbound: Vec<ClientGameCommand> = Vec::new();
    loop
        invariant
            game@.running == now.running,
            game@.input == now.input,
            outbound@ + game@.commands == now.commands,
        ensures
            game@ == (GameModel { commands: Seq::empty(), ..now }),
            outbound@ == now.commands,
        decreases game@.commands.len(),
    {
        let ghost left = game@.commands;
        match game.next_command() {
            Some(command) => {
                outbound.push(command);
                assert(outbound@ + game@.commands == (outbound@.drop_last() + left));
            },
            None => {
                assert(outbound@ + Seq::<ClientGameCommand>::empty() == outbound@);
                assert(game@.commands == Seq::<ClientGameCommand>::empty());
                break ;
            },
        }
    }
    let seen = game.update();
    Tick { seen, outbound }
}

/// A lost channel stops a running game for good: the tick that finds it
/// sends exactly one `Stop`, hands out no input, and every later tick sends
/// nothing and hands out nothing.
pub proof fn lemma_lost_channel_stops(
    game: GameModel,
    queued: Seq<ClientGameEvent>,
    later: Seq<ClientGameEvent>,
    connected: bool,
)
    requires
        game.wf(),
    ensures
        tick_outcome(game, queued, false).seen is None,
        handle_all(game, queued).running ==> tick_outcome(game, queued, false).outbound
            == seq![ClientGameCommand::Stop],
        !tick_game(game, queued, false).running,
        tick_outcome(tick_game(game, queued, false), later, connected) == (TickModel {
            seen: None,
            outbound: Seq::empty(),
        }),
        tick_game(tick_game(game, queued, false), later, connected) == tick_game(
            game,
            queued,
            false,
        ),
{
    lemma_handle_all_keeps_wf(game, queued);
    let stopped = tick_game(game, queued, false);
    lemma_stopped_takes_nothing(stopped, later);
    let drained = handle_all(game, queued);
    if drained.running {
        assert(drained.handle_event(ClientGameEvent::Closed).commands == seq![
            ClientGameCommand::Stop,
        ]);
    }
}

/// Events keep a well-formed game well formed.
pub proof fn lemma_handle_all_keeps_wf(game: GameModel, events: Seq<ClientGameEvent>)
    requires
        game.wf(),
    ensures
        handle_all(game, events).wf(),
    decreases events.len(),
{
    if events.len() > 0 {
        lemma_handle_all_keeps_wf(game, events.drop_last());
        handle_all(game, events.drop_last()).lemma_steps_keep_wf(events.last());
    }
}

/// A stopped game takes no event, however many arrive.
pub proof fn lemma_stopped_takes_nothing(game: GameModel, events: Seq<ClientGameEvent>)
    requires
        !game.running,
    ensures
        handle_all(game, events) == game,
    decreases events.len(),
{
    if events.len() > 0 {
        lemma_stopped_takes_nothing(game, events.drop_last());
    }
}

} // verus!
