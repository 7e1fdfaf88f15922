//! The vocabulary between the presentation side and its host, and the two
//! pieces of protocol around the channel that carries it: what the
//! presentation loop sends and when it ends, and the buffer from which the
//! host takes the events of a batch one by one.

use crate::input::Button;
use cgmath::Vector2;
use std::collections::VecDeque;
use vstd::prelude::*;

verus! {

/// What the presentation side reports.
#[derive(Clone, Copy, Debug, PartialEq, Eq)]
pub enum FrontendEvent {
    /// The window was closed.
    Close,
    /// A button was pressed (`true`) or released (`false`).
    ButtonState(Button, bool),
    /// The pointer is at this position; the flag says whether the way there
    /// counts as travel.
    MouseMove(Vector2<i32>, bool),
}

/// What the host asks of the presentation side.
#[derive(Clone, Copy, Debug, PartialEq, Eq, Structural)]
pub enum FrontendCommand {
    /// End the presentation loop.
    Stop,
}

/// What the presentation loop does with one round's findings.
pub struct FrontendStep {
    /// The batch to send to the host, if there is anything to send.
    pub outbound: Option<Vec<FrontendEvent>>,
    /// Whether to render and go round again, or to end the loop.
    pub render: bool,
}

/// Decides one round of the presentation loop from the events it polled, the
/// command it found, if any, and whether the host's channel still stands.
/// Events are sent on as one batch, and an empty batch is never sent. `Stop`
/// ends the loop before anything is rendered, though what was polled is still
/// sent; a host that is gone ends it as well.
pub fn frontend_step(
    events: Vec<FrontendEvent>,
    command: Option<FrontendCommand>,
    connected: bool,
) -> (step: FrontendStep)
    ensures
        step.render == (command is None && connected),
        match step.outbound {
            Some(batch) => events@.len() > 0 && batch@ == events@,
            None => events@.len() == 0,
        },
{
    let stop = match command {
        Some(FrontendCommand::Stop) => true,
        None => false,
    };
    let outbound = if events.len() != 0 {
        Some(events)
    } else {
        None
    };
    FrontendStep { outbound, render: !stop && connected }
}

/// The first of `events`, if there is one.
pub open spec fn head(events: Seq<FrontendEvent>) -> Option<FrontendEvent> {
    if events.len() > 0 {
        Some(events[0])
    } else {
        None
    }
}

/// What is left of `events` once the first has been taken.
pub open spec fn tail(events: Seq<FrontendEvent>) -> Seq<FrontendEvent> {
    if events.len() > 0 {
        events.drop_first()
    } else {
        events
    }
}

/// What an [`EventBuffer`] stands for.
pub struct BufferModel {
    /// The events that the host has received and not yet taken, oldest
    /// first.
    pub events: Seq<FrontendEvent>,
    /// Whether the host has been told that the presentation side is gone.
    pub lost: bool,
}

/// The host's end of the channel from a presentation side that runs on a
/// thread of its own: batches come in, events go out one by one in the order
/// in which they were reported.
pub struct EventBuffer {
    queue: VecDeque<FrontendEvent>,
    lost: bool,
}

impl View for EventBuffer {
    type V = BufferModel;

    closed spec fn view(&self) -> BufferModel {
        BufferModel { events: self.queue@, lost: self.lost }
    }
}

impl EventBuffer {
    /// A buffer with nothing in it.
    pub fn new() -> (buffer: EventBuffer)
        ensures
            buffer@ == (BufferModel { events: Seq::empty(), lost: false }),
    {
        EventBuffer { queue: VecDeque::new(), lost: false }
    }

    /// Takes the oldest buffered event, if one is buffered.
    pub fn pop(&mut self) -> (event: Option<FrontendEvent>)
        ensures
            event == head(old(self)@.events),
            final(self)@ == (BufferModel { events: tail(old(self)@.events), ..old(self)@ }),
    {
        self.queue.pop_front()
    }

    /// Takes in a batch that has arrived, behind what is buffered, and takes
    /// the oldest event out, if there is one now.
    pub fn refill(&mut self, batch: Vec<FrontendEvent>) -> (event: Option<FrontendEvent>)
        ensures
            event == head(old(self)@.events + batch@),
            final(self)@ == (BufferModel {
                events: tail(old(self)@.events + batch@),
                ..old(self)@
            }),
    {
        let mut i: usize = 0;
        while i < batch.len()
            invariant
                i <= batch.len(),
                self.lost == old(self).lost,
                self.queue@ == old(self).queue@ + batch@.take(i as int),
            decreases batch.len() - i,
        {
            self.queue.push_back(batch[i]);
            i += 1;
        }
        assert(batch@.take(i as int) == batch@);
        self.queue.pop_front()
    }

    /// Takes note that the channel is lost. A presentation side that is gone
    /// counts as a closed window: the host is told so once, and is told
    /// nothing when it asks again. What is buffered stays.
    pub fn disconnected(&mut self) -> (event: Option<FrontendEvent>)
        ensures
            event == if old(self)@.lost {
                None
            } else {
                Some(FrontendEvent::Close)
            },
            final(self)@ == (BufferModel { lost: true, ..old(self)@ }),
    {
        if self.lost {
            None
        } else {
            self.lost = true;
            Some(FrontendEvent::Close)
        }
    }
}

/// Tells a pointer's travel from its arrival: the first position that is
/// reported after the pointer has come into the window says where it is, and
/// only the moves after it count as travel.
pub struct PointerWatch {
    known: bool,
}

impl View for PointerWatch {
    type V = bool;

    /// Whether the pointer's last position is known, so that a move from it
    /// counts as travel.
    closed spec fn view(&self) -> bool {
        self.known
    }
}

impl PointerWatch {
    /// A watch that has not seen the pointer yet.
    pub fn new() -> (watch: PointerWatch)
        ensures
            !watch@,
    {
        PointerWatch { known: false }
    }

    /// The pointer has come into the window, from wherever it was.
    pub fn entered(&mut self)
        ensures
            !final(self)@,
    {
        self.known = false;
    }

    /// The pointer is reported at `position`. The event for it counts the
    /// way there as travel if the position before it is known.
    pub fn moved(&mut self, position: Vector2<i32>) -> (event: FrontendEvent)
        ensures
            event == FrontendEvent::MouseMove(position, old(self)@),
            final(self)@,
    {
        let should_track = self.known;
        self.known = true;
        FrontendEvent::MouseMove(position, should_track)
    }
}

} // verus!
