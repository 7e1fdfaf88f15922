use cgmath::Vector2;
use sc_game::frontend::{
    frontend_step, EventBuffer, FrontendCommand, FrontendEvent, PointerWatch,
};
use sc_game::input::Button;

#[test]
fn empty_poll_sends_nothing() {
    let step = frontend_step(Vec::new(), None, true);
    assert_eq!(step.outbound, None);
    assert!(step.render);
}

#[test]
fn polled_events_go_out_as_one_batch() {
    let events = vec![
        FrontendEvent::ButtonState(Button::MoveForward, true),
        FrontendEvent::MouseMove(Vector2::new(3, 4), true),
        FrontendEvent::Close,
    ];
    let step = frontend_step(events.clone(), None, true);
    assert_eq!(step.outbound, Some(events));
    assert!(step.render);
}

#[test]
fn stop_ends_the_presentation_loop() {
    let step = frontend_step(Vec::new(), Some(FrontendCommand::Stop), true);
    assert_eq!(step.outbound, None);
    assert!(!step.render);

    let events = vec![FrontendEvent::Close];
    let step = frontend_step(events.clone(), Some(FrontendCommand::Stop), true);
    assert_eq!(step.outbound, Some(events));
    assert!(!step.render);
}

#[test]
fn empty_buffer_has_nothing() {
    let mut buffer = EventBuffer::new();
    assert_eq!(buffer.pop(), None);
    assert_eq!(buffer.refill(Vec::new()), None);
    assert_eq!(buffer.pop(), None);
}

#[test]
fn buffer_hands_a_batch_out_in_order() {
    let mut buffer = EventBuffer::new();
    let first = buffer.refill(vec![
        FrontendEvent::ButtonState(Button::MoveLeft, true),
        FrontendEvent::MouseMove(Vector2::new(1, 2), false),
        FrontendEvent::Close,
    ]);
    assert_eq!(first, Some(FrontendEvent::ButtonState(Button::MoveLeft, true)));
    assert_eq!(buffer.pop(), Some(FrontendEvent::MouseMove(Vector2::new(1, 2), false)));
    assert_eq!(buffer.pop(), Some(FrontendEvent::Close));
    assert_eq!(buffer.pop(), None);
}

#[test]
fn later_batch_queues_behind_what_is_buffered() {
    let mut buffer = EventBuffer::new();
    assert_eq!(
        buffer.refill(vec![
            FrontendEvent::ButtonState(Button::Menu, true),
            FrontendEvent::ButtonState(Button::Menu, false),
        ]),
        Some(FrontendEvent::ButtonState(Button::Menu, true))
    );
    assert_eq!(
        buffer.refill(vec![FrontendEvent::Close]),
        Some(FrontendEvent::ButtonState(Button::Menu, false))
    );
    assert_eq!(buffer.pop(), Some(FrontendEvent::Close));
    assert_eq!(buffer.pop(), None);
}

#[test]
fn lost_channel_is_a_closed_window_once() {
    let mut buffer = EventBuffer::new();
    assert_eq!(buffer.disconnected(), Some(FrontendEvent::Close));
    assert_eq!(buffer.disconnected(), None);
    assert_eq!(buffer.pop(), None);
    assert_eq!(buffer.disconnected(), None);
}

#[test]
fn lost_channel_keeps_what_is_buffered() {
    let mut buffer = EventBuffer::new();
    assert_eq!(
        buffer.refill(vec![
            FrontendEvent::ButtonState(Button::MoveForward, true),
            FrontendEvent::MouseMove(Vector2::new(4, 4), true),
        ]),
        Some(FrontendEvent::ButtonState(Button::MoveForward, true))
    );
    assert_eq!(buffer.disconnected(), Some(FrontendEvent::Close));
    assert_eq!(buffer.pop(), Some(FrontendEvent::MouseMove(Vector2::new(4, 4), true)));
    assert_eq!(buffer.pop(), None);
    assert_eq!(buffer.disconnected(), None);
}

#[test]
fn first_pointer_report_is_no_travel() {
    let mut watch = PointerWatch::new();
    assert_eq!(
        watch.moved(Vector2::new(300, 200)),
        FrontendEvent::MouseMove(Vector2::new(300, 200), false)
    );
    assert_eq!(
        watch.moved(Vector2::new(301, 199)),
        FrontendEvent::MouseMove(Vector2::new(301, 199), true)
    );
    assert_eq!(
        watch.moved(Vector2::new(301, 199)),
        FrontendEvent::MouseMove(Vector2::new(301, 199), true)
    );
}

#[test]
fn pointer_that_comes_back_starts_anew() {
    let mut watch = PointerWatch::new();
    watch.moved(Vector2::new(10, 10));
    watch.moved(Vector2::new(12, 10));
    watch.entered();
    assert_eq!(
        watch.moved(Vector2::new(700, 5)),
        FrontendEvent::MouseMove(Vector2::new(700, 5), false)
    );
    assert_eq!(
        watch.moved(Vector2::new(690, 5)),
        FrontendEvent::MouseMove(Vector2::new(690, 5), true)
    );
    watch.entered();
    watch.entered();
    assert_eq!(
        watch.moved(Vector2::new(0, 0)),
        FrontendEvent::MouseMove(Vector2::new(0, 0), false)
    );
}

#[test]
fn lost_host_ends_the_presentation_loop() {
    let step = frontend_step(Vec::new(), None, false);
    assert_eq!(step.outbound, None);
    assert!(!step.render);

    let events = vec![FrontendEvent::ButtonState(Button::MoveRight, true)];
    let step = frontend_step(events.clone(), None, false);
    assert_eq!(step.outbound, Some(events));
    assert!(!step.render);
}
