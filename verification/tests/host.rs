use cgmath::Vector2;
use sc_game::frontend::FrontendEvent;
use sc_game::game::{ClientGame, ClientGameCommand, ClientGameEvent};
use sc_game::host::{forward, frame, relay, run, FrameStep};
use sc_game::input::Button;

#[test]
fn quiet_frame_renders() {
    let mut game = ClientGame::connect();
    match frame(&mut game, &Vec::new()) {
        FrameStep::Render(input) => {
            assert_eq!(input.frame_mouse(), Vector2::new(0, 0));
            assert!(!input.get(Button::MoveForward));
        }
        FrameStep::Quit => panic!("nothing asked the host to leave"),
    }
    assert!(game.is_running());
}

#[test]
fn frame_passes_events_on_and_ticks() {
    let mut game = ClientGame::connect();
    let events = vec![
        FrontendEvent::ButtonState(Button::MoveForward, true),
        FrontendEvent::MouseMove(Vector2::new(100, 100), false),
        FrontendEvent::MouseMove(Vector2::new(104, 97), true),
    ];
    match frame(&mut game, &events) {
        FrameStep::Render(input) => {
            assert!(input.get(Button::MoveForward));
            assert_eq!(input.frame_mouse(), Vector2::new(4, -3));
        }
        FrameStep::Quit => panic!("nothing asked the host to leave"),
    }
    // The tick has ended the frame.
    assert_eq!(game.input().frame_mouse(), Vector2::new(0, 0));
    assert!(game.input().get(Button::MoveForward));
}

#[test]
fn menu_button_leaves_without_a_tick() {
    let mut game = ClientGame::connect();
    let events = vec![
        FrontendEvent::MouseMove(Vector2::new(2, 2), true),
        FrontendEvent::ButtonState(Button::Menu, true),
        FrontendEvent::ButtonState(Button::MoveLeft, true),
    ];
    assert!(matches!(frame(&mut game, &events), FrameStep::Quit));
    // Every event was passed on, the one after the menu button too, and the
    // frame was not ended.
    assert!(game.input().get(Button::MoveLeft));
    assert!(!game.input().get(Button::Menu));
    assert_eq!(game.input().frame_mouse(), Vector2::new(2, 2));
    assert!(game.is_running());
}

#[test]
fn releasing_the_menu_button_leaves_too() {
    let mut game = ClientGame::connect();
    let events = vec![FrontendEvent::ButtonState(Button::Menu, false)];
    assert!(matches!(frame(&mut game, &events), FrameStep::Quit));
}

#[test]
fn closed_window_leaves_through_the_stop_command() {
    let mut game = ClientGame::connect();
    let events = vec![
        FrontendEvent::MouseMove(Vector2::new(2, 2), true),
        FrontendEvent::Close,
        FrontendEvent::ButtonState(Button::MoveLeft, true),
    ];
    assert!(matches!(frame(&mut game, &events), FrameStep::Quit));
    assert!(!game.is_running());
    // The host has taken the command, and the stopped game took nothing
    // after the close.
    assert_eq!(game.next_command(), None);
    assert!(!game.input().get(Button::MoveLeft));
    assert_eq!(game.input().frame_mouse(), Vector2::new(2, 2));
}

#[test]
fn frame_on_a_stopped_game_leaves() {
    let mut game = ClientGame::connect();
    game.handle_event(ClientGameEvent::Closed);
    assert!(matches!(frame(&mut game, &Vec::new()), FrameStep::Quit));
    assert_eq!(game.next_command(), None);
    assert!(matches!(frame(&mut game, &Vec::new()), FrameStep::Quit));

    let mut game = ClientGame::connect();
    game.handle_event(ClientGameEvent::Closed);
    assert_eq!(game.next_command(), Some(ClientGameCommand::Stop));
    assert!(matches!(frame(&mut game, &Vec::new()), FrameStep::Quit));
}

#[test]
fn run_without_frames_renders_nothing() {
    let ran = run(&Vec::new());
    assert!(ran.rendered.is_empty());
    assert!(!ran.stopped);
}

#[test]
fn run_renders_each_frame_until_it_runs_out() {
    let frames = vec![
        vec![FrontendEvent::MouseMove(Vector2::new(20, 20), true)],
        vec![
            FrontendEvent::MouseMove(Vector2::new(28, 30), true),
            FrontendEvent::MouseMove(Vector2::new(36, 35), true),
            FrontendEvent::ButtonState(Button::MoveForward, true),
        ],
        vec![],
    ];
    let ran = run(&frames);
    assert!(!ran.stopped);
    assert_eq!(ran.rendered.len(), 3);
    assert_eq!(ran.rendered[0].frame_mouse(), Vector2::new(20, 20));
    assert!(!ran.rendered[0].get(Button::MoveForward));
    assert_eq!(ran.rendered[1].frame_mouse(), Vector2::new(16, 15));
    assert!(ran.rendered[1].get(Button::MoveForward));
    assert_eq!(ran.rendered[2].frame_mouse(), Vector2::new(0, 0));
    assert!(ran.rendered[2].get(Button::MoveForward));
    assert_eq!(ran.rendered[2].mouse_position(), Vector2::new(36, 35));
}

#[test]
fn run_ends_with_the_frame_that_closes() {
    let frames = vec![
        vec![FrontendEvent::ButtonState(Button::MoveRight, true)],
        vec![FrontendEvent::Close],
        vec![FrontendEvent::ButtonState(Button::MoveRight, false)],
    ];
    let ran = run(&frames);
    assert!(ran.stopped);
    assert_eq!(ran.rendered.len(), 1);
    assert!(ran.rendered[0].get(Button::MoveRight));
}

#[test]
fn run_ends_with_the_menu_button() {
    let frames = vec![
        vec![FrontendEvent::ButtonState(Button::Menu, true)],
        vec![FrontendEvent::ButtonState(Button::MoveRight, true)],
    ];
    let ran = run(&frames);
    assert!(ran.stopped);
    assert!(ran.rendered.is_empty());
}

#[test]
fn forward_puts_events_in_the_games_words() {
    assert_eq!(forward(FrontendEvent::Close), Some(ClientGameEvent::Closed));
    assert_eq!(
        forward(FrontendEvent::ButtonState(Button::MoveLeft, false)),
        Some(ClientGameEvent::ButtonState(Button::MoveLeft, false))
    );
    assert_eq!(
        forward(FrontendEvent::MouseMove(Vector2::new(-3, 8), true)),
        Some(ClientGameEvent::MouseMove(Vector2::new(-3, 8), true))
    );
    assert_eq!(forward(FrontendEvent::ButtonState(Button::Menu, true)), None);
    assert_eq!(forward(FrontendEvent::ButtonState(Button::Menu, false)), None);
}

#[test]
fn relay_passes_everything_on_but_the_menu_button() {
    let events = vec![
        FrontendEvent::ButtonState(Button::MoveForward, true),
        FrontendEvent::ButtonState(Button::Menu, true),
        FrontendEvent::MouseMove(Vector2::new(5, 6), false),
        FrontendEvent::Close,
    ];
    let round = relay(&events, None, true);
    assert_eq!(
        round.outbound,
        vec![
            ClientGameEvent::ButtonState(Button::MoveForward, true),
            ClientGameEvent::MouseMove(Vector2::new(5, 6), false),
            ClientGameEvent::Closed,
        ]
    );
    assert!(!round.render);
}

#[test]
fn relay_renders_unless_told_to_leave() {
    let quiet = Vec::new();
    assert!(relay(&quiet, None, true).render);
    assert!(relay(&quiet, None, true).outbound.is_empty());
    assert!(!relay(&quiet, Some(ClientGameCommand::Stop), true).render);
    assert!(!relay(&quiet, None, false).render);

    let moving = vec![FrontendEvent::ButtonState(Button::MoveLeft, true)];
    assert!(relay(&moving, None, true).render);
    // The closed window is for the game to act on: the host leaves when the
    // game's command comes back.
    let closing = vec![FrontendEvent::Close];
    assert!(relay(&closing, None, true).render);
    assert_eq!(relay(&closing, None, true).outbound, vec![ClientGameEvent::Closed]);
}

#[test]
fn game_thread_ends_up_as_the_game_in_the_hosts_loop() {
    let events = vec![
        FrontendEvent::MouseMove(Vector2::new(50, 50), false),
        FrontendEvent::ButtonState(Button::MoveBackward, true),
        FrontendEvent::ButtonState(Button::Menu, false),
        FrontendEvent::MouseMove(Vector2::new(53, 41), true),
    ];

    let mut alone = ClientGame::connect();
    frame(&mut alone, &events);

    let mut threaded = ClientGame::connect();
    for event in relay(&events, None, true).outbound {
        threaded.handle_event(event);
    }

    assert_eq!(alone.is_running(), threaded.is_running());
    assert_eq!(alone.input().frame_mouse(), threaded.input().frame_mouse());
    assert_eq!(alone.input().frame_mouse(), Vector2::new(3, -9));
    assert_eq!(alone.input().mouse_position(), threaded.input().mouse_position());
    assert_eq!(
        alone.input().get(Button::MoveBackward),
        threaded.input().get(Button::MoveBackward)
    );
}
