use tick_tui::app::{Action, App, Mode};
use tick_tui::events::{Event, KeyCode, KeyKind, KeyPress, RawInput, Size};
use tick_tui::tick_counter::TickCounter;

fn key(c: char) -> Event {
    Event::KeyPress(KeyPress {
        code: KeyCode::Char(c),
        control: false,
    })
}

fn ctrl_key(c: char) -> Event {
    Event::KeyPress(KeyPress {
        code: KeyCode::Char(c),
        control: true,
    })
}

fn esc() -> Event {
    Event::KeyPress(KeyPress {
        code: KeyCode::Esc,
        control: false,
    })
}

#[test]
fn ticks_count_up_while_running() {
    let mut app = App::new();
    assert_eq!(app.tick_count(), 0);
    assert_eq!(app.mode(), Mode::Running);
    for n in 1..=5 {
        app.handle_events(Event::Tick);
        assert_eq!(app.tick_count(), n);
    }
    assert_eq!(app.mode(), Mode::Running);
}

#[test]
fn ticks_do_not_count_while_paused() {
    let mut app = App::new();
    app.handle_events(Event::Tick);
    app.handle_events(key(' '));
    assert_eq!(app.mode(), Mode::Paused);
    for _ in 0..4 {
        app.handle_events(Event::Tick);
    }
    assert_eq!(app.tick_count(), 1);
}

#[test]
fn toggling_pause_twice_restores_the_mode() {
    let mut app = App::new();
    app.handle_events(key(' '));
    app.handle_events(key(' '));
    assert_eq!(app.mode(), Mode::Running);
    app.handle_events(key(' '));
    assert_eq!(app.mode(), Mode::Paused);
    app.handle_events(key(' '));
    app.handle_events(key(' '));
    assert_eq!(app.mode(), Mode::Paused);
}

#[test]
fn reset_zeroes_the_counter_in_either_mode() {
    let mut app = App::new();
    for _ in 0..7 {
        app.handle_events(Event::Tick);
    }
    app.handle_events(key('r'));
    assert_eq!(app.tick_count(), 0);
    assert_eq!(app.mode(), Mode::Running);

    for _ in 0..3 {
        app.handle_events(Event::Tick);
    }
    app.handle_events(key(' '));
    app.handle_events(key('r'));
    assert_eq!(app.tick_count(), 0);
    assert_eq!(app.mode(), Mode::Paused);
}

#[test]
fn each_exit_binding_quits_from_running() {
    for event in [key('q'), esc(), ctrl_key('c')] {
        let mut app = App::new();
        app.handle_events(event);
        assert_eq!(app.mode(), Mode::Quitting);
        assert!(!app.is_running());
    }
}

#[test]
fn each_exit_binding_quits_from_paused() {
    for event in [key('q'), esc(), ctrl_key('c')] {
        let mut app = App::new();
        app.handle_events(key(' '));
        app.handle_events(event);
        assert_eq!(app.mode(), Mode::Quitting);
        assert!(!app.is_running());
    }
}

#[test]
fn quitting_is_terminal() {
    let mut app = App::new();
    app.handle_events(Event::Tick);
    app.handle_events(key('q'));
    for event in [Event::Tick, key(' '), key('r'), key('q'), esc()] {
        app.handle_events(event);
        assert_eq!(app.mode(), Mode::Quitting);
        assert_eq!(app.tick_count(), 1);
    }
}

#[test]
fn plain_c_and_unmapped_keys_do_nothing() {
    let mut app = App::new();
    app.handle_events(Event::Tick);
    for event in [
        key('c'),
        key('x'),
        ctrl_key('r'),
        Event::KeyPress(KeyPress {
            code: KeyCode::Other,
            control: false,
        }),
        Event::Mouse,
        Event::Resize(Size {
            width: 80,
            height: 24,
        }),
    ] {
        app.handle_events(event);
    }
    // Control+r still resets: the reset binding looks only at the key.
    assert_eq!(app.tick_count(), 0);
    assert_eq!(app.mode(), Mode::Running);
    assert!(app.is_running());
}

#[test]
fn action_mapping_matches_the_bindings() {
    let press = |code: KeyCode, control: bool| KeyPress { code, control };
    assert_eq!(Action::from(press(KeyCode::Char('q'), false)), Action::Exit);
    assert_eq!(Action::from(press(KeyCode::Char('q'), true)), Action::Exit);
    assert_eq!(Action::from(press(KeyCode::Esc, false)), Action::Exit);
    assert_eq!(Action::from(press(KeyCode::Char('c'), true)), Action::Exit);
    assert_eq!(
        Action::from(press(KeyCode::Char('c'), false)),
        Action::DoNothing
    );
    assert_eq!(
        Action::from(press(KeyCode::Char('r'), false)),
        Action::ResetTicks
    );
    assert_eq!(
        Action::from(press(KeyCode::Char(' '), false)),
        Action::TogglePause
    );
    assert_eq!(
        Action::from(press(KeyCode::Char('x'), false)),
        Action::DoNothing
    );
    assert_eq!(
        Action::from(press(KeyCode::Other, true)),
        Action::DoNothing
    );
}

#[test]
fn scenario_ticks_pause_reset_quit() {
    let mut app = App::new();
    assert_eq!(app.mode(), Mode::Running);
    assert_eq!(app.tick_count(), 0);
    app.handle_events(Event::Tick);
    app.handle_events(Event::Tick);
    app.handle_events(Event::Tick);
    assert_eq!(app.tick_count(), 3);
    app.handle_events(key(' '));
    assert_eq!(app.mode(), Mode::Paused);
    app.handle_events(Event::Tick);
    app.handle_events(Event::Tick);
    assert_eq!(app.tick_count(), 3);
    app.handle_events(key('r'));
    assert_eq!(app.tick_count(), 0);
    assert_eq!(app.mode(), Mode::Paused);
    app.handle_events(key('q'));
    assert_eq!(app.mode(), Mode::Quitting);
    assert!(!app.is_running());
}

#[test]
fn classification_keeps_presses_and_drops_the_rest() {
    let press = KeyPress {
        code: KeyCode::Char('a'),
        control: false,
    };
    assert_eq!(
        Event::from(RawInput::Key {
            kind: KeyKind::Press,
            key: press
        }),
        Event::KeyPress(press)
    );
    assert_eq!(
        Event::from(RawInput::Key {
            kind: KeyKind::Release,
            key: press
        }),
        Event::Ignored
    );
    assert_eq!(
        Event::from(RawInput::Key {
            kind: KeyKind::Repeat,
            key: press
        }),
        Event::Ignored
    );
    assert_eq!(Event::from(RawInput::Mouse), Event::Mouse);
    assert_eq!(
        Event::from(RawInput::Resize(80, 24)),
        Event::Resize(Size {
            width: 80,
            height: 24
        })
    );
    assert_eq!(Event::from(RawInput::FocusGained), Event::Ignored);
    assert_eq!(Event::from(RawInput::FocusLost), Event::Ignored);
    assert_eq!(Event::from(RawInput::Paste), Event::Ignored);
}

#[test]
fn tick_counter_keys_reset_toggle_and_bubble() {
    let mut counter = TickCounter::new();
    counter.tick();
    counter.tick();
    assert_eq!(counter.tick_count(), 2);
    assert_eq!(counter.mode(), "Running");

    let space = KeyPress {
        code: KeyCode::Char(' '),
        control: false,
    };
    assert_eq!(counter.handle_key_event(space), None);
    assert_eq!(counter.mode(), "Paused");
    counter.tick();
    assert_eq!(counter.tick_count(), 2);

    let reset = KeyPress {
        code: KeyCode::Char('r'),
        control: false,
    };
    assert_eq!(counter.handle_key_event(reset), None);
    assert_eq!(counter.tick_count(), 0);
    assert_eq!(counter.mode(), "Paused");

    let quit = KeyPress {
        code: KeyCode::Char('q'),
        control: false,
    };
    assert_eq!(counter.handle_key_event(quit), Some(quit));
    let other = KeyPress {
        code: KeyCode::Esc,
        control: true,
    };
    assert_eq!(counter.handle_key_event(other), Some(other));
    assert_eq!(counter.tick_count(), 0);
    assert_eq!(counter.mode(), "Paused");
}

#[test]
fn default_states_match_new() {
    let app = App::default();
    assert_eq!(app.mode(), Mode::Running);
    assert_eq!(app.tick_count(), 0);
    let counter = TickCounter::default();
    assert_eq!(counter.mode(), "Running");
    assert_eq!(counter.tick_count(), 0);
}
