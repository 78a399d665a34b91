use kiosk::config::{Config, ConfigError, State};
use kiosk::input::{
    classify_event, BrowserOp, Device, Direction, Handlers, Input, InputAction, Navigation, Tabs,
    Timers,
};

fn config_with(
    keyboards: Option<Vec<(String, String)>>,
    tabs: Option<Vec<(u16, String)>>,
    timers: Option<Vec<(u16, String)>>,
    konami: Option<String>,
) -> Config {
    Config::new(State::new(None, keyboards, tabs, timers, konami, None, None, None, None))
}

#[test]
fn classify_key_events() {
    assert_eq!(classify_event(1, 288, 1), Some(InputAction::Button(0)));
    assert_eq!(classify_event(1, 293, 1), Some(InputAction::Button(5)));
    assert_eq!(classify_event(1, 303, 1), Some(InputAction::Button(15)));
    assert_eq!(classify_event(1, 704, 1), Some(InputAction::Button(16)));
    assert_eq!(classify_event(1, 712, 1), Some(InputAction::Button(24)));
    // Key releases and out-of-range codes are ignored.
    assert_eq!(classify_event(1, 288, 0), None);
    assert_eq!(classify_event(1, 287, 1), None);
    assert_eq!(classify_event(1, 713, 1), None);
}

#[test]
fn classify_axis_events() {
    assert_eq!(
        classify_event(3, 0, 0),
        Some(InputAction::Dpad(Direction::Left))
    );
    assert_eq!(
        classify_event(3, 0, 255),
        Some(InputAction::Dpad(Direction::Right))
    );
    assert_eq!(classify_event(3, 1, 0), Some(InputAction::Dpad(Direction::Up)));
    assert_eq!(
        classify_event(3, 1, 255),
        Some(InputAction::Dpad(Direction::Down))
    );
    // Centred axes and other axes are ignored.
    assert_eq!(classify_event(3, 0, 127), None);
    assert_eq!(classify_event(3, 1, 127), None);
    assert_eq!(classify_event(3, 2, 0), None);
    assert_eq!(classify_event(2, 0, 0), None);
}

#[test]
fn navigation_buttons_act_when_no_code_is_pending() {
    let config = config_with(None, None, None, None);
    let mut nav = Navigation::new();
    assert_eq!(
        nav.button_press(0, &config),
        vec![BrowserOp::UserPress("x".to_string())]
    );
    assert_eq!(
        nav.button_press(1, &config),
        vec![BrowserOp::UserPress("a".to_string())]
    );
    assert_eq!(nav.button_press(4, &config), vec![BrowserOp::GotoPreviousTab]);
    assert_eq!(nav.button_press(5, &config), vec![BrowserOp::GotoNextTab]);
    assert_eq!(nav.button_press(8, &config), vec![BrowserOp::ReloadTab]);
    assert_eq!(nav.button_press(9, &config), vec![BrowserOp::TogglePause]);
    assert_eq!(nav.button_press(7, &config), vec![]);
}

#[test]
fn navigation_dpad_always_acts() {
    let config = config_with(None, None, None, None);
    let mut nav = Navigation::new();
    assert_eq!(
        nav.dpad_press(Direction::Up),
        vec![BrowserOp::UserPress("Up".to_string())]
    );
    assert_eq!(
        nav.dpad_press(Direction::Down),
        vec![BrowserOp::UserPress("Down".to_string())]
    );
    assert_eq!(nav.dpad_press(Direction::Left), vec![BrowserOp::GotoPreviousTab]);
    assert_eq!(nav.dpad_press(Direction::Right), vec![BrowserOp::GotoNextTab]);
    let _ = config;
}

#[test]
fn entering_the_code_runs_the_configured_command() {
    let config = config_with(None, None, None, Some("echo done".to_string()));
    let mut nav = Navigation::new();
    // The d-pad part of the code: the presses still act.
    for dir in [
        Direction::Up,
        Direction::Up,
        Direction::Down,
        Direction::Down,
        Direction::Left,
        Direction::Right,
        Direction::Left,
        Direction::Right,
    ] {
        assert_eq!(nav.dpad_press(dir).len(), 1);
    }
    // The button part: presses are swallowed while the code is pending.
    assert_eq!(nav.button_press(2, &config), vec![]);
    assert_eq!(nav.button_press(1, &config), vec![]);
    // The final symbol completes the code.
    assert_eq!(
        nav.button_press(9, &config),
        vec![BrowserOp::RunCommand("echo done".to_string())]
    );
}

#[test]
fn entering_the_code_without_a_command_does_nothing() {
    let config = config_with(None, None, None, None);
    let mut nav = Navigation::new();
    for dir in [
        Direction::Up,
        Direction::Up,
        Direction::Down,
        Direction::Down,
        Direction::Left,
        Direction::Right,
        Direction::Left,
        Direction::Right,
    ] {
        let _ = nav.dpad_press(dir);
    }
    assert_eq!(nav.button_press(2, &config), vec![]);
    assert_eq!(nav.button_press(1, &config), vec![]);
    assert_eq!(nav.button_press(9, &config), vec![]);
}

#[test]
fn tabs_button_navigates_by_name() {
    let config = config_with(
        None,
        Some(vec![(3, "news".to_string()), (4, "!echo hi".to_string())]),
        None,
        None,
    );
    let tabs = Tabs::new();
    assert_eq!(
        tabs.button_press(3, &config),
        vec![BrowserOp::GotoByName { name: "news".to_string(), sync: false }]
    );
    assert_eq!(
        tabs.button_press(4, &config),
        vec![BrowserOp::RunCommand("echo hi".to_string())]
    );
    assert_eq!(tabs.button_press(9, &config), vec![]);
    assert_eq!(tabs.dpad_press(Direction::Up), vec![]);
}

#[test]
fn timers_button_switches_and_resets() {
    let config = config_with(None, None, Some(vec![(2, "tea".to_string())]), None);
    let timers = Timers::new();
    assert_eq!(
        timers.button_press(2, &config),
        vec![
            BrowserOp::GotoByName { name: "timers".to_string(), sync: true },
            BrowserOp::ResetTimer("tea".to_string()),
        ]
    );
    assert_eq!(timers.button_press(3, &config), vec![]);
    assert_eq!(timers.dpad_press(Direction::Down), vec![]);
}

#[test]
fn device_dispatches_raw_events() {
    let config = config_with(None, None, None, None);
    let mut d = Device::new(
        "main",
        "/dev/input/event0".to_string(),
        Handlers::Navigation(Navigation::new()),
    );
    assert_eq!(d.name, "main");
    assert_eq!(d.path, "/dev/input/event0");
    // Button 4 (left bumper) goes down.
    assert_eq!(
        d.handle_event(1, 292, 1, &config),
        vec![BrowserOp::GotoPreviousTab]
    );
    // Its release is ignored.
    assert_eq!(d.handle_event(1, 292, 0, &config), vec![]);
    // D-pad right.
    assert_eq!(d.handle_event(3, 0, 255, &config), vec![BrowserOp::GotoNextTab]);
}

#[test]
fn device_new_optional_follows_the_lookup() {
    let d = Device::new_optional(
        "tabs",
        Ok("/dev/input/event1".to_string()),
        Handlers::Tabs(Tabs::new()),
    );
    assert!(d.is_some());
    let d = Device::new_optional(
        "tabs",
        Err(ConfigError::MissingKeyboard),
        Handlers::Tabs(Tabs::new()),
    );
    assert!(d.is_none());
}

#[test]
fn input_requires_the_main_keyboard() {
    let config = config_with(
        Some(vec![
            ("main".to_string(), "/dev/input/event0".to_string()),
            ("timers".to_string(), "/dev/input/event2".to_string()),
        ]),
        None,
        None,
        None,
    );
    let input = Input::new(&config).unwrap();
    assert_eq!(input.main.path, "/dev/input/event0");
    assert!(input.tabs.is_none());
    assert_eq!(input.timers.as_ref().unwrap().path, "/dev/input/event2");

    let missing = config_with(
        Some(vec![("tabs".to_string(), "/dev/input/event1".to_string())]),
        None,
        None,
        None,
    );
    match Input::new(&missing) {
        Err(e) => assert_eq!(e, ConfigError::MissingKeyboard),
        Ok(_) => panic!("expected a missing main keyboard"),
    }

    let none = config_with(None, None, None, None);
    match Input::new(&none) {
        Err(e) => assert_eq!(e, ConfigError::NoKeyboards),
        Ok(_) => panic!("expected no keyboards section"),
    }
}
