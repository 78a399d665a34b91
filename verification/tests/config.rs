use kiosk::config::{Config, ConfigError, Page, State};

fn full_state() -> State {
    State::new(
        Some(vec![
            (
                "home".to_string(),
                Page { url: "http://example.invalid/home".to_string(), reload: Some(60) },
            ),
            (
                "news".to_string(),
                Page { url: "http://example.invalid/news".to_string(), reload: None },
            ),
        ]),
        Some(vec![("main".to_string(), "/dev/input/event0".to_string())]),
        Some(vec![(3, "news".to_string()), (4, "!echo hi".to_string())]),
        Some(vec![(2, "tea".to_string())]),
        Some("systemctl restart kiosk".to_string()),
        Some("mqtt.example.invalid".to_string()),
        Some(15),
        Some(600),
        Some(45),
    )
}

fn empty_state() -> State {
    State::new(None, None, None, None, None, None, None, None, None)
}

#[test]
fn defaults_apply_when_unconfigured() {
    let c = Config::new(empty_state());
    assert_eq!(c.autoscroll_delay(), 20);
    assert_eq!(c.autoscroll_pause(), 900);
    assert_eq!(c.autoscroll_hold(), 300);
}

#[test]
fn configured_durations_win() {
    let c = Config::new(full_state());
    assert_eq!(c.autoscroll_delay(), 15);
    assert_eq!(c.autoscroll_pause(), 600);
    assert_eq!(c.autoscroll_hold(), 45);
}

#[test]
fn browser_urls_round_trip() {
    let c = Config::new(full_state());
    let urls = c.browser_urls().unwrap();
    assert_eq!(urls.len(), 2);
    assert_eq!(urls[0].0, "home");
    assert_eq!(urls[0].1.url, "http://example.invalid/home");
    assert_eq!(urls[0].1.reload, Some(60));
    assert_eq!(urls[1].0, "news");
    assert_eq!(urls[1].1.reload, None);
}

#[test]
fn browser_urls_missing_section() {
    let c = Config::new(empty_state());
    assert_eq!(c.browser_urls().unwrap_err(), ConfigError::NoUrls);
}

#[test]
fn keyboard_lookups() {
    let c = Config::new(full_state());
    assert_eq!(c.keyboard_device("main").unwrap(), "/dev/input/event0");
    assert_eq!(
        c.keyboard_device("tabs").unwrap_err(),
        ConfigError::MissingKeyboard
    );
    let none = Config::new(empty_state());
    assert_eq!(
        none.keyboard_device("main").unwrap_err(),
        ConfigError::NoKeyboards
    );
}

#[test]
fn tab_key_lookups() {
    let c = Config::new(full_state());
    assert_eq!(c.tabs_key(3).unwrap(), "news");
    assert_eq!(c.tabs_key(4).unwrap(), "!echo hi");
    assert_eq!(c.tabs_key(9).unwrap_err(), ConfigError::MissingTabKey);
    let none = Config::new(empty_state());
    assert_eq!(none.tabs_key(3).unwrap_err(), ConfigError::NoTabKeys);
}

#[test]
fn timer_key_lookups() {
    let c = Config::new(full_state());
    assert_eq!(c.timers_key(2).unwrap(), "tea");
    assert_eq!(c.timers_key(0).unwrap_err(), ConfigError::MissingTimerKey);
    let none = Config::new(empty_state());
    assert_eq!(none.timers_key(2).unwrap_err(), ConfigError::NoTimerKeys);
}

#[test]
fn konami_and_mqtt_lookups() {
    let c = Config::new(full_state());
    assert_eq!(c.konami_command().unwrap(), "systemctl restart kiosk");
    assert_eq!(c.mqtt_hostname().unwrap(), "mqtt.example.invalid");
    let none = Config::new(empty_state());
    assert_eq!(
        none.konami_command().unwrap_err(),
        ConfigError::NoKonamiCommand
    );
    assert_eq!(
        none.mqtt_hostname().unwrap_err(),
        ConfigError::NoMqttHostname
    );
}

#[test]
fn error_messages_are_fixed() {
    assert_eq!(ConfigError::NoUrls.message(), "no urls in config");
    assert_eq!(ConfigError::MissingKeyboard.message(), "missing keyboard");
    assert_eq!(ConfigError::NoTabKeys.message(), "no tab keys in config");
    assert_eq!(
        ConfigError::NoKonamiCommand.message(),
        "no konami setting in config"
    );
}

#[test]
fn reload_replaces_the_snapshot() {
    let mut c = Config::new(empty_state());
    assert_eq!(c.autoscroll_delay(), 20);
    c.reload(full_state());
    assert_eq!(c.autoscroll_delay(), 15);
}

#[test]
fn first_occurrence_wins_in_lookups() {
    let c = Config::new(State::new(
        None,
        Some(vec![
            ("main".to_string(), "/dev/a".to_string()),
            ("main".to_string(), "/dev/b".to_string()),
        ]),
        None,
        None,
        None,
        None,
        None,
        None,
        None,
    ));
    assert_eq!(c.keyboard_device("main").unwrap(), "/dev/a");
}
