use ipmog::app::{App, AppState, Delivery};
use ipmog::ip::IpInfo;

fn berlin() -> IpInfo {
    IpInfo {
        ip: "1.2.3.4".to_string(),
        city: "Berlin".to_string(),
        region: "Berlin".to_string(),
        postal_code: "10115".to_string(),
        country: "Germany".to_string(),
        isp: "Example Net".to_string(),
        asn: 64500,
        timezone: "Europe/Berlin".to_string(),
        latitude_e7: 525_200_000,
        longitude_e7: 134_050_000,
    }
}

fn deliver(app: &mut App, outcome: Result<IpInfo, String>) {
    let ticket = app.fetch_ticket().expect("a fetch is outstanding");
    app.tick(Some(Delivery { ticket, outcome }));
}

fn frame_of(app: &App) -> u64 {
    match app.state() {
        AppState::Loading { frame } => *frame,
        _ => panic!("not loading"),
    }
}

#[test]
fn new_session_is_loading_with_one_fetch() {
    let app = App::new();
    assert_eq!(app.state(), &AppState::Loading { frame: 0 });
    assert!(app.fetch_ticket().is_some());
    assert!(!app.should_quit());
}

#[test]
fn ticks_advance_the_frame_by_one() {
    let mut app = App::new();
    for expected in 1..=20u64 {
        app.tick(None);
        assert_eq!(frame_of(&app), expected);
    }
}

#[test]
fn scenario_success_is_shown_on_next_tick() {
    let mut app = App::new();
    deliver(&mut app, Ok(berlin()));
    assert_eq!(app.state(), &AppState::Loaded { ip_info: berlin() });
    assert_eq!(app.fetch_ticket(), None);
}

#[test]
fn scenario_failure_then_reload() {
    let mut app = App::new();
    deliver(&mut app, Err("connection refused".to_string()));
    assert_eq!(
        app.state(),
        &AppState::Error { message: "connection refused".to_string() }
    );
    let fetch = app.on_key('r');
    assert!(fetch.is_some());
    assert_eq!(app.fetch_ticket(), fetch);
    assert_eq!(app.state(), &AppState::Loading { frame: 0 });
}

#[test]
fn scenario_reload_while_loading_resets_frame() {
    let mut app = App::new();
    for _ in 0..5 {
        app.tick(None);
    }
    assert_eq!(app.state(), &AppState::Loading { frame: 5 });
    app.on_key('r');
    assert_eq!(app.state(), &AppState::Loading { frame: 0 });
}

#[test]
fn taken_result_is_not_replaced_by_later_ticks() {
    let mut app = App::new();
    let ticket = app.fetch_ticket().unwrap();
    deliver(&mut app, Ok(berlin()));
    app.tick(None);
    app.tick(Some(Delivery { ticket, outcome: Err("late".to_string()) }));
    assert_eq!(app.state(), &AppState::Loaded { ip_info: berlin() });
}

#[test]
fn stale_result_after_reload_is_dropped() {
    let mut app = App::new();
    let old = app.fetch_ticket().unwrap();
    let new = app.on_key('r').unwrap();
    assert_ne!(old, new);
    app.tick(Some(Delivery { ticket: old, outcome: Ok(berlin()) }));
    assert_eq!(app.state(), &AppState::Loading { frame: 1 });
    assert_eq!(app.fetch_ticket(), Some(new));
    app.tick(Some(Delivery { ticket: new, outcome: Err("timeout".to_string()) }));
    assert_eq!(app.state(), &AppState::Error { message: "timeout".to_string() });
}

#[test]
fn reload_from_loaded_awaits_a_new_fetch() {
    let mut app = App::new();
    deliver(&mut app, Ok(berlin()));
    let fetch = app.on_key('r');
    assert!(fetch.is_some());
    assert_eq!(app.state(), &AppState::Loading { frame: 0 });
}

#[test]
fn quit_stays_set() {
    let mut app = App::new();
    assert_eq!(app.on_key('q'), None);
    assert!(app.should_quit());
    app.tick(None);
    app.on_key('r');
    app.on_key('x');
    deliver(&mut app, Ok(berlin()));
    app.on_key('q');
    assert!(app.should_quit());
}

#[test]
fn other_keys_change_nothing() {
    let mut app = App::new();
    app.tick(None);
    app.tick(None);
    let ticket = app.fetch_ticket();
    for key in ['x', 'Q', 'R', ' ', '1'] {
        assert_eq!(app.on_key(key), None);
    }
    assert_eq!(app.state(), &AppState::Loading { frame: 2 });
    assert_eq!(app.fetch_ticket(), ticket);
    assert!(!app.should_quit());
}
