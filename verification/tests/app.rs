use dashboard::app::{App, KeyCode, KeyEvent, KeyEventKind, Refresh};
use dashboard::cpu::CPUData;
use dashboard::registry::RegistryError;
use dashboard::server::{FetchError, ServerState, ServerStatus};
use dashboard::stats::SystemStats;
use dashboard::usage::Usage;

fn press(code: KeyCode) -> KeyEvent {
    KeyEvent { code, kind: KeyEventKind::Press }
}

fn start() -> App {
    App::new(CPUData::new(4, 2), 1_000)
}

#[test]
fn app_starts_with_the_three_servers() {
    let app = start();
    assert!(!app.should_exit());
    assert_eq!(app.server_states().len(), 3);
    assert_eq!(app.server_states().get(0), Ok(&ServerState::new("129.80.58.106:8080")));
    assert_eq!(app.server_states().get(1), Ok(&ServerState::new("129.80.58.106:8081")));
    assert_eq!(app.server_states().get(2), Ok(&ServerState::new("129.80.58.106:8082")));
    assert_eq!(app.list_state().selected_index(), 0);
    assert_eq!(app.list_state().count(), 3);
}

#[test]
fn app_starts_without_readings() {
    let app = start();
    assert!(app.system_stats().cpu_usages.is_empty());
    assert_eq!(app.system_stats().mem_usage, 0);
    assert_eq!(app.system_stats().max_mem, 0);
    assert_eq!(app.system_stats().cpu_data.cpu_count, 4);
    assert_eq!(app.system_stats().cpu_data.cpu_cores, 2);
}

#[test]
fn app_takes_other_addresses() {
    let list = vec!["x:1".to_string(), "y:2".to_string()];
    let app = App::with_addresses(&list, CPUData::new(1, 1), 0);
    assert_eq!(app.server_states().len(), 2);
    assert_eq!(app.server_states().get(1).unwrap().ip, "y:2");
    assert_eq!(app.list_state().count(), 2);
    let empty = App::with_addresses(&Vec::new(), CPUData::new(1, 1), 0);
    assert_eq!(empty.list_state().count(), 0);
    assert_eq!(empty.render().highlighted, None);
}

#[test]
fn q_asks_to_leave() {
    let mut app = start();
    app.handle_events(press(KeyCode::Char('q')));
    assert!(app.should_exit());
    app.handle_events(press(KeyCode::Down));
    assert!(app.should_exit());
}

#[test]
fn other_keys_do_nothing() {
    let mut app = start();
    app.handle_events(press(KeyCode::Char('Q')));
    app.handle_events(press(KeyCode::Char('x')));
    app.handle_events(press(KeyCode::Other));
    assert!(!app.should_exit());
    assert_eq!(app.list_state().selected_index(), 0);
}

#[test]
fn only_the_press_of_a_key_counts() {
    let mut app = start();
    app.handle_events(KeyEvent { code: KeyCode::Char('q'), kind: KeyEventKind::Release });
    app.handle_events(KeyEvent { code: KeyCode::Char('q'), kind: KeyEventKind::Repeat });
    app.handle_events(KeyEvent { code: KeyCode::Down, kind: KeyEventKind::Release });
    app.handle_events(KeyEvent { code: KeyCode::Up, kind: KeyEventKind::Repeat });
    assert!(!app.should_exit());
    assert_eq!(app.list_state().selected_index(), 0);
}

#[test]
fn arrows_step_through_the_servers() {
    let mut app = start();
    app.handle_events(press(KeyCode::Down));
    assert_eq!(app.list_state().selected_index(), 1);
    app.handle_events(press(KeyCode::Down));
    assert_eq!(app.list_state().selected_index(), 2);
    app.handle_events(press(KeyCode::Down));
    assert_eq!(app.list_state().selected_index(), 0);
    app.handle_events(press(KeyCode::Up));
    assert_eq!(app.list_state().selected_index(), 2);
    app.handle_events(press(KeyCode::Up));
    assert_eq!(app.list_state().selected_index(), 1);
    app.handle_events(press(KeyCode::Up));
    assert_eq!(app.list_state().selected_index(), 0);
}

#[test]
fn list_state_steps() {
    let mut app = start();
    app.list_state_previous();
    assert_eq!(app.list_state().selected_index(), 2);
    app.list_state_next();
    assert_eq!(app.list_state().selected_index(), 0);
    app.list_state_next();
    assert_eq!(app.list_state().selected_index(), 1);
    assert_eq!(app.list_state().count(), 3);
}

#[test]
fn tick_fires_each_refresh_on_its_own_cadence() {
    let mut app = start();
    assert_eq!(app.tick(1_000), Refresh { system: false, servers: None });
    assert_eq!(app.tick(1_499), Refresh { system: false, servers: None });
    assert_eq!(app.tick(1_500), Refresh { system: true, servers: None });
    assert_eq!(app.tick(1_516), Refresh { system: false, servers: None });
    assert_eq!(app.tick(31_000), Refresh { system: true, servers: Some(1) });
    assert_eq!(app.tick(31_016), Refresh { system: false, servers: None });
    assert_eq!(app.tick(61_000), Refresh { system: true, servers: Some(2) });
}

#[test]
fn tick_numbers_the_sweeps() {
    let mut app = start();
    assert_eq!(app.current_sweep(), 0);
    assert_eq!(app.tick(2_000), Refresh { system: true, servers: None });
    assert_eq!(app.current_sweep(), 0);
    assert_eq!(app.tick(31_000), Refresh { system: true, servers: Some(1) });
    assert_eq!(app.current_sweep(), 1);
    assert_eq!(app.tick(100_000), Refresh { system: true, servers: Some(2) });
    assert_eq!(app.current_sweep(), 2);
}

#[test]
fn tick_changes_nothing_that_is_shown() {
    let mut app = start();
    let before = app.render();
    assert_eq!(app.tick(100_000), Refresh { system: true, servers: Some(1) });
    assert_eq!(app.render(), before);
    assert!(!app.should_exit());
}

#[test]
fn record_system_shows_the_new_reading() {
    let mut app = start();
    app.record_system(
        vec![Usage::from_hundredths(5_000), Usage::from_hundredths(100)],
        1000,
        2000,
    );
    let stats: &SystemStats = app.system_stats();
    assert_eq!(stats.cpu_usages, vec![Usage::from_hundredths(5_000), Usage::from_hundredths(100)]);
    assert_eq!(stats.mem_usage, 1000);
    assert_eq!(stats.max_mem, 2000);
    assert_eq!(stats.mem_data.get_used(), 1000);
    assert_eq!(stats.cpu_data.get_cpu_usage().len(), 2);
    assert_eq!(stats.cpu_data.cpu_count, 4);
    app.record_system(Vec::new(), 0, 0);
    assert!(app.system_stats().cpu_usages.is_empty());
    assert_eq!(app.system_stats().max_mem, 0);
}

#[test]
fn update_server_reads_the_answer() {
    let mut app = start();
    let text = r#"{"online": true, "players": {"online": 5, "max": 20, "list": [{"name_clean":"Alice"}]}}"#;
    assert_eq!(app.update_server(1, 0, Ok(text)), Ok(true));
    assert_eq!(
        app.server_states().get(1).unwrap().get_status(),
        ServerStatus {
            online: true,
            player_count: 5,
            max_players: 20,
            players: vec!["Alice".to_string()],
        }
    );
    assert_eq!(app.server_states().get(0), Ok(&ServerState::new("129.80.58.106:8080")));
    assert_eq!(app.server_states().get(2), Ok(&ServerState::new("129.80.58.106:8082")));
}

#[test]
fn update_server_with_a_failure_keeps_what_is_shown() {
    let mut app = start();
    assert_eq!(
        app.update_server(0, 0, Ok(r#"{"online": true, "players": {"online": 2}}"#)),
        Ok(true)
    );
    let before = app.render();
    assert_eq!(app.update_server(0, 1, Err(FetchError::Timeout)), Ok(true));
    assert_eq!(app.update_server(0, 2, Ok("oops")), Ok(true));
    assert_eq!(app.update_server(1, 2, Err(FetchError::Network)), Ok(true));
    assert_eq!(app.render(), before);
    assert_eq!(
        app.server_states().get(0).unwrap().last_update_error,
        Some(FetchError::MalformedJson)
    );
    assert_eq!(app.server_states().get(1).unwrap().last_update_error, Some(FetchError::Network));
    assert_eq!(app.server_states().get(2).unwrap().last_update_error, None);
}

#[test]
fn update_server_beyond_the_list_changes_nothing() {
    let mut app = start();
    let before = app.render();
    assert_eq!(
        app.update_server(3, 0, Ok(r#"{"online": true}"#)),
        Err(RegistryError::IndexOutOfRange)
    );
    assert_eq!(
        app.update_server(usize::MAX, 9, Err(FetchError::Network)),
        Err(RegistryError::IndexOutOfRange)
    );
    assert_eq!(app.render(), before);
    assert_eq!(app.server_states().len(), 3);
}

#[test]
fn answer_of_an_older_sweep_is_dropped_after_a_newer_one() {
    let mut app = start();
    assert_eq!(app.tick(31_000), Refresh { system: true, servers: Some(1) });
    assert_eq!(
        app.update_server(0, 1, Ok(r#"{"online": true, "players": {"online": 9}}"#)),
        Ok(true)
    );
    let before = app.render();
    // The answer of the first sweep comes in late.
    assert_eq!(
        app.update_server(0, 0, Ok(r#"{"online": false, "players": {"online": 1}}"#)),
        Ok(false)
    );
    assert_eq!(app.update_server(0, 0, Err(FetchError::Timeout)), Ok(false));
    assert_eq!(app.render(), before);
    assert_eq!(app.server_states().get(0).unwrap().player_count, 9);
    assert_eq!(app.server_states().get(0).unwrap().last_update_error, None);
    // For another server the first sweep is still the newest.
    assert_eq!(
        app.update_server(1, 0, Ok(r#"{"online": true, "players": {"online": 4}}"#)),
        Ok(true)
    );
    assert_eq!(app.server_states().get(1).unwrap().player_count, 4);
}

#[test]
fn answers_of_one_sweep_are_taken_in_as_they_come() {
    let mut app = start();
    assert_eq!(app.update_server(2, 0, Ok(r#"{"players": {"online": 1}}"#)), Ok(true));
    assert_eq!(app.update_server(2, 0, Ok(r#"{"players": {"online": 2}}"#)), Ok(true));
    assert_eq!(app.server_states().get(2).unwrap().player_count, 2);
    assert_eq!(app.update_server(2, 5, Err(FetchError::Network)), Ok(true));
    assert_eq!(app.update_server(2, 4, Ok(r#"{"players": {"online": 3}}"#)), Ok(false));
    assert_eq!(app.update_server(2, 5, Ok(r#"{"players": {"online": 6}}"#)), Ok(true));
    assert_eq!(app.server_states().get(2).unwrap().player_count, 6);
}

#[test]
fn one_server_can_fail_while_its_neighbour_is_updated_and_the_user_leaves() {
    let mut app = start();
    assert_eq!(app.tick(31_000), Refresh { system: true, servers: Some(1) });
    // Nothing has come back for the first server.
    assert_eq!(
        app.update_server(1, 1, Ok(r#"{"online": true, "players": {"online": 7}}"#)),
        Ok(true)
    );
    assert_eq!(app.render().rows[1], "129.80.58.106:8081 - 7");
    assert_eq!(app.render().rows[0], "129.80.58.106:8080 - 0");
    app.handle_events(press(KeyCode::Char('q')));
    assert!(app.should_exit());
}

#[test]
fn answers_for_different_servers_can_come_in_either_order() {
    let first = r#"{"online": true, "players": {"online": 1, "list": [{"name_clean": "a"}]}}"#;
    let mut one = start();
    assert_eq!(one.update_server(0, 0, Ok(first)), Ok(true));
    assert_eq!(one.update_server(2, 0, Err(FetchError::Timeout)), Ok(true));
    let mut other = start();
    assert_eq!(other.update_server(2, 0, Err(FetchError::Timeout)), Ok(true));
    assert_eq!(other.update_server(0, 0, Ok(first)), Ok(true));
    assert_eq!(one.render(), other.render());
    let mut i: usize = 0;
    while i < 3 {
        assert_eq!(one.server_states().get(i), other.server_states().get(i));
        i += 1;
    }
}

#[test]
fn render_shows_the_dashboard() {
    let mut app = start();
    app.record_system(vec![Usage::from_hundredths(2_500)], 1000, 2000);
    assert_eq!(
        app.update_server(
            2,
            0,
            Ok(r#"{"online": true, "players": {"online": 1, "max": 2, "list": [{"name_clean": "Al"}]}}"#)
        ),
        Ok(true)
    );
    app.handle_events(press(KeyCode::Up));
    let frame = app.render();
    assert_eq!(frame.system_height, 4);
    assert_eq!(frame.bars.len(), 2);
    assert_eq!(frame.bars[0].label, "CPU 0");
    assert_eq!(frame.bars[0].text, "25");
    assert_eq!(frame.bars[1].text, "1.00 KB/2.00 KB");
    assert_eq!(
        frame.rows,
        vec![
            "129.80.58.106:8080 - 0".to_string(),
            "129.80.58.106:8081 - 0".to_string(),
            "129.80.58.106:8082 - 1".to_string(),
        ]
    );
    assert_eq!(frame.highlighted, Some(2));
    assert_eq!(
        frame.details,
        vec![
            "Status: Online".to_string(),
            "Player Count: 1 / 2".to_string(),
            "Players:".to_string(),
            "\tAl".to_string(),
        ]
    );
}

#[test]
fn render_always_highlights_a_row() {
    let mut app = App::with_addresses(&vec!["only:1".to_string()], CPUData::new(1, 1), 0);
    assert_eq!(app.render().highlighted, Some(0));
    app.handle_events(press(KeyCode::Down));
    assert_eq!(app.render().highlighted, Some(0));
    app.handle_events(press(KeyCode::Up));
    assert_eq!(app.render().highlighted, Some(0));
}

#[test]
fn scheduler_of_a_new_app_counts_from_its_start() {
    let mut app = App::new(CPUData::new(1, 1), 7);
    assert_eq!(app.tick(506), Refresh { system: false, servers: None });
    assert_eq!(app.tick(507), Refresh { system: true, servers: None });
    assert_eq!(app.tick(30_006), Refresh { system: true, servers: None });
    assert_eq!(app.tick(30_007), Refresh { system: false, servers: Some(1) });
}
