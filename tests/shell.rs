use lifegame::app::{handle_key_events, App, AppState, Key, KeyAction, KeyPress};
use lifegame::world::{WorldError, CELL_ALIVE, CELL_DEAD};

fn press(code: Key) -> KeyPress {
    KeyPress { code, control_only: false }
}

fn small_app() -> App {
    App::new(3, 2, &[CELL_ALIVE, CELL_DEAD, CELL_ALIVE, CELL_DEAD, CELL_ALIVE, CELL_DEAD]).unwrap()
}

#[test]
fn app_starts_paused() {
    let app = small_app();
    assert_eq!(app.state(), AppState::Pause);
    assert_eq!(app.gen(), 0);
    assert_eq!((app.nx(), app.ny()), (3, 2));
    assert_eq!((app.rendering_ix(), app.rendering_iy()), (0, 0));
    assert!(app.can_reset());
    assert_eq!(App::new(3, 2, &[CELL_DEAD; 5]).err(), Some(WorldError::InvalidSize));
}

#[test]
fn tick_advances_only_while_running() {
    let mut app = small_app();
    app.tick();
    assert_eq!(app.gen(), 0);
    assert_eq!(app.world().generation(), 0);
    app.toggle();
    assert_eq!(app.state(), AppState::Run);
    assert!(!app.can_reset());
    app.tick();
    assert_eq!(app.gen(), 1);
    assert_eq!(app.world().generation(), 1);
    assert_eq!(app.world().cells(), vec![CELL_DEAD, CELL_ALIVE, CELL_DEAD, CELL_DEAD, CELL_ALIVE, CELL_DEAD]);
    app.toggle();
    assert_eq!(app.state(), AppState::Pause);
}

#[test]
fn quit_is_final_for_toggle() {
    let mut app = small_app();
    app.quit();
    app.toggle();
    assert_eq!(app.state(), AppState::Quit);
}

#[test]
fn reset_replaces_world_while_paused() {
    let mut app = small_app();
    app.toggle();
    app.tick();
    app.pan_x(2);
    // Running: reset does nothing.
    assert_eq!(app.reset(&[CELL_ALIVE; 6]), Ok(()));
    assert_eq!(app.gen(), 1);
    app.toggle();
    assert_eq!(app.reset(&[CELL_ALIVE; 4]), Err(WorldError::InvalidSize));
    assert_eq!(app.gen(), 1);
    assert_eq!(app.reset(&[CELL_ALIVE; 6]), Ok(()));
    assert_eq!(app.gen(), 0);
    assert_eq!(app.rendering_ix(), 0);
    assert_eq!(app.world().cells(), vec![CELL_ALIVE; 6]);
    assert_eq!(app.world().generation(), 0);
}

#[test]
fn panning_is_clamped() {
    let mut app = small_app();
    app.pan_x(2);
    assert_eq!(app.rendering_ix(), 2);
    app.pan_x(5);
    assert_eq!(app.rendering_ix(), 3);
    app.pan_x(-1);
    assert_eq!(app.rendering_ix(), 2);
    app.pan_x(isize::MIN);
    assert_eq!(app.rendering_ix(), 0);
    app.pan_y(1);
    assert_eq!(app.rendering_iy(), 1);
    app.pan_y(isize::MAX);
    assert_eq!(app.rendering_iy(), 2);
    app.pan_y(-7);
    assert_eq!(app.rendering_iy(), 0);
}

#[test]
fn keys_drive_the_shell() {
    let mut app = small_app();
    assert_eq!(handle_key_events(press(Key::Char('s')), &mut app), KeyAction::Done);
    assert_eq!(app.state(), AppState::Run);
    assert_eq!(handle_key_events(press(Key::Char('r')), &mut app), KeyAction::Done);
    assert_eq!(handle_key_events(press(Key::Char('s')), &mut app), KeyAction::Done);
    assert_eq!(handle_key_events(press(Key::Char('r')), &mut app), KeyAction::Reseed);
    handle_key_events(press(Key::Right), &mut app);
    handle_key_events(press(Key::Right), &mut app);
    handle_key_events(press(Key::Left), &mut app);
    handle_key_events(press(Key::Down), &mut app);
    handle_key_events(press(Key::Up), &mut app);
    handle_key_events(press(Key::Up), &mut app);
    assert_eq!((app.rendering_ix(), app.rendering_iy()), (1, 0));
    handle_key_events(press(Key::Char('c')), &mut app);
    handle_key_events(press(Key::Other), &mut app);
    assert_eq!(app.state(), AppState::Pause);
    handle_key_events(KeyPress { code: Key::Char('C'), control_only: true }, &mut app);
    assert_eq!(app.state(), AppState::Quit);
}

#[test]
fn escape_and_q_quit() {
    let mut app = small_app();
    handle_key_events(press(Key::Esc), &mut app);
    assert_eq!(app.state(), AppState::Quit);
    let mut app = small_app();
    handle_key_events(press(Key::Char('q')), &mut app);
    assert_eq!(app.state(), AppState::Quit);
}

#[test]
fn visible_cells_follow_panning_and_clip() {
    let mut app = small_app();
    assert_eq!(
        app.visible_cells(10, 10),
        vec![vec![CELL_ALIVE, CELL_DEAD, CELL_ALIVE], vec![CELL_DEAD, CELL_ALIVE, CELL_DEAD]]
    );
    assert_eq!(app.visible_cells(2, 1), vec![vec![CELL_ALIVE, CELL_DEAD]]);
    app.pan_x(1);
    app.pan_y(1);
    assert_eq!(app.visible_cells(10, 10), vec![vec![CELL_ALIVE, CELL_DEAD]]);
    app.pan_x(5);
    assert_eq!(app.visible_cells(10, 10), vec![Vec::<bool>::new()]);
    assert_eq!(app.visible_cells(0, 0), Vec::<Vec<bool>>::new());
}
