use brew_buddy::{App, Key, MENU_LEN, PROGRESS_MAX, TICK_MS};

#[test]
fn default_state_is_idle_at_first_entry() {
    let app = App::default();
    assert!(!app.exit());
    assert_eq!(app.selected(), 0);
    assert_eq!(app.progress(), 0);
    assert!(!app.is_steeping());
    assert_eq!(app.last_tick(), 0);
}

#[test]
fn up_at_first_entry_is_no_op() {
    let mut app = App::default();
    app.handle_key(Key::Up);
    assert_eq!(app.selected(), 0);
}

#[test]
fn down_at_last_entry_is_no_op() {
    let mut app = App::default();
    for _ in 0..MENU_LEN - 1 {
        app.handle_key(Key::Down);
    }
    assert_eq!(app.selected(), MENU_LEN - 1);
    app.handle_key(Key::Down);
    assert_eq!(app.selected(), MENU_LEN - 1);
}

#[test]
fn mixed_up_down_presses_stay_in_range() {
    let mut app = App::default();
    let keys = [Key::Down, Key::Down, Key::Up, Key::Down, Key::Down, Key::Down, Key::Down, Key::Down, Key::Up];
    let expected = [1usize, 2, 1, 2, 3, 4, 4, 4, 3];
    for (k, e) in keys.iter().zip(expected.iter()) {
        app.handle_key(*k);
        assert_eq!(app.selected(), *e);
        assert!(app.selected() < MENU_LEN);
    }
}

#[test]
fn quit_keys_set_exit() {
    let mut a = App::default();
    a.step(Some(Key::Char('q')), 0);
    assert!(a.exit());
    let mut b = App::default();
    b.step(Some(Key::Char('b')), 0);
    assert!(b.exit());
}

#[test]
fn quit_while_brewing_sets_exit() {
    let mut app = App::default();
    app.step(Some(Key::Enter), 0);
    app.step(None, 100);
    app.step(Some(Key::Char('q')), 200);
    assert!(app.exit());
    assert_eq!(app.progress(), 2);
}

#[test]
fn unmapped_keys_change_nothing() {
    let mut app = App::default();
    app.handle_key(Key::Down);
    for k in [Key::Char('x'), Key::Left, Key::Right, Key::Other] {
        app.handle_key(k);
    }
    assert_eq!(app.selected(), 1);
    assert!(!app.exit());
    assert!(!app.is_steeping());
    assert_eq!(app.progress(), 0);
}

#[test]
fn enter_while_idle_starts_from_zero() {
    let mut app = App::default();
    app.handle_key(Key::Enter);
    assert!(app.is_steeping());
    assert_eq!(app.progress(), 0);
}

#[test]
fn enter_while_brewing_does_not_reset() {
    let mut app = App::default();
    app.step(Some(Key::Enter), 0);
    app.step(None, 100);
    app.step(None, 200);
    assert_eq!(app.progress(), 2);
    app.step(Some(Key::Enter), 250);
    assert_eq!(app.progress(), 2);
    assert!(app.is_steeping());
}

#[test]
fn no_progress_before_a_full_tick() {
    let mut app = App::default();
    app.step(Some(Key::Enter), 0);
    app.update_progress(TICK_MS - 1);
    assert_eq!(app.progress(), 0);
    app.update_progress(TICK_MS);
    assert_eq!(app.progress(), 1);
    assert_eq!(app.last_tick(), TICK_MS);
}

#[test]
fn idle_ticks_change_nothing() {
    let mut app = App::default();
    app.update_progress(5000);
    assert_eq!(app.progress(), 0);
    assert_eq!(app.last_tick(), 0);
    assert!(!app.is_steeping());
}

#[test]
fn one_step_per_reading_even_after_long_gap() {
    let mut app = App::default();
    app.step(Some(Key::Enter), 0);
    app.update_progress(1000);
    assert_eq!(app.progress(), 1);
    assert_eq!(app.last_tick(), 1000);
}

#[test]
fn brew_completes_at_max_and_stops() {
    let mut app = App::default();
    app.step(Some(Key::Enter), 0);
    let mut last = 0u16;
    for i in 1..=(PROGRESS_MAX as u64) {
        app.step(None, i * TICK_MS);
        assert_eq!(app.progress(), last + 1);
        last = app.progress();
    }
    assert_eq!(app.progress(), PROGRESS_MAX);
    assert!(!app.is_steeping());
    app.step(None, 200 * TICK_MS);
    assert_eq!(app.progress(), PROGRESS_MAX);
    app.handle_key(Key::Enter);
    assert!(app.is_steeping());
    assert_eq!(app.progress(), 0);
}

#[test]
fn down_twice_then_quit() {
    let mut app = App::default();
    assert_eq!(app.selected(), 0);
    assert!(!app.exit());
    app.step(Some(Key::Down), 0);
    app.step(Some(Key::Down), 100);
    assert_eq!(app.selected(), 2);
    app.step(Some(Key::Char('q')), 200);
    assert!(app.exit());
}

#[test]
fn enter_then_1050ms_of_polling() {
    let mut app = App::default();
    app.step(Some(Key::Enter), 0);
    let mut t = 0u64;
    while t < 1050 {
        t += 100;
        app.step(None, t.min(1050));
    }
    assert_eq!(app.progress(), 10);
    assert!(app.is_steeping());
}
