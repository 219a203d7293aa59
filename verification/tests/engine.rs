use idle_rpg::engine::{App, KeyKind, KeyPress, Scheduler, FRAME_RATE_MS, TICK_RATE_MS};
use idle_rpg::game::GameStatus;

#[test]
fn default_app_is_a_fresh_session() {
    let app = App::default();
    assert!(!app.exit);
    assert_eq!(app.game.player_level(), 1);
    assert_eq!(app.game.player_health(), 100);
    assert_eq!(app.game.player_attack(), 10);
    assert!(*app.game.status() == GameStatus::Playing);
    assert_eq!(app.game.logs().len(), 1);
}

#[test]
fn quit_key_sets_the_stop_flag() {
    let mut app = App::default();
    app.handle_key_event(KeyPress::Char('q'));
    assert!(app.exit);
    assert_eq!(app.game.logs().len(), 1);
}

#[test]
fn other_keys_are_ignored() {
    let mut app = App::default();
    app.handle_key_event(KeyPress::Char('x'));
    assert!(!app.exit);
    app.handle_key_event(KeyPress::Other);
    assert!(!app.exit);
}

#[test]
fn only_press_events_are_actionable() {
    let mut app = App::default();
    app.handle_event(KeyKind::Repeat, KeyPress::Char('q'));
    assert!(!app.exit);
    app.handle_event(KeyKind::Release, KeyPress::Char('q'));
    assert!(!app.exit);
    app.handle_event(KeyKind::Press, KeyPress::Char('x'));
    assert!(!app.exit);
    app.handle_event(KeyKind::Press, KeyPress::Char('q'));
    assert!(app.exit);
}

#[test]
fn exit_request_leaves_the_game_untouched() {
    let mut app = App::default();
    app.exit();
    assert!(app.exit);
    assert_eq!(app.game.player_level(), 1);
    assert!(*app.game.status() == GameStatus::Playing);
}

#[test]
fn scheduler_tracks_both_cadences() {
    let mut sched = Scheduler::new(0);
    assert!(!sched.render_due(5));
    assert!(sched.render_due(10));
    assert!(!sched.tick_due(999));
    assert!(sched.tick_due(1000));
    sched.mark_rendered(10);
    assert!(!sched.render_due(15));
    assert!(sched.render_due(20));
    assert_eq!(sched.last_tick_ms, 0);
    sched.mark_ticked(1000);
    assert_eq!(sched.last_render_ms, 10);
    assert!(!sched.tick_due(1500));
}

#[test]
fn poll_timeout_counts_down_to_the_nearer_deadline() {
    let mut sched = Scheduler::new(0);
    // A render is nearer than the tick: the frame remainder caps the poll.
    assert_eq!(sched.poll_timeout_ms(0), FRAME_RATE_MS);
    assert_eq!(sched.poll_timeout_ms(4), 6);
    // A render is already due: the poll must not wait at all.
    assert_eq!(sched.poll_timeout_ms(400), 0);
    // The tick is nearer than the next render deadline.
    sched.mark_rendered(995);
    assert_eq!(sched.poll_timeout_ms(995), 5);
    assert_eq!(sched.poll_timeout_ms(999), 1);
    // A tick is due: zero even right after a render.
    assert_eq!(sched.poll_timeout_ms(1000), 0);
    sched.mark_rendered(1500);
    assert_eq!(sched.poll_timeout_ms(1500), 0);
}

#[test]
fn render_is_due_whenever_a_tick_is_due() {
    assert!(FRAME_RATE_MS < TICK_RATE_MS);
    let sched = Scheduler::new(0);
    for now in [1000u64, 1500, 5000] {
        assert!(sched.tick_due(now));
        assert!(sched.render_due(now));
    }
}
