use idle_rpg::game::{Enemy, GameState, GameStatus, LogType, PLAYER_MAX_LEVEL};

#[test]
fn new_starts_playing_with_system_log() {
    let gs = GameState::new(1, 100, 10);
    assert_eq!(gs.player_level(), 1);
    assert_eq!(gs.player_health(), 100);
    assert_eq!(gs.player_attack(), 10);
    assert!(*gs.status() == GameStatus::Playing);
    assert_eq!(gs.logs().len(), 1);
    assert!(gs.logs()[0].log_type == LogType::System);
    assert_eq!(gs.logs()[0].message, "Game started");
}

#[test]
fn first_tick_wins_and_levels_up() {
    let mut gs = GameState::new(1, 100, 10);
    gs.update();
    assert_eq!(gs.player_level(), 2);
    assert_eq!(gs.player_health(), 90);
    assert!(*gs.status() == GameStatus::Playing);
    assert_eq!(gs.logs().len(), 3);
    assert!(gs.logs()[0].log_type == LogType::Status);
    assert_eq!(gs.logs()[0].message, "Level up to 2");
    assert!(gs.logs()[1].log_type == LogType::Fight);
    assert_eq!(gs.logs()[1].message, "Won the fight!");
    assert!(gs.logs()[2].log_type == LogType::System);
    assert_eq!(gs.logs()[2].message, "Game started");
}

#[test]
fn weak_player_loses_fight_after_one_exchange() {
    let mut gs = GameState::new(5, 1, 1);
    let mut enemy = Enemy::new(100, 100);
    let won = gs.fight(&mut enemy);
    assert!(!won);
    assert_eq!(enemy.health, 99);
    assert_eq!(gs.player_health(), 0);
    assert_eq!(gs.player_level(), 5);
}

#[test]
fn losing_tick_ends_in_game_over() {
    let mut gs = GameState::new(5, 1, 1);
    gs.update();
    assert!(*gs.status() == GameStatus::GameOver);
    assert_eq!(gs.player_level(), 5);
    assert_eq!(gs.player_health(), 0);
    assert!(gs.logs()[0].log_type == LogType::Fight);
    assert_eq!(gs.logs()[0].message, "Lost the fight!");
}

#[test]
fn winning_at_penultimate_level_is_victory() {
    let mut gs = GameState::new(PLAYER_MAX_LEVEL - 1, 100, 10);
    gs.update();
    assert_eq!(gs.player_level(), PLAYER_MAX_LEVEL);
    assert!(*gs.status() == GameStatus::Victory);
}

#[test]
fn terminal_updates_are_noops() {
    let mut gs = GameState::new(PLAYER_MAX_LEVEL - 1, 100, 10);
    gs.update();
    assert!(*gs.status() == GameStatus::Victory);
    let level = gs.player_level();
    let health = gs.player_health();
    let attack = gs.player_attack();
    let log_len = gs.logs().len();
    gs.update();
    gs.update();
    assert_eq!(gs.player_level(), level);
    assert_eq!(gs.player_health(), health);
    assert_eq!(gs.player_attack(), attack);
    assert!(*gs.status() == GameStatus::Victory);
    assert_eq!(gs.logs().len(), log_len);
}

#[test]
fn game_over_updates_are_noops() {
    let mut gs = GameState::new(5, 1, 1);
    gs.update();
    assert!(*gs.status() == GameStatus::GameOver);
    let log_len = gs.logs().len();
    gs.update();
    assert!(*gs.status() == GameStatus::GameOver);
    assert_eq!(gs.player_level(), 5);
    assert_eq!(gs.logs().len(), log_len);
}

#[test]
fn level_never_exceeds_max() {
    let mut gs = GameState::new(1, 200, 11);
    for _ in 0..150 {
        gs.update();
        assert!(gs.player_level() <= PLAYER_MAX_LEVEL);
    }
    assert!(*gs.status() == GameStatus::Victory);
    assert_eq!(gs.player_level(), PLAYER_MAX_LEVEL);
}

#[test]
fn fight_is_deterministic() {
    let mut first = GameState::new(1, 35, 3);
    let mut first_enemy = Enemy::new(10, 2);
    let first_won = first.fight(&mut first_enemy);
    let mut second = GameState::new(1, 35, 3);
    let mut second_enemy = Enemy::new(10, 2);
    let second_won = second.fight(&mut second_enemy);
    assert!(first_won);
    assert_eq!(first_won, second_won);
    assert_eq!(first.player_health(), 29);
    assert_eq!(first.player_health(), second.player_health());
    assert_eq!(first_enemy.health, 0);
    assert_eq!(first_enemy.health, second_enemy.health);
}

#[test]
fn log_is_prepended_newest_first() {
    let mut gs = GameState::new(1, 100, 10);
    gs.update();
    gs.update();
    assert_eq!(gs.player_level(), 3);
    assert_eq!(gs.logs().len(), 5);
    assert_eq!(gs.logs()[0].message, "Level up to 3");
    assert_eq!(gs.logs()[1].message, "Won the fight!");
    assert_eq!(gs.logs()[2].message, "Level up to 2");
    assert_eq!(gs.logs()[3].message, "Won the fight!");
    assert_eq!(gs.logs()[4].message, "Game started");
}

#[test]
fn zero_attack_player_is_worn_down_and_loses() {
    let mut gs = GameState::new(1, 100, 0);
    gs.update();
    assert!(*gs.status() == GameStatus::GameOver);
    assert_eq!(gs.player_health(), 0);
    assert_eq!(gs.player_level(), 1);
    assert_eq!(gs.logs()[0].message, "Lost the fight!");
}

#[test]
fn maximal_attack_wins_without_a_scratch() {
    let mut gs = GameState::new(1, 255, 255);
    gs.update();
    assert!(*gs.status() == GameStatus::Playing);
    assert_eq!(gs.player_health(), 255);
    assert_eq!(gs.player_level(), 2);
}

#[test]
fn level_up_clamps_and_logs_the_new_level() {
    let mut gs = GameState::new(1, 100, 10);
    gs.level_up(25);
    assert_eq!(gs.player_level(), 26);
    assert!(gs.logs()[0].log_type == LogType::Status);
    assert_eq!(gs.logs()[0].message, "Level up to 26");
    gs.level_up(200);
    assert_eq!(gs.player_level(), PLAYER_MAX_LEVEL);
    assert_eq!(gs.logs()[0].message, "Level up to 100");
}

#[test]
fn level_up_above_the_cap_clamps_down() {
    let mut gs = GameState::new(250, 100, 10);
    gs.level_up(1);
    assert_eq!(gs.player_level(), PLAYER_MAX_LEVEL);
    assert_eq!(gs.logs()[0].message, "Level up to 100");
}
