use bevy_doors::enemy::{maybe_spawn_enemy_after_door, EnemySpawn, MAX_ENEMIES};
use bevy_doors::game_state::{
    advance_room, game_over_input, lobby_start_input, state_after_contact, ContactOutcome,
    GameState, HallwayProgress, PlayerHealth, RunStats, HIT_COOLDOWN_MS, INITIAL_ROOM_SEED,
    MAX_LIVES,
};

#[test]
fn defaults() {
    assert_eq!(GameState::default(), GameState::Lobby);
    assert_eq!(RunStats::default().doors_cleared, 0);
    let h = PlayerHealth::default();
    assert_eq!(h.lives, MAX_LIVES);
    assert_eq!(h.lives, 3);
    assert_eq!(h.hit_cooldown_ms, 0);
    let p = HallwayProgress::default();
    assert_eq!(p.door_number, 1);
    assert_eq!(p.room_seed, 0xC0FFEE);
    assert_eq!(INITIAL_ROOM_SEED, 0xC0FFEE);
}

#[test]
fn reset_restores_full_health() {
    let mut h = PlayerHealth { lives: 1, hit_cooldown_ms: 700 };
    h.reset();
    assert_eq!(h, PlayerHealth { lives: 3, hit_cooldown_ms: 0 });
}

#[test]
fn first_touch_ends_the_run() {
    let mut h = PlayerHealth::default();
    let outcome = h.enemy_contact(16, true);
    assert_eq!(outcome, ContactOutcome::Killed);
    assert_eq!(h, PlayerHealth { lives: 2, hit_cooldown_ms: HIT_COOLDOWN_MS });
    assert_eq!(state_after_contact(outcome), Some(GameState::GameOver));
}

#[test]
fn no_contact_only_runs_the_cooldown_down() {
    let mut h = PlayerHealth { lives: 2, hit_cooldown_ms: 100 };
    assert_eq!(h.enemy_contact(30, false), ContactOutcome::Unharmed);
    assert_eq!(h, PlayerHealth { lives: 2, hit_cooldown_ms: 70 });
    assert_eq!(h.enemy_contact(500, false), ContactOutcome::Unharmed);
    assert_eq!(h, PlayerHealth { lives: 2, hit_cooldown_ms: 0 });
    assert_eq!(state_after_contact(ContactOutcome::Unharmed), None);
}

#[test]
fn touch_within_the_cooldown_also_ends_the_run() {
    let mut h = PlayerHealth { lives: 3, hit_cooldown_ms: 1250 };
    assert_eq!(h.enemy_contact(1, false), ContactOutcome::Unharmed);
    assert_eq!(h, PlayerHealth { lives: 3, hit_cooldown_ms: 1249 });
    let outcome = h.enemy_contact(1, true);
    assert_eq!(outcome, ContactOutcome::Killed);
    assert_eq!(h, PlayerHealth { lives: 2, hit_cooldown_ms: HIT_COOLDOWN_MS });
    assert_eq!(state_after_contact(outcome), Some(GameState::GameOver));
}

#[test]
fn touch_ends_the_run_with_any_lives_left() {
    for lives in 0..=MAX_LIVES {
        for cooldown in [0, 4, 5, 6, HIT_COOLDOWN_MS] {
            let mut h = PlayerHealth { lives, hit_cooldown_ms: cooldown };
            let outcome = h.enemy_contact(5, true);
            assert_eq!(outcome, ContactOutcome::Killed);
            assert_eq!(state_after_contact(outcome), Some(GameState::GameOver));
        }
        let mut h = PlayerHealth { lives, hit_cooldown_ms: 0 };
        let outcome = h.enemy_contact(5, true);
        assert_eq!(outcome, ContactOutcome::Killed);
        assert_eq!(h.lives, lives.saturating_sub(1));
        assert_eq!(state_after_contact(outcome), Some(GameState::GameOver));
    }
}

#[test]
fn passing_a_door_counts_and_reseeds() {
    let mut p = HallwayProgress::default();
    let mut s = RunStats::default();
    advance_room(&mut p, &mut s);
    assert_eq!(p.door_number, 2);
    assert_eq!(s.doors_cleared, 1);
    assert_eq!(p.room_seed, 712164981);
    advance_room(&mut p, &mut s);
    assert_eq!(p.room_seed, 2160239952);
    advance_room(&mut p, &mut s);
    assert_eq!(p.room_seed, 2029992047);
    assert_eq!(p.door_number, s.doors_cleared + 1);
}

#[test]
fn space_in_lobby_starts_a_run() {
    let mut p = HallwayProgress { door_number: 9, room_seed: 42 };
    let mut s = RunStats { doors_cleared: 8 };
    assert_eq!(lobby_start_input(false, &mut p, &mut s), None);
    assert_eq!(p, HallwayProgress { door_number: 9, room_seed: 42 });
    assert_eq!(s.doors_cleared, 8);
    assert_eq!(lobby_start_input(true, &mut p, &mut s), Some(GameState::Playing));
    assert_eq!(p, HallwayProgress { door_number: 1, room_seed: 42 });
    assert_eq!(s.doors_cleared, 0);
}

#[test]
fn space_after_death_returns_to_lobby() {
    assert_eq!(game_over_input(true), Some(GameState::Lobby));
    assert_eq!(game_over_input(false), None);
}

#[test]
fn counters_stay_in_step_over_a_run() {
    let mut p = HallwayProgress::default();
    let mut s = RunStats::default();
    lobby_start_input(true, &mut p, &mut s);
    for _ in 0..50 {
        advance_room(&mut p, &mut s);
        assert_eq!(p.door_number, s.doors_cleared + 1);
    }
    assert_eq!(p.door_number, 51);
}

#[test]
fn enemies_join_on_even_doors_from_four() {
    assert_eq!(maybe_spawn_enemy_after_door(1, 0), None);
    assert_eq!(maybe_spawn_enemy_after_door(2, 0), None);
    assert_eq!(maybe_spawn_enemy_after_door(3, 0), None);
    assert_eq!(maybe_spawn_enemy_after_door(5, 0), None);
    assert_eq!(maybe_spawn_enemy_after_door(4, 0), Some(EnemySpawn { x_dm: -7, z_dm: 64 }));
    assert_eq!(maybe_spawn_enemy_after_door(6, 1), Some(EnemySpawn { x_dm: -23, z_dm: 126 }));
    assert_eq!(maybe_spawn_enemy_after_door(10, 0), Some(EnemySpawn { x_dm: -5, z_dm: 130 }));
}

#[test]
fn enemies_are_capped() {
    assert_eq!(MAX_ENEMIES, 2);
    assert_eq!(maybe_spawn_enemy_after_door(4, 2), None);
    assert_eq!(maybe_spawn_enemy_after_door(4, 7), None);
}

#[test]
fn enemy_spawn_wraps_large_door_numbers() {
    assert_eq!(
        maybe_spawn_enemy_after_door(4294967294, 0),
        Some(EnemySpawn { x_dm: -13, z_dm: 134 })
    );
}

#[test]
fn enemy_spawns_stay_inside_the_hallway() {
    for door in 0u32..2000 {
        if let Some(s) = maybe_spawn_enemy_after_door(door, 0) {
            assert!(s.x_dm >= -25 && s.x_dm <= 24);
            assert!(s.z_dm >= 60 && s.z_dm <= 180);
            assert!(door % 2 == 0 && door >= 4);
        }
    }
}
