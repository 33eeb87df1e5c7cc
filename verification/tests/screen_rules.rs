use bevy_doors::game_state::GameState;
use bevy_doors::jumpscare::{
    cleanup_jumpscare, jumpscare_system, reset_jumpscare_timer, ActiveJumpscare, JumpscareAction,
    JumpscareTimer, FIRST_JUMPSCARE_MS, JUMPSCARE_SHOW_MS,
};
use bevy_doors::game_state::{HallwayProgress, RunStats};
use bevy_doors::player::{lock_cursor, movement_intent, CursorMode, MoveIntent, MoveKeys};
use bevy_doors::transition::{
    start_room_transition, start_wrong_door_flash, tick_room_transition, tick_wrong_door_flash,
    update_fade_overlay, OverlayShade, RoomTransition, TransitionPhase, WrongDoorFlash, FADE_MS,
};
use bevy_doors::ui::{
    create_heart_image_data, door_label, game_over_subtitle, heart_filled, push_decimal, sync_ui,
};

#[test]
fn room_transition_full_cycle() {
    let mut p = HallwayProgress::default();
    let mut s = RunStats::default();
    let mut t = RoomTransition::default();
    assert!(!t.active);
    assert_eq!(t.phase, TransitionPhase::Idle);
    assert!(!tick_room_transition(&mut t, &mut p, &mut s, 100));
    assert_eq!(t, RoomTransition::default());

    start_room_transition(&mut t);
    assert_eq!(t, RoomTransition { active: true, timer_ms: 0, phase: TransitionPhase::FadeOut });
    assert!(!tick_room_transition(&mut t, &mut p, &mut s, 200));
    assert_eq!(t.timer_ms, 200);
    assert_eq!(p, HallwayProgress::default());
    assert_eq!(s.doors_cleared, 0);
    assert!(tick_room_transition(&mut t, &mut p, &mut s, 150));
    assert_eq!(t, RoomTransition { active: true, timer_ms: 0, phase: TransitionPhase::Swap });
    assert_eq!(p, HallwayProgress { door_number: 2, room_seed: 712164981 });
    assert_eq!(s.doors_cleared, 1);
    assert!(!tick_room_transition(&mut t, &mut p, &mut s, 16));
    assert_eq!(t, RoomTransition { active: true, timer_ms: 0, phase: TransitionPhase::FadeIn });
    assert!(!tick_room_transition(&mut t, &mut p, &mut s, 349));
    assert_eq!(t.phase, TransitionPhase::FadeIn);
    assert!(!tick_room_transition(&mut t, &mut p, &mut s, 1));
    assert_eq!(t, RoomTransition::default());
    assert_eq!(p, HallwayProgress { door_number: 2, room_seed: 712164981 });
    assert_eq!(s.doors_cleared, 1);
}

#[test]
fn room_swaps_once_per_transition() {
    let mut p = HallwayProgress { door_number: 7, room_seed: 5 };
    let mut s = RunStats { doors_cleared: 6 };
    let mut t = RoomTransition::default();
    start_room_transition(&mut t);
    let mut swaps = 0;
    for _ in 0..1000 {
        if tick_room_transition(&mut t, &mut p, &mut s, 7) {
            swaps += 1;
        }
        assert_eq!(p.door_number, s.doors_cleared + 1);
    }
    assert_eq!(swaps, 1);
    assert!(!t.active);
    assert_eq!(p.door_number, 8);
    assert_eq!(s.doors_cleared, 7);
    assert_eq!(p.room_seed, 5u32.wrapping_mul(1664525).wrapping_add(1013904223));
}

#[test]
fn room_change_with_long_frames_advances_the_door_once() {
    let mut p = HallwayProgress { door_number: 41, room_seed: 0xC0FFEE };
    let mut s = RunStats { doors_cleared: 40 };
    let mut t = RoomTransition::default();
    start_room_transition(&mut t);
    assert!(tick_room_transition(&mut t, &mut p, &mut s, 400));
    assert!(!tick_room_transition(&mut t, &mut p, &mut s, 400));
    assert!(!tick_room_transition(&mut t, &mut p, &mut s, 400));
    assert_eq!(t, RoomTransition::default());
    assert_eq!(p, HallwayProgress { door_number: 42, room_seed: 712164981 });
    assert_eq!(s.doors_cleared, 41);
}

#[test]
fn wrong_door_flash_runs_down() {
    let mut f = WrongDoorFlash::default();
    assert_eq!(f.remaining_ms, 0);
    start_wrong_door_flash(&mut f);
    assert_eq!(f.remaining_ms, 350);
    tick_wrong_door_flash(&mut f, 100);
    assert_eq!(f.remaining_ms, 250);
    tick_wrong_door_flash(&mut f, 1000);
    assert_eq!(f.remaining_ms, 0);
    tick_wrong_door_flash(&mut f, 10);
    assert_eq!(f.remaining_ms, 0);
}

#[test]
fn overlay_follows_fade_and_flash() {
    let idle = RoomTransition::default();
    let none = WrongDoorFlash::default();
    assert_eq!(update_fade_overlay(&idle, &none), None);

    let mut p = HallwayProgress::default();
    let mut s = RunStats::default();
    let mut t = RoomTransition::default();
    start_room_transition(&mut t);
    assert_eq!(update_fade_overlay(&t, &none), None);
    tick_room_transition(&mut t, &mut p, &mut s, 175);
    assert_eq!(
        update_fade_overlay(&t, &none),
        Some(OverlayShade { alpha_ppm: 500000, flash_tint: false })
    );
    let swap = RoomTransition { active: true, timer_ms: 0, phase: TransitionPhase::Swap };
    assert_eq!(
        update_fade_overlay(&swap, &none),
        Some(OverlayShade { alpha_ppm: 1000000, flash_tint: false })
    );
    let fade_in = RoomTransition { active: true, timer_ms: FADE_MS, phase: TransitionPhase::FadeIn };
    assert_eq!(update_fade_overlay(&fade_in, &none), None);

    let mut f = WrongDoorFlash::default();
    start_wrong_door_flash(&mut f);
    assert_eq!(
        update_fade_overlay(&idle, &f),
        Some(OverlayShade { alpha_ppm: 550000, flash_tint: true })
    );
    assert_eq!(
        update_fade_overlay(&swap, &f),
        Some(OverlayShade { alpha_ppm: 1000000, flash_tint: false })
    );
}

#[test]
fn last_millisecond_of_flash_still_shows() {
    let idle = RoomTransition::default();
    let f = WrongDoorFlash { remaining_ms: 1 };
    // 550000 / 350 millionths, rounded down
    assert_eq!(
        update_fade_overlay(&idle, &f),
        Some(OverlayShade { alpha_ppm: 1571, flash_tint: true })
    );
    let f = WrongDoorFlash { remaining_ms: 175 };
    assert_eq!(
        update_fade_overlay(&idle, &f),
        Some(OverlayShade { alpha_ppm: 275000, flash_tint: true })
    );
    let fade_out = RoomTransition { active: true, timer_ms: 1, phase: TransitionPhase::FadeOut };
    assert_eq!(
        update_fade_overlay(&fade_out, &WrongDoorFlash::default()),
        Some(OverlayShade { alpha_ppm: 2857, flash_tint: false })
    );
}

#[test]
fn jumpscare_comes_after_22_seconds() {
    let mut timer = JumpscareTimer::default();
    let mut active = ActiveJumpscare::default();
    assert_eq!(timer.next_in_ms, FIRST_JUMPSCARE_MS);
    assert_eq!(jumpscare_system(&mut timer, &mut active, false, 21999, 9), JumpscareAction::Wait);
    assert_eq!(timer.elapsed_ms, 21999);
    assert_eq!(timer.next_in_ms, 22000);
    assert_eq!(jumpscare_system(&mut timer, &mut active, false, 1, 4321), JumpscareAction::Show);
    assert_eq!(timer, JumpscareTimer { elapsed_ms: 0, next_in_ms: 22321 });
    assert_eq!(active.remaining_ms, JUMPSCARE_SHOW_MS);
    // on screen for 450 ms
    assert_eq!(jumpscare_system(&mut timer, &mut active, true, 400, 0), JumpscareAction::Wait);
    assert_eq!(active.remaining_ms, 50);
    assert_eq!(jumpscare_system(&mut timer, &mut active, true, 60, 0), JumpscareAction::Hide);
    assert_eq!(active.remaining_ms, 0);
    assert_eq!(timer.next_in_ms, 22321);
    // the next one after the drawn wait
    assert_eq!(jumpscare_system(&mut timer, &mut active, false, 22320, 0), JumpscareAction::Wait);
    assert_eq!(jumpscare_system(&mut timer, &mut active, false, 1, 25000), JumpscareAction::Show);
    assert_eq!(timer.next_in_ms, 19000);
}

#[test]
fn jumpscare_waits_follow_the_draw() {
    let cases: [(u32, u32); 5] =
        [(0, 18000), (11999, 29999), (12000, 18000), (4294967295, 29295), (123456, 21456)];
    for (draw, wait) in cases {
        let mut timer = JumpscareTimer { elapsed_ms: 0, next_in_ms: 18000 };
        let mut active = ActiveJumpscare::default();
        assert_eq!(jumpscare_system(&mut timer, &mut active, false, 18000, draw), JumpscareAction::Show);
        assert_eq!(timer.next_in_ms, wait);
    }
}

#[test]
fn jumpscare_showing_with_no_time_left_waits() {
    let mut timer = JumpscareTimer::default();
    let mut active = ActiveJumpscare::default();
    assert_eq!(jumpscare_system(&mut timer, &mut active, true, 100, 7), JumpscareAction::Wait);
    assert_eq!(timer, JumpscareTimer::default());
}

#[test]
fn jumpscare_reset_and_cleanup() {
    let mut timer = JumpscareTimer { elapsed_ms: 5000, next_in_ms: 28000 };
    let mut active = ActiveJumpscare { remaining_ms: 300 };
    reset_jumpscare_timer(&mut timer, &mut active);
    assert_eq!(timer, JumpscareTimer { elapsed_ms: 0, next_in_ms: 22000 });
    assert_eq!(active.remaining_ms, 0);
    let mut active = ActiveJumpscare { remaining_ms: 300 };
    cleanup_jumpscare(&mut active);
    assert_eq!(active.remaining_ms, 0);
}

#[test]
fn jumpscare_wait_stays_in_range() {
    let mut timer = JumpscareTimer::default();
    let mut active = ActiveJumpscare::default();
    let mut draw: u32 = 12345;
    for _ in 0..10000 {
        let showing = active.remaining_ms > 0;
        draw = draw.wrapping_mul(1103515245).wrapping_add(12345);
        jumpscare_system(&mut timer, &mut active, showing, 37, draw);
        assert!(timer.next_in_ms >= 18000 && timer.next_in_ms < 30000);
    }
}

#[test]
fn cursor_follows_state() {
    assert_eq!(lock_cursor(false, GameState::Playing), Some(CursorMode::Locked));
    assert_eq!(lock_cursor(false, GameState::Lobby), Some(CursorMode::Free));
    assert_eq!(lock_cursor(false, GameState::GameOver), Some(CursorMode::Free));
    assert_eq!(lock_cursor(true, GameState::Playing), None);
}

fn keys() -> MoveKeys {
    MoveKeys { w: false, up: false, s: false, down: false, a: false, left: false, d: false, right: false }
}

#[test]
fn movement_keys() {
    assert_eq!(movement_intent(keys(), false), MoveIntent { forward: 0, strafe: 0 });
    assert_eq!(movement_intent(MoveKeys { w: true, ..keys() }, false), MoveIntent { forward: 1, strafe: 0 });
    assert_eq!(movement_intent(MoveKeys { up: true, w: true, ..keys() }, false), MoveIntent { forward: 1, strafe: 0 });
    assert_eq!(movement_intent(MoveKeys { down: true, ..keys() }, false), MoveIntent { forward: -1, strafe: 0 });
    assert_eq!(movement_intent(MoveKeys { w: true, s: true, ..keys() }, false), MoveIntent { forward: 0, strafe: 0 });
    assert_eq!(movement_intent(MoveKeys { left: true, ..keys() }, false), MoveIntent { forward: 0, strafe: -1 });
    assert_eq!(movement_intent(MoveKeys { d: true, w: true, ..keys() }, false), MoveIntent { forward: 1, strafe: 1 });
    assert_eq!(movement_intent(MoveKeys { d: true, w: true, ..keys() }, true), MoveIntent { forward: 0, strafe: 0 });
}

#[test]
fn decimal_text() {
    let mut s = String::new();
    push_decimal(&mut s, 0);
    assert_eq!(s, "0");
    let mut s = String::from("n=");
    push_decimal(&mut s, u32::MAX);
    assert_eq!(s, "n=4294967295");
    let mut s = String::new();
    push_decimal(&mut s, 1000);
    assert_eq!(s, "1000");
}

#[test]
fn hud_texts() {
    assert_eq!(door_label(1, 0), "Door 1  |  Cleared: 0");
    assert_eq!(door_label(12, 11), "Door 12  |  Cleared: 11");
    assert_eq!(game_over_subtitle(7), "Doors cleared: 7  \u{2014}  Press SPACE for lobby");
}

#[test]
fn ui_per_state() {
    let f = sync_ui(GameState::Playing, 5, 4, 2);
    assert!(f.hud_visible && !f.menu_visible);
    assert_eq!(f.door_label.as_deref(), Some("Door 5  |  Cleared: 4"));
    assert_eq!(f.title, None);
    assert_eq!(f.subtitle, None);
    assert_eq!(f.hearts, vec![true, true, false]);

    let f = sync_ui(GameState::Lobby, 5, 4, 2);
    assert!(!f.hud_visible && f.menu_visible);
    assert_eq!(f.door_label, None);
    assert_eq!(f.title.as_deref(), Some("Bevy Doors"));
    assert_eq!(f.subtitle.as_deref(), Some("Press SPACE to enter the hotel"));
    assert!(f.hearts.is_empty());

    let f = sync_ui(GameState::GameOver, 5, 4, 0);
    assert!(!f.hud_visible && f.menu_visible);
    assert_eq!(f.title.as_deref(), Some("You died"));
    assert_eq!(f.subtitle.as_deref(), Some("Doors cleared: 4  \u{2014}  Press SPACE for lobby"));
}

#[test]
fn hearts_fill_by_lives() {
    assert!(heart_filled(0, 1));
    assert!(!heart_filled(1, 1));
    assert!(!heart_filled(0, 0));
    assert!(heart_filled(2, 3));
}

#[test]
fn heart_image_bytes() {
    let data = create_heart_image_data(&vec![false, true, false]);
    assert_eq!(data, vec![0, 0, 0, 0, 255, 255, 255, 255, 0, 0, 0, 0]);
    assert!(create_heart_image_data(&Vec::new()).is_empty());
}
