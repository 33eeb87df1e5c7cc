use vstd::prelude::*;

use crate::game_state::{advance_room, spec_advance_room, spec_next_room_seed, HallwayProgress, RunStats};

verus! {

/// The steps of the fade between two rooms.
#[derive(Clone, Copy, Debug, PartialEq, Eq, Structural)]
pub enum TransitionPhase {
    Idle,
    FadeOut,
    Swap,
    FadeIn,
}

impl Default for TransitionPhase {
    fn default() -> (phase: Self)
        ensures
            phase == TransitionPhase::Idle,
    {
        TransitionPhase::Idle
    }
}

/// How long the fade to black and the fade back each take, in milliseconds.
pub const FADE_MS: u32 = 350;

/// How long the red flash after a wrong door lasts, in milliseconds.
pub const WRONG_DOOR_FLASH_MS: u32 = 350;

/// A room change in progress; `timer_ms` is the time spent in the phase.
#[derive(Clone, Copy, Debug, PartialEq, Eq, Structural)]
pub struct RoomTransition {
    pub active: bool,
    pub timer_ms: u32,
    pub phase: TransitionPhase,
}

impl Default for RoomTransition {
    fn default() -> (transition: Self)
        ensures
            transition.active == false,
            transition.timer_ms == 0,
            transition.phase == TransitionPhase::Idle,
    {
        RoomTransition { active: false, timer_ms: 0, phase: TransitionPhase::Idle }
    }
}

/// A transition is running exactly when it is out of its idle phase.
pub open spec fn transition_wf(transition: RoomTransition) -> bool {
    transition.active <==> transition.phase != TransitionPhase::Idle
}

/// The time left of the red flash shown after a wrong door.
#[derive(Clone, Copy, Debug, PartialEq, Eq, Structural)]
pub struct WrongDoorFlash {
    pub remaining_ms: u32,
}

impl Default for WrongDoorFlash {
    fn default() -> (flash: Self)
        ensures
            flash.remaining_ms == 0,
    {
        WrongDoorFlash { remaining_ms: 0 }
    }
}

/// Starts fading out of the current room.
pub fn start_room_transition(transition: &mut RoomTransition)
    ensures
        final(transition).active,
        final(transition).timer_ms == 0,
        final(transition).phase == TransitionPhase::FadeOut,
        transition_wf(*final(transition)),
{
    transition.active = true;
    transition.timer_ms = 0;
    transition.phase = TransitionPhase::FadeOut;
}

/// Starts the red flash for a wrong door.
pub fn start_wrong_door_flash(flash: &mut WrongDoorFlash)
    ensures
        final(flash).remaining_ms == WRONG_DOOR_FLASH_MS,
{
    flash.remaining_ms = WRONG_DOOR_FLASH_MS;
}

/// Lets `dt_ms` milliseconds of the flash pass, stopping at zero.
pub fn tick_wrong_door_flash(flash: &mut WrongDoorFlash, dt_ms: u32)
    ensures
        final(flash).remaining_ms == if old(flash).remaining_ms > dt_ms {
            old(flash).remaining_ms - dt_ms
        } else {
            0
        },
{
    if flash.remaining_ms > 0 {
        flash.remaining_ms = flash.remaining_ms.saturating_sub(dt_ms);
    }
}

/// One frame of a room change: the phase timer grows by `dt_ms` (it cannot
/// run past `u32::MAX`, which only a full `FADE_MS` needs to reach); a
/// finished fade-out moves to `Swap` (the moment the room is replaced), the
/// swap moves straight on to the fade-in, and a finished fade-in ends the
/// transition. Each move restarts the timer. Also returns whether the room
/// is to be replaced in this frame.
pub open spec fn spec_tick_room_transition(transition: RoomTransition, dt_ms: u32) -> (RoomTransition, bool) {
    if !transition.active {
        (transition, false)
    } else {
        let timer: u32 = if transition.timer_ms + dt_ms > u32::MAX {
            u32::MAX
        } else {
            (transition.timer_ms + dt_ms) as u32
        };
        match transition.phase {
            TransitionPhase::FadeOut => {
                if timer >= FADE_MS {
                    (RoomTransition { active: true, timer_ms: 0, phase: TransitionPhase::Swap }, true)
                } else {
                    (RoomTransition { timer_ms: timer, ..transition }, false)
                }
            },
            TransitionPhase::Swap => {
                (RoomTransition { active: true, timer_ms: 0, phase: TransitionPhase::FadeIn }, false)
            },
            TransitionPhase::FadeIn => {
                if timer >= FADE_MS {
                    (RoomTransition { active: false, timer_ms: 0, phase: TransitionPhase::Idle }, false)
                } else {
                    (RoomTransition { timer_ms: timer, ..transition }, false)
                }
            },
            TransitionPhase::Idle => (RoomTransition { timer_ms: timer, ..transition }, false),
        }
    }
}

/// Whether a frame of `dt_ms` milliseconds replaces the room: it completes
/// the fade-out of a running change.
pub open spec fn swaps_room(transition: RoomTransition, dt_ms: u32) -> bool {
    transition.active && transition.phase == TransitionPhase::FadeOut && transition.timer_ms + dt_ms >= FADE_MS
}

/// Whether the next frame, of `dt_ms` milliseconds, replaces the room.
pub fn room_swaps_this_frame(transition: &RoomTransition, dt_ms: u32) -> (swap: bool)
    ensures
        swap == swaps_room(*transition, dt_ms),
{
    transition.active && transition.phase == TransitionPhase::FadeOut
        && transition.timer_ms.saturating_add(dt_ms) >= FADE_MS
}

/// One frame of a room change with the run's counters: the transition
/// moves on as `spec_tick_room_transition` says, and in the frame that
/// replaces the room the player has passed a door, so the counters move on
/// as `spec_advance_room` says; in every other frame they stay.
pub open spec fn spec_room_frame(
    transition: RoomTransition,
    progress: HallwayProgress,
    stats: RunStats,
    dt_ms: u32,
) -> (RoomTransition, HallwayProgress, RunStats, bool) {
    let (next, swap) = spec_tick_room_transition(transition, dt_ms);
    if swap {
        let (p, s) = spec_advance_room(progress, stats);
        (next, p, s, true)
    } else {
        (next, progress, stats, false)
    }
}

/// Advances a room change by `dt_ms` milliseconds. In the one frame in which
/// the old room is replaced by the next (the result is then `true`), one more
/// door is cleared, the door number moves on and the room gets a fresh seed;
/// in every other frame the counters stay as they are.
pub fn tick_room_transition(
    transition: &mut RoomTransition,
    progress: &mut HallwayProgress,
    stats: &mut RunStats,
    dt_ms: u32,
) -> (swap: bool)
    requires
        swaps_room(*old(transition), dt_ms) ==> old(progress).door_number < u32::MAX && old(
            stats,
        ).doors_cleared < u32::MAX,
    ensures
        (*final(transition), *final(progress), *final(stats), swap) == spec_room_frame(
            *old(transition),
            *old(progress),
            *old(stats),
            dt_ms,
        ),
        swap == swaps_room(*old(transition), dt_ms),
        swap ==> final(transition).phase == TransitionPhase::Swap,
        swap ==> final(progress).door_number == old(progress).door_number + 1 && final(stats).doors_cleared
            == old(stats).doors_cleared + 1 && final(progress).room_seed == spec_next_room_seed(
            old(progress).room_seed,
        ),
        !swap ==> *final(progress) == *old(progress) && *final(stats) == *old(stats),
        old(progress).door_number == old(stats).doors_cleared + 1 ==> final(progress).door_number
            == final(stats).doors_cleared + 1,
        transition_wf(*old(transition)) ==> transition_wf(*final(transition)),
{
    if !transition.active {
        return false;
    }
    transition.timer_ms = transition.timer_ms.saturating_add(dt_ms);
    match transition.phase {
        TransitionPhase::FadeOut => {
            if transition.timer_ms >= FADE_MS {
                transition.phase = TransitionPhase::Swap;
                transition.timer_ms = 0;
                advance_room(progress, stats);
                true
            } else {
                false
            }
        },
        TransitionPhase::Swap => {
            transition.phase = TransitionPhase::FadeIn;
            transition.timer_ms = 0;
            false
        },
        TransitionPhase::FadeIn => {
            if transition.timer_ms >= FADE_MS {
                transition.active = false;
                transition.phase = TransitionPhase::Idle;
                transition.timer_ms = 0;
            }
            false
        },
        TransitionPhase::Idle => false,
    }
}

/// Plays a room change over a sequence of frame times: the transition and
/// the counters at the end, and how many times the room was replaced.
pub open spec fn run_transition(
    transition: RoomTransition,
    progress: HallwayProgress,
    stats: RunStats,
    frames: Seq<u32>,
) -> (RoomTransition, HallwayProgress, RunStats, nat)
    decreases frames.len(),
{
    if frames.len() == 0 {
        (transition, progress, stats, 0)
    } else {
        let (t, p, s, swap) = spec_room_frame(transition, progress, stats, frames[0]);
        let (end, p_end, s_end, swaps) = run_transition(t, p, s, frames.drop_first());
        (end, p_end, s_end, if swap { swaps + 1 } else { swaps })
    }
}

/// A room change replaces the room at most once: however the frames fall, a
/// transition in its fade-out swaps rooms once or not at all, and one past
/// the swap (or idle) never swaps again.
pub proof fn lemma_room_swapped_at_most_once(
    transition: RoomTransition,
    progress: HallwayProgress,
    stats: RunStats,
    frames: Seq<u32>,
)
    requires
        transition_wf(transition),
    ensures
        run_transition(transition, progress, stats, frames).3 <= 1,
        transition.phase != TransitionPhase::FadeOut ==> run_transition(transition, progress, stats, frames).3 == 0,
        transition_wf(run_transition(transition, progress, stats, frames).0),
    decreases frames.len(),
{
    if frames.len() > 0 {
        let (t, p, s, _) = spec_room_frame(transition, progress, stats, frames[0]);
        lemma_room_swapped_at_most_once(t, p, s, frames.drop_first());
    }
}

/// The counters move exactly with the room swaps: over any frames of a room
/// change, the door number and the doors cleared each grow by the number of
/// swaps, the room seed takes one generator step per swap, and a door number
/// one ahead of the doors cleared stays one ahead.
pub proof fn lemma_counters_follow_swaps(
    transition: RoomTransition,
    progress: HallwayProgress,
    stats: RunStats,
    frames: Seq<u32>,
)
    requires
        transition_wf(transition),
        progress.door_number < u32::MAX,
        stats.doors_cleared < u32::MAX,
    ensures
        ({
            let (end, p, s, swaps) = run_transition(transition, progress, stats, frames);
            &&& p.door_number == progress.door_number + swaps
            &&& s.doors_cleared == stats.doors_cleared + swaps
            &&& p.room_seed == if swaps == 0 { progress.room_seed } else { spec_next_room_seed(progress.room_seed) }
            &&& progress.door_number == stats.doors_cleared + 1 ==> p.door_number == s.doors_cleared + 1
        }),
    decreases frames.len(),
{
    lemma_room_swapped_at_most_once(transition, progress, stats, frames);
    if frames.len() > 0 {
        let (t, p, s, swap) = spec_room_frame(transition, progress, stats, frames[0]);
        lemma_room_swapped_at_most_once(t, p, s, frames.drop_first());
        if swap {
            assert(t.phase == TransitionPhase::Swap);
            lemma_no_swap_keeps_counters(t, p, s, frames.drop_first());
        } else {
            lemma_counters_follow_swaps(t, p, s, frames.drop_first());
        }
    }
}

/// Frames that swap no room leave the counters as they were.
proof fn lemma_no_swap_keeps_counters(
    transition: RoomTransition,
    progress: HallwayProgress,
    stats: RunStats,
    frames: Seq<u32>,
)
    requires
        run_transition(transition, progress, stats, frames).3 == 0,
    ensures
        run_transition(transition, progress, stats, frames).1 == progress,
        run_transition(transition, progress, stats, frames).2 == stats,
    decreases frames.len(),
{
    if frames.len() > 0 {
        let (t, p, s, _) = spec_room_frame(transition, progress, stats, frames[0]);
        lemma_no_swap_keeps_counters(t, p, s, frames.drop_first());
    }
}

/// A room change, once started, runs its course: a frame that completes the
/// fade-out swaps the room, the next frame starts the fade-in, and a frame
/// that completes the fade-in ends the change, with the room replaced
/// exactly once and the counters advanced exactly once.
pub proof fn lemma_room_change_completes(
    fade_out_ms: u32,
    swap_frame_ms: u32,
    fade_in_ms: u32,
    progress: HallwayProgress,
    stats: RunStats,
)
    requires
        fade_out_ms >= FADE_MS,
        fade_in_ms >= FADE_MS,
    ensures
        ({
            let started = RoomTransition { active: true, timer_ms: 0, phase: TransitionPhase::FadeOut };
            let (end, p, s, swaps) = run_transition(
                started,
                progress,
                stats,
                seq![fade_out_ms, swap_frame_ms, fade_in_ms],
            );
            &&& swaps == 1
            &&& end == RoomTransition { active: false, timer_ms: 0, phase: TransitionPhase::Idle }
            &&& (p, s) == spec_advance_room(progress, stats)
            &&& progress.door_number < u32::MAX ==> p.door_number == progress.door_number + 1
        }),
{
    let frames = seq![fade_out_ms, swap_frame_ms, fade_in_ms];
    assert(frames.drop_first() =~= seq![swap_frame_ms, fade_in_ms]);
    assert(frames.drop_first().drop_first() =~= seq![fade_in_ms]);
    assert(frames.drop_first().drop_first().drop_first() =~= Seq::<u32>::empty());
    reveal_with_fuel(run_transition, 4);
}

/// Full opacity of the overlay, in millionths.
pub const OPAQUE_PPM: u32 = 1000000;

/// The strongest opacity of the wrong-door flash, in millionths (55%).
pub const FLASH_PEAK_PPM: u32 = 550000;

/// The opacity up to which no overlay is drawn, in millionths (0.1%).
pub const OVERLAY_CUTOFF_PPM: u32 = 1000;

/// The look of the full-screen overlay: opacity in millionths, and whether
/// it shows the red wrong-door tint rather than the black fade.
#[derive(Clone, Copy, Debug, PartialEq, Eq, Structural)]
pub struct OverlayShade {
    pub alpha_ppm: u32,
    pub flash_tint: bool,
}

/// `part` of `whole` in millionths (rounded down), at most one whole.
pub open spec fn fraction_ppm(part: u32, whole: u32) -> int {
    let p: int = (part as int) * (OPAQUE_PPM as int) / (whole as int);
    if p > OPAQUE_PPM { OPAQUE_PPM as int } else { p }
}

/// Opacity of the fade: rising over the fade-out, full at the swap, falling
/// over the fade-in, none otherwise.
pub open spec fn fade_ppm(transition: RoomTransition) -> int {
    if !transition.active {
        0
    } else {
        match transition.phase {
            TransitionPhase::FadeOut => fraction_ppm(transition.timer_ms, FADE_MS),
            TransitionPhase::Swap => OPAQUE_PPM as int,
            TransitionPhase::FadeIn => OPAQUE_PPM - fraction_ppm(transition.timer_ms, FADE_MS),
            TransitionPhase::Idle => 0,
        }
    }
}

/// Opacity of the wrong-door flash: `FLASH_PEAK_PPM` times the share of the
/// flash time still left (rounded down once).
pub open spec fn flash_ppm(flash: WrongDoorFlash) -> int {
    let left: int = if flash.remaining_ms > WRONG_DOOR_FLASH_MS {
        WRONG_DOOR_FLASH_MS as int
    } else {
        flash.remaining_ms as int
    };
    left * (FLASH_PEAK_PPM as int) / (WRONG_DOOR_FLASH_MS as int)
}

/// The fade runs linearly over `FADE_MS` = 350 ms: the fade-out rises from
/// clear to full black, the swap is full black, and the fade-in is the
/// fade-out mirrored, starting from the swap's full black and falling to
/// clear; until the fade-in is over it stays above the cut-off.
pub proof fn lemma_fade_shape(t: u32)
    ensures
        ({
            let out = RoomTransition { active: true, timer_ms: t, phase: TransitionPhase::FadeOut };
            let back = RoomTransition { active: true, timer_ms: t, phase: TransitionPhase::FadeIn };
            let swap = RoomTransition { active: true, timer_ms: t, phase: TransitionPhase::Swap };
            &&& fade_ppm(out) == if t >= 350 { 1000000 } else { t * 1000000 / 350 }
            &&& fade_ppm(out) + fade_ppm(back) == 1000000
            &&& fade_ppm(swap) == 1000000
            &&& t == 0 ==> fade_ppm(back) == 1000000
            &&& t < 350 ==> fade_ppm(back) > 2857
            &&& t >= 350 ==> fade_ppm(back) == 0
            &&& 0 < t ==> fade_ppm(out) >= 2857
        }),
{
    if t < 350 {
        assert(t * 1000000 / 350 <= 997142) by (nonlinear_arith)
            requires
                t < 350,
        ;
    } else {
        assert(t * 1000000 / 350 >= 1000000) by (nonlinear_arith)
            requires
                t >= 350,
        ;
    }
    if t > 0 {
        assert(t * 1000000 / 350 >= 2857) by (nonlinear_arith)
            requires
                t > 0,
        ;
    }
}

/// The fade moves one way only: over the fade-out it never falls, over the
/// fade-in it never rises.
pub proof fn lemma_fade_monotone(t1: u32, t2: u32)
    requires
        t1 <= t2,
    ensures
        fade_ppm(RoomTransition { active: true, timer_ms: t1, phase: TransitionPhase::FadeOut }) <= fade_ppm(
            RoomTransition { active: true, timer_ms: t2, phase: TransitionPhase::FadeOut },
        ),
        fade_ppm(RoomTransition { active: true, timer_ms: t1, phase: TransitionPhase::FadeIn }) >= fade_ppm(
            RoomTransition { active: true, timer_ms: t2, phase: TransitionPhase::FadeIn },
        ),
{
    assert(t1 * 1000000 / 350 <= t2 * 1000000 / 350) by (nonlinear_arith)
        requires
            t1 <= t2,
    ;
}

/// The flash is 55% opaque when it starts and fades linearly with the time
/// left; any time left keeps it above the cut-off.
pub proof fn lemma_flash_shape(left: u32)
    ensures
        flash_ppm(WrongDoorFlash { remaining_ms: left }) == if left >= 350 {
            550000
        } else {
            left * 550000 / 350
        },
        left == 0 ==> flash_ppm(WrongDoorFlash { remaining_ms: left }) == 0,
        left > 0 ==> flash_ppm(WrongDoorFlash { remaining_ms: left }) >= 1571,
        flash_ppm(WrongDoorFlash { remaining_ms: left }) <= 550000,
{
    if left > 0 && left < 350 {
        assert(left * 550000 / 350 >= 1571 && left * 550000 / 350 <= 550000) by (nonlinear_arith)
            requires
                0 < left < 350,
        ;
    }
}

fn ppm_of(part: u32, whole: u32) -> (p: u32)
    requires
        whole > 0,
    ensures
        p == fraction_ppm(part, whole),
{
    let p: u64 = (part as u64) * (OPAQUE_PPM as u64) / (whole as u64);
    if p > OPAQUE_PPM as u64 {
        OPAQUE_PPM
    } else {
        p as u32
    }
}

/// The overlay for this frame: the stronger of the fade and the flash,
/// tinted red when the flash is the stronger; `None` (no overlay) when it
/// would be at most `OVERLAY_CUTOFF_PPM` opaque.
pub fn update_fade_overlay(transition: &RoomTransition, flash: &WrongDoorFlash) -> (shade: Option<OverlayShade>)
    ensures
        ({
            let fade: int = fade_ppm(*transition);
            let fl: int = flash_ppm(*flash);
            let alpha: int = if fade > fl { fade } else { fl };
            &&& shade.is_none() <==> alpha <= OVERLAY_CUTOFF_PPM
            &&& shade matches Some(s) ==> s.alpha_ppm == alpha && s.flash_tint == (fl > fade)
        }),
        shade matches Some(s) ==> s.alpha_ppm <= OPAQUE_PPM,
        transition.active && transition.phase == TransitionPhase::FadeIn && transition.timer_ms < 350
            && flash.remaining_ms == 0 ==> shade.is_some() && shade.unwrap().alpha_ppm == 1000000
            - transition.timer_ms * 1000000 / 350 && !shade.unwrap().flash_tint,
        transition.active && transition.phase == TransitionPhase::FadeOut && 0 < transition.timer_ms
            < 350 && flash.remaining_ms == 0 ==> shade.is_some() && shade.unwrap().alpha_ppm
            == transition.timer_ms * 1000000 / 350 && !shade.unwrap().flash_tint,
        transition.active && transition.phase == TransitionPhase::Swap ==> shade.is_some()
            && shade.unwrap().alpha_ppm == 1000000 && !shade.unwrap().flash_tint,
        !transition.active && 0 < flash.remaining_ms <= 350 ==> shade.is_some() && shade.unwrap().alpha_ppm
            == flash.remaining_ms * 550000 / 350 && shade.unwrap().flash_tint,
        !transition.active && flash.remaining_ms == 0 ==> shade.is_none(),
{
    proof {
        lemma_fade_shape(transition.timer_ms);
        lemma_flash_shape(flash.remaining_ms);
    }
    let fade: u32 = if transition.active {
        match transition.phase {
            TransitionPhase::FadeOut => ppm_of(transition.timer_ms, FADE_MS),
            TransitionPhase::Swap => OPAQUE_PPM,
            TransitionPhase::FadeIn => OPAQUE_PPM - ppm_of(transition.timer_ms, FADE_MS),
            TransitionPhase::Idle => 0,
        }
    } else {
        0
    };
    let left: u64 = if flash.remaining_ms > WRONG_DOOR_FLASH_MS {
        WRONG_DOOR_FLASH_MS as u64
    } else {
        flash.remaining_ms as u64
    };
    assert((left as int) * 550000 / 350 <= 550000) by (nonlinear_arith)
        requires
            left <= 350,
    ;
    let fl: u32 = (left * (FLASH_PEAK_PPM as u64) / (WRONG_DOOR_FLASH_MS as u64)) as u32;
    let alpha: u32 = if fade > fl { fade } else { fl };
    if alpha <= OVERLAY_CUTOFF_PPM {
        None
    } else {
        Some(OverlayShade { alpha_ppm: alpha, flash_tint: fl > fade })
    }
}

} // verus!
