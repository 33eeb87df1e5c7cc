use vstd::prelude::*;

verus! {

/// Time to the first jumpscare of a run, in milliseconds.
pub const FIRST_JUMPSCARE_MS: u32 = 22000;

/// How long a jumpscare stays on screen, in milliseconds.
pub const JUMPSCARE_SHOW_MS: u32 = 450;

/// Time since the last jumpscare and time at which the next one comes.
#[derive(Clone, Copy, Debug, PartialEq, Eq, Structural)]
pub struct JumpscareTimer {
    pub elapsed_ms: u32,
    pub next_in_ms: u32,
}

impl Default for JumpscareTimer {
    fn default() -> (timer: Self)
        ensures
            timer.elapsed_ms == 0,
            timer.next_in_ms == FIRST_JUMPSCARE_MS,
            wait_in_range(timer.next_in_ms),
    {
        JumpscareTimer { elapsed_ms: 0, next_in_ms: FIRST_JUMPSCARE_MS }
    }
}

/// Time the jumpscare on screen has left (zero once it is over).
#[derive(Clone, Copy, Debug, PartialEq, Eq, Structural)]
pub struct ActiveJumpscare {
    pub remaining_ms: u32,
}

impl Default for ActiveJumpscare {
    fn default() -> (active: Self)
        ensures
            active.remaining_ms == 0,
    {
        ActiveJumpscare { remaining_ms: 0 }
    }
}

/// What the screen does with the jumpscare in this frame.
#[derive(Clone, Copy, Debug, PartialEq, Eq, Structural)]
pub enum JumpscareAction {
    /// Nothing to show or take down.
    Wait,
    /// Put the jumpscare on screen.
    Show,
    /// Take the jumpscare off the screen.
    Hide,
}

/// The shortest wait between two jumpscares, in milliseconds.
pub const MIN_JUMPSCARE_WAIT_MS: u32 = 18000;

/// The span over which the wait between two jumpscares is drawn: waits
/// run from `MIN_JUMPSCARE_WAIT_MS` up to, not including, this much more.
pub const JUMPSCARE_WAIT_SPAN_MS: u32 = 12000;

/// The wait before the next jumpscare for a random draw `draw`:
/// `MIN_JUMPSCARE_WAIT_MS` plus the draw modulo `JUMPSCARE_WAIT_SPAN_MS`.
pub open spec fn spec_next_wait(draw: u32) -> u32 {
    (MIN_JUMPSCARE_WAIT_MS + draw % JUMPSCARE_WAIT_SPAN_MS) as u32
}

/// A wait the jumpscare clock can be set to: between 18 s and 30 s.
pub open spec fn wait_in_range(next_in_ms: u32) -> bool {
    MIN_JUMPSCARE_WAIT_MS <= next_in_ms < MIN_JUMPSCARE_WAIT_MS + JUMPSCARE_WAIT_SPAN_MS
}

/// One frame of the jumpscare clock. While one is on screen (`showing`), its
/// time runs down by `dt_ms` and it is taken down when the time is up. Else
/// the clock advances by `dt_ms` (stopping at `u32::MAX`); once it reaches
/// the next jumpscare's time it restarts, the wait after is drawn from
/// `draw`, and a new jumpscare is shown for `JUMPSCARE_SHOW_MS`.
pub open spec fn spec_jumpscare_step(
    timer: JumpscareTimer,
    active: ActiveJumpscare,
    showing: bool,
    dt_ms: u32,
    draw: u32,
) -> (JumpscareTimer, ActiveJumpscare, JumpscareAction) {
    if showing {
        if active.remaining_ms == 0 {
            (timer, active, JumpscareAction::Wait)
        } else if active.remaining_ms > dt_ms {
            (timer, ActiveJumpscare { remaining_ms: (active.remaining_ms - dt_ms) as u32 }, JumpscareAction::Wait)
        } else {
            (timer, ActiveJumpscare { remaining_ms: 0 }, JumpscareAction::Hide)
        }
    } else {
        let elapsed: u32 = if timer.elapsed_ms + dt_ms > u32::MAX {
            u32::MAX
        } else {
            (timer.elapsed_ms + dt_ms) as u32
        };
        if elapsed < timer.next_in_ms {
            (JumpscareTimer { elapsed_ms: elapsed, next_in_ms: timer.next_in_ms }, active, JumpscareAction::Wait)
        } else {
            (
                JumpscareTimer { elapsed_ms: 0, next_in_ms: spec_next_wait(draw) },
                ActiveJumpscare { remaining_ms: JUMPSCARE_SHOW_MS },
                JumpscareAction::Show,
            )
        }
    }
}

/// The jumpscare clock for one frame of `dt_ms` milliseconds; `showing`
/// tells whether a jumpscare is on screen, and `draw` is a random number
/// from which the wait before the next jumpscare is taken, should one start
/// in this frame.
pub fn jumpscare_system(
    timer: &mut JumpscareTimer,
    active: &mut ActiveJumpscare,
    showing: bool,
    dt_ms: u32,
    draw: u32,
) -> (action: JumpscareAction)
    ensures
        (*final(timer), *final(active), action) == spec_jumpscare_step(*old(timer), *old(active), showing, dt_ms, draw),
        action == JumpscareAction::Show ==> final(timer).elapsed_ms == 0 && final(timer).next_in_ms
            == spec_next_wait(draw) && wait_in_range(final(timer).next_in_ms),
        action != JumpscareAction::Show ==> final(timer).next_in_ms == old(timer).next_in_ms,
{
    if showing {
        if active.remaining_ms == 0 {
            return JumpscareAction::Wait;
        }
        active.remaining_ms = active.remaining_ms.saturating_sub(dt_ms);
        if active.remaining_ms > 0 {
            return JumpscareAction::Wait;
        }
        return JumpscareAction::Hide;
    }
    timer.elapsed_ms = timer.elapsed_ms.saturating_add(dt_ms);
    if timer.elapsed_ms < timer.next_in_ms {
        return JumpscareAction::Wait;
    }
    timer.elapsed_ms = 0;
    timer.next_in_ms = MIN_JUMPSCARE_WAIT_MS + draw % JUMPSCARE_WAIT_SPAN_MS;
    active.remaining_ms = JUMPSCARE_SHOW_MS;
    JumpscareAction::Show
}

/// Back to the start-of-run clock with nothing on screen.
pub fn reset_jumpscare_timer(timer: &mut JumpscareTimer, active: &mut ActiveJumpscare)
    ensures
        final(timer).elapsed_ms == 0,
        final(timer).next_in_ms == FIRST_JUMPSCARE_MS,
        wait_in_range(final(timer).next_in_ms),
        final(active).remaining_ms == 0,
{
    *timer = JumpscareTimer::default();
    *active = ActiveJumpscare::default();
}

/// Leaving a run takes any jumpscare off screen.
pub fn cleanup_jumpscare(active: &mut ActiveJumpscare)
    ensures
        final(active).remaining_ms == 0,
{
    active.remaining_ms = 0;
}

/// Plays the jumpscare clock over frames, each `(showing, dt_ms, draw)`:
/// the clock at the end.
pub open spec fn run_jumpscares(timer: JumpscareTimer, active: ActiveJumpscare, frames: Seq<(bool, u32, u32)>) -> JumpscareTimer
    decreases frames.len(),
{
    if frames.len() == 0 {
        timer
    } else {
        let (t, a, _) = spec_jumpscare_step(timer, active, frames[0].0, frames[0].1, frames[0].2);
        run_jumpscares(t, a, frames.drop_first())
    }
}

/// The wait between jumpscares stays between 18 s and 30 s: from a clock
/// whose wait is in that range (as the first one of a run is), whatever the
/// frames and whatever numbers are drawn, the wait stays in it.
pub proof fn lemma_jumpscare_wait_in_range(
    timer: JumpscareTimer,
    active: ActiveJumpscare,
    frames: Seq<(bool, u32, u32)>,
)
    requires
        wait_in_range(timer.next_in_ms),
    ensures
        wait_in_range(run_jumpscares(timer, active, frames).next_in_ms),
    decreases frames.len(),
{
    if frames.len() > 0 {
        let (t, a, _) = spec_jumpscare_step(timer, active, frames[0].0, frames[0].1, frames[0].2);
        lemma_jumpscare_wait_in_range(t, a, frames.drop_first());
    }
}

/// Every wait in the range can come: for each wait between 18 s and 30 s
/// some draw gives exactly that wait.
pub proof fn lemma_every_wait_can_be_drawn(wait_ms: u32)
    requires
        wait_in_range(wait_ms),
    ensures
        spec_next_wait((wait_ms - MIN_JUMPSCARE_WAIT_MS) as u32) == wait_ms,
{
}

} // verus!
