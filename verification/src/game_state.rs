use vstd::prelude::*;

verus! {

/// The three screens of the game.
#[derive(Clone, Copy, Debug, PartialEq, Eq, Hash, Structural)]
pub enum GameState {
    Lobby,
    Playing,
    GameOver,
}

impl Default for GameState {
    fn default() -> (state: Self)
        ensures
            state == GameState::Lobby,
    {
        GameState::Lobby
    }
}

/// Counters of the current run.
#[derive(Clone, Copy, Debug, PartialEq, Eq, Structural)]
pub struct RunStats {
    pub doors_cleared: u32,
}

impl Default for RunStats {
    fn default() -> (stats: Self)
        ensures
            stats.doors_cleared == 0,
    {
        RunStats { doors_cleared: 0 }
    }
}

/// Lives the player starts a run with.
pub const MAX_LIVES: u32 = 3;

/// The hit cooldown set by a hit, in milliseconds; it runs down in frames
/// without contact.
pub const HIT_COOLDOWN_MS: u32 = 1250;

/// The player's lives and the hit cooldown left.
#[derive(Clone, Copy, Debug, PartialEq, Eq, Structural)]
pub struct PlayerHealth {
    pub lives: u32,
    pub hit_cooldown_ms: u32,
}

impl Default for PlayerHealth {
    fn default() -> (health: Self)
        ensures
            health.lives == MAX_LIVES,
            health.hit_cooldown_ms == 0,
    {
        PlayerHealth { lives: MAX_LIVES, hit_cooldown_ms: 0 }
    }
}

/// What an enemy contact did to the player in one frame.
#[derive(Clone, Copy, Debug, PartialEq, Eq, Structural)]
pub enum ContactOutcome {
    /// No enemy touched the player.
    Unharmed,
    /// An enemy caught the player: the run is over.
    Killed,
}

/// One frame of the health rules: a contact with an enemy ends the run,
/// takes a life and restarts the hit cooldown; without one the cooldown
/// runs down by `dt_ms`.
pub open spec fn spec_enemy_contact(health: PlayerHealth, dt_ms: u32, touched: bool) -> (PlayerHealth, ContactOutcome) {
    let cooldown: u32 = if health.hit_cooldown_ms > dt_ms { (health.hit_cooldown_ms - dt_ms) as u32 } else { 0u32 };
    if touched {
        let lives: u32 = if health.lives > 0 { (health.lives - 1) as u32 } else { 0u32 };
        (PlayerHealth { lives, hit_cooldown_ms: HIT_COOLDOWN_MS }, ContactOutcome::Killed)
    } else {
        (PlayerHealth { lives: health.lives, hit_cooldown_ms: cooldown }, ContactOutcome::Unharmed)
    }
}

impl PlayerHealth {
    /// Full lives and no cooldown.
    pub fn reset(&mut self)
        ensures
            final(self).lives == MAX_LIVES,
            final(self).hit_cooldown_ms == 0,
    {
        self.lives = MAX_LIVES;
        self.hit_cooldown_ms = 0;
    }

    /// Applies one frame of `dt_ms` milliseconds in which the player touched
    /// an enemy (`touched`) or not.
    pub fn enemy_contact(&mut self, dt_ms: u32, touched: bool) -> (outcome: ContactOutcome)
        ensures
            (*final(self), outcome) == spec_enemy_contact(*old(self), dt_ms, touched),
            final(self).lives <= old(self).lives,
            outcome == ContactOutcome::Killed <==> touched,
            touched ==> final(self).lives + 1 == old(self).lives || old(self).lives == 0,
    {
        if touched {
            self.lives = self.lives.saturating_sub(1);
            self.hit_cooldown_ms = HIT_COOLDOWN_MS;
            ContactOutcome::Killed
        } else {
            self.hit_cooldown_ms = self.hit_cooldown_ms.saturating_sub(dt_ms);
            ContactOutcome::Unharmed
        }
    }
}

/// Where the player is in the endless hallway.
#[derive(Clone, Copy, Debug, PartialEq, Eq, Structural)]
pub struct HallwayProgress {
    pub door_number: u32,
    pub room_seed: u32,
}

/// The room seed at the start: `0xC0FFEE`.
pub const INITIAL_ROOM_SEED: u32 = 0xC0FFEE;

impl Default for HallwayProgress {
    fn default() -> (progress: Self)
        ensures
            progress.door_number == 1,
            progress.room_seed == INITIAL_ROOM_SEED,
    {
        HallwayProgress { door_number: 1, room_seed: INITIAL_ROOM_SEED }
    }
}

/// The next room seed: one step of the linear congruential generator
/// `seed * 1664525 + 1013904223 (mod 2^32)`.
pub open spec fn spec_next_room_seed(seed: u32) -> u32 {
    seed.wrapping_mul(1664525u32).wrapping_add(1013904223u32)
}

/// The counters after passing one door.
pub open spec fn spec_advance_room(progress: HallwayProgress, stats: RunStats) -> (HallwayProgress, RunStats) {
    (
        HallwayProgress {
            door_number: (progress.door_number + 1) as u32,
            room_seed: spec_next_room_seed(progress.room_seed),
        },
        RunStats { doors_cleared: (stats.doors_cleared + 1) as u32 },
    )
}

/// Passing through a door: one more door cleared, the next door number, and
/// a fresh room seed.
pub fn advance_room(progress: &mut HallwayProgress, stats: &mut RunStats)
    requires
        old(progress).door_number < u32::MAX,
        old(stats).doors_cleared < u32::MAX,
    ensures
        (*final(progress), *final(stats)) == spec_advance_room(*old(progress), *old(stats)),
        final(progress).door_number == old(progress).door_number + 1,
        final(stats).doors_cleared == old(stats).doors_cleared + 1,
{
    stats.doors_cleared = stats.doors_cleared + 1;
    progress.door_number = progress.door_number + 1;
    progress.room_seed = progress.room_seed.wrapping_mul(1664525).wrapping_add(1013904223);
}

/// In the lobby, pressing Space starts a run: the door number goes back to 1,
/// the cleared count to 0 (the room seed carries on), and the game moves to
/// `Playing`. Without the key press nothing changes.
pub fn lobby_start_input(
    space_just_pressed: bool,
    progress: &mut HallwayProgress,
    stats: &mut RunStats,
) -> (next: Option<GameState>)
    ensures
        space_just_pressed ==> {
            &&& next == Some(GameState::Playing)
            &&& final(progress).door_number == 1
            &&& final(progress).room_seed == old(progress).room_seed
            &&& final(stats).doors_cleared == 0
        },
        !space_just_pressed ==> {
            &&& next == None::<GameState>
            &&& *final(progress) == *old(progress)
            &&& *final(stats) == *old(stats)
        },
{
    if !space_just_pressed {
        return None;
    }
    progress.door_number = 1;
    stats.doors_cleared = 0;
    Some(GameState::Playing)
}

/// On the game-over screen, pressing Space returns to the lobby.
pub fn game_over_input(space_just_pressed: bool) -> (next: Option<GameState>)
    ensures
        next == (if space_just_pressed { Some(GameState::Lobby) } else { None::<GameState> }),
{
    if space_just_pressed {
        Some(GameState::Lobby)
    } else {
        None
    }
}

/// The state the game moves to when an enemy contact ends with `outcome`:
/// `GameOver` when an enemy caught the player, else no change.
pub open spec fn spec_state_after_contact(outcome: ContactOutcome) -> Option<GameState> {
    if outcome == ContactOutcome::Killed {
        Some(GameState::GameOver)
    } else {
        None
    }
}

/// The state the game moves to when an enemy contact ends with `outcome`.
pub fn state_after_contact(outcome: ContactOutcome) -> (next: Option<GameState>)
    ensures
        next == spec_state_after_contact(outcome),
{
    match outcome {
        ContactOutcome::Killed => Some(GameState::GameOver),
        _ => None,
    }
}

/// Within a run the door number stays one ahead of the doors cleared: a run
/// starts at door 1 with nothing cleared, and passing a door moves both on
/// by one.
pub proof fn lemma_run_counters_in_step(progress: HallwayProgress, stats: RunStats)
    requires
        progress.door_number == stats.doors_cleared + 1,
        progress.door_number < u32::MAX,
    ensures
        spec_advance_room(progress, stats).0.door_number == spec_advance_room(progress, stats).1.doors_cleared + 1,
        spec_advance_room(progress, stats).0.door_number < u32::MAX ==> spec_advance_room(
            progress,
            stats,
        ).1.doors_cleared < u32::MAX,
{
}

/// Plays the health rules over a sequence of frames: the health at the end
/// and how many hits landed.
pub open spec fn run_contacts(health: PlayerHealth, frames: Seq<(u32, bool)>) -> (PlayerHealth, nat)
    decreases frames.len(),
{
    if frames.len() == 0 {
        (health, 0)
    } else {
        let (next, outcome) = spec_enemy_contact(health, frames[0].0, frames[0].1);
        let (end, hits) = run_contacts(next, frames.drop_first());
        (end, if outcome == ContactOutcome::Unharmed { hits } else { hits + 1 })
    }
}

/// Touching an enemy ends the run: in any frame, whatever the lives left
/// and the cooldown, the game moves to `GameOver` exactly when the player
/// touches an enemy, and stays where it is otherwise.
pub proof fn lemma_touch_ends_run(health: PlayerHealth, dt_ms: u32, touched: bool)
    ensures
        spec_state_after_contact(spec_enemy_contact(health, dt_ms, touched).1) == if touched {
            Some(GameState::GameOver)
        } else {
            None::<GameState>
        },
{
}

/// Every hit costs exactly one life, until none are left.
pub proof fn lemma_each_hit_costs_one_life(health: PlayerHealth, frames: Seq<(u32, bool)>)
    ensures
        run_contacts(health, frames).0.lives == if run_contacts(health, frames).1 <= health.lives {
            health.lives - run_contacts(health, frames).1
        } else {
            0
        },
    decreases frames.len(),
{
    if frames.len() > 0 {
        let next = spec_enemy_contact(health, frames[0].0, frames[0].1).0;
        lemma_each_hit_costs_one_life(next, frames.drop_first());
    }
}

} // verus!
