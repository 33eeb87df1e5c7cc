//! Game rules of a first-person hallway game: room layouts behind numbered
//! doors, the run's counters and health, enemy spawning, the room-change
//! fade, the jumpscare timer and the HUD text.

pub mod door;
pub mod game_state;
pub mod enemy;
pub mod transition;
pub mod jumpscare;
pub mod ui;
pub mod player;
