use vstd::prelude::*;

verus! {

/// At most this many enemies chase the player at once.
pub const MAX_ENEMIES: usize = 2;

/// Where a new enemy appears on the hallway floor, in tenths of a unit:
/// `x_dm` across the hallway (0 is its centre line), `z_dm` along it from the
/// entrance.
#[derive(Clone, Copy, Debug, PartialEq, Eq, Structural)]
pub struct EnemySpawn {
    pub x_dm: i32,
    pub z_dm: i32,
}

/// Whether a new enemy joins after reaching door `door_number` while
/// `enemy_count` enemies are about: from door 3 on, on even doors only, and
/// never beyond `MAX_ENEMIES`.
pub open spec fn enemy_spawns(door_number: u32, enemy_count: usize) -> bool {
    door_number >= 3 && enemy_count < MAX_ENEMIES && door_number % 2 == 0
}

/// The spawn point for door `door_number`: across at
/// `(17 * door mod 2^32) mod 50 - 25`, along at `60 + (31 * door mod 2^32) mod 120`
/// but no further than 180 (six units before the hallway's end).
pub open spec fn spec_enemy_spawn(door_number: u32) -> EnemySpawn {
    let along: int = 60 + door_number.wrapping_mul(31u32) % 120;
    EnemySpawn {
        x_dm: (door_number.wrapping_mul(17u32) % 50 - 25) as i32,
        z_dm: (if along < 180 { along } else { 180 }) as i32,
    }
}

/// Decides whether reaching door `door_number` brings a new enemy, and where.
pub fn maybe_spawn_enemy_after_door(door_number: u32, enemy_count: usize) -> (spawn: Option<EnemySpawn>)
    ensures
        spawn.is_some() <==> enemy_spawns(door_number, enemy_count),
        spawn matches Some(s) ==> s == spec_enemy_spawn(door_number),
        spawn matches Some(s) ==> -25 <= s.x_dm <= 24 && 60 <= s.z_dm <= 180,
        spawn.is_some() ==> door_number >= 4,
{
    if door_number < 3 || enemy_count >= MAX_ENEMIES {
        return None;
    }
    if door_number % 2 != 0 {
        return None;
    }
    let across: i32 = (door_number.wrapping_mul(17) % 50) as i32 - 25;
    let along: u32 = 60 + door_number.wrapping_mul(31) % 120;
    let along: u32 = if along < 180 { along } else { 180 };
    Some(EnemySpawn { x_dm: across, z_dm: along as i32 })
}

/// Enemies appear across the whole width of the hallway: every across
/// position an even door can give, from the left wall (-25) to the right
/// side (23) in steps of two, is where the enemy of some even door from 4
/// on appears.
pub proof fn lemma_enemy_spawns_cover_width(x: int)
    requires
        -25 <= x <= 23,
        (x + 25) % 2 == 0,
    ensures
        exists|door: u32| enemy_spawns(door, 0) && #[trigger] spec_enemy_spawn(door).x_dm == x,
{
    let e: int = x + 25;
    let door: u32 = if e == 0 { 150u32 } else { (3 * e) as u32 };
    assert(door.wrapping_mul(17u32) == 17 * door);
    assert((17 * door) % 50 == e) by (nonlinear_arith)
        requires
            0 <= e < 50,
            door == if e == 0 { 150 } else { 3 * e },
    ;
    assert(door % 2 == 0) by (nonlinear_arith)
        requires
            e % 2 == 0,
            door == if e == 0 { 150 } else { 3 * e },
    ;
    assert(enemy_spawns(door, 0));
    assert(spec_enemy_spawn(door).x_dm == x);
}

/// Enemies appear all along the hallway: every along position an even door
/// can give, from 60 to 178 in steps of two, is where the enemy of some even
/// door from 4 on appears.
pub proof fn lemma_enemy_spawns_cover_length(z: int)
    requires
        60 <= z <= 178,
        z % 2 == 0,
    ensures
        exists|door: u32| enemy_spawns(door, 0) && #[trigger] spec_enemy_spawn(door).z_dm == z,
{
    let e: int = z - 60;
    let r: int = (31 * e) % 120;
    let door: u32 = if r < 4 { (r + 120) as u32 } else { r as u32 };
    assert(door.wrapping_mul(31u32) == 31 * door);
    assert((31 * door) % 120 == e) by (nonlinear_arith)
        requires
            0 <= e < 120,
            r == (31 * e) % 120,
            door == if r < 4 { r + 120 } else { r },
    ;
    assert(door % 2 == 0) by (nonlinear_arith)
        requires
            e % 2 == 0,
            r == (31 * e) % 120,
            door == if r < 4 { r + 120 } else { r },
    ;
    assert(enemy_spawns(door, 0));
    assert(spec_enemy_spawn(door).z_dm == z);
}

} // verus!
