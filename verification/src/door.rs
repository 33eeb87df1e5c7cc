use vstd::prelude::*;

verus! {

/// Where a door stands in a hallway segment.
#[derive(Clone, Copy, PartialEq, Eq, Debug, Structural)]
pub enum DoorPlacement {
    Ahead,
    Left,
    Right,
}

/// A door to be built: its number and where it stands.
#[derive(Clone, Copy, PartialEq, Eq, Debug, Structural)]
pub struct DoorSpawn {
    pub number: u32,
    pub placement: DoorPlacement,
}

/// The doors of one room: `doors[0]` carries `target_number`, the others
/// carry wrong numbers.
#[derive(Clone, Debug)]
pub struct RoomLayout {
    pub target_number: u32,
    pub doors: Vec<DoorSpawn>,
}

/// A door that was built into the hallway.
#[derive(Clone, Copy, PartialEq, Eq, Debug, Structural)]
pub struct Door {
    pub number: u32,
    pub placement: DoorPlacement,
}

/// The mixing function that turns a pair of words into a pseudo-random word.
pub open spec fn spec_hash_u32(a: u32, b: u32) -> u32 {
    let x: u32 = a.wrapping_mul(374761393u32).wrapping_add(b.wrapping_mul(668265263u32));
    let x: u32 = (x ^ (x >> 13u32)).wrapping_mul(1274126177u32);
    x ^ (x >> 16u32)
}

/// Deterministic hash of two words.
pub fn hash_u32(a: u32, b: u32) -> (h: u32)
    ensures
        h == spec_hash_u32(a, b),
{
    let mut x: u32 = a.wrapping_mul(374761393).wrapping_add(b.wrapping_mul(668265263));
    x = (x ^ (x >> 13)).wrapping_mul(1274126177);
    x ^ (x >> 16)
}

/// The three places a door can take, in the order they are drawn from.
pub open spec fn all_placements() -> Seq<DoorPlacement> {
    seq![DoorPlacement::Ahead, DoorPlacement::Left, DoorPlacement::Right]
}

/// Draws from `available`, at rounds `i`, `i + 1`, ... below `count`, the
/// element at index `hash(seed, round) % available.len()`, removing it each
/// time; stops early once nothing is left.
pub open spec fn spec_pick_from(count: nat, seed: u32, i: nat, available: Seq<DoorPlacement>) -> Seq<
    DoorPlacement,
>
    decreases count - i,
{
    if i >= count || available.len() == 0 {
        seq![]
    } else {
        let idx: int = (spec_hash_u32(seed, i as u32) as int) % (available.len() as int);
        seq![available[idx]] + spec_pick_from(count, seed, i + 1, available.remove(idx))
    }
}

/// The placements drawn for a room with `count` doors.
pub open spec fn spec_pick_placements(count: nat, seed: u32) -> Seq<DoorPlacement> {
    spec_pick_from(count, seed, 0, all_placements())
}

/// Drawing never repeats an element, takes only available ones, and takes
/// as many as asked for while any are left.
pub proof fn lemma_pick_from_properties(count: nat, seed: u32, i: nat, available: Seq<DoorPlacement>)
    requires
        available.no_duplicates(),
    ensures
        spec_pick_from(count, seed, i, available).no_duplicates(),
        spec_pick_from(count, seed, i, available).len() == if i >= count {
            0
        } else if count - i <= available.len() {
            (count - i) as nat
        } else {
            available.len()
        },
        forall|k: int|
            0 <= k < spec_pick_from(count, seed, i, available).len() ==> available.contains(
                #[trigger] spec_pick_from(count, seed, i, available)[k],
            ),
    decreases count - i,
{
    if i >= count || available.len() == 0 {
    } else {
        let idx: int = (spec_hash_u32(seed, i as u32) as int) % (available.len() as int);
        let rest = available.remove(idx);
        assert(rest.no_duplicates()) by {
            assert forall|a: int, b: int| 0 <= a < rest.len() && 0 <= b < rest.len() && a != b implies rest[a]
                != rest[b] by {
                let a2 = if a < idx { a } else { a + 1 };
                let b2 = if b < idx { b } else { b + 1 };
                assert(rest[a] == available[a2]);
                assert(rest[b] == available[b2]);
            }
        }
        lemma_pick_from_properties(count, seed, i + 1, rest);
        let tail = spec_pick_from(count, seed, i + 1, rest);
        let all = spec_pick_from(count, seed, i, available);
        assert(all == seq![available[idx]] + tail);
        assert forall|k: int| 0 <= k < tail.len() implies #[trigger] tail[k] != available[idx] && available.contains(tail[k]) by {
            assert(rest.contains(tail[k]));
            let m = choose|m: int| 0 <= m < rest.len() && rest[m] == tail[k];
            let m2 = if m < idx { m } else { m + 1 };
            assert(rest[m] == available[m2]);
        }
        assert forall|k: int| 0 <= k < all.len() implies available.contains(#[trigger] all[k]) by {
            if k == 0 {
                assert(all[0] == available[idx]);
            } else {
                assert(all[k] == tail[k - 1]);
            }
        }
        assert forall|a: int, b: int| 0 <= a < all.len() && 0 <= b < all.len() && a != b implies all[a] != all[b] by {
            if a == 0 {
                assert(all[b] == tail[b - 1]);
            } else if b == 0 {
                assert(all[a] == tail[a - 1]);
            } else {
                assert(all[a] == tail[a - 1]);
                assert(all[b] == tail[b - 1]);
            }
        }
    }
}

/// Picks `count` distinct door placements (at most three), pseudo-randomly
/// from `seed`.
pub fn pick_placements(count: usize, seed: u32) -> (picked: Vec<DoorPlacement>)
    ensures
        picked@ == spec_pick_placements(count as nat, seed),
{
    let mut available = vec![DoorPlacement::Ahead, DoorPlacement::Left, DoorPlacement::Right];
    let mut picked: Vec<DoorPlacement> = Vec::new();
    assert(available@ == all_placements());
    let mut i: usize = 0;
    while i < count
        invariant
            i <= count,
            picked@ + spec_pick_from(count as nat, seed, i as nat, available@) == spec_pick_placements(
                count as nat,
                seed,
            ),
        decreases count - i,
    {
        if available.len() == 0 {
            assert(spec_pick_from(count as nat, seed, i as nat, available@) == Seq::<DoorPlacement>::empty());
            assert(picked@ + Seq::<DoorPlacement>::empty() == picked@);
            return picked;
        }
        let h: u32 = hash_u32(seed, i as u32);
        let idx: usize = h as usize % available.len();
        let ghost old_available = available@;
        let ghost old_picked = picked@;
        let item = available.remove(idx);
        picked.push(item);
        proof {
            assert(spec_pick_from(count as nat, seed, i as nat, old_available) == seq![old_available[idx as int]]
                + spec_pick_from(count as nat, seed, (i + 1) as nat, available@));
            assert(picked@ == old_picked + seq![item]);
            assert(picked@ + spec_pick_from(count as nat, seed, (i + 1) as nat, available@) == old_picked
                + (seq![item] + spec_pick_from(count as nat, seed, (i + 1) as nat, available@)));
        }
        i = i + 1;
    }
    assert(spec_pick_from(count as nat, seed, i as nat, available@) == Seq::<DoorPlacement>::empty());
    assert(picked@ + Seq::<DoorPlacement>::empty() == picked@);
    picked
}

/// Whether `wrong_door_number(target, salt)` stays within `u32`.
pub open spec fn wrong_door_defined(target: u32, salt: u32) -> bool {
    !(target == u32::MAX && spec_hash_u32(target, salt) % 2 == 0)
}

/// The wrong number shown on a decoy door: the target moved up (even hash)
/// or down (odd hash, not below 1) by `hash % 18 + 1`; where that lands on
/// the target itself, `target + offset + 1`.
pub open spec fn spec_wrong_door_number(target: u32, salt: u32) -> int {
    let h: u32 = spec_hash_u32(target, salt);
    let offset: int = (h % 18 + 1) as int;
    let moved: int = if h % 2 == 0 {
        if target + offset > u32::MAX { u32::MAX as int } else { target + offset }
    } else {
        if target - offset < 1 { 1 } else { target - offset }
    };
    if moved == target { target + offset + 1 } else { moved }
}

/// Computes a decoy door number for `target`.
pub fn wrong_door_number(target: u32, salt: u32) -> (wrong: u32)
    requires
        wrong_door_defined(target, salt),
    ensures
        wrong == spec_wrong_door_number(target, salt),
        wrong != target,
        wrong >= 1,
        wrong <= target + 19,
        wrong + 19 >= target,
{
    let h: u32 = hash_u32(target, salt);
    let offset: u32 = (h % 18) + 1;
    let mut wrong: u32 = if h % 2 == 0 {
        target.saturating_add(offset)
    } else {
        let down: u32 = target.saturating_sub(offset);
        if down < 1 { 1 } else { down }
    };
    if wrong == target {
        wrong = target + offset + 1;
    }
    wrong
}

/// How many doors a room has: one, two or three, by `hash(seed, target) % 100`
/// falling below 20, below 55, or above.
pub open spec fn spec_door_count(target_number: u32, seed: u32) -> nat {
    let roll: u32 = spec_hash_u32(seed, target_number) % 100;
    if roll < 20 {
        1
    } else if roll < 55 {
        2
    } else {
        3
    }
}

/// Whether every decoy number of the room stays within `u32`.
pub open spec fn layout_defined(target_number: u32, seed: u32) -> bool {
    forall|i: int|
        1 <= i < spec_door_count(target_number, seed) ==> #[trigger] wrong_door_defined(
            target_number,
            seed.wrapping_add(i as u32),
        )
}

/// The doors of the room behind door `target_number`.
pub open spec fn spec_room_doors(target_number: u32, seed: u32) -> Seq<DoorSpawn> {
    let count: nat = spec_door_count(target_number, seed);
    let placements = spec_pick_placements(count, seed.wrapping_add(target_number));
    Seq::new(
        count,
        |i: int|
            DoorSpawn {
                number: if i == 0 {
                    target_number
                } else {
                    spec_wrong_door_number(target_number, seed.wrapping_add(i as u32)) as u32
                },
                placement: placements[i],
            },
    )
}

impl RoomLayout {
    /// Lays out the room behind door `target_number`: one to three doors in
    /// distinct places, the first carrying the target number and every other
    /// one a decoy number.
    pub fn generate(target_number: u32, seed: u32) -> (layout: Self)
        requires
            layout_defined(target_number, seed),
        ensures
            layout.target_number == target_number,
            layout.doors@ == spec_room_doors(target_number, seed),
            1 <= layout.doors@.len() <= 3,
            layout.doors@.len() == if spec_hash_u32(seed, target_number) % 100 < 20 {
                1int
            } else if spec_hash_u32(seed, target_number) % 100 < 55 {
                2int
            } else {
                3int
            },
            layout.doors@[0].number == target_number,
            forall|i: int|
                0 <= i < layout.doors@.len() ==> (#[trigger] layout.doors@[i].number == target_number
                    <==> i == 0),
            forall|i: int|
                1 <= i < layout.doors@.len() ==> {
                    &&& #[trigger] layout.doors@[i].number >= 1
                    &&& layout.doors@[i].number <= target_number + 19
                    &&& layout.doors@[i].number + 19 >= target_number
                },
            forall|i: int, j: int|
                0 <= i < layout.doors@.len() && 0 <= j < layout.doors@.len() && i != j
                    ==> #[trigger] layout.doors@[i].placement != #[trigger] layout.doors@[j].placement,
    {
        let roll: u32 = hash_u32(seed, target_number) % 100;
        let door_count: usize = if roll < 20 {
            1
        } else if roll < 55 {
            2
        } else {
            3
        };
        let placements = pick_placements(door_count, seed.wrapping_add(target_number));
        proof {
            assert(all_placements().no_duplicates());
            lemma_pick_from_properties(door_count as nat, seed.wrapping_add(target_number), 0, all_placements());
        }
        let mut doors: Vec<DoorSpawn> = Vec::new();
        doors.push(DoorSpawn { number: target_number, placement: placements[0] });
        let ghost spec_doors = spec_room_doors(target_number, seed);
        for i in 1..door_count
            invariant
                door_count == spec_door_count(target_number, seed),
                placements@ == spec_pick_placements(door_count as nat, seed.wrapping_add(target_number)),
                placements@.len() == door_count,
                layout_defined(target_number, seed),
                spec_doors == spec_room_doors(target_number, seed),
                doors@.len() == i,
                forall|k: int| 0 <= k < i ==> #[trigger] doors@[k] == spec_doors[k],
        {
            assert(wrong_door_defined(target_number, seed.wrapping_add(i as u32)));
            let wrong = wrong_door_number(target_number, seed.wrapping_add(i as u32));
            doors.push(DoorSpawn { number: wrong, placement: placements[i] });
        }
        proof {
            assert(doors@ =~= spec_doors);
            lemma_room_doors_properties(target_number, seed);
        }
        RoomLayout { target_number, doors }
    }
}

/// A decoy number differs from the target, is at least 1, and lies within 19
/// of the target.
pub proof fn lemma_wrong_door_number_bounds(target: u32, salt: u32)
    requires
        wrong_door_defined(target, salt),
    ensures
        spec_wrong_door_number(target, salt) != target,
        1 <= spec_wrong_door_number(target, salt) <= u32::MAX,
        spec_wrong_door_number(target, salt) <= target + 19,
        spec_wrong_door_number(target, salt) + 19 >= target,
{
}

/// What reaching a door leads to.
#[derive(Clone, Copy, Debug, PartialEq, Eq, Structural)]
pub enum DoorChoice {
    /// Nothing happens (a room change is already under way).
    Ignore,
    /// The door carries the number being sought: on to the next room.
    Advance,
    /// A decoy: the room stays and the screen flashes red.
    WrongDoor,
}

/// Decides what the door numbered `door_number` does when the player reaches
/// it while door `target_number` is sought.
pub fn interact_with_door(door_number: u32, target_number: u32, transition_active: bool) -> (choice: DoorChoice)
    ensures
        choice == (if transition_active {
            DoorChoice::Ignore
        } else if door_number == target_number {
            DoorChoice::Advance
        } else {
            DoorChoice::WrongDoor
        }),
{
    if transition_active {
        DoorChoice::Ignore
    } else if door_number == target_number {
        DoorChoice::Advance
    } else {
        DoorChoice::WrongDoor
    }
}

/// Every room has one to three doors in distinct places; exactly one of them,
/// the first, carries the number being sought, and every other one carries a
/// decoy number of at least 1 within 19 of it.
pub proof fn lemma_room_doors_properties(target_number: u32, seed: u32)
    requires
        layout_defined(target_number, seed),
    ensures
        ({
            let doors = spec_room_doors(target_number, seed);
            &&& 1 <= doors.len() <= 3
            &&& doors[0].number == target_number
            &&& forall|i: int| 0 <= i < doors.len() ==> (#[trigger] doors[i].number == target_number <==> i == 0)
            &&& forall|i: int|
                1 <= i < doors.len() ==> {
                    &&& #[trigger] doors[i].number >= 1
                    &&& doors[i].number <= target_number + 19
                    &&& doors[i].number + 19 >= target_number
                }
            &&& forall|i: int, j: int|
                0 <= i < doors.len() && 0 <= j < doors.len() && i != j ==> #[trigger] doors[i].placement
                    != #[trigger] doors[j].placement
        }),
{
    let count: nat = spec_door_count(target_number, seed);
    let doors = spec_room_doors(target_number, seed);
    assert(all_placements().no_duplicates());
    lemma_pick_from_properties(count, seed.wrapping_add(target_number), 0, all_placements());
    assert forall|i: int| 1 <= i < doors.len() implies #[trigger] doors[i].number != target_number
        && doors[i].number >= 1 && doors[i].number <= target_number + 19 && doors[i].number + 19
        >= target_number by {
        let salt = seed.wrapping_add(i as u32);
        assert(wrong_door_defined(target_number, salt));
        lemma_wrong_door_number_bounds(target_number, salt);
    }
    let placements = spec_pick_placements(count, seed.wrapping_add(target_number));
    assert forall|i: int, j: int|
        0 <= i < doors.len() && 0 <= j < doors.len() && i != j implies #[trigger] doors[i].placement
        != #[trigger] doors[j].placement by {
        assert(doors[i].placement == placements[i]);
        assert(doors[j].placement == placements[j]);
    }
}

/// The door count follows the roll `hash(seed, target) % 100`: a room has one
/// door on a roll below 20 (a fifth of the rolls), two on a roll from 20 to
/// 54 (35 in a hundred), and three on a roll from 55 up (45 in a hundred).
pub proof fn lemma_door_count_by_roll(target_number: u32, seed: u32)
    ensures
        ({
            let roll: int = (spec_hash_u32(seed, target_number) % 100) as int;
            let count: int = spec_room_doors(target_number, seed).len() as int;
            &&& roll < 20 ==> count == 1
            &&& 20 <= roll < 55 ==> count == 2
            &&& 55 <= roll ==> count == 3
        }),
{
}

/// Whether `RoomLayout::generate(target_number, seed)` can lay out the room:
/// every decoy number stays within `u32` (only the largest target can fail).
pub fn room_layout_fits(target_number: u32, seed: u32) -> (fits: bool)
    ensures
        fits == layout_defined(target_number, seed),
{
    if target_number < u32::MAX {
        return true;
    }
    let roll: u32 = hash_u32(seed, target_number) % 100;
    let door_count: u32 = if roll < 20 {
        1
    } else if roll < 55 {
        2
    } else {
        3
    };
    let mut i: u32 = 1;
    while i < door_count
        invariant
            1 <= i <= door_count,
            door_count == spec_door_count(target_number, seed),
            target_number == u32::MAX,
            forall|k: int| 1 <= k < i ==> #[trigger] wrong_door_defined(target_number, seed.wrapping_add(k as u32)),
        decreases door_count - i,
    {
        if hash_u32(target_number, seed.wrapping_add(i)) % 2 == 0 {
            assert(!wrong_door_defined(target_number, seed.wrapping_add(i as u32)));
            return false;
        }
        i = i + 1;
    }
    true
}

} // verus!
