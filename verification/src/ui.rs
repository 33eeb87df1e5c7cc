use vstd::prelude::*;

use crate::game_state::{GameState, MAX_LIVES};

verus! {

/// The character of decimal digit `d`.
pub open spec fn digit_char(d: nat) -> char {
    (48 + d) as char
}

/// The decimal writing of `n`, without leading zeros.
pub open spec fn decimal(n: nat) -> Seq<char>
    decreases n,
{
    if n < 10 {
        seq![digit_char(n)]
    } else {
        decimal(n / 10) + seq![digit_char(n % 10)]
    }
}

fn push_digit(s: &mut String, d: u32)
    requires
        d < 10,
    ensures
        final(s)@ == old(s)@ + seq![digit_char(d as nat)],
{
    match d {
        0 => {
            proof { reveal_strlit("0"); }
            s.append("0");
        },
        1 => {
            proof { reveal_strlit("1"); }
            s.append("1");
        },
        2 => {
            proof { reveal_strlit("2"); }
            s.append("2");
        },
        3 => {
            proof { reveal_strlit("3"); }
            s.append("3");
        },
        4 => {
            proof { reveal_strlit("4"); }
            s.append("4");
        },
        5 => {
            proof { reveal_strlit("5"); }
            s.append("5");
        },
        6 => {
            proof { reveal_strlit("6"); }
            s.append("6");
        },
        7 => {
            proof { reveal_strlit("7"); }
            s.append("7");
        },
        8 => {
            proof { reveal_strlit("8"); }
            s.append("8");
        },
        _ => {
            proof { reveal_strlit("9"); }
            s.append("9");
        },
    }
}

/// Appends the decimal writing of `n` to `s`.
pub fn push_decimal(s: &mut String, n: u32)
    ensures
        final(s)@ == old(s)@ + decimal(n as nat),
    decreases n,
{
    if n >= 10 {
        push_decimal(s, n / 10);
    }
    push_digit(s, n % 10);
    proof {
        if n >= 10 {
            assert(decimal(n as nat) == decimal((n / 10) as nat) + seq![digit_char((n % 10) as nat)]);
        }
    }
}

/// The HUD line during a run: `Door <door>  |  Cleared: <cleared>`.
pub open spec fn spec_door_label(door_number: u32, doors_cleared: u32) -> Seq<char> {
    "Door "@ + decimal(door_number as nat) + "  |  Cleared: "@ + decimal(doors_cleared as nat)
}

/// Writes the HUD line during a run.
pub fn door_label(door_number: u32, doors_cleared: u32) -> (label: String)
    ensures
        label@ == spec_door_label(door_number, doors_cleared),
{
    let mut label = String::from_str("Door ");
    push_decimal(&mut label, door_number);
    label.append("  |  Cleared: ");
    push_decimal(&mut label, doors_cleared);
    label
}

/// The game-over subtitle: `Doors cleared: <cleared>  —  Press SPACE for lobby`.
pub open spec fn spec_game_over_subtitle(doors_cleared: u32) -> Seq<char> {
    "Doors cleared: "@ + decimal(doors_cleared as nat) + "  —  Press SPACE for lobby"@
}

/// Writes the game-over subtitle.
pub fn game_over_subtitle(doors_cleared: u32) -> (subtitle: String)
    ensures
        subtitle@ == spec_game_over_subtitle(doors_cleared),
{
    let mut subtitle = String::from_str("Doors cleared: ");
    push_decimal(&mut subtitle, doors_cleared);
    subtitle.append("  —  Press SPACE for lobby");
    subtitle
}

/// Whether every character of `s` is a decimal digit, `0` (code 48) to `9`
/// (code 57).
pub open spec fn all_digits(s: Seq<char>) -> bool {
    forall|i: int| 0 <= i < s.len() ==> 48 <= #[trigger] (s[i] as int) <= 57
}

/// The number that a string of decimal digits reads as, most significant
/// digit first.
pub open spec fn digits_value(s: Seq<char>) -> int
    decreases s.len(),
{
    if s.len() == 0 {
        0
    } else {
        digits_value(s.drop_last()) * 10 + (s.last() as int - 48)
    }
}

/// The decimal writing reads back as its number: it is a non-empty string
/// of digits, without a leading zero, whose value is `n`.
pub proof fn lemma_decimal_reads_back(n: nat)
    ensures
        decimal(n).len() >= 1,
        all_digits(decimal(n)),
        digits_value(decimal(n)) == n,
        n > 0 ==> decimal(n)[0] as int != 48,
    decreases n,
{
    if n < 10 {
        let s = decimal(n);
        assert(s == seq![digit_char(n)]);
        assert(digit_char(n) as int == 48 + n);
        assert(s.drop_last() =~= Seq::<char>::empty());
        assert(digits_value(s.drop_last()) == 0);
        assert(s.last() as int == 48 + n);
    } else {
        lemma_decimal_reads_back(n / 10);
        let d = decimal(n / 10);
        let s = decimal(n);
        assert(s == d + seq![digit_char(n % 10)]);
        assert(s.drop_last() =~= d);
        assert(s.last() as int == 48 + n % 10);
        assert(digits_value(s) == digits_value(d) * 10 + (n % 10));
        assert(s[0] == d[0]);
        assert forall|i: int| 0 <= i < s.len() implies 48 <= #[trigger] (s[i] as int) <= 57 by {
            if i < d.len() {
                assert(s[i] == d[i]);
            }
        }
    }
}

/// A run of digits followed by a non-digit is found again in any equal
/// string: if `x + p == y + q`, both `x` and `y` all digits and both `p` and
/// `q` starting with a non-digit, then `x == y` and `p == q`.
proof fn lemma_digit_run_unique(x: Seq<char>, p: Seq<char>, y: Seq<char>, q: Seq<char>)
    requires
        all_digits(x),
        all_digits(y),
        p.len() > 0,
        q.len() > 0,
        !(48 <= p[0] as int <= 57),
        !(48 <= q[0] as int <= 57),
        x + p == y + q,
    ensures
        x == y,
        p == q,
{
    if x.len() < y.len() {
        assert((x + p)[x.len() as int] == p[0]);
        assert((y + q)[x.len() as int] == y[x.len() as int]);
    } else if y.len() < x.len() {
        assert((y + q)[y.len() as int] == q[0]);
        assert((x + p)[y.len() as int] == x[y.len() as int]);
    }
    assert(x =~= (x + p).subrange(0, x.len() as int));
    assert(y =~= (y + q).subrange(0, y.len() as int));
    assert(p =~= (x + p).subrange(x.len() as int, (x + p).len() as int));
    assert(q =~= (y + q).subrange(y.len() as int, (y + q).len() as int));
}

/// The game-over subtitle shows the full count: it is `Doors cleared: `,
/// then a string of digits that reads back as `doors_cleared`, then
/// `  —  Press SPACE for lobby`.
pub proof fn lemma_game_over_subtitle_reads_back(doors_cleared: u32)
    ensures
        ({
            let s = spec_game_over_subtitle(doors_cleared);
            let mid = s.subrange(15, s.len() - 26);
            &&& s.len() >= 42
            &&& s.subrange(0, 15) == "Doors cleared: "@
            &&& s.subrange(s.len() - 26, s.len() as int) == "  —  Press SPACE for lobby"@
            &&& all_digits(mid)
            &&& digits_value(mid) == doors_cleared
        }),
{
    reveal_strlit("Doors cleared: ");
    reveal_strlit("  —  Press SPACE for lobby");
    lemma_decimal_reads_back(doors_cleared as nat);
    let d = decimal(doors_cleared as nat);
    let s = spec_game_over_subtitle(doors_cleared);
    assert(s.subrange(0, 15) =~= "Doors cleared: "@);
    assert(s.subrange(15, s.len() - 26) =~= d);
    assert(s.subrange(s.len() - 26, s.len() as int) =~= "  —  Press SPACE for lobby"@);
}

/// Different counts give different game-over subtitles.
pub proof fn lemma_game_over_subtitle_injective(a: u32, b: u32)
    requires
        spec_game_over_subtitle(a) == spec_game_over_subtitle(b),
    ensures
        a == b,
{
    lemma_game_over_subtitle_reads_back(a);
    lemma_game_over_subtitle_reads_back(b);
}

/// The HUD line reads back as its numbers: `Door `, digits that read back as
/// the door number, `  |  Cleared: `, and digits that read back as the
/// doors cleared.
pub proof fn lemma_door_label_reads_back(door_number: u32, doors_cleared: u32)
    ensures
        ({
            let s = spec_door_label(door_number, doors_cleared);
            exists|k: int|
                5 < k && k + 14 < s.len() && s.subrange(0, 5) == "Door "@ && all_digits(
                    #[trigger] s.subrange(5, k),
                ) && digits_value(s.subrange(5, k)) == door_number && s.subrange(k, k + 14)
                    == "  |  Cleared: "@ && all_digits(s.subrange(k + 14, s.len() as int))
                    && digits_value(s.subrange(k + 14, s.len() as int)) == doors_cleared
        }),
{
    reveal_strlit("Door ");
    reveal_strlit("  |  Cleared: ");
    lemma_decimal_reads_back(door_number as nat);
    lemma_decimal_reads_back(doors_cleared as nat);
    let d = decimal(door_number as nat);
    let c = decimal(doors_cleared as nat);
    let s = spec_door_label(door_number, doors_cleared);
    let k: int = 5 + d.len() as int;
    assert(s.subrange(0, 5) =~= "Door "@);
    assert(s.subrange(5, k) =~= d);
    assert(s.subrange(k, k + 14) =~= "  |  Cleared: "@);
    assert(s.subrange(k + 14, s.len() as int) =~= c);
}

/// Different door numbers, or different cleared counts, give different HUD
/// lines.
pub proof fn lemma_door_label_injective(a: u32, b: u32, c: u32, d: u32)
    requires
        spec_door_label(a, b) == spec_door_label(c, d),
    ensures
        a == c,
        b == d,
{
    reveal_strlit("Door ");
    reveal_strlit("  |  Cleared: ");
    lemma_decimal_reads_back(a as nat);
    lemma_decimal_reads_back(b as nat);
    lemma_decimal_reads_back(c as nat);
    lemma_decimal_reads_back(d as nat);
    let sep = "  |  Cleared: "@;
    let da = decimal(a as nat);
    let db = decimal(b as nat);
    let dc = decimal(c as nat);
    let dd = decimal(d as nat);
    let s1 = spec_door_label(a, b);
    let s2 = spec_door_label(c, d);
    assert(s1.subrange(5, s1.len() as int) =~= da + (sep + db));
    assert(s2.subrange(5, s2.len() as int) =~= dc + (sep + dd));
    assert((sep + db)[0] == sep[0]);
    assert((sep + dd)[0] == sep[0]);
    lemma_digit_run_unique(da, sep + db, dc, sep + dd);
    assert(db =~= (sep + db).subrange(14, (sep + db).len() as int));
    assert(dd =~= (sep + dd).subrange(14, (sep + dd).len() as int));
}

/// Heart `slot` (counting from 0) shows as full while the player has more
/// than `slot` lives.
pub fn heart_filled(slot: usize, lives: u32) -> (filled: bool)
    ensures
        filled == (slot < lives),
{
    slot < lives as usize
}

/// What the interface shows in one frame. The texts are `None` where the
/// frame leaves them as they were.
pub struct UiFrame {
    pub hud_visible: bool,
    pub menu_visible: bool,
    pub door_label: Option<String>,
    pub title: Option<String>,
    pub subtitle: Option<String>,
    /// For each heart slot, whether it shows full; empty outside a run.
    pub hearts: Vec<bool>,
}

/// The interface for `state`: during a run the HUD with the door line and
/// one heart per possible life (full for the lives left); otherwise the menu,
/// titled `Bevy Doors` with the start prompt in the lobby, and `You died`
/// with the cleared count after a run.
pub fn sync_ui(state: GameState, door_number: u32, doors_cleared: u32, lives: u32) -> (frame: UiFrame)
    ensures
        frame.hud_visible == (state == GameState::Playing),
        frame.menu_visible == (state != GameState::Playing),
        state == GameState::Playing ==> {
            &&& frame.door_label matches Some(l) && l@ == spec_door_label(door_number, doors_cleared)
            &&& frame.title is None
            &&& frame.subtitle is None
            &&& frame.hearts@.len() == MAX_LIVES
            &&& forall|i: int| 0 <= i < MAX_LIVES ==> #[trigger] frame.hearts@[i] == (i < lives)
        },
        state == GameState::Lobby ==> {
            &&& frame.door_label is None
            &&& frame.title matches Some(t) && t@ == "Bevy Doors"@
            &&& frame.subtitle matches Some(s) && s@ == "Press SPACE to enter the hotel"@
            &&& frame.hearts@.len() == 0
        },
        state == GameState::GameOver ==> {
            &&& frame.door_label is None
            &&& frame.title matches Some(t) && t@ == "You died"@
            &&& frame.subtitle matches Some(s) && s@ == spec_game_over_subtitle(doors_cleared)
            &&& frame.hearts@.len() == 0
        },
{
    match state {
        GameState::Playing => {
            let mut hearts: Vec<bool> = Vec::new();
            let slots: usize = MAX_LIVES as usize;
            for slot in 0..slots
                invariant
                    slots == MAX_LIVES,
                    hearts@.len() == slot,
                    forall|i: int| 0 <= i < slot ==> #[trigger] hearts@[i] == (i < lives),
            {
                hearts.push(heart_filled(slot, lives));
            }
            UiFrame {
                hud_visible: true,
                menu_visible: false,
                door_label: Some(door_label(door_number, doors_cleared)),
                title: None,
                subtitle: None,
                hearts,
            }
        },
        GameState::Lobby => UiFrame {
            hud_visible: false,
            menu_visible: true,
            door_label: None,
            title: Some(String::from_str("Bevy Doors")),
            subtitle: Some(String::from_str("Press SPACE to enter the hotel")),
            hearts: Vec::new(),
        },
        GameState::GameOver => UiFrame {
            hud_visible: false,
            menu_visible: true,
            door_label: None,
            title: Some(String::from_str("You died")),
            subtitle: Some(game_over_subtitle(doors_cleared)),
            hearts: Vec::new(),
        },
    }
}

/// Width and height of the heart icon, in pixels.
pub const HEART_WIDTH: u32 = 48;
pub const HEART_HEIGHT: u32 = 44;

/// The RGBA bytes of the heart icon: pixel `i` (row by row) is opaque white
/// where `inside[i]` holds and fully transparent elsewhere.
pub fn create_heart_image_data(inside: &Vec<bool>) -> (data: Vec<u8>)
    requires
        inside@.len() * 4 <= usize::MAX,
    ensures
        data@.len() == inside@.len() * 4,
        forall|i: int|
            0 <= i < data@.len() ==> #[trigger] data@[i] == if inside@[i / 4] {
                255u8
            } else {
                0u8
            },
{
    let mut data: Vec<u8> = Vec::new();
    let n: usize = inside.len();
    for p in 0..n
        invariant
            n == inside@.len(),
            n * 4 <= usize::MAX,
            data@.len() == p * 4,
            forall|i: int| 0 <= i < data@.len() ==> #[trigger] data@[i] == if inside@[i / 4] {
                255u8
            } else {
                0u8
            },
    {
        let v: u8 = if inside[p] { 255 } else { 0 };
        let ghost before = data@;
        data.push(v);
        data.push(v);
        data.push(v);
        data.push(v);
        assert forall|i: int| 0 <= i < data@.len() implies #[trigger] data@[i] == if inside@[i / 4] {
            255u8
        } else {
            0u8
        } by {
            if i < before.len() {
                assert(data@[i] == before[i]);
            } else {
                assert(i / 4 == p as int);
            }
        }
    }
    data
}

} // verus!
