//! Pad input: keyboard and gamepad snapshots mapped to the PS2 DualShock2
//! button bitmask. The bitmask is active-low (a cleared bit means pressed).
//! Stick bytes run from 0 to 255 with 0x80 at the centre.

use vstd::prelude::*;

verus! {

pub const PAD_SELECT: u16 = 0x0001;
pub const PAD_L3: u16 = 0x0002;
pub const PAD_R3: u16 = 0x0004;
pub const PAD_START: u16 = 0x0008;
pub const PAD_UP: u16 = 0x0010;
pub const PAD_RIGHT: u16 = 0x0020;
pub const PAD_DOWN: u16 = 0x0040;
pub const PAD_LEFT: u16 = 0x0080;
pub const PAD_L2: u16 = 0x0100;
pub const PAD_R2: u16 = 0x0200;
pub const PAD_L1: u16 = 0x0400;
pub const PAD_R1: u16 = 0x0800;
pub const PAD_TRIANGLE: u16 = 0x1000;
pub const PAD_CIRCLE: u16 = 0x2000;
pub const PAD_CROSS: u16 = 0x4000;
pub const PAD_SQUARE: u16 = 0x8000;

/// Stick byte reported for a centred stick.
pub const STICK_CENTER: u8 = 0x80;

/// A trigger axis above this value (about a quarter of the i16 range) counts
/// as a press of L2/R2.
pub const TRIGGER_THRESHOLD: i16 = 8192;

/// Largest magnitude of an SDL stick axis that maps onto the unit interval.
pub const AXIS_MAX: i16 = 32767;

/// The sixteen DualShock2 buttons, in the order of their bits.
#[derive(Clone, Copy, Debug, PartialEq, Eq)]
pub enum PadButton {
    Select,
    L3,
    R3,
    Start,
    Up,
    Right,
    Down,
    Left,
    L2,
    R2,
    L1,
    R1,
    Triangle,
    Circle,
    Cross,
    Square,
}

/// The bit of `b` in the pad bitmask.
pub open spec fn button_mask(b: PadButton) -> u16 {
    match b {
        PadButton::Select => PAD_SELECT,
        PadButton::L3 => PAD_L3,
        PadButton::R3 => PAD_R3,
        PadButton::Start => PAD_START,
        PadButton::Up => PAD_UP,
        PadButton::Right => PAD_RIGHT,
        PadButton::Down => PAD_DOWN,
        PadButton::Left => PAD_LEFT,
        PadButton::L2 => PAD_L2,
        PadButton::R2 => PAD_R2,
        PadButton::L1 => PAD_L1,
        PadButton::R1 => PAD_R1,
        PadButton::Triangle => PAD_TRIANGLE,
        PadButton::Circle => PAD_CIRCLE,
        PadButton::Cross => PAD_CROSS,
        PadButton::Square => PAD_SQUARE,
    }
}

/// The sixteen button bits are distinct single bits that together fill the
/// 16-bit mask, so an idle pad reads 0xFFFF and each press clears one bit.
pub proof fn lemma_button_bits_partition()
    ensures
        forall|b: PadButton, c: PadButton|
            b != c ==> #[trigger] button_mask(b) & #[trigger] button_mask(c) == 0,
        forall|b: PadButton| #[trigger] button_mask(b) != 0,
        PAD_SELECT | PAD_L3 | PAD_R3 | PAD_START | PAD_UP | PAD_RIGHT | PAD_DOWN | PAD_LEFT | PAD_L2
            | PAD_R2 | PAD_L1 | PAD_R1 | PAD_TRIANGLE | PAD_CIRCLE | PAD_CROSS | PAD_SQUARE == 0xFFFFu16,
{
    assert(0x0001u16 | 0x0002u16 | 0x0004u16 | 0x0008u16 | 0x0010u16 | 0x0020u16 | 0x0040u16
        | 0x0080u16 | 0x0100u16 | 0x0200u16 | 0x0400u16 | 0x0800u16 | 0x1000u16 | 0x2000u16
        | 0x4000u16 | 0x8000u16 == 0xFFFFu16) by (bit_vector);
    assert forall|b: PadButton, c: PadButton|
        b != c implies #[trigger] button_mask(b) & #[trigger] button_mask(c) == 0 by {
        let x = button_mask(b);
        let y = button_mask(c);
        assert(x != y);
        lemma_single_bits_disjoint(x, y);
    }
}

proof fn lemma_single_bits_disjoint(x: u16, y: u16) by (bit_vector)
    requires
        x == 0x0001u16 || x == 0x0002u16 || x == 0x0004u16 || x == 0x0008u16 || x == 0x0010u16
            || x == 0x0020u16 || x == 0x0040u16 || x == 0x0080u16 || x == 0x0100u16 || x == 0x0200u16
            || x == 0x0400u16 || x == 0x0800u16 || x == 0x1000u16 || x == 0x2000u16 || x == 0x4000u16
            || x == 0x8000u16,
        y == 0x0001u16 || y == 0x0002u16 || y == 0x0004u16 || y == 0x0008u16 || y == 0x0010u16
            || y == 0x0020u16 || y == 0x0040u16 || y == 0x0080u16 || y == 0x0100u16 || y == 0x0200u16
            || y == 0x0400u16 || y == 0x0800u16 || y == 0x1000u16 || y == 0x2000u16 || y == 0x4000u16
            || y == 0x8000u16,
        x != y,
    ensures
        x & y == 0,
{
}

/// What the host read from an open gamepad in one poll.
#[derive(Clone, Copy, Debug, PartialEq, Eq)]
pub struct GamepadSnapshot {
    pub dpad_up: bool,
    pub dpad_down: bool,
    pub dpad_left: bool,
    pub dpad_right: bool,
    pub south: bool,
    pub east: bool,
    pub west: bool,
    pub north: bool,
    pub left_shoulder: bool,
    pub right_shoulder: bool,
    pub back: bool,
    pub start: bool,
    pub left_stick: bool,
    pub right_stick: bool,
    pub left_trigger: i16,
    pub right_trigger: i16,
    pub left_x: i16,
    pub left_y: i16,
    pub right_x: i16,
    pub right_y: i16,
}

/// The keys that the pad mapping reads, each `true` when held down.
#[derive(Clone, Copy, Debug, PartialEq, Eq)]
pub struct KeyboardSnapshot {
    pub up: bool,
    pub down: bool,
    pub left: bool,
    pub right: bool,
    pub w: bool,
    pub a: bool,
    pub s: bool,
    pub d: bool,
    pub x: bool,
    pub space: bool,
    pub c: bool,
    pub escape: bool,
    pub z: bool,
    pub v: bool,
    pub q: bool,
    pub e: bool,
    pub key1: bool,
    pub key3: bool,
    pub enter: bool,
    pub rshift: bool,
    pub lctrl: bool,
    pub rctrl: bool,
}

/// PS2 DualShock2 pad state as the runtime reads it: active-low buttons, four
/// stick bytes and twelve pressure bytes.
#[derive(Clone, Copy, Debug, PartialEq, Eq)]
pub struct PS2PadState {
    pub buttons: u16,
    pub lx: u8,
    pub ly: u8,
    pub rx: u8,
    pub ry: u8,
    pub pressure: [u8; 12],
}

/// Whether the gamepad holds button `b` down.
pub open spec fn gamepad_holds(g: GamepadSnapshot, b: PadButton) -> bool {
    match b {
        PadButton::Select => g.back,
        PadButton::L3 => g.left_stick,
        PadButton::R3 => g.right_stick,
        PadButton::Start => g.start,
        PadButton::Up => g.dpad_up,
        PadButton::Right => g.dpad_right,
        PadButton::Down => g.dpad_down,
        PadButton::Left => g.dpad_left,
        PadButton::L2 => g.left_trigger > TRIGGER_THRESHOLD,
        PadButton::R2 => g.right_trigger > TRIGGER_THRESHOLD,
        PadButton::L1 => g.left_shoulder,
        PadButton::R1 => g.right_shoulder,
        PadButton::Triangle => g.north,
        PadButton::Circle => g.east,
        PadButton::Cross => g.south,
        PadButton::Square => g.west,
    }
}

/// Whether the keyboard holds button `b` down: arrows or WASD for the d-pad,
/// X/Space for Cross, C/Escape for Circle, Z Square, V Triangle, Q/E for L1/R1,
/// 1/3 for L2/R2, Return Start, right Shift Select, left/right Ctrl for L3/R3.
pub open spec fn keyboard_holds(k: KeyboardSnapshot, b: PadButton) -> bool {
    match b {
        PadButton::Select => k.rshift,
        PadButton::L3 => k.lctrl,
        PadButton::R3 => k.rctrl,
        PadButton::Start => k.enter,
        PadButton::Up => k.up || k.w,
        PadButton::Right => k.right || k.d,
        PadButton::Down => k.down || k.s,
        PadButton::Left => k.left || k.a,
        PadButton::L2 => k.key1,
        PadButton::R2 => k.key3,
        PadButton::L1 => k.q,
        PadButton::R1 => k.e,
        PadButton::Triangle => k.v,
        PadButton::Circle => k.c || k.escape,
        PadButton::Cross => k.x || k.space,
        PadButton::Square => k.z,
    }
}

/// A button is held when the open gamepad or the keyboard holds it.
pub open spec fn holds(gamepad: Option<GamepadSnapshot>, keys: KeyboardSnapshot, b: PadButton) -> bool {
    (gamepad is Some && gamepad_holds(gamepad->0, b)) || keyboard_holds(keys, b)
}

/// L2 and R2 count as pressed exactly when their trigger axis is above the
/// threshold, a quarter of the i16 range.
pub proof fn lemma_trigger_threshold(g: GamepadSnapshot)
    ensures
        gamepad_holds(g, PadButton::L2) == (g.left_trigger > 8192),
        gamepad_holds(g, PadButton::R2) == (g.right_trigger > 8192),
{
}

/// Pulling a trigger further never releases its button.
pub proof fn lemma_trigger_monotone(g: GamepadSnapshot, h: GamepadSnapshot)
    requires
        g.left_trigger <= h.left_trigger,
        g.right_trigger <= h.right_trigger,
    ensures
        gamepad_holds(g, PadButton::L2) ==> gamepad_holds(h, PadButton::L2),
        gamepad_holds(g, PadButton::R2) ==> gamepad_holds(h, PadButton::R2),
{
}

/// A trigger pulled all the way presses its button, and a released trigger
/// does not.
pub proof fn lemma_trigger_extremes(g: GamepadSnapshot)
    ensures
        g.left_trigger == 32767 ==> gamepad_holds(g, PadButton::L2),
        g.right_trigger == 32767 ==> gamepad_holds(g, PadButton::R2),
        g.left_trigger <= 0 ==> !gamepad_holds(g, PadButton::L2),
        g.right_trigger <= 0 ==> !gamepad_holds(g, PadButton::R2),
{
}

/// The integer nearest to `n / d`, halves rounded up (`d > 0`, `n >= 0`).
pub open spec fn round_half_up(n: int, d: int) -> int {
    (2 * n + d) / (2 * d)
}

pub open spec fn clamp(v: int, lo: int, hi: int) -> int {
    if v < lo {
        lo
    } else if v > hi {
        hi
    } else {
        v
    }
}

/// The byte for the point `num / den` of the interval [-1, 1] (clamped to it):
/// -1 maps to 0, 1 to 255, and the scale is linear, rounded half up.
pub open spec fn unit_byte(num: int, den: int) -> int {
    round_half_up((clamp(num, -den, den) + den) * 255, 2 * den)
}

/// The stick byte of an SDL axis value: the axis divided by 32767.
pub open spec fn axis_byte(axis: int) -> int {
    unit_byte(axis, AXIS_MAX as int)
}

/// The stick byte of a whole number of unit steps (-1, 0 or 1 after clamping).
pub open spec fn step_byte(unit: int) -> int {
    unit_byte(unit, 1)
}

/// Map an SDL i16 stick axis to a 0..255 byte with 0x80 at the centre.
pub fn axis_to_byte(axis: i16) -> (r: u8)
    ensures
        r == axis_byte(axis as int),
{
    let c: i32 = if axis < -AXIS_MAX {
        -(AXIS_MAX as i32)
    } else {
        axis as i32
    };
    let shifted: u32 = (c + 32767) as u32;
    assert(shifted <= 65534);
    let scaled: u32 = shifted * 510 + 65534;
    let q: u32 = scaled / 131068;
    assert(q <= 255);
    q as u8
}

/// Map a count of unit steps (clamped to -1..=1) to a stick byte: -1 is 0,
/// 0 is the centre 0x80, and 1 is 255.
pub fn unit_to_byte(unit: i32) -> (r: u8)
    ensures
        r == step_byte(unit as int),
        r == (if unit <= -1 { 0u8 } else if unit == 0 { 128u8 } else { 255u8 }),
{
    if unit <= -1 {
        assert(step_byte(unit as int) == 0);
        0
    } else if unit == 0 {
        assert(step_byte(unit as int) == 128);
        128
    } else {
        assert(step_byte(unit as int) == round_half_up(510, 2));
        255
    }
}

/// `mask` when `held`, otherwise no bit.
pub open spec fn bit_of(held: bool, mask: u16) -> u16 {
    if held {
        mask
    } else {
        0
    }
}

/// The bitmask with bit `i` set exactly when `h<i>` holds.
#[verifier::opaque]
pub open spec fn pack16(
    h0: bool,
    h1: bool,
    h2: bool,
    h3: bool,
    h4: bool,
    h5: bool,
    h6: bool,
    h7: bool,
    h8: bool,
    h9: bool,
    h10: bool,
    h11: bool,
    h12: bool,
    h13: bool,
    h14: bool,
    h15: bool,
) -> u16 {
    bit_of(h0, 0x0001) | bit_of(h1, 0x0002) | bit_of(h2, 0x0004) | bit_of(h3, 0x0008) | bit_of(h4, 0x0010)
        | bit_of(h5, 0x0020) | bit_of(h6, 0x0040) | bit_of(h7, 0x0080) | bit_of(h8, 0x0100) | bit_of(
        h9,
        0x0200,
    ) | bit_of(h10, 0x0400) | bit_of(h11, 0x0800) | bit_of(h12, 0x1000) | bit_of(h13, 0x2000) | bit_of(
        h14,
        0x4000,
    ) | bit_of(h15, 0x8000)
}

proof fn lemma_pack16(
    h0: bool,
    h1: bool,
    h2: bool,
    h3: bool,
    h4: bool,
    h5: bool,
    h6: bool,
    h7: bool,
    h8: bool,
    h9: bool,
    h10: bool,
    h11: bool,
    h12: bool,
    h13: bool,
    h14: bool,
    h15: bool,
) by (bit_vector)
    ensures
        ({
            let m = pack16(h0, h1, h2, h3, h4, h5, h6, h7, h8, h9, h10, h11, h12, h13, h14, h15);
            &&& ((m & 0x0001u16) != 0) == h0
            &&& ((m & 0x0002u16) != 0) == h1
            &&& ((m & 0x0004u16) != 0) == h2
            &&& ((m & 0x0008u16) != 0) == h3
            &&& ((m & 0x0010u16) != 0) == h4
            &&& ((m & 0x0020u16) != 0) == h5
            &&& ((m & 0x0040u16) != 0) == h6
            &&& ((m & 0x0080u16) != 0) == h7
            &&& ((m & 0x0100u16) != 0) == h8
            &&& ((m & 0x0200u16) != 0) == h9
            &&& ((m & 0x0400u16) != 0) == h10
            &&& ((m & 0x0800u16) != 0) == h11
            &&& ((m & 0x1000u16) != 0) == h12
            &&& ((m & 0x2000u16) != 0) == h13
            &&& ((m & 0x4000u16) != 0) == h14
            &&& ((m & 0x8000u16) != 0) == h15
        }),
{
}

/// A single-bit mask is clear in the complement of `x | y` exactly when it is
/// set in `x` or in `y`.
proof fn lemma_active_low(x: u16, y: u16, m: u16) by (bit_vector)
    requires
        m == 0x0001u16 || m == 0x0002u16 || m == 0x0004u16 || m == 0x0008u16 || m == 0x0010u16
            || m == 0x0020u16 || m == 0x0040u16 || m == 0x0080u16 || m == 0x0100u16 || m == 0x0200u16
            || m == 0x0400u16 || m == 0x0800u16 || m == 0x1000u16 || m == 0x2000u16 || m == 0x4000u16
            || m == 0x8000u16,
    ensures
        (!(x | y)) & m == (if (x & m) != 0 || (y & m) != 0 {
            0u16
        } else {
            m
        }),
{
}

fn bit_if(held: bool, mask: u16) -> (r: u16)
    ensures
        r == bit_of(held, mask),
{
    if held {
        mask
    } else {
        0
    }
}

proof fn lemma_gamepad_bits(g: GamepadSnapshot, m: u16)
    requires
        gamepad_bits(g, m),
    ensures
        forall|b: PadButton| ((m & #[trigger] button_mask(b)) != 0) == gamepad_holds(g, b),
{
    assert forall|b: PadButton| ((m & #[trigger] button_mask(b)) != 0) == gamepad_holds(g, b) by {
        match b {
            PadButton::Select => {},
            PadButton::L3 => {},
            PadButton::R3 => {},
            PadButton::Start => {},
            PadButton::Up => {},
            PadButton::Right => {},
            PadButton::Down => {},
            PadButton::Left => {},
            PadButton::L2 => {},
            PadButton::R2 => {},
            PadButton::L1 => {},
            PadButton::R1 => {},
            PadButton::Triangle => {},
            PadButton::Circle => {},
            PadButton::Cross => {},
            PadButton::Square => {},
        }
    }
}

proof fn lemma_keyboard_bits(k: KeyboardSnapshot, m: u16)
    requires
        keyboard_bits(k, m),
    ensures
        forall|b: PadButton| ((m & #[trigger] button_mask(b)) != 0) == keyboard_holds(k, b),
{
    assert forall|b: PadButton| ((m & #[trigger] button_mask(b)) != 0) == keyboard_holds(k, b) by {
        match b {
            PadButton::Select => {},
            PadButton::L3 => {},
            PadButton::R3 => {},
            PadButton::Start => {},
            PadButton::Up => {},
            PadButton::Right => {},
            PadButton::Down => {},
            PadButton::Left => {},
            PadButton::L2 => {},
            PadButton::R2 => {},
            PadButton::L1 => {},
            PadButton::R1 => {},
            PadButton::Triangle => {},
            PadButton::Circle => {},
            PadButton::Cross => {},
            PadButton::Square => {},
        }
    }
}

proof fn lemma_gamepad_mask(g: GamepadSnapshot, m: u16)
    requires
        m == pack16(
            g.back,
            g.left_stick,
            g.right_stick,
            g.start,
            g.dpad_up,
            g.dpad_right,
            g.dpad_down,
            g.dpad_left,
            g.left_trigger > TRIGGER_THRESHOLD,
            g.right_trigger > TRIGGER_THRESHOLD,
            g.left_shoulder,
            g.right_shoulder,
            g.north,
            g.east,
            g.south,
            g.west,
        ),
    ensures
        forall|b: PadButton| ((m & #[trigger] button_mask(b)) != 0) == gamepad_holds(g, b),
        gamepad_bits(g, m),
{
    assert(gamepad_bits(g, m)) by {
        lemma_pack16(
            g.back,
            g.left_stick,
            g.right_stick,
            g.start,
            g.dpad_up,
            g.dpad_right,
            g.dpad_down,
            g.dpad_left,
            g.left_trigger > TRIGGER_THRESHOLD,
            g.right_trigger > TRIGGER_THRESHOLD,
            g.left_shoulder,
            g.right_shoulder,
            g.north,
            g.east,
            g.south,
            g.west,
        );
    }
    lemma_gamepad_bits(g, m);
}

fn pack_bits(
    h0: bool,
    h1: bool,
    h2: bool,
    h3: bool,
    h4: bool,
    h5: bool,
    h6: bool,
    h7: bool,
    h8: bool,
    h9: bool,
    h10: bool,
    h11: bool,
    h12: bool,
    h13: bool,
    h14: bool,
    h15: bool,
) -> (m: u16)
    ensures
        m == pack16(h0, h1, h2, h3, h4, h5, h6, h7, h8, h9, h10, h11, h12, h13, h14, h15),
{
    reveal(pack16);
    bit_if(h0, 0x0001) | bit_if(h1, 0x0002) | bit_if(h2, 0x0004) | bit_if(h3, 0x0008) | bit_if(h4, 0x0010) | bit_if(h5, 0x0020) | bit_if(h6, 0x0040) | bit_if(h7, 0x0080) | bit_if(h8, 0x0100) | bit_if(h9, 0x0200) | bit_if(h10, 0x0400) | bit_if(h11, 0x0800) | bit_if(h12, 0x1000) | bit_if(h13, 0x2000) | bit_if(h14, 0x4000) | bit_if(h15, 0x8000)
}

/// Bit by bit, which buttons the gamepad's controls press in `m`.
pub open spec fn gamepad_bits(g: GamepadSnapshot, m: u16) -> bool {
    &&& ((m & PAD_SELECT) != 0) == (g.back)
    &&& ((m & PAD_L3) != 0) == (g.left_stick)
    &&& ((m & PAD_R3) != 0) == (g.right_stick)
    &&& ((m & PAD_START) != 0) == (g.start)
    &&& ((m & PAD_UP) != 0) == (g.dpad_up)
    &&& ((m & PAD_RIGHT) != 0) == (g.dpad_right)
    &&& ((m & PAD_DOWN) != 0) == (g.dpad_down)
    &&& ((m & PAD_LEFT) != 0) == (g.dpad_left)
    &&& ((m & PAD_L2) != 0) == (g.left_trigger > 8192)
    &&& ((m & PAD_R2) != 0) == (g.right_trigger > 8192)
    &&& ((m & PAD_L1) != 0) == (g.left_shoulder)
    &&& ((m & PAD_R1) != 0) == (g.right_shoulder)
    &&& ((m & PAD_TRIANGLE) != 0) == (g.north)
    &&& ((m & PAD_CIRCLE) != 0) == (g.east)
    &&& ((m & PAD_CROSS) != 0) == (g.south)
    &&& ((m & PAD_SQUARE) != 0) == (g.west)
}

/// The buttons that the gamepad holds, as a set bit per held button.
pub fn gamepad_pressed(g: &GamepadSnapshot) -> (m: u16)
    ensures
        forall|b: PadButton| ((m & #[trigger] button_mask(b)) != 0) == gamepad_holds(*g, b),
        gamepad_bits(*g, m),
{
    let m = pack_bits(
        g.back,
        g.left_stick,
        g.right_stick,
        g.start,
        g.dpad_up,
        g.dpad_right,
        g.dpad_down,
        g.dpad_left,
        g.left_trigger > TRIGGER_THRESHOLD,
        g.right_trigger > TRIGGER_THRESHOLD,
        g.left_shoulder,
        g.right_shoulder,
        g.north,
        g.east,
        g.south,
        g.west,
    );
    proof {
        lemma_gamepad_mask(*g, m);
    }
    m
}

/// Bit by bit, which buttons the keyboard's controls press in `m`.
pub open spec fn keyboard_bits(k: KeyboardSnapshot, m: u16) -> bool {
    &&& ((m & PAD_SELECT) != 0) == (k.rshift)
    &&& ((m & PAD_L3) != 0) == (k.lctrl)
    &&& ((m & PAD_R3) != 0) == (k.rctrl)
    &&& ((m & PAD_START) != 0) == (k.enter)
    &&& ((m & PAD_UP) != 0) == (k.up || k.w)
    &&& ((m & PAD_RIGHT) != 0) == (k.right || k.d)
    &&& ((m & PAD_DOWN) != 0) == (k.down || k.s)
    &&& ((m & PAD_LEFT) != 0) == (k.left || k.a)
    &&& ((m & PAD_L2) != 0) == (k.key1)
    &&& ((m & PAD_R2) != 0) == (k.key3)
    &&& ((m & PAD_L1) != 0) == (k.q)
    &&& ((m & PAD_R1) != 0) == (k.e)
    &&& ((m & PAD_TRIANGLE) != 0) == (k.v)
    &&& ((m & PAD_CIRCLE) != 0) == (k.c || k.escape)
    &&& ((m & PAD_CROSS) != 0) == (k.x || k.space)
    &&& ((m & PAD_SQUARE) != 0) == (k.z)
}

proof fn lemma_keyboard_mask(k: KeyboardSnapshot, m: u16)
    requires
        m == pack16(
            k.rshift,
            k.lctrl,
            k.rctrl,
            k.enter,
            k.up || k.w,
            k.right || k.d,
            k.down || k.s,
            k.left || k.a,
            k.key1,
            k.key3,
            k.q,
            k.e,
            k.v,
            k.c || k.escape,
            k.x || k.space,
            k.z,
        ),
    ensures
        forall|b: PadButton| ((m & #[trigger] button_mask(b)) != 0) == keyboard_holds(k, b),
        keyboard_bits(k, m),
{
    assert(keyboard_bits(k, m)) by {
        lemma_pack16(
            k.rshift,
            k.lctrl,
            k.rctrl,
            k.enter,
            k.up || k.w,
            k.right || k.d,
            k.down || k.s,
            k.left || k.a,
            k.key1,
            k.key3,
            k.q,
            k.e,
            k.v,
            k.c || k.escape,
            k.x || k.space,
            k.z,
        );
    }
    lemma_keyboard_bits(k, m);
}

/// The buttons that the keyboard holds, as a set bit per held button.
pub fn keyboard_pressed(k: &KeyboardSnapshot) -> (m: u16)
    ensures
        forall|b: PadButton| ((m & #[trigger] button_mask(b)) != 0) == keyboard_holds(*k, b),
        keyboard_bits(*k, m),
{
    let m = pack_bits(
        k.rshift,
        k.lctrl,
        k.rctrl,
        k.enter,
        k.up || k.w,
        k.right || k.d,
        k.down || k.s,
        k.left || k.a,
        k.key1,
        k.key3,
        k.q,
        k.e,
        k.v,
        k.c || k.escape,
        k.x || k.space,
        k.z,
    );
    proof {
        lemma_keyboard_mask(*k, m);
    }
    m
}

/// -1, 0 or 1 for a pair of opposing keys.
pub open spec fn key_axis(plus: bool, minus: bool) -> int {
    (if plus { 1int } else { 0int }) - (if minus { 1int } else { 0int })
}

/// Poll result to pad state. With a gamepad open, its sticks drive the stick
/// bytes; without one, WASD steers the left stick and the right stick stays
/// centred. The keyboard's buttons are merged in either way.
pub fn pad_state(gamepad: Option<GamepadSnapshot>, keys: KeyboardSnapshot) -> (r: PS2PadState)
    ensures
        forall|b: PadButton| #[trigger]
            (r.buttons & button_mask(b)) == (if holds(gamepad, keys, b) {
                0u16
            } else {
                button_mask(b)
            }),
        match gamepad {
            Some(g) => {
                &&& r.lx == axis_byte(g.left_x as int)
                &&& r.ly == axis_byte(g.left_y as int)
                &&& r.rx == axis_byte(g.right_x as int)
                &&& r.ry == axis_byte(g.right_y as int)
            },
            None => {
                &&& r.lx == step_byte(key_axis(keys.d, keys.a))
                &&& r.ly == step_byte(key_axis(keys.s, keys.w))
                &&& r.rx == STICK_CENTER
                &&& r.ry == STICK_CENTER
            },
        },
        r.pressure@ == Seq::new(12, |i: int| 0u8),
        gamepad is None ==> {
            &&& r.lx == (if keys.d == keys.a { 128u8 } else if keys.d { 255u8 } else { 0u8 })
            &&& r.ly == (if keys.s == keys.w { 128u8 } else if keys.s { 255u8 } else { 0u8 })
        },
        ((r.buttons & PAD_SELECT) == 0) == ((gamepad matches Some(g) && g.back) || keys.rshift),
        ((r.buttons & PAD_L3) == 0) == ((gamepad matches Some(g) && g.left_stick) || keys.lctrl),
        ((r.buttons & PAD_R3) == 0) == ((gamepad matches Some(g) && g.right_stick) || keys.rctrl),
        ((r.buttons & PAD_START) == 0) == ((gamepad matches Some(g) && g.start) || keys.enter),
        ((r.buttons & PAD_UP) == 0) == ((gamepad matches Some(g) && g.dpad_up) || keys.up || keys.w),
        ((r.buttons & PAD_RIGHT) == 0) == ((gamepad matches Some(g) && g.dpad_right) || keys.right || keys.d),
        ((r.buttons & PAD_DOWN) == 0) == ((gamepad matches Some(g) && g.dpad_down) || keys.down || keys.s),
        ((r.buttons & PAD_LEFT) == 0) == ((gamepad matches Some(g) && g.dpad_left) || keys.left || keys.a),
        ((r.buttons & PAD_L2) == 0) == ((gamepad matches Some(g) && g.left_trigger > 8192) || keys.key1),
        ((r.buttons & PAD_R2) == 0) == ((gamepad matches Some(g) && g.right_trigger > 8192) || keys.key3),
        ((r.buttons & PAD_L1) == 0) == ((gamepad matches Some(g) && g.left_shoulder) || keys.q),
        ((r.buttons & PAD_R1) == 0) == ((gamepad matches Some(g) && g.right_shoulder) || keys.e),
        ((r.buttons & PAD_TRIANGLE) == 0) == ((gamepad matches Some(g) && g.north) || keys.v),
        ((r.buttons & PAD_CIRCLE) == 0) == ((gamepad matches Some(g) && g.east) || keys.c || keys.escape),
        ((r.buttons & PAD_CROSS) == 0) == ((gamepad matches Some(g) && g.south) || keys.x || keys.space),
        ((r.buttons & PAD_SQUARE) == 0) == ((gamepad matches Some(g) && g.west) || keys.z),
{
    let kb = keyboard_pressed(&keys);
    let (gp, lx, ly, rx, ry) = match gamepad {
        Some(g) => (
            gamepad_pressed(&g),
            axis_to_byte(g.left_x),
            axis_to_byte(g.left_y),
            axis_to_byte(g.right_x),
            axis_to_byte(g.right_y),
        ),
        None => {
            let mut ax: i32 = 0;
            let mut ay: i32 = 0;
            if keys.d {
                ax = ax + 1;
            }
            if keys.a {
                ax = ax - 1;
            }
            if keys.s {
                ay = ay + 1;
            }
            if keys.w {
                ay = ay - 1;
            }
            (0u16, unit_to_byte(ax), unit_to_byte(ay), STICK_CENTER, STICK_CENTER)
        },
    };
    let buttons: u16 = !(gp | kb);
    proof {
        assert forall|b: PadButton| #[trigger]
            (buttons & button_mask(b)) == (if holds(gamepad, keys, b) {
                0u16
            } else {
                button_mask(b)
            }) by {
            let mask = button_mask(b);
            lemma_active_low(gp, kb, mask);
            if gamepad is None {
                assert(gp & mask == 0) by (bit_vector)
                    requires
                        gp == 0u16,
                ;
            }
        }
        assert(button_mask(PadButton::Select) == PAD_SELECT);
        assert(button_mask(PadButton::L3) == PAD_L3);
        assert(button_mask(PadButton::R3) == PAD_R3);
        assert(button_mask(PadButton::Start) == PAD_START);
        assert(button_mask(PadButton::Up) == PAD_UP);
        assert(button_mask(PadButton::Right) == PAD_RIGHT);
        assert(button_mask(PadButton::Down) == PAD_DOWN);
        assert(button_mask(PadButton::Left) == PAD_LEFT);
        assert(button_mask(PadButton::L2) == PAD_L2);
        assert(button_mask(PadButton::R2) == PAD_R2);
        assert(button_mask(PadButton::L1) == PAD_L1);
        assert(button_mask(PadButton::R1) == PAD_R1);
        assert(button_mask(PadButton::Triangle) == PAD_TRIANGLE);
        assert(button_mask(PadButton::Circle) == PAD_CIRCLE);
        assert(button_mask(PadButton::Cross) == PAD_CROSS);
        assert(button_mask(PadButton::Square) == PAD_SQUARE);

    }
    let pressure: [u8; 12] = [0u8; 12];
    assert(pressure@ =~= Seq::new(12, |i: int| 0u8));
    PS2PadState { buttons, lx, ly, rx, ry, pressure }
}

/// Every axis value maps into the byte range, a centred axis reads as 0x80,
/// and full deflection either way reads as 0 and 255.
pub proof fn lemma_axis_range_and_extremes(a: int)
    ensures
        0 <= axis_byte(a) <= 255,
        axis_byte(0) == STICK_CENTER,
        axis_byte(32767) == 255,
        axis_byte(-32767) == 0,
        axis_byte(-32768) == 0,
{
    let c = clamp(a, -32767, 32767);
    let n = (c + 32767) * 510 + 65534;
    assert(axis_byte(a) == n / 131068);
    vstd::arithmetic::div_mod::lemma_div_is_ordered(0int, n, 131068);
    vstd::arithmetic::div_mod::lemma_div_is_ordered(n, 131068int * 255 + 65534, 131068);
    assert(axis_byte(0) == 16776704int / 131068);
    assert(axis_byte(32767) == 33488874int / 131068);
    assert(axis_byte(-32767) == 65534int / 131068);
}

/// Pushing a stick further along its axis never moves its byte back.
pub proof fn lemma_axis_monotone(a: int, b: int)
    requires
        a <= b,
    ensures
        axis_byte(a) <= axis_byte(b),
{
    let ca = clamp(a, -32767, 32767);
    let cb = clamp(b, -32767, 32767);
    let na = (ca + 32767) * 510 + 65534;
    let nb = (cb + 32767) * 510 + 65534;
    assert(axis_byte(a) == na / 131068);
    assert(axis_byte(b) == nb / 131068);
    vstd::arithmetic::div_mod::lemma_div_is_ordered(na, nb, 131068);
}

/// Opposite deflections give bytes mirrored about the centre: `255 - byte`.
/// The centre itself is the one exception (0 reads as 0x80, not 0x7F).
pub proof fn lemma_axis_mirror(a: int)
    requires
        -32767 <= a <= 32767,
        a != 0,
    ensures
        axis_byte(-a) == 255 - axis_byte(a),
{
    let d: int = 131068;
    let n = (a + 32767) * 510 + 65534;
    let n2 = (-a + 32767) * 510 + 65534;
    assert(axis_byte(a) == n / d);
    assert(axis_byte(-a) == n2 / d);
    assert(n2 == 256 * d - n);
    vstd::arithmetic::div_mod::lemma_fundamental_div_mod(n, d);
    vstd::arithmetic::div_mod::lemma_mod_pos_bound(n, d);
    let q = n / d;
    let r = n % d;
    assert(n == q * d + r);
    if r == 0 {
        let m = q - 128;
        assert(510 * a == 131068 * m);
        assert(255 * a == 65534 * m);
        let t = a - 257 * m;
        assert(255 * t == -m);
        assert(-127 <= m <= 127);
        assert(t == 0);
        assert(m == 0);
        assert(false);
    }
    vstd::arithmetic::div_mod::lemma_fundamental_div_mod_converse(n2, d, 255 - q, d - r);
}

/// Unit steps read as 0, the centre 0x80 and 255.
pub proof fn lemma_step_values()
    ensures
        step_byte(-1) == 0,
        step_byte(0) == STICK_CENTER,
        step_byte(1) == 255,
{
    assert(step_byte(0) == 512int / 4);
    assert(step_byte(1) == 1022int / 4);
}

/// Whether the key with SDL scancode `scancode` is down in SDL's keyboard
/// state array; scancodes outside the array read as up.
pub fn key_down(state: &[bool], scancode: i32) -> (r: bool)
    ensures
        r == (0 <= scancode < state@.len() && state@[scancode as int]),
{
    if scancode < 0 {
        return false;
    }
    let idx = scancode as usize;
    if idx >= state.len() {
        return false;
    }
    state[idx]
}

/// The search for a gamepad to open among the devices SDL lists: which of
/// them SDL reports as gamepads, and the first index not yet tried.
pub struct GamepadSearch {
    is_gamepad: Vec<bool>,
    next: usize,
}

impl GamepadSearch {
    #[verifier::type_invariant]
    spec fn inv(self) -> bool {
        self.next <= self.is_gamepad.len()
    }

    /// For each listed device, whether it is a gamepad.
    pub closed spec fn flags(self) -> Seq<bool> {
        self.is_gamepad@
    }

    /// The first device index not yet tried.
    pub closed spec fn position(self) -> int {
        self.next as int
    }

    pub fn new(is_gamepad: Vec<bool>) -> (s: GamepadSearch)
        ensures
            s.flags() == is_gamepad@,
            s.position() == 0,
    {
        GamepadSearch { is_gamepad, next: 0 }
    }

    /// The next device to try opening: the first gamepad at or after the
    /// current position. Devices that are not gamepads are skipped, and the
    /// position moves past the device returned.
    pub fn next_attempt(&mut self) -> (r: Option<usize>)
        ensures
            final(self).flags() == old(self).flags(),
            0 <= old(self).position() <= old(self).flags().len(),
            match r {
                Some(i) => {
                    &&& old(self).position() <= i < old(self).flags().len()
                    &&& old(self).flags()[i as int]
                    &&& forall|j: int|
                        old(self).position() <= j < i ==> !#[trigger] old(self).flags()[j]
                    &&& final(self).position() == i + 1
                },
                None => {
                    &&& forall|j: int|
                        old(self).position() <= j < old(self).flags().len() ==> !#[trigger] old(
                            self,
                        ).flags()[j]
                    &&& final(self).position() == old(self).flags().len()
                },
            },
    {
        proof {
            use_type_invariant(&*self);
        }
        let len = self.is_gamepad.len();
        let mut i = self.next;
        while i < len
            invariant
                self.next <= i <= len,
                self.next == old(self).next,
                self.is_gamepad@ == old(self).is_gamepad@,
                len == self.is_gamepad.len(),
                forall|j: int| self.next <= j < i ==> !#[trigger] self.is_gamepad@[j],
            decreases len - i,
        {
            if self.is_gamepad[i] {
                self.next = i + 1;
                return Some(i);
            }
            i = i + 1;
        }
        self.next = len;
        None
    }
}

} // verus!
