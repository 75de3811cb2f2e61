//! The five shift lights: which cell shows which light, which lights are on
//! for a given count, their colours, and the blink phase.
use vstd::prelude::*;

verus! {

pub const RPM_LIGHT_COUNT: usize = 5;

/// Length of one blink phase, in milliseconds.
pub const RPM_LIGHT_BLINK_MS: u128 = 80;

/// Colour of a light that is off.
pub const RPM_LIGHT_DIM: u32 = 0x2a2a2a;

/// Background colour of a cell while the fuel cut is not calibrated.
pub const RPM_LIGHT_UNCALIBRATED: u32 = 0xffcc22;

/// Fill colour of the calibration progress.
pub const RPM_LIGHT_CALIBRATING: u32 = 0x22cc44;

/// Colour of light `index` (counted from the lowest rpm): two green, two
/// amber, one red.
pub open spec fn spec_light_color(index: int) -> u32 {
    if index < 2 {
        0x22cc44
    } else if index < 4 {
        0xffcc22
    } else {
        0xff3333
    }
}

pub fn light_color(index: usize) -> (r: u32)
    requires
        index < RPM_LIGHT_COUNT,
    ensures
        r == spec_light_color(index as int),
{
    if index < 2 {
        0x22cc44
    } else if index < 4 {
        0xffcc22
    } else {
        0xff3333
    }
}

/// The light shown in cell `i` of the strip: the cells run from the lowest
/// rpm light, or from the highest when the direction reverses them.
pub open spec fn spec_light_slot(i: int, reverse: bool) -> int {
    if reverse {
        RPM_LIGHT_COUNT - 1 - i
    } else {
        i
    }
}

pub fn light_slot(i: usize, reverse: bool) -> (r: usize)
    requires
        i < RPM_LIGHT_COUNT,
    ensures
        r == spec_light_slot(i as int, reverse),
        r < RPM_LIGHT_COUNT,
{
    if reverse {
        RPM_LIGHT_COUNT - 1 - i
    } else {
        i
    }
}

/// One cell of the strip: its colour, and whether it is on (drawn at the lit
/// opacity) or off (drawn at the dim opacity).
#[derive(Clone, Copy, Debug, PartialEq, Eq, Structural)]
pub struct LightCell {
    pub color: u32,
    pub on: bool,
}

pub open spec fn spec_light_cell(i: int, on_count: usize, lit: bool, reverse: bool) -> LightCell {
    let slot = spec_light_slot(i, reverse);
    if lit && slot < on_count {
        LightCell { color: spec_light_color(slot), on: true }
    } else {
        LightCell { color: RPM_LIGHT_DIM, on: false }
    }
}

/// The cells of a calibrated strip: the lowest `on_count` lights are on,
/// unless the strip is in the dark half of a blink (`lit` false).
pub fn shift_light_cells(on_count: usize, lit: bool, reverse: bool) -> (r: Vec<LightCell>)
    ensures
        r@.len() == RPM_LIGHT_COUNT,
        forall|i: int|
            0 <= i < RPM_LIGHT_COUNT ==> r@[i] == #[trigger] spec_light_cell(
                i,
                on_count,
                lit,
                reverse,
            ),
{
    let mut cells: Vec<LightCell> = Vec::new();
    let mut i: usize = 0;
    while i < RPM_LIGHT_COUNT
        invariant
            i <= RPM_LIGHT_COUNT,
            cells@.len() == i,
            forall|j: int|
                0 <= j < i ==> cells@[j] == #[trigger] spec_light_cell(j, on_count, lit, reverse),
        decreases RPM_LIGHT_COUNT - i,
    {
        let slot = light_slot(i, reverse);
        let cell = if lit && slot < on_count {
            LightCell { color: light_color(slot), on: true }
        } else {
            LightCell { color: RPM_LIGHT_DIM, on: false }
        };
        cells.push(cell);
        i = i + 1;
    }
    cells
}

/// Whether a blinking strip is in its lit phase, from the wall clock in
/// milliseconds since the Unix epoch; a clock before the epoch counts as lit.
pub fn shift_blink_on(since_epoch_ms: Option<u128>) -> (r: bool)
    ensures
        r == match since_epoch_ms {
            Some(ms) => (ms / RPM_LIGHT_BLINK_MS) % 2 == 0,
            None => true,
        },
{
    match since_epoch_ms {
        Some(ms) => (ms / RPM_LIGHT_BLINK_MS) % 2 == 0,
        None => true,
    }
}

/// Reversing the direction mirrors the strip: cell `i` of one shows what
/// cell `4 - i` of the other shows.
pub proof fn lemma_reverse_mirrors(i: int, on_count: usize, lit: bool)
    requires
        0 <= i < RPM_LIGHT_COUNT,
    ensures
        spec_light_cell(i, on_count, lit, true) == spec_light_cell(
            RPM_LIGHT_COUNT - 1 - i,
            on_count,
            lit,
            false,
        ),
{
}

/// More lights on never turns one off: a light that is on for `a` is on for
/// every larger count.
pub proof fn lemma_more_on_keeps_on(i: int, a: usize, b: usize, lit: bool, reverse: bool)
    requires
        0 <= i < RPM_LIGHT_COUNT,
        a <= b,
        spec_light_cell(i, a, lit, reverse).on,
    ensures
        spec_light_cell(i, b, lit, reverse) == spec_light_cell(i, a, lit, reverse),
{
}

/// With the strip lit, exactly the lights below `on_count` are on.
pub proof fn lemma_on_iff_below_count(i: int, on_count: usize, reverse: bool)
    requires
        0 <= i < RPM_LIGHT_COUNT,
    ensures
        spec_light_cell(i, on_count, true, reverse).on <==> spec_light_slot(i, reverse) < on_count,
{
}

/// The five lights, from the lowest rpm, are green, green, amber, amber, red.
pub proof fn lemma_light_colors()
    ensures
        Seq::new(RPM_LIGHT_COUNT as nat, |i: int| spec_light_color(i)) == seq![
            0x22cc44u32,
            0x22cc44u32,
            0xffcc22u32,
            0xffcc22u32,
            0xff3333u32,
        ],
{
    assert(Seq::new(RPM_LIGHT_COUNT as nat, |i: int| spec_light_color(i)) =~= seq![
        0x22cc44u32,
        0x22cc44u32,
        0xffcc22u32,
        0xffcc22u32,
        0xff3333u32,
    ]);
}

} // verus!
