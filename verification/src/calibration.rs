//! Integer side of the HUD state: the gear label, when the fuel cut counts as
//! held, and the frame counters of a fuel-cut calibration.
use vstd::prelude::*;

use crate::config::CALIBRATE_PEAK_HOLD_FRAMES;
use crate::hud::{self, HudSettings};
use crate::parse::spec_parse_unsigned;
use crate::telemetry::{decimal, digit_char, lemma_port_text_parses_back, CarId};

verus! {

/// Text of the gear display: `--` before any data, `r` for reverse, `n` for
/// neutral (reported as 11 or more), otherwise the gear number.
pub open spec fn spec_gear_display(current_gear: Option<u8>) -> Seq<char> {
    match current_gear {
        None => seq!['-', '-'],
        Some(g) => if g == 0 {
            seq!['r']
        } else if g >= 11 {
            seq!['n']
        } else if g == 10 {
            seq!['1', '0']
        } else {
            seq![(48 + g) as char]
        },
    }
}

pub fn gear_display(current_gear: Option<u8>) -> (r: String)
    ensures
        r@ == spec_gear_display(current_gear),
{
    match current_gear {
        None => {
            proof {
                reveal_strlit("--");
            }
            String::from_str("--")
        },
        Some(0) => {
            proof {
                reveal_strlit("r");
            }
            String::from_str("r")
        },
        Some(1) => {
            proof {
                reveal_strlit("1");
            }
            String::from_str("1")
        },
        Some(2) => {
            proof {
                reveal_strlit("2");
            }
            String::from_str("2")
        },
        Some(3) => {
            proof {
                reveal_strlit("3");
            }
            String::from_str("3")
        },
        Some(4) => {
            proof {
                reveal_strlit("4");
            }
            String::from_str("4")
        },
        Some(5) => {
            proof {
                reveal_strlit("5");
            }
            String::from_str("5")
        },
        Some(6) => {
            proof {
                reveal_strlit("6");
            }
            String::from_str("6")
        },
        Some(7) => {
            proof {
                reveal_strlit("7");
            }
            String::from_str("7")
        },
        Some(8) => {
            proof {
                reveal_strlit("8");
            }
            String::from_str("8")
        },
        Some(9) => {
            proof {
                reveal_strlit("9");
            }
            String::from_str("9")
        },
        Some(10) => {
            proof {
                reveal_strlit("10");
            }
            String::from_str("10")
        },
        Some(_) => {
            proof {
                reveal_strlit("n");
            }
            String::from_str("n")
        },
    }
}

/// The driver is holding the car at the fuel cut: throttle applied (and, under
/// strict conditions, the handbrake too) while the detector reports a fuel cut.
pub fn calibration_holding(strict: bool, handbrake: u8, accel: u8, fuel_cut: bool) -> (r: bool)
    ensures
        r == (accel > 0 && fuel_cut && (!strict || handbrake > 0)),
{
    if strict {
        handbrake > 0 && accel > 0 && fuel_cut
    } else {
        accel > 0 && fuel_cut
    }
}

/// What one sample did to a running calibration.
#[derive(Clone, Copy, Debug, PartialEq, Eq, Structural)]
pub enum CalibrateStep {
    /// The fuel cut was not held: the calibration starts over.
    Reset,
    /// Still holding, not long enough yet.
    Holding,
    /// Held long enough with a settled peak: the peak rpm is the fuel-cut rpm.
    Complete,
}

/// Frames held so far and frames since the rpm peak last rose.
pub struct CalibrationCounter {
    frames: usize,
    peak_hold: usize,
}

impl View for CalibrationCounter {
    type V = (nat, nat);

    closed spec fn view(&self) -> (nat, nat) {
        (self.frames as nat, self.peak_hold as nat)
    }
}

/// The counters and outcome after one sample.
pub open spec fn spec_step(c: (nat, nat), holding: bool, new_peak: bool, required: nat) -> (
    (nat, nat),
    CalibrateStep,
) {
    if !holding {
        ((0, 0), CalibrateStep::Reset)
    } else {
        let frames = c.0 + 1;
        let hold = if new_peak {
            0
        } else {
            c.1 + 1
        };
        if frames < required || hold < CALIBRATE_PEAK_HOLD_FRAMES {
            ((frames, hold), CalibrateStep::Holding)
        } else {
            ((0, 0), CalibrateStep::Complete)
        }
    }
}

impl CalibrationCounter {
    #[verifier::type_invariant]
    spec fn inv(self) -> bool {
        self.peak_hold <= self.frames
    }

    pub fn new() -> (r: CalibrationCounter)
        ensures
            r@ == (0nat, 0nat),
    {
        CalibrationCounter { frames: 0, peak_hold: 0 }
    }

    /// Frames the fuel cut has been held in the current attempt.
    pub fn frames(&self) -> (r: usize)
        ensures
            r == self@.0,
            self@.1 <= self@.0,
    {
        proof {
            use_type_invariant(self);
        }
        self.frames
    }

    /// Starts the calibration over.
    pub fn reset_calibration(&mut self)
        ensures
            final(self)@ == (0nat, 0nat),
    {
        *self = CalibrationCounter::new();
    }

    /// Counts one sample. `holding` says whether the fuel cut is held,
    /// `new_peak` whether the rpm rose above the peak of this attempt, and
    /// `required` is the calibration duration in samples. On `Reset` and
    /// `Complete` the counters start over.
    pub fn step(&mut self, holding: bool, new_peak: bool, required: usize) -> (r: CalibrateStep)
        requires
            old(self)@.0 < usize::MAX,
        ensures
            (final(self)@, r) == spec_step(old(self)@, holding, new_peak, required as nat),
    {
        proof {
            use_type_invariant(&*self);
        }
        if !holding {
            self.reset_calibration();
            return CalibrateStep::Reset;
        }
        let frames = self.frames + 1;
        let peak_hold = if new_peak {
            0
        } else {
            self.peak_hold + 1
        };
        if frames < required || peak_hold < CALIBRATE_PEAK_HOLD_FRAMES {
            *self = CalibrationCounter { frames, peak_hold };
            CalibrateStep::Holding
        } else {
            self.reset_calibration();
            CalibrateStep::Complete
        }
    }

    /// Progress of a running calibration in samples: the frames held and the
    /// frames needed including the peak hold. `None` when the lights are
    /// already calibrated or no attempt is running.
    pub fn calibrate_progress(&self, calibrated: bool, s: &HudSettings) -> (r: Option<
        (usize, usize),
    >)
        ensures
            r == (if calibrated || self@.0 == 0 {
                None
            } else {
                Some(
                    (
                        self@.0 as usize,
                        (hud::spec_calibrate_frames(s@.calibrate_ms)
                            + CALIBRATE_PEAK_HOLD_FRAMES) as usize,
                    ),
                )
            }),
    {
        if calibrated || self.frames == 0 {
            return None;
        }
        let required = hud::calibrate_frames(s);
        Some((self.frames, required + CALIBRATE_PEAK_HOLD_FRAMES))
    }
}

/// Holding the fuel cut without a new peak completes a calibration exactly
/// when both counters reach their thresholds, and never earlier.
pub proof fn lemma_complete_needs_thresholds(
    c: (nat, nat),
    holding: bool,
    new_peak: bool,
    required: nat,
)
    ensures
        spec_step(c, holding, new_peak, required).1 == CalibrateStep::Complete <==> (holding
            && c.0 + 1 >= required && (if new_peak {
            0
        } else {
            c.1 + 1
        }) >= CALIBRATE_PEAK_HOLD_FRAMES),
        spec_step(c, holding, new_peak, required).1 != CalibrateStep::Holding
            ==> spec_step(c, holding, new_peak, required).0 == (0nat, 0nat),
{
}

/// The counters and outcome after `n` samples at the fuel cut without a new
/// peak, starting from a fresh attempt (stopping at completion).
pub open spec fn steady_hold(n: nat, required: nat) -> ((nat, nat), CalibrateStep)
    decreases n,
{
    if n == 0 {
        ((0, 0), CalibrateStep::Holding)
    } else {
        let prev = steady_hold((n - 1) as nat, required);
        if prev.1 == CalibrateStep::Complete {
            prev
        } else {
            spec_step(prev.0, true, false, required)
        }
    }
}

/// Holding the fuel cut with a settled peak completes the calibration after
/// exactly `max(required, CALIBRATE_PEAK_HOLD_FRAMES)` samples.
pub proof fn lemma_steady_hold_completes(n: nat, required: nat)
    ensures
        n < required || n < CALIBRATE_PEAK_HOLD_FRAMES ==> steady_hold(n, required) == (
            (n, n),
            CalibrateStep::Holding,
        ),
        n >= required && n >= CALIBRATE_PEAK_HOLD_FRAMES && n >= 1 ==> steady_hold(
            n,
            required,
        ).1 == CalibrateStep::Complete,
    decreases n,
{
    if n > 0 {
        lemma_steady_hold_completes((n - 1) as nat, required);
    }
}

/// How an identified sample relates to the car the HUD was showing.
#[derive(Clone, Copy, Debug, PartialEq, Eq, Structural)]
pub enum CarChange {
    /// No car identified, or the same car as before.
    Unchanged,
    /// The first car since start-up: adopt it and look up its calibration.
    First,
    /// Another car: drop the old car's histories and calibration, then adopt it.
    Switched,
}

/// Compares the car of a sample (`None` when the sample does not identify
/// one) with the current car.
pub fn car_change(current: Option<CarId>, seen: Option<CarId>) -> (r: CarChange)
    ensures
        r == (match seen {
            None => CarChange::Unchanged,
            Some(id) => if current == Some(id) {
                CarChange::Unchanged
            } else if current is None {
                CarChange::First
            } else {
                CarChange::Switched
            },
        }),
{
    match seen {
        None => CarChange::Unchanged,
        Some(id) => match current {
            None => CarChange::First,
            Some(cur) => if cur == id {
                CarChange::Unchanged
            } else {
                CarChange::Switched
            },
        },
    }
}

/// What a sample says about the car's engine.
#[derive(Clone, Copy, Debug, PartialEq, Eq, Structural)]
pub enum Drivetrain {
    /// An identified car without cylinders: its limiter is its maximum rpm,
    /// no calibration is needed.
    Electric,
    /// An identified car with cylinders: the fuel cut is calibrated.
    Combustion,
    /// The sample names no car: the electric flag is left as it is and the
    /// calibration goes on.
    Unidentified,
}

pub fn drivetrain(identified: bool, num_cylinders: i32) -> (r: Drivetrain)
    ensures
        r == (if !identified {
            Drivetrain::Unidentified
        } else if num_cylinders == 0 {
            Drivetrain::Electric
        } else {
            Drivetrain::Combustion
        }),
{
    if !identified {
        Drivetrain::Unidentified
    } else if num_cylinders == 0 {
        Drivetrain::Electric
    } else {
        Drivetrain::Combustion
    }
}

/// Samples since the rpm peak last rose, after a run of held samples in which
/// `peaks` says for each sample whether the peak rose.
pub open spec fn hold_after(peaks: Seq<bool>) -> nat
    decreases peaks.len(),
{
    if peaks.len() == 0 {
        0
    } else if peaks.last() {
        0
    } else {
        hold_after(peaks.drop_last()) + 1
    }
}

/// Counters and outcome after `step` has counted a run of held samples, each
/// with its peak rise from `peaks`, starting from the counters `c`.
pub open spec fn run_steps(c: (nat, nat), peaks: Seq<bool>, required: nat) -> (
    (nat, nat),
    CalibrateStep,
)
    decreases peaks.len(),
{
    if peaks.len() == 0 {
        (c, CalibrateStep::Holding)
    } else {
        spec_step(run_steps(c, peaks.drop_last(), required).0, true, peaks.last(), required)
    }
}

/// After the first `k` samples of the run, at least `required` samples have
/// been held and the peak last rose at least `CALIBRATE_PEAK_HOLD_FRAMES`
/// samples back.
pub open spec fn completes_at(peaks: Seq<bool>, k: int, required: nat) -> bool {
    k >= required && hold_after(peaks.take(k)) >= CALIBRATE_PEAK_HOLD_FRAMES
}

/// Holding the fuel cut from a fresh start, with the rpm peak rising at any
/// samples: while no earlier sample completed, the run completes exactly at a
/// sample where at least `required` samples have been held and the peak last
/// rose at least `CALIBRATE_PEAK_HOLD_FRAMES` samples before; until then the
/// counters are the run's length and the samples since the last rise.
pub proof fn lemma_run_completes(peaks: Seq<bool>, required: nat)
    requires
        peaks.len() > 0,
        forall|k: int| 1 <= k < peaks.len() ==> !#[trigger] completes_at(peaks, k, required),
    ensures
        run_steps((0, 0), peaks, required) == (if completes_at(
            peaks,
            peaks.len() as int,
            required,
        ) {
            ((0nat, 0nat), CalibrateStep::Complete)
        } else {
            ((peaks.len(), hold_after(peaks)), CalibrateStep::Holding)
        }),
    decreases peaks.len(),
{
    let n = peaks.len() as int;
    assert(peaks.take(n) =~= peaks);
    let prefix = peaks.drop_last();
    assert(run_steps((0, 0), peaks, required) == spec_step(
        run_steps((0, 0), prefix, required).0,
        true,
        peaks.last(),
        required,
    ));
    assert(hold_after(peaks) == (if peaks.last() {
        0
    } else {
        hold_after(prefix) + 1
    }));
    if n == 1 {
        assert(prefix =~= Seq::<bool>::empty());
        assert(hold_after(prefix) == 0);
        assert(run_steps((0, 0), prefix, required) == ((0nat, 0nat), CalibrateStep::Holding));
    } else {
        assert forall|k: int| 1 <= k < prefix.len() implies !#[trigger] completes_at(
            prefix,
            k,
            required,
        ) by {
            assert(prefix.take(k) =~= peaks.take(k));
            assert(!completes_at(peaks, k, required));
        }
        lemma_run_completes(prefix, required);
        assert(prefix.take(n - 1) =~= peaks.take(n - 1));
        assert(prefix.take(n - 1) =~= prefix);
        assert(!completes_at(peaks, n - 1, required));
    }
}

/// The hint shown in the middle of the HUD.
#[derive(Clone, Copy, Debug, PartialEq, Eq, Structural)]
pub enum HudHint {
    /// No sample has arrived: where the listener waits.
    WaitingForData,
    /// A calibration is running: its progress.
    Calibrating,
    /// Not calibrated and nothing running: how to calibrate.
    Instructions,
}

/// Which hint the HUD shows, if the hint is switched on: none once the fuel
/// cut is known.
pub fn hud_hint(hint_visible: bool, has_data: bool, calibrated: bool, calibrating: bool) -> (r:
    Option<HudHint>)
    ensures
        r == (if !hint_visible {
            None
        } else if !has_data {
            Some(HudHint::WaitingForData)
        } else if calibrated {
            None
        } else if calibrating {
            Some(HudHint::Calibrating)
        } else {
            Some(HudHint::Instructions)
        }),
{
    if !hint_visible {
        None
    } else if !has_data {
        Some(HudHint::WaitingForData)
    } else if calibrated {
        None
    } else if calibrating {
        Some(HudHint::Calibrating)
    } else {
        Some(HudHint::Instructions)
    }
}

/// The label of gears 1 to 10 is the gear's number in decimal, and reads
/// back as that number; reverse shows `r`, neutral (11 and above) `n`, and
/// no data `--`.
pub proof fn lemma_gear_label_is_number(g: u8)
    ensures
        1 <= g <= 10 ==> spec_gear_display(Some(g)) == decimal(g as nat),
        1 <= g <= 10 ==> spec_parse_unsigned(spec_gear_display(Some(g)), 65535) == Some(
            g as nat,
        ),
        spec_gear_display(Some(0)) == seq!['r'],
        g >= 11 ==> spec_gear_display(Some(g)) == seq!['n'],
        spec_gear_display(None) == seq!['-', '-'],
{
    if 1 <= g <= 10 {
        if g == 10 {
            assert(decimal(1) == seq![digit_char(1)]);
            assert(decimal(10) == decimal(1) + seq![digit_char(0)]);
            assert(decimal(10) =~= seq!['1', '0']);
        }
        lemma_port_text_parses_back(g as u16);
    }
}

} // verus!
