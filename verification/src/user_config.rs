//! The user configuration saved to disk, and how it is taken from and given to
//! the running HUD.
//!
//! The opacities, the blink threshold and the gear display position are real
//! numbers; the application stores and validates them beside this structure.
use vstd::prelude::*;

use crate::config::{
    CALIBRATE_MS_MAX, CALIBRATE_MS_MIN, DEFAULT_CALIBRATE_MS, DEFAULT_GEAR_DISPLAY_SIZE_PX,
    DEFAULT_LISTEN_PORT, DEFAULT_SHIFT_LIGHTS_GAP_PX, DEFAULT_SHIFT_LIGHTS_OFFSET_PX,
    DEFAULT_SHIFT_LIGHTS_THICKNESS_PX, DEFAULT_SHIFT_LIGHTS_WIDTH_PERCENT,
};
use crate::hud::{
    self, HudSettings, SettingsView, ShiftLightsDirection, ShiftLightsPosition,
};

verus! {

/// The integer, flag and choice settings of the configuration file, and the
/// telemetry listen address.
#[derive(Debug)]
pub struct UserConfig {
    pub only_show_in_game: bool,
    pub charts_visible: bool,
    pub calibrate_hint_visible: bool,
    pub shift_lights_position: ShiftLightsPosition,
    pub shift_lights_direction: ShiftLightsDirection,
    pub shift_lights_offset_px: usize,
    pub shift_lights_thickness_px: usize,
    pub shift_lights_gap_px: usize,
    pub shift_lights_width_percent: usize,
    pub gear_display_visible: bool,
    pub gear_display_size_px: usize,
    pub calibrate_ms: usize,
    pub listen_host: String,
    pub listen_port: u16,
}

impl UserConfig {
    /// A configuration that applying takes over unchanged.
    pub open spec fn valid(&self) -> bool {
        &&& self.shift_lights_direction.spec_is_compatible_with(self.shift_lights_position)
        &&& self.shift_lights_thickness_px > 0
        &&& 1 <= self.shift_lights_width_percent <= 100
        &&& self.gear_display_size_px > 0
        &&& CALIBRATE_MS_MIN <= self.calibrate_ms <= CALIBRATE_MS_MAX
    }

    /// The settings after applying `cfg` to `v`: the flags, edge and offsets are
    /// taken over; the direction when it fits the edge, otherwise the edge's
    /// default; each validated value only when it is in its range.
    pub open spec fn applied(v: SettingsView, cfg: UserConfig) -> SettingsView {
        UserConfig::applied_checked(
            UserConfig::applied_layout(UserConfig::applied_flags(v, cfg), cfg),
            cfg,
        )
    }

    pub open spec fn applied_flags(v: SettingsView, cfg: UserConfig) -> SettingsView {
        SettingsView {
            only_show_in_game: cfg.only_show_in_game,
            charts_visible: cfg.charts_visible,
            calibrate_hint_visible: cfg.calibrate_hint_visible,
            gear_display_visible: cfg.gear_display_visible,
            ..v
        }
    }

    pub open spec fn applied_layout(v: SettingsView, cfg: UserConfig) -> SettingsView {
        SettingsView {
            shift_lights_position: cfg.shift_lights_position,
            shift_lights_direction: if cfg.shift_lights_direction.spec_is_compatible_with(
                cfg.shift_lights_position,
            ) {
                cfg.shift_lights_direction
            } else {
                ShiftLightsDirection::spec_default_for(cfg.shift_lights_position)
            },
            shift_lights_offset_px: cfg.shift_lights_offset_px,
            shift_lights_gap_px: cfg.shift_lights_gap_px,
            ..v
        }
    }

    pub open spec fn applied_checked(v: SettingsView, cfg: UserConfig) -> SettingsView {
        SettingsView {
            shift_lights_thickness_px: if cfg.shift_lights_thickness_px > 0 {
                cfg.shift_lights_thickness_px
            } else {
                v.shift_lights_thickness_px
            },
            shift_lights_width_percent: if 1 <= cfg.shift_lights_width_percent <= 100 {
                cfg.shift_lights_width_percent
            } else {
                v.shift_lights_width_percent
            },
            gear_display_size_px: if cfg.gear_display_size_px > 0 {
                cfg.gear_display_size_px
            } else {
                v.gear_display_size_px
            },
            calibrate_ms: if CALIBRATE_MS_MIN <= cfg.calibrate_ms <= CALIBRATE_MS_MAX {
                cfg.calibrate_ms
            } else {
                v.calibrate_ms
            },
            ..v
        }
    }

    /// The settings part of the configuration agrees with `v`.
    pub open spec fn holds(&self, v: SettingsView) -> bool {
        &&& self.only_show_in_game == v.only_show_in_game
        &&& self.charts_visible == v.charts_visible
        &&& self.calibrate_hint_visible == v.calibrate_hint_visible
        &&& self.shift_lights_position == v.shift_lights_position
        &&& self.shift_lights_direction == v.shift_lights_direction
        &&& self.shift_lights_offset_px == v.shift_lights_offset_px
        &&& self.shift_lights_thickness_px == v.shift_lights_thickness_px
        &&& self.shift_lights_gap_px == v.shift_lights_gap_px
        &&& self.shift_lights_width_percent == v.shift_lights_width_percent
        &&& self.gear_display_visible == v.gear_display_visible
        &&& self.gear_display_size_px == v.gear_display_size_px
        &&& self.calibrate_ms == v.calibrate_ms
    }

    /// The defaults written for a fresh installation.
    pub open spec fn is_default(&self) -> bool {
        &&& self.only_show_in_game
        &&& !self.charts_visible
        &&& !self.calibrate_hint_visible
        &&& self.shift_lights_position == ShiftLightsPosition::Top
        &&& self.shift_lights_direction == ShiftLightsDirection::LeftToRight
        &&& self.shift_lights_offset_px == DEFAULT_SHIFT_LIGHTS_OFFSET_PX
        &&& self.shift_lights_thickness_px == DEFAULT_SHIFT_LIGHTS_THICKNESS_PX
        &&& self.shift_lights_gap_px == DEFAULT_SHIFT_LIGHTS_GAP_PX
        &&& self.shift_lights_width_percent == DEFAULT_SHIFT_LIGHTS_WIDTH_PERCENT
        &&& self.gear_display_visible
        &&& self.gear_display_size_px == DEFAULT_GEAR_DISPLAY_SIZE_PX
        &&& self.calibrate_ms == DEFAULT_CALIBRATE_MS
        &&& self.listen_host@ == "127.0.0.1"@
        &&& self.listen_port == DEFAULT_LISTEN_PORT
    }

    /// Snapshot of the running settings and listen address.
    pub fn from_runtime(s: &HudSettings, listen_host: String, listen_port: u16) -> (r: UserConfig)
        ensures
            r.holds(s@),
            r.listen_host@ == listen_host@,
            r.listen_port == listen_port,
    {
        UserConfig {
            only_show_in_game: hud::only_show_in_game(s),
            charts_visible: hud::charts_visible(s),
            calibrate_hint_visible: hud::calibrate_hint_visible(s),
            shift_lights_position: hud::shift_lights_position(s),
            shift_lights_direction: hud::shift_lights_direction(s),
            shift_lights_offset_px: hud::shift_lights_offset_px(s),
            shift_lights_thickness_px: hud::shift_lights_thickness_px(s),
            shift_lights_gap_px: hud::shift_lights_gap_px(s),
            shift_lights_width_percent: hud::shift_lights_width_percent(s),
            gear_display_visible: hud::gear_display_visible(s),
            gear_display_size_px: hud::gear_display_size_px(s),
            calibrate_ms: hud::calibrate_ms(s),
            listen_host,
            listen_port,
        }
    }

    /// Gives the configuration to the running settings. Out-of-range values are
    /// skipped, and applying never asks for the configuration to be saved.
    /// The listen address is applied by the telemetry listener.
    pub fn apply(&self, s: &mut HudSettings)
        ensures
            final(s)@ == UserConfig::applied(old(s)@, *self),
    {
        let pending = hud::take_persist_request(s);
        self.apply_flags(s);
        self.apply_layout(s);
        self.apply_checked(s);
        let _ = hud::take_persist_request(s);
        hud::persist_if(s, pending);
    }

    fn apply_flags(&self, s: &mut HudSettings)
        ensures
            final(s)@ == (SettingsView {
                persist_requested: final(s)@.persist_requested,
                ..UserConfig::applied_flags(old(s)@, *self)
            }),
    {
        hud::set_only_show_in_game(s, self.only_show_in_game);
        hud::set_charts_visible(s, self.charts_visible);
        hud::set_calibrate_hint_visible(s, self.calibrate_hint_visible);
        hud::set_gear_display_visible(s, self.gear_display_visible);
    }

    fn apply_layout(&self, s: &mut HudSettings)
        ensures
            final(s)@ == (SettingsView {
                persist_requested: final(s)@.persist_requested,
                ..UserConfig::applied_layout(old(s)@, *self)
            }),
    {
        hud::set_shift_lights_position(s, self.shift_lights_position);
        hud::set_shift_lights_direction(s, self.shift_lights_direction);
        hud::set_shift_lights_offset_px(s, self.shift_lights_offset_px);
        hud::set_shift_lights_gap_px(s, self.shift_lights_gap_px);
    }

    fn apply_checked(&self, s: &mut HudSettings)
        ensures
            final(s)@ == (SettingsView {
                persist_requested: final(s)@.persist_requested,
                ..UserConfig::applied_checked(old(s)@, *self)
            }),
    {
        self.apply_strip_size(s);
        self.apply_gear_and_duration(s);
    }

    fn apply_strip_size(&self, s: &mut HudSettings)
        ensures
            final(s)@ == (SettingsView {
                shift_lights_thickness_px: if self.shift_lights_thickness_px > 0 {
                    self.shift_lights_thickness_px
                } else {
                    old(s)@.shift_lights_thickness_px
                },
                shift_lights_width_percent: if 1 <= self.shift_lights_width_percent <= 100 {
                    self.shift_lights_width_percent
                } else {
                    old(s)@.shift_lights_width_percent
                },
                persist_requested: final(s)@.persist_requested,
                ..old(s)@
            }),
    {
        let _ = hud::set_shift_lights_thickness_px(s, self.shift_lights_thickness_px);
        let _ = hud::set_shift_lights_width_percent(s, self.shift_lights_width_percent);
    }

    fn apply_gear_and_duration(&self, s: &mut HudSettings)
        ensures
            final(s)@ == (SettingsView {
                gear_display_size_px: if self.gear_display_size_px > 0 {
                    self.gear_display_size_px
                } else {
                    old(s)@.gear_display_size_px
                },
                calibrate_ms: if CALIBRATE_MS_MIN <= self.calibrate_ms <= CALIBRATE_MS_MAX {
                    self.calibrate_ms
                } else {
                    old(s)@.calibrate_ms
                },
                persist_requested: final(s)@.persist_requested,
                ..old(s)@
            }),
    {
        let _ = hud::set_gear_display_size_px(s, self.gear_display_size_px);
        let _ = hud::set_calibrate_ms(s, self.calibrate_ms);
    }
}

impl Default for UserConfig {
    fn default() -> (r: UserConfig)
        ensures
            r.is_default(),
    {
        UserConfig {
            only_show_in_game: true,
            charts_visible: false,
            calibrate_hint_visible: false,
            shift_lights_position: ShiftLightsPosition::Top,
            shift_lights_direction: ShiftLightsDirection::LeftToRight,
            shift_lights_offset_px: DEFAULT_SHIFT_LIGHTS_OFFSET_PX,
            shift_lights_thickness_px: DEFAULT_SHIFT_LIGHTS_THICKNESS_PX,
            shift_lights_gap_px: DEFAULT_SHIFT_LIGHTS_GAP_PX,
            shift_lights_width_percent: DEFAULT_SHIFT_LIGHTS_WIDTH_PERCENT,
            gear_display_visible: true,
            gear_display_size_px: DEFAULT_GEAR_DISPLAY_SIZE_PX,
            calibrate_ms: DEFAULT_CALIBRATE_MS,
            listen_host: String::from_str("127.0.0.1"),
            listen_port: DEFAULT_LISTEN_PORT,
        }
    }
}

/// Applies a configuration read from disk at start-up.
pub fn load_and_apply(s: &mut HudSettings, cfg: &UserConfig)
    ensures
        final(s)@ == UserConfig::applied(old(s)@, *cfg),
{
    cfg.apply(s);
}

/// Puts every setting back to its default and returns the configuration to
/// write to disk.
pub fn reset_to_defaults(s: &mut HudSettings) -> (r: UserConfig)
    ensures
        r.is_default(),
        final(s)@ == UserConfig::applied(old(s)@, r),
{
    let cfg = UserConfig::default();
    cfg.apply(s);
    cfg
}

/// If a setting changed since the last save, returns the configuration to
/// write, unless a configuration is being applied (`applying`): what changes
/// while loading or resetting is never written on its own. Either way the
/// request is cleared.
pub fn persist(s: &mut HudSettings, applying: bool, listen_host: String, listen_port: u16) -> (r:
    Option<UserConfig>)
    ensures
        final(s)@ == (SettingsView { persist_requested: false, ..old(s)@ }),
        r is Some <==> old(s)@.persist_requested && !applying,
        r matches Some(cfg) ==> cfg.holds(old(s)@) && cfg.listen_host@ == listen_host@
            && cfg.listen_port == listen_port,
{
    if hud::take_persist_request(s) && !applying {
        Some(UserConfig::from_runtime(s, listen_host, listen_port))
    } else {
        None
    }
}

/// The places a configuration file is looked for, in order: beside the
/// executable, then in the per-user configuration directory.
pub fn candidate_paths<P>(exe_dir_config_path: Option<P>, appdata_config_path: Option<P>) -> (r:
    Vec<P>)
    ensures
        r@ == (match exe_dir_config_path {
            Some(p) => seq![p],
            None => Seq::empty(),
        }) + (match appdata_config_path {
            Some(p) => seq![p],
            None => Seq::empty(),
        }),
{
    let mut r = Vec::new();
    if let Some(p) = exe_dir_config_path {
        r.push(p);
    }
    if let Some(p) = appdata_config_path {
        r.push(p);
    }
    proof {
        assert(r@ =~= (match exe_dir_config_path {
            Some(p) => seq![p],
            None => Seq::empty(),
        }) + (match appdata_config_path {
            Some(p) => seq![p],
            None => Seq::empty(),
        }));
    }
    r
}

/// Applying the configuration taken from the running settings changes nothing.
pub proof fn lemma_apply_from_runtime(v: SettingsView, cfg: UserConfig)
    requires
        v.wf(),
        cfg.holds(v),
    ensures
        UserConfig::applied(v, cfg) == v,
{
}

/// After applying a valid configuration, the running settings hold exactly it.
pub proof fn lemma_from_runtime_apply(v: SettingsView, cfg: UserConfig)
    requires
        cfg.valid(),
    ensures
        cfg.holds(UserConfig::applied(v, cfg)),
{
}

/// Applying any configuration to valid settings keeps them valid.
pub proof fn lemma_apply_keeps_wf(v: SettingsView, cfg: UserConfig)
    requires
        v.wf(),
    ensures
        UserConfig::applied(v, cfg).wf(),
{
}

/// After a reset the configuration part of the settings is that of a fresh
/// start.
pub proof fn lemma_reset_matches_initial(v: SettingsView, cfg: UserConfig)
    requires
        cfg.is_default(),
    ensures
        cfg.holds(hud::initial_settings()),
        cfg.holds(UserConfig::applied(v, cfg)),
{
}

/// The configuration file in use: the one read at start-up, or the last one
/// written.
pub struct ActivePath<P> {
    path: Option<P>,
}

impl<P> View for ActivePath<P> {
    type V = Option<P>;

    closed spec fn view(&self) -> Option<P> {
        self.path
    }
}

impl<P> ActivePath<P> {
    pub fn new() -> (r: ActivePath<P>)
        ensures
            r@ is None,
    {
        ActivePath { path: None }
    }
}

pub fn active_path<P>(a: &ActivePath<P>) -> (r: &Option<P>)
    ensures
        *r == a@,
{
    &a.path
}

pub fn set_active_path<P>(a: &mut ActivePath<P>, path: Option<P>)
    ensures
        final(a)@ == path,
{
    a.path = path;
}

/// Start-up loading, given the first candidate path that is a file together
/// with what parsing it gave (`None` when it did not parse). That file becomes
/// the active one and its configuration is used, the defaults when it did not
/// parse. With no file at all the defaults are used and have to be written
/// (the second result).
pub fn load_outcome<P>(a: &mut ActivePath<P>, found: Option<(P, Option<UserConfig>)>) -> (r: (
    UserConfig,
    bool,
))
    ensures
        match found {
            Some((path, Some(cfg))) => r.0 == cfg && !r.1 && final(a)@ == Some(path),
            Some((path, None)) => r.0.is_default() && !r.1 && final(a)@ == Some(path),
            None => r.0.is_default() && r.1 && final(a)@ == old(a)@,
        },
{
    match found {
        Some((path, parsed)) => {
            set_active_path(a, Some(path));
            match parsed {
                Some(cfg) => (cfg, false),
                None => (UserConfig::default(), false),
            }
        },
        None => (UserConfig::default(), true),
    }
}

/// A place to write the configuration to.
#[derive(Clone, Copy, Debug, PartialEq, Eq, Structural)]
pub enum SaveTarget {
    /// The file in use.
    Active,
    /// The candidate path with this index (see `candidate_paths`).
    Candidate(usize),
}

pub open spec fn spec_next_save_target(has_active: bool, candidates: usize, tried: Option<
    SaveTarget,
>) -> Option<SaveTarget> {
    match tried {
        None => if has_active {
            Some(SaveTarget::Active)
        } else if candidates > 0 {
            Some(SaveTarget::Candidate(0))
        } else {
            None
        },
        Some(SaveTarget::Active) => if candidates > 0 {
            Some(SaveTarget::Candidate(0))
        } else {
            None
        },
        Some(SaveTarget::Candidate(i)) => if i + 1 < candidates {
            Some(SaveTarget::Candidate((i + 1) as usize))
        } else {
            None
        },
    }
}

/// The order in which saving tries places: the file in use first (when there
/// is one), then each candidate path in order. Given the place that was just
/// tried and refused the write (`None` before the first try), returns the next
/// one, or `None` when every place has been tried. The first place that
/// accepts the write ends the attempt.
pub fn next_save_target(has_active: bool, candidates: usize, tried: Option<SaveTarget>) -> (r:
    Option<SaveTarget>)
    ensures
        r == spec_next_save_target(has_active, candidates, tried),
{
    match tried {
        None => if has_active {
            Some(SaveTarget::Active)
        } else if candidates > 0 {
            Some(SaveTarget::Candidate(0))
        } else {
            None
        },
        Some(SaveTarget::Active) => if candidates > 0 {
            Some(SaveTarget::Candidate(0))
        } else {
            None
        },
        Some(SaveTarget::Candidate(i)) => if i < candidates && i + 1 < candidates {
            Some(SaveTarget::Candidate(i + 1))
        } else {
            None
        },
    }
}

/// Records where the configuration was written: a candidate path that took it
/// becomes the file in use; writing to the file in use changes nothing.
pub fn record_saved<P>(a: &mut ActivePath<P>, target: SaveTarget, path: P)
    ensures
        target == SaveTarget::Active ==> final(a)@ == old(a)@,
        target != SaveTarget::Active ==> final(a)@ == Some(path),
{
    match target {
        SaveTarget::Active => {},
        SaveTarget::Candidate(_) => set_active_path(a, Some(path)),
    }
}

/// Saving tries the file in use, then every candidate once, in order: with a
/// file in use and `n` candidates, the places tried are `Active`,
/// `Candidate(0)`, ..., `Candidate(n - 1)`.
pub proof fn lemma_save_order(has_active: bool, candidates: usize, i: usize)
    requires
        i < candidates,
    ensures
        i == 0 ==> (if has_active {
            spec_next_save_target(has_active, candidates, None) == Some(SaveTarget::Active)
                && spec_next_save_target(has_active, candidates, Some(SaveTarget::Active))
                == Some(SaveTarget::Candidate(0))
        } else {
            spec_next_save_target(has_active, candidates, None) == Some(SaveTarget::Candidate(0))
        }),
        i + 1 < candidates ==> spec_next_save_target(
            has_active,
            candidates,
            Some(SaveTarget::Candidate(i)),
        ) == Some(SaveTarget::Candidate((i + 1) as usize)),
        i + 1 == candidates ==> spec_next_save_target(
            has_active,
            candidates,
            Some(SaveTarget::Candidate(i)),
        ) is None,
{
}

} // verus!
