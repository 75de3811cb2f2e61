//! Decisions of the tray icon's loop: what a click or a menu entry does to
//! the settings and requests, and which check marks need refreshing.
use vstd::prelude::*;

use crate::hud::{self, HudSettings, SettingsView};
use crate::platform::{self, QuitRequest};
use crate::settings::{self, OpenRequest, OpenRequests};

verus! {

/// Something the user did on the tray icon or its menu.
#[derive(Clone, Copy, Debug, PartialEq, Eq, Structural)]
pub enum TrayEvent {
    /// The left mouse button was released over the icon.
    IconLeftClick,
    /// The "charts" entry was toggled; its check mark now reads `checked`.
    Charts { checked: bool },
    /// The "only while the game is in front" entry was toggled.
    GameOnly { checked: bool },
    /// The "settings" entry was chosen.
    Settings,
    /// The "exit" entry was chosen.
    Exit,
}

/// `a` and `b` hold the same characters.
pub fn text_eq(a: &str, b: &str) -> (r: bool)
    ensures
        r == (a@ == b@),
{
    let n = a.unicode_len();
    if n != b.unicode_len() {
        return false;
    }
    let mut i: usize = 0;
    while i < n
        invariant
            i <= n,
            n == a@.len(),
            n == b@.len(),
            forall|j: int| 0 <= j < i ==> a@[j] == b@[j],
        decreases n - i,
    {
        if a.get_char(i) != b.get_char(i) {
            return false;
        }
        i = i + 1;
    }
    assert(a@ =~= b@);
    true
}

/// The event for a menu entry, from its id and the check marks as they read
/// after the click; an unknown id gives `None`.
pub fn menu_item_event(id: &str, charts_checked: bool, game_only_checked: bool) -> (r: Option<
    TrayEvent,
>)
    ensures
        id@ == "charts"@ ==> r == Some(TrayEvent::Charts { checked: charts_checked }),
        id@ == "game_only"@ ==> r == Some(TrayEvent::GameOnly { checked: game_only_checked }),
        id@ == "settings"@ ==> r == Some(TrayEvent::Settings),
        id@ == "exit"@ ==> r == Some(TrayEvent::Exit),
        id@ != "charts"@ && id@ != "game_only"@ && id@ != "settings"@ && id@ != "exit"@ ==> r
            is None,
{
    proof {
        reveal_strlit("charts");
        reveal_strlit("game_only");
        reveal_strlit("settings");
        reveal_strlit("exit");
        assert("charts"@.len() == 6);
        assert("game_only"@.len() == 9);
        assert("settings"@.len() == 8);
        assert("exit"@.len() == 4);
    }
    if text_eq(id, "charts") {
        Some(TrayEvent::Charts { checked: charts_checked })
    } else if text_eq(id, "game_only") {
        Some(TrayEvent::GameOnly { checked: game_only_checked })
    } else if text_eq(id, "settings") {
        Some(TrayEvent::Settings)
    } else if text_eq(id, "exit") {
        Some(TrayEvent::Exit)
    } else {
        None
    }
}

/// Carries out one tray event; returns `false` when the tray loop has to end.
pub fn handle_tray_event(
    s: &mut HudSettings,
    requests: &mut OpenRequests,
    quit: &mut QuitRequest,
    event: TrayEvent,
) -> (r: bool)
    ensures
        r == (event != TrayEvent::Exit),
        final(quit)@ == (old(quit)@ || event == TrayEvent::Exit),
        final(requests)@ == (match event {
            TrayEvent::IconLeftClick => OpenRequest::ShiftLights,
            TrayEvent::Settings => OpenRequest::Default,
            _ => old(requests)@,
        }),
        final(s)@ == (match event {
            TrayEvent::Charts { checked } => SettingsView {
                charts_visible: checked,
                persist_requested: old(s)@.persist_requested || old(s)@.charts_visible != checked,
                ..old(s)@
            },
            TrayEvent::GameOnly { checked } => SettingsView {
                only_show_in_game: checked,
                persist_requested: old(s)@.persist_requested || old(s)@.only_show_in_game
                    != checked,
                ..old(s)@
            },
            _ => old(s)@,
        }),
{
    match event {
        TrayEvent::IconLeftClick => {
            settings::request_open_shift_lights(requests);
            true
        },
        TrayEvent::Charts { checked } => {
            hud::set_charts_visible(s, checked);
            true
        },
        TrayEvent::GameOnly { checked } => {
            hud::set_only_show_in_game(s, checked);
            true
        },
        TrayEvent::Settings => {
            settings::request_open(requests);
            true
        },
        TrayEvent::Exit => {
            platform::quit_app(quit);
            false
        },
    }
}

/// Check marks of the menu that disagree with the settings and have to be
/// set again: `(charts, game_only)`, each `Some(mark)` when it must change.
pub fn stale_check_marks(s: &HudSettings, charts_checked: bool, game_only_checked: bool) -> (r: (
    Option<bool>,
    Option<bool>,
))
    ensures
        r.0 == (if charts_checked != s@.charts_visible {
            Some(s@.charts_visible)
        } else {
            None
        }),
        r.1 == (if game_only_checked != s@.only_show_in_game {
            Some(s@.only_show_in_game)
        } else {
            None
        }),
{
    let charts = hud::charts_visible(s);
    let game_only = hud::only_show_in_game(s);
    (
        if charts_checked != charts {
            Some(charts)
        } else {
            None
        },
        if game_only_checked != game_only {
            Some(game_only)
        } else {
            None
        },
    )
}

} // verus!
