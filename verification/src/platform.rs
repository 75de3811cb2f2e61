//! Decisions behind the window-system work: whether the foreground process is
//! the game, whether the HUD is shown, the quit request, and what a second
//! instance of the program does.
use vstd::prelude::*;

use crate::hud::{self, HudSettings};

verus! {

/// The code of `c` with ASCII capitals mapped to small letters.
pub open spec fn ascii_lower_code(c: char) -> u32 {
    let code = c as u32;
    if 65 <= code <= 90 {
        (code + 32) as u32
    } else {
        code
    }
}

/// Equality of two texts when ASCII letters are compared without case.
pub open spec fn eq_ignore_ascii_case(a: Seq<char>, b: Seq<char>) -> bool {
    &&& a.len() == b.len()
    &&& forall|i: int| 0 <= i < a.len() ==> ascii_lower_code(a[i]) == ascii_lower_code(b[i])
}

pub open spec fn is_path_separator(c: char) -> bool {
    c == '\\' || c == '/'
}

/// The text after the last `\` or `/` of a path (the whole path when it has
/// neither).
pub open spec fn last_component(p: Seq<char>) -> Seq<char>
    decreases p.len(),
{
    if p.len() == 0 {
        p
    } else if is_path_separator(p.last()) {
        Seq::empty()
    } else {
        last_component(p.drop_last()).push(p.last())
    }
}

/// File name of the game's executable.
pub open spec fn game_exe() -> Seq<char> {
    seq!['f', 'o', 'r', 'z', 'a', 'h', 'o', 'r', 'i', 'z', 'o', 'n', '6', '.', 'e', 'x', 'e']
}

proof fn lemma_last_component_from(p: Seq<char>, k: int)
    requires
        0 <= k <= p.len(),
        k == 0 || is_path_separator(p[k - 1]),
        forall|j: int| k <= j < p.len() ==> !is_path_separator(p[j]),
    ensures
        last_component(p) == p.subrange(k, p.len() as int),
    decreases p.len(),
{
    if p.len() == 0 {
    } else if k == p.len() {
        assert(is_path_separator(p.last()));
        assert(p.subrange(k, p.len() as int) =~= Seq::<char>::empty());
    } else {
        lemma_last_component_from(p.drop_last(), k);
        assert(p.subrange(k, p.len() as int) =~= p.drop_last().subrange(
            k,
            p.len() - 1,
        ).push(p.last()));
    }
}

/// Whether the foreground window belongs to the game, given the full image
/// path of its process: the file name must be `forzahorizon6.exe`, compared
/// without ASCII case.
pub fn foreground_is_game(image_path: &str) -> (r: bool)
    ensures
        r == eq_ignore_ascii_case(last_component(image_path@), game_exe()),
{
    let n = image_path.unicode_len();
    let mut k = n;
    let mut found = false;
    while k > 0 && !found
        invariant
            k <= n,
            n == image_path@.len(),
            forall|j: int| k <= j < n ==> !is_path_separator(image_path@[j]),
            found ==> k > 0 && is_path_separator(image_path@[k - 1]),
        decreases k, (if found { 0int } else { 1int }),
    {
        let c = image_path.get_char(k - 1);
        if c == '\\' || c == '/' {
            found = true;
        } else {
            k = k - 1;
        }
    }
    proof {
        lemma_last_component_from(image_path@, k as int);
    }
    let ghost name = image_path@.subrange(k as int, n as int);
    let game = "forzahorizon6.exe";
    proof {
        reveal_strlit("forzahorizon6.exe");
        assert(game@ =~= game_exe());
    }
    if n - k != 17 {
        return false;
    }
    let mut i: usize = 0;
    while i < 17
        invariant
            i <= 17,
            n - k == 17,
            k <= n,
            n == image_path@.len(),
            name == image_path@.subrange(k as int, n as int),
            last_component(image_path@) == name,
            game@ == game_exe(),
            forall|j: int| 0 <= j < i ==> ascii_lower_code(name[j]) == ascii_lower_code(
                game_exe()[j],
            ),
        decreases 17 - i,
    {
        let c = image_path.get_char(k + i);
        let t = game.get_char(i);
        let code = c as u32;
        let lower = if 65 <= code && code <= 90 {
            code + 32
        } else {
            code
        };
        assert(ascii_lower_code(t) == t as u32);
        assert(name[i as int] == c);
        assert(lower == ascii_lower_code(c));
        if lower != t as u32 {
            assert(!eq_ignore_ascii_case(name, game_exe()));
            return false;
        }
        i = i + 1;
    }
    true
}

fn lower_code(c: char) -> (r: u32)
    ensures
        r == ascii_lower_code(c),
{
    let code = c as u32;
    if 65 <= code && code <= 90 {
        code + 32
    } else {
        code
    }
}

/// `a` and `b` are equal when ASCII letters are compared without case.
pub fn text_eq_ignore_ascii_case(a: &str, b: &str) -> (r: bool)
    ensures
        r == eq_ignore_ascii_case(a@, b@),
{
    let n = a.unicode_len();
    if n != b.unicode_len() {
        return false;
    }
    let mut i: usize = 0;
    while i < n
        invariant
            i <= n,
            n == a@.len(),
            n == b@.len(),
            forall|j: int| 0 <= j < i ==> ascii_lower_code(a@[j]) == ascii_lower_code(b@[j]),
        decreases n - i,
    {
        if lower_code(a.get_char(i)) != lower_code(b.get_char(i)) {
            return false;
        }
        i = i + 1;
    }
    true
}

/// The HUD is shown while the settings window previews it, when it is not
/// restricted to the game, or when the game is in the foreground.
pub fn hud_visible(s: &HudSettings, foreground_game: bool) -> (r: bool)
    ensures
        r == (s@.force_hud_visible || !s@.only_show_in_game || foreground_game),
{
    hud::force_hud_visible(s) || !hud::only_show_in_game(s) || foreground_game
}

/// Pending request to end the program.
pub struct QuitRequest {
    requested: bool,
}

impl View for QuitRequest {
    type V = bool;

    closed spec fn view(&self) -> bool {
        self.requested
    }
}

impl QuitRequest {
    pub fn new() -> (r: QuitRequest)
        ensures
            !r@,
    {
        QuitRequest { requested: false }
    }

    /// Returns whether quitting was asked for, and clears the request.
    pub fn take_quit_request(&mut self) -> (r: bool)
        ensures
            r == old(self)@,
            !final(self)@,
    {
        let r = self.requested;
        self.requested = false;
        r
    }
}

/// Asks the application to quit at its next poll.
pub fn quit_app(q: &mut QuitRequest)
    ensures
        final(q)@,
{
    q.requested = true;
}

/// What waiting on the single-instance mutex reported.
#[derive(Clone, Copy, Debug, PartialEq, Eq, Structural)]
pub enum SingletonWait {
    /// The mutex could not be created.
    NoMutex,
    /// This process now owns the mutex.
    Acquired,
    /// The previous owner ended without releasing it; this process owns it now.
    Abandoned,
    /// Another instance holds the mutex.
    TimedOut,
    /// The wait failed.
    Failed,
}

/// What the program does with that answer.
#[derive(Clone, Copy, Debug, PartialEq, Eq, Structural)]
pub enum SingletonAction {
    /// Run, without owning the mutex.
    RunUnguarded,
    /// Run, keeping the mutex and creating the activation event.
    RunAsOwner,
    /// Signal the running instance to show itself, then exit.
    ActivateOther,
}

/// Decides how the program starts given the single-instance mutex. Only an
/// instance that finds the mutex held by another one stays out; every failure
/// of the mechanism lets the program run.
pub fn try_become_singleton(wait: SingletonWait) -> (r: SingletonAction)
    ensures
        r == (match wait {
            SingletonWait::TimedOut => SingletonAction::ActivateOther,
            SingletonWait::Acquired | SingletonWait::Abandoned => SingletonAction::RunAsOwner,
            _ => SingletonAction::RunUnguarded,
        }),
{
    match wait {
        SingletonWait::NoMutex => SingletonAction::RunUnguarded,
        SingletonWait::TimedOut => SingletonAction::ActivateOther,
        SingletonWait::Acquired | SingletonWait::Abandoned => SingletonAction::RunAsOwner,
        SingletonWait::Failed => SingletonAction::RunUnguarded,
    }
}

/// A rectangle given by its four edges, in screen pixels.
#[derive(Clone, Copy, Debug, PartialEq, Eq, Structural)]
pub struct Edges {
    pub left: i32,
    pub top: i32,
    pub right: i32,
    pub bottom: i32,
}

/// Position and size `(x, y, width, height)` of the outer HUD window that
/// makes its client area cover `monitor`, the window frame taking `insets`
/// on each side.
pub open spec fn spec_cover_rect(monitor: Edges, insets: Edges) -> (int, int, int, int) {
    (
        monitor.left - insets.left,
        monitor.top - insets.top,
        (monitor.right - monitor.left) + insets.left + insets.right,
        (monitor.bottom - monitor.top) + insets.top + insets.bottom,
    )
}

pub open spec fn fits_i32(v: int) -> bool {
    i32::MIN <= v <= i32::MAX
}

/// Every intermediate sum of the cover rectangle fits in `i32`.
pub open spec fn cover_rect_fits(monitor: Edges, insets: Edges) -> bool {
    &&& fits_i32(monitor.left - insets.left)
    &&& fits_i32(monitor.top - insets.top)
    &&& fits_i32(monitor.right - monitor.left)
    &&& fits_i32((monitor.right - monitor.left) + insets.left)
    &&& fits_i32((monitor.right - monitor.left) + insets.left + insets.right)
    &&& fits_i32(monitor.bottom - monitor.top)
    &&& fits_i32((monitor.bottom - monitor.top) + insets.top)
    &&& fits_i32((monitor.bottom - monitor.top) + insets.top + insets.bottom)
}

/// The window rectangle that covers the whole monitor once the frame insets
/// are taken back.
pub fn monitor_cover_rect(monitor: Edges, insets: Edges) -> (r: (i32, i32, i32, i32))
    requires
        cover_rect_fits(monitor, insets),
    ensures
        (r.0 as int, r.1 as int, r.2 as int, r.3 as int) == spec_cover_rect(monitor, insets),
{
    (
        monitor.left - insets.left,
        monitor.top - insets.top,
        (monitor.right - monitor.left) + insets.left + insets.right,
        (monitor.bottom - monitor.top) + insets.top + insets.bottom,
    )
}

/// How the HUD window is shown or hidden.
#[derive(Clone, Copy, Debug, PartialEq, Eq, Structural)]
pub enum ShowCommand {
    /// Show it without taking the focus from the game.
    ShowNoActivate,
    Hide,
}

/// The command that makes the HUD window visible or not; `None` while no HUD
/// window has been registered, in which case nothing is done.
pub fn set_hud_visible(hud_window_registered: bool, visible: bool) -> (r: Option<ShowCommand>)
    ensures
        !hud_window_registered ==> r is None,
        hud_window_registered && visible ==> r == Some(ShowCommand::ShowNoActivate),
        hud_window_registered && !visible ==> r == Some(ShowCommand::Hide),
{
    if !hud_window_registered {
        None
    } else if visible {
        Some(ShowCommand::ShowNoActivate)
    } else {
        Some(ShowCommand::Hide)
    }
}

} // verus!
