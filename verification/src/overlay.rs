//! The overlay window: its three modes, whether it is on screen, and what each change does to the
//! window, in order.

use crate::hotkeys::{REQ_INTERACT, REQ_SETTINGS, REQ_VISIBILITY};
use crate::text;
use crate::text::{contains, str_eq};
use vstd::prelude::*;

verus! {

/// How the overlay takes the mouse. Showing and hiding it is a separate matter.
#[derive(Debug, Clone, Copy, PartialEq, Eq, Default, Structural)]
pub enum HudMode {
    /// Clicks pass through to the game.
    #[default]
    Passive,
    /// The widgets take clicks, over a tinted game.
    Interact,
    /// The settings surface takes clicks, with no backdrop.
    Settings,
}

impl HudMode {
    /// Every mode but the passive one takes clicks.
    pub open spec fn captures(self) -> bool {
        self != HudMode::Passive
    }

    /// The mode's wire name.
    pub open spec fn name(self) -> Seq<char> {
        match self {
            HudMode::Passive => "passive"@,
            HudMode::Interact => "interact"@,
            HudMode::Settings => "settings"@,
        }
    }

    /// The mode of a wire name. A name that is not known can only release the mouse.
    pub open spec fn named(s: Seq<char>) -> HudMode {
        if s == "interact"@ {
            HudMode::Interact
        } else if s == "settings"@ {
            HudMode::Settings
        } else {
            HudMode::Passive
        }
    }

    /// Whether the overlay takes clicks in this mode.
    pub fn captures_clicks(self) -> (r: bool)
        ensures
            r == self.captures(),
    {
        !matches!(self, HudMode::Passive)
    }

    /// The mode's wire name.
    pub fn as_str(self) -> (r: &'static str)
        ensures
            r@ == self.name(),
    {
        match self {
            HudMode::Passive => "passive",
            HudMode::Interact => "interact",
            HudMode::Settings => "settings",
        }
    }

    /// The mode of a wire name; `Passive` for any other text.
    pub fn parse(s: &str) -> (r: Self)
        ensures
            r == HudMode::named(s@),
    {
        if str_eq(s, "interact") {
            HudMode::Interact
        } else if str_eq(s, "settings") {
            HudMode::Settings
        } else {
            HudMode::Passive
        }
    }
}

/// The mode after pressing a mode's key: pressing the one it is in leaves it.
pub open spec fn mode_after(current: HudMode, pressed: HudMode) -> HudMode {
    if current == pressed {
        HudMode::Passive
    } else {
        pressed
    }
}

/// The mode after pressing a mode's key: pressing the one it is in returns to `Passive`, and any
/// other is switched to directly.
pub fn next_mode(current: HudMode, pressed: HudMode) -> (r: HudMode)
    ensures
        r == mode_after(current, pressed),
{
    if current == pressed {
        HudMode::Passive
    } else {
        pressed
    }
}

/// What a mode change may do to the foreground.
#[derive(Debug, Clone, Copy, PartialEq, Eq, Structural)]
pub struct FocusPlan {
    /// Whether the overlay may be activated at all.
    pub focusable: bool,
    /// Take the foreground now.
    pub grab: bool,
    /// Hand the foreground back.
    pub release: bool,
}

/// The foreground may be held in a mode that takes clicks, and in no other.
pub open spec fn focus_in(mode: HudMode) -> FocusPlan {
    FocusPlan { focusable: mode.captures(), grab: mode.captures(), release: !mode.captures() }
}

/// What a mode change may do to the foreground. A process that holds the foreground gets no
/// keystrokes through its own keyboard hook, so the overlay holds it only in a mode that takes
/// clicks, and hands it back on leaving one.
pub fn focus_plan(mode: HudMode) -> (r: FocusPlan)
    ensures
        r == (FocusPlan {
            focusable: mode.captures(),
            grab: mode.captures(),
            release: !mode.captures(),
        }),
        r == focus_in(mode),
{
    let capture = mode.captures_clicks();
    FocusPlan { focusable: capture, grab: capture, release: !capture }
}

/// What one press of the visibility key does.
#[derive(Debug, Clone, Copy, PartialEq, Eq, Structural)]
pub struct VisibilityPlan {
    /// Take the window off the screen, rather than put it back.
    pub hide: bool,
    /// Return to `Passive` while hiding: a mode that takes clicks without a window on screen is a
    /// dead end.
    pub drop_to_passive: bool,
    /// Give the window the focus back while showing.
    pub restore_focus: bool,
}

/// What one press of the visibility key does.
pub open spec fn visibility_plan(hide: bool, mode: HudMode) -> VisibilityPlan {
    VisibilityPlan {
        hide,
        drop_to_passive: hide && mode.captures(),
        restore_focus: !hide && mode.captures(),
    }
}

/// What one press of the visibility key does.
pub fn plan_visibility_toggle(hide: bool, mode: HudMode) -> (r: VisibilityPlan)
    ensures
        r == (VisibilityPlan {
            hide,
            drop_to_passive: hide && mode.captures(),
            restore_focus: !hide && mode.captures(),
        }),
        r == visibility_plan(hide, mode),
{
    VisibilityPlan {
        hide,
        drop_to_passive: hide && mode.captures_clicks(),
        restore_focus: !hide && mode.captures_clicks(),
    }
}

/// One act on the window.
#[derive(Debug, Clone, Copy, PartialEq, Eq, Structural)]
pub enum WindowAct {
    /// Allow or forbid that the window is activated.
    SetFocusable(bool),
    /// Note which window holds the foreground, to hand it back later.
    RememberForeground,
    /// Let clicks pass through, or take them. This shows the window, and activates it where that is
    /// allowed.
    SetClickThrough(bool),
    /// Show the window without activating it.
    Show,
    /// Take the foreground.
    Focus,
    /// Hand the foreground back.
    ReleaseForeground,
    /// Hide the window.
    Hide,
    /// Tell the surface which mode it is in.
    EmitMode(HudMode),
}

/// What a change to a mode does, in order. Focusability comes first: the acts that show the window
/// would otherwise activate it.
pub open spec fn mode_acts(mode: HudMode) -> Seq<WindowAct> {
    if mode.captures() {
        seq![
            WindowAct::SetFocusable(true),
            WindowAct::RememberForeground,
            WindowAct::SetClickThrough(false),
            WindowAct::Show,
            WindowAct::Focus,
            WindowAct::EmitMode(mode),
        ]
    } else {
        seq![
            WindowAct::SetFocusable(false),
            WindowAct::SetClickThrough(true),
            WindowAct::ReleaseForeground,
            WindowAct::EmitMode(mode),
        ]
    }
}

/// What one press of the visibility key does, in order. Leaving a mode comes before hiding, since
/// its acts show the window; and a window that is shown again needs its click-through set again.
pub open spec fn visibility_acts(hide: bool, mode: HudMode) -> Seq<WindowAct> {
    if hide {
        if mode.captures() {
            mode_acts(HudMode::Passive).push(WindowAct::Hide)
        } else {
            seq![WindowAct::Hide]
        }
    } else {
        let shown = seq![WindowAct::Show, WindowAct::SetClickThrough(!mode.captures())];
        if mode.captures() {
            shown.push(WindowAct::Focus)
        } else {
            shown
        }
    }
}

/// What the user asked of the overlay: its mode, and whether they hid it.
#[derive(Debug, Clone, Copy, PartialEq, Eq, Structural)]
pub struct OverlayState {
    pub mode: HudMode,
    pub hidden_by_user: bool,
}

impl OverlayState {
    /// A hidden overlay takes no clicks.
    pub open spec fn wf(self) -> bool {
        !(self.hidden_by_user && self.mode.captures())
    }

    /// The state after a change to a mode. One that takes clicks ends a manual hide.
    pub open spec fn in_mode(self, mode: HudMode) -> OverlayState {
        OverlayState { mode, hidden_by_user: self.hidden_by_user && !mode.captures() }
    }

    /// The state after one press of the visibility key. Hiding returns to `Passive`.
    pub open spec fn toggled(self) -> OverlayState {
        OverlayState {
            mode: if self.hidden_by_user {
                self.mode
            } else {
                HudMode::Passive
            },
            hidden_by_user: !self.hidden_by_user,
        }
    }

    /// Passive and not hidden.
    pub fn new() -> (r: Self)
        ensures
            r == (OverlayState { mode: HudMode::Passive, hidden_by_user: false }),
            r.wf(),
    {
        OverlayState { mode: HudMode::Passive, hidden_by_user: false }
    }

    /// Changes to a mode.
    pub fn apply_mode(&mut self, mode: HudMode) -> (r: Vec<WindowAct>)
        ensures
            *final(self) == old(self).in_mode(mode),
            r@ == mode_acts(mode),
            old(self).wf() ==> final(self).wf(),
    {
        let plan = focus_plan(mode);
        let capture = mode.captures_clicks();
        self.mode = mode;
        if capture {
            self.hidden_by_user = false;
        }
        let mut acts: Vec<WindowAct> = Vec::new();
        acts.push(WindowAct::SetFocusable(plan.focusable));
        if plan.grab {
            acts.push(WindowAct::RememberForeground);
        }
        acts.push(WindowAct::SetClickThrough(!capture));
        if plan.grab {
            acts.push(WindowAct::Show);
            acts.push(WindowAct::Focus);
        }
        if plan.release {
            acts.push(WindowAct::ReleaseForeground);
        }
        acts.push(WindowAct::EmitMode(mode));
        assert(acts@ =~= mode_acts(mode));
        acts
    }

    /// One press of a mode's key.
    pub fn toggle_mode(&mut self, pressed: HudMode) -> (r: Vec<WindowAct>)
        ensures
            *final(self) == old(self).in_mode(mode_after(old(self).mode, pressed)),
            r@ == mode_acts(mode_after(old(self).mode, pressed)),
            old(self).wf() ==> final(self).wf(),
    {
        let mode = next_mode(self.mode, pressed);
        self.apply_mode(mode)
    }

    /// One press of the visibility key.
    pub fn toggle_visibility(&mut self) -> (r: Vec<WindowAct>)
        ensures
            *final(self) == old(self).toggled(),
            r@ == visibility_acts(!old(self).hidden_by_user, old(self).mode),
            old(self).wf() ==> final(self).wf(),
    {
        let hide = !self.hidden_by_user;
        self.hidden_by_user = hide;
        let mode = self.mode;
        let plan = plan_visibility_toggle(hide, mode);
        let mut acts: Vec<WindowAct> = if plan.drop_to_passive {
            self.apply_mode(HudMode::Passive)
        } else {
            Vec::new()
        };
        if plan.hide {
            acts.push(WindowAct::Hide);
        } else {
            acts.push(WindowAct::Show);
            acts.push(WindowAct::SetClickThrough(!mode.captures_clicks()));
            if plan.restore_focus {
                acts.push(WindowAct::Focus);
            }
        }
        assert(acts@ =~= visibility_acts(hide, mode));
        acts
    }

    /// Acts on a hotkey request; one that is not known does nothing.
    pub fn press(&mut self, req: u8) -> (r: Vec<WindowAct>)
        ensures
            *final(self) == old(self).pressed(req),
            r@ == old(self).press_acts(req),
            old(self).wf() ==> final(self).wf(),
    {
        if req == REQ_INTERACT {
            self.toggle_mode(HudMode::Interact)
        } else if req == REQ_SETTINGS {
            self.toggle_mode(HudMode::Settings)
        } else if req == REQ_VISIBILITY {
            self.toggle_visibility()
        } else {
            Vec::new()
        }
    }

    /// The state after a hotkey request.
    pub open spec fn pressed(self, req: u8) -> OverlayState {
        if req == REQ_INTERACT {
            self.in_mode(mode_after(self.mode, HudMode::Interact))
        } else if req == REQ_SETTINGS {
            self.in_mode(mode_after(self.mode, HudMode::Settings))
        } else if req == REQ_VISIBILITY {
            self.toggled()
        } else {
            self
        }
    }

    /// What a hotkey request does to the window.
    pub open spec fn press_acts(self, req: u8) -> Seq<WindowAct> {
        if req == REQ_INTERACT {
            mode_acts(mode_after(self.mode, HudMode::Interact))
        } else if req == REQ_SETTINGS {
            mode_acts(mode_after(self.mode, HudMode::Settings))
        } else if req == REQ_VISIBILITY {
            visibility_acts(!self.hidden_by_user, self.mode)
        } else {
            Seq::empty()
        }
    }
}

/// The window that held the foreground before the overlay took it; 0 when there is none to restore.
#[derive(Debug, Clone, Copy, PartialEq, Eq, Structural)]
pub struct Foreground {
    pub previous: isize,
}

/// The window that is remembered after the foreground was looked at.
pub open spec fn remembered(previous: isize, foreground: isize, ours: isize) -> isize {
    if foreground != 0 && foreground != ours {
        foreground
    } else {
        previous
    }
}

/// The window to hand the foreground back to, and the one that is remembered then.
pub open spec fn released(previous: isize, foreground: isize, ours: isize) -> (
    Option<isize>,
    isize,
) {
    if foreground != ours {
        (None, previous)
    } else if previous != 0 && previous != ours {
        (Some(previous), 0)
    } else {
        (None, 0)
    }
}

impl Foreground {
    /// Notes the foreground window, unless it is the overlay itself: going from one mode that takes
    /// clicks to another must not forget the game.
    pub fn remember(&mut self, foreground: isize, ours: isize)
        ensures
            final(self).previous == if foreground != 0 && foreground != ours {
                foreground
            } else {
                old(self).previous
            },
            final(self).previous == remembered(old(self).previous, foreground, ours),
    {
        if foreground != 0 && foreground != ours {
            self.previous = foreground;
        }
    }

    /// The window to hand the foreground back to. Only the one who holds it hands it back, and only
    /// once.
    pub fn release(&mut self, foreground: isize, ours: isize) -> (r: Option<isize>)
        ensures
            foreground != ours ==> r is None && final(self).previous == old(self).previous,
            foreground == ours ==> {
                &&& final(self).previous == 0
                &&& r == if old(self).previous != 0 && old(self).previous != ours {
                    Some(old(self).previous)
                } else {
                    None
                }
            },
            (r, final(self).previous) == released(old(self).previous, foreground, ours),
    {
        if foreground != ours {
            return None;
        }
        let previous: isize = self.previous;
        self.previous = 0;
        if previous != 0 && previous != ours {
            Some(previous)
        } else {
            None
        }
    }
}

/// A window title is the game's.
pub open spec fn game_title(title: Seq<char>) -> bool {
    text::occurs(title, "Star Citizen"@)
}

/// A window title is the overlay's own.
pub open spec fn overlay_title(title: Seq<char>) -> bool {
    text::occurs(title, "StarPlatform HUD"@)
}

/// Whether a window title is the game's.
pub fn title_is_star_citizen(title: &str) -> (r: bool)
    ensures
        r == text::occurs(title@, "Star Citizen"@),
        r == game_title(title@),
{
    contains(title, "Star Citizen")
}

/// Whether a window title is the overlay's own.
pub fn title_is_overlay(title: &str) -> (r: bool)
    ensures
        r == text::occurs(title@, "StarPlatform HUD"@),
        r == overlay_title(title@),
{
    contains(title, "StarPlatform HUD")
}

/// Whether the game holds the foreground, by the title of the foreground window.
pub fn foreground_is_star_citizen(title: Option<&str>) -> (r: bool)
    ensures
        r == (title matches Some(t) && text::occurs(t@, "Star Citizen"@)),
        r == (title matches Some(t) && game_title(t@)),
{
    match title {
        Some(t) => title_is_star_citizen(t),
        None => false,
    }
}

/// Whether the overlay itself holds the foreground, by the title of the foreground window.
pub fn foreground_is_overlay(title: Option<&str>) -> (r: bool)
    ensures
        r == (title matches Some(t) && text::occurs(t@, "StarPlatform HUD"@)),
        r == (title matches Some(t) && overlay_title(t@)),
{
    match title {
        Some(t) => title_is_overlay(t),
        None => false,
    }
}

/// How many ticks the game must be gone before the overlay hides. A single bad reading of the
/// foreground must not make it vanish.
pub const HIDE_AFTER: u8 = 4;

/// A reason to have the overlay on screen. A manual hide outranks every other.
pub open spec fn wanted(
    hidden_by_user: bool,
    mode: HudMode,
    auto_hide: bool,
    fg_is_game: bool,
    fg_is_overlay: bool,
) -> bool {
    !hidden_by_user && (mode.captures() || !auto_hide || fg_is_game || fg_is_overlay)
}

/// Whether the overlay is on screen after a tick, and for how many ticks there was no reason to.
pub open spec fn visibility_after(
    prev_shown: bool,
    hidden_by_user: bool,
    want: bool,
    gone_ticks: u8,
) -> (bool, u8) {
    if want {
        (true, 0)
    } else {
        let ticks = if gone_ticks < u8::MAX {
            (gone_ticks + 1) as u8
        } else {
            u8::MAX
        };
        (prev_shown && !hidden_by_user && ticks < HIDE_AFTER, ticks)
    }
}

/// Whether the overlay should be on screen after this tick, and the new number of ticks for which
/// there was no reason to. Showing is immediate, hiding waits [`HIDE_AFTER`] ticks, and a manual
/// hide does not wait. `prev_shown` is read off the window, never remembered.
pub fn next_visibility(
    prev_shown: bool,
    hidden_by_user: bool,
    mode: HudMode,
    auto_hide: bool,
    fg_is_game: bool,
    fg_is_overlay: bool,
    gone_ticks: u8,
) -> (r: (bool, u8))
    ensures
        r == visibility_after(
            prev_shown,
            hidden_by_user,
            wanted(hidden_by_user, mode, auto_hide, fg_is_game, fg_is_overlay),
            gone_ticks,
        ),
{
    let want = !hidden_by_user && (mode.captures_clicks() || !auto_hide || fg_is_game
        || fg_is_overlay);
    if want {
        return (true, 0);
    }
    let ticks: u8 = gone_ticks.saturating_add(1);
    if hidden_by_user || ticks >= HIDE_AFTER {
        (false, ticks)
    } else {
        (prev_shown, ticks)
    }
}

/// What puts a window that is or is not on screen where it should be. One that is shown again needs
/// its click-through set again.
pub open spec fn tick_acts(visible: bool, shown: bool, mode: HudMode) -> Seq<WindowAct> {
    if shown && !visible {
        seq![WindowAct::Show, WindowAct::SetClickThrough(!mode.captures())]
    } else if !shown && visible {
        seq![WindowAct::Hide]
    } else {
        Seq::empty()
    }
}

/// Watches the foreground and keeps the overlay on screen only while there is a reason to.
#[derive(Debug, Clone, Copy, PartialEq, Eq, Structural)]
pub struct FocusWatcher {
    /// For how many ticks there was no reason to show the overlay.
    pub gone_ticks: u8,
}

impl FocusWatcher {
    /// One tick, given the live state of the window and the foreground: what to do to the window. A
    /// window that is shown again needs its click-through set again.
    pub fn tick(
        &mut self,
        visible: bool,
        state: OverlayState,
        auto_hide: bool,
        fg_is_game: bool,
        fg_is_overlay: bool,
    ) -> (r: Vec<WindowAct>)
        ensures
            ({
                let next = visibility_after(
                    visible,
                    state.hidden_by_user,
                    wanted(state.hidden_by_user, state.mode, auto_hide, fg_is_game, fg_is_overlay),
                    old(self).gone_ticks,
                );
                &&& final(self).gone_ticks == next.1
                &&& r@ == tick_acts(visible, next.0, state.mode)
                &&& r@ == if next.0 && !visible {
                    seq![WindowAct::Show, WindowAct::SetClickThrough(!state.mode.captures())]
                } else if !next.0 && visible {
                    seq![WindowAct::Hide]
                } else {
                    Seq::empty()
                }
            }),
    {
        let (want_shown, ticks) = next_visibility(
            visible,
            state.hidden_by_user,
            state.mode,
            auto_hide,
            fg_is_game,
            fg_is_overlay,
            self.gone_ticks,
        );
        self.gone_ticks = ticks;
        let mut acts: Vec<WindowAct> = Vec::new();
        if want_shown && !visible {
            acts.push(WindowAct::Show);
            acts.push(WindowAct::SetClickThrough(!state.mode.captures_clicks()));
        } else if !want_shown && visible {
            acts.push(WindowAct::Hide);
        }
        acts
    }
}

/// Whether clicks should pass through an overlay, if it is on screen.
pub open spec fn hover_plan(visible: bool, mode: HudMode, over_control: bool) -> Option<bool> {
    if visible {
        Some(!(mode.captures() || over_control))
    } else {
        None
    }
}

/// Whether clicks should pass through a visible overlay, given whether the cursor is over one of
/// its controls. A hidden overlay is left alone.
pub fn hover_click_through(visible: bool, mode: HudMode, over_control: bool) -> (r: Option<bool>)
    ensures
        r == if visible {
            Some(!(mode.captures() || over_control))
        } else {
            None
        },
        r == hover_plan(visible, mode, over_control),
{
    if !visible {
        return None;
    }
    let capture = mode.captures_clicks();
    let over = !capture && over_control;
    Some(!(capture || over))
}

/// A mode's name reads back as the mode, and only the names of modes that take clicks do.
pub proof fn law_mode_names(mode: HudMode, s: Seq<char>)
    ensures
        HudMode::named(mode.name()) == mode,
        HudMode::named(s).captures() ==> HudMode::named(s).name() == s,
{
    reveal_strlit("passive");
    reveal_strlit("interact");
    reveal_strlit("settings");
    assert("passive"@[0] != "interact"@[0]);
    assert("passive"@[0] != "settings"@[0]);
    assert("interact"@[0] != "settings"@[0]);
}

/// A mode's key switches between that mode and `Passive`, and reaches its mode from any other.
pub proof fn law_mode_key_toggles(current: HudMode, pressed: HudMode)
    requires
        pressed.captures(),
    ensures
        (mode_after(current, pressed) == pressed) == (current != pressed),
        mode_after(pressed, pressed) == HudMode::Passive,
        mode_after(mode_after(HudMode::Passive, pressed), pressed) == HudMode::Passive,
        mode_after(current, pressed) == HudMode::Passive || mode_after(current, pressed)
            == pressed,
{
}

/// One act always leads out: asking for the passive mode by its name returns to it from any mode, and
/// so does pressing a mode's own key. Hiding outlasts neither: entering a mode shows the overlay.
pub proof fn law_always_a_way_out(state: OverlayState)
    ensures
        state.in_mode(HudMode::named("passive"@)).mode == HudMode::Passive,
        state.in_mode(mode_after(state.mode, state.mode)).mode == HudMode::Passive,
        forall|mode: HudMode| mode.captures() ==> !(#[trigger] state.in_mode(mode)).hidden_by_user,
{
    law_mode_names(HudMode::Passive, "passive"@);
}

/// The state after a run of hotkey requests.
pub open spec fn pressed_all(state: OverlayState, reqs: Seq<u8>) -> OverlayState
    decreases reqs.len(),
{
    if reqs.len() == 0 {
        state
    } else {
        pressed_all(state, reqs.drop_last()).pressed(reqs.last())
    }
}

/// Whatever is pressed, the overlay is never hidden and taking clicks at once.
pub proof fn law_never_hidden_and_capturing(state: OverlayState, reqs: Seq<u8>)
    requires
        state.wf(),
    ensures
        pressed_all(state, reqs).wf(),
    decreases reqs.len(),
{
    if reqs.len() > 0 {
        law_never_hidden_and_capturing(state, reqs.drop_last());
    }
}

/// Hiding and showing again ends in `Passive` on screen, whatever the mode was.
pub proof fn law_hide_then_show(state: OverlayState)
    requires
        state.wf(),
        !state.hidden_by_user,
    ensures
        state.toggled().toggled() == (OverlayState {
            mode: HudMode::Passive,
            hidden_by_user: false,
        }),
{
}

/// The foreground is taken exactly on entering a mode that takes clicks and handed back exactly on
/// leaving for `Passive`; whether the window may be activated is settled before anything that could
/// activate it.
pub proof fn law_mode_change_and_foreground(mode: HudMode)
    ensures
        mode_acts(mode)[0] == WindowAct::SetFocusable(mode.captures()),
        mode_acts(mode).contains(WindowAct::Focus) == mode.captures(),
        mode_acts(mode).contains(WindowAct::ReleaseForeground) == !mode.captures(),
        mode_acts(mode).contains(WindowAct::RememberForeground) == mode.captures(),
        mode_acts(mode).contains(WindowAct::SetClickThrough(!mode.captures())),
        !mode_acts(mode).contains(WindowAct::SetClickThrough(mode.captures())),
        mode_acts(mode).last() == WindowAct::EmitMode(mode),
{
    let acts = mode_acts(mode);
    if mode.captures() {
        assert(acts[1] == WindowAct::RememberForeground);
        assert(acts[2] == WindowAct::SetClickThrough(false));
        assert(acts[4] == WindowAct::Focus);
    } else {
        assert(acts[1] == WindowAct::SetClickThrough(true));
        assert(acts[2] == WindowAct::ReleaseForeground);
    }
}

/// Hiding comes last: nothing that shows the window follows it, and showing never hides. Showing a
/// passive overlay takes no focus.
pub proof fn law_hide_is_last(hide: bool, mode: HudMode)
    ensures
        hide ==> visibility_acts(hide, mode).last() == WindowAct::Hide,
        hide ==> !visibility_acts(hide, mode).drop_last().contains(WindowAct::Hide),
        !hide ==> !visibility_acts(hide, mode).contains(WindowAct::Hide),
        !hide ==> visibility_acts(hide, mode)[0] == WindowAct::Show,
        !mode.captures() ==> !visibility_acts(hide, mode).contains(WindowAct::Focus),
{
}

/// A manual hide takes effect at once and holds against every reason to show; without one, a mode
/// that takes clicks is always on screen.
pub proof fn law_manual_hide_wins(
    prev_shown: bool,
    mode: HudMode,
    auto_hide: bool,
    fg_is_game: bool,
    fg_is_overlay: bool,
    gone_ticks: u8,
)
    ensures
        !visibility_after(
            prev_shown,
            true,
            wanted(true, mode, auto_hide, fg_is_game, fg_is_overlay),
            gone_ticks,
        ).0,
        mode.captures() ==> visibility_after(
            prev_shown,
            false,
            wanted(false, mode, auto_hide, fg_is_game, fg_is_overlay),
            gone_ticks,
        ).0,
{
}

/// The watcher's state after a run of ticks with no reason to show the overlay, starting from when
/// there last was one. `shown` says whether the window is on screen before each tick.
pub open spec fn gone_for(n: nat, shown: bool) -> (bool, u8)
    decreases n,
{
    if n == 0 {
        (shown, 0)
    } else {
        visibility_after(shown, false, false, gone_for((n - 1) as nat, shown).1)
    }
}

/// Without a reason to show it, the overlay stays as it is for fewer than [`HIDE_AFTER`] ticks and
/// is off the screen from then on, even where it was shown by hand in between.
pub proof fn law_hiding_waits(n: nat, shown: bool)
    ensures
        gone_for(n, shown).0 == (shown && n < HIDE_AFTER),
        n <= u8::MAX ==> gone_for(n, shown).1 == n,
        n > u8::MAX ==> gone_for(n, shown).1 == u8::MAX,
    decreases n,
{
    if n > 0 {
        law_hiding_waits((n - 1) as nat, shown);
    }
}

/// After a press of a mode's key the overlay is in that mode if it was in any other, and passive if
/// it was in that one. The surface is told just that mode, and last. Entering a mode shows a hidden
/// overlay; leaving one hides nothing.
pub proof fn law_mode_key(state: OverlayState, req: u8, mode: HudMode)
    requires
        (req == REQ_INTERACT && mode == HudMode::Interact) || (req == REQ_SETTINGS && mode
            == HudMode::Settings),
    ensures
        state.mode != mode ==> state.pressed(req).mode == mode,
        state.mode == mode ==> state.pressed(req).mode == HudMode::Passive,
        state.mode != mode ==> !state.pressed(req).hidden_by_user,
        state.mode == mode ==> state.pressed(req).hidden_by_user == state.hidden_by_user,
        state.press_acts(req).len() > 0,
        state.press_acts(req).last() == WindowAct::EmitMode(state.pressed(req).mode),
        state.press_acts(req) == mode_acts(state.pressed(req).mode),
{
}

/// After a press of the visibility key the overlay is hidden exactly if it was not. Hiding leaves any
/// mode; showing keeps the mode. Any other request changes nothing and does nothing.
pub proof fn law_visibility_key(state: OverlayState, req: u8)
    ensures
        state.pressed(REQ_VISIBILITY).hidden_by_user == !state.hidden_by_user,
        !state.hidden_by_user ==> state.pressed(REQ_VISIBILITY).mode == HudMode::Passive,
        state.hidden_by_user ==> state.pressed(REQ_VISIBILITY).mode == state.mode,
        req != REQ_INTERACT && req != REQ_SETTINGS && req != REQ_VISIBILITY ==> state.pressed(req)
            == state && state.press_acts(req).len() == 0,
{
}

/// What can be seen of the window.
pub struct WindowView {
    pub visible: bool,
    pub click_through: bool,
    pub focusable: bool,
    /// The mode that the surface was last told.
    pub told: HudMode,
}

/// The window after one act.
pub open spec fn acted(w: WindowView, act: WindowAct) -> WindowView {
    match act {
        WindowAct::SetFocusable(on) => WindowView { focusable: on, ..w },
        WindowAct::SetClickThrough(on) => WindowView { click_through: on, visible: true, ..w },
        WindowAct::Show => WindowView { visible: true, ..w },
        WindowAct::Hide => WindowView { visible: false, ..w },
        WindowAct::EmitMode(mode) => WindowView { told: mode, ..w },
        _ => w,
    }
}

/// The window after a run of acts.
pub open spec fn acted_all(w: WindowView, acts: Seq<WindowAct>) -> WindowView
    decreases acts.len(),
{
    if acts.len() == 0 {
        w
    } else {
        acted(acted_all(w, acts.drop_last()), acts.last())
    }
}

/// The window is as a state wants it: clicks pass through exactly in the passive mode, the window
/// may be activated exactly in the others, and the surface knows the mode.
pub open spec fn agrees(w: WindowView, mode: HudMode) -> bool {
    &&& w.click_through == (mode == HudMode::Passive)
    &&& w.focusable == (mode == HudMode::Interact || mode == HudMode::Settings)
    &&& w.told == mode
}

/// A change to a mode brings the window to that mode, whatever it was before, and on screen.
pub proof fn law_window_follows_mode(w: WindowView, state: OverlayState, mode: HudMode)
    ensures
        agrees(acted_all(w, mode_acts(mode)), mode),
        acted_all(w, mode_acts(mode)).visible,
        state.in_mode(mode).mode == mode,
        mode != HudMode::Passive ==> !state.in_mode(mode).hidden_by_user,
        mode == HudMode::Passive ==> state.in_mode(mode).hidden_by_user == state.hidden_by_user,
{
    reveal_with_fuel(acted_all, 8);
}

/// A window that agrees with the state still does after any press, and is then on screen exactly if
/// the overlay is not hidden.
pub proof fn law_window_follows_press(w: WindowView, state: OverlayState, req: u8)
    requires
        state.wf(),
        agrees(w, state.mode),
    ensures
        agrees(acted_all(w, state.press_acts(req)), state.pressed(req).mode),
        req == REQ_INTERACT || req == REQ_SETTINGS || req == REQ_VISIBILITY ==> acted_all(
            w,
            state.press_acts(req),
        ).visible == !state.pressed(req).hidden_by_user,
        state.press_acts(req).contains(WindowAct::Focus) ==> state.pressed(req).mode.captures(),
{
    reveal_with_fuel(acted_all, 8);
    let acts = state.press_acts(req);
    if acts.contains(WindowAct::Focus) {
        let i = choose|i: int| 0 <= i < acts.len() && acts[i] == WindowAct::Focus;
        assert(acts[i] == WindowAct::Focus);
    }
}

/// A tick leaves the window on screen exactly if it should be, sets the click-through of one it
/// shows, and touches nothing where there is nothing to do.
pub proof fn law_tick_shows_or_hides(w: WindowView, shown: bool, mode: HudMode)
    ensures
        acted_all(w, tick_acts(w.visible, shown, mode)).visible == shown,
        shown && !w.visible ==> acted_all(w, tick_acts(w.visible, shown, mode)).click_through == (
        mode == HudMode::Passive),
        shown == w.visible ==> tick_acts(w.visible, shown, mode).len() == 0,
        acted_all(w, tick_acts(w.visible, shown, mode)).focusable == w.focusable,
        acted_all(w, tick_acts(w.visible, shown, mode)).told == w.told,
{
    reveal_with_fuel(acted_all, 4);
}

/// Unless the user hid it, the overlay is on screen with the counter at zero after every tick on
/// which auto-hide is off, the game or the overlay holds the foreground, or a mode takes clicks. It
/// goes only when none of these holds, and then only once that was so for four ticks; a tick never
/// brings it back without one of them.
pub proof fn law_reasons_to_be_on_screen(
    prev_shown: bool,
    hidden_by_user: bool,
    mode: HudMode,
    auto_hide: bool,
    fg_is_game: bool,
    fg_is_overlay: bool,
    gone_ticks: u8,
)
    ensures
        ({
            let next = visibility_after(
                prev_shown,
                hidden_by_user,
                wanted(hidden_by_user, mode, auto_hide, fg_is_game, fg_is_overlay),
                gone_ticks,
            );
            let idle = auto_hide && mode == HudMode::Passive && !fg_is_game && !fg_is_overlay;
            &&& !hidden_by_user && !auto_hide ==> next.0 && next.1 == 0
            &&& !hidden_by_user && fg_is_game ==> next.0 && next.1 == 0
            &&& !hidden_by_user && fg_is_overlay ==> next.0 && next.1 == 0
            &&& !hidden_by_user && mode != HudMode::Passive ==> next.0 && next.1 == 0
            &&& !hidden_by_user && idle ==> next.0 == (prev_shown && gone_ticks < 3)
            &&& hidden_by_user ==> !next.0
            &&& hidden_by_user || idle ==> next.1 == (if gone_ticks < 255 {
                gone_ticks + 1
            } else {
                255
            })
            &&& prev_shown && !next.0 && !hidden_by_user ==> idle
            &&& !prev_shown && next.0 ==> !hidden_by_user && !idle
        }),
{
}

/// Both modes but the passive one take clicks, each mode has its own name, and only those names
/// lead to a mode that takes clicks.
pub proof fn law_modes(mode: HudMode, s: Seq<char>)
    ensures
        mode.captures() == (mode == HudMode::Interact || mode == HudMode::Settings),
        (HudMode::named(s) == HudMode::Interact) == (s == "interact"@),
        (HudMode::named(s) == HudMode::Settings) == (s == "settings"@),
        s != "interact"@ && s != "settings"@ ==> HudMode::named(s) == HudMode::Passive,
        mode == HudMode::Passive ==> mode.name() == "passive"@,
{
    law_mode_names(HudMode::Interact, s);
    law_mode_names(HudMode::Settings, s);
}

/// The overlay may hold the foreground exactly in a mode that takes clicks: such a mode takes it and
/// hands nothing back, and the passive one does the reverse. Hiding drops a mode, and only showing
/// restores the focus.
pub proof fn law_focus_only_while_capturing(hide: bool, mode: HudMode)
    ensures
        focus_in(mode).focusable == (mode != HudMode::Passive),
        focus_in(mode).grab == (mode != HudMode::Passive),
        focus_in(mode).release == (mode == HudMode::Passive),
        visibility_plan(hide, mode).hide == hide,
        visibility_plan(hide, mode).drop_to_passive == (hide && mode != HudMode::Passive),
        visibility_plan(hide, mode).restore_focus == (!hide && mode != HudMode::Passive),
{
}

/// Clicks pass through a visible overlay exactly in the passive mode off its controls.
pub proof fn law_hover(visible: bool, mode: HudMode, over_control: bool)
    ensures
        hover_plan(visible, mode, over_control) is Some == visible,
        visible ==> hover_plan(visible, mode, over_control) == Some(
            mode == HudMode::Passive && !over_control,
        ),
{
}

/// The game gets the foreground back: what was in front when the overlay took it is what it is
/// handed to, once, and only by an overlay that still holds it. Taking it again while the overlay is
/// in front forgets nothing.
pub proof fn law_foreground_returns(previous: isize, game: isize, ours: isize, other: isize)
    requires
        game != 0,
        game != ours,
    ensures
        ({
            let kept = remembered(remembered(previous, game, ours), ours, ours);
            &&& kept == game
            &&& released(kept, ours, ours) == (Some(game), 0isize)
            &&& released(0, ours, ours).0 is None
            &&& remembered(previous, 0, ours) == previous
            &&& other != ours ==> released(kept, other, ours) == (None::<isize>, game)
            &&& released(previous, ours, ours).0 != Some(ours)
        }),
        ours != 0 ==> released(ours, ours, ours).0 is None,
{
}

/// A title is the game's, or the overlay's, wherever in it the name stands, and one that is too short
/// for the name is neither.
pub proof fn law_titles(before: Seq<char>, after: Seq<char>, title: Seq<char>)
    ensures
        game_title(before + "Star Citizen"@ + after),
        overlay_title(before + "StarPlatform HUD"@ + after),
        title.len() < "Star Citizen"@.len() ==> !game_title(title),
        title.len() < "StarPlatform HUD"@.len() ==> !overlay_title(title),
{
    text::law_occurs(title, "Star Citizen"@, before, after);
    text::law_occurs(title, "StarPlatform HUD"@, before, after);
}

/// The visibility key takes the window off the screen or puts it there, as it says. One that is put
/// there has the click-through of its mode, and the focus exactly in a mode that takes clicks.
pub proof fn law_window_follows_visibility(w: WindowView, hide: bool, mode: HudMode)
    ensures
        ({
            let acts = visibility_acts(hide, mode);
            &&& acted_all(w, acts).visible == !hide
            &&& !hide ==> acted_all(w, acts).click_through == (mode == HudMode::Passive)
            &&& !hide ==> acts.contains(WindowAct::Focus) == (mode != HudMode::Passive)
            &&& hide && mode != HudMode::Passive ==> agrees(acted_all(w, acts), HudMode::Passive)
            &&& !hide || mode == HudMode::Passive ==> acted_all(w, acts).told == w.told
        }),
{
    reveal_with_fuel(acted_all, 8);
    let acts = visibility_acts(hide, mode);
    if !hide && mode != HudMode::Passive {
        assert(acts[2] == WindowAct::Focus);
    }
}

/// The acts of a mode change come in an order that takes nothing from the game by accident: whether
/// the window may be activated comes first, the game is remembered before anything that could take
/// the foreground, the foreground is taken only by a window on screen, and the surface is told last.
pub proof fn law_mode_acts_in_order(mode: HudMode, i: int, j: int)
    requires
        0 <= i < mode_acts(mode).len(),
        0 <= j < mode_acts(mode).len(),
    ensures
        ({
            let acts = mode_acts(mode);
            &&& acts[i] is SetFocusable <==> i == 0
            &&& acts[i] is EmitMode <==> i == acts.len() - 1
            &&& acts[i] is RememberForeground && (acts[j] is SetClickThrough || acts[j] is Show
                || acts[j] is Focus) ==> i < j
            &&& acts[i] is Show && acts[j] is Focus ==> i < j
            &&& acts[i] is SetClickThrough && acts[j] is ReleaseForeground ==> i < j
            &&& acts[i] == acts[j] ==> i == j
            &&& !(acts[i] is Hide)
            &&& mode != HudMode::Passive ==> acts.len() == 6 && acts.contains(WindowAct::Show)
            &&& mode == HudMode::Passive ==> acts.len() == 4
        }),
{
    let acts = mode_acts(mode);
    if mode != HudMode::Passive {
        assert(acts[3] == WindowAct::Show);
    }
}

} // verus!
