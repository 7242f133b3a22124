use hud::hotkeys::{REQ_INTERACT, REQ_NONE, REQ_SETTINGS, REQ_VISIBILITY};
use hud::overlay::{
    focus_plan, foreground_is_overlay, foreground_is_star_citizen, hover_click_through, next_mode,
    next_visibility, plan_visibility_toggle, title_is_overlay, title_is_star_citizen, FocusWatcher,
    Foreground, HudMode, OverlayState, WindowAct, HIDE_AFTER,
};

#[test]
fn only_passive_mode_lets_clicks_through() {
    assert!(!HudMode::Passive.captures_clicks());
    assert!(HudMode::Interact.captures_clicks());
    assert!(HudMode::Settings.captures_clicks());
    assert_eq!(HudMode::default(), HudMode::Passive, "boot must be passive");
    for m in [HudMode::Passive, HudMode::Interact, HudMode::Settings] {
        assert_eq!(HudMode::parse(m.as_str()), m);
    }
    assert_eq!(
        HudMode::parse("arrange"),
        HudMode::Passive,
        "an unrecognised mode must release the mouse"
    );
}

#[test]
fn a_mode_hotkey_toggles_its_own_mode_and_switches_between_the_others() {
    for m in [HudMode::Interact, HudMode::Settings] {
        assert_eq!(next_mode(m, m), HudMode::Passive, "{m:?} must toggle itself off");
        assert_eq!(next_mode(HudMode::Passive, m), m, "and back on from passive");
    }
    assert_eq!(
        next_mode(HudMode::Settings, HudMode::Interact),
        HudMode::Interact
    );
    assert_eq!(
        next_mode(HudMode::Interact, HudMode::Settings),
        HudMode::Settings
    );
}

#[test]
fn overlay_shows_while_the_game_or_the_overlay_itself_is_focused() {
    assert_eq!(
        next_visibility(true, false, HudMode::Passive, true, true, false, 3),
        (true, 0)
    );
    assert_eq!(
        next_visibility(true, false, HudMode::Passive, true, false, true, 3),
        (true, 0)
    );
    for m in [HudMode::Interact, HudMode::Settings] {
        assert_eq!(
            next_visibility(false, false, m, true, false, false, 0),
            (true, 0),
            "{m:?} must keep the overlay on screen even with the game unfocused"
        );
    }
    assert_eq!(
        next_visibility(false, false, HudMode::Passive, false, false, false, 0),
        (true, 0)
    );
}

#[test]
fn auto_hide_waits_for_the_debounce_then_hides() {
    let mut shown = true;
    let mut ticks = 0u8;
    for expect in 1..HIDE_AFTER {
        let (s, t) = next_visibility(shown, false, HudMode::Passive, true, false, false, ticks);
        shown = s;
        ticks = t;
        assert_eq!(
            (shown, ticks),
            (true, expect),
            "must still be shown at tick {expect}"
        );
    }
    let (s, t) = next_visibility(shown, false, HudMode::Passive, true, false, false, ticks);
    assert_eq!(
        (s, t),
        (false, HIDE_AFTER),
        "the {HIDE_AFTER}th gone tick hides"
    );
}

#[test]
fn a_manual_hide_outranks_every_show_reason_and_skips_the_debounce() {
    for (mode, auto_hide, game, overlay) in [
        (HudMode::Passive, true, true, false),
        (HudMode::Interact, true, true, true),
        (HudMode::Interact, false, false, false),
        (HudMode::Settings, true, true, true),
        (HudMode::Settings, false, false, false),
    ] {
        let (shown, ticks) = next_visibility(true, true, mode, auto_hide, game, overlay, 0);
        assert!(
            !shown,
            "a manual hide must win over mode={mode:?} game={game}"
        );
        assert_eq!(ticks, 1, "on the very first tick, with no debounce");
    }
}

#[test]
fn a_manually_reshown_overlay_can_still_be_auto_hidden() {
    let mut shown = true;
    let mut ticks = 0u8;
    for _ in 0..HIDE_AFTER {
        let (s, t) = next_visibility(shown, false, HudMode::Passive, true, false, false, ticks);
        shown = s;
        ticks = t;
    }
    assert!(!shown);
}

#[test]
fn hiding_drops_to_passive_from_every_mode_and_unhiding_restores_focus() {
    for mode in [HudMode::Interact, HudMode::Settings] {
        let hide = plan_visibility_toggle(true, mode);
        assert!(hide.hide);
        assert!(
            hide.drop_to_passive,
            "hiding while in {mode:?} must drop to passive"
        );
        let unhide = plan_visibility_toggle(false, mode);
        assert!(!unhide.hide);
        assert!(
            unhide.restore_focus,
            "an un-hide back into {mode:?} must re-focus the window or Esc stays dead"
        );
    }
    assert!(
        !plan_visibility_toggle(true, HudMode::Passive).drop_to_passive,
        "nothing to leave"
    );
    assert!(
        !plan_visibility_toggle(false, HudMode::Passive).restore_focus,
        "passive display never grabs focus"
    );
}

#[test]
fn passive_mode_never_holds_the_os_foreground() {
    let passive = focus_plan(HudMode::Passive);
    assert!(!passive.focusable);
    assert!(!passive.grab, "passive must never take the foreground");
    assert!(passive.release);

    for mode in [HudMode::Interact, HudMode::Settings] {
        let plan = focus_plan(mode);
        assert!(plan.focusable && plan.grab);
        assert!(!plan.release);
    }

    for mode in [HudMode::Passive, HudMode::Interact, HudMode::Settings] {
        let plan = focus_plan(mode);
        assert_ne!(
            plan.grab, plan.release,
            "{mode:?} must either take the foreground or give it back, never both or neither"
        );
        assert_eq!(plan.focusable, mode.captures_clicks());
    }
}

#[test]
fn apply_mode_applies_focusability_before_it_shows_the_window() {
    for mode in [HudMode::Passive, HudMode::Interact, HudMode::Settings] {
        let mut state = OverlayState::new();
        let acts = state.apply_mode(mode);
        let plan = focus_plan(mode);
        assert_eq!(acts[0], WindowAct::SetFocusable(plan.focusable));
        let at = |a: WindowAct| acts.iter().position(|x| *x == a);
        assert!(at(WindowAct::SetClickThrough(!mode.captures_clicks())) > Some(0));
        assert_eq!(at(WindowAct::Show).is_some(), plan.grab);
        assert_eq!(at(WindowAct::Focus).is_some(), plan.grab);
        assert_eq!(at(WindowAct::RememberForeground).is_some(), plan.grab);
        assert_eq!(at(WindowAct::ReleaseForeground).is_some(), plan.release);
        if plan.grab {
            // Who held the foreground is noted before it is taken.
            assert!(at(WindowAct::RememberForeground) < at(WindowAct::Show));
            assert!(at(WindowAct::Show) < at(WindowAct::Focus));
        }
    }
}

#[test]
fn foreground_titles_classify_game_vs_overlay() {
    assert!(title_is_star_citizen("Star Citizen"));
    assert!(!title_is_star_citizen("StarPlatform HUD"));
    assert!(title_is_overlay("StarPlatform HUD"));
    assert!(!title_is_overlay("Star Citizen"));
}

#[test]
fn no_foreground_window_is_neither_the_game_nor_the_overlay() {
    assert!(foreground_is_star_citizen(Some("Star Citizen  ")));
    assert!(!foreground_is_star_citizen(Some("star citizen")));
    assert!(!foreground_is_star_citizen(None));
    assert!(foreground_is_overlay(Some("[StarPlatform HUD]")));
    assert!(!foreground_is_overlay(None));
    assert!(!foreground_is_overlay(Some("")));
}

#[test]
fn a_press_of_each_key_does_what_it_names() {
    let mut s = OverlayState::new();
    assert_eq!(
        s.press(REQ_INTERACT),
        vec![
            WindowAct::SetFocusable(true),
            WindowAct::RememberForeground,
            WindowAct::SetClickThrough(false),
            WindowAct::Show,
            WindowAct::Focus,
            WindowAct::EmitMode(HudMode::Interact),
        ]
    );
    s.press(REQ_SETTINGS);
    assert_eq!(s.mode, HudMode::Settings);
    assert_eq!(
        s.press(REQ_SETTINGS),
        vec![
            WindowAct::SetFocusable(false),
            WindowAct::SetClickThrough(true),
            WindowAct::ReleaseForeground,
            WindowAct::EmitMode(HudMode::Passive),
        ]
    );
    assert_eq!(s.press(REQ_VISIBILITY), vec![WindowAct::Hide]);
    assert!(s.hidden_by_user);
    assert_eq!(
        s.press(REQ_VISIBILITY),
        vec![WindowAct::Show, WindowAct::SetClickThrough(true)]
    );
    assert!(!s.hidden_by_user);
    assert_eq!(s.press(REQ_NONE), vec![]);
    assert_eq!(s.press(200), vec![]);
}

#[test]
fn hiding_from_a_capturing_mode_leaves_it_first_and_hides_last() {
    let mut s = OverlayState::new();
    s.press(REQ_SETTINGS);
    let acts = s.press(REQ_VISIBILITY);
    assert_eq!(
        acts,
        vec![
            WindowAct::SetFocusable(false),
            WindowAct::SetClickThrough(true),
            WindowAct::ReleaseForeground,
            WindowAct::EmitMode(HudMode::Passive),
            WindowAct::Hide,
        ]
    );
    assert_eq!(
        s,
        OverlayState {
            mode: HudMode::Passive,
            hidden_by_user: true
        }
    );
    // Entering a mode that takes clicks ends the hide.
    s.press(REQ_INTERACT);
    assert_eq!(
        s,
        OverlayState {
            mode: HudMode::Interact,
            hidden_by_user: false
        }
    );
}

#[test]
fn no_run_of_presses_hides_a_capturing_overlay() {
    let mut s = OverlayState::new();
    for i in 0..200u32 {
        s.press((i * 7 % 5) as u8);
        assert!(!(s.hidden_by_user && s.mode.captures_clicks()));
    }
}

#[test]
fn the_foreground_goes_back_to_who_had_it() {
    let mut f = Foreground { previous: 0 };
    f.remember(7, 1);
    f.remember(1, 1);
    f.remember(0, 1);
    assert_eq!(f.release(9, 1), None);
    assert_eq!(f.previous, 7);
    assert_eq!(f.release(1, 1), Some(7));
    assert_eq!(f.release(1, 1), None);
}

#[test]
fn the_watcher_acts_only_on_a_change() {
    let passive = OverlayState::new();
    let mut w = FocusWatcher { gone_ticks: 0 };
    assert_eq!(w.tick(true, passive, true, true, false), vec![]);
    for _ in 1..HIDE_AFTER {
        assert_eq!(w.tick(true, passive, true, false, false), vec![]);
    }
    assert_eq!(
        w.tick(true, passive, true, false, false),
        vec![WindowAct::Hide]
    );
    assert_eq!(w.tick(false, passive, true, false, false), vec![]);
    assert_eq!(
        w.tick(false, passive, true, true, false),
        vec![WindowAct::Show, WindowAct::SetClickThrough(true)]
    );
    assert_eq!(w.gone_ticks, 0);
    let mut capturing = OverlayState::new();
    capturing.apply_mode(HudMode::Interact);
    assert_eq!(
        w.tick(false, capturing, true, false, false),
        vec![WindowAct::Show, WindowAct::SetClickThrough(false)]
    );
}

#[test]
fn the_debounce_counter_does_not_run_over() {
    assert_eq!(
        next_visibility(false, false, HudMode::Passive, true, false, false, u8::MAX),
        (false, u8::MAX)
    );
}

#[test]
fn clicks_pass_through_unless_a_control_is_under_the_cursor() {
    assert_eq!(hover_click_through(false, HudMode::Passive, true), None);
    assert_eq!(hover_click_through(true, HudMode::Passive, false), Some(true));
    assert_eq!(hover_click_through(true, HudMode::Passive, true), Some(false));
    assert_eq!(
        hover_click_through(true, HudMode::Settings, false),
        Some(false)
    );
}

#[test]
fn one_act_leads_out_of_every_mode() {
    for mode in [HudMode::Passive, HudMode::Interact, HudMode::Settings] {
        let mut by_name = OverlayState::new();
        by_name.apply_mode(mode);
        by_name.apply_mode(HudMode::parse("passive"));
        assert_eq!(by_name.mode, HudMode::Passive);
        let mut by_key = OverlayState::new();
        by_key.apply_mode(mode);
        by_key.toggle_mode(mode);
        assert_eq!(by_key.mode, HudMode::Passive);
    }
    let mut hidden = OverlayState {
        mode: HudMode::Passive,
        hidden_by_user: true,
    };
    hidden.apply_mode(HudMode::Settings);
    assert!(!hidden.hidden_by_user);
}
