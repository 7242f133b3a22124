use hud::local_api::{resolve, Action};
use hud::protocol::{ClientMessage, MusicState, OpContext, TrackMeta};
use hud::smtc::{
    message_for, plan, timeline, Button, SessionMeta, SessionPlan, Smtc, SmtcStep, TICKS_PER_MS,
    UNKNOWN_TITLE,
};

fn music(active: bool) -> MusicState {
    MusicState {
        bed: Some("bed/combat".into()),
        volume: 60,
        paused: false,
        active,
        tags: vec![],
        stage_tags: vec![],
        now_playing: None,
        playlist: None,
        elapsed_ms: None,
    }
}

fn ctx(is_lead: bool, music: Option<MusicState>) -> OpContext {
    OpContext {
        is_lead,
        music,
        ..Default::default()
    }
}

#[test]
fn disabled_never_registers_a_session() {
    let c = ctx(true, Some(music(true)));
    assert_eq!(plan(false, Some(&c)), SessionPlan::Absent);
}

#[test]
fn no_context_is_absent() {
    assert_eq!(plan(true, None), SessionPlan::Absent);
}

#[test]
fn a_non_lead_never_registers_a_session() {
    let c = ctx(false, Some(music(true)));
    assert_eq!(plan(true, Some(&c)), SessionPlan::Absent);
}

#[test]
fn a_lead_with_no_music_block_is_absent() {
    let c = ctx(true, None);
    assert_eq!(plan(true, Some(&c)), SessionPlan::Absent);
}

#[test]
fn an_inaudible_bed_never_registers_a_session() {
    let c = ctx(true, Some(music(false)));
    assert_eq!(plan(true, Some(&c)), SessionPlan::Absent);
}

#[test]
fn a_lead_with_an_audible_bed_registers() {
    let c = ctx(true, Some(music(true)));
    match plan(true, Some(&c)) {
        SessionPlan::Present(m) => {
            assert_eq!(m.title, "bed/combat");
            assert_eq!(m.artist, "");
            assert!(!m.paused);
        }
        other => panic!("expected a session, got {other:?}"),
    }
}

#[test]
fn track_metadata_populates_the_flyout() {
    let mut ms = music(true);
    ms.now_playing = Some(TrackMeta {
        key: "bed/combat/01".into(),
        title: Some("Hostile Approach".into()),
        artist: Some("Tatux".into()),
        genre: None,
        duration_ms: Some(184_000),
    });
    ms.elapsed_ms = Some(12_000);
    ms.paused = true;
    let c = ctx(true, Some(ms));
    assert_eq!(
        plan(true, Some(&c)),
        SessionPlan::Present(SessionMeta {
            title: "Hostile Approach".into(),
            artist: "Tatux".into(),
            paused: true,
            duration_ms: Some(184_000),
            elapsed_ms: Some(12_000),
        })
    );
}

#[test]
fn a_titleless_track_falls_back_rather_than_showing_a_blank_row() {
    let mut ms = music(true);
    ms.bed = None;
    ms.now_playing = Some(TrackMeta {
        key: "k".into(),
        title: None,
        artist: None,
        genre: None,
        duration_ms: None,
    });
    let c = ctx(true, Some(ms));
    match plan(true, Some(&c)) {
        SessionPlan::Present(m) => assert_eq!(m.title, UNKNOWN_TITLE),
        other => panic!("expected a session, got {other:?}"),
    }
}

#[test]
fn paused_state_mirrors_the_pushed_music_state() {
    let mut ms = music(true);
    ms.paused = true;
    let c = ctx(true, Some(ms));
    match plan(true, Some(&c)) {
        SessionPlan::Present(m) => assert!(m.paused),
        other => panic!("expected a session, got {other:?}"),
    }
}

#[test]
fn an_unknown_track_length_draws_no_scrubber() {
    assert_eq!(timeline(None, Some(5_000)), None);
    assert_eq!(timeline(Some(0), Some(5_000)), None);
    assert_eq!(timeline(Some(-1), Some(5_000)), None);
}

#[test]
fn a_looping_bed_wraps_instead_of_running_off_the_end_of_the_bar() {
    let (end, pos) = timeline(Some(184_000), Some(200_000)).expect("a scrubber");
    assert_eq!(end, 184_000 * TICKS_PER_MS);
    assert_eq!(pos, 16_000 * TICKS_PER_MS);
}

#[test]
fn a_missing_or_negative_elapsed_starts_at_zero() {
    assert_eq!(timeline(Some(1_000), None), Some((10_000_000, 0)));
    assert_eq!(timeline(Some(1_000), Some(-5)), Some((10_000_000, 0)));
}

#[test]
fn buttons_map_to_the_same_intents_the_on_screen_transport_sends() {
    assert_eq!(
        message_for(Button::Play),
        ClientMessage::SetBedPaused { paused: false }
    );
    assert_eq!(
        message_for(Button::Pause),
        ClientMessage::SetBedPaused { paused: true }
    );
    assert_eq!(message_for(Button::Next), ClientMessage::TransportNext);
    assert_eq!(message_for(Button::Previous), ClientMessage::TransportPrev);
}

#[test]
fn whole_runs_of_the_loop_do_not_move_the_position() {
    for runs in 0..5 {
        assert_eq!(
            timeline(Some(1_000), Some(250 + runs * 1_000)),
            Some((10_000_000, 2_500_000))
        );
    }
    assert_eq!(
        timeline(Some(i32::MAX), Some(i64::MAX)),
        Some((
            i64::from(i32::MAX) * TICKS_PER_MS,
            i64::MAX % i64::from(i32::MAX) * TICKS_PER_MS
        ))
    );
}

#[test]
fn a_session_accepts_exactly_the_buttons_that_would_be_relayed() {
    let c = ctx(true, Some(music(true)));
    for (button, action) in [
        (Button::Play, Action::BedResume),
        (Button::Pause, Action::BedPause),
        (Button::Next, Action::TransportNext),
        (Button::Previous, Action::TransportPrev),
    ] {
        assert_eq!(
            resolve(&action, true, Some(&c), None),
            Ok(message_for(button))
        );
    }
}

#[test]
fn a_session_is_created_once_and_refreshed_only_on_a_change() {
    let mut s = Smtc::new();
    let c = ctx(true, Some(music(true)));
    let meta = match plan(true, Some(&c)) {
        SessionPlan::Present(m) => m,
        other => panic!("expected a session, got {other:?}"),
    };
    assert_eq!(
        s.reconcile(true, Some(&c), 42),
        SmtcStep::Attach(42, meta.clone())
    );
    // Creating it failed: the next context tries again.
    assert_eq!(s.attached(false, &meta), SmtcStep::Idle);
    assert_eq!(
        s.apply(42, &SessionPlan::Present(meta.clone())),
        SmtcStep::Attach(42, meta.clone())
    );
    assert_eq!(s.attached(true, &meta), SmtcStep::Push(meta.clone()));
    // Showing it failed: the next context tries again.
    s.pushed(false, &meta);
    assert_eq!(
        s.reconcile(true, Some(&c), 42),
        SmtcStep::Push(meta.clone())
    );
    s.pushed(true, &meta);
    assert_eq!(s.reconcile(true, Some(&c), 42), SmtcStep::Idle);
    let mut changed = meta.clone();
    changed.paused = true;
    assert_eq!(
        s.apply(42, &SessionPlan::Present(changed.clone())),
        SmtcStep::Push(changed)
    );
    assert_eq!(s.reconcile(true, None, 0), SmtcStep::Teardown);
    assert_eq!(s.reconcile(true, Some(&c), 42), SmtcStep::Push(meta));
}

#[test]
fn without_a_window_there_is_no_session() {
    let mut s = Smtc::new();
    let c = ctx(true, Some(music(true)));
    assert_eq!(s.reconcile(true, Some(&c), 0), SmtcStep::Idle);
    assert_eq!(s.reconcile(false, Some(&c), 0), SmtcStep::Idle);
}
