use hud::config::HudConfig;
use hud::local_api::{
    bed_is_audible, key_state, resolve, Action, Refusal, DEFAULT_PORT, LOCAL_API_VERSION,
};
use hud::protocol::{
    ClientMessage, CommsBoard, MemberClipBoard, MusicState, ObjectiveStep, OpContext, QuickAction,
    SoundboardClip, TrackMeta,
};

fn music(active: bool) -> MusicState {
    MusicState {
        bed: Some("bed/combat".into()),
        volume: 60,
        paused: false,
        active,
        tags: vec![],
        stage_tags: vec![],
        now_playing: None,
        playlist: None,
        elapsed_ms: None,
    }
}

fn ctx(is_lead: bool) -> OpContext {
    OpContext {
        is_lead,
        music: Some(music(true)),
        ..Default::default()
    }
}

fn with_boards(is_lead: bool, policy: &str) -> OpContext {
    let mut c = ctx(is_lead);
    c.comms = Some(CommsBoard {
        quick_actions: vec![QuickAction {
            key: "downed".into(),
            label: "Downed".into(),
        }],
        ..Default::default()
    });
    c.member_clips = Some(MemberClipBoard {
        policy: policy.into(),
        clips: vec![SoundboardClip {
            key: "clip/rally".into(),
            label: "Rally".into(),
        }],
    });
    c
}

#[test]
fn a_down_socket_refuses_before_anything_else() {
    assert_eq!(
        resolve(&Action::CheckIn, false, Some(&ctx(true)), None),
        Err(Refusal::NotConnected)
    );
}

#[test]
fn lead_only_actions_refuse_for_a_non_lead_with_a_reason() {
    for a in [
        Action::ObjectiveNext,
        Action::BedPause,
        Action::TransportNext,
        Action::CompleteOp { confirm: true },
    ] {
        assert_eq!(
            resolve(&a, true, Some(&ctx(false)), None),
            Err(Refusal::NotLead),
            "{a:?}"
        );
    }
}

#[test]
fn check_in_works_when_there_is_no_context_which_is_the_only_time_it_matters() {
    assert_eq!(
        resolve(&Action::CheckIn, true, None, Some("ev-1")),
        Ok(ClientMessage::CheckIn {
            event_id: "ev-1".into()
        })
    );
}

#[test]
fn check_in_without_a_joinable_op_says_so() {
    assert_eq!(
        resolve(&Action::CheckIn, true, None, None),
        Err(Refusal::NoLiveOp)
    );
}

#[test]
fn check_in_while_already_on_the_op_is_refused_rather_than_being_a_silent_no_op() {
    assert_eq!(
        resolve(&Action::CheckIn, true, Some(&ctx(false)), Some("ev-1")),
        Err(Refusal::AlreadyCheckedIn)
    );
}

#[test]
fn a_board_with_no_op_still_offers_something_to_join() {
    let s = key_state(true, None, Some("ev-9"));
    assert!(!s.live_op);
    assert_eq!(s.checkin.as_deref(), Some("ev-9"));
    assert_eq!(
        key_state(true, Some(&ctx(true)), Some("ev-9")).checkin,
        None
    );
}

#[test]
fn check_in_and_ready_are_not_lead_gated() {
    let c = ctx(false);
    assert_eq!(
        resolve(&Action::ToggleReady, true, Some(&c), None),
        Ok(ClientMessage::SetReady { ready: true })
    );
}

#[test]
fn ready_toggles_against_the_current_state() {
    let mut c = ctx(false);
    c.my_ready = true;
    assert_eq!(
        resolve(&Action::ToggleReady, true, Some(&c), None),
        Ok(ClientMessage::SetReady { ready: false })
    );
}

#[test]
fn the_objective_rail_is_inclusive_of_the_all_complete_sentinel() {
    let mut c = ctx(true);
    c.objectives = vec![Default::default(), Default::default()];
    c.current_stage = 1;
    assert_eq!(
        resolve(&Action::ObjectiveNext, true, Some(&c), None),
        Ok(ClientMessage::SetObjective { index: 2 })
    );
    c.current_stage = 2;
    assert_eq!(
        resolve(&Action::ObjectiveNext, true, Some(&c), None),
        Err(Refusal::AtEnd)
    );
}

#[test]
fn objective_prev_stops_at_zero_rather_than_underflowing() {
    let mut c = ctx(true);
    c.objectives = vec![Default::default()];
    c.current_stage = 0;
    assert_eq!(
        resolve(&Action::ObjectivePrev, true, Some(&c), None),
        Err(Refusal::AtEnd)
    );
}

#[test]
fn an_op_with_no_objectives_refuses_rather_than_sending_index_zero() {
    let c = ctx(true);
    assert_eq!(
        resolve(&Action::ObjectiveNext, true, Some(&c), None),
        Err(Refusal::NoObjectives)
    );
}

#[test]
fn bed_controls_refuse_when_no_bed_is_audible() {
    let mut c = ctx(true);
    c.music = Some(music(false));
    for a in [
        Action::BedPause,
        Action::TransportNext,
        Action::BedVolume { percent: 50 },
    ] {
        assert_eq!(
            resolve(&a, true, Some(&c), None),
            Err(Refusal::NoBed),
            "{a:?}"
        );
    }
}

#[test]
fn volume_is_range_checked_before_anything_is_sent() {
    let c = ctx(true);
    assert_eq!(
        resolve(&Action::BedVolume { percent: 101 }, true, Some(&c), None),
        Err(Refusal::OutOfRange)
    );
    assert_eq!(
        resolve(&Action::BedVolume { percent: -1 }, true, Some(&c), None),
        Err(Refusal::OutOfRange)
    );
    assert_eq!(
        resolve(&Action::BedVolume { percent: 0 }, true, Some(&c), None),
        Ok(ClientMessage::SetBedVolume { percent: 0 })
    );
}

#[test]
fn a_clip_not_on_the_soundboard_is_refused() {
    let mut c = ctx(true);
    c.soundboard = vec![SoundboardClip {
        key: "clip/rally".into(),
        ..Default::default()
    }];
    assert_eq!(
        resolve(
            &Action::TriggerClip {
                key: "clip/nope".into()
            },
            true,
            Some(&c),
            None
        ),
        Err(Refusal::UnknownClip)
    );
    assert_eq!(
        resolve(
            &Action::TriggerClip {
                key: "clip/rally".into()
            },
            true,
            Some(&c),
            None
        ),
        Ok(ClientMessage::TriggerClip {
            key: "clip/rally".into()
        })
    );
}

#[test]
fn completing_an_op_is_marked_destructive_so_the_plugin_must_confirm() {
    assert!(Action::CompleteOp { confirm: true }.is_destructive());
    assert_eq!(
        resolve(
            &Action::CompleteOp { confirm: false },
            true,
            Some(&ctx(true)),
            None
        ),
        Err(Refusal::NeedsConfirm)
    );
    assert_eq!(
        resolve(
            &Action::CompleteOp { confirm: true },
            true,
            Some(&ctx(true)),
            None
        ),
        Ok(ClientMessage::CompleteOp)
    );
    for a in [Action::CheckIn, Action::ObjectiveNext, Action::BedPause] {
        assert!(!a.is_destructive(), "{a:?}");
    }
}

#[test]
fn completing_an_op_from_a_deck_requires_confirmation_on_both_sides() {
    assert_eq!(
        resolve(
            &Action::CompleteOp { confirm: false },
            true,
            Some(&ctx(true)),
            None
        ),
        Err(Refusal::NeedsConfirm)
    );
    assert!(!Action::CompleteOp { confirm: false }.confirmed());
    assert!(Action::CompleteOp { confirm: true }.confirmed());
    assert!(Action::BedPause.confirmed());
}

#[test]
fn the_board_carries_the_current_volume_so_a_dial_starts_from_the_truth() {
    let mut c = ctx(true);
    let mut m = music(true);
    m.volume = 35;
    c.music = Some(m);
    assert_eq!(key_state(true, Some(&c), None).bed_volume, 35);
    assert_eq!(key_state(false, None, None).bed_volume, 0);
}

#[test]
fn quick_actions_and_member_clips_work_for_someone_who_is_not_the_lead() {
    let c = with_boards(false, "all");
    assert_eq!(
        resolve(
            &Action::Quick {
                key: "downed".into()
            },
            true,
            Some(&c),
            None
        ),
        Ok(ClientMessage::SendQuickAction {
            channel: None,
            action: "downed".into()
        })
    );
    assert_eq!(
        resolve(
            &Action::MemberClip {
                key: "clip/rally".into()
            },
            true,
            Some(&c),
            None
        ),
        Ok(ClientMessage::TriggerMemberClip {
            key: "clip/rally".into()
        })
    );
}

#[test]
fn a_quick_action_not_on_the_pushed_board_is_refused() {
    let c = with_boards(false, "all");
    assert_eq!(
        resolve(&Action::Quick { key: "nuke".into() }, true, Some(&c), None),
        Err(Refusal::UnknownAction)
    );
}

#[test]
fn member_clips_respect_the_leads_policy() {
    let off = with_boards(false, "off");
    assert_eq!(
        resolve(
            &Action::MemberClip {
                key: "clip/rally".into()
            },
            true,
            Some(&off),
            None
        ),
        Err(Refusal::ClipsOff)
    );
    let mut none = ctx(false);
    none.member_clips = None;
    assert_eq!(
        resolve(
            &Action::MemberClip {
                key: "clip/rally".into()
            },
            true,
            Some(&none),
            None
        ),
        Err(Refusal::ClipsOff)
    );
}

#[test]
fn the_board_offers_member_options_to_a_non_lead() {
    let c = with_boards(false, "all");
    let s = key_state(true, Some(&c), None);
    assert_eq!(
        s.quick_actions,
        vec![("downed".to_string(), "Downed".to_string())]
    );
    assert_eq!(
        s.member_clips,
        vec![("clip/rally".to_string(), "Rally".to_string())]
    );
    let s_off = key_state(true, Some(&with_boards(false, "off")), None);
    assert!(s_off.member_clips.is_empty());
    assert!(
        !s_off.quick_actions.is_empty(),
        "quick actions are unaffected by clip policy"
    );
}

#[test]
fn no_op_yields_a_disabled_board_not_an_absent_one() {
    let s = key_state(false, None, None);
    assert!(!s.connected && !s.live_op && !s.is_lead);
    assert_eq!(s.objective, None);
    assert!(s.clips.is_empty());
    assert_eq!(s.api_version, LOCAL_API_VERSION);
}

#[test]
fn key_state_carries_what_a_key_needs_to_grey_itself() {
    let mut c = ctx(true);
    c.name = "Ghost Ops".into();
    c.objectives = vec![Default::default(), Default::default()];
    c.current_stage = 1;
    c.soundboard = vec![SoundboardClip {
        key: "clip/rally".into(),
        ..Default::default()
    }];
    let mut m = music(true);
    m.paused = true;
    m.now_playing = Some(TrackMeta {
        key: "k".into(),
        title: Some("Hostile Approach".into()),
        artist: None,
        genre: None,
        duration_ms: None,
    });
    c.music = Some(m);

    let s = key_state(true, Some(&c), None);
    assert!(s.connected && s.live_op && s.is_lead && s.bed_active && s.bed_paused);
    assert_eq!(s.op_name.as_deref(), Some("Ghost Ops"));
    assert_eq!(s.objective, Some((1, 2)));
    assert_eq!(s.now_playing.as_deref(), Some("Hostile Approach"));
    assert_eq!(s.clips, vec!["clip/rally".to_string()]);
}

#[test]
fn the_plugin_defaults_to_the_same_port_the_hud_binds() {
    assert_eq!(
        format!("const DEFAULT_HUD_PORT = {DEFAULT_PORT}"),
        "const DEFAULT_HUD_PORT = 48291"
    );
    // With nothing configured, that is the port that is bound once local tools are allowed.
    let mut config = HudConfig::defaults(None);
    assert_eq!(config.listen_port(), None);
    config.local_api = true;
    assert_eq!(config.listen_port(), Some(48291));
    assert_eq!(config.admitted(None).listen_port(), Some(48291));
}

#[test]
fn stepping_the_rail_forward_and_back_ends_where_it_began() {
    let mut c = ctx(true);
    c.objectives = vec![ObjectiveStep::default(), ObjectiveStep::default()];
    c.current_stage = 1;
    assert_eq!(
        resolve(&Action::ObjectiveNext, true, Some(&c), None),
        Ok(ClientMessage::SetObjective { index: 2 })
    );
    c.current_stage = 2;
    assert_eq!(
        resolve(&Action::ObjectivePrev, true, Some(&c), None),
        Ok(ClientMessage::SetObjective { index: 1 })
    );
}

#[test]
fn every_listed_key_resolves_and_no_other_does() {
    let mut c = with_boards(true, "urgent");
    c.soundboard = vec![SoundboardClip {
        key: "clip/alarm".into(),
        label: "Alarm".into(),
    }];
    let s = key_state(true, Some(&c), None);
    for key in s.clips {
        assert!(resolve(&Action::TriggerClip { key }, true, Some(&c), None).is_ok());
    }
    for (key, _) in s.quick_actions {
        assert!(resolve(&Action::Quick { key }, true, Some(&c), None).is_ok());
    }
    for (key, _) in s.member_clips {
        assert!(resolve(&Action::MemberClip { key }, true, Some(&c), None).is_ok());
    }
    assert_eq!(
        resolve(
            &Action::MemberClip {
                key: "clip/alarm".into()
            },
            true,
            Some(&c),
            None
        ),
        Err(Refusal::UnknownClip)
    );
}

#[test]
fn the_board_decides_the_plain_keys() {
    let mut c = ctx(true);
    c.objectives = vec![Default::default()];
    let s = key_state(true, Some(&c), None);
    assert!(s.live_op && s.bed_active && s.objective == Some((0, 1)));
    assert!(bed_is_audible(&c));
    assert_eq!(
        resolve(&Action::BedPause, true, Some(&c), None),
        Ok(ClientMessage::SetBedPaused { paused: true })
    );
    assert_eq!(
        resolve(&Action::BedResume, true, Some(&c), None),
        Ok(ClientMessage::SetBedPaused { paused: false })
    );
    assert_eq!(
        resolve(&Action::TransportPrev, true, Some(&c), None),
        Ok(ClientMessage::TransportPrev)
    );
    assert_eq!(
        resolve(&Action::BedVolume { percent: 100 }, true, Some(&c), None),
        Ok(ClientMessage::SetBedVolume { percent: 100 })
    );
    assert_eq!(
        resolve(&Action::ToggleReady, true, None, Some("ev-1")),
        Err(Refusal::NoLiveOp)
    );
}

#[test]
fn no_gate_opens_for_a_member_without_a_connection() {
    let c = with_boards(true, "all");
    for a in [
        Action::CheckIn,
        Action::ToggleReady,
        Action::ObjectiveNext,
        Action::ObjectivePrev,
        Action::BedPause,
        Action::BedResume,
        Action::TransportNext,
        Action::TransportPrev,
        Action::BedVolume { percent: 10 },
        Action::Quick {
            key: "downed".into(),
        },
        Action::CompleteOp { confirm: true },
    ] {
        assert_eq!(
            resolve(&a, false, Some(&c), Some("ev-1")),
            Err(Refusal::NotConnected)
        );
    }
}

#[test]
fn every_refusal_has_its_own_wire_name() {
    let all = [
        (Refusal::NotConnected, "not_connected"),
        (Refusal::NoLiveOp, "no_live_op"),
        (Refusal::NotLead, "not_lead"),
        (Refusal::NoObjectives, "no_objectives"),
        (Refusal::AtEnd, "at_end"),
        (Refusal::NoBed, "no_bed"),
        (Refusal::UnknownClip, "unknown_clip"),
        (Refusal::OutOfRange, "out_of_range"),
        (Refusal::NeedsConfirm, "needs_confirm"),
        (Refusal::AlreadyCheckedIn, "already_checked_in"),
        (Refusal::UnknownAction, "unknown_action"),
        (Refusal::ClipsOff, "clips_off"),
    ];
    for (refusal, name) in all {
        assert_eq!(refusal.wire(), name);
    }
}
