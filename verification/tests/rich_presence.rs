use hud::protocol::DiscordPresence;
use hud::rich_presence::{
    activity_card, activity_fields, ActivityCard, NotShowing, PresenceShutdown, PresenceStep,
    RichPresence,
};

fn dp(details: &str, state: &str) -> DiscordPresence {
    DiscordPresence {
        allowed: true,
        client_id: "123456789".to_string(),
        details: details.to_string(),
        state: state.to_string(),
        button_label: String::new(),
        button_url: String::new(),
    }
}

fn card(details: &str, state: &str) -> ActivityCard {
    ActivityCard {
        details: details.to_string(),
        state: state.to_string(),
        button: None,
    }
}

#[test]
fn activity_fields_map_details_and_state_verbatim() {
    let presence = dp("Playing StarPlatform", "In an operation");
    let (details, state) = activity_fields(&presence);
    assert_eq!(details, "Playing StarPlatform");
    assert_eq!(state, "In an operation");
}

#[test]
fn activity_fields_preserve_empty_state() {
    let presence = dp("Playing StarPlatform", "");
    let (details, state) = activity_fields(&presence);
    assert_eq!(details, "Playing StarPlatform");
    assert_eq!(state, "");
}

#[test]
fn apply_none_on_a_fresh_client_is_a_no_op() {
    let mut rp = RichPresence::new();
    assert_eq!(
        rp.apply(None),
        PresenceStep::Hide {
            note: Some(NotShowing::NoBlock),
            clear: false
        }
    );
}

#[test]
fn apply_not_allowed_on_a_fresh_client_is_a_no_op() {
    let mut rp = RichPresence::new();
    let mut presence = dp("Playing StarPlatform", "Idle");
    presence.allowed = false;
    assert_eq!(
        rp.apply(Some(&presence)),
        PresenceStep::Hide {
            note: Some(NotShowing::NotAllowed),
            clear: false
        }
    );
}

#[test]
fn shutdown_on_a_fresh_client_is_a_no_op() {
    let mut rp = RichPresence::new();
    assert_eq!(
        rp.shutdown(),
        PresenceShutdown {
            clear: false,
            close: false
        }
    );
}

#[test]
fn a_button_needs_a_label_and_a_target() {
    let mut presence = dp("d", "s");
    presence.button_label = "Join".into();
    assert_eq!(activity_card(&presence).button, None);
    presence.button_url = "https://example.org".into();
    assert_eq!(
        activity_card(&presence).button,
        Some(("Join".to_string(), "https://example.org".to_string()))
    );
    presence.button_label.clear();
    assert_eq!(activity_card(&presence).button, None);
}

#[test]
fn an_allowed_block_is_shown_and_taken_back() {
    let mut rp = RichPresence::new();
    let presence = dp("d", "s");
    assert_eq!(
        rp.apply(Some(&presence)),
        PresenceStep::Show {
            close: false,
            connect: true,
            card: card("d", "s")
        }
    );
    rp.connected(true);
    assert!(rp.activity_set(true, &card("d", "s")));
    // The same lines again are shown, but not noted.
    assert_eq!(
        rp.apply(Some(&presence)),
        PresenceStep::Show {
            close: false,
            connect: false,
            card: card("d", "s")
        }
    );
    assert!(!rp.activity_set(true, &card("d", "s")));
    assert_eq!(
        rp.apply(None),
        PresenceStep::Hide {
            note: Some(NotShowing::NoBlock),
            clear: true
        }
    );
    // Why is noted once, and there is nothing left to clear.
    assert_eq!(
        rp.apply(None),
        PresenceStep::Hide {
            note: None,
            clear: false
        }
    );
    assert_eq!(
        rp.shutdown(),
        PresenceShutdown {
            clear: false,
            close: true
        }
    );
}

#[test]
fn a_failure_is_tried_again_with_the_next_block() {
    let mut rp = RichPresence::new();
    let presence = dp("d", "s");
    rp.apply(Some(&presence));
    rp.connected(false);
    assert_eq!(
        rp.apply(Some(&presence)),
        PresenceStep::Show {
            close: false,
            connect: true,
            card: card("d", "s")
        }
    );
    rp.connected(true);
    assert!(!rp.activity_set(false, &card("d", "s")));
    // The dead connection is dropped without closing it.
    assert_eq!(
        rp.apply(Some(&presence)),
        PresenceStep::Show {
            close: false,
            connect: true,
            card: card("d", "s")
        }
    );
}

#[test]
fn a_new_application_id_makes_a_new_connection() {
    let mut rp = RichPresence::new();
    rp.apply(Some(&dp("d", "s")));
    rp.connected(true);
    rp.activity_set(true, &card("d", "s"));
    let mut other = dp("d", "s");
    other.client_id = "987".into();
    assert_eq!(
        rp.apply(Some(&other)),
        PresenceStep::Show {
            close: true,
            connect: true,
            card: card("d", "s")
        }
    );
    assert_eq!(
        rp.shutdown(),
        PresenceShutdown {
            clear: false,
            close: false
        }
    );
}
