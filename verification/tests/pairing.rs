use hud::pairing::{
    authorize, deletion_outcome, handshake, offers_subprotocol, pairing_choice, pairing_plan,
    pairing_stored, token_from_subprotocol, Auth, Deletion, Denial, Handshake, Pairing, Stored, SUBPROTOCOL,
};

#[test]
fn a_browser_handshake_is_refused_even_with_the_right_token() {
    assert_eq!(
        authorize(Some("good"), Some("https://evil.example"), "good"),
        Auth::Deny(Denial::BrowserOrigin)
    );
    assert_eq!(
        authorize(Some("good"), Some("http://127.0.0.1:1234"), "good"),
        Auth::Deny(Denial::BrowserOrigin)
    );
}

#[test]
fn a_native_client_with_the_right_token_is_allowed() {
    assert_eq!(authorize(Some("good"), None, "good"), Auth::Allow);
}

#[test]
fn a_wrong_or_missing_token_is_refused() {
    assert_eq!(
        authorize(Some("bad"), None, "good"),
        Auth::Deny(Denial::BadToken)
    );
    assert_eq!(authorize(None, None, "good"), Auth::Deny(Denial::BadToken));
    assert_eq!(
        authorize(Some("goo"), None, "good"),
        Auth::Deny(Denial::BadToken)
    );
    assert_eq!(
        authorize(Some("gooX"), None, "good"),
        Auth::Deny(Denial::BadToken)
    );
    assert_eq!(
        authorize(Some("doog"), None, "good"),
        Auth::Deny(Denial::BadToken)
    );
}

#[test]
fn an_unpaired_hud_stays_closed_rather_than_open() {
    assert_eq!(authorize(Some(""), None, ""), Auth::Deny(Denial::NotPaired));
    assert_eq!(authorize(None, None, ""), Auth::Deny(Denial::NotPaired));
}

#[test]
fn a_token_can_arrive_as_a_subprotocol_because_the_browser_api_cannot_set_headers() {
    assert_eq!(
        token_from_subprotocol(Some("orghud.v1, abc123")),
        Some("abc123")
    );
    assert_eq!(
        token_from_subprotocol(Some("orghud.v1,abc123")),
        Some("abc123")
    );
}

#[test]
fn a_subprotocol_without_our_id_or_without_a_token_yields_nothing() {
    assert_eq!(token_from_subprotocol(None), None);
    assert_eq!(token_from_subprotocol(Some("someone.else, abc")), None);
    assert_eq!(token_from_subprotocol(Some("orghud.v1")), None);
    assert_eq!(token_from_subprotocol(Some("orghud.v1, ")), None);
}

#[test]
fn we_only_echo_the_subprotocol_when_ours_was_offered() {
    assert!(token_from_subprotocol(Some("chat")).is_none());
    assert!(token_from_subprotocol(Some("chat, orghud.v1")).is_none());
    assert!(token_from_subprotocol(Some("orghud.v1, tok")).is_some());
    // A client that authenticates by header but offers something else is let in without an echo.
    assert_eq!(
        handshake(Some("Bearer good"), Some("chat"), None, "good"),
        Handshake {
            verdict: Auth::Allow,
            select: false
        }
    );
}

#[test]
fn the_plugin_and_the_hud_agree_on_the_subprotocol() {
    assert_eq!(
        format!("const SUBPROTOCOL = '{SUBPROTOCOL}'"),
        "const SUBPROTOCOL = 'orghud.v1'"
    );
    // What a tool offers under that name is found and answered.
    assert_eq!(
        handshake(None, Some("orghud.v1, good"), None, "good"),
        Handshake {
            verdict: Auth::Allow,
            select: true
        }
    );
    assert_eq!(
        handshake(None, Some("orghud.v2, good"), None, "good"),
        Handshake {
            verdict: Auth::Deny(Denial::BadToken),
            select: false
        }
    );
}

#[test]
fn an_offer_without_a_token_is_answered_too() {
    let answer = |offered| handshake(Some("Bearer good"), offered, None, "good");
    for offered in ["orghud.v1", " orghud.v1 ", "orghud.v1,", "orghud.v1, other"] {
        assert!(offers_subprotocol(Some(offered)));
        assert_eq!(
            answer(Some(offered)),
            Handshake {
                verdict: Auth::Allow,
                select: true
            },
            "{offered}"
        );
    }
    for offered in [Some("chat"), Some("chat, orghud.v1"), Some(""), None] {
        assert!(!offers_subprotocol(offered));
        assert_eq!(
            answer(offered),
            Handshake {
                verdict: Auth::Allow,
                select: false
            }
        );
    }
    let refused = handshake(Some("Bearer bad"), Some("orghud.v1"), None, "good");
    assert!(!refused.select);
}

#[test]
fn a_third_entry_is_ignored_and_padding_is_trimmed() {
    assert_eq!(
        token_from_subprotocol(Some("  orghud.v1\t,\u{2003}tok en \u{a0}, other")),
        Some("tok en")
    );
}

#[test]
fn either_way_of_presenting_a_token_admits() {
    let by_header = handshake(Some("Bearer  good "), None, None, "good");
    assert_eq!(by_header.verdict, Auth::Allow);
    assert!(!by_header.select);
    let by_subprotocol = handshake(None, Some("orghud.v1, good"), None, "good");
    assert_eq!(by_subprotocol.verdict, Auth::Allow);
    assert!(by_subprotocol.select);
    // Another scheme falls through to the subprotocol; an empty bearer token does not.
    assert_eq!(
        handshake(Some("Basic good"), Some("orghud.v1, good"), None, "good").verdict,
        Auth::Allow
    );
    let empty = handshake(Some("Bearer "), Some("orghud.v1, good"), None, "good");
    assert_eq!(empty.verdict, Auth::Deny(Denial::BadToken));
    assert!(!empty.select);
}

#[test]
fn a_browser_is_refused_at_the_handshake_whatever_it_offers() {
    let r = handshake(
        Some("Bearer good"),
        Some("orghud.v1, good"),
        Some("null"),
        "good",
    );
    assert_eq!(r.verdict, Auth::Deny(Denial::BrowserOrigin));
    assert!(!r.select);
}

#[test]
fn pairing_keeps_a_stored_token_and_makes_a_new_one_otherwise() {
    assert_eq!(
        pairing_plan(Stored::Found("abc".into())),
        Pairing::Use("abc".into())
    );
    assert_eq!(
        pairing_plan(Stored::Unavailable),
        Pairing::Use(String::new())
    );
    let mut made = vec![];
    for stored in [Stored::Missing, Stored::Found(String::new())] {
        match pairing_plan(stored) {
            Pairing::Store(token) => {
                assert_eq!(token.len(), 32);
                assert!(token
                    .chars()
                    .all(|c| c.is_ascii_digit() || ('a'..='f').contains(&c)));
                assert_eq!(token.chars().nth(12), Some('4'));
                assert!("89ab".contains(token.chars().nth(16).unwrap()));
                made.push(token);
            }
            other => panic!("expected a new token, got {other:?}"),
        }
    }
    assert_ne!(made[0], made[1]);
}

#[test]
fn a_token_at_hand_is_stored_only_when_there_is_none() {
    let choice = |stored| pairing_choice(stored, "new".into());
    assert_eq!(choice(Stored::Missing), Pairing::Store("new".into()));
    assert_eq!(
        choice(Stored::Found(String::new())),
        Pairing::Store("new".into())
    );
    assert_eq!(
        choice(Stored::Found("old".into())),
        Pairing::Use("old".into())
    );
    assert_eq!(choice(Stored::Unavailable), Pairing::Use(String::new()));
}

#[test]
fn a_token_lasts_until_it_is_revoked() {
    let first = match pairing_choice(Stored::Missing, "one".into()) {
        Pairing::Store(fresh) => pairing_stored(fresh, true),
        other => panic!("expected a new token, got {other:?}"),
    };
    assert_eq!(first, "one");
    assert_eq!(
        pairing_choice(Stored::Found(first.clone()), "two".into()),
        Pairing::Use(first)
    );
    assert_eq!(deletion_outcome(Deletion::Deleted), Ok(()));
    assert_eq!(
        pairing_choice(Stored::Missing, "two".into()),
        Pairing::Store("two".into())
    );
}

#[test]
fn a_generated_token_admits_either_way() {
    let token = match pairing_plan(Stored::Missing) {
        Pairing::Store(token) => token,
        other => panic!("expected a new token, got {other:?}"),
    };
    let header = format!("Bearer {token}");
    assert_eq!(
        handshake(Some(&header), None, None, &token).verdict,
        Auth::Allow
    );
    let offered = format!("{SUBPROTOCOL},{token}");
    assert_eq!(
        handshake(None, Some(&offered), None, &token).verdict,
        Auth::Allow
    );
}

#[test]
fn a_token_that_was_not_stored_leaves_the_api_closed() {
    assert_eq!(pairing_stored("abc".into(), true), "abc");
    let unsaved = pairing_stored("abc".into(), false);
    assert_eq!(unsaved, "");
    assert_eq!(
        authorize(Some("abc"), None, &unsaved),
        Auth::Deny(Denial::NotPaired)
    );
}

#[test]
fn a_token_that_was_never_there_counts_as_deleted() {
    assert_eq!(deletion_outcome(Deletion::Deleted), Ok(()));
    assert_eq!(deletion_outcome(Deletion::NoEntry), Ok(()));
    assert_eq!(
        deletion_outcome(Deletion::Failed("locked".into())),
        Err("locked".to_string())
    );
}
