use hud::session::{
    bearer_value, connect_plan, endpoint, fetch_outcome, image_outcome, member_socket_plan,
    member_step, required_token, send_outcome, session_stale, should_clear_token, verification,
    ConnectPlan, DownAct, MemberEvent, MemberSocket, MemberStep, Verification, BACKOFF_MAX_MS,
};

#[test]
fn only_auth_rejections_clear_the_token() {
    assert!(should_clear_token(401));
    assert!(should_clear_token(403));
    assert!(!should_clear_token(500));
    assert!(!should_clear_token(502));
    assert!(!should_clear_token(429));
}

#[test]
fn a_dropped_member_socket_pushes_a_fresh_board() {
    let acts = MemberSocket::new().went_down();
    assert_eq!(
        acts,
        vec![
            DownAct::DropSender,
            DownAct::EmitStale,
            DownAct::PushBoard,
            DownAct::Sleep(1_000),
        ]
    );
}

#[test]
fn a_verification_keeps_the_token_unless_it_is_rejected() {
    for (status, want) in [
        (200, Verification::SignedIn),
        (299, Verification::SignedIn),
        (199, Verification::Unavailable),
        (300, Verification::Unavailable),
        (401, Verification::Rejected),
        (403, Verification::Rejected),
        (404, Verification::Unavailable),
        (503, Verification::Unavailable),
    ] {
        assert_eq!(verification(status), want, "{status}");
    }
}

#[test]
fn a_fetch_gives_the_body_or_the_status_with_it() {
    assert_eq!(
        fetch_outcome(204, "204 No Content", "x".into()),
        Ok("x".into())
    );
    assert_eq!(
        fetch_outcome(404, "404 Not Found", "gone".into()),
        Err("404 Not Found: gone".into())
    );
    assert_eq!(image_outcome(200, "200 OK"), Ok(()));
    assert_eq!(
        image_outcome(404, "404 Not Found"),
        Err("404 Not Found".into())
    );
}

#[test]
fn a_request_needs_a_token() {
    assert_eq!(required_token(Some("t".into())), Ok("t".into()));
    assert_eq!(required_token(None), Err("not signed in".into()));
    assert_eq!(bearer_value("t"), "Bearer t");
    assert_eq!(
        endpoint("https://h", "/auth/desktop/verify"),
        "https://h/auth/desktop/verify"
    );
}

#[test]
fn a_message_needs_a_socket_that_takes_it() {
    assert_eq!(send_outcome(true, true), Ok(()));
    assert_eq!(
        send_outcome(false, false),
        Err("not connected to the live channel".into())
    );
    assert_eq!(send_outcome(true, false), Err("live channel closed".into()));
}

#[test]
fn the_socket_waits_for_a_token_and_a_server() {
    assert_eq!(
        member_socket_plan(Some("t".into()), "https://h"),
        ConnectPlan::Connect {
            url: "wss://h/ws/member".into(),
            token: "t".into()
        }
    );
    assert_eq!(
        member_socket_plan(None, "https://h"),
        ConnectPlan::Wait(2_000)
    );
    assert_eq!(
        member_socket_plan(Some("t".into()), "nonsense"),
        ConnectPlan::Wait(2_000)
    );
    assert_eq!(
        connect_plan(Some("t".into()), Err("x".into())),
        ConnectPlan::Wait(2_000)
    );
}

#[test]
fn the_waits_double_up_to_the_limit_and_start_over_once_a_connection_came_up() {
    let mut s = MemberSocket::new();
    let mut waits = vec![];
    for _ in 0..6 {
        if let Some(DownAct::Sleep(ms)) = s.went_down().pop() {
            waits.push(ms);
        }
        s.rested(false);
    }
    assert_eq!(waits, vec![1_000, 2_000, 4_000, 8_000, 15_000, 15_000]);
    assert_eq!(BACKOFF_MAX_MS, 15_000);
    s.rested(true);
    assert_eq!(s.went_down()[3], DownAct::Sleep(1_000));
}

#[test]
fn the_member_socket_ends_only_when_a_side_is_gone_or_the_session_is() {
    for (event, want) in [
        (MemberEvent::Opened, MemberStep::Announce),
        (MemberEvent::Outgoing, MemberStep::Write),
        (MemberEvent::Text, MemberStep::Read),
        (MemberEvent::Unwritable, MemberStep::Wait),
        (MemberEvent::Sent, MemberStep::Wait),
        (MemberEvent::Other, MemberStep::Wait),
        (MemberEvent::Check { stale: false }, MemberStep::Wait),
        (MemberEvent::Check { stale: true }, MemberStep::End),
        (MemberEvent::SendFailed, MemberStep::End),
        (MemberEvent::Closed, MemberStep::End),
        (MemberEvent::Failed, MemberStep::End),
    ] {
        assert_eq!(member_step(event), want);
    }
}

#[test]
fn a_session_is_stale_once_token_or_server_change() {
    assert!(!session_stale(Some("t"), "s", "t", "s"));
    assert!(session_stale(None, "s", "t", "s"));
    assert!(session_stale(Some("u"), "s", "t", "s"));
    assert!(session_stale(Some("t"), "r", "t", "s"));
}
