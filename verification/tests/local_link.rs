use hud::local_api::{Action, KeyState, Refusal};
use hud::local_link::{
    first_live_event, link_step, live_event_in, relayed, Handling, LinkEvent, LinkStep, LocalBoard,
    Request, Response, CANDIDATE_TTL_MS,
};
use hud::protocol::{ClientMessage, OpContext};

fn board_on(ctx: Option<OpContext>) -> LocalBoard {
    let mut board = LocalBoard::new();
    board.on_context(ctx);
    board
}

fn lead() -> OpContext {
    OpContext {
        is_lead: true,
        ..Default::default()
    }
}

#[test]
fn nothing_in_this_module_can_send_without_going_through_resolve() {
    let actions = [
        Action::CheckIn,
        Action::ToggleReady,
        Action::ObjectiveNext,
        Action::ObjectivePrev,
        Action::BedPause,
        Action::BedResume,
        Action::TransportNext,
        Action::TransportPrev,
        Action::BedVolume { percent: 50 },
        Action::TriggerClip { key: "a".into() },
        Action::Quick { key: "a".into() },
        Action::MemberClip { key: "a".into() },
        Action::CompleteOp { confirm: false },
        Action::CompleteOp { confirm: true },
    ];
    for action in actions {
        for connected in [false, true] {
            for ctx in [None, Some(OpContext::default()), Some(lead())] {
                let want = hud::local_api::resolve(&action, connected, ctx.as_ref(), None);
                let board = board_on(ctx);
                let request = Request {
                    id: Some(3),
                    action: action.clone(),
                };
                match (board.handle_request(Some(&request), connected), want) {
                    (Handling::Relay { id, message }, Ok(allowed)) => {
                        assert_eq!(id, Some(3));
                        assert_eq!(message, allowed);
                    }
                    (Handling::Reply(reply), Err(why)) => assert_eq!(
                        reply,
                        Response::Nack {
                            id: Some(3),
                            reason: why.wire().to_string()
                        }
                    ),
                    (got, want) => panic!("{action:?}: {got:?} but {want:?}"),
                }
            }
        }
    }
}

#[test]
fn replies_carry_the_id_of_their_request() {
    let board = board_on(Some(lead()));
    let request = Request {
        id: Some(7),
        action: Action::CompleteOp { confirm: true },
    };
    assert_eq!(
        board.handle_request(Some(&request), true),
        Handling::Relay {
            id: Some(7),
            message: ClientMessage::CompleteOp
        }
    );
    assert_eq!(relayed(Some(7), true), Response::Ack { id: Some(7) });
    assert_eq!(
        relayed(Some(7), false),
        Response::Nack {
            id: Some(7),
            reason: Refusal::NotConnected.wire().to_string()
        }
    );
    assert_eq!(relayed(None, true), Response::Ack { id: None });
}

#[test]
fn text_that_is_no_request_is_refused_without_an_id() {
    assert_eq!(
        board_on(Some(lead())).handle_request(None, true),
        Handling::Reply(Response::Nack {
            id: None,
            reason: "unknown_action".into()
        })
    );
}

#[test]
fn a_candidate_is_looked_up_once_while_it_is_fresh() {
    let mut board = LocalBoard::new();
    assert!(board.lookup_due(0));
    board.looked_up_now(Some("ev-1".into()), 1_000);
    assert!(!board.lookup_due(1_000));
    assert!(!board.lookup_due(1_000 + CANDIDATE_TTL_MS - 1));
    assert!(board.lookup_due(1_000 + CANDIDATE_TTL_MS));
    // A clock that stands before the lookup counts as no time at all.
    assert!(!board.lookup_due(0));
    assert_eq!(CANDIDATE_TTL_MS, 30_000);
}

#[test]
fn being_on_an_op_drops_the_candidate() {
    let mut board = LocalBoard::new();
    board.looked_up_now(Some("ev-1".into()), 0);
    assert_eq!(
        board.current_key_state(true).checkin.as_deref(),
        Some("ev-1")
    );
    board.on_context(Some(OpContext::default()));
    assert!(!board.lookup_due(100_000));
    board.on_context(None);
    let shown: KeyState = board.current_key_state(true);
    assert_eq!(shown.checkin, None);
    assert!(!shown.live_op && shown.connected);
    assert!(board.lookup_due(100_000));
}

#[test]
fn a_candidate_can_be_checked_into() {
    let mut board = LocalBoard::new();
    board.looked_up_now(Some("ev-1".into()), 0);
    let request = Request {
        id: None,
        action: Action::CheckIn,
    };
    assert_eq!(
        board.handle_request(Some(&request), true),
        Handling::Relay {
            id: None,
            message: ClientMessage::CheckIn {
                event_id: "ev-1".into()
            }
        }
    );
}

#[test]
fn the_first_live_event_is_the_one_to_join() {
    let row = |s: &str, id: &str| (Some(s.to_string()), Some(id.to_string()));
    assert_eq!(
        first_live_event(&vec![row("done", "a"), row("live", "b"), row("live", "c")]),
        Some("b".to_string())
    );
    assert_eq!(first_live_event(&vec![]), None);
    // A live event without an id hides the ones after it.
    assert_eq!(
        first_live_event(&vec![(Some("live".to_string()), None), row("live", "c")]),
        None
    );
}

#[test]
fn an_event_list_is_read_as_json() {
    assert_eq!(
        live_event_in(r#"[{"id":"a","status":"planned"},{"status":"live","id":"ev-1"}]"#),
        Some("ev-1".to_string())
    );
    assert_eq!(live_event_in(r#"[{"id":7,"status":"live"}]"#), None);
    assert_eq!(live_event_in(r#"[1,{"id":"x","status":"live"}]"#), Some("x".to_string()));
    assert_eq!(live_event_in(r#"{"id":"a","status":"live"}"#), None);
    assert_eq!(live_event_in("live"), None);
    assert_eq!(live_event_in("[]"), None);
}

#[test]
fn a_connection_ends_only_when_a_side_is_gone() {
    assert_eq!(link_step(LinkEvent::Opened), LinkStep::Push);
    assert_eq!(link_step(LinkEvent::Pushed), LinkStep::Push);
    assert_eq!(link_step(LinkEvent::Text), LinkStep::Handle);
    for event in [
        LinkEvent::Lagged,
        LinkEvent::Other,
        LinkEvent::Sent,
        LinkEvent::Unwritable,
    ] {
        assert_eq!(link_step(event), LinkStep::Wait);
    }
    for event in [
        LinkEvent::PushClosed,
        LinkEvent::Closed,
        LinkEvent::Failed,
        LinkEvent::SendFailed,
    ] {
        assert_eq!(link_step(event), LinkStep::End);
    }
}
