//! The signed-in session: what the server's answers mean, and the life of the member socket.

use crate::pairing;
use crate::protocol;
use crate::server;
use crate::server::member_ws_url_within;
use crate::text;
use crate::text::{joined, str_eq};
use vstd::prelude::*;

verus! {

/// A status that reports success.
pub open spec fn success(status: u16) -> bool {
    200 <= status <= 299
}

/// Whether a failed verification drops the token. Only a rejection of the credential does: a server
/// that is briefly unwell must not sign its members out.
pub fn should_clear_token(status: u16) -> (r: bool)
    ensures
        r == (status == 401 || status == 403),
        r == (verified(status) is Rejected),
{
    status == 401 || status == 403
}

/// What a verification of the token came to.
#[derive(Debug, Clone, Copy, PartialEq, Eq, Structural)]
pub enum Verification {
    /// The token stands; the body describes the member.
    SignedIn,
    /// Not signed in now; the token is kept.
    Unavailable,
    /// The token was rejected, and is dropped.
    Rejected,
}

/// What the status of a verification means.
pub open spec fn verified(status: u16) -> Verification {
    if success(status) {
        Verification::SignedIn
    } else if status == 401 || status == 403 {
        Verification::Rejected
    } else {
        Verification::Unavailable
    }
}

/// What the status of a verification means.
pub fn verification(status: u16) -> (r: Verification)
    ensures
        r == if success(status) {
            Verification::SignedIn
        } else if status == 401 || status == 403 {
            Verification::Rejected
        } else {
            Verification::Unavailable
        },
        r == verified(status),
{
    if 200 <= status && status <= 299 {
        Verification::SignedIn
    } else if should_clear_token(status) {
        Verification::Rejected
    } else {
        Verification::Unavailable
    }
}

/// The token to send, or that there is none.
pub fn required_token(token: Option<String>) -> (r: Result<String, String>)
    ensures
        match token {
            Some(t) => r == Ok::<String, String>(t),
            None => r matches Err(e) && e@ == "not signed in"@,
        },
{
    match token {
        Some(t) => Ok(t),
        None => Err("not signed in".to_string()),
    }
}

/// The value of the `Authorization` header for a token.
pub open spec fn bearer_header(token: Seq<char>) -> Seq<char> {
    "Bearer "@ + token
}

/// The value of the `Authorization` header for a token.
pub fn bearer_value(token: &str) -> (r: String)
    ensures
        r@ == "Bearer "@ + token@,
        r@ == bearer_header(token@),
{
    joined("Bearer ", token)
}

/// An endpoint of the server, as its URL and a path.
pub fn endpoint(server: &str, path: &str) -> (r: String)
    ensures
        r@ == server@ + path@,
{
    joined(server, path)
}

/// What a fetch came to: the body on success, else the status and the body.
pub open spec fn fetched(
    status: u16,
    status_text: Seq<char>,
    body: Seq<char>,
) -> Result<Seq<char>, Seq<char>> {
    if success(status) {
        Ok(body)
    } else {
        Err(status_text + ": "@ + body)
    }
}

/// What a fetch came to: the body on success, else the status and the body.
pub fn fetch_outcome(status: u16, status_text: &str, body: String) -> (r: Result<String, String>)
    ensures
        success(status) ==> r == Ok::<String, String>(body),
        !success(status) ==> (r matches Err(e) && e@ == status_text@ + ": "@ + body@),
        server::text_result(r) == fetched(status, status_text@, body@),
{
    if 200 <= status && status <= 299 {
        Ok(body)
    } else {
        let head = joined(status_text, ": ");
        Err(joined(head.as_str(), body.as_str()))
    }
}

/// What a fetch of an image came to: nothing is wrong on success, else the status is.
pub fn image_outcome(status: u16, status_text: &str) -> (r: Result<(), String>)
    ensures
        success(status) ==> r is Ok,
        !success(status) ==> (r matches Err(e) && e@ == status_text@),
{
    if 200 <= status && status <= 299 {
        Ok(())
    } else {
        Err(status_text.to_string())
    }
}

/// What sending a message came to: nothing is wrong, or the words for what is.
pub open spec fn send_error(connected: bool, sent: bool) -> Option<Seq<char>> {
    if !connected {
        Some("not connected to the live channel"@)
    } else if sent {
        None
    } else {
        Some("live channel closed"@)
    }
}

/// What sending a message to the server came to, given whether there is a socket and whether its
/// queue took the message.
pub fn send_outcome(connected: bool, sent: bool) -> (r: Result<(), String>)
    ensures
        connected && sent ==> r is Ok,
        !connected ==> (r matches Err(e) && e@ == "not connected to the live channel"@),
        connected && !sent ==> (r matches Err(e) && e@ == "live channel closed"@),
        (match r {
            Ok(_) => None,
            Err(e) => Some(e@),
        }) == send_error(connected, sent),
{
    if !connected {
        return Err("not connected to the live channel".to_string());
    }
    if sent {
        Ok(())
    } else {
        Err("live channel closed".to_string())
    }
}

/// What the member socket does next.
#[derive(Debug, Clone, PartialEq, Eq)]
pub enum ConnectPlan {
    /// Report that the context is stale, and look again after this many milliseconds.
    Wait(u64),
    /// Connect to this URL with this token.
    Connect { url: String, token: String },
}

/// How long to wait for a token and a server, in milliseconds.
pub const IDLE_WAIT_MS: u64 = 2_000;

/// What to connect with: the socket's URL and the token, if there are both.
pub open spec fn connection(
    token: Option<String>,
    url: Result<String, String>,
) -> Option<(Seq<char>, Seq<char>)> {
    match (token, url) {
        (Some(t), Ok(u)) => Some((u@, t@)),
        _ => None,
    }
}

/// There is something to connect with: a token, and a server with a socket.
pub open spec fn can_connect(token: Option<String>, url: Result<String, String>) -> bool {
    token is Some && url is Ok
}

/// What the member socket does next, given the token and the socket's URL.
pub fn connect_plan(token: Option<String>, url: Result<String, String>) -> (r: ConnectPlan)
    ensures
        match (token, url) {
            (Some(token), Ok(url)) => r == (ConnectPlan::Connect { url, token }),
            _ => r == ConnectPlan::Wait(IDLE_WAIT_MS),
        },
        r is Connect == can_connect(token, url),
        (match r {
            ConnectPlan::Connect { url, token } => Some((url@, token@)),
            ConnectPlan::Wait(_) => None,
        }) == connection(token, url),
{
    match (token, url) {
        (Some(token), Ok(url)) => ConnectPlan::Connect { url, token },
        _ => ConnectPlan::Wait(IDLE_WAIT_MS),
    }
}

/// What the member socket does next, given the token and the configured server. A server whose URL
/// leaves no room for that of the socket is waited out like one that is none.
pub fn member_socket_plan(token: Option<String>, server: &str) -> (r: ConnectPlan)
    ensures
        match (token, server::member_socket(server@)) {
            (Some(t), Ok(socket)) if server::socket_room(server@) => {
                r matches ConnectPlan::Connect { url, token } && url@ == socket && token == t
            },
            _ => r == ConnectPlan::Wait(IDLE_WAIT_MS),
        },
{
    match member_ws_url_within(server) {
        Some(url) => connect_plan(token, url),
        None => ConnectPlan::Wait(IDLE_WAIT_MS),
    }
}

/// One act after the member socket went down.
#[derive(Debug, Clone, Copy, PartialEq, Eq, Structural)]
pub enum DownAct {
    /// Drop the sender: nothing can be sent.
    DropSender,
    /// Report that the context is stale.
    EmitStale,
    /// Push the board to the local tools, which now reads as disconnected.
    PushBoard,
    /// Wait this many milliseconds.
    Sleep(u64),
}

/// The first wait before connecting again, in milliseconds.
pub const BACKOFF_START_MS: u64 = 1_000;

/// The longest wait before connecting again, in milliseconds.
pub const BACKOFF_MAX_MS: u64 = 15_000;

/// What to do after the member socket went down, in order. Local tools learn of it before the wait:
/// no context message can tell them while the socket is down. The sender is gone before either
/// report, so the board that is pushed reads as disconnected.
pub open spec fn down_acts(wait_ms: u64) -> Seq<DownAct> {
    seq![DownAct::DropSender, DownAct::EmitStale, DownAct::PushBoard, DownAct::Sleep(wait_ms)]
}

/// The wait after the next time the member socket goes down: twice as long up to the limit, or the
/// first wait again after a connection that came up.
pub open spec fn next_wait(wait_ms: int, came_up: bool) -> int {
    if came_up {
        BACKOFF_START_MS as int
    } else if 2 * wait_ms < BACKOFF_MAX_MS {
        2 * wait_ms
    } else {
        BACKOFF_MAX_MS as int
    }
}

/// The task that keeps the member socket up.
pub struct MemberSocket {
    backoff_ms: u64,
}

impl MemberSocket {
    pub closed spec fn wf(self) -> bool {
        BACKOFF_START_MS <= self.backoff_ms <= BACKOFF_MAX_MS
    }

    /// The wait after the next time the socket goes down, in milliseconds.
    pub closed spec fn wait_ms(self) -> u64 {
        self.backoff_ms
    }

    pub fn new() -> (r: Self)
        ensures
            r.wf(),
            r.wait_ms() == BACKOFF_START_MS,
    {
        MemberSocket { backoff_ms: BACKOFF_START_MS }
    }

    /// What to do after the socket went down, in order.
    pub fn went_down(&self) -> (r: Vec<DownAct>)
        ensures
            r@ == down_acts(self.wait_ms()),
    {
        let mut acts: Vec<DownAct> = Vec::new();
        acts.push(DownAct::DropSender);
        acts.push(DownAct::EmitStale);
        acts.push(DownAct::PushBoard);
        acts.push(DownAct::Sleep(self.backoff_ms));
        assert(acts@ =~= down_acts(self.wait_ms()));
        acts
    }

    /// After the wait, given whether the connection that ended had come up. A server that refuses is
    /// asked less and less often.
    pub fn rested(&mut self, came_up: bool)
        requires
            old(self).wf(),
        ensures
            final(self).wf(),
            final(self).wait_ms() == next_wait(old(self).wait_ms() as int, came_up),
    {
        let doubled: u64 = self.backoff_ms * 2;
        self.backoff_ms = if doubled < BACKOFF_MAX_MS {
            doubled
        } else {
            BACKOFF_MAX_MS
        };
        if came_up {
            self.backoff_ms = BACKOFF_START_MS;
        }
    }
}

/// What happens on the member socket.
#[derive(Debug, Clone, Copy, PartialEq, Eq, Structural)]
pub enum MemberEvent {
    /// The connection is up.
    Opened,
    /// A message is to be sent.
    Outgoing,
    /// A message could not be written down.
    Unwritable,
    /// A message was sent.
    Sent,
    /// Sending failed.
    SendFailed,
    /// The server sent text.
    Text,
    /// The server closed the connection, or its stream ended.
    Closed,
    /// Reading failed.
    Failed,
    /// The server sent anything else.
    Other,
    /// It is time to see whether the session is still the one that was opened.
    Check { stale: bool },
}

/// What the member socket does next.
#[derive(Debug, Clone, Copy, PartialEq, Eq, Structural)]
pub enum MemberStep {
    /// Register the sender, and push the board to the local tools, which now reads as connected.
    Announce,
    /// Send the message.
    Write,
    /// Read the text, and act on the context that it may hold.
    Read,
    /// Wait for the next event.
    Wait,
    /// Close.
    End,
}

/// What the member socket does next, for each event.
pub open spec fn member_next(event: MemberEvent) -> MemberStep {
    match event {
        MemberEvent::Opened => MemberStep::Announce,
        MemberEvent::Outgoing => MemberStep::Write,
        MemberEvent::Text => MemberStep::Read,
        MemberEvent::Unwritable | MemberEvent::Sent | MemberEvent::Other => MemberStep::Wait,
        MemberEvent::Check { stale } => if stale {
            MemberStep::End
        } else {
            MemberStep::Wait
        },
        MemberEvent::SendFailed | MemberEvent::Closed | MemberEvent::Failed => MemberStep::End,
    }
}

/// What the member socket does next.
pub fn member_step(event: MemberEvent) -> (r: MemberStep)
    ensures
        r == match event {
            MemberEvent::Opened => MemberStep::Announce,
            MemberEvent::Outgoing => MemberStep::Write,
            MemberEvent::Text => MemberStep::Read,
            MemberEvent::Unwritable | MemberEvent::Sent | MemberEvent::Other => MemberStep::Wait,
            MemberEvent::Check { stale } => if stale {
                MemberStep::End
            } else {
                MemberStep::Wait
            },
            MemberEvent::SendFailed | MemberEvent::Closed | MemberEvent::Failed => MemberStep::End,
        },
        r == member_next(event),
{
    match event {
        MemberEvent::Opened => MemberStep::Announce,
        MemberEvent::Outgoing => MemberStep::Write,
        MemberEvent::Text => MemberStep::Read,
        MemberEvent::Unwritable | MemberEvent::Sent | MemberEvent::Other => MemberStep::Wait,
        MemberEvent::Check { stale } => if stale {
            MemberStep::End
        } else {
            MemberStep::Wait
        },
        MemberEvent::SendFailed | MemberEvent::Closed | MemberEvent::Failed => MemberStep::End,
    }
}

/// A connection no longer belongs to the session.
pub open spec fn stale(
    token: Option<Seq<char>>,
    server: Seq<char>,
    opened_token: Seq<char>,
    opened_server: Seq<char>,
) -> bool {
    token != Some(opened_token) || server != opened_server
}

/// Whether a connection no longer belongs to the session: its member signed out, signed in anew or
/// chose another server.
pub fn session_stale(
    token: Option<&str>,
    server: &str,
    opened_token: &str,
    opened_server: &str,
) -> (r: bool)
    ensures
        r == (protocol::str_of(token) != Some(opened_token@) || server@ != opened_server@),
        r == stale(protocol::str_of(token), server@, opened_token@, opened_server@),
{
    let same_token = match token {
        Some(t) => str_eq(t, opened_token),
        None => false,
    };
    !same_token || !str_eq(server, opened_server)
}

/// The wait after a run of times that the member socket went down without having come up.
pub open spec fn waited(downs: nat) -> int
    decreases downs,
{
    if downs == 0 {
        BACKOFF_START_MS as int
    } else {
        next_wait(waited((downs - 1) as nat), false)
    }
}

/// The socket is always tried again within the longest wait, the waits of a run never get shorter,
/// and after a connection that came up the next wait is always the first one.
pub proof fn law_always_reconnects(downs: nat)
    ensures
        BACKOFF_START_MS <= waited(downs) <= BACKOFF_MAX_MS,
        waited(downs) <= waited(downs + 1),
        next_wait(waited(downs), true) == BACKOFF_START_MS,
        downs >= 4 ==> waited(downs) == BACKOFF_MAX_MS,
    decreases downs,
{
    if downs > 0 {
        law_always_reconnects((downs - 1) as nat);
    }
    reveal_with_fuel(waited, 6);
}

/// Only a status of the two hundreds is a success, and only a rejection of the credential, by one of
/// two statuses, drops the token. Any other status keeps it.
pub proof fn law_only_a_rejection_signs_out(status: u16)
    ensures
        success(status) == (status / 100 == 2),
        verified(status) is SignedIn == (status / 100 == 2),
        verified(status) is Rejected == (status == 401 || status == 403),
        status >= 500 ==> verified(status) is Unavailable,
{
}

/// A fetch hands out the body exactly on success; else the error has the status before the body.
pub proof fn law_fetch(status: u16, status_text: Seq<char>, body: Seq<char>)
    ensures
        status / 100 == 2 ==> fetched(status, status_text, body) == Ok::<Seq<char>, Seq<char>>(
            body,
        ),
        status / 100 != 2 ==> (fetched(status, status_text, body) matches Err(e)
            && status_text.is_prefix_of(e) && body.is_suffix_of(e) && e.len() == status_text.len()
            + 2 + body.len()),
{
    reveal_strlit(": ");
    let e = status_text + ": "@ + body;
    assert(e.subrange(0, status_text.len() as int) =~= status_text);
    assert(e.subrange(e.len() - body.len(), e.len() as int) =~= body);
}

/// A connection ends exactly when a side is gone or the session is another. What could not be
/// written, or is of no interest, ends nothing; messages are written and text is read.
pub proof fn law_member_socket_lives(event: MemberEvent)
    ensures
        member_next(event) is End == (event is Closed || event is Failed || event is SendFailed
            || event == (MemberEvent::Check { stale: true })),
        member_next(event) is Announce == event is Opened,
        member_next(event) is Write == event is Outgoing,
        member_next(event) is Read == event is Text,
{
}

/// A connection stays with the session that it was opened for, and with no other: signing out,
/// another token or another server make it stale.
pub proof fn law_session_stays_its_own(
    token: Seq<char>,
    other_token: Seq<char>,
    server: Seq<char>,
    other_server: Seq<char>,
)
    ensures
        !stale(Some(token), server, token, server),
        stale(None, server, token, server),
        other_token != token ==> stale(Some(other_token), server, token, server),
        other_server != server ==> stale(Some(token), other_server, token, server),
{
}

/// A connection is tried exactly with a token and a socket.
pub proof fn law_connects_with_both(token: Option<String>, url: Result<String, String>)
    ensures
        token is None ==> !can_connect(token, url),
        url is Err ==> !can_connect(token, url),
        token is Some && url is Ok ==> can_connect(token, url),
{
}

/// The next wait is twice the last one, up to the limit, and the first one again after a connection
/// that came up.
pub proof fn law_next_wait(wait_ms: int)
    requires
        wait_ms > 0,
    ensures
        next_wait(wait_ms, true) == 1_000,
        wait_ms <= 7_500 ==> next_wait(wait_ms, false) == wait_ms + wait_ms,
        wait_ms >= 7_500 ==> next_wait(wait_ms, false) == 15_000,
{
}

/// When the socket goes down nothing can be sent any more before anyone is told, everyone is told
/// before the wait, and the wait is the one that is due.
pub proof fn law_down_in_order(wait_ms: u64)
    ensures
        down_acts(wait_ms).len() == 4,
        down_acts(wait_ms)[0] is DropSender,
        down_acts(wait_ms).contains(DownAct::EmitStale),
        down_acts(wait_ms).contains(DownAct::PushBoard),
        down_acts(wait_ms).last() == DownAct::Sleep(wait_ms),
{
    assert(down_acts(wait_ms)[1] == DownAct::EmitStale);
    assert(down_acts(wait_ms)[2] == DownAct::PushBoard);
}

/// A token survives its header: read as one, the header holds just that token.
pub proof fn law_bearer_round_trip(token: Seq<char>)
    requires
        text::trimmed(token) == token,
    ensures
        pairing::bearer_token(Some(bearer_header(token))) == Some(token),
{
    pairing::law_bearer_header(token, bearer_header(token), None);
}

/// A message is sent exactly where there is a socket whose queue took it, and each failure has its
/// own words.
pub proof fn law_sending(connected: bool, sent: bool)
    ensures
        send_error(connected, sent) is None <==> connected && sent,
        !connected ==> send_error(connected, sent) == Some("not connected to the live channel"@),
        connected && !sent ==> send_error(connected, sent) == Some("live channel closed"@),
{
}

/// A connection is made to the very URL, with the very token.
pub proof fn law_connection(token: String, url: String, why: String)
    ensures
        connection(Some(token), Ok(url)) == Some((url@, token@)),
        connection(None, Ok(url)) is None,
        connection(Some(token), Err(why)) is None,
{
}

} // verus!
