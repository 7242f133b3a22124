//! One local tool's connection: what it is told, what its requests lead to, and which op it may be
//! offered to join.

use crate::local_api;
use crate::local_api::{key_state, resolve, Action, KeyState, KeyStateView, Refusal};
use crate::protocol;
use crate::protocol::{ClientMessage, OpContext};
use crate::text::str_eq;
use vstd::prelude::*;

verus! {

/// One request. The optional `id` is echoed on the reply, so that two keys pressed in quick
/// succession cannot take each other's outcome.
#[derive(Debug, Clone, PartialEq, Eq)]
pub struct Request {
    pub id: Option<u64>,
    pub action: Action,
}

/// What is sent to a local tool.
#[derive(Debug, Clone, PartialEq, Eq)]
pub enum Response {
    /// The board: on connect, on every context change, and whenever the server socket goes up or
    /// down.
    State(KeyState),
    /// The request was relayed.
    Ack { id: Option<u64> },
    /// The request was refused, with the reason.
    Nack { id: Option<u64>, reason: String },
}

/// What a [`Response`] says, with its strings as characters.
pub enum ResponseView {
    State(KeyStateView),
    Ack { id: Option<u64> },
    Nack { id: Option<u64>, reason: Seq<char> },
}

impl View for Response {
    type V = ResponseView;

    open spec fn view(&self) -> ResponseView {
        match *self {
            Response::State(k) => ResponseView::State(k@),
            Response::Ack { id } => ResponseView::Ack { id },
            Response::Nack { id, reason } => ResponseView::Nack { id, reason: reason@ },
        }
    }
}

/// What a request leads to.
#[derive(Debug, Clone, PartialEq, Eq)]
pub enum Handling {
    /// Send this message to the server, and answer with [`relayed`].
    Relay { id: Option<u64>, message: ClientMessage },
    /// Answer with this.
    Reply(Response),
}

/// What a request leads to. Text that is no known request is refused without an id, since none
/// could be read.
pub open spec fn handled(
    request: Option<Request>,
    connected: bool,
    ctx: Option<OpContext>,
    candidate: Option<Seq<char>>,
    r: Handling,
) -> bool {
    match request {
        None => r matches Handling::Reply(reply) && reply@ == (ResponseView::Nack {
            id: None,
            reason: "unknown_action"@,
        }),
        Some(q) => match local_api::refusal(q.action, connected, ctx, candidate) {
            Some(why) => r matches Handling::Reply(reply) && reply@ == (ResponseView::Nack {
                id: q.id,
                reason: why.name(),
            }),
            None => r matches Handling::Relay { id, message } && id == q.id && message@
                == local_api::intent(q.action, ctx, candidate),
        },
    }
}

/// The reply to a relayed request: the socket may have dropped between the decision and the send.
pub open spec fn relay_reply(id: Option<u64>, sent: bool) -> ResponseView {
    if sent {
        ResponseView::Ack { id }
    } else {
        ResponseView::Nack { id, reason: Refusal::NotConnected.name() }
    }
}

/// The reply to a relayed request.
pub fn relayed(id: Option<u64>, sent: bool) -> (r: Response)
    ensures
        r@ == relay_reply(id, sent),
{
    if sent {
        Response::Ack { id }
    } else {
        Response::Nack { id, reason: Refusal::NotConnected.wire().to_string() }
    }
}

/// How long an op to join stays fresh, in milliseconds.
pub const CANDIDATE_TTL_MS: u64 = 30_000;

/// What the board is drawn from: the last op context, and the live op a member could join.
pub struct LocalBoard {
    /// The last context the server pushed.
    ctx: Option<OpContext>,
    /// A live op to join.
    candidate: Option<String>,
    /// When the candidate was last looked up, on a clock in milliseconds.
    looked_up: Option<u64>,
}

/// The op that may still be joined when a lookup is considered: none on an op.
pub open spec fn still_joinable(
    ctx: Option<OpContext>,
    joinable: Option<Seq<char>>,
) -> Option<Seq<char>> {
    if ctx is Some {
        None
    } else {
        joinable
    }
}

/// The op that may be joined after a lookup: what it found, whatever was known before.
pub open spec fn joinable_now(
    known: Option<Seq<char>>,
    found: Option<Seq<char>>,
) -> Option<Seq<char>> {
    found
}

impl LocalBoard {
    pub closed spec fn context(self) -> Option<OpContext> {
        self.ctx
    }

    pub closed spec fn joinable(self) -> Option<Seq<char>> {
        protocol::text_of(self.candidate)
    }

    pub closed spec fn looked_up(self) -> Option<u64> {
        self.looked_up
    }

    /// The candidate was looked up less than [`CANDIDATE_TTL_MS`] ago.
    pub open spec fn fresh(self, now: u64) -> bool {
        self.looked_up() matches Some(at) && now - at < CANDIDATE_TTL_MS
    }

    /// An op to join is to be looked up now.
    pub open spec fn due(self, now: u64) -> bool {
        self.context() is None && !self.fresh(now)
    }

    /// Nothing known yet.
    pub fn new() -> (r: Self)
        ensures
            r.context() is None,
            r.joinable() is None,
            r.looked_up() is None,
    {
        LocalBoard { ctx: None, candidate: None, looked_up: None }
    }

    /// Remembers the context the server pushed.
    pub fn on_context(&mut self, op: Option<OpContext>)
        ensures
            final(self).context() == op,
            final(self).joinable() == old(self).joinable(),
            final(self).looked_up() == old(self).looked_up(),
    {
        self.ctx = op;
    }

    /// Whether to look up an op to join. On an op there is nothing to join, so the candidate is
    /// dropped; off one, it is looked up once it is no longer fresh.
    pub fn lookup_due(&mut self, now: u64) -> (r: bool)
        ensures
            r == (old(self).context() is None && !old(self).fresh(now)),
            r == old(self).due(now),
            final(self).context() == old(self).context(),
            final(self).looked_up() == old(self).looked_up(),
            final(self).joinable() == if old(self).context() is Some {
                None
            } else {
                old(self).joinable()
            },
            final(self).joinable() == still_joinable(old(self).context(), old(self).joinable()),
    {
        if self.ctx.is_some() {
            self.candidate = None;
            return false;
        }
        match self.looked_up {
            Some(at) => now >= at && now - at >= CANDIDATE_TTL_MS,
            None => true,
        }
    }

    /// Stores what a lookup found.
    pub fn looked_up_now(&mut self, found: Option<String>, now: u64)
        ensures
            final(self).context() == old(self).context(),
            final(self).joinable() == protocol::text_of(found),
            final(self).joinable() == joinable_now(old(self).joinable(), protocol::text_of(found)),
            final(self).looked_up() == Some(now),
    {
        self.candidate = found;
        self.looked_up = Some(now);
    }

    /// The candidate as a string slice.
    fn candidate_str(&self) -> (r: Option<&str>)
        ensures
            protocol::str_of(r) == self.joinable(),
    {
        match &self.candidate {
            Some(id) => Some(id.as_str()),
            None => None,
        }
    }

    /// The board to show now.
    pub fn current_key_state(&self, connected: bool) -> (r: KeyState)
        ensures
            r@ == local_api::board(connected, self.context(), self.joinable()),
    {
        key_state(connected, self.ctx.as_ref(), self.candidate_str())
    }

    /// Resolves one request: `None` is text that could not be read as one.
    pub fn handle_request(&self, request: Option<&Request>, connected: bool) -> (r: Handling)
        ensures
            handled(
                match request {
                    Some(q) => Some(*q),
                    None => None,
                },
                connected,
                self.context(),
                self.joinable(),
                r,
            ),
    {
        let request = match request {
            Some(request) => request,
            None => {
                return Handling::Reply(
                    Response::Nack { id: None, reason: "unknown_action".to_string() },
                );
            },
        };
        match resolve(&request.action, connected, self.ctx.as_ref(), self.candidate_str()) {
            Err(why) => Handling::Reply(
                Response::Nack { id: request.id, reason: why.wire().to_string() },
            ),
            Ok(message) => Handling::Relay { id: request.id, message },
        }
    }
}

/// Two strings of each element of a JSON array, by their keys.
pub open spec fn rows_view(
    rows: Option<Vec<(Option<String>, Option<String>)>>,
) -> Option<Seq<(Option<Seq<char>>, Option<Seq<char>>)>> {
    match rows {
        Some(v) => Some(row_texts(v@)),
        None => None,
    }
}

/// The characters of each row.
pub open spec fn row_texts(
    rows: Seq<(Option<String>, Option<String>)>,
) -> Seq<(Option<Seq<char>>, Option<Seq<char>>)> {
    Seq::new(
        rows.len(),
        |i: int| (protocol::text_of(rows[i].0), protocol::text_of(rows[i].1)),
    )
}

/// What `serde_json::from_str` reads from a text as an array: for each element, the strings under
/// two keys. `None` when the text is no JSON array; `None` for a key that an element lacks or under
/// which it holds no string.
pub uninterp spec fn json_rows(
    body: Seq<char>,
    first: Seq<char>,
    second: Seq<char>,
) -> Option<Seq<(Option<Seq<char>>, Option<Seq<char>>)>>;

/// Reads a text with `serde_json::from_str` as a `serde_json::Value`, and hands out, for each
/// element of the array it holds, the strings under two keys.
///
/// The contract claims that the outcome depends on the three texts alone; what the JSON grammar
/// makes of a text is left to the name [`json_rows`].
#[verifier::external_body]
fn read_json_rows(body: &str, first: &str, second: &str) -> (r: Option<
    Vec<(Option<String>, Option<String>)>,
>)
    ensures
        rows_view(r) == json_rows(body@, first@, second@),
{
    let value: serde_json::Value = serde_json::from_str(body).ok()?;
    let text = |e: &serde_json::Value, k: &str| e.get(k).and_then(|v| v.as_str()).map(str::to_string);
    Some(value.as_array()?.iter().map(|e| (text(e, first), text(e, second))).collect())
}

/// The id of the first row whose status is `live`: a live event without an id hides later ones.
pub open spec fn first_live(
    rows: Seq<(Option<Seq<char>>, Option<Seq<char>>)>,
) -> Option<Seq<char>>
    decreases rows.len(),
{
    if rows.len() == 0 {
        None
    } else if rows[0].0 == Some("live"@) {
        rows[0].1
    } else {
        first_live(rows.skip(1))
    }
}

/// The id of the first event whose status is `live`, among pairs of status and id.
pub fn first_live_event(rows: &Vec<(Option<String>, Option<String>)>) -> (r: Option<String>)
    ensures
        protocol::text_of(r) == first_live(row_texts(rows@)),
{
    let ghost all = row_texts(rows@);
    let mut i: usize = 0;
    assert(all.skip(0) =~= all);
    while i < rows.len()
        invariant
            i <= rows@.len(),
            all == row_texts(rows@),
            first_live(all) == first_live(all.skip(i as int)),
        decreases rows@.len() - i,
    {
        assert(all.skip(i as int)[0] == all[i as int]);
        let live = match &rows[i].0 {
            Some(status) => str_eq(status.as_str(), "live"),
            None => false,
        };
        if live {
            return protocol::clone_text(&rows[i].1);
        }
        assert(all.skip(i as int).skip(1) =~= all.skip(i + 1));
        i += 1;
    }
    None
}

/// The live event to join, from the body of the event list: `None` when there is none or the body
/// is no event list.
pub fn live_event_in(body: &str) -> (r: Option<String>)
    ensures
        protocol::text_of(r) == match json_rows(body@, "status"@, "id"@) {
            Some(rows) => first_live(rows),
            None => None,
        },
{
    match read_json_rows(body, "status", "id") {
        Some(rows) => first_live_event(&rows),
        None => None,
    }
}

/// What happens on a local connection.
#[derive(Debug, Clone, Copy, PartialEq, Eq, Structural)]
pub enum LinkEvent {
    /// The connection is open.
    Opened,
    /// A board to pass on.
    Pushed,
    /// Some boards were missed.
    Lagged,
    /// No more boards will come.
    PushClosed,
    /// The tool sent text.
    Text,
    /// The tool closed the connection, or its stream ended.
    Closed,
    /// Reading failed.
    Failed,
    /// The tool sent anything else.
    Other,
    /// A reply or a board was sent.
    Sent,
    /// A reply could not be written down.
    Unwritable,
    /// Sending failed.
    SendFailed,
}

/// What a local connection does next.
#[derive(Debug, Clone, Copy, PartialEq, Eq, Structural)]
pub enum LinkStep {
    /// Send the board.
    Push,
    /// Handle the text as a request, and send the reply.
    Handle,
    /// Wait for the next event.
    Wait,
    /// Close.
    End,
}

/// What a local connection does next, for each event.
pub open spec fn link_next(event: LinkEvent) -> LinkStep {
    match event {
        LinkEvent::Opened | LinkEvent::Pushed => LinkStep::Push,
        LinkEvent::Text => LinkStep::Handle,
        LinkEvent::Lagged | LinkEvent::Other | LinkEvent::Sent | LinkEvent::Unwritable => {
            LinkStep::Wait
        },
        _ => LinkStep::End,
    }
}

/// What a local connection does next. A tool that has just connected gets a board at once, so that
/// it shows the true state rather than none until the next change. A missed board is not repeated:
/// the next one is complete.
pub fn link_step(event: LinkEvent) -> (r: LinkStep)
    ensures
        r == match event {
            LinkEvent::Opened | LinkEvent::Pushed => LinkStep::Push,
            LinkEvent::Text => LinkStep::Handle,
            LinkEvent::Lagged | LinkEvent::Other | LinkEvent::Sent | LinkEvent::Unwritable => {
                LinkStep::Wait
            },
            _ => LinkStep::End,
        },
        r == link_next(event),
{
    match event {
        LinkEvent::Opened | LinkEvent::Pushed => LinkStep::Push,
        LinkEvent::Text => LinkStep::Handle,
        LinkEvent::Lagged | LinkEvent::Other | LinkEvent::Sent | LinkEvent::Unwritable => {
            LinkStep::Wait
        },
        LinkEvent::PushClosed | LinkEvent::Closed | LinkEvent::Failed | LinkEvent::SendFailed => {
            LinkStep::End
        },
    }
}

/// Every request that can be read is answered under its own id, refused or relayed, sent or not;
/// and only what the rules accept is ever relayed.
pub proof fn law_reply_echoes_id(
    request: Request,
    connected: bool,
    ctx: Option<OpContext>,
    candidate: Option<Seq<char>>,
    r: Handling,
    sent: bool,
)
    requires
        handled(Some(request), connected, ctx, candidate, r),
    ensures
        match r {
            Handling::Reply(reply) => {
                &&& reply@ matches ResponseView::Nack { id, reason } && id == request.id
                &&& local_api::refusal(request.action, connected, ctx, candidate) is Some
            },
            Handling::Relay { id, message } => {
                &&& relay_reply(id, sent) is State == false
                &&& (relay_reply(id, sent) == (ResponseView::Ack { id: request.id })) == sent
                &&& relay_reply(id, sent) matches ResponseView::Nack { id, reason } ==> id
                    == request.id
                &&& local_api::refusal(request.action, connected, ctx, candidate) is None
                &&& connected
            },
        },
{
}

/// A request that cannot be read is never relayed, and is refused as unknown without an id.
pub proof fn law_unknown_is_refused(
    connected: bool,
    ctx: Option<OpContext>,
    candidate: Option<Seq<char>>,
    r: Handling,
)
    requires
        handled(None, connected, ctx, candidate, r),
    ensures
        r is Reply,
        r matches Handling::Reply(reply) ==> reply@ == (ResponseView::Nack {
            id: None,
            reason: "unknown_action"@,
        }),
{
}

/// The op that is offered is a live one, and the first: where an id comes out, it is that of a row
/// whose status is `live`, and no row before it is live. Where no row is live nothing comes out, and
/// where one is, the first such row decides.
pub proof fn law_only_a_live_op_is_offered(
    rows: Seq<(Option<Seq<char>>, Option<Seq<char>>)>,
    i: int,
)
    ensures
        first_live(rows) matches Some(id) ==> (exists|k: int|
            0 <= k < rows.len() && #[trigger] rows[k].0 == Some("live"@) && rows[k].1 == Some(id)
                && (forall|j: int| 0 <= j < k ==> #[trigger] rows[j].0 != Some("live"@))),
        (forall|j: int| 0 <= j < rows.len() ==> #[trigger] rows[j].0 != Some("live"@))
            ==> first_live(rows) is None,
        0 <= i < rows.len() && rows[i].0 == Some("live"@) && (forall|j: int|
            0 <= j < i ==> #[trigger] rows[j].0 != Some("live"@)) ==> first_live(rows) == rows[i].1,
    decreases rows.len(),
{
    if rows.len() > 0 {
        let rest = rows.skip(1);
        law_only_a_live_op_is_offered(rest, i - 1);
        if rows[0].0 != Some("live"@) {
            assert forall|j: int| 0 <= j < rest.len() implies rest[j] == rows[j + 1] by {}
            if first_live(rest) is Some {
                let id = first_live(rest)->0;
                let k = choose|k: int|
                    0 <= k < rest.len() && #[trigger] rest[k].0 == Some("live"@) && rest[k].1
                        == Some(id) && (forall|j: int|
                        0 <= j < k ==> #[trigger] rest[j].0 != Some("live"@));
                assert(rows[k + 1].0 == Some("live"@));
                assert forall|j: int| 0 <= j < k + 1 implies #[trigger] rows[j].0 != Some(
                    "live"@,
                ) by {
                    if j > 0 {
                        assert(rest[j - 1].0 != Some("live"@));
                    }
                }
            }
            if forall|j: int| 0 <= j < rows.len() ==> #[trigger] rows[j].0 != Some("live"@) {
                assert forall|j: int| 0 <= j < rest.len() implies #[trigger] rest[j].0 != Some(
                    "live"@,
                ) by {
                    assert(rows[j + 1].0 != Some("live"@));
                }
            }
            if 0 < i < rows.len() && (forall|j: int|
                0 <= j < i ==> #[trigger] rows[j].0 != Some("live"@)) {
                assert forall|j: int| 0 <= j < i - 1 implies #[trigger] rest[j].0 != Some(
                    "live"@,
                ) by {
                    assert(rows[j + 1].0 != Some("live"@));
                }
                assert(rest[i - 1] == rows[i]);
            }
        } else {
            assert(rows[0].0 == Some("live"@));
            if 0 < i < rows.len() {
                assert(rows[0].0 == Some("live"@));
            }
        }
    }
}

/// The rows of an event list read as they are, in order.
pub proof fn law_rows_read_as_they_are(rows: Seq<(Option<String>, Option<String>)>, i: int)
    requires
        0 <= i < rows.len(),
    ensures
        row_texts(rows).len() == rows.len(),
        row_texts(rows)[i].0 is Some == rows[i].0 is Some,
        row_texts(rows)[i].1 is Some == rows[i].1 is Some,
        rows[i].0 matches Some(s) ==> row_texts(rows)[i].0 == Some(s@),
        rows[i].1 matches Some(s) ==> row_texts(rows)[i].1 == Some(s@),
{
}

/// A lookup holds for as long as it is fresh: the next one is due exactly when that time is over,
/// and none ever is on an op. Before the first there is always one due.
pub proof fn law_lookups_are_spaced(board: LocalBoard, at: u64, now: u64)
    ensures
        board.context() is Some ==> !board.due(now),
        board.context() is None && board.looked_up() is None ==> board.due(now),
        board.context() is None && board.looked_up() == Some(at) ==> board.due(now) == (now >= at
            + 30_000),
{
}

/// A relayed request is acknowledged exactly when it was sent, and otherwise refused as not
/// connected, either way under its own id.
pub proof fn law_relay_is_answered(id: Option<u64>, sent: bool)
    ensures
        relay_reply(id, sent) is Ack == sent,
        relay_reply(id, sent) is Nack == !sent,
        relay_reply(id, sent) matches ResponseView::Ack { id: echoed } ==> echoed == id,
        relay_reply(id, sent) matches ResponseView::Nack { id: echoed, reason } ==> echoed == id
            && reason == "not_connected"@,
{
}

/// What a request leads to is what its action does: it is relayed with the action's own message
/// where the rules accept it, and else refused with the name of the reason.
pub proof fn law_request_is_its_action(
    request: Request,
    connected: bool,
    ctx: Option<OpContext>,
    candidate: Option<Seq<char>>,
    r: Handling,
)
    requires
        handled(Some(request), connected, ctx, candidate, r),
    ensures
        r is Relay == local_api::refusal(request.action, connected, ctx, candidate) is None,
        r matches Handling::Relay { id, message } ==> id == request.id && message@
            == local_api::intent(request.action, ctx, candidate),
        r matches Handling::Reply(reply) ==> (reply@ matches ResponseView::Nack { id, reason } && id
            == request.id && Some(reason) == (match local_api::refusal(
            request.action,
            connected,
            ctx,
            candidate,
        ) {
            Some(why) => Some(why.name()),
            None => None,
        })),
        r matches Handling::Relay { id, message } ==> {
            &&& request.action is TriggerClip ==> message is TriggerClip
                && message->TriggerClip_key@ == request.action->TriggerClip_key@
            &&& request.action is MemberClip ==> message is TriggerMemberClip
                && message->TriggerMemberClip_key@ == request.action->MemberClip_key@
            &&& request.action is Quick ==> message is SendQuickAction
                && message->SendQuickAction_action@ == request.action->Quick_key@
            &&& request.action is BedVolume ==> message is SetBedVolume
                && message->SetBedVolume_percent == request.action->BedVolume_percent
        },
{
    if r is Relay {
        protocol::law_message_reads_as_it_is(r->message);
    }
}

/// A response reads as what it is.
pub proof fn law_response_reads_as_it_is(r: Response)
    ensures
        r matches Response::State(k) ==> r@ == ResponseView::State(k@),
        r matches Response::Ack { id } ==> r@ == (ResponseView::Ack { id }),
        r matches Response::Nack { id, reason } ==> r@ == (ResponseView::Nack {
            id,
            reason: reason@,
        }),
{
}

/// A connection sends a board exactly when it opens and when one is pushed, handles exactly what is
/// text, and ends exactly when a side is gone. A missed board, and what cannot be written, end
/// nothing.
pub proof fn law_link_lives(event: LinkEvent)
    ensures
        link_next(event) is Push == (event is Opened || event is Pushed),
        link_next(event) is Handle == event is Text,
        link_next(event) is End == (event is PushClosed || event is Closed || event is Failed
            || event is SendFailed),
        link_next(event) is Wait == (event is Lagged || event is Other || event is Sent || event
            is Unwritable),
{
}

/// An op that was offered is forgotten on joining one, kept while off one, and replaced by every
/// lookup, also by one that finds nothing. So no board offers an op that is over.
pub proof fn law_offer_is_current(
    op: OpContext,
    known: Option<Seq<char>>,
    found: Option<Seq<char>>,
    connected: bool,
)
    ensures
        still_joinable(Some(op), known) is None,
        still_joinable(None, known) == known,
        joinable_now(known, None) is None,
        joinable_now(known, found) == found,
        local_api::board(connected, None, joinable_now(known, found)).checkin == found,
        local_api::board(connected, Some(op), known).checkin is None,
{
}

} // verus!
