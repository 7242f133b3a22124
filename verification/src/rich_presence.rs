//! Mirrors the presence block that the server composes onto the member's Discord profile.
//!
//! The server decides what may be shown. Talking to Discord is best effort: every failure is noted
//! and the next block tries again.

use crate::protocol;
use crate::protocol::DiscordPresence;
use crate::text::str_eq;
use vstd::prelude::*;

verus! {

/// What to show on the profile.
#[derive(Debug, Clone, PartialEq, Eq)]
pub struct ActivityCard {
    pub details: String,
    pub state: String,
    /// Label and target of a link button.
    pub button: Option<(String, String)>,
}

/// What an [`ActivityCard`] shows, with its strings as characters.
pub struct ActivityCardView {
    pub details: Seq<char>,
    pub state: Seq<char>,
    pub button: Option<(Seq<char>, Seq<char>)>,
}

impl View for ActivityCard {
    type V = ActivityCardView;

    open spec fn view(&self) -> ActivityCardView {
        ActivityCardView {
            details: self.details@,
            state: self.state@,
            button: match self.button {
                Some(b) => Some((b.0@, b.1@)),
                None => None,
            },
        }
    }
}

/// The card for a presence block. A button needs both a label and a target.
pub open spec fn card_for(dp: DiscordPresence) -> ActivityCardView {
    ActivityCardView {
        details: dp.details@,
        state: dp.state@,
        button: if dp.button_url@.len() > 0 && dp.button_label@.len() > 0 {
            Some((dp.button_label@, dp.button_url@))
        } else {
            None
        },
    }
}

/// The two text lines of a presence block.
pub fn activity_fields(dp: &DiscordPresence) -> (r: (String, String))
    ensures
        r.0@ == dp.details@,
        r.1@ == dp.state@,
{
    (dp.details.clone(), dp.state.clone())
}

/// The card for a presence block.
pub fn activity_card(dp: &DiscordPresence) -> (r: ActivityCard)
    ensures
        r@ == card_for(*dp),
{
    let (details, state) = activity_fields(dp);
    let button = if !dp.button_url.as_str().is_empty() && !dp.button_label.as_str().is_empty() {
        Some((dp.button_label.clone(), dp.button_url.clone()))
    } else {
        None
    };
    ActivityCard { details, state, button }
}

/// Why nothing is shown.
#[derive(Debug, Clone, Copy, PartialEq, Eq, Structural)]
pub enum NotShowing {
    /// The server marked the block as not allowed.
    NotAllowed,
    /// The server sent no block.
    NoBlock,
}

/// What to do about the profile next.
#[derive(Debug, Clone, PartialEq, Eq)]
pub enum PresenceStep {
    /// Show nothing: note why, unless it was noted before, and clear what is shown, if anything is.
    Hide { note: Option<NotShowing>, clear: bool },
    /// Show this card: close the connection if told to, connect if told to and report to
    /// [`RichPresence::connected`], and once connected show the card and report to
    /// [`RichPresence::activity_set`].
    Show { close: bool, connect: bool, card: ActivityCard },
}

/// What a [`PresenceStep`] says, with its strings as characters.
pub enum PresenceStepView {
    Hide { note: Option<NotShowing>, clear: bool },
    Show { close: bool, connect: bool, card: ActivityCardView },
}

impl View for PresenceStep {
    type V = PresenceStepView;

    open spec fn view(&self) -> PresenceStepView {
        match *self {
            PresenceStep::Hide { note, clear } => PresenceStepView::Hide { note, clear },
            PresenceStep::Show { close, connect, card } => PresenceStepView::Show {
                close,
                connect,
                card: card@,
            },
        }
    }
}

/// What to do on shutdown.
#[derive(Debug, Clone, Copy, PartialEq, Eq, Structural)]
pub struct PresenceShutdown {
    /// Clear what is shown.
    pub clear: bool,
    /// Close the connection.
    pub close: bool,
}

/// The connection to Discord and what is shown there.
pub struct RichPresence {
    connected: bool,
    client_id: Option<String>,
    active: bool,
    last_sent: Option<(String, String)>,
    noted: bool,
}

/// The state of a [`RichPresence`].
pub struct RichPresenceView {
    /// There is a connection.
    pub connected: bool,
    /// The application id it was made with, or is to be.
    pub client_id: Option<Seq<char>>,
    /// Discord shows a card.
    pub active: bool,
    /// The lines of the card that was last noted as shown.
    pub last_sent: Option<(Seq<char>, Seq<char>)>,
    /// Why nothing is shown was noted.
    pub noted: bool,
}

impl View for RichPresence {
    type V = RichPresenceView;

    closed spec fn view(&self) -> RichPresenceView {
        RichPresenceView {
            connected: self.connected,
            client_id: protocol::text_of(self.client_id),
            active: self.active,
            last_sent: match self.last_sent {
                Some(lines) => Some((lines.0@, lines.1@)),
                None => None,
            },
            noted: self.noted,
        }
    }
}

impl RichPresenceView {
    /// A card is shown only over a connection, and a connection belongs to an application id.
    pub open spec fn wf(self) -> bool {
        &&& self.active ==> self.connected
        &&& self.connected ==> self.client_id is Some
    }

    /// Nothing is shown, and nothing was.
    pub open spec fn cleared(self) -> RichPresenceView {
        if self.active {
            RichPresenceView { active: false, last_sent: None, ..self }
        } else {
            self
        }
    }

    /// The connection is for this application id: one that was made with another is closed.
    pub open spec fn for_client(self, id: Seq<char>) -> RichPresenceView {
        if self.client_id == Some(id) {
            self
        } else {
            RichPresenceView { connected: false, client_id: Some(id), active: false, ..self }
        }
    }
}

/// What a reference to a presence block refers to, if it may be shown.
pub open spec fn shown_block(presence: Option<&DiscordPresence>) -> Option<DiscordPresence> {
    match presence {
        Some(dp) if dp.allowed => Some(*dp),
        _ => None,
    }
}

/// What a reference to a presence block refers to.
pub open spec fn block_of(presence: Option<&DiscordPresence>) -> Option<DiscordPresence> {
    match presence {
        Some(dp) => Some(*dp),
        None => None,
    }
}

/// What to do about a presence block, and the state then.
pub open spec fn applied(v: RichPresenceView, presence: Option<DiscordPresence>) -> (
    PresenceStepView,
    RichPresenceView,
) {
    match presence {
        Some(dp) if dp.allowed => {
            let same = v.client_id == Some(dp.client_id@);
            let connected = v.connected && same;
            (
                PresenceStepView::Show {
                    close: v.connected && !same,
                    connect: !connected,
                    card: card_for(dp),
                },
                RichPresenceView {
                    connected,
                    client_id: Some(dp.client_id@),
                    active: v.active && same,
                    last_sent: v.last_sent,
                    noted: false,
                },
            )
        },
        _ => (
            PresenceStepView::Hide {
                note: if v.noted {
                    None
                } else if presence is Some {
                    Some(NotShowing::NotAllowed)
                } else {
                    Some(NotShowing::NoBlock)
                },
                clear: v.active,
            },
            RichPresenceView {
                active: false,
                last_sent: if v.active {
                    None
                } else {
                    v.last_sent
                },
                noted: true,
                ..v
            },
        ),
    }
}

/// Whether a card that was to be shown is noted, and the state then.
pub open spec fn card_set(
    v: RichPresenceView,
    ok: bool,
    details: Seq<char>,
    state: Seq<char>,
) -> (bool, RichPresenceView) {
    if ok {
        (
            v.last_sent != Some((details, state)),
            RichPresenceView { active: true, last_sent: Some((details, state)), ..v },
        )
    } else {
        (false, RichPresenceView { connected: false, active: false, last_sent: None, ..v })
    }
}

/// What to do on shutdown, and the state then.
pub open spec fn shut_down(v: RichPresenceView) -> (PresenceShutdown, RichPresenceView) {
    (
        PresenceShutdown { clear: v.active, close: v.connected },
        RichPresenceView {
            connected: false,
            client_id: None,
            active: false,
            last_sent: if v.active {
                None
            } else {
                v.last_sent
            },
            ..v
        },
    )
}

impl RichPresence {
    /// No connection, and nothing shown.
    pub fn new() -> (r: Self)
        ensures
            r@ == (RichPresenceView {
                connected: false,
                client_id: None,
                active: false,
                last_sent: None,
                noted: false,
            }),
            r@.wf(),
    {
        RichPresence {
            connected: false,
            client_id: None,
            active: false,
            last_sent: None,
            noted: false,
        }
    }

    /// What to do about a presence block. One that is missing or not allowed clears what is shown;
    /// why is noted once until something is shown again. An allowed one is shown, over a connection
    /// for its application id.
    pub fn apply(&mut self, presence: Option<&DiscordPresence>) -> (r: PresenceStep)
        requires
            old(self)@.wf(),
        ensures
            final(self)@.wf(),
            (r@, final(self)@) == applied(old(self)@, block_of(presence)),
            match shown_block(presence) {
                None => {
                    &&& final(self)@ == (RichPresenceView { noted: true, ..old(self)@.cleared() })
                    &&& r == (PresenceStep::Hide {
                        note: if old(self)@.noted {
                            None
                        } else if presence is Some {
                            Some(NotShowing::NotAllowed)
                        } else {
                            Some(NotShowing::NoBlock)
                        },
                        clear: old(self)@.active,
                    })
                },
                Some(dp) => {
                    &&& final(self)@ == (RichPresenceView {
                        noted: false,
                        ..old(self)@.for_client(dp.client_id@)
                    })
                    &&& r matches PresenceStep::Show { close, connect, card } && close == (
                    old(self)@.connected && !final(self)@.connected) && connect
                        == !final(self)@.connected && card@ == card_for(dp)
                },
            },
    {
        match presence {
            Some(dp) => if dp.allowed {
                self.noted = false;
                return self.apply_allowed(dp);
            },
            None => {},
        }
        let note = if self.noted {
            None
        } else if presence.is_some() {
            Some(NotShowing::NotAllowed)
        } else {
            Some(NotShowing::NoBlock)
        };
        self.noted = true;
        let clear = self.clear();
        PresenceStep::Hide { note, clear }
    }

    /// What to do about an allowed presence block.
    fn apply_allowed(&mut self, dp: &DiscordPresence) -> (r: PresenceStep)
        requires
            old(self)@.wf(),
        ensures
            final(self)@.wf(),
            final(self)@ == old(self)@.for_client(dp.client_id@),
            r matches PresenceStep::Show { close, connect, card } && close == (old(self)@.connected
                && !final(self)@.connected) && connect == !final(self)@.connected && card@
                == card_for(*dp),
    {
        let same_client = match &self.client_id {
            Some(id) => str_eq(id.as_str(), dp.client_id.as_str()),
            None => false,
        };
        let mut close = false;
        if !same_client {
            close = self.connected;
            self.connected = false;
            self.client_id = Some(dp.client_id.clone());
            self.active = false;
        }
        PresenceStep::Show { close, connect: !self.connected, card: activity_card(dp) }
    }

    /// Forgets what is shown; whether anything was, and is to be cleared.
    fn clear(&mut self) -> (r: bool)
        requires
            old(self)@.wf(),
        ensures
            final(self)@.wf(),
            final(self)@ == old(self)@.cleared(),
            r == old(self)@.active,
    {
        if !self.active {
            return false;
        }
        self.active = false;
        self.last_sent = None;
        true
    }

    /// After trying to connect. A failure leaves it to the next block to try again.
    pub fn connected(&mut self, ok: bool)
        requires
            old(self)@.wf(),
            old(self)@.client_id is Some,
            !old(self)@.connected,
        ensures
            final(self)@.wf(),
            final(self)@ == (RichPresenceView { connected: ok, ..old(self)@ }),
    {
        self.connected = ok;
    }

    /// After trying to show a card: whether to note it, which is when its lines changed. A failure
    /// drops the connection, so that the next block makes a new one rather than write to a dead one.
    pub fn activity_set(&mut self, ok: bool, card: &ActivityCard) -> (r: bool)
        requires
            old(self)@.wf(),
            old(self)@.connected,
        ensures
            final(self)@.wf(),
            r == (ok && old(self)@.last_sent != Some((card@.details, card@.state))),
            (r, final(self)@) == card_set(old(self)@, ok, card@.details, card@.state),
            final(self)@ == if ok {
                RichPresenceView {
                    active: true,
                    last_sent: Some((card@.details, card@.state)),
                    ..old(self)@
                }
            } else {
                RichPresenceView { connected: false, active: false, last_sent: None, ..old(self)@ }
            },
    {
        if !ok {
            self.connected = false;
            self.active = false;
            self.last_sent = None;
            return false;
        }
        self.active = true;
        let same = match &self.last_sent {
            Some(lines) => str_eq(lines.0.as_str(), card.details.as_str()) && str_eq(
                lines.1.as_str(),
                card.state.as_str(),
            ),
            None => false,
        };
        if !same {
            self.last_sent = Some((card.details.clone(), card.state.clone()));
        }
        !same
    }

    /// What to do on shutdown: clear what is shown, and close the connection.
    pub fn shutdown(&mut self) -> (r: PresenceShutdown)
        requires
            old(self)@.wf(),
        ensures
            final(self)@.wf(),
            r == (PresenceShutdown { clear: old(self)@.active, close: old(self)@.connected }),
            (r, final(self)@) == shut_down(old(self)@),
            final(self)@ == (RichPresenceView {
                connected: false,
                client_id: None,
                ..old(self)@.cleared()
            }),
    {
        let clear = self.clear();
        let close = self.connected;
        self.connected = false;
        self.client_id = None;
        PresenceShutdown { clear, close }
    }
}

/// Nothing stays on the profile that the server does not allow: a block that is missing or not
/// allowed, and a change of the application id, leave no card behind; nor does shutdown, whatever
/// the state.
pub proof fn law_no_stale_card(v: RichPresenceView, id: Seq<char>)
    ensures
        !v.cleared().active,
        v.cleared().last_sent is Some ==> !v.active,
        v.client_id != Some(id) ==> !v.for_client(id).active && !v.for_client(id).connected,
        v.client_id == Some(id) ==> v.for_client(id) == v,
        v.for_client(id).client_id == Some(id),
{
}

/// The card shows the lines of the block, and a button exactly where it has both a label and a
/// target, with just those.
pub proof fn law_card_is_the_block(dp: DiscordPresence)
    ensures
        card_for(dp).details == dp.details@,
        card_for(dp).state == dp.state@,
        card_for(dp).button is Some <==> dp.button_label@.len() > 0 && dp.button_url@.len() > 0,
        card_for(dp).button matches Some(b) ==> b.0 == dp.button_label@ && b.1 == dp.button_url@,
{
}

/// Only what the server allows is shown: a block is shown exactly where there is one and it is
/// allowed, and anything else clears exactly what was shown.
pub proof fn law_only_allowed_blocks_are_shown(
    v: RichPresenceView,
    presence: Option<DiscordPresence>,
)
    ensures
        ({
            let (step, after) = applied(v, presence);
            let allowed = presence is Some && presence->0.allowed;
            &&& step is Show == allowed
            &&& step matches PresenceStepView::Show { close, connect, card } ==> card == card_for(
                presence->0,
            )
            &&& step matches PresenceStepView::Hide { note, clear } ==> {
                &&& clear == v.active
                &&& !after.active
                &&& note is Some == !v.noted
                &&& note is Some ==> (note == Some(NotShowing::NoBlock)) == presence is None
                &&& after.connected == v.connected
                &&& after.client_id == v.client_id
            }
        }),
{
}

/// Why nothing is shown is noted once: a second block that is not shown has nothing left to note or
/// to clear. A block that is shown makes the next one that is not worth a note again.
pub proof fn law_hidden_is_noted_once(
    v: RichPresenceView,
    first: Option<DiscordPresence>,
    second: Option<DiscordPresence>,
)
    requires
        second is Some ==> !second->0.allowed,
    ensures
        ({
            let after = applied(v, first).1;
            let next = applied(after, second).0;
            &&& applied(v, first).0 is Hide ==> next == (PresenceStepView::Hide {
                note: None::<NotShowing>,
                clear: false,
            })
            &&& applied(v, first).0 is Show ==> (next matches PresenceStepView::Hide { note, clear }
                && note is Some)
        }),
{
}

/// A card goes out over a connection for its own application id: one for another id is closed, and
/// one is made exactly where there is none for this id.
pub proof fn law_connection_is_for_the_client(v: RichPresenceView, dp: DiscordPresence)
    requires
        dp.allowed,
        v.wf(),
    ensures
        ({
            let (step, after) = applied(v, Some(dp));
            let ours = v.client_id == Some(dp.client_id@);
            &&& step matches PresenceStepView::Show { close, connect, card } && close == (
            v.connected && !ours) && connect == !(v.connected && ours)
            &&& after.client_id == Some(dp.client_id@)
            &&& after.connected == (v.connected && ours)
            &&& after.active == (v.active && ours)
            &&& after.wf()
        }),
{
}

/// A card is noted when it changes: the same one again is not, another is. One that could not be
/// shown leaves no connection to write to, so that the next block makes a new one.
pub proof fn law_card_is_noted_when_it_changes(
    v: RichPresenceView,
    details: Seq<char>,
    state: Seq<char>,
    other: Seq<char>,
)
    ensures
        ({
            let (noted, after) = card_set(v, true, details, state);
            &&& after.active && after.connected == v.connected
            &&& !card_set(after, true, details, state).0
            &&& other != details ==> card_set(after, true, other, state).0
            &&& other != state ==> card_set(after, true, details, other).0
            &&& v.last_sent is None ==> noted
            &&& !card_set(v, false, details, state).0
            &&& !card_set(v, false, details, state).1.connected
            &&& !card_set(v, false, details, state).1.active
            &&& card_set(card_set(v, false, details, state).1, true, details, state).0
        }),
{
}

/// Shutdown clears what is shown and closes what is open, each exactly where there is something.
pub proof fn law_shutdown_leaves_nothing(v: RichPresenceView)
    ensures
        shut_down(v).0.clear == v.active,
        shut_down(v).0.close == v.connected,
        !shut_down(v).1.active,
        !shut_down(v).1.connected,
        shut_down(v).1.client_id is None,
{
}

/// A card and a step read as they are.
pub proof fn law_card_reads_as_it_is(card: ActivityCard, step: PresenceStep)
    ensures
        card@.details == card.details@,
        card@.state == card.state@,
        card@.button is Some == card.button is Some,
        card.button matches Some(b) ==> card@.button == Some((b.0@, b.1@)),
        step matches PresenceStep::Hide { note, clear } ==> step@ == (PresenceStepView::Hide {
            note,
            clear,
        }),
        step matches PresenceStep::Show { close, connect, card } ==> step@ == (
        PresenceStepView::Show { close, connect, card: card@ }),
{
}

/// What was noted as shown is remembered for as long as it may still be on the profile: a block that
/// is shown forgets nothing, so its card is noted again only if it changed; one that is hidden makes
/// the next card new.
pub proof fn law_shown_card_is_remembered(
    v: RichPresenceView,
    dp: DiscordPresence,
    hidden: Option<DiscordPresence>,
    details: Seq<char>,
    state: Seq<char>,
)
    requires
        dp.allowed,
        hidden is Some ==> !hidden->0.allowed,
    ensures
        ({
            let shown = card_set(v, true, details, state).1;
            &&& !card_set(applied(shown, Some(dp)).1, true, details, state).0
            &&& card_set(applied(shown, hidden).1, true, details, state).0
            &&& applied(v, Some(dp)).1.last_sent == v.last_sent
            &&& !v.active ==> applied(v, hidden).1.last_sent == v.last_sent
            &&& card_set(shut_down(shown).1, true, details, state).0
        }),
{
}

} // verus!
