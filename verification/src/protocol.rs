//! The wire types shared with the server, and what they mean to the overlay.
//!
//! Every type here is part of a public contract. Peers of different versions interoperate: a field
//! added after the first version is an `Option`, a `Vec` or a `bool` whose absence means `None`,
//! empty or `false`.

use vstd::prelude::*;

verus! {

/// Protocol version, announced by both sides on connect. It is informational: no peer refuses
/// another over it.
pub const PROTOCOL_VERSION: u32 = 17;

/// Messages the server pushes to a connected overlay.
#[derive(Debug, Clone, PartialEq, Eq)]
#[allow(clippy::large_enum_variant)]
pub enum ServerMessage {
    /// Full current state, sent on connect and on resync.
    Snapshot { protocol_version: u32 },
    /// The org's public identity changed.
    IdentityChanged(OrgIdentity),
    /// The org around an authenticated member. Sent only on the member channel.
    OrgContext(OrgContext),
    /// Keep-alive.
    Heartbeat,
}

/// Messages the overlay sends to the server. The server authorises every one of them; none carries
/// authority of its own.
#[derive(Debug, Clone, PartialEq, Eq)]
pub enum ClientMessage {
    /// Sent on connect to request a full snapshot.
    Hello { protocol_version: u32 },
    /// Self-reported game state.
    Telemetry(Telemetry),
    /// Liveness response.
    Heartbeat,
    /// The lead switches the active objective stage (0-based; the number of objectives means that
    /// all are complete).
    SetObjective { index: usize },
    /// A member sets their ready state.
    SetReady { ready: bool },
    /// A member checks into a live op.
    CheckIn { event_id: String },
    /// The lead completes the live op.
    CompleteOp,
    /// The lead switches the music bed.
    SetBed { key: String },
    /// The lead sets the bed volume (0 to 100).
    SetBedVolume { percent: i64 },
    /// The lead pauses or resumes the bed.
    SetBedPaused { paused: bool },
    /// The lead fires a one-shot soundboard clip.
    TriggerClip { key: String },
    /// The lead skips the bed forward one track.
    TransportNext,
    /// The lead skips the bed back one track.
    TransportPrev,
    /// A member posts a fixed quick action; no channel means the op's ready room.
    SendQuickAction { channel: Option<u64>, action: String },
    /// A member posts free text; no channel means the op's ready room.
    SendText { channel: Option<u64>, text: String },
    /// A member fires a clip from the member clip board.
    TriggerMemberClip { key: String },
    /// The lead sets the member clip policy: `off`, `urgent` or `all`.
    SetClipPolicy { policy: String },
    /// The lead attaches an objective source.
    AttachSource { kind: String, id: String },
    /// The lead detaches an objective source.
    DetachSource { kind: String, id: String },
    /// The lead appends a free-text objective.
    AddAdhocStep { label: String },
    /// The lead removes a free-text objective by its index among those alone.
    RemoveAdhocStep { index: usize },
}

/// Self-reported, read-only game state.
#[derive(Debug, Clone, PartialEq, Eq, Default)]
pub struct Telemetry {
    /// Zone label, never coordinates.
    pub zone: Option<String>,
    /// Quantum travel state label.
    pub quantum_state: Option<String>,
    /// A discrete event since the last message: `spawn`, `kill`, `death` or `downed`.
    pub event: Option<String>,
}

/// The org around a member, scoped to what they may see.
#[derive(Debug, Clone, PartialEq, Eq, Default)]
pub struct OrgContext {
    /// True when the member is on a live op.
    pub on_op: bool,
    /// The live op, when on one and permitted to see it.
    pub op: Option<OpContext>,
    /// Presence of the members the viewer may see.
    pub roster: Vec<PresenceEntry>,
    /// Org vehicles currently signed out.
    pub fleet: Vec<FleetEntry>,
    /// Alert posture label, if any.
    pub alert_posture: Option<String>,
    /// The presence block to mirror onto the member's Discord profile. `None` clears it.
    pub discord_presence: Option<DiscordPresence>,
}

/// A presence block composed and privacy-gated by the server.
#[derive(Debug, Clone, PartialEq, Eq)]
pub struct DiscordPresence {
    /// Whether the member permits a presence at all.
    pub allowed: bool,
    /// The application id to register the presence under.
    pub client_id: String,
    /// The details line.
    pub details: String,
    /// The state line.
    pub state: String,
    /// Label of an optional link button.
    pub button_label: String,
    /// Target of an optional link button; empty means no button.
    pub button_url: String,
}

/// One org vehicle's current disposition.
#[derive(Debug, Clone, PartialEq, Eq)]
pub struct FleetEntry {
    pub name: String,
    pub status: String,
    pub location: String,
}

/// A live op's shared picture. It exists only for a member who is checked in.
#[derive(Debug, Clone, PartialEq, Eq, Default)]
pub struct OpContext {
    /// The op's event id, for a link to its page; without it the link is hidden.
    pub id: Option<String>,
    pub name: String,
    pub status: String,
    /// Active orders.
    pub orders: Vec<String>,
    /// Ordered objective rail.
    pub objectives: Vec<ObjectiveStep>,
    /// Index of the active objective.
    pub current_stage: usize,
    /// True when the viewer leads the op.
    pub is_lead: bool,
    /// Members checked into this op.
    pub squad: Vec<SquadMember>,
    /// The viewer's own ready state.
    pub my_ready: bool,
    /// How many squad members are ready.
    pub ready_count: usize,
    /// Grouping over the objective rail; empty means a flat rail.
    pub phases: Vec<PhaseWire>,
    /// Music bed status.
    pub music: Option<MusicState>,
    /// The lead's soundboard clips.
    pub soundboard: Vec<SoundboardClip>,
    /// The member comms board.
    pub comms: Option<CommsBoard>,
    /// The member clip board, when clip triggering is available.
    pub member_clips: Option<MemberClipBoard>,
    /// Attached objective sources, in rail order.
    pub sources: Vec<SourceWire>,
    /// True when the viewer may edit the sources.
    pub can_edit_sources: bool,
}

/// One objective source attached to a live op.
#[derive(Debug, Clone, PartialEq, Eq, Default)]
pub struct SourceWire {
    /// `contract`, `guide` or `adhoc`.
    pub kind: String,
    /// The source's id; `None` for the free-text tail.
    pub id: Option<String>,
    pub name: String,
    /// Its index in the op's source list.
    pub position: usize,
    /// How many objectives it contributes.
    pub objective_count: usize,
}

/// The clips a member may fire under the op's current policy.
#[derive(Debug, Clone, PartialEq, Eq, Default)]
pub struct MemberClipBoard {
    /// `off`, `urgent` or `all`.
    pub policy: String,
    pub clips: Vec<SoundboardClip>,
}

/// The member comms board: quick actions, channels, and the last few lines of the ready room.
#[derive(Debug, Clone, PartialEq, Eq, Default)]
pub struct CommsBoard {
    pub quick_actions: Vec<QuickAction>,
    pub channels: Vec<CommsChannel>,
    /// Oldest first.
    pub ticker: Vec<TickerMessage>,
}

/// One recent chat line.
#[derive(Debug, Clone, PartialEq, Eq, Default)]
pub struct TickerMessage {
    pub author: String,
    pub content: String,
}

/// One quick-action button.
#[derive(Debug, Clone, PartialEq, Eq, Default)]
pub struct QuickAction {
    pub key: String,
    pub label: String,
}

/// One channel of the comms picker. The id is a decimal string: it exceeds the integer range a
/// browser keeps exactly.
#[derive(Debug, Clone, PartialEq, Eq, Default)]
pub struct CommsChannel {
    pub id: String,
    pub name: String,
}

/// Music bed status.
#[derive(Debug, Clone, PartialEq, Eq)]
pub struct MusicState {
    /// Current bed key; `None` is silence.
    pub bed: Option<String>,
    /// Effective volume, 0 to 100.
    pub volume: u32,
    pub paused: bool,
    /// True when the bed is actually audible.
    pub active: bool,
    /// Tags of the current bed.
    pub tags: Vec<String>,
    /// Tags of the active objective phase.
    pub stage_tags: Vec<String>,
    /// The current track, when known.
    pub now_playing: Option<TrackMeta>,
    /// Position in the playlist, when there is one.
    pub playlist: Option<PlaylistPos>,
    /// Milliseconds since the current track started. The bed loops, so this can exceed the track.
    pub elapsed_ms: Option<i64>,
}

/// Metadata of the current track.
#[derive(Debug, Clone, PartialEq, Eq)]
pub struct TrackMeta {
    pub key: String,
    pub title: Option<String>,
    pub artist: Option<String>,
    pub genre: Option<String>,
    /// Track length, when known.
    pub duration_ms: Option<i32>,
}

/// Position within the active bed's playlist.
#[derive(Debug, Clone, PartialEq, Eq)]
pub struct PlaylistPos {
    pub pos: usize,
    pub len: usize,
    pub moods: Vec<String>,
}

/// One soundboard clip.
#[derive(Debug, Clone, PartialEq, Eq, Default)]
pub struct SoundboardClip {
    pub key: String,
    pub label: String,
}

/// One phase header; `span` is how many consecutive objectives it covers.
#[derive(Debug, Clone, PartialEq, Eq, Default)]
pub struct PhaseWire {
    pub name: String,
    pub span: u32,
}

/// One objective step.
#[derive(Debug, Clone, PartialEq, Eq, Default)]
pub struct ObjectiveStep {
    pub label: String,
    /// Free-text timing.
    pub timing: Option<String>,
    /// Already completed.
    pub done: bool,
    /// The active stage.
    pub active: bool,
    pub detail: Option<String>,
    pub location: Option<String>,
    pub tip: Option<String>,
    /// Display name of the source of this step.
    pub source: Option<String>,
    /// Kind of that source, as in [`SourceWire::kind`].
    pub source_kind: Option<String>,
    pub step_type: Option<String>,
    /// `low`, `medium` or `high`.
    pub risk: Option<String>,
    pub required_vehicle: Option<String>,
    pub required_equipment: Option<String>,
    pub failure_condition: Option<String>,
    /// Skippable.
    pub optional: bool,
}

/// One member's self-reported presence.
#[derive(Debug, Clone, PartialEq, Eq)]
pub struct PresenceEntry {
    pub name: String,
    pub zone: Option<String>,
    pub status: Option<String>,
}

/// One squad member on a live op.
#[derive(Debug, Clone, PartialEq, Eq, Default)]
pub struct SquadMember {
    pub name: String,
    pub zone: Option<String>,
    pub status: Option<String>,
    pub ready: bool,
}

/// The org's public identity.
#[derive(Debug, Clone, PartialEq, Eq)]
pub struct OrgIdentity {
    pub name: String,
    pub short_name: String,
    pub mantra: String,
    /// Hex colour.
    pub primary_colour: String,
    /// Hex colour.
    pub accent_colour: String,
}

/// The characters of an optional string.
pub open spec fn text_of(s: Option<String>) -> Option<Seq<char>> {
    match s {
        Some(t) => Some(t@),
        None => None,
    }
}

/// The characters of an optional string slice.
pub open spec fn str_of(s: Option<&str>) -> Option<Seq<char>> {
    match s {
        Some(t) => Some(t@),
        None => None,
    }
}

/// A copy of an optional string.
pub fn clone_text(s: &Option<String>) -> (r: Option<String>)
    ensures
        text_of(r) == text_of(*s),
{
    match s {
        Some(t) => Some(t.clone()),
        None => None,
    }
}

/// What a [`ClientMessage`] says, with its strings as characters.
pub enum ClientMessageView {
    Hello { protocol_version: u32 },
    Telemetry {
        zone: Option<Seq<char>>,
        quantum_state: Option<Seq<char>>,
        event: Option<Seq<char>>,
    },
    Heartbeat,
    SetObjective { index: usize },
    SetReady { ready: bool },
    CheckIn { event_id: Seq<char> },
    CompleteOp,
    SetBed { key: Seq<char> },
    SetBedVolume { percent: i64 },
    SetBedPaused { paused: bool },
    TriggerClip { key: Seq<char> },
    TransportNext,
    TransportPrev,
    SendQuickAction { channel: Option<u64>, action: Seq<char> },
    SendText { channel: Option<u64>, text: Seq<char> },
    TriggerMemberClip { key: Seq<char> },
    SetClipPolicy { policy: Seq<char> },
    AttachSource { kind: Seq<char>, id: Seq<char> },
    DetachSource { kind: Seq<char>, id: Seq<char> },
    AddAdhocStep { label: Seq<char> },
    RemoveAdhocStep { index: usize },
}

impl View for ClientMessage {
    type V = ClientMessageView;

    open spec fn view(&self) -> ClientMessageView {
        match *self {
            ClientMessage::Hello { protocol_version } => ClientMessageView::Hello {
                protocol_version,
            },
            ClientMessage::Telemetry(t) => ClientMessageView::Telemetry {
                zone: text_of(t.zone),
                quantum_state: text_of(t.quantum_state),
                event: text_of(t.event),
            },
            ClientMessage::Heartbeat => ClientMessageView::Heartbeat,
            ClientMessage::SetObjective { index } => ClientMessageView::SetObjective { index },
            ClientMessage::SetReady { ready } => ClientMessageView::SetReady { ready },
            ClientMessage::CheckIn { event_id } => ClientMessageView::CheckIn {
                event_id: event_id@,
            },
            ClientMessage::CompleteOp => ClientMessageView::CompleteOp,
            ClientMessage::SetBed { key } => ClientMessageView::SetBed { key: key@ },
            ClientMessage::SetBedVolume { percent } => ClientMessageView::SetBedVolume { percent },
            ClientMessage::SetBedPaused { paused } => ClientMessageView::SetBedPaused { paused },
            ClientMessage::TriggerClip { key } => ClientMessageView::TriggerClip { key: key@ },
            ClientMessage::TransportNext => ClientMessageView::TransportNext,
            ClientMessage::TransportPrev => ClientMessageView::TransportPrev,
            ClientMessage::SendQuickAction {
                channel,
                action,
            } => ClientMessageView::SendQuickAction { channel, action: action@ },
            ClientMessage::SendText { channel, text } => ClientMessageView::SendText {
                channel,
                text: text@,
            },
            ClientMessage::TriggerMemberClip { key } => ClientMessageView::TriggerMemberClip {
                key: key@,
            },
            ClientMessage::SetClipPolicy { policy } => ClientMessageView::SetClipPolicy {
                policy: policy@,
            },
            ClientMessage::AttachSource { kind, id } => ClientMessageView::AttachSource {
                kind: kind@,
                id: id@,
            },
            ClientMessage::DetachSource { kind, id } => ClientMessageView::DetachSource {
                kind: kind@,
                id: id@,
            },
            ClientMessage::AddAdhocStep { label } => ClientMessageView::AddAdhocStep {
                label: label@,
            },
            ClientMessage::RemoveAdhocStep { index } => ClientMessageView::RemoveAdhocStep {
                index,
            },
        }
    }
}

/// The member context a server message carries, if it is one.
pub fn org_context(message: ServerMessage) -> (r: Option<OrgContext>)
    ensures
        r is Some == message is OrgContext,
        r matches Some(ctx) ==> message == ServerMessage::OrgContext(ctx),
{
    match message {
        ServerMessage::OrgContext(ctx) => Some(ctx),
        _ => None,
    }
}

/// An optional text reads as its characters, and none as none.
pub proof fn law_optional_text(s: String, t: &str)
    ensures
        text_of(Some(s)) == Some(s@),
        text_of(None) is None,
        str_of(Some(t)) == Some(t@),
        str_of(None) is None,
{
}

/// A message reads as what it is: of its own kind, with each of its values.
pub proof fn law_message_reads_as_it_is(m: ClientMessage)
    ensures
        m matches ClientMessage::SetObjective { index } ==> m@ == (
        ClientMessageView::SetObjective { index }),
        m matches ClientMessage::SetReady { ready } ==> m@ == (ClientMessageView::SetReady {
            ready,
        }),
        m matches ClientMessage::CheckIn { event_id } ==> m@ == (ClientMessageView::CheckIn {
            event_id: event_id@,
        }),
        m is CompleteOp == m@ is CompleteOp,
        m matches ClientMessage::SetBed { key } ==> m@ == (ClientMessageView::SetBed { key: key@ }),
        m matches ClientMessage::SetBedVolume { percent } ==> m@ == (
        ClientMessageView::SetBedVolume { percent }),
        m matches ClientMessage::SetBedPaused { paused } ==> m@ == (
        ClientMessageView::SetBedPaused { paused }),
        m matches ClientMessage::TriggerClip { key } ==> m@ == (ClientMessageView::TriggerClip {
            key: key@,
        }),
        m is TransportNext == m@ is TransportNext,
        m is TransportPrev == m@ is TransportPrev,
        m matches ClientMessage::SendQuickAction { channel, action } ==> m@ == (
        ClientMessageView::SendQuickAction { channel, action: action@ }),
        m matches ClientMessage::SendText { channel, text } ==> m@ == (
        ClientMessageView::SendText { channel, text: text@ }),
        m matches ClientMessage::TriggerMemberClip { key } ==> m@ == (
        ClientMessageView::TriggerMemberClip { key: key@ }),
        m matches ClientMessage::SetClipPolicy { policy } ==> m@ == (
        ClientMessageView::SetClipPolicy { policy: policy@ }),
        m matches ClientMessage::AttachSource { kind, id } ==> m@ == (
        ClientMessageView::AttachSource { kind: kind@, id: id@ }),
        m matches ClientMessage::DetachSource { kind, id } ==> m@ == (
        ClientMessageView::DetachSource { kind: kind@, id: id@ }),
        m matches ClientMessage::AddAdhocStep { label } ==> m@ == (
        ClientMessageView::AddAdhocStep { label: label@ }),
        m matches ClientMessage::RemoveAdhocStep { index } ==> m@ == (
        ClientMessageView::RemoveAdhocStep { index }),
        m is Heartbeat == m@ is Heartbeat,
        m matches ClientMessage::Hello { protocol_version } ==> m@ == (
        ClientMessageView::Hello { protocol_version }),
        m is Telemetry == m@ is Telemetry,
{
}

} // verus!
