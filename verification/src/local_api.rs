//! What a local tool, such as a Stream Deck plugin, may ask the overlay to do, and the board of key
//! states it is shown.
//!
//! The actions are curated: there is no way to relay an arbitrary [`ClientMessage`]. A refusal here
//! is an explanation, not the authority: the server checks every message again. It exists because a
//! failed check on the server is silent, and a hardware key that does nothing must be able to say
//! why.

use crate::protocol;
use crate::protocol::{ClientMessage, ClientMessageView, OpContext, QuickAction, SoundboardClip};
use crate::text::str_eq;
use vstd::prelude::*;

verus! {

/// Version of the local API, independent of the server protocol's.
pub const LOCAL_API_VERSION: u32 = 1;

/// Default loopback port.
pub const DEFAULT_PORT: u16 = 48291;

/// What a local tool may ask for.
#[derive(Debug, Clone, PartialEq, Eq)]
pub enum Action {
    CheckIn,
    ToggleReady,
    ObjectiveNext,
    ObjectivePrev,
    BedPause,
    BedResume,
    TransportNext,
    TransportPrev,
    BedVolume { percent: i64 },
    TriggerClip { key: String },
    /// A quick action into the op's ready room; open to every member on the op.
    Quick { key: String },
    /// A clip from the member clip board; open to every member on the op.
    MemberClip { key: String },
    /// Irreversible: refused without `confirm`.
    CompleteOp { confirm: bool },
}

/// Why an action was not relayed.
#[derive(Debug, Clone, Copy, PartialEq, Eq, Structural)]
pub enum Refusal {
    /// The overlay's own socket to the server is down.
    NotConnected,
    /// No live op in context.
    NoLiveOp,
    /// The action is for the lead, and this member does not lead the op.
    NotLead,
    /// The op has no objective rail.
    NoObjectives,
    /// Already at the end, or the start, of the rail.
    AtEnd,
    /// No bed is audible.
    NoBed,
    /// The clip is not on this member's board.
    UnknownClip,
    /// Volume outside 0 to 100.
    OutOfRange,
    /// A destructive action arrived unconfirmed.
    NeedsConfirm,
    /// Check-in on an op this member is already on.
    AlreadyCheckedIn,
    /// The action is not on the board pushed for this member.
    UnknownAction,
    /// The lead has clip triggering switched off.
    ClipsOff,
}

impl Refusal {
    /// The refusal's wire name.
    pub open spec fn name(self) -> Seq<char> {
        match self {
            Refusal::NotConnected => "not_connected"@,
            Refusal::NoLiveOp => "no_live_op"@,
            Refusal::NotLead => "not_lead"@,
            Refusal::NoObjectives => "no_objectives"@,
            Refusal::AtEnd => "at_end"@,
            Refusal::NoBed => "no_bed"@,
            Refusal::UnknownClip => "unknown_clip"@,
            Refusal::OutOfRange => "out_of_range"@,
            Refusal::NeedsConfirm => "needs_confirm"@,
            Refusal::AlreadyCheckedIn => "already_checked_in"@,
            Refusal::UnknownAction => "unknown_action"@,
            Refusal::ClipsOff => "clips_off"@,
        }
    }

    /// Stable wire name, on which a tool switches to pick a key face.
    pub fn wire(&self) -> (r: &'static str)
        ensures
            r@ == self.name(),
    {
        match self {
            Refusal::NotConnected => "not_connected",
            Refusal::NoLiveOp => "no_live_op",
            Refusal::NotLead => "not_lead",
            Refusal::NoObjectives => "no_objectives",
            Refusal::AtEnd => "at_end",
            Refusal::NoBed => "no_bed",
            Refusal::UnknownClip => "unknown_clip",
            Refusal::OutOfRange => "out_of_range",
            Refusal::NeedsConfirm => "needs_confirm",
            Refusal::AlreadyCheckedIn => "already_checked_in",
            Refusal::UnknownAction => "unknown_action",
            Refusal::ClipsOff => "clips_off",
        }
    }
}

/// No two refusals share a wire name, so a tool can tell them apart.
pub proof fn law_wire_names_differ(a: Refusal, b: Refusal)
    requires
        a.name() == b.name(),
    ensures
        a == b,
{
    reveal_strlit("not_connected");
    reveal_strlit("no_live_op");
    reveal_strlit("not_lead");
    reveal_strlit("no_objectives");
    reveal_strlit("at_end");
    reveal_strlit("no_bed");
    reveal_strlit("unknown_clip");
    reveal_strlit("out_of_range");
    reveal_strlit("needs_confirm");
    reveal_strlit("already_checked_in");
    reveal_strlit("unknown_action");
    reveal_strlit("clips_off");
    // Names of one length differ in their first or third character.
    assert("not_connected"@.len() == 13 && "not_connected"@[2] == 't');
    assert("no_live_op"@.len() == 10 && "no_live_op"@[2] == '_');
    assert("not_lead"@.len() == 8 && "not_lead"@[2] == 't');
    assert("no_objectives"@.len() == 13 && "no_objectives"@[2] == '_');
    assert("at_end"@.len() == 6 && "at_end"@[0] == 'a');
    assert("no_bed"@.len() == 6 && "no_bed"@[0] == 'n');
    assert("unknown_clip"@.len() == 12 && "unknown_clip"@[2] == 'k');
    assert("out_of_range"@.len() == 12 && "out_of_range"@[2] == 't');
    assert("needs_confirm"@.len() == 13 && "needs_confirm"@[2] == 'e');
    assert("already_checked_in"@.len() == 18 && "already_checked_in"@[2] == 'r');
    assert("unknown_action"@.len() == 14 && "unknown_action"@[2] == 'k');
    assert("clips_off"@.len() == 9 && "clips_off"@[2] == 'i');
}

impl Action {
    /// Only completing an op cannot be undone.
    pub open spec fn destructive(self) -> bool {
        self is CompleteOp
    }

    /// A destructive action that was not confirmed.
    pub open spec fn unconfirmed(self) -> bool {
        self matches Action::CompleteOp { confirm } && !confirm
    }

    /// Actions that any member on the op may take; every other one is for the lead.
    pub open spec fn for_any_member(self) -> bool {
        self is CheckIn || self is ToggleReady || self is Quick || self is MemberClip
    }

    /// Actions that move the music bed, which has to be audible for them to do anything.
    pub open spec fn moves_bed(self) -> bool {
        self is BedPause || self is BedResume || self is TransportNext || self is TransportPrev
            || self is BedVolume
    }

    /// True for an action that cannot be undone.
    pub fn is_destructive(&self) -> (r: bool)
        ensures
            r == self.destructive(),
    {
        matches!(self, Action::CompleteOp { .. })
    }

    /// Whether the confirmation that a destructive action needs was given; every other action
    /// counts as confirmed.
    pub fn confirmed(&self) -> (r: bool)
        ensures
            r == !self.unconfirmed(),
    {
        match self {
            Action::CompleteOp { confirm } => *confirm,
            _ => true,
        }
    }
}

/// A clip with this key is on the board.
pub open spec fn clip_listed(clips: Seq<SoundboardClip>, key: Seq<char>) -> bool {
    exists|i: int| 0 <= i < clips.len() && (#[trigger] clips[i]).key@ == key
}

/// A quick action with this key is on the board.
pub open spec fn quick_listed(actions: Seq<QuickAction>, key: Seq<char>) -> bool {
    exists|i: int| 0 <= i < actions.len() && (#[trigger] actions[i]).key@ == key
}

/// The op's bed can be heard.
pub open spec fn audible(ctx: OpContext) -> bool {
    ctx.music matches Some(m) && m.active
}

/// The op offers member clips: there is a board, and its policy is not `off`.
pub open spec fn clips_on(ctx: OpContext) -> bool {
    ctx.member_clips matches Some(b) && b.policy@ != "off"@
}

/// Why an action by a member on the op `ctx` is refused, connection, confirmation and leadership
/// aside.
pub open spec fn board_refusal(action: Action, ctx: OpContext) -> Option<Refusal> {
    match action {
        Action::ObjectiveNext => if ctx.objectives.len() == 0 {
            Some(Refusal::NoObjectives)
        } else if ctx.current_stage >= ctx.objectives.len() {
            Some(Refusal::AtEnd)
        } else {
            None
        },
        Action::ObjectivePrev => if ctx.objectives.len() == 0 {
            Some(Refusal::NoObjectives)
        } else if ctx.current_stage == 0 {
            Some(Refusal::AtEnd)
        } else {
            None
        },
        Action::BedVolume { percent } => if !(0 <= percent <= 100) {
            Some(Refusal::OutOfRange)
        } else if !audible(ctx) {
            Some(Refusal::NoBed)
        } else {
            None
        },
        Action::TriggerClip { key } => if clip_listed(ctx.soundboard@, key@) {
            None
        } else {
            Some(Refusal::UnknownClip)
        },
        Action::Quick { key } => if ctx.comms matches Some(c) && quick_listed(
            c.quick_actions@,
            key@,
        ) {
            None
        } else {
            Some(Refusal::UnknownAction)
        },
        Action::MemberClip { key } => if !clips_on(ctx) {
            Some(Refusal::ClipsOff)
        } else if clip_listed(ctx.member_clips->0.clips@, key@) {
            None
        } else {
            Some(Refusal::UnknownClip)
        },
        _ => if action.moves_bed() && !audible(ctx) {
            Some(Refusal::NoBed)
        } else {
            None
        },
    }
}

/// Why an action is refused, if it is. A member has an op context exactly while checked in, so
/// checking in is possible only without one.
pub open spec fn refusal(
    action: Action,
    connected: bool,
    ctx: Option<OpContext>,
    candidate: Option<Seq<char>>,
) -> Option<Refusal> {
    if !connected {
        Some(Refusal::NotConnected)
    } else if action is CheckIn {
        if ctx is Some {
            Some(Refusal::AlreadyCheckedIn)
        } else if candidate is None {
            Some(Refusal::NoLiveOp)
        } else {
            None
        }
    } else {
        match ctx {
            None => Some(Refusal::NoLiveOp),
            Some(c) => if action.unconfirmed() {
                Some(Refusal::NeedsConfirm)
            } else if !action.for_any_member() && !c.is_lead {
                Some(Refusal::NotLead)
            } else {
                board_refusal(action, c)
            },
        }
    }
}

/// The message an accepted action stands for.
pub open spec fn intent(
    action: Action,
    ctx: Option<OpContext>,
    candidate: Option<Seq<char>>,
) -> ClientMessageView {
    match action {
        Action::CheckIn => ClientMessageView::CheckIn { event_id: candidate->0 },
        Action::ToggleReady => ClientMessageView::SetReady { ready: !ctx->0.my_ready },
        Action::ObjectiveNext => ClientMessageView::SetObjective {
            index: (ctx->0.current_stage + 1) as usize,
        },
        Action::ObjectivePrev => ClientMessageView::SetObjective {
            index: (ctx->0.current_stage - 1) as usize,
        },
        Action::BedPause => ClientMessageView::SetBedPaused { paused: true },
        Action::BedResume => ClientMessageView::SetBedPaused { paused: false },
        Action::TransportNext => ClientMessageView::TransportNext,
        Action::TransportPrev => ClientMessageView::TransportPrev,
        Action::BedVolume { percent } => ClientMessageView::SetBedVolume { percent },
        Action::TriggerClip { key } => ClientMessageView::TriggerClip { key: key@ },
        Action::Quick { key } => ClientMessageView::SendQuickAction { channel: None, action: key@ },
        Action::MemberClip { key } => ClientMessageView::TriggerMemberClip { key: key@ },
        Action::CompleteOp { .. } => ClientMessageView::CompleteOp,
    }
}

/// What a reference to an op context refers to.
pub open spec fn op_of(ctx: Option<&OpContext>) -> Option<OpContext> {
    match ctx {
        Some(c) => Some(*c),
        None => None,
    }
}

/// Whether a clip with this key is listed.
fn has_clip(clips: &Vec<SoundboardClip>, key: &String) -> (r: bool)
    ensures
        r == clip_listed(clips@, key@),
{
    let mut i: usize = 0;
    while i < clips.len()
        invariant
            i <= clips@.len(),
            forall|j: int| 0 <= j < i ==> (#[trigger] clips@[j]).key@ != key@,
        decreases clips@.len() - i,
    {
        if str_eq(clips[i].key.as_str(), key.as_str()) {
            return true;
        }
        i += 1;
    }
    false
}

/// Whether a quick action with this key is listed.
fn has_quick(actions: &Vec<QuickAction>, key: &String) -> (r: bool)
    ensures
        r == quick_listed(actions@, key@),
{
    let mut i: usize = 0;
    while i < actions.len()
        invariant
            i <= actions@.len(),
            forall|j: int| 0 <= j < i ==> (#[trigger] actions@[j]).key@ != key@,
        decreases actions@.len() - i,
    {
        if str_eq(actions[i].key.as_str(), key.as_str()) {
            return true;
        }
        i += 1;
    }
    false
}

/// Whether the op's bed can be heard.
pub fn bed_is_audible(ctx: &OpContext) -> (r: bool)
    ensures
        r == audible(*ctx),
{
    match &ctx.music {
        Some(m) => m.active,
        None => false,
    }
}

/// The message an action stands for, or why it is refused.
pub fn resolve(
    action: &Action,
    connected: bool,
    ctx: Option<&OpContext>,
    checkin_candidate: Option<&str>,
) -> (r: Result<ClientMessage, Refusal>)
    ensures
        match refusal(*action, connected, op_of(ctx), protocol::str_of(checkin_candidate)) {
            Some(why) => r == Err::<ClientMessage, Refusal>(why),
            None => r matches Ok(message) && message@ == intent(
                *action,
                op_of(ctx),
                protocol::str_of(checkin_candidate),
            ),
        },
{
    if !connected {
        return Err(Refusal::NotConnected);
    }
    if matches!(action, Action::CheckIn) {
        if ctx.is_some() {
            return Err(Refusal::AlreadyCheckedIn);
        }
        return match checkin_candidate {
            Some(id) => Ok(ClientMessage::CheckIn { event_id: id.to_string() }),
            None => Err(Refusal::NoLiveOp),
        };
    }
    let ctx = match ctx {
        Some(ctx) => ctx,
        None => return Err(Refusal::NoLiveOp),
    };
    if action.is_destructive() && !action.confirmed() {
        return Err(Refusal::NeedsConfirm);
    }
    let lead_only = !matches!(
        action,
        Action::CheckIn | Action::ToggleReady | Action::Quick { .. } | Action::MemberClip { .. }
    );
    if lead_only && !ctx.is_lead {
        return Err(Refusal::NotLead);
    }
    match action {
        Action::CheckIn => Err(Refusal::AlreadyCheckedIn),
        Action::ToggleReady => Ok(ClientMessage::SetReady { ready: !ctx.my_ready }),
        Action::ObjectiveNext | Action::ObjectivePrev => {
            let count: usize = ctx.objectives.len();
            if count == 0 {
                return Err(Refusal::NoObjectives);
            }
            // `count` itself means that all are complete, so the rail is 0..=count.
            let next: usize = if matches!(action, Action::ObjectiveNext) {
                if ctx.current_stage >= count {
                    return Err(Refusal::AtEnd);
                }
                ctx.current_stage + 1
            } else {
                if ctx.current_stage == 0 {
                    return Err(Refusal::AtEnd);
                }
                ctx.current_stage - 1
            };
            Ok(ClientMessage::SetObjective { index: next })
        },
        Action::BedPause | Action::BedResume | Action::TransportNext | Action::TransportPrev => {
            if !bed_is_audible(ctx) {
                return Err(Refusal::NoBed);
            }
            Ok(
                match action {
                    Action::BedPause => ClientMessage::SetBedPaused { paused: true },
                    Action::BedResume => ClientMessage::SetBedPaused { paused: false },
                    Action::TransportNext => ClientMessage::TransportNext,
                    _ => ClientMessage::TransportPrev,
                },
            )
        },
        Action::BedVolume { percent } => {
            if !(0 <= *percent && *percent <= 100) {
                return Err(Refusal::OutOfRange);
            }
            if !bed_is_audible(ctx) {
                return Err(Refusal::NoBed);
            }
            Ok(ClientMessage::SetBedVolume { percent: *percent })
        },
        Action::TriggerClip { key } => {
            if !has_clip(&ctx.soundboard, key) {
                return Err(Refusal::UnknownClip);
            }
            Ok(ClientMessage::TriggerClip { key: key.clone() })
        },
        Action::Quick { key } => {
            let offered = match &ctx.comms {
                Some(c) => has_quick(&c.quick_actions, key),
                None => false,
            };
            if !offered {
                return Err(Refusal::UnknownAction);
            }
            // No channel is the op's ready room. A key offers no picker: one that posts somewhere
            // else says the wrong thing in the wrong place.
            Ok(ClientMessage::SendQuickAction { channel: None, action: key.clone() })
        },
        Action::MemberClip { key } => {
            let board = match &ctx.member_clips {
                Some(board) => board,
                None => return Err(Refusal::ClipsOff),
            };
            if str_eq(board.policy.as_str(), "off") {
                return Err(Refusal::ClipsOff);
            }
            if !has_clip(&board.clips, key) {
                return Err(Refusal::UnknownClip);
            }
            Ok(ClientMessage::TriggerMemberClip { key: key.clone() })
        },
        Action::CompleteOp { .. } => Ok(ClientMessage::CompleteOp),
    }
}

/// What a local tool is shown, so that it can draw honest keys instead of dead ones.
#[derive(Debug, Clone, PartialEq, Eq)]
pub struct KeyState {
    pub api_version: u32,
    /// The overlay's own socket to the server.
    pub connected: bool,
    pub live_op: bool,
    pub op_name: Option<String>,
    /// A live op this member could check into, when they are not on one.
    pub checkin: Option<String>,
    pub is_lead: bool,
    pub my_ready: bool,
    pub bed_active: bool,
    pub bed_paused: bool,
    /// Effective bed volume, 0 to 100.
    pub bed_volume: u32,
    /// Current stage and number of objectives; the rail runs up to that number itself.
    pub objective: Option<(usize, usize)>,
    pub now_playing: Option<String>,
    /// Keys of the soundboard clips.
    pub clips: Vec<String>,
    /// Quick actions, as key and label.
    pub quick_actions: Vec<(String, String)>,
    /// Member clips, as key and label. Empty when the lead has clips off.
    pub member_clips: Vec<(String, String)>,
}

/// What a [`KeyState`] shows, with its strings as characters.
pub struct KeyStateView {
    pub api_version: u32,
    pub connected: bool,
    pub live_op: bool,
    pub op_name: Option<Seq<char>>,
    pub checkin: Option<Seq<char>>,
    pub is_lead: bool,
    pub my_ready: bool,
    pub bed_active: bool,
    pub bed_paused: bool,
    pub bed_volume: u32,
    pub objective: Option<(usize, usize)>,
    pub now_playing: Option<Seq<char>>,
    pub clips: Seq<Seq<char>>,
    pub quick_actions: Seq<(Seq<char>, Seq<char>)>,
    pub member_clips: Seq<(Seq<char>, Seq<char>)>,
}

/// The characters of each string.
pub open spec fn texts(v: Seq<String>) -> Seq<Seq<char>> {
    Seq::new(v.len(), |i: int| v[i]@)
}

/// The characters of each pair of strings.
pub open spec fn text_pairs(v: Seq<(String, String)>) -> Seq<(Seq<char>, Seq<char>)> {
    Seq::new(v.len(), |i: int| (v[i].0@, v[i].1@))
}

impl View for KeyState {
    type V = KeyStateView;

    open spec fn view(&self) -> KeyStateView {
        KeyStateView {
            api_version: self.api_version,
            connected: self.connected,
            live_op: self.live_op,
            op_name: protocol::text_of(self.op_name),
            checkin: protocol::text_of(self.checkin),
            is_lead: self.is_lead,
            my_ready: self.my_ready,
            bed_active: self.bed_active,
            bed_paused: self.bed_paused,
            bed_volume: self.bed_volume,
            objective: self.objective,
            now_playing: protocol::text_of(self.now_playing),
            clips: texts(self.clips@),
            quick_actions: text_pairs(self.quick_actions@),
            member_clips: text_pairs(self.member_clips@),
        }
    }
}

/// The keys of soundboard clips, in order.
pub open spec fn clip_keys(clips: Seq<SoundboardClip>) -> Seq<Seq<char>> {
    Seq::new(clips.len(), |i: int| clips[i].key@)
}

/// Key and label of each clip, in order.
pub open spec fn clip_labels(clips: Seq<SoundboardClip>) -> Seq<(Seq<char>, Seq<char>)> {
    Seq::new(clips.len(), |i: int| (clips[i].key@, clips[i].label@))
}

/// Key and label of each quick action, in order.
pub open spec fn quick_labels(actions: Seq<QuickAction>) -> Seq<(Seq<char>, Seq<char>)> {
    Seq::new(actions.len(), |i: int| (actions[i].key@, actions[i].label@))
}

/// The title of the current track, when there is a bed whose track is known to have one.
pub open spec fn playing(ctx: OpContext) -> Option<Seq<char>> {
    match ctx.music {
        Some(m) => match m.now_playing {
            Some(t) => protocol::text_of(t.title),
            None => None,
        },
        None => None,
    }
}

/// The board to show. Without an op every key is off, and all it can offer is an op to join.
pub open spec fn board(
    connected: bool,
    ctx: Option<OpContext>,
    candidate: Option<Seq<char>>,
) -> KeyStateView {
    match ctx {
        None => KeyStateView {
            api_version: LOCAL_API_VERSION,
            connected,
            live_op: false,
            op_name: None,
            checkin: candidate,
            is_lead: false,
            my_ready: false,
            bed_active: false,
            bed_paused: false,
            bed_volume: 0,
            objective: None,
            now_playing: None,
            clips: Seq::empty(),
            quick_actions: Seq::empty(),
            member_clips: Seq::empty(),
        },
        Some(c) => KeyStateView {
            api_version: LOCAL_API_VERSION,
            connected,
            live_op: true,
            op_name: Some(c.name@),
            checkin: None,
            is_lead: c.is_lead,
            my_ready: c.my_ready,
            bed_active: audible(c),
            bed_paused: c.music matches Some(m) && m.paused,
            bed_volume: match c.music {
                Some(m) => m.volume,
                None => 0,
            },
            objective: Some((c.current_stage, c.objectives.len())),
            now_playing: playing(c),
            clips: clip_keys(c.soundboard@),
            quick_actions: match c.comms {
                Some(b) => quick_labels(b.quick_actions@),
                None => Seq::empty(),
            },
            member_clips: if clips_on(c) {
                clip_labels(c.member_clips->0.clips@)
            } else {
                Seq::empty()
            },
        },
    }
}

/// The keys of soundboard clips, in order.
fn keys_of(clips: &Vec<SoundboardClip>) -> (r: Vec<String>)
    ensures
        texts(r@) == clip_keys(clips@),
{
    let mut r: Vec<String> = Vec::new();
    let mut i: usize = 0;
    while i < clips.len()
        invariant
            i <= clips@.len(),
            r@.len() == i,
            forall|j: int| 0 <= j < i ==> (#[trigger] r@[j])@ == clips@[j].key@,
        decreases clips@.len() - i,
    {
        r.push(clips[i].key.clone());
        i += 1;
    }
    assert(texts(r@) =~= clip_keys(clips@));
    r
}

/// Key and label of each clip, in order.
fn labels_of(clips: &Vec<SoundboardClip>) -> (r: Vec<(String, String)>)
    ensures
        text_pairs(r@) == clip_labels(clips@),
{
    let mut r: Vec<(String, String)> = Vec::new();
    let mut i: usize = 0;
    while i < clips.len()
        invariant
            i <= clips@.len(),
            r@.len() == i,
            forall|j: int|
                0 <= j < i ==> (#[trigger] r@[j]).0@ == clips@[j].key@ && r@[j].1@
                    == clips@[j].label@,
        decreases clips@.len() - i,
    {
        r.push((clips[i].key.clone(), clips[i].label.clone()));
        i += 1;
    }
    assert(text_pairs(r@) =~= clip_labels(clips@));
    r
}

/// Key and label of each quick action, in order.
fn quick_labels_of(actions: &Vec<QuickAction>) -> (r: Vec<(String, String)>)
    ensures
        text_pairs(r@) == quick_labels(actions@),
{
    let mut r: Vec<(String, String)> = Vec::new();
    let mut i: usize = 0;
    while i < actions.len()
        invariant
            i <= actions@.len(),
            r@.len() == i,
            forall|j: int|
                0 <= j < i ==> (#[trigger] r@[j]).0@ == actions@[j].key@ && r@[j].1@
                    == actions@[j].label@,
        decreases actions@.len() - i,
    {
        r.push((actions[i].key.clone(), actions[i].label.clone()));
        i += 1;
    }
    assert(text_pairs(r@) =~= quick_labels(actions@));
    r
}

/// The board to show. Total: without an op it is a board whose keys are all off, not an absent one.
pub fn key_state(connected: bool, ctx: Option<&OpContext>, checkin: Option<&str>) -> (r: KeyState)
    ensures
        r@ == board(connected, op_of(ctx), protocol::str_of(checkin)),
        r.clips@.len() == r@.clips.len(),
        r.quick_actions@.len() == r@.quick_actions.len(),
        r.member_clips@.len() == r@.member_clips.len(),
        forall|i: int| 0 <= i < r.clips@.len() ==> (#[trigger] r.clips@[i])@ == r@.clips[i],
        forall|i: int|
            0 <= i < r.quick_actions@.len() ==> ((#[trigger] r.quick_actions@[i]).0@,
                r.quick_actions@[i].1@) == r@.quick_actions[i],
        forall|i: int|
            0 <= i < r.member_clips@.len() ==> ((#[trigger] r.member_clips@[i]).0@,
                r.member_clips@[i].1@) == r@.member_clips[i],
{
    let ctx = match ctx {
        Some(ctx) => ctx,
        None => {
            let r = KeyState {
                api_version: LOCAL_API_VERSION,
                connected,
                live_op: false,
                op_name: None,
                checkin: match checkin {
                    Some(id) => Some(id.to_string()),
                    None => None,
                },
                is_lead: false,
                my_ready: false,
                bed_active: false,
                bed_paused: false,
                bed_volume: 0,
                objective: None,
                now_playing: None,
                clips: Vec::new(),
                quick_actions: Vec::new(),
                member_clips: Vec::new(),
            };
            assert(r@.clips =~= Seq::empty());
            assert(r@.quick_actions =~= Seq::empty());
            assert(r@.member_clips =~= Seq::empty());
            return r;
        },
    };
    let (bed_paused, bed_volume, now_playing) = match &ctx.music {
        Some(m) => (
            m.paused,
            m.volume,
            match &m.now_playing {
                Some(t) => protocol::clone_text(&t.title),
                None => None,
            },
        ),
        None => (false, 0, None),
    };
    let quick_actions = match &ctx.comms {
        Some(b) => quick_labels_of(&b.quick_actions),
        None => Vec::new(),
    };
    let member_clips = match &ctx.member_clips {
        Some(b) => if str_eq(b.policy.as_str(), "off") {
            Vec::new()
        } else {
            labels_of(&b.clips)
        },
        None => Vec::new(),
    };
    let r = KeyState {
        api_version: LOCAL_API_VERSION,
        connected,
        live_op: true,
        op_name: Some(ctx.name.clone()),
        checkin: None,
        is_lead: ctx.is_lead,
        my_ready: ctx.my_ready,
        bed_active: bed_is_audible(ctx),
        bed_paused,
        bed_volume,
        objective: Some((ctx.current_stage, ctx.objectives.len())),
        now_playing,
        clips: keys_of(&ctx.soundboard),
        quick_actions,
        member_clips,
    };
    assert(ctx.comms is None ==> r@.quick_actions =~= Seq::empty());
    assert(!clips_on(*ctx) ==> r@.member_clips =~= Seq::empty());
    r
}

/// The board never lies about what it lists: every soundboard clip it shows the lead, every quick
/// action and every member clip it shows anyone resolves to the message that fires it.
pub proof fn law_listed_keys_resolve(ctx: OpContext, candidate: Option<Seq<char>>, key: String)
    ensures
        ({
            let shown = board(true, Some(ctx), candidate);
            &&& shown.is_lead && shown.clips.contains(key@) ==> refusal(
                Action::TriggerClip { key },
                true,
                Some(ctx),
                candidate,
            ) is None
            &&& forall|label: Seq<char>| #[trigger]
                shown.quick_actions.contains((key@, label)) ==> refusal(
                    Action::Quick { key },
                    true,
                    Some(ctx),
                    candidate,
                ) is None
            &&& forall|label: Seq<char>| #[trigger]
                shown.member_clips.contains((key@, label)) ==> refusal(
                    Action::MemberClip { key },
                    true,
                    Some(ctx),
                    candidate,
                ) is None
        }),
{
    let shown = board(true, Some(ctx), candidate);
    if shown.clips.contains(key@) {
        let i = choose|i: int| 0 <= i < shown.clips.len() && shown.clips[i] == key@;
        assert(ctx.soundboard@[i].key@ == key@);
    }
    assert forall|label: Seq<char>| #[trigger]
        shown.quick_actions.contains((key@, label)) implies refusal(
        Action::Quick { key },
        true,
        Some(ctx),
        candidate,
    ) is None by {
        let i = choose|i: int|
            0 <= i < shown.quick_actions.len() && shown.quick_actions[i] == (key@, label);
        assert(ctx.comms->0.quick_actions@[i].key@ == key@);
    }
    assert forall|label: Seq<char>| #[trigger]
        shown.member_clips.contains((key@, label)) implies refusal(
        Action::MemberClip { key },
        true,
        Some(ctx),
        candidate,
    ) is None by {
        let i = choose|i: int|
            0 <= i < shown.member_clips.len() && shown.member_clips[i] == (key@, label);
        assert(ctx.member_clips->0.clips@[i].key@ == key@);
    }
}

/// What the board leaves out is refused: a clip, quick action or member clip that is not listed
/// never resolves.
pub proof fn law_unlisted_keys_refused(
    connected: bool,
    ctx: OpContext,
    candidate: Option<Seq<char>>,
    key: String,
)
    ensures
        ({
            let shown = board(connected, Some(ctx), candidate);
            &&& !shown.clips.contains(key@) ==> refusal(
                Action::TriggerClip { key },
                connected,
                Some(ctx),
                candidate,
            ) is Some
            &&& (forall|label: Seq<char>| !#[trigger] shown.quick_actions.contains((key@, label)))
                ==> refusal(Action::Quick { key }, connected, Some(ctx), candidate) is Some
            &&& (forall|label: Seq<char>| !#[trigger] shown.member_clips.contains((key@, label)))
                ==> refusal(Action::MemberClip { key }, connected, Some(ctx), candidate) is Some
        }),
{
    let shown = board(connected, Some(ctx), candidate);
    if clip_listed(ctx.soundboard@, key@) {
        let i = choose|i: int| 0 <= i < ctx.soundboard@.len() && ctx.soundboard@[i].key@ == key@;
        assert(shown.clips[i] == key@);
        assert(shown.clips.contains(key@));
    }
    if ctx.comms matches Some(b) && quick_listed(b.quick_actions@, key@) {
        let q = ctx.comms->0.quick_actions@;
        let i = choose|i: int| 0 <= i < q.len() && q[i].key@ == key@;
        assert(shown.quick_actions[i] == (key@, q[i].label@));
        assert(shown.quick_actions.contains((key@, q[i].label@)));
    }
    if clips_on(ctx) && clip_listed(ctx.member_clips->0.clips@, key@) {
        let m = ctx.member_clips->0.clips@;
        let i = choose|i: int| 0 <= i < m.len() && m[i].key@ == key@;
        assert(shown.member_clips[i] == (key@, m[i].label@));
        assert(shown.member_clips.contains((key@, m[i].label@)));
    }
}

/// What the board shows of the op decides the keys that need no list: checking in works exactly
/// when the board offers an op to join, readiness exactly on an op, the rail within its bounds, and
/// the bed exactly while a lead can hear it. A board that reads as disconnected refuses every key.
pub proof fn law_board_decides(
    connected: bool,
    ctx: Option<OpContext>,
    candidate: Option<Seq<char>>,
    percent: i64,
)
    ensures
        ({
            let shown = board(connected, ctx, candidate);
            let works = |a: Action| refusal(a, connected, ctx, candidate) is None;
            let leads = connected && shown.live_op && shown.is_lead;
            let bed = leads && shown.bed_active;
            &&& works(Action::CheckIn) == (connected && shown.checkin is Some)
            &&& works(Action::ToggleReady) == (connected && shown.live_op)
            &&& works(Action::ObjectiveNext) == (leads && (shown.objective matches Some(o) && o.0
                < o.1))
            &&& works(Action::ObjectivePrev) == (leads && (shown.objective matches Some(o) && o.0
                > 0 && o.1 > 0))
            &&& works(Action::BedPause) == bed
            &&& works(Action::BedResume) == bed
            &&& works(Action::TransportNext) == bed
            &&& works(Action::TransportPrev) == bed
            &&& works(Action::BedVolume { percent }) == (bed && 0 <= percent <= 100)
            &&& works(Action::CompleteOp { confirm: true }) == leads
        }),
{
}

/// No action goes out while the server socket is down, none meant for the lead goes out for anyone
/// else, and completing an op never goes out unconfirmed.
pub proof fn law_gates(
    action: Action,
    connected: bool,
    ctx: Option<OpContext>,
    candidate: Option<Seq<char>>,
)
    requires
        refusal(action, connected, ctx, candidate) is None,
    ensures
        connected,
        !action.for_any_member() ==> (ctx matches Some(c) && c.is_lead),
        action.destructive() ==> action == (Action::CompleteOp { confirm: true }),
        intent(action, ctx, candidate) is CompleteOp == action.destructive(),
{
}

/// Stepping along the rail forward and back again is asking for the stage it started from, and no
/// step leaves the rail.
pub proof fn law_rail(ctx: OpContext, after: OpContext, candidate: Option<Seq<char>>)
    requires
        refusal(Action::ObjectiveNext, true, Some(ctx), candidate) is None,
        intent(Action::ObjectiveNext, Some(ctx), candidate) == (ClientMessageView::SetObjective {
            index: after.current_stage,
        }),
        after.objectives == ctx.objectives,
        after.is_lead,
    ensures
        after.current_stage <= after.objectives.len(),
        refusal(Action::ObjectivePrev, true, Some(after), candidate) is None,
        intent(Action::ObjectivePrev, Some(after), candidate) == (ClientMessageView::SetObjective {
            index: ctx.current_stage,
        }),
{
}

/// What goes out is what was asked for. A clip, quick action or member clip is sent under the very
/// key that was pressed, a volume is the very percentage, a quick action goes to the op's ready
/// room, and checking in names the op that the board offered. The context decides none of these.
pub proof fn law_message_is_what_was_asked(
    action: Action,
    ctx: Option<OpContext>,
    candidate: Option<Seq<char>>,
)
    ensures
        ({
            let sent = intent(action, ctx, candidate);
            &&& action matches Action::TriggerClip { key } ==> sent
                == (ClientMessageView::TriggerClip { key: key@ })
            &&& action matches Action::MemberClip { key } ==> sent
                == (ClientMessageView::TriggerMemberClip { key: key@ })
            &&& action matches Action::Quick { key } ==> sent
                == (ClientMessageView::SendQuickAction { channel: None::<u64>, action: key@ })
            &&& action matches Action::BedVolume { percent } ==> sent
                == (ClientMessageView::SetBedVolume { percent })
            &&& action is CheckIn && candidate is Some ==> (sent matches ClientMessageView::CheckIn {
                event_id,
            } && candidate == Some(event_id))
            &&& action is CheckIn && ctx is None ==> (sent matches ClientMessageView::CheckIn {
                event_id,
            } && (candidate is Some ==> board(true, ctx, candidate).checkin == Some(event_id)))
        }),
{
}

/// Two actions ask for the same thing. Whether completing an op was confirmed is no part of that.
pub open spec fn same_request(a: Action, b: Action) -> bool {
    match (a, b) {
        (Action::BedVolume { percent: p }, Action::BedVolume { percent: q }) => p == q,
        (Action::TriggerClip { key: p }, Action::TriggerClip { key: q }) => p@ == q@,
        (Action::Quick { key: p }, Action::Quick { key: q }) => p@ == q@,
        (Action::MemberClip { key: p }, Action::MemberClip { key: q }) => p@ == q@,
        (Action::CompleteOp { .. }, Action::CompleteOp { .. }) => true,
        _ => a == b,
    }
}

/// No two keys do the same: on one op, accepted actions lead to one message only where they ask for
/// the same thing.
pub proof fn law_different_keys_differ(
    a: Action,
    b: Action,
    connected: bool,
    ctx: Option<OpContext>,
    candidate: Option<Seq<char>>,
)
    requires
        refusal(a, connected, ctx, candidate) is None,
        refusal(b, connected, ctx, candidate) is None,
        intent(a, ctx, candidate) == intent(b, ctx, candidate),
    ensures
        same_request(a, b),
{
}

/// Each kind of action leads to its own kind of message.
pub proof fn law_each_action_has_its_message(
    action: Action,
    ctx: Option<OpContext>,
    candidate: Option<Seq<char>>,
)
    ensures
        ({
            let sent = intent(action, ctx, candidate);
            &&& sent is CheckIn == action is CheckIn
            &&& sent is SetReady == action is ToggleReady
            &&& sent is SetObjective == (action is ObjectiveNext || action is ObjectivePrev)
            &&& sent is SetBedPaused == (action is BedPause || action is BedResume)
            &&& sent is TransportNext == action is TransportNext
            &&& sent is TransportPrev == action is TransportPrev
            &&& sent is SetBedVolume == action is BedVolume
            &&& sent is TriggerClip == action is TriggerClip
            &&& sent is SendQuickAction == action is Quick
            &&& sent is TriggerMemberClip == action is MemberClip
            &&& sent is CompleteOp == action is CompleteOp
            &&& sent matches ClientMessageView::SetBedPaused { paused } ==> paused
                == action is BedPause
        }),
{
}

/// The ready key asks for the opposite of what the board shows, and pressed again, once the op has
/// followed, for what it showed at first.
pub proof fn law_ready_key_toggles(
    connected: bool,
    ctx: OpContext,
    after: OpContext,
    candidate: Option<Seq<char>>,
)
    ensures
        ({
            let shown = board(connected, Some(ctx), candidate).my_ready;
            &&& shown == ctx.my_ready
            &&& intent(Action::ToggleReady, Some(ctx), candidate) == (ClientMessageView::SetReady {
                ready: !shown,
            })
            &&& intent(Action::ToggleReady, Some(ctx), candidate) == (ClientMessageView::SetReady {
                ready: after.my_ready,
            }) ==> intent(Action::ToggleReady, Some(after), candidate)
                == (ClientMessageView::SetReady { ready: shown })
        }),
{
}

/// The rail keys ask for the stage next to the one the board shows.
pub proof fn law_rail_steps_from_the_board(
    connected: bool,
    ctx: OpContext,
    candidate: Option<Seq<char>>,
)
    ensures
        ({
            let shown = board(connected, Some(ctx), candidate).objective;
            &&& shown == Some((ctx.current_stage, ctx.objectives@.len() as usize))
            &&& ctx.current_stage < usize::MAX ==> (intent(
                Action::ObjectiveNext,
                Some(ctx),
                candidate,
            ) matches ClientMessageView::SetObjective { index } && index == ctx.current_stage + 1)
            &&& ctx.current_stage > 0 ==> (intent(Action::ObjectivePrev, Some(ctx), candidate)
                matches ClientMessageView::SetObjective { index } && index + 1
                == ctx.current_stage)
        }),
{
}

/// On an op the board shows that op: its name, the member's own part in it, the bed as the op
/// reports it, and the lists in their order.
pub proof fn law_board_shows_the_op(
    connected: bool,
    ctx: OpContext,
    candidate: Option<Seq<char>>,
    i: int,
)
    ensures
        ({
            let shown = board(connected, Some(ctx), candidate);
            &&& shown.connected == connected
            &&& shown.live_op
            &&& shown.op_name == Some(ctx.name@)
            &&& shown.checkin is None
            &&& shown.is_lead == ctx.is_lead
            &&& shown.my_ready == ctx.my_ready
            &&& ctx.music is None ==> !shown.bed_active && !shown.bed_paused && shown.bed_volume
                == 0 && shown.now_playing is None
            &&& ctx.music matches Some(m) ==> {
                &&& shown.bed_active == m.active
                &&& shown.bed_paused == m.paused
                &&& shown.bed_volume == m.volume
                &&& m.now_playing is None ==> shown.now_playing is None
                &&& m.now_playing matches Some(t) ==> {
                    &&& t.title is None ==> shown.now_playing is None
                    &&& t.title matches Some(title) ==> shown.now_playing == Some(title@)
                }
            }
            &&& shown.clips.len() == ctx.soundboard@.len()
            &&& 0 <= i < ctx.soundboard@.len() ==> shown.clips[i] == ctx.soundboard@[i].key@
            &&& ctx.comms is None ==> shown.quick_actions.len() == 0
            &&& ctx.comms matches Some(c) ==> {
                &&& shown.quick_actions.len() == c.quick_actions@.len()
                &&& 0 <= i < c.quick_actions@.len() ==> shown.quick_actions[i].0
                    == c.quick_actions@[i].key@ && shown.quick_actions[i].1
                    == c.quick_actions@[i].label@
            }
            &&& ctx.member_clips is None ==> shown.member_clips.len() == 0
            &&& ctx.member_clips matches Some(b) ==> {
                &&& b.policy@ == "off"@ ==> shown.member_clips.len() == 0
                &&& b.policy@ != "off"@ ==> {
                    &&& shown.member_clips.len() == b.clips@.len()
                    &&& 0 <= i < b.clips@.len() ==> shown.member_clips[i].0 == b.clips@[i].key@
                        && shown.member_clips[i].1 == b.clips@[i].label@
                }
            }
        }),
{
}

/// Off an op the board has nothing but the connection and the op to join, and every key on it is
/// off.
pub proof fn law_board_without_an_op(connected: bool, candidate: Option<Seq<char>>)
    ensures
        ({
            let shown = board(connected, None, candidate);
            &&& shown.connected == connected
            &&& shown.checkin == candidate
            &&& !shown.live_op && !shown.is_lead && !shown.my_ready
            &&& !shown.bed_active && !shown.bed_paused && shown.bed_volume == 0
            &&& shown.op_name is None && shown.objective is None && shown.now_playing is None
            &&& shown.clips.len() == 0 && shown.quick_actions.len() == 0
                && shown.member_clips.len() == 0
        }),
{
}

/// What is drawn is what the board says: no part of a key state is read as anything else.
pub proof fn law_key_state_reads_as_it_is(k: KeyState, i: int)
    ensures
        k@.api_version == k.api_version,
        k@.connected == k.connected,
        k@.live_op == k.live_op,
        k@.is_lead == k.is_lead,
        k@.my_ready == k.my_ready,
        k@.bed_active == k.bed_active,
        k@.bed_paused == k.bed_paused,
        k@.bed_volume == k.bed_volume,
        k@.objective == k.objective,
        k@.op_name is Some == k.op_name is Some,
        k.op_name matches Some(s) ==> k@.op_name == Some(s@),
        k@.checkin is Some == k.checkin is Some,
        k.checkin matches Some(s) ==> k@.checkin == Some(s@),
        k@.now_playing is Some == k.now_playing is Some,
        k.now_playing matches Some(s) ==> k@.now_playing == Some(s@),
        k@.clips.len() == k.clips@.len(),
        0 <= i < k.clips@.len() ==> k@.clips[i] == k.clips@[i]@,
        k@.quick_actions.len() == k.quick_actions@.len(),
        0 <= i < k.quick_actions@.len() ==> k@.quick_actions[i].0 == k.quick_actions@[i].0@
            && k@.quick_actions[i].1 == k.quick_actions@[i].1@,
        k@.member_clips.len() == k.member_clips@.len(),
        0 <= i < k.member_clips@.len() ==> k@.member_clips[i].0 == k.member_clips@[i].0@
            && k@.member_clips[i].1 == k.member_clips@[i].1@,
{
}

/// Each reason is given exactly where it is the first that applies, in this order: no connection; an
/// op that is already joined, or none; a confirmation that is missing; a part in the op that is not
/// the lead's; and what the op itself has to offer.
pub proof fn law_each_refusal_has_its_reason(
    action: Action,
    connected: bool,
    ctx: Option<OpContext>,
    candidate: Option<Seq<char>>,
)
    ensures
        ({
            let why = refusal(action, connected, ctx, candidate);
            let on_op = connected && ctx is Some && !(action is CheckIn);
            let c = ctx->0;
            let open = action is ToggleReady || action is Quick || action is MemberClip;
            let unconfirmed = action == (Action::CompleteOp { confirm: false });
            let may = on_op && !unconfirmed && (open || c.is_lead);
            let rail = action is ObjectiveNext || action is ObjectivePrev;
            let bed = action is BedPause || action is BedResume || action is TransportNext
                || action is TransportPrev || action is BedVolume;
            let silent = c.music is None || !c.music->0.active;
            let loud = action matches Action::BedVolume { percent } && (percent < 0 || percent
                > 100);
            let clips_off = c.member_clips is None || c.member_clips->0.policy@ == "off"@;
            &&& (why == Some(Refusal::NotConnected)) == !connected
            &&& (why == Some(Refusal::AlreadyCheckedIn)) == (connected && action is CheckIn && ctx
                is Some)
            &&& (why == Some(Refusal::NoLiveOp)) == (connected && ctx is None && (action is CheckIn
                ==> candidate is None))
            &&& (why == Some(Refusal::NeedsConfirm)) == (on_op && unconfirmed)
            &&& (why == Some(Refusal::NotLead)) == (on_op && !unconfirmed && !open && !c.is_lead)
            &&& (why == Some(Refusal::NoObjectives)) == (may && rail && c.objectives@.len() == 0)
            &&& (why == Some(Refusal::AtEnd)) == (may && c.objectives@.len() > 0 && ((action
                is ObjectiveNext && c.current_stage >= c.objectives@.len()) || (action
                is ObjectivePrev && c.current_stage == 0)))
            &&& (why == Some(Refusal::OutOfRange)) == (may && loud)
            &&& (why == Some(Refusal::NoBed)) == (may && bed && !loud && silent)
            &&& (why == Some(Refusal::ClipsOff)) == (may && action is MemberClip && clips_off)
            &&& (why == Some(Refusal::UnknownClip)) == (may && ((action matches Action::TriggerClip {
                key,
            } && (forall|i: int|
                0 <= i < c.soundboard@.len() ==> (#[trigger] c.soundboard@[i]).key@ != key@)) || (
            action matches Action::MemberClip { key } && !clips_off && (forall|i: int|
                0 <= i < c.member_clips->0.clips@.len() ==> (
                #[trigger] c.member_clips->0.clips@[i]).key@ != key@))))
            &&& (why == Some(Refusal::UnknownAction)) == (may && (action matches Action::Quick {
                key,
            } && (c.comms is None || (forall|i: int|
                0 <= i < c.comms->0.quick_actions@.len() ==> (
                #[trigger] c.comms->0.quick_actions@[i]).key@ != key@))))
        }),
{
}

/// A reference to an op refers to that op.
pub proof fn law_op_of(ctx: &OpContext)
    ensures
        op_of(Some(ctx)) == Some(*ctx),
        op_of(None) is None,
{
}

} // verus!
