//! Media-key control of the op's music bed.
//!
//! The bed is played elsewhere, so the media session only stands for a remote transport. It exists
//! only while the member leads a live op with an audible bed: a failed check on the server is
//! silent, and a media key that does nothing must not be taken from another player.

use crate::local_api;
use crate::local_api::Action;
use crate::protocol;
use crate::protocol::{ClientMessage, ClientMessageView, OpContext};
use crate::text::str_eq;
use vstd::prelude::*;

verus! {

/// What the media session should be. `Absent` takes an existing one down.
#[derive(Debug, Clone, PartialEq, Eq)]
pub enum SessionPlan {
    Absent,
    Present(SessionMeta),
}

/// What the media session shows.
#[derive(Debug, Clone, PartialEq, Eq, Default)]
pub struct SessionMeta {
    pub title: String,
    pub artist: String,
    /// As the server reports it, not as a local guess.
    pub paused: bool,
    pub duration_ms: Option<i32>,
    pub elapsed_ms: Option<i64>,
}

/// What a [`SessionMeta`] shows, with its strings as characters.
pub struct SessionMetaView {
    pub title: Seq<char>,
    pub artist: Seq<char>,
    pub paused: bool,
    pub duration_ms: Option<i32>,
    pub elapsed_ms: Option<i64>,
}

impl View for SessionMeta {
    type V = SessionMetaView;

    open spec fn view(&self) -> SessionMetaView {
        SessionMetaView {
            title: self.title@,
            artist: self.artist@,
            paused: self.paused,
            duration_ms: self.duration_ms,
            elapsed_ms: self.elapsed_ms,
        }
    }
}

impl View for SessionPlan {
    type V = Option<SessionMetaView>;

    /// What the session shows, if there is to be one.
    open spec fn view(&self) -> Option<SessionMetaView> {
        match *self {
            SessionPlan::Absent => None,
            SessionPlan::Present(meta) => Some(meta@),
        }
    }
}

/// Shown while an audible bed has no name yet. An empty title would look broken.
pub const UNKNOWN_TITLE: &'static str = "Music bed";

/// There is something to control: an op that the member leads, with an audible bed.
pub open spec fn controllable(ctx: Option<OpContext>) -> bool {
    ctx matches Some(c) && c.is_lead && local_api::audible(c)
}

/// The title shown for an op: that of the track, else the bed's key, else [`UNKNOWN_TITLE`].
pub open spec fn shown_title(ctx: OpContext) -> Seq<char> {
    match local_api::playing(ctx) {
        Some(title) => title,
        None => match protocol::text_of(ctx.music->0.bed) {
            Some(bed) => bed,
            None => UNKNOWN_TITLE@,
        },
    }
}

/// What the session shows for an op.
pub open spec fn shown_meta(ctx: OpContext) -> SessionMetaView {
    let music = ctx.music->0;
    SessionMetaView {
        title: shown_title(ctx),
        artist: match music.now_playing {
            Some(track) => match protocol::text_of(track.artist) {
                Some(artist) => artist,
                None => Seq::empty(),
            },
            None => Seq::empty(),
        },
        paused: music.paused,
        duration_ms: match music.now_playing {
            Some(track) => track.duration_ms,
            None => None,
        },
        elapsed_ms: music.elapsed_ms,
    }
}

/// What the media session should show, if it should be there.
pub open spec fn planned(enabled: bool, ctx: Option<OpContext>) -> Option<SessionMetaView> {
    if enabled && controllable(ctx) {
        Some(shown_meta(ctx->0))
    } else {
        None
    }
}

/// What the media session should be. It is there exactly while it is enabled and there is something
/// to control.
pub fn plan(enabled: bool, ctx: Option<&OpContext>) -> (r: SessionPlan)
    ensures
        r@ == if enabled && controllable(local_api::op_of(ctx)) {
            Some(shown_meta(*ctx->0))
        } else {
            None
        },
        r@ == planned(enabled, local_api::op_of(ctx)),
{
    if !enabled {
        return SessionPlan::Absent;
    }
    let ctx = match ctx {
        Some(ctx) => ctx,
        None => return SessionPlan::Absent,
    };
    if !ctx.is_lead {
        return SessionPlan::Absent;
    }
    let music = match &ctx.music {
        Some(music) => music,
        None => return SessionPlan::Absent,
    };
    if !music.active {
        return SessionPlan::Absent;
    }
    let (title, artist, duration_ms) = match &music.now_playing {
        Some(track) => (
            protocol::clone_text(&track.title),
            protocol::clone_text(&track.artist),
            track.duration_ms,
        ),
        None => (None, None, None),
    };
    let title = match title {
        Some(title) => title,
        None => match &music.bed {
            Some(bed) => bed.clone(),
            None => UNKNOWN_TITLE.to_string(),
        },
    };
    let artist = match artist {
        Some(artist) => artist,
        None => String::new(),
    };
    SessionPlan::Present(
        SessionMeta {
            title,
            artist,
            paused: music.paused,
            duration_ms,
            elapsed_ms: music.elapsed_ms,
        },
    )
}

/// Ticks of 100 nanoseconds in a millisecond.
pub const TICKS_PER_MS: i64 = 10_000;

/// The end of the scrub bar and the position on it, in ticks. The bed loops, so the position wraps
/// at the track's length; a track of unknown length has no bar.
pub open spec fn scrub_bar(duration_ms: Option<i32>, elapsed_ms: Option<i64>) -> Option<
    (int, int),
> {
    match duration_ms {
        Some(d) if d > 0 => {
            let elapsed = match elapsed_ms {
                Some(e) if e > 0 => e as int,
                _ => 0,
            };
            Some((d * TICKS_PER_MS, (elapsed % d as int) * TICKS_PER_MS))
        },
        _ => None,
    }
}

/// The end of the scrub bar and the position on it, in ticks. `None` when the length is unknown,
/// which is also what zero or less means.
pub fn timeline(duration_ms: Option<i32>, elapsed_ms: Option<i64>) -> (r: Option<(i64, i64)>)
    ensures
        match scrub_bar(duration_ms, elapsed_ms) {
            Some(bar) => r matches Some(t) && t.0 == bar.0 && t.1 == bar.1,
            None => r is None,
        },
{
    let duration: i64 = match duration_ms {
        Some(d) => d as i64,
        None => return None,
    };
    if duration <= 0 {
        return None;
    }
    let elapsed: i64 = match elapsed_ms {
        Some(e) => if e > 0 {
            e
        } else {
            0
        },
        None => 0,
    };
    let position: i64 = elapsed % duration;
    Some((duration * TICKS_PER_MS, position * TICKS_PER_MS))
}

/// The buttons the session accepts. There is no stop, which could only mean to release the op, and
/// no volume, which a media session does not have.
#[derive(Debug, Clone, Copy, PartialEq, Eq, Structural)]
pub enum Button {
    Play,
    Pause,
    Next,
    Previous,
}

/// What a button asks for.
pub open spec fn button_intent(button: Button) -> ClientMessageView {
    match button {
        Button::Play => ClientMessageView::SetBedPaused { paused: false },
        Button::Pause => ClientMessageView::SetBedPaused { paused: true },
        Button::Next => ClientMessageView::TransportNext,
        Button::Previous => ClientMessageView::TransportPrev,
    }
}

/// The message of a button: the same the on-screen transport sends. A media key is a new input, not
/// a new permission.
pub fn message_for(button: Button) -> (r: ClientMessage)
    ensures
        r@ == button_intent(button),
{
    match button {
        Button::Play => ClientMessage::SetBedPaused { paused: false },
        Button::Pause => ClientMessage::SetBedPaused { paused: true },
        Button::Next => ClientMessage::TransportNext,
        Button::Previous => ClientMessage::TransportPrev,
    }
}

/// What to do to the media session next.
#[derive(Debug, Clone, PartialEq, Eq)]
pub enum SmtcStep {
    /// Nothing.
    Idle,
    /// Take the session down. Whether that works changes nothing.
    Teardown,
    /// Create the session on this window with its button handler, and report to
    /// [`Smtc::attached`] with what it should show.
    Attach(isize, SessionMeta),
    /// Show this, and report to [`Smtc::pushed`].
    Push(SessionMeta),
}

/// What a [`SmtcStep`] says, with its strings as characters.
pub enum SmtcStepView {
    Idle,
    Teardown,
    Attach(isize, SessionMetaView),
    Push(SessionMetaView),
}

impl View for SmtcStep {
    type V = SmtcStepView;

    open spec fn view(&self) -> SmtcStepView {
        match *self {
            SmtcStep::Idle => SmtcStepView::Idle,
            SmtcStep::Teardown => SmtcStepView::Teardown,
            SmtcStep::Attach(hwnd, meta) => SmtcStepView::Attach(hwnd, meta@),
            SmtcStep::Push(meta) => SmtcStepView::Push(meta@),
        }
    }
}

/// What brings a session to a plan, given whether it was created and what it shows.
pub open spec fn next_step(
    created: bool,
    showing: Option<SessionMetaView>,
    hwnd: isize,
    plan: Option<SessionMetaView>,
) -> SmtcStepView {
    match plan {
        None => if created {
            SmtcStepView::Teardown
        } else {
            SmtcStepView::Idle
        },
        Some(meta) => if !created {
            SmtcStepView::Attach(hwnd, meta)
        } else if showing == Some(meta) {
            SmtcStepView::Idle
        } else {
            SmtcStepView::Push(meta)
        },
    }
}

/// What the session shows once a plan was taken up: nothing where it is taken down.
pub open spec fn kept(
    showing: Option<SessionMetaView>,
    plan: Option<SessionMetaView>,
) -> Option<SessionMetaView> {
    if plan is None {
        None
    } else {
        showing
    }
}

/// What brings a session to the state of the op, on a window or without one (0).
pub open spec fn reconciled(
    created: bool,
    showing: Option<SessionMetaView>,
    enabled: bool,
    ctx: Option<OpContext>,
    hwnd: isize,
) -> SmtcStepView {
    if hwnd == 0 && planned(enabled, ctx) is Some {
        SmtcStepView::Idle
    } else {
        next_step(created, showing, hwnd, planned(enabled, ctx))
    }
}

/// What follows an attempt to create the session.
pub open spec fn after_attach(ok: bool, meta: SessionMetaView) -> SmtcStepView {
    if ok {
        SmtcStepView::Push(meta)
    } else {
        SmtcStepView::Idle
    }
}

/// What the session shows after an attempt to show something.
pub open spec fn after_push(
    showing: Option<SessionMetaView>,
    ok: bool,
    meta: SessionMetaView,
) -> Option<SessionMetaView> {
    if ok {
        Some(meta)
    } else {
        showing
    }
}

/// What is known of the media session: whether it was created, which happens once, and what it
/// shows.
pub struct Smtc {
    attached: bool,
    last: Option<SessionMeta>,
}

/// A copy of what a session shows.
fn clone_meta(meta: &SessionMeta) -> (r: SessionMeta)
    ensures
        r@ == meta@,
{
    SessionMeta {
        title: meta.title.clone(),
        artist: meta.artist.clone(),
        paused: meta.paused,
        duration_ms: meta.duration_ms,
        elapsed_ms: meta.elapsed_ms,
    }
}

/// Whether two sessions show the same.
fn same_meta(a: &SessionMeta, b: &SessionMeta) -> (r: bool)
    ensures
        r == (a@ == b@),
{
    str_eq(a.title.as_str(), b.title.as_str()) && str_eq(a.artist.as_str(), b.artist.as_str())
        && a.paused == b.paused && a.duration_ms == b.duration_ms && a.elapsed_ms == b.elapsed_ms
}

impl Smtc {
    /// The session was created.
    pub closed spec fn created(self) -> bool {
        self.attached
    }

    /// What the session shows.
    pub closed spec fn showing(self) -> Option<SessionMetaView> {
        match self.last {
            Some(meta) => Some(meta@),
            None => None,
        }
    }

    /// Only a session that exists shows anything.
    pub closed spec fn wf(self) -> bool {
        self.last is Some ==> self.attached
    }

    /// No session.
    pub fn new() -> (r: Self)
        ensures
            r.wf(),
            !r.created(),
            r.showing() is None,
    {
        Smtc { attached: false, last: None }
    }

    /// What to do so that the session becomes as planned, on a window of this process. A session
    /// that already shows the plan is not touched, since refreshing it flickers.
    pub fn apply(&mut self, hwnd: isize, plan: &SessionPlan) -> (r: SmtcStep)
        requires
            old(self).wf(),
        ensures
            final(self).wf(),
            final(self).created() == old(self).created(),
            r@ == next_step(old(self).created(), old(self).showing(), hwnd, plan@),
            final(self).showing() == kept(old(self).showing(), plan@),
            match plan@ {
                None => {
                    &&& final(self).showing() is None
                    &&& r == if old(self).created() {
                        SmtcStep::Teardown
                    } else {
                        SmtcStep::Idle
                    }
                },
                Some(meta) => {
                    &&& final(self).showing() == old(self).showing()
                    &&& if !old(self).created() {
                        r matches SmtcStep::Attach(w, m) && w == hwnd && m@ == meta
                    } else if old(self).showing() == Some(meta) {
                        r is Idle
                    } else {
                        r matches SmtcStep::Push(m) && m@ == meta
                    }
                },
            },
    {
        match plan {
            SessionPlan::Absent => {
                self.last = None;
                if self.attached {
                    SmtcStep::Teardown
                } else {
                    SmtcStep::Idle
                }
            },
            SessionPlan::Present(meta) => {
                if !self.attached {
                    return SmtcStep::Attach(hwnd, clone_meta(meta));
                }
                self.to_show(meta)
            },
        }
    }

    /// What to do about the session after a change of the op, on the window `hwnd`. Without a window
    /// (0) no session can be created or shown, but one can be taken down.
    pub fn reconcile(&mut self, enabled: bool, ctx: Option<&OpContext>, hwnd: isize) -> (r: SmtcStep)
        requires
            old(self).wf(),
        ensures
            final(self).wf(),
            final(self).created() == old(self).created(),
            r@ == reconciled(
                old(self).created(),
                old(self).showing(),
                enabled,
                local_api::op_of(ctx),
                hwnd,
            ),
            final(self).showing() == kept(
                old(self).showing(),
                planned(enabled, local_api::op_of(ctx)),
            ),
            if enabled && controllable(local_api::op_of(ctx)) {
                let meta = shown_meta(*ctx->0);
                &&& final(self).showing() == old(self).showing()
                &&& if hwnd == 0 {
                    r is Idle
                } else if !old(self).created() {
                    r matches SmtcStep::Attach(w, m) && w == hwnd && m@ == meta
                } else if old(self).showing() == Some(meta) {
                    r is Idle
                } else {
                    r matches SmtcStep::Push(m) && m@ == meta
                }
            } else {
                &&& final(self).showing() is None
                &&& r == if old(self).created() {
                    SmtcStep::Teardown
                } else {
                    SmtcStep::Idle
                }
            },
    {
        let plan = plan(enabled, ctx);
        if hwnd == 0 && matches!(plan, SessionPlan::Present(_)) {
            return SmtcStep::Idle;
        }
        self.apply(hwnd, &plan)
    }

    /// After trying to create the session: what to do next for what it should show. A failure leaves
    /// it to the next plan to try again.
    pub fn attached(&mut self, ok: bool, meta: &SessionMeta) -> (r: SmtcStep)
        requires
            old(self).wf(),
            !old(self).created(),
        ensures
            final(self).wf(),
            final(self).created() == ok,
            final(self).showing() is None,
            r@ == after_attach(ok, meta@),
            if ok {
                r matches SmtcStep::Push(m) && m@ == meta@
            } else {
                r is Idle
            },
    {
        if !ok {
            return SmtcStep::Idle;
        }
        self.attached = true;
        self.to_show(meta)
    }

    /// After trying to show this. A failure leaves it to the next plan to try again.
    pub fn pushed(&mut self, ok: bool, meta: &SessionMeta)
        requires
            old(self).wf(),
            old(self).created(),
        ensures
            final(self).wf(),
            final(self).created(),
            final(self).showing() == if ok {
                Some(meta@)
            } else {
                old(self).showing()
            },
            final(self).showing() == after_push(old(self).showing(), ok, meta@),
    {
        if ok {
            self.last = Some(clone_meta(meta));
        }
    }

    /// What to do so that an existing session shows this.
    fn to_show(&self, meta: &SessionMeta) -> (r: SmtcStep)
        ensures
            if self.showing() == Some(meta@) {
                r is Idle
            } else {
                r matches SmtcStep::Push(m) && m@ == meta@
            },
    {
        match &self.last {
            Some(last) => if same_meta(last, meta) {
                SmtcStep::Idle
            } else {
                SmtcStep::Push(clone_meta(meta))
            },
            None => SmtcStep::Push(clone_meta(meta)),
        }
    }
}

/// The position stays on the bar, and is where the track itself is: whole runs of the loop do not
/// move it.
pub proof fn law_scrub_bar(duration_ms: i32, elapsed_ms: i64, runs: int)
    requires
        duration_ms > 0,
        elapsed_ms >= 0,
        runs >= 0,
        elapsed_ms + runs * duration_ms <= i64::MAX,
    ensures
        scrub_bar(Some(duration_ms), Some(elapsed_ms)) matches Some(bar) && 0 <= bar.1 < bar.0,
        scrub_bar(Some(duration_ms), Some((elapsed_ms + runs * duration_ms) as i64)) == scrub_bar(
            Some(duration_ms),
            Some(elapsed_ms),
        ),
        elapsed_ms < duration_ms ==> scrub_bar(Some(duration_ms), Some(elapsed_ms)) == Some(
            (duration_ms * TICKS_PER_MS, elapsed_ms * TICKS_PER_MS),
        ),
{
    let d = duration_ms as int;
    let e = elapsed_ms as int;
    assert(runs * d >= 0) by (nonlinear_arith)
        requires
            runs >= 0,
            d > 0,
    ;
    vstd::arithmetic::div_mod::lemma_mod_multiples_vanish(runs, e, d);
    assert(d * runs + e == e + runs * d) by (nonlinear_arith);
    assert(0 <= e % d < d);
    assert(e < d ==> e % d == e) by {
        if e < d {
            vstd::arithmetic::div_mod::lemma_small_mod(e as nat, d as nat);
        }
    }
    assert((e % d) * TICKS_PER_MS < d * TICKS_PER_MS);
}

/// The local action that a button stands for.
pub open spec fn button_action(button: Button) -> Action {
    match button {
        Button::Play => Action::BedResume,
        Button::Pause => Action::BedPause,
        Button::Next => Action::TransportNext,
        Button::Previous => Action::TransportPrev,
    }
}

/// While there is a session, each of its buttons is an action that would be accepted, and asks for
/// the very same; and while any of them would be accepted, there is something to control.
pub proof fn law_buttons_are_accepted(
    ctx: Option<OpContext>,
    candidate: Option<Seq<char>>,
    button: Button,
)
    ensures
        controllable(ctx) == (local_api::refusal(button_action(button), true, ctx, candidate)
            is None),
        controllable(ctx) ==> local_api::intent(button_action(button), ctx, candidate)
            == button_intent(button),
{
}

/// There is a session exactly while it is enabled and the member leads an op whose bed is heard.
pub proof fn law_session_only_where_it_can_act(enabled: bool, ctx: Option<OpContext>)
    ensures
        planned(enabled, ctx) is Some <==> enabled && ctx is Some && ctx->0.is_lead
            && ctx->0.music is Some && ctx->0.music->0.active,
{
}

/// The session shows the bed as the op reports it: the track's title, else the bed's key, else a
/// stand-in, never nothing in its place; the track's artist, or none; and the bed's own state.
pub proof fn law_session_shows_the_bed(enabled: bool, ctx: OpContext)
    requires
        planned(enabled, Some(ctx)) is Some,
    ensures
        ({
            let meta = planned(enabled, Some(ctx))->0;
            let music = ctx.music->0;
            &&& meta.paused == music.paused
            &&& meta.elapsed_ms == music.elapsed_ms
            &&& music.now_playing is None ==> meta.duration_ms is None && meta.artist.len() == 0
            &&& music.now_playing matches Some(t) ==> {
                &&& meta.duration_ms == t.duration_ms
                &&& t.artist is None ==> meta.artist.len() == 0
                &&& t.artist matches Some(a) ==> meta.artist == a@
                &&& t.title matches Some(title) ==> meta.title == title@
            }
            &&& (music.now_playing is None || music.now_playing->0.title is None) ==> {
                &&& music.bed matches Some(bed) ==> meta.title == bed@
                &&& music.bed is None ==> meta.title == "Music bed"@
            }
        }),
{
}

/// A session is created once, shown what is planned, and left alone once it shows it; without a plan
/// one that exists is taken down. Once a push succeeded the same plan has nothing more to do, and a
/// push that failed is tried again.
pub proof fn law_session_settles(
    showing: Option<SessionMetaView>,
    hwnd: isize,
    meta: SessionMetaView,
)
    ensures
        next_step(false, showing, hwnd, Some(meta)) == SmtcStepView::Attach(hwnd, meta),
        !(next_step(true, showing, hwnd, Some(meta)) is Attach),
        showing != Some(meta) ==> next_step(true, showing, hwnd, Some(meta))
            == SmtcStepView::Push(meta),
        next_step(true, after_push(showing, true, meta), hwnd, Some(meta)) is Idle,
        showing != Some(meta) ==> next_step(
            true,
            after_push(showing, false, meta),
            hwnd,
            Some(meta),
        ) == SmtcStepView::Push(meta),
        next_step(true, showing, hwnd, None) is Teardown,
        next_step(false, showing, hwnd, None) is Idle,
        after_attach(true, meta) == SmtcStepView::Push(meta),
        after_attach(false, meta) is Idle,
{
}

/// Without a window nothing is created or shown, and what exists is taken down all the same. With
/// one, the session goes by its plan.
pub proof fn law_session_needs_a_window(
    created: bool,
    showing: Option<SessionMetaView>,
    enabled: bool,
    ctx: Option<OpContext>,
    hwnd: isize,
)
    ensures
        !(reconciled(created, showing, enabled, ctx, 0) is Attach),
        !(reconciled(created, showing, enabled, ctx, 0) is Push),
        created && planned(enabled, ctx) is None ==> reconciled(
            created,
            showing,
            enabled,
            ctx,
            hwnd,
        ) is Teardown,
        hwnd != 0 ==> reconciled(created, showing, enabled, ctx, hwnd) == next_step(
            created,
            showing,
            hwnd,
            planned(enabled, ctx),
        ),
        reconciled(created, showing, enabled, ctx, hwnd) is Teardown ==> created && planned(
            enabled,
            ctx,
        ) is None,
{
}

/// There is a bar exactly for a track of known length. It ends at that length, and starts where
/// nothing has been played.
pub proof fn law_bar_needs_a_length(duration_ms: Option<i32>, elapsed_ms: Option<i64>)
    ensures
        scrub_bar(duration_ms, elapsed_ms) is Some <==> duration_ms is Some && duration_ms->0 > 0,
        scrub_bar(duration_ms, elapsed_ms) matches Some(bar) ==> {
            &&& bar.0 == duration_ms->0 * 10_000
            &&& elapsed_ms is None || elapsed_ms->0 <= 0 ==> bar.1 == 0
            &&& elapsed_ms matches Some(e) ==> (0 <= e < duration_ms->0 ==> bar.1 == e * 10_000)
        },
{
    if duration_ms is Some && duration_ms->0 > 0 {
        let d = duration_ms->0 as int;
        if elapsed_ms is Some && 0 <= elapsed_ms->0 < d {
            vstd::arithmetic::div_mod::lemma_small_mod(elapsed_ms->0 as nat, d as nat);
        } else {
            vstd::arithmetic::div_mod::lemma_small_mod(0, d as nat);
        }
    }
}

/// Each button asks for what is written on it.
pub proof fn law_buttons(button: Button)
    ensures
        button is Play ==> button_intent(button) == (ClientMessageView::SetBedPaused {
            paused: false,
        }),
        button is Pause ==> button_intent(button) == (ClientMessageView::SetBedPaused {
            paused: true,
        }),
        button_intent(button) is TransportNext == button is Next,
        button_intent(button) is TransportPrev == button is Previous,
{
}

/// What a session shows, and what is done to it, read as they are.
pub proof fn law_session_reads_as_it_is(meta: SessionMeta, plan: SessionPlan, step: SmtcStep)
    ensures
        meta@.title == meta.title@,
        meta@.artist == meta.artist@,
        meta@.paused == meta.paused,
        meta@.duration_ms == meta.duration_ms,
        meta@.elapsed_ms == meta.elapsed_ms,
        plan is Absent == plan@ is None,
        plan matches SessionPlan::Present(m) ==> plan@ == Some(m@),
        step is Idle == step@ is Idle,
        step is Teardown == step@ is Teardown,
        step matches SmtcStep::Attach(w, m) ==> step@ == SmtcStepView::Attach(w, m@),
        step matches SmtcStep::Push(m) ==> step@ == SmtcStepView::Push(m@),
{
}

/// A session that was taken down shows nothing: the same plan is shown anew when it comes back.
pub proof fn law_session_comes_back(
    showing: Option<SessionMetaView>,
    hwnd: isize,
    meta: SessionMetaView,
)
    ensures
        next_step(true, kept(showing, None), hwnd, Some(meta)) == SmtcStepView::Push(meta),
        kept(showing, Some(meta)) == showing,
{
}

} // verus!
