//! Hotkey presses on their way from the keyboard hook to the overlay: a ring that drops nothing
//! while it has room and keeps the order, the watchdog on a suspended capture, and the life of the
//! hook itself.

use vstd::prelude::*;

verus! {

/// How many presses can wait.
pub const HOTKEY_QUEUE_LEN: usize = 32;

/// How many presses wait between two free-running counters.
pub open spec fn waiting(head: usize, tail: usize) -> int {
    if head >= tail {
        head - tail
    } else {
        head + usize::MAX + 1 - tail
    }
}

/// The slot that a free-running counter stands at. The number of slots divides the range of the
/// counter, so running over is no special case.
pub fn ring_slot(counter: usize) -> (r: usize)
    ensures
        r == counter as int % 32,
        r < HOTKEY_QUEUE_LEN,
{
    counter % HOTKEY_QUEUE_LEN
}

/// Whether all slots between two counters are taken.
pub fn ring_full(head: usize, tail: usize) -> (r: bool)
    ensures
        r == (waiting(head, tail) >= HOTKEY_QUEUE_LEN),
{
    head.wrapping_sub(tail) >= HOTKEY_QUEUE_LEN
}

/// A ring of hotkey presses that wait to be acted on.
///
/// A single slot would lose a press that lands before the last one was read, and a set of pending
/// actions would lose their order and a double press. `head` and `tail` run freely; the remainder is
/// taken where a slot is indexed.
pub struct HotkeyQueue {
    slots: [u8; 32],
    head: usize,
    tail: usize,
    dropped: usize,
}

/// What waits after one more press: the press comes last, if there is room for it.
pub open spec fn queued(q: Seq<u8>, req: u8) -> Seq<u8> {
    if q.len() < HOTKEY_QUEUE_LEN {
        q.push(req)
    } else {
        q
    }
}

/// How many presses are lost after one more: a press is lost exactly when there is no room for it.
pub open spec fn lost_after(q: Seq<u8>, lost: usize) -> usize {
    if q.len() < HOTKEY_QUEUE_LEN {
        lost
    } else {
        lost.wrapping_add(1)
    }
}

/// The press that is taken next, and what waits then.
pub open spec fn taken(q: Seq<u8>) -> (Option<u8>, Seq<u8>) {
    if q.len() == 0 {
        (None, q)
    } else {
        (Some(q[0]), q.skip(1))
    }
}

/// What is handed out of the presses that wait.
pub open spec fn handed_out(q: Seq<u8>, suspended: bool) -> Seq<u8> {
    if suspended {
        Seq::empty()
    } else {
        q
    }
}

/// What waits after a burst of presses.
pub open spec fn queued_all(q: Seq<u8>, burst: Seq<u8>) -> Seq<u8>
    decreases burst.len(),
{
    if burst.len() == 0 {
        q
    } else {
        queued(queued_all(q, burst.drop_last()), burst.last())
    }
}

/// A burst of presses is replayed exactly as it was pressed: as long as there is room, none is lost
/// and none changes place. Past that, the earliest are the ones kept.
pub proof fn law_burst_keeps_order(q: Seq<u8>, burst: Seq<u8>)
    requires
        q.len() <= HOTKEY_QUEUE_LEN,
    ensures
        q.len() + burst.len() <= HOTKEY_QUEUE_LEN ==> queued_all(q, burst) == q + burst,
        queued_all(q, burst) == (q + burst).take(
            if q.len() + burst.len() <= HOTKEY_QUEUE_LEN {
                (q.len() + burst.len()) as int
            } else {
                HOTKEY_QUEUE_LEN as int
            },
        ),
    decreases burst.len(),
{
    if burst.len() == 0 {
        assert((q + burst).take(q.len() as int) =~= q);
        assert(q + burst =~= q);
    } else {
        law_burst_keeps_order(q, burst.drop_last());
        let n = (q.len() + burst.len()) as int;
        assert((q + burst.drop_last()).push(burst.last()) =~= q + burst);
        assert((q + burst).take(n) =~= q + burst);
        assert((q + burst.drop_last()).take(n - 1) =~= q + burst.drop_last());
        if n > HOTKEY_QUEUE_LEN {
            assert((q + burst.drop_last()).take(HOTKEY_QUEUE_LEN as int) =~= (q + burst).take(
                HOTKEY_QUEUE_LEN as int,
            ));
        }
    }
}

/// Counters that run over keep to their slots.
proof fn lemma_slot_after(tail: usize, n: int)
    requires
        0 <= n <= usize::MAX,
    ensures
        tail + n <= usize::MAX ==> (tail + n) % 32 == (tail as int % 32 + n) % 32,
        tail + n > usize::MAX ==> (tail + n - usize::MAX - 1) % 32 == (tail as int % 32 + n) % 32,
{
    assert((usize::MAX + 1) % 32 == 0);
}

impl View for HotkeyQueue {
    type V = Seq<u8>;

    /// The presses that wait, oldest first.
    closed spec fn view(&self) -> Seq<u8> {
        Seq::new(
            waiting(self.head, self.tail) as nat,
            |i: int| self.slots@[(self.tail as int % 32 + i) % 32],
        )
    }
}

impl HotkeyQueue {
    /// No more presses wait than there are slots.
    pub closed spec fn wf(self) -> bool {
        waiting(self.head, self.tail) <= HOTKEY_QUEUE_LEN
    }

    /// A ring never holds more presses than it has slots.
    pub proof fn law_bounded(self)
        requires
            self.wf(),
        ensures
            self@.len() <= HOTKEY_QUEUE_LEN,
    {
    }

    /// How many presses were lost to a full ring, modulo the range of the counter.
    pub closed spec fn lost(self) -> usize {
        self.dropped
    }

    /// An empty ring.
    pub fn new() -> (r: Self)
        ensures
            r.wf(),
            r@ == Seq::<u8>::empty(),
            r.lost() == 0,
    {
        let r = HotkeyQueue { slots: [0;32], head: 0, tail: 0, dropped: 0 };
        assert(r@ =~= Seq::<u8>::empty());
        r
    }

    /// Queues a press behind the others; counts it as lost when the ring is full.
    pub fn push(&mut self, req: u8)
        requires
            old(self).wf(),
        ensures
            final(self).wf(),
            final(self)@ == queued(old(self)@, req),
            final(self).lost() == if old(self)@.len() < HOTKEY_QUEUE_LEN {
                old(self).lost()
            } else {
                old(self).lost().wrapping_add(1)
            },
            final(self).lost() == lost_after(old(self)@, old(self).lost()),
    {
        let ghost before = *self;
        if ring_full(self.head, self.tail) {
            self.dropped = self.dropped.wrapping_add(1);
            assert(self@ =~= before@);
            return;
        }
        let slot: usize = ring_slot(self.head);
        self.slots[slot] = req;
        self.head = self.head.wrapping_add(1);
        proof {
            let n = waiting(before.head, before.tail);
            lemma_slot_after(before.tail, n);
            assert(slot == (before.tail as int % 32 + n) % 32);
            assert(waiting(self.head, self.tail) == n + 1);
            assert forall|i: int| 0 <= i < n implies self@[i] == before@[i] by {
                assert((before.tail as int % 32 + i) % 32 != slot);
            }
            assert(self@ =~= before@.push(req));
        }
    }

    /// Takes the oldest press.
    pub fn pop(&mut self) -> (r: Option<u8>)
        requires
            old(self).wf(),
        ensures
            final(self).wf(),
            final(self).lost() == old(self).lost(),
            old(self)@.len() == 0 ==> r is None && final(self)@ == old(self)@,
            old(self)@.len() > 0 ==> {
                &&& r == Some(old(self)@[0])
                &&& final(self)@ == old(self)@.skip(1)
            },
            (r, final(self)@) == taken(old(self)@),
    {
        let ghost before = *self;
        if self.tail == self.head {
            return None;
        }
        let slot: usize = ring_slot(self.tail);
        let req: u8 = self.slots[slot];
        self.tail = self.tail.wrapping_add(1);
        proof {
            lemma_slot_after(before.tail, 1);
            assert(waiting(self.head, self.tail) == waiting(before.head, before.tail) - 1);
            assert forall|i: int| 0 <= i < self@.len() implies self@[i] == before@.skip(1)[i] by {
                assert((self.tail as int % 32 + i) % 32 == (before.tail as int % 32 + (i + 1))
                    % 32);
            }
            assert(self@ =~= before@.skip(1));
        }
        Some(req)
    }

    /// How many presses were lost to a full ring.
    pub fn dropped(&self) -> (r: usize)
        ensures
            r == self.lost(),
    {
        self.dropped
    }

    /// Takes every press, oldest first, and hands out those to act on: all of them, or none while a
    /// capture suspends the hotkeys.
    pub fn drain(&mut self, suspended: bool) -> (r: Vec<u8>)
        requires
            old(self).wf(),
        ensures
            final(self).wf(),
            final(self)@ == Seq::<u8>::empty(),
            final(self).lost() == old(self).lost(),
            r@ == if suspended {
                Seq::<u8>::empty()
            } else {
                old(self)@
            },
            r@ == handed_out(old(self)@, suspended),
    {
        let ghost before = self@;
        let mut r: Vec<u8> = Vec::new();
        assert(before.skip(0) =~= before);
        let ghost mut taken: int = 0;
        loop
            invariant_except_break
                0 <= taken <= before.len(),
                self@ == before.skip(taken),
            invariant
                self.wf(),
                self.lost() == old(self).lost(),
                r@ == if suspended {
                    Seq::<u8>::empty()
                } else {
                    before.take(taken)
                },
            ensures
                self@ == Seq::<u8>::empty(),
                taken == before.len(),
            decreases self@.len(),
        {
            let next = self.pop();
            match next {
                None => {
                    assert(self@ =~= Seq::<u8>::empty());
                    break;
                },
                Some(req) => {
                    proof {
                        assert(before.skip(taken).skip(1) =~= before.skip(taken + 1));
                        assert(before.take(taken + 1) =~= before.take(taken).push(before[taken]));
                        taken = taken + 1;
                    }
                    if !suspended {
                        r.push(req);
                    }
                },
            }
        }
        assert(before.take(taken) =~= before);
        r
    }
}

/// How many poller ticks a capture may stay armed. A settings surface that went away in the middle
/// of one must not leave the hotkeys dead.
pub const SUSPEND_MAX_TICKS: u32 = 200;

/// One tick of the watchdog: whether the hotkeys stay suspended, and the ticks since they were.
pub open spec fn suspend_after(suspended: bool, ticks: u32) -> (bool, u32) {
    if suspended && ticks + 1 < SUSPEND_MAX_TICKS {
        (true, (ticks + 1) as u32)
    } else {
        (false, 0)
    }
}

/// One tick of the watchdog: whether the hotkeys stay suspended, and the ticks since they were.
pub fn next_suspend(suspended: bool, ticks: u32) -> (r: (bool, u32))
    requires
        suspended ==> ticks < u32::MAX,
    ensures
        r == suspend_after(suspended, ticks),
{
    if suspended && ticks + 1 < SUSPEND_MAX_TICKS {
        (true, ticks + 1)
    } else {
        (false, 0)
    }
}

/// The watchdog's state after a run of ticks during which a capture keeps asking for suspension.
pub open spec fn suspended_for(n: nat) -> (bool, u32)
    decreases n,
{
    if n == 0 {
        (true, 0)
    } else {
        suspend_after(true, suspended_for((n - 1) as nat).1)
    }
}

/// A capture suspends the hotkeys for as long as it is armed, up to the limit, and never past it: of
/// the ticks after it was armed, exactly the one that reaches the limit lets them go.
pub proof fn law_suspension_ends(n: nat)
    requires
        n <= SUSPEND_MAX_TICKS,
    ensures
        suspended_for(n) == if n < SUSPEND_MAX_TICKS {
            (true, n as u32)
        } else {
            (false, 0u32)
        },
    decreases n,
{
    if n > 0 {
        law_suspension_ends((n - 1) as nat);
    }
}

/// The poller's watchdog on a suspended capture.
pub struct SuspendWatch {
    ticks: u32,
}

impl SuspendWatch {
    pub closed spec fn wf(self) -> bool {
        self.ticks < SUSPEND_MAX_TICKS
    }

    /// Ticks since the hotkeys were suspended.
    pub closed spec fn ticks(self) -> u32 {
        self.ticks
    }

    pub fn new() -> (r: Self)
        ensures
            r.wf(),
            r.ticks() == 0,
    {
        SuspendWatch { ticks: 0 }
    }

    /// One tick: whether the hotkeys stay suspended.
    pub fn tick(&mut self, suspended: bool) -> (r: bool)
        requires
            old(self).wf(),
        ensures
            final(self).wf(),
            (r, final(self).ticks()) == suspend_after(suspended, old(self).ticks()),
    {
        let (still, ticks) = next_suspend(suspended, self.ticks);
        self.ticks = ticks;
        still
    }
}

/// What the thread of the keyboard hook does next.
#[derive(Debug, Clone, Copy, PartialEq, Eq, Structural)]
pub enum HookStep {
    /// Wait this many seconds and install the hook.
    RetryAfter(u64),
    /// Wait for the next message.
    Pump,
    /// Remove the hook and install it again.
    Reinstall,
    /// Remove the hook and end.
    Quit,
}

/// The longest wait before the hook is installed again, in seconds.
pub const HOOK_BACKOFF_MAX_SECS: u64 = 30;

/// The wait after one more failure: twice as long, up to the limit.
pub open spec fn longer_wait(secs: int) -> int {
    if 2 * secs < HOOK_BACKOFF_MAX_SECS {
        2 * secs
    } else {
        HOOK_BACKOFF_MAX_SECS as int
    }
}

/// The wait after a run of failures to install the hook.
pub open spec fn wait_after(failures: nat) -> int
    decreases failures,
{
    if failures == 0 {
        1
    } else {
        longer_wait(wait_after((failures - 1) as nat))
    }
}

/// However often installing the hook fails, it is tried again within the longest wait, and the waits
/// never get shorter: they are the powers of two up to that limit.
pub proof fn law_hook_is_retried(failures: nat)
    ensures
        1 <= wait_after(failures) <= HOOK_BACKOFF_MAX_SECS,
        wait_after(failures) <= wait_after(failures + 1),
        wait_after(failures) == if vstd::arithmetic::power2::pow2(failures)
            < HOOK_BACKOFF_MAX_SECS {
            vstd::arithmetic::power2::pow2(failures) as int
        } else {
            HOOK_BACKOFF_MAX_SECS as int
        },
    decreases failures,
{
    vstd::arithmetic::power2::lemma2_to64();
    if failures > 0 {
        law_hook_is_retried((failures - 1) as nat);
        vstd::arithmetic::power2::lemma_pow2_unfold(failures);
    }
}

/// What follows an attempt to install the hook, and the wait after the next failure.
pub open spec fn after_install(backoff: u64, ok: bool) -> (HookStep, int) {
    if ok {
        (HookStep::Pump, 1)
    } else {
        (HookStep::RetryAfter(backoff), longer_wait(backoff as int))
    }
}

/// What follows the result of waiting for a message.
pub open spec fn after_pump(result: i32) -> HookStep {
    if result == -1 {
        HookStep::Reinstall
    } else if result == 0 {
        HookStep::Quit
    } else {
        HookStep::Pump
    }
}

/// The thread that owns the keyboard hook. Losing the hook kills every hotkey without a sign of it,
/// so no failure ends the thread: it installs the hook again.
pub struct HookThread {
    backoff_secs: u64,
}

impl HookThread {
    pub closed spec fn wf(self) -> bool {
        1 <= self.backoff_secs <= HOOK_BACKOFF_MAX_SECS
    }

    /// The wait after the next failure to install.
    pub closed spec fn backoff(self) -> u64 {
        self.backoff_secs
    }

    pub fn new() -> (r: Self)
        ensures
            r.wf(),
            r.backoff() == 1,
    {
        HookThread { backoff_secs: 1 }
    }

    /// After an attempt to install the hook. Each failure doubles the wait up to its limit, and a
    /// success resets it.
    pub fn installed(&mut self, ok: bool) -> (r: HookStep)
        requires
            old(self).wf(),
        ensures
            final(self).wf(),
            ok ==> r == HookStep::Pump && final(self).backoff() == 1,
            !ok ==> r == HookStep::RetryAfter(old(self).backoff()) && final(self).backoff()
                == longer_wait(old(self).backoff() as int),
            (r, final(self).backoff() as int) == after_install(old(self).backoff(), ok),
    {
        if !ok {
            let wait: u64 = self.backoff_secs;
            let doubled: u64 = wait * 2;
            self.backoff_secs = if doubled < HOOK_BACKOFF_MAX_SECS {
                doubled
            } else {
                HOOK_BACKOFF_MAX_SECS
            };
            return HookStep::RetryAfter(wait);
        }
        self.backoff_secs = 1;
        HookStep::Pump
    }

    /// After waiting for a message. The result is a message, the request to quit or an error, and
    /// only the request to quit ends the thread.
    pub fn pumped(result: i32) -> (r: HookStep)
        ensures
            r == if result == -1 {
                HookStep::Reinstall
            } else if result == 0 {
                HookStep::Quit
            } else {
                HookStep::Pump
            },
            r == after_pump(result),
    {
        if result == -1 {
            HookStep::Reinstall
        } else if result == 0 {
            HookStep::Quit
        } else {
            HookStep::Pump
        }
    }
}

/// A press goes behind those that wait and changes none of them; one more than there is room for
/// changes nothing and is counted. So no press vanishes: it waits, or it is counted as lost.
pub proof fn law_press_waits_or_is_counted(q: Seq<u8>, req: u8, lost: usize)
    requires
        lost < usize::MAX,
    ensures
        q.len() < 32 ==> queued(q, req) == q.push(req) && lost_after(q, lost) == lost,
        q.len() >= 32 ==> queued(q, req) == q && lost_after(q, lost) == lost + 1,
        queued(q, req).len() + lost_after(q, lost) == q.len() + lost + 1,
{
}

/// First in, first out: of presses that were queued on top of others the oldest is taken first, and
/// what was taken does not wait any more.
pub proof fn law_first_in_first_out(q: Seq<u8>, burst: Seq<u8>)
    requires
        q.len() + burst.len() <= HOTKEY_QUEUE_LEN,
    ensures
        ({
            let all = queued_all(q, burst);
            &&& all.len() == 0 ==> taken(all).0 is None
            &&& q.len() > 0 ==> taken(all).0 == Some(q[0]) && taken(all).1 == q.skip(1) + burst
            &&& q.len() == 0 && burst.len() > 0 ==> taken(all).0 == Some(burst[0]) && taken(all).1
                == burst.skip(1)
            &&& handed_out(all, false) == q + burst
            &&& handed_out(all, true).len() == 0
        }),
{
    law_burst_keeps_order(q, burst);
    if q.len() > 0 {
        assert((q + burst).skip(1) =~= q.skip(1) + burst);
    } else {
        assert(q + burst =~= burst);
    }
}

/// Without a capture the hotkeys are never suspended, and the count starts over; with one they are,
/// a tick at a time, until the limit.
pub proof fn law_suspension_follows_the_capture(ticks: u32)
    requires
        ticks < u32::MAX,
    ensures
        suspend_after(false, ticks) == (false, 0u32),
        ticks < 199 ==> suspend_after(true, ticks) == (true, (ticks + 1) as u32),
        ticks >= 199 ==> suspend_after(true, ticks) == (false, 0u32),
{
}

/// The hook's thread ends only when it is asked to quit. Any failure leads back to installing: at
/// once after one while waiting for messages, and after the wait that is due after one to install.
pub proof fn law_hook_survives_failures(backoff: u64, result: i32)
    ensures
        after_pump(result) is Quit == (result == 0),
        after_pump(result) is Reinstall == (result == -1),
        after_pump(result) is Pump == (result != 0 && result != -1),
        after_install(backoff, false).0 == HookStep::RetryAfter(backoff),
        after_install(backoff, true).0 is Pump,
        after_install(backoff, true).1 == 1,
        1 <= backoff <= 14 ==> after_install(backoff, false).1 == backoff + backoff,
        backoff >= 15 ==> after_install(backoff, false).1 == 30,
{
}

} // verus!
