//! The state behind the two shortcuts. Alt+W minimises the active window
//! and remembers which window took the focus after it (the anchor); a second
//! Alt+W while that anchor still has the focus restores the window. Alt+Q
//! arms a confirmation for the active window; a second Alt+Q on the same
//! window within the confirmation time closes it. Windows are named by
//! their handles, with zero for "no window".
use vstd::prelude::*;

verus! {

/// How long after a minimise the tool waits for another window to take the
/// focus, in milliseconds.
pub const MINIMIZE_ANCHOR_CAPTURE_MS: u64 = 40;
/// How long the quit confirmation stays armed, in milliseconds.
pub const QUIT_CONFIRM_MS: u64 = 1600;
/// The id of the timer that keeps settling the anchor of a minimise.
pub const TIMER_MINIMIZE_ANCHOR: usize = 3003;

/// Whether a second Alt+W restores the last minimised window: only while
/// the window that took the focus after the minimise (the anchor) still has
/// it, and only if there is such a window.
pub open spec fn spec_should_restore(current: isize, anchor: isize) -> bool {
    current != 0 && anchor != 0 && current == anchor
}

/// Whether the last minimised window is restored, given the current
/// foreground window and the recorded anchor.
pub fn should_restore_last_minimized(current: isize, anchor: isize) -> (r: bool)
    ensures
        r == spec_should_restore(current, anchor),
{
    current != 0 && anchor != 0 && current == anchor
}

/// The memory of the last Alt+W minimise.
#[derive(Clone, Copy, Debug, PartialEq, Eq, Structural)]
pub struct MinimizeTracker {
    /// The window last minimised, once its anchor is settled.
    pub last_window: isize,
    /// The window that had the focus after it, or zero if none took it in time.
    pub last_anchor: isize,
    /// A window just minimised whose anchor is not settled yet.
    pub pending_window: isize,
    /// When the wait for the anchor of `pending_window` ends.
    pub pending_deadline: u64,
}

pub open spec fn cleared_tracker() -> MinimizeTracker {
    MinimizeTracker { last_window: 0, last_anchor: 0, pending_window: 0, pending_deadline: 0 }
}

/// Settling the anchor of a pending minimise: nothing to do without one; a
/// different window in the foreground becomes the anchor; once the wait is
/// over without one, the window is recorded without an anchor; otherwise the
/// wait goes on. The flag says whether nothing is pending any more.
pub open spec fn spec_resolve(t: MinimizeTracker, current: isize, now: u64) -> (MinimizeTracker, bool) {
    if t.pending_window == 0 {
        (t, true)
    } else if current != 0 && current != t.pending_window {
        (
            MinimizeTracker {
                last_window: t.pending_window,
                last_anchor: current,
                pending_window: 0,
                pending_deadline: 0,
            },
            true,
        )
    } else if now >= t.pending_deadline {
        (
            MinimizeTracker {
                last_window: t.pending_window,
                last_anchor: 0,
                pending_window: 0,
                pending_deadline: 0,
            },
            true,
        )
    } else {
        (t, false)
    }
}

/// Taking the last minimised window back: if there is none, or it is gone
/// or no longer minimised (`restorable` false), everything is forgotten; if
/// the anchor no longer has the focus, nothing changes; otherwise the window
/// is handed out and everything forgotten.
pub open spec fn spec_take_restore(t: MinimizeTracker, restorable: bool, current: isize) -> (
    MinimizeTracker,
    Option<isize>,
) {
    if t.last_window == 0 || !restorable {
        (cleared_tracker(), None)
    } else if !spec_should_restore(current, t.last_anchor) {
        (t, None)
    } else {
        (cleared_tracker(), Some(t.last_window))
    }
}

impl MinimizeTracker {
    /// Nothing minimised yet.
    pub fn new() -> (r: Self)
        ensures
            r == cleared_tracker(),
    {
        MinimizeTracker { last_window: 0, last_anchor: 0, pending_window: 0, pending_deadline: 0 }
    }

    /// Settles the anchor of a pending minimise, given the current
    /// foreground window and the time; returns whether nothing is pending
    /// any more.
    pub fn resolve_pending_anchor(&mut self, current: isize, now: u64) -> (done: bool)
        ensures
            (*final(self), done) == spec_resolve(*old(self), current, now),
    {
        let target = self.pending_window;
        if target == 0 {
            return true;
        }
        if current != 0 && current != target {
            self.last_window = target;
            self.last_anchor = current;
            self.pending_window = 0;
            self.pending_deadline = 0;
            return true;
        }
        if now >= self.pending_deadline {
            self.last_window = target;
            self.last_anchor = 0;
            self.pending_window = 0;
            self.pending_deadline = 0;
            return true;
        }
        false
    }

    /// Forgets the last and the pending minimise.
    pub fn clear(&mut self)
        ensures
            *final(self) == cleared_tracker(),
    {
        self.last_window = 0;
        self.last_anchor = 0;
        self.pending_window = 0;
        self.pending_deadline = 0;
    }

    /// Records that `target` was just minimised at time `now`; its anchor is
    /// awaited for the capture time.
    pub fn begin_pending(&mut self, target: isize, now: u64)
        requires
            now + MINIMIZE_ANCHOR_CAPTURE_MS <= u64::MAX,
        ensures
            *final(self) == (MinimizeTracker {
                pending_window: target,
                pending_deadline: (now + MINIMIZE_ANCHOR_CAPTURE_MS) as u64,
                ..*old(self)
            }),
    {
        self.pending_window = target;
        self.pending_deadline = now + MINIMIZE_ANCHOR_CAPTURE_MS;
    }

    /// Hands out the last minimised window if it should be restored now,
    /// given whether it still exists minimised and the current foreground
    /// window.
    pub fn take_restore_target(&mut self, restorable: bool, current: isize) -> (r: Option<isize>)
        ensures
            (*final(self), r) == spec_take_restore(*old(self), restorable, current),
    {
        let target = self.last_window;
        if target == 0 || !restorable {
            self.clear();
            return None;
        }
        if !should_restore_last_minimized(current, self.last_anchor) {
            return None;
        }
        self.clear();
        Some(target)
    }
}

/// A timer tick of the settings window: the anchor timer settles the
/// anchor of a pending minimise (given the foreground window and the time)
/// and asks to be stopped once nothing is pending; any other timer changes
/// nothing and keeps running.
pub fn on_main_timer(
    tracker: &mut MinimizeTracker,
    timer_id: usize,
    current: isize,
    now: u64,
) -> (stop: bool)
    ensures
        timer_id == TIMER_MINIMIZE_ANCHOR ==> (*final(tracker), stop) == spec_resolve(
            *old(tracker),
            current,
            now,
        ),
        timer_id != TIMER_MINIMIZE_ANCHOR ==> *final(tracker) == *old(tracker) && !stop,
{
    timer_id == TIMER_MINIMIZE_ANCHOR && tracker.resolve_pending_anchor(current, now)
}

/// What the desktop looked like when Alt+W was pressed.
#[derive(Clone, Copy, Debug, PartialEq, Eq, Structural)]
pub struct HideEvent {
    /// The foreground window fills its monitor.
    pub fullscreen: bool,
    /// The top-level window in the foreground, or zero.
    pub foreground: isize,
    /// The time, in milliseconds.
    pub now: u64,
    /// The tracker's `last_window` still exists and is minimised.
    pub last_restorable: bool,
    /// The tracker's `pending_window` still exists and is minimised.
    pub pending_restorable: bool,
    /// The foreground window, if the shortcuts may act on it.
    pub manageable: Option<isize>,
}

/// What Alt+W does.
#[derive(Clone, Copy, Debug, PartialEq, Eq, Structural)]
pub enum HideAction {
    /// A full-screen window is in front: the shortcut is ignored.
    Ignore,
    /// Restore this window and give it the focus.
    Restore(isize),
    /// Minimise this window, then record it with `begin_pending`.
    Minimize(isize),
    /// There is nothing to act on.
    Nothing,
}

/// Whether the window recorded after settling the anchor is the one that was
/// pending (rather than the one recorded before).
pub open spec fn pending_recorded(t: MinimizeTracker, e: HideEvent) -> bool {
    t.pending_window != 0 && spec_resolve(t, e.foreground, e.now).1
}

/// Alt+W: ignored in front of a full-screen window; otherwise the anchor is
/// settled, the last minimised window is restored if its anchor still has
/// the focus, and failing that the memory is cleared and the foreground
/// window (if it may be managed) is minimised.
pub open spec fn spec_on_hide(t: MinimizeTracker, e: HideEvent) -> (MinimizeTracker, HideAction) {
    if e.fullscreen {
        (t, HideAction::Ignore)
    } else {
        let t1 = spec_resolve(t, e.foreground, e.now).0;
        let restorable = if pending_recorded(t, e) {
            e.pending_restorable
        } else {
            e.last_restorable
        };
        let (t2, restored) = spec_take_restore(t1, restorable, e.foreground);
        match restored {
            Some(w) => (t2, HideAction::Restore(w)),
            None => match e.manageable {
                Some(w) => (cleared_tracker(), HideAction::Minimize(w)),
                None => (cleared_tracker(), HideAction::Nothing),
            },
        }
    }
}

/// Decides what Alt+W does and updates the tracker accordingly.
pub fn on_hide_hotkey(tracker: &mut MinimizeTracker, event: HideEvent) -> (r: HideAction)
    ensures
        (*final(tracker), r) == spec_on_hide(*old(tracker), event),
{
    if event.fullscreen {
        return HideAction::Ignore;
    }
    let had_pending = tracker.pending_window != 0;
    let settled = tracker.resolve_pending_anchor(event.foreground, event.now);
    let restorable = if had_pending && settled {
        event.pending_restorable
    } else {
        event.last_restorable
    };
    match tracker.take_restore_target(restorable, event.foreground) {
        Some(w) => HideAction::Restore(w),
        None => {
            tracker.clear();
            match event.manageable {
                Some(w) => HideAction::Minimize(w),
                None => HideAction::Nothing,
            }
        },
    }
}

/// The confirmation state of Alt+Q.
#[derive(Clone, Copy, Debug, PartialEq, Eq, Structural)]
pub struct QuitConfirm {
    /// The window the confirmation is armed for, or zero.
    pub target: isize,
    /// Until when a second press closes it.
    pub deadline: u64,
}

/// Whether a press on `target` at `now` is the confirming second press.
pub open spec fn is_second_press(q: QuitConfirm, target: isize, now: u64) -> bool {
    q.target == target && now <= q.deadline
}

/// A press on `target` at `now`: the confirming second press disarms the
/// confirmation and closes; any other press arms it for `target`.
pub open spec fn spec_press(q: QuitConfirm, target: isize, now: u64) -> (QuitConfirm, bool) {
    if is_second_press(q, target, now) {
        (QuitConfirm { target: 0, deadline: 0 }, true)
    } else {
        (QuitConfirm { target, deadline: (now + QUIT_CONFIRM_MS) as u64 }, false)
    }
}

impl QuitConfirm {
    /// Not armed.
    pub fn new() -> (r: Self)
        ensures
            r == (QuitConfirm { target: 0, deadline: 0 }),
    {
        QuitConfirm { target: 0, deadline: 0 }
    }

    /// Registers an Alt+Q on `target` at `now`; returns whether the window
    /// should be closed.
    pub fn press(&mut self, target: isize, now: u64) -> (close: bool)
        requires
            is_second_press(*old(self), target, now) || now + QUIT_CONFIRM_MS <= u64::MAX,
        ensures
            (*final(self), close) == spec_press(*old(self), target, now),
    {
        if self.target == target && now <= self.deadline {
            self.target = 0;
            self.deadline = 0;
            true
        } else {
            self.target = target;
            self.deadline = now + QUIT_CONFIRM_MS;
            false
        }
    }
}

/// What the desktop looked like when Alt+Q was pressed.
#[derive(Clone, Copy, Debug, PartialEq, Eq, Structural)]
pub struct QuitEvent {
    /// The foreground window fills its monitor.
    pub fullscreen: bool,
    /// The foreground window, if the shortcuts may act on it.
    pub manageable: Option<isize>,
    /// The time, in milliseconds.
    pub now: u64,
}

/// What Alt+Q does.
#[derive(Clone, Copy, Debug, PartialEq, Eq, Structural)]
pub enum QuitAction {
    /// A full-screen window is in front: the shortcut is ignored.
    Ignore,
    /// There is nothing to act on: hide the prompt.
    HideOverlay,
    /// The confirming second press: hide the prompt and close this window.
    Close(isize),
    /// A first press: show the prompt for this window.
    ShowOverlay(isize),
}

/// Alt+Q: ignored in front of a full-screen window; with nothing to act on
/// it only hides the prompt; otherwise it is a press on the foreground
/// window.
pub open spec fn spec_on_quit(q: QuitConfirm, e: QuitEvent) -> (QuitConfirm, QuitAction) {
    if e.fullscreen {
        (q, QuitAction::Ignore)
    } else {
        match e.manageable {
            None => (q, QuitAction::HideOverlay),
            Some(w) => {
                let (q2, close) = spec_press(q, w, e.now);
                (q2, if close { QuitAction::Close(w) } else { QuitAction::ShowOverlay(w) })
            },
        }
    }
}

/// The clock of an Alt+Q event leaves room for the confirmation time.
pub open spec fn quit_event_defined(q: QuitConfirm, e: QuitEvent) -> bool {
    !e.fullscreen && e.manageable is Some ==> (is_second_press(q, e.manageable->0, e.now) || e.now
        + QUIT_CONFIRM_MS <= u64::MAX)
}

/// Decides what Alt+Q does and updates the confirmation accordingly.
pub fn on_quit_hotkey(confirm: &mut QuitConfirm, event: QuitEvent) -> (r: QuitAction)
    requires
        quit_event_defined(*old(confirm), event),
    ensures
        (*final(confirm), r) == spec_on_quit(*old(confirm), event),
{
    if event.fullscreen {
        return QuitAction::Ignore;
    }
    match event.manageable {
        None => QuitAction::HideOverlay,
        Some(w) => {
            if confirm.press(w, event.now) {
                QuitAction::Close(w)
            } else {
                QuitAction::ShowOverlay(w)
            }
        },
    }
}

/// Windows the tool hid, most recent last.
pub struct HiddenWindows {
    pub windows: Vec<isize>,
}

/// The windows of `windows` whose flag in `alive` is set, in order.
pub open spec fn keep_alive(windows: Seq<isize>, alive: Seq<bool>) -> Seq<isize>
    decreases windows.len(),
{
    if windows.len() == 0 {
        Seq::empty()
    } else {
        let rest = keep_alive(windows.drop_last(), alive.take(windows.len() - 1));
        if alive[windows.len() - 1] {
            rest.push(windows.last())
        } else {
            rest
        }
    }
}

impl HiddenWindows {
    /// No hidden windows.
    pub fn new() -> (r: Self)
        ensures
            r.windows@ == Seq::<isize>::empty(),
    {
        HiddenWindows { windows: Vec::new() }
    }

    /// Whether any window is hidden.
    pub fn has_hidden(&self) -> (r: bool)
        ensures
            r == (self.windows@.len() > 0),
    {
        self.windows.len() > 0
    }

    /// Drops the windows that no longer exist; `alive[i]` tells whether
    /// `windows[i]` does.
    pub fn prune(&mut self, alive: &Vec<bool>)
        requires
            alive@.len() == old(self).windows@.len(),
        ensures
            final(self).windows@ == keep_alive(old(self).windows@, alive@),
    {
        let mut kept: Vec<isize> = Vec::new();
        let mut i: usize = 0;
        while i < self.windows.len()
            invariant
                alive@.len() == self.windows@.len(),
                i <= self.windows@.len(),
                kept@ == keep_alive(self.windows@.take(i as int), alive@.take(i as int)),
            decreases self.windows@.len() - i,
        {
            let ghost prefix = self.windows@.take(i + 1);
            assert(prefix.drop_last() =~= self.windows@.take(i as int));
            assert(alive@.take(i + 1).take(i as int) =~= alive@.take(i as int));
            if alive[i] {
                kept.push(self.windows[i]);
            }
            i = i + 1;
        }
        assert(self.windows@.take(self.windows@.len() as int) =~= self.windows@);
        assert(alive@.take(alive@.len() as int) =~= alive@);
        self.windows = kept;
    }

    /// Takes the most recently hidden window out of the list.
    pub fn restore_last(&mut self) -> (r: Option<isize>)
        ensures
            old(self).windows@.len() == 0 ==> r is None && final(self).windows@ == old(
                self,
            ).windows@,
            old(self).windows@.len() > 0 ==> r == Some(old(self).windows@.last())
                && final(self).windows@ == old(self).windows@.drop_last(),
    {
        self.windows.pop()
    }

    /// Takes every hidden window out of the list, in the order they were
    /// hidden.
    pub fn take_all(&mut self) -> (r: Vec<isize>)
        ensures
            r@ == old(self).windows@,
            final(self).windows@ == Seq::<isize>::empty(),
    {
        let mut taken: Vec<isize> = Vec::new();
        std::mem::swap(&mut taken, &mut self.windows);
        taken
    }
}

/// Pruning keeps exactly the windows that still exist, in their order.
pub proof fn lemma_keep_alive_sound(windows: Seq<isize>, alive: Seq<bool>)
    requires
        alive.len() == windows.len(),
    ensures
        keep_alive(windows, alive).len() <= windows.len(),
        forall|w: isize| #[trigger]
            keep_alive(windows, alive).contains(w) <==> exists|i: int|
                0 <= i < windows.len() && windows[i] == w && alive[i],
    decreases windows.len(),
{
    if windows.len() > 0 {
        let n = windows.len() - 1;
        let p = windows.drop_last();
        let a = alive.take(n);
        lemma_keep_alive_sound(p, a);
        let rest = keep_alive(p, a);
        assert forall|w: isize| #[trigger]
            keep_alive(windows, alive).contains(w) <==> exists|i: int|
                0 <= i < windows.len() && windows[i] == w && alive[i] by {
            if keep_alive(windows, alive).contains(w) {
                if rest.contains(w) {
                    let i = choose|i: int| 0 <= i < p.len() && p[i] == w && a[i];
                    assert(windows[i] == w && alive[i]);
                } else {
                    assert(alive[n]);
                    let k = choose|k: int|
                        0 <= k < keep_alive(windows, alive).len() && keep_alive(windows, alive)[k]
                            == w;
                    assert(k == rest.len());
                    assert(windows[n] == w);
                }
            }
            if exists|i: int| 0 <= i < windows.len() && windows[i] == w && alive[i] {
                let i = choose|i: int| 0 <= i < windows.len() && windows[i] == w && alive[i];
                if i < n {
                    assert(p[i] == w && a[i]);
                    assert(rest.contains(w));
                    let k = choose|k: int| 0 <= k < rest.len() && rest[k] == w;
                    if alive[n] {
                        assert(keep_alive(windows, alive)[k] == w);
                    }
                } else {
                    assert(keep_alive(windows, alive)[rest.len() as int] == w);
                }
            }
        }
    }
}

/// A full-screen window in front makes both shortcuts do nothing and
/// change nothing.
pub proof fn lemma_fullscreen_ignored(t: MinimizeTracker, he: HideEvent, q: QuitConfirm, qe: QuitEvent)
    requires
        he.fullscreen,
        qe.fullscreen,
    ensures
        spec_on_hide(t, he) == (t, HideAction::Ignore),
        spec_on_quit(q, qe) == (q, QuitAction::Ignore),
{
}

/// A window that no longer exists minimised is never restored: with nothing
/// pending, if the last minimised window is gone or was restored by other
/// means, Alt+W forgets it and acts on the foreground window, whatever
/// window has the focus.
pub proof fn lemma_gone_window_forgotten(t: MinimizeTracker, e: HideEvent)
    requires
        t.pending_window == 0,
        !e.fullscreen,
        !e.last_restorable,
    ensures
        spec_on_hide(t, e) == (
            MinimizeTracker { last_window: 0, last_anchor: 0, pending_window: 0, pending_deadline: 0 },
            match e.manageable {
                Some(w) => HideAction::Minimize(w),
                None => HideAction::Nothing,
            },
        ),
{
}

/// With nothing pending, Alt+W restores exactly when the last minimised
/// window exists, is still minimised, and its anchor (a real window) has the
/// focus; and what it restores is that window.
pub proof fn lemma_restore_exactly_when(t: MinimizeTracker, e: HideEvent)
    requires
        t.pending_window == 0,
    ensures
        (spec_on_hide(t, e).1 is Restore) <==> (!e.fullscreen && t.last_window != 0
            && e.last_restorable && t.last_anchor != 0 && e.foreground == t.last_anchor),
        spec_on_hide(t, e).1 is Restore ==> spec_on_hide(t, e).1 == HideAction::Restore(
            t.last_window,
        ),
{
}

/// A second Alt+W restores the window the first one minimised, as long as
/// the window that took the focus after it still has it: a window `w` is
/// minimised, another window `anchor` takes the focus, and Alt+W pressed
/// while `anchor` is still in front (and `w` still minimised) brings `w`
/// back and forgets it.
pub proof fn lemma_second_hide_restores(
    t: MinimizeTracker,
    w: isize,
    minimized_at: u64,
    anchor: isize,
    settled_at: u64,
    e: HideEvent,
)
    requires
        w != 0,
        minimized_at + MINIMIZE_ANCHOR_CAPTURE_MS <= u64::MAX,
        anchor != 0,
        anchor != w,
        !e.fullscreen,
        e.foreground == anchor,
        e.last_restorable,
    ensures
        ({
            let pending = MinimizeTracker {
                pending_window: w,
                pending_deadline: (minimized_at + MINIMIZE_ANCHOR_CAPTURE_MS) as u64,
                ..t
            };
            let settled = spec_resolve(pending, anchor, settled_at);
            &&& settled.1
            &&& spec_on_hide(settled.0, e) == (cleared_tracker(), HideAction::Restore(w))
        }),
{
}

/// Once the focus has moved to a window other than the anchor, Alt+W no
/// longer restores: it forgets the old window and acts on the window now in
/// front.
pub proof fn lemma_switched_window_minimized(t: MinimizeTracker, e: HideEvent)
    requires
        t.pending_window == 0,
        !e.fullscreen,
        e.foreground != t.last_anchor,
    ensures
        spec_on_hide(t, e) == (
            cleared_tracker(),
            match e.manageable {
                Some(w) => HideAction::Minimize(w),
                None => HideAction::Nothing,
            },
        ),
{
}

/// If no other window took the focus before the capture time ran out, the
/// minimise is recorded without an anchor and a later Alt+W never restores
/// it.
pub proof fn lemma_no_anchor_no_restore(t: MinimizeTracker, current: isize, now: u64, e: HideEvent)
    requires
        t.pending_window != 0,
        current == 0 || current == t.pending_window,
        now >= t.pending_deadline,
        !e.fullscreen,
    ensures
        spec_resolve(t, current, now).0.last_anchor == 0,
        !(spec_on_hide(spec_resolve(t, current, now).0, e).1 is Restore),
{
}

/// Settling the anchor twice with the same observation does no more than
/// settling it once.
pub proof fn lemma_resolve_idempotent(t: MinimizeTracker, current: isize, now: u64)
    ensures
        spec_resolve(spec_resolve(t, current, now).0, current, now) == spec_resolve(t, current, now),
{
}

/// Two Alt+Q presses on the same window within the confirmation time close
/// it: the first shows the prompt (unless it already was the confirming
/// press), and the second, no later than the confirmation time after the
/// first, closes the window and disarms the confirmation.
pub proof fn lemma_double_quit_closes(q: QuitConfirm, w: isize, first: u64, second: u64)
    requires
        first + QUIT_CONFIRM_MS <= u64::MAX,
        first <= second <= first + QUIT_CONFIRM_MS,
        !is_second_press(q, w, first),
    ensures
        ({
            let e1 = QuitEvent { fullscreen: false, manageable: Some(w), now: first };
            let e2 = QuitEvent { fullscreen: false, manageable: Some(w), now: second };
            let (q1, a1) = spec_on_quit(q, e1);
            &&& a1 == QuitAction::ShowOverlay(w)
            &&& spec_on_quit(q1, e2) == (QuitConfirm { target: 0, deadline: 0 }, QuitAction::Close(w))
        }),
{
}

/// Alt+Q never closes a window other than the one the confirmation was
/// armed for, and never closes once the confirmation time has passed.
pub proof fn lemma_quit_needs_confirmation(q: QuitConfirm, e: QuitEvent)
    requires
        !e.fullscreen,
        e.manageable is Some,
        e.manageable->0 != q.target || e.now > q.deadline,
    ensures
        spec_on_quit(q, e).1 == QuitAction::ShowOverlay(e.manageable->0),
        spec_on_quit(q, e).0 == (QuitConfirm {
            target: e.manageable->0,
            deadline: (e.now + QUIT_CONFIRM_MS) as u64,
        }),
{
}

/// After a window is closed the confirmation is disarmed: a third press on
/// a real window only shows the prompt again.
pub proof fn lemma_close_disarms(q: QuitConfirm, e: QuitEvent, w: isize, later: u64)
    requires
        spec_on_quit(q, e).1 is Close,
        w != 0,
    ensures
        spec_on_quit(
            spec_on_quit(q, e).0,
            QuitEvent { fullscreen: false, manageable: Some(w), now: later },
        ).1 == QuitAction::ShowOverlay(w),
{
}

} // verus!
