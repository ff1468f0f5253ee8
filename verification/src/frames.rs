//! The one outstanding frame, and the earliest future reason to draw another.
//!
//! Times are whole ticks on one monotonic clock that the caller owns: what
//! matters here is only which of two moments comes first.
use vstd::prelude::*;

verus! {

/// What a [`FrameScheduler`] holds, for contracts.
pub struct FrameSlots {
    /// A frame has been asked of the window and has not begun yet.
    pub queued: bool,
    /// The earliest future moment a frame is owed at, if one is.
    pub deadline: Option<u64>,
}

/// The one outstanding frame and the earliest future reason to draw another.
///
/// Reasons to draw are coalesced at the boundary with the window: asking the
/// platform twenty times and relying on it to merge the requests is not the
/// same contract as asking it once.
pub struct FrameScheduler {
    queued: bool,
    deadline: Option<u64>,
}

impl View for FrameScheduler {
    type V = FrameSlots;

    closed spec fn view(&self) -> FrameSlots {
        FrameSlots { queued: self.queued, deadline: self.deadline }
    }
}

/// Nothing queued and no timer: the state a window starts in.
pub open spec fn no_frames() -> FrameSlots {
    FrameSlots { queued: false, deadline: None }
}

/// A frame on the queue is earlier than any timer, so the two never coexist.
pub open spec fn frames_consistent(slots: FrameSlots) -> bool {
    slots.queued ==> slots.deadline is None
}

/// An immediate frame: it supersedes any timer, and the window is asked only
/// when no frame was queued already.
pub open spec fn after_request_now(slots: FrameSlots) -> (FrameSlots, bool) {
    (FrameSlots { queued: true, deadline: None }, !slots.queued)
}

/// Whether a frame asked for at `deadline`, at time `now`, installs a timer.
///
/// Not for a moment already past, not while a frame is queued (that frame is
/// earlier), and not when a timer at least as early is already set.
pub open spec fn installs_timer(slots: FrameSlots, deadline: u64, now: u64) -> bool {
    &&& now < deadline
    &&& !slots.queued
    &&& match slots.deadline {
        Some(current) => deadline < current,
        None => true,
    }
}

/// A future frame: the new deadline, when it is earlier than every reason
/// already recorded, and nothing otherwise.
pub open spec fn after_request_at(slots: FrameSlots, deadline: u64, now: u64) -> (
    FrameSlots,
    Option<u64>,
) {
    if installs_timer(slots, deadline, now) {
        (FrameSlots { queued: slots.queued, deadline: Some(deadline) }, Some(deadline))
    } else {
        (slots, None)
    }
}

/// Whether the timer has elapsed by `now`.
pub open spec fn timer_due(slots: FrameSlots, now: u64) -> bool {
    match slots.deadline {
        Some(deadline) => deadline <= now,
        None => false,
    }
}

/// A timer that has elapsed becomes an immediate reason to draw, once.
pub open spec fn after_take_due(slots: FrameSlots, now: u64) -> (FrameSlots, bool) {
    if timer_due(slots, now) {
        (FrameSlots { queued: slots.queued, deadline: None }, true)
    } else {
        (slots, false)
    }
}

/// The queued frame has begun and no longer occupies the one-frame slot.
pub open spec fn after_frame_started(slots: FrameSlots) -> FrameSlots {
    FrameSlots { queued: false, deadline: slots.deadline }
}

impl Default for FrameScheduler {
    fn default() -> (frames: Self)
        ensures
            frames@ == no_frames(),
    {
        FrameScheduler { queued: false, deadline: None }
    }
}

impl FrameScheduler {
    /// Records an immediate frame, returning whether the window must be asked.
    pub fn request_now(&mut self) -> (ask: bool)
        ensures
            (final(self)@, ask) == after_request_now(old(self)@),
    {
        // An immediate frame supersedes a timer. The frame will run the
        // interface again, which asks for a new delay if it still needs one.
        self.deadline = None;
        let was_queued = self.queued;
        self.queued = true;
        !was_queued
    }

    /// Records the earliest future frame, returning a changed deadline.
    pub fn request_at(&mut self, deadline: u64, now: u64) -> (installed: Option<u64>)
        ensures
            (final(self)@, installed) == after_request_at(old(self)@, deadline, now),
    {
        if deadline <= now {
            return None;
        }
        // A frame already on the queue is earlier than any future one. Its
        // pass will ask again if the delayed repaint remains necessary.
        if self.queued {
            return None;
        }
        match self.deadline {
            Some(current) => {
                if current <= deadline {
                    return None;
                }
            },
            None => {},
        }
        self.deadline = Some(deadline);
        Some(deadline)
    }

    /// Promotes a timer that has elapsed into an immediate reason to draw.
    pub fn take_due(&mut self, now: u64) -> (due: bool)
        ensures
            (final(self)@, due) == after_take_due(old(self)@, now),
    {
        match self.deadline {
            Some(deadline) => {
                if deadline > now {
                    return false;
                }
            },
            None => {
                return false;
            },
        }
        self.deadline = None;
        true
    }

    /// The queued frame has begun and no longer occupies the one-frame slot.
    pub fn frame_started(&mut self)
        ensures
            final(self)@ == after_frame_started(old(self)@),
    {
        self.queued = false;
    }
}

/// What the window is told when the interface asks to be drawn again later.
#[derive(Debug, Clone, Copy, PartialEq, Eq)]
pub enum Repaint {
    /// The moment has already come: draw now, asking the window only if no
    /// frame is queued already, and stop waiting for any timer.
    Now { ask_window: bool },
    /// Wait until this moment, which is now the earliest reason to draw.
    Until(u64),
    /// An earlier reason to draw is already recorded.
    Nothing,
}

/// What a repaint asked for at `deadline`, at time `now`, comes to.
pub open spec fn after_repaint_at(slots: FrameSlots, deadline: u64, now: u64) -> (FrameSlots, Repaint) {
    if deadline <= now {
        let (next, ask) = after_request_now(slots);
        (next, Repaint::Now { ask_window: ask })
    } else {
        let (next, installed) = after_request_at(slots, deadline, now);
        (
            next,
            match installed {
                Some(at) => Repaint::Until(at),
                None => Repaint::Nothing,
            },
        )
    }
}

impl FrameScheduler {
    /// Records a repaint the interface asked for at `deadline`.
    ///
    /// A moment already past is an immediate frame; a future one becomes the
    /// timer only when it is earlier than every reason already recorded.
    pub fn repaint_at(&mut self, deadline: u64, now: u64) -> (repaint: Repaint)
        ensures
            (final(self)@, repaint) == after_repaint_at(old(self)@, deadline, now),
    {
        if deadline <= now {
            Repaint::Now { ask_window: self.request_now() }
        } else {
            match self.request_at(deadline, now) {
                Some(at) => Repaint::Until(at),
                None => Repaint::Nothing,
            }
        }
    }
}

/// Every operation keeps a queued frame and a timer from existing together.
pub proof fn frames_stay_consistent(slots: FrameSlots, deadline: u64, now: u64)
    requires
        frames_consistent(slots),
    ensures
        frames_consistent(no_frames()),
        frames_consistent(after_request_now(slots).0),
        frames_consistent(after_request_at(slots, deadline, now).0),
        frames_consistent(after_take_due(slots, now).0),
        frames_consistent(after_frame_started(slots)),
        frames_consistent(after_repaint_at(slots, deadline, now).0),
{
}

/// However many immediate reasons arrive before a frame begins, the window
/// is asked once: the first reason asks, and every later one asks nothing
/// until `frame_started` opens the slot again.
pub proof fn one_window_request_per_frame(slots: FrameSlots)
    ensures
        !after_request_now(after_request_now(slots).0).1,
        after_request_now(after_request_now(slots).0).0 == after_request_now(slots).0,
        after_request_now(after_frame_started(after_request_now(slots).0)).1,
{
}

/// An immediate frame supersedes a delayed one: once it is asked for, no
/// timer fires and none can be installed until the frame has begun.
pub proof fn an_immediate_frame_supersedes_a_timer(slots: FrameSlots, deadline: u64, now: u64)
    ensures
        !after_take_due(after_request_now(slots).0, now).1,
        after_request_at(after_request_now(slots).0, deadline, now).1 is None,
{
}

/// The timer is only ever brought forward: the deadline after a request is
/// never later than the one before it, and a timer that is installed is the
/// deadline that was asked for.
pub proof fn the_earliest_deadline_is_the_only_timer(slots: FrameSlots, deadline: u64, now: u64)
    ensures
        match (slots.deadline, after_request_at(slots, deadline, now).0.deadline) {
            (Some(before), Some(after)) => after <= before,
            (Some(_), None) => false,
            _ => true,
        },
        after_request_at(slots, deadline, now).1 is Some ==> after_request_at(
            slots,
            deadline,
            now,
        ).0.deadline == Some(deadline),
{
}

/// A timer fires at most once: taking a due timer leaves none to take.
pub proof fn a_timer_fires_once(slots: FrameSlots, now: u64, later: u64)
    ensures
        after_take_due(slots, now).1 ==> !after_take_due(after_take_due(slots, now).0, later).1,
{
}

/// An elapsed timer always fires: whenever the timer's moment is at or
/// before `now` (however late the poll), taking it yields a frame and leaves
/// no timer, with the queued frame untouched; a timer still in the future, or
/// no timer at all, yields nothing and changes nothing.
pub proof fn an_elapsed_timer_always_fires(slots: FrameSlots, now: u64)
    ensures
        match slots.deadline {
            Some(deadline) => if deadline <= now {
                &&& after_take_due(slots, now).1
                &&& after_take_due(slots, now).0.deadline is None
                &&& after_take_due(slots, now).0.queued == slots.queued
            } else {
                &&& !after_take_due(slots, now).1
                &&& after_take_due(slots, now).0 == slots
            },
            None => !after_take_due(slots, now).1 && after_take_due(slots, now).0 == slots,
        },
{
}

/// A timer installed for a future moment fires when polled at that moment or
/// at any later one.
pub proof fn an_installed_timer_fires_at_or_after_its_moment(
    slots: FrameSlots,
    deadline: u64,
    now: u64,
    poll: u64,
)
    requires
        after_request_at(slots, deadline, now).1 == Some(deadline),
        deadline <= poll,
    ensures
        after_take_due(after_request_at(slots, deadline, now).0, poll).1,
{
}

/// An immediate frame asks the window exactly when none is queued, and
/// leaves one queued and no timer; a frame beginning frees the slot and keeps
/// the timer.
pub proof fn immediate_frames_and_the_slot(slots: FrameSlots)
    ensures
        after_request_now(slots).1 == !slots.queued,
        after_request_now(slots).0.queued,
        after_request_now(slots).0.deadline is None,
        !after_frame_started(slots).queued,
        after_frame_started(slots).deadline == slots.deadline,
{
}

/// A future frame installs its moment as the timer exactly when it is still
/// to come, nothing is queued, and no timer at least as early is set; then
/// it is the new timer, and otherwise nothing changes.
pub proof fn a_timer_is_installed_only_when_earliest(slots: FrameSlots, deadline: u64, now: u64)
    ensures
        (after_request_at(slots, deadline, now).1 is Some) <==> (now < deadline && !slots.queued
            && (slots.deadline is None || deadline < slots.deadline->0)),
        after_request_at(slots, deadline, now).1 is Some ==> after_request_at(
            slots,
            deadline,
            now,
        ).1 == Some(deadline) && after_request_at(slots, deadline, now).0 == (FrameSlots {
            queued: slots.queued,
            deadline: Some(deadline),
        }),
        after_request_at(slots, deadline, now).1 is None ==> after_request_at(
            slots,
            deadline,
            now,
        ).0 == slots,
{
}

/// A repaint asked for a moment already come is an immediate frame, asking
/// the window only when none is queued; one for a future moment waits until
/// it exactly when it becomes the timer.
pub proof fn a_repaint_is_now_or_the_new_timer(slots: FrameSlots, deadline: u64, now: u64)
    ensures
        deadline <= now ==> after_repaint_at(slots, deadline, now).1 == (Repaint::Now {
            ask_window: !slots.queued,
        }) && after_repaint_at(slots, deadline, now).0.queued
            && after_repaint_at(slots, deadline, now).0.deadline is None,
        now < deadline ==> ((after_repaint_at(slots, deadline, now).1 == Repaint::Until(deadline))
            <==> (!slots.queued && (slots.deadline is None || deadline < slots.deadline->0))),
        now < deadline && after_repaint_at(slots, deadline, now).1 != Repaint::Until(deadline)
            ==> after_repaint_at(slots, deadline, now).1 == Repaint::Nothing
            && after_repaint_at(slots, deadline, now).0 == slots,
{
}

} // verus!
