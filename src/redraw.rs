//! The redraw scheduler's two flags: at most one redraw is queued or in
//! flight at any time, and requests made meanwhile are coalesced.
use vstd::prelude::*;

verus! {

/// `redraw_queued` is set while a redraw waits on the event loop;
/// `waiting_for_vblank` while a submitted frame has not been presented yet.
#[derive(Clone, Copy, Debug, PartialEq, Eq, Structural)]
pub struct RedrawState {
    pub redraw_queued: bool,
    pub waiting_for_vblank: bool,
}

impl RedrawState {
    /// Never queued and in flight at once.
    pub open spec fn wf(self) -> bool {
        !(self.redraw_queued && self.waiting_for_vblank)
    }

    pub open spec fn idle(self) -> bool {
        !self.redraw_queued && !self.waiting_for_vblank
    }

    /// State and answer of one `queue_redraw` call.
    pub open spec fn queue_spec(self) -> (RedrawState, bool) {
        if self.idle() {
            (RedrawState { redraw_queued: true, waiting_for_vblank: false }, true)
        } else {
            (self, false)
        }
    }

    /// The state once the frame in flight has been presented.
    pub open spec fn presented_spec(self) -> RedrawState {
        RedrawState { waiting_for_vblank: false, ..self }
    }

    pub fn new() -> (r: RedrawState)
        ensures
            r.idle(),
    {
        RedrawState { redraw_queued: false, waiting_for_vblank: false }
    }

    /// Asks for a redraw. Returns true when the caller must schedule the
    /// deferred redraw callback; false when one is already queued or a frame
    /// is in flight, and the request is dropped.
    pub fn queue_redraw(&mut self) -> (schedule: bool)
        ensures
            (*final(self), schedule) == old(self).queue_spec(),
    {
        if self.redraw_queued || self.waiting_for_vblank {
            return false;
        }
        self.redraw_queued = true;
        true
    }

    /// The queued redraw runs: it is no longer queued, and when the output
    /// reports presentation out of band the frame is in flight until then.
    pub fn start_redraw(&mut self, wait_for_vblank: bool)
        requires
            old(self).redraw_queued,
            !old(self).waiting_for_vblank,
        ensures
            !final(self).redraw_queued,
            final(self).waiting_for_vblank == wait_for_vblank,
            final(self).wf(),
    {
        self.redraw_queued = false;
        self.waiting_for_vblank = wait_for_vblank;
    }

    /// The frame in flight has been presented.
    pub fn vblank(&mut self)
        ensures
            *final(self) == old(self).presented_spec(),
            old(self).wf() ==> final(self).wf(),
    {
        self.waiting_for_vblank = false;
    }
}

/// How many of `n` consecutive `queue_redraw` calls, made from `s` before the
/// deferred callback runs, ask for the callback to be scheduled.
pub open spec fn schedules(s: RedrawState, n: nat) -> nat
    decreases n,
{
    if n == 0 {
        0
    } else {
        let (next, scheduled) = s.queue_spec();
        (if scheduled {
            1nat
        } else {
            0nat
        }) + schedules(next, (n - 1) as nat)
    }
}

/// Any number of redraw requests made from an idle scheduler before the
/// deferred callback runs schedule exactly one redraw; made while a redraw
/// is queued or in flight, none.
pub proof fn lemma_requests_coalesce(s: RedrawState, n: nat)
    requires
        n >= 1,
    ensures
        schedules(s, n) == (if s.idle() {
            1nat
        } else {
            0nat
        }),
    decreases n,
{
    let (next, _) = s.queue_spec();
    assert(!next.idle());
    if n > 1 {
        lemma_requests_coalesce(next, (n - 1) as nat);
    } else {
        assert(schedules(next, 0) == 0);
    }
}

/// While a frame is in flight a request is dropped and changes nothing;
/// once the frame has been presented the next request is scheduled.
pub proof fn lemma_vblank_gates_requests(s: RedrawState)
    requires
        s.wf(),
        s.waiting_for_vblank,
    ensures
        s.queue_spec() == (s, false),
        s.presented_spec().queue_spec().1,
{
}

} // verus!
