use vstd::prelude::*;

verus! {

/// Number of frame slots in the ring: how many frames the CPU may prepare
/// while the GPU still drains earlier ones.
pub const MAX_FRAME_SIZE: usize = 2;

/// How long a fence wait may block, in nanoseconds, before the GPU is taken
/// to have hung.
pub const FENCE_TIMEOUT_NS: u64 = 1_000_000_000;

/// Where one frame slot is in its cycle.
#[derive(Debug, Clone, Copy, PartialEq, Eq, Structural)]
pub enum SlotState {
    /// Its fence is signaled: the GPU is done with it, or it was never used.
    Idle,
    /// Its fence was reset and its command buffer is being recorded.
    Recording,
    /// Its commands were submitted; the GPU signals the fence when done.
    Submitted,
}

#[derive(Debug, Clone, Copy, PartialEq, Eq, Structural)]
pub enum FrameError {
    /// The fence wait ran out of time: the GPU is taken to have hung.
    FenceTimeout,
    /// The fence was about to be reset before a successful wait.
    FenceNotWaited,
    /// A submission was reported for a slot that was not being recorded.
    NotRecording,
}

/// The abstract state of a ring: the active slot and each slot's state.
pub struct RingModel {
    pub frame: nat,
    pub slots: Seq<SlotState>,
}

/// Whether a wait on a slot's fence returns signaled, given whether the
/// driver reported completion of submitted work within the timeout. A slot
/// that is not in flight cannot be signaled by the GPU.
pub open spec fn fence_signaled(state: SlotState, completed: bool) -> bool {
    state == SlotState::Idle || (state == SlotState::Submitted && completed)
}

/// The active slot after one advance.
pub open spec fn next_frame(frame: nat) -> nat {
    (frame + 1) % (MAX_FRAME_SIZE as nat)
}

/// The active slot after `k` advances from slot 0.
pub open spec fn frame_after(k: nat) -> nat
    decreases k,
{
    if k == 0 {
        0
    } else {
        next_frame(frame_after((k - 1) as nat))
    }
}

impl RingModel {
    pub open spec fn wf(self) -> bool {
        self.frame < MAX_FRAME_SIZE && self.slots.len() == MAX_FRAME_SIZE
    }

    /// A fresh ring: slot 0 active, every fence signaled.
    pub open spec fn initial() -> RingModel {
        RingModel { frame: 0, slots: Seq::new(MAX_FRAME_SIZE as nat, |i: int| SlotState::Idle) }
    }

    pub open spec fn active(self) -> SlotState {
        self.slots[self.frame as int]
    }

    pub open spec fn with_active(self, state: SlotState) -> RingModel {
        RingModel { frame: self.frame, slots: self.slots.update(self.frame as int, state) }
    }
}

/// The ring of per-frame slots and the cursor that selects the active one.
pub struct FrameRing {
    slots: Vec<SlotState>,
    frame: usize,
}

impl View for FrameRing {
    type V = RingModel;

    closed spec fn view(&self) -> RingModel {
        RingModel { frame: self.frame as nat, slots: self.slots@ }
    }
}

impl FrameRing {
    pub fn new() -> (r: FrameRing)
        ensures
            r@ == RingModel::initial(),
            r@.wf(),
    {
        let mut slots: Vec<SlotState> = Vec::new();
        let mut i: usize = 0;
        while i < MAX_FRAME_SIZE
            invariant
                0 <= i <= MAX_FRAME_SIZE,
                slots@.len() == i,
                forall|j: int| 0 <= j < i ==> slots@[j] == SlotState::Idle,
            decreases MAX_FRAME_SIZE - i,
        {
            slots.push(SlotState::Idle);
            i = i + 1;
        }
        let r = FrameRing { slots, frame: 0 };
        assert(r@.slots =~= RingModel::initial().slots);
        r
    }

    /// The active slot.
    pub fn frame(&self) -> (r: usize)
        ensures
            r as nat == self@.frame,
    {
        self.frame
    }

    pub fn slot_state(&self, i: usize) -> (r: SlotState)
        requires
            self@.wf(),
            i < MAX_FRAME_SIZE,
        ensures
            r == self@.slots[i as int],
    {
        self.slots[i]
    }

    /// Takes the outcome of the wait on the active slot's fence: `completed` is
    /// whether the driver reported the fence signaled within the timeout. On a
    /// signaled fence the slot is free again and its index is returned.
    pub fn wait_for_fence(&mut self, completed: bool) -> (r: Result<usize, FrameError>)
        requires
            old(self)@.wf(),
        ensures
            final(self)@.wf(),
            r is Ok <==> fence_signaled(old(self)@.active(), completed),
            r is Ok ==> r->Ok_0 as nat == old(self)@.frame && final(self)@ == old(self)@.with_active(
                SlotState::Idle,
            ),
            r is Err ==> r->Err_0 == FrameError::FenceTimeout && final(self)@ == old(self)@,
    {
        let state = self.slots[self.frame];
        let signaled = match state {
            SlotState::Idle => true,
            SlotState::Submitted => completed,
            SlotState::Recording => false,
        };
        if signaled {
            self.slots.set(self.frame, SlotState::Idle);
            Ok(self.frame)
        } else {
            Err(FrameError::FenceTimeout)
        }
    }

    /// Resets the active slot's fence so that recording can start; allowed
    /// only once a wait has found it signaled.
    pub fn reset_fence(&mut self) -> (r: Result<(), FrameError>)
        requires
            old(self)@.wf(),
        ensures
            final(self)@.wf(),
            r is Ok <==> old(self)@.active() == SlotState::Idle,
            r is Ok ==> final(self)@ == old(self)@.with_active(SlotState::Recording),
            r is Err ==> r->Err_0 == FrameError::FenceNotWaited && final(self)@ == old(self)@,
    {
        if self.slots[self.frame] == SlotState::Idle {
            self.slots.set(self.frame, SlotState::Recording);
            Ok(())
        } else {
            Err(FrameError::FenceNotWaited)
        }
    }

    /// Marks the active slot's commands as handed to the GPU.
    pub fn submit(&mut self) -> (r: Result<(), FrameError>)
        requires
            old(self)@.wf(),
        ensures
            final(self)@.wf(),
            r is Ok <==> old(self)@.active() == SlotState::Recording,
            r is Ok ==> final(self)@ == old(self)@.with_active(SlotState::Submitted),
            r is Err ==> r->Err_0 == FrameError::NotRecording && final(self)@ == old(self)@,
    {
        if self.slots[self.frame] == SlotState::Recording {
            self.slots.set(self.frame, SlotState::Submitted);
            Ok(())
        } else {
            Err(FrameError::NotRecording)
        }
    }

    /// Moves the cursor to the next slot, wrapping around.
    pub fn advance(&mut self)
        requires
            old(self)@.wf(),
        ensures
            final(self)@.wf(),
            final(self)@.frame == next_frame(old(self)@.frame),
            final(self)@.slots == old(self)@.slots,
    {
        self.frame = (self.frame + 1) % MAX_FRAME_SIZE;
    }

    /// Starts a frame: takes the outcome of the wait on the active slot's fence,
    /// and on success resets the fence and returns the slot to record into.
    pub fn begin_frame(&mut self, completed: bool) -> (r: Result<usize, FrameError>)
        requires
            old(self)@.wf(),
        ensures
            final(self)@.wf(),
            r is Ok <==> fence_signaled(old(self)@.active(), completed),
            r is Ok ==> r->Ok_0 as nat == old(self)@.frame && final(self)@ == old(self)@.with_active(
                SlotState::Recording,
            ),
            r is Err ==> r->Err_0 == FrameError::FenceTimeout && final(self)@ == old(self)@,
    {
        let frame = self.wait_for_fence(completed)?;
        let reset = self.reset_fence();
        proof {
            assert(reset is Ok);
            assert(self@.slots =~= old(self)@.with_active(SlotState::Recording).slots);
        }
        Ok(frame)
    }

    /// Ends a frame: records whether its commands reached the GPU, then moves
    /// on to the next slot whatever the outcome.
    pub fn end_frame(&mut self, submitted: bool)
        requires
            old(self)@.wf(),
        ensures
            final(self)@.wf(),
            final(self)@.frame == next_frame(old(self)@.frame),
            final(self)@.slots == if submitted && old(self)@.active() == SlotState::Recording {
                old(self)@.with_active(SlotState::Submitted).slots
            } else {
                old(self)@.slots
            },
    {
        if submitted {
            let _ = self.submit();
        }
        self.advance();
    }
}

/// Starting at slot 0, after `k` advances the active slot is `k` modulo the
/// ring size.
pub proof fn lemma_frame_after(k: nat)
    ensures
        frame_after(k) == k % (MAX_FRAME_SIZE as nat),
    decreases k,
{
    if k > 0 {
        lemma_frame_after((k - 1) as nat);
    }
}

/// A fresh slot's fence is signaled, so the first wait returns at once
/// without any submission; once reset, a wait with no submission in between
/// is never signaled and runs out of time.
pub proof fn lemma_fence_lifecycle(m: RingModel, completed: bool)
    requires
        m.wf(),
    ensures
        forall|i: int|
            0 <= i < MAX_FRAME_SIZE ==> fence_signaled(
                #[trigger] RingModel::initial().slots[i],
                completed,
            ),
        !fence_signaled(m.with_active(SlotState::Recording).active(), completed),
{
}

} // verus!
