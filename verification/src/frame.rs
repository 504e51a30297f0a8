//! The frame loop: what to do next, given what just happened.
//!
//! The caller performs each [`Action`] on the native objects and reports its
//! outcome as an [`Event`]; the loop never touches the device itself.

use vstd::prelude::*;
use crate::targets::{IMAGE_COUNT, SYNC_INTERVAL};

verus! {

/// The value the fence is created with; the first frame signals one more.
pub const FENCE_START: u64 = 0;

/// The stage of the current frame that has been reached.
#[derive(Clone, Copy, PartialEq, Eq, Structural, Debug)]
pub enum Phase {
    Idle,
    Recording,
    Submitted,
    Presented,
    Synced,
}

/// The outcome the loop is waiting to hear.
#[derive(Clone, Copy, PartialEq, Eq, Structural, Debug)]
pub enum Pending {
    /// The window's messages are being polled.
    Messages,
    /// The allocator and list are being reset and the frame recorded.
    Record,
    /// The list is being closed and handed to the queue.
    Submit,
    Present,
    /// The queue is being asked to signal the fence.
    Signal,
    /// The fence's completed value is being read.
    FenceValue,
    /// The thread is blocked until the fence reaches the target.
    Wake,
    /// The swapchain is being asked for its current image.
    Image,
    /// The loop has ended.
    Nothing,
}

/// Why the loop ended early.
#[derive(Clone, Copy, PartialEq, Eq, Structural, Debug)]
pub enum FrameError {
    Record,
    Submit,
    DeviceRemoved,
    Signal,
    Wait,
    /// The swapchain named an image that has no render target view.
    ImageOutOfRange,
    /// The fence's counter has no further value to signal.
    FenceExhausted,
    /// An outcome was reported that the loop was not waiting for.
    Unexpected,
}

/// What happened to the last action.
#[derive(Clone, Copy, PartialEq, Eq, Structural, Debug)]
pub enum Event {
    /// All waiting messages were dispatched; `key_pressed` if one was a key press.
    Messages { key_pressed: bool },
    Done,
    Failed,
    PresentFailed { device_removed: bool },
    /// The fence's completed value.
    FenceValue(u64),
    /// The index of the swapchain's current image.
    ImageIndex(u32),
}

/// What the caller is to do next.
#[derive(Clone, Copy, PartialEq, Eq, Structural, Debug)]
pub enum Action {
    PumpMessages,
    /// Reset the allocator and the list, then record the frame for `image`.
    Record { image: u32 },
    /// Close the list and execute it on the queue.
    Submit,
    Present { interval: u32 },
    Signal { value: u64 },
    QueryFence,
    /// Wait, without timeout, for the fence to reach `target`.
    Block { target: u64 },
    AcquireImage,
    /// The loop ended because shutdown was requested.
    Exit,
    Abort(FrameError),
}

/// State of the frame loop between two actions.
#[derive(Clone, Copy, PartialEq, Eq, Structural, Debug)]
pub struct FrameLoop {
    pub pending: Pending,
    /// False once a key press has asked for shutdown.
    pub running: bool,
    /// The swapchain image the current frame draws into.
    pub image: u32,
    /// The last value the queue was asked to signal.
    pub signalled: u64,
}

/// `s`, now waiting for `pending`.
pub open spec fn waiting(s: FrameLoop, pending: Pending) -> FrameLoop {
    FrameLoop { pending, ..s }
}

/// The loop ended with `error`.
pub open spec fn aborted(s: FrameLoop, error: FrameError) -> (FrameLoop, Action) {
    (waiting(s, Pending::Nothing), Action::Abort(error))
}

/// The transition function of the frame loop.
pub open spec fn spec_step(s: FrameLoop, e: Event) -> (FrameLoop, Action) {
    match (s.pending, e) {
        (Pending::Messages, Event::Messages { key_pressed }) => (
            FrameLoop { pending: Pending::Record, running: s.running && !key_pressed, ..s },
            Action::Record { image: s.image },
        ),
        (Pending::Record, Event::Done) => (waiting(s, Pending::Submit), Action::Submit),
        (Pending::Record, Event::Failed) => aborted(s, FrameError::Record),
        (Pending::Submit, Event::Done) => (
            waiting(s, Pending::Present),
            Action::Present { interval: SYNC_INTERVAL },
        ),
        (Pending::Submit, Event::Failed) => aborted(s, FrameError::Submit),
        (Pending::Present, Event::PresentFailed { device_removed: true }) => aborted(
            s,
            FrameError::DeviceRemoved,
        ),
        (Pending::Present, Event::Done)
        | (Pending::Present, Event::PresentFailed { device_removed: false }) => {
            if s.signalled == u64::MAX {
                aborted(s, FrameError::FenceExhausted)
            } else {
                (
                    FrameLoop {
                        pending: Pending::Signal,
                        signalled: (s.signalled + 1) as u64,
                        ..s
                    },
                    Action::Signal { value: (s.signalled + 1) as u64 },
                )
            }
        },
        (Pending::Signal, Event::Done) => (waiting(s, Pending::FenceValue), Action::QueryFence),
        (Pending::Signal, Event::Failed) => aborted(s, FrameError::Signal),
        (Pending::FenceValue, Event::FenceValue(completed)) => {
            if completed >= s.signalled {
                (waiting(s, Pending::Image), Action::AcquireImage)
            } else {
                (waiting(s, Pending::Wake), Action::Block { target: s.signalled })
            }
        },
        (Pending::Wake, Event::Done) => (waiting(s, Pending::FenceValue), Action::QueryFence),
        (Pending::Wake, Event::Failed) => aborted(s, FrameError::Wait),
        (Pending::Image, Event::ImageIndex(index)) => {
            if index >= IMAGE_COUNT {
                aborted(s, FrameError::ImageOutOfRange)
            } else if s.running {
                (
                    FrameLoop { pending: Pending::Messages, image: index, ..s },
                    Action::PumpMessages,
                )
            } else {
                (FrameLoop { pending: Pending::Nothing, image: index, ..s }, Action::Exit)
            }
        },
        (Pending::Nothing, _) => (s, Action::Exit),
        _ => aborted(s, FrameError::Unexpected),
    }
}

/// The stage of the frame that a loop waiting for `pending` has reached.
pub open spec fn spec_phase(pending: Pending) -> Phase {
    match pending {
        Pending::Messages | Pending::Nothing => Phase::Idle,
        Pending::Record | Pending::Submit => Phase::Recording,
        Pending::Present => Phase::Submitted,
        Pending::Signal | Pending::FenceValue | Pending::Wake => Phase::Presented,
        Pending::Image => Phase::Synced,
    }
}

/// The action whose outcome a loop in state `s` is waiting for; `Exit` once
/// the loop has ended.
pub open spec fn spec_awaited(s: FrameLoop) -> Action {
    match s.pending {
        Pending::Messages => Action::PumpMessages,
        Pending::Record => Action::Record { image: s.image },
        Pending::Submit => Action::Submit,
        Pending::Present => Action::Present { interval: SYNC_INTERVAL },
        Pending::Signal => Action::Signal { value: s.signalled },
        Pending::FenceValue => Action::QueryFence,
        Pending::Wake => Action::Block { target: s.signalled },
        Pending::Image => Action::AcquireImage,
        Pending::Nothing => Action::Exit,
    }
}

impl FrameLoop {
    /// The current image has a render target view.
    pub open spec fn wf(self) -> bool {
        self.image < IMAGE_COUNT
    }

    /// A loop about to run its first frame into `first_image`; it starts by
    /// polling the window's messages.
    pub fn new(first_image: u32) -> (r: Result<FrameLoop, FrameError>)
        ensures
            r is Ok <==> first_image < IMAGE_COUNT,
            r is Ok ==> r.unwrap() == (FrameLoop {
                pending: Pending::Messages,
                running: true,
                image: first_image,
                signalled: FENCE_START,
            }) && r.unwrap().wf(),
            r is Err ==> r == Err::<FrameLoop, FrameError>(FrameError::ImageOutOfRange),
    {
        if first_image < IMAGE_COUNT {
            Ok(
                FrameLoop {
                    pending: Pending::Messages,
                    running: true,
                    image: first_image,
                    signalled: FENCE_START,
                },
            )
        } else {
            Err(FrameError::ImageOutOfRange)
        }
    }

    /// The action the loop is waiting for: what the caller is to perform
    /// before the next `step`. For a new loop, that is polling the messages.
    pub fn awaited(&self) -> (action: Action)
        ensures
            action == spec_awaited(*self),
    {
        match self.pending {
            Pending::Messages => Action::PumpMessages,
            Pending::Record => Action::Record { image: self.image },
            Pending::Submit => Action::Submit,
            Pending::Present => Action::Present { interval: SYNC_INTERVAL },
            Pending::Signal => Action::Signal { value: self.signalled },
            Pending::FenceValue => Action::QueryFence,
            Pending::Wake => Action::Block { target: self.signalled },
            Pending::Image => Action::AcquireImage,
            Pending::Nothing => Action::Exit,
        }
    }

    pub fn phase(&self) -> (p: Phase)
        ensures
            p == spec_phase(self.pending),
    {
        match self.pending {
            Pending::Messages | Pending::Nothing => Phase::Idle,
            Pending::Record | Pending::Submit => Phase::Recording,
            Pending::Present => Phase::Submitted,
            Pending::Signal | Pending::FenceValue | Pending::Wake => Phase::Presented,
            Pending::Image => Phase::Synced,
        }
    }

    /// Whether the loop has ended.
    pub fn finished(&self) -> (b: bool)
        ensures
            b == (self.pending == Pending::Nothing),
    {
        match self.pending {
            Pending::Nothing => true,
            _ => false,
        }
    }

    fn abort(&mut self, error: FrameError) -> (action: Action)
        ensures
            (*final(self), action) == aborted(*old(self), error),
    {
        self.pending = Pending::Nothing;
        Action::Abort(error)
    }

    fn signal_next(&mut self) -> (action: Action)
        requires
            old(self).pending == Pending::Present,
        ensures
            (*final(self), action) == spec_step(*old(self), Event::Done),
    {
        if self.signalled == u64::MAX {
            self.abort(FrameError::FenceExhausted)
        } else {
            self.signalled = self.signalled + 1;
            self.pending = Pending::Signal;
            Action::Signal { value: self.signalled }
        }
    }

    /// Takes the outcome of the last action and says what to do next.
    pub fn step(&mut self, event: Event) -> (action: Action)
        ensures
            (*final(self), action) == spec_step(*old(self), event),
            old(self).wf() ==> final(self).wf(),
    {
        match (self.pending, event) {
            (Pending::Messages, Event::Messages { key_pressed }) => {
                self.running = self.running && !key_pressed;
                self.pending = Pending::Record;
                Action::Record { image: self.image }
            },
            (Pending::Record, Event::Done) => {
                self.pending = Pending::Submit;
                Action::Submit
            },
            (Pending::Record, Event::Failed) => self.abort(FrameError::Record),
            (Pending::Submit, Event::Done) => {
                self.pending = Pending::Present;
                Action::Present { interval: SYNC_INTERVAL }
            },
            (Pending::Submit, Event::Failed) => self.abort(FrameError::Submit),
            (Pending::Present, Event::PresentFailed { device_removed: true }) => self.abort(
                FrameError::DeviceRemoved,
            ),
            (Pending::Present, Event::Done) => self.signal_next(),
            (Pending::Present, Event::PresentFailed { device_removed: false }) => self.signal_next(),
            (Pending::Signal, Event::Done) => {
                self.pending = Pending::FenceValue;
                Action::QueryFence
            },
            (Pending::Signal, Event::Failed) => self.abort(FrameError::Signal),
            (Pending::FenceValue, Event::FenceValue(completed)) => {
                if completed >= self.signalled {
                    self.pending = Pending::Image;
                    Action::AcquireImage
                } else {
                    self.pending = Pending::Wake;
                    Action::Block { target: self.signalled }
                }
            },
            (Pending::Wake, Event::Done) => {
                self.pending = Pending::FenceValue;
                Action::QueryFence
            },
            (Pending::Wake, Event::Failed) => self.abort(FrameError::Wait),
            (Pending::Image, Event::ImageIndex(index)) => {
                if index >= IMAGE_COUNT {
                    self.abort(FrameError::ImageOutOfRange)
                } else if self.running {
                    self.image = index;
                    self.pending = Pending::Messages;
                    Action::PumpMessages
                } else {
                    self.image = index;
                    self.pending = Pending::Nothing;
                    Action::Exit
                }
            },
            (Pending::Nothing, _) => Action::Exit,
            _ => self.abort(FrameError::Unexpected),
        }
    }
}

/// The state after the loop has heard `events`, oldest first.
pub open spec fn state_after(s: FrameLoop, events: Seq<Event>) -> FrameLoop
    decreases events.len(),
{
    if events.len() == 0 {
        s
    } else {
        spec_step(state_after(s, events.drop_last()), events.last()).0
    }
}

/// The values the queue was asked to signal while the loop heard `events`.
pub open spec fn signals(s: FrameLoop, events: Seq<Event>) -> Seq<u64>
    decreases events.len(),
{
    if events.len() == 0 {
        Seq::empty()
    } else {
        let earlier = signals(s, events.drop_last());
        match spec_step(state_after(s, events.drop_last()), events.last()).1 {
            Action::Signal { value } => earlier.push(value),
            _ => earlier,
        }
    }
}

/// The current image always has a render target view: whatever the loop
/// hears, its image index stays below the number of swapchain images.
pub proof fn lemma_image_in_range(s: FrameLoop, events: Seq<Event>)
    requires
        s.wf(),
    ensures
        state_after(s, events).wf(),
        state_after(s, events).image < IMAGE_COUNT,
        forall|e: Event|
            (#[trigger] spec_step(state_after(s, events), e)).1 matches Action::Record { image }
                ==> image < IMAGE_COUNT,
    decreases events.len(),
{
    if events.len() > 0 {
        lemma_image_in_range(s, events.drop_last());
    }
}

/// The image index is taken afresh from the swapchain after every frame and
/// from nowhere else: it changes only when the swapchain reports it.
pub proof fn lemma_image_changes_on_acquire(s: FrameLoop, e: Event)
    ensures
        spec_step(s, e).0.image != s.image ==> s.pending == Pending::Image && e
            == Event::ImageIndex(spec_step(s, e).0.image),
        s.pending == Pending::Image && e is ImageIndex ==> spec_step(s, e).1 is Abort || e
            == Event::ImageIndex(spec_step(s, e).0.image),
{
}

/// The fence's target grows by exactly one with every frame: the k-th value
/// signalled is k + 1 past the value signalled before the run.
pub proof fn lemma_fence_targets_increase(s: FrameLoop, events: Seq<Event>)
    ensures
        state_after(s, events).signalled == s.signalled + signals(s, events).len(),
        forall|k: int|
            0 <= k < signals(s, events).len() ==> #[trigger] signals(s, events)[k] == s.signalled
                + 1 + k,
    decreases events.len(),
{
    if events.len() > 0 {
        lemma_fence_targets_increase(s, events.drop_last());
    }
}

/// The wait for the fence ends only on a completed value that has reached the
/// target: the loop moves on to the next image from no other state and on no
/// other event.
pub proof fn lemma_sync_needs_completion(s: FrameLoop, e: Event, completed: u64)
    ensures
        spec_step(s, e).1 == Action::AcquireImage ==> s.pending == Pending::FenceValue && (
        exists|reached: u64| e == Event::FenceValue(reached) && reached >= s.signalled),
        spec_step(s, e).0.pending == Pending::Image ==> spec_step(s, e).1 == Action::AcquireImage,
        s.pending == Pending::FenceValue && completed >= s.signalled ==> spec_step(
            s,
            Event::FenceValue(completed),
        ) == (waiting(s, Pending::Image), Action::AcquireImage),
        s.pending == Pending::FenceValue && completed < s.signalled ==> spec_step(
            s,
            Event::FenceValue(completed),
        ) == (waiting(s, Pending::Wake), Action::Block { target: s.signalled }),
{
    if spec_step(s, e).1 == Action::AcquireImage {
        match e {
            Event::FenceValue(reached) => {
                assert(e == Event::FenceValue(reached) && reached >= s.signalled);
            },
            _ => {},
        }
    }
}

/// Each step hands out exactly the action that the new state waits for,
/// unless it ends the loop with an error.
pub proof fn lemma_step_hands_out_awaited(s: FrameLoop, e: Event)
    ensures
        spec_step(s, e).1 is Abort || spec_step(s, e).1 == spec_awaited(spec_step(s, e).0),
        spec_step(s, e).1 is Abort ==> spec_step(s, e).0 == waiting(s, Pending::Nothing),
{
}

/// The command list is reset and recorded once per frame, and closed and
/// submitted only after that recording has succeeded; nothing is presented
/// that was not submitted, and nothing signalled that was not presented.
pub proof fn lemma_frame_order(s: FrameLoop, e: Event)
    ensures
        spec_step(s, e).1 is Record ==> s.pending == Pending::Messages && spec_step(s, e).1 == (
        Action::Record { image: s.image }),
        spec_step(s, e).1 == Action::Submit ==> s.pending == Pending::Record && e == Event::Done,
        spec_step(s, e).1 is Present ==> s.pending == Pending::Submit && e == Event::Done
            && spec_step(s, e).1 == (Action::Present { interval: SYNC_INTERVAL }),
        spec_step(s, e).1 is Signal ==> s.pending == Pending::Present && spec_step(s, e).1 == (
        Action::Signal { value: (s.signalled + 1) as u64 }) && s.signalled < u64::MAX,
        spec_step(s, e).1 is Block ==> s.pending == Pending::FenceValue && spec_step(s, e).1 == (
        Action::Block { target: s.signalled }),
{
}

/// A shutdown request never cuts a frame short: the loop exits only after
/// the frame in flight was presented and synchronised, and a request once
/// made is never withdrawn.
pub proof fn lemma_exit_after_sync(s: FrameLoop, e: Event)
    requires
        s.pending != Pending::Nothing,
    ensures
        spec_step(s, e).1 == Action::Exit ==> spec_phase(s.pending) == Phase::Synced && !s.running,
        !s.running ==> !spec_step(s, e).0.running,
        s.pending == Pending::Messages && e == (Event::Messages { key_pressed: true })
            ==> !spec_step(s, e).0.running && spec_step(s, e).1 == (Action::Record {
            image: s.image,
        }),
        spec_step(s, e).1 == Action::PumpMessages ==> s.running,
{
}

} // verus!
