//! The per-frame handshake between the host, the display and the device.
//!
//! A ring of `image_count` slots, each with a fence and two semaphores, paces
//! the frames. One frame runs through acquire, fence wait, update, record,
//! submit and present, in this order and on one thread. The driver decides
//! what comes next and with which slot's objects; its owner performs each
//! action on the device and reports how it ended.
//!
//! The fence of a slot is signalled when the work last submitted for that slot
//! has retired. Buffers are updated only after the fence of the current slot
//! was waited for. Work of the other slots may still be in flight then: a
//! buffer that several slots read is safe to overwrite only if the ring is no
//! deeper than the number of frames that may read it at once, which
//! `is_in_flight` lets the owner check.

use vstd::prelude::*;
use crate::error::FatalError;

verus! {

/// Where the driver stands within a frame.
#[derive(Debug, Clone, Copy, PartialEq, Eq, Structural)]
pub enum FramePhase {
    /// Between two frames.
    Idle,
    /// An image was asked for.
    Acquiring,
    /// The fence of the current slot is being waited for.
    WaitingForFence,
    /// The host overwrites its dynamic buffers.
    Updating,
    /// The command buffer of the acquired image is recorded anew.
    Recording,
    /// The recorded work is handed to the graphics queue.
    Submitting,
    /// The acquired image is handed back to the display.
    Presenting,
    /// The loop has ended, by a close request or a fatal error.
    Stopped,
}

/// What the owner reports to the driver.
#[derive(Debug, Clone, Copy, PartialEq, Eq, Structural)]
pub enum FrameEvent {
    /// A new frame is due.
    RedrawRequested,
    /// The display handed over the image with this index.
    ImageAcquired(usize),
    /// The awaited fence was signalled and has been reset.
    FenceSignaled,
    /// The dynamic buffers are up to date.
    BuffersUpdated,
    /// The command buffer is recorded.
    CommandsRecorded,
    /// The queue accepted the work.
    Submitted,
    /// The display accepted the image.
    Presented,
    /// The action that was asked for failed.
    Failed,
    /// The window is to be closed.
    CloseRequested,
}

/// The pipeline stage at which submitted work waits for its semaphore.
#[derive(Debug, Clone, Copy, PartialEq, Eq, Structural)]
pub enum WaitStage {
    ColorAttachmentOutput,
}

/// What the owner has to do next. Semaphores and fences are named by their
/// ring slot, images by the index that the display gave.
#[derive(Debug, Clone, Copy, PartialEq, Eq, Structural)]
pub enum FrameAction {
    /// Nothing, until the next frame is due.
    AwaitRedraw,
    /// Ask the display for its next image, without a time limit; the display
    /// signals the image-available semaphore of this slot.
    AcquireImage { semaphore: usize },
    /// Wait without a time limit for the fence of this slot, then reset it.
    WaitForFence { fence: usize },
    /// Overwrite the camera transform and the instance buffers.
    UpdateBuffers,
    /// Record the command buffer of this image from scratch.
    RecordCommands { image: usize },
    /// Submit the command buffer of `image`: it waits for the image-available
    /// semaphore of `wait_semaphore` at `wait_stage`, and on completion
    /// signals the rendering-finished semaphore of `signal_semaphore` and the
    /// fence of `fence`.
    Submit {
        image: usize,
        wait_semaphore: usize,
        wait_stage: WaitStage,
        signal_semaphore: usize,
        fence: usize,
    },
    /// Present `image`, waiting for the rendering-finished semaphore of
    /// `wait_semaphore`.
    Present { image: usize, wait_semaphore: usize },
    /// Leave the loop: wait for the device to go idle, then tear down.
    Stop,
}

/// Why the driver did not answer an event with an action.
#[derive(Debug, Clone, Copy, PartialEq, Eq, Structural)]
pub enum FrameError {
    /// The loop has ended with this failure.
    Fatal(FatalError),
    /// The event does not belong to the current phase. Nothing has changed.
    OutOfTurn,
}

/// The state of a frame driver.
#[verifier::ext_equal]
pub struct FrameState {
    /// The number of ring slots, which is the number of swap images.
    pub image_count: nat,
    /// The ring slot whose fence and semaphores the current frame uses.
    pub current_image: nat,
    pub phase: FramePhase,
    /// The index of the image that was acquired last.
    pub image: nat,
    /// For each ring slot, whether work was submitted for it whose fence has
    /// not been waited for since.
    pub in_flight: Seq<bool>,
}

impl FrameState {
    /// The state before the first frame: every fence is signalled, so no slot
    /// has work in flight.
    pub open spec fn initial(image_count: nat) -> FrameState {
        FrameState {
            image_count,
            current_image: 0,
            phase: FramePhase::Idle,
            image: 0,
            in_flight: Seq::new(image_count, |slot: int| false),
        }
    }

    /// The invariant of a driver: slot and image lie within the ring, and
    /// between the fence wait and the submission of a frame the current slot
    /// has no work in flight.
    pub open spec fn wf(self) -> bool {
        &&& 0 < self.image_count <= usize::MAX
        &&& self.current_image < self.image_count
        &&& self.image < self.image_count
        &&& self.in_flight.len() == self.image_count
        &&& self.fence_waited() ==> !self.in_flight[self.current_image as int]
    }

    /// Whether the frame stands between its fence wait and its submission.
    pub open spec fn fence_waited(self) -> bool {
        self.phase is Updating || self.phase is Recording || self.phase is Submitting
    }

    /// Whether the host may now overwrite its dynamic buffers: the frame is in
    /// its update phase.
    pub open spec fn may_update_buffers(self) -> bool {
        self.phase is Updating
    }

    /// The failure that a failed action means, by the phase that asked for it.
    pub open spec fn failure(phase: FramePhase) -> Option<FatalError> {
        match phase {
            FramePhase::Acquiring | FramePhase::Presenting => Some(
                FatalError::FrameAcquisitionFailure,
            ),
            FramePhase::WaitingForFence => Some(FatalError::SynchronizationWaitFailure),
            FramePhase::Updating | FramePhase::Recording | FramePhase::Submitting => Some(
                FatalError::ResourceCreationFailure,
            ),
            FramePhase::Idle | FramePhase::Stopped => None,
        }
    }

    /// The driver's answer to `event`.
    pub open spec fn response(self, event: FrameEvent) -> Result<FrameAction, FrameError> {
        let slot = self.current_image as usize;
        let image = self.image as usize;
        match (self.phase, event) {
            (FramePhase::Stopped, _) => Err(FrameError::OutOfTurn),
            (_, FrameEvent::CloseRequested) => Ok(FrameAction::Stop),
            (phase, FrameEvent::Failed) => match Self::failure(phase) {
                Some(failure) => Err(FrameError::Fatal(failure)),
                None => Err(FrameError::OutOfTurn),
            },
            (FramePhase::Idle, FrameEvent::RedrawRequested) => Ok(
                FrameAction::AcquireImage { semaphore: slot },
            ),
            (FramePhase::Acquiring, FrameEvent::ImageAcquired(acquired)) => if acquired
                < self.image_count {
                Ok(FrameAction::WaitForFence { fence: slot })
            } else {
                Err(FrameError::Fatal(FatalError::FrameAcquisitionFailure))
            },
            (FramePhase::WaitingForFence, FrameEvent::FenceSignaled) => Ok(
                FrameAction::UpdateBuffers,
            ),
            (FramePhase::Updating, FrameEvent::BuffersUpdated) => Ok(
                FrameAction::RecordCommands { image },
            ),
            (FramePhase::Recording, FrameEvent::CommandsRecorded) => Ok(
                FrameAction::Submit {
                    image,
                    wait_semaphore: slot,
                    wait_stage: WaitStage::ColorAttachmentOutput,
                    signal_semaphore: slot,
                    fence: slot,
                },
            ),
            (FramePhase::Submitting, FrameEvent::Submitted) => Ok(
                FrameAction::Present { image, wait_semaphore: slot },
            ),
            (FramePhase::Presenting, FrameEvent::Presented) => Ok(FrameAction::AwaitRedraw),
            _ => Err(FrameError::OutOfTurn),
        }
    }

    /// The state after `event`. An event out of turn changes nothing; a fatal
    /// failure and a close request stop the driver; every other event moves
    /// the frame one phase on. The fence wait clears the current slot, the
    /// submission puts it in flight, and the presentation moves on to the next
    /// slot of the ring, whichever image was acquired.
    pub open spec fn next(self, event: FrameEvent) -> FrameState {
        match self.response(event) {
            Err(FrameError::OutOfTurn) => self,
            Err(FrameError::Fatal(_)) => FrameState { phase: FramePhase::Stopped, ..self },
            Ok(FrameAction::Stop) => FrameState { phase: FramePhase::Stopped, ..self },
            Ok(FrameAction::AcquireImage { .. }) => FrameState {
                phase: FramePhase::Acquiring,
                ..self
            },
            Ok(FrameAction::WaitForFence { .. }) => FrameState {
                phase: FramePhase::WaitingForFence,
                image: event->ImageAcquired_0 as nat,
                ..self
            },
            Ok(FrameAction::UpdateBuffers) => FrameState {
                phase: FramePhase::Updating,
                in_flight: self.in_flight.update(self.current_image as int, false),
                ..self
            },
            Ok(FrameAction::RecordCommands { .. }) => FrameState {
                phase: FramePhase::Recording,
                ..self
            },
            Ok(FrameAction::Submit { .. }) => FrameState { phase: FramePhase::Submitting, ..self },
            Ok(FrameAction::Present { .. }) => FrameState {
                phase: FramePhase::Presenting,
                in_flight: self.in_flight.update(self.current_image as int, true),
                ..self
            },
            Ok(FrameAction::AwaitRedraw) => FrameState {
                phase: FramePhase::Idle,
                current_image: (self.current_image + 1) % self.image_count,
                ..self
            },
        }
    }

    /// The state after the events of `events`, first to last.
    pub open spec fn run(self, events: Seq<FrameEvent>) -> FrameState
        decreases events.len(),
    {
        if events.len() == 0 {
            self
        } else {
            self.run(events.drop_last()).next(events.last())
        }
    }

    /// The events of one frame that runs to its end with the image `image`.
    pub open spec fn frame(image: usize) -> Seq<FrameEvent> {
        seq![
            FrameEvent::RedrawRequested,
            FrameEvent::ImageAcquired(image),
            FrameEvent::FenceSignaled,
            FrameEvent::BuffersUpdated,
            FrameEvent::CommandsRecorded,
            FrameEvent::Submitted,
            FrameEvent::Presented,
        ]
    }

    /// Every event leaves the invariant in place, and with it the ring slot
    /// within the ring.
    pub proof fn lemma_next_keeps_invariant(self, event: FrameEvent)
        requires
            self.wf(),
        ensures
            self.next(event).wf(),
            self.next(event).image_count == self.image_count,
    {
    }

    /// However the owner answers, the invariant holds after any number of
    /// events.
    pub proof fn lemma_run_keeps_invariant(self, events: Seq<FrameEvent>)
        requires
            self.wf(),
        ensures
            self.run(events).wf(),
            self.run(events).image_count == self.image_count,
        decreases events.len(),
    {
        if events.len() > 0 {
            self.lemma_run_keeps_invariant(events.drop_last());
            self.run(events.drop_last()).lemma_next_keeps_invariant(events.last());
        }
    }

    /// The driver asks for a buffer update only in answer to the signalled
    /// fence of the current slot, and that slot then has no work in flight.
    /// Any other event is answered with something else, so an update that was
    /// not preceded by the fence wait is out of turn.
    pub proof fn lemma_update_follows_fence_wait(self, event: FrameEvent)
        requires
            self.wf(),
        ensures
            self.response(event) == Ok::<FrameAction, FrameError>(FrameAction::UpdateBuffers) <==> (
            self.phase is WaitingForFence && event is FenceSignaled),
            self.response(event) == Ok::<FrameAction, FrameError>(FrameAction::UpdateBuffers)
                ==> !self.next(event).in_flight[self.current_image as int],
            event is BuffersUpdated && !(self.phase is Updating) ==> self.response(event) == Err::<
                FrameAction,
                FrameError,
            >(FrameError::OutOfTurn) && self.next(event) == self,
            self.in_flight[self.current_image as int] ==> !self.may_update_buffers(),
            self.next(event).may_update_buffers() ==> !self.next(event).in_flight[self.next(
                event,
            ).current_image as int],
    {
        self.lemma_next_keeps_invariant(event);
    }

    /// The work of a slot is in flight from its submission until the fence of
    /// that slot is waited for again, which happens a whole turn of the ring
    /// later: no other event clears it.
    pub proof fn lemma_in_flight_until_fence_wait(self, event: FrameEvent, slot: int)
        requires
            self.wf(),
            0 <= slot < self.image_count,
            self.in_flight[slot],
        ensures
            self.next(event).in_flight[slot] || (self.phase is WaitingForFence
                && event is FenceSignaled && slot == self.current_image),
    {
    }

    /// A frame that runs to its end leaves the driver idle at the next slot of
    /// the ring, whichever image the display gave, with the work of the slot
    /// that it used in flight.
    pub proof fn lemma_frame_advances_ring(self, image: usize)
        requires
            self.wf(),
            self.phase is Idle,
            image < self.image_count,
        ensures
            self.run(Self::frame(image)) == (FrameState {
                current_image: (self.current_image + 1) % self.image_count,
                image: image as nat,
                in_flight: self.in_flight.update(self.current_image as int, true),
                ..self
            }),
    {
        // the frame is unrolled event by event, from the last back to the first
        let events = Self::frame(image);
        let e6 = events.drop_last();
        let e5 = e6.drop_last();
        let e4 = e5.drop_last();
        let e3 = e4.drop_last();
        let e2 = e3.drop_last();
        let e1 = e2.drop_last();
        let s1 = self.next(events[0]);
        let s2 = s1.next(events[1]);
        let s3 = s2.next(events[2]);
        let s4 = s3.next(events[3]);
        let s5 = s4.next(events[4]);
        let s6 = s5.next(events[5]);
        assert(self.run(e1.drop_last()) == self);
        assert(self.run(e1) == s1);
        assert(self.run(e2) == s2);
        assert(self.run(e3) == s3);
        assert(self.run(e4) == s4);
        assert(self.run(e5) == s5);
        assert(self.run(e6) == s6);
    }
}

/// The frame driver of a ring of `image_count` slots.
pub struct FrameDriver {
    image_count: usize,
    current_image: usize,
    phase: FramePhase,
    image: usize,
    in_flight: Vec<bool>,
}

impl View for FrameDriver {
    type V = FrameState;

    closed spec fn view(&self) -> FrameState {
        FrameState {
            image_count: self.image_count as nat,
            current_image: self.current_image as nat,
            phase: self.phase,
            image: self.image as nat,
            in_flight: self.in_flight@,
        }
    }
}

impl FrameDriver {
    /// The driver of a ring of `image_count` slots, before the first frame.
    pub fn new(image_count: usize) -> (driver: FrameDriver)
        requires
            image_count > 0,
        ensures
            driver@ == FrameState::initial(image_count as nat),
            driver@.wf(),
    {
        FrameDriver {
            image_count,
            current_image: 0,
            phase: FramePhase::Idle,
            image: 0,
            in_flight: vec![false; image_count],
        }
    }

    /// The number of ring slots.
    pub fn image_count(&self) -> (count: usize)
        ensures
            count == self@.image_count,
    {
        self.image_count
    }

    /// The ring slot that the current frame uses.
    pub fn current_image(&self) -> (slot: usize)
        ensures
            slot == self@.current_image,
    {
        self.current_image
    }

    /// The phase in which the driver stands.
    pub fn phase(&self) -> (phase: FramePhase)
        ensures
            phase == self@.phase,
    {
        self.phase
    }

    /// Whether work that was submitted for `slot` may still run on the
    /// device. A slot outside the ring has none.
    pub fn is_in_flight(&self, slot: usize) -> (busy: bool)
        requires
            self@.wf(),
        ensures
            busy == (slot < self@.image_count && self@.in_flight[slot as int]),
    {
        slot < self.image_count && self.in_flight[slot]
    }

    /// Whether the host may now overwrite its dynamic buffers: the fence of
    /// the current slot was waited for, and nothing else has happened since.
    pub fn may_update_buffers(&self) -> (allowed: bool)
        ensures
            allowed == self@.may_update_buffers(),
    {
        match self.phase {
            FramePhase::Updating => true,
            _ => false,
        }
    }

    /// The failure that a failed action means in the current phase.
    fn failure(&self) -> (failure: Option<FatalError>)
        ensures
            failure == FrameState::failure(self@.phase),
    {
        match self.phase {
            FramePhase::Acquiring | FramePhase::Presenting => Some(
                FatalError::FrameAcquisitionFailure,
            ),
            FramePhase::WaitingForFence => Some(FatalError::SynchronizationWaitFailure),
            FramePhase::Updating | FramePhase::Recording | FramePhase::Submitting => Some(
                FatalError::ResourceCreationFailure,
            ),
            FramePhase::Idle | FramePhase::Stopped => None,
        }
    }

    /// Takes note of `event` and says what the owner has to do next.
    pub fn on_event(&mut self, event: FrameEvent) -> (response: Result<FrameAction, FrameError>)
        requires
            old(self)@.wf(),
        ensures
            response == old(self)@.response(event),
            final(self)@ == old(self)@.next(event),
            final(self)@.wf(),
    {
        proof {
            self@.lemma_next_keeps_invariant(event);
        }
        let slot = self.current_image;
        let image = self.image;
        let response = match (self.phase, event) {
            (FramePhase::Stopped, _) => Err(FrameError::OutOfTurn),
            (_, FrameEvent::CloseRequested) => {
                self.phase = FramePhase::Stopped;
                Ok(FrameAction::Stop)
            },
            (_, FrameEvent::Failed) => match self.failure() {
                Some(failure) => {
                    self.phase = FramePhase::Stopped;
                    Err(FrameError::Fatal(failure))
                },
                None => Err(FrameError::OutOfTurn),
            },
            (FramePhase::Idle, FrameEvent::RedrawRequested) => {
                self.phase = FramePhase::Acquiring;
                Ok(FrameAction::AcquireImage { semaphore: slot })
            },
            (FramePhase::Acquiring, FrameEvent::ImageAcquired(acquired)) => {
                if acquired < self.image_count {
                    self.phase = FramePhase::WaitingForFence;
                    self.image = acquired;
                    Ok(FrameAction::WaitForFence { fence: slot })
                } else {
                    self.phase = FramePhase::Stopped;
                    Err(FrameError::Fatal(FatalError::FrameAcquisitionFailure))
                }
            },
            (FramePhase::WaitingForFence, FrameEvent::FenceSignaled) => {
                self.phase = FramePhase::Updating;
                self.in_flight[slot] = false;
                Ok(FrameAction::UpdateBuffers)
            },
            (FramePhase::Updating, FrameEvent::BuffersUpdated) => {
                self.phase = FramePhase::Recording;
                Ok(FrameAction::RecordCommands { image })
            },
            (FramePhase::Recording, FrameEvent::CommandsRecorded) => {
                self.phase = FramePhase::Submitting;
                Ok(
                    FrameAction::Submit {
                        image,
                        wait_semaphore: slot,
                        wait_stage: WaitStage::ColorAttachmentOutput,
                        signal_semaphore: slot,
                        fence: slot,
                    },
                )
            },
            (FramePhase::Submitting, FrameEvent::Submitted) => {
                self.phase = FramePhase::Presenting;
                self.in_flight[slot] = true;
                Ok(FrameAction::Present { image, wait_semaphore: slot })
            },
            (FramePhase::Presenting, FrameEvent::Presented) => {
                self.phase = FramePhase::Idle;
                self.current_image = if slot + 1 == self.image_count {
                    0
                } else {
                    slot + 1
                };
                assert(self.current_image == (slot + 1) % (self.image_count as int)) by {
                    if slot + 1 == self.image_count {
                        assert((slot + 1) % (self.image_count as int) == 0) by (nonlinear_arith)
                            requires
                                slot + 1 == self.image_count,
                                self.image_count > 0,
                        ;
                    } else {
                        assert((slot + 1) % (self.image_count as int) == slot + 1)
                            by (nonlinear_arith)
                            requires
                                0 <= slot + 1 < self.image_count,
                        ;
                    }
                }
                Ok(FrameAction::AwaitRedraw)
            },
            _ => Err(FrameError::OutOfTurn),
        };
        response
    }
}

} // verus!
