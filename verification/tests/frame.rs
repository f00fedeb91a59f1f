use render_core::error::FatalError;
use render_core::frame::{FrameAction, FrameDriver, FrameError, FrameEvent, FramePhase, WaitStage};

/// Runs one whole frame with the image `image` and checks each answer.
fn run_frame(driver: &mut FrameDriver, image: usize) {
    let slot = driver.current_image();
    assert_eq!(
        driver.on_event(FrameEvent::RedrawRequested),
        Ok(FrameAction::AcquireImage { semaphore: slot })
    );
    assert_eq!(
        driver.on_event(FrameEvent::ImageAcquired(image)),
        Ok(FrameAction::WaitForFence { fence: slot })
    );
    assert_eq!(driver.on_event(FrameEvent::FenceSignaled), Ok(FrameAction::UpdateBuffers));
    assert_eq!(
        driver.on_event(FrameEvent::BuffersUpdated),
        Ok(FrameAction::RecordCommands { image })
    );
    assert_eq!(
        driver.on_event(FrameEvent::CommandsRecorded),
        Ok(FrameAction::Submit {
            image,
            wait_semaphore: slot,
            wait_stage: WaitStage::ColorAttachmentOutput,
            signal_semaphore: slot,
            fence: slot,
        })
    );
    assert_eq!(
        driver.on_event(FrameEvent::Submitted),
        Ok(FrameAction::Present { image, wait_semaphore: slot })
    );
    assert_eq!(driver.on_event(FrameEvent::Presented), Ok(FrameAction::AwaitRedraw));
}

/// Brings a fresh driver of a ring of three into `phase`.
fn driver_in(phase: FramePhase) -> FrameDriver {
    let mut driver = FrameDriver::new(3);
    let events = [
        FrameEvent::RedrawRequested,
        FrameEvent::ImageAcquired(0),
        FrameEvent::FenceSignaled,
        FrameEvent::BuffersUpdated,
        FrameEvent::CommandsRecorded,
        FrameEvent::Submitted,
    ];
    for event in events {
        if driver.phase() == phase {
            break;
        }
        assert!(driver.on_event(event).is_ok());
    }
    assert_eq!(driver.phase(), phase);
    driver
}

#[test]
fn driver_starts_idle_with_nothing_in_flight() {
    let driver = FrameDriver::new(3);
    assert_eq!(driver.image_count(), 3);
    assert_eq!(driver.current_image(), 0);
    assert_eq!(driver.phase(), FramePhase::Idle);
    assert!(!driver.may_update_buffers());
    for slot in 0..4 {
        assert!(!driver.is_in_flight(slot));
    }
}

#[test]
fn frame_runs_through_its_phases_in_order() {
    let mut driver = FrameDriver::new(2);
    assert_eq!(
        driver.on_event(FrameEvent::RedrawRequested),
        Ok(FrameAction::AcquireImage { semaphore: 0 })
    );
    assert_eq!(driver.phase(), FramePhase::Acquiring);
    assert_eq!(
        driver.on_event(FrameEvent::ImageAcquired(1)),
        Ok(FrameAction::WaitForFence { fence: 0 })
    );
    assert_eq!(driver.phase(), FramePhase::WaitingForFence);
    assert_eq!(driver.on_event(FrameEvent::FenceSignaled), Ok(FrameAction::UpdateBuffers));
    assert_eq!(driver.phase(), FramePhase::Updating);
    assert!(driver.may_update_buffers());
    assert_eq!(
        driver.on_event(FrameEvent::BuffersUpdated),
        Ok(FrameAction::RecordCommands { image: 1 })
    );
    assert_eq!(driver.phase(), FramePhase::Recording);
    assert!(!driver.may_update_buffers());
    assert_eq!(
        driver.on_event(FrameEvent::CommandsRecorded),
        Ok(FrameAction::Submit {
            image: 1,
            wait_semaphore: 0,
            wait_stage: WaitStage::ColorAttachmentOutput,
            signal_semaphore: 0,
            fence: 0,
        })
    );
    assert_eq!(driver.phase(), FramePhase::Submitting);
    assert!(!driver.is_in_flight(0));
    assert_eq!(
        driver.on_event(FrameEvent::Submitted),
        Ok(FrameAction::Present { image: 1, wait_semaphore: 0 })
    );
    assert_eq!(driver.phase(), FramePhase::Presenting);
    assert!(driver.is_in_flight(0));
    assert_eq!(driver.on_event(FrameEvent::Presented), Ok(FrameAction::AwaitRedraw));
    assert_eq!(driver.phase(), FramePhase::Idle);
    assert_eq!(driver.current_image(), 1);
    assert!(driver.is_in_flight(0));
    assert!(!driver.is_in_flight(1));
}

#[test]
fn ring_advances_by_one_whatever_image_was_acquired() {
    let mut driver = FrameDriver::new(3);
    let images = [2, 2, 0, 1, 1, 0, 2];
    for (frame, image) in images.iter().enumerate() {
        assert_eq!(driver.current_image(), frame % 3);
        run_frame(&mut driver, *image);
        assert_eq!(driver.current_image(), (frame + 1) % 3);
    }
}

#[test]
fn ring_of_one_slot_stays_on_its_slot() {
    let mut driver = FrameDriver::new(1);
    run_frame(&mut driver, 0);
    assert_eq!(driver.current_image(), 0);
    assert!(driver.is_in_flight(0));
    run_frame(&mut driver, 0);
    assert_eq!(driver.current_image(), 0);
}

#[test]
fn update_before_the_fence_wait_is_out_of_turn() {
    let mut driver = FrameDriver::new(2);
    // frame A uses slot 0, frame B slot 1
    run_frame(&mut driver, 0);
    run_frame(&mut driver, 1);
    assert_eq!(driver.current_image(), 0);
    assert!(driver.is_in_flight(0));
    // the next frame comes back to slot 0, whose work is still in flight
    assert!(driver.on_event(FrameEvent::RedrawRequested).is_ok());
    assert_eq!(driver.on_event(FrameEvent::BuffersUpdated), Err(FrameError::OutOfTurn));
    assert!(driver.on_event(FrameEvent::ImageAcquired(1)).is_ok());
    assert!(!driver.may_update_buffers());
    assert_eq!(driver.on_event(FrameEvent::BuffersUpdated), Err(FrameError::OutOfTurn));
    assert_eq!(driver.phase(), FramePhase::WaitingForFence);
    assert!(driver.is_in_flight(0));
    // only the signalled fence opens the update phase
    assert_eq!(driver.on_event(FrameEvent::FenceSignaled), Ok(FrameAction::UpdateBuffers));
    assert!(driver.may_update_buffers());
    assert!(!driver.is_in_flight(0));
    assert!(driver.is_in_flight(1));
    assert_eq!(
        driver.on_event(FrameEvent::BuffersUpdated),
        Ok(FrameAction::RecordCommands { image: 1 })
    );
}

#[test]
fn event_out_of_turn_changes_nothing() {
    let mut driver = FrameDriver::new(2);
    for event in [
        FrameEvent::ImageAcquired(0),
        FrameEvent::FenceSignaled,
        FrameEvent::BuffersUpdated,
        FrameEvent::CommandsRecorded,
        FrameEvent::Submitted,
        FrameEvent::Presented,
        FrameEvent::Failed,
    ] {
        assert_eq!(driver.on_event(event), Err(FrameError::OutOfTurn));
        assert_eq!(driver.phase(), FramePhase::Idle);
        assert_eq!(driver.current_image(), 0);
    }
    assert!(driver.on_event(FrameEvent::RedrawRequested).is_ok());
    assert_eq!(driver.on_event(FrameEvent::RedrawRequested), Err(FrameError::OutOfTurn));
    assert_eq!(driver.phase(), FramePhase::Acquiring);
}

#[test]
fn failed_acquire_is_a_frame_acquisition_failure() {
    let mut driver = driver_in(FramePhase::Acquiring);
    assert_eq!(
        driver.on_event(FrameEvent::Failed),
        Err(FrameError::Fatal(FatalError::FrameAcquisitionFailure))
    );
    assert_eq!(driver.phase(), FramePhase::Stopped);
}

#[test]
fn image_outside_the_ring_is_a_frame_acquisition_failure() {
    let mut driver = driver_in(FramePhase::Acquiring);
    assert_eq!(
        driver.on_event(FrameEvent::ImageAcquired(3)),
        Err(FrameError::Fatal(FatalError::FrameAcquisitionFailure))
    );
    assert_eq!(driver.phase(), FramePhase::Stopped);
}

#[test]
fn failed_fence_wait_is_a_synchronization_wait_failure() {
    let mut driver = driver_in(FramePhase::WaitingForFence);
    assert_eq!(
        driver.on_event(FrameEvent::Failed),
        Err(FrameError::Fatal(FatalError::SynchronizationWaitFailure))
    );
    assert_eq!(driver.phase(), FramePhase::Stopped);
}

#[test]
fn failed_update_record_or_submit_is_a_resource_creation_failure() {
    for phase in [FramePhase::Updating, FramePhase::Recording, FramePhase::Submitting] {
        let mut driver = driver_in(phase);
        assert_eq!(
            driver.on_event(FrameEvent::Failed),
            Err(FrameError::Fatal(FatalError::ResourceCreationFailure))
        );
        assert_eq!(driver.phase(), FramePhase::Stopped);
    }
}

#[test]
fn failed_present_is_a_frame_acquisition_failure() {
    let mut driver = driver_in(FramePhase::Presenting);
    assert_eq!(
        driver.on_event(FrameEvent::Failed),
        Err(FrameError::Fatal(FatalError::FrameAcquisitionFailure))
    );
    assert_eq!(driver.phase(), FramePhase::Stopped);
}

#[test]
fn close_request_stops_the_loop_for_good() {
    let mut driver = FrameDriver::new(2);
    run_frame(&mut driver, 1);
    assert_eq!(driver.on_event(FrameEvent::CloseRequested), Ok(FrameAction::Stop));
    assert_eq!(driver.phase(), FramePhase::Stopped);
    assert_eq!(driver.on_event(FrameEvent::RedrawRequested), Err(FrameError::OutOfTurn));
    assert_eq!(driver.on_event(FrameEvent::CloseRequested), Err(FrameError::OutOfTurn));
    assert_eq!(driver.on_event(FrameEvent::Failed), Err(FrameError::OutOfTurn));
    assert_eq!(driver.phase(), FramePhase::Stopped);
    assert_eq!(driver.current_image(), 1);
    assert!(driver.is_in_flight(0));
}

#[test]
fn close_request_within_a_frame_stops_as_well() {
    let mut driver = driver_in(FramePhase::Recording);
    assert_eq!(driver.on_event(FrameEvent::CloseRequested), Ok(FrameAction::Stop));
    assert_eq!(driver.phase(), FramePhase::Stopped);
}
