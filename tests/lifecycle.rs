use wow_capture::lifecycle::{
    Attach, AttachEvent, AttachStep, EXIT_HOOKS_FAILED, EXIT_OK, EXIT_RING_FAILED, EXIT_UNSUPPORTED,
    WINDOW_ATTEMPTS, WINDOW_RETRY_MS,
};

#[test]
fn attach_in_order() {
    let (mut a, step) = Attach::new();
    assert_eq!(step, AttachStep::DetectBuild);
    assert_eq!(a.advance(AttachEvent::Detected(Some(5875))), AttachStep::CreateRing { build: 5875 });
    assert_eq!(a.advance(AttachEvent::RingCreated(true)), AttachStep::InstallHooks);
    assert!(!a.ready);
    assert_eq!(a.advance(AttachEvent::HooksInstalled(true)), AttachStep::SetReady);
    assert!(a.hooks && !a.ready);
    assert_eq!(a.advance(AttachEvent::ReadySet), AttachStep::SubclassWindow);
    assert_eq!(a.advance(AttachEvent::Subclassed(false)), AttachStep::Pause { ms: WINDOW_RETRY_MS });
    assert_eq!(a.advance(AttachEvent::Paused), AttachStep::SubclassWindow);
    assert_eq!(a.advance(AttachEvent::Subclassed(true)), AttachStep::Finish(EXIT_OK));
}

#[test]
fn attach_failures() {
    let (mut a, _) = Attach::new();
    assert_eq!(a.advance(AttachEvent::Detected(None)), AttachStep::Finish(EXIT_UNSUPPORTED));

    let (mut a, _) = Attach::new();
    a.advance(AttachEvent::Detected(Some(8606)));
    assert_eq!(a.advance(AttachEvent::RingCreated(false)), AttachStep::Finish(EXIT_RING_FAILED));

    let (mut a, _) = Attach::new();
    a.advance(AttachEvent::Detected(Some(8606)));
    a.advance(AttachEvent::RingCreated(true));
    assert_eq!(a.advance(AttachEvent::HooksInstalled(false)), AttachStep::ReleaseRing);
    assert_eq!(a.advance(AttachEvent::RingReleased), AttachStep::Finish(EXIT_HOOKS_FAILED));
    assert!(!a.ready && !a.ring);
}

#[test]
fn window_attempts_are_bounded() {
    let (mut a, _) = Attach::new();
    a.advance(AttachEvent::Detected(Some(12340)));
    a.advance(AttachEvent::RingCreated(true));
    a.advance(AttachEvent::HooksInstalled(true));
    let mut step = a.advance(AttachEvent::ReadySet);
    let mut tries = 0;
    while step == AttachStep::SubclassWindow {
        tries += 1;
        step = a.advance(AttachEvent::Subclassed(false));
        if step == (AttachStep::Pause { ms: WINDOW_RETRY_MS }) {
            step = a.advance(AttachEvent::Paused);
        }
    }
    assert_eq!(tries, WINDOW_ATTEMPTS);
    assert_eq!(step, AttachStep::Finish(EXIT_OK));
}
