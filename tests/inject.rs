use wow_capture::inject::{remote_path_buffer, InjectError, InjectEvent, InjectStep, Injection, LOADER_WAIT_MS};
use wow_capture::pe::find_export;

#[test]
fn cross_bitness_inject_protocol() {
    let path = remote_path_buffer("C:\\capture.dll");
    assert_eq!(path.len(), 15);
    assert_eq!(*path.last().unwrap(), 0);
    let (mut inj, step) = Injection::new(path.len());
    assert_eq!(step, InjectStep::OpenProcess);
    assert_eq!(inj.advance(InjectEvent::Opened(true)), InjectStep::QueryBitness);
    assert_eq!(
        inj.advance(InjectEvent::Bitness { target_is_32bit: true }),
        InjectStep::AllocatePath { bytes: 30 }
    );
    assert_eq!(inj.advance(InjectEvent::Allocated(true)), InjectStep::WritePath);
    assert_eq!(
        inj.advance(InjectEvent::Written(true)),
        InjectStep::ResolveLoader { cross_bitness: true }
    );
    let mut img = vec![0u8; 0x400];
    img[0x3C..0x40].copy_from_slice(&0x80u32.to_le_bytes());
    img[0xF8..0xFC].copy_from_slice(&0x200u32.to_le_bytes());
    img[0x218..0x21C].copy_from_slice(&1u32.to_le_bytes());
    img[0x21C..0x220].copy_from_slice(&0x260u32.to_le_bytes());
    img[0x220..0x224].copy_from_slice(&0x280u32.to_le_bytes());
    img[0x224..0x228].copy_from_slice(&0x2A0u32.to_le_bytes());
    img[0x280..0x284].copy_from_slice(&0x300u32.to_le_bytes());
    img[0x260..0x264].copy_from_slice(&0x1F00u32.to_le_bytes());
    img[0x300..0x30D].copy_from_slice(b"LoadLibraryW\0");
    let loader = find_export(&img, 0x7600_0000, b"LoadLibraryW").ok();
    assert_eq!(loader, Some(0x7600_1F00));
    assert_eq!(
        inj.advance(InjectEvent::Resolved(loader)),
        InjectStep::CreateThread { start: 0x7600_1F00 }
    );
    assert_eq!(
        inj.advance(InjectEvent::ThreadCreated(true)),
        InjectStep::WaitForThread { timeout_ms: LOADER_WAIT_MS }
    );
    assert_eq!(inj.advance(InjectEvent::WaitOutcome(0)), InjectStep::ReadExitCode);
    assert_eq!(
        inj.advance(InjectEvent::ExitCode(0x6E00_0000)),
        InjectStep::Release { thread: true, allocation: true, process: true }
    );
    assert_eq!(inj.advance(InjectEvent::Released), InjectStep::Done(Ok(())));
    assert!(!inj.process && !inj.allocation && !inj.thread);
}

fn run_until(events: &[InjectEvent]) -> (Injection, InjectStep) {
    let (mut inj, mut step) = Injection::new(4);
    for e in events {
        step = inj.advance(*e);
    }
    (inj, step)
}

#[test]
fn open_failure_finishes_at_once() {
    let (_, step) = run_until(&[InjectEvent::Opened(false)]);
    assert_eq!(step, InjectStep::Done(Err(InjectError::OpenFailed)));
}

#[test]
fn alloc_failure_closes_process() {
    let (mut inj, step) = run_until(&[
        InjectEvent::Opened(true),
        InjectEvent::Bitness { target_is_32bit: false },
        InjectEvent::Allocated(false),
    ]);
    assert_eq!(step, InjectStep::Release { thread: false, allocation: false, process: true });
    assert_eq!(inj.advance(InjectEvent::Released), InjectStep::Done(Err(InjectError::AllocFailed)));
}

#[test]
fn later_failures_release_what_is_held() {
    let base = [
        InjectEvent::Opened(true),
        InjectEvent::Bitness { target_is_32bit: false },
        InjectEvent::Allocated(true),
    ];
    let (mut inj, step) = run_until(&[base[0], base[1], base[2], InjectEvent::Written(false)]);
    assert_eq!(step, InjectStep::Release { thread: false, allocation: true, process: true });
    assert_eq!(inj.advance(InjectEvent::Released), InjectStep::Done(Err(InjectError::WriteFailed)));

    let (mut inj, step) = run_until(&[base[0], base[1], base[2], InjectEvent::Written(true), InjectEvent::Resolved(None)]);
    assert_eq!(step, InjectStep::Release { thread: false, allocation: true, process: true });
    assert_eq!(inj.advance(InjectEvent::Released), InjectStep::Done(Err(InjectError::ResolveFailed)));

    let (mut inj, step) = run_until(&[
        base[0], base[1], base[2], InjectEvent::Written(true), InjectEvent::Resolved(Some(9)),
        InjectEvent::ThreadCreated(false),
    ]);
    assert_eq!(step, InjectStep::Release { thread: false, allocation: true, process: true });
    assert_eq!(inj.advance(InjectEvent::Released), InjectStep::Done(Err(InjectError::ThreadCreateFailed)));

    let (mut inj, step) = run_until(&[
        base[0], base[1], base[2], InjectEvent::Written(true), InjectEvent::Resolved(Some(9)),
        InjectEvent::ThreadCreated(true), InjectEvent::WaitOutcome(0x102),
    ]);
    assert_eq!(step, InjectStep::Release { thread: true, allocation: true, process: true });
    assert_eq!(inj.advance(InjectEvent::Released), InjectStep::Done(Err(InjectError::WaitTimeout(0x102))));

    let (mut inj, step) = run_until(&[
        base[0], base[1], base[2], InjectEvent::Written(true), InjectEvent::Resolved(Some(9)),
        InjectEvent::ThreadCreated(true), InjectEvent::WaitOutcome(0), InjectEvent::ExitCode(0),
    ]);
    assert_eq!(step, InjectStep::Release { thread: true, allocation: true, process: true });
    assert_eq!(inj.advance(InjectEvent::Released), InjectStep::Done(Err(InjectError::LibraryLoadFailed)));
}

#[test]
fn unexpected_event_repeats_request() {
    let (mut inj, _) = Injection::new(4);
    assert_eq!(inj.advance(InjectEvent::Released), InjectStep::OpenProcess);
    assert_eq!(inj.advance(InjectEvent::Opened(true)), InjectStep::QueryBitness);
}

#[test]
fn path_buffer_surrogates() {
    let b = remote_path_buffer("a\u{1F600}");
    assert_eq!(b, vec![0x61, 0xD83D, 0xDE00, 0]);
}
