use agentype::errors::ErrorKind;
use agentype::invoke::InvokeOutcome;
use agentype::ocr::{ocr_engine_verdict, OcrAction, OcrEvent, OcrFlow, OcrPhase};
use agentype::platform::PlatformTarget;

fn new_flow(target: PlatformTarget, image_base64: &str) -> OcrFlow {
    OcrFlow::new(target, String::from("/tmp"), String::from(image_base64))
}

#[test]
fn malformed_base64_fails_at_once_and_stages_nothing() {
    let flow = new_flow(PlatformTarget::MacOs, "!!!not-base64!!!");
    let (flow, action) = flow.step(OcrEvent::Begin { now_millis: Some(42) });
    match action {
        OcrAction::Finish { verdict } => {
            assert_eq!(verdict, Err(ErrorKind::InvalidEncoding));
        }
        _ => panic!("expected the request to finish without staging anything"),
    }
    assert!(matches!(flow.phase, OcrPhase::Done { .. }));
}

#[test]
fn valid_base64_is_decoded_and_staged() {
    let flow = new_flow(PlatformTarget::Windows, "aGVsbG8=");
    let (_, action) = flow.step(OcrEvent::Begin { now_millis: Some(42) });
    match action {
        OcrAction::StageImage { path, bytes } => {
            assert_eq!(path, "/tmp/agentype-ocr-42.png");
            assert_eq!(bytes, vec![104, 101, 108, 108, 111]);
        }
        _ => panic!("expected the decoded image to be staged"),
    }
}

#[test]
fn unusable_clock_is_time_error() {
    let flow = new_flow(PlatformTarget::MacOs, "aGVsbG8=");
    let (_, action) = flow.step(OcrEvent::Begin { now_millis: None });
    match action {
        OcrAction::Finish { verdict } => assert_eq!(verdict, Err(ErrorKind::TimeError)),
        _ => panic!("expected the request to finish on a clock failure"),
    }
}

#[test]
fn unsupported_platform_finishes_without_any_outside_work() {
    let flow = new_flow(PlatformTarget::Other, "aGVsbG8=");
    let (flow, action) = flow.step(OcrEvent::Begin { now_millis: Some(42) });
    match action {
        OcrAction::Finish { verdict } => {
            assert_eq!(verdict, Err(ErrorKind::UnsupportedPlatform));
        }
        _ => panic!("expected no file or process work on an unsupported platform"),
    }
    assert!(matches!(flow.phase, OcrPhase::Done { .. }));
}

#[test]
fn failed_image_write_is_io_error_with_nothing_to_clean() {
    let flow = new_flow(PlatformTarget::Windows, "aGVsbG8=");
    let (flow, _) = flow.step(OcrEvent::Begin { now_millis: Some(42) });
    let (flow, action) = flow.step(OcrEvent::ImageStaged { ok: false });
    match action {
        OcrAction::Finish { verdict } => assert_eq!(verdict, Err(ErrorKind::IoError)),
        _ => panic!("expected the request to finish on a write failure"),
    }
    assert!(matches!(flow.phase, OcrPhase::Done { .. }));
}

#[test]
fn macos_run_recognizes_text_and_discards_both_temp_files() {
    let flow = new_flow(PlatformTarget::MacOs, "aGVsbG8=");
    let (flow, action) = flow.step(OcrEvent::Begin { now_millis: Some(42) });
    let image_path = match action {
        OcrAction::StageImage { path, .. } => path,
        _ => panic!("expected the decoded image to be staged"),
    };
    assert_eq!(image_path, "/tmp/agentype-ocr-42.png");

    let (flow, action) = flow.step(OcrEvent::ImageStaged { ok: true });
    let script_path = match action {
        OcrAction::StageScript { path, text } => {
            assert!(text.contains("VNRecognizeTextRequest"));
            path
        }
        _ => panic!("expected the helper script to be staged"),
    };
    assert_eq!(script_path, "/tmp/agentype-ocr-42.swift");

    let (flow, action) = flow.step(OcrEvent::ScriptStaged { ok: true });
    match action {
        OcrAction::RunEngine { invocation } => {
            assert_eq!(invocation.program, "swift");
            assert_eq!(invocation.args, vec![script_path.clone(), image_path.clone()]);
        }
        _ => panic!("expected the engine invocation"),
    }

    let outcome = InvokeOutcome::Exited { success: true, stdout: b"Hello\nWorld".to_vec() };
    let (flow, action) = flow.step(OcrEvent::EngineDone { outcome });
    match action {
        OcrAction::DiscardScript { path } => assert_eq!(path, script_path),
        _ => panic!("expected the helper script's discard"),
    }

    let (flow, action) = flow.step(OcrEvent::ScriptDiscarded { ok: true });
    match action {
        OcrAction::DiscardImage { path } => assert_eq!(path, image_path),
        _ => panic!("expected the staged image's discard"),
    }

    let (flow, action) = flow.step(OcrEvent::ImageDiscarded { ok: true });
    match action {
        OcrAction::Finish { verdict } => {
            assert_eq!(verdict, Ok(String::from("Hello\nWorld")));
        }
        _ => panic!("expected the request to finish"),
    }
    assert!(matches!(flow.phase, OcrPhase::Done { .. }));
}

#[test]
fn windows_run_recognizes_text_and_discards_the_image() {
    let flow = new_flow(PlatformTarget::Windows, "aGVsbG8=");
    let (flow, action) = flow.step(OcrEvent::Begin { now_millis: Some(7) });
    let image_path = match action {
        OcrAction::StageImage { path, .. } => path,
        _ => panic!("expected the decoded image to be staged"),
    };

    let (flow, action) = flow.step(OcrEvent::ImageStaged { ok: true });
    match action {
        OcrAction::RunEngine { invocation } => {
            assert_eq!(invocation.program, "powershell");
            assert_eq!(invocation.args[3], image_path);
        }
        _ => panic!("expected the engine invocation"),
    }

    let outcome = InvokeOutcome::Exited { success: true, stdout: b"Hello World".to_vec() };
    let (flow, action) = flow.step(OcrEvent::EngineDone { outcome });
    match action {
        OcrAction::DiscardImage { path } => assert_eq!(path, image_path),
        _ => panic!("expected the staged image's discard"),
    }

    let (_, action) = flow.step(OcrEvent::ImageDiscarded { ok: true });
    match action {
        OcrAction::Finish { verdict } => {
            assert_eq!(verdict, Ok(String::from("Hello World")));
        }
        _ => panic!("expected the request to finish"),
    }
}

#[test]
fn failed_script_write_still_discards_the_staged_image() {
    let flow = new_flow(PlatformTarget::MacOs, "aGVsbG8=");
    let (flow, _) = flow.step(OcrEvent::Begin { now_millis: Some(42) });
    let (flow, _) = flow.step(OcrEvent::ImageStaged { ok: true });
    let (flow, action) = flow.step(OcrEvent::ScriptStaged { ok: false });
    match action {
        OcrAction::DiscardImage { path } => assert_eq!(path, "/tmp/agentype-ocr-42.png"),
        _ => panic!("expected the staged image's discard"),
    }
    let (_, action) = flow.step(OcrEvent::ImageDiscarded { ok: true });
    match action {
        OcrAction::Finish { verdict } => assert_eq!(verdict, Err(ErrorKind::IoError)),
        _ => panic!("expected the request to finish"),
    }
}

#[test]
fn failing_engine_is_execution_error_and_the_image_is_still_discarded() {
    let flow = new_flow(PlatformTarget::Windows, "aGVsbG8=");
    let (flow, _) = flow.step(OcrEvent::Begin { now_millis: Some(42) });
    let (flow, _) = flow.step(OcrEvent::ImageStaged { ok: true });
    let outcome = InvokeOutcome::Exited { success: false, stdout: Vec::new() };
    let (flow, action) = flow.step(OcrEvent::EngineDone { outcome });
    assert!(matches!(action, OcrAction::DiscardImage { .. }));
    let (_, action) = flow.step(OcrEvent::ImageDiscarded { ok: false });
    match action {
        OcrAction::Finish { verdict } => assert_eq!(verdict, Err(ErrorKind::ExecutionError)),
        _ => panic!("expected the request to finish"),
    }
}

#[test]
fn engine_verdict_distinguishes_every_outcome() {
    assert_eq!(
        ocr_engine_verdict(InvokeOutcome::LaunchFailed),
        Err(ErrorKind::LaunchError)
    );
    assert_eq!(
        ocr_engine_verdict(InvokeOutcome::Exited { success: false, stdout: Vec::new() }),
        Err(ErrorKind::ExecutionError)
    );
    assert_eq!(
        ocr_engine_verdict(InvokeOutcome::Exited { success: true, stdout: vec![0xff, 0xfe] }),
        Err(ErrorKind::OutputEncodingError)
    );
    assert_eq!(
        ocr_engine_verdict(InvokeOutcome::Exited { success: true, stdout: b"ok".to_vec() }),
        Ok(String::from("ok"))
    );
}

#[test]
fn the_pipeline_only_accepts_the_event_it_awaits() {
    let flow = new_flow(PlatformTarget::MacOs, "aGVsbG8=");
    assert!(flow.accepts_event(&OcrEvent::Begin { now_millis: Some(1) }));
    assert!(!flow.accepts_event(&OcrEvent::ImageStaged { ok: true }));
    let (flow, _) = flow.step(OcrEvent::Begin { now_millis: Some(1) });
    assert!(flow.accepts_event(&OcrEvent::ImageStaged { ok: true }));
    assert!(!flow.accepts_event(&OcrEvent::Begin { now_millis: Some(1) }));
    let (flow, _) = flow.step(OcrEvent::ImageStaged { ok: false });
    assert!(!flow.accepts_event(&OcrEvent::ImageStaged { ok: true }));
}
