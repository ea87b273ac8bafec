use ocr_core::ImageInfo;
use ocr_core::app::{AppCore, AppMessage, AppState, Job, JobDispatcher, drain_mailbox, run_job};
use ocr_core::ocr::{EngineError, OcrEngine, OcrResult};
use ocr_core::ui::StatusType;

fn some_result() -> OcrResult {
    OcrResult {
        text: "hello".to_string(),
        confidence: 752,
        processing_time: 7,
        bounding_boxes: Vec::new(),
    }
}

#[test]
fn initial_state_is_idle() {
    let core = AppCore::new();
    assert_eq!(core.state, AppState::Idle);
    assert!(core.ocr_result.is_none());
    assert!(core.selected_image_path.is_none());
}

#[test]
fn idle_to_loading_on_selection() {
    let mut core = AppCore::new();
    core.handle_message(AppMessage::ImageSelected("a.png".to_string()));
    assert_eq!(core.state, AppState::Loading);
    assert_eq!(core.selected_image_path, Some("a.png".to_string()));
    assert_eq!(core.pending_decode(), Some("a.png".to_string()));
}

#[test]
fn loading_to_processing_on_decode_ok() {
    let mut core = AppCore::new();
    core.handle_message(AppMessage::ImageSelected("a.png".to_string()));
    let job = core.on_decode_result(Ok(ImageInfo::new(100, 100)));
    assert_eq!(core.state, AppState::Processing);
    let job = job.unwrap();
    assert_eq!(job.generation, 1);
    assert_eq!(job.source_path, "a.png");
    assert_eq!(core.latest_generation, 1);
    assert_eq!(core.pending_decode(), None);
}

#[test]
fn loading_to_error_on_decode_failure() {
    // A corrupt file goes Idle -> Loading -> Error without ever reaching
    // Processing.
    let mut core = AppCore::new();
    core.handle_message(AppMessage::ImageSelected("corrupt.png".to_string()));
    assert_eq!(core.state, AppState::Loading);
    let job = core.on_decode_result(Err("bad magic number".to_string()));
    assert!(job.is_none());
    assert_eq!(core.state, AppState::Error("bad magic number".to_string()));
    assert_eq!(core.status_display.message, "failed: bad magic number");
    assert_eq!(core.status_display.status_type, StatusType::Error);
}

#[test]
fn processing_to_completed_on_matching_outcome() {
    let mut core = AppCore::new();
    core.handle_message(AppMessage::ImageSelected("a.png".to_string()));
    core.on_decode_result(Ok(ImageInfo::new(100, 100)));
    core.handle_message(AppMessage::OcrCompleted(1, some_result()));
    assert_eq!(core.state, AppState::Completed);
    assert_eq!(core.ocr_result, Some(some_result()));
    assert_eq!(
        core.status_display.message,
        "recognition finished: confidence 75.2%, time 7ms"
    );
    assert_eq!(core.status_display.status_type, StatusType::Success);
}

#[test]
fn processing_to_error_on_matching_failure() {
    let mut core = AppCore::new();
    core.handle_message(AppMessage::ImageSelected("a.png".to_string()));
    core.on_decode_result(Ok(ImageInfo::new(100, 100)));
    core.handle_message(AppMessage::OcrError(1, "backend fault".to_string()));
    assert_eq!(core.state, AppState::Error("backend fault".to_string()));
    assert_eq!(core.status_display.message, "failed: backend fault");
}

#[test]
fn any_state_returns_to_loading_on_selection() {
    let mut core = AppCore::new();
    // From Processing.
    core.handle_message(AppMessage::ImageSelected("a.png".to_string()));
    core.on_decode_result(Ok(ImageInfo::new(10, 10)));
    core.handle_message(AppMessage::ImageSelected("b.png".to_string()));
    assert_eq!(core.state, AppState::Loading);
    // From Completed.
    core.on_decode_result(Ok(ImageInfo::new(10, 10)));
    core.handle_message(AppMessage::OcrCompleted(2, some_result()));
    assert_eq!(core.state, AppState::Completed);
    core.handle_message(AppMessage::ImageSelected("c.png".to_string()));
    assert_eq!(core.state, AppState::Loading);
    assert!(core.ocr_result.is_none());
    // From Error.
    core.on_decode_result(Err("boom".to_string()));
    core.handle_message(AppMessage::ImageSelected("d.png".to_string()));
    assert_eq!(core.state, AppState::Loading);
}

#[test]
fn reset_from_completed_and_error_yields_idle() {
    let mut core = AppCore::new();
    core.handle_message(AppMessage::ImageSelected("a.png".to_string()));
    core.on_decode_result(Ok(ImageInfo::new(10, 10)));
    core.handle_message(AppMessage::OcrCompleted(1, some_result()));
    assert_eq!(core.state, AppState::Completed);
    core.reset_state();
    assert_eq!(core.state, AppState::Idle);
    assert!(core.ocr_result.is_none());
    assert_eq!(core.status_display.message, "");

    core.handle_message(AppMessage::ImageSelected("b.png".to_string()));
    core.on_decode_result(Err("boom".to_string()));
    core.reset_state();
    assert_eq!(core.state, AppState::Idle);
    assert!(core.ocr_result.is_none());
    // Resetting again changes nothing.
    core.reset_state();
    assert_eq!(core.state, AppState::Idle);
}

#[test]
fn superseding_request_wins_either_order() {
    // Request A (generation 1) is superseded by request B (generation 2);
    // the machine must end consistent with B's outcome.
    let a_outcome = AppMessage::OcrCompleted(1, some_result());
    let b_result = OcrResult {
        text: "from b".to_string(),
        confidence: 900,
        processing_time: 3,
        bounding_boxes: Vec::new(),
    };
    let b_outcome = AppMessage::OcrCompleted(2, b_result.clone());

    for order in [
        vec![a_outcome.clone(), b_outcome.clone()],
        vec![b_outcome.clone(), a_outcome.clone()],
    ] {
        let mut core = AppCore::new();
        core.handle_message(AppMessage::ImageSelected("a.png".to_string()));
        core.on_decode_result(Ok(ImageInfo::new(10, 10)));
        core.handle_message(AppMessage::ImageSelected("b.png".to_string()));
        core.on_decode_result(Ok(ImageInfo::new(20, 20)));
        assert_eq!(core.latest_generation, 2);
        core.handle_messages(order);
        assert_eq!(core.state, AppState::Completed);
        assert_eq!(core.ocr_result, Some(b_result.clone()));
    }
}

#[test]
fn stale_outcome_is_discarded() {
    let mut core = AppCore::new();
    core.handle_message(AppMessage::ImageSelected("a.png".to_string()));
    core.on_decode_result(Ok(ImageInfo::new(10, 10)));
    core.handle_message(AppMessage::ImageSelected("b.png".to_string()));
    core.on_decode_result(Ok(ImageInfo::new(20, 20)));
    // The outcome of the superseded first request changes nothing.
    core.handle_message(AppMessage::OcrError(1, "late failure".to_string()));
    assert_eq!(core.state, AppState::Processing);
    // An outcome after completion changes nothing either.
    core.handle_message(AppMessage::OcrCompleted(2, some_result()));
    assert_eq!(core.state, AppState::Completed);
    core.handle_message(AppMessage::OcrError(2, "echo".to_string()));
    assert_eq!(core.state, AppState::Completed);
}

#[test]
fn selection_supersedes_while_loading() {
    let mut core = AppCore::new();
    core.handle_message(AppMessage::ImageSelected("a.png".to_string()));
    core.handle_message(AppMessage::ImageSelected("b.png".to_string()));
    assert_eq!(core.state, AppState::Loading);
    assert_eq!(core.pending_decode(), Some("b.png".to_string()));
}

#[test]
fn outcome_in_idle_is_discarded() {
    let mut core = AppCore::new();
    core.handle_message(AppMessage::OcrCompleted(0, some_result()));
    assert_eq!(core.state, AppState::Idle);
    assert!(core.ocr_result.is_none());
}

#[test]
fn dispatcher_generations_increase() {
    let mut d = JobDispatcher::new();
    let j1 = d.dispatch(ImageInfo::new(1, 1), "a".to_string());
    let j2 = d.dispatch(ImageInfo::new(2, 2), "b".to_string());
    assert_eq!(j1.generation, 1);
    assert_eq!(j2.generation, 2);
    assert_eq!(d.next_generation, 3);
}

#[test]
fn job_yields_exactly_one_message() {
    let job = Job {
        generation: 5,
        image: ImageInfo::new(1, 1),
        source_path: "a".to_string(),
    };
    let m = job.into_message(Ok(some_result()));
    assert_eq!(m, AppMessage::OcrCompleted(5, some_result()));

    let job = Job {
        generation: 6,
        image: ImageInfo::new(1, 1),
        source_path: "a".to_string(),
    };
    let m = job.into_message(Err(EngineError::Backend("boom".to_string())));
    assert_eq!(m, AppMessage::OcrError(6, "boom".to_string()));
}

#[test]
fn run_job_reports_through_the_protocol() {
    let engine = OcrEngine::new();
    let mut core = AppCore::new();
    core.handle_message(AppMessage::ImageSelected("a.png".to_string()));
    let job = core.on_decode_result(Ok(ImageInfo::new(100, 100))).unwrap();
    let msg = run_job(&engine, job);
    core.handle_message(msg);
    assert_eq!(core.state, AppState::Completed);
    let result = core.ocr_result.unwrap();
    assert_eq!(result.confidence, 752);

    // Without a backend the same protocol reports the failure.
    let engine = OcrEngine::with_backends(None);
    let mut core = AppCore::new();
    core.handle_message(AppMessage::ImageSelected("a.png".to_string()));
    let job = core.on_decode_result(Ok(ImageInfo::new(100, 100))).unwrap();
    let msg = run_job(&engine, job);
    core.handle_message(msg);
    assert_eq!(
        core.state,
        AppState::Error("no OCR engine available; check the installed backends".to_string())
    );
}

#[test]
fn mailbox_drains_in_arrival_order() {
    let (tx, mut rx) = tokio::sync::mpsc::unbounded_channel::<AppMessage>();
    assert_eq!(drain_mailbox(&mut rx), Vec::new());
    tx.send(AppMessage::ImageSelected("a.png".to_string())).unwrap();
    tx.send(AppMessage::OcrError(1, "x".to_string())).unwrap();
    let msgs = drain_mailbox(&mut rx);
    assert_eq!(
        msgs,
        vec![
            AppMessage::ImageSelected("a.png".to_string()),
            AppMessage::OcrError(1, "x".to_string()),
        ]
    );
    assert_eq!(drain_mailbox(&mut rx), Vec::new());
}

#[test]
fn drained_messages_apply_in_order() {
    let (tx, mut rx) = tokio::sync::mpsc::unbounded_channel::<AppMessage>();
    let mut core = AppCore::new();
    core.handle_message(AppMessage::ImageSelected("a.png".to_string()));
    core.on_decode_result(Ok(ImageInfo::new(10, 10)));
    tx.send(AppMessage::OcrCompleted(1, some_result())).unwrap();
    tx.send(AppMessage::ImageSelected("b.png".to_string())).unwrap();
    core.handle_messages(drain_mailbox(&mut rx));
    // The completion arrived first, then a new selection superseded it.
    assert_eq!(core.state, AppState::Loading);
    assert!(core.ocr_result.is_none());
}
