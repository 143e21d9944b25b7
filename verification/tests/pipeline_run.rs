use segmentation::payload::{make_ocr_payload, ExtractionPayload, QueuePayload};
use segmentation::pipeline::{Action, Event, Pipeline, Stage};
use segmentation::segment::Segment;

fn seg(page: u32, body: &str) -> Segment {
    Segment { page_number: page, body: body.to_string() }
}

fn batch_events_for_seven_pages() -> Vec<Event> {
    vec![
        Event::BatchSegmented { batch: vec![seg(0, "p0"), seg(1, "p1"), seg(2, "p2")] },
        Event::BatchSegmented { batch: vec![seg(0, "p3"), seg(1, "p4"), seg(2, "p5")] },
        Event::BatchSegmented { batch: vec![seg(0, "p6")] },
    ]
}

#[test]
fn a_seven_page_document_runs_end_to_end() {
    let delivery = QueuePayload {
        payload: ExtractionPayload {
            task_id: "task-7".to_string(),
            user_id: "user-7".to_string(),
            input_location: "s3://in/seven.pdf".to_string(),
            output_location: "s3://out/seven.json".to_string(),
            batch_size: Some(3),
            model: "default".to_string(),
        },
        attempt: 1,
        max_attempts: 3,
        item_id: "item-1".to_string(),
        queue_name: "segmentation".to_string(),
    };
    let mut p = Pipeline::new(delivery.attempt, delivery.max_attempts, delivery.payload.batch_size);
    assert_eq!(p.stage, Stage::Received);

    let actions = segmentation::pipeline::step(&mut p, Event::Started);
    assert_eq!(actions.len(), 2);
    match &actions[0] {
        Action::MarkProcessing { message } => {
            assert_eq!(message, "Task processing | Tries (1/3)")
        },
        other => panic!("unexpected action {other:?}"),
    }
    assert!(matches!(actions[1], Action::RunPreprocess));

    let actions = segmentation::pipeline::step(
        &mut p,
        Event::Preprocessed {
            pdf_path: "/tmp/task/normalized.pdf".to_string(),
            temp_paths: vec!["/tmp/task/input.docx".to_string(), "/tmp/task/normalized.pdf".to_string()],
        },
    );
    assert_eq!(actions.len(), 1);
    match &actions[0] {
        Action::RunSplit { pdf_path, batch_size } => {
            assert_eq!(pdf_path, "/tmp/task/normalized.pdf");
            assert_eq!(*batch_size, Some(3));
        },
        other => panic!("unexpected action {other:?}"),
    }

    let batch_paths = vec!["/tmp/split/0.pdf", "/tmp/split/1.pdf", "/tmp/split/2.pdf"];
    let actions = segmentation::pipeline::step(
        &mut p,
        Event::Split {
            batch_paths: batch_paths.iter().map(|s| s.to_string()).collect(),
            temp_paths: batch_paths.iter().map(|s| s.to_string()).collect(),
        },
    );
    match &actions[0] {
        Action::SegmentBatch { path, message } => {
            assert_eq!(path, "/tmp/split/0.pdf");
            assert_eq!(message, "Segmenting | Batch 1 of 3");
        },
        other => panic!("unexpected action {other:?}"),
    }

    // The model answers three times; each answer asks for the next batch,
    // the last one asks for the upload.
    let mut model_calls = 0;
    for (i, event) in batch_events_for_seven_pages().into_iter().enumerate() {
        let actions = segmentation::pipeline::step(&mut p, event);
        model_calls += 1;
        assert_eq!(actions.len(), 1);
        if i < 2 {
            match &actions[0] {
                Action::SegmentBatch { path, message } => {
                    assert_eq!(path, batch_paths[i + 1]);
                    assert_eq!(*message, format!("Segmenting | Batch {} of 3", i + 2));
                },
                other => panic!("unexpected action {other:?}"),
            }
        } else {
            assert!(matches!(actions[0], Action::UploadResult));
        }
    }
    assert_eq!(model_calls, 3);

    // The aggregated list spans pages 0..=6 in order.
    let pages: Vec<u32> = p.segments.iter().map(|s| s.page_number).collect();
    assert_eq!(pages, vec![0, 1, 2, 3, 4, 5, 6]);

    let actions = segmentation::pipeline::step(&mut p, Event::Uploaded);
    assert_eq!(actions.len(), 2);
    match &actions[0] {
        Action::RemoveFiles { paths } => {
            assert_eq!(paths.len(), 5);
            assert_eq!(paths[0], "/tmp/task/input.docx");
        },
        other => panic!("unexpected action {other:?}"),
    }
    assert!(matches!(actions[1], Action::PublishDownstream));
    assert!(p.temp_files.is_empty());

    let actions = segmentation::pipeline::step(&mut p, Event::Published);
    assert!(actions.is_empty());
    assert_eq!(p.stage, Stage::Done);
    assert!(p.temp_files.is_empty());
}

#[test]
fn a_failure_cleans_up_and_marks_failed_only_on_the_last_attempt() {
    // Attempt 1 of 3: abort, clean up, but no Failed record.
    let mut p = Pipeline::new(1, 3, None);
    segmentation::pipeline::step(&mut p, Event::Started);
    let actions = segmentation::pipeline::step(
        &mut p,
        Event::Preprocessed {
            pdf_path: "/tmp/a.pdf".to_string(),
            temp_paths: vec!["/tmp/a.pdf".to_string(), "/tmp/b.tmp".to_string()],
        },
    );
    assert_eq!(actions.len(), 1);
    let actions = segmentation::pipeline::step(
        &mut p,
        Event::Failed { error_text: "split failed: unreadable page tree".to_string() },
    );
    assert_eq!(p.stage, Stage::Aborted);
    assert!(p.temp_files.is_empty());
    assert_eq!(actions.len(), 1);
    match &actions[0] {
        Action::RemoveFiles { paths } => {
            assert_eq!(paths, &vec!["/tmp/a.pdf".to_string(), "/tmp/b.tmp".to_string()])
        },
        other => panic!("unexpected action {other:?}"),
    }

    // Attempt 3 of 3: abort, clean up, and record the failure.
    let mut p = Pipeline::new(3, 3, None);
    segmentation::pipeline::step(&mut p, Event::Started);
    segmentation::pipeline::step(
        &mut p,
        Event::Preprocessed {
            pdf_path: "/tmp/a.pdf".to_string(),
            temp_paths: vec!["/tmp/a.pdf".to_string()],
        },
    );
    let actions = segmentation::pipeline::step(
        &mut p,
        Event::Failed { error_text: "model: usage limit exceeded".to_string() },
    );
    assert_eq!(p.stage, Stage::Aborted);
    assert!(p.temp_files.is_empty());
    assert_eq!(actions.len(), 2);
    assert!(matches!(&actions[0], Action::RemoveFiles { paths } if paths.len() == 1));
    match &actions[1] {
        Action::MarkFailed { message } => {
            assert_eq!(message, "Task failed: Usage limit exceeded")
        },
        other => panic!("unexpected action {other:?}"),
    }
}

#[test]
fn success_and_failure_paths_both_leave_no_temporary_files() {
    // Success path.
    let mut p = Pipeline::new(1, 3, None);
    segmentation::pipeline::step(&mut p, Event::Started);
    segmentation::pipeline::step(
        &mut p,
        Event::Preprocessed {
            pdf_path: "x.pdf".to_string(),
            temp_paths: vec!["x.pdf".to_string()],
        },
    );
    segmentation::pipeline::step(
        &mut p,
        Event::Split { batch_paths: vec!["x.pdf".to_string()], temp_paths: vec![] },
    );
    segmentation::pipeline::step(&mut p, Event::BatchSegmented { batch: vec![seg(0, "s")] });
    segmentation::pipeline::step(&mut p, Event::Uploaded);
    segmentation::pipeline::step(&mut p, Event::Published);
    assert_eq!(p.stage, Stage::Done);
    assert!(p.temp_files.is_empty());

    // Failure path, straight from segmenting.
    let mut p = Pipeline::new(1, 3, None);
    segmentation::pipeline::step(&mut p, Event::Started);
    segmentation::pipeline::step(
        &mut p,
        Event::Preprocessed {
            pdf_path: "x.pdf".to_string(),
            temp_paths: vec!["x.pdf".to_string()],
        },
    );
    segmentation::pipeline::step(
        &mut p,
        Event::Split { batch_paths: vec!["x.pdf".to_string()], temp_paths: vec!["y".to_string()] },
    );
    segmentation::pipeline::step(&mut p, Event::Failed { error_text: "boom".to_string() });
    assert_eq!(p.stage, Stage::Aborted);
    assert!(p.temp_files.is_empty());
}

#[test]
fn the_single_batch_run_reports_plain_segmenting() {
    let mut p = Pipeline::new(1, 1, None);
    segmentation::pipeline::step(&mut p, Event::Started);
    segmentation::pipeline::step(
        &mut p,
        Event::Preprocessed { pdf_path: "d.pdf".to_string(), temp_paths: vec![] },
    );
    let actions = segmentation::pipeline::step(
        &mut p,
        Event::Split { batch_paths: vec!["d.pdf".to_string()], temp_paths: vec![] },
    );
    match &actions[0] {
        Action::SegmentBatch { message, .. } => assert_eq!(message, "Segmenting"),
        other => panic!("unexpected action {other:?}"),
    }
    // The single batch keeps its page numbers.
    segmentation::pipeline::step(
        &mut p,
        Event::BatchSegmented { batch: vec![seg(0, "a"), seg(3, "b")] },
    );
    let pages: Vec<u32> = p.segments.iter().map(|s| s.page_number).collect();
    assert_eq!(pages, vec![0, 3]);
}

#[test]
fn the_downstream_message_carries_the_payload_unchanged() {
    let payload = ExtractionPayload {
        task_id: "task-1".to_string(),
        user_id: "user-1".to_string(),
        input_location: "s3://in/report.docx".to_string(),
        output_location: "s3://out/segments.json".to_string(),
        batch_size: Some(3),
        model: "default".to_string(),
    };
    let produced = make_ocr_payload(payload, Some("ocr-queue".to_string())).unwrap();
    assert_eq!(produced.queue_name, "ocr-queue");
    assert_eq!(produced.payload.task_id, "task-1");
    assert_eq!(produced.payload.user_id, "user-1");
    assert_eq!(produced.payload.input_location, "s3://in/report.docx");
    assert_eq!(produced.payload.output_location, "s3://out/segments.json");
    assert_eq!(produced.payload.batch_size, Some(3));
    assert_eq!(produced.payload.model, "default");
    assert_eq!(produced.publish_channel, None);
    assert_eq!(produced.max_attempts, None);
    assert_eq!(produced.item_id.len(), 36);
}

#[test]
fn a_missing_downstream_queue_is_a_publish_failure() {
    let payload = ExtractionPayload {
        task_id: "t".to_string(),
        user_id: "u".to_string(),
        input_location: "a.pdf".to_string(),
        output_location: "b.json".to_string(),
        batch_size: None,
        model: "default".to_string(),
    };
    assert_eq!(
        make_ocr_payload(payload, None).unwrap_err(),
        segmentation::error::PipelineError::PublishFailed
    );
}
