use segmentation::task::{
    classify_failure, log_task, processing_message, record_failure, segmenting_message,
    set_preprocess_result, Status, TaskRecord,
};

fn fresh_task() -> TaskRecord {
    TaskRecord {
        status: Status::Starting,
        message: String::new(),
        finished_at: None,
        pdf_location: String::new(),
        page_count: 0,
        input_file_type: String::new(),
        file_name: "report.docx".to_string(),
    }
}

#[test]
fn failures_before_the_last_attempt_leave_the_task_processing() {
    let mut task = fresh_task();
    log_task(&mut task, Status::Processing, Some(processing_message(1, 3)), None);
    assert!(!record_failure(&mut task, 1, 3, "storage timed out"));
    assert_eq!(task.status, Status::Processing);
    assert_eq!(task.message, "Task processing | Tries (1/3)");
    assert_eq!(task.finished_at, None);

    log_task(&mut task, Status::Processing, Some(processing_message(2, 3)), None);
    assert!(!record_failure(&mut task, 2, 3, "storage timed out"));
    assert_eq!(task.status, Status::Processing);
    assert_eq!(task.message, "Task processing | Tries (2/3)");
    assert_eq!(task.finished_at, None);
}

#[test]
fn the_final_attempt_marks_the_task_failed_with_a_finish_time() {
    let mut task = fresh_task();
    log_task(&mut task, Status::Processing, Some(processing_message(3, 3)), None);
    assert!(record_failure(&mut task, 3, 3, "storage timed out"));
    assert_eq!(task.status, Status::Failed);
    assert_eq!(task.message, "Task failed");
    assert!(task.finished_at.is_some());
}

#[test]
fn usage_limit_errors_are_called_out_in_the_failed_record() {
    let mut task = fresh_task();
    log_task(&mut task, Status::Processing, None, None);
    assert!(record_failure(&mut task, 3, 3, "model said: USAGE LIMIT EXCEEDED, try later"));
    assert_eq!(task.status, Status::Failed);
    assert_eq!(task.message, "Task failed: Usage limit exceeded");
    assert!(task.finished_at.is_some());
}

#[test]
fn failure_classification_is_case_insensitive() {
    assert_eq!(classify_failure("Usage Limit Exceeded"), "Task failed: Usage limit exceeded");
    assert_eq!(
        classify_failure("err: usage limit exceeded (org 7)"),
        "Task failed: Usage limit exceeded"
    );
    assert_eq!(classify_failure("usage limit nearly exceeded"), "Task failed");
    assert_eq!(classify_failure("disk full"), "Task failed");
    assert_eq!(classify_failure(""), "Task failed");
}

#[test]
fn progress_messages_have_the_exact_wording() {
    assert_eq!(processing_message(1, 3), "Task processing | Tries (1/3)");
    assert_eq!(processing_message(12, 20), "Task processing | Tries (12/20)");
    assert_eq!(segmenting_message(1, 3), "Segmenting | Batch 1 of 3");
    assert_eq!(segmenting_message(3, 3), "Segmenting | Batch 3 of 3");
    assert_eq!(segmenting_message(1, 1), "Segmenting");
}

#[test]
fn a_message_free_update_stores_the_empty_message() {
    let mut task = fresh_task();
    log_task(&mut task, Status::Processing, None, None);
    assert_eq!(task.message, "");
    assert_eq!(task.status, Status::Processing);
}

#[test]
fn preprocess_result_is_persisted_in_one_update() {
    let mut task = fresh_task();
    log_task(&mut task, Status::Processing, None, None);
    set_preprocess_result(
        &mut task,
        "s3://bucket/u/t/report.docx.pdf".to_string(),
        7,
        "docx".to_string(),
    );
    assert_eq!(task.pdf_location, "s3://bucket/u/t/report.docx.pdf");
    assert_eq!(task.page_count, 7);
    assert_eq!(task.input_file_type, "docx");
    assert_eq!(task.status, Status::Processing);
    assert_eq!(task.finished_at, None);
}
