use image_converter::errors::ServiceError;
use image_converter::format::{parse_format, extension, TargetFormat};
use image_converter::namer::{artifact_name, file_stem, generate_output_filepath};
use image_converter::resolver::{content_type_for, download_path, resolve_download};
use image_converter::response::{error_response_body, success_response_body};
use image_converter::task::TaskCounter;
use image_converter::text::{str_eq, u64_to_decimal};
use image_converter::upload::{allocate_for_upload, select_upload, task_step, TaskEvent, TaskState};

#[test]
fn str_eq_compares_by_characters() {
    assert!(str_eq("png", "png"));
    assert!(!str_eq("png", "pn"));
    assert!(!str_eq("png", "pngx"));
    assert!(!str_eq("png", "pnG"));
    assert!(str_eq("", ""));
}

#[test]
fn decimal_rendering_exact() {
    assert_eq!(u64_to_decimal(0).as_str(), "0");
    assert_eq!(u64_to_decimal(1).as_str(), "1");
    assert_eq!(u64_to_decimal(10).as_str(), "10");
    assert_eq!(u64_to_decimal(1234567890).as_str(), "1234567890");
    assert_eq!(u64_to_decimal(u64::MAX).as_str(), "18446744073709551615");
}

#[test]
fn parse_format_accepts_the_closed_set() {
    assert_eq!(parse_format("png"), Some(TargetFormat::Png));
    assert_eq!(parse_format("jpg"), Some(TargetFormat::Jpg));
    assert_eq!(parse_format("gif"), Some(TargetFormat::Gif));
    assert_eq!(parse_format("bmp"), Some(TargetFormat::Bmp));
    assert_eq!(parse_format("webp"), Some(TargetFormat::Webp));
    assert_eq!(parse_format("ico"), Some(TargetFormat::Ico));
    assert_eq!(parse_format("tiff"), Some(TargetFormat::Tiff));
}

#[test]
fn parse_format_rejects_everything_else() {
    assert_eq!(parse_format("exe"), None);
    assert_eq!(parse_format("jpeg"), None);
    assert_eq!(parse_format("PNG"), None);
    assert_eq!(parse_format(""), None);
    assert_eq!(parse_format("png "), None);
}

#[test]
fn extension_round_trips_through_parse() {
    for t in [
        TargetFormat::Png,
        TargetFormat::Jpg,
        TargetFormat::Gif,
        TargetFormat::Bmp,
        TargetFormat::Webp,
        TargetFormat::Ico,
        TargetFormat::Tiff,
    ] {
        assert_eq!(parse_format(extension(t)), Some(t));
    }
}

#[test]
fn file_stem_cuts_at_the_last_dot() {
    assert_eq!(file_stem("cat.png").unwrap().as_str(), "cat");
    assert_eq!(file_stem("archive.tar.gz").unwrap().as_str(), "archive.tar");
    assert_eq!(file_stem("noext").unwrap().as_str(), "noext");
    assert_eq!(file_stem("trailing.").unwrap().as_str(), "trailing");
    assert_eq!(file_stem(".gitignore").unwrap().as_str(), ".gitignore");
}

#[test]
fn file_stem_refuses_unusable_names() {
    assert!(file_stem("").is_none());
    assert!(file_stem(".").is_none());
    assert!(file_stem("..").is_none());
}

#[test]
fn artifact_name_embeds_stem_id_and_extension() {
    assert_eq!(artifact_name("cat.png", "jpg", 1).unwrap().as_str(), "cat_1.jpg");
    assert_eq!(artifact_name("logo.png", "ico", 1).unwrap().as_str(), "logo_1.ico");
    assert_eq!(artifact_name("a.b.c", "tiff", 42).unwrap().as_str(), "a.b_42.tiff");
    assert_eq!(artifact_name("plain", "png", 7).unwrap().as_str(), "plain_7.png");
}

#[test]
fn artifact_name_rejects_nameless_uploads() {
    assert!(matches!(artifact_name("", "png", 1), Err(ServiceError::InvalidName)));
    assert!(matches!(artifact_name(".", "png", 1), Err(ServiceError::InvalidName)));
}

#[test]
fn generate_output_filepath_joins_the_storage_root() {
    assert_eq!(
        generate_output_filepath("cat.png", "jpg", 1).unwrap().as_str(),
        "downloads/cat_1.jpg"
    );
    assert_eq!(
        generate_output_filepath("photo.jpeg", "webp", 310).unwrap().as_str(),
        "downloads/photo_310.webp"
    );
}

#[test]
fn artifact_names_differ_between_tasks() {
    let a = artifact_name("cat.png", "jpg", 1).unwrap();
    let b = artifact_name("cat.png", "jpg", 2).unwrap();
    assert_ne!(a.as_str(), b.as_str());
}

#[test]
fn counter_issues_contiguous_ids_from_one() {
    let mut c = TaskCounter::new();
    assert_eq!(c.next_id(), 1);
    assert_eq!(c.next_id(), 2);
    assert_eq!(c.next_id(), 3);
}

#[test]
fn fifty_requests_get_exactly_one_to_fifty() {
    let mut c = TaskCounter::new();
    let mut ids: Vec<i32> = Vec::new();
    for _ in 0..50 {
        ids.push(c.next_id());
    }
    let mut sorted = ids.clone();
    sorted.sort_unstable();
    sorted.dedup();
    assert_eq!(sorted.len(), 50);
    assert_eq!(sorted.first(), Some(&1));
    assert_eq!(sorted.last(), Some(&50));
}

#[test]
fn select_upload_takes_the_last_named_part() {
    let parts = vec![Some("a.png".to_string()), Some("b.png".to_string())];
    assert_eq!(select_upload(&parts).unwrap().as_str(), "b.png");
}

#[test]
fn select_upload_reports_an_empty_body() {
    let parts: Vec<Option<String>> = vec![];
    assert!(matches!(select_upload(&parts), Err(ServiceError::NoFileUploaded)));
}

#[test]
fn select_upload_fails_on_a_nameless_part() {
    let parts = vec![Some("a.png".to_string()), None, Some("b.png".to_string())];
    assert!(matches!(select_upload(&parts), Err(ServiceError::NoFilename)));
    let only_nameless: Vec<Option<String>> = vec![None];
    assert!(matches!(select_upload(&only_nameless), Err(ServiceError::NoFilename)));
}

#[test]
fn failed_upload_does_not_advance_the_allocator() {
    let mut c = TaskCounter::new();
    let bad: Vec<Option<String>> = vec![None];
    assert!(matches!(
        allocate_for_upload(&mut c, &bad),
        Err(ServiceError::NoFilename)
    ));
    let empty: Vec<Option<String>> = vec![];
    assert!(matches!(
        allocate_for_upload(&mut c, &empty),
        Err(ServiceError::NoFileUploaded)
    ));
    let good = vec![Some("cat.png".to_string())];
    let (name, id) = allocate_for_upload(&mut c, &good).unwrap();
    assert_eq!(name.as_str(), "cat.png");
    assert_eq!(id, 1);
}

#[test]
fn task_states_step_as_designed() {
    assert_eq!(
        task_step(TaskState::Created, TaskEvent::ChunkWritten),
        Some(TaskState::Uploading)
    );
    assert_eq!(
        task_step(TaskState::Uploading, TaskEvent::ChunkWritten),
        Some(TaskState::Uploading)
    );
    assert_eq!(
        task_step(TaskState::Uploading, TaskEvent::UploadFlushed),
        Some(TaskState::Converting)
    );
    assert_eq!(
        task_step(TaskState::Converting, TaskEvent::ConversionValidated),
        Some(TaskState::Ready)
    );
    assert_eq!(
        task_step(TaskState::Converting, TaskEvent::StepFailed),
        Some(TaskState::Failed)
    );
}

#[test]
fn terminal_task_states_absorb_every_event() {
    for s in [TaskState::Ready, TaskState::Failed] {
        for e in [
            TaskEvent::ChunkWritten,
            TaskEvent::UploadFlushed,
            TaskEvent::ConversionValidated,
            TaskEvent::StepFailed,
        ] {
            assert_eq!(task_step(s, e), None);
        }
    }
}

#[test]
fn download_resolution_reports_absence() {
    assert!(matches!(
        resolve_download("cat_1.jpg", false),
        Err(ServiceError::NotFound)
    ));
    assert_eq!(
        resolve_download("cat_1.jpg", true).unwrap().as_str(),
        "downloads/cat_1.jpg"
    );
    assert_eq!(download_path("x.png").as_str(), "downloads/x.png");
}

#[test]
fn content_types_follow_the_extension() {
    assert_eq!(content_type_for("cat_1.png"), "image/png");
    assert_eq!(content_type_for("cat_1.jpg"), "image/jpeg");
    assert_eq!(content_type_for("cat_1.gif"), "image/gif");
    assert_eq!(content_type_for("cat_1.bmp"), "image/bmp");
    assert_eq!(content_type_for("cat_1.webp"), "image/webp");
    assert_eq!(content_type_for("cat_1.ico"), "image/x-icon");
    assert_eq!(content_type_for("cat_1.tiff"), "image/tiff");
    assert_eq!(content_type_for("cat_1.xyz"), "application/octet-stream");
    assert_eq!(content_type_for("noext"), "application/octet-stream");
}

#[test]
fn success_body_matches_the_wire_format() {
    assert_eq!(
        success_response_body(1, "cat_1.jpg").as_str(),
        "{\"task_id\":1,\"converted_file\":\"/download/cat_1.jpg\"}"
    );
    assert_eq!(
        success_response_body(23, "a.b_23.tiff").as_str(),
        "{\"task_id\":23,\"converted_file\":\"/download/a.b_23.tiff\"}"
    );
}

#[test]
fn error_messages_and_statuses() {
    assert_eq!(
        ServiceError::NoFilename.message().as_str(),
        "No filename provided in the request"
    );
    assert_eq!(ServiceError::NoFilename.http_status(), 400);
    assert_eq!(ServiceError::NoFileUploaded.message().as_str(), "No file uploaded");
    assert_eq!(ServiceError::NoFileUploaded.http_status(), 400);
    assert_eq!(
        ServiceError::UnsupportedFormat.message().as_str(),
        "Unsupported output format"
    );
    assert_eq!(ServiceError::UnsupportedFormat.http_status(), 400);
    assert_eq!(ServiceError::NotFound.message().as_str(), "File not found");
    assert_eq!(ServiceError::NotFound.http_status(), 404);
    assert_eq!(
        ServiceError::Decode("bad header".to_string()).message().as_str(),
        "Failed to decode image: bad header"
    );
    assert_eq!(ServiceError::Decode("x".to_string()).http_status(), 500);
    assert_eq!(
        ServiceError::Encode("no codec".to_string()).message().as_str(),
        "Image conversion failed: no codec"
    );
    assert_eq!(ServiceError::Encode("x".to_string()).http_status(), 500);
    assert_eq!(
        ServiceError::Validation("torn file".to_string()).message().as_str(),
        "Failed to reopen output image: torn file"
    );
    assert_eq!(ServiceError::Validation("x".to_string()).http_status(), 500);
    assert_eq!(ServiceError::InvalidName.http_status(), 500);
}

#[test]
fn error_bodies_prefix_engine_failures() {
    assert_eq!(
        error_response_body(&ServiceError::Decode("bad".to_string())).as_str(),
        "Conversion failed: Failed to decode image: bad"
    );
    assert_eq!(
        error_response_body(&ServiceError::NotFound).as_str(),
        "File not found"
    );
    assert_eq!(
        error_response_body(&ServiceError::NoFilename).as_str(),
        "No filename provided in the request"
    );
}
