use media_server::config::settings::Settings;
use media_server::db::models::{MediaFile, MediaType};
use media_server::processing::ffmpeg::{
    format_timestamp, probe_duration_args, sprite_args, sprite_filter, thumbnail_args,
    thumbnail_scale_filter, vtt_document, TimeParts,
};
use media_server::processing::worker::{Job, JobAction, JobEvent, JobStage, WorkerState};

fn t(hours: u32, minutes: u32, seconds: u32, millis: u32) -> TimeParts {
    TimeParts { hours, minutes, seconds, millis }
}

fn file(id: i64, media_type: MediaType) -> MediaFile {
    MediaFile {
        id,
        path: "/media/x".to_string(),
        media_type,
        size_bytes: 1,
        thumbnail_path: None,
        vtt_path: None,
        process_status: "pending".to_string(),
        last_modified: 0,
    }
}

fn status(a: &JobAction) -> Option<&str> {
    match a {
        JobAction::SetStatus(s) => Some(s.as_str()),
        _ => None,
    }
}

#[test]
fn timestamps_are_zero_padded() {
    assert_eq!(format_timestamp(t(0, 0, 5, 0)), "00:00:05.000");
    assert_eq!(format_timestamp(t(1, 2, 3, 45)), "01:02:03.045");
    assert_eq!(format_timestamp(t(123, 59, 59, 999)), "123:59:59.999");
}

#[test]
fn vtt_cues_walk_the_tile_grid() {
    let mut cues = Vec::new();
    for i in 0..12u32 {
        cues.push((t(0, 0, 5 * i, 0), t(0, 0, 5 * i + 5, 0)));
    }
    let doc = vtt_document("7_sprite.jpg", &cues, 160, 90);
    assert!(doc.starts_with("WEBVTT\n\n00:00:00.000 --> 00:00:05.000\n7_sprite.jpg#xywh=0,0,160,90\n\n"));
    assert!(doc.contains("00:00:45.000 --> 00:00:50.000\n7_sprite.jpg#xywh=1440,0,160,90\n\n"));
    assert!(doc.ends_with("00:00:55.000 --> 00:00:60.000\n7_sprite.jpg#xywh=160,90,160,90\n\n"));
    assert_eq!(doc.matches("#xywh=").count(), 12);
    assert_eq!(vtt_document("s.jpg", &Vec::new(), 160, 90), "WEBVTT\n\n");
}

#[test]
fn thumbnail_arguments() {
    let image = thumbnail_args("in.png", "out.jpg", false, None, 320, 60);
    assert_eq!(
        image,
        vec![
            "-i", "in.png", "-vframes", "1", "-vf",
            "scale='min(320,iw)':'min(320,ih)':force_original_aspect_ratio=decrease",
            "-q:v", "60", "-y", "out.jpg",
        ]
    );
    let video = thumbnail_args("in.mp4", "out.jpg", true, Some("1.234"), 160, 2);
    assert_eq!(&video[..2], &["-ss".to_string(), "1.234".to_string()]);
    assert_eq!(video[8], "-q:v");
    assert_eq!(video[9], "2");
    let no_duration = thumbnail_args("in.mp4", "out.jpg", true, None, 160, 2);
    assert_eq!(&no_duration[..2], &["-ss".to_string(), "00:00:01".to_string()]);
    assert_eq!(
        thumbnail_scale_filter(64),
        "scale='min(64,iw)':'min(64,ih)':force_original_aspect_ratio=decrease"
    );
}

#[test]
fn probe_and_sprite_arguments() {
    assert_eq!(
        probe_duration_args("a b.mp4"),
        vec![
            "-v", "error", "-show_entries", "format=duration", "-of",
            "default=noprint_wrappers=1:nokey=1", "a b.mp4",
        ]
    );
    assert_eq!(sprite_filter("5", 160, 3), "fps=1/5,scale=160:-1,tile=10x3");
    assert_eq!(sprite_args("i", "f", "o"), vec!["-i", "i", "-vf", "f", "-y", "o"]);
}

#[test]
fn worker_counters() {
    let mut s = WorkerState { pending_count: 0, processing_count: 0, completed_count: 0, failed_count: 0 };
    s.begin_round(2);
    assert_eq!(s.pending_count, 2);
    s.start_file();
    assert_eq!((s.pending_count, s.processing_count), (1, 1));
    s.finish_file(true);
    assert_eq!((s.processing_count, s.completed_count, s.failed_count), (0, 1, 0));
    s.start_file();
    s.finish_file(false);
    assert_eq!((s.pending_count, s.processing_count, s.completed_count, s.failed_count), (0, 0, 1, 1));
    // Counters never go below zero.
    s.start_file();
    assert_eq!(s.pending_count, 0);
    s.finish_file(true);
    s.finish_file(true);
    assert_eq!(s.processing_count, 0);
    assert_eq!(s.completed_count, 3);
    s.begin_round(usize::MAX);
    assert_eq!(s.pending_count, u32::MAX);
}

#[test]
fn image_job_goes_straight_to_its_thumbnail() {
    let settings = Settings::default();
    let (job, actions) = Job::start(&file(5, MediaType::Image), &settings);
    assert_eq!(job.stage, JobStage::Thumbnailing { duration_known: false });
    assert_eq!(actions.len(), 2);
    assert_eq!(status(&actions[0]), Some("processing"));
    match &actions[1] {
        JobAction::GenerateThumbnail { file_name, is_video, with_duration, size, quality } => {
            assert_eq!(file_name, "5.jpg");
            assert!(!is_video && !with_duration);
            assert_eq!((*size, *quality), (320, 60));
        }
        other => panic!("unexpected {:?}", other),
    }
    let (job, actions) = job.step(JobEvent::ThumbnailDone { ok: true });
    assert_eq!(job.stage, JobStage::Finished { succeeded: true });
    assert!(matches!(&actions[0], JobAction::RecordThumbnail { file_name } if file_name == "5.jpg"));
    assert_eq!(status(&actions[1]), Some("completed"));
}

#[test]
fn video_job_with_timeline() {
    let mut settings = Settings::default();
    settings.generate_timeline_thumbnails = true;
    let (job, actions) = Job::start(&file(-3, MediaType::Video), &settings);
    assert_eq!(job.stage, JobStage::Probing);
    assert!(matches!(actions[1], JobAction::ProbeDuration));
    let (job, actions) = job.step(JobEvent::DurationProbed { known: true });
    assert!(matches!(&actions[0], JobAction::GenerateThumbnail { file_name, with_duration: true, is_video: true, .. } if file_name == "-3.jpg"));
    let (job, actions) = job.step(JobEvent::ThumbnailDone { ok: true });
    assert_eq!(job.stage, JobStage::Spriting);
    match &actions[1] {
        JobAction::GenerateSprite { image_name, cue_name, tile_size } => {
            assert_eq!(image_name, "-3_sprite.jpg");
            assert_eq!(cue_name, "-3.vtt");
            assert_eq!(*tile_size, 160);
        }
        other => panic!("unexpected {:?}", other),
    }
    let (done, actions) = job.step(JobEvent::SpriteDone { ok: true });
    assert_eq!(done.stage, JobStage::Finished { succeeded: true });
    assert!(matches!(&actions[0], JobAction::RecordCues { file_name } if file_name == "-3.vtt"));
    assert_eq!(status(&actions[1]), Some("completed"));
    let (done, actions) = job.step(JobEvent::SpriteDone { ok: false });
    assert_eq!(done.stage, JobStage::Finished { succeeded: true });
    assert_eq!(actions.len(), 1);
    assert_eq!(status(&actions[0]), Some("completed"));
}

#[test]
fn video_job_without_duration_skips_the_timeline() {
    let mut settings = Settings::default();
    settings.generate_timeline_thumbnails = true;
    let (job, _) = Job::start(&file(1, MediaType::Video), &settings);
    let (job, _) = job.step(JobEvent::DurationProbed { known: false });
    let (job, actions) = job.step(JobEvent::ThumbnailDone { ok: true });
    assert_eq!(job.stage, JobStage::Finished { succeeded: true });
    assert_eq!(status(&actions[1]), Some("completed"));
}

#[test]
fn failed_thumbnail_fails_the_job() {
    let settings = Settings::default();
    let (job, _) = Job::start(&file(9, MediaType::Video), &settings);
    let (job, _) = job.step(JobEvent::DurationProbed { known: true });
    let (job, actions) = job.step(JobEvent::ThumbnailDone { ok: false });
    assert_eq!(job.stage, JobStage::Finished { succeeded: false });
    assert_eq!(actions.len(), 1);
    assert_eq!(status(&actions[0]), Some("failed"));
}

#[test]
fn a_round_of_files() {
    let mut s = WorkerState { pending_count: 9, processing_count: 2, completed_count: 5, failed_count: 1 };
    let outcomes = [true, false, true, true];
    s.begin_round(outcomes.len());
    assert_eq!(s.pending_count, 4);
    for ok in outcomes {
        s.start_file();
        s.finish_file(ok);
    }
    assert_eq!(s.pending_count, 0);
    assert_eq!(s.processing_count, 2);
    assert_eq!(s.completed_count, 8);
    assert_eq!(s.failed_count, 2);
}
