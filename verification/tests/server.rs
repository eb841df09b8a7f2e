use media_server::config::settings::Settings;
use media_server::db::models::{MediaFile, MediaType};
use media_server::processing::worker::WorkerState;
use media_server::server::auth::{
    auth_decision, login_outcome, AuthDecision, LoginOutcome, SESSION_COOKIE_NAME,
    SESSION_COOKIE_VALUE,
};
use media_server::server::filters::{round, urlencode};
use media_server::server::hls::{
    master_playlist, segment_listed, segment_name, segment_wait_step, transcode_args,
    vod_playlist, SegmentWait,
};
use media_server::server::routes::{
    apply_config_update, config_page, index_page, view_page_for, ConfigUpdate, MediaPage,
};
use media_server::server::screenshot::{cache_name, frame_args, frame_usable};

fn with_password(p: &str) -> Settings {
    let mut s = Settings::default();
    s.optional_password = Some(p.to_string());
    s
}

fn file(media_type: MediaType) -> MediaFile {
    MediaFile {
        id: 1,
        path: "p".to_string(),
        media_type,
        size_bytes: 0,
        thumbnail_path: None,
        vtt_path: None,
        process_status: "completed".to_string(),
        last_modified: 0,
    }
}

#[test]
fn no_password_lets_everything_through() {
    let s = Settings::default();
    assert_eq!(auth_decision(&s, "/", None), AuthDecision::Allow);
    assert_eq!(auth_decision(&s, "/config", Some("nope")), AuthDecision::Allow);
    assert_eq!(login_outcome(&s, ""), LoginOutcome::Rejected);
}

#[test]
fn password_protects_pages() {
    let s = with_password("secret");
    assert_eq!(auth_decision(&s, "/", None), AuthDecision::RedirectToLogin);
    assert_eq!(auth_decision(&s, "/view/3", Some("guess")), AuthDecision::RedirectToLogin);
    assert_eq!(auth_decision(&s, "/login", None), AuthDecision::Allow);
    assert_eq!(auth_decision(&s, "/login/", None), AuthDecision::RedirectToLogin);
    assert_eq!(auth_decision(&s, "/", Some(SESSION_COOKIE_VALUE)), AuthDecision::Allow);
    assert_eq!(SESSION_COOKIE_NAME, "auth_session");
    assert_eq!(SESSION_COOKIE_VALUE, "authenticated");
}

#[test]
fn login_checks_the_password() {
    let s = with_password("secret");
    assert_eq!(login_outcome(&s, "secret"), LoginOutcome::Accepted);
    assert_eq!(login_outcome(&s, "Secret"), LoginOutcome::Rejected);
    assert_eq!(login_outcome(&s, ""), LoginOutcome::Rejected);
    let empty = with_password("");
    assert_eq!(login_outcome(&empty, ""), LoginOutcome::Accepted);
}

#[test]
fn accepted_login_opens_every_page() {
    let s = with_password("pw");
    assert_eq!(login_outcome(&s, "pw"), LoginOutcome::Accepted);
    for path in ["/", "/config", "/hls/1/master.m3u8"] {
        assert_eq!(auth_decision(&s, path, Some(SESSION_COOKIE_VALUE)), AuthDecision::Allow);
    }
}

#[test]
fn settings_form_updates_settings() {
    let s = with_password("pw");
    let updated = apply_config_update(
        s,
        ConfigUpdate {
            server_port: 9000,
            thumbnail_size: 200,
            thumbnail_quality: 5,
            generate_timeline_thumbnails: Some("on".to_string()),
        },
    );
    assert_eq!(updated.server_port, 9000);
    assert_eq!(updated.thumbnail_size, 200);
    assert_eq!(updated.thumbnail_quality, 5);
    assert!(updated.generate_timeline_thumbnails);
    assert_eq!(updated.optional_password.as_deref(), Some("pw"));
    assert_eq!(updated.media_directory, "./media");
    let off = apply_config_update(
        updated,
        ConfigUpdate { server_port: 1, thumbnail_size: 2, thumbnail_quality: 3, generate_timeline_thumbnails: None },
    );
    assert!(!off.generate_timeline_thumbnails);
}

#[test]
fn pages() {
    let page = index_page(vec![file(MediaType::Image)], None, None);
    assert_eq!(page.search_query, "");
    assert_eq!(page.sort_order, "last_modified_desc");
    assert_eq!(page.files.len(), 1);
    let page = index_page(vec![], Some("cat".to_string()), Some("size_asc".to_string()));
    assert_eq!(page.search_query, "cat");
    assert_eq!(page.sort_order, "size_asc");
    assert!(matches!(view_page_for(file(MediaType::Video)), MediaPage::Video(_)));
    assert!(matches!(view_page_for(file(MediaType::Image)), MediaPage::Other(_)));
    assert!(matches!(view_page_for(file(MediaType::Unknown)), MediaPage::Other(_)));
    let w = WorkerState { pending_count: 4, processing_count: 1, completed_count: 7, failed_count: 2 };
    let c = config_page(Settings::default(), &w);
    assert_eq!(
        (c.worker_state.pending_count, c.worker_state.processing_count, c.worker_state.completed_count, c.worker_state.failed_count),
        (4, 1, 7, 2)
    );
}

#[test]
fn url_encoding_keeps_slashes() {
    assert_eq!(urlencode(".app_data/thumbnails/12.jpg").unwrap(), ".app_data/thumbnails/12.jpg");
    assert_eq!(urlencode("my videos/a b&c.mp4").unwrap(), "my%20videos/a%20b%26c.mp4");
    assert_eq!(urlencode("/abs//x/").unwrap(), "/abs//x/");
    assert_eq!(urlencode("é/ü").unwrap(), "%C3%A9/%C3%BC");
    assert_eq!(urlencode("").unwrap(), "");
    assert_eq!(urlencode("~a-b_c.d").unwrap(), "~a-b_c.d");
    assert_eq!(urlencode("a?b=c#d").unwrap(), "a%3Fb%3Dc%23d");
}

#[test]
fn round_keeps_the_value() {
    assert_eq!(round(-17).unwrap(), -17);
    assert_eq!(round(i64::MAX).unwrap(), i64::MAX);
}

#[test]
fn master_playlist_points_at_media_playlist() {
    assert_eq!(
        master_playlist(42),
        "#EXTM3U\n#EXT-X-STREAM-INF:PROGRAM-ID=1,BANDWIDTH=2000000\n/hls/42/playlist.m3u8\n"
    );
}

#[test]
fn vod_playlist_lists_segments() {
    let durations = vec!["10.000000".to_string(), "10.000000".to_string(), "3.500000".to_string()];
    let expected = "#EXTM3U\n#EXT-X-VERSION:3\n#EXT-X-TARGETDURATION:10\n#EXT-X-MEDIA-SEQUENCE:0\n#EXT-X-PLAYLIST-TYPE:VOD\n\
#EXTINF:10.000000,\n/hls/5/segment_000.ts\n\
#EXTINF:10.000000,\n/hls/5/segment_001.ts\n\
#EXTINF:3.500000,\n/hls/5/segment_002.ts\n\
#EXT-X-ENDLIST\n";
    assert_eq!(vod_playlist(5, &durations), expected);
    assert_eq!(
        vod_playlist(5, &vec![]),
        "#EXTM3U\n#EXT-X-VERSION:3\n#EXT-X-TARGETDURATION:10\n#EXT-X-MEDIA-SEQUENCE:0\n#EXT-X-PLAYLIST-TYPE:VOD\n#EXT-X-ENDLIST\n"
    );
}

#[test]
fn segment_names() {
    assert_eq!(segment_name(0), "segment_000.ts");
    assert_eq!(segment_name(42), "segment_042.ts");
    assert_eq!(segment_name(1234), "segment_1234.ts");
}

#[test]
fn waiting_for_segments() {
    assert!(segment_listed(Some("#EXTM3U\nsegment_000.ts\n"), "segment_000.ts"));
    assert!(!segment_listed(Some("#EXTM3U\nsegment_000.ts\n"), "segment_001.ts"));
    assert!(!segment_listed(None, "segment_000.ts"));
    assert_eq!(segment_wait_step(0, true), SegmentWait::Serve);
    assert_eq!(segment_wait_step(0, false), SegmentWait::SleepThenCheck);
    assert_eq!(segment_wait_step(148, false), SegmentWait::SleepThenCheck);
    assert_eq!(segment_wait_step(149, false), SegmentWait::SleepThenServe);
    assert_eq!(segment_wait_step(149, true), SegmentWait::Serve);
}

#[test]
fn transcoder_arguments() {
    let args = transcode_args("v.mkv", "d/segment_%03d.ts", "d/ffmpeg.m3u8");
    assert_eq!(args.len(), 19);
    assert_eq!(args[1], "v.mkv");
    assert_eq!(args[15], "expr:gte(t,n_forced*10)");
    assert_eq!(args[17], "d/segment_%03d.ts");
    assert_eq!(args[18], "d/ffmpeg.m3u8");
}

#[test]
fn screenshots() {
    assert_eq!(cache_name(12), "12.jpg");
    assert_eq!(cache_name(0), "0.jpg");
    assert_eq!(
        frame_args("3.500", "v.mp4"),
        vec!["-ss", "3.500", "-i", "v.mp4", "-vframes", "1", "-f", "image2", "-vcodec", "mjpeg", "-q:v", "2", "pipe:1"]
    );
    assert!(frame_usable(true, 10));
    assert!(!frame_usable(true, 0));
    assert!(!frame_usable(false, 10));
}
