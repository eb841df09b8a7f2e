use media_server::config::settings::Settings;
use media_server::db::models::MediaType;
use media_server::db::queries::{
    blank, char_is_whitespace, media_by_id_sql, media_file_from_row, pending_media_sql, search_query,
    search_query_given, SELECT_MEDIA,
};

#[test]
fn extension_classification_ignores_case() {
    assert_eq!(MediaType::from_extension("mp4"), MediaType::Video);
    assert_eq!(MediaType::from_extension("MKV"), MediaType::Video);
    assert_eq!(MediaType::from_extension("AvI"), MediaType::Video);
    assert_eq!(MediaType::from_extension("mov"), MediaType::Video);
    assert_eq!(MediaType::from_extension("WebM"), MediaType::Video);
    assert_eq!(MediaType::from_extension("JPG"), MediaType::Image);
    assert_eq!(MediaType::from_extension("jpeg"), MediaType::Image);
    assert_eq!(MediaType::from_extension("png"), MediaType::Image);
    assert_eq!(MediaType::from_extension("GIF"), MediaType::Image);
    assert_eq!(MediaType::from_extension("webp"), MediaType::Image);
    assert_eq!(MediaType::from_extension("txt"), MediaType::Unknown);
    assert_eq!(MediaType::from_extension(""), MediaType::Unknown);
    assert_eq!(MediaType::from_extension("mp44"), MediaType::Unknown);
}

#[test]
fn extension_classification_uses_unicode_lowercase() {
    // U+212A KELVIN SIGN lower-cases to an ASCII 'k'.
    assert_eq!(MediaType::from_extension("m\u{212A}v"), MediaType::Video);
    assert_eq!(MediaType::from_lowercase_extension("m\u{212A}v"), MediaType::Unknown);
}

#[test]
fn lowercase_extension_is_exact() {
    assert_eq!(MediaType::from_lowercase_extension("mp4"), MediaType::Video);
    assert_eq!(MediaType::from_lowercase_extension("MP4"), MediaType::Unknown);
    assert_eq!(MediaType::from_lowercase_extension("png"), MediaType::Image);
}

#[test]
fn stored_names_round_trip() {
    for t in [MediaType::Video, MediaType::Image, MediaType::Unknown] {
        assert_eq!(MediaType::from_string(t.to_string()), t);
    }
    assert_eq!(MediaType::Video.to_string(), "video");
    assert_eq!(MediaType::Image.to_string(), "image");
    assert_eq!(MediaType::Unknown.to_string(), "unknown");
    assert_eq!(MediaType::from_string("Video"), MediaType::Unknown);
    assert_eq!(MediaType::from_string("audio"), MediaType::Unknown);
}

#[test]
fn default_settings() {
    let s = Settings::default();
    assert_eq!(s.server_port, 8080);
    assert_eq!(s.media_directory, "./media");
    assert_eq!(s.optional_password, None);
    assert_eq!(s.thumbnail_size, 320);
    assert_eq!(s.thumbnail_quality, 60);
    assert!(!s.generate_timeline_thumbnails);
}

#[test]
fn search_without_text_sorts_newest_first() {
    let q = search_query(None, None);
    assert_eq!(q.sql, format!("{} ORDER BY last_modified DESC", SELECT_MEDIA));
    assert!(q.params.is_empty());
}

#[test]
fn search_with_text_filters_by_path() {
    let q = search_query(Some("holiday"), Some("name_asc"));
    assert_eq!(q.sql, format!("{} WHERE path LIKE ?1 ORDER BY path ASC", SELECT_MEDIA));
    assert_eq!(q.params, vec!["%holiday%".to_string()]);
}

#[test]
fn blank_search_text_is_ignored() {
    for blank in ["", "   ", "\t\n", "\u{A0}"] {
        let q = search_query(Some(blank), Some("size_desc"));
        assert_eq!(q.sql, format!("{} ORDER BY size_bytes DESC", SELECT_MEDIA));
        assert!(q.params.is_empty());
    }
    let q = search_query(Some(" a "), None);
    assert_eq!(q.params, vec!["% a %".to_string()]);
}

#[test]
fn every_sort_order() {
    let cases = [
        ("name_asc", " ORDER BY path ASC"),
        ("name_desc", " ORDER BY path DESC"),
        ("size_asc", " ORDER BY size_bytes ASC"),
        ("size_desc", " ORDER BY size_bytes DESC"),
        ("last_modified_asc", " ORDER BY last_modified ASC"),
        ("last_modified_desc", " ORDER BY last_modified DESC"),
        ("bogus", " ORDER BY last_modified DESC"),
    ];
    for (sort, clause) in cases {
        let q = search_query(None, Some(sort));
        assert_eq!(q.sql, format!("{}{}", SELECT_MEDIA, clause));
    }
}

#[test]
fn rows_become_media_files() {
    let f = media_file_from_row(
        7,
        "/m/a.mp4".to_string(),
        "video",
        1024,
        Some("t.jpg".to_string()),
        None,
        "pending".to_string(),
        99,
    );
    assert_eq!(f.id, 7);
    assert_eq!(f.path, "/m/a.mp4");
    assert_eq!(f.media_type, MediaType::Video);
    assert_eq!(f.size_bytes, 1024);
    assert_eq!(f.thumbnail_path.as_deref(), Some("t.jpg"));
    assert_eq!(f.vtt_path, None);
    assert_eq!(f.process_status, "pending");
    assert_eq!(f.last_modified, 99);
    let g = media_file_from_row(8, String::new(), "sound", 0, None, None, String::new(), 0);
    assert_eq!(g.media_type, MediaType::Unknown);
}

#[test]
fn search_given_blankness() {
    let q = search_query_given(Some("x"), true, None);
    assert_eq!(q.sql, format!("{} ORDER BY last_modified DESC", SELECT_MEDIA));
    assert!(q.params.is_empty());
    let q = search_query_given(Some("x"), false, Some("size_asc"));
    assert_eq!(q.sql, format!("{} WHERE path LIKE ?1 ORDER BY size_bytes ASC", SELECT_MEDIA));
    assert_eq!(q.params, vec!["%x%".to_string()]);
    let q = search_query_given(None, false, Some("name_desc"));
    assert_eq!(q.sql, format!("{} ORDER BY path DESC", SELECT_MEDIA));
    assert!(q.params.is_empty());
}

#[test]
fn blank_text() {
    assert!(blank(""));
    assert!(blank(" \t\r\n\u{2003}"));
    assert!(!blank(" x "));
}

#[test]
fn whitespace_matches_std_for_every_char() {
    for u in 0..=0x10FFFFu32 {
        if let Some(c) = char::from_u32(u) {
            assert_eq!(char_is_whitespace(c), c.is_whitespace(), "U+{:04X}", u);
        }
    }
    assert!(blank("\t"));
    assert!(blank("\u{3000}\u{2028}\u{85}"));
    assert!(!blank("\u{200B}"));
}

#[test]
fn ascii_case_does_not_matter() {
    for ext in ["mp4", "mkv", "avi", "mov", "webm", "jpg", "jpeg", "png", "gif", "webp", "txt", "Mp4"] {
        assert_eq!(
            MediaType::from_extension(ext),
            MediaType::from_extension(&ext.to_ascii_uppercase())
        );
    }
    assert_eq!(MediaType::from_extension("MP4"), MediaType::Video);
    assert_eq!(MediaType::from_extension("WEBP"), MediaType::Image);
}

#[test]
fn lookup_queries() {
    assert_eq!(pending_media_sql(), format!("{} WHERE process_status = 'pending'", SELECT_MEDIA));
    assert_eq!(media_by_id_sql(), format!("{} WHERE id = ?1", SELECT_MEDIA));
}
