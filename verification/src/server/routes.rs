//! What each page shows, and how the settings form changes the settings.

use vstd::prelude::*;
use vstd::string::*;

use crate::config::settings::Settings;
use crate::db::models::{MediaFile, MediaType};
use crate::processing::worker::WorkerState;
use crate::server::templates::{
    ConfigTemplate, IndexTemplate, VideoTemplate, ViewTemplate, WorkerStateDto,
};

verus! {

/// The fields of the settings form. An HTML checkbox sends a value only when checked.
#[derive(Debug, Clone)]
pub struct ConfigUpdate {
    pub server_port: u16,
    pub thumbnail_size: u32,
    pub thumbnail_quality: u8,
    pub generate_timeline_thumbnails: Option<String>,
}

/// The settings after the form was submitted: port, thumbnail size and quality
/// are replaced, timeline thumbnails are on exactly when the box was checked,
/// and the media directory and password stay.
pub fn apply_config_update(settings: Settings, update: ConfigUpdate) -> (updated: Settings)
    ensures
        updated == (Settings {
            server_port: update.server_port,
            thumbnail_size: update.thumbnail_size,
            thumbnail_quality: update.thumbnail_quality,
            generate_timeline_thumbnails: update.generate_timeline_thumbnails is Some,
            ..settings
        }),
{
    let mut updated = settings;
    updated.server_port = update.server_port;
    updated.thumbnail_size = update.thumbnail_size;
    updated.thumbnail_quality = update.thumbnail_quality;
    updated.generate_timeline_thumbnails = update.generate_timeline_thumbnails.is_some();
    updated
}

/// The listing page: the found files, the search text (empty when none) and
/// the sort order (newest first when none).
pub fn index_page(files: Vec<MediaFile>, search: Option<String>, sort: Option<String>) -> (page:
    IndexTemplate)
    ensures
        page.files == files,
        page.search_query@ == (match search {
            Some(s) => s@,
            None => Seq::empty(),
        }),
        page.sort_order@ == (match sort {
            Some(s) => s@,
            None => "last_modified_desc"@,
        }),
{
    let search_query = match search {
        Some(s) => s,
        None => String::new(),
    };
    let sort_order = match sort {
        Some(s) => s,
        None => String::from_str("last_modified_desc"),
    };
    IndexTemplate { files, search_query, sort_order }
}

/// The page that shows one file.
pub enum MediaPage {
    Video(VideoTemplate),
    Other(ViewTemplate),
}

/// Videos get the player page; everything else the image page.
pub fn view_page_for(file: MediaFile) -> (page: MediaPage)
    ensures
        file.media_type == MediaType::Video ==> page == MediaPage::Video(VideoTemplate { file }),
        file.media_type != MediaType::Video ==> page == MediaPage::Other(ViewTemplate { file }),
{
    match file.media_type {
        MediaType::Video => MediaPage::Video(VideoTemplate { file }),
        _ => MediaPage::Other(ViewTemplate { file }),
    }
}

/// The settings page, showing the current settings and the worker's counters.
pub fn config_page(settings: Settings, worker: &WorkerState) -> (page: ConfigTemplate)
    ensures
        page.settings == settings,
        page.worker_state.pending_count == worker.pending_count,
        page.worker_state.processing_count == worker.processing_count,
        page.worker_state.completed_count == worker.completed_count,
        page.worker_state.failed_count == worker.failed_count,
{
    ConfigTemplate { settings, worker_state: WorkerStateDto::from_state(worker) }
}

}
