//! The data behind each page.

use vstd::prelude::*;

use crate::config::settings::Settings;
use crate::db::models::MediaFile;
use crate::processing::worker::WorkerState;

verus! {

/// The media listing.
pub struct IndexTemplate {
    pub files: Vec<MediaFile>,
    pub search_query: String,
    pub sort_order: String,
}

/// The settings page, with the worker's progress.
pub struct ConfigTemplate {
    pub settings: Settings,
    pub worker_state: WorkerStateDto,
}

/// The login form.
pub struct LoginTemplate {}

/// The page of an image (or of a file of unknown type).
pub struct ViewTemplate {
    pub file: MediaFile,
}

/// The page of a video.
pub struct VideoTemplate {
    pub file: MediaFile,
}

/// A snapshot of the worker's counters.
#[derive(Debug, Clone, Copy, PartialEq, Eq, Structural)]
pub struct WorkerStateDto {
    pub pending_count: u32,
    pub processing_count: u32,
    pub completed_count: u32,
    pub failed_count: u32,
}

impl WorkerStateDto {
    /// A snapshot of `state`.
    pub fn from_state(state: &WorkerState) -> (dto: WorkerStateDto)
        ensures
            dto.pending_count == state.pending_count,
            dto.processing_count == state.processing_count,
            dto.completed_count == state.completed_count,
            dto.failed_count == state.failed_count,
    {
        WorkerStateDto {
            pending_count: state.pending_count,
            processing_count: state.processing_count,
            completed_count: state.completed_count,
            failed_count: state.failed_count,
        }
    }
}

}
