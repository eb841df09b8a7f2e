//! The server's settings and their defaults.

use vstd::prelude::*;
use vstd::string::*;

verus! {

/// Settings of the media server. The media directory is held as its path text.
#[derive(Debug, Clone)]
pub struct Settings {
    pub server_port: u16,
    pub media_directory: String,
    pub optional_password: Option<String>,
    pub thumbnail_size: u32,
    pub thumbnail_quality: u8,
    pub generate_timeline_thumbnails: bool,
}

impl Default for Settings {
    /// Port 8080, media under `./media`, no password, 320-pixel thumbnails at
    /// quality 60, no timeline thumbnails.
    fn default() -> (s: Settings)
        ensures
            s.server_port == 8080,
            s.media_directory@ == "./media"@,
            s.optional_password is None,
            s.thumbnail_size == 320,
            s.thumbnail_quality == 60,
            !s.generate_timeline_thumbnails,
    {
        Settings {
            server_port: 8080,
            media_directory: String::from_str("./media"),
            optional_password: None,
            thumbnail_size: 320,
            thumbnail_quality: 60,
            generate_timeline_thumbnails: false,
        }
    }
}

}
