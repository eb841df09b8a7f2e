pub mod worker;
pub mod ffmpeg;
