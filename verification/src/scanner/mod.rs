pub mod scanner;
pub mod watcher;
