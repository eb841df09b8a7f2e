//! What to do with the catalogue when the media directory changes.

use vstd::prelude::*;

use crate::scanner::scanner::{catalogued_type, index_entry, stored_quantity, FileFacts, NewMedia};

verus! {

/// A change in the media directory.
#[derive(Debug)]
pub enum WatcherEvent {
    Created(String),
    Removed(String),
    Modified(()),
}

/// The catalogue change that a directory change calls for.
#[derive(Debug)]
pub enum WatchAction {
    /// Add this file (ignored when its path is already catalogued).
    Index(NewMedia),
    /// Remove the entry with this path.
    Forget(String),
    /// Nothing to do.
    Ignore,
}

/// The response to a directory change. `facts` describes the created path and
/// is only consulted for `Created`.
pub fn watch_action(event: WatcherEvent, facts: &FileFacts) -> (action: WatchAction)
    ensures
        match event {
            WatcherEvent::Created(p) => match action {
                WatchAction::Index(m) => {
                    &&& catalogued_type(*facts) == Some(m.media_type)
                    &&& m.path == p
                    &&& m.size_bytes == stored_quantity(facts.size)
                    &&& m.last_modified == stored_quantity(facts.modified_secs)
                },
                WatchAction::Ignore => catalogued_type(*facts) is None,
                WatchAction::Forget(_) => false,
            },
            WatcherEvent::Removed(p) => action == WatchAction::Forget(p),
            WatcherEvent::Modified(_) => action is Ignore,
        },
{
    match event {
        WatcherEvent::Created(p) => match index_entry(p, facts) {
            Some(m) => WatchAction::Index(m),
            None => WatchAction::Ignore,
        },
        WatcherEvent::Removed(p) => WatchAction::Forget(p),
        WatcherEvent::Modified(_) => WatchAction::Ignore,
    }
}

}
