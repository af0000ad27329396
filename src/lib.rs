//! Turning a link to a streaming site into an action: site classification,
//! run configuration, playback and download planning, and file-name safety.

pub mod title;
pub mod site;
pub mod media;
pub mod download;
pub mod invoke;
pub mod args;
