//! Core logic of a terminal media-casting tool: discovering and selecting a
//! receiver device on the local network, relaying a local file to it over a
//! short-lived HTTP endpoint, and translating keystrokes into playback
//! commands for the device.
//!
//! Everything here is plain data and decisions; the network, filesystem and
//! terminal plumbing live outside the library and hand values in and out.

use vstd::prelude::*;

pub mod text;
pub mod settings;
pub mod device;
pub mod controls;
pub mod relay;
pub mod session;
pub mod discovery;
pub mod cue;
pub mod playlist;

verus! {

/// Command-line surface: one subcommand choosing what to play.
pub struct Cli {
    pub command: Commands,
}

/// The ways a playback request can name its media.
pub enum Commands {
    /// Play a local video file
    PlayFile { file: String },
    /// Play media files from a local directory
    PlayDir { dir: String },
    /// Play multiple video files continuously
    PlayMultiple { files: Vec<String> },
    /// Play an MP4 file from a URL
    PlayUrl { url: String },
    /// Play a video from a Torrent file or magnet link
    PlayTorrent { torrent: String },
}

} // verus!
