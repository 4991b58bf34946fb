//! Playback settings and the rule that merges the command line with the
//! configuration file and environment: for optional fields the command-line
//! value wins when present, and boolean flags are or-combined.

use vstd::prelude::*;

verus! {

/// Options governing a cast: where to find the device, what to play and how.
///
/// The volume step is measured in hundredths of full scale, so `5` means a
/// step of five percent.
#[derive(Debug, Clone, PartialEq, Eq)]
pub struct Settings {
    /// Address of the receiver device
    pub address: Option<String>,
    /// Name of the receiver device
    pub device: Option<String>,
    /// Path to subtitles file
    pub subtitles: Option<String>,
    /// Disable the search for receiver devices
    pub no_search: bool,
    /// Play in loop
    pub loop_playback: bool,
    /// Play on shuffle
    pub shuffle: bool,
    /// Start playing at a specific time
    pub seek: Option<String>,
    /// Volume step, in hundredths of full scale
    pub volume_step: Option<u32>,
    /// Transcode to mp4
    pub tomp4: bool,
    /// MIME type of the media
    pub media_type: Option<String>,
    /// Disable the timeline
    pub quiet: bool,
    /// Disable the metadata
    pub no_metadata: bool,
    /// Disable the cover
    pub no_cover: bool,
    /// Show the options
    pub show_options: bool,
    /// Exit when playback starts
    pub exit: bool,
    /// Command to execute on the receiver device
    pub command: Option<String>,
    /// Path or URL of the media to play
    pub media_path: Option<String>,
}

/// The merged value of one optional field: the first operand unless it is
/// absent, then the second.
pub open spec fn merged_opt<T>(first: Option<T>, second: Option<T>) -> Option<T> {
    if first is Some {
        first
    } else {
        second
    }
}

fn merge_opt(first: Option<String>, second: Option<String>) -> (r: Option<String>)
    ensures
        r == merged_opt(first, second),
{
    if first.is_some() {
        first
    } else {
        second
    }
}

fn merge_opt_u32(first: Option<u32>, second: Option<u32>) -> (r: Option<u32>)
    ensures
        r == merged_opt(first, second),
{
    if first.is_some() {
        first
    } else {
        second
    }
}

/// Merge the command-line settings with those read from file and environment:
/// every optional field takes the command-line value when one was given, and
/// every boolean flag is set when either side set it.
pub fn merge_settings(cli: Settings, file_and_env: Settings) -> (r: Settings)
    ensures
        r.address == merged_opt(cli.address, file_and_env.address),
        r.device == merged_opt(cli.device, file_and_env.device),
        r.subtitles == merged_opt(cli.subtitles, file_and_env.subtitles),
        r.no_search == (cli.no_search || file_and_env.no_search),
        r.loop_playback == (cli.loop_playback || file_and_env.loop_playback),
        r.shuffle == (cli.shuffle || file_and_env.shuffle),
        r.seek == merged_opt(cli.seek, file_and_env.seek),
        r.volume_step == merged_opt(cli.volume_step, file_and_env.volume_step),
        r.tomp4 == (cli.tomp4 || file_and_env.tomp4),
        r.media_type == merged_opt(cli.media_type, file_and_env.media_type),
        r.quiet == (cli.quiet || file_and_env.quiet),
        r.no_metadata == (cli.no_metadata || file_and_env.no_metadata),
        r.no_cover == (cli.no_cover || file_and_env.no_cover),
        r.show_options == (cli.show_options || file_and_env.show_options),
        r.exit == (cli.exit || file_and_env.exit),
        r.command == merged_opt(cli.command, file_and_env.command),
        r.media_path == merged_opt(cli.media_path, file_and_env.media_path),
{
    Settings {
        address: merge_opt(cli.address, file_and_env.address),
        device: merge_opt(cli.device, file_and_env.device),
        subtitles: merge_opt(cli.subtitles, file_and_env.subtitles),
        no_search: cli.no_search || file_and_env.no_search,
        loop_playback: cli.loop_playback || file_and_env.loop_playback,
        shuffle: cli.shuffle || file_and_env.shuffle,
        seek: merge_opt(cli.seek, file_and_env.seek),
        volume_step: merge_opt_u32(cli.volume_step, file_and_env.volume_step),
        tomp4: cli.tomp4 || file_and_env.tomp4,
        media_type: merge_opt(cli.media_type, file_and_env.media_type),
        quiet: cli.quiet || file_and_env.quiet,
        no_metadata: cli.no_metadata || file_and_env.no_metadata,
        no_cover: cli.no_cover || file_and_env.no_cover,
        show_options: cli.show_options || file_and_env.show_options,
        exit: cli.exit || file_and_env.exit,
        command: merge_opt(cli.command, file_and_env.command),
        media_path: merge_opt(cli.media_path, file_and_env.media_path),
    }
}

impl Default for Settings {
    /// The settings with nothing set: every optional field absent and every
    /// flag off.
    fn default() -> (r: Settings)
        ensures
            r.address is None,
            r.device is None,
            r.subtitles is None,
            !r.no_search,
            !r.loop_playback,
            !r.shuffle,
            r.seek is None,
            r.volume_step is None,
            !r.tomp4,
            r.media_type is None,
            !r.quiet,
            !r.no_metadata,
            !r.no_cover,
            !r.show_options,
            !r.exit,
            r.command is None,
            r.media_path is None,
    {
        Settings {
            address: None,
            device: None,
            subtitles: None,
            no_search: false,
            loop_playback: false,
            shuffle: false,
            seek: None,
            volume_step: None,
            tomp4: false,
            media_type: None,
            quiet: false,
            no_metadata: false,
            no_cover: false,
            show_options: false,
            exit: false,
            command: None,
            media_path: None,
        }
    }
}

} // verus!
