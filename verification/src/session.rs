//! Establishing a cast session: the media descriptor handed to the device's
//! load command, the session identifiers the launch returns, and the errors
//! that can end the attempt. The control connection itself is network work
//! done outside the library; these are the values that cross it.

use vstd::prelude::*;
use crate::settings::Settings;
use crate::text::{is_prefix_of, str_starts_with};

verus! {

/// Whether the media is a fixed file or a live stream.
#[derive(Clone, Copy, Debug, PartialEq, Eq)]
pub enum StreamKind {
    Buffered,
    Live,
}

/// What the device is told to load: the URL, the content type, and the
/// stream-type marker.
pub struct MediaDescriptor {
    pub content_id: String,
    pub content_type: String,
    pub stream: StreamKind,
}

/// A launched receiver application, addressed by the identifier pair the
/// launch returned.
pub struct CastSession {
    pub transport_id: String,
    pub session_id: String,
}

/// Why establishing a session failed. A failed load does not invalidate the
/// already-open connection; the caller may still enter the control loop.
#[derive(Clone, Copy, Debug, PartialEq, Eq)]
pub enum EstablishError {
    ConnectFailed,
    AppLaunchFailed,
    LoadFailed,
}

/// The descriptor for the settings' media: its path or URL as the content id,
/// the configured MIME type or `video/mp4` when none is set, loaded as a
/// buffered stream.
pub fn build_media_descriptor(settings: &Settings) -> (r: MediaDescriptor)
    requires
        settings.media_path is Some,
    ensures
        settings.media_path matches Some(p) ==> r.content_id@ == p@,
        match settings.media_type {
            Some(t) => r.content_type@ == t@,
            None => r.content_type@ == "video/mp4"@,
        },
        r.stream is Buffered,
{
    let content_id: String = match &settings.media_path {
        Some(p) => p.clone(),
        None => String::new(),
    };
    let content_type: String = match &settings.media_type {
        Some(t) => t.clone(),
        None => "video/mp4".to_owned(),
    };
    MediaDescriptor { content_id, content_type, stream: StreamKind::Buffered }
}

/// The media path names a remote resource, so no local relay is needed.
pub fn is_remote_url(path: &str) -> (r: bool)
    ensures
        r == (is_prefix_of("http://"@, path@) || is_prefix_of("https://"@, path@)),
{
    str_starts_with(path, "http://") || str_starts_with(path, "https://")
}

} // verus!
