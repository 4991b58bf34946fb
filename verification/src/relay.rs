//! The media relay: what the short-lived local HTTP endpoint answers, and the
//! accept loop's state machine. The endpoint serves one resource, the media
//! file, at the root path; everything else is not found, and a failed file
//! read is a server-side error, never a crash. The accept loop races a
//! one-shot shutdown signal: once it fires, no later connection is served.

use vstd::prelude::*;
use vstd::string::StringSliceAdditionalSpecFns;
use crate::text::str_eq;

verus! {

/// One HTTP answer: status code, optional content type, and the full body.
pub struct HttpReply {
    pub status: u16,
    pub content_type: Option<String>,
    pub body: Vec<u8>,
}

/// The requested path names the one resource the relay serves.
pub open spec fn is_root_path(path: Seq<char>) -> bool {
    path == "/"@
}

/// Decide the answer to one request: the root path gets the file's bytes with
/// the media content type, any other path is not found, and a root request
/// whose file read failed (`file` is `None`) is a server-side error.
pub fn relay_response(path: &str, file: Option<Vec<u8>>) -> (r: HttpReply)
    ensures
        !is_root_path(path@) ==> r.status == 404 && r.content_type is None && r.body@
            == "Not Found".spec_bytes(),
        is_root_path(path@) ==> match file {
            Some(bytes) => r.status == 200 && (r.content_type matches Some(ct) && ct@
                == "video/mp4"@) && r.body@ == bytes@,
            None => r.status == 500 && r.content_type is None && r.body@
                == "Internal Server Error".spec_bytes(),
        },
{
    if !str_eq(path, "/") {
        return HttpReply {
            status: 404,
            content_type: None,
            body: "Not Found".as_bytes_vec(),
        };
    }
    match file {
        Some(bytes) => HttpReply {
            status: 200,
            content_type: Some("video/mp4".to_owned()),
            body: bytes,
        },
        None => HttpReply {
            status: 500,
            content_type: None,
            body: "Internal Server Error".as_bytes_vec(),
        },
    }
}

/// What reaches the accept loop: an incoming connection, or the one-shot
/// shutdown signal.
#[derive(Clone, Copy, Debug, PartialEq, Eq)]
pub enum RelayEvent {
    Connection,
    Shutdown,
}

/// What the accept loop does with one event: serve the connection, refuse it
/// because the relay has stopped, stop accepting, or nothing (a shutdown
/// signal after the relay has already stopped).
#[derive(Clone, Copy, Debug, PartialEq, Eq)]
pub enum RelayAction {
    Serve,
    Refuse,
    Stop,
    Nothing,
}

/// Whether the relay is still accepting after the event: a shutdown stops it,
/// and nothing restarts it.
pub open spec fn next_running(running: bool, e: RelayEvent) -> bool {
    match e {
        RelayEvent::Connection => running,
        RelayEvent::Shutdown => false,
    }
}

/// What the accept loop does with the event in the given state.
pub open spec fn action_of(running: bool, e: RelayEvent) -> RelayAction {
    match e {
        RelayEvent::Connection => if running {
            RelayAction::Serve
        } else {
            RelayAction::Refuse
        },
        RelayEvent::Shutdown => if running {
            RelayAction::Stop
        } else {
            RelayAction::Nothing
        },
    }
}

/// The accept loop's whole state: whether it still accepts connections.
/// The shutdown signal is one-shot; a second firing is a no-op, so there is
/// no race between "already shut down" and "shut down again".
pub struct RelaySession {
    pub running: bool,
}

impl RelaySession {
    /// A relay that has just bound its port and accepts connections.
    pub fn new() -> (r: RelaySession)
        ensures
            r.running,
    {
        RelaySession { running: true }
    }

    /// Step the accept loop by one event.
    pub fn on_event(&mut self, e: RelayEvent) -> (r: RelayAction)
        ensures
            final (self).running == next_running(old(self).running, e),
            r == action_of(old(self).running, e),
    {
        match e {
            RelayEvent::Connection => {
                if self.running {
                    RelayAction::Serve
                } else {
                    RelayAction::Refuse
                }
            },
            RelayEvent::Shutdown => {
                if self.running {
                    self.running = false;
                    RelayAction::Stop
                } else {
                    RelayAction::Nothing
                }
            },
        }
    }
}

/// The state after a sequence of events, from the given start.
pub open spec fn running_after(start: bool, es: Seq<RelayEvent>) -> bool
    decreases es.len(),
{
    if es.len() == 0 {
        start
    } else {
        next_running(running_after(start, es.drop_last()), es.last())
    }
}

/// A shutdown anywhere in the events leaves the relay stopped.
pub proof fn lemma_shutdown_stops(start: bool, es: Seq<RelayEvent>, i: int)
    requires
        0 <= i < es.len(),
        es[i] is Shutdown,
    ensures
        !running_after(start, es),
    decreases es.len(),
{
    if i == es.len() - 1 {
    } else {
        lemma_shutdown_stops(start, es.drop_last(), i);
    }
}

/// Once the shutdown signal has fired, no later connection is served: for any
/// run of the accept loop, an event after a shutdown never gets the `Serve`
/// action.
pub proof fn lemma_no_service_after_shutdown(start: bool, es: Seq<RelayEvent>, i: int, j: int)
    requires
        0 <= i < j < es.len(),
        es[i] is Shutdown,
    ensures
        action_of(running_after(start, es.take(j)), es[j]) != RelayAction::Serve,
{
    assert(es.take(j)[i] == es[i]);
    lemma_shutdown_stops(start, es.take(j), i);
}

} // verus!
