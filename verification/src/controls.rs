//! The playback control loop's decision table: what device command, if any,
//! each keystroke turns into, given the status fetched from the device just
//! before the command. The loop itself holds no state between commands; the
//! device is the state holder, and every decision here is a pure function of
//! the key and the freshly fetched status.
//!
//! Times are in milliseconds; volume levels are in hundredths of full scale
//! (so 100 is full volume and the step of 5 is five percent).

use vstd::prelude::*;

verus! {

/// What the device's player is doing.
#[derive(Clone, Copy, Debug, PartialEq, Eq)]
pub enum PlayerState {
    Idle,
    Buffering,
    Playing,
    Paused,
}

/// Whether a track carries text (subtitles) or something else.
#[derive(Clone, Copy, Debug, PartialEq, Eq)]
pub enum TrackKind {
    Text,
    Other,
}

/// One track the current media offers.
#[derive(Clone, Copy, Debug, PartialEq, Eq)]
pub struct TrackInfo {
    pub track_id: i32,
    pub kind: TrackKind,
}

/// One entry of the device's playback queue.
#[derive(Clone, Copy, Debug, PartialEq, Eq)]
pub struct QueueItem {
    pub item_id: i32,
}

/// The media status fetched from the device: which session is playing, where
/// it stands, and what tracks and queue items it knows of. Fields the device
/// did not report are `None`.
#[derive(Clone, Debug, PartialEq, Eq)]
pub struct MediaStatus {
    pub media_session_id: i32,
    pub player_state: PlayerState,
    pub current_time_ms: Option<u64>,
    pub duration_ms: Option<u64>,
    pub active_track_ids: Option<Vec<i32>>,
    pub tracks: Option<Vec<TrackInfo>>,
    pub current_item_id: Option<i32>,
    pub items: Option<Vec<QueueItem>>,
}

/// The receiver's volume: level in hundredths of full scale, and mute flag.
#[derive(Clone, Copy, Debug, PartialEq, Eq)]
pub struct VolumeState {
    pub level: Option<u32>,
    pub muted: Option<bool>,
}

/// A key press, as the terminal reports it.
#[derive(Clone, Copy, Debug, PartialEq, Eq)]
pub enum Key {
    Char(char),
    Up,
    Down,
    Left,
    Right,
    Other,
}

/// One request/response call to the device.
#[derive(Clone, Debug, PartialEq, Eq)]
pub enum RpcAction {
    Play { media_session_id: i32 },
    Pause { media_session_id: i32 },
    Stop { media_session_id: i32 },
    Seek { media_session_id: i32, time_ms: u64 },
    SetVolume { level: Option<u32>, muted: Option<bool> },
    SetActiveTracks { media_session_id: i32, track_ids: Vec<i32> },
    QueueJump { media_session_id: i32, item_id: i32 },
}

/// What a key press comes to: one device call, nothing, or the end of the
/// loop.
#[derive(Clone, Debug, PartialEq, Eq)]
pub enum KeyOutcome {
    Rpc(RpcAction),
    NoOp,
    Quit,
}

/// The reported position, with a missing value read as the start of the
/// media.
pub open spec fn current_ms(st: MediaStatus) -> int {
    match st.current_time_ms {
        Some(t) => t as int,
        None => 0,
    }
}

/// The reported level, with a missing value read as silence.
pub open spec fn level_or_zero(v: VolumeState) -> int {
    match v.level {
        Some(l) => l as int,
        None => 0,
    }
}

/// One volume step up, clamped to full scale.
pub open spec fn level_after_up(l: int) -> int {
    if l + 5 <= 100 {
        l + 5
    } else {
        100
    }
}

/// One volume step down, clamped to silence.
pub open spec fn level_after_down(l: int) -> int {
    if l >= 5 {
        l - 5
    } else {
        0
    }
}

/// Ten seconds back, clamped to the start.
pub open spec fn seek_back_target(ct: int) -> int {
    if ct >= 10000 {
        ct - 10000
    } else {
        0
    }
}

/// Ten seconds forward, clamped to the duration; with no duration reported
/// the position itself is the cap, so the seek goes nowhere new.
pub open spec fn seek_forward_target(ct: int, duration: Option<u64>) -> int {
    let cap = match duration {
        Some(d) => d as int,
        None => ct,
    };
    if ct + 10000 <= cap {
        ct + 10000
    } else {
        cap
    }
}

/// The track ids that are active, with a missing list read as empty.
pub open spec fn active_ids(st: MediaStatus) -> Seq<i32> {
    match st.active_track_ids {
        Some(v) => v@,
        None => Seq::empty(),
    }
}

/// The id of the first text track at or after position `i`, if any.
pub open spec fn first_text_from(ts: Seq<TrackInfo>, i: int) -> Option<i32>
    decreases ts.len() - i when 0 <= i <= ts.len()
{
    if i >= ts.len() {
        None
    } else if ts[i].kind is Text {
        Some(ts[i].track_id)
    } else {
        first_text_from(ts, i + 1)
    }
}

/// The sequence with every occurrence of `x` removed, order kept.
pub open spec fn remove_all(s: Seq<i32>, x: i32) -> Seq<i32>
    decreases s.len(),
{
    if s.len() == 0 {
        Seq::empty()
    } else if s.last() == x {
        remove_all(s.drop_last(), x)
    } else {
        remove_all(s.drop_last(), x).push(s.last())
    }
}

/// The active list after toggling the text track: the track is removed when
/// present and appended when not.
pub open spec fn toggled_tracks(active: Seq<i32>, tid: i32) -> Seq<i32> {
    if active.contains(tid) {
        remove_all(active, tid)
    } else {
        active.push(tid)
    }
}

/// The position of the queue item with the given id at or after `i`, if any.
pub open spec fn item_index_from(items: Seq<QueueItem>, id: i32, i: int) -> Option<int>
    decreases items.len() - i when 0 <= i <= items.len()
{
    if i >= items.len() {
        None
    } else if items[i].item_id == id {
        Some(i)
    } else {
        item_index_from(items, id, i + 1)
    }
}

/// Space: pause when playing, play otherwise.
pub open spec fn play_pause_outcome(st: MediaStatus) -> KeyOutcome {
    if st.player_state is Playing {
        KeyOutcome::Rpc(RpcAction::Pause { media_session_id: st.media_session_id })
    } else {
        KeyOutcome::Rpc(RpcAction::Play { media_session_id: st.media_session_id })
    }
}

/// `m`: flip the mute flag (missing read as unmuted), keep the level.
pub open spec fn mute_outcome(v: VolumeState) -> KeyOutcome {
    KeyOutcome::Rpc(
        RpcAction::SetVolume { level: v.level, muted: Some(!(v.muted == Some(true))) },
    )
}

/// Volume up: one step up, clamped to full scale, mute flag kept.
pub open spec fn volume_up_outcome(v: VolumeState) -> KeyOutcome {
    KeyOutcome::Rpc(
        RpcAction::SetVolume {
            level: Some(level_after_up(level_or_zero(v)) as u32),
            muted: v.muted,
        },
    )
}

/// Volume down: one step down, clamped to silence, mute flag kept.
pub open spec fn volume_down_outcome(v: VolumeState) -> KeyOutcome {
    KeyOutcome::Rpc(
        RpcAction::SetVolume {
            level: Some(level_after_down(level_or_zero(v)) as u32),
            muted: v.muted,
        },
    )
}

/// Left: seek ten seconds back, clamped to the start.
pub open spec fn seek_back_outcome(st: MediaStatus) -> KeyOutcome {
    KeyOutcome::Rpc(
        RpcAction::Seek {
            media_session_id: st.media_session_id,
            time_ms: seek_back_target(current_ms(st)) as u64,
        },
    )
}

/// Right: seek ten seconds forward, clamped to the duration.
pub open spec fn seek_forward_outcome(st: MediaStatus) -> KeyOutcome {
    KeyOutcome::Rpc(
        RpcAction::Seek {
            media_session_id: st.media_session_id,
            time_ms: seek_forward_target(current_ms(st), st.duration_ms) as u64,
        },
    )
}

/// `t`: toggle the first text track, or do nothing when there is none. The
/// call is pinned up to the contents of the new track list.
pub open spec fn is_subtitle_outcome(st: MediaStatus, r: KeyOutcome) -> bool {
    match st.tracks {
        None => r == KeyOutcome::NoOp,
        Some(ts) => match first_text_from(ts@, 0) {
            None => r == KeyOutcome::NoOp,
            Some(tid) => r matches KeyOutcome::Rpc(
                RpcAction::SetActiveTracks { media_session_id, track_ids },
            ) && media_session_id == st.media_session_id && track_ids@ == toggled_tracks(
                active_ids(st),
                tid,
            ),
        },
    }
}

/// `p`: jump to the previous queue item; at the head of the queue, or with no
/// queue position known, no call is made.
pub open spec fn queue_prev_outcome(st: MediaStatus) -> KeyOutcome {
    match (st.current_item_id, st.items) {
        (Some(cur), Some(items)) => match item_index_from(items@, cur, 0) {
            Some(i) => if i > 0 {
                KeyOutcome::Rpc(
                    RpcAction::QueueJump {
                        media_session_id: st.media_session_id,
                        item_id: items@[i - 1].item_id,
                    },
                )
            } else {
                KeyOutcome::NoOp
            },
            None => KeyOutcome::NoOp,
        },
        _ => KeyOutcome::NoOp,
    }
}

/// `n`: jump to the next queue item; at the tail, or with no queue position
/// known, no call is made.
pub open spec fn queue_next_outcome(st: MediaStatus) -> KeyOutcome {
    match (st.current_item_id, st.items) {
        (Some(cur), Some(items)) => match item_index_from(items@, cur, 0) {
            Some(i) => if i + 1 < items@.len() {
                KeyOutcome::Rpc(
                    RpcAction::QueueJump {
                        media_session_id: st.media_session_id,
                        item_id: items@[i + 1].item_id,
                    },
                )
            } else {
                KeyOutcome::NoOp
            },
            None => KeyOutcome::NoOp,
        },
        _ => KeyOutcome::NoOp,
    }
}

/// The whole command table: what outcome the key press has, given the media
/// status and receiver volume fetched for it (`None` when the fetch failed or
/// reported no entry). Commands that need a status the device did not give do
/// nothing, so the loop stays responsive.
pub open spec fn is_outcome_for(
    key: Key,
    media: Option<MediaStatus>,
    volume: Option<VolumeState>,
    r: KeyOutcome,
) -> bool {
    match key {
        Key::Char(c) => if c == ' ' {
            match media {
                Some(st) => r == play_pause_outcome(st),
                None => r == KeyOutcome::NoOp,
            }
        } else if c == 'm' {
            match volume {
                Some(v) => r == mute_outcome(v),
                None => r == KeyOutcome::NoOp,
            }
        } else if c == 't' {
            match media {
                Some(st) => is_subtitle_outcome(st, r),
                None => r == KeyOutcome::NoOp,
            }
        } else if c == 'p' {
            match media {
                Some(st) => r == queue_prev_outcome(st),
                None => r == KeyOutcome::NoOp,
            }
        } else if c == 'n' {
            match media {
                Some(st) => r == queue_next_outcome(st),
                None => r == KeyOutcome::NoOp,
            }
        } else if c == 's' {
            match media {
                Some(st) => r == KeyOutcome::Rpc(
                    RpcAction::Stop { media_session_id: st.media_session_id },
                ),
                None => r == KeyOutcome::NoOp,
            }
        } else if c == 'q' {
            r == KeyOutcome::Quit
        } else {
            r == KeyOutcome::NoOp
        },
        Key::Up => match volume {
            Some(v) => r == volume_up_outcome(v),
            None => r == KeyOutcome::NoOp,
        },
        Key::Down => match volume {
            Some(v) => r == volume_down_outcome(v),
            None => r == KeyOutcome::NoOp,
        },
        Key::Left => match media {
            Some(st) => r == seek_back_outcome(st),
            None => r == KeyOutcome::NoOp,
        },
        Key::Right => match media {
            Some(st) => r == seek_forward_outcome(st),
            None => r == KeyOutcome::NoOp,
        },
        Key::Other => r == KeyOutcome::NoOp,
    }
}

/// The value behind an optional reference.
pub open spec fn opt_value<T>(o: Option<&T>) -> Option<T> {
    match o {
        Some(x) => Some(*x),
        None => None,
    }
}

/// One volume step up from the reported level, clamped to full scale.
pub fn volume_level_up(level: Option<u32>) -> (r: u32)
    ensures
        r as int == level_after_up(
            match level {
                Some(l) => l as int,
                None => 0,
            },
        ),
{
    let l: u32 = match level {
        Some(l) => l,
        None => 0,
    };
    if l >= 95 {
        100
    } else {
        l + 5
    }
}

/// One volume step down from the reported level, clamped to silence.
pub fn volume_level_down(level: Option<u32>) -> (r: u32)
    ensures
        r as int == level_after_down(
            match level {
                Some(l) => l as int,
                None => 0,
            },
        ),
{
    let l: u32 = match level {
        Some(l) => l,
        None => 0,
    };
    if l >= 5 {
        l - 5
    } else {
        0
    }
}

/// Ten seconds back from the position, clamped to the start.
pub fn seek_back_ms(current_time_ms: Option<u64>) -> (r: u64)
    ensures
        r as int == seek_back_target(
            match current_time_ms {
                Some(t) => t as int,
                None => 0,
            },
        ),
{
    let ct: u64 = match current_time_ms {
        Some(t) => t,
        None => 0,
    };
    if ct >= 10000 {
        ct - 10000
    } else {
        0
    }
}

/// Ten seconds forward from the position, clamped to the duration, or to the
/// position itself when no duration is known.
pub fn seek_forward_ms(current_time_ms: Option<u64>, duration_ms: Option<u64>) -> (r: u64)
    ensures
        r as int == seek_forward_target(
            match current_time_ms {
                Some(t) => t as int,
                None => 0,
            },
            duration_ms,
        ),
{
    let ct: u64 = match current_time_ms {
        Some(t) => t,
        None => 0,
    };
    let cap: u64 = match duration_ms {
        Some(d) => d,
        None => ct,
    };
    let stepped: u64 = if ct > u64::MAX - 10000 {
        u64::MAX
    } else {
        ct + 10000
    };
    if stepped <= cap {
        stepped
    } else {
        cap
    }
}

/// The id of the first text track in the list, if any.
fn find_first_text_track(tracks: &Vec<TrackInfo>) -> (r: Option<i32>)
    ensures
        r == first_text_from(tracks@, 0),
{
    let mut i: usize = 0;
    while i < tracks.len()
        invariant
            i <= tracks@.len(),
            first_text_from(tracks@, 0) == first_text_from(tracks@, i as int),
        decreases tracks@.len() - i,
    {
        if matches!(tracks[i].kind, TrackKind::Text) {
            return Some(tracks[i].track_id);
        }
        i = i + 1;
    }
    None
}

/// Whether the id occurs in the list.
fn contains_id(ids: &Vec<i32>, x: i32) -> (r: bool)
    ensures
        r == ids@.contains(x),
{
    let mut i: usize = 0;
    while i < ids.len()
        invariant
            i <= ids@.len(),
            forall|j: int| 0 <= j < i ==> ids@[j] != x,
        decreases ids@.len() - i,
    {
        if ids[i] == x {
            return true;
        }
        i = i + 1;
    }
    assert(!ids@.contains(x));
    false
}

/// The list with every occurrence of the id removed, order kept.
fn remove_id(ids: &Vec<i32>, x: i32) -> (r: Vec<i32>)
    ensures
        r@ == remove_all(ids@, x),
{
    let mut out: Vec<i32> = Vec::new();
    let mut i: usize = 0;
    while i < ids.len()
        invariant
            i <= ids@.len(),
            out@ == remove_all(ids@.take(i as int), x),
        decreases ids@.len() - i,
    {
        proof {
            assert(ids@.take(i + 1).drop_last() =~= ids@.take(i as int));
            assert(ids@.take(i + 1).last() == ids@[i as int]);
        }
        if ids[i] != x {
            out.push(ids[i]);
        }
        i = i + 1;
    }
    proof {
        assert(ids@.take(ids@.len() as int) =~= ids@);
    }
    out
}

/// The position of the queue item with the given id, if any.
fn find_item_index(items: &Vec<QueueItem>, id: i32) -> (r: Option<usize>)
    ensures
        match r {
            Some(i) => item_index_from(items@, id, 0) == Some(i as int) && i < items@.len(),
            None => item_index_from(items@, id, 0) is None,
        },
{
    let mut i: usize = 0;
    while i < items.len()
        invariant
            i <= items@.len(),
            item_index_from(items@, id, 0) == item_index_from(items@, id, i as int),
        decreases items@.len() - i,
    {
        if items[i].item_id == id {
            return Some(i);
        }
        i = i + 1;
    }
    None
}

/// The `t` command: toggle the first text track on or off in the active
/// list, or do nothing when the media offers no text track.
fn toggle_subtitles(st: &MediaStatus) -> (r: KeyOutcome)
    ensures
        is_subtitle_outcome(*st, r),
{
    match &st.tracks {
        None => KeyOutcome::NoOp,
        Some(ts) => {
            match find_first_text_track(ts) {
                None => KeyOutcome::NoOp,
                Some(tid) => {
                    let active: Vec<i32> = match &st.active_track_ids {
                        Some(v) => v.clone(),
                        None => Vec::new(),
                    };
                    let new_tracks: Vec<i32> = if contains_id(&active, tid) {
                        remove_id(&active, tid)
                    } else {
                        let mut pushed = active;
                        pushed.push(tid);
                        pushed
                    };
                    KeyOutcome::Rpc(
                        RpcAction::SetActiveTracks {
                            media_session_id: st.media_session_id,
                            track_ids: new_tracks,
                        },
                    )
                },
            }
        },
    }
}

/// The `p` command: one step back in the queue, or nothing at its head.
fn queue_prev(st: &MediaStatus) -> (r: KeyOutcome)
    ensures
        r == queue_prev_outcome(*st),
{
    match (&st.current_item_id, &st.items) {
        (Some(cur), Some(items)) => {
            match find_item_index(items, *cur) {
                Some(i) => if i > 0 {
                    KeyOutcome::Rpc(
                        RpcAction::QueueJump {
                            media_session_id: st.media_session_id,
                            item_id: items[i - 1].item_id,
                        },
                    )
                } else {
                    KeyOutcome::NoOp
                },
                None => KeyOutcome::NoOp,
            }
        },
        _ => KeyOutcome::NoOp,
    }
}

/// The `n` command: one step forward in the queue, or nothing at its tail.
fn queue_next(st: &MediaStatus) -> (r: KeyOutcome)
    ensures
        r == queue_next_outcome(*st),
{
    match (&st.current_item_id, &st.items) {
        (Some(cur), Some(items)) => {
            let n = items.len();
            match find_item_index(items, *cur) {
                Some(i) => if i + 1 < n {
                    KeyOutcome::Rpc(
                        RpcAction::QueueJump {
                            media_session_id: st.media_session_id,
                            item_id: items[i + 1].item_id,
                        },
                    )
                } else {
                    KeyOutcome::NoOp
                },
                None => KeyOutcome::NoOp,
            }
        },
        _ => KeyOutcome::NoOp,
    }
}

/// Decide what one key press comes to, given the statuses fetched for it.
/// `media` is the first status entry the device reported, `volume` the
/// receiver's volume; `None` stands for a failed fetch or an empty report,
/// and the commands that need the missing status then do nothing.
pub fn handle_key(key: Key, media: Option<&MediaStatus>, volume: Option<&VolumeState>) -> (r:
    KeyOutcome)
    ensures
        is_outcome_for(key, opt_value(media), opt_value(volume), r),
{
    match key {
        Key::Char(c) => {
            if c == ' ' {
                match media {
                    Some(st) => if matches!(st.player_state, PlayerState::Playing) {
                        KeyOutcome::Rpc(
                            RpcAction::Pause { media_session_id: st.media_session_id },
                        )
                    } else {
                        KeyOutcome::Rpc(RpcAction::Play { media_session_id: st.media_session_id })
                    },
                    None => KeyOutcome::NoOp,
                }
            } else if c == 'm' {
                match volume {
                    Some(v) => {
                        let was_muted: bool = match v.muted {
                            Some(b) => b,
                            None => false,
                        };
                        KeyOutcome::Rpc(
                            RpcAction::SetVolume { level: v.level, muted: Some(!was_muted) },
                        )
                    },
                    None => KeyOutcome::NoOp,
                }
            } else if c == 't' {
                match media {
                    Some(st) => toggle_subtitles(st),
                    None => KeyOutcome::NoOp,
                }
            } else if c == 'p' {
                match media {
                    Some(st) => queue_prev(st),
                    None => KeyOutcome::NoOp,
                }
            } else if c == 'n' {
                match media {
                    Some(st) => queue_next(st),
                    None => KeyOutcome::NoOp,
                }
            } else if c == 's' {
                match media {
                    Some(st) => KeyOutcome::Rpc(
                        RpcAction::Stop { media_session_id: st.media_session_id },
                    ),
                    None => KeyOutcome::NoOp,
                }
            } else if c == 'q' {
                KeyOutcome::Quit
            } else {
                KeyOutcome::NoOp
            }
        },
        Key::Up => match volume {
            Some(v) => KeyOutcome::Rpc(
                RpcAction::SetVolume { level: Some(volume_level_up(v.level)), muted: v.muted },
            ),
            None => KeyOutcome::NoOp,
        },
        Key::Down => match volume {
            Some(v) => KeyOutcome::Rpc(
                RpcAction::SetVolume { level: Some(volume_level_down(v.level)), muted: v.muted },
            ),
            None => KeyOutcome::NoOp,
        },
        Key::Left => match media {
            Some(st) => KeyOutcome::Rpc(
                RpcAction::Seek {
                    media_session_id: st.media_session_id,
                    time_ms: seek_back_ms(st.current_time_ms),
                },
            ),
            None => KeyOutcome::NoOp,
        },
        Key::Right => match media {
            Some(st) => KeyOutcome::Rpc(
                RpcAction::Seek {
                    media_session_id: st.media_session_id,
                    time_ms: seek_forward_ms(st.current_time_ms, st.duration_ms),
                },
            ),
            None => KeyOutcome::NoOp,
        },
        Key::Other => KeyOutcome::NoOp,
    }
}

/// The position of the first quit key at or after `i`, if any.
pub open spec fn first_quit_from(keys: Seq<Key>, i: int) -> Option<int>
    decreases keys.len() - i when 0 <= i <= keys.len()
{
    if i >= keys.len() {
        None
    } else if keys[i] == Key::Char('q') {
        Some(i)
    } else {
        first_quit_from(keys, i + 1)
    }
}

/// How many queued keys the consumer processes: everything up to and
/// including the first quit key, or the whole queue when none quits.
pub open spec fn processed_len(keys: Seq<Key>) -> int {
    match first_quit_from(keys, 0) {
        Some(i) => i + 1,
        None => keys.len() as int,
    }
}

/// The command consumer: drain the queued keys one at a time, in exactly the
/// order they were queued, deciding each against the given statuses, and stop
/// after the first quit key. The outcome list pairs with the queued keys
/// position by position, so no command is reordered, coalesced or skipped.
pub fn process_queue(
    keys: &Vec<Key>,
    media: Option<&MediaStatus>,
    volume: Option<&VolumeState>,
) -> (r: Vec<KeyOutcome>)
    ensures
        r@.len() == processed_len(keys@),
        forall|j: int|
            0 <= j < r@.len() ==> is_outcome_for(
                keys@[j],
                opt_value(media),
                opt_value(volume),
                r@[j],
            ),
{
    let mut out: Vec<KeyOutcome> = Vec::new();
    let mut i: usize = 0;
    while i < keys.len()
        invariant
            i <= keys@.len(),
            out@.len() == i,
            first_quit_from(keys@, 0) == first_quit_from(keys@, i as int),
            forall|j: int|
                0 <= j < i ==> is_outcome_for(keys@[j], opt_value(media), opt_value(volume), out@[j]),
        decreases keys@.len() - i,
    {
        let is_quit = matches!(keys[i], Key::Char('q'));
        let outcome = handle_key(keys[i], media, volume);
        out.push(outcome);
        if is_quit {
            assert(first_quit_from(keys@, i as int) == Some(i as int));
            return out;
        }
        assert(first_quit_from(keys@, i as int) == first_quit_from(keys@, i + 1));
        i = i + 1;
    }
    assert(first_quit_from(keys@, keys@.len() as int) is None);
    out
}

} // verus!
