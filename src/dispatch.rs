//! Translation of the control interface's methods and property writes into
//! calls on the playback engine and the play queue.
use vstd::prelude::*;
use crate::mapper::{loop_mode_of, parse_loop_status};
use crate::model::{LoopMode, Playable};
use crate::resolver::UriKind;

verus! {

/// Below this elapsed position, in milliseconds, `Previous` skips back to the
/// previous item; from it on, it restarts the current one.
pub const RESTART_THRESHOLD_MS: u64 = 5000;

/// The offset, in milliseconds, of `Forward` and `Rewind`.
pub const SKIP_OFFSET_MS: i32 = 5000;

/// An inbound method call or property write.
#[derive(Clone, Debug)]
pub enum Command {
    PlayPause,
    Play,
    Pause,
    Stop,
    Next,
    Previous,
    Forward,
    Rewind,
    /// Relative seek, in microseconds.
    Seek(i64),
    /// Absolute seek, in microseconds.
    SetPosition(i64),
    /// A volume write: the engine level asked for, or `None` when the written
    /// value was outside the valid range or missing.
    SetVolume(Option<u16>),
    /// A shuffle write, `None` when the value was missing.
    SetShuffle(Option<bool>),
    /// A loop-status write, with its token.
    SetLoopStatus(String),
}

/// What the engine and queue report at the moment a command is handled.
#[derive(Clone, Copy, Debug)]
pub struct Snapshot {
    /// Elapsed position of the current item, in milliseconds.
    pub progress_ms: u64,
    /// Length of the queue's current item in milliseconds, `None` when the
    /// queue has no current item.
    pub current_duration: Option<u32>,
}

/// A call on the playback engine, the play queue or the user interface.
#[derive(Clone, Copy, Debug, PartialEq, Eq, Structural)]
pub enum EngineCall {
    /// Toggle between playing and paused, through the queue.
    TogglePlayback,
    Play,
    Pause,
    Stop,
    /// Advance past the current item, even when it repeats.
    Next,
    /// Move to the previous queue item.
    Previous,
    /// Seek to an absolute position in milliseconds.
    Seek(u32),
    /// Seek by an offset in milliseconds.
    SeekRelative(i32),
    SetVolume(u16),
    SetShuffle(bool),
    SetRepeat(LoopMode),
    /// Ask the user interface to redraw.
    Refresh,
}

/// Microseconds to milliseconds, rounding toward zero.
pub open spec fn micros_to_millis(us: int) -> int {
    if us >= 0 {
        us / 1000
    } else {
        -((-us) / 1000)
    }
}

/// The target of a relative seek: the elapsed position moved by the offset,
/// no lower than zero.
pub open spec fn seek_target(progress_ms: int, offset_us: int) -> int {
    let t = progress_ms + micros_to_millis(offset_us);
    if t < 0 {
        0
    } else {
        t
    }
}

/// The target of an absolute seek, no lower than zero.
pub open spec fn position_target(position_us: int) -> int {
    let t = micros_to_millis(position_us);
    if t < 0 {
        0
    } else {
        t
    }
}

/// The calls that a command makes, given the player's state.
pub open spec fn calls_for(cmd: Command, s: Snapshot) -> Seq<EngineCall> {
    match cmd {
        Command::PlayPause => seq![EngineCall::TogglePlayback],
        Command::Play => seq![EngineCall::Play],
        Command::Pause => seq![EngineCall::Pause],
        Command::Stop => seq![EngineCall::Stop],
        Command::Next => seq![EngineCall::Next],
        Command::Previous => if s.progress_ms < RESTART_THRESHOLD_MS {
            seq![EngineCall::Previous]
        } else {
            seq![EngineCall::Seek(0)]
        },
        Command::Forward => seq![EngineCall::SeekRelative(SKIP_OFFSET_MS)],
        Command::Rewind => seq![EngineCall::SeekRelative((-SKIP_OFFSET_MS) as i32)],
        Command::Seek(off) => match s.current_duration {
            Some(d) => {
                let t = seek_target(s.progress_ms as int, off as int);
                if t < d {
                    seq![EngineCall::Seek(t as u32)]
                } else {
                    seq![EngineCall::Next]
                }
            },
            None => seq![],
        },
        Command::SetPosition(pos) => match s.current_duration {
            Some(d) => {
                let t = position_target(pos as int);
                if t < d {
                    seq![EngineCall::Seek(t as u32)]
                } else {
                    seq![]
                }
            },
            None => seq![],
        },
        Command::SetVolume(v) => match v {
            Some(level) => seq![EngineCall::SetVolume(level), EngineCall::Refresh],
            None => seq![EngineCall::Refresh],
        },
        Command::SetShuffle(v) => match v {
            Some(b) => seq![EngineCall::SetShuffle(b), EngineCall::Refresh],
            None => seq![EngineCall::Refresh],
        },
        Command::SetLoopStatus(t) => seq![EngineCall::SetRepeat(loop_mode_of(t@))],
    }
}

fn millis_of_micros(us: i64) -> (r: i64)
    ensures
        r == micros_to_millis(us as int),
{
    if us >= 0 {
        us / 1000
    } else {
        let pos: i128 = -(us as i128);
        let m: i128 = pos / 1000;
        -(m as i64)
    }
}

/// The calls that a command makes, given the player's state.
pub fn dispatch(cmd: Command, s: Snapshot) -> (r: Vec<EngineCall>)
    ensures
        r@ == calls_for(cmd, s),
{
    let mut out: Vec<EngineCall> = Vec::new();
    match cmd {
        Command::PlayPause => out.push(EngineCall::TogglePlayback),
        Command::Play => out.push(EngineCall::Play),
        Command::Pause => out.push(EngineCall::Pause),
        Command::Stop => out.push(EngineCall::Stop),
        Command::Next => out.push(EngineCall::Next),
        Command::Previous => {
            if s.progress_ms < RESTART_THRESHOLD_MS {
                out.push(EngineCall::Previous);
            } else {
                out.push(EngineCall::Seek(0));
            }
        },
        Command::Forward => out.push(EngineCall::SeekRelative(SKIP_OFFSET_MS)),
        Command::Rewind => out.push(EngineCall::SeekRelative(-SKIP_OFFSET_MS)),
        Command::Seek(off) => {
            if let Some(d) = s.current_duration {
                let t: i128 = s.progress_ms as i128 + millis_of_micros(off) as i128;
                let t: i128 = if t < 0 { 0 } else { t };
                if t < d as i128 {
                    out.push(EngineCall::Seek(t as u32));
                } else {
                    out.push(EngineCall::Next);
                }
            }
        },
        Command::SetPosition(pos) => {
            if let Some(d) = s.current_duration {
                let t: i64 = millis_of_micros(pos);
                let t: i64 = if t < 0 { 0 } else { t };
                if t < d as i64 {
                    out.push(EngineCall::Seek(t as u32));
                }
            }
        },
        Command::SetVolume(v) => {
            if let Some(level) = v {
                out.push(EngineCall::SetVolume(level));
            }
            out.push(EngineCall::Refresh);
        },
        Command::SetShuffle(v) => {
            if let Some(b) = v {
                out.push(EngineCall::SetShuffle(b));
            }
            out.push(EngineCall::Refresh);
        },
        Command::SetLoopStatus(t) => out.push(EngineCall::SetRepeat(parse_loop_status(t.as_str()))),
    }
    assert(out@ =~= calls_for(cmd, s));
    out
}

/// A call on the play queue that loads new content.
#[derive(Clone, Debug)]
pub enum QueueCall {
    /// Empty the queue.
    Clear,
    /// Add items at the end of the queue.
    Append(Vec<Playable>),
    /// Insert items to play next; the queue reports where they start.
    AppendNext(Vec<Playable>),
    /// Start playing at the first item inserted by the preceding `AppendNext`
    /// (`at_inserted`) or at the head of the queue, with the given shuffle
    /// flag both for the enqueue and for the play.
    Play { at_inserted: bool, shuffle: bool },
}

/// The items of an optional fetch result.
pub open spec fn items_view(o: Option<Vec<Playable>>) -> Option<Seq<Playable>> {
    match o {
        Some(v) => Some(v@),
        None => None,
    }
}

/// Whether a kind of content expands to several items.
pub open spec fn is_collection(k: UriKind) -> bool {
    !(k == UriKind::Track || k == UriKind::Episode)
}

/// `r` is the queue calls that load `fetched`, the content fetched for a URI of
/// kind `k`, while the queue's shuffle flag is `shuffle`: nothing when the fetch
/// gave nothing; else the queue is cleared, the items are inserted (a show's
/// episodes in reverse order) and playback starts at the first of them.
pub open spec fn loads(r: Seq<QueueCall>, k: UriKind, fetched: Option<Seq<Playable>>, shuffle: bool) -> bool {
    match fetched {
        None => r.len() == 0,
        Some(items) => {
            &&& r.len() == 3
            &&& r[0] is Clear
            &&& if is_collection(k) {
                &&& r[1] is AppendNext
                &&& r[1]->AppendNext_0@ == (if k == UriKind::Show {
                    items.reverse()
                } else {
                    items
                })
                &&& r[2] == (QueueCall::Play { at_inserted: true, shuffle })
            } else {
                &&& r[1] is Append
                &&& r[1]->Append_0@ == items
                &&& r[2] == (QueueCall::Play { at_inserted: false, shuffle: false })
            }
        },
    }
}

/// The items of `v` in reverse order.
pub fn reversed(v: Vec<Playable>) -> (r: Vec<Playable>)
    ensures
        r@ == v@.reverse(),
{
    let mut rest = v;
    let mut out: Vec<Playable> = Vec::new();
    while rest.len() > 0
        invariant
            out@ + rest@.reverse() == v@.reverse(),
        decreases rest.len(),
    {
        let ghost before = rest@;
        let x = rest.pop().unwrap();
        proof {
            assert(before == rest@.push(x));
            assert(before.reverse() =~= seq![x] + rest@.reverse());
        }
        out.push(x);
        assert(out@ + rest@.reverse() =~= v@.reverse());
    }
    assert(rest@.reverse() =~= Seq::<Playable>::empty());
    assert(out@ =~= out@ + rest@.reverse());
    out
}

/// The queue calls that load the content fetched for an `OpenUri` request.
pub fn enqueue_plan(k: UriKind, fetched: Option<Vec<Playable>>, shuffle: bool) -> (r: Vec<QueueCall>)
    ensures
        loads(r@, k, items_view(fetched), shuffle),
{
    let mut out: Vec<QueueCall> = Vec::new();
    match fetched {
        None => {},
        Some(items) => {
            out.push(QueueCall::Clear);
            match k {
                UriKind::Track | UriKind::Episode => {
                    out.push(QueueCall::Append(items));
                    out.push(QueueCall::Play { at_inserted: false, shuffle: false });
                },
                UriKind::Show => {
                    out.push(QueueCall::AppendNext(reversed(items)));
                    out.push(QueueCall::Play { at_inserted: true, shuffle });
                },
                _ => {
                    out.push(QueueCall::AppendNext(items));
                    out.push(QueueCall::Play { at_inserted: true, shuffle });
                },
            }
        },
    }
    out
}

/// `Previous` skips back to the previous item while less than five seconds of
/// the current one have elapsed, and restarts the current one from then on.
pub proof fn previous_threshold(s: Snapshot)
    ensures
        s.progress_ms < 5000 ==> calls_for(Command::Previous, s) == seq![EngineCall::Previous],
        s.progress_ms >= 5000 ==> calls_for(Command::Previous, s) == seq![EngineCall::Seek(0)],
{
}

/// A relative seek whose target reaches the current item's length advances to
/// the next item; a target before the start seeks to position zero.
pub proof fn seek_past_end_or_before_start(s: Snapshot, offset_us: i64)
    requires
        s.current_duration is Some,
    ensures
        s.progress_ms + micros_to_millis(offset_us as int) >= s.current_duration->0
            ==> calls_for(Command::Seek(offset_us), s) == seq![EngineCall::Next],
        s.progress_ms + micros_to_millis(offset_us as int) < 0 && s.current_duration->0 > 0
            ==> calls_for(Command::Seek(offset_us), s) == seq![EngineCall::Seek(0)],
{
}

/// An absolute seek to a target at or past the current item's length makes no
/// call at all.
pub proof fn set_position_past_end_ignored(s: Snapshot, position_us: i64)
    requires
        s.current_duration is Some,
        position_target(position_us as int) >= s.current_duration->0,
    ensures
        calls_for(Command::SetPosition(position_us), s).len() == 0,
{
}

/// A volume write outside the valid range leaves the engine's volume alone and
/// still asks the user interface to redraw.
pub proof fn volume_out_of_range_refreshes(s: Snapshot)
    ensures
        calls_for(Command::SetVolume(None), s) == seq![EngineCall::Refresh],
{
}

/// Loading a show enqueues its episodes newest first: the fetched order reversed.
pub proof fn show_loads_reversed(r: Seq<QueueCall>, episodes: Seq<Playable>, shuffle: bool)
    requires
        loads(r, UriKind::Show, Some(episodes), shuffle),
    ensures
        r[1]->AppendNext_0@ == episodes.reverse(),
        r[1]->AppendNext_0@.len() == episodes.len(),
        forall|i: int| 0 <= i < episodes.len() ==> r[1]->AppendNext_0@[i] == episodes[episodes.len() - 1 - i],
{
}

/// Loading a playlist clears the queue, inserts its tracks in catalog order and
/// plays from the first of them; a fetch that gave nothing leaves the queue alone.
pub proof fn playlist_loads_in_order(r: Seq<QueueCall>, fetched: Option<Seq<Playable>>, shuffle: bool)
    requires
        loads(r, UriKind::Playlist, fetched, shuffle),
    ensures
        fetched is None ==> r.len() == 0,
        fetched is Some ==> r == seq![r[0], r[1], r[2]] && r[0] is Clear && r[1]->AppendNext_0@
            == fetched->0 && r[2] == (QueueCall::Play { at_inserted: true, shuffle }),
{
    if fetched is Some {
        assert(r =~= seq![r[0], r[1], r[2]]);
    }
}

} // verus!
