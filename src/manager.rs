//! The hand-over of player state changes from the player to the bridge loop.
use vstd::prelude::*;
use crate::mapper::{playback_status, status_of};
use crate::model::{Playable, PlaybackStatus, PlayerEvent};

verus! {

/// A change of the player's state, to be announced on the control interface.
#[derive(Clone, Debug)]
pub struct MprisState {
    pub status: PlaybackStatus,
    pub current: Option<Playable>,
}

/// Holds the latest state change that the bridge loop has not yet announced.
/// A newer change replaces an unread older one: only the latest is announced.
pub struct MprisManager {
    pending: Option<MprisState>,
}

impl MprisManager {
    /// The change that awaits announcement, if any.
    pub closed spec fn pending(&self) -> Option<MprisState> {
        self.pending
    }

    /// A manager with nothing to announce.
    pub fn new() -> (r: Self)
        ensures
            r.pending() is None,
    {
        MprisManager { pending: None }
    }

    /// Records the player's new state: the engine's last event and the queue's
    /// current item. Replaces any change not yet announced.
    pub fn update(&mut self, ev: PlayerEvent, current: Option<Playable>)
        ensures
            final(self).pending() == Some(MprisState { status: status_of(ev), current }),
    {
        let status = playback_status(ev);
        self.pending = Some(MprisState { status, current });
    }

    /// Takes the latest change for announcement, leaving nothing pending.
    pub fn take(&mut self) -> (r: Option<MprisState>)
        ensures
            r == old(self).pending(),
            final(self).pending() is None,
    {
        self.pending.take()
    }
}

} // verus!
