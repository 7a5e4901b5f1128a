//! Who holds the engine's handle of a session. The session holds it, and so
//! does every channel that was opened from it: the handle is released when
//! the last of them is given up, whichever that is.

use vstd::prelude::*;

verus! {

/// The holders of one session handle: the session itself, while it has not
/// been given up, and its live channels.
#[derive(Debug, Clone, Copy, PartialEq, Eq)]
pub struct Owners {
    pub session: bool,
    pub channels: usize,
}

/// What can happen to the holders of a handle.
#[derive(Debug, Clone, Copy, PartialEq, Eq)]
pub enum OwnerEvent {
    /// A channel is opened from the session.
    OpenChannel,
    /// A channel is given up.
    DropChannel,
    /// The session is given up.
    DropSession,
}

impl Owners {
    /// Whether anyone holds the handle. Once nobody does, it is released.
    pub open spec fn held(&self) -> bool {
        self.session || self.channels > 0
    }

    /// The holders after an event. A channel is added only while the handle
    /// is held and the count has room; giving up what is not there changes
    /// nothing.
    pub open spec fn after(&self, event: OwnerEvent) -> Owners {
        match event {
            OwnerEvent::OpenChannel => if self.held() && self.channels < usize::MAX {
                Owners { session: self.session, channels: (self.channels + 1) as usize }
            } else {
                *self
            },
            OwnerEvent::DropChannel => if self.channels > 0 {
                Owners { session: self.session, channels: (self.channels - 1) as usize }
            } else {
                *self
            },
            OwnerEvent::DropSession => Owners { session: false, channels: self.channels },
        }
    }

    /// Whether an event releases the handle: it does where it takes away
    /// the last holder.
    pub open spec fn releases(&self, event: OwnerEvent) -> bool {
        self.held() && !self.after(event).held()
    }

    /// The holders after a run of events.
    pub open spec fn after_all(&self, events: Seq<OwnerEvent>) -> Owners
        decreases events.len(),
    {
        if events.len() == 0 {
            *self
        } else {
            self.after(events[0]).after_all(events.drop_first())
        }
    }

    /// How often the handle is released in a run of events.
    pub open spec fn releases_in(&self, events: Seq<OwnerEvent>) -> nat
        decreases events.len(),
    {
        if events.len() == 0 {
            0
        } else {
            (if self.releases(events[0]) {
                1nat
            } else {
                0nat
            }) + self.after(events[0]).releases_in(events.drop_first())
        }
    }

    /// The holders of a handle that the engine just gave out: the session,
    /// and no channel.
    pub fn new() -> (owners: Owners)
        ensures
            owners == (Owners { session: true, channels: 0 }),
            owners.held(),
    {
        Owners { session: true, channels: 0 }
    }

    /// Whether anyone holds the handle.
    pub fn is_held(&self) -> (held: bool)
        ensures
            held == self.held(),
    {
        self.session || self.channels > 0
    }

    /// Counts a new channel among the holders. The result says whether it
    /// was counted: not if the handle is released already, nor if the count
    /// is full.
    pub fn open_channel(&mut self) -> (counted: bool)
        ensures
            *final(self) == old(self).after(OwnerEvent::OpenChannel),
            counted == (old(self).held() && old(self).channels < usize::MAX),
    {
        if (self.session || self.channels > 0) && self.channels < usize::MAX {
            self.channels = self.channels + 1;
            true
        } else {
            false
        }
    }

    /// Takes a channel from the holders. The result says whether the handle
    /// is to be released now.
    pub fn drop_channel(&mut self) -> (release: bool)
        ensures
            *final(self) == old(self).after(OwnerEvent::DropChannel),
            release == old(self).releases(OwnerEvent::DropChannel),
    {
        if self.channels > 0 {
            self.channels = self.channels - 1;
            !self.session && self.channels == 0
        } else {
            false
        }
    }

    /// Takes the session from the holders. The result says whether the
    /// handle is to be released now.
    pub fn drop_session(&mut self) -> (release: bool)
        ensures
            *final(self) == old(self).after(OwnerEvent::DropSession),
            release == old(self).releases(OwnerEvent::DropSession),
    {
        let release = self.session && self.channels == 0;
        self.session = false;
        release
    }
}

/// Once nobody holds the handle, nobody ever does again, and it is not
/// released a second time.
pub proof fn lemma_released_stays(owners: Owners, events: Seq<OwnerEvent>)
    requires
        !owners.held(),
    ensures
        !owners.after_all(events).held(),
        owners.releases_in(events) == 0,
    decreases events.len(),
{
    if events.len() > 0 {
        lemma_released_stays(owners.after(events[0]), events.drop_first());
    }
}

/// In every run of events the handle is released exactly once if nobody
/// holds it in the end, and not at all if somebody still does: never twice,
/// and never while a channel or the session is left. Channels may be given
/// up before their session or after it.
pub proof fn lemma_released_once(owners: Owners, events: Seq<OwnerEvent>)
    requires
        owners.held(),
    ensures
        owners.releases_in(events) == if owners.after_all(events).held() {
            0nat
        } else {
            1nat
        },
    decreases events.len(),
{
    if events.len() > 0 {
        let next = owners.after(events[0]);
        if next.held() {
            lemma_released_once(next, events.drop_first());
        } else {
            lemma_released_stays(next, events.drop_first());
        }
    }
}

} // verus!
