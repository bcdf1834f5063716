//! The actor that records the times at which frames are drawn.
//!
//! The actor decides; sending a request for the next frame is its caller's.
//! Each operation that may call for such a request says so in its result.
use vstd::prelude::*;
use crate::actor::ActorError;

verus! {

/// Records frame times while it is recording, and hands them out in one
/// piece. A time is a double-precision bit pattern.
pub struct FramerateActor {
    name: String,
    is_recording: bool,
    ticks: Vec<u64>,
}

impl FramerateActor {
    /// The actor's name.
    pub closed spec fn name_view(&self) -> Seq<char> {
        self.name@
    }

    /// Whether the actor asks for a frame after each one that it sees.
    pub closed spec fn recording(&self) -> bool {
        self.is_recording
    }

    /// The times that were added and not yet taken, oldest first.
    pub closed spec fn pending(&self) -> Seq<u64> {
        self.ticks@
    }

    /// A new actor under `name`. It records from the start and has no
    /// time yet: its caller requests the first frame.
    pub fn create(name: String) -> (r: FramerateActor)
        ensures
            r.name_view() == name@,
            r.recording(),
            r.pending() == Seq::<u64>::empty(),
    {
        let mut actor = FramerateActor { name, is_recording: false, ticks: Vec::new() };
        let _ = actor.start_recording();
        actor
    }

    /// The actor's name.
    pub fn name(&self) -> (r: String)
        ensures
            r@ == self.name_view(),
    {
        self.name.clone()
    }

    /// The actor answers no message: every kind is unrecognized.
    pub fn handle_message(&self, msg_type: &str) -> (r: Result<(), ActorError>)
        ensures
            r == Err::<(), ActorError>(ActorError::UnrecognizedPacketType),
    {
        Err(ActorError::UnrecognizedPacketType)
    }

    /// Adds the time of a frame. The result says whether the next frame is
    /// to be requested: it is while the actor records.
    pub fn add_tick(&mut self, tick: u64) -> (request: bool)
        ensures
            final(self).pending() == old(self).pending().push(tick),
            final(self).recording() == old(self).recording(),
            final(self).name_view() == old(self).name_view(),
            request == old(self).recording(),
    {
        self.ticks.push(tick);
        self.is_recording
    }

    /// Hands out the times that were added since the last call, oldest
    /// first, and keeps none.
    pub fn take_pending_ticks(&mut self) -> (r: Vec<u64>)
        ensures
            r@ == old(self).pending(),
            final(self).pending() == Seq::<u64>::empty(),
            final(self).recording() == old(self).recording(),
            final(self).name_view() == old(self).name_view(),
    {
        let mut taken: Vec<u64> = Vec::new();
        std::mem::swap(&mut self.ticks, &mut taken);
        taken
    }

    /// Starts recording. The result says whether a frame is to be
    /// requested: it is unless the actor was recording already.
    pub fn start_recording(&mut self) -> (request: bool)
        ensures
            final(self).recording(),
            request == !old(self).recording(),
            final(self).pending() == old(self).pending(),
            final(self).name_view() == old(self).name_view(),
    {
        if self.is_recording {
            return false;
        }
        self.is_recording = true;
        true
    }

    /// Stops recording. Times that were added stay until they are taken.
    pub fn stop_recording(&mut self)
        ensures
            !final(self).recording(),
            final(self).pending() == old(self).pending(),
            final(self).name_view() == old(self).name_view(),
    {
        if !self.is_recording {
            return ;
        }
        self.is_recording = false;
    }
}

} // verus!
