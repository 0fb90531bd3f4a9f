//! Bookkeeping of the WebSocket broadcast hub: which sessions are connected,
//! the ids they are given, and the message types pushed to them.

use vstd::prelude::*;
use std::collections::HashMap;

verus! {

broadcast use vstd::std_specs::hash::group_hash_axioms;

/// The kinds of message pushed to every WebSocket client.
#[derive(Debug, Clone, Copy, PartialEq, Eq, Structural)]
pub enum WsMessageType {
    SensorReading,
    TransmissionError,
    PointingAccuracy,
    Alarm,
}

/// The `message_type` field of a pushed message.
pub open spec fn message_type_tag(t: WsMessageType) -> Seq<char> {
    match t {
        WsMessageType::SensorReading => "sensor_reading"@,
        WsMessageType::TransmissionError => "transmission_error"@,
        WsMessageType::PointingAccuracy => "pointing_accuracy"@,
        WsMessageType::Alarm => "alarm"@,
    }
}

impl WsMessageType {
    /// The `message_type` field of a pushed message: `sensor_reading`,
    /// `transmission_error`, `pointing_accuracy` or `alarm`.
    pub fn tag(&self) -> (r: &'static str)
        ensures
            r@ == message_type_tag(*self),
    {
        match *self {
            WsMessageType::SensorReading => "sensor_reading",
            WsMessageType::TransmissionError => "transmission_error",
            WsMessageType::PointingAccuracy => "pointing_accuracy",
            WsMessageType::Alarm => "alarm",
        }
    }
}

/// The connected WebSocket sessions, each under the id it was given when it
/// connected. Ids are handed out from a counter and never reused.
pub struct WsBroadcastServer<R> {
    sessions: HashMap<usize, R>,
    counter: usize,
}

impl<R> WsBroadcastServer<R> {
    #[verifier::type_invariant]
    spec fn ids_below_counter(self) -> bool {
        forall|id: usize| #[trigger] self.sessions@.contains_key(id) ==> 1 <= id <= self.counter
    }

    /// The connected sessions by id.
    pub closed spec fn session_map(&self) -> Map<usize, R> {
        self.sessions@
    }

    /// The last id handed out (0 before any session connected).
    pub closed spec fn last_id(&self) -> usize {
        self.counter
    }

    /// A hub with no sessions.
    pub fn new() -> (r: Self)
        ensures
            r.session_map() == Map::<usize, R>::empty(),
            r.last_id() == 0,
    {
        WsBroadcastServer { sessions: HashMap::new(), counter: 0 }
    }

    /// Registers a session and returns its id: one more than the last id handed out.
    pub fn connect(&mut self, addr: R) -> (id: usize)
        requires
            old(self).last_id() < usize::MAX,
        ensures
            id == old(self).last_id() + 1,
            final(self).last_id() == id,
            !old(self).session_map().contains_key(id),
            final(self).session_map() == old(self).session_map().insert(id, addr),
    {
        proof {
            use_type_invariant(&*self);
        }
        let id: usize = self.counter + 1;
        let mut sessions = HashMap::new();
        std::mem::swap(&mut sessions, &mut self.sessions);
        sessions.insert(id, addr);
        *self = WsBroadcastServer { sessions, counter: id };
        id
    }

    /// Unregisters the session with id `id`, if there is one.
    pub fn disconnect(&mut self, id: usize)
        ensures
            final(self).last_id() == old(self).last_id(),
            final(self).session_map() == old(self).session_map().remove(id),
    {
        proof {
            use_type_invariant(&*self);
        }
        let counter: usize = self.counter;
        let mut sessions = HashMap::new();
        std::mem::swap(&mut sessions, &mut self.sessions);
        sessions.remove(&id);
        *self = WsBroadcastServer { sessions, counter };
    }

    /// The connected sessions, to each of which a broadcast is sent.
    pub fn sessions(&self) -> (r: &HashMap<usize, R>)
        ensures
            r@ == self.session_map(),
    {
        &self.sessions
    }

    /// The last id handed out (0 before any session connected).
    pub fn last_issued_id(&self) -> (r: usize)
        ensures
            r == self.last_id(),
    {
        self.counter
    }

    /// How many sessions are connected.
    pub fn session_count(&self) -> (r: usize)
        ensures
            r == self.session_map().len(),
    {
        self.sessions.len()
    }
}

impl<R> Default for WsBroadcastServer<R> {
    /// A hub with no sessions.
    fn default() -> (r: Self)
        ensures
            r.session_map() == Map::<usize, R>::empty(),
            r.last_id() == 0,
    {
        Self::new()
    }
}

/// Disconnecting the id that a connection was just given leaves the sessions
/// as they were before it connected.
pub proof fn law_disconnect_undoes_connect<R>(sessions: Map<usize, R>, id: usize, addr: R)
    requires
        !sessions.contains_key(id),
    ensures
        sessions.insert(id, addr).remove(id) == sessions,
{
    assert(sessions.insert(id, addr).remove(id) =~= sessions);
}

} // verus!
