//! Event counters for a workflow instance.

use vstd::prelude::*;

verus! {

/// Events emitted by a workflow instance.
pub enum EventType {
    /// A message was sent to the peer.
    SendMsg,
    /// A message was received from the peer.
    RecvMsg,
}

/// One more than `c`, stopping at the largest counter value.
pub open spec fn bumped(c: u64) -> u64 {
    if c < u64::MAX {
        (c + 1) as u64
    } else {
        c
    }
}

/// Counts the messages a workflow instance has exchanged with its peer.
#[derive(Debug, Clone)]
pub struct EventRecorder {
    send_msg: u64,
    recv_msg: u64,
}

impl EventRecorder {
    /// The number of messages sent.
    pub closed spec fn sent(&self) -> u64 {
        self.send_msg
    }

    /// The number of messages received.
    pub closed spec fn received(&self) -> u64 {
        self.recv_msg
    }

    /// A recorder with both counters at zero.
    pub fn new() -> (r: EventRecorder)
        ensures
            r.sent() == 0,
            r.received() == 0,
    {
        EventRecorder { send_msg: 0, recv_msg: 0 }
    }

    /// Count one event.
    pub fn process(&mut self, event: EventType)
        ensures
            event is SendMsg ==> final(self).sent() == bumped(old(self).sent()),
            event is SendMsg ==> final(self).received() == old(self).received(),
            event is RecvMsg ==> final(self).received() == bumped(old(self).received()),
            event is RecvMsg ==> final(self).sent() == old(self).sent(),
    {
        match event {
            EventType::SendMsg => {
                if self.send_msg < u64::MAX {
                    self.send_msg = self.send_msg + 1;
                }
            },
            EventType::RecvMsg => {
                if self.recv_msg < u64::MAX {
                    self.recv_msg = self.recv_msg + 1;
                }
            },
        }
    }

    /// The number of messages sent.
    pub fn sent_count(&self) -> (r: u64)
        ensures
            r == self.sent(),
    {
        self.send_msg
    }

    /// The number of messages received.
    pub fn received_count(&self) -> (r: u64)
        ensures
            r == self.received(),
    {
        self.recv_msg
    }
}

impl Default for EventRecorder {
    /// A recorder with both counters at zero.
    fn default() -> (r: EventRecorder)
        ensures
            r.sent() == 0,
            r.received() == 0,
    {
        EventRecorder::new()
    }
}

} // verus!
