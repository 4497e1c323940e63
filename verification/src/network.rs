//! Packet handlers over plain bytes. The sockets and addresses live in the
//! application shell; a handler here only decides what to answer.

use vstd::prelude::*;

verus! {

/// A handler that answers every datagram with its own bytes, counting them.
#[derive(Debug, Clone, PartialEq, Eq)]
pub struct EchoHandler {
    packet_count: u64,
}

impl EchoHandler {
    /// How many datagrams this handler has answered.
    pub closed spec fn count(self) -> u64 {
        self.packet_count
    }

    /// A fresh handler that has seen nothing.
    pub fn new() -> (r: Self)
        ensures
            r.count() == 0,
    {
        EchoHandler { packet_count: 0 }
    }

    /// Answers one datagram with a copy of its bytes; the count grows by one
    /// until it saturates.
    pub fn handle_packet(&mut self, data: &[u8]) -> (r: Option<Vec<u8>>)
        ensures
            final(self).count() == if old(self).count() < u64::MAX {
                (old(self).count() + 1) as u64
            } else {
                u64::MAX
            },
            match r {
                Some(v) => v@ == data@,
                None => false,
            },
    {
        if self.packet_count < u64::MAX {
            self.packet_count = self.packet_count + 1;
        }
        Some(vstd::slice::slice_to_vec(data))
    }
}

} // verus!
