//! The packets that have arrived and wait to be consumed, oldest first.

use std::collections::VecDeque;
use vstd::prelude::*;
use crate::codec::{UnknownPacketError, bytes_packet, decode};
use crate::packet::{PacketType, PacketView};

verus! {

/// Arrived packets in the order of their arrival. The receiving side
/// appends at the tail; the consumer takes from the head.
pub struct InboundQueue {
    packets: VecDeque<PacketType>,
}

impl View for InboundQueue {
    type V = Seq<PacketView>;

    closed spec fn view(&self) -> Seq<PacketView> {
        self.packets@.map_values(|p: PacketType| p@)
    }
}

impl InboundQueue {
    /// An empty queue.
    pub fn new() -> (queue: InboundQueue)
        ensures
            queue@ == Seq::<PacketView>::empty(),
    {
        let queue = InboundQueue { packets: VecDeque::new() };
        queue
    }

    /// The number of waiting packets.
    pub fn len(&self) -> (len: usize)
        ensures
            len == self@.len(),
    {
        self.packets.len()
    }

    /// Appends `packet` behind all that wait.
    pub fn push_back(&mut self, packet: PacketType)
        ensures
            final(self)@ == old(self)@.push(packet@),
    {
        self.packets.push_back(packet);
    }

    /// Takes the packet that has waited longest, if any waits. The others
    /// keep their order.
    pub fn get_packet(&mut self) -> (packet: Option<PacketType>)
        ensures
            match packet {
                Some(head) => {
                    &&& old(self)@.len() > 0
                    &&& head@ == old(self)@[0]
                    &&& final(self)@ == old(self)@.drop_first()
                },
                None => old(self)@.len() == 0 && final(self)@ == old(self)@,
            },
    {
        let packet = self.packets.pop_front();
        packet
    }

    /// Takes in the bytes of one read from the peer: decodes them and appends
    /// the packet. Bytes that hold no packet leave the queue as it was.
    pub fn receive(&mut self, data: &[u8]) -> (taken: Result<(), UnknownPacketError>)
        ensures
            match bytes_packet(data@) {
                Some(packet) => taken is Ok && final(self)@ == old(self)@.push(packet),
                None => {
                    &&& taken == Err::<(), UnknownPacketError>(UnknownPacketError)
                    &&& final(self)@ == old(self)@
                },
            },
    {
        match decode(data) {
            Ok(packet) => {
                self.push_back(packet);
                Ok(())
            },
            Err(e) => Err(e),
        }
    }
}

} // verus!
