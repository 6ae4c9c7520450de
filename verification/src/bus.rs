//! The edit ring: the bounded first-in, first-out channel of edit commands
//! between the control side and the compute side.
//!
//! The ring never drops a command silently: a send against a full ring
//! fails with back-pressure and hands the rejected command back to the
//! caller, verbatim.

use std::collections::VecDeque;

use vstd::prelude::*;

use crate::protocol::Protocol;

verus! {

/// How many commands the edit ring holds at most.
pub const BUS_CAPACITY: usize = 32;

/// The bounded command ring. Commands come out in the order they went in,
/// and at most [`BUS_CAPACITY`] are ever pending.
pub struct Bus {
    queue: VecDeque<Protocol>,
}

impl View for Bus {
    type V = Seq<Protocol>;

    closed spec fn view(&self) -> Seq<Protocol> {
        self.queue@
    }
}

impl Bus {
    /// An empty ring.
    pub fn new() -> (r: Bus)
        ensures
            r@.len() == 0,
    {
        Bus { queue: VecDeque::new() }
    }

    /// How many commands are pending.
    pub fn len(&self) -> (r: usize)
        ensures
            r == self@.len(),
    {
        self.queue.len()
    }

    /// Whether no command is pending.
    pub fn is_empty(&self) -> (r: bool)
        ensures
            r <==> self@.len() == 0,
    {
        self.queue.len() == 0
    }

    /// Offers a command to the ring. With room left, the command joins the
    /// back of the queue and nothing comes back; against a full ring the
    /// send fails with back-pressure, returning the rejected command to the
    /// caller unchanged.
    pub fn send(&mut self, protocol: Protocol) -> (r: Option<Protocol>)
        ensures
            old(self)@.len() < BUS_CAPACITY ==> r is None && final(self)@ == old(self)@.push(
                protocol,
            ),
            old(self)@.len() >= BUS_CAPACITY ==> r == Some(protocol) && final(self)@ == old(
                self,
            )@,
    {
        if self.queue.len() >= BUS_CAPACITY {
            Some(protocol)
        } else {
            self.queue.push_back(protocol);
            None
        }
    }

    /// Takes the oldest pending command, if one is pending.
    pub fn receive(&mut self) -> (r: Option<Protocol>)
        ensures
            old(self)@.len() == 0 ==> r is None && final(self)@ == old(self)@,
            old(self)@.len() > 0 ==> r == Some(old(self)@[0]) && final(self)@ == old(
                self,
            )@.drop_first(),
    {
        self.queue.pop_front()
    }
}

impl Default for Bus {
    fn default() -> (r: Bus)
        ensures
            r@.len() == 0,
    {
        Bus::new()
    }
}

} // verus!
