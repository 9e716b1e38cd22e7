//! A counter shared by worker threads. The counting is done here; the lock
//! that lets threads share it is taken by the caller.
use vstd::prelude::*;

verus! {

/// A count that never goes below zero.
pub struct RwUsize {
    value: usize,
}

impl RwUsize {
    /// The count.
    pub closed spec fn count(&self) -> nat {
        self.value as nat
    }

    /// A count of zero.
    pub fn new() -> (r: Self)
        ensures
            r.count() == 0,
    {
        RwUsize { value: 0 }
    }

    /// Adds one.
    pub fn increment(&mut self)
        requires
            old(self).count() < usize::MAX,
        ensures
            final(self).count() == old(self).count() + 1,
    {
        self.value = self.value + 1;
    }

    /// Takes one away; refused when the count is zero.
    pub fn decrement(&mut self) -> (r: Result<(), &'static str>)
        ensures
            r is Err <==> old(self).count() == 0,
            r matches Err(e) ==> e@ == "Value is already 0"@,
            r is Ok ==> final(self).count() == old(self).count() - 1,
            r is Err ==> final(self).count() == old(self).count(),
    {
        if self.value == 0 {
            return Err("Value is already 0");
        }
        self.value = self.value - 1;
        Ok(())
    }

    /// Adds `value`.
    pub fn add(&mut self, value: usize)
        requires
            old(self).count() + value <= usize::MAX,
        ensures
            final(self).count() == old(self).count() + value,
    {
        self.value = self.value + value;
    }

    /// The count.
    pub fn get_value(&self) -> (r: usize)
        ensures
            r == self.count(),
    {
        self.value
    }
}

/// `a - 1` as an unsigned machine word takes it: wrapping below zero.
pub open spec fn wrapped_decrement(a: usize) -> usize {
    if a == 0 {
        usize::MAX
    } else {
        (a - 1) as usize
    }
}

/// `a + 1` as an unsigned machine word takes it: wrapping past `usize::MAX`.
pub open spec fn wrapped_increment(a: usize) -> usize {
    if a == usize::MAX {
        0
    } else {
        (a + 1) as usize
    }
}

/// The counts that a channel between search threads keeps beside its
/// queue: how many sends were made and how many values wait to be
/// received. The transport itself is the caller's.
pub struct ChannelCounts {
    send_buffer: usize,
    receive_buffer: usize,
}

impl ChannelCounts {
    /// The count of sends made.
    pub closed spec fn sent(&self) -> usize {
        self.send_buffer
    }

    /// The count of values waiting.
    pub closed spec fn waiting(&self) -> usize {
        self.receive_buffer
    }

    /// Both counts zero.
    pub fn new() -> (r: Self)
        ensures
            r.sent() == 0,
            r.waiting() == 0,
    {
        ChannelCounts { send_buffer: 0, receive_buffer: 0 }
    }

    /// Records a send: when it went through, one more send and one more
    /// value waiting; when it failed, nothing changes (the send count that
    /// was raised before is lowered again).
    pub fn record_send(&mut self, sent: bool)
        ensures
            sent ==> final(self).sent() == wrapped_increment(old(self).sent())
                && final(self).waiting() == wrapped_increment(old(self).waiting()),
            !sent ==> final(self).sent() == old(self).sent() && final(self).waiting() == old(
                self,
            ).waiting(),
    {
        self.send_buffer = self.send_buffer.wrapping_add(1);
        if sent {
            self.receive_buffer = self.receive_buffer.wrapping_add(1);
        } else {
            self.send_buffer = self.send_buffer.wrapping_sub(1);
        }
    }

    /// Records a receive: when a value was received, one fewer waits.
    pub fn record_receive(&mut self, received: bool)
        ensures
            received ==> final(self).waiting() == wrapped_decrement(old(self).waiting()),
            !received ==> final(self).waiting() == old(self).waiting(),
            final(self).sent() == old(self).sent(),
    {
        if received {
            self.receive_buffer = self.receive_buffer.wrapping_sub(1);
        }
    }

    /// The count of sends made.
    pub fn get_send_buffer(&self) -> (r: usize)
        ensures
            r == self.sent(),
    {
        self.send_buffer
    }

    /// The count of values waiting.
    pub fn get_receive_buffer(&self) -> (r: usize)
        ensures
            r == self.waiting(),
    {
        self.receive_buffer
    }
}

} // verus!
