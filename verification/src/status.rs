//! The status log of the dashboard: the last messages, oldest first, never
//! more of them than its capacity.

use std::time::Instant;
use vstd::prelude::*;

verus! {

/// `std::time::Instant`: a reading of the machine's monotonic clock. Nothing
/// is known of what it holds.
#[verifier::external_type_specification]
#[verifier::external_body]
pub struct ExInstant(Instant);

/// `Instant::now` of the standard library: the current reading of the
/// monotonic clock. Nothing is claimed of it.
#[verifier::external_body]
pub(crate) fn now() -> Instant {
    Instant::now()
}

#[derive(Debug, Clone, Copy, PartialEq, Eq, Structural)]
pub enum LogLevel {
    Info,
    Warning,
    Error,
}

#[derive(Debug)]
pub struct StatusMessage {
    /// When the message was logged.
    pub timestamp: Instant,
    pub level: LogLevel,
    pub message: String,
}

/// What a status message says, whenever it was logged.
pub struct LogEntry {
    pub level: LogLevel,
    pub text: Seq<char>,
}

impl View for StatusMessage {
    type V = LogEntry;

    open spec fn view(&self) -> LogEntry {
        LogEntry { level: self.level, text: self.message@ }
    }
}

impl Clone for StatusMessage {
    fn clone(&self) -> (copy: Self)
        ensures
            copy@ == self@,
            copy.timestamp == self.timestamp,
    {
        StatusMessage {
            timestamp: self.timestamp,
            level: self.level,
            message: self.message.clone(),
        }
    }
}

/// The log after one more entry: the entry comes last, and where the log
/// would then hold more than `capacity` entries, its oldest entry leaves.
pub open spec fn pushed(log: Seq<LogEntry>, capacity: nat, entry: LogEntry) -> Seq<LogEntry> {
    if log.len() + 1 > capacity {
        log.push(entry).drop_first()
    } else {
        log.push(entry)
    }
}

/// The status log.
#[derive(Debug)]
pub struct StatusLog {
    messages: Vec<StatusMessage>,
    capacity: usize,
}

impl StatusLog {
    #[verifier::type_invariant]
    spec fn within_capacity(self) -> bool {
        self.messages.len() <= self.capacity
    }

    /// What the log says, oldest entry first.
    pub closed spec fn entries(self) -> Seq<LogEntry> {
        Seq::new(self.messages.len() as nat, |i: int| self.messages[i]@)
    }

    /// The greatest number of entries that the log keeps.
    pub closed spec fn cap(self) -> nat {
        self.capacity as nat
    }

    /// An empty log that keeps `capacity` entries.
    pub fn new(capacity: usize) -> (log: Self)
        ensures
            log.entries().len() == 0,
            log.cap() == capacity,
    {
        StatusLog { messages: Vec::new(), capacity }
    }

    /// Logs a message. A full log first lets go of its oldest entry; the
    /// order of the others stays.
    pub fn push(&mut self, message: StatusMessage)
        ensures
            final(self).entries() == pushed(old(self).entries(), old(self).cap(), message@),
            final(self).cap() == old(self).cap(),
            final(self).entries().len() <= final(self).cap(),
    {
        proof {
            use_type_invariant(&*self);
        }
        let ghost before = self.entries();
        let mut messages: Vec<StatusMessage> = Vec::new();
        std::mem::swap(&mut self.messages, &mut messages);
        messages.push(message);
        if messages.len() > self.capacity {
            messages.remove(0);
        }
        self.messages = messages;
        assert(self.entries() =~= pushed(before, self.cap(), message@));
    }

    /// The number of entries.
    pub fn len(&self) -> (count: usize)
        ensures
            count == self.entries().len(),
            count <= self.cap(),
    {
        proof {
            use_type_invariant(self);
        }
        self.messages.len()
    }

    /// The greatest number of entries that the log keeps.
    pub fn capacity(&self) -> (capacity: usize)
        ensures
            capacity == self.cap(),
    {
        self.capacity
    }

    /// The messages, oldest first.
    pub fn messages(&self) -> (messages: &Vec<StatusMessage>)
        ensures
            messages@.len() == self.entries().len(),
            forall|i: int|
                0 <= i < messages@.len() ==> (#[trigger] messages@[i])@ == self.entries()[i],
    {
        &self.messages
    }
}

/// A log within its capacity stays within it when an entry is pushed; a
/// full one loses its oldest entry and nothing else, and the entries that
/// stay keep their order.
pub proof fn log_stays_within_capacity(log: Seq<LogEntry>, capacity: nat, entry: LogEntry)
    requires
        log.len() <= capacity,
    ensures
        pushed(log, capacity, entry).len() <= capacity,
        log.len() < capacity ==> pushed(log, capacity, entry) == log.push(entry),
        log.len() == capacity && capacity > 0 ==> pushed(log, capacity, entry)
            == log.drop_first().push(entry) && pushed(log, capacity, entry).len() == capacity,
{
    if log.len() == capacity && capacity > 0 {
        assert(log.push(entry).drop_first() =~= log.drop_first().push(entry));
    }
}

} // verus!
