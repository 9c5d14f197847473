//! The event multiplexer's logic: the classified events a render loop
//! consumes, how raw terminal events are classified, how long the poller
//! waits, and the FIFO queue between the poller and the render loop.
use vstd::prelude::*;
use std::collections::VecDeque;

verus! {

/// A key, as the front-ends read it.
#[derive(Debug, Clone, Copy, PartialEq, Eq)]
pub enum Key {
    Char(char),
    Left,
    Right,
    Up,
    Down,
    Enter,
    Backspace,
    Esc,
    Tab,
    /// Any key the front-ends do not react to.
    Other,
}

/// Whether a key went down, repeated, or came up.
#[derive(Debug, Clone, Copy, PartialEq, Eq)]
pub enum KeyKind {
    Press,
    Repeat,
    Release,
}

/// One key event.
#[derive(Debug, Clone, Copy, PartialEq, Eq)]
pub struct KeyInput {
    pub key: Key,
    pub kind: KeyKind,
}

/// Where the pointer is.
#[derive(Debug, Clone, Copy, PartialEq, Eq)]
pub struct Pointer {
    pub column: u16,
    pub row: u16,
}

/// An event as the terminal reports it.
#[derive(Debug, Clone, PartialEq, Eq)]
pub enum RawEvent {
    FocusGained,
    FocusLost,
    Key(KeyInput),
    Mouse(Pointer),
    Paste(String),
    Resize(u16, u16),
}

/// An event as the render loop consumes it.
#[derive(Debug, Clone, Copy, PartialEq, Eq)]
pub enum EventType {
    Tick,
    Key(KeyInput),
    Mouse(Pointer),
    Resize(u16, u16),
}

/// The classified event for a raw one: key presses, pointer moves and
/// resizes are relayed as they are; focus changes and pastes are not.
pub open spec fn classify_spec(raw: RawEvent) -> Option<EventType> {
    match raw {
        RawEvent::Key(k) => Some(EventType::Key(k)),
        RawEvent::Mouse(p) => Some(EventType::Mouse(p)),
        RawEvent::Resize(w, h) => Some(EventType::Resize(w, h)),
        _ => None,
    }
}

/// Classifies a raw terminal event; `None` for one that is not relayed.
pub fn classify(raw: &RawEvent) -> (r: Option<EventType>)
    ensures
        r == classify_spec(*raw),
{
    match raw {
        RawEvent::Key(k) => Some(EventType::Key(*k)),
        RawEvent::Mouse(p) => Some(EventType::Mouse(*p)),
        RawEvent::Resize(w, h) => Some(EventType::Resize(*w, *h)),
        _ => None,
    }
}

/// How long the poller waits for input: what remains of the tick interval
/// since the last tick, or the whole interval once it has run out. Both in
/// nanoseconds.
pub fn poll_timeout(tick_rate: u128, elapsed: u128) -> (r: u128)
    ensures
        r == if elapsed <= tick_rate {
            tick_rate - elapsed
        } else {
            tick_rate as int
        },
        r <= tick_rate,
{
    if elapsed <= tick_rate {
        tick_rate - elapsed
    } else {
        tick_rate
    }
}

/// Why an event was not queued.
#[derive(Debug, Clone, Copy, PartialEq, Eq)]
pub enum Refused {
    /// The queue holds as many events as it may: the producer waits.
    Full,
    /// The consumer has stopped the queue: the producer ends.
    Closed,
}

/// A bounded first-in first-out queue of events with a stop signal.
#[derive(Debug)]
pub struct EventQueue {
    items: VecDeque<EventType>,
    capacity: usize,
    closed: bool,
}

impl EventQueue {
    /// The events waiting, oldest first.
    pub closed spec fn items(&self) -> Seq<EventType> {
        self.items@
    }

    /// How many events may wait at once.
    pub closed spec fn capacity(&self) -> nat {
        self.capacity as nat
    }

    /// Whether the queue was stopped.
    pub closed spec fn is_stopped(&self) -> bool {
        self.closed
    }

    /// Whether the queue keeps within its bound.
    pub open spec fn wf(&self) -> bool {
        self.capacity() > 0 && self.items().len() <= self.capacity()
    }

    /// An empty, open queue for at most `capacity` events.
    pub fn new(capacity: usize) -> (r: EventQueue)
        requires
            capacity > 0,
        ensures
            r.wf(),
            r.items() == Seq::<EventType>::empty(),
            r.capacity() == capacity,
            !r.is_stopped(),
    {
        EventQueue { items: VecDeque::new(), capacity, closed: false }
    }

    /// Appends `ev` behind the waiting events, unless the queue is stopped
    /// or full; a refused event leaves the queue as it was.
    pub fn push(&mut self, ev: EventType) -> (r: Result<(), Refused>)
        requires
            old(self).wf(),
        ensures
            final(self).wf(),
            final(self).capacity() == old(self).capacity(),
            final(self).is_stopped() == old(self).is_stopped(),
            old(self).is_stopped() ==> r == Err::<(), Refused>(Refused::Closed) && final(self).items()
                == old(self).items(),
            !old(self).is_stopped() && old(self).items().len() == old(self).capacity() ==> r == Err::<
                (),
                Refused,
            >(Refused::Full) && final(self).items() == old(self).items(),
            !old(self).is_stopped() && old(self).items().len() < old(self).capacity() ==> r is Ok
                && final(self).items() == old(self).items().push(ev),
    {
        if self.closed {
            return Err(Refused::Closed);
        }
        if self.items.len() >= self.capacity {
            return Err(Refused::Full);
        }
        self.items.push_back(ev);
        Ok(())
    }

    /// Takes the oldest waiting event, if any.
    pub fn pop(&mut self) -> (r: Option<EventType>)
        requires
            old(self).wf(),
        ensures
            final(self).wf(),
            final(self).capacity() == old(self).capacity(),
            final(self).is_stopped() == old(self).is_stopped(),
            old(self).items().len() == 0 ==> r is None && final(self).items() == old(self).items(),
            old(self).items().len() > 0 ==> r == Some(old(self).items()[0]) && final(self).items()
                == old(self).items().skip(1),
    {
        let r = self.items.pop_front();
        proof {
            if old(self).items().len() > 0 {
                assert(self.items@ =~= old(self).items().skip(1));
            }
        }
        r
    }

    /// Stops the queue: no event is accepted afterwards; those waiting can
    /// still be taken.
    pub fn close(&mut self)
        requires
            old(self).wf(),
        ensures
            final(self).wf(),
            final(self).is_stopped(),
            final(self).items() == old(self).items(),
            final(self).capacity() == old(self).capacity(),
    {
        self.closed = true;
    }

    /// Whether the queue was stopped.
    pub fn is_closed(&self) -> (r: bool)
        ensures
            r == self.is_stopped(),
    {
        self.closed
    }

    /// The number of waiting events.
    pub fn len(&self) -> (r: usize)
        ensures
            r == self.items().len(),
    {
        self.items.len()
    }
}

} // verus!
