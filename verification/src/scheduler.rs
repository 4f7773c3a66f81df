//! The event queue of the machine: events with the cycle at which they fire.

use vstd::prelude::*;

verus! {

/// What an event does.
#[derive(Debug, Clone, Copy, PartialEq, Eq, Structural)]
pub enum EventKind {
    HBlank,
    HBlankEnd,
    TimerOverflow(u8),
    DmaComplete(u8),
    ApuSample,
    ApuFrameSequencer,
}

/// An event and the cycle at which it fires.
#[derive(Debug, Clone, Copy, PartialEq, Eq, Structural)]
pub struct Event {
    pub fire_time: u64,
    pub kind: EventKind,
}

/// The clock and the pending events.
#[derive(Debug)]
pub struct Scheduler {
    pub timestamp: u64,
    pub events: Vec<Event>,
}

/// What the scheduler holds: the clock, and the pending events in the order in
/// which they were scheduled.
#[verifier::ext_equal]
pub struct SchedulerState {
    pub timestamp: u64,
    pub events: Seq<Event>,
}

/// Where among the first `n` events the earliest one is; of several that fire
/// at the same time, the first.
pub open spec fn earliest(events: Seq<Event>, n: nat) -> int
    decreases n,
{
    if n <= 1 {
        0
    } else {
        let k = earliest(events, (n - 1) as nat);
        if events[n - 1].fire_time < events[k].fire_time {
            n - 1
        } else {
            k
        }
    }
}

impl SchedulerState {
    pub open spec fn earliest(self) -> int {
        earliest(self.events, self.events.len())
    }

    pub open spec fn next_time(self) -> Option<u64> {
        if self.events.len() == 0 {
            None
        } else {
            Some(self.events[self.earliest()].fire_time)
        }
    }

    /// Whether an event is due.
    pub open spec fn due(self) -> bool {
        self.events.len() > 0 && self.events[self.earliest()].fire_time <= self.timestamp
    }

    pub open spec fn scheduled(self, event: Event) -> SchedulerState {
        SchedulerState { events: self.events.push(event), ..self }
    }

    pub open spec fn advanced(self, cycles: u64) -> SchedulerState {
        SchedulerState { timestamp: (self.timestamp + cycles) as u64, ..self }
    }

    /// The scheduler without its earliest event.
    pub open spec fn popped(self) -> SchedulerState {
        SchedulerState { events: self.events.remove(self.earliest()), ..self }
    }

    pub open spec fn cancelled(self, kind: EventKind) -> SchedulerState {
        SchedulerState { events: self.events.filter(|e: Event| e.kind != kind), ..self }
    }
}

impl View for Scheduler {
    type V = SchedulerState;

    open spec fn view(&self) -> SchedulerState {
        SchedulerState { timestamp: self.timestamp, events: self.events@ }
    }
}

/// The earliest event fires no later than any other.
pub proof fn earliest_is_minimal(events: Seq<Event>, n: nat)
    requires
        0 < n <= events.len(),
    ensures
        0 <= earliest(events, n) < n,
        forall|j: int|
            0 <= j < n ==> events[earliest(events, n)].fire_time <= (#[trigger] events[j]).fire_time,
    decreases n,
{
    if n > 1 {
        earliest_is_minimal(events, (n - 1) as nat);
    }
}

impl Scheduler {
    /// The clock at zero and nothing pending.
    pub fn new() -> (s: Scheduler)
        ensures
            s@ == (SchedulerState { timestamp: 0, events: Seq::empty() }),
    {
        Scheduler { timestamp: 0, events: Vec::new() }
    }

    pub fn timestamp(&self) -> (t: u64)
        ensures
            t == self@.timestamp,
    {
        self.timestamp
    }

    /// Moves the clock forward.
    pub fn add_cycles(&mut self, cycles: u64)
        requires
            old(self)@.timestamp + cycles <= u64::MAX,
        ensures
            final(self)@ == old(self)@.advanced(cycles),
    {
        self.timestamp = self.timestamp + cycles;
    }

    /// Sets the clock.
    pub fn advance_to(&mut self, time: u64)
        ensures
            final(self)@ == (SchedulerState { timestamp: time, ..old(self)@ }),
    {
        self.timestamp = time;
    }

    /// Adds an event.
    pub fn schedule(&mut self, event: Event)
        ensures
            final(self)@ == old(self)@.scheduled(event),
    {
        self.events.push(event);
    }

    fn earliest_index(&self) -> (k: usize)
        requires
            self@.events.len() > 0,
        ensures
            k == self@.earliest(),
            k < self@.events.len(),
    {
        let mut k: usize = 0;
        let mut i: usize = 1;
        while i < self.events.len()
            invariant
                1 <= i <= self.events@.len(),
                k < i,
                k == earliest(self.events@, i as nat),
            decreases self.events@.len() - i,
        {
            if self.events[i].fire_time < self.events[k].fire_time {
                k = i;
            }
            i = i + 1;
        }
        k
    }

    /// When the earliest event fires.
    pub fn peek_time(&self) -> (t: Option<u64>)
        ensures
            t == self@.next_time(),
    {
        if self.events.len() == 0 {
            return None;
        }
        let k: usize = self.earliest_index();
        Some(self.events[k].fire_time)
    }

    /// Takes out the earliest event, if it is due.
    pub fn pop_if_ready(&mut self) -> (event: Option<Event>)
        ensures
            old(self)@.due() ==> event == Some(old(self)@.events[old(self)@.earliest()])
                && final(self)@ == old(self)@.popped(),
            !old(self)@.due() ==> event is None && final(self)@ == old(self)@,
    {
        if self.events.len() == 0 {
            return None;
        }
        let k: usize = self.earliest_index();
        if self.events[k].fire_time <= self.timestamp {
            Some(self.events.remove(k))
        } else {
            None
        }
    }

    /// Removes all events of a kind; the others keep their order.
    pub fn cancel(&mut self, kind: EventKind)
        ensures
            final(self)@ == old(self)@.cancelled(kind),
    {
        let ghost keep = |e: Event| e.kind != kind;
        let mut remaining: Vec<Event> = Vec::new();
        let mut i: usize = 0;
        while i < self.events.len()
            invariant
                i <= self.events@.len(),
                keep == (|e: Event| e.kind != kind),
                remaining@ == self.events@.take(i as int).filter(keep),
            decreases self.events@.len() - i,
        {
            let event = self.events[i];
            proof {
                let s = self.events@;
                assert(s.take(i + 1).drop_last() =~= s.take(i as int));
                reveal(Seq::filter);
            }
            if event.kind != kind {
                remaining.push(event);
            }
            i = i + 1;
        }
        assert(self.events@.take(self.events@.len() as int) =~= self.events@);
        self.events = remaining;
    }
}

/// What leaves the queue is an event of minimal time, and popping neither
/// moves the clock nor loses another event.
pub proof fn pop_takes_the_earliest(s: SchedulerState)
    requires
        s.due(),
    ensures
        forall|j: int|
            0 <= j < s.events.len() ==> s.events[s.earliest()].fire_time <= (
            #[trigger] s.events[j]).fire_time,
        s.popped().events.len() == s.events.len() - 1,
        s.popped().events.to_multiset() == s.events.to_multiset().remove(
            s.events[s.earliest()],
        ),
        s.popped().timestamp == s.timestamp,
{
    earliest_is_minimal(s.events, s.events.len());
    broadcast use vstd::seq_lib::group_to_multiset_ensures;

    assert(s.popped().events =~= s.events.remove(s.earliest()));
}

} // verus!
