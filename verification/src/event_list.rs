//! A record of events in time: which event was under way when, and for how
//! long, grouped into sequences.

use vstd::prelude::*;
use crate::time::{since, span, Clock};

verus! {

/// An event that is under way.
#[derive(Debug, Clone, Copy)]
pub struct ActiveEvent<T> {
    /// What the event is.
    pub data: T,
    /// The clock reading at which the event began.
    pub start_time: u64,
}

/// An event that is over.
#[derive(Debug, Clone, Copy)]
pub struct CompletedEvent<T> {
    /// What the event was.
    pub data: T,
    /// Nanoseconds the event lasted.
    pub elapsed_time: u64,
}

impl<T> ActiveEvent<T> {
    /// The event as it is once it has ended at the clock reading `end`. An
    /// end before the start counts as no time at all.
    pub open spec fn completed_at(self, end: u64) -> CompletedEvent<T> {
        CompletedEvent {
            data: self.data,
            elapsed_time: since(end as int, self.start_time as int) as u64,
        }
    }

    /// An event that begins at the clock reading `now`.
    pub fn begin(data: T, now: u64) -> (event: ActiveEvent<T>)
        ensures
            event == (ActiveEvent { data, start_time: now }),
    {
        ActiveEvent { data, start_time: now }
    }

    /// Ends the event at the current reading of `clock`.
    pub fn complete_now(self, clock: &Clock) -> (done: CompletedEvent<T>)
        ensures
            done.data == self.data,
            exists|end: u64| done == #[trigger] self.completed_at(end),
    {
        let end = clock.now();
        let done = self.complete_at(end);
        assert(done == self.completed_at(end));
        done
    }

    /// Ends the event at the clock reading `end`.
    pub fn complete_at(self, end: u64) -> (done: CompletedEvent<T>)
        ensures
            done == self.completed_at(end),
    {
        CompletedEvent { data: self.data, elapsed_time: span(self.start_time, end) }
    }
}

/// A sequence of events that followed one another without a gap, as plain
/// values.
pub struct SequenceView<T> {
    /// The events, in the order in which they ended.
    pub values: Seq<CompletedEvent<T>>,
    /// The clock reading at which the first event began.
    pub start: u64,
    /// The clock reading at which the sequence ended, once it has.
    pub end: Option<u64>,
}

/// A sequence of events that followed one another without a gap.
#[derive(Debug, Clone)]
pub struct TimedSequence<T> {
    values: Vec<CompletedEvent<T>>,
    /// The clock reading at which the first event began.
    pub start: u64,
    /// The clock reading at which the sequence ended, once it has.
    pub end: Option<u64>,
}

impl<T> View for TimedSequence<T> {
    type V = SequenceView<T>;

    closed spec fn view(&self) -> SequenceView<T> {
        SequenceView { values: self.values@, start: self.start, end: self.end }
    }
}

impl<T> SequenceView<T> {
    /// Nanoseconds from the start of the sequence to its end, once it has
    /// ended.
    pub open spec fn duration(self) -> Option<u64> {
        match self.end {
            Some(end) => Some(since(end as int, self.start as int) as u64),
            None => None,
        }
    }
}

impl<T> TimedSequence<T> {
    /// A sequence of one event, begun at the clock reading `start` and not
    /// yet ended.
    pub fn new(value: CompletedEvent<T>, start: u64) -> (sequence: TimedSequence<T>)
        ensures
            sequence@ == (SequenceView { values: seq![value], start, end: None }),
    {
        let mut values: Vec<CompletedEvent<T>> = Vec::new();
        values.push(value);
        assert(values@ =~= seq![value]);
        TimedSequence { values, start, end: None }
    }

    /// Nanoseconds from the start of the sequence to its end, once it has
    /// ended.
    pub fn duration(&self) -> (d: Option<u64>)
        ensures
            d == self@.duration(),
    {
        match self.end {
            Some(end) => Some(span(self.start, end)),
            None => None,
        }
    }

    /// Ends the sequence at the clock reading `end` and returns the end it
    /// had before.
    pub fn complete(&mut self, end: u64) -> (before: Option<u64>)
        ensures
            before == old(self)@.end,
            final(self)@ == (SequenceView { end: Some(end), ..old(self)@ }),
    {
        let before = self.end;
        self.end = Some(end);
        before
    }

    /// The number of events in the sequence.
    pub fn len(&self) -> (n: usize)
        ensures
            n == self@.values.len(),
    {
        self.values.len()
    }

    /// Appends an event to the sequence.
    fn append(&mut self, value: CompletedEvent<T>)
        ensures
            final(self)@ == (SequenceView {
                values: old(self)@.values.push(value),
                ..old(self)@
            }),
    {
        self.values.push(value);
    }
}

/// A record of events, as plain values.
pub struct EventListView<T> {
    /// The sequences of events that are over, oldest first.
    pub sequences: Seq<SequenceView<T>>,
    /// The event under way, where there is one.
    pub active: Option<ActiveEvent<T>>,
}

impl<T> EventListView<T> {
    /// The record after `value` begins at the clock reading `now`. The event
    /// that was under way ends at `now` and joins the last sequence; it opens
    /// the first sequence where there is none.
    pub open spec fn pushed(self, value: T, now: u64) -> EventListView<T> {
        let active = Some(ActiveEvent { data: value, start_time: now });
        match self.active {
            None => EventListView { sequences: self.sequences, active },
            Some(previous) => {
                let done = previous.completed_at(now);
                if self.sequences.len() == 0 {
                    EventListView {
                        sequences: seq![
                            SequenceView { values: seq![done], start: previous.start_time, end: None },
                        ],
                        active,
                    }
                } else {
                    let last = self.sequences.last();
                    EventListView {
                        sequences: self.sequences.drop_last().push(
                            SequenceView { values: last.values.push(done), ..last },
                        ),
                        active,
                    }
                }
            },
        }
    }

    /// The record after the event under way ends at the clock reading
    /// `now`: the last sequence ends at `now`, and the event opens a
    /// sequence of its own. Nothing changes where no event is under way.
    pub open spec fn completed(self, now: u64) -> EventListView<T> {
        match self.active {
            None => self,
            Some(event) => {
                let opened = SequenceView {
                    values: seq![event.completed_at(now)],
                    start: event.start_time,
                    end: None,
                };
                if self.sequences.len() == 0 {
                    EventListView { sequences: seq![opened], active: None }
                } else {
                    let last = self.sequences.last();
                    EventListView {
                        sequences: self.sequences.drop_last().push(
                            SequenceView { end: Some(now), ..last },
                        ).push(opened),
                        active: None,
                    }
                }
            },
        }
    }

    /// The number of sequences that have ended: all of them, but for the
    /// last where that one has not ended.
    pub open spec fn ended(self) -> int {
        if self.sequences.len() > 0 && self.sequences.last().end is None {
            self.sequences.len() - 1
        } else {
            self.sequences.len() as int
        }
    }

    /// The number of events in the first `n` sequences.
    pub open spec fn events_in(self, n: int) -> int
        decreases n,
    {
        if n <= 0 {
            0
        } else {
            self.events_in(n - 1) + self.sequences[n - 1].values.len()
        }
    }
}

/// A record of events: the sequences that are over and the event under way.
#[derive(Debug, Clone)]
pub struct EventList<T> {
    completed_events: Vec<TimedSequence<T>>,
    active_event: Option<ActiveEvent<T>>,
}

impl<T> View for EventList<T> {
    type V = EventListView<T>;

    closed spec fn view(&self) -> EventListView<T> {
        EventListView {
            sequences: Seq::new(
                self.completed_events@.len(),
                |i: int| self.completed_events@[i]@,
            ),
            active: self.active_event,
        }
    }
}

impl<T> Default for EventList<T> {
    fn default() -> (list: EventList<T>)
        ensures
            list@ == (EventListView::<T> { sequences: Seq::empty(), active: None }),
    {
        let list = EventList { completed_events: Vec::new(), active_event: None };
        assert(list@.sequences =~= Seq::empty());
        list
    }
}

impl<T> EventList<T> {
    /// An empty record.
    pub fn new() -> (list: EventList<T>)
        ensures
            list@ == (EventListView::<T> { sequences: Seq::empty(), active: None }),
    {
        let list = EventList { completed_events: Vec::new(), active_event: None };
        assert(list@.sequences =~= Seq::empty());
        list
    }

    /// Begins the event `value` at the clock reading `now`.
    pub fn push(&mut self, value: T, now: u64)
        ensures
            final(self)@ == old(self)@.pushed(value, now),
    {
        let event = ActiveEvent::begin(value, now);
        let mut active = Some(event);
        core::mem::swap(&mut self.active_event, &mut active);
        match active {
            Some(previous) => {
                let start_time = previous.start_time;
                let done = previous.complete_at(now);
                match self.completed_events.pop() {
                    Some(mut last) => {
                        last.append(done);
                        self.completed_events.push(last);
                    },
                    None => {
                        self.completed_events.push(TimedSequence::new(done, start_time));
                    },
                }
            },
            None => {},
        }
        assert(self@.sequences =~= old(self)@.pushed(value, now).sequences);
    }

    /// The event under way, where there is one.
    pub fn active_event(&self) -> (active: &Option<ActiveEvent<T>>)
        ensures
            *active == self@.active,
    {
        &self.active_event
    }

    /// The sequences of events that are over, oldest first.
    pub fn sequences(&self) -> (sequences: &Vec<TimedSequence<T>>)
        ensures
            sequences@.len() == self@.sequences.len(),
            forall|i: int| 0 <= i < sequences@.len() ==> sequences@[i]@ == self@.sequences[i],
    {
        &self.completed_events
    }

    /// Ends the event under way at the clock reading `now`, and tells
    /// whether there was one.
    pub fn complete(&mut self, now: u64) -> (ended: bool)
        ensures
            ended == old(self)@.active is Some,
            final(self)@ == old(self)@.completed(now),
    {
        match self.active_event.take() {
            Some(event) => {
                let start_time = event.start_time;
                let done = event.complete_at(now);
                match self.completed_events.pop() {
                    Some(mut last) => {
                        last.complete(now);
                        self.completed_events.push(last);
                    },
                    None => {},
                }
                self.completed_events.push(TimedSequence::new(done, start_time));
                assert(self@.sequences =~= old(self)@.completed(now).sequences);
                true
            },
            None => {
                assert(self@.sequences =~= old(self)@.sequences);
                false
            },
        }
    }

    /// The number of sequences that have ended.
    pub fn total_completed_sequences(&self) -> (n: usize)
        ensures
            n == self@.ended(),
    {
        let len = self.completed_events.len();
        if len > 0 && self.completed_events[len - 1].end.is_none() {
            len - 1
        } else {
            len
        }
    }

    /// The number of events in all sequences, without the event under way.
    /// The count stops at the greatest number a `usize` holds.
    pub fn total_events_len(&self) -> (n: usize)
        ensures
            n == if self@.events_in(self@.sequences.len() as int) > usize::MAX {
                usize::MAX as int
            } else {
                self@.events_in(self@.sequences.len() as int)
            },
    {
        let mut total: usize = 0;
        let mut i: usize = 0;
        while i < self.completed_events.len()
            invariant
                i <= self.completed_events.len(),
                self@.sequences.len() == self.completed_events.len(),
                0 <= self@.events_in(i as int),
                total == if self@.events_in(i as int) > usize::MAX {
                    usize::MAX as int
                } else {
                    self@.events_in(i as int)
                },
            decreases self.completed_events.len() - i,
        {
            let here = self.completed_events[i].len();
            assert(self@.sequences[i as int] == self.completed_events@[i as int]@);
            total = if here > usize::MAX - total {
                usize::MAX
            } else {
                total + here
            };
            i += 1;
        }
        total
    }
}

} // verus!
