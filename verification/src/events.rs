//! The script of a level: events that spawn enemies, each at a time of its
//! own or a given span after another event.
//!
//! An event waits in the pending list until it fires; then it leaves the list
//! and the time at which it fired is kept under its id. An event that follows
//! another has no time of its own until that other has fired. One call of
//! [`EventSystem::process`] first fires what is due and only then gives
//! followers their time, so a follower fires in a later call than the event
//! it follows: a chain of events takes one call for each of its links.

use vstd::prelude::*;
use std::collections::HashMap;
use crate::coords::Point;
use crate::enemy::EnemyType;
use crate::time::{Duration, Timestamp};

verus! {

/// The id that stands for the start of the level: an event that follows it
/// gets its time when the level starts.
pub const LEVEL_REF: u32 = u32::MAX;

/// What an event does when it fires.
#[derive(Clone, Copy, Debug, PartialEq, Eq, Structural)]
pub enum EventType {
    /// An enemy of the given kind appears at the given place.
    _SpawnEnemy(Point<i64>, EnemyType),
}

/// A scripted event.
#[derive(Clone, Copy, Debug)]
pub struct Event {
    pub id: u32,
    /// When the event fires, once that is known.
    pub time: Option<Timestamp>,
    /// The id of the event that this one follows, and by how long.
    pub ref_evt: Option<(u32, Duration)>,
    pub variant: EventType,
}

impl Event {
    /// An event has a time of its own or follows another, not both.
    pub open spec fn wf(&self) -> bool {
        !(self.time is Some && self.ref_evt is Some)
    }

    /// Whether the event fires at `now`: it has a time, and that is not in
    /// the future.
    pub open spec fn is_due(&self, now: Timestamp) -> bool {
        match self.time {
            Some(t) => t.nanos <= now.nanos,
            None => false,
        }
    }

    /// The event as it is kept when the level starts at `now`: one that
    /// follows the start of the level gets its time, every other is kept as
    /// it is.
    pub open spec fn anchored(self, now: Timestamp) -> Event {
        match self.ref_evt {
            Some((id, offset)) => if id == LEVEL_REF {
                Event { time: Some(now.spec_after(offset)), ref_evt: None, ..self }
            } else {
                self
            },
            None => self,
        }
    }

    /// The event once the events in `history` have fired: one that follows
    /// any of them gets its time, every other is kept as it is.
    pub open spec fn resolved(self, history: Map<u32, Timestamp>) -> Event {
        match self.ref_evt {
            Some((id, offset)) => if history.contains_key(id) {
                Event { time: Some(history[id].spec_after(offset)), ref_evt: None, ..self }
            } else {
                self
            },
            None => self,
        }
    }
}

/// The events of `pending` that fire at `now`, in their order.
pub open spec fn due_events(pending: Seq<Event>, now: Timestamp) -> Seq<Event>
    decreases pending.len(),
{
    if pending.len() == 0 {
        Seq::empty()
    } else {
        let before = due_events(pending.drop_last(), now);
        if pending.last().is_due(now) {
            before.push(pending.last())
        } else {
            before
        }
    }
}

/// The events of `pending` that do not fire at `now`, in their order.
pub open spec fn waiting_events(pending: Seq<Event>, now: Timestamp) -> Seq<Event>
    decreases pending.len(),
{
    if pending.len() == 0 {
        Seq::empty()
    } else {
        let before = waiting_events(pending.drop_last(), now);
        if pending.last().is_due(now) {
            before
        } else {
            before.push(pending.last())
        }
    }
}

/// `history` with `now` under the id of each event of `pending` that fires
/// at `now`.
pub open spec fn history_after(history: Map<u32, Timestamp>, pending: Seq<Event>, now: Timestamp) -> Map<
    u32,
    Timestamp,
>
    decreases pending.len(),
{
    if pending.len() == 0 {
        history
    } else {
        let before = history_after(history, pending.drop_last(), now);
        if pending.last().is_due(now) {
            before.insert(pending.last().id, now)
        } else {
            before
        }
    }
}

/// What each of `events` does, in their order.
pub open spec fn payloads(events: Seq<Event>) -> Seq<EventType> {
    Seq::new(events.len(), |i: int| events[i].variant)
}

/// What an event system holds.
pub struct EventSystemView {
    /// The events that have not fired yet, in the order of the script.
    pub pending: Seq<Event>,
    /// When the events that have fired did, by id.
    pub history: Map<u32, Timestamp>,
}

impl EventSystemView {
    /// The system of a level with the given script that starts at `now`.
    pub open spec fn start(events: Seq<Event>, now: Timestamp) -> EventSystemView {
        EventSystemView {
            pending: Seq::new(events.len(), |i: int| events[i].anchored(now)),
            history: Map::empty(),
        }
    }

    /// What the events that fire at `now` do, in the order of the script.
    pub open spec fn fired(self, now: Timestamp) -> Seq<EventType> {
        payloads(due_events(self.pending, now))
    }

    /// The system after the call at `now`: what was due has fired and is in
    /// the history, and of what is left, each event that follows one in the
    /// history has its time.
    pub open spec fn processed(self, now: Timestamp) -> EventSystemView {
        let history = history_after(self.history, self.pending, now);
        let waiting = waiting_events(self.pending, now);
        EventSystemView {
            pending: Seq::new(waiting.len(), |i: int| waiting[i].resolved(history)),
            history,
        }
    }
}

/// The script of a level as it runs.
#[derive(Debug)]
pub struct EventSystem {
    pub list: Vec<Event>,
    pub history: HashMap<u32, Timestamp>,
    pub _latest_id: u32,
}

impl View for EventSystem {
    type V = EventSystemView;

    open spec fn view(&self) -> EventSystemView {
        EventSystemView { pending: self.list@, history: self.history@ }
    }
}

impl Clone for EventSystem {
    fn clone(&self) -> (copy: Self)
        ensures
            copy@ == self@,
            copy._latest_id == self._latest_id,
    {
        EventSystem {
            list: self.list.clone(),
            history: self.history.clone(),
            _latest_id: self._latest_id,
        }
    }
}

impl EventSystem {
    /// The system of a level with the given script that starts at `now`.
    pub fn new(evt_list: Vec<Event>, now: Timestamp) -> (system: EventSystem)
        ensures
            system@ == EventSystemView::start(evt_list@, now),
    {
        let mut list: Vec<Event> = Vec::new();
        let mut i: usize = 0;
        while i < evt_list.len()
            invariant
                i <= evt_list.len(),
                list@ == Seq::new(i as nat, |k: int| evt_list@[k].anchored(now)),
            decreases evt_list.len() - i,
        {
            let mut evt = evt_list[i];
            match evt.ref_evt {
                Some((id, offset)) => {
                    if id == LEVEL_REF {
                        evt.time = Some(now.after(offset));
                        evt.ref_evt = None;
                    }
                },
                None => {},
            }
            list.push(evt);
            i = i + 1;
        }
        EventSystem { list, history: HashMap::new(), _latest_id: 0 }
    }

    /// Whether every event has fired.
    pub fn events_clear(&self) -> (clear: bool)
        ensures
            clear == (self@.pending.len() == 0),
    {
        self.list.len() == 0
    }

    /// Fires the events that are due at `now` and returns what they do, in
    /// the order of the script; then gives its time to each event that
    /// follows one that has fired.
    pub fn process(&mut self, now: Timestamp) -> (fired: Vec<EventType>)
        ensures
            fired@ == old(self)@.fired(now),
            final(self)@ == old(self)@.processed(now),
            final(self)._latest_id == old(self)._latest_id,
    {
        let ghost pending = self.list@;
        let ghost history = self.history@;
        let mut fired: Vec<EventType> = Vec::new();
        let mut waiting: Vec<Event> = Vec::new();
        let mut i: usize = 0;
        while i < self.list.len()
            invariant
                i <= self.list.len(),
                self.list@ == pending,
                self._latest_id == old(self)._latest_id,
                fired@ == payloads(due_events(pending.take(i as int), now)),
                waiting@ == waiting_events(pending.take(i as int), now),
                self.history@ == history_after(history, pending.take(i as int), now),
            decreases self.list.len() - i,
        {
            let evt = self.list[i];
            proof {
                assert(pending.take(i as int + 1).drop_last() == pending.take(i as int));
            }
            let due = match evt.time {
                Some(t) => t.nanos <= now.nanos,
                None => false,
            };
            if due {
                fired.push(evt.variant);
                self.history.insert(evt.id, now);
            } else {
                waiting.push(evt);
            }
            i = i + 1;
        }
        proof {
            assert(pending.take(i as int) == pending);
        }
        let mut list: Vec<Event> = Vec::new();
        let mut j: usize = 0;
        while j < waiting.len()
            invariant
                j <= waiting.len(),
                list@ == Seq::new(j as nat, |k: int| waiting@[k].resolved(self.history@)),
            decreases waiting.len() - j,
        {
            let mut evt = waiting[j];
            match evt.ref_evt {
                Some((id, offset)) => {
                    match self.history.get(&id) {
                        Some(at) => {
                            evt.time = Some(at.after(offset));
                            evt.ref_evt = None;
                        },
                        None => {},
                    }
                },
                None => {},
            }
            list.push(evt);
            j = j + 1;
        }
        self.list = list;
        fired
    }
}

/// Whether an event with the given id is among those of `pending` that fire
/// at `now`.
pub open spec fn fires_id(pending: Seq<Event>, now: Timestamp, id: u32) -> bool {
    exists|k: int| 0 <= k < pending.len() && #[trigger] pending[k].id == id && pending[k].is_due(now)
}

/// Each pending event is among the due ones or among the waiting ones,
/// according to whether it is due, and nothing else is among them.
pub proof fn lemma_due_and_waiting(pending: Seq<Event>, now: Timestamp)
    ensures
        forall|e: Event| #[trigger]
            due_events(pending, now).contains(e) <==> pending.contains(e) && e.is_due(now),
        forall|e: Event| #[trigger]
            waiting_events(pending, now).contains(e) <==> pending.contains(e) && !e.is_due(now),
    decreases pending.len(),
{
    if pending.len() == 0 {
        assert forall|e: Event| !due_events(pending, now).contains(e) && !waiting_events(
            pending,
            now,
        ).contains(e) && !pending.contains(e) by {}
    } else {
        let before = pending.drop_last();
        let last = pending.last();
        lemma_due_and_waiting(before, now);
        assert forall|e: Event| #[trigger]
            pending.contains(e) <==> before.contains(e) || e == last by {
            if pending.contains(e) {
                let k = choose|k: int| 0 <= k < pending.len() && pending[k] == e;
                if k < before.len() {
                    assert(before[k] == e);
                }
            }
        }
        let due_before = due_events(before, now);
        let waiting_before = waiting_events(before, now);
        assert forall|e: Event| #[trigger]
            due_before.push(last).contains(e) <==> due_before.contains(e) || e == last by {
            lemma_push_contains(due_before, last, e);
        }
        assert forall|e: Event| #[trigger]
            waiting_before.push(last).contains(e) <==> waiting_before.contains(e) || e == last by {
            lemma_push_contains(waiting_before, last, e);
        }
        assert forall|e: Event| #[trigger]
            due_events(pending, now).contains(e) <==> pending.contains(e) && e.is_due(now) by {}
        assert forall|e: Event| #[trigger]
            waiting_events(pending, now).contains(e) <==> pending.contains(e) && !e.is_due(
                now,
            ) by {
            assert(waiting_before.push(last).contains(e) <==> waiting_before.contains(e) || e
                == last);
        }
    }
}

/// What a sequence holds after a push: what it held, and what was pushed.
proof fn lemma_push_contains(events: Seq<Event>, last: Event, e: Event)
    ensures
        events.push(last).contains(e) <==> events.contains(e) || e == last,
{
    let pushed = events.push(last);
    if events.contains(e) {
        let k = choose|k: int| 0 <= k < events.len() && events[k] == e;
        assert(pushed[k] == e);
    }
    if e == last {
        assert(pushed[events.len() as int] == e);
    }
}

/// The history after a call holds the ids that it held and those of the
/// events that fired in the call; the latter with the time of the call, the
/// others with the time they had.
pub proof fn lemma_history_after(history: Map<u32, Timestamp>, pending: Seq<Event>, now: Timestamp)
    ensures
        forall|id: u32| #[trigger]
            history_after(history, pending, now).contains_key(id) <==> history.contains_key(id)
                || fires_id(pending, now, id),
        forall|id: u32|
            fires_id(pending, now, id) ==> #[trigger] history_after(history, pending, now)[id]
                == now,
        forall|id: u32|
            !fires_id(pending, now, id) && history.contains_key(id) ==> #[trigger] history_after(
                history,
                pending,
                now,
            )[id] == history[id],
    decreases pending.len(),
{
    let after = history_after(history, pending, now);
    if pending.len() == 0 {
        assert forall|id: u32| !fires_id(pending, now, id) by {}
    } else {
        let before = pending.drop_last();
        let last = pending.last();
        let after_before = history_after(history, before, now);
        lemma_history_after(history, before, now);
        assert(after == if last.is_due(now) {
            after_before.insert(last.id, now)
        } else {
            after_before
        });
        assert forall|id: u32|
            fires_id(pending, now, id) <==> fires_id(before, now, id) || (last.id == id
                && last.is_due(now)) by {
            if fires_id(pending, now, id) {
                let k = choose|k: int|
                    0 <= k < pending.len() && #[trigger] pending[k].id == id && pending[k].is_due(
                        now,
                    );
                if k < before.len() {
                    assert(before[k].id == id && before[k].is_due(now));
                }
            }
        }
        assert forall|id: u32|
            (#[trigger] after.contains_key(id) <==> history.contains_key(id) || fires_id(
                pending,
                now,
                id,
            )) && (fires_id(pending, now, id) ==> after[id] == now) && (!fires_id(pending, now, id)
                && history.contains_key(id) ==> after[id] == history[id]) by {
            assert(after_before.contains_key(id) <==> history.contains_key(id) || fires_id(
                before,
                now,
                id,
            ));
        }
    }
}

/// An event that follows the start of the level fires at the first call
/// that is made when its span has passed since the start, and at no call
/// before that. (Where the start plus the span lies beyond the last
/// nanosecond that a timestamp can hold, the event is due at that last
/// nanosecond.)
pub proof fn lemma_level_start_event_fires_on_time(
    events: Seq<Event>,
    i: int,
    offset: Duration,
    start: Timestamp,
    now: Timestamp,
)
    requires
        0 <= i < events.len(),
        events[i].ref_evt == Some((LEVEL_REF, offset)),
    ensures
        ({
            let system = EventSystemView::start(events, start);
            let kept = system.pending[i];
            &&& system.pending.len() == events.len()
            &&& kept == (Event { time: Some(start.spec_after(offset)), ref_evt: None, ..events[i] })
            &&& now.nanos >= start.nanos + offset.nanos ==> due_events(system.pending, now).contains(
                kept,
            )
            &&& now.nanos < start.nanos + offset.nanos && start.nanos + offset.nanos <= u64::MAX
                ==> !due_events(system.pending, now).contains(kept)
        }),
{
    let system = EventSystemView::start(events, start);
    lemma_due_and_waiting(system.pending, now);
}

/// An event that follows another fires no sooner than its span after the
/// time at which the other fired, and in a later call.
///
/// Let an event wait for the event of id `first`, which has not fired yet,
/// and let an event of that id fire in the call at `fired_at`. Then the
/// follower does not fire in that call. After the call it is still pending,
/// now with the time `fired_at` plus its span, and a later call at `later`
/// fires it exactly when `later` has reached that time.
pub proof fn lemma_follower_fires_after_its_span(
    system: EventSystemView,
    j: int,
    first: u32,
    offset: Duration,
    fired_at: Timestamp,
    later: Timestamp,
)
    requires
        0 <= j < system.pending.len(),
        system.pending[j].wf(),
        system.pending[j].ref_evt == Some((first, offset)),
        !system.history.contains_key(first),
        fires_id(system.pending, fired_at, first),
    ensures
        ({
            let follower = system.pending[j];
            let next = system.processed(fired_at);
            let timed = Event {
                time: Some(fired_at.spec_after(offset)),
                ref_evt: None,
                ..follower
            };
            &&& !due_events(system.pending, fired_at).contains(follower)
            &&& next.history.contains_key(first) && next.history[first] == fired_at
            &&& next.pending.contains(timed)
            &&& later.nanos >= fired_at.nanos + offset.nanos ==> due_events(
                next.pending,
                later,
            ).contains(timed)
            &&& later.nanos < fired_at.nanos + offset.nanos && fired_at.nanos + offset.nanos
                <= u64::MAX ==> !due_events(next.pending, later).contains(timed)
        }),
{
    let follower = system.pending[j];
    let next = system.processed(fired_at);
    let history = history_after(system.history, system.pending, fired_at);
    let waiting = waiting_events(system.pending, fired_at);
    lemma_due_and_waiting(system.pending, fired_at);
    lemma_history_after(system.history, system.pending, fired_at);
    assert(waiting.contains(follower));
    let k = choose|k: int| 0 <= k < waiting.len() && waiting[k] == follower;
    assert(next.pending[k] == follower.resolved(history));
    lemma_due_and_waiting(next.pending, later);
}

/// Whether each of `events` has a time of its own or follows another, not
/// both.
pub open spec fn all_valid(events: Seq<Event>) -> bool {
    forall|i: int| 0 <= i < events.len() ==> (#[trigger] events[i]).wf()
}

/// Events that have a time of their own or follow another, not both, stay
/// so: when the level starts, and in every call.
pub proof fn lemma_events_stay_valid(events: Seq<Event>, system: EventSystemView, now: Timestamp)
    ensures
        all_valid(events) ==> all_valid(EventSystemView::start(events, now).pending),
        all_valid(system.pending) ==> all_valid(system.processed(now).pending),
{
    if all_valid(events) {
        let started = EventSystemView::start(events, now).pending;
        assert forall|i: int| 0 <= i < started.len() implies (#[trigger] started[i]).wf() by {
            assert(events[i].wf());
        }
    }
    if all_valid(system.pending) {
        let history = history_after(system.history, system.pending, now);
        let waiting = waiting_events(system.pending, now);
        let after = system.processed(now).pending;
        lemma_due_and_waiting(system.pending, now);
        assert forall|i: int| 0 <= i < after.len() implies (#[trigger] after[i]).wf() by {
            assert(waiting.contains(waiting[i]));
            let k = choose|k: int| 0 <= k < system.pending.len() && system.pending[k] == waiting[i];
            assert(system.pending[k].wf());
        }
    }
}

} // verus!
