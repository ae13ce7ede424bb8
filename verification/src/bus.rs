//! The bookkeeping of the event bus: which adapters an event goes to, which
//! events are still undelivered, and what is handed to the store when the bus
//! shuts down.
use crate::channels::texts;
use crate::clock::utc_now;
use crate::event::{Event, Log};
use crate::name::Name;
use crate::text::{decimal, decimal_text};
use vstd::prelude::*;

verus! {

/// The phases of the bus task.
#[derive(Debug, Clone, Copy, PartialEq, Eq, Structural)]
pub enum BusPhase {
    /// Receiving events.
    Running,
    /// Shutdown was observed; the pending logs are being flushed.
    Draining,
    /// The task is complete.
    Stopped,
}

/// What the bus task turns to next.
#[derive(Debug, Clone, Copy, PartialEq, Eq, Structural)]
pub enum NextInput {
    /// Handle the shutdown signal.
    Shutdown,
    /// Take the next event from the inbound queue.
    Receive,
    /// Nothing is ready: wait.
    Wait,
}

/// Chooses between the shutdown signal and the inbound queue: when both are
/// ready, shutdown wins.
pub fn next_input(shutdown_ready: bool, inbound_ready: bool) -> (r: NextInput)
    ensures
        shutdown_ready ==> r == NextInput::Shutdown,
        !shutdown_ready && inbound_ready ==> r == NextInput::Receive,
        !shutdown_ready && !inbound_ready ==> r == NextInput::Wait,
{
    if shutdown_ready {
        NextInput::Shutdown
    } else if inbound_ready {
        NextInput::Receive
    } else {
        NextInput::Wait
    }
}

/// The positions, in increasing order, of the adapters whose name is among
/// `channels`.
pub open spec fn targets_of(channels: Seq<Seq<char>>, adapter_names: Seq<Seq<char>>) -> Seq<int>
    decreases adapter_names.len(),
{
    if adapter_names.len() == 0 {
        Seq::empty()
    } else {
        let before = targets_of(channels, adapter_names.drop_last());
        if channels.contains(adapter_names.last()) {
            before.push(adapter_names.len() - 1)
        } else {
            before
        }
    }
}

/// True when at least one of the outcomes is a success.
pub open spec fn any_delivered(outcomes: Seq<bool>) -> bool {
    exists|i: int| 0 <= i < outcomes.len() && #[trigger] outcomes[i]
}

/// The events of `events` whose identifier is not `id`, in their order.
pub open spec fn without_id(events: Seq<Event>, id: u128) -> Seq<Event> {
    events.filter(|e: Event| e.id != id)
}

/// The records of a sequence of batches, one after the other.
pub open spec fn flatten(batches: Seq<Seq<Event>>) -> Seq<Event>
    decreases batches.len(),
{
    if batches.len() == 0 {
        Seq::empty()
    } else {
        flatten(batches.drop_last()) + batches.last()
    }
}

/// The records of each log of a sequence.
pub open spec fn batches_of(logs: Seq<Log>) -> Seq<Seq<Event>> {
    logs.map_values(|l: Log| l.records@)
}

/// The state of the bus as plain values: its phase, the batches that wait
/// to be persisted, and the events of the current batch.
pub struct BusModel {
    pub phase: BusPhase,
    pub pending: Seq<Seq<Event>>,
    pub current: Seq<Event>,
}

impl BusModel {
    /// The state after `event` was received: while running, it joins the
    /// current batch.
    pub open spec fn receive(self, event: Event) -> BusModel {
        if self.phase == BusPhase::Running {
            BusModel { current: self.current.push(event), ..self }
        } else {
            self
        }
    }

    /// The current batch after the sends of the event `id` ended with
    /// `outcomes`: one success is enough to drop the event; without a
    /// success it stays.
    pub open spec fn kept(self, id: u128, outcomes: Seq<bool>) -> Seq<Event> {
        if any_delivered(outcomes) {
            without_id(self.current, id)
        } else {
            self.current
        }
    }

    /// The state after the sends of the event `id` ended with `outcomes`:
    /// what is kept of the current batch, if anything, is committed to the
    /// pending batches, and a new batch begins.
    pub open spec fn complete(self, id: u128, outcomes: Seq<bool>) -> BusModel {
        if self.phase == BusPhase::Running {
            let kept = self.kept(id, outcomes);
            BusModel {
                phase: self.phase,
                pending: if kept.len() > 0 {
                    self.pending.push(kept)
                } else {
                    self.pending
                },
                current: Seq::empty(),
            }
        } else {
            self
        }
    }

    /// The state after the shutdown signal was observed: what remains of the
    /// current batch joins the pending batches, and the bus drains.
    pub open spec fn drain(self) -> BusModel {
        if self.phase == BusPhase::Running {
            BusModel {
                phase: BusPhase::Draining,
                pending: if self.current.len() > 0 {
                    self.pending.push(self.current)
                } else {
                    self.pending
                },
                current: Seq::empty(),
            }
        } else {
            self
        }
    }

    /// The state after the inbound queue was closed and drained, or after the
    /// flush: the bus stops.
    pub open spec fn stop(self) -> BusModel {
        BusModel { phase: BusPhase::Stopped, ..self }
    }

    /// The events that a flush hands to the store.
    pub open spec fn persisted(self) -> Seq<Event> {
        flatten(self.pending)
    }

    /// The undelivered tail: the events that were received and not dropped.
    pub open spec fn undelivered(self) -> Seq<Event> {
        flatten(self.pending) + self.current
    }

    /// No pending batch is empty.
    pub open spec fn wf(self) -> bool {
        forall|i: int| 0 <= i < self.pending.len() ==> (#[trigger] self.pending[i]).len() > 0
    }
}

/// The targets of an event are exactly the adapters that its channels
/// name: a position is among them if and only if the adapter at that position
/// has a name that the channels hold. The positions increase, so no adapter
/// is a target twice.
pub proof fn targets_are_the_named_adapters(channels: Seq<Seq<char>>, adapter_names: Seq<Seq<char>>)
    ensures
        forall|i: int|
            targets_of(channels, adapter_names).contains(i) <==> 0 <= i < adapter_names.len()
                && channels.contains(adapter_names[i]),
        forall|a: int, b: int|
            0 <= a < b < targets_of(channels, adapter_names).len() ==> targets_of(
                channels,
                adapter_names,
            )[a] < targets_of(channels, adapter_names)[b],
        forall|a: int|
            0 <= a < targets_of(channels, adapter_names).len() ==> 0 <= #[trigger] targets_of(
                channels,
                adapter_names,
            )[a] < adapter_names.len(),
    decreases adapter_names.len(),
{
    let all = targets_of(channels, adapter_names);
    if adapter_names.len() > 0 {
        let shorter = adapter_names.drop_last();
        let before = targets_of(channels, shorter);
        let last = adapter_names.len() - 1;
        targets_are_the_named_adapters(channels, shorter);
        assert forall|i: int|
            all.contains(i) <==> 0 <= i < adapter_names.len() && channels.contains(
                adapter_names[i],
            ) by {
            if all.contains(i) {
                let k = choose|k: int| 0 <= k < all.len() && all[k] == i;
                if k < before.len() {
                    assert(before[k] == i);
                    assert(before.contains(i));
                    assert(shorter[i] == adapter_names[i]);
                }
            }
            if 0 <= i < adapter_names.len() && channels.contains(adapter_names[i]) {
                if i < last {
                    assert(shorter[i] == adapter_names[i]);
                    assert(before.contains(i));
                    let k = choose|k: int| 0 <= k < before.len() && before[k] == i;
                    assert(all[k] == i);
                } else {
                    assert(all[before.len() as int] == i);
                }
            }
        }
    }
}

/// Adding a batch adds its records at the end.
pub proof fn flatten_push(batches: Seq<Seq<Event>>, batch: Seq<Event>)
    ensures
        flatten(batches.push(batch)) == flatten(batches) + batch,
{
    assert(batches.push(batch).drop_last() =~= batches);
}

/// Tail retention. A running bus with an empty current batch receives the
/// event `e`, its sends end with `outcomes`, and then the bus shuts down.
/// What the flush hands to the store is what was pending before, followed by
/// `e` if no adapter took it, and by nothing if at least one did.
pub proof fn tail_retention(bus: BusModel, e: Event, outcomes: Seq<bool>)
    requires
        bus.phase == BusPhase::Running,
        bus.current.len() == 0,
    ensures
        bus.receive(e).complete(e.id, outcomes).drain().phase == BusPhase::Draining,
        bus.receive(e).complete(e.id, outcomes).drain().persisted() == if any_delivered(outcomes) {
            bus.persisted()
        } else {
            bus.persisted() + seq![e]
        },
{
    reveal_with_fuel(Seq::filter, 2);
    let received = bus.receive(e);
    assert(received.current =~= seq![e]);
    assert(seq![e].drop_last() =~= Seq::<Event>::empty());
    assert(without_id(seq![e], e.id) =~= Seq::<Event>::empty());
    if !any_delivered(outcomes) {
        flatten_push(bus.pending, seq![e]);
    }
}

/// An event that no adapter took stays in the undelivered tail; what the
/// tail held before stays too.
pub proof fn failed_event_stays(bus: BusModel, e: Event, outcomes: Seq<bool>)
    requires
        bus.phase == BusPhase::Running,
        !any_delivered(outcomes),
    ensures
        bus.receive(e).complete(e.id, outcomes).undelivered() == bus.undelivered() + seq![e],
{
    let received = bus.receive(e);
    flatten_push(bus.pending, received.current);
    assert(received.complete(e.id, outcomes).undelivered() =~= bus.undelivered() + seq![e]);
}

/// The bus only moves forward: from running to draining to stopped.
pub proof fn phases_move_forward(bus: BusModel, e: Event, id: u128, outcomes: Seq<bool>)
    ensures
        bus.receive(e).phase == bus.phase,
        bus.complete(id, outcomes).phase == bus.phase,
        bus.drain().phase == if bus.phase == BusPhase::Running {
            BusPhase::Draining
        } else {
            bus.phase
        },
        bus.stop().phase == BusPhase::Stopped,
{
}

/// The bus's working set.
#[derive(Debug)]
pub struct EventBus {
    pub phase: BusPhase,
    pub pending_logs: Vec<Log>,
    pub current_log: Log,
}

/// Tells whether at least one of the outcomes is a success.
pub fn has_success(outcomes: &Vec<bool>) -> (r: bool)
    ensures
        r == any_delivered(outcomes@),
{
    let mut i: usize = 0;
    while i < outcomes.len()
        invariant
            0 <= i <= outcomes@.len(),
            forall|j: int| 0 <= j < i ==> !outcomes@[j],
        decreases outcomes@.len() - i,
    {
        if outcomes[i] {
            return true;
        }
        i = i + 1;
    }
    false
}

/// The positions of the adapters that `event` goes to: those whose name is
/// among the event's channels, each once, in increasing order.
pub fn select_adapters(event: &Event, adapter_names: &Vec<String>) -> (r: Vec<usize>)
    ensures
        r@.map_values(|i: usize| i as int) == targets_of(event.channels@, texts(adapter_names@)),
{
    let mut targets: Vec<usize> = Vec::new();
    let mut i: usize = 0;
    let ghost names = texts(adapter_names@);
    while i < adapter_names.len()
        invariant
            0 <= i <= adapter_names@.len(),
            names == texts(adapter_names@),
            targets@.map_values(|i: usize| i as int) == targets_of(
                event.channels@,
                names.take(i as int),
            ),
        decreases adapter_names@.len() - i,
    {
        let ghost before = targets@;
        proof {
            assert(names.take(i as int + 1).drop_last() =~= names.take(i as int));
            assert(names.take(i as int + 1).last() == adapter_names@[i as int]@);
        }
        if event.is_for_channel(adapter_names[i].as_str()) {
            targets.push(i);
            assert(targets@.map_values(|i: usize| i as int) =~= before.map_values(
                |i: usize| i as int,
            ).push(i as int));
        }
        i = i + 1;
    }
    proof {
        assert(names.take(i as int) =~= names);
    }
    targets
}

/// Moves the events whose identifier is not `id` out of `events`, in their
/// order.
fn drop_id(events: Vec<Event>, id: u128) -> (r: Vec<Event>)
    ensures
        r@ == without_id(events@, id),
{
    let mut rest = events;
    let mut out: Vec<Event> = Vec::new();
    let ghost all = rest@;
    let ghost mut done: int = 0;
    proof {
        reveal(Seq::filter);
        assert(all.skip(0) =~= all);
        assert(all.take(0) =~= Seq::<Event>::empty());
    }
    while rest.len() > 0
        invariant
            0 <= done <= all.len(),
            rest@ == all.skip(done),
            out@ == without_id(all.take(done), id),
        decreases rest@.len(),
    {
        let e = rest.remove(0);
        proof {
            reveal(Seq::filter);
            assert(rest@ =~= all.skip(done + 1));
            assert(all.take(done + 1).drop_last() =~= all.take(done));
            assert(all.take(done + 1).last() == e);
            done = done + 1;
        }
        if e.id != id {
            out.push(e);
        }
    }
    proof {
        assert(all.take(done) =~= all);
    }
    out
}

impl EventBus {
    /// The state of the bus as plain values.
    pub open spec fn view(&self) -> BusModel {
        BusModel {
            phase: self.phase,
            pending: batches_of(self.pending_logs@),
            current: self.current_log.records@,
        }
    }

    /// Every pending log carries the bus's batch name and key.
    pub open spec fn tagged(&self) -> bool {
        forall|i: int|
            0 <= i < self.pending_logs@.len() ==> (#[trigger] self.pending_logs@[i]).event_name
                == Name::Everything && self.pending_logs@[i].key@ == self.current_log.key@
    }

    /// A running bus without events, whose batches carry `key`.
    pub fn new(key: String) -> (r: EventBus)
        ensures
            r@ == (BusModel {
                phase: BusPhase::Running,
                pending: Seq::empty(),
                current: Seq::empty(),
            }),
            r.current_log.key == key,
            r.current_log.event_name == Name::Everything,
            r@.wf(),
            r.tagged(),
    {
        let r = EventBus {
            phase: BusPhase::Running,
            pending_logs: Vec::new(),
            current_log: Log { event_name: Name::Everything, key, records: Vec::new() },
        };
        assert(r@.pending =~= Seq::<Seq<Event>>::empty());
        r
    }

    /// A running bus without events, whose batches are keyed by the given
    /// time in seconds since the Unix epoch.
    pub fn created_at(unix_seconds: i64) -> (r: EventBus)
        ensures
            r@ == (BusModel {
                phase: BusPhase::Running,
                pending: Seq::empty(),
                current: Seq::empty(),
            }),
            r.current_log.key@ == decimal_text(unix_seconds as int),
            r.current_log.event_name == Name::Everything,
            r@.wf(),
            r.tagged(),
    {
        EventBus::new(decimal(unix_seconds))
    }

    /// A running bus without events, whose batches are keyed by the current
    /// time.
    pub fn start() -> (r: EventBus)
        ensures
            r@ == (BusModel {
                phase: BusPhase::Running,
                pending: Seq::empty(),
                current: Seq::empty(),
            }),
            exists|secs: i64| r.current_log.key@ == decimal_text(secs as int),
            r.current_log.event_name == Name::Everything,
            r@.wf(),
            r.tagged(),
    {
        let now = utc_now();
        EventBus::created_at(now.secs)
    }

    /// Takes in one event from the inbound queue. While the bus is running
    /// the event joins the current batch, and the result holds the positions
    /// of the adapters to send it to. Otherwise nothing changes and the event
    /// comes back.
    pub fn receive(&mut self, event: Event, adapter_names: &Vec<String>) -> (r: Result<
        Vec<usize>,
        Event,
    >)
        ensures
            final(self)@ == old(self)@.receive(event),
            final(self).current_log.key == old(self).current_log.key,
            final(self).current_log.event_name == old(self).current_log.event_name,
            final(self).pending_logs == old(self).pending_logs,
            old(self)@.wf() ==> final(self)@.wf(),
            old(self).tagged() ==> final(self).tagged(),
            match r {
                Ok(targets) => old(self).phase == BusPhase::Running && targets@.map_values(
                    |i: usize| i as int,
                ) == targets_of(event.channels@, texts(adapter_names@)),
                Err(back) => old(self).phase != BusPhase::Running && back == event,
            },
    {
        match self.phase {
            BusPhase::Running => {
                let targets = select_adapters(&event, adapter_names);
                self.current_log.records.push(event);
                Ok(targets)
            },
            _ => Err(event),
        }
    }

    /// Moves what is in the current batch, if anything, to the pending logs.
    fn commit(&mut self)
        ensures
            final(self).phase == old(self).phase,
            final(self)@.current == Seq::<Event>::empty(),
            final(self)@.pending == if old(self)@.current.len() > 0 {
                old(self)@.pending.push(old(self)@.current)
            } else {
                old(self)@.pending
            },
            final(self).current_log.key == old(self).current_log.key,
            final(self).current_log.event_name == old(self).current_log.event_name,
            old(self)@.wf() ==> final(self)@.wf(),
            old(self).tagged() ==> final(self).tagged(),
    {
        if self.current_log.records.len() > 0 {
            let mut records: Vec<Event> = Vec::new();
            std::mem::swap(&mut self.current_log.records, &mut records);
            let log = Log {
                event_name: Name::Everything,
                key: self.current_log.key.clone(),
                records,
            };
            self.pending_logs.push(log);
            assert(final(self)@.pending =~= old(self)@.pending.push(old(self)@.current));
        }
        assert(final(self)@.current =~= Seq::<Event>::empty());
    }

    /// Records how the sends of the event `id` ended. While the bus is
    /// running: if at least one adapter took the event, it leaves the current
    /// batch, otherwise it stays; then what is left of the batch is committed
    /// to the pending logs. In any other phase nothing changes.
    pub fn complete(&mut self, id: u128, outcomes: &Vec<bool>)
        ensures
            final(self)@ == old(self)@.complete(id, outcomes@),
            final(self).current_log.key == old(self).current_log.key,
            final(self).current_log.event_name == old(self).current_log.event_name,
            old(self)@.wf() ==> final(self)@.wf(),
            old(self).tagged() ==> final(self).tagged(),
    {
        match self.phase {
            BusPhase::Running => {
                if has_success(outcomes) {
                    let mut records: Vec<Event> = Vec::new();
                    std::mem::swap(&mut self.current_log.records, &mut records);
                    self.current_log.records = drop_id(records, id);
                }
                self.commit();
            },
            _ => {},
        }
    }

    /// Observes the shutdown signal. A running bus moves what remains of the
    /// current batch to the pending logs and begins to drain; the result is
    /// true. In any other phase nothing changes and the result is false.
    pub fn begin_drain(&mut self) -> (r: bool)
        ensures
            r == (old(self).phase == BusPhase::Running),
            final(self)@ == old(self)@.drain(),
            final(self).current_log.key == old(self).current_log.key,
            final(self).current_log.event_name == old(self).current_log.event_name,
            old(self)@.wf() ==> final(self)@.wf(),
            old(self).tagged() ==> final(self).tagged(),
    {
        match self.phase {
            BusPhase::Running => {
                self.commit();
                self.phase = BusPhase::Draining;
                true
            },
            _ => false,
        }
    }

    /// The logs that wait to be persisted.
    pub fn pending(&self) -> (r: &Vec<Log>)
        ensures
            r == &self.pending_logs,
            batches_of(r@) == self@.pending,
    {
        &self.pending_logs
    }

    /// Ends the bus task: after the flush, or when the inbound queue is
    /// closed and drained.
    pub fn stop(&mut self)
        ensures
            final(self)@ == old(self)@.stop(),
            final(self).pending_logs == old(self).pending_logs,
            final(self).current_log == old(self).current_log,
            old(self)@.wf() ==> final(self)@.wf(),
            old(self).tagged() ==> final(self).tagged(),
    {
        self.phase = BusPhase::Stopped;
    }
}

} // verus!
