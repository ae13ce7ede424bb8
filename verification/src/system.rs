//! The notification system as seen by its callers: the bounded inbound queue
//! with the events replayed from the store at its head, the one-time start of
//! the bus, and the shutdown signal.
use crate::config::NotificationConfig;
use crate::error::Error;
use crate::event::Event;
use std::collections::VecDeque;
use vstd::prelude::*;

verus! {

/// What became of an event that was offered to the inbound queue.
#[derive(Debug)]
pub enum SendOutcome {
    /// The event is in the queue.
    Enqueued,
    /// The queue is full: the event comes back, to be offered again when
    /// there is room.
    Full(Event),
}

/// The state of the system as plain values.
pub struct SystemModel {
    pub capacity: nat,
    pub inbound: Seq<Event>,
    pub started: bool,
    pub receiver_gone: bool,
    pub cancelled: bool,
}

impl SystemModel {
    /// The state of a new system whose store held `restored`.
    pub open spec fn init(capacity: nat, restored: Seq<Event>) -> SystemModel {
        SystemModel {
            capacity,
            inbound: restored,
            started: false,
            receiver_gone: false,
            cancelled: false,
        }
    }

    /// True when the queue takes another event.
    pub open spec fn has_room(self) -> bool {
        !self.receiver_gone && self.inbound.len() < self.capacity
    }

    /// The state after `event` was offered: it joins the end of the queue
    /// when there is room.
    pub open spec fn send(self, event: Event) -> SystemModel {
        if self.has_room() {
            SystemModel { inbound: self.inbound.push(event), ..self }
        } else {
            self
        }
    }

    /// The state after the bus took the event at the head of the queue.
    pub open spec fn take(self) -> SystemModel {
        if self.inbound.len() > 0 {
            SystemModel { inbound: self.inbound.skip(1), ..self }
        } else {
            self
        }
    }

    /// True when the bus was not started yet, so that `start` succeeds.
    pub open spec fn can_start(self) -> bool {
        !self.started
    }

    /// The state after a call of `start`.
    pub open spec fn start(self) -> SystemModel {
        SystemModel { started: true, ..self }
    }

    /// The state after `sends` was offered, one event after the other.
    pub open spec fn send_all(self, sends: Seq<Event>) -> SystemModel
        decreases sends.len(),
    {
        if sends.len() == 0 {
            self
        } else {
            self.send_all(sends.drop_last()).send(sends.last())
        }
    }
}

/// Replay. Whatever is offered to a new system, the events restored from
/// the store stay at the head of the queue, in the order in which the store
/// returned them: the bus takes them before any new event.
pub proof fn replayed_events_come_first(capacity: nat, restored: Seq<Event>, sends: Seq<Event>)
    ensures
        SystemModel::init(capacity, restored).send_all(sends).inbound.len() >= restored.len(),
        SystemModel::init(capacity, restored).send_all(sends).inbound.take(restored.len() as int)
            == restored,
    decreases sends.len(),
{
    let start = SystemModel::init(capacity, restored);
    if sends.len() == 0 {
        assert(restored.take(restored.len() as int) =~= restored);
    } else {
        replayed_events_come_first(capacity, restored, sends.drop_last());
        let before = start.send_all(sends.drop_last());
        let after = before.send(sends.last());
        assert(after.inbound.take(restored.len() as int) =~= before.inbound.take(
            restored.len() as int,
        ));
    }
}

/// The queue is first in, first out: an event offered to an empty queue
/// with room is the next one that the bus takes.
pub proof fn queue_is_fifo(system: SystemModel, first: Event, second: Event)
    requires
        system.inbound.len() == 0,
        system.has_room(),
    ensures
        system.send(first).send(second).inbound[0] == first,
        system.send(first).send(second).take().inbound.len() > 0 ==> system.send(first).send(
            second,
        ).take().inbound[0] == second,
{
}

/// The notification system's core state.
#[derive(Debug)]
pub struct NotificationSystem {
    pub config: NotificationConfig,
    pub inbound: VecDeque<Event>,
    pub started: bool,
    pub receiver_gone: bool,
    pub cancelled: bool,
}

impl NotificationSystem {
    /// The state of the system as plain values.
    pub open spec fn view(&self) -> SystemModel {
        SystemModel {
            capacity: self.config.channel_capacity as nat,
            inbound: self.inbound@,
            started: self.started,
            receiver_gone: self.receiver_gone,
            cancelled: self.cancelled,
        }
    }

    /// A system that is not started, with the events restored from the
    /// store in its queue, in their order. The restored events are all taken
    /// in, even beyond the capacity, so that replay never waits for a bus
    /// that is not running yet.
    pub fn new(config: NotificationConfig, restored: Vec<Event>) -> (r: NotificationSystem)
        requires
            config.channel_capacity > 0,
        ensures
            r@ == SystemModel::init(config.channel_capacity as nat, restored@),
            r.config == config,
    {
        let mut rest = restored;
        let mut inbound: VecDeque<Event> = VecDeque::new();
        while rest.len() > 0
            invariant
                rest@.len() <= restored@.len(),
                rest@ == restored@.take(rest@.len() as int),
                inbound@ == restored@.skip(rest@.len() as int),
            decreases rest@.len(),
        {
            let ghost n = rest@.len() as int;
            let e = rest.pop().unwrap();
            inbound.push_front(e);
            proof {
                assert(rest@ =~= restored@.take(n - 1));
                assert(inbound@ =~= restored@.skip(n - 1));
            }
        }
        proof {
            assert(restored@.skip(0) =~= restored@);
        }
        NotificationSystem {
            config,
            inbound,
            started: false,
            receiver_gone: false,
            cancelled: false,
        }
    }

    /// Offers an event to the inbound queue. It joins the end of the queue
    /// when there is room and comes back when the queue is full. Fails with
    /// `ChannelSend`, which carries the event, when the bus is gone.
    pub fn send_event(&mut self, event: Event) -> (r: Result<SendOutcome, Error>)
        ensures
            final(self)@ == old(self)@.send(event),
            final(self).config == old(self).config,
            match r {
                Ok(SendOutcome::Enqueued) => old(self)@.has_room(),
                Ok(SendOutcome::Full(back)) => !old(self).receiver_gone && !old(self)@.has_room()
                    && back == event,
                Err(e) => old(self).receiver_gone && (e matches Error::ChannelSend(back) && *back
                    == event),
            },
    {
        if self.receiver_gone {
            Err(Error::ChannelSend(Box::new(event)))
        } else if self.inbound.len() < self.config.channel_capacity {
            self.inbound.push_back(event);
            Ok(SendOutcome::Enqueued)
        } else {
            Ok(SendOutcome::Full(event))
        }
    }

    /// Takes the event at the head of the inbound queue, if there is one.
    pub fn next_event(&mut self) -> (r: Option<Event>)
        ensures
            final(self)@ == old(self)@.take(),
            final(self).config == old(self).config,
            match r {
                Some(e) => old(self)@.inbound.len() > 0 && e == old(self)@.inbound[0],
                None => old(self)@.inbound.len() == 0,
            },
    {
        let r = self.inbound.pop_front();
        proof {
            if r is Some {
                assert(final(self).inbound@ =~= old(self).inbound@.skip(1));
            }
        }
        r
    }

    /// Starts the bus, once: the first call succeeds, every later call fails
    /// with `EventBusStarted`.
    pub fn start(&mut self) -> (r: Result<(), Error>)
        ensures
            final(self)@ == old(self)@.start(),
            final(self).config == old(self).config,
            final(self).inbound == old(self).inbound,
            match r {
                Ok(_) => old(self)@.can_start(),
                Err(e) => !old(self)@.can_start() && (e matches Error::EventBusStarted),
            },
    {
        if self.started {
            Err(Error::EventBusStarted)
        } else {
            self.started = true;
            Ok(())
        }
    }

    /// Fires the shutdown signal. Firing it again changes nothing.
    pub fn shutdown(&mut self)
        ensures
            *final(self) == (NotificationSystem { cancelled: true, ..*old(self) }),
    {
        self.cancelled = true;
    }

    /// Tells whether the shutdown signal was fired.
    pub fn is_shutdown(&self) -> (r: bool)
        ensures
            r == self.cancelled,
    {
        self.cancelled
    }

    /// Records that the bus has ended and no longer takes events.
    pub fn receiver_dropped(&mut self)
        ensures
            *final(self) == (NotificationSystem { receiver_gone: true, ..*old(self) }),
    {
        self.receiver_gone = true;
    }

    /// Number of events in the inbound queue.
    pub fn queued(&self) -> (r: usize)
        ensures
            r == self@.inbound.len(),
    {
        self.inbound.len()
    }
}

/// Double start. After a call of `start`, successful or not, no later call
/// of `start` on the same system succeeds, whatever was sent or taken in
/// between.
pub proof fn second_start_fails(system: SystemModel, sends: Seq<Event>, event: Event)
    ensures
        !system.start().can_start(),
        !system.start().send(event).can_start(),
        !system.start().take().can_start(),
        !system.start().send_all(sends).can_start(),
        !system.start().start().can_start(),
    decreases sends.len(),
{
    if sends.len() > 0 {
        second_start_fails(system, sends.drop_last(), event);
    }
}

} // verus!
