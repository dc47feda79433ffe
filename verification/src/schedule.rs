//! The trigger engine: today's pending flips, and what becomes of them at
//! every tick and every refresh.

use crate::clock::now;
use crate::data::Flip;
use crate::error::Error;
use vstd::prelude::*;

verus! {

/// What travels between the tasks of the scheduler.
#[derive(Debug)]
pub enum Message {
    /// Flips that have come due, in the order in which they were pending.
    Flips(Vec<Flip>),
    /// The schedule has changed: today's flips are to be fetched again.
    Refresh,
    /// A minute has passed.
    Tick,
}

/// The channel on which due flips are published to the transmitter.
pub const SWITCHES_QUEUE: &'static str = "switches";

/// The seconds that the timer sleeps between two ticks.
pub const TICK_SECONDS: u64 = 60;

/// What the engine wants done after a message.
#[derive(Debug)]
pub enum Reaction {
    /// Send this message back: the batch of a tick, empty or not.
    Reply(Message),
    /// Fetch today's flips from the store and hand the answer to `refresh`.
    Reload,
    /// Nothing: the message was not for the engine.
    Ignore,
}

impl Reaction {
    /// The flips of the batch that is sent back, where one is.
    pub open spec fn batch(self) -> Option<Seq<Flip>> {
        match self {
            Reaction::Reply(Message::Flips(batch)) => Some(batch@),
            _ => None,
        }
    }
}

/// What the dispatcher does with a message.
#[derive(Debug)]
pub enum Action {
    /// Hand the message on to the engine.
    Forward(Message),
    /// Publish each flip on `SWITCHES_QUEUE`, in this order. A flip that
    /// cannot be published is dropped, and the rest still go out.
    Publish(Vec<Flip>),
}

/// The dispatcher's one decision: ticks and refreshes go on to the engine
/// as they are, and a batch of due flips is published as it is.
pub fn dispatch(msg: Message) -> (action: Action)
    ensures
        msg is Tick ==> action == Action::Forward(Message::Tick),
        msg is Refresh ==> action == Action::Forward(Message::Refresh),
        msg matches Message::Flips(batch) ==> action == Action::Publish(batch),
{
    match msg {
        Message::Tick => Action::Forward(Message::Tick),
        Message::Flips(flips) => Action::Publish(flips),
        Message::Refresh => Action::Forward(Message::Refresh),
    }
}

/// What can go wrong while the scheduler runs.
#[derive(Debug, Clone, Copy, PartialEq, Eq, Structural)]
pub enum Failure {
    /// The store did not answer a refresh.
    Fetch,
    /// One due flip could not be published.
    Publish,
    /// The dispatcher's inbound channel is closed.
    Inbound,
    /// The subscription to changes of the schedule could not be set up, or
    /// broke later.
    Subscription,
    /// The timer could not hand in its tick.
    Timer,
}

/// How the scheduler goes on after a failure.
#[derive(Debug, Clone, Copy, PartialEq, Eq, Structural)]
pub enum Course {
    /// Nothing is pending until a refresh that the store answers; nothing
    /// is tried again before that.
    Degrade,
    /// The one flip is dropped; the rest of its batch and all later ticks
    /// go on.
    Skip,
    /// The process ends. Starting it again is left to whoever watches it.
    Exit,
}

impl Failure {
    /// How the scheduler goes on after this failure.
    pub open spec fn course(self) -> Course {
        match self {
            Failure::Fetch => Course::Degrade,
            Failure::Publish => Course::Skip,
            Failure::Inbound => Course::Exit,
            Failure::Subscription => Course::Exit,
            Failure::Timer => Course::Exit,
        }
    }

    /// How the scheduler goes on after this failure. Whatever the course,
    /// the failure is logged first.
    pub fn course_after(self) -> (course: Course)
        ensures
            course == self.course(),
    {
        match self {
            Failure::Fetch => Course::Degrade,
            Failure::Publish => Course::Skip,
            Failure::Inbound | Failure::Subscription | Failure::Timer => Course::Exit,
        }
    }
}

/// A flip is due once its scheduled time is not later than the clock.
pub open spec fn is_due(flip: Flip, hour: int, minute: int) -> bool {
    flip.hour < hour || (flip.hour == hour && flip.minute <= minute)
}

/// The flips of `pending` that are due, in their order.
pub open spec fn due_batch(pending: Seq<Flip>, hour: int, minute: int) -> Seq<Flip> {
    pending.filter(|flip: Flip| is_due(flip, hour, minute))
}

/// The flips of `pending` that are not yet due, in their order.
pub open spec fn still_pending(pending: Seq<Flip>, hour: int, minute: int) -> Seq<Flip> {
    pending.filter(|flip: Flip| !is_due(flip, hour, minute))
}

/// What reaches the engine: a tick with the clock at `hour:minute`, or a
/// refresh with what the store answered (`None` when it failed).
pub enum Event {
    Tick { hour: int, minute: int },
    Refresh { fetched: Option<Seq<Flip>> },
}

/// The pending flips after `event`.
pub open spec fn after_event(pending: Seq<Flip>, event: Event) -> Seq<Flip> {
    match event {
        Event::Tick { hour, minute } => still_pending(pending, hour, minute),
        Event::Refresh { fetched: Some(today) } => today,
        Event::Refresh { fetched: None } => Seq::empty(),
    }
}

/// The batch that `event` sends out: the due flips at a tick, nothing at a
/// refresh.
pub open spec fn emitted(pending: Seq<Flip>, event: Event) -> Seq<Flip> {
    match event {
        Event::Tick { hour, minute } => due_batch(pending, hour, minute),
        Event::Refresh { .. } => Seq::empty(),
    }
}

impl Flip {
    /// Whether the flip is due when the clock shows `hour:minute`.
    pub fn is_due(&self, hour: u32, minute: u32) -> (due: bool)
        ensures
            due == is_due(*self, hour as int, minute as int),
    {
        let h: i64 = self.hour as i64;
        let m: i64 = self.minute as i64;
        h < hour as i64 || (h == hour as i64 && m <= minute as i64)
    }
}

/// Today's flips that have not fired yet. Only the engine touches them.
pub struct TriggerEngine {
    working_set: Vec<Flip>,
}

impl View for TriggerEngine {
    type V = Seq<Flip>;

    /// The pending flips, in the order in which the store gave them.
    closed spec fn view(&self) -> Seq<Flip> {
        self.working_set@
    }
}

impl TriggerEngine {
    /// An engine with nothing pending.
    pub fn new() -> (engine: TriggerEngine)
        ensures
            engine@ == Seq::<Flip>::empty(),
    {
        TriggerEngine { working_set: Vec::new() }
    }

    /// The pending flips.
    pub fn pending(&self) -> (flips: Vec<Flip>)
        ensures
            flips@ == self@,
    {
        self.working_set.clone()
    }

    /// Takes what the store answered for today in place of everything that
    /// was pending: the answer itself, or nothing when the store failed. What
    /// had fired before is pending again if the answer holds it.
    pub fn refresh(&mut self, fetched: Result<Vec<Flip>, Error>)
        ensures
            fetched matches Ok(today) ==> final(self)@ == today@ && final(self)@ == after_event(
                old(self)@,
                Event::Refresh { fetched: Some(today@) },
            ),
            fetched is Err ==> final(self)@ == Seq::<Flip>::empty() && final(self)@ == after_event(
                old(self)@,
                Event::Refresh { fetched: None },
            ),
    {
        match fetched {
            Ok(today) => {
                self.working_set = today;
            },
            Err(_) => {
                self.working_set = Vec::new();
            },
        }
    }

    /// One tick with the clock at `hour:minute`: the due flips leave the
    /// pending ones and are returned, both in their order. With nothing due
    /// the batch is empty and nothing changes.
    pub fn tick_at(&mut self, hour: u32, minute: u32) -> (batch: Vec<Flip>)
        ensures
            batch@ == due_batch(old(self)@, hour as int, minute as int),
            final(self)@ == still_pending(old(self)@, hour as int, minute as int),
            batch@ == emitted(old(self)@, Event::Tick { hour: hour as int, minute: minute as int }),
            final(self)@ == after_event(
                old(self)@,
                Event::Tick { hour: hour as int, minute: minute as int },
            ),
    {
        let ghost due = |flip: Flip| is_due(flip, hour as int, minute as int);
        let ghost not_due = |flip: Flip| !is_due(flip, hour as int, minute as int);
        let mut batch: Vec<Flip> = Vec::new();
        let mut rest: Vec<Flip> = Vec::new();
        let mut i: usize = 0;
        proof {
            reveal(Seq::filter);
            assert(self.working_set@.take(0) =~= Seq::<Flip>::empty());
        }
        while i < self.working_set.len()
            invariant
                i <= self.working_set.len(),
                self.working_set == old(self).working_set,
                due == |flip: Flip| is_due(flip, hour as int, minute as int),
                not_due == |flip: Flip| !is_due(flip, hour as int, minute as int),
                batch@ == self.working_set@.take(i as int).filter(due),
                rest@ == self.working_set@.take(i as int).filter(not_due),
            decreases self.working_set.len() - i,
        {
            let flip = self.working_set[i];
            proof {
                reveal(Seq::filter);
                let before = self.working_set@.take(i as int);
                let upto = self.working_set@.take(i + 1);
                assert(upto.drop_last() =~= before);
                assert(upto.last() == flip);
            }
            if flip.is_due(hour, minute) {
                batch.push(flip);
            } else {
                rest.push(flip);
            }
            i += 1;
        }
        proof {
            assert(self.working_set@.take(i as int) =~= self.working_set@);
        }
        self.working_set = rest;
        batch
    }

    /// One tick by the wall clock. Whatever the clock shows, the due flips
    /// for that time leave the pending ones and are returned.
    pub fn tick(&mut self) -> (batch: Vec<Flip>)
        ensures
            exists|hour: int, minute: int|
                0 <= hour < 24 && 0 <= minute < 60 && batch@ == #[trigger] due_batch(
                    old(self)@,
                    hour,
                    minute,
                ) && final(self)@ == still_pending(old(self)@, hour, minute),
    {
        let clock = now();
        let batch = self.tick_at(clock.hour, clock.minute);
        proof {
            let h = clock.hour as int;
            let m = clock.minute as int;
            assert(batch@ == due_batch(old(self)@, h, m));
        }
        batch
    }

    /// The engine's answer to a message. A tick is answered with the batch
    /// that is due by the wall clock, which leaves the pending flips; a
    /// refresh with the wish to reload; anything else is ignored. Only a tick
    /// changes what is pending.
    pub fn handle(&mut self, msg: Message) -> (reaction: Reaction)
        ensures
            msg is Tick ==> exists|hour: int, minute: int|
                0 <= hour < 24 && 0 <= minute < 60 && reaction.batch() == Some(
                    #[trigger] due_batch(old(self)@, hour, minute),
                ) && final(self)@ == still_pending(old(self)@, hour, minute),
            msg is Refresh ==> reaction is Reload && final(self)@ == old(self)@,
            msg is Flips ==> reaction is Ignore && final(self)@ == old(self)@,
    {
        match msg {
            Message::Tick => {
                let batch = self.tick();
                Reaction::Reply(Message::Flips(batch))
            },
            Message::Refresh => Reaction::Reload,
            Message::Flips(_) => Reaction::Ignore,
        }
    }
}

} // verus!
