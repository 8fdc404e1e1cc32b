//! The drain as a whole: the buffering core, the time trigger and the
//! lifecycle, driven one event at a time.

use vstd::prelude::*;
use crate::batch::{Batch, cut};
use crate::config::{Config, validate};
use crate::encoder::{encode, encoded};
use crate::endpoint::{endpoint_url, resolve_endpoint};
use crate::error::ConfigError;
use crate::inner::{InnerLogglyDrain, InnerState};
use crate::record::LogRecord;
use crate::transport::DeliveryOutcome;
use crate::trigger::{capped, FlushClock, time_left, time_trigger};

verus! {

/// Where a drain stands in its life.
#[derive(Clone, Copy, Debug, PartialEq, Eq, Structural)]
pub enum Lifecycle {
    /// Records are taken in and batches are cut as the triggers say.
    Running,
    /// Shutdown was asked for and the final batch is on its way.
    Draining,
    /// Nothing is buffered and nothing will be shipped any more.
    Stopped,
}

/// One more, unless the counter is at the top of its range already.
pub open spec fn bump(count: nat) -> nat {
    if count < u64::MAX {
        count + 1
    } else {
        count
    }
}

/// What can happen to a drain.
pub enum Input {
    /// An encoded record arrives.
    Unit(Seq<u8>),
    /// A flush signal arrives at time `now`.
    Flush { now: nat },
    /// The timer looks at the drain at time `now`.
    Tick { now: nat },
    /// Shutdown is asked for.
    Shutdown,
    /// The transport is done with the batch it was handed, at time `now`.
    Completed { success: bool, now: nat },
}

/// What can happen to a drain, as the caller reports it.
pub enum Event {
    /// A record arrives.
    Record(LogRecord),
    /// A flush is asked for.
    FlushSignal,
    /// The timer looks at the drain.
    Tick,
    /// Shutdown is asked for.
    Shutdown,
    /// The transport is done with the batch it was handed.
    Delivered(DeliveryOutcome),
}

impl Event {
    /// The input that this event is when it happens at time `now`. A record
    /// counts as the unit it encodes to, unless it is a flush signal in
    /// disguise.
    pub open spec fn input(&self, now: nat) -> Input {
        match self {
            Event::Record(record) => if record.is_flush_signal() {
                Input::Flush { now }
            } else {
                Input::Unit(encoded(record))
            },
            Event::FlushSignal => Input::Flush { now },
            Event::Tick => Input::Tick { now },
            Event::Shutdown => Input::Shutdown,
            Event::Delivered(outcome) => Input::Completed { success: outcome.success, now },
        }
    }
}

/// What a [`LogglyDrain`] amounts to.
pub struct DrainState {
    /// The buffering core.
    pub inner: InnerState,
    /// Where the drain stands in its life.
    pub phase: Lifecycle,
    /// The flush interval, in milliseconds.
    pub interval: nat,
    /// When the time trigger was last reset.
    pub last_flush: nat,
    /// How many records arrived after shutdown and were discarded.
    pub discarded: nat,
    /// How many delivery attempts failed.
    pub failures: nat,
}

impl DrainState {
    /// The buffer is within its capacity, and it is empty unless the drain
    /// is running.
    pub open spec fn wf(self) -> bool {
        &&& self.inner.wf()
        &&& self.phase != Lifecycle::Running ==> self.inner.buffer.len() == 0
    }

    /// The state of a drain that was just built.
    pub open spec fn fresh(url: Seq<char>, capacity: nat, interval: nat) -> DrainState {
        DrainState {
            inner: InnerState::fresh(url, capacity),
            phase: Lifecycle::Running,
            interval,
            last_flush: 0,
            discarded: 0,
            failures: 0,
        }
    }

    /// An encoded record arrives. A running drain accepts it under the
    /// capacity trigger; after shutdown it is discarded and counted.
    pub open spec fn submit(self, unit: Seq<u8>) -> (DrainState, Option<Seq<Seq<u8>>>) {
        if self.phase == Lifecycle::Running {
            let (inner, batch) = self.inner.accept(unit);
            (DrainState { inner, ..self }, batch)
        } else {
            (DrainState { discarded: bump(self.discarded), ..self }, None)
        }
    }

    /// A flush signal arrives. A running drain cuts what is buffered, if
    /// anything, and restarts the flush interval either way. After shutdown
    /// the signal is ignored.
    pub open spec fn flush(self, now: nat) -> (DrainState, Option<Seq<Seq<u8>>>) {
        if self.phase == Lifecycle::Running {
            let (inner, batch) = self.inner.flush();
            (DrainState { inner, last_flush: now, ..self }, batch)
        } else {
            (self, None)
        }
    }

    /// The timer looks at the drain: where the time trigger fires, this is a
    /// flush signal, and nothing otherwise.
    pub open spec fn tick(self, now: nat) -> (DrainState, Option<Seq<Seq<u8>>>) {
        if time_trigger(self.last_flush, self.interval, now) {
            self.flush(now)
        } else {
            (self, None)
        }
    }

    /// A record arrives: a flush signal in disguise flushes, any other
    /// record is encoded and submitted.
    pub open spec fn log(self, record: &LogRecord, now: nat) -> (DrainState, Option<Seq<Seq<u8>>>) {
        if record.is_flush_signal() {
            self.flush(now)
        } else {
            self.submit(encoded(record))
        }
    }

    /// Shutdown is asked for. A running drain cuts its final batch and waits
    /// for it to be delivered; with nothing buffered it stops at once. A
    /// drain that is past running stays as it is.
    pub open spec fn shutdown(self) -> (DrainState, Option<Seq<Seq<u8>>>) {
        if self.phase == Lifecycle::Running {
            let (inner, batch) = self.inner.flush();
            let phase = if batch is Some {
                Lifecycle::Draining
            } else {
                Lifecycle::Stopped
            };
            (DrainState { inner, phase, ..self }, batch)
        } else {
            (self, None)
        }
    }

    /// The transport is done with a batch. The flush interval restarts, a
    /// failure is counted, and a draining drain stops. The buffer is not
    /// touched: what failed is not queued again.
    pub open spec fn complete(self, success: bool, now: nat) -> DrainState {
        DrainState {
            phase: if self.phase == Lifecycle::Draining {
                Lifecycle::Stopped
            } else {
                self.phase
            },
            last_flush: now,
            failures: if success {
                self.failures
            } else {
                bump(self.failures)
            },
            ..self
        }
    }

    /// What `input` does to the drain, and the batch it makes it cut.
    pub open spec fn step(self, input: Input) -> (DrainState, Option<Seq<Seq<u8>>>) {
        match input {
            Input::Unit(unit) => self.submit(unit),
            Input::Flush { now } => self.flush(now),
            Input::Tick { now } => self.tick(now),
            Input::Shutdown => self.shutdown(),
            Input::Completed { success, now } => (self.complete(success, now), None),
        }
    }
}

/// The drain: it takes in records, flush signals, timer ticks and the
/// request to shut down, one at a time, and answers each with the batch that
/// is to be sent now, if any.
///
/// It never performs I/O and never fails. All times are in milliseconds
/// since the drain was built, read by the caller from a clock of its own.
pub struct LogglyDrain {
    inner: InnerLogglyDrain,
    clock: FlushClock,
    phase: Lifecycle,
    discarded: u64,
    failures: u64,
}

impl View for LogglyDrain {
    type V = DrainState;

    closed spec fn view(&self) -> DrainState {
        DrainState {
            inner: self.inner@,
            phase: self.phase,
            interval: self.clock.spec_interval(),
            last_flush: self.clock.spec_last_flush(),
            discarded: self.discarded as nat,
            failures: self.failures as nat,
        }
    }
}

impl LogglyDrain {
    /// The invariant of the drain: that of its state.
    pub open spec fn wf(&self) -> bool {
        self@.wf()
    }

    /// A running drain around `inner`, with the flush interval starting now.
    pub fn from_inner(inner: InnerLogglyDrain, flush_interval: u64) -> (drain: Self)
        requires
            inner.wf(),
        ensures
            drain.wf(),
            drain@ == (DrainState {
                inner: inner@,
                phase: Lifecycle::Running,
                interval: flush_interval as nat,
                last_flush: 0,
                discarded: 0,
                failures: 0,
            }),
    {
        LogglyDrain {
            inner,
            clock: FlushClock::new(flush_interval),
            phase: Lifecycle::Running,
            discarded: 0,
            failures: 0,
        }
    }

    /// A running drain for `config`, with an empty buffer and the flush
    /// interval starting now.
    ///
    /// The settings must be valid; [`LogglyDrain::try_new`] checks them.
    pub fn new(config: Config) -> (drain: Self)
        requires
            config.valid(),
        ensures
            drain.wf(),
            drain@ == DrainState::fresh(
                endpoint_url(config.token@, config.tag@).unwrap(),
                config.buffer_size as nat,
                config.flush_interval as nat,
            ),
    {
        let inner = InnerLogglyDrain::new(config.token, config.tag, config.buffer_size);
        LogglyDrain::from_inner(inner, config.flush_interval)
    }

    /// A running drain for `config`, or the reason why there is none.
    pub fn try_new(config: Config) -> (made: Result<Self, ConfigError>)
        ensures
            match made {
                Ok(drain) => {
                    &&& config.valid()
                    &&& drain.wf()
                    &&& drain@ == DrainState::fresh(
                        endpoint_url(config.token@, config.tag@).unwrap(),
                        config.buffer_size as nat,
                        config.flush_interval as nat,
                    )
                },
                Err(ConfigError::ZeroCapacity) => config.buffer_size == 0,
                Err(ConfigError::InvalidEndpoint) => config.buffer_size > 0 && endpoint_url(
                    config.token@,
                    config.tag@,
                ) is None,
            },
    {
        let endpoint = resolve_endpoint(config.token.as_str(), config.tag.as_str());
        match validate(config.buffer_size, &endpoint) {
            Ok(()) => Ok(LogglyDrain::new(config)),
            Err(error) => Err(error),
        }
    }

    /// The URL that batches are posted to.
    pub fn url(&self) -> (url: &String)
        ensures
            url@ == self@.inner.url,
    {
        self.inner.url()
    }

    /// Where the drain stands in its life.
    pub fn phase(&self) -> (phase: Lifecycle)
        ensures
            phase == self@.phase,
    {
        self.phase
    }

    /// How many units are buffered.
    pub fn buffered(&self) -> (length: usize)
        ensures
            length == self@.inner.buffer.len(),
    {
        self.inner.buffered()
    }

    /// How many records arrived after shutdown and were discarded.
    pub fn discarded(&self) -> (count: u64)
        ensures
            count == self@.discarded,
    {
        self.discarded
    }

    /// How many delivery attempts failed.
    pub fn failures(&self) -> (count: u64)
        ensures
            count == self@.failures,
    {
        self.failures
    }

    /// How long the timer may sleep from `now` before its next look at the
    /// drain is due; zero where the time trigger fires already. A wait that
    /// does not fit the type is cut to the largest value.
    pub fn time_until_flush(&self, now: u64) -> (wait: u64)
        ensures
            wait == capped(time_left(self@.last_flush, self@.interval, now as nat)),
    {
        self.clock.remaining(now)
    }

    /// Takes in one encoded unit.
    pub fn submit(&mut self, unit: Vec<u8>) -> (batch: Option<Batch>)
        requires
            old(self).wf(),
        ensures
            final(self).wf(),
            (final(self)@, cut(batch)) == old(self)@.submit(unit@),
    {
        match self.phase {
            Lifecycle::Running => {
                let batch = self.inner.accept(unit);
                batch
            },
            _ => {
                if self.discarded < u64::MAX {
                    self.discarded = self.discarded + 1;
                }
                None
            },
        }
    }

    /// Handles a flush signal that arrives at `now`.
    pub fn flush(&mut self, now: u64) -> (batch: Option<Batch>)
        requires
            old(self).wf(),
        ensures
            final(self).wf(),
            (final(self)@, cut(batch)) == old(self)@.flush(now as nat),
    {
        match self.phase {
            Lifecycle::Running => {
                let batch = self.inner.flush();
                self.clock.reset(now);
                batch
            },
            _ => None,
        }
    }

    /// Lets the timer look at the drain at `now`: where the flush interval
    /// has passed since the last flush, this is a flush signal.
    pub fn tick(&mut self, now: u64) -> (batch: Option<Batch>)
        requires
            old(self).wf(),
        ensures
            final(self).wf(),
            (final(self)@, cut(batch)) == old(self)@.tick(now as nat),
    {
        if self.clock.due(now) {
            self.flush(now)
        } else {
            None
        }
    }

    /// Handles one record that arrives at `now`. A record tagged as a flush
    /// signal flushes; any other record is encoded and submitted.
    pub fn log(&mut self, record: &LogRecord, now: u64) -> (batch: Option<Batch>)
        requires
            old(self).wf(),
        ensures
            final(self).wf(),
            (final(self)@, cut(batch)) == old(self)@.log(record, now as nat),
    {
        if record.is_flush_signal() {
            self.flush(now)
        } else {
            self.submit(encode(record))
        }
    }

    /// Shuts the drain down. The first call on a running drain cuts the
    /// final batch, if anything is buffered; every later call does nothing.
    pub fn shutdown(&mut self) -> (batch: Option<Batch>)
        requires
            old(self).wf(),
        ensures
            final(self).wf(),
            (final(self)@, cut(batch)) == old(self)@.shutdown(),
    {
        match self.phase {
            Lifecycle::Running => {
                let batch = self.inner.flush();
                self.phase = if batch.is_some() {
                    Lifecycle::Draining
                } else {
                    Lifecycle::Stopped
                };
                batch
            },
            _ => None,
        }
    }

    /// Handles one event that happens at `now`, whatever its kind, and
    /// returns the batch that is to be sent in answer, if any.
    pub fn handle(&mut self, event: &Event, now: u64) -> (batch: Option<Batch>)
        requires
            old(self).wf(),
        ensures
            final(self).wf(),
            (final(self)@, cut(batch)) == old(self)@.step(event.input(now as nat)),
    {
        match event {
            Event::Record(record) => self.log(record, now),
            Event::FlushSignal => self.flush(now),
            Event::Tick => self.tick(now),
            Event::Shutdown => self.shutdown(),
            Event::Delivered(outcome) => {
                self.complete(outcome, now);
                None
            },
        }
    }

    /// Takes note that the transport is done with the batch it was handed,
    /// at `now`, with the given outcome. A failure is counted and nothing
    /// more: the batch is gone either way.
    pub fn complete(&mut self, outcome: &DeliveryOutcome, now: u64)
        requires
            old(self).wf(),
        ensures
            final(self).wf(),
            final(self)@ == old(self)@.complete(outcome.success, now as nat),
    {
        if !outcome.success && self.failures < u64::MAX {
            self.failures = self.failures + 1;
        }
        self.clock.reset(now);
        match self.phase {
            Lifecycle::Draining => {
                self.phase = Lifecycle::Stopped;
            },
            _ => {},
        }
    }
}

} // verus!
