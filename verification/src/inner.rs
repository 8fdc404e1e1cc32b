//! The core of the drain: one batch buffer under the capacity trigger.

use vstd::prelude::*;
use crate::batch::{Batch, cut};
use crate::buffer::BatchBuffer;
use crate::encoder::{encode, encoded};
use crate::endpoint::{endpoint_url, resolve_endpoint};
use crate::config::validate;
use crate::error::ConfigError;
use crate::record::LogRecord;
use crate::trigger::capacity_trigger;

verus! {

/// What an [`InnerLogglyDrain`] amounts to.
pub struct InnerState {
    /// The URL that batches are posted to.
    pub url: Seq<char>,
    /// How many units make a full buffer.
    pub capacity: nat,
    /// The buffered units, oldest first.
    pub buffer: Seq<Seq<u8>>,
}

impl InnerState {
    /// The capacity is positive and the buffer stays within it.
    pub open spec fn wf(self) -> bool {
        0 < self.capacity && self.buffer.len() <= self.capacity
    }

    /// The state of a drain that has buffered nothing yet.
    pub open spec fn fresh(url: Seq<char>, capacity: nat) -> InnerState {
        InnerState { url, capacity, buffer: Seq::empty() }
    }

    /// The same drain with other buffer contents.
    pub open spec fn with_buffer(self, buffer: Seq<Seq<u8>>) -> InnerState {
        InnerState { buffer, ..self }
    }

    /// The rule for an encoded unit that arrives.
    ///
    /// A buffer that is already full is cut first, and the unit starts the
    /// next batch. Otherwise the unit is appended, and if that fills the
    /// buffer, the buffer is cut at once, the unit included.
    pub open spec fn accept(self, unit: Seq<u8>) -> (InnerState, Option<Seq<Seq<u8>>>) {
        if capacity_trigger(self.buffer.len(), self.capacity) {
            (self.with_buffer(seq![unit]), Some(self.buffer))
        } else if capacity_trigger(self.buffer.len() + 1, self.capacity) {
            (self.with_buffer(Seq::empty()), Some(self.buffer.push(unit)))
        } else {
            (self.with_buffer(self.buffer.push(unit)), None)
        }
    }

    /// The rule for a flush signal: whatever is buffered is cut; an empty
    /// buffer is left alone and nothing is shipped.
    pub open spec fn flush(self) -> (InnerState, Option<Seq<Seq<u8>>>) {
        if self.buffer.len() > 0 {
            (self.with_buffer(Seq::empty()), Some(self.buffer))
        } else {
            (self, None)
        }
    }

    /// The rule for a record: a flush signal flushes, anything else is
    /// encoded and accepted.
    pub open spec fn log(self, record: &LogRecord) -> (InnerState, Option<Seq<Seq<u8>>>) {
        if record.is_flush_signal() {
            self.flush()
        } else {
            self.accept(encoded(record))
        }
    }
}

/// The buffering core of the drain. It owns the batch buffer, applies the
/// capacity trigger, and cuts batches; it never sends anything itself.
///
/// Every method that may cut a batch returns it. The caller hands the batch
/// to the transport, in the order in which batches were returned.
pub struct InnerLogglyDrain {
    url: String,
    buffer: BatchBuffer,
}

impl View for InnerLogglyDrain {
    type V = InnerState;

    closed spec fn view(&self) -> InnerState {
        InnerState {
            url: self.url@,
            capacity: self.buffer.spec_capacity(),
            buffer: self.buffer@,
        }
    }
}

impl InnerLogglyDrain {
    /// The invariant of the drain: that of its state.
    pub open spec fn wf(&self) -> bool {
        self@.wf()
    }

    /// A drain that posts to `url` and starts out with `buffer`.
    pub fn from_parts(url: String, buffer: BatchBuffer) -> (drain: Self)
        requires
            buffer.wf(),
        ensures
            drain.wf(),
            drain@ == (InnerState {
                url: url@,
                capacity: buffer.spec_capacity(),
                buffer: buffer@,
            }),
    {
        InnerLogglyDrain { url, buffer }
    }

    /// A drain for the endpoint of `token` and `tag`, with room for
    /// `buffer_size` units.
    ///
    /// The capacity must be positive and the address must parse;
    /// [`InnerLogglyDrain::try_new`] checks both.
    pub fn new(token: String, tag: String, buffer_size: usize) -> (drain: Self)
        requires
            buffer_size > 0,
            endpoint_url(token@, tag@) is Some,
        ensures
            drain.wf(),
            drain@ == InnerState::fresh(endpoint_url(token@, tag@).unwrap(), buffer_size as nat),
    {
        let url = resolve_endpoint(token.as_str(), tag.as_str()).unwrap();
        InnerLogglyDrain::from_parts(url, BatchBuffer::new(buffer_size))
    }

    /// A drain for the endpoint of `token` and `tag`, with room for
    /// `buffer_size` units; or the reason why there is none.
    pub fn try_new(token: String, tag: String, buffer_size: usize) -> (made: Result<Self, ConfigError>)
        ensures
            match made {
                Ok(drain) => {
                    &&& buffer_size > 0
                    &&& endpoint_url(token@, tag@) is Some
                    &&& drain.wf()
                    &&& drain@ == InnerState::fresh(
                        endpoint_url(token@, tag@).unwrap(),
                        buffer_size as nat,
                    )
                },
                Err(ConfigError::ZeroCapacity) => buffer_size == 0,
                Err(ConfigError::InvalidEndpoint) => buffer_size > 0 && endpoint_url(token@, tag@)
                    is None,
            },
    {
        let endpoint = resolve_endpoint(token.as_str(), tag.as_str());
        match validate(buffer_size, &endpoint) {
            Ok(()) => Ok(InnerLogglyDrain::new(token, tag, buffer_size)),
            Err(error) => Err(error),
        }
    }

    /// The URL that batches are posted to.
    pub fn url(&self) -> (url: &String)
        ensures
            url@ == self@.url,
    {
        &self.url
    }

    /// How many units make a full buffer.
    pub fn capacity(&self) -> (capacity: usize)
        ensures
            capacity == self@.capacity,
    {
        self.buffer.capacity()
    }

    /// How many units are buffered.
    pub fn buffered(&self) -> (length: usize)
        ensures
            length == self@.buffer.len(),
    {
        self.buffer.length()
    }

    /// Takes in one encoded unit and applies the capacity trigger.
    pub fn accept(&mut self, unit: Vec<u8>) -> (batch: Option<Batch>)
        requires
            old(self).wf(),
        ensures
            final(self).wf(),
            (final(self)@, cut(batch)) == old(self)@.accept(unit@),
    {
        if self.buffer.is_full() {
            let batch = self.buffer.drain_all();
            self.buffer.append(unit);
            Some(batch)
        } else {
            self.buffer.append(unit);
            if self.buffer.is_full() {
                Some(self.buffer.drain_all())
            } else {
                None
            }
        }
    }

    /// Cuts a batch of whatever is buffered. An empty buffer yields no
    /// batch.
    pub fn flush(&mut self) -> (batch: Option<Batch>)
        requires
            old(self).wf(),
        ensures
            final(self).wf(),
            (final(self)@, cut(batch)) == old(self)@.flush(),
    {
        if self.buffer.is_empty() {
            None
        } else {
            Some(self.buffer.drain_all())
        }
    }

    /// Handles one record. A record tagged as a flush signal flushes; any
    /// other record is encoded and accepted.
    pub fn log(&mut self, record: &LogRecord) -> (batch: Option<Batch>)
        requires
            old(self).wf(),
        ensures
            final(self).wf(),
            (final(self)@, cut(batch)) == old(self)@.log(record),
    {
        if record.is_flush_signal() {
            self.flush()
        } else {
            self.accept(encode(record))
        }
    }
}

} // verus!
