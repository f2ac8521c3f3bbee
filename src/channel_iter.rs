use vstd::prelude::*;

use crate::errors::WinEvtError;
use crate::fetch::{too_small_run, FetchOutcome, FetchStep, GrowableBuffer};
use crate::handle::ResourceHandle;
use crate::text::{text_from_units, utf16_lossy, without_terminator};

verus! {

/// Units a channel enumerator's buffer starts with.
pub const CHANNEL_BUFFER_UNITS: usize = 512;

/// Units a text buffer grows to at most.
pub const MAX_TEXT_UNITS: usize = 16_777_216;

/// What the caller does after handing an answer to an enumerator.
#[derive(Debug)]
pub enum ChannelStep {
    /// The buffer grew: ask the service again.
    Retry,
    /// The next item of the sequence; `None` ends it.
    Item(Option<Result<String, WinEvtError>>),
}

/// The list of channels registered on the machine, one path at a time.
///
/// The caller asks the service for the next channel path into [`ChannelIter::units_mut`]
/// and hands the answer to [`ChannelIter::on_fetch`]; once the service said
/// there is no further item, the sequence stays ended.
pub struct ChannelIter {
    handle: ResourceHandle,
    buf: GrowableBuffer<u16>,
    done: bool,
}

impl ChannelIter {
    /// Whether the sequence has ended.
    pub closed spec fn ended(&self) -> bool {
        self.done
    }

    /// The buffer the service writes paths into.
    pub closed spec fn buffer(&self) -> GrowableBuffer<u16> {
        self.buf
    }

    /// The raw value of the enumeration handle.
    pub closed spec fn handle_value(&self) -> u64 {
        self.handle@
    }

    /// An enumerator over an open channel enumeration handle.
    pub fn new(handle: ResourceHandle) -> (r: ChannelIter)
        ensures
            !r.ended(),
            r.handle_value() == handle@,
            r.buffer().units@.len() == CHANNEL_BUFFER_UNITS,
            r.buffer().limit == MAX_TEXT_UNITS,
    {
        ChannelIter {
            handle,
            buf: GrowableBuffer::new(CHANNEL_BUFFER_UNITS, MAX_TEXT_UNITS, 0u16),
            done: false,
        }
    }

    /// The raw enumeration handle, to hand to the service.
    pub fn raw_handle(&self) -> (r: u64)
        ensures
            r == self.handle_value(),
    {
        self.handle.raw()
    }

    /// The memory the service writes the next path into; its length is the
    /// buffer's capacity in units.
    pub fn units_mut(&mut self) -> (r: &mut Vec<u16>)
        ensures
            *r == old(self).buffer().units,
            final(self).buffer().units == *final(r),
            final(self).buffer().limit == old(self).buffer().limit,
            final(self).ended() == old(self).ended(),
            final(self).handle_value() == old(self).handle_value(),
    {
        &mut self.buf.units
    }

    /// Whether the sequence has ended; when it has, the service is not asked again.
    pub fn is_done(&self) -> (r: bool)
        ensures
            r == self.ended(),
    {
        self.done
    }

    /// Handles the service's answer to "next channel path". A path is the
    /// filled text without its terminator; "no more items" ends the sequence
    /// for good; a failure is reported and the sequence goes on.
    pub fn on_fetch(&mut self, outcome: FetchOutcome) -> (r: ChannelStep)
        ensures
            final(self).handle_value() == old(self).handle_value(),
            final(self).buffer().limit == old(self).buffer().limit,
            final(self).buffer().fill == old(self).buffer().fill,
            final(self).buffer().units@.len() >= old(self).buffer().units@.len(),
            old(self).ended() || !(outcome is TooSmall) ==> final(self).buffer() == old(
                self,
            ).buffer(),
            old(self).ended() ==> r == ChannelStep::Item(None) && final(self).ended(),
            !old(self).ended() && outcome is TooSmall ==> final(self).buffer().units@.len()
                == too_small_run(
                old(self).buffer().units@.len(),
                old(self).buffer().limit as nat,
                seq![outcome->required as nat],
            ).1 && (r is Retry <==> !too_small_run(
                old(self).buffer().units@.len(),
                old(self).buffer().limit as nat,
                seq![outcome->required as nat],
            ).2),
            !old(self).ended() && outcome is NoMoreItems ==> r == ChannelStep::Item(None)
                && final(self).ended(),
            !old(self).ended() && !(outcome is NoMoreItems) ==> !final(self).ended(),
            !old(self).ended() && outcome is TooSmall && outcome->required <= old(self).buffer().limit
                ==> r is Retry && final(self).buffer().units@.len() >= outcome->required,
            !old(self).ended() && outcome is TooSmall && outcome->required > old(self).buffer().limit
                ==> r matches ChannelStep::Item(Some(Err(_))),
            !old(self).ended() && outcome is Failed ==> r == ChannelStep::Item(
                Some(Err(outcome->error)),
            ),
            !old(self).ended() && outcome is Filled && outcome->used <= old(self).buffer().units@.len()
                ==> (r matches ChannelStep::Item(Some(Ok(s))) && s@ == utf16_lossy(
                without_terminator(old(self).buffer().units@.take(outcome->used as int)),
            ) && (s@.len() == 0 <==> without_terminator(
                old(self).buffer().units@.take(outcome->used as int),
            ).len() == 0)),
            !old(self).ended() && outcome is Filled && outcome->used > old(self).buffer().units@.len()
                ==> r matches ChannelStep::Item(Some(Err(_))),
    {
        if self.done {
            return ChannelStep::Item(None);
        }
        match self.buf.on_outcome(outcome) {
            FetchStep::Retry => ChannelStep::Retry,
            FetchStep::Ready { used } => ChannelStep::Item(
                Some(text_from_units(self.buf.units.as_slice(), used)),
            ),
            FetchStep::Exhausted => {
                self.done = true;
                ChannelStep::Item(None)
            },
            FetchStep::Failed { error } => ChannelStep::Item(Some(Err(error))),
        }
    }

    /// Ends the enumeration, giving back its handle to be released.
    pub fn close(self) -> (r: ResourceHandle)
        ensures
            r@ == self.handle_value(),
    {
        self.handle
    }
}

} // verus!
