use vstd::prelude::*;

use crate::channel_iter::MAX_TEXT_UNITS;
use crate::errors::{opt_text, WinEvtError};
use crate::fetch::{status_outcome, too_small_run, FetchOutcome, FetchStep, GrowableBuffer};
use crate::text::{text_from_units, utf16_lossy, without_terminator};

verus! {

/// Units a renderer's buffer starts with by default.
pub const RENDER_BUFFER_UNITS: usize = 32768;

/// What the caller does after handing a render answer to a [`Renderer`].
#[derive(Debug)]
pub enum RenderStep {
    /// The buffer grew: render again.
    Retry,
    /// The rendered text, or why there is none.
    Done(Result<String, WinEvtError>),
}

/// Turns event records into XML text, reusing one buffer across records.
///
/// The caller asks the service to render a record into [`Renderer::units_mut`] and hands
/// the answer, whose sizes are in bytes, to [`Renderer::on_render`].
pub struct Renderer {
    buf: GrowableBuffer<u16>,
}

impl Default for Renderer {
    fn default() -> (r: Renderer)
        ensures
            r.buffer().units@.len() == RENDER_BUFFER_UNITS,
            r.buffer().limit == MAX_TEXT_UNITS,
    {
        Renderer::new()
    }
}

impl Renderer {
    /// The buffer the service renders into.
    pub closed spec fn buffer(&self) -> GrowableBuffer<u16> {
        self.buf
    }

    /// The memory the service renders into; its length is the buffer's
    /// capacity in units.
    pub fn units_mut(&mut self) -> (r: &mut Vec<u16>)
        ensures
            *r == old(self).buffer().units,
            final(self).buffer().units == *final(r),
            final(self).buffer().limit == old(self).buffer().limit,
    {
        &mut self.buf.units
    }

    /// A renderer with a buffer of 32768 units.
    pub fn new() -> (r: Renderer)
        ensures
            r.buffer().units@.len() == RENDER_BUFFER_UNITS,
            r.buffer().limit == MAX_TEXT_UNITS,
    {
        Renderer::with_capacity(RENDER_BUFFER_UNITS)
    }

    /// A renderer with a buffer of `cap` units, which grows up to the larger of
    /// `cap` and the text limit.
    pub fn with_capacity(cap: usize) -> (r: Renderer)
        ensures
            r.buffer().units@.len() == cap,
            r.buffer().limit == if cap > MAX_TEXT_UNITS {
                cap
            } else {
                MAX_TEXT_UNITS
            },
    {
        let limit = if cap > MAX_TEXT_UNITS {
            cap
        } else {
            MAX_TEXT_UNITS
        };
        Renderer { buf: GrowableBuffer::new(cap, limit, 0u16) }
    }

    /// The outcome of a render call whose sizes are in bytes: the text is
    /// counted in 2-byte units, and a too-small answer asks for one more unit
    /// than the bytes it reports, to hold a terminator.
    pub fn outcome(ok: bool, code: u32, bytes: u32, extended: Option<String>) -> (r: FetchOutcome)
        ensures
            status_outcome(
                r,
                ok,
                code,
                if ok {
                    (bytes / 2) as usize
                } else {
                    (bytes / 2 + 1) as usize
                },
                opt_text(extended),
            ),
    {
        let units: usize = if ok {
            (bytes / 2) as usize
        } else {
            (bytes / 2) as usize + 1
        };
        FetchOutcome::from_status(ok, code, units, extended)
    }

    /// Handles the answer to a render call: the text without its terminator,
    /// or a retry after growing the buffer, or the failure.
    pub fn on_render(&mut self, outcome: FetchOutcome) -> (r: RenderStep)
        ensures
            outcome is TooSmall && outcome->required <= old(self).buffer().limit ==> r is Retry
                && final(self).buffer().units@.len() >= outcome->required,
            outcome is Filled && outcome->used <= old(self).buffer().units@.len() ==> (r matches RenderStep::Done(
                Ok(s),
            ) && s@ == utf16_lossy(
                without_terminator(old(self).buffer().units@.take(outcome->used as int)),
            ) && (s@.len() == 0 <==> without_terminator(
                old(self).buffer().units@.take(outcome->used as int),
            ).len() == 0)),
            outcome is Failed ==> r == RenderStep::Done(Err(outcome->error)),
            outcome is NoMoreItems ==> r matches RenderStep::Done(Err(WinEvtError::NoMoreItems)),
            outcome is TooSmall && outcome->required > old(self).buffer().limit ==> r matches RenderStep::Done(Err(_)),
            outcome is Filled && outcome->used > old(self).buffer().units@.len() ==> r matches RenderStep::Done(Err(_)),
            final(self).buffer().limit == old(self).buffer().limit,
            final(self).buffer().fill == old(self).buffer().fill,
            final(self).buffer().units@.len() >= old(self).buffer().units@.len(),
            !(outcome is TooSmall) ==> final(self).buffer().units == old(self).buffer().units,
            outcome is TooSmall ==> final(self).buffer().units@.len() == too_small_run(
                old(self).buffer().units@.len(),
                old(self).buffer().limit as nat,
                seq![outcome->required as nat],
            ).1 && (r is Retry <==> !too_small_run(
                old(self).buffer().units@.len(),
                old(self).buffer().limit as nat,
                seq![outcome->required as nat],
            ).2),
    {
        match self.buf.on_outcome(outcome) {
            FetchStep::Retry => RenderStep::Retry,
            FetchStep::Ready { used } => RenderStep::Done(
                text_from_units(self.buf.units.as_slice(), used),
            ),
            FetchStep::Exhausted => RenderStep::Done(Err(WinEvtError::NoMoreItems)),
            FetchStep::Failed { error } => RenderStep::Done(Err(error)),
        }
    }
}

} // verus!
