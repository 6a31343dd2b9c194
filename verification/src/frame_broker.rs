//! The producer/consumer frame handoff: a single-slot, generation-versioned
//! buffer.
//!
//! The render loop publishes the latest raster without ever blocking: while
//! the consumer holds the slot for reading, a publish is dropped entirely
//! (the next render tick carries the latest strokes anyway, so data is only
//! delayed, never lost). The consumer reads the current buffer together with
//! its generation and deduplicates by generation — the slot is a
//! "latest state" sampler, not a queue.

use vstd::prelude::*;

verus! {

/// The pixel layout of a published raster. The recognition pipeline accepts
/// packed 8-bit RGB; anything else is carried through as unsupported and
/// rejected at recognition time rather than crashing a worker.
#[derive(Clone, Copy, Debug, PartialEq, Eq, Structural)]
pub enum PixelFormat {
    Rgb24,
    Unsupported,
}

/// One rendered raster: raw pixel bytes plus their dimensions and layout.
pub struct PixelBuffer {
    pub data: Vec<u8>,
    pub width: usize,
    pub height: usize,
    pub format: PixelFormat,
}

impl PixelBuffer {
    /// A raster the recognizer's input conversion accepts: packed RGB with
    /// exactly three bytes per pixel and dimensions a 32-bit image type can
    /// hold.
    pub open spec fn spec_valid_rgb24(self) -> bool {
        &&& self.format == PixelFormat::Rgb24
        &&& self.width <= u32::MAX
        &&& self.height <= u32::MAX
        &&& self.data@.len() == self.width * self.height * 3
    }

    pub fn new(data: Vec<u8>, width: usize, height: usize, format: PixelFormat) -> (r:
        PixelBuffer)
        ensures
            r == (PixelBuffer { data, width, height, format }),
    {
        PixelBuffer { data, width, height, format }
    }

    pub fn valid_rgb24(&self) -> (r: bool)
        ensures
            r == self.spec_valid_rgb24(),
    {
        if !(self.format == PixelFormat::Rgb24) {
            return false;
        }
        if self.width > u32::MAX as usize || self.height > u32::MAX as usize {
            return false;
        }
        proof {
            assert((self.width as int) * (self.height as int) * 3 <= 0xffffffff * 0xffffffff * 3)
                by (nonlinear_arith)
                requires
                    0 <= self.width <= 0xffffffff,
                    0 <= self.height <= 0xffffffff,
            ;
        }
        let expected: u128 = (self.width as u128) * (self.height as u128) * 3;
        (self.data.len() as u128) == expected
    }
}

/// The shared slot between the render loop (producer) and the recognition
/// worker (consumer). `reader_active` stands for the consumer's hold on the
/// slot during a read: the embedding gives each side access one at a time
/// and raises the flag for the duration of a consumer read.
pub struct FrameBroker {
    /// The most recently published raster, if any was ever published.
    pub slot: Option<PixelBuffer>,
    /// Generation of the slot's content: assigned by the producer from its
    /// own monotonic update counter, so distinct publishes carry
    /// strictly increasing generations and the generation is the only valid
    /// staleness signal.
    pub generation: u64,
    /// Whether the consumer currently holds the slot for reading.
    pub reader_active: bool,
}

impl FrameBroker {
    pub fn new() -> (r: FrameBroker)
        ensures
            r == (FrameBroker { slot: None, generation: 0, reader_active: false }),
    {
        FrameBroker { slot: None, generation: 0, reader_active: false }
    }

    /// Producer side, non-blocking by construction: if the consumer is
    /// mid-read the publish is dropped entirely — slot and generation are
    /// left unchanged and nothing is queued. Otherwise the buffer replaces
    /// the slot's content and takes the given generation. Returns whether
    /// the publish took effect; on `true` the caller wakes the consumer.
    ///
    /// The producer hands in generations taken from its monotonic update
    /// counter, so generations observed by the consumer never regress.
    pub fn publish(&mut self, buffer: PixelBuffer, generation: u64) -> (published: bool)
        requires
            generation >= old(self).generation,
        ensures
            old(self).reader_active ==> !published && *final(self) == *old(self),
            !old(self).reader_active ==> published && *final(self) == (FrameBroker {
                slot: Some(buffer),
                generation,
                reader_active: false,
            }),
            final(self).generation >= old(self).generation,
    {
        if self.reader_active {
            return false;
        }
        self.slot = Some(buffer);
        self.generation = generation;
        true
    }

    /// Marks the consumer's hold on the slot for the duration of a read.
    pub fn begin_read(&mut self)
        ensures
            *final(self) == (FrameBroker { reader_active: true, ..*old(self) }),
    {
        self.reader_active = true;
    }

    /// Releases the consumer's hold on the slot.
    pub fn end_read(&mut self)
        ensures
            *final(self) == (FrameBroker { reader_active: false, ..*old(self) }),
    {
        self.reader_active = false;
    }

    /// Consumer side: the current buffer and its generation, or `None` if no
    /// buffer has ever been published. Does not consume the slot — staleness
    /// is judged by generation, never by buffer identity or content.
    pub fn try_take(&self) -> (r: Option<(&PixelBuffer, u64)>)
        ensures
            match r {
                None => self.slot is None,
                Some((buffer, generation)) => self.slot == Some(*buffer) && generation
                    == self.generation,
            },
    {
        match &self.slot {
            None => None,
            Some(buffer) => Some((buffer, self.generation)),
        }
    }
}

} // verus!
