//! The client side of the glyph-atlas cache: within a frame all glyphs are
//! queued, the queue is flushed once, and only then are glyphs resolved.
//! A flush either places every queued glyph or reports why not.
use vstd::prelude::*;
use crate::upload::CacheError;

verus! {

/// Where a cache cycle stands.
#[derive(Clone, Copy, Debug, PartialEq, Eq, Structural)]
pub enum CyclePhase {
    /// Glyphs are being queued; nothing may be resolved yet.
    Queueing,
    /// The flush placed every queued glyph; resolutions may be read.
    Resident,
    /// The queued glyphs did not fit in the atlas together.
    Overflowed,
    /// An upload did not reach the atlas texture.
    UploadFailed,
}

/// One frame's cycle of the atlas cache.
#[derive(Clone, Copy, Debug)]
pub struct AtlasCycle {
    pub phase: CyclePhase,
    pub queued: usize,
}

impl AtlasCycle {
    /// A fresh cycle, with nothing queued.
    pub fn new() -> (r: AtlasCycle)
        ensures
            r.phase == CyclePhase::Queueing,
            r.queued == 0,
    {
        AtlasCycle { phase: CyclePhase::Queueing, queued: 0 }
    }

    /// Records one more queued glyph. Queueing ends with the flush.
    pub fn queue(&mut self)
        requires
            old(self).phase == CyclePhase::Queueing,
            old(self).queued < usize::MAX,
        ensures
            final(self).phase == CyclePhase::Queueing,
            final(self).queued == old(self).queued + 1,
    {
        self.queued = self.queued + 1;
    }

    /// Takes the outcome of the flush: whether the allocator placed the whole
    /// queue, and whether every upload reached the texture. A failed upload
    /// is fatal to the frame and is reported first; a queue that did not fit
    /// is reported as `CacheOverflow`, with no claim about which glyphs were
    /// placed.
    pub fn finish_flush(&mut self, placed: bool, uploads_ok: bool) -> (r: Result<(), CacheError>)
        requires
            old(self).phase == CyclePhase::Queueing,
        ensures
            final(self).queued == old(self).queued,
            !uploads_ok ==> r == Err::<(), CacheError>(CacheError::TextureUploadError)
                && final(self).phase == CyclePhase::UploadFailed,
            uploads_ok && !placed ==> r == Err::<(), CacheError>(CacheError::CacheOverflow)
                && final(self).phase == CyclePhase::Overflowed,
            uploads_ok && placed ==> r == Ok::<(), CacheError>(()) && final(self).phase
                == CyclePhase::Resident,
    {
        if !uploads_ok {
            self.phase = CyclePhase::UploadFailed;
            Err(CacheError::TextureUploadError)
        } else if !placed {
            self.phase = CyclePhase::Overflowed;
            Err(CacheError::CacheOverflow)
        } else {
            self.phase = CyclePhase::Resident;
            Ok(())
        }
    }

    /// Whether this cycle's resolutions may be read: its flush has placed
    /// every queued glyph.
    pub fn can_resolve(&self) -> (r: bool)
        ensures
            r == (self.phase == CyclePhase::Resident),
    {
        match self.phase {
            CyclePhase::Resident => true,
            _ => false,
        }
    }

    /// Starts the next frame's cycle; nothing of this one may be read after.
    pub fn next_frame(&mut self)
        ensures
            final(self).phase == CyclePhase::Queueing,
            final(self).queued == 0,
    {
        self.phase = CyclePhase::Queueing;
        self.queued = 0;
    }
}

} // verus!
