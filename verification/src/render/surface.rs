//! The presentation surface: the window-bound target that the operating
//! system shows, its configuration, and the outcomes of asking it for the
//! next frame.

use vstd::prelude::*;

verus! {

/// A size in physical pixels.
#[derive(Clone, Copy, Debug, PartialEq, Eq, Structural)]
pub struct PhysicalSize {
    pub width: u32,
    pub height: u32,
}

impl PhysicalSize {
    pub fn new(width: u32, height: u32) -> (size: Self)
        ensures
            size == (PhysicalSize { width, height }),
    {
        PhysicalSize { width, height }
    }

    /// A size without area: at least one side is zero.
    pub open spec fn spec_is_empty(&self) -> bool {
        self.width == 0 || self.height == 0
    }

    #[verifier::when_used_as_spec(spec_is_empty)]
    pub fn is_empty(&self) -> (empty: bool)
        ensures
            empty == self.spec_is_empty(),
    {
        self.width == 0 || self.height == 0
    }
}

/// Pixel format of the frames that the surface hands out.
#[derive(Clone, Copy, Debug, PartialEq, Eq, Structural)]
pub enum SurfaceFormat {
    Rgba8Unorm,
    Bgra8Unorm,
}

/// How presented frames are paced against the display.
#[derive(Clone, Copy, Debug, PartialEq, Eq, Structural)]
pub enum PresentMode {
    AutoVsync,
    AutoNoVsync,
    Fifo,
    FifoRelaxed,
    Immediate,
    Mailbox,
}

/// Configuration of the presentation surface.
#[derive(Clone, Copy, Debug, PartialEq, Eq, Structural)]
pub struct Surface {
    pub format: SurfaceFormat,
    pub present_mode: PresentMode,
    pub width: u32,
    pub height: u32,
    /// Id of the device that backs the surface.
    pub dev_id: usize,
}

impl Surface {
    pub fn new(
        size: PhysicalSize,
        format: SurfaceFormat,
        present_mode: PresentMode,
        dev_id: usize,
    ) -> (surface: Self)
        ensures
            surface == (Surface {
                format,
                present_mode,
                width: size.width,
                height: size.height,
                dev_id,
            }),
    {
        Surface { format, present_mode, width: size.width, height: size.height, dev_id }
    }

    /// The configured size.
    pub open spec fn spec_size(&self) -> PhysicalSize {
        PhysicalSize { width: self.width, height: self.height }
    }

    #[verifier::when_used_as_spec(spec_size)]
    pub fn size(&self) -> (size: PhysicalSize)
        ensures
            size == self.spec_size(),
    {
        PhysicalSize { width: self.width, height: self.height }
    }

    /// A live surface has an area that frames can be rendered for.
    pub open spec fn spec_is_live(&self) -> bool {
        self.width > 0 && self.height > 0
    }

    #[verifier::when_used_as_spec(spec_is_live)]
    pub fn is_live(&self) -> (live: bool)
        ensures
            live == self.spec_is_live(),
    {
        self.width > 0 && self.height > 0
    }

    /// The surface after a request to resize it to `width` x `height`.
    ///
    /// A request without area is rejected and leaves the configuration as it
    /// was; any other request replaces the size and nothing else.
    pub open spec fn resized(self, width: u32, height: u32) -> Surface {
        if width == 0 || height == 0 {
            self
        } else {
            Surface { width, height, ..self }
        }
    }

    /// Applies a resize request and reports whether the surface has to be
    /// reconfigured. Resources derived from the old size are the caller's to
    /// invalidate.
    pub fn resize(&mut self, width: u32, height: u32) -> (reconfigure: bool)
        ensures
            *final(self) == old(self).resized(width, height),
            reconfigure == (width != 0 && height != 0),
    {
        if width == 0 || height == 0 {
            return false;
        }
        self.width = width;
        self.height = height;
        true
    }
}

/// What came back from asking the surface for its next frame.
#[derive(Clone, Copy, Debug, PartialEq, Eq, Structural)]
pub enum AcquireOutcome {
    /// A frame to render into.
    Acquired,
    /// The surface did not hand out a frame in time.
    Timeout,
    /// The surface changed underneath and has to be reconfigured.
    Outdated,
    /// The swap chain was lost.
    Lost,
    /// No memory for another frame.
    OutOfMemory,
    /// Any other failure.
    Other,
}

/// The three ways a frame acquisition is handled.
#[derive(Clone, Copy, Debug, PartialEq, Eq, Structural)]
pub enum Acquisition {
    /// Composite into the frame and present it.
    Frame,
    /// Skip this tick; the next one asks again.
    Retryable,
    /// Rendering cannot go on.
    Fatal,
}

impl AcquireOutcome {
    pub open spec fn spec_classify(self) -> Acquisition {
        match self {
            AcquireOutcome::Acquired => Acquisition::Frame,
            AcquireOutcome::Timeout | AcquireOutcome::Outdated | AcquireOutcome::Lost =>
                Acquisition::Retryable,
            AcquireOutcome::OutOfMemory | AcquireOutcome::Other => Acquisition::Fatal,
        }
    }

    /// Sorts an outcome into frame, retryable and fatal.
    #[verifier::when_used_as_spec(spec_classify)]
    pub fn classify(self) -> (class: Acquisition)
        ensures
            class == self.spec_classify(),
    {
        match self {
            AcquireOutcome::Acquired => Acquisition::Frame,
            AcquireOutcome::Timeout => Acquisition::Retryable,
            AcquireOutcome::Outdated => Acquisition::Retryable,
            AcquireOutcome::Lost => Acquisition::Retryable,
            AcquireOutcome::OutOfMemory => Acquisition::Fatal,
            AcquireOutcome::Other => Acquisition::Fatal,
        }
    }
}

} // verus!
