//! The scene renderer: one rasteriser per device, the parameters of a
//! rasterisation, and what can come back from one.

use vstd::prelude::*;

verus! {

/// An opaque colour with eight bits per channel.
#[derive(Clone, Copy, Debug, PartialEq, Eq, Structural)]
pub struct Rgb8 {
    pub r: u8,
    pub g: u8,
    pub b: u8,
}

/// How edges are smoothed.
#[derive(Clone, Copy, Debug, PartialEq, Eq, Structural)]
pub enum Antialiasing {
    Area,
    Msaa8,
    Msaa16,
}

/// Parameters of one rasterisation.
#[derive(Clone, Copy, Debug, PartialEq, Eq, Structural)]
pub struct RenderParams {
    /// Colour that the target is cleared to before the scene is drawn.
    pub base_color: Rgb8,
    pub width: u32,
    pub height: u32,
    pub antialiasing: Antialiasing,
}

/// The parameters used for a target of the given size: a dark grey
/// background and area antialiasing.
pub open spec fn frame_params(width: u32, height: u32) -> RenderParams {
    RenderParams {
        base_color: Rgb8 { r: 20, g: 20, b: 20 },
        width,
        height,
        antialiasing: Antialiasing::Area,
    }
}

impl RenderParams {
    /// The parameters of a frame of the given size.
    pub fn for_frame(width: u32, height: u32) -> (params: Self)
        ensures
            params == frame_params(width, height),
    {
        RenderParams {
            base_color: Rgb8 { r: 20, g: 20, b: 20 },
            width,
            height,
            antialiasing: Antialiasing::Area,
        }
    }
}

/// What came back from rasterising the scene into the intermediate target.
#[derive(Clone, Copy, Debug, PartialEq, Eq, Structural)]
pub enum RenderOutcome {
    /// The target holds the scene.
    Completed,
    /// The backend could not finish this frame.
    Failed,
    /// The device is gone.
    DeviceLost,
}

/// The flags after a renderer for `dev_id` was asked for: the list reaches
/// up to `dev_id`, and the flag of `dev_id` is set.
pub open spec fn with_renderer(flags: Seq<bool>, dev_id: usize) -> Seq<bool> {
    if dev_id < flags.len() {
        flags.update(dev_id as int, true)
    } else {
        Seq::new((dev_id + 1) as nat, |i: int| i == dev_id || (i < flags.len() && flags[i]))
    }
}

/// Whether the flags record a renderer for `dev_id`.
pub open spec fn has_renderer(flags: Seq<bool>, dev_id: usize) -> bool {
    dev_id < flags.len() && flags[dev_id as int]
}

/// Records for which devices a renderer exists, indexed by device id.
pub struct SceneRenderers {
    present: Vec<bool>,
}

impl View for SceneRenderers {
    type V = Seq<bool>;

    closed spec fn view(&self) -> Seq<bool> {
        self.present@
    }
}

impl SceneRenderers {
    /// No renderer for any device.
    pub fn new() -> (renderers: Self)
        ensures
            renderers@ == Seq::<bool>::empty(),
    {
        SceneRenderers { present: Vec::new() }
    }

    /// Whether a renderer exists for `dev_id`.
    pub fn has(&self, dev_id: usize) -> (present: bool)
        ensures
            present == has_renderer(self@, dev_id),
    {
        dev_id < self.present.len() && self.present[dev_id]
    }

    /// Makes sure that a renderer is recorded for `dev_id` and reports
    /// whether one has to be created. Renderers of other devices stay.
    pub fn ensure(&mut self, dev_id: usize) -> (create: bool)
        requires
            dev_id < usize::MAX,
        ensures
            final(self)@ == with_renderer(old(self)@, dev_id),
            create == !has_renderer(old(self)@, dev_id),
            has_renderer(final(self)@, dev_id),
    {
        let ghost before = self.present@;
        while self.present.len() <= dev_id
            invariant
                dev_id < usize::MAX,
                before.len() <= self.present@.len(),
                self.present@.len() <= dev_id + 1 || self.present@.len() == before.len(),
                forall|i: int| 0 <= i < before.len() ==> self.present@[i] == before[i],
                forall|i: int| before.len() <= i < self.present@.len() ==> !self.present@[i],
            decreases dev_id + 1 - self.present@.len(),
        {
            self.present.push(false);
        }
        let create = !self.present[dev_id];
        self.present.set(dev_id, true);
        assert(self.present@ =~= with_renderer(before, dev_id));
        create
    }
}

} // verus!
