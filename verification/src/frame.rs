//! Surface configuration, the off-screen frame image, the two binding sets
//! that reference it, and the resize-invalidation protocol.
//!
//! The GPU resources themselves live outside this crate; here each one is
//! modelled by the data the protocol is about: the surface's pixel
//! dimensions, the frame image's dimensions together with a ghost generation
//! number that names the allocation, and, for each binding set, the
//! generation and dimensions of the image it was built against.  The
//! well-formedness predicate states the invariant the protocol exists for:
//! no binding set ever references a stale image.

use vstd::prelude::*;

use crate::camera::OrbitCamera;
use crate::camera::initial_camera;

verus! {

/// One step the caller must perform on the real GPU resources, in the order
/// returned.
#[derive(Clone, Copy, Debug, PartialEq, Eq, Structural)]
pub enum Action {
    /// Reconfigure the presentation surface to the given pixel dimensions.
    ConfigureSurface { width: u32, height: u32 },
    /// Destroy the frame image and allocate a new one of the given
    /// dimensions.
    RecreateFrameImage { width: u32, height: u32 },
    /// Rebuild the compute and display binding sets against the new frame
    /// image.
    RebuildBindingSets,
    /// Overwrite the camera parameter block from the current controller
    /// state and surface dimensions.
    RefreshCameraParams,
    /// Ask the window system for a redraw.
    RequestRedraw,
    /// Record and submit one frame: the compute dispatch followed by the
    /// display draw, then present.
    RenderFrame,
    /// Leave the event loop.
    Exit,
}

/// The presentation surface's configuration: its pixel dimensions.
#[derive(Clone, Copy, Debug, PartialEq, Eq, Structural)]
pub struct SurfaceConfig {
    pub width: u32,
    pub height: u32,
}

/// The off-screen image the compute stage writes and the display stage
/// samples.  `generation` names the allocation: it grows by one each time
/// the image is recreated.
#[derive(Clone, Copy)]
pub struct FrameImage {
    pub width: u32,
    pub height: u32,
    pub generation: Ghost<nat>,
}

/// The compute stage's binding set: the frame image as write target and the
/// camera parameter block.  Records which image allocation it was built
/// against.
#[derive(Clone, Copy)]
pub struct ComputeBindings {
    pub image_width: u32,
    pub image_height: u32,
    pub image_generation: Ghost<nat>,
}

/// The display stage's binding set: the frame image as filterable read
/// target and a linear sampler.  Records which image allocation it was built
/// against.
#[derive(Clone, Copy)]
pub struct DisplayBindings {
    pub image_width: u32,
    pub image_height: u32,
    pub image_generation: Ghost<nat>,
}

/// The per-frame coordinator's state: surface configuration, frame image,
/// both binding sets and the camera controller.
#[derive(Clone, Copy)]
pub struct Coordinator {
    pub config: SurfaceConfig,
    pub frame: FrameImage,
    pub compute_bindings: ComputeBindings,
    pub display_bindings: DisplayBindings,
    pub camera: OrbitCamera,
}

impl Coordinator {
    /// Well-formedness: the surface is never zero-sized, the frame image
    /// matches the surface dimensions, both binding sets reference the
    /// current frame image allocation, and the camera state is valid.
    pub open spec fn wf(self) -> bool {
        &&& self.config.width >= 1
        &&& self.config.height >= 1
        &&& self.frame.width == self.config.width
        &&& self.frame.height == self.config.height
        &&& self.compute_bindings.image_generation@ == self.frame.generation@
        &&& self.compute_bindings.image_width == self.frame.width
        &&& self.compute_bindings.image_height == self.frame.height
        &&& self.display_bindings.image_generation@ == self.frame.generation@
        &&& self.display_bindings.image_width == self.frame.width
        &&& self.display_bindings.image_height == self.frame.height
        &&& self.camera.wf()
    }

    /// Initial state for a window of the given pixel size.  A zero extent is
    /// lifted to one pixel, as when the surface is first configured.
    pub fn new(window_width: u32, window_height: u32) -> (coord: Coordinator)
        ensures
            coord.wf(),
            coord.config.width == if window_width == 0 { 1u32 } else { window_width },
            coord.config.height == if window_height == 0 { 1u32 } else { window_height },
            coord.frame.generation@ == 0,
            coord.camera == initial_camera(),
    {
        let width = if window_width == 0 { 1 } else { window_width };
        let height = if window_height == 0 { 1 } else { window_height };
        Coordinator {
            config: SurfaceConfig { width, height },
            frame: FrameImage { width, height, generation: Ghost(0) },
            compute_bindings: ComputeBindings {
                image_width: width,
                image_height: height,
                image_generation: Ghost(0),
            },
            display_bindings: DisplayBindings {
                image_width: width,
                image_height: height,
                image_generation: Ghost(0),
            },
            camera: OrbitCamera::new(),
        }
    }

    /// The resize-invalidation protocol.  A request with a zero dimension is
    /// ignored: nothing changes and no action is returned.  Otherwise the
    /// surface configuration takes the new dimensions, the frame image is
    /// recreated (a fresh generation), both binding sets are rebuilt against
    /// it, and the caller is told to do the same to the real resources, in
    /// protocol order, ending with a forced camera-parameter refresh.
    pub fn resize(&mut self, new_width: u32, new_height: u32) -> (actions: Vec<Action>)
        requires
            old(self).wf(),
        ensures
            final(self).wf(),
            (new_width == 0 || new_height == 0) ==> *final(self) == *old(self)
                && actions@ =~= Seq::<Action>::empty(),
            (new_width > 0 && new_height > 0) ==> resize_applied(
                *old(self),
                *final(self),
                new_width,
                new_height,
            ) && actions@ =~= resize_action_order(new_width, new_height),
    {
        if new_width == 0 || new_height == 0 {
            return Vec::new();
        }
        self.config.width = new_width;
        self.config.height = new_height;
        self.frame = FrameImage {
            width: new_width,
            height: new_height,
            generation: Ghost(self.frame.generation@ + 1),
        };
        self.compute_bindings = ComputeBindings {
            image_width: new_width,
            image_height: new_height,
            image_generation: Ghost(self.frame.generation@),
        };
        self.display_bindings = DisplayBindings {
            image_width: new_width,
            image_height: new_height,
            image_generation: Ghost(self.frame.generation@),
        };
        let mut actions: Vec<Action> = Vec::new();
        actions.push(Action::ConfigureSurface { width: new_width, height: new_height });
        actions.push(Action::RecreateFrameImage { width: new_width, height: new_height });
        actions.push(Action::RebuildBindingSets);
        actions.push(Action::RefreshCameraParams);
        actions
    }
}

/// How a successful resize to `(width, height)` maps the coordinator state
/// `pre` to `post`: new dimensions throughout, a fresh frame-image
/// generation, both binding sets rebuilt against it, and the camera left
/// alone.
pub open spec fn resize_applied(pre: Coordinator, post: Coordinator, width: u32, height: u32) -> bool {
    &&& post.config == (SurfaceConfig { width, height })
    &&& post.frame.width == width
    &&& post.frame.height == height
    &&& post.frame.generation@ == pre.frame.generation@ + 1
    &&& post.compute_bindings.image_generation@ == post.frame.generation@
    &&& post.compute_bindings.image_width == width
    &&& post.compute_bindings.image_height == height
    &&& post.display_bindings.image_generation@ == post.frame.generation@
    &&& post.display_bindings.image_width == width
    &&& post.display_bindings.image_height == height
    &&& post.camera == pre.camera
}

/// The order of the resize protocol's steps: reconfigure the surface,
/// recreate the frame image, rebuild both binding sets, refresh the camera
/// parameters.
pub open spec fn resize_action_order(width: u32, height: u32) -> Seq<Action> {
    seq![
        Action::ConfigureSurface { width, height },
        Action::RecreateFrameImage { width, height },
        Action::RebuildBindingSets,
        Action::RefreshCameraParams,
    ]
}

/// Index of the presentation format to use, given for each supported format
/// whether it is color-managed (sRGB): the first color-managed one, or the
/// first format of all when none is.
pub fn choose_format_index(srgb_flags: &Vec<bool>) -> (idx: usize)
    requires
        srgb_flags@.len() > 0,
    ensures
        idx < srgb_flags@.len(),
        srgb_flags@.contains(true) ==> srgb_flags@[idx as int] && (forall|j: int|
            0 <= j < idx ==> !srgb_flags@[j]),
        !srgb_flags@.contains(true) ==> idx == 0,
{
    let n = srgb_flags.len();
    let mut i: usize = 0;
    while i < n
        invariant
            n == srgb_flags@.len(),
            i <= n,
            forall|j: int| 0 <= j < i ==> !srgb_flags@[j],
        decreases n - i,
    {
        if srgb_flags[i] {
            return i;
        }
        i += 1;
    }
    0
}

} // verus!
