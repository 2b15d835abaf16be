//! The state of the viewer between frames, and the steps that change it.

use vstd::prelude::*;
use crate::binary32::{in_range, is_nan};
use crate::camera::{
    CameraModel, CameraState, Vector3, ViewBasis, FOV_MAX_BITS, FOV_MIN_BITS, PITCH_MAX_BITS,
    PITCH_MIN_BITS,
};
use crate::error::{AcquireError, RenderError};
use crate::frame::{spec_tiles, tiles, FramePlan, BLIT_VERTICES};
use crate::resources::{spec_accum, spec_side, side, AccumImage, BindGroupId, FrameResources, Slot};
use crate::surface::{choose_format, is_choice, SurfaceConfig, SurfaceFormat, MAX_FRAME_LATENCY};
use crate::uniform::{CameraUBO, MAX_BOUNCE};

verus! {

/// One more than the largest frame index: the frame counter wraps here.
pub open spec fn frame_modulus() -> nat {
    0x1_0000_0000
}

/// What a renderer is, as a value.
pub struct RendererModel {
    /// The configuration of the surface.
    pub config: SurfaceConfig,
    /// What each of the two accumulation images is.
    pub image: AccumImage,
    /// Frames shown since the accumulation was last started over.
    pub frame_index: nat,
    /// The image that the next frame reads; it writes the other one.
    pub source: Slot,
    pub camera: CameraModel,
}

/// What has to be made anew after the surface changed its size: the surface
/// is configured with `config`, both accumulation images are made from
/// `image`, and all four binding sets are made over the new images.
#[derive(Clone, Copy, Debug, PartialEq, Eq, Structural)]
pub struct Rebuild {
    pub config: SurfaceConfig,
    pub image: AccumImage,
}

impl RendererModel {
    /// The images are those of the surface's size, no side of which is
    /// empty; the frame index fits its 32 bits; the camera is within its
    /// limits.
    pub open spec fn wf(self) -> bool {
        &&& self.config.width >= 1
        &&& self.config.height >= 1
        &&& self.config.max_frame_latency == MAX_FRAME_LATENCY
        &&& self.image == spec_accum(self.config.width, self.config.height)
        &&& self.frame_index < frame_modulus()
        &&& self.camera.within_limits()
    }

    /// The renderer of a new viewer whose surface has the given size and
    /// takes the format at place `format`: nothing accumulated, image A
    /// read first, the camera at its start.
    pub open spec fn initial(width: u32, height: u32, format: usize) -> RendererModel {
        RendererModel {
            config: SurfaceConfig {
                width: spec_side(width),
                height: spec_side(height),
                format,
                max_frame_latency: MAX_FRAME_LATENCY,
            },
            image: spec_accum(width, height),
            frame_index: 0,
            source: Slot::A,
            camera: CameraModel::initial(),
        }
    }

    /// The accumulation started over.
    pub open spec fn reset(self) -> RendererModel {
        RendererModel { frame_index: 0, ..self }
    }

    /// After the surface took a size of which no side is empty: surface and
    /// images have that size and the accumulation starts over.
    pub open spec fn resized(self, width: u32, height: u32) -> RendererModel {
        RendererModel {
            config: SurfaceConfig { width, height, ..self.config },
            image: spec_accum(width, height),
            frame_index: 0,
            ..self
        }
    }

    /// After one frame was shown: the counter has advanced, wrapping at its
    /// modulus, and the images have swapped roles.
    pub open spec fn rendered(self) -> RendererModel {
        RendererModel {
            frame_index: (self.frame_index + 1) % frame_modulus(),
            source: self.source.spec_other(),
            ..self
        }
    }

    /// After `n` frames were shown in a row.
    pub open spec fn frames(self, n: nat) -> RendererModel
        decreases n,
    {
        if n == 0 {
            self
        } else {
            self.frames((n - 1) as nat).rendered()
        }
    }

    /// After the camera was carried to `origin`.
    pub open spec fn moved(self, origin: Vector3) -> RendererModel {
        RendererModel { camera: self.camera.moved(origin), frame_index: 0, ..self }
    }

    /// After the camera was turned.
    pub open spec fn turned(self, yaw: u32, pitch: u32) -> RendererModel {
        RendererModel { camera: self.camera.turned(yaw, pitch), frame_index: 0, ..self }
    }

    /// After the field of view was set.
    pub open spec fn zoomed(self, fov_y: u32) -> RendererModel {
        RendererModel { camera: self.camera.zoomed(fov_y), frame_index: 0, ..self }
    }

    /// The work of the next frame. The compute program reads the source
    /// image and writes the other one, over as many tiles as cover the
    /// image; the render program then samples the image just written, with
    /// one triangle.
    pub open spec fn plan(self) -> FramePlan {
        FramePlan {
            compute: BindGroupId::spec_compute(self.source),
            groups_x: spec_tiles(self.image.width) as u32,
            groups_y: spec_tiles(self.image.height) as u32,
            groups_z: 1,
            blit: BindGroupId::spec_blit(self.source.spec_other()),
            vertices: BLIT_VERTICES,
            instances: 1,
        }
    }

    /// The camera record for the GPU, given the view basis of the camera.
    pub open spec fn uniform(self, basis: ViewBasis) -> CameraUBO {
        CameraUBO {
            origin: self.camera.origin,
            dir: basis.dir,
            right: basis.right,
            up: basis.up,
            img_size: [self.image.width, self.image.height],
            frame_index: self.frame_index as u32,
            max_bounce: MAX_BOUNCE,
        }
    }

    /// What is to be made anew once the surface has this size.
    pub open spec fn rebuild(self) -> Rebuild {
        Rebuild { config: self.config, image: self.image }
    }
}

/// The renderer: surface configuration, the pair of accumulation images, the
/// frame counter, the orientation of the pair, and the camera.
#[derive(Debug)]
pub struct Renderer {
    config: SurfaceConfig,
    frames: FrameResources,
    frame_index: u32,
    use_a_as_src: bool,
    camera: CameraState,
}

impl View for Renderer {
    type V = RendererModel;

    closed spec fn view(&self) -> RendererModel {
        RendererModel {
            config: self.config,
            image: self.frames@,
            frame_index: self.frame_index as nat,
            source: if self.use_a_as_src {
                Slot::A
            } else {
                Slot::B
            },
            camera: self.camera@,
        }
    }
}

impl Renderer {
    #[verifier::type_invariant]
    spec fn consistent(self) -> bool {
        &&& self.config.width >= 1
        &&& self.config.height >= 1
        &&& self.config.max_frame_latency == MAX_FRAME_LATENCY
        &&& self.frames@ == spec_accum(self.config.width, self.config.height)
        &&& self.camera@.within_limits()
    }

    /// The renderer of a new viewer, for a window of the given size and a
    /// surface that offers `formats`. A window with an empty side gets
    /// images of side 1. Without any format there is nothing to show on.
    pub fn new(width: u32, height: u32, formats: &Vec<SurfaceFormat>) -> (r: Result<
        Renderer,
        RenderError,
    >)
        ensures
            formats@.len() == 0 ==> r is Err && r->Err_0 == RenderError::ResourceCreation,
            formats@.len() > 0 ==> r is Ok && is_choice(formats@, r->Ok_0@.config.format as int)
                && r->Ok_0@ == RendererModel::initial(width, height, r->Ok_0@.config.format)
                && r->Ok_0@.wf(),
    {
        match choose_format(formats) {
            None => Err(RenderError::ResourceCreation),
            Some(format) => {
                Ok(
                    Renderer {
                        config: SurfaceConfig {
                            width: side(width),
                            height: side(height),
                            format,
                            max_frame_latency: MAX_FRAME_LATENCY,
                        },
                        frames: FrameResources::create(width, height),
                        frame_index: 0,
                        use_a_as_src: true,
                        camera: CameraState::new(),
                    },
                )
            },
        }
    }

    /// Takes the new size of the surface. A size with an empty side changes
    /// nothing and asks for nothing. Any other size becomes the size of the
    /// surface and of both images, the accumulation starts over, and what is
    /// returned has to be made anew.
    pub fn resize(&mut self, width: u32, height: u32) -> (rebuild: Option<Rebuild>)
        ensures
            width == 0 || height == 0 ==> rebuild is None && *final(self) == *old(self),
            width != 0 && height != 0 ==> final(self)@ == old(self)@.resized(width, height)
                && rebuild == Some(final(self)@.rebuild()),
            final(self)@.wf(),
    {
        proof {
            use_type_invariant(&*self);
        }
        if width == 0 || height == 0 {
            return None;
        }
        let config = SurfaceConfig {
            width,
            height,
            format: self.config.format,
            max_frame_latency: self.config.max_frame_latency,
        };
        let frames = FrameResources::create(width, height);
        let image = frames.image(Slot::A);
        *self = Renderer {
            config,
            frames,
            frame_index: 0,
            use_a_as_src: self.use_a_as_src,
            camera: self.camera,
        };
        Some(Rebuild { config, image })
    }

    /// Carries the camera to `origin` and starts the accumulation over.
    /// `origin` is the point that a movement step leads to once the view
    /// basis has taken it to world space.
    pub fn queue_movement(&mut self, origin: Vector3)
        ensures
            final(self)@ == old(self)@.moved(origin),
            final(self)@.frame_index == 0,
            final(self)@.wf(),
    {
        proof {
            use_type_invariant(&*self);
        }
        let mut camera = self.camera;
        camera.apply_movement(origin);
        self.camera = camera;
        self.reset_accum();
    }

    /// Turns the camera to `yaw` and `pitch`, the pitch kept within its
    /// limits, and starts the accumulation over. The two angles are those
    /// that the pointer's travel, scaled by the look sensitivity, leads to
    /// from the camera's own.
    pub fn on_mouse_delta(&mut self, yaw: u32, pitch: u32)
        ensures
            final(self)@ == old(self)@.turned(yaw, pitch),
            !is_nan(pitch) ==> in_range(final(self)@.camera.pitch, PITCH_MIN_BITS, PITCH_MAX_BITS),
            final(self)@.frame_index == 0,
            final(self)@.wf(),
    {
        proof {
            use_type_invariant(&*self);
        }
        let mut camera = self.camera;
        camera.apply_look(yaw, pitch);
        self.camera = camera;
        self.reset_accum();
    }

    /// Sets the vertical field of view to `fov_y`, kept within its limits,
    /// and starts the accumulation over. `fov_y` is the angle that the
    /// scroll, scaled by the zoom sensitivity, leads to from the camera's
    /// own.
    pub fn on_scroll(&mut self, fov_y: u32)
        ensures
            final(self)@ == old(self)@.zoomed(fov_y),
            !is_nan(fov_y) ==> in_range(final(self)@.camera.fov_y, FOV_MIN_BITS, FOV_MAX_BITS),
            final(self)@.frame_index == 0,
            final(self)@.wf(),
    {
        proof {
            use_type_invariant(&*self);
        }
        let mut camera = self.camera;
        camera.apply_zoom(fov_y);
        self.camera = camera;
        self.reset_accum();
    }

    /// Starts the accumulation over: the next frame is the first sample.
    pub fn reset_accum(&mut self)
        ensures
            final(self)@ == old(self)@.reset(),
            final(self)@.frame_index == 0,
            final(self)@.wf(),
    {
        proof {
            use_type_invariant(&*self);
        }
        self.frame_index = 0;
    }

    /// One frame. `acquired` tells whether the surface gave an image to draw
    /// on. If it did, the work of the frame is returned, the counter
    /// advances and the images swap roles. If it did not, the frame is
    /// given up: the failure is returned and nothing changes.
    pub fn render(&mut self, acquired: Result<(), AcquireError>) -> (r: Result<
        FramePlan,
        RenderError,
    >)
        ensures
            acquired is Ok ==> r == Ok::<FramePlan, RenderError>(old(self)@.plan())
                && final(self)@ == old(self)@.rendered(),
            acquired matches Err(e) ==> r == Err::<FramePlan, RenderError>(
                RenderError::SurfaceAcquire(e),
            ) && *final(self) == *old(self),
            final(self)@.wf(),
    {
        proof {
            use_type_invariant(&*self);
        }
        match acquired {
            Err(e) => Err(RenderError::SurfaceAcquire(e)),
            Ok(_) => {
                let plan = self.frame_plan();
                self.frame_index = self.frame_index.wrapping_add(1);
                self.use_a_as_src = !self.use_a_as_src;
                Ok(plan)
            },
        }
    }

    /// The work of the next frame. Each side of the grid of workgroups is at
    /// least 1.
    pub fn frame_plan(&self) -> (plan: FramePlan)
        ensures
            plan == self@.plan(),
            plan.groups_x >= 1,
            plan.groups_y >= 1,
    {
        proof {
            use_type_invariant(self);
        }
        let image = self.frames.image(Slot::A);
        let source = self.source();
        FramePlan {
            compute: BindGroupId::compute(source),
            groups_x: tiles(image.width),
            groups_y: tiles(image.height),
            groups_z: 1,
            blit: BindGroupId::blit(source.other()),
            vertices: BLIT_VERTICES,
            instances: 1,
        }
    }

    /// The camera record for the GPU buffer, given the view basis that
    /// belongs to the camera's yaw and pitch. The buffer is written after
    /// every frame, after every change of the camera and after every change
    /// of size.
    pub fn camera_ubo(&self, basis: &ViewBasis) -> (ubo: CameraUBO)
        ensures
            ubo == self@.uniform(*basis),
    {
        let image = self.frames.image(Slot::A);
        CameraUBO {
            origin: self.camera.origin(),
            dir: basis.dir,
            right: basis.right,
            up: basis.up,
            img_size: [image.width, image.height],
            frame_index: self.frame_index,
            max_bounce: MAX_BOUNCE,
        }
    }

    /// Frames shown since the accumulation was last started over.
    pub fn frame_index(&self) -> (index: u32)
        ensures
            index == self@.frame_index,
    {
        self.frame_index
    }

    /// The image that the next frame reads.
    pub fn source(&self) -> (slot: Slot)
        ensures
            slot == self@.source,
    {
        if self.use_a_as_src {
            Slot::A
        } else {
            Slot::B
        }
    }

    /// The image that the next frame writes, and then shows.
    pub fn target(&self) -> (slot: Slot)
        ensures
            slot == self@.source.spec_other(),
            slot != self@.source,
    {
        self.source().other()
    }

    /// The camera.
    pub fn camera(&self) -> (camera: CameraState)
        ensures
            camera@ == self@.camera,
    {
        self.camera
    }

    /// The configuration of the surface.
    pub fn surface_config(&self) -> (config: SurfaceConfig)
        ensures
            config == self@.config,
            config.width >= 1,
            config.height >= 1,
    {
        proof {
            use_type_invariant(self);
        }
        self.config
    }

    /// The accumulation image in a slot. Both slots hold images of the size
    /// of the surface.
    pub fn image(&self, slot: Slot) -> (image: AccumImage)
        ensures
            image == self@.image,
            image.width == self@.config.width,
            image.height == self@.config.height,
    {
        proof {
            use_type_invariant(self);
        }
        self.frames.image(slot)
    }
}

/// A new renderer is well-formed.
pub proof fn lemma_initial_is_wf(width: u32, height: u32, format: usize)
    ensures
        RendererModel::initial(width, height, format).wf(),
{
}

/// Every step takes a well-formed renderer to a well-formed one.
pub proof fn lemma_steps_keep_wf(
    s: RendererModel,
    width: u32,
    height: u32,
    origin: Vector3,
    yaw: u32,
    pitch: u32,
    fov_y: u32,
)
    requires
        s.wf(),
    ensures
        s.reset().wf(),
        s.rendered().wf(),
        s.moved(origin).wf(),
        s.turned(yaw, pitch).wf(),
        s.zoomed(fov_y).wf(),
        width >= 1 && height >= 1 ==> s.resized(width, height).wf(),
{
}

/// Moving, turning and zooming the camera each start the accumulation over,
/// and so do a reset and a change of size.
pub proof fn lemma_changes_reset_the_counter(
    s: RendererModel,
    width: u32,
    height: u32,
    origin: Vector3,
    yaw: u32,
    pitch: u32,
    fov_y: u32,
)
    ensures
        s.moved(origin).frame_index == 0,
        s.turned(yaw, pitch).frame_index == 0,
        s.zoomed(fov_y).frame_index == 0,
        s.reset().frame_index == 0,
        s.resized(width, height).frame_index == 0,
{
}

/// After `n` frames in a row the counter has advanced by `n`, wrapping at
/// its modulus, and the images have swapped roles `n` times: they are back
/// where they were if `n` is even and exchanged if it is odd. Nothing else
/// has changed.
pub proof fn lemma_frames_in_a_row(s: RendererModel, n: nat)
    requires
        s.wf(),
    ensures
        s.frames(n).frame_index == (s.frame_index + n) % frame_modulus(),
        s.frames(n).source == if n % 2 == 0 {
            s.source
        } else {
            s.source.spec_other()
        },
        s.frames(n).config == s.config,
        s.frames(n).image == s.image,
        s.frames(n).camera == s.camera,
        s.frames(n).wf(),
    decreases n,
{
    if n > 0 {
        lemma_frames_in_a_row(s, (n - 1) as nat);
    }
}

/// After a change of size both accumulation images have the new size, and
/// the work of the next frame covers them.
pub proof fn lemma_resized_images(s: RendererModel, width: u32, height: u32)
    requires
        width >= 1,
        height >= 1,
    ensures
        s.resized(width, height).image.width == width,
        s.resized(width, height).image.height == height,
        s.resized(width, height).config.width == width,
        s.resized(width, height).config.height == height,
        s.resized(width, height).source == s.source,
        s.resized(width, height).camera == s.camera,
{
}

/// In every frame the render program samples the image that the compute
/// program has just written, which is not the one that it read.
pub proof fn lemma_plan_shows_what_was_written(s: RendererModel)
    ensures
        s.plan().compute.spec_input() == s.source,
        s.plan().blit.spec_input() == s.source.spec_other(),
        s.plan().blit.spec_input() != s.plan().compute.spec_input(),
        s.rendered().plan().compute.spec_input() == s.plan().blit.spec_input(),
{
}

} // verus!
