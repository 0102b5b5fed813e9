//! The renderer's state and its per-call decisions.
//!
//! A `Renderer` records the window size, the swapchain configuration in
//! force, the pipeline configuration and the counts of the static geometry.
//! Its methods say what the GPU is to do: which swapchain to create on a
//! resize, and what to draw for a frame.
use vstd::prelude::*;
use crate::geometry::{polygon_counts, geometry_counts, GeometryCounts};
use crate::pipeline::{create_pipeline, pipeline_for, PipelineConfig};
use crate::swapchain::{config_for, create_swapchain, Size, SwapchainConfig, SWAPCHAIN_FORMAT};

verus! {

/// An RGBA color, each channel in hundredths (0 to 100).
#[derive(Clone, Copy, Debug, PartialEq, Eq, Structural)]
pub struct ClearColor {
    pub r: u8,
    pub g: u8,
    pub b: u8,
    pub a: u8,
}

/// The background every frame is cleared to: a deep blue, opaque.
pub open spec fn background() -> ClearColor {
    ClearColor { r: 10, g: 15, b: 80, a: 100 }
}

/// One render pass: clear to `clear`, then draw indices
/// `first_index .. first_index + index_count` of the index buffer, with
/// `base_vertex` added to each, for `instance_count` instances.
#[derive(Clone, Copy, Debug, PartialEq, Eq, Structural)]
pub struct DrawCall {
    pub clear: ClearColor,
    pub first_index: u32,
    pub index_count: u32,
    pub base_vertex: i32,
    pub instance_count: u32,
}

/// The single draw of a frame: the whole static index list, one instance.
pub open spec fn polygon_draw(g: GeometryCounts) -> DrawCall {
    DrawCall {
        clear: background(),
        first_index: 0,
        index_count: g.num_indices,
        base_vertex: 0,
        instance_count: 1,
    }
}

/// What the GPU is asked to do for one frame.
#[derive(Clone, Copy, Debug, PartialEq, Eq, Structural)]
pub enum FrameRequest {
    /// Record and submit this render pass into the acquired image.
    Draw(DrawCall),
    /// Record nothing this frame.
    Skip,
}

/// The renderer's state.
#[derive(Clone, Debug)]
pub struct Renderer {
    /// The last size received.
    pub size: Size,
    /// The configuration of the swapchain in force; `None` while no
    /// swapchain could be made (the window has had zero area throughout).
    pub sc_desc: Option<SwapchainConfig>,
    /// The render pipeline, built once.
    pub render_pipeline: PipelineConfig,
    /// Counts of the static vertex and index buffers, uploaded once.
    pub geometry: GeometryCounts,
}

impl Renderer {
    /// The swapchain matches the size whenever the size has pixels, and the
    /// pipeline draws into the swapchain's format.
    pub open spec fn wf(&self) -> bool {
        &&& !self.size.spec_is_zero_area() ==> self.sc_desc == Some(config_for(self.size))
        &&& self.sc_desc matches Some(c) ==> c.format == SWAPCHAIN_FORMAT
        &&& pipeline_for(self.render_pipeline, SWAPCHAIN_FORMAT)
        &&& self.geometry == polygon_counts()
    }

    /// The swapchain a window of size `size` gets: none for a zero area.
    pub open spec fn swapchain_for(size: Size) -> Option<SwapchainConfig> {
        if size.spec_is_zero_area() {
            None
        } else {
            Some(config_for(size))
        }
    }

    /// The state after `resize(size)`: the size is recorded; the swapchain is
    /// remade for it unless it has zero area, in which case the old one stays.
    pub open spec fn resized(self, size: Size) -> Renderer {
        Renderer {
            size,
            sc_desc: if size.spec_is_zero_area() { self.sc_desc } else { Some(config_for(size)) },
            ..self
        }
    }

    /// What `render` asks for: the polygon's draw whenever an image was
    /// acquired; otherwise the frame is skipped.
    pub open spec fn frame_request(self, frame_acquired: bool) -> FrameRequest {
        if frame_acquired {
            FrameRequest::Draw(polygon_draw(self.geometry))
        } else {
            FrameRequest::Skip
        }
    }

    /// A renderer for a window of size `size`: swapchain for that size,
    /// the fixed pipeline, and the polygon's buffers.
    pub fn new(size: Size) -> (r: Renderer)
        ensures
            r.wf(),
            r.size == size,
            r.sc_desc == Self::swapchain_for(size),
            pipeline_for(r.render_pipeline, SWAPCHAIN_FORMAT),
            r.geometry == polygon_counts(),
    {
        let sc_desc = create_swapchain(size);
        let render_pipeline = create_pipeline(&sc_desc);
        let geometry = geometry_counts();
        let sc_desc = if size.is_zero_area() {
            None
        } else {
            Some(sc_desc)
        };
        Renderer { size, sc_desc, render_pipeline, geometry }
    }

    /// Records a new window size. Returns the configuration the swapchain
    /// must be recreated with, or `None` when the size has zero area and the
    /// swapchain is left alone. The pipeline and the buffers are untouched.
    pub fn resize(&mut self, new_size: Size) -> (r: Option<SwapchainConfig>)
        requires
            old(self).wf(),
        ensures
            final(self).wf(),
            *final(self) == old(self).resized(new_size),
            r == Self::swapchain_for(new_size),
            !new_size.spec_is_zero_area() ==> {
                &&& final(self).sc_desc matches Some(c)
                &&& c.width == new_size.width
                &&& c.height == new_size.height
            },
    {
        self.size = new_size;
        if new_size.is_zero_area() {
            None
        } else {
            let sc_desc = create_swapchain(new_size);
            self.sc_desc = Some(sc_desc);
            Some(sc_desc)
        }
    }

    /// Offers a window event to the renderer; it consumes none.
    pub fn input(&mut self, _event: &crate::game::WindowEvent) -> (r: bool)
        ensures
            !r,
            *final(self) == *old(self),
    {
        false
    }

    /// Advances per-frame state; there is none to advance.
    pub fn update(&mut self)
        ensures
            *final(self) == *old(self),
    {
    }

    /// Decides the frame: the polygon's render pass whenever an image was
    /// acquired from the swapchain in force, else nothing (a failed
    /// acquisition skips the frame). The state, and with it the pipeline and
    /// buffers, is left unchanged, so frames can follow one another with the
    /// same result.
    pub fn render(&mut self, frame_acquired: bool) -> (r: FrameRequest)
        requires
            old(self).wf(),
            frame_acquired ==> old(self).sc_desc is Some,
        ensures
            r == old(self).frame_request(frame_acquired),
            *final(self) == *old(self),
            r matches FrameRequest::Draw(d) ==> d.index_count == 9 && d.clear == background(),
    {
        if frame_acquired {
            FrameRequest::Draw(DrawCall {
                clear: ClearColor { r: 10, g: 15, b: 80, a: 100 },
                first_index: 0,
                index_count: self.geometry.num_indices,
                base_vertex: 0,
                instance_count: 1,
            })
        } else {
            FrameRequest::Skip
        }
    }
}

/// A resize to zero area keeps the swapchain in force, and an image acquired
/// from it is still drawn; a later resize to a size with pixels brings the
/// swapchain for that size, and the renderer draws the polygon on an
/// acquired image.
pub proof fn lemma_resize_recovers(r: Renderer, zero: Size, size: Size)
    requires
        r.wf(),
        zero.spec_is_zero_area(),
        !size.spec_is_zero_area(),
    ensures
        r.resized(zero).wf(),
        r.resized(zero).sc_desc == r.sc_desc,
        r.resized(zero).frame_request(true) == FrameRequest::Draw(polygon_draw(polygon_counts())),
        r.resized(zero).resized(size).wf(),
        r.resized(zero).resized(size).sc_desc == Some(config_for(size)),
        r.resized(zero).resized(size).render_pipeline == r.render_pipeline,
        r.resized(zero).resized(size).geometry == r.geometry,
        r.resized(zero).resized(size).frame_request(true) == FrameRequest::Draw(polygon_draw(polygon_counts())),
{
}

/// Whenever a swapchain is in force, the pipeline draws into its format,
/// before and after any resize.
pub proof fn lemma_pipeline_matches_swapchain(r: Renderer, size: Size)
    requires
        r.wf(),
    ensures
        r.sc_desc matches Some(c) ==> r.render_pipeline.color_format == c.format,
        r.resized(size).wf(),
        r.resized(size).sc_desc matches Some(c) ==> r.resized(size).render_pipeline.color_format
            == c.format,
{
}

/// Resizing twice to the same size leaves the same state as resizing once.
pub proof fn lemma_resize_idempotent(r: Renderer, size: Size)
    requires
        r.wf(),
    ensures
        r.resized(size).resized(size) == r.resized(size),
{
}

/// A fresh renderer for a window with pixels draws the polygon, all of its
/// nine indices over its five corners, on its first acquired image.
pub proof fn lemma_fresh_renderer_draws(r: Renderer, size: Size)
    requires
        r.wf(),
        r.size == size,
        !size.spec_is_zero_area(),
    ensures
        r.frame_request(true) == FrameRequest::Draw(polygon_draw(polygon_counts())),
        polygon_draw(polygon_counts()).index_count == 9,
        polygon_counts().num_vertices == 5,
{
}

} // verus!
