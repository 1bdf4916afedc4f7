//! The GPU state record: the two resource handles that live as long as the
//! surface, and the swapchain descriptor that every frame rewrites.

use vstd::prelude::*;

verus! {

/// Handle of a vertex buffer that the backend created.
#[derive(Clone, Copy, Debug, PartialEq, Eq, Structural)]
pub struct BufferHandle {
    pub id: u32,
}

/// Handle of a pipeline that the backend compiled.
#[derive(Clone, Copy, Debug, PartialEq, Eq, Structural)]
pub struct PipelineHandle {
    pub id: u32,
}

/// Target of one frame: the surface's size in pixels and the framebuffer to
/// draw into.
#[derive(Clone, Copy, Debug, PartialEq, Eq, Structural)]
pub struct Swapchain {
    pub width: i32,
    pub height: i32,
    pub framebuffer: u32,
}

/// What the host surface reports when asked, live, at the start of a frame.
#[derive(Clone, Copy, Debug, PartialEq, Eq, Structural)]
pub struct SurfaceQuery {
    /// Current width of the surface in pixels.
    pub width: i32,
    /// Current height of the surface in pixels.
    pub height: i32,
    /// The framebuffer binding as the rendering context reports it, a signed
    /// integer.
    pub framebuffer_binding: i32,
}

/// The two resources that are created once and never change afterwards.
#[derive(Clone, Copy, Debug, PartialEq, Eq, Structural)]
pub struct Resources {
    pub vertex_buffer: BufferHandle,
    pub pipeline: PipelineHandle,
}

/// GPU state that is ready to draw.
#[derive(Clone, Copy, Debug, PartialEq, Eq, Structural)]
pub struct ReadyState {
    pub resources: Resources,
    pub swapchain: Swapchain,
}

/// The GPU state of one surface: empty until the resource initializer has
/// run, ready from then on. A frame can only be rendered from the ready part.
#[derive(Clone, Copy, Debug, PartialEq, Eq, Structural)]
pub enum GpuState {
    Empty,
    Ready(ReadyState),
}

/// The swapchain before any frame: no size, framebuffer 0.
pub open spec fn blank_swapchain() -> Swapchain {
    Swapchain { width: 0, height: 0, framebuffer: 0 }
}

/// The framebuffer identity that a signed binding stands for: the same 32
/// bits read as an unsigned number.
pub open spec fn framebuffer_identity(binding: i32) -> u32 {
    if binding >= 0 {
        binding as u32
    } else {
        (binding + 0x1_0000_0000) as u32
    }
}

/// The swapchain descriptor for a surface query: the size as reported, and
/// the framebuffer that the binding stands for.
pub open spec fn swapchain_for(surface: SurfaceQuery) -> Swapchain {
    Swapchain {
        width: surface.width,
        height: surface.height,
        framebuffer: framebuffer_identity(surface.framebuffer_binding),
    }
}

/// The state that the resource initializer leaves: the new handles, and the
/// swapchain as it was (blank if the state was empty).
pub open spec fn initialized(before: GpuState, resources: Resources) -> ReadyState {
    ReadyState {
        resources,
        swapchain: match before {
            GpuState::Empty => blank_swapchain(),
            GpuState::Ready(ready) => ready.swapchain,
        },
    }
}

/// Reads a signed framebuffer binding as the unsigned framebuffer identity.
pub fn framebuffer_from_binding(binding: i32) -> (framebuffer: u32)
    ensures
        framebuffer == framebuffer_identity(binding),
        binding >= 0 ==> framebuffer == binding,
        binding < 0 ==> framebuffer == binding + 0x1_0000_0000,
{
    if binding >= 0 {
        binding as u32
    } else {
        let wide: i64 = binding as i64;
        (wide + 0x1_0000_0000) as u32
    }
}

/// Builds the swapchain descriptor for what the surface reports now.
pub fn swapchain_from_surface(surface: SurfaceQuery) -> (swapchain: Swapchain)
    ensures
        swapchain == swapchain_for(surface),
        swapchain.width == surface.width,
        swapchain.height == surface.height,
{
    Swapchain {
        width: surface.width,
        height: surface.height,
        framebuffer: framebuffer_from_binding(surface.framebuffer_binding),
    }
}

impl ReadyState {
    /// A ready state with the given handles and a blank swapchain.
    pub fn new(vertex_buffer: BufferHandle, pipeline: PipelineHandle) -> (state: ReadyState)
        ensures
            state == (ReadyState {
                resources: Resources { vertex_buffer, pipeline },
                swapchain: blank_swapchain(),
            }),
    {
        ReadyState {
            resources: Resources { vertex_buffer, pipeline },
            swapchain: Swapchain { width: 0, height: 0, framebuffer: 0 },
        }
    }
}

impl GpuState {
    /// The empty state, as it is when the surface subsystem starts.
    pub fn new() -> (state: GpuState)
        ensures
            state == GpuState::Empty,
    {
        GpuState::Empty
    }

    /// Whether the resource initializer has run.
    pub fn is_ready(&self) -> (ready: bool)
        ensures
            ready == (*self is Ready),
    {
        match self {
            GpuState::Empty => false,
            GpuState::Ready(_) => true,
        }
    }

    /// The resource initializer's bookkeeping: stores the handles of the
    /// vertex buffer and of the pipeline that the backend created, and
    /// returns the ready state that it leaves. On a state that was ready
    /// already the new handles replace the old ones and the swapchain stays.
    pub fn initialize(
        &mut self,
        vertex_buffer: BufferHandle,
        pipeline: PipelineHandle,
    ) -> (ready: ReadyState)
        ensures
            ready == initialized(*old(self), Resources { vertex_buffer, pipeline }),
            ready.resources == (Resources { vertex_buffer, pipeline }),
            *final(self) == GpuState::Ready(ready),
    {
        let swapchain = match *self {
            GpuState::Empty => Swapchain { width: 0, height: 0, framebuffer: 0 },
            GpuState::Ready(before) => before.swapchain,
        };
        let ready = ReadyState { resources: Resources { vertex_buffer, pipeline }, swapchain };
        *self = GpuState::Ready(ready);
        ready
    }
}

} // verus!
