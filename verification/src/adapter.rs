//! The host surface adapter: the lifecycle of one rendering surface, from
//! unrealized to torn down, and the two hooks that the host toolkit drives.
//!
//! The embedding program does the outside work (making the context current,
//! setting the backend up, creating resources, issuing commands) and tells
//! the adapter what came of it; the adapter decides what state follows and
//! what is to be done next.

use vstd::prelude::*;

use crate::frame::{after_frame, frame_commands, render_frame, Command};
use crate::gpu::{
    blank_swapchain, initialized, swapchain_for, BufferHandle, GpuState, PipelineHandle,
    ReadyState, Resources, SurfaceQuery,
};

verus! {

/// Where a surface stands in its life.
#[derive(Clone, Copy, Debug, PartialEq, Eq, Structural)]
pub enum Phase {
    /// The surface has no usable context yet.
    Unrealized,
    /// The backend is set up and the resources exist; no frame was drawn yet.
    BackendReady,
    /// At least one frame was drawn.
    Rendering,
    /// The surface is gone. Nothing leaves this phase.
    TornDown,
}

/// What a handler tells the host about an event.
#[derive(Clone, Copy, Debug, PartialEq, Eq, Structural)]
pub enum Propagation {
    /// The event was dealt with; no other handler is to run.
    Stop,
    /// Other handlers may go on with the event.
    Continue,
}

/// A pixel format of the backend's default framebuffer.
#[derive(Clone, Copy, Debug, PartialEq, Eq, Structural)]
pub enum PixelFormat {
    /// No attachment of this kind.
    Absent,
    /// Four 8-bit channels: red, green, blue, alpha.
    Rgba8,
}

/// What the backend is set up with when the surface is realized.
#[derive(Clone, Copy, Debug, PartialEq, Eq, Structural)]
pub struct BackendSetup {
    pub color_format: PixelFormat,
    pub depth_format: PixelFormat,
    /// Whether the backend's log messages go to the logging callback.
    pub logging: bool,
}

/// One step of releasing what the backend owns.
#[derive(Clone, Copy, Debug, PartialEq, Eq, Structural)]
pub enum TeardownStep {
    DestroyPipeline { pipeline: PipelineHandle },
    DestroyBuffer { vertex_buffer: BufferHandle },
    ShutdownBackend,
}

/// One step of realizing a surface. The steps that create resources need a
/// current context and a valid backend, so they come after those.
#[derive(Clone, Copy, Debug, PartialEq, Eq, Structural)]
pub enum RealizeStep {
    /// Make the surface's rendering context current on the calling thread.
    MakeContextCurrent,
    /// Set the graphics backend up.
    SetupBackend { setup: BackendSetup },
    /// Ask the backend whether it is valid; if it is not, abort.
    RequireValidBackend,
    /// Create the immutable vertex buffer from the triangle's vertex data.
    CreateVertexBuffer,
    /// Create the shader for the active backend and the pipeline with the
    /// triangle's vertex layout.
    CreatePipeline,
}

/// What the host can tell the adapter.
#[derive(Clone, Copy, Debug, PartialEq, Eq, Structural)]
pub enum Event {
    /// The surface was realized; the backend is valid and these resources
    /// were created.
    Realized { resources: Resources },
    /// A redraw was requested.
    RenderRequested { surface_realized: bool, surface: SurfaceQuery },
    /// The surface was destroyed.
    Destroyed,
}

/// What the render hook decided.
#[derive(Debug)]
pub struct RenderOutcome {
    /// The signal for the host.
    pub propagation: Propagation,
    /// The GPU commands to issue, in order; empty where nothing is drawn.
    pub commands: Vec<Command>,
}

/// The adapter of one surface. It owns the GPU state: an adapter that is not
/// realized, or is torn down, holds no resources at all, so no frame can be
/// drawn from handles that were never created.
#[derive(Clone, Copy, Debug, PartialEq, Eq, Structural)]
pub enum SurfaceAdapter {
    Unrealized,
    BackendReady(ReadyState),
    Rendering(ReadyState),
    TornDown,
}

/// The setup that the surface expects: an RGBA8 colour buffer, no depth or
/// stencil buffer, logging on.
pub open spec fn expected_backend_setup() -> BackendSetup {
    BackendSetup {
        color_format: PixelFormat::Rgba8,
        depth_format: PixelFormat::Absent,
        logging: true,
    }
}

/// The steps that release a surface's resources: in reverse order of their
/// creation, the backend last.
pub open spec fn teardown_steps(resources: Resources) -> Seq<TeardownStep> {
    seq![
        TeardownStep::DestroyPipeline { pipeline: resources.pipeline },
        TeardownStep::DestroyBuffer { vertex_buffer: resources.vertex_buffer },
        TeardownStep::ShutdownBackend,
    ]
}

/// The steps of realizing a surface, in the order in which they are done.
pub open spec fn realize_plan() -> Seq<RealizeStep> {
    seq![
        RealizeStep::MakeContextCurrent,
        RealizeStep::SetupBackend { setup: expected_backend_setup() },
        RealizeStep::RequireValidBackend,
        RealizeStep::CreateVertexBuffer,
        RealizeStep::CreatePipeline,
    ]
}

/// What the backend is set up with on realization.
pub fn backend_setup() -> (setup: BackendSetup)
    ensures
        setup == expected_backend_setup(),
{
    BackendSetup {
        color_format: PixelFormat::Rgba8,
        depth_format: PixelFormat::Absent,
        logging: true,
    }
}

/// The work of the realize hook, in order: make the context current, set
/// the backend up, abort unless it is valid, then create the vertex buffer
/// and after it the pipeline. The handles that the last two steps give go to
/// `SurfaceAdapter::on_realize`.
pub fn realize_steps() -> (steps: Vec<RealizeStep>)
    ensures
        steps@ == realize_plan(),
{
    let mut steps: Vec<RealizeStep> = Vec::new();
    steps.push(RealizeStep::MakeContextCurrent);
    steps.push(RealizeStep::SetupBackend { setup: backend_setup() });
    steps.push(RealizeStep::RequireValidBackend);
    steps.push(RealizeStep::CreateVertexBuffer);
    steps.push(RealizeStep::CreatePipeline);
    assert(steps@ =~= realize_plan());
    steps
}

impl SurfaceAdapter {
    /// The phase of an adapter.
    pub open spec fn phase_of(self) -> Phase {
        match self {
            SurfaceAdapter::Unrealized => Phase::Unrealized,
            SurfaceAdapter::BackendReady(_) => Phase::BackendReady,
            SurfaceAdapter::Rendering(_) => Phase::Rendering,
            SurfaceAdapter::TornDown => Phase::TornDown,
        }
    }

    /// The GPU state that an adapter holds.
    pub open spec fn gpu_of(self) -> GpuState {
        match self {
            SurfaceAdapter::Unrealized => GpuState::Empty,
            SurfaceAdapter::BackendReady(ready) => GpuState::Ready(ready),
            SurfaceAdapter::Rendering(ready) => GpuState::Ready(ready),
            SurfaceAdapter::TornDown => GpuState::Empty,
        }
    }

    /// Whether a frame can be drawn: the resources exist.
    pub open spec fn can_draw(self) -> bool {
        self is BackendReady || self is Rendering
    }

    /// The adapter after its surface was realized with a valid backend and
    /// the given resources: ready if it was unrealized, unchanged otherwise.
    pub open spec fn after_realize(self, resources: Resources) -> SurfaceAdapter {
        if self is Unrealized {
            SurfaceAdapter::BackendReady(initialized(GpuState::Empty, resources))
        } else {
            self
        }
    }

    /// The adapter after a render request: rendering, with the frame's
    /// swapchain, if the host reports the surface realized and the resources
    /// exist; unchanged otherwise.
    pub open spec fn after_render(
        self,
        surface_realized: bool,
        surface: SurfaceQuery,
    ) -> SurfaceAdapter {
        match self {
            SurfaceAdapter::BackendReady(ready) | SurfaceAdapter::Rendering(ready) => {
                if surface_realized {
                    SurfaceAdapter::Rendering(after_frame(ready, surface))
                } else {
                    self
                }
            },
            _ => self,
        }
    }

    /// The commands that a render request leads to: those of one frame, or
    /// none where the request is skipped.
    pub open spec fn render_commands(
        self,
        surface_realized: bool,
        surface: SurfaceQuery,
    ) -> Seq<Command> {
        match self {
            SurfaceAdapter::BackendReady(ready) | SurfaceAdapter::Rendering(ready) => {
                if surface_realized {
                    frame_commands(ready.resources, swapchain_for(surface))
                } else {
                    Seq::empty()
                }
            },
            _ => Seq::empty(),
        }
    }

    /// The adapter after one event.
    pub open spec fn after_event(self, event: Event) -> SurfaceAdapter {
        match event {
            Event::Realized { resources } => self.after_realize(resources),
            Event::RenderRequested { surface_realized, surface } => self.after_render(
                surface_realized,
                surface,
            ),
            Event::Destroyed => SurfaceAdapter::TornDown,
        }
    }

    /// The adapter after a run of events, in order.
    pub open spec fn after_events(self, events: Seq<Event>) -> SurfaceAdapter
        decreases events.len(),
    {
        if events.len() == 0 {
            self
        } else {
            self.after_events(events.drop_last()).after_event(events.last())
        }
    }

    /// The resources that an adapter holds, if any.
    pub open spec fn resources_of(self) -> Option<Resources> {
        match self.gpu_of() {
            GpuState::Ready(ready) => Some(ready.resources),
            GpuState::Empty => None,
        }
    }

    /// An adapter for a surface that is not realized yet.
    pub fn new() -> (adapter: SurfaceAdapter)
        ensures
            adapter == SurfaceAdapter::Unrealized,
            adapter.phase_of() == Phase::Unrealized,
            adapter.gpu_of() == GpuState::Empty,
    {
        SurfaceAdapter::Unrealized
    }

    /// The phase the surface is in.
    pub fn phase(&self) -> (phase: Phase)
        ensures
            phase == self.phase_of(),
    {
        match self {
            SurfaceAdapter::Unrealized => Phase::Unrealized,
            SurfaceAdapter::BackendReady(_) => Phase::BackendReady,
            SurfaceAdapter::Rendering(_) => Phase::Rendering,
            SurfaceAdapter::TornDown => Phase::TornDown,
        }
    }

    /// The GPU state: empty before realization and after teardown, ready in
    /// between.
    pub fn gpu_state(&self) -> (gpu: GpuState)
        ensures
            gpu == self.gpu_of(),
    {
        match self {
            SurfaceAdapter::Unrealized => GpuState::Empty,
            SurfaceAdapter::BackendReady(ready) => GpuState::Ready(*ready),
            SurfaceAdapter::Rendering(ready) => GpuState::Ready(*ready),
            SurfaceAdapter::TornDown => GpuState::Empty,
        }
    }

    /// The realize hook's decision. The caller has made the context current,
    /// set the backend up as `backend_setup` says, found it valid, and created
    /// the vertex buffer and the pipeline; a backend that is not valid is
    /// fatal, and the caller does not get here with one.
    ///
    /// An unrealized adapter takes the handles and is ready, with a blank
    /// swapchain; the result is `true`. In any other phase nothing changes
    /// and the result is `false`: a surface is realized once, and nothing
    /// leaves teardown.
    pub fn on_realize(
        &mut self,
        backend_valid: bool,
        vertex_buffer: BufferHandle,
        pipeline: PipelineHandle,
    ) -> (accepted: bool)
        requires
            backend_valid,
        ensures
            *final(self) == old(self).after_realize(Resources { vertex_buffer, pipeline }),
            accepted == (*old(self) is Unrealized),
            accepted ==> {
                &&& final(self).phase_of() == Phase::BackendReady
                &&& final(self).gpu_of() == GpuState::Ready(
                    ReadyState {
                        resources: Resources { vertex_buffer, pipeline },
                        swapchain: blank_swapchain(),
                    },
                )
            },
            !accepted ==> *final(self) == *old(self),
    {
        match *self {
            SurfaceAdapter::Unrealized => {
                let mut gpu = GpuState::new();
                let ready = gpu.initialize(vertex_buffer, pipeline);
                *self = SurfaceAdapter::BackendReady(ready);
                true
            },
            _ => false,
        }
    }

    /// The render hook's decision. `surface_realized` is what the host says
    /// of the surface now; `surface` is its size and framebuffer binding,
    /// queried now.
    ///
    /// Where the host reports the surface unrealized, or the adapter holds no
    /// resources (it was never realized, or is torn down), the request is
    /// skipped: the signal is `Stop`, there are no commands and nothing
    /// changes. Otherwise one frame is rendered: the swapchain is made anew
    /// from `surface`, the commands are those of the frame, the adapter is
    /// in the rendering phase and the signal is `Continue`.
    pub fn on_render_requested(
        &mut self,
        surface_realized: bool,
        surface: SurfaceQuery,
    ) -> (outcome: RenderOutcome)
        ensures
            *final(self) == old(self).after_render(surface_realized, surface),
            outcome.commands@ == old(self).render_commands(surface_realized, surface),
            outcome.propagation == if surface_realized && old(self).can_draw() {
                Propagation::Continue
            } else {
                Propagation::Stop
            },
            !(surface_realized && old(self).can_draw()) ==> {
                &&& *final(self) == *old(self)
                &&& outcome.commands@.len() == 0
            },
            surface_realized && old(self).can_draw() ==> {
                &&& final(self).phase_of() == Phase::Rendering
                &&& final(self).gpu_of() is Ready
                &&& old(self).gpu_of() is Ready
                &&& final(self).gpu_of()->Ready_0.resources == old(self).gpu_of()->Ready_0.resources
                &&& final(self).gpu_of()->Ready_0.swapchain == swapchain_for(surface)
                &&& outcome.commands@ == frame_commands(
                    old(self).gpu_of()->Ready_0.resources,
                    swapchain_for(surface),
                )
            },
    {
        if !surface_realized {
            return RenderOutcome { propagation: Propagation::Stop, commands: Vec::new() };
        }
        match *self {
            SurfaceAdapter::BackendReady(ready) | SurfaceAdapter::Rendering(ready) => {
                let mut state = ready;
                let commands = render_frame(&mut state, surface);
                *self = SurfaceAdapter::Rendering(state);
                RenderOutcome { propagation: Propagation::Continue, commands }
            },
            _ => RenderOutcome { propagation: Propagation::Stop, commands: Vec::new() },
        }
    }

    /// Tears the surface down. An adapter that holds resources gives the
    /// steps that release them, the pipeline before the buffer and the
    /// backend last; one that holds none gives no steps. The adapter is torn
    /// down afterwards and holds nothing.
    pub fn shutdown(&mut self) -> (steps: Vec<TeardownStep>)
        ensures
            *final(self) == SurfaceAdapter::TornDown,
            final(self).gpu_of() == GpuState::Empty,
            steps@ == match old(self).gpu_of() {
                GpuState::Ready(ready) => teardown_steps(ready.resources),
                GpuState::Empty => Seq::<TeardownStep>::empty(),
            },
    {
        let mut steps: Vec<TeardownStep> = Vec::new();
        match *self {
            SurfaceAdapter::BackendReady(ready) | SurfaceAdapter::Rendering(ready) => {
                steps.push(TeardownStep::DestroyPipeline { pipeline: ready.resources.pipeline });
                steps.push(
                    TeardownStep::DestroyBuffer { vertex_buffer: ready.resources.vertex_buffer },
                );
                steps.push(TeardownStep::ShutdownBackend);
                assert(steps@ =~= teardown_steps(ready.resources));
            },
            _ => {},
        }
        *self = SurfaceAdapter::TornDown;
        steps
    }
}

/// A render request on an adapter that holds no resources, or for a surface
/// that the host reports unrealized, leads to no command and changes
/// nothing.
pub proof fn lemma_render_before_realize_is_skipped(
    adapter: SurfaceAdapter,
    surface_realized: bool,
    surface: SurfaceQuery,
)
    requires
        !surface_realized || !adapter.can_draw(),
    ensures
        adapter.render_commands(surface_realized, surface).len() == 0,
        adapter.after_render(surface_realized, surface) == adapter,
{
}

/// Resources are created once: whatever events follow, an adapter that holds
/// resources and still holds some afterwards holds the same ones. Only a
/// teardown makes it let go of them.
pub proof fn lemma_resources_never_replaced(adapter: SurfaceAdapter, events: Seq<Event>)
    requires
        adapter.can_draw(),
    ensures
        adapter.after_events(events).can_draw() ==> adapter.after_events(events).resources_of()
            == adapter.resources_of(),
        !adapter.after_events(events).can_draw() ==> adapter.after_events(events)
            == SurfaceAdapter::TornDown,
    decreases events.len(),
{
    if events.len() > 0 {
        lemma_resources_never_replaced(adapter, events.drop_last());
    }
}

/// No resources without a realization: where an adapter that began
/// unrealized holds resources after a run of events, one of those events was
/// the realization that gave exactly these resources.
pub proof fn lemma_resources_come_from_realize(events: Seq<Event>)
    ensures
        SurfaceAdapter::Unrealized.after_events(events).resources_of() matches Some(resources)
            ==> exists|i: int|
            0 <= i < events.len() && #[trigger] events[i] == (Event::Realized { resources }),
    decreases events.len(),
{
    let end = SurfaceAdapter::Unrealized.after_events(events);
    if events.len() > 0 && end.can_draw() {
        let resources = end.resources_of()->Some_0;
        let earlier = events.drop_last();
        let before = SurfaceAdapter::Unrealized.after_events(earlier);
        lemma_resources_come_from_realize(earlier);
        if before.can_draw() {
            let i = choose|i: int|
                0 <= i < earlier.len() && #[trigger] earlier[i] == (Event::Realized {
                    resources,
                });
            assert(events[i] == earlier[i]);
        } else {
            assert(events[events.len() - 1] == (Event::Realized { resources }));
        }
    }
}

/// Nothing leaves teardown: a torn-down adapter stays torn down whatever
/// events follow.
pub proof fn lemma_torn_down_is_terminal(events: Seq<Event>)
    ensures
        SurfaceAdapter::TornDown.after_events(events) == SurfaceAdapter::TornDown,
    decreases events.len(),
{
    if events.len() > 0 {
        lemma_torn_down_is_terminal(events.drop_last());
    }
}

/// An adapter can draw exactly in the phases in which it holds resources,
/// and from an unrealized adapter the first resources are those of the
/// realize event.
pub proof fn lemma_realize_gives_resources(resources: Resources)
    ensures
        forall|adapter: SurfaceAdapter| #[trigger]
            adapter.can_draw() <==> adapter.gpu_of() is Ready,
        SurfaceAdapter::Unrealized.after_event(Event::Realized { resources }).resources_of()
            == Some(resources),
        SurfaceAdapter::Unrealized.after_event(Event::Realized { resources }).phase_of()
            == Phase::BackendReady,
{
}

} // verus!
