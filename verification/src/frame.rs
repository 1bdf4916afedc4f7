//! The frame renderer: refreshes the swapchain from the live surface and
//! lists the GPU commands of one frame, in the order in which they are issued.

use vstd::prelude::*;

use crate::geometry::{HALF, ONE, ZERO};
use crate::gpu::{
    framebuffer_identity, swapchain_for, swapchain_from_surface, BufferHandle, PipelineHandle,
    ReadyState, Resources, SurfaceQuery, Swapchain,
};

verus! {

/// Bit pattern of the single-precision number nearest to 0.2.
pub const ONE_FIFTH: u32 = 0x3E4C_CCCD;

/// What a pass does with a colour attachment's previous contents.
#[derive(Clone, Copy, Debug, PartialEq, Eq, Structural)]
pub enum LoadAction {
    /// Overwrite them with the clear value.
    Clear,
    /// Keep them.
    Load,
    /// Leave them undefined.
    DontCare,
}

/// A colour; each channel is a single-precision number held as its bit
/// pattern.
#[derive(Clone, Copy, Debug, PartialEq, Eq, Structural)]
pub struct Color {
    pub r: u32,
    pub g: u32,
    pub b: u32,
    pub a: u32,
}

/// The action of a pass on colour attachment 0.
#[derive(Clone, Copy, Debug, PartialEq, Eq, Structural)]
pub struct PassAction {
    pub load_action: LoadAction,
    pub clear_value: Color,
}

/// One GPU command of a frame.
#[derive(Clone, Copy, Debug, PartialEq, Eq, Structural)]
pub enum Command {
    /// Begin a pass that targets the swapchain.
    BeginPass { action: PassAction, swapchain: Swapchain },
    /// Bind the pipeline.
    ApplyPipeline { pipeline: PipelineHandle },
    /// Bind the vertex buffer to buffer slot 0.
    ApplyBindings { vertex_buffer: BufferHandle },
    /// Draw `num_elements` vertices from `base_element` on, `num_instances`
    /// times.
    Draw { base_element: u32, num_elements: u32, num_instances: u32 },
    /// End the pass.
    EndPass,
    /// Submit the frame to the backend.
    Commit,
}

/// The kind of a command, without its arguments.
#[derive(Clone, Copy, Debug, PartialEq, Eq, Structural)]
pub enum CommandKind {
    BeginPass,
    ApplyPipeline,
    ApplyBindings,
    Draw,
    EndPass,
    Commit,
}

/// The clear colour: dark blue, (0.0, 0.0, 0.2, 1.0).
pub open spec fn clear_color() -> Color {
    Color { r: ZERO, g: ZERO, b: ONE_FIFTH, a: ONE }
}

/// The pass action of every frame: clear to the clear colour.
pub open spec fn clear_pass_action() -> PassAction {
    PassAction { load_action: LoadAction::Clear, clear_value: clear_color() }
}

/// The draw call of the triangle: three vertices from the first on, once.
pub open spec fn triangle_draw() -> Command {
    Command::Draw { base_element: 0, num_elements: 3, num_instances: 1 }
}

/// The commands of one frame that draws with `resources` into `swapchain`.
pub open spec fn frame_commands(resources: Resources, swapchain: Swapchain) -> Seq<Command> {
    seq![
        Command::BeginPass { action: clear_pass_action(), swapchain },
        Command::ApplyPipeline { pipeline: resources.pipeline },
        Command::ApplyBindings { vertex_buffer: resources.vertex_buffer },
        triangle_draw(),
        Command::EndPass,
        Command::Commit,
    ]
}

/// The state after a frame was rendered while the surface reported
/// `surface`: the same resources, the swapchain made anew from the report.
pub open spec fn after_frame(state: ReadyState, surface: SurfaceQuery) -> ReadyState {
    ReadyState { resources: state.resources, swapchain: swapchain_for(surface) }
}

/// The state after one frame for each report in `surfaces`, in order.
pub open spec fn after_frames(state: ReadyState, surfaces: Seq<SurfaceQuery>) -> ReadyState
    decreases surfaces.len(),
{
    if surfaces.len() == 0 {
        state
    } else {
        after_frame(after_frames(state, surfaces.drop_last()), surfaces.last())
    }
}

/// The kind of a command.
pub open spec fn kind_of(command: Command) -> CommandKind {
    match command {
        Command::BeginPass { .. } => CommandKind::BeginPass,
        Command::ApplyPipeline { .. } => CommandKind::ApplyPipeline,
        Command::ApplyBindings { .. } => CommandKind::ApplyBindings,
        Command::Draw { .. } => CommandKind::Draw,
        Command::EndPass => CommandKind::EndPass,
        Command::Commit => CommandKind::Commit,
    }
}

/// How many commands of the given kind the list holds.
pub open spec fn count_kind(commands: Seq<Command>, kind: CommandKind) -> nat
    decreases commands.len(),
{
    if commands.len() == 0 {
        0
    } else {
        let rest = count_kind(commands.drop_last(), kind);
        if kind_of(commands.last()) == kind {
            rest + 1
        } else {
            rest
        }
    }
}

/// The pass action of every frame.
pub fn pass_action() -> (action: PassAction)
    ensures
        action == clear_pass_action(),
        action.load_action == LoadAction::Clear,
        action.clear_value == (Color { r: ZERO, g: ZERO, b: ONE_FIFTH, a: ONE }),
{
    PassAction {
        load_action: LoadAction::Clear,
        clear_value: Color { r: ZERO, g: ZERO, b: ONE_FIFTH, a: ONE },
    }
}

/// The kind of a command.
pub fn command_kind(command: &Command) -> (kind: CommandKind)
    ensures
        kind == kind_of(*command),
{
    match command {
        Command::BeginPass { .. } => CommandKind::BeginPass,
        Command::ApplyPipeline { .. } => CommandKind::ApplyPipeline,
        Command::ApplyBindings { .. } => CommandKind::ApplyBindings,
        Command::Draw { .. } => CommandKind::Draw,
        Command::EndPass => CommandKind::EndPass,
        Command::Commit => CommandKind::Commit,
    }
}

/// Renders one frame. The swapchain is overwritten with what the surface
/// reports now, before anything reads it; the resources stay as they are.
/// Returns the frame's commands in issue order: begin a clearing pass on the
/// new swapchain, bind the pipeline, bind the vertex buffer, draw the
/// triangle, end the pass, commit.
pub fn render_frame(state: &mut ReadyState, surface: SurfaceQuery) -> (commands: Vec<Command>)
    ensures
        *final(state) == after_frame(*old(state), surface),
        final(state).resources == old(state).resources,
        final(state).swapchain.width == surface.width,
        final(state).swapchain.height == surface.height,
        final(state).swapchain == swapchain_for(surface),
        commands@ == frame_commands(old(state).resources, swapchain_for(surface)),
{
    state.swapchain = swapchain_from_surface(surface);
    let mut commands: Vec<Command> = Vec::new();
    commands.push(Command::BeginPass { action: pass_action(), swapchain: state.swapchain });
    commands.push(Command::ApplyPipeline { pipeline: state.resources.pipeline });
    commands.push(Command::ApplyBindings { vertex_buffer: state.resources.vertex_buffer });
    commands.push(Command::Draw { base_element: 0, num_elements: 3, num_instances: 1 });
    commands.push(Command::EndPass);
    commands.push(Command::Commit);
    assert(commands@ =~= frame_commands(old(state).resources, swapchain_for(surface)));
    commands
}

/// After a frame the swapchain holds the size and the framebuffer that the
/// surface reported for that frame, whatever it held before; so of two frames
/// in a row with different reports, the second report is what remains.
pub proof fn lemma_swapchain_follows_surface(
    state: ReadyState,
    first: SurfaceQuery,
    second: SurfaceQuery,
)
    ensures
        after_frame(state, first).swapchain.width == first.width,
        after_frame(state, first).swapchain.height == first.height,
        after_frame(state, first).swapchain.framebuffer == framebuffer_identity(
            first.framebuffer_binding,
        ),
        first.framebuffer_binding >= 0 ==> after_frame(state, first).swapchain.framebuffer
            == first.framebuffer_binding,
        after_frame(after_frame(state, first), second).swapchain == swapchain_for(second),
        after_frame(after_frame(state, first), second) == after_frame(state, second),
{
}

/// However many frames are rendered, and whatever the surface reports for
/// them, the vertex buffer and the pipeline stay the ones that were created;
/// the swapchain is that of the last report.
pub proof fn lemma_frames_keep_resources(state: ReadyState, surfaces: Seq<SurfaceQuery>)
    ensures
        after_frames(state, surfaces).resources == state.resources,
        surfaces.len() > 0 ==> after_frames(state, surfaces).swapchain == swapchain_for(
            surfaces.last(),
        ),
        surfaces.len() == 0 ==> after_frames(state, surfaces) == state,
    decreases surfaces.len(),
{
    if surfaces.len() > 0 {
        lemma_frames_keep_resources(state, surfaces.drop_last());
    }
}

/// Every frame begins with a pass that clears to (0.0, 0.0, 0.2, 1.0), for
/// any resources and any swapchain, and no command of a frame begins a pass
/// with another action.
pub proof fn lemma_frame_clears(resources: Resources, swapchain: Swapchain)
    ensures
        frame_commands(resources, swapchain)[0] == (Command::BeginPass {
            action: clear_pass_action(),
            swapchain,
        }),
        clear_pass_action().load_action == LoadAction::Clear,
        clear_pass_action().clear_value == (Color {
            r: 0x0000_0000u32,
            g: 0x0000_0000u32,
            b: 0x3E4C_CCCDu32,
            a: 0x3F80_0000u32,
        }),
        forall|i: int|
            0 <= i < frame_commands(resources, swapchain).len() ==> (
            #[trigger] frame_commands(resources, swapchain)[i] matches Command::BeginPass {
                action,
                ..
            } ==> action == clear_pass_action()),
{
}

/// A frame is six commands: exactly one begins a pass, one binds the
/// pipeline, one binds the buffer, one draws, one ends the pass and one
/// commits; the draw is that of three vertices from the first on, once.
pub proof fn lemma_frame_command_counts(resources: Resources, swapchain: Swapchain)
    ensures
        frame_commands(resources, swapchain).len() == 6,
        count_kind(frame_commands(resources, swapchain), CommandKind::BeginPass) == 1,
        count_kind(frame_commands(resources, swapchain), CommandKind::ApplyPipeline) == 1,
        count_kind(frame_commands(resources, swapchain), CommandKind::ApplyBindings) == 1,
        count_kind(frame_commands(resources, swapchain), CommandKind::Draw) == 1,
        count_kind(frame_commands(resources, swapchain), CommandKind::EndPass) == 1,
        count_kind(frame_commands(resources, swapchain), CommandKind::Commit) == 1,
        frame_commands(resources, swapchain)[3] == triangle_draw(),
{
    let c6 = frame_commands(resources, swapchain);
    let c5 = c6.drop_last();
    let c4 = c5.drop_last();
    let c3 = c4.drop_last();
    let c2 = c3.drop_last();
    let c1 = c2.drop_last();
    assert(c1.drop_last().len() == 0);
    reveal_with_fuel(count_kind, 7);
}

} // verus!
