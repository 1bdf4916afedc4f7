use triangle_surface::frame::{
    command_kind, pass_action, render_frame, Color, Command, CommandKind, LoadAction, PassAction,
    ONE_FIFTH,
};
use triangle_surface::gpu::{
    BufferHandle, PipelineHandle, ReadyState, Resources, SurfaceQuery, Swapchain,
};

fn ready(buffer: u32, pipeline: u32) -> ReadyState {
    ReadyState::new(BufferHandle { id: buffer }, PipelineHandle { id: pipeline })
}

fn count(commands: &[Command], kind: CommandKind) -> usize {
    commands.iter().filter(|c| command_kind(c) == kind).count()
}

#[test]
fn clear_color_is_dark_blue() {
    let action = pass_action();
    assert_eq!(action.load_action, LoadAction::Clear);
    assert_eq!(f32::from_bits(action.clear_value.r), 0.0);
    assert_eq!(f32::from_bits(action.clear_value.g), 0.0);
    assert_eq!(f32::from_bits(action.clear_value.b), 0.2);
    assert_eq!(f32::from_bits(action.clear_value.a), 1.0);
    assert_eq!(ONE_FIFTH, 0.2f32.to_bits());
}

#[test]
fn frame_lists_six_commands_in_order() {
    let mut state = ready(21, 34);
    let surface = SurfaceQuery { width: 800, height: 600, framebuffer_binding: 2 };
    let commands = render_frame(&mut state, surface);
    let swapchain = Swapchain { width: 800, height: 600, framebuffer: 2 };
    assert_eq!(
        commands,
        vec![
            Command::BeginPass {
                action: PassAction {
                    load_action: LoadAction::Clear,
                    clear_value: Color { r: 0, g: 0, b: 0x3E4C_CCCD, a: 0x3F80_0000 },
                },
                swapchain,
            },
            Command::ApplyPipeline { pipeline: PipelineHandle { id: 34 } },
            Command::ApplyBindings { vertex_buffer: BufferHandle { id: 21 } },
            Command::Draw { base_element: 0, num_elements: 3, num_instances: 1 },
            Command::EndPass,
            Command::Commit,
        ]
    );
}

#[test]
fn frame_issues_each_command_once() {
    let mut state = ready(1, 2);
    let surface = SurfaceQuery { width: 320, height: 200, framebuffer_binding: 0 };
    for _ in 0..3 {
        let commands = render_frame(&mut state, surface);
        assert_eq!(commands.len(), 6);
        assert_eq!(count(&commands, CommandKind::BeginPass), 1);
        assert_eq!(count(&commands, CommandKind::ApplyPipeline), 1);
        assert_eq!(count(&commands, CommandKind::ApplyBindings), 1);
        assert_eq!(count(&commands, CommandKind::Draw), 1);
        assert_eq!(count(&commands, CommandKind::EndPass), 1);
        assert_eq!(count(&commands, CommandKind::Commit), 1);
        assert_eq!(
            commands[3],
            Command::Draw { base_element: 0, num_elements: 3, num_instances: 1 }
        );
    }
}

#[test]
fn frame_refreshes_the_swapchain() {
    let mut state = ready(1, 2);
    let surface = SurfaceQuery { width: 1024, height: 768, framebuffer_binding: 5 };
    render_frame(&mut state, surface);
    assert_eq!(state.swapchain, Swapchain { width: 1024, height: 768, framebuffer: 5 });
}

#[test]
fn frame_follows_a_resize() {
    let mut state = ready(1, 2);
    render_frame(&mut state, SurfaceQuery { width: 800, height: 600, framebuffer_binding: 1 });
    assert_eq!(state.swapchain, Swapchain { width: 800, height: 600, framebuffer: 1 });
    let commands =
        render_frame(&mut state, SurfaceQuery { width: 400, height: 300, framebuffer_binding: 4 });
    assert_eq!(state.swapchain, Swapchain { width: 400, height: 300, framebuffer: 4 });
    assert_eq!(
        commands[0],
        Command::BeginPass {
            action: pass_action(),
            swapchain: Swapchain { width: 400, height: 300, framebuffer: 4 },
        }
    );
}

#[test]
fn frames_never_touch_the_resources() {
    let mut state = ready(77, 88);
    let before = state.resources;
    for n in 1..=50 {
        let surface = SurfaceQuery { width: 10 * n, height: 7 * n, framebuffer_binding: n % 3 };
        let commands = render_frame(&mut state, surface);
        assert_eq!(state.resources, before);
        assert_eq!(commands[1], Command::ApplyPipeline { pipeline: PipelineHandle { id: 88 } });
        assert_eq!(
            commands[2],
            Command::ApplyBindings { vertex_buffer: BufferHandle { id: 77 } }
        );
    }
    assert_eq!(
        state.resources,
        Resources { vertex_buffer: BufferHandle { id: 77 }, pipeline: PipelineHandle { id: 88 } }
    );
}

#[test]
fn every_frame_clears_whatever_the_size() {
    let mut state = ready(1, 2);
    for (width, height) in [(1, 1), (800, 600), (400, 300), (3840, 2160), (0, 0)] {
        let commands =
            render_frame(&mut state, SurfaceQuery { width, height, framebuffer_binding: 0 });
        match commands[0] {
            Command::BeginPass { action, swapchain } => {
                assert_eq!(action.load_action, LoadAction::Clear);
                assert_eq!(
                    action.clear_value,
                    Color {
                        r: 0.0f32.to_bits(),
                        g: 0.0f32.to_bits(),
                        b: 0.2f32.to_bits(),
                        a: 1.0f32.to_bits(),
                    }
                );
                assert_eq!(swapchain, Swapchain { width, height, framebuffer: 0 });
            }
            _ => panic!("a frame begins with a pass"),
        }
    }
}

#[test]
fn frame_reads_a_negative_binding_as_unsigned() {
    let mut state = ready(1, 2);
    render_frame(&mut state, SurfaceQuery { width: 2, height: 2, framebuffer_binding: -1 });
    assert_eq!(state.swapchain.framebuffer, u32::MAX);
}

#[test]
fn command_kinds() {
    let swapchain = Swapchain { width: 1, height: 1, framebuffer: 0 };
    assert_eq!(
        command_kind(&Command::BeginPass { action: pass_action(), swapchain }),
        CommandKind::BeginPass
    );
    assert_eq!(
        command_kind(&Command::ApplyPipeline { pipeline: PipelineHandle { id: 1 } }),
        CommandKind::ApplyPipeline
    );
    assert_eq!(
        command_kind(&Command::ApplyBindings { vertex_buffer: BufferHandle { id: 1 } }),
        CommandKind::ApplyBindings
    );
    assert_eq!(
        command_kind(&Command::Draw { base_element: 0, num_elements: 3, num_instances: 1 }),
        CommandKind::Draw
    );
    assert_eq!(command_kind(&Command::EndPass), CommandKind::EndPass);
    assert_eq!(command_kind(&Command::Commit), CommandKind::Commit);
}
