use triangle_surface::gpu::{
    framebuffer_from_binding, swapchain_from_surface, BufferHandle, GpuState, PipelineHandle,
    ReadyState, Resources, SurfaceQuery, Swapchain,
};

#[test]
fn framebuffer_of_a_binding_that_is_not_negative() {
    assert_eq!(framebuffer_from_binding(0), 0);
    assert_eq!(framebuffer_from_binding(1), 1);
    assert_eq!(framebuffer_from_binding(7), 7);
    assert_eq!(framebuffer_from_binding(i32::MAX), 0x7FFF_FFFF);
}

#[test]
fn framebuffer_of_a_negative_binding_has_the_same_bits() {
    assert_eq!(framebuffer_from_binding(-1), u32::MAX);
    assert_eq!(framebuffer_from_binding(-2), 0xFFFF_FFFE);
    assert_eq!(framebuffer_from_binding(i32::MIN), 0x8000_0000);
}

#[test]
fn framebuffer_agrees_with_the_cast() {
    for binding in [-1000i32, -1, 0, 1, 42, 65536, i32::MAX, i32::MIN] {
        assert_eq!(framebuffer_from_binding(binding), binding as u32);
    }
}

#[test]
fn swapchain_takes_size_and_framebuffer_from_the_surface() {
    let surface = SurfaceQuery { width: 800, height: 600, framebuffer_binding: 3 };
    assert_eq!(
        swapchain_from_surface(surface),
        Swapchain { width: 800, height: 600, framebuffer: 3 }
    );
}

#[test]
fn swapchain_of_a_surface_without_size() {
    let surface = SurfaceQuery { width: 0, height: 0, framebuffer_binding: 0 };
    assert_eq!(swapchain_from_surface(surface), Swapchain { width: 0, height: 0, framebuffer: 0 });
}

#[test]
fn gpu_state_starts_empty() {
    let state = GpuState::new();
    assert_eq!(state, GpuState::Empty);
    assert!(!state.is_ready());
}

#[test]
fn ready_state_starts_with_a_blank_swapchain() {
    let state = ReadyState::new(BufferHandle { id: 5 }, PipelineHandle { id: 6 });
    assert_eq!(
        state.resources,
        Resources { vertex_buffer: BufferHandle { id: 5 }, pipeline: PipelineHandle { id: 6 } }
    );
    assert_eq!(state.swapchain, Swapchain { width: 0, height: 0, framebuffer: 0 });
}

#[test]
fn initialize_makes_an_empty_state_ready() {
    let mut state = GpuState::new();
    let ready = state.initialize(BufferHandle { id: 11 }, PipelineHandle { id: 12 });
    assert!(state.is_ready());
    assert_eq!(state, GpuState::Ready(ready));
    assert_eq!(
        state,
        GpuState::Ready(ReadyState {
            resources: Resources {
                vertex_buffer: BufferHandle { id: 11 },
                pipeline: PipelineHandle { id: 12 },
            },
            swapchain: Swapchain { width: 0, height: 0, framebuffer: 0 },
        })
    );
}

#[test]
fn initialize_again_replaces_the_handles_and_keeps_the_swapchain() {
    let mut state = GpuState::Ready(ReadyState {
        resources: Resources {
            vertex_buffer: BufferHandle { id: 1 },
            pipeline: PipelineHandle { id: 2 },
        },
        swapchain: Swapchain { width: 640, height: 480, framebuffer: 9 },
    });
    state.initialize(BufferHandle { id: 3 }, PipelineHandle { id: 4 });
    assert_eq!(
        state,
        GpuState::Ready(ReadyState {
            resources: Resources {
                vertex_buffer: BufferHandle { id: 3 },
                pipeline: PipelineHandle { id: 4 },
            },
            swapchain: Swapchain { width: 640, height: 480, framebuffer: 9 },
        })
    );
}
