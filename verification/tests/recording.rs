use minimal_d3d12::commands::{
    after_command, clear_colour, record_frame, replay, Colour, Command, Extent, CLEAR_ALPHA_BITS, CLEAR_BLUE_BITS,
    CLEAR_GREEN_BITS, CLEAR_RED_BITS,
};
use minimal_d3d12::geometry::{
    buffer_view, encode_vertices, triangle, Vertex, VertexBufferView, VERTEX_COUNT, VERTEX_STRIDE,
};
use minimal_d3d12::resource::{Barrier, ResourceState};
use minimal_d3d12::targets::{RenderTargetSet, IMAGE_COUNT, SYNC_INTERVAL};

fn sample_view() -> VertexBufferView {
    buffer_view(0x1000_0000, VERTEX_COUNT).unwrap()
}

fn barriers_of(commands: &[Command]) -> Vec<Barrier> {
    let mut out = Vec::new();
    for c in commands {
        if let Command::Transition(b) = c {
            out.push(*b);
        }
    }
    out
}

#[test]
fn barrier_inverse_swaps_states() {
    let b = Barrier::acquire(1);
    assert_eq!(
        b,
        Barrier { image: 1, before: ResourceState::Present, after: ResourceState::RenderTarget }
    );
    let back = b.inverse();
    assert_eq!(
        back,
        Barrier { image: 1, before: ResourceState::RenderTarget, after: ResourceState::Present }
    );
    assert_eq!(back, Barrier::release(1));
    assert_eq!(back.inverse(), b);
    assert_ne!(back, b);
}

#[test]
fn render_target_handles_are_strided() {
    let set = RenderTargetSet::new(4096, 32).unwrap();
    assert_eq!(set.count(), 2);
    assert_eq!(set.count(), IMAGE_COUNT);
    assert_eq!(set.handles(), vec![4096, 4128]);
    assert_eq!(set.handle(0), Some(4096));
    assert_eq!(set.handle(1), Some(4128));
    assert_eq!(set.handle(2), None);
    assert_eq!(set.handle(u32::MAX), None);
}

#[test]
fn render_target_set_refuses_handles_past_the_address_space() {
    assert_eq!(RenderTargetSet::new(usize::MAX, 1), None);
    assert_eq!(RenderTargetSet::new(usize::MAX - 63, 32), None);
    assert_eq!(
        RenderTargetSet::new(usize::MAX - 64, 32),
        Some(RenderTargetSet { heap_start: usize::MAX - 64, increment: 32 })
    );
    assert_eq!(
        RenderTargetSet::new(usize::MAX, 0),
        Some(RenderTargetSet { heap_start: usize::MAX, increment: 0 })
    );
}

#[test]
fn vsync_interval_is_one() {
    assert_eq!(SYNC_INTERVAL, 1);
}

#[test]
fn triangle_corners_in_device_coordinates() {
    let t = triangle();
    assert_eq!(t.len(), 3);
    let as_floats: Vec<(f32, f32, f32)> = t
        .iter()
        .map(|v| (f32::from_bits(v.x), f32::from_bits(v.y), f32::from_bits(v.z)))
        .collect();
    assert_eq!(as_floats, vec![(0.0, 0.5, 0.0), (0.5, -0.5, 0.0), (-0.5, -0.5, 0.0)]);
}

#[test]
fn encoded_vertices_are_little_endian_floats() {
    let bytes = encode_vertices(&triangle());
    assert_eq!(bytes.len(), 36);
    let mut expected = Vec::new();
    for f in [0.0f32, 0.5, 0.0, 0.5, -0.5, 0.0, -0.5, -0.5, 0.0] {
        expected.extend_from_slice(&f.to_le_bytes());
    }
    assert_eq!(bytes, expected);
}

#[test]
fn encode_orders_bytes_within_a_word() {
    let bytes = encode_vertices(&vec![Vertex { x: 0x0403_0201, y: 0xFFFF_FFFF, z: 0x8000_0000 }]);
    assert_eq!(bytes, vec![1, 2, 3, 4, 255, 255, 255, 255, 0, 0, 0, 128]);
    assert_eq!(encode_vertices(&Vec::new()), Vec::<u8>::new());
}

#[test]
fn buffer_view_has_stride_twelve() {
    assert_eq!(VERTEX_STRIDE, 12);
    assert_eq!(
        buffer_view(0xABCD, 3),
        Some(VertexBufferView { location: 0xABCD, size_in_bytes: 36, stride_in_bytes: 12 })
    );
    assert_eq!(
        buffer_view(7, 0),
        Some(VertexBufferView { location: 7, size_in_bytes: 0, stride_in_bytes: 12 })
    );
    assert_eq!(
        buffer_view(0, 357_913_941),
        Some(VertexBufferView { location: 0, size_in_bytes: 4_294_967_292, stride_in_bytes: 12 })
    );
    assert_eq!(buffer_view(0, 357_913_942), None);
    assert_eq!(buffer_view(0, u32::MAX), None);
}

#[test]
fn clear_colour_is_dark_blue() {
    let c = clear_colour();
    assert_eq!(
        c,
        Colour {
            red: CLEAR_RED_BITS,
            green: CLEAR_GREEN_BITS,
            blue: CLEAR_BLUE_BITS,
            alpha: CLEAR_ALPHA_BITS
        }
    );
    assert_eq!(f32::from_bits(c.red), 0.0);
    assert_eq!(f32::from_bits(c.green), 0.2);
    assert_eq!(f32::from_bits(c.blue), 0.4);
    assert_eq!(f32::from_bits(c.alpha), 1.0);
}

#[test]
fn one_frame_records_the_triangle_between_two_barriers() {
    let set = RenderTargetSet::new(1000, 8).unwrap();
    let extent = Extent { width: 1920, height: 1080 };
    let view = sample_view();
    let commands = record_frame(&set, 1, extent, view).unwrap();
    assert_eq!(
        commands,
        vec![
            Command::SetRootSignature,
            Command::SetViewport { width: 1920, height: 1080 },
            Command::SetScissor { right: 1920, bottom: 1080 },
            Command::Transition(Barrier {
                image: 1,
                before: ResourceState::Present,
                after: ResourceState::RenderTarget
            }),
            Command::SetRenderTarget { handle: 1008 },
            Command::ClearRenderTarget {
                handle: 1008,
                colour: Colour {
                    red: 0.0f32.to_bits(),
                    green: 0.2f32.to_bits(),
                    blue: 0.4f32.to_bits(),
                    alpha: 1.0f32.to_bits()
                }
            },
            Command::SetTriangleList,
            Command::SetVertexBuffer(view),
            Command::Draw { vertices: 3, instances: 1, first_vertex: 0, first_instance: 0 },
            Command::Transition(Barrier {
                image: 1,
                before: ResourceState::RenderTarget,
                after: ResourceState::Present
            }),
        ]
    );
}

#[test]
fn record_frame_refuses_an_image_without_a_view() {
    let set = RenderTargetSet::new(1000, 8).unwrap();
    let extent = Extent { width: 4, height: 4 };
    assert_eq!(record_frame(&set, 2, extent, sample_view()), None);
    assert!(record_frame(&set, 0, extent, sample_view()).is_some());
}

#[test]
fn barriers_come_in_inverse_pairs_over_many_frames() {
    let set = RenderTargetSet::new(64, 16).unwrap();
    let extent = Extent { width: 800, height: 600 };
    let images = [0u32, 1, 0, 1, 1];
    let mut stream = Vec::new();
    for image in images {
        stream.extend(record_frame(&set, image, extent, sample_view()).unwrap());
    }
    let issued = barriers_of(&stream);
    assert_eq!(issued.len(), 2 * images.len());
    for (k, image) in images.iter().enumerate() {
        assert_eq!(issued[2 * k], Barrier::acquire(*image));
        assert_eq!(issued[2 * k + 1], issued[2 * k].inverse());
        assert_eq!(issued[2 * k + 1].before, issued[2 * k].after);
        assert_eq!(issued[2 * k + 1].after, issued[2 * k].before);
    }
}

#[test]
fn a_recorded_frame_keeps_to_the_resource_states() {
    let set = RenderTargetSet::new(64, 16).unwrap();
    let extent = Extent { width: 800, height: 600 };
    for image in [0u32, 1] {
        let commands = record_frame(&set, image, extent, sample_view()).unwrap();
        assert_eq!(replay(&commands, image, ResourceState::Present), Some(ResourceState::Present));
        assert_eq!(replay(&commands, image, ResourceState::RenderTarget), None);
        assert_eq!(replay(&commands, 1 - image, ResourceState::Present), None);
    }
}

#[test]
fn drawing_without_the_opening_barrier_is_refused() {
    let set = RenderTargetSet::new(64, 16).unwrap();
    let extent = Extent { width: 800, height: 600 };
    let mut commands = record_frame(&set, 0, extent, sample_view()).unwrap();
    commands.remove(3);
    assert_eq!(replay(&commands, 0, ResourceState::Present), None);
    assert_eq!(replay(&Vec::new(), 0, ResourceState::Present), Some(ResourceState::Present));
    assert_eq!(
        replay(&vec![Command::Transition(Barrier::acquire(0))], 0, ResourceState::Present),
        Some(ResourceState::RenderTarget)
    );
}

#[test]
fn commands_check_the_state_they_find() {
    let draw = Command::Draw { vertices: 3, instances: 1, first_vertex: 0, first_instance: 0 };
    assert_eq!(after_command(ResourceState::Present, 0, draw), None);
    assert_eq!(
        after_command(ResourceState::RenderTarget, 0, draw),
        Some(ResourceState::RenderTarget)
    );
    assert_eq!(
        after_command(ResourceState::Present, 0, Command::SetRenderTarget { handle: 8 }),
        None
    );
    assert_eq!(
        after_command(ResourceState::Present, 0, Command::SetTriangleList),
        Some(ResourceState::Present)
    );
    assert_eq!(
        after_command(ResourceState::Present, 1, Command::Transition(Barrier::acquire(1))),
        Some(ResourceState::RenderTarget)
    );
    assert_eq!(
        after_command(ResourceState::Present, 0, Command::Transition(Barrier::acquire(1))),
        None
    );
    assert_eq!(
        after_command(ResourceState::Present, 0, Command::Transition(Barrier::release(0))),
        None
    );
    assert_eq!(
        after_command(ResourceState::RenderTarget, 0, Command::Transition(Barrier::release(0))),
        Some(ResourceState::Present)
    );
}
