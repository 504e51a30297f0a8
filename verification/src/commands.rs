//! The commands recorded for one frame, and what holds of the barriers in
//! any run of frames.

use vstd::prelude::*;
use crate::resource::{Barrier, ResourceState};
use crate::geometry::{VertexBufferView, VERTEX_COUNT};
use crate::targets::{RenderTargetSet, IMAGE_COUNT};

verus! {

/// Bit patterns of the single-precision clear colour (0.0, 0.2, 0.4, 1.0).
pub const CLEAR_RED_BITS: u32 = 0x0000_0000;

pub const CLEAR_GREEN_BITS: u32 = 0x3E4C_CCCD;

pub const CLEAR_BLUE_BITS: u32 = 0x3ECC_CCCD;

pub const CLEAR_ALPHA_BITS: u32 = 0x3F80_0000;

/// Size of the presentation surface in pixels.
#[derive(Clone, Copy, PartialEq, Eq, Structural, Debug)]
pub struct Extent {
    pub width: u32,
    pub height: u32,
}

/// A colour, each channel held as the bit pattern of its single-precision value.
#[derive(Clone, Copy, PartialEq, Eq, Structural, Debug)]
pub struct Colour {
    pub red: u32,
    pub green: u32,
    pub blue: u32,
    pub alpha: u32,
}

/// One command issued into the command list between its reset and its close.
#[derive(Clone, Copy, PartialEq, Eq, Structural, Debug)]
pub enum Command {
    SetRootSignature,
    /// Viewport from the origin over the whole surface, depth range 0 to 1.
    SetViewport { width: u32, height: u32 },
    /// Scissor rectangle from the origin to (`right`, `bottom`).
    SetScissor { right: u32, bottom: u32 },
    Transition(Barrier),
    /// Bind the single render target view at `handle`, without depth.
    SetRenderTarget { handle: usize },
    ClearRenderTarget { handle: usize, colour: Colour },
    SetTriangleList,
    /// Bind the vertex buffer at input slot 0.
    SetVertexBuffer(VertexBufferView),
    Draw { vertices: u32, instances: u32, first_vertex: u32, first_instance: u32 },
}

pub open spec fn spec_clear_colour() -> Colour {
    Colour {
        red: CLEAR_RED_BITS,
        green: CLEAR_GREEN_BITS,
        blue: CLEAR_BLUE_BITS,
        alpha: CLEAR_ALPHA_BITS,
    }
}

pub fn clear_colour() -> (c: Colour)
    ensures
        c == spec_clear_colour(),
{
    Colour {
        red: CLEAR_RED_BITS,
        green: CLEAR_GREEN_BITS,
        blue: CLEAR_BLUE_BITS,
        alpha: CLEAR_ALPHA_BITS,
    }
}

/// The commands of one frame that draws into swapchain image `image`, whose
/// view is at `handle`.
pub open spec fn frame_commands(
    image: u32,
    handle: usize,
    extent: Extent,
    vertices: VertexBufferView,
) -> Seq<Command> {
    Seq::empty()
        .push(Command::SetRootSignature)
        .push(Command::SetViewport { width: extent.width, height: extent.height })
        .push(Command::SetScissor { right: extent.width, bottom: extent.height })
        .push(Command::Transition(Barrier::spec_acquire(image)))
        .push(Command::SetRenderTarget { handle })
        .push(Command::ClearRenderTarget { handle, colour: spec_clear_colour() })
        .push(Command::SetTriangleList)
        .push(Command::SetVertexBuffer(vertices))
        .push(Command::Draw {
            vertices: VERTEX_COUNT,
            instances: 1,
            first_vertex: 0,
            first_instance: 0,
        })
        .push(Command::Transition(Barrier::spec_release(image)))
}

/// Records one frame: the draw of the triangle into image `image`, bracketed
/// by the barrier into the render-target state and its inverse. `None` when
/// `image` names no swapchain image.
pub fn record_frame(
    targets: &RenderTargetSet,
    image: u32,
    extent: Extent,
    vertices: VertexBufferView,
) -> (r: Option<Vec<Command>>)
    requires
        targets.wf(),
    ensures
        r is Some <==> image < IMAGE_COUNT,
        r is Some ==> r.unwrap()@ == frame_commands(
            image,
            targets.spec_handle(image) as usize,
            extent,
            vertices,
        ),
{
    let handle = match targets.handle(image) {
        Some(h) => h,
        None => {
            return None;
        },
    };
    let enter = Barrier::acquire(image);
    let mut list: Vec<Command> = Vec::new();
    list.push(Command::SetRootSignature);
    list.push(Command::SetViewport { width: extent.width, height: extent.height });
    list.push(Command::SetScissor { right: extent.width, bottom: extent.height });
    list.push(Command::Transition(enter));
    list.push(Command::SetRenderTarget { handle });
    list.push(Command::ClearRenderTarget { handle, colour: clear_colour() });
    list.push(Command::SetTriangleList);
    list.push(Command::SetVertexBuffer(vertices));
    list.push(
        Command::Draw { vertices: VERTEX_COUNT, instances: 1, first_vertex: 0, first_instance: 0 },
    );
    list.push(Command::Transition(enter.inverse()));
    Some(list)
}

/// The state `command` leaves swapchain image `image` in when it finds it in
/// `state`; `None` when the command may not be issued in that state: a
/// barrier must name the image and start from its current state, and the
/// image must be a render target while it is bound, cleared or drawn into.
pub open spec fn spec_after_command(
    state: ResourceState,
    image: u32,
    command: Command,
) -> Option<ResourceState> {
    match command {
        Command::Transition(b) => if b.image == image && b.before == state {
            Some(b.after)
        } else {
            None
        },
        Command::SetRenderTarget { .. } | Command::ClearRenderTarget { .. } | Command::Draw { .. } => {
            if state == ResourceState::RenderTarget {
                Some(state)
            } else {
                None
            }
        },
        _ => Some(state),
    }
}

/// The state `commands` leave `image` in, starting from `start`; `None` when
/// one of them may not be issued in the state it finds.
pub open spec fn spec_replay(
    commands: Seq<Command>,
    image: u32,
    start: ResourceState,
) -> Option<ResourceState>
    decreases commands.len(),
{
    if commands.len() == 0 {
        Some(start)
    } else {
        match spec_replay(commands.drop_last(), image, start) {
            Some(state) => spec_after_command(state, image, commands.last()),
            None => None,
        }
    }
}

/// Applies one command to the tracked state of `image`.
pub fn after_command(
    state: ResourceState,
    image: u32,
    command: Command,
) -> (r: Option<ResourceState>)
    ensures
        r == spec_after_command(state, image, command),
{
    match command {
        Command::Transition(b) => {
            if b.image == image && b.before == state {
                Some(b.after)
            } else {
                None
            }
        },
        Command::SetRenderTarget { .. } | Command::ClearRenderTarget { .. } | Command::Draw { .. } => {
            if state == ResourceState::RenderTarget {
                Some(state)
            } else {
                None
            }
        },
        _ => Some(state),
    }
}

/// Follows the state of `image` through `commands`, refusing a command that
/// is issued in a state it may not be issued in.
pub fn replay(
    commands: &Vec<Command>,
    image: u32,
    start: ResourceState,
) -> (r: Option<ResourceState>)
    ensures
        r == spec_replay(commands@, image, start),
{
    let mut current: Option<ResourceState> = Some(start);
    let mut i: usize = 0;
    while i < commands.len()
        invariant
            i <= commands@.len(),
            current == spec_replay(commands@.take(i as int), image, start),
        decreases commands@.len() - i,
    {
        proof {
            assert(commands@.take(i as int + 1).drop_last() =~= commands@.take(i as int));
        }
        current = match current {
            Some(state) => after_command(state, image, commands[i]),
            None => None,
        };
        i = i + 1;
    }
    proof {
        assert(commands@.take(i as int) =~= commands@);
    }
    current
}

proof fn lemma_replay_push(commands: Seq<Command>, c: Command, image: u32, start: ResourceState)
    ensures
        spec_replay(commands.push(c), image, start) == match spec_replay(commands, image, start) {
            Some(state) => spec_after_command(state, image, c),
            None => None,
        },
{
    assert(commands.push(c).drop_last() =~= commands);
}

/// A frame finds its image in the presentation state and leaves it there,
/// and binds, clears and draws only while the image is a render target.
pub proof fn lemma_frame_respects_states(
    image: u32,
    handle: usize,
    extent: Extent,
    vertices: VertexBufferView,
)
    ensures
        spec_replay(frame_commands(image, handle, extent, vertices), image, ResourceState::Present)
            == Some(ResourceState::Present),
{
    let start = ResourceState::Present;
    let c0 = Seq::<Command>::empty();
    let c1 = c0.push(Command::SetRootSignature);
    let c2 = c1.push(Command::SetViewport { width: extent.width, height: extent.height });
    let c3 = c2.push(Command::SetScissor { right: extent.width, bottom: extent.height });
    let c4 = c3.push(Command::Transition(Barrier::spec_acquire(image)));
    let c5 = c4.push(Command::SetRenderTarget { handle });
    let c6 = c5.push(Command::ClearRenderTarget { handle, colour: spec_clear_colour() });
    let c7 = c6.push(Command::SetTriangleList);
    let c8 = c7.push(Command::SetVertexBuffer(vertices));
    let c9 = c8.push(
        Command::Draw { vertices: VERTEX_COUNT, instances: 1, first_vertex: 0, first_instance: 0 },
    );
    let c10 = c9.push(Command::Transition(Barrier::spec_release(image)));
    lemma_replay_push(c0, c1.last(), image, start);
    lemma_replay_push(c1, c2.last(), image, start);
    lemma_replay_push(c2, c3.last(), image, start);
    lemma_replay_push(c3, c4.last(), image, start);
    lemma_replay_push(c4, c5.last(), image, start);
    lemma_replay_push(c5, c6.last(), image, start);
    lemma_replay_push(c6, c7.last(), image, start);
    lemma_replay_push(c7, c8.last(), image, start);
    lemma_replay_push(c8, c9.last(), image, start);
    lemma_replay_push(c9, c10.last(), image, start);
    assert(spec_replay(c4, image, start) == Some(ResourceState::RenderTarget));
    assert(spec_replay(c9, image, start) == Some(ResourceState::RenderTarget));
}

/// The barriers among `commands`, in order.
pub open spec fn transitions(commands: Seq<Command>) -> Seq<Barrier>
    decreases commands.len(),
{
    if commands.len() == 0 {
        Seq::empty()
    } else {
        let earlier = transitions(commands.drop_last());
        match commands.last() {
            Command::Transition(b) => earlier.push(b),
            _ => earlier,
        }
    }
}

/// What one frame per listed swapchain image records, frame after frame.
pub open spec fn run_commands(
    targets: RenderTargetSet,
    images: Seq<u32>,
    extent: Extent,
    vertices: VertexBufferView,
) -> Seq<Command>
    decreases images.len(),
{
    if images.len() == 0 {
        Seq::empty()
    } else {
        run_commands(targets, images.drop_last(), extent, vertices) + frame_commands(
            images.last(),
            targets.spec_handle(images.last()) as usize,
            extent,
            vertices,
        )
    }
}

/// The barriers issued over a run of frames, one frame per listed image.
pub open spec fn issued_barriers(
    targets: RenderTargetSet,
    images: Seq<u32>,
    extent: Extent,
    vertices: VertexBufferView,
) -> Seq<Barrier> {
    transitions(run_commands(targets, images, extent, vertices))
}

proof fn lemma_transitions_push(commands: Seq<Command>, c: Command)
    ensures
        transitions(commands.push(c)) == match c {
            Command::Transition(b) => transitions(commands).push(b),
            _ => transitions(commands),
        },
{
    assert(commands.push(c).drop_last() =~= commands);
}

proof fn lemma_transitions_concat(a: Seq<Command>, b: Seq<Command>)
    ensures
        transitions(a + b) == transitions(a) + transitions(b),
    decreases b.len(),
{
    if b.len() == 0 {
        assert(a + b =~= a);
        assert(transitions(a) + transitions(b) =~= transitions(a));
    } else {
        lemma_transitions_concat(a, b.drop_last());
        assert((a + b).drop_last() =~= a + b.drop_last());
        assert((a + b).last() == b.last());
        match b.last() {
            Command::Transition(x) => {
                assert(transitions(a + b) =~= transitions(a) + transitions(b));
            },
            _ => {},
        }
    }
}

/// One frame issues exactly two barriers on its image: into the
/// render-target state first, and the exact inverse last.
pub proof fn lemma_frame_transitions(
    image: u32,
    handle: usize,
    extent: Extent,
    vertices: VertexBufferView,
)
    ensures
        transitions(frame_commands(image, handle, extent, vertices)) == seq![
            Barrier::spec_acquire(image),
            Barrier::spec_release(image),
        ],
        Barrier::spec_release(image) == Barrier::spec_acquire(image).spec_inverse(),
{
    let c0 = Seq::<Command>::empty();
    let c1 = c0.push(Command::SetRootSignature);
    let c2 = c1.push(Command::SetViewport { width: extent.width, height: extent.height });
    let c3 = c2.push(Command::SetScissor { right: extent.width, bottom: extent.height });
    let c4 = c3.push(Command::Transition(Barrier::spec_acquire(image)));
    let c5 = c4.push(Command::SetRenderTarget { handle });
    let c6 = c5.push(Command::ClearRenderTarget { handle, colour: spec_clear_colour() });
    let c7 = c6.push(Command::SetTriangleList);
    let c8 = c7.push(Command::SetVertexBuffer(vertices));
    let c9 = c8.push(
        Command::Draw { vertices: VERTEX_COUNT, instances: 1, first_vertex: 0, first_instance: 0 },
    );
    let c10 = c9.push(Command::Transition(Barrier::spec_release(image)));
    lemma_transitions_push(c0, c1.last());
    lemma_transitions_push(c1, c2.last());
    lemma_transitions_push(c2, c3.last());
    lemma_transitions_push(c3, c4.last());
    lemma_transitions_push(c4, c5.last());
    lemma_transitions_push(c5, c6.last());
    lemma_transitions_push(c6, c7.last());
    lemma_transitions_push(c7, c8.last());
    lemma_transitions_push(c8, c9.last());
    lemma_transitions_push(c9, c10.last());
    assert(transitions(c0) =~= Seq::<Barrier>::empty());
    assert(transitions(c10) =~= seq![Barrier::spec_acquire(image), Barrier::spec_release(image)]);
}

/// Over any run of frames, two barriers are issued per frame, and the
/// second of each pair is the exact inverse of the first, on the image that
/// the frame drew into.
pub proof fn lemma_barrier_pairs(
    targets: RenderTargetSet,
    images: Seq<u32>,
    extent: Extent,
    vertices: VertexBufferView,
)
    ensures
        issued_barriers(targets, images, extent, vertices).len() == 2 * images.len(),
        forall|k: int|
            0 <= k < images.len() ==> {
                &&& issued_barriers(targets, images, extent, vertices)[2 * k]
                    == Barrier::spec_acquire(#[trigger] images[k])
                &&& issued_barriers(targets, images, extent, vertices)[2 * k + 1]
                    == issued_barriers(targets, images, extent, vertices)[2 * k].spec_inverse()
            },
    decreases images.len(),
{
    if images.len() > 0 {
        let earlier = run_commands(targets, images.drop_last(), extent, vertices);
        let frame = frame_commands(
            images.last(),
            targets.spec_handle(images.last()) as usize,
            extent,
            vertices,
        );
        lemma_barrier_pairs(targets, images.drop_last(), extent, vertices);
        lemma_transitions_concat(earlier, frame);
        lemma_frame_transitions(
            images.last(),
            targets.spec_handle(images.last()) as usize,
            extent,
            vertices,
        );
        let issued = transitions(run_commands(targets, images, extent, vertices));
        let before = transitions(earlier);
        assert(issued == before + transitions(frame));
        assert forall|k: int| 0 <= k < images.len() implies {
            &&& issued[2 * k] == Barrier::spec_acquire(#[trigger] images[k])
            &&& issued[2 * k + 1] == issued[2 * k].spec_inverse()
        } by {
            if k < images.len() - 1 {
                assert(images.drop_last()[k] == images[k]);
                assert(before[2 * k] == Barrier::spec_acquire(images[k]));
            } else {
                assert(issued[2 * k] == transitions(frame)[0]);
                assert(issued[2 * k + 1] == transitions(frame)[1]);
            }
        }
    }
}

} // verus!
