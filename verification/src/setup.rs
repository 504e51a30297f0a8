//! The order in which the renderer's objects are created, and what a
//! failure on the way means.

use vstd::prelude::*;

verus! {

/// One step of bringing the renderer up, in the order they are taken.
#[derive(Clone, Copy, PartialEq, Eq, Structural, Debug)]
pub enum Stage {
    DebugLayer,
    Device,
    Queue,
    Factory,
    SwapChain,
    WindowAssociation,
    DescriptorHeap,
    RenderTargetViews,
    Allocator,
    RootSignature,
    VertexShader,
    FragmentShader,
    PipelineState,
    CommandList,
    Fence,
    FenceEvent,
    VertexBuffer,
    Upload,
}

/// A failure that ends the bring-up, naming the stage that failed.
#[derive(Clone, Copy, PartialEq, Eq, Structural, Debug)]
pub struct SetupError {
    pub stage: Stage,
}

/// What to do after a stage has run.
#[derive(Clone, Copy, PartialEq, Eq, Structural, Debug)]
pub enum SetupAction {
    Run(Stage),
    /// Every stage is done; the frame loop can start.
    Ready,
    Abort(SetupError),
}

/// Position of a stage in the bring-up, from 0.
pub open spec fn spec_position(stage: Stage) -> nat {
    match stage {
        Stage::DebugLayer => 0,
        Stage::Device => 1,
        Stage::Queue => 2,
        Stage::Factory => 3,
        Stage::SwapChain => 4,
        Stage::WindowAssociation => 5,
        Stage::DescriptorHeap => 6,
        Stage::RenderTargetViews => 7,
        Stage::Allocator => 8,
        Stage::RootSignature => 9,
        Stage::VertexShader => 10,
        Stage::FragmentShader => 11,
        Stage::PipelineState => 12,
        Stage::CommandList => 13,
        Stage::Fence => 14,
        Stage::FenceEvent => 15,
        Stage::VertexBuffer => 16,
        Stage::Upload => 17,
    }
}

/// The name a diagnostic gives to a stage.
pub open spec fn spec_name(stage: Stage) -> Seq<char> {
    match stage {
        Stage::DebugLayer => "debug layer"@,
        Stage::Device => "device"@,
        Stage::Queue => "command queue"@,
        Stage::Factory => "factory"@,
        Stage::SwapChain => "swapchain"@,
        Stage::WindowAssociation => "window association"@,
        Stage::DescriptorHeap => "descriptor heap"@,
        Stage::RenderTargetViews => "render target views"@,
        Stage::Allocator => "command allocator"@,
        Stage::RootSignature => "root signature"@,
        Stage::VertexShader => "vertex shader compile"@,
        Stage::FragmentShader => "fragment shader compile"@,
        Stage::PipelineState => "pipeline state"@,
        Stage::CommandList => "command list"@,
        Stage::Fence => "fence"@,
        Stage::FenceEvent => "fence event"@,
        Stage::VertexBuffer => "vertex buffer"@,
        Stage::Upload => "vertex upload"@,
    }
}

/// Whether the renderer can do without the stage: only the debug layer,
/// which is enabled if it can be had.
pub open spec fn spec_optional(stage: Stage) -> bool {
    stage == Stage::DebugLayer
}

/// What follows the outcome of `stage`: the stage one position further,
/// `Ready` after the last, and an abort naming `stage` where a stage that
/// the renderer needs has failed.
pub open spec fn follows(stage: Stage, succeeded: bool, action: SetupAction) -> bool {
    if !succeeded && !spec_optional(stage) {
        action == SetupAction::Abort(SetupError { stage })
    } else if stage == Stage::Upload {
        action == SetupAction::Ready
    } else {
        action matches SetupAction::Run(next) && spec_position(next) == spec_position(stage) + 1
    }
}

impl Stage {
    /// The stage the bring-up starts with.
    pub fn first() -> (s: Stage)
        ensures
            spec_position(s) == 0,
    {
        Stage::DebugLayer
    }

    pub fn position(self) -> (p: u32)
        ensures
            p == spec_position(self),
    {
        match self {
            Stage::DebugLayer => 0,
            Stage::Device => 1,
            Stage::Queue => 2,
            Stage::Factory => 3,
            Stage::SwapChain => 4,
            Stage::WindowAssociation => 5,
            Stage::DescriptorHeap => 6,
            Stage::RenderTargetViews => 7,
            Stage::Allocator => 8,
            Stage::RootSignature => 9,
            Stage::VertexShader => 10,
            Stage::FragmentShader => 11,
            Stage::PipelineState => 12,
            Stage::CommandList => 13,
            Stage::Fence => 14,
            Stage::FenceEvent => 15,
            Stage::VertexBuffer => 16,
            Stage::Upload => 17,
        }
    }

    /// The name of the stage, for diagnostics.
    pub fn name(self) -> (n: &'static str)
        ensures
            n@ == spec_name(self),
    {
        match self {
            Stage::DebugLayer => "debug layer",
            Stage::Device => "device",
            Stage::Queue => "command queue",
            Stage::Factory => "factory",
            Stage::SwapChain => "swapchain",
            Stage::WindowAssociation => "window association",
            Stage::DescriptorHeap => "descriptor heap",
            Stage::RenderTargetViews => "render target views",
            Stage::Allocator => "command allocator",
            Stage::RootSignature => "root signature",
            Stage::VertexShader => "vertex shader compile",
            Stage::FragmentShader => "fragment shader compile",
            Stage::PipelineState => "pipeline state",
            Stage::CommandList => "command list",
            Stage::Fence => "fence",
            Stage::FenceEvent => "fence event",
            Stage::VertexBuffer => "vertex buffer",
            Stage::Upload => "vertex upload",
        }
    }

    pub fn optional(self) -> (b: bool)
        ensures
            b == spec_optional(self),
    {
        match self {
            Stage::DebugLayer => true,
            _ => false,
        }
    }

    /// The stage after this one, if any.
    pub fn next(self) -> (n: Option<Stage>)
        ensures
            n is Some <==> self != Stage::Upload,
            n is Some ==> spec_position(n.unwrap()) == spec_position(self) + 1,
    {
        match self {
            Stage::DebugLayer => Some(Stage::Device),
            Stage::Device => Some(Stage::Queue),
            Stage::Queue => Some(Stage::Factory),
            Stage::Factory => Some(Stage::SwapChain),
            Stage::SwapChain => Some(Stage::WindowAssociation),
            Stage::WindowAssociation => Some(Stage::DescriptorHeap),
            Stage::DescriptorHeap => Some(Stage::RenderTargetViews),
            Stage::RenderTargetViews => Some(Stage::Allocator),
            Stage::Allocator => Some(Stage::RootSignature),
            Stage::RootSignature => Some(Stage::VertexShader),
            Stage::VertexShader => Some(Stage::FragmentShader),
            Stage::FragmentShader => Some(Stage::PipelineState),
            Stage::PipelineState => Some(Stage::CommandList),
            Stage::CommandList => Some(Stage::Fence),
            Stage::Fence => Some(Stage::FenceEvent),
            Stage::FenceEvent => Some(Stage::VertexBuffer),
            Stage::VertexBuffer => Some(Stage::Upload),
            Stage::Upload => None,
        }
    }
}

/// Two stages at the same position are the same stage.
pub proof fn lemma_position_unique(a: Stage, b: Stage)
    ensures
        spec_position(a) == spec_position(b) <==> a == b,
        spec_position(a) <= 17,
{
}

/// Decides what to do once `stage` has run.
pub fn after_stage(stage: Stage, succeeded: bool) -> (action: SetupAction)
    ensures
        follows(stage, succeeded, action),
{
    if !succeeded && !stage.optional() {
        SetupAction::Abort(SetupError { stage })
    } else {
        match stage.next() {
            Some(next) => SetupAction::Run(next),
            None => SetupAction::Ready,
        }
    }
}

/// A pipeline state is created only once both shaders have compiled: a
/// failed compile aborts naming its stage, and nothing but a compiled
/// fragment shader leads on to the pipeline state.
pub proof fn lemma_no_pipeline_without_shaders(stage: Stage, succeeded: bool, action: SetupAction)
    requires
        follows(stage, succeeded, action),
    ensures
        action == SetupAction::Run(Stage::PipelineState) ==> stage == Stage::FragmentShader
            && succeeded,
        (stage == Stage::VertexShader || stage == Stage::FragmentShader) && !succeeded ==> action
            == SetupAction::Abort(SetupError { stage }),
        action == SetupAction::Run(Stage::FragmentShader) ==> stage == Stage::VertexShader
            && succeeded,
{
    lemma_position_unique(stage, Stage::FragmentShader);
}

} // verus!
