//! The commands of one frame: for each pipeline, wait for the previous
//! submission's fence, reset it and the command buffer, record one pass,
//! and submit; then present.

use vstd::prelude::*;
use crate::pipeline::{Pipeline, ShaderConstants};
use crate::swapchain::{ChainResources, Extent2D};

verus! {

/// The vertices of the one fixed draw.
pub const TRIANGLE_VERTICES: u32 = 3;

/// One command of a frame, in the order it is performed.
#[derive(Debug, Clone, Copy, PartialEq, Eq, Structural)]
pub enum FrameOp {
    /// Block until the GPU has finished the last submission of the draw buffer.
    WaitDrawFence,
    ResetDrawFence,
    ResetCommandBuffer,
    BeginCommandBuffer,
    BeginRenderPass { framebuffer: u64, extent: Extent2D },
    BindPipeline(u64),
    SetViewport(Extent2D),
    SetScissor(Extent2D),
    PushConstants { layout: u64, constants: ShaderConstants },
    Draw { vertex_count: u32, instance_count: u32 },
    EndRenderPass,
    EndCommandBuffer,
    /// Submit the draw buffer after the image is ready; signal the render-done
    /// semaphore and the draw fence.
    Submit,
    /// Present the image once rendering is done.
    Present(u32),
}

/// The render parameters of a frame of the given size.
pub open spec fn constants_for(extent: Extent2D) -> ShaderConstants {
    ShaderConstants { width: extent.width, height: extent.height }
}

/// The commands that draw with one pipeline into `framebuffer`.
pub open spec fn draw_ops(framebuffer: u64, p: Pipeline, extent: Extent2D) -> Seq<FrameOp> {
    seq![
        FrameOp::WaitDrawFence,
        FrameOp::ResetDrawFence,
        FrameOp::ResetCommandBuffer,
        FrameOp::BeginCommandBuffer,
        FrameOp::BeginRenderPass { framebuffer, extent },
        FrameOp::BindPipeline(p.pipeline),
        FrameOp::SetViewport(extent),
        FrameOp::SetScissor(extent),
        FrameOp::PushConstants { layout: p.pipeline_layout, constants: constants_for(extent) },
        FrameOp::Draw { vertex_count: TRIANGLE_VERTICES, instance_count: 1 },
        FrameOp::EndRenderPass,
        FrameOp::EndCommandBuffer,
        FrameOp::Submit,
    ]
}

/// The draws of every pipeline, in order.
pub open spec fn draws_ops(framebuffer: u64, ps: Seq<Pipeline>, extent: Extent2D) -> Seq<FrameOp>
    decreases ps.len(),
{
    if ps.len() == 0 {
        Seq::empty()
    } else {
        draws_ops(framebuffer, ps.drop_last(), extent) + draw_ops(framebuffer, ps.last(), extent)
    }
}

/// All commands of a frame that renders into image `index`.
pub open spec fn frame_ops(index: u32, framebuffer: u64, ps: Seq<Pipeline>, extent: Extent2D) -> Seq<FrameOp> {
    draws_ops(framebuffer, ps, extent) + seq![FrameOp::Present(index)]
}

/// The commands of one frame from the chain and the pipelines in use, or
/// `None` when the acquired image index names no framebuffer.
pub fn frame_commands(chain: &ChainResources, pipelines: &Vec<Pipeline>, index: u32) -> (r: Option<Vec<FrameOp>>)
    ensures
        (index as int) < chain.framebuffers@.len() ==> (r matches Some(ops) && ops@ == frame_ops(
            index,
            chain.framebuffers@[index as int],
            pipelines@,
            chain.extent,
        )),
        (index as int) >= chain.framebuffers@.len() ==> r is None,
{
    if index as usize >= chain.framebuffers.len() {
        return None;
    }
    let framebuffer = chain.framebuffers[index as usize];
    let extent = chain.extent;
    let mut ops: Vec<FrameOp> = Vec::new();
    let mut i: usize = 0;
    while i < pipelines.len()
        invariant
            i <= pipelines@.len(),
            ops@ == draws_ops(framebuffer, pipelines@.take(i as int), extent),
        decreases pipelines.len() - i,
    {
        let p = &pipelines[i];
        ops.push(FrameOp::WaitDrawFence);
        ops.push(FrameOp::ResetDrawFence);
        ops.push(FrameOp::ResetCommandBuffer);
        ops.push(FrameOp::BeginCommandBuffer);
        ops.push(FrameOp::BeginRenderPass { framebuffer, extent });
        ops.push(FrameOp::BindPipeline(p.pipeline));
        ops.push(FrameOp::SetViewport(extent));
        ops.push(FrameOp::SetScissor(extent));
        ops.push(FrameOp::PushConstants {
            layout: p.pipeline_layout,
            constants: ShaderConstants { width: extent.width, height: extent.height },
        });
        ops.push(FrameOp::Draw { vertex_count: TRIANGLE_VERTICES, instance_count: 1 });
        ops.push(FrameOp::EndRenderPass);
        ops.push(FrameOp::EndCommandBuffer);
        ops.push(FrameOp::Submit);
        assert(pipelines@.take(i + 1).drop_last() =~= pipelines@.take(i as int));
        i += 1;
        assert(ops@ =~= draws_ops(framebuffer, pipelines@.take(i as int), extent));
    }
    assert(pipelines@.take(i as int) =~= pipelines@);
    ops.push(FrameOp::Present(index));
    Some(ops)
}

/// Whether every recording of the command buffer comes right after a wait
/// on the draw fence, a reset of the fence, and a reset of the buffer.
pub open spec fn paced(ops: Seq<FrameOp>) -> bool {
    forall|j: int|
        0 <= j < ops.len() && #[trigger] ops[j] == FrameOp::BeginCommandBuffer ==> {
            &&& j >= 3
            &&& ops[j - 3] == FrameOp::WaitDrawFence
            &&& ops[j - 2] == FrameOp::ResetDrawFence
            &&& ops[j - 1] == FrameOp::ResetCommandBuffer
        }
}

proof fn lemma_paced_concat(a: Seq<FrameOp>, b: Seq<FrameOp>)
    requires
        paced(a),
        paced(b),
    ensures
        paced(a + b),
{
    let s = a + b;
    assert forall|j: int| 0 <= j < s.len() && #[trigger] s[j] == FrameOp::BeginCommandBuffer implies {
        &&& j >= 3
        &&& s[j - 3] == FrameOp::WaitDrawFence
        &&& s[j - 2] == FrameOp::ResetDrawFence
        &&& s[j - 1] == FrameOp::ResetCommandBuffer
    } by {
        if j < a.len() {
            assert(a[j] == s[j]);
        } else {
            assert(b[j - a.len()] == s[j]);
        }
    }
}

proof fn lemma_draws_paced(framebuffer: u64, ps: Seq<Pipeline>, extent: Extent2D)
    ensures
        paced(draws_ops(framebuffer, ps, extent)),
    decreases ps.len(),
{
    if ps.len() > 0 {
        lemma_draws_paced(framebuffer, ps.drop_last(), extent);
        let d = draw_ops(framebuffer, ps.last(), extent);
        assert forall|j: int| 0 <= j < d.len() && #[trigger] d[j] == FrameOp::BeginCommandBuffer implies j == 3 by {}
        lemma_paced_concat(draws_ops(framebuffer, ps.drop_last(), extent), d);
    }
}

/// One frame's inputs: the image index, its framebuffer, the pipelines in
/// use and the resolution.
pub type FrameInput = (u32, u64, Seq<Pipeline>, Extent2D);

/// The commands of consecutive frames, one after another.
pub open spec fn frames_ops(frames: Seq<FrameInput>) -> Seq<FrameOp>
    decreases frames.len(),
{
    if frames.len() == 0 {
        Seq::empty()
    } else {
        let f = frames.last();
        frames_ops(frames.drop_last()) + frame_ops(f.0, f.1, f.2, f.3)
    }
}

/// Over any number of consecutive frames, the command buffer is never
/// recorded again before the fence of its last submission has been waited on
/// and reset, so no buffer is rewritten while the GPU may still read it.
pub proof fn lemma_frames_paced(frames: Seq<FrameInput>)
    ensures
        paced(frames_ops(frames)),
    decreases frames.len(),
{
    if frames.len() > 0 {
        let f = frames.last();
        lemma_frames_paced(frames.drop_last());
        lemma_draws_paced(f.1, f.2, f.3);
        let tail: Seq<FrameOp> = seq![FrameOp::Present(f.0)];
        assert(paced(tail));
        lemma_paced_concat(draws_ops(f.1, f.2, f.3), tail);
        lemma_paced_concat(frames_ops(frames.drop_last()), frame_ops(f.0, f.1, f.2, f.3));
    }
}

} // verus!
