//! The pipeline set: which shader stages each pipeline uses, the shared
//! fixed-function state, and the wholesale replacement on rebuild.

use vstd::prelude::*;
use crate::registry::ShaderModuleRegistry;

verus! {

/// The render parameters pushed to the shaders with every draw.
#[derive(Debug, Clone, Copy, PartialEq, Eq, Structural)]
pub struct ShaderConstants {
    pub width: u32,
    pub height: u32,
}

/// The size in bytes of the push-constant block: two 32-bit integers.
pub const PUSH_CONSTANT_SIZE: u32 = 8;

/// The vertex stage of a pipeline: a module name and an entry symbol.
#[derive(Debug, Clone)]
pub struct VertexShaderEntryPoint {
    pub module: String,
    pub entry_point: String,
}

/// The fragment stage of a pipeline: a module name and an entry symbol.
#[derive(Debug, Clone)]
pub struct FragmentShaderEntryPoint {
    pub module: String,
    pub entry_point: String,
}

/// The two stages of a pipeline with their modules resolved to handles.
#[derive(Debug, Clone)]
pub struct PipelineStages {
    pub vertex_module: u64,
    pub vertex_entry: String,
    pub fragment_module: u64,
    pub fragment_entry: String,
}

/// How vertices are assembled into primitives.
#[derive(Debug, Clone, Copy, PartialEq, Eq, Structural)]
pub enum Topology {
    TriangleList,
}

/// How primitives are rasterized.
#[derive(Debug, Clone, Copy, PartialEq, Eq, Structural)]
pub enum PolygonMode {
    Fill,
}

/// Which winding faces the viewer.
#[derive(Debug, Clone, Copy, PartialEq, Eq, Structural)]
pub enum FrontFace {
    CounterClockwise,
}

/// A piece of pipeline state that is set while recording instead.
#[derive(Debug, Clone, Copy, PartialEq, Eq, Structural)]
pub enum DynamicState {
    Viewport,
    Scissor,
}

/// What a stencil test does with a sample.
#[derive(Debug, Clone, Copy, PartialEq, Eq, Structural)]
pub enum StencilOp {
    Keep,
}

/// A comparison of a depth or stencil test.
#[derive(Debug, Clone, Copy, PartialEq, Eq, Structural)]
pub enum CompareOp {
    Always,
}

/// A factor of a blend equation.
#[derive(Debug, Clone, Copy, PartialEq, Eq, Structural)]
pub enum BlendFactor {
    Zero,
    SrcColor,
    OneMinusDstColor,
}

/// How a blend equation combines its terms.
#[derive(Debug, Clone, Copy, PartialEq, Eq, Structural)]
pub enum BlendOp {
    Add,
}

/// A logical operation on the colour attachment.
#[derive(Debug, Clone, Copy, PartialEq, Eq, Structural)]
pub enum LogicOp {
    Clear,
}

/// Red, green, blue and alpha, one bit each.
pub const COLOR_COMPONENTS_ALL: u32 = 0xF;

/// The stencil test of one face.
#[derive(Debug, Clone, Copy, PartialEq, Eq, Structural)]
pub struct StencilState {
    pub fail_op: StencilOp,
    pub pass_op: StencilOp,
    pub depth_fail_op: StencilOp,
    pub compare_op: CompareOp,
}

/// The blending of one colour attachment.
#[derive(Debug, Clone, Copy, PartialEq, Eq, Structural)]
pub struct ColorBlendAttachment {
    pub blend_enable: bool,
    pub src_color_blend_factor: BlendFactor,
    pub dst_color_blend_factor: BlendFactor,
    pub color_blend_op: BlendOp,
    pub src_alpha_blend_factor: BlendFactor,
    pub dst_alpha_blend_factor: BlendFactor,
    pub alpha_blend_op: BlendOp,
    /// The colour components written, one bit each.
    pub color_write_mask: u32,
}

/// A stencil test that keeps every sample and always passes.
pub open spec fn noop_stencil() -> StencilState {
    StencilState {
        fail_op: StencilOp::Keep,
        pass_op: StencilOp::Keep,
        depth_fail_op: StencilOp::Keep,
        compare_op: CompareOp::Always,
    }
}

/// The one colour attachment: blending off, all components written.
pub open spec fn opaque_attachment() -> ColorBlendAttachment {
    ColorBlendAttachment {
        blend_enable: false,
        src_color_blend_factor: BlendFactor::SrcColor,
        dst_color_blend_factor: BlendFactor::OneMinusDstColor,
        color_blend_op: BlendOp::Add,
        src_alpha_blend_factor: BlendFactor::Zero,
        dst_alpha_blend_factor: BlendFactor::Zero,
        alpha_blend_op: BlendOp::Add,
        color_write_mask: COLOR_COMPONENTS_ALL,
    }
}

/// Everything one graphics pipeline is built from: its stages and the
/// fixed-function state that all pipelines share.
#[derive(Debug, Clone)]
pub struct PipelineDescriptor {
    pub stages: PipelineStages,
    pub vertex_binding_count: u32,
    pub vertex_attribute_count: u32,
    pub topology: Topology,
    pub polygon_mode: PolygonMode,
    pub front_face: FrontFace,
    pub sample_count: u32,
    pub depth_test: bool,
    pub depth_write: bool,
    pub depth_compare_op: CompareOp,
    pub stencil_front: StencilState,
    pub stencil_back: StencilState,
    pub color_blend_attachments: Vec<ColorBlendAttachment>,
    pub logic_op: LogicOp,
    pub dynamic_state: Vec<DynamicState>,
    pub push_constant_size: u32,
}

/// The shared fixed-function state: no vertex input, a triangle list, solid
/// fill, one sample, no depth test or write, stencil tests that keep every
/// sample, one colour attachment with blending off and every component
/// written, viewport and scissor dynamic, and one push-constant block for
/// the render parameters.
pub open spec fn is_fixed_state(d: PipelineDescriptor) -> bool {
    &&& d.vertex_binding_count == 0
    &&& d.vertex_attribute_count == 0
    &&& d.topology == Topology::TriangleList
    &&& d.polygon_mode == PolygonMode::Fill
    &&& d.front_face == FrontFace::CounterClockwise
    &&& d.sample_count == 1
    &&& !d.depth_test
    &&& !d.depth_write
    &&& d.depth_compare_op == CompareOp::Always
    &&& d.stencil_front == noop_stencil()
    &&& d.stencil_back == noop_stencil()
    &&& d.color_blend_attachments@ == seq![opaque_attachment()]
    &&& d.logic_op == LogicOp::Clear
    &&& d.dynamic_state@ == seq![DynamicState::Viewport, DynamicState::Scissor]
    &&& d.push_constant_size == PUSH_CONSTANT_SIZE
}

impl PipelineDescriptor {
    /// The descriptor of a pipeline with the given stages.
    pub fn new(stages: PipelineStages) -> (r: PipelineDescriptor)
        ensures
            r.stages == stages,
            is_fixed_state(r),
    {
        let noop_stencil = StencilState {
            fail_op: StencilOp::Keep,
            pass_op: StencilOp::Keep,
            depth_fail_op: StencilOp::Keep,
            compare_op: CompareOp::Always,
        };
        let attachment = ColorBlendAttachment {
            blend_enable: false,
            src_color_blend_factor: BlendFactor::SrcColor,
            dst_color_blend_factor: BlendFactor::OneMinusDstColor,
            color_blend_op: BlendOp::Add,
            src_alpha_blend_factor: BlendFactor::Zero,
            dst_alpha_blend_factor: BlendFactor::Zero,
            alpha_blend_op: BlendOp::Add,
            color_write_mask: COLOR_COMPONENTS_ALL,
        };
        let r = PipelineDescriptor {
            stages,
            vertex_binding_count: 0,
            vertex_attribute_count: 0,
            topology: Topology::TriangleList,
            polygon_mode: PolygonMode::Fill,
            front_face: FrontFace::CounterClockwise,
            sample_count: 1,
            depth_test: false,
            depth_write: false,
            depth_compare_op: CompareOp::Always,
            stencil_front: noop_stencil,
            stencil_back: noop_stencil,
            color_blend_attachments: vec![attachment],
            logic_op: LogicOp::Clear,
            dynamic_state: vec![DynamicState::Viewport, DynamicState::Scissor],
            push_constant_size: PUSH_CONSTANT_SIZE,
        };
        assert(r.color_blend_attachments@ =~= seq![opaque_attachment()]);
        assert(r.dynamic_state@ =~= seq![DynamicState::Viewport, DynamicState::Scissor]);
        r
    }
}

/// A built pipeline: its handle, its layout, and what it was built from.
#[derive(Debug)]
pub struct Pipeline {
    pub pipeline: u64,
    pub pipeline_layout: u64,
    pub descriptor: PipelineDescriptor,
}

/// A rebuild named a shader module that is not registered.
#[derive(Debug, Clone)]
pub struct UnresolvedShaderModule {
    pub module: String,
}

/// The vertex and fragment stages of one pipeline.
pub type StagePair = (VertexShaderEntryPoint, FragmentShaderEntryPoint);

/// Whether both modules of `pair` are registered.
pub open spec fn pair_resolves(reg: ShaderModuleRegistry, pair: StagePair) -> bool {
    reg.module_of(pair.0.module@) is Some && reg.module_of(pair.1.module@) is Some
}

/// Whether `d` builds the stages of `pair` from the modules registered now.
pub open spec fn describes_pair(reg: ShaderModuleRegistry, pair: StagePair, d: PipelineDescriptor) -> bool {
    &&& reg.module_of(pair.0.module@) == Some(d.stages.vertex_module)
    &&& reg.module_of(pair.1.module@) == Some(d.stages.fragment_module)
    &&& d.stages.vertex_entry@ == pair.0.entry_point@
    &&& d.stages.fragment_entry@ == pair.1.entry_point@
    &&& is_fixed_state(d)
}

/// Whether the error names a module of the set that is not registered.
pub open spec fn names_missing_module(
    reg: ShaderModuleRegistry,
    set: Seq<StagePair>,
    e: UnresolvedShaderModule,
) -> bool {
    exists|i: int|
        0 <= i < set.len() && ((set[i].0.module@ == e.module@ && reg.module_of(e.module@) is None)
            || (set[i].1.module@ == e.module@ && reg.module_of(e.module@) is None))
}

/// Resolves the stages of every pair of `set` against `reg` and describes
/// one pipeline per pair, in order; fails on the first module that is not
/// registered.
pub fn describe_pipelines(reg: &ShaderModuleRegistry, set: &Vec<StagePair>) -> (r: Result<
    Vec<PipelineDescriptor>,
    UnresolvedShaderModule,
>)
    requires
        reg.wf(),
    ensures
        r is Ok <==> (forall|i: int| 0 <= i < set@.len() ==> pair_resolves(*reg, set@[i])),
        r matches Ok(ds) ==> ds@.len() == set@.len() && forall|i: int|
            0 <= i < set@.len() ==> describes_pair(*reg, set@[i], #[trigger] ds@[i]),
        r matches Err(e) ==> names_missing_module(*reg, set@, e),
{
    let mut ds: Vec<PipelineDescriptor> = Vec::new();
    let mut i: usize = 0;
    while i < set.len()
        invariant
            i <= set.len(),
            reg.wf(),
            ds@.len() == i,
            forall|k: int| 0 <= k < i ==> pair_resolves(*reg, set@[k]),
            forall|k: int| 0 <= k < i ==> describes_pair(*reg, set@[k], #[trigger] ds@[k]),
        decreases set.len() - i,
    {
        let (vert, frag) = &set[i];
        let vertex_module = match reg.get(&vert.module) {
            Some(h) => h,
            None => return Err(UnresolvedShaderModule { module: vert.module.clone() }),
        };
        let fragment_module = match reg.get(&frag.module) {
            Some(h) => h,
            None => return Err(UnresolvedShaderModule { module: frag.module.clone() }),
        };
        let stages = PipelineStages {
            vertex_module,
            vertex_entry: vert.entry_point.clone(),
            fragment_module,
            fragment_entry: frag.entry_point.clone(),
        };
        ds.push(PipelineDescriptor::new(stages));
        i += 1;
    }
    Ok(ds)
}

/// Whether `p` is the pipeline built as `handle` with `layout` from `d`.
pub open spec fn built_from(p: Pipeline, handle: u64, layout: u64, d: PipelineDescriptor) -> bool {
    p.pipeline == handle && p.pipeline_layout == layout && p.descriptor == d
}

/// Owns the shader set and the pipelines built from it.
#[derive(Debug)]
pub struct PipelineManager {
    pub shader_set: Vec<StagePair>,
    pub pipelines: Vec<Pipeline>,
}

impl PipelineManager {
    /// A manager with no stages and no pipelines.
    pub fn new() -> (r: PipelineManager)
        ensures
            r.shader_set@.len() == 0,
            r.pipelines@.len() == 0,
    {
        PipelineManager { shader_set: Vec::new(), pipelines: Vec::new() }
    }

    /// Replaces the shader set; the pipelines stay until the next rebuild.
    pub fn set_shader_set(&mut self, set: Vec<StagePair>)
        ensures
            final(self).shader_set@ == set@,
            final(self).pipelines@ == old(self).pipelines@,
    {
        self.shader_set = set;
    }

    /// The descriptors of a rebuild of every pipeline of the shader set
    /// against the modules registered now; nothing changes here, so a failure
    /// leaves the pipelines in use as they are.
    pub fn plan_rebuild(&self, reg: &ShaderModuleRegistry) -> (r: Result<
        Vec<PipelineDescriptor>,
        UnresolvedShaderModule,
    >)
        requires
            reg.wf(),
        ensures
            r is Ok <==> (forall|i: int|
                0 <= i < self.shader_set@.len() ==> pair_resolves(*reg, self.shader_set@[i])),
            r matches Ok(ds) ==> ds@.len() == self.shader_set@.len() && forall|i: int|
                0 <= i < self.shader_set@.len() ==> describes_pair(
                    *reg,
                    self.shader_set@[i],
                    #[trigger] ds@[i],
                ),
            r matches Err(e) ==> names_missing_module(*reg, self.shader_set@, e),
    {
        describe_pipelines(reg, &self.shader_set)
    }

    /// Installs a complete new pipeline set, built in one batch from `descs`
    /// as `handles`, all sharing `layout`. Returns the replaced set, which the
    /// caller destroys.
    pub fn install(&mut self, descs: Vec<PipelineDescriptor>, handles: &Vec<u64>, layout: u64) -> (old_set: Vec<Pipeline>)
        requires
            descs@.len() == handles@.len(),
        ensures
            old_set@ == old(self).pipelines@,
            final(self).shader_set@ == old(self).shader_set@,
            final(self).pipelines@.len() == descs@.len(),
            forall|i: int|
                0 <= i < descs@.len() ==> built_from(
                    #[trigger] final(self).pipelines@[i],
                    handles@[i],
                    layout,
                    descs@[i],
                ),
    {
        let mut built: Vec<Pipeline> = Vec::new();
        let mut descs = descs;
        let ghost all = descs@;
        let mut i: usize = 0;
        while i < handles.len()
            invariant
                all.len() == handles@.len(),
                i <= handles@.len(),
                descs@ == all.subrange(i as int, all.len() as int),
                built@.len() == i,
                forall|k: int| 0 <= k < i ==> built_from(#[trigger] built@[k], handles@[k], layout, all[k]),
            decreases handles.len() - i,
        {
            let d = descs.remove(0);
            assert(descs@ =~= all.subrange(i + 1, all.len() as int));
            built.push(Pipeline { pipeline: handles[i], pipeline_layout: layout, descriptor: d });
            i += 1;
        }
        let mut old_set = built;
        std::mem::swap(&mut old_set, &mut self.pipelines);
        old_set
    }

    /// How many pipelines are in use.
    pub fn len(&self) -> (r: usize)
        ensures
            r == self.pipelines@.len(),
    {
        self.pipelines.len()
    }
}

/// After a rebuild whose descriptors were planned against `reg` and whose
/// pipelines were installed from them, every pipeline uses, for each stage,
/// exactly the module handle registered now under that stage's name, so no
/// replaced handle survives in the new set.
pub proof fn lemma_rebuild_uses_current_modules(
    reg: ShaderModuleRegistry,
    set: Seq<StagePair>,
    descs: Seq<PipelineDescriptor>,
    handles: Seq<u64>,
    layout: u64,
    pipelines: Seq<Pipeline>,
)
    requires
        descs.len() == set.len(),
        forall|i: int| 0 <= i < set.len() ==> describes_pair(reg, set[i], #[trigger] descs[i]),
        pipelines.len() == descs.len(),
        forall|i: int|
            0 <= i < descs.len() ==> built_from(#[trigger] pipelines[i], handles[i], layout, descs[i]),
    ensures
        forall|i: int|
            0 <= i < pipelines.len() ==> {
                &&& reg.module_of(set[i].0.module@) == Some(
                    (#[trigger] pipelines[i]).descriptor.stages.vertex_module,
                )
                &&& reg.module_of(set[i].1.module@) == Some(
                    pipelines[i].descriptor.stages.fragment_module,
                )
            },
{
    assert forall|i: int| 0 <= i < pipelines.len() implies {
        &&& reg.module_of(set[i].0.module@) == Some(
            (#[trigger] pipelines[i]).descriptor.stages.vertex_module,
        )
        &&& reg.module_of(set[i].1.module@) == Some(pipelines[i].descriptor.stages.fragment_module)
    } by {
        assert(describes_pair(reg, set[i], descs[i]));
        assert(built_from(pipelines[i], handles[i], layout, descs[i]));
    }
}

} // verus!
