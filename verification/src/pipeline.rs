//! The static description of a graphics pipeline, and the one pipeline that
//! draws the triangle.
//!
//! A description is plain data: which shader stages run, how one vertex is laid
//! out in the vertex buffer, how primitives are assembled and what the colour
//! target looks like. Once built it is never changed; the device compiles it
//! into a pipeline object that is reached through a handle.

use vstd::prelude::*;
use crate::vertex::triangle;

verus! {

/// Label under which the triangle pipeline is created.
pub const PIPELINE_LABEL: &'static str = "my_render_pipeline";

/// Path of the shader source that provides both stages.
pub const SHADER_PATH: &'static str = "shader.wgsl";

/// Entry point of the vertex stage.
pub const VERTEX_ENTRY_POINT: &'static str = "vertex";

/// Entry point of the fragment stage.
pub const FRAGMENT_ENTRY_POINT: &'static str = "fragment";

/// Bytes between two consecutive vertices: two 32-bit floats.
pub const VERTEX_STRIDE: u64 = 8;

/// Write mask that enables all four colour channels.
pub const COLOR_WRITES_ALL: u32 = 0xF;

/// Sample mask that enables every sample.
pub const SAMPLE_MASK_ALL: u64 = 0xFFFF_FFFF_FFFF_FFFF;

/// How one vertex attribute is stored: a number of 32-bit float components.
#[derive(Clone, Copy, Debug, PartialEq, Eq, Structural)]
pub enum VertexFormat {
    Float32,
    Float32x2,
    Float32x3,
    Float32x4,
}

impl VertexFormat {
    /// Number of float components of the format.
    pub open spec fn spec_components(self) -> nat {
        match self {
            VertexFormat::Float32 => 1,
            VertexFormat::Float32x2 => 2,
            VertexFormat::Float32x3 => 3,
            VertexFormat::Float32x4 => 4,
        }
    }

    /// Size of the format in bytes: four per component.
    pub open spec fn spec_size(self) -> nat {
        4 * self.spec_components()
    }

    /// Number of float components of the format.
    pub fn components(self) -> (n: u64)
        ensures
            n == self.spec_components(),
    {
        match self {
            VertexFormat::Float32 => 1,
            VertexFormat::Float32x2 => 2,
            VertexFormat::Float32x3 => 3,
            VertexFormat::Float32x4 => 4,
        }
    }

    /// Size of the format in bytes.
    pub fn size(self) -> (n: u64)
        ensures
            n == self.spec_size(),
    {
        4 * self.components()
    }
}

/// Whether the vertex buffer advances once per vertex or once per instance.
#[derive(Clone, Copy, Debug, PartialEq, Eq, Structural)]
pub enum VertexStepMode {
    Vertex,
    Instance,
}

/// One input of the vertex stage: where it lies inside a vertex and which
/// shader location reads it.
#[derive(Clone, Copy, Debug, PartialEq, Eq, Structural)]
pub struct VertexAttribute {
    pub format: VertexFormat,
    pub offset: u64,
    pub shader_location: u32,
}

impl VertexAttribute {
    /// The attribute lies wholly inside a vertex of `stride` bytes.
    pub open spec fn fits(self, stride: u64) -> bool {
        self.offset + self.format.spec_size() <= stride
    }
}

/// How primitives are assembled from the vertex stream.
#[derive(Clone, Copy, Debug, PartialEq, Eq, Structural)]
pub enum PrimitiveTopology {
    PointList,
    LineList,
    LineStrip,
    TriangleList,
    TriangleStrip,
}

impl PrimitiveTopology {
    /// Number of primitives that a draw of `vertex_count` vertices assembles:
    /// every vertex is a point, every two a line, every three a triangle, and
    /// in a strip every vertex after the first one or two closes another line
    /// or triangle.
    pub open spec fn spec_primitive_count(self, vertex_count: nat) -> nat {
        match self {
            PrimitiveTopology::PointList => vertex_count,
            PrimitiveTopology::LineList => vertex_count / 2,
            PrimitiveTopology::LineStrip => if vertex_count >= 2 {
                (vertex_count - 1) as nat
            } else {
                0
            },
            PrimitiveTopology::TriangleList => vertex_count / 3,
            PrimitiveTopology::TriangleStrip => if vertex_count >= 3 {
                (vertex_count - 2) as nat
            } else {
                0
            },
        }
    }

    /// Number of primitives that a draw of `vertex_count` vertices assembles.
    pub fn primitive_count(self, vertex_count: u32) -> (n: u32)
        ensures
            n == self.spec_primitive_count(vertex_count as nat),
    {
        match self {
            PrimitiveTopology::PointList => vertex_count,
            PrimitiveTopology::LineList => vertex_count / 2,
            PrimitiveTopology::LineStrip => if vertex_count >= 2 {
                vertex_count - 1
            } else {
                0
            },
            PrimitiveTopology::TriangleList => vertex_count / 3,
            PrimitiveTopology::TriangleStrip => if vertex_count >= 3 {
                vertex_count - 2
            } else {
                0
            },
        }
    }
}

/// Texel format of a colour target.
#[derive(Clone, Copy, Debug, PartialEq, Eq, Structural)]
pub enum TextureFormat {
    Rgba8Unorm,
    Rgba8UnormSrgb,
    Bgra8Unorm,
    Bgra8UnormSrgb,
}

/// How the fragment output is combined with what the target already holds.
#[derive(Clone, Copy, Debug, PartialEq, Eq, Structural)]
pub enum BlendMode {
    /// The fragment output overwrites the target.
    Replace,
    /// Standard alpha blending.
    AlphaBlending,
    /// Alpha blending of premultiplied colours.
    PremultipliedAlphaBlending,
}

/// The colour target that the fragment stage writes.
#[derive(Clone, Copy, Debug, PartialEq, Eq, Structural)]
pub struct ColorTarget {
    pub format: TextureFormat,
    pub blend: BlendMode,
    pub write_mask: u32,
}

/// Multisampling of the pipeline.
#[derive(Clone, Copy, Debug, PartialEq, Eq, Structural)]
pub struct MultisampleState {
    pub count: u32,
    pub mask: u64,
    pub alpha_to_coverage_enabled: bool,
}

/// Layout of the vertex buffer as the vertex stage reads it.
#[derive(Clone, Debug, PartialEq, Eq)]
pub struct VertexBufferLayout {
    pub array_stride: u64,
    pub step_mode: VertexStepMode,
    pub attributes: Vec<VertexAttribute>,
}

/// Mathematical value of a [`VertexBufferLayout`].
pub struct VertexLayoutModel {
    pub array_stride: u64,
    pub step_mode: VertexStepMode,
    pub attributes: Seq<VertexAttribute>,
}

impl VertexLayoutModel {
    /// Every attribute lies inside one vertex, and no two attributes feed the
    /// same shader location.
    pub open spec fn wf(self) -> bool {
        &&& forall|i: int|
            0 <= i < self.attributes.len() ==> (#[trigger] self.attributes[i]).fits(
                self.array_stride,
            )
        &&& forall|i: int, j: int|
            0 <= i < j < self.attributes.len() ==> (#[trigger] self.attributes[i]).shader_location
                != (#[trigger] self.attributes[j]).shader_location
    }

    /// Both layouts have the same stride, step mode and attribute list.
    pub open spec fn same(self, other: VertexLayoutModel) -> bool {
        &&& self.array_stride == other.array_stride
        &&& self.step_mode == other.step_mode
        &&& self.attributes =~= other.attributes
    }
}

impl View for VertexBufferLayout {
    type V = VertexLayoutModel;

    open spec fn view(&self) -> VertexLayoutModel {
        VertexLayoutModel {
            array_stride: self.array_stride,
            step_mode: self.step_mode,
            attributes: self.attributes@,
        }
    }
}

impl VertexBufferLayout {
    /// Decides whether the layout is well formed.
    pub fn is_valid(&self) -> (ok: bool)
        ensures
            ok == self@.wf(),
    {
        let n = self.attributes.len();
        let mut i: usize = 0;
        while i < n
            invariant
                n == self.attributes@.len(),
                i <= n,
                forall|k: int|
                    0 <= k < i ==> (#[trigger] self.attributes@[k]).fits(self.array_stride),
                forall|k: int, l: int|
                    0 <= k < l < i ==> (#[trigger] self.attributes@[k]).shader_location != (
                    #[trigger] self.attributes@[l]).shader_location,
            decreases n - i,
        {
            let a = self.attributes[i];
            if a.offset > self.array_stride || self.array_stride - a.offset < a.format.size() {
                return false;
            }
            let mut j: usize = 0;
            while j < i
                invariant
                    n == self.attributes@.len(),
                    i < n,
                    j <= i,
                    a == self.attributes@[i as int],
                    forall|k: int|
                        0 <= k < j ==> (#[trigger] self.attributes@[k]).shader_location
                            != a.shader_location,
                decreases i - j,
            {
                if self.attributes[j].shader_location == a.shader_location {
                    return false;
                }
                j += 1;
            }
            i += 1;
        }
        true
    }

    /// Decides whether two layouts describe the same vertex input.
    pub fn same(&self, other: &VertexBufferLayout) -> (r: bool)
        ensures
            r == self@.same(other@),
    {
        if self.array_stride != other.array_stride || self.step_mode != other.step_mode {
            return false;
        }
        let n = self.attributes.len();
        if other.attributes.len() != n {
            return false;
        }
        let mut i: usize = 0;
        while i < n
            invariant
                n == self.attributes@.len(),
                n == other.attributes@.len(),
                i <= n,
                forall|k: int| 0 <= k < i ==> self.attributes@[k] == other.attributes@[k],
            decreases n - i,
        {
            if self.attributes[i] != other.attributes[i] {
                return false;
            }
            i += 1;
        }
        true
    }
}

/// Everything the device needs to compile a pipeline.
#[derive(Clone, Debug, PartialEq, Eq)]
pub struct PipelineDescriptor {
    pub label: &'static str,
    /// Shader source that holds both entry points.
    pub shader: &'static str,
    pub vertex_entry_point: &'static str,
    pub fragment_entry_point: &'static str,
    pub vertex_layout: VertexBufferLayout,
    pub topology: PrimitiveTopology,
    pub target: ColorTarget,
    pub multisample: MultisampleState,
}

/// Mathematical value of a [`PipelineDescriptor`].
pub struct PipelineModel {
    pub label: Seq<char>,
    pub shader: Seq<char>,
    pub vertex_entry_point: Seq<char>,
    pub fragment_entry_point: Seq<char>,
    pub vertex_layout: VertexLayoutModel,
    pub topology: PrimitiveTopology,
    pub target: ColorTarget,
    pub multisample: MultisampleState,
}

impl PipelineModel {
    /// The vertex layout is well formed and at least one sample is taken.
    pub open spec fn wf(self) -> bool {
        &&& self.vertex_layout.wf()
        &&& self.multisample.count >= 1
    }

    /// Two descriptions are functionally equivalent when they agree on the
    /// vertex layout, the topology and the format of the colour target.
    pub open spec fn equivalent(self, other: PipelineModel) -> bool {
        &&& self.vertex_layout.same(other.vertex_layout)
        &&& self.topology == other.topology
        &&& self.target.format == other.target.format
    }
}

impl View for PipelineDescriptor {
    type V = PipelineModel;

    open spec fn view(&self) -> PipelineModel {
        PipelineModel {
            label: self.label@,
            shader: self.shader@,
            vertex_entry_point: self.vertex_entry_point@,
            fragment_entry_point: self.fragment_entry_point@,
            vertex_layout: self.vertex_layout@,
            topology: self.topology,
            target: self.target,
            multisample: self.multisample,
        }
    }
}

impl PipelineDescriptor {
    /// Decides whether the description is well formed.
    pub fn is_valid(&self) -> (ok: bool)
        ensures
            ok == self@.wf(),
    {
        self.vertex_layout.is_valid() && self.multisample.count >= 1
    }

    /// Decides whether two descriptions are functionally equivalent.
    pub fn equivalent(&self, other: &PipelineDescriptor) -> (r: bool)
        ensures
            r == self@.equivalent(other@),
    {
        self.vertex_layout.same(&other.vertex_layout) && self.topology == other.topology
            && self.target.format == other.target.format
    }
}

/// The one attribute of the triangle's vertices: a two-component position at
/// the start of the vertex, read at shader location 0.
pub open spec fn position_attribute() -> VertexAttribute {
    VertexAttribute { format: VertexFormat::Float32x2, offset: 0, shader_location: 0 }
}

/// Vertex layout of the triangle: one position per vertex, eight bytes apart.
pub open spec fn triangle_vertex_layout() -> VertexLayoutModel {
    VertexLayoutModel {
        array_stride: VERTEX_STRIDE,
        step_mode: VertexStepMode::Vertex,
        attributes: seq![position_attribute()],
    }
}

/// The description of the triangle pipeline for a colour target of the given
/// format: a triangle strip of two-float positions, written without blending
/// to all channels of the target, one sample per pixel.
pub open spec fn triangle_pipeline_model(format: TextureFormat) -> PipelineModel {
    PipelineModel {
        label: PIPELINE_LABEL@,
        shader: SHADER_PATH@,
        vertex_entry_point: VERTEX_ENTRY_POINT@,
        fragment_entry_point: FRAGMENT_ENTRY_POINT@,
        vertex_layout: triangle_vertex_layout(),
        topology: PrimitiveTopology::TriangleStrip,
        target: ColorTarget {
            format,
            blend: BlendMode::Replace,
            write_mask: COLOR_WRITES_ALL,
        },
        multisample: MultisampleState {
            count: 1,
            mask: SAMPLE_MASK_ALL,
            alpha_to_coverage_enabled: false,
        },
    }
}

/// Builds the description of the triangle pipeline for a colour target of the
/// given format.
pub fn triangle_pipeline(format: TextureFormat) -> (d: PipelineDescriptor)
    ensures
        d@ == triangle_pipeline_model(format),
        d@.wf(),
{
    let mut attributes: Vec<VertexAttribute> = Vec::new();
    attributes.push(
        VertexAttribute { format: VertexFormat::Float32x2, offset: 0, shader_location: 0 },
    );
    let d = PipelineDescriptor {
        label: PIPELINE_LABEL,
        shader: SHADER_PATH,
        vertex_entry_point: VERTEX_ENTRY_POINT,
        fragment_entry_point: FRAGMENT_ENTRY_POINT,
        vertex_layout: VertexBufferLayout {
            array_stride: VERTEX_STRIDE,
            step_mode: VertexStepMode::Vertex,
            attributes,
        },
        topology: PrimitiveTopology::TriangleStrip,
        target: ColorTarget {
            format,
            blend: BlendMode::Replace,
            write_mask: COLOR_WRITES_ALL,
        },
        multisample: MultisampleState {
            count: 1,
            mask: SAMPLE_MASK_ALL,
            alpha_to_coverage_enabled: false,
        },
    };
    proof {
        lemma_triangle_pipeline_wf(format);
    }
    d
}

/// The triangle pipeline is well formed for every target format.
pub proof fn lemma_triangle_pipeline_wf(format: TextureFormat)
    ensures
        triangle_pipeline_model(format).wf(),
{
    let layout = triangle_vertex_layout();
}

/// Drawn with the triangle pipeline, the three vertices of the triangle make
/// exactly one primitive.
pub proof fn lemma_triangle_is_one_primitive(format: TextureFormat)
    ensures
        triangle().len() == 3,
        triangle_pipeline_model(format).topology.spec_primitive_count(triangle().len()) == 1,
{
}

/// Functional equivalence is reflexive, symmetric and transitive.
pub proof fn lemma_equivalent_is_equivalence(a: PipelineModel, b: PipelineModel, c: PipelineModel)
    ensures
        a.equivalent(a),
        a.equivalent(b) ==> b.equivalent(a),
        a.equivalent(b) && b.equivalent(c) ==> a.equivalent(c),
{
}

/// Building is repeatable: two descriptions built for the same target format
/// are equal, and so functionally equivalent; descriptions built for different
/// formats are not equivalent.
pub proof fn lemma_build_is_repeatable(
    first: PipelineModel,
    second: PipelineModel,
    format_first: TextureFormat,
    format_second: TextureFormat,
)
    requires
        first == triangle_pipeline_model(format_first),
        second == triangle_pipeline_model(format_second),
    ensures
        format_first == format_second ==> first == second,
        first.equivalent(second) <==> format_first == format_second,
{
}

} // verus!
