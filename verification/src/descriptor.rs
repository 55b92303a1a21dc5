//! Plain descriptions of GPU objects.
//!
//! Each type here holds, as ordinary values, what the creation of one GPU
//! object is told. The shell that owns the device turns them into the
//! graphics library's own descriptors field by field.

use vstd::prelude::*;

verus! {

/// How the components of one vertex attribute are stored.
#[derive(Clone, Copy, Debug, PartialEq, Eq, Structural)]
pub enum VertexFormat {
    /// Two 32-bit reals.
    Float2,
    /// Three 32-bit reals.
    Float3,
}

impl VertexFormat {
    /// Number of 32-bit components.
    pub open spec fn spec_components(self) -> nat {
        match self {
            VertexFormat::Float2 => 2,
            VertexFormat::Float3 => 3,
        }
    }

    /// Size in bytes of one attribute in this format.
    pub open spec fn spec_size(self) -> nat {
        4 * self.spec_components()
    }

    /// Size in bytes of one attribute in this format.
    pub fn size(self) -> (bytes: u64)
        ensures
            bytes == self.spec_size(),
    {
        match self {
            VertexFormat::Float2 => 8,
            VertexFormat::Float3 => 12,
        }
    }
}

/// Whether a vertex buffer advances once per vertex or once per instance.
#[derive(Clone, Copy, Debug, PartialEq, Eq, Structural)]
pub enum InputStepMode {
    Vertex,
    Instance,
}

/// One attribute of a vertex: where it starts, how it is stored, and the
/// shader input it feeds.
#[derive(Clone, Copy, Debug, PartialEq, Eq, Structural)]
pub struct VertexAttributeDescriptor {
    /// Offset in bytes from the start of the vertex.
    pub offset: u64,
    pub shader_location: u32,
    pub format: VertexFormat,
}

impl VertexAttributeDescriptor {
    /// One past the last byte of the attribute, counted from the start of the vertex.
    pub open spec fn end(self) -> int {
        self.offset + self.format.spec_size()
    }
}

/// The layout of one vertex buffer.
#[derive(Debug)]
pub struct VertexBufferDescriptor {
    /// Distance in bytes between consecutive vertices.
    pub stride: u64,
    pub step_mode: InputStepMode,
    pub attributes: Vec<VertexAttributeDescriptor>,
}

/// The mathematical content of a [`VertexBufferDescriptor`].
pub struct VertexBufferLayout {
    pub stride: u64,
    pub step_mode: InputStepMode,
    pub attributes: Seq<VertexAttributeDescriptor>,
}

impl View for VertexBufferDescriptor {
    type V = VertexBufferLayout;

    open spec fn view(&self) -> VertexBufferLayout {
        VertexBufferLayout {
            stride: self.stride,
            step_mode: self.step_mode,
            attributes: self.attributes@,
        }
    }
}

impl VertexBufferLayout {
    /// Every attribute lies inside one vertex, no two attributes share a
    /// byte, and no two feed the same shader input.
    pub open spec fn well_formed(self) -> bool {
        &&& forall|i: int|
            0 <= i < self.attributes.len() ==> (#[trigger] self.attributes[i]).end()
                <= self.stride
        &&& forall|i: int, j: int|
            0 <= i < j < self.attributes.len() ==> {
                let a = #[trigger] self.attributes[i];
                let b = #[trigger] self.attributes[j];
                &&& a.shader_location != b.shader_location
                &&& (a.end() <= b.offset || b.end() <= a.offset)
            }
    }

    /// The size in bytes of the first `n` attributes together.
    pub open spec fn size_of_first(self, n: int) -> int
        decreases n,
    {
        if n <= 0 {
            0
        } else {
            self.size_of_first(n - 1) + self.attributes[n - 1].format.spec_size()
        }
    }

    /// The attributes follow one another without gaps, starting at offset 0
    /// and shader input 0, and the stride is the size of all of them.
    pub open spec fn packed(self) -> bool {
        &&& forall|i: int|
            0 <= i < self.attributes.len() ==> {
                &&& (#[trigger] self.attributes[i]).shader_location == i
                &&& self.attributes[i].offset == self.size_of_first(i)
            }
        &&& self.stride == self.size_of_first(self.attributes.len() as int)
    }
}

/// The first attributes of a layout take no more room than a few more of them.
proof fn lemma_size_of_first_grows(layout: VertexBufferLayout, m: int, n: int)
    requires
        0 <= m <= n,
    ensures
        layout.size_of_first(m) <= layout.size_of_first(n),
    decreases n - m,
{
    if m < n {
        lemma_size_of_first_grows(layout, m, n - 1);
    }
}

/// A packed layout is well formed.
pub proof fn lemma_packed_is_well_formed(layout: VertexBufferLayout)
    requires
        layout.packed(),
    ensures
        layout.well_formed(),
{
    let n = layout.attributes.len() as int;
    assert forall|i: int| 0 <= i < n implies (#[trigger] layout.attributes[i]).end()
        <= layout.stride by {
        lemma_size_of_first_grows(layout, i + 1, n);
    }
    assert forall|i: int, j: int| 0 <= i < j < n implies {
        let a = #[trigger] layout.attributes[i];
        let b = #[trigger] layout.attributes[j];
        &&& a.shader_location != b.shader_location
        &&& (a.end() <= b.offset || b.end() <= a.offset)
    } by {
        lemma_size_of_first_grows(layout, i + 1, j);
    }
}

/// Pixel formats of textures and of the swap chain.
#[derive(Clone, Copy, Debug, PartialEq, Eq, Structural)]
pub enum TextureFormat {
    Rgba8Unorm,
    Rgba8UnormSrgb,
    Bgra8Unorm,
    Bgra8UnormSrgb,
}

/// What a texture may be used for.
#[derive(Clone, Copy, Debug, PartialEq, Eq, Structural)]
pub struct TextureUsage {
    pub copy_src: bool,
    pub copy_dst: bool,
    pub sampled: bool,
    pub storage: bool,
    pub output_attachment: bool,
}

/// When the swap chain hands a finished image to the screen.
#[derive(Clone, Copy, Debug, PartialEq, Eq, Structural)]
pub enum PresentMode {
    Immediate,
    Mailbox,
    Fifo,
}

/// The rotating set of images that the window presents.
#[derive(Clone, Copy, Debug, PartialEq, Eq, Structural)]
pub struct SwapChainDescriptor {
    pub usage: TextureUsage,
    pub format: TextureFormat,
    pub width: u32,
    pub height: u32,
    pub present_mode: PresentMode,
}

/// The language stage a shader source is compiled for.
#[derive(Clone, Copy, Debug, PartialEq, Eq, Structural)]
pub enum ShaderType {
    Vertex,
    Fragment,
}

/// One programmable stage of a pipeline: the file its shader is read from,
/// the stage that file is compiled for, and the function the stage starts in.
#[derive(Debug)]
pub struct ProgrammableStageDescriptor {
    pub source: String,
    pub shader_type: ShaderType,
    pub entry_point: String,
}

/// The mathematical content of a [`ProgrammableStageDescriptor`].
pub struct ProgrammableStage {
    pub source: Seq<char>,
    pub shader_type: ShaderType,
    pub entry_point: Seq<char>,
}

impl View for ProgrammableStageDescriptor {
    type V = ProgrammableStage;

    open spec fn view(&self) -> ProgrammableStage {
        ProgrammableStage {
            source: self.source@,
            shader_type: self.shader_type,
            entry_point: self.entry_point@,
        }
    }
}

/// Which winding order marks the front of a triangle.
#[derive(Clone, Copy, Debug, PartialEq, Eq, Structural)]
pub enum FrontFace {
    Ccw,
    Cw,
}

/// Which side of a triangle is discarded.
#[derive(Clone, Copy, Debug, PartialEq, Eq, Structural)]
pub enum CullMode {
    /// Both sides are kept.
    Disabled,
    Front,
    Back,
}

/// How triangles become fragments. The slope scale and the clamp of the
/// depth bias are 32-bit reals, held by their bit patterns.
#[derive(Clone, Copy, Debug, PartialEq, Eq, Structural)]
pub struct RasterizationStateDescriptor {
    pub front_face: FrontFace,
    pub cull_mode: CullMode,
    pub depth_bias: i32,
    pub depth_bias_slope_scale: u32,
    pub depth_bias_clamp: u32,
}

/// A factor of the blend equation.
#[derive(Clone, Copy, Debug, PartialEq, Eq, Structural)]
pub enum BlendFactor {
    Zero,
    One,
    SrcColor,
    OneMinusSrcColor,
    SrcAlpha,
    OneMinusSrcAlpha,
    DstColor,
    OneMinusDstColor,
    DstAlpha,
    OneMinusDstAlpha,
    SrcAlphaSaturated,
    BlendColor,
    OneMinusBlendColor,
}

/// The operator of the blend equation.
#[derive(Clone, Copy, Debug, PartialEq, Eq, Structural)]
pub enum BlendOperation {
    Add,
    Subtract,
    ReverseSubtract,
    Min,
    Max,
}

/// How a fragment's value is combined with the value already in the target.
#[derive(Clone, Copy, Debug, PartialEq, Eq, Structural)]
pub struct BlendDescriptor {
    pub src_factor: BlendFactor,
    pub dst_factor: BlendFactor,
    pub operation: BlendOperation,
}

impl BlendDescriptor {
    /// The blend that overwrites the target with the fragment.
    pub open spec fn spec_replace() -> BlendDescriptor {
        BlendDescriptor {
            src_factor: BlendFactor::One,
            dst_factor: BlendFactor::Zero,
            operation: BlendOperation::Add,
        }
    }

    /// The blend that overwrites the target with the fragment.
    pub fn replace() -> (blend: BlendDescriptor)
        ensures
            blend == Self::spec_replace(),
    {
        BlendDescriptor {
            src_factor: BlendFactor::One,
            dst_factor: BlendFactor::Zero,
            operation: BlendOperation::Add,
        }
    }
}

/// The colour channels a pipeline writes.
#[derive(Clone, Copy, Debug, PartialEq, Eq, Structural)]
pub struct ColorWrite {
    pub red: bool,
    pub green: bool,
    pub blue: bool,
    pub alpha: bool,
}

impl ColorWrite {
    /// All four channels.
    pub open spec fn spec_all() -> ColorWrite {
        ColorWrite { red: true, green: true, blue: true, alpha: true }
    }

    /// All four channels.
    pub fn all() -> (mask: ColorWrite)
        ensures
            mask == Self::spec_all(),
    {
        ColorWrite { red: true, green: true, blue: true, alpha: true }
    }
}

/// What a pipeline does to one colour target.
#[derive(Clone, Copy, Debug, PartialEq, Eq, Structural)]
pub struct ColorStateDescriptor {
    pub format: TextureFormat,
    pub color_blend: BlendDescriptor,
    pub alpha_blend: BlendDescriptor,
    pub write_mask: ColorWrite,
}

/// Width of the entries of an index buffer.
#[derive(Clone, Copy, Debug, PartialEq, Eq, Structural)]
pub enum IndexFormat {
    Uint16,
    Uint32,
}

/// How consecutive vertices form primitives.
#[derive(Clone, Copy, Debug, PartialEq, Eq, Structural)]
pub enum PrimitiveTopology {
    PointList,
    LineList,
    LineStrip,
    TriangleList,
    TriangleStrip,
}

/// The vertex input of a pipeline.
#[derive(Debug)]
pub struct VertexStateDescriptor {
    pub index_format: IndexFormat,
    pub vertex_buffers: Vec<VertexBufferDescriptor>,
}

/// The mathematical content of a [`VertexStateDescriptor`].
pub struct VertexState {
    pub index_format: IndexFormat,
    pub vertex_buffers: Seq<VertexBufferLayout>,
}

impl View for VertexStateDescriptor {
    type V = VertexState;

    open spec fn view(&self) -> VertexState {
        VertexState {
            index_format: self.index_format,
            vertex_buffers: self.vertex_buffers@.map_values(|d: VertexBufferDescriptor| d@),
        }
    }
}

/// Everything a render pipeline is created from.
#[derive(Debug)]
pub struct RenderPipelineDescriptor {
    /// Number of bind group layouts in the pipeline layout.
    pub bind_group_layouts: u32,
    pub vertex_stage: ProgrammableStageDescriptor,
    pub fragment_stage: Option<ProgrammableStageDescriptor>,
    pub rasterization_state: Option<RasterizationStateDescriptor>,
    pub primitive_topology: PrimitiveTopology,
    pub color_states: Vec<ColorStateDescriptor>,
    /// Whether the pipeline has a depth and stencil target.
    pub depth_stencil_state: bool,
    pub vertex_state: VertexStateDescriptor,
    pub sample_count: u32,
    pub sample_mask: u32,
    pub alpha_to_coverage_enabled: bool,
}

/// The mathematical content of a [`RenderPipelineDescriptor`].
pub struct RenderPipeline {
    pub bind_group_layouts: u32,
    pub vertex_stage: ProgrammableStage,
    pub fragment_stage: Option<ProgrammableStage>,
    pub rasterization_state: Option<RasterizationStateDescriptor>,
    pub primitive_topology: PrimitiveTopology,
    pub color_states: Seq<ColorStateDescriptor>,
    pub depth_stencil_state: bool,
    pub vertex_state: VertexState,
    pub sample_count: u32,
    pub sample_mask: u32,
    pub alpha_to_coverage_enabled: bool,
}

impl View for RenderPipelineDescriptor {
    type V = RenderPipeline;

    open spec fn view(&self) -> RenderPipeline {
        RenderPipeline {
            bind_group_layouts: self.bind_group_layouts,
            vertex_stage: self.vertex_stage@,
            fragment_stage: match self.fragment_stage {
                Some(stage) => Some(stage@),
                None => None,
            },
            rasterization_state: self.rasterization_state,
            primitive_topology: self.primitive_topology,
            color_states: self.color_states@,
            depth_stencil_state: self.depth_stencil_state,
            vertex_state: self.vertex_state@,
            sample_count: self.sample_count,
            sample_mask: self.sample_mask,
            alpha_to_coverage_enabled: self.alpha_to_coverage_enabled,
        }
    }
}

/// What happens to a colour target at the start of a render pass.
#[derive(Clone, Copy, Debug, PartialEq, Eq, Structural)]
pub enum LoadOp {
    Clear,
    Load,
}

/// What happens to a colour target at the end of a render pass.
#[derive(Clone, Copy, Debug, PartialEq, Eq, Structural)]
pub enum StoreOp {
    Clear,
    Store,
}

/// A colour as red, green, blue and alpha, each a 32-bit real held by its
/// bit pattern.
#[derive(Clone, Copy, Debug, PartialEq, Eq, Structural)]
pub struct Color {
    pub r: u32,
    pub g: u32,
    pub b: u32,
    pub a: u32,
}

/// The colour target of a render pass. The target itself is the image the
/// swap chain hands out for the frame.
#[derive(Clone, Copy, Debug, PartialEq, Eq, Structural)]
pub struct RenderPassColorAttachmentDescriptor {
    /// Whether the pass resolves into a second target.
    pub resolve_target: bool,
    pub load_op: LoadOp,
    pub store_op: StoreOp,
    pub clear_color: Color,
}

/// The targets of a render pass.
#[derive(Debug)]
pub struct RenderPassDescriptor {
    pub color_attachments: Vec<RenderPassColorAttachmentDescriptor>,
    /// Whether the pass has a depth and stencil target.
    pub depth_stencil_attachment: bool,
}

/// The mathematical content of a [`RenderPassDescriptor`].
pub struct RenderPassTargets {
    pub color_attachments: Seq<RenderPassColorAttachmentDescriptor>,
    pub depth_stencil_attachment: bool,
}

impl View for RenderPassDescriptor {
    type V = RenderPassTargets;

    open spec fn view(&self) -> RenderPassTargets {
        RenderPassTargets {
            color_attachments: self.color_attachments@,
            depth_stencil_attachment: self.depth_stencil_attachment,
        }
    }
}

/// The extent of a texture or of a copy, in texels.
#[derive(Clone, Copy, Debug, PartialEq, Eq, Structural)]
pub struct Extent3d {
    pub width: u32,
    pub height: u32,
    pub depth: u32,
}

/// A texel position inside a texture.
#[derive(Clone, Copy, Debug, PartialEq, Eq, Structural)]
pub struct Origin3d {
    pub x: u32,
    pub y: u32,
    pub z: u32,
}

/// Number of dimensions of a texture.
#[derive(Clone, Copy, Debug, PartialEq, Eq, Structural)]
pub enum TextureDimension {
    D1,
    D2,
    D3,
}

/// Everything a texture is created from.
#[derive(Clone, Copy, Debug, PartialEq, Eq, Structural)]
pub struct TextureDescriptor {
    pub size: Extent3d,
    pub array_layer_count: u32,
    pub mip_level_count: u32,
    pub sample_count: u32,
    pub dimension: TextureDimension,
    pub format: TextureFormat,
    pub usage: TextureUsage,
}

/// What a buffer may be used for.
#[derive(Clone, Copy, Debug, PartialEq, Eq, Structural)]
pub struct BufferUsage {
    pub map_read: bool,
    pub map_write: bool,
    pub copy_src: bool,
    pub copy_dst: bool,
    pub index: bool,
    pub vertex: bool,
    pub uniform: bool,
    pub storage: bool,
    pub indirect: bool,
}

/// The buffer side of a copy between a buffer and a texture.
#[derive(Clone, Copy, Debug, PartialEq, Eq, Structural)]
pub struct BufferCopyView {
    /// Offset in bytes from the start of the buffer.
    pub offset: u64,
    /// Size in bytes of one row of texels.
    pub bytes_per_row: u32,
    /// Number of rows that make up one image.
    pub rows_per_image: u32,
}

/// The texture side of a copy between a buffer and a texture.
#[derive(Clone, Copy, Debug, PartialEq, Eq, Structural)]
pub struct TextureCopyView {
    pub mip_level: u32,
    pub array_layer: u32,
    pub origin: Origin3d,
}

/// What a sampler returns outside the unit square.
#[derive(Clone, Copy, Debug, PartialEq, Eq, Structural)]
pub enum AddressMode {
    ClampToEdge,
    Repeat,
    MirrorRepeat,
}

/// How a sampler picks between neighbouring texels.
#[derive(Clone, Copy, Debug, PartialEq, Eq, Structural)]
pub enum FilterMode {
    Nearest,
    Linear,
}

/// A comparison between a sampled value and a reference.
#[derive(Clone, Copy, Debug, PartialEq, Eq, Structural)]
pub enum CompareFunction {
    Never,
    Less,
    Equal,
    LessEqual,
    Greater,
    NotEqual,
    GreaterEqual,
    Always,
}

/// Everything a sampler is created from. The two level-of-detail bounds are
/// 32-bit reals, held by their bit patterns.
#[derive(Clone, Copy, Debug, PartialEq, Eq, Structural)]
pub struct SamplerDescriptor {
    pub address_mode_u: AddressMode,
    pub address_mode_v: AddressMode,
    pub address_mode_w: AddressMode,
    pub mag_filter: FilterMode,
    pub min_filter: FilterMode,
    pub mipmap_filter: FilterMode,
    pub lod_min_clamp: u32,
    pub lod_max_clamp: u32,
    pub compare_function: CompareFunction,
}

/// The shader stages that see a binding.
#[derive(Clone, Copy, Debug, PartialEq, Eq, Structural)]
pub struct ShaderStage {
    pub vertex: bool,
    pub fragment: bool,
    pub compute: bool,
}

/// How a shader addresses a texture.
#[derive(Clone, Copy, Debug, PartialEq, Eq, Structural)]
pub enum TextureViewDimension {
    D1,
    D2,
    D2Array,
    Cube,
    CubeArray,
    D3,
}

/// The kind of resource a binding slot takes.
#[derive(Clone, Copy, Debug, PartialEq, Eq, Structural)]
pub enum BindingType {
    Sampler,
    SampledTexture { multisampled: bool, dimension: TextureViewDimension },
}

/// One slot of a bind group layout.
#[derive(Clone, Copy, Debug, PartialEq, Eq, Structural)]
pub struct BindGroupLayoutEntry {
    pub binding: u32,
    pub visibility: ShaderStage,
    pub ty: BindingType,
}

/// A resource that fills a binding slot.
#[derive(Clone, Copy, Debug, PartialEq, Eq, Structural)]
pub enum BindingResource {
    Sampler,
    TextureView,
}

impl BindingResource {
    /// Whether a slot of type `ty` takes this resource.
    pub open spec fn fits(self, ty: BindingType) -> bool {
        match self {
            BindingResource::Sampler => ty is Sampler,
            BindingResource::TextureView => ty is SampledTexture,
        }
    }
}

/// A resource together with the slot it is bound to.
#[derive(Clone, Copy, Debug, PartialEq, Eq, Structural)]
pub struct Binding {
    pub binding: u32,
    pub resource: BindingResource,
}

} // verus!
