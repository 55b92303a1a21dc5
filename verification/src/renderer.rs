//! The renderer's own state and the work of one frame.
//!
//! The renderer here keeps what the frames depend on: the size of the
//! surface, the swap chain that matches it, and the background colour. A
//! frame is returned as a [`RenderPass`]: the targets to begin the pass with
//! and the commands to record into it. The shell acquires the next image
//! of the swap chain, records the pass against it and submits it.

use crate::descriptor::{
    Color, LoadOp, PresentMode, RenderPassColorAttachmentDescriptor, RenderPassDescriptor,
    RenderPassTargets, RenderPipelineDescriptor, StoreOp, SwapChainDescriptor, TextureFormat,
    TextureUsage, VertexBufferDescriptor,
};
use crate::objects::cube::Cube;
use crate::renderer::pipeline::pipeline_for;
use vstd::prelude::*;

pub mod pipeline;
pub mod texture;

verus! {

/// A size in physical pixels.
#[derive(Clone, Copy, Debug, PartialEq, Eq, Structural)]
pub struct PhysicalSize {
    pub width: u32,
    pub height: u32,
}

/// One command recorded into a render pass. Pipeline and buffers are those
/// of the object that is being drawn.
#[derive(Clone, Copy, Debug, PartialEq, Eq, Structural)]
pub enum RenderCommand {
    SetPipeline,
    /// Binds the vertex buffer to `slot`, from `offset` on. A `size` of 0
    /// takes the rest of the buffer.
    SetVertexBuffer { slot: u32, offset: u64, size: u64 },
    /// Binds the index buffer, from `offset` on. A `size` of 0 takes the
    /// rest of the buffer.
    SetIndexBuffer { offset: u64, size: u64 },
    /// Draws the indices from `first_index` up to, not including,
    /// `end_index`, for the instances from `first_instance` up to, not
    /// including, `end_instance`.
    DrawIndexed {
        first_index: u32,
        end_index: u32,
        base_vertex: i32,
        first_instance: u32,
        end_instance: u32,
    },
}

/// A render pass: its targets and the commands recorded into it so far.
#[derive(Debug)]
pub struct RenderPass {
    descriptor: RenderPassDescriptor,
    commands: Vec<RenderCommand>,
}

/// The mathematical content of a [`RenderPass`].
pub struct RenderPassRecord {
    pub targets: RenderPassTargets,
    pub commands: Seq<RenderCommand>,
}

impl View for RenderPass {
    type V = RenderPassRecord;

    closed spec fn view(&self) -> RenderPassRecord {
        RenderPassRecord { targets: self.descriptor@, commands: self.commands@ }
    }
}

impl RenderPass {
    /// The targets the pass began with.
    pub fn descriptor(&self) -> (descriptor: &RenderPassDescriptor)
        ensures
            descriptor@ == self@.targets,
    {
        &self.descriptor
    }

    /// The commands recorded so far, oldest first.
    pub fn commands(&self) -> (commands: &Vec<RenderCommand>)
        ensures
            commands@ == self@.commands,
    {
        &self.commands
    }

    /// Records the use of the object's pipeline.
    pub fn set_pipeline(&mut self)
        ensures
            final(self)@.targets == old(self)@.targets,
            final(self)@.commands == old(self)@.commands.push(RenderCommand::SetPipeline),
    {
        self.commands.push(RenderCommand::SetPipeline);
    }

    /// Records the binding of the object's vertex buffer.
    pub fn set_vertex_buffer(&mut self, slot: u32, offset: u64, size: u64)
        ensures
            final(self)@.targets == old(self)@.targets,
            final(self)@.commands == old(self)@.commands.push(
                RenderCommand::SetVertexBuffer { slot, offset, size },
            ),
    {
        self.commands.push(RenderCommand::SetVertexBuffer { slot, offset, size });
    }

    /// Records the binding of the object's index buffer.
    pub fn set_index_buffer(&mut self, offset: u64, size: u64)
        ensures
            final(self)@.targets == old(self)@.targets,
            final(self)@.commands == old(self)@.commands.push(
                RenderCommand::SetIndexBuffer { offset, size },
            ),
    {
        self.commands.push(RenderCommand::SetIndexBuffer { offset, size });
    }

    /// Records an indexed draw.
    pub fn draw_indexed(
        &mut self,
        first_index: u32,
        end_index: u32,
        base_vertex: i32,
        first_instance: u32,
        end_instance: u32,
    )
        ensures
            final(self)@.targets == old(self)@.targets,
            final(self)@.commands == old(self)@.commands.push(
                RenderCommand::DrawIndexed {
                    first_index,
                    end_index,
                    base_vertex,
                    first_instance,
                    end_instance,
                },
            ),
    {
        self.commands.push(
            RenderCommand::DrawIndexed {
                first_index,
                end_index,
                base_vertex,
                first_instance,
                end_instance,
            },
        );
    }
}

/// The swap chain of a surface of the given size: sRGB images that are
/// rendered to and presented without waiting.
pub open spec fn swap_chain_for(size: PhysicalSize) -> SwapChainDescriptor {
    SwapChainDescriptor {
        usage: TextureUsage {
            copy_src: false,
            copy_dst: false,
            sampled: false,
            storage: false,
            output_attachment: true,
        },
        format: TextureFormat::Bgra8UnormSrgb,
        width: size.width,
        height: size.height,
        present_mode: PresentMode::Immediate,
    }
}

/// The targets of a frame: the swap chain image alone, cleared to
/// `bg_color` at the start and stored at the end.
pub open spec fn clear_pass(bg_color: Color) -> RenderPassTargets {
    RenderPassTargets {
        color_attachments: seq![
            RenderPassColorAttachmentDescriptor {
                resolve_target: false,
                load_op: LoadOp::Clear,
                store_op: StoreOp::Store,
                clear_color: bg_color,
            },
        ],
        depth_stencil_attachment: false,
    }
}

/// The commands that draw an object of `num_indices` indices once: its
/// pipeline, its whole vertex buffer in slot 0, its whole index buffer, and
/// one instance of all its indices.
pub open spec fn draw_commands(num_indices: u32) -> Seq<RenderCommand> {
    seq![
        RenderCommand::SetPipeline,
        RenderCommand::SetVertexBuffer { slot: 0, offset: 0, size: 0 },
        RenderCommand::SetIndexBuffer { offset: 0, size: 0 },
        RenderCommand::DrawIndexed {
            first_index: 0,
            end_index: num_indices,
            base_vertex: 0,
            first_instance: 0,
            end_instance: 1,
        },
    ]
}

/// What the frames of a window depend on.
#[derive(Debug)]
pub struct Renderer {
    sc_desc: SwapChainDescriptor,
    size: PhysicalSize,
    bg_color: Color,
}

impl Renderer {
    /// The swap chain always has the size of the surface.
    #[verifier::type_invariant]
    pub open spec fn swap_chain_fits(self) -> bool {
        self.spec_sc_desc() == swap_chain_for(self.spec_size())
    }

    /// The swap chain that matches the surface.
    pub closed spec fn spec_sc_desc(&self) -> SwapChainDescriptor {
        self.sc_desc
    }

    /// The size of the surface.
    pub closed spec fn spec_size(&self) -> PhysicalSize {
        self.size
    }

    /// The colour every frame is cleared to.
    pub closed spec fn spec_bg_color(&self) -> Color {
        self.bg_color
    }

    /// A renderer for a surface of `size` that clears to `bg_color`, given
    /// as red, green, blue and alpha.
    pub fn new(size: PhysicalSize, bg_color: [u32; 4]) -> (renderer: Self)
        ensures
            renderer.spec_size() == size,
            renderer.spec_sc_desc() == swap_chain_for(size),
            renderer.spec_bg_color() == (Color {
                r: bg_color[0],
                g: bg_color[1],
                b: bg_color[2],
                a: bg_color[3],
            }),
    {
        let sc_desc = SwapChainDescriptor {
            usage: TextureUsage {
                copy_src: false,
                copy_dst: false,
                sampled: false,
                storage: false,
                output_attachment: true,
            },
            format: TextureFormat::Bgra8UnormSrgb,
            width: size.width,
            height: size.height,
            present_mode: PresentMode::Immediate,
        };
        let bg_color = Color { r: bg_color[0], g: bg_color[1], b: bg_color[2], a: bg_color[3] };

        Self { sc_desc, size, bg_color }
    }

    /// The swap chain that matches the surface.
    pub fn sc_desc(&self) -> (sc_desc: SwapChainDescriptor)
        ensures
            sc_desc == self.spec_sc_desc(),
            sc_desc == swap_chain_for(self.spec_size()),
    {
        proof {
            use_type_invariant(self);
        }
        self.sc_desc
    }

    /// The size of the surface.
    pub fn size(&self) -> (size: PhysicalSize)
        ensures
            size == self.spec_size(),
    {
        self.size
    }

    /// The colour every frame is cleared to.
    pub fn bg_color(&self) -> (bg_color: Color)
        ensures
            bg_color == self.spec_bg_color(),
    {
        self.bg_color
    }

    /// Describes the pipeline that draws vertices of the given layout into
    /// the swap chain, with the shaders in the two files.
    pub fn create_pipeline(
        &self,
        vert_file: &str,
        frag_file: &str,
        vertex_buffer_descriptor: VertexBufferDescriptor,
    ) -> (pipeline: RenderPipelineDescriptor)
        ensures
            pipeline@ == pipeline_for(
                vert_file@,
                frag_file@,
                vertex_buffer_descriptor@,
                self.spec_sc_desc().format,
            ),
    {
        pipeline::create_pipeline(
            vert_file,
            frag_file,
            vertex_buffer_descriptor,
            self.sc_desc.format,
        )
    }

    /// Takes over the new size of the surface: the swap chain keeps its
    /// format, usage and present mode and gets the new width and height. It
    /// has to be created again from [`Self::sc_desc`].
    pub fn resize(&mut self, new_size: PhysicalSize)
        ensures
            final(self).spec_size() == new_size,
            final(self).spec_sc_desc() == (SwapChainDescriptor {
                width: new_size.width,
                height: new_size.height,
                ..old(self).spec_sc_desc()
            }),
            final(self).spec_sc_desc() == swap_chain_for(new_size),
            final(self).spec_bg_color() == old(self).spec_bg_color(),
    {
        proof {
            use_type_invariant(&*self);
        }
        let mut sc_desc = self.sc_desc;
        sc_desc.width = new_size.width;
        sc_desc.height = new_size.height;
        *self = Renderer { sc_desc, size: new_size, bg_color: self.bg_color };
    }

    /// The first frame: the background colour and nothing else.
    pub fn init_clear_screen(&mut self) -> (frame: RenderPass)
        ensures
            *final(self) == *old(self),
            frame@.targets == clear_pass(old(self).spec_bg_color()),
            frame@.commands == Seq::<RenderCommand>::empty(),
    {
        begin_render_pass(self.bg_color)
    }

    /// A frame that shows `cube` on the background colour.
    pub fn render(&mut self, cube: &Cube) -> (frame: RenderPass)
        ensures
            *final(self) == *old(self),
            frame@.targets == clear_pass(old(self).spec_bg_color()),
            frame@.commands == draw_commands(cube.num_indices),
    {
        let mut render_pass = begin_render_pass(self.bg_color);
        render_pass.set_pipeline();
        render_pass.set_vertex_buffer(0, 0, 0);
        render_pass.set_index_buffer(0, 0);
        render_pass.draw_indexed(0, cube.num_indices, 0, 0, 1);
        proof {
            assert(render_pass@.commands =~= draw_commands(cube.num_indices));
        }
        render_pass
    }
}

/// Begins a pass on the swap chain image that clears it to `bg_color`.
fn begin_render_pass(bg_color: Color) -> (pass: RenderPass)
    ensures
        pass@.targets == clear_pass(bg_color),
        pass@.commands == Seq::<RenderCommand>::empty(),
{
    let color_attachments = vec![
        RenderPassColorAttachmentDescriptor {
            resolve_target: false,
            load_op: LoadOp::Clear,
            store_op: StoreOp::Store,
            clear_color: bg_color,
        },
    ];
    proof {
        assert(color_attachments@ =~= clear_pass(bg_color).color_attachments);
    }
    RenderPass {
        descriptor: RenderPassDescriptor { color_attachments, depth_stencil_attachment: false },
        commands: Vec::new(),
    }
}

} // verus!
