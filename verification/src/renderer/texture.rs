//! A diffuse texture: the texture itself, the upload of its texels, its
//! sampler and the bind group through which a fragment shader reads it.

use crate::bits::{HUNDRED, MINUS_HUNDRED};
use crate::descriptor::{
    AddressMode, BindGroupLayoutEntry, Binding, BindingResource, BindingType, BufferCopyView,
    BufferUsage, CompareFunction, Extent3d, FilterMode, Origin3d, SamplerDescriptor, ShaderStage,
    TextureCopyView, TextureDescriptor, TextureDimension, TextureFormat, TextureUsage,
    TextureViewDimension,
};
use vstd::prelude::*;

verus! {

/// A decoded image: rows of texels from top to bottom, four bytes per texel
/// in the order red, green, blue, alpha.
#[derive(Debug)]
pub struct RgbaImage {
    width: u32,
    height: u32,
    pixels: Vec<u8>,
}

impl RgbaImage {
    #[verifier::type_invariant]
    spec fn well_formed(self) -> bool {
        self.pixels@.len() == 4 * self.width * self.height
    }

    /// Width in texels.
    pub closed spec fn spec_width(&self) -> u32 {
        self.width
    }

    /// Height in texels.
    pub closed spec fn spec_height(&self) -> u32 {
        self.height
    }

    /// The texel bytes.
    pub closed spec fn spec_pixels(&self) -> Seq<u8> {
        self.pixels@
    }

    /// An image of `width` by `height` texels over `pixels`, if `pixels`
    /// holds exactly four bytes for each of them.
    pub fn from_raw(width: u32, height: u32, pixels: Vec<u8>) -> (image: Option<RgbaImage>)
        ensures
            image is Some <==> pixels@.len() == 4 * width * height,
            image matches Some(image) ==> {
                &&& image.spec_width() == width
                &&& image.spec_height() == height
                &&& image.spec_pixels() == pixels@
            },
    {
        assert(0 <= width * height <= 0xFFFF_FFFF * 0xFFFF_FFFF) by (nonlinear_arith)
            requires
                0 <= width <= 0xFFFF_FFFF,
                0 <= height <= 0xFFFF_FFFF,
        ;
        let texels: u128 = (width as u128) * (height as u128);
        let bytes: u128 = 4 * texels;
        assert(bytes == 4 * width * height) by (nonlinear_arith)
            requires
                bytes == 4 * (width * height),
        ;
        if pixels.len() as u128 == bytes {
            Some(RgbaImage { width, height, pixels })
        } else {
            None
        }
    }

    /// Width in texels.
    pub fn width(&self) -> (width: u32)
        ensures
            width == self.spec_width(),
    {
        self.width
    }

    /// Height in texels.
    pub fn height(&self) -> (height: u32)
        ensures
            height == self.spec_height(),
    {
        self.height
    }

    /// Width and height in texels.
    pub fn dimensions(&self) -> (size: (u32, u32))
        ensures
            size == (self.spec_width(), self.spec_height()),
    {
        (self.width, self.height)
    }

    /// The texel bytes.
    pub fn into_raw(self) -> (pixels: Vec<u8>)
        ensures
            pixels@ == self.spec_pixels(),
            pixels@.len() == 4 * self.spec_width() * self.spec_height(),
    {
        proof {
            use_type_invariant(&self);
        }
        self.pixels
    }
}

/// The staging buffer with the texels of an image and the copy that moves
/// them into the texture.
#[derive(Debug)]
pub struct TextureUpload {
    /// Contents of the staging buffer.
    pub data: Vec<u8>,
    pub usage: BufferUsage,
    pub source: BufferCopyView,
    pub target: TextureCopyView,
    pub size: Extent3d,
}

/// Everything the GPU objects of one diffuse texture are created from.
#[derive(Debug)]
pub struct Texture {
    pub diffuse_texture: TextureDescriptor,
    pub diffuse_upload: TextureUpload,
    pub diffuse_sampler: SamplerDescriptor,
    pub diffuse_bind_group: Vec<Binding>,
    pub diffuse_bind_group_layout: Vec<BindGroupLayoutEntry>,
}

/// A two-dimensional sRGB texture of `width` by `height` texels with one
/// layer, one mip level and one sample, which can be copied into and sampled.
pub open spec fn diffuse_texture(width: u32, height: u32) -> TextureDescriptor {
    TextureDescriptor {
        size: Extent3d { width, height, depth: 1 },
        array_layer_count: 1,
        mip_level_count: 1,
        sample_count: 1,
        dimension: TextureDimension::D2,
        format: TextureFormat::Rgba8UnormSrgb,
        usage: TextureUsage {
            copy_src: false,
            copy_dst: true,
            sampled: true,
            storage: false,
            output_attachment: false,
        },
    }
}

/// A buffer that is only ever copied from.
pub open spec fn copy_source_usage() -> BufferUsage {
    BufferUsage {
        map_read: false,
        map_write: false,
        copy_src: true,
        copy_dst: false,
        index: false,
        vertex: false,
        uniform: false,
        storage: false,
        indirect: false,
    }
}

/// The sampler of a diffuse texture: clamped at the edges, linear when
/// magnified, nearest otherwise, with levels of detail between minus one
/// hundred and one hundred.
pub open spec fn diffuse_sampler() -> SamplerDescriptor {
    SamplerDescriptor {
        address_mode_u: AddressMode::ClampToEdge,
        address_mode_v: AddressMode::ClampToEdge,
        address_mode_w: AddressMode::ClampToEdge,
        mag_filter: FilterMode::Linear,
        min_filter: FilterMode::Nearest,
        mipmap_filter: FilterMode::Nearest,
        lod_min_clamp: MINUS_HUNDRED,
        lod_max_clamp: HUNDRED,
        compare_function: CompareFunction::Always,
    }
}

/// Visible to the fragment stage only.
pub open spec fn fragment_only() -> ShaderStage {
    ShaderStage { vertex: false, fragment: true, compute: false }
}

/// The layout of the bind group of a diffuse texture: the texture in slot 0
/// and its sampler in slot 1, both for the fragment stage.
pub open spec fn diffuse_bind_group_layout() -> Seq<BindGroupLayoutEntry> {
    seq![
        BindGroupLayoutEntry {
            binding: 0,
            visibility: fragment_only(),
            ty: BindingType::SampledTexture {
                multisampled: false,
                dimension: TextureViewDimension::D2,
            },
        },
        BindGroupLayoutEntry { binding: 1, visibility: fragment_only(), ty: BindingType::Sampler },
    ]
}

/// The bind group of a diffuse texture: the view of the texture in slot 0
/// and the sampler in slot 1.
pub open spec fn diffuse_bind_group() -> Seq<Binding> {
    seq![
        Binding { binding: 0, resource: BindingResource::TextureView },
        Binding { binding: 1, resource: BindingResource::Sampler },
    ]
}

/// The bind group fills each slot of the layout, in order, with a resource
/// of the kind the slot takes.
pub open spec fn bindings_match_layout(
    bindings: Seq<Binding>,
    layout: Seq<BindGroupLayoutEntry>,
) -> bool {
    &&& bindings.len() == layout.len()
    &&& forall|i: int|
        0 <= i < bindings.len() ==> {
            &&& (#[trigger] bindings[i]).binding == layout[i].binding
            &&& bindings[i].resource.fits(layout[i].ty)
        }
}

impl TextureUpload {
    /// The copy reads rows of whole texels that are as wide as the region
    /// copied, and the rows of the region are exactly what the buffer holds.
    pub open spec fn fills_texture(&self) -> bool {
        &&& self.source.offset == 0
        &&& self.source.bytes_per_row == 4 * self.size.width
        &&& self.source.rows_per_image == self.size.height
        &&& self.size.depth == 1
        &&& self.data@.len() == self.source.bytes_per_row * self.source.rows_per_image
    }
}

impl Texture {
    /// Describes the diffuse texture for `image`.
    ///
    /// The texture has the size of the image. Its texels are uploaded from a
    /// staging buffer that holds the image row after row, into mip level 0
    /// of layer 0, starting at the origin.
    ///
    /// A row may take at most `u32::MAX` bytes.
    pub fn new(image: RgbaImage) -> (texture: Texture)
        requires
            4 * image.spec_width() <= u32::MAX,
        ensures
            texture.diffuse_texture == diffuse_texture(image.spec_width(), image.spec_height()),
            texture.diffuse_upload.data@ == image.spec_pixels(),
            texture.diffuse_upload.usage == copy_source_usage(),
            texture.diffuse_upload.source == (BufferCopyView {
                offset: 0,
                bytes_per_row: (4 * image.spec_width()) as u32,
                rows_per_image: image.spec_height(),
            }),
            texture.diffuse_upload.target == (TextureCopyView {
                mip_level: 0,
                array_layer: 0,
                origin: Origin3d { x: 0, y: 0, z: 0 },
            }),
            texture.diffuse_upload.size == texture.diffuse_texture.size,
            texture.diffuse_upload.fills_texture(),
            texture.diffuse_sampler == diffuse_sampler(),
            texture.diffuse_bind_group_layout@ == diffuse_bind_group_layout(),
            texture.diffuse_bind_group@ == diffuse_bind_group(),
            bindings_match_layout(texture.diffuse_bind_group@, texture.diffuse_bind_group_layout@),
    {
        let texture_size = image.dimensions();
        let size = Extent3d { width: texture_size.0, height: texture_size.1, depth: 1 };
        let texture_rgba = image.into_raw();

        let diffuse_texture = TextureDescriptor {
            size,
            array_layer_count: 1,
            mip_level_count: 1,
            sample_count: 1,
            dimension: TextureDimension::D2,
            format: TextureFormat::Rgba8UnormSrgb,
            usage: TextureUsage {
                copy_src: false,
                copy_dst: true,
                sampled: true,
                storage: false,
                output_attachment: false,
            },
        };

        let diffuse_upload = TextureUpload {
            data: texture_rgba,
            usage: BufferUsage {
                map_read: false,
                map_write: false,
                copy_src: true,
                copy_dst: false,
                index: false,
                vertex: false,
                uniform: false,
                storage: false,
                indirect: false,
            },
            source: BufferCopyView {
                offset: 0,
                bytes_per_row: 4 * texture_size.0,
                rows_per_image: texture_size.1,
            },
            target: TextureCopyView {
                mip_level: 0,
                array_layer: 0,
                origin: Origin3d { x: 0, y: 0, z: 0 },
            },
            size,
        };

        let diffuse_sampler = SamplerDescriptor {
            address_mode_u: AddressMode::ClampToEdge,
            address_mode_v: AddressMode::ClampToEdge,
            address_mode_w: AddressMode::ClampToEdge,
            mag_filter: FilterMode::Linear,
            min_filter: FilterMode::Nearest,
            mipmap_filter: FilterMode::Nearest,
            lod_min_clamp: MINUS_HUNDRED,
            lod_max_clamp: HUNDRED,
            compare_function: CompareFunction::Always,
        };

        let fragment = ShaderStage { vertex: false, fragment: true, compute: false };
        let texture_bind_group_layout = vec![
            BindGroupLayoutEntry {
                binding: 0,
                visibility: fragment,
                ty: BindingType::SampledTexture {
                    multisampled: false,
                    dimension: TextureViewDimension::D2,
                },
            },
            BindGroupLayoutEntry { binding: 1, visibility: fragment, ty: BindingType::Sampler },
        ];

        let diffuse_bind_group = vec![
            Binding { binding: 0, resource: BindingResource::TextureView },
            Binding { binding: 1, resource: BindingResource::Sampler },
        ];

        proof {
            assert(texture_bind_group_layout@ =~= diffuse_bind_group_layout());
            assert(diffuse_bind_group@ =~= self::diffuse_bind_group());
        }

        Texture {
            diffuse_texture,
            diffuse_upload,
            diffuse_sampler,
            diffuse_bind_group,
            diffuse_bind_group_layout: texture_bind_group_layout,
        }
    }
}

} // verus!
