use crate::asset_loading::texture::LoadError;
use crate::render::sprite::SpriteMetadata;
use vstd::prelude::*;

verus! {

/// How the pixels of a decoded image are laid out.
#[derive(Clone, Copy, Debug, PartialEq, Eq, Structural)]
pub enum ColorType {
    L8,
    La8,
    Rgb8,
    Rgba8,
    L16,
    La16,
    Rgb16,
    Rgba16,
    Bgr8,
    Bgra8,
    /// A layout that this library does not know.
    Unknown,
}

/// The texture formats that decoded images can be uploaded as.
#[derive(Clone, Copy, Debug, PartialEq, Eq, Structural)]
pub enum TextureFormat {
    R8Unorm,
    R8Snorm,
    R8Uint,
    R8Sint,
    Rg8Unorm,
    Rg8Snorm,
    Rg8Uint,
    Rg8Sint,
    Rgba8Unorm,
    Rgba8UnormSrgb,
    Rgba8Snorm,
    Rgba8Uint,
    Rgba8Sint,
    Bgra8Unorm,
    Bgra8UnormSrgb,
    R16Uint,
    R16Sint,
    R16Float,
    Rg16Uint,
    Rg16Sint,
    Rg16Float,
    Rgba16Uint,
    Rgba16Sint,
    Rgba16Float,
    /// Any other format; no decoded image matches it.
    Other,
}

impl ColorType {
    /// The number of channels of a pixel; 0 for an unknown layout.
    pub open spec fn channels(self) -> nat {
        match self {
            ColorType::L8 | ColorType::L16 => 1,
            ColorType::La8 | ColorType::La16 => 2,
            ColorType::Rgb8 | ColorType::Rgb16 | ColorType::Bgr8 => 3,
            ColorType::Rgba8 | ColorType::Rgba16 | ColorType::Bgra8 => 4,
            ColorType::Unknown => 0,
        }
    }

    /// The number of bits of one channel; 0 for an unknown layout.
    pub open spec fn bits(self) -> nat {
        match self {
            ColorType::L8 | ColorType::La8 | ColorType::Rgb8 | ColorType::Rgba8 | ColorType::Bgr8
            | ColorType::Bgra8 => 8,
            ColorType::L16 | ColorType::La16 | ColorType::Rgb16 | ColorType::Rgba16 => 16,
            ColorType::Unknown => 0,
        }
    }

    /// Whether blue comes before red.
    pub open spec fn blue_first(self) -> bool {
        self == ColorType::Bgr8 || self == ColorType::Bgra8
    }

    /// The layout with an alpha channel added where there are exactly three
    /// channels, and the layout itself otherwise.
    pub open spec fn spec_with_alpha(self) -> ColorType {
        match self {
            ColorType::Bgr8 => ColorType::Bgra8,
            ColorType::Rgb8 => ColorType::Rgba8,
            ColorType::Rgb16 => ColorType::Rgba16,
            _ => self,
        }
    }

    /// The layout in which an image of this layout is uploaded: textures
    /// have no three-channel formats, so those images get an alpha channel.
    pub fn with_alpha(self) -> (out: ColorType)
        ensures
            out == self.spec_with_alpha(),
            out.channels() != 3,
            self.channels() != 3 ==> out == self,
            self.channels() == 3 ==> out.channels() == 4 && out.bits() == self.bits()
                && out.blue_first() == self.blue_first(),
    {
        match self {
            ColorType::Bgr8 => ColorType::Bgra8,
            ColorType::Rgb8 => ColorType::Rgba8,
            ColorType::Rgb16 => ColorType::Rgba16,
            _ => self,
        }
    }

    /// The number of bits of one pixel.
    pub fn bits_per_pixel(self) -> (bits: u8)
        ensures
            bits == self.channels() * self.bits(),
    {
        match self {
            ColorType::L8 => 8,
            ColorType::La8 => 16,
            ColorType::Rgb8 => 24,
            ColorType::Rgba8 => 32,
            ColorType::L16 => 16,
            ColorType::La16 => 32,
            ColorType::Rgb16 => 48,
            ColorType::Rgba16 => 64,
            ColorType::Bgr8 => 24,
            ColorType::Bgra8 => 32,
            ColorType::Unknown => 0,
        }
    }
}

impl TextureFormat {
    /// The number of channels of a texel; 0 for [`TextureFormat::Other`].
    pub open spec fn channels(self) -> nat {
        match self {
            TextureFormat::R8Unorm | TextureFormat::R8Snorm | TextureFormat::R8Uint
            | TextureFormat::R8Sint | TextureFormat::R16Uint | TextureFormat::R16Sint
            | TextureFormat::R16Float => 1,
            TextureFormat::Rg8Unorm | TextureFormat::Rg8Snorm | TextureFormat::Rg8Uint
            | TextureFormat::Rg8Sint | TextureFormat::Rg16Uint | TextureFormat::Rg16Sint
            | TextureFormat::Rg16Float => 2,
            TextureFormat::Other => 0,
            _ => 4,
        }
    }

    /// The number of bits of one channel; 0 for [`TextureFormat::Other`].
    pub open spec fn bits(self) -> nat {
        match self {
            TextureFormat::R16Uint | TextureFormat::R16Sint | TextureFormat::R16Float
            | TextureFormat::Rg16Uint | TextureFormat::Rg16Sint | TextureFormat::Rg16Float
            | TextureFormat::Rgba16Uint | TextureFormat::Rgba16Sint | TextureFormat::Rgba16Float => 16,
            TextureFormat::Other => 0,
            _ => 8,
        }
    }

    /// Whether blue comes before red.
    pub open spec fn blue_first(self) -> bool {
        self == TextureFormat::Bgra8Unorm || self == TextureFormat::Bgra8UnormSrgb
    }
}

/// Whether the bytes of an image of layout `color` can be uploaded as they
/// are into a texture of `format`: both have the same number of channels, of
/// the same width, in the same order. No format has three channels, so an
/// image of three channels matches none.
pub open spec fn matches_format(color: ColorType, format: TextureFormat) -> bool {
    &&& color.channels() != 0
    &&& color.channels() == format.channels()
    &&& color.bits() == format.bits()
    &&& color.blue_first() == format.blue_first()
}

pub fn color_type_matches_format(color: ColorType, format: TextureFormat) -> (matches: bool)
    ensures
        matches == matches_format(color, format),
{
    match color {
        ColorType::Bgr8 | ColorType::Rgb8 | ColorType::Rgb16 => false,
        ColorType::Bgra8 => match format {
            TextureFormat::Bgra8Unorm | TextureFormat::Bgra8UnormSrgb => true,
            _ => false,
        },
        ColorType::L8 => match format {
            TextureFormat::R8Unorm | TextureFormat::R8Snorm | TextureFormat::R8Uint
            | TextureFormat::R8Sint => true,
            _ => false,
        },
        ColorType::La8 => match format {
            TextureFormat::Rg8Unorm | TextureFormat::Rg8Snorm | TextureFormat::Rg8Uint
            | TextureFormat::Rg8Sint => true,
            _ => false,
        },
        ColorType::Rgba8 => match format {
            TextureFormat::Rgba8Unorm | TextureFormat::Rgba8UnormSrgb | TextureFormat::Rgba8Snorm
            | TextureFormat::Rgba8Uint | TextureFormat::Rgba8Sint => true,
            _ => false,
        },
        ColorType::L16 => match format {
            TextureFormat::R16Uint | TextureFormat::R16Sint | TextureFormat::R16Float => true,
            _ => false,
        },
        ColorType::La16 => match format {
            TextureFormat::Rg16Uint | TextureFormat::Rg16Sint | TextureFormat::Rg16Float => true,
            _ => false,
        },
        ColorType::Rgba16 => match format {
            TextureFormat::Rgba16Uint | TextureFormat::Rgba16Sint
            | TextureFormat::Rgba16Float => true,
            _ => false,
        },
        ColorType::Unknown => false,
    }
}

/// The size of a texture in texels.
#[derive(Clone, Copy, Debug, PartialEq, Eq, Structural)]
pub struct Extent3d {
    pub width: u32,
    pub height: u32,
    pub depth_or_array_layers: u32,
}

/// The bytes of a texture, ready for upload.
pub struct TextureData {
    pub bytes: Vec<u8>,
    pub dimensions: Extent3d,
    pub format: TextureFormat,
}

/// Decides how a decoded image of layout `color` is uploaded into a texture
/// of `texture_format`.
///
/// The answer is the layout to convert the pixels to before the upload. The
/// image is refused when, even with an alpha channel added, its layout does
/// not match the format.
pub fn upload_layout(color: ColorType, texture_format: TextureFormat) -> (out: Result<
    ColorType,
    LoadError,
>)
    ensures
        matches_format(color.spec_with_alpha(), texture_format) ==> out == Ok::<
            ColorType,
            LoadError,
        >(color.spec_with_alpha()),
        !matches_format(color.spec_with_alpha(), texture_format) ==> out == Err::<
            ColorType,
            LoadError,
        >(LoadError::MalformedFile),
{
    let output_color = color.with_alpha();
    if !color_type_matches_format(output_color, texture_format) {
        return Err(LoadError::MalformedFile);
    }
    Ok(output_color)
}

/// Puts the converted bytes of a decoded image of `dimensions` (width, then
/// height) together with the format they are uploaded as. A texture made
/// from an image has one layer.
pub fn load_image_data(bytes: Vec<u8>, dimensions: (u32, u32), texture_format: TextureFormat) -> (data:
    TextureData)
    ensures
        data.bytes == bytes,
        data.dimensions == (Extent3d {
            width: dimensions.0,
            height: dimensions.1,
            depth_or_array_layers: 1,
        }),
        data.format == texture_format,
{
    TextureData {
        bytes,
        dimensions: Extent3d {
            width: dimensions.0,
            height: dimensions.1,
            depth_or_array_layers: 1,
        },
        format: texture_format,
    }
}

/// Checks the metadata of an atlas against the size of its image: it is
/// accepted when the frame of every sprite lies inside the image, and
/// refused as malformed otherwise.
pub fn check_metadata(size: [u32; 2], metadata: &Vec<(String, SpriteMetadata)>) -> (out: Result<
    (),
    LoadError,
>)
    ensures
        (forall|i: int| 0 <= i < metadata.len() ==> (#[trigger] metadata[i]).1.fits_atlas(size))
            ==> out == Ok::<(), LoadError>(()),
        (exists|i: int| 0 <= i < metadata.len() && !(#[trigger] metadata[i]).1.fits_atlas(size))
            ==> out == Err::<(), LoadError>(LoadError::MalformedFile),
{
    let mut i: usize = 0;
    while i < metadata.len()
        invariant
            i <= metadata.len(),
            forall|j: int| 0 <= j < i ==> (#[trigger] metadata[j]).1.fits_atlas(size),
        decreases metadata.len() - i,
    {
        let meta = &metadata[i].1;
        if meta.frame[0] as u64 + meta.frame[2] as u64 > size[0] as u64 || meta.frame[1] as u64
            + meta.frame[3] as u64 > size[1] as u64 {
            return Err(LoadError::MalformedFile);
        }
        i += 1;
    }
    Ok(())
}

} // verus!
