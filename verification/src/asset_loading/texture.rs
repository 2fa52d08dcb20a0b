use crate::asset_loading::texture2::ColorType;
use vstd::prelude::*;

verus! {

/// The error type of `std::io`. The library only carries it.
#[verifier::external_type_specification]
#[verifier::external_body]
pub struct ExIoError(std::io::Error);

/// Why an asset could not be loaded.
#[derive(Debug)]
pub enum LoadError {
    /// The file could not be read.
    FileLoadError(std::io::Error),
    /// The file was read, but what it holds is not a valid asset.
    MalformedFile,
}

impl From<std::io::Error> for LoadError {
    fn from(err: std::io::Error) -> (e: Self) {
        LoadError::FileLoadError(err)
    }
}

impl vstd::std_specs::convert::FromSpecImpl<std::io::Error> for LoadError {
    open spec fn obeys_from_spec() -> bool {
        true
    }

    open spec fn from_spec(err: std::io::Error) -> Self {
        LoadError::FileLoadError(err)
    }
}

/// The pixels of `opaque` with an opaque alpha byte behind each run of
/// three bytes.
pub open spec fn with_alpha(opaque: Seq<u8>) -> Seq<u8> {
    Seq::new(
        (opaque.len() / 3 * 4) as nat,
        |i: int|
            if i % 4 == 3 {
                255u8
            } else {
                opaque[i / 4 * 3 + i % 4]
            },
    )
}

/// The pixels of `opaque` with two opaque alpha bytes behind each run of
/// six bytes. What is left at the end after the last whole run is copied as
/// it is and, where the result is longer, followed by alpha bytes.
pub open spec fn with_alpha_16(opaque: Seq<u8>) -> Seq<u8> {
    Seq::new(
        (opaque.len() / 3 * 4) as nat,
        |i: int|
            if i % 8 < 6 && i / 8 * 6 + i % 8 < opaque.len() {
                opaque[i / 8 * 6 + i % 8]
            } else {
                255u8
            },
    )
}

/// Zippers an alpha channel onto pixels of three channels of 8 bits each:
/// every pixel gets a fourth byte of 255.
pub fn add_alpha_channel(opaque_data: Vec<u8>) -> (data: Vec<u8>)
    requires
        opaque_data.len() % 3 == 0,
        opaque_data.len() / 3 * 4 <= usize::MAX,
    ensures
        data@ == with_alpha(opaque_data@),
{
    let total_bytes = opaque_data.len();
    let mut data: Vec<u8> = vec![255u8; total_bytes / 3 * 4];
    let mut bytes_offset: usize = 0;
    let mut i: usize = 0;
    while i < total_bytes
        invariant
            i <= total_bytes,
            total_bytes == opaque_data.len(),
            total_bytes % 3 == 0,
            data.len() == total_bytes / 3 * 4,
            bytes_offset == i / 3,
            forall|j: int|
                0 <= j < data.len() ==> (#[trigger] data[j]) == (if j % 4 != 3 && j / 4 * 3 + j % 4
                    < i {
                    opaque_data[j / 4 * 3 + j % 4]
                } else {
                    255u8
                }),
        decreases total_bytes - i,
    {
        data.set(i + bytes_offset, opaque_data[i]);
        if i % 3 == 2 {
            bytes_offset = bytes_offset + 1;
        }
        i += 1;
    }
    assert(data@ =~= with_alpha(opaque_data@));
    data
}

/// Zippers an alpha channel onto pixels of three channels of 16 bits each:
/// every pixel gets a fourth pair of bytes, both 255.
pub fn add_alpha_channel_16(opaque_data: Vec<u8>) -> (data: Vec<u8>)
    requires
        opaque_data.len() % 6 == 0 || opaque_data.len() % 6 == 3 || opaque_data.len() % 6 == 4,
        opaque_data.len() / 3 * 4 <= usize::MAX,
    ensures
        data@ == with_alpha_16(opaque_data@),
{
    let total_bytes = opaque_data.len();
    let mut data: Vec<u8> = vec![255u8; total_bytes / 3 * 4];
    let mut bytes_offset: usize = 0;
    let mut i: usize = 0;
    while i < total_bytes
        invariant
            i <= total_bytes,
            total_bytes == opaque_data.len(),
            total_bytes % 6 == 0 || total_bytes % 6 == 3 || total_bytes % 6 == 4,
            data.len() == total_bytes / 3 * 4,
            bytes_offset == i / 6 * 2,
            forall|j: int|
                0 <= j < data.len() ==> (#[trigger] data[j]) == (if j % 8 < 6 && j / 8 * 6 + j % 8
                    < i {
                    opaque_data[j / 8 * 6 + j % 8]
                } else {
                    255u8
                }),
        decreases total_bytes - i,
    {
        data.set(i + bytes_offset, opaque_data[i]);
        if i % 6 == 5 {
            bytes_offset = bytes_offset + 2;
        }
        i += 1;
    }
    assert(data@ =~= with_alpha_16(opaque_data@));
    data
}

/// The formats that raw texture data is handed on in.
#[derive(Clone, Copy, Debug, PartialEq, Eq, Structural)]
pub enum Format {
    R8Unorm,
    R8G8Unorm,
    R8G8B8A8Unorm,
    R8G8B8A8Srgb,
    B8G8R8A8Unorm,
    B8G8R8A8Srgb,
    R16Sfloat,
    R16G16Sfloat,
    R16G16B16A16Sfloat,
}

impl Format {
    /// The number of channels of a texel.
    pub open spec fn channels(self) -> nat {
        match self {
            Format::R8Unorm | Format::R16Sfloat => 1,
            Format::R8G8Unorm | Format::R16G16Sfloat => 2,
            _ => 4,
        }
    }

    /// The number of bits of one channel.
    pub open spec fn bits(self) -> nat {
        match self {
            Format::R16Sfloat | Format::R16G16Sfloat | Format::R16G16B16A16Sfloat => 16,
            _ => 8,
        }
    }

    /// Whether the colours are stored in the sRGB encoding.
    pub open spec fn srgb(self) -> bool {
        self == Format::R8G8B8A8Srgb || self == Format::B8G8R8A8Srgb
    }

    /// Whether blue comes before red.
    pub open spec fn blue_first(self) -> bool {
        self == Format::B8G8R8A8Unorm || self == Format::B8G8R8A8Srgb
    }
}

/// The format that pixels of layout `ctype` are handed on in, once an alpha
/// channel has been added to those of three channels: as many channels and
/// as many bits per channel as the pixels then have, in the same order of
/// colours. Colours of 8 bits are sRGB-encoded if that is preferred; single
/// and double channels, and everything of 16 bits, never are.
pub open spec fn format_of(ctype: ColorType, prefer_srgb: bool, format: Format) -> bool {
    &&& format.channels() == ctype.spec_with_alpha().channels()
    &&& format.bits() == ctype.bits()
    &&& format.blue_first() == ctype.blue_first()
    &&& format.srgb() == (prefer_srgb && ctype.bits() == 8 && ctype.channels() >= 3)
}

/// Picks the format for pixels of layout `ctype`; see [`format_of`].
pub fn convert_ctype_to_format(ctype: ColorType, prefer_srgb: bool) -> (format: Format)
    requires
        ctype != ColorType::Unknown,
    ensures
        format_of(ctype, prefer_srgb, format),
{
    match ctype {
        ColorType::L8 => Format::R8Unorm,
        ColorType::La8 => Format::R8G8Unorm,
        ColorType::Rgb8 | ColorType::Rgba8 => {
            if prefer_srgb {
                Format::R8G8B8A8Srgb
            } else {
                Format::R8G8B8A8Unorm
            }
        },
        ColorType::L16 => Format::R16Sfloat,
        ColorType::La16 => Format::R16G16Sfloat,
        ColorType::Rgb16 | ColorType::Rgba16 => Format::R16G16B16A16Sfloat,
        _ => {
            if prefer_srgb {
                Format::B8G8R8A8Srgb
            } else {
                Format::B8G8R8A8Unorm
            }
        },
    }
}

/// At most one format fits a layout and a preference.
pub proof fn lemma_format_unique(ctype: ColorType, prefer_srgb: bool, a: Format, b: Format)
    requires
        format_of(ctype, prefer_srgb, a),
        format_of(ctype, prefer_srgb, b),
    ensures
        a == b,
{
}

/// Decoded pixels, their size (width, then height) and the format they are
/// in.
#[derive(Debug)]
pub struct RawTextureData {
    pub bytes: Vec<u8>,
    pub size: (u32, u32),
    pub format: Format,
}

impl RawTextureData {
    pub fn new(bytes: Vec<u8>, size: (u32, u32), format: Format) -> (data: Self)
        ensures
            data.bytes == bytes,
            data.size == size,
            data.format == format,
    {
        Self { bytes, size, format }
    }
}

/// Whether decoded pixels of layout `color_type` can be made into raw
/// texture data: the layout is known, and pixels of three channels come in
/// whole runs; see [`add_alpha_channel`] and [`add_alpha_channel_16`].
pub open spec fn can_load(data: Seq<u8>, color_type: ColorType) -> bool {
    &&& color_type != ColorType::Unknown
    &&& data.len() / 3 * 4 <= usize::MAX
    &&& color_type.channels() * color_type.bits() == 24 ==> data.len() % 3 == 0
    &&& color_type.channels() * color_type.bits() == 48 ==> data.len() % 6 == 0 || data.len() % 6
        == 3 || data.len() % 6 == 4
}

/// Makes raw texture data out of decoded pixels: pixels of three channels
/// get an alpha channel, all others are taken as they are.
pub fn load_texture(
    data: Vec<u8>,
    color_type: ColorType,
    dimensions: (u32, u32),
    prefer_srgb: bool,
) -> (texture: RawTextureData)
    requires
        can_load(data@, color_type),
    ensures
        texture.bytes@ == (if color_type.channels() == 3 && color_type.bits() == 8 {
            with_alpha(data@)
        } else if color_type.channels() == 3 {
            with_alpha_16(data@)
        } else {
            data@
        }),
        texture.size == dimensions,
        format_of(color_type, prefer_srgb, texture.format),
{
    let bits = color_type.bits_per_pixel();
    let bytes = if bits == 24 {
        add_alpha_channel(data)
    } else if bits == 48 {
        add_alpha_channel_16(data)
    } else {
        data
    };
    RawTextureData::new(bytes, dimensions, convert_ctype_to_format(color_type, prefer_srgb))
}

} // verus!
