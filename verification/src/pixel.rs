//! Pixel encodings and the device format descriptor.
//!
//! A [`PixelFormat`] pairs a channel layout with a per-channel numeric
//! type. [`device_pixel_format`] maps it to the device format triple
//! {transfer format, storage format, transfer type}; the mapping is
//! partial, and callers surface its absence as an unsupported-format
//! error rather than a panic.
//!
//! The module also selects the row alignment a transfer must negotiate
//! with the device before texel rows are read or written.

use vstd::prelude::*;

use vstd::string::StringExecFns;

verus! {

/// Width of one channel of a pixel.
#[derive(Clone, Copy, Debug, PartialEq, Eq, Structural)]
pub enum ChannelSize {
    /// 8 bits.
    Eight,
    /// 16 bits.
    Sixteen,
    /// 32 bits.
    ThirtyTwo,
}

/// Bytes one channel of the given size occupies.
pub open spec fn spec_channel_bytes(s: ChannelSize) -> int {
    match s {
        ChannelSize::Eight => 1,
        ChannelSize::Sixteen => 2,
        ChannelSize::ThirtyTwo => 4,
    }
}

/// Bytes one channel of the given size occupies.
pub fn channel_bytes(s: ChannelSize) -> (n: usize)
    ensures
        n == spec_channel_bytes(s),
{
    match s {
        ChannelSize::Eight => 1,
        ChannelSize::Sixteen => 2,
        ChannelSize::ThirtyTwo => 4,
    }
}

/// Numeric type of a pixel's channels.
#[derive(Clone, Copy, Debug, PartialEq, Eq, Structural)]
pub enum ChannelType {
    /// Signed integral, normalized to [-1, 1] when sampled.
    NormIntegral,
    /// Unsigned integral, normalized to [0, 1] when sampled.
    NormUnsigned,
    /// Signed integral, sampled as-is.
    Integral,
    /// Unsigned integral, sampled as-is.
    Unsigned,
}

/// Whether sampling normalizes the channel values.
pub open spec fn spec_is_normalized(t: ChannelType) -> bool {
    t is NormIntegral || t is NormUnsigned
}

/// Whether the channel values are signed.
pub open spec fn spec_is_signed(t: ChannelType) -> bool {
    t is NormIntegral || t is Integral
}

/// Channel layout of a pixel, with the size of each channel.
#[derive(Clone, Copy, Debug, PartialEq, Eq, Structural)]
pub enum Format {
    /// One red channel.
    R(ChannelSize),
    /// Red and green channels.
    RG(ChannelSize, ChannelSize),
    /// Red, green and blue channels.
    RGB(ChannelSize, ChannelSize, ChannelSize),
    /// Red, green, blue and alpha channels.
    RGBA(ChannelSize, ChannelSize, ChannelSize, ChannelSize),
}

/// Number of channels of a format.
pub open spec fn spec_channels_len(f: Format) -> int {
    match f {
        Format::R(..) => 1,
        Format::RG(..) => 2,
        Format::RGB(..) => 3,
        Format::RGBA(..) => 4,
    }
}

/// Number of channels of a format.
pub fn channels_len(f: Format) -> (n: usize)
    ensures
        n == spec_channels_len(f),
{
    match f {
        Format::R(..) => 1,
        Format::RG(..) => 2,
        Format::RGB(..) => 3,
        Format::RGBA(..) => 4,
    }
}

/// Bytes one whole pixel of the format occupies.
pub open spec fn spec_bytes_len(f: Format) -> int {
    match f {
        Format::R(a) => spec_channel_bytes(a),
        Format::RG(a, b) => spec_channel_bytes(a) + spec_channel_bytes(b),
        Format::RGB(a, b, c) => spec_channel_bytes(a) + spec_channel_bytes(b)
            + spec_channel_bytes(c),
        Format::RGBA(a, b, c, d) => spec_channel_bytes(a) + spec_channel_bytes(b)
            + spec_channel_bytes(c) + spec_channel_bytes(d),
    }
}

/// Bytes one whole pixel of the format occupies.
pub fn bytes_len(f: Format) -> (n: usize)
    ensures
        n == spec_bytes_len(f),
{
    match f {
        Format::R(a) => channel_bytes(a),
        Format::RG(a, b) => channel_bytes(a) + channel_bytes(b),
        Format::RGB(a, b, c) => channel_bytes(a) + channel_bytes(b) + channel_bytes(c),
        Format::RGBA(a, b, c, d) => channel_bytes(a) + channel_bytes(b) + channel_bytes(c)
            + channel_bytes(d),
    }
}

/// A pixel's byte width is between 1 and 16.
pub proof fn lemma_bytes_len_range(f: Format)
    ensures
        1 <= spec_bytes_len(f) <= 16,
{
}

/// The common size of a format's channels, if they all share one.
pub open spec fn spec_uniform_size(f: Format) -> Option<ChannelSize> {
    match f {
        Format::R(a) => Option::Some(a),
        Format::RG(a, b) => if a == b {
            Option::Some(a)
        } else {
            Option::None
        },
        Format::RGB(a, b, c) => if a == b && b == c {
            Option::Some(a)
        } else {
            Option::None
        },
        Format::RGBA(a, b, c, d) => if a == b && b == c && c == d {
            Option::Some(a)
        } else {
            Option::None
        },
    }
}

/// Bare channel layout of a format.
#[derive(Clone, Copy, Debug, PartialEq, Eq, Structural)]
pub enum ChannelLayout {
    /// One red channel.
    R,
    /// Red and green channels.
    RG,
    /// Red, green and blue channels.
    RGB,
    /// Red, green, blue and alpha channels.
    RGBA,
}

/// Bare channel layout of a format.
pub open spec fn spec_layout(f: Format) -> ChannelLayout {
    match f {
        Format::R(..) => ChannelLayout::R,
        Format::RG(..) => ChannelLayout::RG,
        Format::RGB(..) => ChannelLayout::RGB,
        Format::RGBA(..) => ChannelLayout::RGBA,
    }
}

/// A pixel format: a channel layout together with the numeric type the
/// channels are encoded in.
#[derive(Clone, Copy, Debug, PartialEq, Eq, Structural)]
pub struct PixelFormat {
    /// Channel layout, with channel sizes.
    pub format: Format,
    /// Numeric type of the channels.
    pub encoding: ChannelType,
}

/// Transfer format of a device transfer: which channels client memory
/// holds, and whether they transfer as integers or as normalized values.
#[derive(Clone, Copy, Debug, PartialEq, Eq, Structural)]
pub enum TransferFormat {
    /// One normalized channel.
    Red,
    /// One integer channel.
    RedInteger,
    /// Two normalized channels.
    Rg,
    /// Two integer channels.
    RgInteger,
    /// Three normalized channels.
    Rgb,
    /// Three integer channels.
    RgbInteger,
    /// Four normalized channels.
    Rgba,
    /// Four integer channels.
    RgbaInteger,
}

/// Component type of a device transfer.
#[derive(Clone, Copy, Debug, PartialEq, Eq, Structural)]
pub enum TransferType {
    /// Unsigned 8-bit components.
    UnsignedByte,
    /// Signed 8-bit components.
    Byte,
    /// Unsigned 16-bit components.
    UnsignedShort,
    /// Signed 16-bit components.
    Short,
    /// Unsigned 32-bit components.
    UnsignedInt,
    /// Signed 32-bit components.
    Int,
}

/// Internal storage format the device allocates for a texture.
#[derive(Clone, Copy, Debug, PartialEq, Eq, Structural)]
pub struct StorageFormat {
    /// Channel layout.
    pub layout: ChannelLayout,
    /// Size shared by every channel.
    pub size: ChannelSize,
    /// Numeric type of the channels.
    pub encoding: ChannelType,
}

/// The device format triple a pixel format maps to.
#[derive(Clone, Copy, Debug, PartialEq, Eq, Structural)]
pub struct DeviceFormat {
    /// Transfer format of client memory.
    pub transfer: TransferFormat,
    /// Internal storage format.
    pub storage: StorageFormat,
    /// Component type of transfers.
    pub ty: TransferType,
}

/// Transfer format for a layout: integer channels transfer through the
/// integer variants, normalized channels through the plain ones.
pub open spec fn spec_transfer_format(layout: ChannelLayout, normalized: bool) -> TransferFormat {
    match layout {
        ChannelLayout::R => if normalized {
            TransferFormat::Red
        } else {
            TransferFormat::RedInteger
        },
        ChannelLayout::RG => if normalized {
            TransferFormat::Rg
        } else {
            TransferFormat::RgInteger
        },
        ChannelLayout::RGB => if normalized {
            TransferFormat::Rgb
        } else {
            TransferFormat::RgbInteger
        },
        ChannelLayout::RGBA => if normalized {
            TransferFormat::Rgba
        } else {
            TransferFormat::RgbaInteger
        },
    }
}

/// Component transfer type for a channel size and signedness.
pub open spec fn spec_transfer_type(size: ChannelSize, signed: bool) -> TransferType {
    match size {
        ChannelSize::Eight => if signed {
            TransferType::Byte
        } else {
            TransferType::UnsignedByte
        },
        ChannelSize::Sixteen => if signed {
            TransferType::Short
        } else {
            TransferType::UnsignedShort
        },
        ChannelSize::ThirtyTwo => if signed {
            TransferType::Int
        } else {
            TransferType::UnsignedInt
        },
    }
}

/// The device format triple for a pixel format, if the device has one.
///
/// The lookup is partial: formats whose channels differ in size have no
/// storage format, and the device stores no 32-bit normalized channels.
pub open spec fn spec_device_pixel_format(pf: PixelFormat) -> Option<DeviceFormat> {
    match spec_uniform_size(pf.format) {
        Option::None => Option::None,
        Option::Some(size) => if spec_is_normalized(pf.encoding) && size is ThirtyTwo {
            Option::None
        } else {
            Option::Some(
                DeviceFormat {
                    transfer: spec_transfer_format(
                        spec_layout(pf.format),
                        spec_is_normalized(pf.encoding),
                    ),
                    storage: StorageFormat {
                        layout: spec_layout(pf.format),
                        size,
                        encoding: pf.encoding,
                    },
                    ty: spec_transfer_type(size, spec_is_signed(pf.encoding)),
                },
            )
        },
    }
}

/// Look the device format triple up for a pixel format.
pub fn device_pixel_format(pf: PixelFormat) -> (r: Option<DeviceFormat>)
    ensures
        r == spec_device_pixel_format(pf),
{
    let uniform = match pf.format {
        Format::R(a) => Some(a),
        Format::RG(a, b) => if a == b {
            Some(a)
        } else {
            None
        },
        Format::RGB(a, b, c) => if a == b && b == c {
            Some(a)
        } else {
            None
        },
        Format::RGBA(a, b, c, d) => if a == b && b == c && c == d {
            Some(a)
        } else {
            None
        },
    };
    let layout = match pf.format {
        Format::R(..) => ChannelLayout::R,
        Format::RG(..) => ChannelLayout::RG,
        Format::RGB(..) => ChannelLayout::RGB,
        Format::RGBA(..) => ChannelLayout::RGBA,
    };
    let normalized = match pf.encoding {
        ChannelType::NormIntegral | ChannelType::NormUnsigned => true,
        ChannelType::Integral | ChannelType::Unsigned => false,
    };
    let signed = match pf.encoding {
        ChannelType::NormIntegral | ChannelType::Integral => true,
        ChannelType::NormUnsigned | ChannelType::Unsigned => false,
    };
    match uniform {
        None => None,
        Some(size) => {
            if normalized && matches!(size, ChannelSize::ThirtyTwo) {
                None
            } else {
                let transfer = match layout {
                    ChannelLayout::R => if normalized {
                        TransferFormat::Red
                    } else {
                        TransferFormat::RedInteger
                    },
                    ChannelLayout::RG => if normalized {
                        TransferFormat::Rg
                    } else {
                        TransferFormat::RgInteger
                    },
                    ChannelLayout::RGB => if normalized {
                        TransferFormat::Rgb
                    } else {
                        TransferFormat::RgbInteger
                    },
                    ChannelLayout::RGBA => if normalized {
                        TransferFormat::Rgba
                    } else {
                        TransferFormat::RgbaInteger
                    },
                };
                let ty = match size {
                    ChannelSize::Eight => if signed {
                        TransferType::Byte
                    } else {
                        TransferType::UnsignedByte
                    },
                    ChannelSize::Sixteen => if signed {
                        TransferType::Short
                    } else {
                        TransferType::UnsignedShort
                    },
                    ChannelSize::ThirtyTwo => if signed {
                        TransferType::Int
                    } else {
                        TransferType::UnsignedInt
                    },
                };
                Some(
                    DeviceFormat {
                        transfer,
                        storage: StorageFormat { layout, size, encoding: pf.encoding },
                        ty,
                    },
                )
            }
        },
    }
}

/// Row alignment for a transfer whose rows leave `skip_bytes` == row
/// bytes mod 8 behind an 8-byte boundary: 8, 2 or 4 when those divide the
/// row evenly, 1 otherwise.
pub open spec fn spec_row_alignment(skip_bytes: int) -> int {
    if skip_bytes == 0 {
        8
    } else if skip_bytes == 2 {
        2
    } else if skip_bytes == 4 {
        4
    } else {
        1
    }
}

/// Select the row alignment to set on the device for a transfer.
pub fn row_alignment(skip_bytes: usize) -> (a: usize)
    ensures
        a == spec_row_alignment(skip_bytes as int),
{
    if skip_bytes == 0 {
        8
    } else if skip_bytes == 2 {
        2
    } else if skip_bytes == 4 {
        4
    } else {
        1
    }
}

/// The selected alignment always divides the row width, so aligned rows
/// carry no padding and transfers read texels tightly packed.
pub proof fn lemma_row_alignment_divides(row_bytes: int)
    requires
        row_bytes >= 0,
    ensures
        row_bytes % spec_row_alignment(row_bytes % 8) == 0,
{
    let q = row_bytes / 8;
    let r = row_bytes % 8;
    assert(row_bytes == 8 * q + r);
    if r == 2 {
        assert((8 * q + 2) % 2 == 0) by (nonlinear_arith)
            requires
                q >= 0,
        ;
    } else if r == 4 {
        assert((8 * q + 4) % 4 == 0) by (nonlinear_arith)
            requires
                q >= 0,
        ;
    }
}

/// A typed texel encoding: a value a texture of this pixel format stores,
/// with its exact byte serialization.
pub trait Pixel: Sized {
    /// One texel, as client code holds it.
    type Encoding: Copy;

    /// The pixel format of this encoding.
    spec fn spec_pixel_format() -> PixelFormat;

    /// The bytes one texel serializes to.
    spec fn spec_encode(e: Self::Encoding) -> Seq<u8>;

    /// A texel's serialization is exactly one pixel wide.
    proof fn lemma_encode_len(e: Self::Encoding)
        ensures
            Self::spec_encode(e).len() == spec_bytes_len(Self::spec_pixel_format().format),
    ;

    /// The pixel format of this encoding.
    fn pixel_format() -> (pf: PixelFormat)
        ensures
            pf == Self::spec_pixel_format(),
    ;

    /// Serialize one texel.
    fn encode(e: Self::Encoding) -> (r: Vec<u8>)
        ensures
            r@ == Self::spec_encode(e),
    ;
}

/// The serialization of a sequence of texels, in order.
pub open spec fn spec_encode_seq<P: Pixel>(texels: Seq<P::Encoding>) -> Seq<u8>
    decreases texels.len(),
{
    if texels.len() == 0 {
        Seq::empty()
    } else {
        spec_encode_seq::<P>(texels.drop_last()) + P::spec_encode(texels.last())
    }
}

/// Serializing `n` texels yields `n` pixel-widths of bytes.
pub proof fn lemma_encode_seq_len<P: Pixel>(texels: Seq<P::Encoding>)
    ensures
        spec_encode_seq::<P>(texels).len() == texels.len() * spec_bytes_len(
            P::spec_pixel_format().format,
        ),
    decreases texels.len(),
{
    let b = spec_bytes_len(P::spec_pixel_format().format);
    if texels.len() == 0 {
    } else {
        lemma_encode_seq_len::<P>(texels.drop_last());
        P::lemma_encode_len(texels.last());
        assert((texels.len() - 1) * b + b == texels.len() * b) by (nonlinear_arith);
    }
}

/// Serialize a sequence of texels into one byte vector.
pub fn encode_texels<P: Pixel>(texels: &Vec<P::Encoding>) -> (r: Vec<u8>)
    ensures
        r@ == spec_encode_seq::<P>(texels@),
        r@.len() == texels@.len() * spec_bytes_len(P::spec_pixel_format().format),
{
    let mut out: Vec<u8> = Vec::new();
    let mut i: usize = 0;
    while i < texels.len()
        invariant
            i <= texels@.len(),
            out@ == spec_encode_seq::<P>(texels@.take(i as int)),
        decreases texels@.len() - i,
    {
        let mut enc = P::encode(texels[i]);
        out.append(&mut enc);
        proof {
            let pre = texels@.take(i as int);
            let cur = texels@.take(i + 1 as int);
            assert(cur.drop_last() =~= pre);
            assert(cur.last() == texels@[i as int]);
        }
        i += 1;
    }
    proof {
        assert(texels@.take(texels@.len() as int) =~= texels@);
        lemma_encode_seq_len::<P>(texels@);
    }
    out
}

/// One 8-bit red channel, normalized on sampling.
#[derive(Clone, Copy, Debug)]
pub struct NormR8UI;

impl Pixel for NormR8UI {
    type Encoding = u8;

    open spec fn spec_pixel_format() -> PixelFormat {
        PixelFormat { format: Format::R(ChannelSize::Eight), encoding: ChannelType::NormUnsigned }
    }

    open spec fn spec_encode(e: u8) -> Seq<u8> {
        seq![e]
    }

    proof fn lemma_encode_len(e: u8) {
    }

    fn pixel_format() -> PixelFormat {
        PixelFormat { format: Format::R(ChannelSize::Eight), encoding: ChannelType::NormUnsigned }
    }

    fn encode(e: u8) -> (r: Vec<u8>)
    {
        let mut v: Vec<u8> = Vec::new();
        v.push(e);
        proof {
            assert(v@ =~= Self::spec_encode(e));
        }
        v
    }
}

/// 8-bit red, green and blue channels, normalized on sampling.
#[derive(Clone, Copy, Debug)]
pub struct NormRGB8UI;

impl Pixel for NormRGB8UI {
    type Encoding = [u8; 3];

    open spec fn spec_pixel_format() -> PixelFormat {
        PixelFormat {
            format: Format::RGB(ChannelSize::Eight, ChannelSize::Eight, ChannelSize::Eight),
            encoding: ChannelType::NormUnsigned,
        }
    }

    open spec fn spec_encode(e: [u8; 3]) -> Seq<u8> {
        seq![e[0], e[1], e[2]]
    }

    proof fn lemma_encode_len(e: [u8; 3]) {
    }

    fn pixel_format() -> PixelFormat {
        PixelFormat {
            format: Format::RGB(ChannelSize::Eight, ChannelSize::Eight, ChannelSize::Eight),
            encoding: ChannelType::NormUnsigned,
        }
    }

    fn encode(e: [u8; 3]) -> (r: Vec<u8>)
    {
        let mut v: Vec<u8> = Vec::new();
        v.push(e[0]);
        v.push(e[1]);
        v.push(e[2]);
        proof {
            assert(v@ =~= Self::spec_encode(e));
        }
        v
    }
}

/// 8-bit red, green, blue and alpha channels, normalized on sampling.
#[derive(Clone, Copy, Debug)]
pub struct NormRGBA8UI;

impl Pixel for NormRGBA8UI {
    type Encoding = [u8; 4];

    open spec fn spec_pixel_format() -> PixelFormat {
        PixelFormat {
            format: Format::RGBA(
                ChannelSize::Eight,
                ChannelSize::Eight,
                ChannelSize::Eight,
                ChannelSize::Eight,
            ),
            encoding: ChannelType::NormUnsigned,
        }
    }

    open spec fn spec_encode(e: [u8; 4]) -> Seq<u8> {
        seq![e[0], e[1], e[2], e[3]]
    }

    proof fn lemma_encode_len(e: [u8; 4]) {
    }

    fn pixel_format() -> PixelFormat {
        PixelFormat {
            format: Format::RGBA(
                ChannelSize::Eight,
                ChannelSize::Eight,
                ChannelSize::Eight,
                ChannelSize::Eight,
            ),
            encoding: ChannelType::NormUnsigned,
        }
    }

    fn encode(e: [u8; 4]) -> (r: Vec<u8>)
    {
        let mut v: Vec<u8> = Vec::new();
        v.push(e[0]);
        v.push(e[1]);
        v.push(e[2]);
        v.push(e[3]);
        proof {
            assert(v@ =~= Self::spec_encode(e));
        }
        v
    }
}

/// One 32-bit red channel, normalized on sampling. The device stores no
/// 32-bit normalized channels, so this format exists on the interface
/// side only and every storage lookup for it fails.
#[derive(Clone, Copy, Debug)]
pub struct NormR32UI;

impl Pixel for NormR32UI {
    type Encoding = u32;

    open spec fn spec_pixel_format() -> PixelFormat {
        PixelFormat {
            format: Format::R(ChannelSize::ThirtyTwo),
            encoding: ChannelType::NormUnsigned,
        }
    }

    open spec fn spec_encode(e: u32) -> Seq<u8> {
        seq![
            (e & 0xff) as u8,
            ((e >> 8) & 0xff) as u8,
            ((e >> 16) & 0xff) as u8,
            ((e >> 24) & 0xff) as u8,
        ]
    }

    proof fn lemma_encode_len(e: u32) {
    }

    fn pixel_format() -> PixelFormat {
        PixelFormat {
            format: Format::R(ChannelSize::ThirtyTwo),
            encoding: ChannelType::NormUnsigned,
        }
    }

    fn encode(e: u32) -> (r: Vec<u8>)
    {
        let mut v: Vec<u8> = Vec::new();
        v.push((e & 0xff) as u8);
        v.push(((e >> 8) & 0xff) as u8);
        v.push(((e >> 16) & 0xff) as u8);
        v.push(((e >> 24) & 0xff) as u8);
        proof {
            assert(v@ =~= Self::spec_encode(e));
        }
        v
    }
}


/// The name of a channel size, as text.
pub open spec fn spec_channel_size_text(s: ChannelSize) -> Seq<char> {
    match s {
        ChannelSize::Eight => "Eight"@,
        ChannelSize::Sixteen => "Sixteen"@,
        ChannelSize::ThirtyTwo => "ThirtyTwo"@,
    }
}

/// The name of a channel size, as text.
fn channel_size_text(s: ChannelSize) -> (r: &'static str)
    ensures
        r@ == spec_channel_size_text(s),
{
    match s {
        ChannelSize::Eight => "Eight",
        ChannelSize::Sixteen => "Sixteen",
        ChannelSize::ThirtyTwo => "ThirtyTwo",
    }
}

/// The name of a channel type, as text.
pub open spec fn spec_channel_type_text(t: ChannelType) -> Seq<char> {
    match t {
        ChannelType::NormIntegral => "NormIntegral"@,
        ChannelType::NormUnsigned => "NormUnsigned"@,
        ChannelType::Integral => "Integral"@,
        ChannelType::Unsigned => "Unsigned"@,
    }
}

/// The name of a channel type, as text.
fn channel_type_text(t: ChannelType) -> (r: &'static str)
    ensures
        r@ == spec_channel_type_text(t),
{
    match t {
        ChannelType::NormIntegral => "NormIntegral",
        ChannelType::NormUnsigned => "NormUnsigned",
        ChannelType::Integral => "Integral",
        ChannelType::Unsigned => "Unsigned",
    }
}

/// A format as text: the layout with each channel's size.
pub open spec fn spec_format_text(f: Format) -> Seq<char> {
    match f {
        Format::R(a) => "R("@ + spec_channel_size_text(a) + ")"@,
        Format::RG(a, b) => "RG("@ + spec_channel_size_text(a) + ", "@ + spec_channel_size_text(b)
            + ")"@,
        Format::RGB(a, b, c) => "RGB("@ + spec_channel_size_text(a) + ", "@
            + spec_channel_size_text(b) + ", "@ + spec_channel_size_text(c) + ")"@,
        Format::RGBA(a, b, c, d) => "RGBA("@ + spec_channel_size_text(a) + ", "@
            + spec_channel_size_text(b) + ", "@ + spec_channel_size_text(c) + ", "@
            + spec_channel_size_text(d) + ")"@,
    }
}

/// A pixel format as one line of text: the layout with channel sizes,
/// then the channel type.
pub open spec fn spec_pixel_format_text(pf: PixelFormat) -> Seq<char> {
    spec_format_text(pf.format) + " "@ + spec_channel_type_text(pf.encoding)
}

/// Render a pixel format as one line of text.
pub fn pixel_format_text(pf: PixelFormat) -> (r: String)
    ensures
        r@ == spec_pixel_format_text(pf),
{
    let mut s: String;
    match pf.format {
        Format::R(a) => {
            s = String::from_str("R(");
            s.append(channel_size_text(a));
            s.append(")");
        },
        Format::RG(a, b) => {
            s = String::from_str("RG(");
            s.append(channel_size_text(a));
            s.append(", ");
            s.append(channel_size_text(b));
            s.append(")");
        },
        Format::RGB(a, b, c) => {
            s = String::from_str("RGB(");
            s.append(channel_size_text(a));
            s.append(", ");
            s.append(channel_size_text(b));
            s.append(", ");
            s.append(channel_size_text(c));
            s.append(")");
        },
        Format::RGBA(a, b, c, d) => {
            s = String::from_str("RGBA(");
            s.append(channel_size_text(a));
            s.append(", ");
            s.append(channel_size_text(b));
            s.append(", ");
            s.append(channel_size_text(c));
            s.append(", ");
            s.append(channel_size_text(d));
            s.append(")");
        },
    }
    s.append(" ");
    s.append(channel_type_text(pf.encoding));
    s
}

} // verus!
