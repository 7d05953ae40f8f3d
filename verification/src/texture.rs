//! Texture sampling descriptors, texture errors, and the texture
//! resource itself.

use vstd::prelude::*;

use vstd::string::StringExecFns;

use core::marker::PhantomData;

use crate::backend::BackendObs;
use crate::backend::TexObs;
use crate::backend::TextureBackend;
use crate::backend::lemma_covering_upload;
use crate::backend::spec_capacity_bytes;
use crate::backend::spec_dim_capacity;
use crate::backend::spec_expected_bytes;
use crate::backend::spec_new_texture_post;
use crate::backend::spec_region_ex;
use crate::backend::spec_region_ey;
use crate::backend::spec_region_ez;
use crate::backend::spec_region_in_bounds;
use crate::backend::spec_region_x0;
use crate::backend::spec_region_y0;
use crate::backend::spec_region_z0;
use crate::backend::spec_store_after_upload;
use crate::backend::spec_upload_post;
use crate::dim::Dim;
use crate::dim::Dimensionable;
use crate::pixel::Pixel;
use crate::pixel::PixelFormat;
use crate::pixel::lemma_bytes_len_range;
use crate::pixel::lemma_encode_seq_len;
use crate::pixel::spec_bytes_len;
use crate::pixel::spec_device_pixel_format;
use crate::pixel::spec_encode_seq;

verus! {

/// How to wrap texture coordinates while sampling textures.
#[derive(Clone, Copy, Debug, PartialEq, Eq, Structural)]
pub enum Wrap {
    /// Coordinates outside [0, 1] are clamped to 0 or 1.
    ClampToEdge,
    /// Coordinates repeat outside [0, 1].
    Repeat,
    /// Coordinates repeat, alternating direction, outside [0, 1].
    MirroredRepeat,
}

/// Minification filter.
#[derive(Clone, Copy, Debug, PartialEq, Eq, Structural)]
pub enum MinFilter {
    /// Nearest interpolation.
    Nearest,
    /// Linear interpolation between surrounding pixels.
    Linear,
    /// Nearest mipmap, nearest interpolation within it.
    NearestMipmapNearest,
    /// Nearest mipmap, linear interpolation within it.
    NearestMipmapLinear,
    /// Linear blend of two mipmaps, nearest interpolation within each.
    LinearMipmapNearest,
    /// Linear blend of two mipmaps, linear interpolation within each.
    LinearMipmapLinear,
}

/// Magnification filter.
#[derive(Clone, Copy, Debug, PartialEq, Eq, Structural)]
pub enum MagFilter {
    /// Nearest interpolation.
    Nearest,
    /// Linear interpolation between surrounding pixels.
    Linear,
}

/// Comparison a depth texture performs on sampling, when enabled.
#[derive(Clone, Copy, Debug, PartialEq, Eq, Structural)]
pub enum DepthComparison {
    /// Never passes.
    Never,
    /// Always passes.
    Always,
    /// Passes on equality.
    Equal,
    /// Passes on inequality.
    NotEqual,
    /// Passes when the reference is less.
    Less,
    /// Passes when the reference is less or equal.
    LessOrEqual,
    /// Passes when the reference is greater.
    Greater,
    /// Passes when the reference is greater or equal.
    GreaterOrEqual,
}

/// How a texture should be sampled: wrapping per coordinate, filters,
/// and an optional depth comparison. Copied into the backend at texture
/// construction time.
#[derive(Clone, Copy, Debug, PartialEq, Eq, Structural)]
pub struct Sampler {
    /// Wrapping of the *r* sampling coordinate.
    pub wrap_r: Wrap,
    /// Wrapping of the *s* sampling coordinate.
    pub wrap_s: Wrap,
    /// Wrapping of the *t* sampling coordinate.
    pub wrap_t: Wrap,
    /// Minification filter.
    pub min_filter: MinFilter,
    /// Magnification filter.
    pub mag_filter: MagFilter,
    /// Depth comparison, for depth textures that compare on sampling.
    pub depth_comparison: Option<DepthComparison>,
}

impl Default for Sampler {
    /// Clamped wrapping on every axis, linear-mipmap-linear (trilinear)
    /// minification, linear magnification, no depth comparison.
    ///
    /// The minification default deliberately deviates from the driver's
    /// own default (nearest-mipmap-linear): this interface fixes the
    /// trilinear filter as its default.
    fn default() -> (s: Sampler)
        ensures
            s.wrap_r == Wrap::ClampToEdge,
            s.wrap_s == Wrap::ClampToEdge,
            s.wrap_t == Wrap::ClampToEdge,
            s.min_filter == MinFilter::LinearMipmapLinear,
            s.mag_filter == MagFilter::Linear,
            s.depth_comparison is None,
    {
        Sampler {
            wrap_r: Wrap::ClampToEdge,
            wrap_s: Wrap::ClampToEdge,
            wrap_t: Wrap::ClampToEdge,
            min_filter: MinFilter::LinearMipmapLinear,
            mag_filter: MagFilter::Linear,
            depth_comparison: None,
        }
    }
}

/// Whether an operation should regenerate mipmaps afterwards.
#[derive(Clone, Copy, Debug, Eq, Hash, PartialEq, Structural)]
pub enum GenMipmaps {
    /// Regenerate mipmaps.
    Yes,
    /// Leave mipmaps alone.
    No,
}

/// Errors that might happen when working with textures.
#[non_exhaustive]
#[derive(Clone, Debug, Eq, PartialEq)]
pub enum TextureError {
    /// A texture's storage failed to be created; the payload says why.
    TextureStorageCreationFailed(String),
    /// Not enough pixel data provided for the area to fill. Raised before
    /// any device transfer is issued: this check is what keeps a transfer
    /// from reading past the provided data.
    NotEnoughPixels {
        /// Bytes the area requires.
        expected_bytes: usize,
        /// Bytes provided.
        provided_bytes: usize,
    },
    /// The pixel format exists on the interface side but the device has
    /// no storage for it.
    UnsupportedPixelFormat(PixelFormat),
    /// Texels could not be retrieved from the texture.
    CannotRetrieveTexels(String),
    /// Texels could not be uploaded to the texture.
    CannotUploadTexels(String),
}

impl TextureError {
    /// A texture's storage failed to be created.
    pub fn texture_storage_creation_failed(reason: String) -> (e: Self)
        ensures
            e == TextureError::TextureStorageCreationFailed(reason),
    {
        TextureError::TextureStorageCreationFailed(reason)
    }

    /// Not enough pixel data provided for the area to fill.
    pub fn not_enough_pixels(expected_bytes: usize, provided_bytes: usize) -> (e: Self)
        ensures
            e == (TextureError::NotEnoughPixels { expected_bytes, provided_bytes }),
    {
        TextureError::NotEnoughPixels { expected_bytes, provided_bytes }
    }

    /// Unsupported pixel format.
    pub fn unsupported_pixel_format(pf: PixelFormat) -> (e: Self)
        ensures
            e == TextureError::UnsupportedPixelFormat(pf),
    {
        TextureError::UnsupportedPixelFormat(pf)
    }

    /// Texels could not be retrieved from the texture.
    pub fn cannot_retrieve_texels(reason: String) -> (e: Self)
        ensures
            e == TextureError::CannotRetrieveTexels(reason),
    {
        TextureError::CannotRetrieveTexels(reason)
    }

    /// Texels could not be uploaded to the texture.
    pub fn cannot_upload_texels(reason: String) -> (e: Self)
        ensures
            e == TextureError::CannotUploadTexels(reason),
    {
        TextureError::CannotUploadTexels(reason)
    }

    /// The error as one line of text, as a diagnostic printer would
    /// show it.
    pub fn message(&self) -> (s: String)
        ensures
            s@ == spec_texture_error_message(*self),
    {
        match self {
            TextureError::TextureStorageCreationFailed(r) => {
                let mut s = String::from_str("texture storage creation failed: ");
                s.append(r.as_str());
                s
            },
            TextureError::NotEnoughPixels { expected_bytes, provided_bytes } => {
                let mut s = String::from_str("not enough texels provided: expected ");
                let expected = decimal_string(*expected_bytes);
                s.append(expected.as_str());
                s.append(" bytes, provided ");
                let provided = decimal_string(*provided_bytes);
                s.append(provided.as_str());
                s.append(" bytes");
                s
            },
            TextureError::UnsupportedPixelFormat(pf) => {
                let mut s = String::from_str("unsupported pixel format: ");
                let rendered = crate::pixel::pixel_format_text(*pf);
                s.append(rendered.as_str());
                s
            },
            TextureError::CannotRetrieveTexels(r) => {
                let mut s = String::from_str("cannot retrieve texture's texels: ");
                s.append(r.as_str());
                s
            },
            TextureError::CannotUploadTexels(r) => {
                let mut s = String::from_str("cannot upload texels to texture: ");
                s.append(r.as_str());
                s
            },
        }
    }
}

/// The one-line text of a texture error.
pub open spec fn spec_texture_error_message(e: TextureError) -> Seq<char> {
    match e {
        TextureError::TextureStorageCreationFailed(r) => "texture storage creation failed: "@
            + r@,
        TextureError::NotEnoughPixels { expected_bytes, provided_bytes } => {
            "not enough texels provided: expected "@ + spec_decimal(expected_bytes as nat)
                + " bytes, provided "@ + spec_decimal(provided_bytes as nat) + " bytes"@
        },
        TextureError::UnsupportedPixelFormat(pf) => "unsupported pixel format: "@
            + crate::pixel::spec_pixel_format_text(pf),
        TextureError::CannotRetrieveTexels(r) => "cannot retrieve texture's texels: "@ + r@,
        TextureError::CannotUploadTexels(r) => "cannot upload texels to texture: "@ + r@,
    }
}


/// The character of a single decimal digit.
pub open spec fn spec_digit_char(d: int) -> char {
    if d == 0 {
        '0'
    } else if d == 1 {
        '1'
    } else if d == 2 {
        '2'
    } else if d == 3 {
        '3'
    } else if d == 4 {
        '4'
    } else if d == 5 {
        '5'
    } else if d == 6 {
        '6'
    } else if d == 7 {
        '7'
    } else if d == 8 {
        '8'
    } else {
        '9'
    }
}

/// The decimal rendering of a number, most significant digit first.
pub open spec fn spec_decimal(n: nat) -> Seq<char>
    decreases n,
{
    if n < 10 {
        seq![spec_digit_char(n as int)]
    } else {
        spec_decimal(n / 10) + seq![spec_digit_char((n % 10) as int)]
    }
}

/// One decimal digit, as text.
fn digit_str(d: usize) -> (s: &'static str)
    requires
        d < 10,
    ensures
        s@ == seq![spec_digit_char(d as int)],
{
    proof {
        reveal_strlit("0");
        reveal_strlit("1");
        reveal_strlit("2");
        reveal_strlit("3");
        reveal_strlit("4");
        reveal_strlit("5");
        reveal_strlit("6");
        reveal_strlit("7");
        reveal_strlit("8");
        reveal_strlit("9");
    }
    match d {
        0 => "0",
        1 => "1",
        2 => "2",
        3 => "3",
        4 => "4",
        5 => "5",
        6 => "6",
        7 => "7",
        8 => "8",
        _ => "9",
    }
}

/// Render a number in decimal.
pub fn decimal_string(n: usize) -> (s: String)
    ensures
        s@ == spec_decimal(n as nat),
    decreases n,
{
    if n < 10 {
        String::from_str(digit_str(n))
    } else {
        let mut s = decimal_string(n / 10);
        s.append(digit_str(n % 10));
        s
    }
}

/// Whether a backend in state `b` can allocate a texture of `size`: a
/// handle is left, the pixel format has device storage, and the byte
/// size fits the address space.
pub open spec fn spec_alloc_ok<D: Dimensionable, P: Pixel>(b: BackendObs, size: D::Size) -> bool {
    &&& b.can_allocate
    &&& spec_device_pixel_format(P::spec_pixel_format()) is Some
    &&& spec_capacity_bytes::<D, P>(size) <= usize::MAX
}

/// A GPU texture: a backend handle, the declared size, and the pixel
/// type it stores, every operation mediated by the backend contract.
///
/// Release is explicit: [`Texture::destroy`] returns the handle to the
/// backend and clears any binding-cache entry still naming it. A driver
/// backend outside this crate may instead tie both to its
/// representation's drop.
pub struct Texture<B, D, P> where B: TextureBackend<D, P>, D: Dimensionable, P: Pixel {
    repr: B::TextureRepr,
    size: D::Size,
    _pixel: PhantomData<P>,
}

impl<B, D, P> Texture<B, D, P> where B: TextureBackend<D, P>, D: Dimensionable, P: Pixel {
    /// Well-formedness: the representation is well-formed and its
    /// storage extents agree with the declared size.
    pub closed spec fn wf(&self) -> bool {
        &&& B::repr_inv(&self.repr)
        &&& B::tex_obs(&self.repr).width == D::spec_width(self.size)
        &&& B::tex_obs(&self.repr).height == D::spec_height(self.size)
        &&& B::tex_obs(&self.repr).depth == D::spec_depth(self.size)
    }

    /// The declared size.
    pub closed spec fn spec_size(&self) -> D::Size {
        self.size
    }

    /// Everything the texture's representation determines.
    pub closed spec fn obs(&self) -> TexObs {
        B::tex_obs(&self.repr)
    }

    /// Create a texture by reserving storage only: `mipmaps` extra
    /// levels beyond the base level, sampled as `sampler` says.
    pub fn new_no_texels(b: &mut B, size: D::Size, mipmaps: usize, sampler: Sampler) -> (r: Result<
        Self,
        TextureError,
    >)
        requires
            old(b).inv(),
            mipmaps + 1 <= usize::MAX,
        ensures
            final(b).inv(),
            r is Ok <==> spec_alloc_ok::<D, P>(old(b).obs(), size),
            r matches Ok(tex) ==> tex.wf() && tex.spec_size() == size
                && spec_new_texture_post::<D, P>(
                old(b).obs(),
                final(b).obs(),
                size,
                mipmaps as int,
                sampler,
                Some(tex.obs()),
                None,
            ),
            r matches Err(e) ==> spec_new_texture_post::<D, P>(
                old(b).obs(),
                final(b).obs(),
                size,
                mipmaps as int,
                sampler,
                None,
                Some(e),
            ),
    {
        let repr = b.new_texture(size, mipmaps, sampler)?;
        Ok(Texture { repr, size, _pixel: PhantomData })
    }

    /// Create a texture and upload its whole contents in one go. On any
    /// failure the reserved storage is released again before the error
    /// is returned.
    pub fn new(
        b: &mut B,
        size: D::Size,
        mipmaps: usize,
        sampler: Sampler,
        gen_mipmaps: GenMipmaps,
        texels: &Vec<P::Encoding>,
    ) -> (r: Result<Self, TextureError>)
        requires
            old(b).inv(),
            mipmaps + 1 <= usize::MAX,
            texels@.len() * spec_bytes_len(P::spec_pixel_format().format) <= usize::MAX,
            spec_expected_bytes::<D, P>(size) <= usize::MAX,
        ensures
            final(b).inv(),
            r is Ok <==> spec_alloc_ok::<D, P>(old(b).obs(), size) && texels@.len()
                * spec_bytes_len(P::spec_pixel_format().format) >= spec_expected_bytes::<D, P>(
                size,
            ),
            r matches Ok(tex) ==> {
                &&& tex.wf()
                &&& tex.spec_size() == size
                &&& tex.obs().mipmaps == mipmaps + 1
                &&& tex.obs().handle != 0
                &&& tex.obs().handle == old(b).obs().next_handle
                &&& final(b).obs().next_handle == old(b).obs().next_handle + 1
                &&& tex.obs().sampler == sampler
                &&& tex.obs().texels == spec_store_after_upload(
                    Seq::new(spec_capacity_bytes::<D, P>(size) as nat, |i: int| 0u8),
                    D::spec_width(size),
                    D::spec_height(size),
                    spec_bytes_len(P::spec_pixel_format().format),
                    spec_region_x0::<D>(D::spec_zero_offset()),
                    spec_region_y0::<D>(D::spec_zero_offset()),
                    spec_region_z0::<D>(D::spec_zero_offset()),
                    spec_region_ex::<D>(size),
                    spec_region_ey::<D>(size),
                    spec_region_ez::<D>(size),
                    spec_encode_seq::<P>(texels@),
                )
                &&& (D::spec_count(size) == spec_dim_capacity::<D>(size) ==> tex.obs().texels
                    == spec_encode_seq::<P>(texels@).take(spec_capacity_bytes::<D, P>(size) as int))
            },
            r matches Err(e) ==> {
                &&& (!spec_alloc_ok::<D, P>(old(b).obs(), size)
                    ==> e is TextureStorageCreationFailed)
                &&& (spec_alloc_ok::<D, P>(old(b).obs(), size) ==> e == (
                TextureError::NotEnoughPixels {
                    expected_bytes: spec_expected_bytes::<D, P>(size) as usize,
                    provided_bytes: (texels@.len() * spec_bytes_len(
                        P::spec_pixel_format().format,
                    )) as usize,
                }))
            },
    {
        let mut tex = Self::new_no_texels(b, size, mipmaps, sampler)?;
        proof {
            lemma_whole_texture_region_in_bounds::<D>(size);
            lemma_encode_seq_len::<P>(texels@);
            lemma_capacity_bytes_nonneg::<D, P>(size);
        }
        let ghost b_mid = b.obs();
        let ghost t_mid = tex.obs();
        match tex.upload(b, gen_mipmaps, texels) {
            Ok(()) => {
                proof {
                    if D::spec_count(size) == spec_dim_capacity::<D>(size) {
                        lemma_covering_upload::<D, P>(
                            b_mid,
                            b.obs(),
                            t_mid,
                            tex.obs(),
                            gen_mipmaps,
                            size,
                            spec_encode_seq::<P>(texels@),
                        );
                    }
                }
                Ok(tex)
            },
            Err(e) => {
                tex.destroy(b);
                Err(e)
            },
        }
    }

    /// Create a texture and upload raw bytes for its whole contents. On
    /// any failure the reserved storage is released again before the
    /// error is returned.
    pub fn new_raw(
        b: &mut B,
        size: D::Size,
        mipmaps: usize,
        sampler: Sampler,
        gen_mipmaps: GenMipmaps,
        texels: &Vec<u8>,
    ) -> (r: Result<Self, TextureError>)
        requires
            old(b).inv(),
            mipmaps + 1 <= usize::MAX,
            spec_expected_bytes::<D, P>(size) <= usize::MAX,
        ensures
            final(b).inv(),
            r is Ok <==> spec_alloc_ok::<D, P>(old(b).obs(), size) && texels@.len()
                >= spec_expected_bytes::<D, P>(size),
            r matches Ok(tex) ==> {
                &&& tex.wf()
                &&& tex.spec_size() == size
                &&& tex.obs().mipmaps == mipmaps + 1
                &&& tex.obs().handle != 0
                &&& tex.obs().handle == old(b).obs().next_handle
                &&& final(b).obs().next_handle == old(b).obs().next_handle + 1
                &&& tex.obs().texels == spec_store_after_upload(
                    Seq::new(spec_capacity_bytes::<D, P>(size) as nat, |i: int| 0u8),
                    D::spec_width(size),
                    D::spec_height(size),
                    spec_bytes_len(P::spec_pixel_format().format),
                    spec_region_x0::<D>(D::spec_zero_offset()),
                    spec_region_y0::<D>(D::spec_zero_offset()),
                    spec_region_z0::<D>(D::spec_zero_offset()),
                    spec_region_ex::<D>(size),
                    spec_region_ey::<D>(size),
                    spec_region_ez::<D>(size),
                    texels@,
                )
                &&& (D::spec_count(size) == spec_dim_capacity::<D>(size) ==> tex.obs().texels
                    == texels@.take(spec_capacity_bytes::<D, P>(size) as int))
            },
            r matches Err(e) ==> {
                &&& (!spec_alloc_ok::<D, P>(old(b).obs(), size)
                    ==> e is TextureStorageCreationFailed)
                &&& (spec_alloc_ok::<D, P>(old(b).obs(), size) ==> e == (
                TextureError::NotEnoughPixels {
                    expected_bytes: spec_expected_bytes::<D, P>(size) as usize,
                    provided_bytes: texels@.len() as usize,
                }))
            },
    {
        let mut tex = Self::new_no_texels(b, size, mipmaps, sampler)?;
        proof {
            lemma_whole_texture_region_in_bounds::<D>(size);
            lemma_capacity_bytes_nonneg::<D, P>(size);
        }
        let ghost b_mid = b.obs();
        let ghost t_mid = tex.obs();
        match tex.upload_raw(b, gen_mipmaps, texels) {
            Ok(()) => {
                proof {
                    if D::spec_count(size) == spec_dim_capacity::<D>(size) {
                        lemma_covering_upload::<D, P>(
                            b_mid,
                            b.obs(),
                            t_mid,
                            tex.obs(),
                            gen_mipmaps,
                            size,
                            texels@,
                        );
                    }
                }
                Ok(tex)
            },
            Err(e) => {
                tex.destroy(b);
                Err(e)
            },
        }
    }

    /// The effective mipmap level count: the extra levels requested at
    /// construction, plus the base level.
    pub fn mipmaps(&self) -> (n: usize)
        requires
            self.wf(),
        ensures
            n == self.obs().mipmaps,
    {
        B::mipmaps(&self.repr)
    }

    /// The declared size.
    pub fn size(&self) -> (s: D::Size)
        ensures
            s == self.spec_size(),
    {
        self.size
    }

    /// The backend handle, for collaborators that reference the texture
    /// inside a shading stage.
    pub fn handle(&self) -> (h: u32)
        requires
            self.wf(),
        ensures
            h == self.obs().handle,
    {
        B::texture_handle(&self.repr)
    }

    /// Resize the texture, reusing its backend resources: the handle —
    /// the resource identity — persists, the prior texels are lost, and
    /// the given texels are uploaded against the new size's byte
    /// requirement.
    pub fn resize(
        &mut self,
        b: &mut B,
        size: D::Size,
        mipmaps: usize,
        gen_mipmaps: GenMipmaps,
        texels: &Vec<P::Encoding>,
    ) -> (r: Result<(), TextureError>)
        requires
            old(self).wf(),
            old(b).inv(),
            mipmaps + 1 <= usize::MAX,
            texels@.len() * spec_bytes_len(P::spec_pixel_format().format) <= usize::MAX,
            spec_expected_bytes::<D, P>(size) <= usize::MAX,
        ensures
            final(b).inv(),
            r is Ok <==> spec_device_pixel_format(P::spec_pixel_format()) is Some
                && spec_capacity_bytes::<D, P>(size) <= usize::MAX && texels@.len()
                * spec_bytes_len(P::spec_pixel_format().format) >= spec_expected_bytes::<D, P>(
                size,
            ),
            r is Ok ==> {
                &&& final(self).wf()
                &&& final(self).spec_size() == size
                &&& final(self).obs().handle == old(self).obs().handle
                &&& final(self).obs().mipmaps == old(self).obs().mipmaps
                &&& final(self).obs().storage_levels == mipmaps + 1
                &&& final(self).obs().texels == spec_store_after_upload(
                    Seq::new(spec_capacity_bytes::<D, P>(size) as nat, |i: int| 0u8),
                    D::spec_width(size),
                    D::spec_height(size),
                    spec_bytes_len(P::spec_pixel_format().format),
                    spec_region_x0::<D>(D::spec_zero_offset()),
                    spec_region_y0::<D>(D::spec_zero_offset()),
                    spec_region_z0::<D>(D::spec_zero_offset()),
                    spec_region_ex::<D>(size),
                    spec_region_ey::<D>(size),
                    spec_region_ez::<D>(size),
                    spec_encode_seq::<P>(texels@),
                )
                &&& (D::spec_count(size) == spec_dim_capacity::<D>(size) ==> final(self).obs().texels == spec_encode_seq::<P>(texels@).take(
                    spec_capacity_bytes::<D, P>(size) as int,
                ))
            },
            r matches Err(e) ==> {
                &&& (!(spec_device_pixel_format(P::spec_pixel_format()) is Some
                    && spec_capacity_bytes::<D, P>(size) <= usize::MAX) ==> {
                    &&& e is TextureStorageCreationFailed
                    &&& final(self).wf()
                    &&& final(self).spec_size() == old(self).spec_size()
                    &&& final(self).obs() == old(self).obs()
                })
                &&& (spec_device_pixel_format(P::spec_pixel_format()) is Some
                    && spec_capacity_bytes::<D, P>(size) <= usize::MAX ==> {
                    &&& e == (TextureError::NotEnoughPixels {
                        expected_bytes: spec_expected_bytes::<D, P>(size) as usize,
                        provided_bytes: (texels@.len() * spec_bytes_len(
                            P::spec_pixel_format().format,
                        )) as usize,
                    })
                    &&& final(self).wf()
                    &&& final(self).spec_size() == size
                    &&& final(self).obs().handle == old(self).obs().handle
                })
            },
    {
        match b.resize(&mut self.repr, size, mipmaps) {
            Err(e) => Err(e),
            Ok(()) => {
                self.size = size;
                proof {
                    lemma_whole_texture_region_in_bounds::<D>(size);
                    lemma_encode_seq_len::<P>(texels@);
                    lemma_capacity_bytes_nonneg::<D, P>(size);
                }
                let ghost b_mid = b.obs();
                let ghost t_mid = self.obs();
                let r = self.upload(b, gen_mipmaps, texels);
                proof {
                    if r is Ok && D::spec_count(size) == spec_dim_capacity::<D>(size) {
                        lemma_covering_upload::<D, P>(
                            b_mid,
                            b.obs(),
                            t_mid,
                            self.obs(),
                            gen_mipmaps,
                            size,
                            spec_encode_seq::<P>(texels@),
                        );
                    }
                }
                r
            },
        }
    }

    /// Resize the texture and upload raw bytes, reusing its backend
    /// resources; as [`Texture::resize`].
    pub fn resize_raw(
        &mut self,
        b: &mut B,
        size: D::Size,
        mipmaps: usize,
        gen_mipmaps: GenMipmaps,
        texels: &Vec<u8>,
    ) -> (r: Result<(), TextureError>)
        requires
            old(self).wf(),
            old(b).inv(),
            mipmaps + 1 <= usize::MAX,
            spec_expected_bytes::<D, P>(size) <= usize::MAX,
        ensures
            final(b).inv(),
            r is Ok <==> spec_device_pixel_format(P::spec_pixel_format()) is Some
                && spec_capacity_bytes::<D, P>(size) <= usize::MAX && texels@.len()
                >= spec_expected_bytes::<D, P>(size),
            r is Ok ==> {
                &&& final(self).wf()
                &&& final(self).spec_size() == size
                &&& final(self).obs().handle == old(self).obs().handle
                &&& final(self).obs().mipmaps == old(self).obs().mipmaps
                &&& final(self).obs().storage_levels == mipmaps + 1
                &&& final(self).obs().texels == spec_store_after_upload(
                    Seq::new(spec_capacity_bytes::<D, P>(size) as nat, |i: int| 0u8),
                    D::spec_width(size),
                    D::spec_height(size),
                    spec_bytes_len(P::spec_pixel_format().format),
                    spec_region_x0::<D>(D::spec_zero_offset()),
                    spec_region_y0::<D>(D::spec_zero_offset()),
                    spec_region_z0::<D>(D::spec_zero_offset()),
                    spec_region_ex::<D>(size),
                    spec_region_ey::<D>(size),
                    spec_region_ez::<D>(size),
                    texels@,
                )
                &&& (D::spec_count(size) == spec_dim_capacity::<D>(size) ==> final(self).obs().texels == texels@.take(spec_capacity_bytes::<D, P>(size) as int))
            },
            r matches Err(e) ==> {
                &&& (!(spec_device_pixel_format(P::spec_pixel_format()) is Some
                    && spec_capacity_bytes::<D, P>(size) <= usize::MAX) ==> {
                    &&& e is TextureStorageCreationFailed
                    &&& final(self).wf()
                    &&& final(self).spec_size() == old(self).spec_size()
                    &&& final(self).obs() == old(self).obs()
                })
                &&& (spec_device_pixel_format(P::spec_pixel_format()) is Some
                    && spec_capacity_bytes::<D, P>(size) <= usize::MAX ==> {
                    &&& e == (TextureError::NotEnoughPixels {
                        expected_bytes: spec_expected_bytes::<D, P>(size) as usize,
                        provided_bytes: texels@.len() as usize,
                    })
                    &&& final(self).wf()
                    &&& final(self).spec_size() == size
                    &&& final(self).obs().handle == old(self).obs().handle
                })
            },
    {
        match b.resize(&mut self.repr, size, mipmaps) {
            Err(e) => Err(e),
            Ok(()) => {
                self.size = size;
                proof {
                    lemma_whole_texture_region_in_bounds::<D>(size);
                    lemma_capacity_bytes_nonneg::<D, P>(size);
                }
                let ghost b_mid = b.obs();
                let ghost t_mid = self.obs();
                let r = self.upload_raw(b, gen_mipmaps, texels);
                proof {
                    if r is Ok && D::spec_count(size) == spec_dim_capacity::<D>(size) {
                        lemma_covering_upload::<D, P>(
                            b_mid,
                            b.obs(),
                            t_mid,
                            self.obs(),
                            gen_mipmaps,
                            size,
                            texels@,
                        );
                    }
                }
                r
            },
        }
    }

    /// Fill the region described by `offset` and `size` with one pixel
    /// value.
    pub fn clear_part(
        &mut self,
        b: &mut B,
        gen_mipmaps: GenMipmaps,
        offset: D::Offset,
        size: D::Size,
        pixel: P::Encoding,
    ) -> (r: Result<(), TextureError>)
        requires
            old(self).wf(),
            old(b).inv(),
            spec_capacity_bytes::<D, P>(size) <= usize::MAX,
        ensures
            final(b).inv(),
            final(self).wf(),
            final(self).spec_size() == old(self).spec_size(),
            spec_upload_post::<D, P>(
                old(b).obs(),
                final(b).obs(),
                old(self).obs(),
                final(self).obs(),
                gen_mipmaps,
                offset,
                size,
                spec_encode_seq::<P>(Seq::new(spec_dim_capacity::<D>(size) as nat, |i: int| pixel)),
                r,
            ),
    {
        b.clear_part(&mut self.repr, gen_mipmaps, offset, size, pixel)
    }

    /// Fill the whole texture with one pixel value.
    pub fn clear(&mut self, b: &mut B, gen_mipmaps: GenMipmaps, pixel: P::Encoding) -> (r: Result<
        (),
        TextureError,
    >)
        requires
            old(self).wf(),
            old(b).inv(),
            spec_capacity_bytes::<D, P>(old(self).spec_size()) <= usize::MAX,
        ensures
            final(b).inv(),
            final(self).wf(),
            final(self).spec_size() == old(self).spec_size(),
            spec_upload_post::<D, P>(
                old(b).obs(),
                final(b).obs(),
                old(self).obs(),
                final(self).obs(),
                gen_mipmaps,
                D::spec_zero_offset(),
                old(self).spec_size(),
                spec_encode_seq::<P>(
                    Seq::new(
                        spec_dim_capacity::<D>(old(self).spec_size()) as nat,
                        |i: int| pixel,
                    ),
                ),
                r,
            ),
    {
        let size = self.size;
        b.clear(&mut self.repr, gen_mipmaps, size, pixel)
    }

    /// Upload texels to the region described by `offset` and `size`.
    pub fn upload_part(
        &mut self,
        b: &mut B,
        gen_mipmaps: GenMipmaps,
        offset: D::Offset,
        size: D::Size,
        texels: &Vec<P::Encoding>,
    ) -> (r: Result<(), TextureError>)
        requires
            old(self).wf(),
            old(b).inv(),
            texels@.len() * spec_bytes_len(P::spec_pixel_format().format) <= usize::MAX,
            spec_expected_bytes::<D, P>(size) <= usize::MAX,
        ensures
            final(b).inv(),
            final(self).wf(),
            final(self).spec_size() == old(self).spec_size(),
            spec_upload_post::<D, P>(
                old(b).obs(),
                final(b).obs(),
                old(self).obs(),
                final(self).obs(),
                gen_mipmaps,
                offset,
                size,
                spec_encode_seq::<P>(texels@),
                r,
            ),
    {
        b.upload_part(&mut self.repr, gen_mipmaps, offset, size, texels)
    }

    /// Upload texels for the whole texture. Succeeds exactly when the
    /// format has device storage and at least `count * pixel width`
    /// bytes of texels are provided.
    pub fn upload(&mut self, b: &mut B, gen_mipmaps: GenMipmaps, texels: &Vec<P::Encoding>) -> (r:
        Result<(), TextureError>)
        requires
            old(self).wf(),
            old(b).inv(),
            texels@.len() * spec_bytes_len(P::spec_pixel_format().format) <= usize::MAX,
            spec_expected_bytes::<D, P>(old(self).spec_size()) <= usize::MAX,
        ensures
            final(b).inv(),
            final(self).wf(),
            final(self).spec_size() == old(self).spec_size(),
            spec_upload_post::<D, P>(
                old(b).obs(),
                final(b).obs(),
                old(self).obs(),
                final(self).obs(),
                gen_mipmaps,
                D::spec_zero_offset(),
                old(self).spec_size(),
                spec_encode_seq::<P>(texels@),
                r,
            ),
            spec_device_pixel_format(P::spec_pixel_format()) is Some ==> (r is Ok <==> texels@.len()
                * spec_bytes_len(P::spec_pixel_format().format) >= spec_expected_bytes::<D, P>(
                old(self).spec_size(),
            )),
    {
        proof {
            lemma_whole_texture_region_in_bounds::<D>(old(self).spec_size());
            lemma_encode_seq_len::<P>(texels@);
        }
        let size = self.size;
        b.upload(&mut self.repr, gen_mipmaps, size, texels)
    }

    /// Upload raw bytes to the region described by `offset` and `size`.
    pub fn upload_part_raw(
        &mut self,
        b: &mut B,
        gen_mipmaps: GenMipmaps,
        offset: D::Offset,
        size: D::Size,
        texels: &Vec<u8>,
    ) -> (r: Result<(), TextureError>)
        requires
            old(self).wf(),
            old(b).inv(),
            spec_expected_bytes::<D, P>(size) <= usize::MAX,
        ensures
            final(b).inv(),
            final(self).wf(),
            final(self).spec_size() == old(self).spec_size(),
            spec_upload_post::<D, P>(
                old(b).obs(),
                final(b).obs(),
                old(self).obs(),
                final(self).obs(),
                gen_mipmaps,
                offset,
                size,
                texels@,
                r,
            ),
    {
        b.upload_part_raw(&mut self.repr, gen_mipmaps, offset, size, texels)
    }

    /// Upload raw bytes for the whole texture. Succeeds exactly when the
    /// format has device storage and at least `count * pixel width`
    /// bytes are provided.
    pub fn upload_raw(&mut self, b: &mut B, gen_mipmaps: GenMipmaps, texels: &Vec<u8>) -> (r:
        Result<(), TextureError>)
        requires
            old(self).wf(),
            old(b).inv(),
            spec_expected_bytes::<D, P>(old(self).spec_size()) <= usize::MAX,
        ensures
            final(b).inv(),
            final(self).wf(),
            final(self).spec_size() == old(self).spec_size(),
            spec_upload_post::<D, P>(
                old(b).obs(),
                final(b).obs(),
                old(self).obs(),
                final(self).obs(),
                gen_mipmaps,
                D::spec_zero_offset(),
                old(self).spec_size(),
                texels@,
                r,
            ),
            spec_device_pixel_format(P::spec_pixel_format()) is Some ==> (r is Ok <==> texels@.len()
                >= spec_expected_bytes::<D, P>(old(self).spec_size())),
    {
        proof {
            lemma_whole_texture_region_in_bounds::<D>(old(self).spec_size());
        }
        let size = self.size;
        b.upload_raw(&mut self.repr, gen_mipmaps, size, texels)
    }

    /// Read every texel of the base level back, if the backend supports
    /// read-back.
    pub fn get_raw_texels(&self, b: &mut B) -> (r: Result<Vec<u8>, TextureError>)
        requires
            self.wf(),
            old(b).inv(),
        ensures
            final(b).inv(),
            r is Ok <==> old(b).obs().supports_readback,
            r matches Ok(v) ==> v@ == self.obs().texels,
            r matches Err(e) ==> e is CannotRetrieveTexels && final(b).obs() == old(b).obs(),
            r is Ok ==> {
                &&& final(b).obs().pack_alignment == crate::pixel::spec_row_alignment(
                    (self.obs().width * spec_bytes_len(P::spec_pixel_format().format)) % 8,
                )
                &&& final(b).obs().bound.spec_bound(D::spec_dim()) == 0
                &&& forall|u: Dim|
                    u != D::spec_dim() ==> #[trigger] final(b).obs().bound.spec_bound(u) == old(
                        b,
                    ).obs().bound.spec_bound(u)
                &&& final(b).obs().bind_calls == old(b).obs().bind_calls + (
                if old(b).obs().bound.spec_bound(D::spec_dim()) == self.obs().handle {
                    0int
                } else {
                    1int
                }) + 1
                &&& final(b).obs().transfer_calls == old(b).obs().transfer_calls
                &&& final(b).obs().unpack_alignment == old(b).obs().unpack_alignment
            },
    {
        b.get_raw_texels(&self.repr)
    }

    /// Release the texture's backend resources. Any binding still naming
    /// its handle is cleared, so a reused handle value can never be
    /// misread as already bound.
    pub fn destroy(self, b: &mut B)
        requires
            self.wf(),
            old(b).inv(),
        ensures
            final(b).inv(),
            forall|u: Dim|
                #[trigger] final(b).obs().bound.spec_bound(u) == if old(b).obs().bound.spec_bound(u)
                    == self.obs().handle {
                    0u32
                } else {
                    old(b).obs().bound.spec_bound(u)
                },
    {
        b.delete_texture(self.repr)
    }
}

/// A transfer of a whole texture — zero offset, the texture's own size —
/// always lies within its storage extents.
pub proof fn lemma_whole_texture_region_in_bounds<D: Dimensionable>(size: D::Size)
    ensures
        spec_region_in_bounds::<D>(
            D::spec_zero_offset(),
            size,
            D::spec_width(size),
            D::spec_height(size),
            D::spec_depth(size),
        ),
{
    D::lemma_size_properties(size);
    D::lemma_offset_properties(D::spec_zero_offset());
}


/// The byte capacity of any size is non-negative.
pub proof fn lemma_capacity_bytes_nonneg<D: Dimensionable, P: Pixel>(size: D::Size)
    ensures
        0 <= spec_capacity_bytes::<D, P>(size),
{
    D::lemma_size_properties(size);
    lemma_bytes_len_range(P::spec_pixel_format().format);
    let w = D::spec_width(size);
    let h = D::spec_height(size);
    let dp = D::spec_depth(size);
    let tb = spec_bytes_len(P::spec_pixel_format().format);
    assert(0 <= w * h * dp * tb) by (nonlinear_arith)
        requires
            0 <= w,
            0 <= h,
            0 <= dp,
            0 <= tb,
    ;
}

} // verus!
