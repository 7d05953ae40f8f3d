//! The texture capability contract a backend must honor.
//!
//! [`TextureBackend`] is the interface between the texture resource and
//! one concrete device implementor. Its contracts pin down the whole
//! lifecycle: what allocation reserves, when an upload must be refused,
//! which bytes a transfer overwrites, what resize preserves, and how the
//! binding-state cache and alignment registers move. The in-memory
//! implementor in [`crate::mem_backend`] proves all of it; a driver
//! backend outside this crate is meant to sit behind the same interface.
//!
//! The contracts speak of two observation records: [`BackendObs`], the
//! device-visible state of the backend, and [`TexObs`], everything a
//! texture representation determines.

use vstd::prelude::*;

use crate::dim::Dim;
use crate::dim::Dimensionable;
use crate::dim::region_layer_origin;
use crate::dim::region_layers;
use crate::dim::region_row_origin;
use crate::dim::region_rows;
use crate::pixel::Pixel;
use crate::pixel::lemma_bytes_len_range;
use crate::pixel::lemma_encode_seq_len;
use crate::pixel::spec_bytes_len;
use crate::pixel::spec_device_pixel_format;
use crate::pixel::spec_encode_seq;
use crate::pixel::spec_row_alignment;
use crate::state::TargetBindings;
use crate::texture::GenMipmaps;
use crate::texture::Sampler;
use crate::texture::TextureError;

verus! {

/// The device-visible state of a backend, as one mathematical record.
pub struct BackendObs {
    /// The handle bound at each texture target: the binding cache, which
    /// the backend keeps equal to the device's actual state.
    pub bound: TargetBindings,
    /// Device bind calls issued so far. Operations needing a bound
    /// texture add one only when the needed handle is not already bound:
    /// the cache elides the rest.
    pub bind_calls: int,
    /// Device storage-mutation calls issued so far: storage allocations,
    /// texel transfers and mipmap regenerations. A refused upload leaves
    /// this untouched.
    pub transfer_calls: int,
    /// Row alignment currently set for uploads.
    pub unpack_alignment: int,
    /// Row alignment currently set for read-backs.
    pub pack_alignment: int,
    /// The next handle the backend will hand out. Handles count up from
    /// 1 and are never reused: every handle ever issued lies below this,
    /// so a freshly allocated resource collides with no live one.
    pub next_handle: int,
    /// Whether the backend can hand out another texture handle.
    pub can_allocate: bool,
    /// Whether the backend supports reading texels back.
    pub supports_readback: bool,
}

/// Everything a texture representation determines.
pub struct TexObs {
    /// The device handle; never 0.
    pub handle: u32,
    /// The effective mipmap level count, as constructed: requested + 1.
    pub mipmaps: int,
    /// The level count of the currently allocated storage.
    pub storage_levels: int,
    /// Width of the current storage, in texels.
    pub width: int,
    /// Height of the current storage, in texels.
    pub height: int,
    /// Depth of the current storage, in texels.
    pub depth: int,
    /// The bytes of the base level store.
    pub texels: Seq<u8>,
    /// The sampler the texture was constructed with.
    pub sampler: Sampler,
}

/// Bytes a region of `size` texels requires: its texel count times the
/// pixel byte width. The sole safety boundary of every upload.
pub open spec fn spec_expected_bytes<D: Dimensionable, P: Pixel>(size: D::Size) -> int {
    D::spec_count(size) * spec_bytes_len(P::spec_pixel_format().format)
}

/// Texels the storage of a texture of `size` holds: width x height x
/// depth. At least the addressable count, and more only for cubemaps,
/// whose storage holds six faces while `count` addresses one.
pub open spec fn spec_dim_capacity<D: Dimensionable>(size: D::Size) -> int {
    D::spec_width(size) * D::spec_height(size) * D::spec_depth(size)
}

/// Bytes the base level of a texture of `size` occupies.
pub open spec fn spec_capacity_bytes<D: Dimensionable, P: Pixel>(size: D::Size) -> int {
    spec_dim_capacity::<D>(size) * spec_bytes_len(P::spec_pixel_format().format)
}

/// Texels the storage of a texture of `size` holds.
pub fn dim_capacity<D: Dimensionable>(size: D::Size) -> (c: usize)
    requires
        spec_dim_capacity::<D>(size) <= usize::MAX,
    ensures
        c == spec_dim_capacity::<D>(size),
{
    let w = D::width(size);
    let h = D::height(size);
    let dp = D::depth(size);
    proof {
        D::lemma_size_properties(size);
        assert((w as int) * (h as int) <= 0xffff_ffff * 0xffff_ffff && (w as int) * (h as int) * (
        dp as int) <= 0xffff_ffff * 0xffff_ffff * 0xffff_ffff) by (nonlinear_arith)
            requires
                0 <= w as int <= 0xffff_ffff,
                0 <= h as int <= 0xffff_ffff,
                0 <= dp as int <= 0xffff_ffff,
        ;
    }
    let cap128 = ((w as u128) * (h as u128)) * (dp as u128);
    cap128 as usize
}

/// Column a transfer with the given offset starts at.
pub open spec fn spec_region_x0<D: Dimensionable>(offset: D::Offset) -> int {
    D::spec_x_offset(offset)
}

/// Row a transfer with the given offset starts at.
pub open spec fn spec_region_y0<D: Dimensionable>(offset: D::Offset) -> int {
    region_row_origin(D::spec_dim(), D::spec_y_offset(offset))
}

/// Layer a transfer with the given offset starts at.
pub open spec fn spec_region_z0<D: Dimensionable>(offset: D::Offset) -> int {
    region_layer_origin(D::spec_dim(), D::spec_z_offset(offset))
}

/// Columns a transfer of the given size walks.
pub open spec fn spec_region_ex<D: Dimensionable>(size: D::Size) -> int {
    D::spec_width(size)
}

/// Rows a transfer of the given size walks.
pub open spec fn spec_region_ey<D: Dimensionable>(size: D::Size) -> int {
    region_rows(D::spec_dim(), D::spec_width(size), D::spec_height(size))
}

/// Layers a transfer of the given size walks.
pub open spec fn spec_region_ez<D: Dimensionable>(size: D::Size) -> int {
    region_layers(D::spec_dim(), D::spec_depth(size))
}

/// Whether the transfer region of `offset`/`size` lies inside a store of
/// the given extents.
pub open spec fn spec_region_in_bounds<D: Dimensionable>(
    offset: D::Offset,
    size: D::Size,
    w: int,
    h: int,
    dp: int,
) -> bool {
    &&& spec_region_x0::<D>(offset) + spec_region_ex::<D>(size) <= w
    &&& spec_region_y0::<D>(offset) + spec_region_ey::<D>(size) <= h
    &&& spec_region_z0::<D>(offset) + spec_region_ez::<D>(size) <= dp
}

/// The store of a texture after a transfer writes `data` into the box
/// starting at `(x0, y0, z0)` with extents `(ex, ey, ez)`.
///
/// The store is linear, texel-major: texel `(x, y, z)` occupies bytes
/// `[((z * h + y) * w + x) * tb, ..+tb)` of a texture `w` texels wide and
/// `h` rows tall, holding `tb` bytes per texel. Source texels are read
/// tightly packed, row by row, layer by layer — the alignment negotiated
/// for the transfer guarantees rows carry no padding.
pub open spec fn spec_store_after_upload(
    store: Seq<u8>,
    w: int,
    h: int,
    tb: int,
    x0: int,
    y0: int,
    z0: int,
    ex: int,
    ey: int,
    ez: int,
    data: Seq<u8>,
) -> Seq<u8> {
    Seq::new(
        store.len(),
        |i: int|
            {
                let t = i / tb;
                let k = i % tb;
                let x = t % w;
                let y = (t / w) % h;
                let z = t / (w * h);
                if x0 <= x < x0 + ex && y0 <= y < y0 + ey && z0 <= z < z0 + ez {
                    data[(((z - z0) * ey + (y - y0)) * ex + (x - x0)) * tb + k]
                } else {
                    store[i]
                }
            },
    )
}

/// Everything texture allocation promises.
pub open spec fn spec_new_texture_post<D: Dimensionable, P: Pixel>(
    pre: BackendObs,
    post: BackendObs,
    size: D::Size,
    mipmaps: int,
    sampler: Sampler,
    tex: Option<TexObs>,
    err: Option<TextureError>,
) -> bool {
    let fmt_ok = spec_device_pixel_format(P::spec_pixel_format()) is Some;
    let cap = spec_capacity_bytes::<D, P>(size);
    let tgt = D::spec_dim();
    &&& (tex is Some <==> pre.can_allocate && fmt_ok && cap <= usize::MAX)
    &&& (tex is Some <==> err is None)
    &&& (err matches Some(e) ==> e is TextureStorageCreationFailed && post == pre)
    &&& (tex matches Some(t) ==> {
        &&& t.handle != 0
        &&& t.handle == pre.next_handle
        &&& post.next_handle == pre.next_handle + 1
        &&& t.mipmaps == mipmaps + 1
        &&& t.storage_levels == mipmaps + 1
        &&& t.width == D::spec_width(size)
        &&& t.height == D::spec_height(size)
        &&& t.depth == D::spec_depth(size)
        &&& t.texels == Seq::new(cap as nat, |i: int| 0u8)
        &&& t.sampler == sampler
        &&& post.bound.spec_bound(tgt) == t.handle
        &&& forall|u: Dim|
            u != tgt ==> #[trigger] post.bound.spec_bound(u) == pre.bound.spec_bound(u)
        &&& post.bind_calls == pre.bind_calls + (
        if pre.bound.spec_bound(tgt) == t.handle {
            0int
        } else {
            1int
        })
        &&& post.transfer_calls == pre.transfer_calls + (mipmaps + 1) * (
        if tgt is Cubemap {
            6int
        } else {
            1int
        })
        &&& post.unpack_alignment == pre.unpack_alignment
        &&& post.pack_alignment == pre.pack_alignment
        &&& post.supports_readback == pre.supports_readback
    })
}

/// Everything an upload (typed, raw, or a clear) promises, for the
/// serialized bytes `data` of whatever was handed in.
///
/// The byte-count validation comes first and is decided before anything
/// on the device moves: a refused upload leaves the backend and the
/// texture exactly as they were.
pub open spec fn spec_upload_post<D: Dimensionable, P: Pixel>(
    pre: BackendObs,
    post: BackendObs,
    t_pre: TexObs,
    t_post: TexObs,
    gen_mipmaps: GenMipmaps,
    offset: D::Offset,
    size: D::Size,
    data: Seq<u8>,
    r: Result<(), TextureError>,
) -> bool {
    let tb = spec_bytes_len(P::spec_pixel_format().format);
    let expected = spec_expected_bytes::<D, P>(size);
    let provided = data.len() as int;
    let fmt_ok = spec_device_pixel_format(P::spec_pixel_format()) is Some;
    let in_bounds = spec_region_in_bounds::<D>(offset, size, t_pre.width, t_pre.height,
        t_pre.depth);
    let tgt = D::spec_dim();
    &&& (r is Err ==> post == pre && t_post == t_pre)
    &&& (provided < expected <==> r == Err::<(), TextureError>(
        TextureError::NotEnoughPixels {
            expected_bytes: expected as usize,
            provided_bytes: provided as usize,
        },
    ))
    &&& (provided >= expected && !fmt_ok <==> r == Err::<(), TextureError>(
        TextureError::UnsupportedPixelFormat(P::spec_pixel_format()),
    ))
    &&& ((provided >= expected && fmt_ok && !in_bounds) <==> (r matches Err(e)
        && e is CannotUploadTexels))
    &&& (r is Ok <==> provided >= expected && fmt_ok && in_bounds)
    &&& (r is Ok ==> {
        &&& t_post.texels == spec_store_after_upload(
            t_pre.texels,
            t_pre.width,
            t_pre.height,
            tb,
            spec_region_x0::<D>(offset),
            spec_region_y0::<D>(offset),
            spec_region_z0::<D>(offset),
            spec_region_ex::<D>(size),
            spec_region_ey::<D>(size),
            spec_region_ez::<D>(size),
            data,
        )
        &&& t_post.handle == t_pre.handle
        &&& t_post.mipmaps == t_pre.mipmaps
        &&& t_post.storage_levels == t_pre.storage_levels
        &&& t_post.width == t_pre.width
        &&& t_post.height == t_pre.height
        &&& t_post.depth == t_pre.depth
        &&& t_post.sampler == t_pre.sampler
        &&& post.bound.spec_bound(tgt) == 0
        &&& forall|u: Dim|
            u != tgt ==> #[trigger] post.bound.spec_bound(u) == pre.bound.spec_bound(u)
        &&& post.bind_calls == pre.bind_calls + (
        if pre.bound.spec_bound(tgt) == t_pre.handle {
            0int
        } else {
            1int
        }) + 1
        &&& post.transfer_calls == pre.transfer_calls + 1 + (
        if gen_mipmaps is Yes {
            1int
        } else {
            0int
        })
        &&& post.unpack_alignment == spec_row_alignment((spec_region_ex::<D>(size) * tb) % 8)
        &&& post.pack_alignment == pre.pack_alignment
        &&& post.next_handle == pre.next_handle
        &&& post.can_allocate == pre.can_allocate
        &&& post.supports_readback == pre.supports_readback
    })
}

/// Everything resize promises: same handle, new extents and storage, the
/// reported mipmap count untouched, prior texels gone. The reallocated
/// store reads zeroed, as freshly reserved storage does; callers must
/// still treat the prior contents as lost and re-upload.
pub open spec fn spec_resize_post<D: Dimensionable, P: Pixel>(
    pre: BackendObs,
    post: BackendObs,
    t_pre: TexObs,
    t_post: TexObs,
    size: D::Size,
    mipmaps: int,
    r: Result<(), TextureError>,
) -> bool {
    let fmt_ok = spec_device_pixel_format(P::spec_pixel_format()) is Some;
    let cap = spec_capacity_bytes::<D, P>(size);
    let tgt = D::spec_dim();
    &&& (r is Ok <==> fmt_ok && cap <= usize::MAX)
    &&& (r matches Err(e) ==> e is TextureStorageCreationFailed && post == pre && t_post == t_pre)
    &&& (r is Ok ==> {
        &&& t_post.handle == t_pre.handle
        &&& t_post.mipmaps == t_pre.mipmaps
        &&& t_post.storage_levels == mipmaps + 1
        &&& t_post.width == D::spec_width(size)
        &&& t_post.height == D::spec_height(size)
        &&& t_post.depth == D::spec_depth(size)
        &&& t_post.texels == Seq::new(cap as nat, |i: int| 0u8)
        &&& t_post.sampler == t_pre.sampler
        &&& post.bound.spec_bound(tgt) == t_pre.handle
        &&& forall|u: Dim|
            u != tgt ==> #[trigger] post.bound.spec_bound(u) == pre.bound.spec_bound(u)
        &&& post.bind_calls == pre.bind_calls + (
        if pre.bound.spec_bound(tgt) == t_pre.handle {
            0int
        } else {
            1int
        })
        &&& post.transfer_calls == pre.transfer_calls + (mipmaps + 1) * (
        if tgt is Cubemap {
            6int
        } else {
            1int
        })
        &&& post.unpack_alignment == pre.unpack_alignment
        &&& post.pack_alignment == pre.pack_alignment
        &&& post.next_handle == pre.next_handle
        &&& post.can_allocate == pre.can_allocate
        &&& post.supports_readback == pre.supports_readback
    })
}

/// The texture capability contract: what any backend must do for
/// allocation, clearing, uploads, read-back, resize and release of a
/// texture of dimensionality `D` with pixels `P`.
pub trait TextureBackend<D: Dimensionable, P: Pixel>: Sized {
    /// The backend's representation of one texture.
    type TextureRepr;

    /// Well-formedness of the backend: in particular, its binding cache
    /// agrees with the device's actual binding state.
    spec fn inv(&self) -> bool;

    /// Well-formedness of a texture representation.
    spec fn repr_inv(t: &Self::TextureRepr) -> bool;

    /// The device-visible state of the backend.
    spec fn obs(&self) -> BackendObs;

    /// Everything a texture representation determines.
    spec fn tex_obs(t: &Self::TextureRepr) -> TexObs;

    /// Reserve storage for a texture: `mipmaps` extra levels beyond the
    /// base level, zero-initialized, with the sampler applied. The
    /// texture is left bound at its target, as the construction path on
    /// the device leaves it.
    fn new_texture(&mut self, size: D::Size, mipmaps: usize, sampler: Sampler) -> (r: Result<
        Self::TextureRepr,
        TextureError,
    >)
        requires
            old(self).inv(),
            mipmaps + 1 <= usize::MAX,
        ensures
            final(self).inv(),
            r matches Ok(t) ==> Self::repr_inv(&t),
            spec_new_texture_post::<D, P>(
                old(self).obs(),
                final(self).obs(),
                size,
                mipmaps as int,
                sampler,
                match r {
                    Ok(ref t) => Some(Self::tex_obs(t)),
                    Err(_) => None,
                },
                match r {
                    Ok(_) => None,
                    Err(e) => Some(e),
                },
            ),
    ;

    /// The effective mipmap level count of a texture.
    fn mipmaps(t: &Self::TextureRepr) -> (n: usize)
        requires
            Self::repr_inv(t),
        ensures
            n == Self::tex_obs(t).mipmaps,
    ;

    /// The device handle of a texture, for collaborators that reference
    /// it inside a shading stage.
    fn texture_handle(t: &Self::TextureRepr) -> (h: u32)
        requires
            Self::repr_inv(t),
        ensures
            h == Self::tex_obs(t).handle,
    ;

    /// Fill a region with one pixel value, as an upload of a region-sized
    /// run of copies of it.
    fn clear_part(
        &mut self,
        t: &mut Self::TextureRepr,
        gen_mipmaps: GenMipmaps,
        offset: D::Offset,
        size: D::Size,
        pixel: P::Encoding,
    ) -> (r: Result<(), TextureError>)
        requires
            old(self).inv(),
            Self::repr_inv(old(t)),
            spec_capacity_bytes::<D, P>(size) <= usize::MAX,
        ensures
            final(self).inv(),
            Self::repr_inv(final(t)),
            spec_upload_post::<D, P>(
                old(self).obs(),
                final(self).obs(),
                Self::tex_obs(old(t)),
                Self::tex_obs(final(t)),
                gen_mipmaps,
                offset,
                size,
                spec_encode_seq::<P>(Seq::new(spec_dim_capacity::<D>(size) as nat, |i: int| pixel)),
                r,
            ),
    ;

    /// Fill the whole texture with one pixel value.
    fn clear(
        &mut self,
        t: &mut Self::TextureRepr,
        gen_mipmaps: GenMipmaps,
        size: D::Size,
        pixel: P::Encoding,
    ) -> (r: Result<(), TextureError>)
        requires
            old(self).inv(),
            Self::repr_inv(old(t)),
            spec_capacity_bytes::<D, P>(size) <= usize::MAX,
        ensures
            final(self).inv(),
            Self::repr_inv(final(t)),
            spec_upload_post::<D, P>(
                old(self).obs(),
                final(self).obs(),
                Self::tex_obs(old(t)),
                Self::tex_obs(final(t)),
                gen_mipmaps,
                D::spec_zero_offset(),
                size,
                spec_encode_seq::<P>(Seq::new(spec_dim_capacity::<D>(size) as nat, |i: int| pixel)),
                r,
            ),
    ;

    /// Upload typed texels to a region.
    fn upload_part(
        &mut self,
        t: &mut Self::TextureRepr,
        gen_mipmaps: GenMipmaps,
        offset: D::Offset,
        size: D::Size,
        texels: &Vec<P::Encoding>,
    ) -> (r: Result<(), TextureError>)
        requires
            old(self).inv(),
            Self::repr_inv(old(t)),
            texels@.len() * spec_bytes_len(P::spec_pixel_format().format) <= usize::MAX,
            spec_expected_bytes::<D, P>(size) <= usize::MAX,
        ensures
            final(self).inv(),
            Self::repr_inv(final(t)),
            spec_upload_post::<D, P>(
                old(self).obs(),
                final(self).obs(),
                Self::tex_obs(old(t)),
                Self::tex_obs(final(t)),
                gen_mipmaps,
                offset,
                size,
                spec_encode_seq::<P>(texels@),
                r,
            ),
    ;

    /// Upload typed texels to the whole texture.
    fn upload(
        &mut self,
        t: &mut Self::TextureRepr,
        gen_mipmaps: GenMipmaps,
        size: D::Size,
        texels: &Vec<P::Encoding>,
    ) -> (r: Result<(), TextureError>)
        requires
            old(self).inv(),
            Self::repr_inv(old(t)),
            texels@.len() * spec_bytes_len(P::spec_pixel_format().format) <= usize::MAX,
            spec_expected_bytes::<D, P>(size) <= usize::MAX,
        ensures
            final(self).inv(),
            Self::repr_inv(final(t)),
            spec_upload_post::<D, P>(
                old(self).obs(),
                final(self).obs(),
                Self::tex_obs(old(t)),
                Self::tex_obs(final(t)),
                gen_mipmaps,
                D::spec_zero_offset(),
                size,
                spec_encode_seq::<P>(texels@),
                r,
            ),
    ;

    /// Upload raw bytes to a region.
    fn upload_part_raw(
        &mut self,
        t: &mut Self::TextureRepr,
        gen_mipmaps: GenMipmaps,
        offset: D::Offset,
        size: D::Size,
        texels: &Vec<u8>,
    ) -> (r: Result<(), TextureError>)
        requires
            old(self).inv(),
            Self::repr_inv(old(t)),
            spec_expected_bytes::<D, P>(size) <= usize::MAX,
        ensures
            final(self).inv(),
            Self::repr_inv(final(t)),
            spec_upload_post::<D, P>(
                old(self).obs(),
                final(self).obs(),
                Self::tex_obs(old(t)),
                Self::tex_obs(final(t)),
                gen_mipmaps,
                offset,
                size,
                texels@,
                r,
            ),
    ;

    /// Upload raw bytes to the whole texture.
    fn upload_raw(
        &mut self,
        t: &mut Self::TextureRepr,
        gen_mipmaps: GenMipmaps,
        size: D::Size,
        texels: &Vec<u8>,
    ) -> (r: Result<(), TextureError>)
        requires
            old(self).inv(),
            Self::repr_inv(old(t)),
            spec_expected_bytes::<D, P>(size) <= usize::MAX,
        ensures
            final(self).inv(),
            Self::repr_inv(final(t)),
            spec_upload_post::<D, P>(
                old(self).obs(),
                final(self).obs(),
                Self::tex_obs(old(t)),
                Self::tex_obs(final(t)),
                gen_mipmaps,
                D::spec_zero_offset(),
                size,
                texels@,
                r,
            ),
    ;

    /// Read the base level back, if the backend supports read-back.
    fn get_raw_texels(&mut self, t: &Self::TextureRepr) -> (r: Result<Vec<u8>, TextureError>)
        requires
            old(self).inv(),
            Self::repr_inv(t),
        ensures
            final(self).inv(),
            r is Ok <==> old(self).obs().supports_readback,
            r matches Ok(v) ==> v@ == Self::tex_obs(t).texels,
            r matches Err(e) ==> e is CannotRetrieveTexels && final(self).obs() == old(self).obs(),
            r is Ok ==> {
                &&& final(self).obs().pack_alignment == spec_row_alignment(
                    (Self::tex_obs(t).width * spec_bytes_len(P::spec_pixel_format().format)) % 8,
                )
                &&& final(self).obs().bound.spec_bound(D::spec_dim()) == 0
                &&& forall|u: Dim|
                    u != D::spec_dim() ==> #[trigger] final(self).obs().bound.spec_bound(u) == old(
                        self,
                    ).obs().bound.spec_bound(u)
                &&& final(self).obs().bind_calls == old(self).obs().bind_calls + (
                if old(self).obs().bound.spec_bound(D::spec_dim()) == Self::tex_obs(t).handle {
                    0int
                } else {
                    1int
                }) + 1
                &&& final(self).obs().transfer_calls == old(self).obs().transfer_calls
                &&& final(self).obs().unpack_alignment == old(self).obs().unpack_alignment
                &&& final(self).obs().next_handle == old(self).obs().next_handle
                &&& final(self).obs().can_allocate == old(self).obs().can_allocate
                &&& final(self).obs().supports_readback == old(self).obs().supports_readback
            },
    ;

    /// Reallocate the storage of a texture for a new size, keeping the
    /// same handle: the resource identity persists, the prior texels do
    /// not. The texture is left bound at its target.
    fn resize(&mut self, t: &mut Self::TextureRepr, size: D::Size, mipmaps: usize) -> (r: Result<
        (),
        TextureError,
    >)
        requires
            old(self).inv(),
            Self::repr_inv(old(t)),
            mipmaps + 1 <= usize::MAX,
        ensures
            final(self).inv(),
            Self::repr_inv(final(t)),
            spec_resize_post::<D, P>(
                old(self).obs(),
                final(self).obs(),
                Self::tex_obs(old(t)),
                Self::tex_obs(final(t)),
                size,
                mipmaps as int,
                r,
            ),
    ;

    /// Release a texture. Any binding still naming its handle is cleared,
    /// so a later reuse of the handle value cannot be misread as already
    /// bound.
    fn delete_texture(&mut self, t: Self::TextureRepr)
        requires
            old(self).inv(),
            Self::repr_inv(&t),
        ensures
            final(self).inv(),
            forall|u: Dim|
                #[trigger] final(self).obs().bound.spec_bound(u) == if old(
                    self,
                ).obs().bound.spec_bound(u) == Self::tex_obs(&t).handle {
                    0u32
                } else {
                    old(self).obs().bound.spec_bound(u)
                },
            final(self).obs().bind_calls == old(self).obs().bind_calls,
            final(self).obs().transfer_calls == old(self).obs().transfer_calls,
            final(self).obs().unpack_alignment == old(self).obs().unpack_alignment,
            final(self).obs().pack_alignment == old(self).obs().pack_alignment,
            final(self).obs().next_handle == old(self).obs().next_handle,
            final(self).obs().supports_readback == old(self).obs().supports_readback,
    ;
}

/// An upload whose data falls short of the required byte count is
/// refused with exactly the byte counts involved, and neither the
/// backend nor the texture moves: no device mutation is issued.
pub proof fn lemma_short_upload_rejected<D: Dimensionable, P: Pixel>(
    pre: BackendObs,
    post: BackendObs,
    t_pre: TexObs,
    t_post: TexObs,
    gen_mipmaps: GenMipmaps,
    offset: D::Offset,
    size: D::Size,
    data: Seq<u8>,
    r: Result<(), TextureError>,
)
    requires
        spec_upload_post::<D, P>(pre, post, t_pre, t_post, gen_mipmaps, offset, size, data, r),
        data.len() < spec_expected_bytes::<D, P>(size),
    ensures
        r == Err::<(), TextureError>(
            TextureError::NotEnoughPixels {
                expected_bytes: spec_expected_bytes::<D, P>(size) as usize,
                provided_bytes: data.len() as usize,
            },
        ),
        post == pre,
        t_post == t_pre,
        post.transfer_calls == pre.transfer_calls,
{
}

/// Resizing never implicitly satisfies the byte-count requirement: an
/// upload right after a resize is validated against the new size alone,
/// and fails for short data exactly as it would on a fresh texture.
pub proof fn lemma_resize_never_relaxes_upload<D: Dimensionable, P: Pixel>(
    b0: BackendObs,
    b1: BackendObs,
    b2: BackendObs,
    t0: TexObs,
    t1: TexObs,
    t2: TexObs,
    size: D::Size,
    mipmaps: int,
    gen_mipmaps: GenMipmaps,
    offset: D::Offset,
    data: Seq<u8>,
    r: Result<(), TextureError>,
)
    requires
        spec_resize_post::<D, P>(b0, b1, t0, t1, size, mipmaps, Ok(())),
        spec_upload_post::<D, P>(b1, b2, t1, t2, gen_mipmaps, offset, size, data, r),
        data.len() < spec_expected_bytes::<D, P>(size),
    ensures
        r == Err::<(), TextureError>(
            TextureError::NotEnoughPixels {
                expected_bytes: spec_expected_bytes::<D, P>(size) as usize,
                provided_bytes: data.len() as usize,
            },
        ),
        b2 == b1,
        t2 == t1,
{
}


/// A transfer whose region covers a store exactly — origin zero, extents
/// equal to the store's — overwrites every byte: the store becomes the
/// leading `store.len()` bytes of the data, whatever it held before.
pub proof fn lemma_full_region_upload(
    store: Seq<u8>,
    w: int,
    h: int,
    dp: int,
    tb: int,
    data: Seq<u8>,
)
    requires
        0 <= w,
        0 <= h,
        0 <= dp,
        1 <= tb,
        store.len() == w * h * dp * tb,
        data.len() >= w * h * dp * tb,
    ensures
        spec_store_after_upload(store, w, h, tb, 0, 0, 0, w, h, dp, data) == data.take(
            store.len() as int,
        ),
{
    let target = spec_store_after_upload(store, w, h, tb, 0, 0, 0, w, h, dp, data);
    if store.len() == 0 {
        assert(target =~= data.take(store.len() as int));
    } else {
        assert(w >= 1 && h >= 1 && dp >= 1) by (nonlinear_arith)
            requires
                w * h * dp * tb > 0,
                0 <= w,
                0 <= h,
                0 <= dp,
                1 <= tb,
        ;
        assert forall|i: int| 0 <= i < store.len() implies target[i] == data[i] by {
            vstd::arithmetic::div_mod::lemma_fundamental_div_mod(i, tb);
            vstd::arithmetic::div_mod::lemma_mod_bound(i, tb);
            vstd::arithmetic::div_mod::lemma_div_pos_is_pos(i, tb);
            let t = i / tb;
            let k = i % tb;
            vstd::arithmetic::div_mod::lemma_fundamental_div_mod(t, w);
            vstd::arithmetic::div_mod::lemma_mod_bound(t, w);
            vstd::arithmetic::div_mod::lemma_div_pos_is_pos(t, w);
            let x = t % w;
            let q1 = t / w;
            vstd::arithmetic::div_mod::lemma_fundamental_div_mod(q1, h);
            vstd::arithmetic::div_mod::lemma_mod_bound(q1, h);
            let y = q1 % h;
            let z2 = q1 / h;
            vstd::arithmetic::div_mod::lemma_div_denominator(t, w, h);
            assert(t / (w * h) == z2);
            assert(t < w * h * dp) by (nonlinear_arith)
                requires
                    i == tb * t + k,
                    0 <= k,
                    i < w * h * dp * tb,
                    1 <= tb,
            ;
            assert(q1 < h * dp) by (nonlinear_arith)
                requires
                    t == w * q1 + x,
                    0 <= x,
                    t < w * h * dp,
                    1 <= w,
            ;
            assert(z2 < dp) by (nonlinear_arith)
                requires
                    q1 == h * z2 + y,
                    0 <= y,
                    q1 < h * dp,
                    1 <= h,
            ;
            assert((((z2 - 0) * h + (y - 0)) * w + (x - 0)) * tb + k == i) by (nonlinear_arith)
                requires
                    q1 == h * z2 + y,
                    t == w * q1 + x,
                    i == tb * t + k,
            ;
        }
        assert(target =~= data.take(store.len() as int));
    }
}

/// A successful whole-texture upload on a dimensionality whose
/// addressable count fills its storage (every one but the cubemap)
/// overwrites the store with the leading bytes of the data, whatever the
/// store held before.
pub proof fn lemma_covering_upload<D: Dimensionable, P: Pixel>(
    pre: BackendObs,
    post: BackendObs,
    t_pre: TexObs,
    t_post: TexObs,
    gen_mipmaps: GenMipmaps,
    size: D::Size,
    data: Seq<u8>,
)
    requires
        D::spec_count(size) == spec_dim_capacity::<D>(size),
        t_pre.width == D::spec_width(size),
        t_pre.height == D::spec_height(size),
        t_pre.depth == D::spec_depth(size),
        t_pre.texels.len() == spec_capacity_bytes::<D, P>(size),
        spec_upload_post::<D, P>(
            pre,
            post,
            t_pre,
            t_post,
            gen_mipmaps,
            D::spec_zero_offset(),
            size,
            data,
            Ok(()),
        ),
    ensures
        t_post.texels == data.take(spec_capacity_bytes::<D, P>(size) as int),
{
    let w = D::spec_width(size);
    let h = D::spec_height(size);
    let dp = D::spec_depth(size);
    let tb = spec_bytes_len(P::spec_pixel_format().format);
    D::lemma_size_properties(size);
    D::lemma_offset_properties(D::spec_zero_offset());
    lemma_bytes_len_range(P::spec_pixel_format().format);
    let ey = spec_region_ey::<D>(size);
    let ez = spec_region_ez::<D>(size);
    assert(ey == h);
    assert(data.len() >= t_pre.texels.len()) by (nonlinear_arith)
        requires
            data.len() >= D::spec_count(size) * tb,
            t_pre.texels.len() == D::spec_count(size) * tb,
    ;
    if t_pre.texels.len() == 0 {
        assert(t_post.texels =~= data.take(t_pre.texels.len() as int));
    } else {
        assert(w >= 1 && h >= 1 && dp >= 1 && tb >= 1) by (nonlinear_arith)
            requires
                w * h * dp * tb > 0,
                0 <= w,
                0 <= h,
                0 <= dp,
                1 <= tb,
        ;
        if D::spec_dim() is Cubemap {
            assert(false) by (nonlinear_arith)
                requires
                    w * w == w * h * dp,
                    h == w,
                    dp == 6,
                    w >= 1,
            ;
        }
        assert(ez == dp);
        lemma_full_region_upload(t_pre.texels, w, h, dp, tb, data);
    }
}

/// Round trip: a whole-texture upload of exactly `count` texels, on any
/// dimensionality whose addressable count fills its storage (every one
/// but the cubemap), replaces the store with exactly the texels'
/// encoding — so a read-back returns byte for byte what was uploaded.
pub proof fn lemma_upload_read_back_round_trip<D: Dimensionable, P: Pixel>(
    pre: BackendObs,
    post: BackendObs,
    t_pre: TexObs,
    t_post: TexObs,
    gen_mipmaps: GenMipmaps,
    size: D::Size,
    texels: Seq<P::Encoding>,
)
    requires
        D::spec_count(size) == spec_dim_capacity::<D>(size),
        t_pre.width == D::spec_width(size),
        t_pre.height == D::spec_height(size),
        t_pre.depth == D::spec_depth(size),
        t_pre.texels.len() == spec_capacity_bytes::<D, P>(size),
        texels.len() == D::spec_count(size),
        spec_upload_post::<D, P>(
            pre,
            post,
            t_pre,
            t_post,
            gen_mipmaps,
            D::spec_zero_offset(),
            size,
            spec_encode_seq::<P>(texels),
            Ok(()),
        ),
    ensures
        t_post.texels == spec_encode_seq::<P>(texels),
{
    let tb = spec_bytes_len(P::spec_pixel_format().format);
    let data = spec_encode_seq::<P>(texels);
    lemma_encode_seq_len::<P>(texels);
    lemma_covering_upload::<D, P>(pre, post, t_pre, t_post, gen_mipmaps, size, data);
    assert(data.len() == spec_capacity_bytes::<D, P>(size)) by (nonlinear_arith)
        requires
            data.len() == D::spec_count(size) * tb,
            spec_capacity_bytes::<D, P>(size) == spec_dim_capacity::<D>(size) * tb,
            D::spec_count(size) == spec_dim_capacity::<D>(size),
    ;
    assert(data.take(spec_capacity_bytes::<D, P>(size) as int) =~= data);
}

} // verus!
