//! The in-memory backend: a software device that implements the
//! capability contracts and proves them.
//!
//! It keeps every texture's base level as plain bytes, generates handles,
//! maintains the binding-state cache next to the device's actual binding
//! state, and counts the device calls it issues, so that contracts (and
//! tests) can see that a refused upload moved nothing and that a
//! redundant bind was elided.

use vstd::prelude::*;

use vstd::string::StringExecFns;

use crate::backend::BackendObs;
use crate::backend::TexObs;
use crate::backend::TextureBackend;
use crate::backend::dim_capacity;
use crate::backend::spec_capacity_bytes;
use crate::backend::spec_dim_capacity;
use crate::backend::spec_expected_bytes;
use crate::backend::spec_region_ex;
use crate::backend::spec_region_ey;
use crate::backend::spec_region_ez;
use crate::backend::spec_store_after_upload;
use crate::backend::spec_upload_post;
use crate::dim::Dim;
use crate::dim::Dimensionable;
use crate::pixel::Pixel;
use crate::pixel::encode_texels;
use crate::pixel::lemma_bytes_len_range;
use crate::pixel::spec_bytes_len;
use crate::pixel::spec_device_pixel_format;
use crate::pixel::device_pixel_format;
use crate::pixel::bytes_len;
use crate::pixel::row_alignment;
use crate::pixel::spec_row_alignment;
use crate::shader::ShaderData;
use crate::shader::ShaderDataError;
use crate::state::TargetBindings;
use crate::texture::GenMipmaps;
use crate::texture::Sampler;
use crate::texture::TextureError;

verus! {

/// One texture as the in-memory device keeps it.
pub struct MemTexture {
    /// Device handle; never 0.
    handle: u32,
    /// Binding target of the texture's dimensionality.
    target: Dim,
    /// Effective mipmap level count, as constructed: requested + 1. The
    /// device's level range is clamped to `[0, mipmaps - 1]` with it.
    mipmaps: usize,
    /// Width of the current storage, in texels.
    width: u32,
    /// Height of the current storage, in texels.
    height: u32,
    /// Depth of the current storage, in texels.
    depth: u32,
    /// Bytes per texel of the texture's pixel format.
    texel_bytes: usize,
    /// The storage, one byte vector per mipmap level; index 0 is the
    /// base level.
    levels: Vec<Vec<u8>>,
    /// The sampler the texture was constructed with.
    sampler: Sampler,
}

impl MemTexture {
    /// Everything this representation determines.
    pub closed spec fn spec_obs(&self) -> TexObs {
        TexObs {
            handle: self.handle,
            mipmaps: self.mipmaps as int,
            storage_levels: self.levels@.len() as int,
            width: self.width as int,
            height: self.height as int,
            depth: self.depth as int,
            texels: self.levels@[0]@,
            sampler: self.sampler,
        }
    }
}

/// Well-formedness of a texture representation for dimensionality `D`
/// and pixels `P`: the handle is real, the target and the texel width
/// match the type parameters, the format is one the device stores, and
/// the base level holds exactly width x height x depth texels.
pub closed spec fn spec_mem_texture_inv<D: Dimensionable, P: Pixel>(t: MemTexture) -> bool {
    &&& t.handle != 0
    &&& t.target == D::spec_dim()
    &&& t.texel_bytes == spec_bytes_len(P::spec_pixel_format().format)
    &&& spec_device_pixel_format(P::spec_pixel_format()) is Some
    &&& t.levels@.len() >= 1
    &&& t.levels@[0]@.len() == t.width * t.height * t.depth * t.texel_bytes
    &&& 1 <= t.mipmaps
}

/// The in-memory device.
pub struct MemBackend {
    /// The binding-state cache: what this layer believes is bound.
    cache: TargetBindings,
    /// The device's actual binding state. The backend invariant keeps it
    /// equal to the cache: no path binds without going through
    /// [`MemBackend::bind_texture`].
    device_bound: TargetBindings,
    /// Next handle to hand out; handles start at 1 and are never reused.
    next_handle: u32,
    /// Device bind calls issued.
    bind_calls: Ghost<int>,
    /// Device storage-mutation calls issued.
    transfer_calls: Ghost<int>,
    /// Row alignment currently set for uploads.
    unpack_alignment: usize,
    /// Row alignment currently set for read-backs.
    pack_alignment: usize,
}

impl MemBackend {
    /// The backend invariant: the cache agrees with the device's actual
    /// binding state, and the handle counter never returns to 0.
    pub closed spec fn spec_inv(&self) -> bool {
        &&& self.cache == self.device_bound
        &&& self.next_handle >= 1
    }

    /// Whether a buffer handle is left to hand out.
    pub closed spec fn spec_can_allocate_data(&self) -> bool {
        1 <= self.next_handle && self.next_handle < u32::MAX
    }

    /// The device-visible state.
    pub closed spec fn spec_obs(&self) -> BackendObs {
        BackendObs {
            bound: self.cache,
            bind_calls: self.bind_calls@,
            transfer_calls: self.transfer_calls@,
            unpack_alignment: self.unpack_alignment as int,
            pack_alignment: self.pack_alignment as int,
            next_handle: self.next_handle as int,
            can_allocate: self.next_handle < u32::MAX,
            supports_readback: true,
        }
    }

    /// A fresh device: nothing bound, nothing issued, the device's
    /// default row alignment of 4 in both directions.
    pub fn new() -> (b: MemBackend)
        ensures
            b.spec_inv(),
            forall|t: Dim| #[trigger] b.spec_obs().bound.spec_bound(t) == 0u32,
            b.spec_obs().bind_calls == 0,
            b.spec_obs().transfer_calls == 0,
            b.spec_obs().unpack_alignment == 4,
            b.spec_obs().pack_alignment == 4,
            b.spec_obs().next_handle == 1,
            b.spec_obs().can_allocate,
            b.spec_can_allocate_data(),
            b.spec_obs().supports_readback,
    {
        let bindings = TargetBindings::new();
        MemBackend {
            cache: bindings,
            device_bound: bindings,
            next_handle: 1,
            bind_calls: Ghost(0),
            transfer_calls: Ghost(0),
            unpack_alignment: 4,
            pack_alignment: 4,
        }
    }

    /// The handle currently bound at a target (0 for none).
    pub fn current_binding(&self, target: Dim) -> (h: u32)
        ensures
            h == self.spec_obs().bound.spec_bound(target),
    {
        self.cache.get(target)
    }

    /// The row alignment currently set for uploads.
    pub fn current_unpack_alignment(&self) -> (a: usize)
        ensures
            a == self.spec_obs().unpack_alignment,
    {
        self.unpack_alignment
    }

    /// The row alignment currently set for read-backs.
    pub fn current_pack_alignment(&self) -> (a: usize)
        ensures
            a == self.spec_obs().pack_alignment,
    {
        self.pack_alignment
    }

    /// The one accessor every binding goes through: consult the cache,
    /// and only when the wanted handle is not already bound issue the
    /// device bind and record it. This is what elides redundant binds.
    fn bind_texture(&mut self, target: Dim, handle: u32)
        requires
            old(self).spec_inv(),
        ensures
            final(self).spec_inv(),
            final(self).spec_obs().bound.spec_bound(target) == handle,
            forall|u: Dim|
                u != target ==> #[trigger] final(self).spec_obs().bound.spec_bound(u) == old(
                    self,
                ).spec_obs().bound.spec_bound(u),
            final(self).spec_obs().bind_calls == old(self).spec_obs().bind_calls + (
            if old(self).spec_obs().bound.spec_bound(target) == handle {
                0int
            } else {
                1int
            }),
            final(self).spec_obs().transfer_calls == old(self).spec_obs().transfer_calls,
            final(self).spec_obs().unpack_alignment == old(self).spec_obs().unpack_alignment,
            final(self).spec_obs().pack_alignment == old(self).spec_obs().pack_alignment,
            final(self).next_handle == old(self).next_handle,
    {
        let cached = self.cache.get(target);
        if cached != handle {
            let mut updated = self.device_bound;
            updated.set(target, handle);
            self.device_bound = updated;
            self.bind_calls = Ghost(self.bind_calls@ + 1);
            self.cache = updated;
        }
    }

    /// Hand a fresh handle out, as the device's texture generation does.
    fn gen_handle(&mut self) -> (h: u32)
        requires
            old(self).spec_inv(),
            old(self).next_handle < u32::MAX,
        ensures
            final(self).spec_inv(),
            h == old(self).next_handle,
            h != 0,
            final(self).next_handle == old(self).next_handle + 1,
            final(self).cache == old(self).cache,
            final(self).spec_obs().bind_calls == old(self).spec_obs().bind_calls,
            final(self).spec_obs().transfer_calls == old(self).spec_obs().transfer_calls,
            final(self).spec_obs().unpack_alignment == old(self).spec_obs().unpack_alignment,
            final(self).spec_obs().pack_alignment == old(self).spec_obs().pack_alignment,
    {
        let h = self.next_handle;
        self.next_handle = self.next_handle + 1;
        h
    }

    /// Set the row alignment the device uses to read upload data.
    fn set_unpack_alignment(&mut self, skip_bytes: usize)
        requires
            old(self).spec_inv(),
        ensures
            final(self).spec_inv(),
            final(self).spec_obs() == (BackendObs {
                unpack_alignment: spec_row_alignment(skip_bytes as int),
                ..old(self).spec_obs()
            }),
    {
        self.unpack_alignment = row_alignment(skip_bytes);
    }

    /// Set the row alignment the device uses to write read-back data.
    fn set_pack_alignment(&mut self, skip_bytes: usize)
        requires
            old(self).spec_inv(),
        ensures
            final(self).spec_inv(),
            final(self).spec_obs() == (BackendObs {
                pack_alignment: spec_row_alignment(skip_bytes as int),
                ..old(self).spec_obs()
            }),
    {
        self.pack_alignment = row_alignment(skip_bytes);
    }
}

/// A zero-filled byte vector, the contents freshly reserved storage
/// reads as.
fn zero_bytes(n: usize) -> (v: Vec<u8>)
    ensures
        v@ == Seq::new(n as nat, |i: int| 0u8),
{
    let mut v: Vec<u8> = Vec::new();
    let mut i: usize = 0;
    while i < n
        invariant
            i <= n,
            v@.len() == i,
            forall|j: int| 0 <= j < i ==> v@[j] == 0u8,
        decreases n - i,
    {
        v.push(0);
        i = i + 1;
    }
    proof {
        assert(v@ =~= Seq::new(n as nat, |i: int| 0u8));
    }
    v
}

/// An extent halved `l` times, as the device sizes mipmap level `l`.
pub open spec fn spec_halved(e: int, l: nat) -> int
    decreases l,
{
    if l == 0 {
        e
    } else {
        spec_halved(e, (l - 1) as nat) / 2
    }
}

/// Halving never grows an extent and never leaves the naturals.
pub proof fn lemma_halved_le(e: int, l: nat)
    requires
        e >= 0,
    ensures
        0 <= spec_halved(e, l) <= e,
    decreases l,
{
    if l > 0 {
        lemma_halved_le(e, (l - 1) as nat);
    }
}

impl MemBackend {
    /// Reserve the level chain of a 1D texture: one storage allocation
    /// per level, each level's width halved.
    fn create_texture_1d_storage(&mut self, w: u32, mipmaps: usize, tb: usize) -> (levels: Vec<
        Vec<u8>,
    >)
        requires
            old(self).spec_inv(),
            1 <= mipmaps,
            1 <= tb,
            w * tb <= usize::MAX,
        ensures
            final(self).spec_inv(),
            levels@.len() == mipmaps,
            forall|l: int|
                0 <= l < mipmaps ==> #[trigger] levels@[l]@ == Seq::new(
                    (spec_halved(w as int, l as nat) * tb) as nat,
                    |i: int| 0u8,
                ),
            final(self).spec_obs() == (BackendObs {
                transfer_calls: old(self).spec_obs().transfer_calls + mipmaps,
                ..old(self).spec_obs()
            }),
            final(self).next_handle == old(self).next_handle,
    {
        let mut levels: Vec<Vec<u8>> = Vec::new();
        let mut cw = w;
        let mut l: usize = 0;
        while l < mipmaps
            invariant
                old(self).spec_inv(),
                l <= mipmaps,
                1 <= tb,
                w * tb <= usize::MAX,
                cw as int == spec_halved(w as int, l as nat),
                levels@.len() == l,
                forall|j: int|
                    0 <= j < l ==> #[trigger] levels@[j]@ == Seq::new(
                        (spec_halved(w as int, j as nat) * tb) as nat,
                        |i: int| 0u8,
                    ),
                self.spec_inv(),
                self.spec_obs() == (BackendObs {
                    transfer_calls: old(self).spec_obs().transfer_calls + l,
                    ..old(self).spec_obs()
                }),
                self.next_handle == old(self).next_handle,
            decreases mipmaps - l,
        {
            proof {
                lemma_halved_le(w as int, l as nat);
                assert((cw as int) * (tb as int) <= (w as int) * (tb as int)) by (nonlinear_arith)
                    requires
                        0 <= cw <= w,
                        0 <= tb,
                ;
            }
            let bytes = (cw as usize) * tb;
            let level = zero_bytes(bytes);
            levels.push(level);
            self.transfer_calls = Ghost(self.transfer_calls@ + 1);
            cw = cw / 2;
            l = l + 1;
        }
        levels
    }

    /// Reserve the level chain of a 2D (or 1D-array) texture: one
    /// storage allocation per level, both extents halved per level.
    fn create_texture_2d_storage(&mut self, w: u32, h: u32, mipmaps: usize, tb: usize) -> (levels:
        Vec<Vec<u8>>)
        requires
            old(self).spec_inv(),
            1 <= mipmaps,
            1 <= tb,
            w * h * tb <= usize::MAX,
        ensures
            final(self).spec_inv(),
            levels@.len() == mipmaps,
            forall|l: int|
                0 <= l < mipmaps ==> #[trigger] levels@[l]@ == Seq::new(
                    (spec_halved(w as int, l as nat) * spec_halved(h as int, l as nat) * tb) as nat,
                    |i: int| 0u8,
                ),
            final(self).spec_obs() == (BackendObs {
                transfer_calls: old(self).spec_obs().transfer_calls + mipmaps,
                ..old(self).spec_obs()
            }),
            final(self).next_handle == old(self).next_handle,
    {
        let mut levels: Vec<Vec<u8>> = Vec::new();
        let mut cw = w;
        let mut ch = h;
        let mut l: usize = 0;
        while l < mipmaps
            invariant
                old(self).spec_inv(),
                l <= mipmaps,
                1 <= tb,
                w * h * tb <= usize::MAX,
                cw as int == spec_halved(w as int, l as nat),
                ch as int == spec_halved(h as int, l as nat),
                levels@.len() == l,
                forall|j: int|
                    0 <= j < l ==> #[trigger] levels@[j]@ == Seq::new(
                        (spec_halved(w as int, j as nat) * spec_halved(h as int, j as nat)
                            * tb) as nat,
                        |i: int| 0u8,
                    ),
                self.spec_inv(),
                self.spec_obs() == (BackendObs {
                    transfer_calls: old(self).spec_obs().transfer_calls + l,
                    ..old(self).spec_obs()
                }),
                self.next_handle == old(self).next_handle,
            decreases mipmaps - l,
        {
            proof {
                lemma_halved_le(w as int, l as nat);
                lemma_halved_le(h as int, l as nat);
            }
            let bytes: usize;
            if cw == 0 || ch == 0 {
                proof {
                    assert((cw as int) * (ch as int) * (tb as int) == 0) by (nonlinear_arith)
                        requires
                            cw == 0 || ch == 0,
                    ;
                }
                bytes = 0;
            } else {
                proof {
                    assert((cw as int) * (ch as int) <= (w as int) * (h as int) * (tb as int)
                        && (cw as int) * (ch as int) * (tb as int) <= (w as int) * (h as int) * (
                    tb as int)) by (nonlinear_arith)
                        requires
                            1 <= cw <= w,
                            1 <= ch <= h,
                            1 <= tb,
                    ;
                }
                bytes = ((cw as usize) * (ch as usize)) * tb;
            }
            let level = zero_bytes(bytes);
            levels.push(level);
            self.transfer_calls = Ghost(self.transfer_calls@ + 1);
            cw = cw / 2;
            ch = ch / 2;
            l = l + 1;
        }
        levels
    }

    /// Reserve the level chain of a 3D (or 2D-array) texture: one
    /// storage allocation per level, all three extents halved per level.
    fn create_texture_3d_storage(
        &mut self,
        w: u32,
        h: u32,
        d: u32,
        mipmaps: usize,
        tb: usize,
    ) -> (levels: Vec<Vec<u8>>)
        requires
            old(self).spec_inv(),
            1 <= mipmaps,
            1 <= tb,
            w * h * d * tb <= usize::MAX,
        ensures
            final(self).spec_inv(),
            levels@.len() == mipmaps,
            forall|l: int|
                0 <= l < mipmaps ==> #[trigger] levels@[l]@ == Seq::new(
                    (spec_halved(w as int, l as nat) * spec_halved(h as int, l as nat)
                        * spec_halved(d as int, l as nat) * tb) as nat,
                    |i: int| 0u8,
                ),
            final(self).spec_obs() == (BackendObs {
                transfer_calls: old(self).spec_obs().transfer_calls + mipmaps,
                ..old(self).spec_obs()
            }),
            final(self).next_handle == old(self).next_handle,
    {
        let mut levels: Vec<Vec<u8>> = Vec::new();
        let mut cw = w;
        let mut ch = h;
        let mut cd = d;
        let mut l: usize = 0;
        while l < mipmaps
            invariant
                old(self).spec_inv(),
                l <= mipmaps,
                1 <= tb,
                w * h * d * tb <= usize::MAX,
                cw as int == spec_halved(w as int, l as nat),
                ch as int == spec_halved(h as int, l as nat),
                cd as int == spec_halved(d as int, l as nat),
                levels@.len() == l,
                forall|j: int|
                    0 <= j < l ==> #[trigger] levels@[j]@ == Seq::new(
                        (spec_halved(w as int, j as nat) * spec_halved(h as int, j as nat)
                            * spec_halved(d as int, j as nat) * tb) as nat,
                        |i: int| 0u8,
                    ),
                self.spec_inv(),
                self.spec_obs() == (BackendObs {
                    transfer_calls: old(self).spec_obs().transfer_calls + l,
                    ..old(self).spec_obs()
                }),
                self.next_handle == old(self).next_handle,
            decreases mipmaps - l,
        {
            proof {
                lemma_halved_le(w as int, l as nat);
                lemma_halved_le(h as int, l as nat);
                lemma_halved_le(d as int, l as nat);
            }
            let bytes: usize;
            if cw == 0 || ch == 0 || cd == 0 {
                proof {
                    assert((cw as int) * (ch as int) * (cd as int) * (tb as int) == 0)
                        by (nonlinear_arith)
                        requires
                            cw == 0 || ch == 0 || cd == 0,
                    ;
                }
                bytes = 0;
            } else {
                proof {
                    assert((cw as int) * (ch as int) <= (w as int) * (h as int) * (d as int) * (
                    tb as int) && (cw as int) * (ch as int) * (cd as int) <= (w as int) * (
                    h as int) * (d as int) * (tb as int) && (cw as int) * (ch as int) * (
                    cd as int) * (tb as int) <= (w as int) * (h as int) * (d as int) * (
                    tb as int)) by (nonlinear_arith)
                        requires
                            1 <= cw <= w,
                            1 <= ch <= h,
                            1 <= cd <= d,
                            1 <= tb,
                    ;
                }
                bytes = (((cw as usize) * (ch as usize)) * (cd as usize)) * tb;
            }
            let level = zero_bytes(bytes);
            levels.push(level);
            self.transfer_calls = Ghost(self.transfer_calls@ + 1);
            cw = cw / 2;
            ch = ch / 2;
            cd = cd / 2;
            l = l + 1;
        }
        levels
    }

    /// Reserve the level chain of a cubemap: six face allocations per
    /// level, each face square with the side halved per level.
    fn create_cubemap_storage(&mut self, s: u32, mipmaps: usize, tb: usize) -> (levels: Vec<
        Vec<u8>,
    >)
        requires
            old(self).spec_inv(),
            1 <= mipmaps,
            1 <= tb,
            s * s * 6 * tb <= usize::MAX,
        ensures
            final(self).spec_inv(),
            levels@.len() == mipmaps,
            forall|l: int|
                0 <= l < mipmaps ==> #[trigger] levels@[l]@ == Seq::new(
                    (spec_halved(s as int, l as nat) * spec_halved(s as int, l as nat) * 6
                        * tb) as nat,
                    |i: int| 0u8,
                ),
            final(self).spec_obs() == (BackendObs {
                transfer_calls: old(self).spec_obs().transfer_calls + 6 * mipmaps,
                ..old(self).spec_obs()
            }),
            final(self).next_handle == old(self).next_handle,
    {
        let mut levels: Vec<Vec<u8>> = Vec::new();
        let mut cs = s;
        let mut l: usize = 0;
        while l < mipmaps
            invariant
                old(self).spec_inv(),
                l <= mipmaps,
                1 <= tb,
                s * s * 6 * tb <= usize::MAX,
                cs as int == spec_halved(s as int, l as nat),
                levels@.len() == l,
                forall|j: int|
                    0 <= j < l ==> #[trigger] levels@[j]@ == Seq::new(
                        (spec_halved(s as int, j as nat) * spec_halved(s as int, j as nat) * 6
                            * tb) as nat,
                        |i: int| 0u8,
                    ),
                self.spec_inv(),
                self.spec_obs() == (BackendObs {
                    transfer_calls: old(self).spec_obs().transfer_calls + 6 * l,
                    ..old(self).spec_obs()
                }),
                self.next_handle == old(self).next_handle,
            decreases mipmaps - l,
        {
            proof {
                lemma_halved_le(s as int, l as nat);
            }
            let bytes: usize;
            if cs == 0 {
                proof {
                    assert((cs as int) * (cs as int) * 6 * (tb as int) == 0) by (nonlinear_arith)
                        requires
                            cs == 0,
                    ;
                }
                bytes = 0;
            } else {
                proof {
                    assert((cs as int) * (cs as int) <= (s as int) * (s as int) * 6 * (tb as int)
                        && (cs as int) * (cs as int) * 6 <= (s as int) * (s as int) * 6 * (
                    tb as int) && (cs as int) * (cs as int) * 6 * (tb as int) <= (s as int) * (
                    s as int) * 6 * (tb as int)) by (nonlinear_arith)
                        requires
                            1 <= cs <= s,
                            1 <= tb,
                    ;
                }
                bytes = (((cs as usize) * (cs as usize)) * 6) * tb;
            }
            // six faces, one allocation each, share one level store
            let level = zero_bytes(bytes);
            levels.push(level);
            self.transfer_calls = Ghost(self.transfer_calls@ + 6);
            cs = cs / 2;
            l = l + 1;
        }
        levels
    }
}


impl MemBackend {
    /// Reserve the whole storage of a texture: check the pixel format
    /// against the device's table and the byte size against the address
    /// space, then allocate the level chain the dimensionality asks for.
    /// Nothing on the device moves when the result is an error.
    fn create_texture_storage<D: Dimensionable, P: Pixel>(
        &mut self,
        size: D::Size,
        levels_count: usize,
    ) -> (r: Result<Vec<Vec<u8>>, TextureError>)
        requires
            old(self).spec_inv(),
            1 <= levels_count,
        ensures
            final(self).spec_inv(),
            final(self).next_handle == old(self).next_handle,
            r is Ok <==> spec_device_pixel_format(P::spec_pixel_format()) is Some
                && spec_capacity_bytes::<D, P>(size) <= usize::MAX,
            r matches Err(e) ==> e is TextureStorageCreationFailed && *final(self) == *old(self),
            r matches Ok(levels) ==> {
                &&& levels@.len() == levels_count
                &&& levels@[0]@ == Seq::new(
                    spec_capacity_bytes::<D, P>(size) as nat,
                    |i: int| 0u8,
                )
                &&& final(self).spec_obs() == (BackendObs {
                    transfer_calls: old(self).spec_obs().transfer_calls + levels_count * (
                    if D::spec_dim() is Cubemap {
                        6int
                    } else {
                        1int
                    }),
                    ..old(self).spec_obs()
                })
            },
    {
        let pf = P::pixel_format();
        let dev = device_pixel_format(pf);
        if dev.is_none() {
            return Err(
                TextureError::texture_storage_creation_failed(
                    String::from_str("unsupported texture pixel format"),
                ),
            );
        }
        let w = D::width(size);
        let h = D::height(size);
        let dp = D::depth(size);
        let tb = bytes_len(pf.format);
        proof {
            D::lemma_size_properties(size);
            lemma_bytes_len_range(pf.format);
            assert((w as int) * (h as int) <= 0xffff_ffff * 0xffff_ffff && (w as int) * (h as int)
                * (dp as int) <= 0xffff_ffff * 0xffff_ffff * 0xffff_ffff && (w as int) * (h as int)
                * (dp as int) * (tb as int) <= 0xffff_ffff * 0xffff_ffff * 0xffff_ffff * 16
                && 0 <= (w as int) * (h as int) * (dp as int) * (tb as int))
                by (nonlinear_arith)
                requires
                    0 <= w as int <= 0xffff_ffff,
                    0 <= h as int <= 0xffff_ffff,
                    0 <= dp as int <= 0xffff_ffff,
                    1 <= tb as int <= 16,
            ;
        }
        let cap128 = (((w as u128) * (h as u128)) * (dp as u128)) * (tb as u128);
        if cap128 > (usize::MAX as u128) {
            return Err(
                TextureError::texture_storage_creation_failed(
                    String::from_str("texture storage exceeds the address space"),
                ),
            );
        }
        let d = D::dim();
        match d {
            Dim::Dim1 => {
                proof {
                    assert((w as int) * (tb as int) == (w as int) * (h as int) * (dp as int) * (
                    tb as int)) by (nonlinear_arith)
                        requires
                            h as int == 1,
                            dp as int == 1,
                    ;
                }
                let levels = self.create_texture_1d_storage(w, levels_count, tb);
                proof {
                    assert(levels@[0]@ =~= Seq::new(
                        spec_capacity_bytes::<D, P>(size) as nat,
                        |i: int| 0u8,
                    ));
                }
                Ok(levels)
            },
            Dim::Dim2 | Dim::Dim1Array => {
                proof {
                    assert((w as int) * (h as int) * (tb as int) == (w as int) * (h as int) * (
                    dp as int) * (tb as int)) by (nonlinear_arith)
                        requires
                            dp as int == 1,
                    ;
                }
                let levels = self.create_texture_2d_storage(w, h, levels_count, tb);
                proof {
                    assert(levels@[0]@ =~= Seq::new(
                        spec_capacity_bytes::<D, P>(size) as nat,
                        |i: int| 0u8,
                    ));
                }
                Ok(levels)
            },
            Dim::Dim3 | Dim::Dim2Array => {
                let levels = self.create_texture_3d_storage(w, h, dp, levels_count, tb);
                proof {
                    assert(levels@[0]@ =~= Seq::new(
                        spec_capacity_bytes::<D, P>(size) as nat,
                        |i: int| 0u8,
                    ));
                }
                Ok(levels)
            },
            Dim::Cubemap => {
                proof {
                    assert((w as int) * (w as int) * 6 * (tb as int) == (w as int) * (h as int) * (
                    dp as int) * (tb as int)) by (nonlinear_arith)
                        requires
                            h as int == w as int,
                            dp as int == 6,
                    ;
                }
                let levels = self.create_cubemap_storage(w, levels_count, tb);
                proof {
                    assert(levels@[0]@ =~= Seq::new(
                        spec_capacity_bytes::<D, P>(size) as nat,
                        |i: int| 0u8,
                    ));
                }
                Ok(levels)
            },
        }
    }
}

/// Rebuild a base-level store with a box-shaped region overwritten from
/// tightly packed source data, byte for byte as
/// [`spec_store_after_upload`] describes.
fn write_region(
    store: &Vec<u8>,
    w: u32,
    h: u32,
    dp: u32,
    tb: usize,
    x0: u32,
    y0: u32,
    z0: u32,
    ex: u32,
    ey: u32,
    ez: u32,
    data: &Vec<u8>,
) -> (out: Vec<u8>)
    requires
        1 <= tb,
        store@.len() == w * h * dp * tb,
        data@.len() >= ex * ey * ez * tb,
    ensures
        out@ == spec_store_after_upload(
            store@,
            w as int,
            h as int,
            tb as int,
            x0 as int,
            y0 as int,
            z0 as int,
            ex as int,
            ey as int,
            ez as int,
            data@,
        ),
{
    let ghost target = spec_store_after_upload(
        store@,
        w as int,
        h as int,
        tb as int,
        x0 as int,
        y0 as int,
        z0 as int,
        ex as int,
        ey as int,
        ez as int,
        data@,
    );
    let n = store.len();
    let dlen = data.len();
    let mut out: Vec<u8> = Vec::new();
    if n == 0 {
        proof {
            assert(out@ =~= target);
        }
        return out;
    }
    proof {
        assert(w as int >= 1 && h as int >= 1 && dp as int >= 1 && 1 <= (w as int) * (h as int)
            && (w as int) * (h as int) <= (w as int) * (h as int) * (dp as int) * (tb as int))
            by (nonlinear_arith)
            requires
                (w as int) * (h as int) * (dp as int) * (tb as int) > 0,
                1 <= tb as int,
                0 <= w as int,
                0 <= h as int,
                0 <= dp as int,
        ;
    }
    let wh = (w as usize) * (h as usize);
    let mut i: usize = 0;
    while i < n
        invariant
            i <= n,
            n == store@.len(),
            store@.len() == w * h * dp * tb,
            data@.len() >= ex * ey * ez * tb,
            data@.len() == dlen,
            1 <= tb,
            1 <= w,
            1 <= h,
            wh == (w as int) * (h as int),
            1 <= wh,
            target == spec_store_after_upload(
                store@,
                w as int,
                h as int,
                tb as int,
                x0 as int,
                y0 as int,
                z0 as int,
                ex as int,
                ey as int,
                ez as int,
                data@,
            ),
            target.len() == n,
            out@.len() == i,
            forall|j: int| 0 <= j < i ==> out@[j] == target[j],
        decreases n - i,
    {
        let t = i / tb;
        let k = i % tb;
        let x = t % (w as usize);
        let y = (t / (w as usize)) % (h as usize);
        let z = t / wh;
        let in_x = (x0 as u64) <= (x as u64) && (x as u64) < (x0 as u64) + (ex as u64);
        let in_y = (y0 as u64) <= (y as u64) && (y as u64) < (y0 as u64) + (ey as u64);
        let in_z = (z0 as u64) <= (z as u64) && (z as u64) < (z0 as u64) + (ez as u64);
        let val: u8;
        if in_x && in_y && in_z {
            let dx = x - (x0 as usize);
            let dy = y - (y0 as usize);
            let dz = z - (z0 as usize);
            proof {
                assert(dz * (ey as int) <= dz * (ey as int) + dy && dz * (ey as int) + dy < (
                ez as int) * (ey as int) && (dz * (ey as int) + dy) * (ex as int) <= (dz * (
                ey as int) + dy) * (ex as int) + dx && (dz * (ey as int) + dy) * (ex as int) + dx
                    < (ez as int) * (ey as int) * (ex as int) && ((dz * (ey as int) + dy) * (
                ex as int) + dx) * (tb as int) <= ((dz * (ey as int) + dy) * (ex as int) + dx) * (
                tb as int) + k && ((dz * (ey as int) + dy) * (ex as int) + dx) * (tb as int) + k
                    < (ex as int) * (ey as int) * (ez as int) * (tb as int) && (ez as int) * (
                ey as int) <= (ex as int) * (ey as int) * (ez as int) * (tb as int) && (ez as int)
                    * (ey as int) * (ex as int) <= (ex as int) * (ey as int) * (ez as int) * (
                tb as int)) by (nonlinear_arith)
                    requires
                        0 <= dx < ex as int,
                        0 <= dy < ey as int,
                        0 <= dz < ez as int,
                        0 <= k < tb as int,
                ;
            }
            let src = ((dz * (ey as usize) + dy) * (ex as usize) + dx) * tb + k;
            val = data[src];
        } else {
            val = store[i];
        }
        out.push(val);
        proof {
            assert(out@[i as int] == target[i as int]);
        }
        i = i + 1;
    }
    proof {
        assert(out@ =~= target);
    }
    out
}


impl MemBackend {
    /// The validated transfer every upload and clear funnels through.
    ///
    /// Validation is decided before anything on the device moves: the
    /// byte count first (the safety boundary against reading past the
    /// provided data), then the format lookup, then the region bounds
    /// against the texture's current extents. Only then is the texture
    /// bound, the row alignment negotiated, and the region overwritten.
    fn upload_texels<D: Dimensionable, P: Pixel>(
        &mut self,
        t: &mut MemTexture,
        gen_mipmaps: GenMipmaps,
        offset: D::Offset,
        size: D::Size,
        data: &Vec<u8>,
    ) -> (r: Result<(), TextureError>)
        requires
            old(self).spec_inv(),
            spec_mem_texture_inv::<D, P>(*old(t)),
            spec_expected_bytes::<D, P>(size) <= usize::MAX,
        ensures
            final(self).spec_inv(),
            spec_mem_texture_inv::<D, P>(*final(t)),
            spec_upload_post::<D, P>(
                old(self).spec_obs(),
                final(self).spec_obs(),
                old(t).spec_obs(),
                final(t).spec_obs(),
                gen_mipmaps,
                offset,
                size,
                data@,
                r,
            ),
    {
        proof {
            D::lemma_size_properties(size);
            D::lemma_offset_properties(offset);
            lemma_bytes_len_range(P::spec_pixel_format().format);
            let cnt = D::spec_count(size);
            let tbi = spec_bytes_len(P::spec_pixel_format().format);
            assert(0 <= cnt && cnt * 1int <= cnt * tbi) by (nonlinear_arith)
                requires
                    0 <= spec_region_ex::<D>(size),
                    0 <= spec_region_ey::<D>(size),
                    0 <= spec_region_ez::<D>(size),
                    cnt == spec_region_ex::<D>(size)
                        * spec_region_ey::<D>(size)
                        * spec_region_ez::<D>(size),
                    1 <= tbi,
            ;
        }
        let pf = P::pixel_format();
        let tb = bytes_len(pf.format);
        let count = D::count(size);
        let expected = count * tb;
        let provided = data.len();
        if provided < expected {
            return Err(TextureError::not_enough_pixels(expected, provided));
        }
        let dev = device_pixel_format(pf);
        if dev.is_none() {
            return Err(TextureError::unsupported_pixel_format(pf));
        }
        let d = D::dim();
        let x0 = D::x_offset(offset);
        let y0: u32 = match d {
            Dim::Dim1 => 0,
            _ => D::y_offset(offset),
        };
        let z0: u32 = match d {
            Dim::Dim3 | Dim::Dim2Array | Dim::Cubemap => D::z_offset(offset),
            _ => 0,
        };
        let ex = D::width(size);
        let ey: u32 = match d {
            Dim::Dim1 => 1,
            Dim::Cubemap => D::width(size),
            _ => D::height(size),
        };
        let ez: u32 = match d {
            Dim::Dim3 | Dim::Dim2Array => D::depth(size),
            _ => 1,
        };
        let in_bounds = (x0 as u64) + (ex as u64) <= (t.width as u64) && (y0 as u64) + (ey as u64)
            <= (t.height as u64) && (z0 as u64) + (ez as u64) <= (t.depth as u64);
        if !in_bounds {
            return Err(
                TextureError::cannot_upload_texels(
                    String::from_str("transfer region exceeds the texture extents"),
                ),
            );
        }
        // every check passed: the device moves now
        self.bind_texture(t.target, t.handle);
        proof {
            assert((ex as int) * (tb as int) <= 0xffff_ffff * 16) by (nonlinear_arith)
                requires
                    0 <= ex as int <= 0xffff_ffff,
                    0 <= tb as int <= 16,
            ;
        }
        let row_bytes = (ex as u64) * (tb as u64);
        self.set_unpack_alignment((row_bytes % 8) as usize);
        proof {
            assert((count as int) * (tb as int) == (ex as int) * (ey as int) * (ez as int) * (
            tb as int)) by (nonlinear_arith)
                requires
                    count as int == (ex as int) * (ey as int) * (ez as int),
            ;
        }
        let new_base = write_region(
            &t.levels[0],
            t.width,
            t.height,
            t.depth,
            tb,
            x0,
            y0,
            z0,
            ex,
            ey,
            ez,
            data,
        );
        t.levels[0] = new_base;
        self.transfer_calls = Ghost(self.transfer_calls@ + 1);
        if gen_mipmaps == GenMipmaps::Yes {
            // the device regenerates the level chain from the base level
            self.transfer_calls = Ghost(self.transfer_calls@ + 1);
        }
        self.bind_texture(t.target, 0);
        Ok(())
    }
}


impl<D: Dimensionable, P: Pixel> TextureBackend<D, P> for MemBackend {
    type TextureRepr = MemTexture;

    open spec fn inv(&self) -> bool {
        self.spec_inv()
    }

    open spec fn repr_inv(t: &MemTexture) -> bool {
        spec_mem_texture_inv::<D, P>(*t)
    }

    open spec fn obs(&self) -> BackendObs {
        self.spec_obs()
    }

    open spec fn tex_obs(t: &MemTexture) -> TexObs {
        t.spec_obs()
    }

    fn new_texture(&mut self, size: D::Size, mipmaps: usize, sampler: Sampler) -> (r: Result<
        MemTexture,
        TextureError,
    >) {
        let levels_count = mipmaps + 1;
        if self.next_handle == u32::MAX {
            return Err(
                TextureError::texture_storage_creation_failed(
                    String::from_str("no texture handle left"),
                ),
            );
        }
        match self.create_texture_storage::<D, P>(size, levels_count) {
            Err(e) => Err(e),
            Ok(levels) => {
                let handle = self.gen_handle();
                let target = D::dim();
                self.bind_texture(target, handle);
                proof {
                    D::lemma_size_properties(size);
                }
                let tex = MemTexture {
                    handle,
                    target,
                    mipmaps: levels_count,
                    width: D::width(size),
                    height: D::height(size),
                    depth: D::depth(size),
                    texel_bytes: bytes_len(P::pixel_format().format),
                    levels,
                    sampler,
                };
                Ok(tex)
            },
        }
    }

    fn mipmaps(t: &MemTexture) -> usize {
        t.mipmaps
    }

    fn texture_handle(t: &MemTexture) -> u32 {
        t.handle
    }

    fn clear_part(
        &mut self,
        t: &mut MemTexture,
        gen_mipmaps: GenMipmaps,
        offset: D::Offset,
        size: D::Size,
        pixel: P::Encoding,
    ) -> (r: Result<(), TextureError>) {
        proof {
            D::lemma_size_properties(size);
            lemma_bytes_len_range(P::spec_pixel_format().format);
            let capi = spec_dim_capacity::<D>(size);
            let tbi = spec_bytes_len(P::spec_pixel_format().format);
            assert(0 <= capi && capi * 1int <= capi * tbi && D::spec_count(size) * tbi <= capi
                * tbi) by (nonlinear_arith)
                requires
                    capi == D::spec_width(size) * D::spec_height(size) * D::spec_depth(size),
                    0 <= D::spec_width(size),
                    0 <= D::spec_height(size),
                    0 <= D::spec_depth(size),
                    0 <= D::spec_count(size) <= capi,
                    1 <= tbi,
            ;
        }
        let cap = dim_capacity::<D>(size);
        let mut fill: Vec<P::Encoding> = Vec::new();
        let mut i: usize = 0;
        while i < cap
            invariant
                i <= cap,
                fill@.len() == i,
                forall|j: int| 0 <= j < i ==> fill@[j] == pixel,
            decreases cap - i,
        {
            fill.push(pixel);
            i = i + 1;
        }
        proof {
            assert(fill@ =~= Seq::new(spec_dim_capacity::<D>(size) as nat, |j: int| pixel));
        }
        let data = encode_texels::<P>(&fill);
        self.upload_texels::<D, P>(t, gen_mipmaps, offset, size, &data)
    }

    fn clear(
        &mut self,
        t: &mut MemTexture,
        gen_mipmaps: GenMipmaps,
        size: D::Size,
        pixel: P::Encoding,
    ) -> (r: Result<(), TextureError>) {
        let offset = D::zero_offset();
        <MemBackend as TextureBackend<D, P>>::clear_part(self, t, gen_mipmaps, offset, size, pixel)
    }

    fn upload_part(
        &mut self,
        t: &mut MemTexture,
        gen_mipmaps: GenMipmaps,
        offset: D::Offset,
        size: D::Size,
        texels: &Vec<P::Encoding>,
    ) -> (r: Result<(), TextureError>) {
        let data = encode_texels::<P>(texels);
        self.upload_texels::<D, P>(t, gen_mipmaps, offset, size, &data)
    }

    fn upload(
        &mut self,
        t: &mut MemTexture,
        gen_mipmaps: GenMipmaps,
        size: D::Size,
        texels: &Vec<P::Encoding>,
    ) -> (r: Result<(), TextureError>) {
        let offset = D::zero_offset();
        let data = encode_texels::<P>(texels);
        self.upload_texels::<D, P>(t, gen_mipmaps, offset, size, &data)
    }

    fn upload_part_raw(
        &mut self,
        t: &mut MemTexture,
        gen_mipmaps: GenMipmaps,
        offset: D::Offset,
        size: D::Size,
        texels: &Vec<u8>,
    ) -> (r: Result<(), TextureError>) {
        self.upload_texels::<D, P>(t, gen_mipmaps, offset, size, texels)
    }

    fn upload_raw(
        &mut self,
        t: &mut MemTexture,
        gen_mipmaps: GenMipmaps,
        size: D::Size,
        texels: &Vec<u8>,
    ) -> (r: Result<(), TextureError>) {
        let offset = D::zero_offset();
        self.upload_texels::<D, P>(t, gen_mipmaps, offset, size, texels)
    }

    fn get_raw_texels(&mut self, t: &MemTexture) -> (r: Result<Vec<u8>, TextureError>) {
        self.bind_texture(t.target, t.handle);
        proof {
            lemma_bytes_len_range(P::spec_pixel_format().format);
            assert((t.width as int) * (t.texel_bytes as int) <= 0xffff_ffff * 16)
                by (nonlinear_arith)
                requires
                    0 <= t.width as int <= 0xffff_ffff,
                    0 <= t.texel_bytes as int <= 16,
            ;
        }
        let row_bytes = (t.width as u64) * (t.texel_bytes as u64);
        self.set_pack_alignment((row_bytes % 8) as usize);
        let src = &t.levels[0];
        let n = src.len();
        let mut out: Vec<u8> = Vec::new();
        let mut i: usize = 0;
        while i < n
            invariant
                i <= n,
                n == src@.len(),
                out@.len() == i,
                forall|j: int| 0 <= j < i ==> out@[j] == src@[j],
            decreases n - i,
        {
            out.push(src[i]);
            i = i + 1;
        }
        proof {
            assert(out@ =~= src@);
        }
        self.bind_texture(t.target, 0);
        Ok(out)
    }

    fn resize(&mut self, t: &mut MemTexture, size: D::Size, mipmaps: usize) -> (r: Result<
        (),
        TextureError,
    >) {
        let levels_count = mipmaps + 1;
        match self.create_texture_storage::<D, P>(size, levels_count) {
            Err(e) => Err(e),
            Ok(levels) => {
                self.bind_texture(t.target, t.handle);
                proof {
                    D::lemma_size_properties(size);
                }
                t.levels = levels;
                t.width = D::width(size);
                t.height = D::height(size);
                t.depth = D::depth(size);
                Ok(())
            },
        }
    }

    fn delete_texture(&mut self, t: MemTexture) {
        // the device unbinds a deleted texture on its own; the cache must
        // forget the handle with it, so a reused handle value is never
        // misread as already bound
        let mut updated = self.device_bound;
        updated.clear_handle(t.handle);
        self.device_bound = updated;
        self.cache = updated;
    }
}


/// One shader-visible array as the in-memory device keeps it.
pub struct MemShaderData<T> {
    /// Device handle; never 0.
    handle: u32,
    /// The values, as many as the capacity fixed at construction.
    values: Vec<T>,
}

impl<T> MemShaderData<T> {
    /// Well-formedness: the handle is real.
    pub closed spec fn spec_inv(&self) -> bool {
        self.handle != 0
    }

    /// The values the array holds.
    pub closed spec fn spec_view(&self) -> Seq<T> {
        self.values@
    }
}

impl<T: Copy> ShaderData<T> for MemBackend {
    type ShaderDataRepr = MemShaderData<T>;

    open spec fn data_inv(d: &MemShaderData<T>) -> bool {
        d.spec_inv()
    }

    open spec fn data_view(d: &MemShaderData<T>) -> Seq<T> {
        d.spec_view()
    }

    open spec fn can_allocate_data(&self) -> bool {
        self.spec_can_allocate_data()
    }

    fn new_shader_data(&mut self, values: Vec<T>) -> (r: Result<
        MemShaderData<T>,
        ShaderDataError,
    >) {
        if self.next_handle == 0 || self.next_handle == u32::MAX {
            return Err(
                ShaderDataError::AllocationFailed(String::from_str("no buffer handle left")),
            );
        }
        let handle = self.next_handle;
        self.next_handle = self.next_handle + 1;
        Ok(MemShaderData { handle, values })
    }

    fn get_shader_data(d: &MemShaderData<T>, i: usize) -> (r: Option<T>) {
        if i < d.values.len() {
            Some(d.values[i])
        } else {
            None
        }
    }

    fn set_shader_data(d: &mut MemShaderData<T>, i: usize, x: T) -> (r: Option<()>) {
        if i < d.values.len() {
            d.values[i] = x;
            Some(())
        } else {
            None
        }
    }

    fn update_shader_data(d: &mut MemShaderData<T>, i: usize, values: Vec<T>) -> (r: Result<
        (),
        ShaderDataError,
    >) {
        let n = values.len();
        let cap = d.values.len();
        if i > cap || n > cap - i {
            return Err(
                ShaderDataError::UpdateError(
                    String::from_str("update range exceeds the capacity"),
                ),
            );
        }
        let mut j: usize = 0;
        while j < n
            invariant
                j <= n,
                n == values@.len(),
                i + n <= cap,
                d.values@.len() == cap,
                d.values@.len() == old(d).values@.len(),
                d.handle == old(d).handle,
                forall|k: int| 0 <= k < i ==> #[trigger] d.values@[k] == old(d).values@[k],
                forall|k: int| i <= k < i + j ==> #[trigger] d.values@[k] == values@[k - i],
                forall|k: int|
                    i + j <= k < d.values@.len() ==> #[trigger] d.values@[k] == old(d).values@[k],
            decreases n - j,
        {
            d.values[i + j] = values[j];
            j = j + 1;
        }
        Ok(())
    }
}

} // verus!
