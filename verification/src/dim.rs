//! Dimensionality and addressing model for textures.
//!
//! Each dimensionality variant defines a `Size` and an `Offset` type and
//! pure extraction functions. The `count` of a size is the number of
//! addressable texels it represents: the product of the variant's declared
//! extents (for a cubemap, the area of one face).

use vstd::prelude::*;

verus! {

/// Dimension of a texture.
#[derive(Clone, Copy, Debug, PartialEq, Eq, Structural)]
pub enum Dim {
    /// 1D.
    Dim1,
    /// 2D.
    Dim2,
    /// 3D.
    Dim3,
    /// Cubemap (six square faces).
    Cubemap,
    /// 1D array.
    Dim1Array,
    /// 2D array.
    Dim2Array,
}

/// Faces of a cubemap.
#[derive(Clone, Copy, Debug, PartialEq, Eq, Structural)]
pub enum CubeFace {
    /// The +X face of the cube.
    PositiveX,
    /// The -X face of the cube.
    NegativeX,
    /// The +Y face of the cube.
    PositiveY,
    /// The -Y face of the cube.
    NegativeY,
    /// The +Z face of the cube.
    PositiveZ,
    /// The -Z face of the cube.
    NegativeZ,
}

/// Offset into a cubemap: an in-face coordinate pair and the face addressed.
#[derive(Clone, Copy, Debug)]
pub struct CubeOffset {
    /// In-face x/y offset.
    pub xy: [u32; 2],
    /// The face addressed.
    pub face: CubeFace,
}

/// The layer index a cubemap face is addressed by.
pub open spec fn spec_face_index(f: CubeFace) -> int {
    match f {
        CubeFace::PositiveX => 0,
        CubeFace::NegativeX => 1,
        CubeFace::PositiveY => 2,
        CubeFace::NegativeY => 3,
        CubeFace::PositiveZ => 4,
        CubeFace::NegativeZ => 5,
    }
}

/// Whether the variant has a second addressable axis.
pub open spec fn has_y_axis(d: Dim) -> bool {
    !(d is Dim1)
}

/// Whether the variant has a third addressable axis.
pub open spec fn has_z_axis(d: Dim) -> bool {
    d is Dim3 || d is Dim2Array || d is Cubemap
}

/// Number of rows a transfer of a region of size `(w, h)` walks.
/// A 1D transfer walks a single row; a cubemap face is square, so its row
/// count equals its width.
pub open spec fn region_rows(d: Dim, w: int, h: int) -> int {
    match d {
        Dim::Dim1 => 1,
        Dim::Cubemap => w,
        _ => h,
    }
}

/// Number of layers a transfer of a region of depth `dp` walks.
/// Only 3D and 2D-array transfers address more than one layer; a cubemap
/// transfer addresses a single face.
pub open spec fn region_layers(d: Dim, dp: int) -> int {
    match d {
        Dim::Dim3 | Dim::Dim2Array => dp,
        _ => 1,
    }
}

/// The row at which a transfer with offset row `y` starts. 1D transfers
/// carry no row coordinate, so the offset's (quirky) default row is ignored.
pub open spec fn region_row_origin(d: Dim, y: int) -> int {
    if d is Dim1 {
        0
    } else {
        y
    }
}

/// The layer at which a transfer with offset layer `z` starts. Variants
/// without a third axis carry no layer coordinate, so the offset's default
/// layer is ignored.
pub open spec fn region_layer_origin(d: Dim, z: int) -> int {
    if has_z_axis(d) {
        z
    } else {
        0
    }
}

/// Reify a type into a [`Dim`], with pure size and offset accessors.
///
/// Axes a variant lacks read back as extent 1; offsets on such axes read
/// back as 1, not 0 — a long-standing quirk of this interface that callers
/// rely on, preserved here and ignored by transfers (see
/// [`region_row_origin`] and [`region_layer_origin`]).
pub trait Dimensionable: Sized {
    /// Size type of a dimension.
    type Size: Copy;

    /// Offset type of a dimension.
    type Offset: Copy;

    /// The dimension, as a value.
    spec fn spec_dim() -> Dim;

    /// Width of a size.
    spec fn spec_width(size: Self::Size) -> int;

    /// Height of a size (1 if the variant has none).
    spec fn spec_height(size: Self::Size) -> int;

    /// Depth of a size (1 if the variant has none; 6 for a cubemap).
    spec fn spec_depth(size: Self::Size) -> int;

    /// X offset.
    spec fn spec_x_offset(off: Self::Offset) -> int;

    /// Y offset (1 if the variant has none — see the trait doc).
    spec fn spec_y_offset(off: Self::Offset) -> int;

    /// Z offset (1 if the variant has none — see the trait doc).
    spec fn spec_z_offset(off: Self::Offset) -> int;

    /// Number of texels a size represents: the product of the declared
    /// extents; for a cubemap, the area of one face.
    spec fn spec_count(size: Self::Size) -> int;

    /// The all-zero offset.
    spec fn spec_zero_offset() -> Self::Offset;

    /// Every size decomposes into u32-ranged extents; the count is exactly
    /// the number of texels a whole-size transfer walks, and never exceeds
    /// the storage capacity `width * height * depth`.
    proof fn lemma_size_properties(size: Self::Size)
        ensures
            0 <= Self::spec_width(size) <= u32::MAX,
            0 <= Self::spec_height(size) <= u32::MAX,
            0 <= Self::spec_depth(size) <= u32::MAX,
            Self::spec_count(size) == Self::spec_width(size) * region_rows(
                Self::spec_dim(),
                Self::spec_width(size),
                Self::spec_height(size),
            ) * region_layers(Self::spec_dim(), Self::spec_depth(size)),
            Self::spec_count(size) <= Self::spec_width(size) * Self::spec_height(size)
                * Self::spec_depth(size),
            Self::spec_dim() is Cubemap ==> Self::spec_height(size) == Self::spec_width(size)
                && Self::spec_depth(size) == 6,
            !has_y_axis(Self::spec_dim()) ==> Self::spec_height(size) == 1,
            !has_z_axis(Self::spec_dim()) ==> Self::spec_depth(size) == 1,
    ;

    /// Every offset decomposes into u32-ranged coordinates; a cubemap's
    /// layer coordinate is a face index below 6; the zero offset sits at
    /// the origin of every axis the variant has.
    proof fn lemma_offset_properties(off: Self::Offset)
        ensures
            0 <= Self::spec_x_offset(off) <= u32::MAX,
            0 <= Self::spec_y_offset(off) <= u32::MAX,
            0 <= Self::spec_z_offset(off) <= u32::MAX,
            Self::spec_dim() is Cubemap ==> 0 <= Self::spec_z_offset(off) < 6,
            Self::spec_x_offset(Self::spec_zero_offset()) == 0,
            has_y_axis(Self::spec_dim()) ==> Self::spec_y_offset(Self::spec_zero_offset()) == 0,
            has_z_axis(Self::spec_dim()) ==> Self::spec_z_offset(Self::spec_zero_offset()) == 0,
    ;

    /// Dimension.
    fn dim() -> (d: Dim)
        ensures
            d == Self::spec_dim(),
    ;

    /// Width of the given size.
    fn width(size: Self::Size) -> (w: u32)
        ensures
            w == Self::spec_width(size),
    ;

    /// Height of the given size. If the variant has none, 1.
    fn height(size: Self::Size) -> (h: u32)
        ensures
            h == Self::spec_height(size),
    ;

    /// Depth of the given size. If the variant has none, 1.
    fn depth(size: Self::Size) -> (d: u32)
        ensures
            d == Self::spec_depth(size),
    ;

    /// X offset.
    fn x_offset(off: Self::Offset) -> (x: u32)
        ensures
            x == Self::spec_x_offset(off),
    ;

    /// Y offset. If the variant has none, 1.
    fn y_offset(off: Self::Offset) -> (y: u32)
        ensures
            y == Self::spec_y_offset(off),
    ;

    /// Z offset. If the variant has none, 1.
    fn z_offset(off: Self::Offset) -> (z: u32)
        ensures
            z == Self::spec_z_offset(off),
    ;

    /// Amount of texels this size represents.
    fn count(size: Self::Size) -> (c: usize)
        requires
            Self::spec_count(size) <= usize::MAX,
        ensures
            c == Self::spec_count(size),
    ;

    /// The all-zero offset.
    fn zero_offset() -> (off: Self::Offset)
        ensures
            off == Self::spec_zero_offset(),
    ;
}

/// 1D dimension.
#[derive(Clone, Copy, Debug)]
pub struct Dim1;

impl Dimensionable for Dim1 {
    type Size = u32;

    type Offset = u32;

    open spec fn spec_dim() -> Dim {
        Dim::Dim1
    }

    open spec fn spec_width(size: u32) -> int {
        size as int
    }

    open spec fn spec_height(size: u32) -> int {
        1
    }

    open spec fn spec_depth(size: u32) -> int {
        1
    }

    open spec fn spec_x_offset(off: u32) -> int {
        off as int
    }

    open spec fn spec_y_offset(off: u32) -> int {
        1
    }

    open spec fn spec_z_offset(off: u32) -> int {
        1
    }

    open spec fn spec_count(size: u32) -> int {
        size as int
    }

    open spec fn spec_zero_offset() -> u32 {
        0
    }

    proof fn lemma_size_properties(size: u32) {
    }

    proof fn lemma_offset_properties(off: u32) {
    }

    fn dim() -> Dim {
        Dim::Dim1
    }

    fn width(size: u32) -> u32 {
        size
    }

    fn height(size: u32) -> u32 {
        1
    }

    fn depth(size: u32) -> u32 {
        1
    }

    fn x_offset(off: u32) -> u32 {
        off
    }

    fn y_offset(off: u32) -> u32 {
        1
    }

    fn z_offset(off: u32) -> u32 {
        1
    }

    fn count(size: u32) -> usize {
        size as usize
    }

    fn zero_offset() -> u32 {
        0
    }
}

/// 2D dimension.
#[derive(Clone, Copy, Debug)]
pub struct Dim2;

impl Dimensionable for Dim2 {
    type Size = [u32; 2];

    type Offset = [u32; 2];

    open spec fn spec_dim() -> Dim {
        Dim::Dim2
    }

    open spec fn spec_width(size: [u32; 2]) -> int {
        size[0] as int
    }

    open spec fn spec_height(size: [u32; 2]) -> int {
        size[1] as int
    }

    open spec fn spec_depth(size: [u32; 2]) -> int {
        1
    }

    open spec fn spec_x_offset(off: [u32; 2]) -> int {
        off[0] as int
    }

    open spec fn spec_y_offset(off: [u32; 2]) -> int {
        off[1] as int
    }

    open spec fn spec_z_offset(off: [u32; 2]) -> int {
        1
    }

    open spec fn spec_count(size: [u32; 2]) -> int {
        size[0] * size[1]
    }

    open spec fn spec_zero_offset() -> [u32; 2] {
        [0u32, 0u32]
    }

    proof fn lemma_size_properties(size: [u32; 2]) {
    }

    proof fn lemma_offset_properties(off: [u32; 2]) {
    }

    fn dim() -> Dim {
        Dim::Dim2
    }

    fn width(size: [u32; 2]) -> u32 {
        size[0]
    }

    fn height(size: [u32; 2]) -> u32 {
        size[1]
    }

    fn depth(size: [u32; 2]) -> u32 {
        1
    }

    fn x_offset(off: [u32; 2]) -> u32 {
        off[0]
    }

    fn y_offset(off: [u32; 2]) -> u32 {
        off[1]
    }

    fn z_offset(off: [u32; 2]) -> u32 {
        1
    }

    fn count(size: [u32; 2]) -> usize {
        (size[0] as usize) * (size[1] as usize)
    }

    fn zero_offset() -> [u32; 2] {
        [0, 0]
    }
}

/// 3D dimension.
#[derive(Clone, Copy, Debug)]
pub struct Dim3;

impl Dimensionable for Dim3 {
    type Size = [u32; 3];

    type Offset = [u32; 3];

    open spec fn spec_dim() -> Dim {
        Dim::Dim3
    }

    open spec fn spec_width(size: [u32; 3]) -> int {
        size[0] as int
    }

    open spec fn spec_height(size: [u32; 3]) -> int {
        size[1] as int
    }

    open spec fn spec_depth(size: [u32; 3]) -> int {
        size[2] as int
    }

    open spec fn spec_x_offset(off: [u32; 3]) -> int {
        off[0] as int
    }

    open spec fn spec_y_offset(off: [u32; 3]) -> int {
        off[1] as int
    }

    open spec fn spec_z_offset(off: [u32; 3]) -> int {
        off[2] as int
    }

    open spec fn spec_count(size: [u32; 3]) -> int {
        size[0] * size[1] * size[2]
    }

    open spec fn spec_zero_offset() -> [u32; 3] {
        [0u32, 0u32, 0u32]
    }

    proof fn lemma_size_properties(size: [u32; 3]) {
    }

    proof fn lemma_offset_properties(off: [u32; 3]) {
    }

    fn dim() -> Dim {
        Dim::Dim3
    }

    fn width(size: [u32; 3]) -> u32 {
        size[0]
    }

    fn height(size: [u32; 3]) -> u32 {
        size[1]
    }

    fn depth(size: [u32; 3]) -> u32 {
        size[2]
    }

    fn x_offset(off: [u32; 3]) -> u32 {
        off[0]
    }

    fn y_offset(off: [u32; 3]) -> u32 {
        off[1]
    }

    fn z_offset(off: [u32; 3]) -> u32 {
        off[2]
    }

    fn count(size: [u32; 3]) -> (c: usize) {
        let w = size[0] as usize;
        let h = size[1] as usize;
        let d = size[2] as usize;
        if d == 0 {
            proof {
                assert((w as int) * (h as int) * (d as int) == 0) by (nonlinear_arith)
                    requires
                        d == 0,
                ;
            }
            0
        } else {
            proof {
                assert(w * h <= w * h * d) by (nonlinear_arith)
                    requires
                        w >= 0,
                        h >= 0,
                        d >= 1,
                ;
            }
            w * h * d
        }
    }

    fn zero_offset() -> [u32; 3] {
        [0, 0, 0]
    }
}

/// Cubemap dimension.
#[derive(Clone, Copy, Debug)]
pub struct Cubemap;

impl Dimensionable for Cubemap {
    type Size = u32;

    type Offset = CubeOffset;

    open spec fn spec_dim() -> Dim {
        Dim::Cubemap
    }

    open spec fn spec_width(size: u32) -> int {
        size as int
    }

    open spec fn spec_height(size: u32) -> int {
        size as int
    }

    open spec fn spec_depth(size: u32) -> int {
        6
    }

    open spec fn spec_x_offset(off: CubeOffset) -> int {
        off.xy[0] as int
    }

    open spec fn spec_y_offset(off: CubeOffset) -> int {
        off.xy[1] as int
    }

    open spec fn spec_z_offset(off: CubeOffset) -> int {
        spec_face_index(off.face)
    }

    open spec fn spec_count(size: u32) -> int {
        size * size
    }

    open spec fn spec_zero_offset() -> CubeOffset {
        CubeOffset { xy: [0u32, 0u32], face: CubeFace::PositiveX }
    }

    proof fn lemma_size_properties(size: u32) {
        assert(size * size <= size * size * 6) by (nonlinear_arith)
            requires
                size >= 0,
        ;
    }

    proof fn lemma_offset_properties(off: CubeOffset) {
    }

    fn dim() -> Dim {
        Dim::Cubemap
    }

    fn width(size: u32) -> u32 {
        size
    }

    fn height(size: u32) -> u32 {
        size
    }

    fn depth(size: u32) -> u32 {
        6
    }

    fn x_offset(off: CubeOffset) -> u32 {
        off.xy[0]
    }

    fn y_offset(off: CubeOffset) -> u32 {
        off.xy[1]
    }

    fn z_offset(off: CubeOffset) -> u32 {
        match off.face {
            CubeFace::PositiveX => 0,
            CubeFace::NegativeX => 1,
            CubeFace::PositiveY => 2,
            CubeFace::NegativeY => 3,
            CubeFace::PositiveZ => 4,
            CubeFace::NegativeZ => 5,
        }
    }

    fn count(size: u32) -> usize {
        let s = size as usize;
        s * s
    }

    fn zero_offset() -> CubeOffset {
        CubeOffset { xy: [0, 0], face: CubeFace::PositiveX }
    }
}

/// 1D array dimension: a width and a layer count.
#[derive(Clone, Copy, Debug)]
pub struct Dim1Array;

impl Dimensionable for Dim1Array {
    type Size = [u32; 2];

    type Offset = [u32; 2];

    open spec fn spec_dim() -> Dim {
        Dim::Dim1Array
    }

    open spec fn spec_width(size: [u32; 2]) -> int {
        size[0] as int
    }

    open spec fn spec_height(size: [u32; 2]) -> int {
        size[1] as int
    }

    open spec fn spec_depth(size: [u32; 2]) -> int {
        1
    }

    open spec fn spec_x_offset(off: [u32; 2]) -> int {
        off[0] as int
    }

    open spec fn spec_y_offset(off: [u32; 2]) -> int {
        off[1] as int
    }

    open spec fn spec_z_offset(off: [u32; 2]) -> int {
        1
    }

    open spec fn spec_count(size: [u32; 2]) -> int {
        size[0] * size[1]
    }

    open spec fn spec_zero_offset() -> [u32; 2] {
        [0u32, 0u32]
    }

    proof fn lemma_size_properties(size: [u32; 2]) {
    }

    proof fn lemma_offset_properties(off: [u32; 2]) {
    }

    fn dim() -> Dim {
        Dim::Dim1Array
    }

    fn width(size: [u32; 2]) -> u32 {
        size[0]
    }

    fn height(size: [u32; 2]) -> u32 {
        size[1]
    }

    fn depth(size: [u32; 2]) -> u32 {
        1
    }

    fn x_offset(off: [u32; 2]) -> u32 {
        off[0]
    }

    fn y_offset(off: [u32; 2]) -> u32 {
        off[1]
    }

    fn z_offset(off: [u32; 2]) -> u32 {
        1
    }

    fn count(size: [u32; 2]) -> usize {
        (size[0] as usize) * (size[1] as usize)
    }

    fn zero_offset() -> [u32; 2] {
        [0, 0]
    }
}

/// 2D array dimension: a 2D size and a layer count.
#[derive(Clone, Copy, Debug)]
pub struct Dim2Array;

impl Dimensionable for Dim2Array {
    type Size = [u32; 3];

    type Offset = [u32; 3];

    open spec fn spec_dim() -> Dim {
        Dim::Dim2Array
    }

    open spec fn spec_width(size: [u32; 3]) -> int {
        size[0] as int
    }

    open spec fn spec_height(size: [u32; 3]) -> int {
        size[1] as int
    }

    open spec fn spec_depth(size: [u32; 3]) -> int {
        size[2] as int
    }

    open spec fn spec_x_offset(off: [u32; 3]) -> int {
        off[0] as int
    }

    open spec fn spec_y_offset(off: [u32; 3]) -> int {
        off[1] as int
    }

    open spec fn spec_z_offset(off: [u32; 3]) -> int {
        off[2] as int
    }

    open spec fn spec_count(size: [u32; 3]) -> int {
        size[0] * size[1] * size[2]
    }

    open spec fn spec_zero_offset() -> [u32; 3] {
        [0u32, 0u32, 0u32]
    }

    proof fn lemma_size_properties(size: [u32; 3]) {
    }

    proof fn lemma_offset_properties(off: [u32; 3]) {
    }

    fn dim() -> Dim {
        Dim::Dim2Array
    }

    fn width(size: [u32; 3]) -> u32 {
        size[0]
    }

    fn height(size: [u32; 3]) -> u32 {
        size[1]
    }

    fn depth(size: [u32; 3]) -> u32 {
        size[2]
    }

    fn x_offset(off: [u32; 3]) -> u32 {
        off[0]
    }

    fn y_offset(off: [u32; 3]) -> u32 {
        off[1]
    }

    fn z_offset(off: [u32; 3]) -> u32 {
        off[2]
    }

    fn count(size: [u32; 3]) -> (c: usize) {
        let w = size[0] as usize;
        let h = size[1] as usize;
        let d = size[2] as usize;
        if d == 0 {
            proof {
                assert((w as int) * (h as int) * (d as int) == 0) by (nonlinear_arith)
                    requires
                        d == 0,
                ;
            }
            0
        } else {
            proof {
                assert(w * h <= w * h * d) by (nonlinear_arith)
                    requires
                        w >= 0,
                        h >= 0,
                        d >= 1,
                ;
            }
            w * h * d
        }
    }

    fn zero_offset() -> [u32; 3] {
        [0, 0, 0]
    }
}

} // verus!
