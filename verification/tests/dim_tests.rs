use luminance::dim::CubeFace;
use luminance::dim::CubeOffset;
use luminance::dim::Cubemap;
use luminance::dim::Dim;
use luminance::dim::Dim1;
use luminance::dim::Dim1Array;
use luminance::dim::Dim2;
use luminance::dim::Dim2Array;
use luminance::dim::Dim3;
use luminance::dim::Dimensionable;

#[test]
fn count_dim1_is_width() {
    assert_eq!(Dim1::count(7), 7);
    assert_eq!(Dim1::count(0), 0);
}

#[test]
fn count_dim2_is_area() {
    assert_eq!(Dim2::count([4, 4]), 16);
    assert_eq!(Dim2::count([3, 5]), 15);
    assert_eq!(Dim2::count([0, 9]), 0);
}

#[test]
fn count_dim3_is_volume() {
    assert_eq!(Dim3::count([2, 3, 4]), 24);
    assert_eq!(Dim3::count([2, 3, 0]), 0);
}

#[test]
fn count_cubemap_is_one_face_area() {
    // one face's area, not six times it
    assert_eq!(Cubemap::count(3), 9);
    assert_eq!(Cubemap::depth(3), 6);
}

#[test]
fn count_dim1_array_is_width_times_layers() {
    assert_eq!(Dim1Array::count([5, 3]), 15);
    assert_eq!(Dim1Array::height([5, 3]), 3);
}

#[test]
fn count_dim2_array_is_area_times_layers() {
    assert_eq!(Dim2Array::count([4, 2, 3]), 24);
    assert_eq!(Dim2Array::depth([4, 2, 3]), 3);
}

#[test]
fn dims_reify() {
    assert_eq!(Dim1::dim(), Dim::Dim1);
    assert_eq!(Dim2::dim(), Dim::Dim2);
    assert_eq!(Dim3::dim(), Dim::Dim3);
    assert_eq!(Cubemap::dim(), Dim::Cubemap);
    assert_eq!(Dim1Array::dim(), Dim::Dim1Array);
    assert_eq!(Dim2Array::dim(), Dim::Dim2Array);
}

#[test]
fn missing_axes_default_to_one() {
    // extents a variant lacks read back as 1
    assert_eq!(Dim1::height(9), 1);
    assert_eq!(Dim1::depth(9), 1);
    assert_eq!(Dim2::depth([4, 4]), 1);
    assert_eq!(Dim1Array::depth([5, 3]), 1);
    // offsets on missing axes read back as 1, not 0 — the documented quirk
    assert_eq!(Dim1::y_offset(5), 1);
    assert_eq!(Dim1::z_offset(5), 1);
    assert_eq!(Dim2::z_offset([2, 2]), 1);
    assert_eq!(Dim1Array::z_offset([2, 2]), 1);
}

#[test]
fn cubemap_faces_map_to_layers() {
    let faces = [
        (CubeFace::PositiveX, 0),
        (CubeFace::NegativeX, 1),
        (CubeFace::PositiveY, 2),
        (CubeFace::NegativeY, 3),
        (CubeFace::PositiveZ, 4),
        (CubeFace::NegativeZ, 5),
    ];
    for (face, layer) in faces {
        let off = CubeOffset { xy: [0, 0], face };
        assert_eq!(Cubemap::z_offset(off), layer);
    }
}

#[test]
fn zero_offsets_sit_at_the_origin() {
    assert_eq!(Dim1::zero_offset(), 0);
    assert_eq!(Dim2::zero_offset(), [0, 0]);
    assert_eq!(Dim3::zero_offset(), [0, 0, 0]);
    assert_eq!(Dim1Array::zero_offset(), [0, 0]);
    assert_eq!(Dim2Array::zero_offset(), [0, 0, 0]);
    let cube = Cubemap::zero_offset();
    assert_eq!(cube.xy, [0, 0]);
    assert_eq!(cube.face, CubeFace::PositiveX);
}

#[test]
fn offsets_extract_per_axis() {
    assert_eq!(Dim3::x_offset([1, 2, 3]), 1);
    assert_eq!(Dim3::y_offset([1, 2, 3]), 2);
    assert_eq!(Dim3::z_offset([1, 2, 3]), 3);
    assert_eq!(Dim2Array::x_offset([4, 5, 6]), 4);
    assert_eq!(Dim2Array::y_offset([4, 5, 6]), 5);
    assert_eq!(Dim2Array::z_offset([4, 5, 6]), 6);
}
