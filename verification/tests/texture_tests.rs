use luminance::dim::CubeFace;
use luminance::dim::CubeOffset;
use luminance::dim::Cubemap;
use luminance::dim::Dim;
use luminance::dim::Dim1;
use luminance::dim::Dim1Array;
use luminance::dim::Dim2;
use luminance::dim::Dim2Array;
use luminance::dim::Dim3;
use luminance::mem_backend::MemBackend;
use luminance::pixel::Pixel;
use luminance::pixel::NormR32UI;
use luminance::pixel::NormR8UI;
use luminance::pixel::NormRGB8UI;
use luminance::texture::GenMipmaps;
use luminance::texture::Sampler;
use luminance::texture::Texture;
use luminance::texture::TextureError;
use luminance::texture::decimal_string;

type Rgb2d = Texture<MemBackend, Dim2, NormRGB8UI>;

fn texels_4x4() -> Vec<[u8; 3]> {
    (0u8..16).map(|i| [i, 100 + i, 200u8.wrapping_add(i)]).collect()
}

fn flatten(texels: &[[u8; 3]]) -> Vec<u8> {
    texels.iter().flat_map(|t| t.iter().copied()).collect()
}

#[test]
fn build_2d_texture_and_upload_16_texels() {
    // a 4x4 texture with 0 extra mipmaps accepts 16 three-byte texels
    let mut b = MemBackend::new();
    let tex = Rgb2d::new(
        &mut b,
        [4, 4],
        0,
        Sampler::default(),
        GenMipmaps::No,
        &texels_4x4(),
    )
    .unwrap();
    assert_eq!(tex.mipmaps(), 1);
    assert_eq!(tex.size(), [4, 4]);
}

#[test]
fn upload_with_too_few_texels_is_refused() {
    // 10 texels are 30 bytes; the 4x4 area requires 48
    let mut b = MemBackend::new();
    let mut tex =
        Rgb2d::new_no_texels(&mut b, [4, 4], 0, Sampler::default()).unwrap();
    let ten: Vec<[u8; 3]> = texels_4x4().into_iter().take(10).collect();
    let err = tex.upload(&mut b, GenMipmaps::No, &ten).unwrap_err();
    assert_eq!(
        err,
        TextureError::NotEnoughPixels { expected_bytes: 48, provided_bytes: 30 }
    );
}

#[test]
fn refused_upload_issues_no_device_mutation() {
    // upload good texels, then fail a short upload: the stored texels,
    // the alignment registers and the binding state are all untouched
    let mut b = MemBackend::new();
    let mut tex = Rgb2d::new(
        &mut b,
        [4, 4],
        0,
        Sampler::default(),
        GenMipmaps::No,
        &texels_4x4(),
    )
    .unwrap();
    let before = tex.get_raw_texels(&mut b).unwrap();
    let unpack = b.current_unpack_alignment();
    let pack = b.current_pack_alignment();
    let bound = b.current_binding(Dim::Dim2);
    let short: Vec<[u8; 3]> = vec![[9, 9, 9]; 3];
    assert!(tex.upload(&mut b, GenMipmaps::No, &short).is_err());
    assert_eq!(b.current_unpack_alignment(), unpack);
    assert_eq!(b.current_pack_alignment(), pack);
    assert_eq!(b.current_binding(Dim::Dim2), bound);
    let after = tex.get_raw_texels(&mut b).unwrap();
    assert_eq!(before, after);
}

#[test]
fn upload_then_read_back_round_trips() {
    // 8-bit RGB is lossless: read-back returns the uploaded bytes
    let mut b = MemBackend::new();
    let texels = texels_4x4();
    let tex = Rgb2d::new(
        &mut b,
        [4, 4],
        0,
        Sampler::default(),
        GenMipmaps::No,
        &texels,
    )
    .unwrap();
    let back = tex.get_raw_texels(&mut b).unwrap();
    assert_eq!(back, flatten(&texels));
}

#[test]
fn resize_keeps_the_resource_identity() {
    // resizing 4x4 to 8x8 keeps the handle; 64 matching texels then fit
    let mut b = MemBackend::new();
    let mut tex = Rgb2d::new(
        &mut b,
        [4, 4],
        0,
        Sampler::default(),
        GenMipmaps::No,
        &texels_4x4(),
    )
    .unwrap();
    let handle = tex.handle();
    let big: Vec<[u8; 3]> = (0u8..64).map(|i| [i, i, i]).collect();
    tex.resize(&mut b, [8, 8], 0, GenMipmaps::No, &big).unwrap();
    assert_eq!(tex.handle(), handle);
    assert_eq!(tex.size(), [8, 8]);
    let back = tex.get_raw_texels(&mut b).unwrap();
    assert_eq!(back, flatten(&big));
}

#[test]
fn resize_never_relaxes_the_byte_requirement() {
    // after resizing to 8x8, 16 texels are as short as on a fresh 8x8
    let mut b = MemBackend::new();
    let mut tex = Rgb2d::new(
        &mut b,
        [4, 4],
        0,
        Sampler::default(),
        GenMipmaps::No,
        &texels_4x4(),
    )
    .unwrap();
    let err = tex
        .resize(&mut b, [8, 8], 0, GenMipmaps::No, &texels_4x4())
        .unwrap_err();
    assert_eq!(
        err,
        TextureError::NotEnoughPixels { expected_bytes: 192, provided_bytes: 48 }
    );
}

#[test]
fn partial_upload_overwrites_only_its_region() {
    let mut b = MemBackend::new();
    let zero: Vec<[u8; 3]> = vec![[0, 0, 0]; 16];
    let mut tex = Rgb2d::new(
        &mut b,
        [4, 4],
        0,
        Sampler::default(),
        GenMipmaps::No,
        &zero,
    )
    .unwrap();
    let patch: Vec<[u8; 3]> = vec![[1, 2, 3]; 4];
    tex.upload_part(&mut b, GenMipmaps::No, [1, 1], [2, 2], &patch)
        .unwrap();
    let back = tex.get_raw_texels(&mut b).unwrap();
    for y in 0..4 {
        for x in 0..4 {
            let texel = &back[(y * 4 + x) * 3..(y * 4 + x) * 3 + 3];
            if (1..3).contains(&x) && (1..3).contains(&y) {
                assert_eq!(texel, &[1, 2, 3]);
            } else {
                assert_eq!(texel, &[0, 0, 0]);
            }
        }
    }
}

#[test]
fn out_of_bounds_region_is_refused() {
    let mut b = MemBackend::new();
    let zero: Vec<[u8; 3]> = vec![[0, 0, 0]; 16];
    let mut tex = Rgb2d::new(
        &mut b,
        [4, 4],
        0,
        Sampler::default(),
        GenMipmaps::No,
        &zero,
    )
    .unwrap();
    let patch: Vec<[u8; 3]> = vec![[1, 2, 3]; 4];
    let err = tex
        .upload_part(&mut b, GenMipmaps::No, [3, 3], [2, 2], &patch)
        .unwrap_err();
    assert!(matches!(err, TextureError::CannotUploadTexels(_)));
    // and nothing was written
    let back = tex.get_raw_texels(&mut b).unwrap();
    assert!(back.iter().all(|&byte| byte == 0));
}

#[test]
fn clear_fills_every_texel() {
    let mut b = MemBackend::new();
    let zero: Vec<[u8; 3]> = vec![[0, 0, 0]; 16];
    let mut tex = Rgb2d::new(
        &mut b,
        [4, 4],
        0,
        Sampler::default(),
        GenMipmaps::No,
        &zero,
    )
    .unwrap();
    tex.clear(&mut b, GenMipmaps::No, [7, 8, 9]).unwrap();
    let back = tex.get_raw_texels(&mut b).unwrap();
    assert_eq!(back, flatten(&vec![[7, 8, 9]; 16]));
}

#[test]
fn raw_upload_round_trips() {
    let mut b = MemBackend::new();
    let bytes: Vec<u8> = (0u8..48).collect();
    let tex = Texture::<MemBackend, Dim2, NormRGB8UI>::new_raw(
        &mut b,
        [4, 4],
        0,
        Sampler::default(),
        GenMipmaps::No,
        &bytes,
    )
    .unwrap();
    assert_eq!(tex.get_raw_texels(&mut b).unwrap(), bytes);
}

#[test]
fn upload_negotiates_the_row_alignment() {
    let mut b = MemBackend::new();
    // 4 texels per row at 3 bytes each: 12 row bytes, 12 % 8 == 4
    let tex = Rgb2d::new(
        &mut b,
        [4, 4],
        0,
        Sampler::default(),
        GenMipmaps::No,
        &texels_4x4(),
    )
    .unwrap();
    assert_eq!(b.current_unpack_alignment(), 4);
    // 8 texels per row: 24 row bytes, 24 % 8 == 0
    let wide: Vec<[u8; 3]> = vec![[0, 0, 0]; 16];
    Texture::<MemBackend, Dim2, NormRGB8UI>::new(
        &mut b,
        [8, 2],
        0,
        Sampler::default(),
        GenMipmaps::No,
        &wide,
    )
    .unwrap();
    assert_eq!(b.current_unpack_alignment(), 8);
    // read-back sets the pack alignment from the texture's row bytes
    tex.get_raw_texels(&mut b).unwrap();
    assert_eq!(b.current_pack_alignment(), 4);
}

#[test]
fn construction_binds_and_upload_unbinds() {
    let mut b = MemBackend::new();
    let tex = Rgb2d::new_no_texels(&mut b, [4, 4], 0, Sampler::default()).unwrap();
    // the construction path leaves the new texture bound
    assert_eq!(b.current_binding(Dim::Dim2), tex.handle());
    let mut tex = tex;
    tex.upload(&mut b, GenMipmaps::No, &texels_4x4()).unwrap();
    // a transfer binds, then restores the target to no binding
    assert_eq!(b.current_binding(Dim::Dim2), 0);
}

#[test]
fn destroy_clears_any_binding_naming_the_handle() {
    let mut b = MemBackend::new();
    let tex = Rgb2d::new_no_texels(&mut b, [4, 4], 0, Sampler::default()).unwrap();
    let handle = tex.handle();
    assert_eq!(b.current_binding(Dim::Dim2), handle);
    tex.destroy(&mut b);
    assert_eq!(b.current_binding(Dim::Dim2), 0);
}

#[test]
fn unsupported_format_fails_storage_creation() {
    // a 32-bit normalized format exists on the interface side only
    let mut b = MemBackend::new();
    let r = Texture::<MemBackend, Dim2, NormR32UI>::new_no_texels(
        &mut b,
        [4, 4],
        0,
        Sampler::default(),
    );
    assert!(matches!(r, Err(TextureError::TextureStorageCreationFailed(_))));
}

#[test]
fn cubemap_upload_writes_one_face() {
    let mut b = MemBackend::new();
    let mut tex = Texture::<MemBackend, Cubemap, NormR8UI>::new_no_texels(
        &mut b,
        2,
        0,
        Sampler::default(),
    )
    .unwrap();
    let face: Vec<u8> = vec![9; 4];
    let off = CubeOffset { xy: [0, 0], face: CubeFace::NegativeX };
    tex.upload_part(&mut b, GenMipmaps::No, off, 2, &face).unwrap();
    let back = tex.get_raw_texels(&mut b).unwrap();
    // six faces of 2x2 one-byte texels; only the -X face (layer 1) is set
    assert_eq!(back.len(), 24);
    for (i, &byte) in back.iter().enumerate() {
        if (4..8).contains(&i) {
            assert_eq!(byte, 9);
        } else {
            assert_eq!(byte, 0);
        }
    }
}

#[test]
fn mipmap_levels_read_back_as_requested_plus_one() {
    let mut b = MemBackend::new();
    let tex = Rgb2d::new_no_texels(&mut b, [8, 8], 3, Sampler::default()).unwrap();
    assert_eq!(tex.mipmaps(), 4);
}

#[test]
fn error_constructors_build_their_variants() {
    assert_eq!(
        TextureError::texture_storage_creation_failed("oom".to_string()),
        TextureError::TextureStorageCreationFailed("oom".to_string())
    );
    assert_eq!(
        TextureError::not_enough_pixels(48, 30),
        TextureError::NotEnoughPixels { expected_bytes: 48, provided_bytes: 30 }
    );
    assert_eq!(
        TextureError::cannot_retrieve_texels("nope".to_string()),
        TextureError::CannotRetrieveTexels("nope".to_string())
    );
    assert_eq!(
        TextureError::cannot_upload_texels("nope".to_string()),
        TextureError::CannotUploadTexels("nope".to_string())
    );
    let pf = NormRGB8UI::pixel_format();
    assert_eq!(
        TextureError::unsupported_pixel_format(pf),
        TextureError::UnsupportedPixelFormat(pf)
    );
}

#[test]
fn error_messages_spell_the_byte_counts_out() {
    let err = TextureError::not_enough_pixels(48, 30);
    assert_eq!(
        err.message(),
        "not enough texels provided: expected 48 bytes, provided 30 bytes"
    );
    let err = TextureError::cannot_upload_texels("driver lost".to_string());
    assert_eq!(err.message(), "cannot upload texels to texture: driver lost");
    let err = TextureError::unsupported_pixel_format(NormR32UI::pixel_format());
    assert_eq!(err.message(), "unsupported pixel format: R(ThirtyTwo) NormUnsigned");
    let err = TextureError::unsupported_pixel_format(NormRGB8UI::pixel_format());
    assert_eq!(
        err.message(),
        "unsupported pixel format: RGB(Eight, Eight, Eight) NormUnsigned"
    );
}

#[test]
fn decimal_rendering() {
    assert_eq!(decimal_string(0), "0");
    assert_eq!(decimal_string(9), "9");
    assert_eq!(decimal_string(10), "10");
    assert_eq!(decimal_string(48), "48");
    assert_eq!(decimal_string(120406), "120406");
}

#[test]
fn one_dimensional_round_trip() {
    let mut b = MemBackend::new();
    let line: Vec<u8> = vec![10, 20, 30, 40, 50];
    let tex = Texture::<MemBackend, Dim1, NormR8UI>::new(
        &mut b,
        5,
        0,
        Sampler::default(),
        GenMipmaps::No,
        &line,
    )
    .unwrap();
    assert_eq!(tex.get_raw_texels(&mut b).unwrap(), line);
    assert_eq!(b.current_binding(Dim::Dim1), 0);
}

#[test]
fn three_dimensional_round_trip() {
    let mut b = MemBackend::new();
    let volume: Vec<u8> = (0u8..8).collect();
    let tex = Texture::<MemBackend, Dim3, NormR8UI>::new(
        &mut b,
        [2, 2, 2],
        0,
        Sampler::default(),
        GenMipmaps::No,
        &volume,
    )
    .unwrap();
    assert_eq!(tex.get_raw_texels(&mut b).unwrap(), volume);
}

#[test]
fn one_dimensional_array_round_trip() {
    // 4 texels wide, 2 layers
    let mut b = MemBackend::new();
    let layers: Vec<u8> = (0u8..8).collect();
    let tex = Texture::<MemBackend, Dim1Array, NormR8UI>::new(
        &mut b,
        [4, 2],
        0,
        Sampler::default(),
        GenMipmaps::No,
        &layers,
    )
    .unwrap();
    assert_eq!(tex.get_raw_texels(&mut b).unwrap(), layers);
}

#[test]
fn two_dimensional_array_writes_one_layer() {
    // 2x2 texels, 3 layers; overwrite the middle layer only
    let mut b = MemBackend::new();
    let zero: Vec<u8> = vec![0; 12];
    let mut tex = Texture::<MemBackend, Dim2Array, NormR8UI>::new(
        &mut b,
        [2, 2, 3],
        0,
        Sampler::default(),
        GenMipmaps::No,
        &zero,
    )
    .unwrap();
    let layer: Vec<u8> = vec![7; 4];
    tex.upload_part(&mut b, GenMipmaps::No, [0, 0, 1], [2, 2, 1], &layer)
        .unwrap();
    let back = tex.get_raw_texels(&mut b).unwrap();
    assert_eq!(&back[0..4], &[0, 0, 0, 0]);
    assert_eq!(&back[4..8], &[7, 7, 7, 7]);
    assert_eq!(&back[8..12], &[0, 0, 0, 0]);
}

#[test]
fn clearing_with_mipmap_regeneration_succeeds() {
    let mut b = MemBackend::new();
    let mut tex = Rgb2d::new_no_texels(&mut b, [4, 4], 2, Sampler::default()).unwrap();
    assert_eq!(tex.mipmaps(), 3);
    tex.clear(&mut b, GenMipmaps::Yes, [1, 1, 1]).unwrap();
    let back = tex.get_raw_texels(&mut b).unwrap();
    assert_eq!(back, vec![1; 48]);
}

#[test]
fn default_sampler_is_trilinear_and_clamped() {
    let s = Sampler::default();
    assert_eq!(s.wrap_r, luminance::texture::Wrap::ClampToEdge);
    assert_eq!(s.wrap_s, luminance::texture::Wrap::ClampToEdge);
    assert_eq!(s.wrap_t, luminance::texture::Wrap::ClampToEdge);
    assert_eq!(s.min_filter, luminance::texture::MinFilter::LinearMipmapLinear);
    assert_eq!(s.mag_filter, luminance::texture::MagFilter::Linear);
    assert_eq!(s.depth_comparison, None);
}
