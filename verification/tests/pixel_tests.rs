use luminance::pixel::ChannelLayout;
use luminance::pixel::ChannelSize;
use luminance::pixel::ChannelType;
use luminance::pixel::Format;
use luminance::pixel::NormR32UI;
use luminance::pixel::NormR8UI;
use luminance::pixel::NormRGB8UI;
use luminance::pixel::NormRGBA8UI;
use luminance::pixel::Pixel;
use luminance::pixel::PixelFormat;
use luminance::pixel::TransferFormat;
use luminance::pixel::TransferType;
use luminance::pixel::bytes_len;
use luminance::pixel::channels_len;
use luminance::pixel::device_pixel_format;
use luminance::pixel::row_alignment;

#[test]
fn pixel_byte_widths() {
    assert_eq!(bytes_len(NormR8UI::pixel_format().format), 1);
    assert_eq!(bytes_len(NormRGB8UI::pixel_format().format), 3);
    assert_eq!(bytes_len(NormRGBA8UI::pixel_format().format), 4);
    assert_eq!(bytes_len(NormR32UI::pixel_format().format), 4);
    assert_eq!(
        bytes_len(Format::RG(ChannelSize::Sixteen, ChannelSize::Sixteen)),
        4
    );
}

#[test]
fn pixel_channel_counts() {
    assert_eq!(channels_len(NormR8UI::pixel_format().format), 1);
    assert_eq!(channels_len(NormRGB8UI::pixel_format().format), 3);
    assert_eq!(channels_len(NormRGBA8UI::pixel_format().format), 4);
}

#[test]
fn device_format_for_rgb8() {
    let triple = device_pixel_format(NormRGB8UI::pixel_format()).unwrap();
    assert_eq!(triple.transfer, TransferFormat::Rgb);
    assert_eq!(triple.storage.layout, ChannelLayout::RGB);
    assert_eq!(triple.storage.size, ChannelSize::Eight);
    assert_eq!(triple.storage.encoding, ChannelType::NormUnsigned);
    assert_eq!(triple.ty, TransferType::UnsignedByte);
}

#[test]
fn device_format_for_integer_formats_transfers_as_integer() {
    let pf = PixelFormat {
        format: Format::R(ChannelSize::ThirtyTwo),
        encoding: ChannelType::Unsigned,
    };
    let triple = device_pixel_format(pf).unwrap();
    assert_eq!(triple.transfer, TransferFormat::RedInteger);
    assert_eq!(triple.ty, TransferType::UnsignedInt);
    let signed = PixelFormat {
        format: Format::RG(ChannelSize::Sixteen, ChannelSize::Sixteen),
        encoding: ChannelType::Integral,
    };
    let triple = device_pixel_format(signed).unwrap();
    assert_eq!(triple.transfer, TransferFormat::RgInteger);
    assert_eq!(triple.ty, TransferType::Short);
}

#[test]
fn device_format_lookup_is_partial() {
    // no 32-bit normalized storage
    assert!(device_pixel_format(NormR32UI::pixel_format()).is_none());
    // no storage for channels of differing sizes
    let mixed = PixelFormat {
        format: Format::RG(ChannelSize::Eight, ChannelSize::Sixteen),
        encoding: ChannelType::Unsigned,
    };
    assert!(device_pixel_format(mixed).is_none());
}

#[test]
fn row_alignment_follows_the_skip() {
    // rowBytes mod 8 in {0, 2, 4, other} selects {8, 2, 4, 1}
    assert_eq!(row_alignment(0), 8);
    assert_eq!(row_alignment(2), 2);
    assert_eq!(row_alignment(4), 4);
    assert_eq!(row_alignment(1), 1);
    assert_eq!(row_alignment(3), 1);
    assert_eq!(row_alignment(5), 1);
    assert_eq!(row_alignment(6), 1);
    assert_eq!(row_alignment(7), 1);
}

#[test]
fn row_alignment_over_widths_and_pixel_widths() {
    // the selection is a pure function of rowBytes mod 8
    for width in 0u64..33 {
        for tb in [1u64, 2, 3, 4, 8, 16] {
            let row_bytes = width * tb;
            let expected = match row_bytes % 8 {
                0 => 8,
                2 => 2,
                4 => 4,
                _ => 1,
            };
            assert_eq!(row_alignment((row_bytes % 8) as usize), expected);
        }
    }
}

#[test]
fn encodings_serialize_exactly() {
    assert_eq!(NormR8UI::encode(7), vec![7]);
    assert_eq!(NormRGB8UI::encode([1, 2, 3]), vec![1, 2, 3]);
    assert_eq!(NormRGBA8UI::encode([1, 2, 3, 4]), vec![1, 2, 3, 4]);
    assert_eq!(NormR32UI::encode(0x0403_0201), vec![1, 2, 3, 4]);
}
