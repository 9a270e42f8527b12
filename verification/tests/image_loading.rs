use azul_frame::image_loading::{
    decode_image_data, image_source_get_bytes, image_source_get_bytes_inner, is_image_opaque,
    premultiply, premultiply_channel, prepare_decoded_image, prepare_image, DecodedImage,
    ImageData, ImageReloadError, ImageSource, PixelLayout, RawImage,
};
use azul_frame::resources::{ImageDescriptor, RawImageFormat};
use std::path::PathBuf;

fn decoded(layout: PixelLayout, width: u32, height: u32, bytes: Vec<u8>) -> DecodedImage {
    DecodedImage { layout, width, height, bytes }
}

fn descriptor(width: usize, height: usize, is_opaque: bool) -> ImageDescriptor {
    ImageDescriptor {
        format: RawImageFormat::BGRA8,
        dimensions: (width, height),
        stride: None,
        offset: 0,
        is_opaque,
        allow_mipmaps: true,
    }
}

#[test]
fn premultiplication_rounds_to_nearest() {
    assert_eq!(premultiply_channel(255, 255), 255);
    assert_eq!(premultiply_channel(255, 0), 0);
    assert_eq!(premultiply_channel(0, 255), 0);
    assert_eq!(premultiply_channel(100, 128), 50);
    assert_eq!(premultiply_channel(200, 100), 78);
    assert_eq!(premultiply_channel(1, 126), 0);
    assert_eq!(premultiply_channel(1, 127), 1);
}

#[test]
fn premultiply_leaves_alpha_alone() {
    let mut data = vec![100, 200, 255, 128, 9, 8, 7, 255, 1, 2, 3, 0];
    premultiply(&mut data);
    assert_eq!(data, vec![50, 100, 128, 128, 9, 8, 7, 255, 0, 0, 0, 0]);
    let mut empty: Vec<u8> = Vec::new();
    premultiply(&mut empty);
    assert!(empty.is_empty());
}

#[test]
fn opacity_looks_at_every_alpha() {
    assert!(is_image_opaque(RawImageFormat::BGRA8, &vec![1, 2, 3, 255, 4, 5, 6, 255]));
    assert!(!is_image_opaque(RawImageFormat::BGRA8, &vec![1, 2, 3, 255, 4, 5, 6, 254]));
    assert!(is_image_opaque(RawImageFormat::BGRA8, &Vec::new()));
    // bytes after the last whole pixel are not looked at
    assert!(is_image_opaque(RawImageFormat::BGRA8, &vec![1, 2, 3, 255, 4, 5, 6]));
    assert!(is_image_opaque(RawImageFormat::R8, &vec![0, 0, 0, 0]));
}

#[test]
fn other_formats_are_not_known_to_be_opaque() {
    assert!(!is_image_opaque(RawImageFormat::RGBA8, &vec![1, 2, 3, 255]));
    assert!(!is_image_opaque(RawImageFormat::RG8, &vec![1, 2]));
    assert!(!is_image_opaque(RawImageFormat::R16, &Vec::new()));
    let source = ImageSource::Raw(RawImage {
        pixels: vec![1, 2, 3, 255],
        image_dimensions: (1, 1),
        data_format: RawImageFormat::RGBA8,
    });
    let (data, desc) = image_source_get_bytes(&source, None, None).unwrap();
    assert_eq!(data, ImageData::Raw(vec![1, 2, 3, 255]));
    assert_eq!(desc.format, RawImageFormat::RGBA8);
    assert!(!desc.is_opaque);
}

#[test]
fn grey_becomes_three_equal_colors() {
    let (data, desc) = prepare_image(decoded(PixelLayout::Luma8, 2, 1, vec![10, 200]));
    assert_eq!(data, ImageData::Raw(vec![10, 10, 10, 255, 200, 200, 200, 255]));
    assert_eq!(desc, descriptor(2, 1, true));

    let (data, desc) = prepare_image(decoded(PixelLayout::LumaA8, 1, 2, vec![10, 20, 200, 255]));
    assert_eq!(data, ImageData::Raw(vec![10, 10, 10, 20, 200, 200, 200, 255]));
    assert_eq!(desc, descriptor(1, 2, false));
}

#[test]
fn colors_without_alpha_are_reordered() {
    let (data, desc) = prepare_image(decoded(PixelLayout::Rgb8, 2, 1, vec![1, 2, 3, 4, 5, 6]));
    assert_eq!(data, ImageData::Raw(vec![3, 2, 1, 255, 6, 5, 4, 255]));
    assert_eq!(desc, descriptor(2, 1, true));

    let (data, _) = prepare_image(decoded(PixelLayout::Bgr8, 2, 1, vec![1, 2, 3, 4, 5, 6]));
    assert_eq!(data, ImageData::Raw(vec![1, 2, 3, 255, 4, 5, 6, 255]));
}

#[test]
fn colors_with_alpha_are_premultiplied() {
    let (data, desc) =
        prepare_image(decoded(PixelLayout::Bgra8, 2, 1, vec![100, 200, 255, 128, 9, 8, 7, 255]));
    assert_eq!(data, ImageData::Raw(vec![50, 100, 128, 128, 9, 8, 7, 255]));
    assert_eq!(desc, descriptor(2, 1, false));

    // red 100, green 200, blue 250
    let (data, desc) =
        prepare_image(decoded(PixelLayout::Rgba8, 1, 2, vec![100, 200, 250, 255, 100, 200, 250, 128]));
    assert_eq!(data, ImageData::Raw(vec![250, 200, 100, 255, 125, 100, 50, 128]));
    assert_eq!(desc, descriptor(1, 2, false));
}

#[test]
fn an_empty_image_is_opaque() {
    let (data, desc) = prepare_image(decoded(PixelLayout::Rgba8, 0, 0, Vec::new()));
    assert_eq!(data, ImageData::Raw(Vec::new()));
    assert_eq!(desc, descriptor(0, 0, true));
}

#[test]
fn incomplete_pixel_data_is_an_error() {
    match prepare_decoded_image(decoded(PixelLayout::Rgb8, 1, 1, vec![1, 2, 3, 4])) {
        Err(ImageReloadError::IncompletePixelData) => {}
        other => panic!("unexpected: {:?}", other),
    }
    match prepare_decoded_image(decoded(PixelLayout::Rgb8, 1, 1, vec![1, 2, 3])) {
        Ok((data, _)) => assert_eq!(data, ImageData::Raw(vec![3, 2, 1, 255])),
        other => panic!("unexpected: {:?}", other),
    }
    // whole pixels, but not as many as the image is wide times high
    for (width, height, bytes) in [(2, 1, vec![1, 2, 3]), (1, 1, vec![1, 2, 3, 4, 5, 6]), (0, 5, vec![1, 2, 3])] {
        match prepare_decoded_image(decoded(PixelLayout::Rgb8, width, height, bytes)) {
            Err(ImageReloadError::IncompletePixelData) => {}
            other => panic!("unexpected: {:?}", other),
        }
    }
    // sizes whose product does not fit 64 bits
    match prepare_decoded_image(decoded(PixelLayout::Rgba8, u32::MAX, u32::MAX, Vec::new())) {
        Err(ImageReloadError::IncompletePixelData) => {}
        other => panic!("unexpected: {:?}", other),
    }
    assert_eq!(
        ImageReloadError::IncompletePixelData.to_string(),
        "Image decoding error: \"pixel data does not match the size of the image\""
    );
}

fn png_of(color: image::ColorType, width: u32, height: u32, pixels: &[u8]) -> Vec<u8> {
    let mut encoded = Vec::new();
    image::png::PNGEncoder::new(&mut encoded).encode(pixels, width, height, color).unwrap();
    encoded
}

fn load(image_data: &[u8]) -> Result<DecodedImage, image::ImageError> {
    let (layout, size, bytes) = match image::load_from_memory(image_data)? {
        image::ImageLuma8(b) => (PixelLayout::Luma8, b.dimensions(), b.into_raw()),
        image::ImageLumaA8(b) => (PixelLayout::LumaA8, b.dimensions(), b.into_raw()),
        image::ImageRgb8(b) => (PixelLayout::Rgb8, b.dimensions(), b.into_raw()),
        image::ImageRgba8(b) => (PixelLayout::Rgba8, b.dimensions(), b.into_raw()),
        image::ImageBgr8(b) => (PixelLayout::Bgr8, b.dimensions(), b.into_raw()),
        image::ImageBgra8(b) => (PixelLayout::Bgra8, b.dimensions(), b.into_raw()),
    };
    Ok(DecodedImage { layout, width: size.0, height: size.1, bytes })
}

#[test]
fn a_png_is_decoded_and_prepared() {
    let png = png_of(image::ColorType::RGB(8), 2, 1, &[1, 2, 3, 4, 5, 6]);
    let (data, desc) = decode_image_data(load(&png)).expect("a valid image");
    assert_eq!(data, ImageData::Raw(vec![3, 2, 1, 255, 6, 5, 4, 255]));
    assert_eq!(desc, descriptor(2, 1, true));

    let png = png_of(image::ColorType::Gray(8), 1, 2, &[7, 9]);
    let (data, desc) = decode_image_data(load(&png)).expect("a valid image");
    assert_eq!(data, ImageData::Raw(vec![7, 7, 7, 255, 9, 9, 9, 255]));
    assert_eq!(desc, descriptor(1, 2, true));

    let png = png_of(image::ColorType::RGBA(8), 1, 1, &[100, 200, 250, 128]);
    let (data, desc) = decode_image_data(load(&png)).expect("a valid image");
    assert_eq!(data, ImageData::Raw(vec![125, 100, 50, 128]));
    assert_eq!(desc, descriptor(1, 1, false));
}

#[test]
fn bytes_that_are_no_image_give_a_decoding_error() {
    match decode_image_data(load(&[1, 2, 3, 4, 5])) {
        Err(ImageReloadError::DecodingError(_)) => {}
        other => panic!("unexpected: {:?}", other),
    }
    // the signature of a PNG without anything behind it
    match decode_image_data(load(b"\x89PNG\r\n\x1a\n")) {
        Err(e @ ImageReloadError::DecodingError(_)) => {
            assert!(e.to_string().starts_with("Image decoding error: \""));
        }
        other => panic!("unexpected: {:?}", other),
    }
}

#[test]
fn raw_pixels_are_handed_on() {
    let source = ImageSource::Raw(RawImage {
        pixels: vec![1, 2, 3, 255, 4, 5, 6, 0],
        image_dimensions: (2, 1),
        data_format: RawImageFormat::BGRA8,
    });
    let expected = ImageDescriptor {
        format: RawImageFormat::BGRA8,
        dimensions: (2, 1),
        stride: None,
        offset: 0,
        is_opaque: false,
        allow_mipmaps: true,
    };
    assert_eq!(
        image_source_get_bytes(&source, None, None),
        Some((ImageData::Raw(vec![1, 2, 3, 255, 4, 5, 6, 0]), expected))
    );
    let source = ImageSource::Raw(RawImage {
        pixels: vec![1, 2],
        image_dimensions: (2, 1),
        data_format: RawImageFormat::R8,
    });
    let (_, desc) = image_source_get_bytes(&source, None, None).unwrap();
    assert_eq!(desc.format, RawImageFormat::R8);
    assert!(desc.is_opaque);
}

#[test]
fn embedded_and_file_images_are_decoded() {
    let png = png_of(image::ColorType::RGB(8), 1, 1, &[1, 2, 3]);
    let embedded = ImageSource::Embedded(png.clone());
    assert_eq!(
        image_source_get_bytes(&embedded, None, Some(load(&png))),
        Some((ImageData::Raw(vec![3, 2, 1, 255]), descriptor(1, 1, true)))
    );
    let file = ImageSource::File(PathBuf::from("picture.png"));
    assert_eq!(
        image_source_get_bytes(&file, None, Some(load(&png))),
        Some((ImageData::Raw(vec![3, 2, 1, 255]), descriptor(1, 1, true)))
    );
    assert_eq!(image_source_get_bytes(&file, None, Some(load(&[0, 1, 2]))), None);
}

#[test]
fn an_image_that_nothing_decoded_is_an_error() {
    let embedded = ImageSource::Embedded(vec![1, 2, 3]);
    match image_source_get_bytes_inner(&embedded, None, None) {
        Err(e @ ImageReloadError::DecodingModuleNotActive) => {
            assert_eq!(e.to_string(), "Found decoded image, but no decoder is active");
        }
        other => panic!("unexpected: {:?}", other),
    }
    assert_eq!(image_source_get_bytes(&embedded, None, None), None);
    // a read error given for an embedded image is not looked at
    let failed = std::io::Error::new(std::io::ErrorKind::NotFound, "gone");
    let pixels = decoded(PixelLayout::Luma8, 1, 1, vec![7]);
    assert_eq!(
        image_source_get_bytes(&embedded, Some(failed), Some(Ok(pixels))),
        Some((ImageData::Raw(vec![7, 7, 7, 255]), descriptor(1, 1, true)))
    );
    // incomplete pixels of a file that was read
    let file = ImageSource::File(PathBuf::from("picture.png"));
    let pixels = decoded(PixelLayout::LumaA8, 1, 1, vec![7]);
    match image_source_get_bytes_inner(&file, None, Some(Ok(pixels))) {
        Err(ImageReloadError::IncompletePixelData) => {}
        other => panic!("unexpected: {:?}", other),
    }
}

#[test]
fn a_file_that_cannot_be_read_gives_an_io_error() {
    let file = ImageSource::File(PathBuf::from("picture.png"));
    let failed = std::io::Error::new(std::io::ErrorKind::PermissionDenied, "no access");
    match image_source_get_bytes_inner(&file, Some(failed), None) {
        Err(e @ ImageReloadError::Io(_, _)) => {
            assert_eq!(e.to_string(), "Could not load \"picture.png\" - IO error: no access");
            match e {
                ImageReloadError::Io(err, path) => {
                    assert_eq!(err.kind(), std::io::ErrorKind::PermissionDenied);
                    assert_eq!(path, PathBuf::from("picture.png"));
                }
                _ => unreachable!(),
            }
        }
        other => panic!("unexpected: {:?}", other),
    }
    let failed = std::io::Error::new(std::io::ErrorKind::NotFound, "gone");
    assert_eq!(image_source_get_bytes(&file, Some(failed), None), None);
}
