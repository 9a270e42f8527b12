//! Where the pixels of an image come from, and how decoded pixels are
//! brought into the one layout that the rasterizer takes: BGRA with 8 bits
//! per channel and the colors multiplied by alpha.
//!
//! The library reads no file and decodes no file format. The caller hands
//! in what the decoder made of the bytes, as a `DecodedImage` or as the
//! decoder's error.

use vstd::prelude::*;
use std::io::Error as IoError;
use std::path::PathBuf;
use crate::font_loading::{bytes_to_vec, io_error_to_string, path_clone, path_to_string_lossy};
use crate::resources::{ExternalImageId, ImageDescriptor, RawImageFormat};

verus! {

/// The error of the `image` crate, carried through unread.
#[verifier::external_type_specification]
#[verifier::external_body]
pub struct ExImageError(image::ImageError);

#[derive(Debug)]
pub enum ImageReloadError {
    Io(IoError, PathBuf),
    DecodingError(image::ImageError),
    /// The image has to be decoded, and no decoder was there to do it
    DecodingModuleNotActive,
    /// The decoder handed out pixel data that is not that of as many
    /// pixels as the image is wide times high
    IncompletePixelData,
}

/// Pixels that are already decoded.
#[derive(Debug, PartialEq, Eq, Hash)]
pub struct RawImage {
    pub pixels: Vec<u8>,
    pub image_dimensions: (usize, usize),
    pub data_format: RawImageFormat,
}

/// Where an image is loaded from.
#[derive(Debug)]
pub enum ImageSource {
    /// The image is embedded in the program, in a file format
    Embedded(Vec<u8>),
    /// The image is already decoded
    Raw(RawImage),
    /// The image is a file on disk
    File(PathBuf),
}

/// The pixels of an image as the rasterizer takes them.
#[derive(Debug, PartialEq, Eq, Hash)]
pub enum ImageData {
    /// The pixels themselves
    Raw(Vec<u8>),
    /// The pixels are those of a registered texture
    External(ExternalImageId),
}

/// How the channels of a decoded image are laid out, 8 bits each.
#[derive(Debug, Clone, Copy, PartialEq, Eq, Structural, Hash)]
pub enum PixelLayout {
    Luma8,
    LumaA8,
    Rgb8,
    Rgba8,
    Bgr8,
    Bgra8,
}

/// A decoded image: its size in pixels and its bytes, pixel after pixel.
#[derive(Debug, PartialEq, Eq, Hash)]
pub struct DecodedImage {
    pub layout: PixelLayout,
    pub width: u32,
    pub height: u32,
    pub bytes: Vec<u8>,
}

/// The mathematical value of a `DecodedImage`.
pub struct DecodedImageView {
    pub layout: PixelLayout,
    pub width: u32,
    pub height: u32,
    pub bytes: Seq<u8>,
}

impl View for DecodedImage {
    type V = DecodedImageView;

    open spec fn view(&self) -> DecodedImageView {
        DecodedImageView {
            layout: self.layout,
            width: self.width,
            height: self.height,
            bytes: self.bytes@,
        }
    }
}

impl PixelLayout {
    /// Number of bytes of one pixel.
    pub open spec fn channels(self) -> int {
        match self {
            PixelLayout::Luma8 => 1,
            PixelLayout::LumaA8 => 2,
            PixelLayout::Rgb8 => 3,
            PixelLayout::Rgba8 => 4,
            PixelLayout::Bgr8 => 3,
            PixelLayout::Bgra8 => 4,
        }
    }

    /// Number of bytes of one pixel.
    pub fn channel_count(&self) -> (count: usize)
        ensures
            count == self.channels(),
    {
        match self {
            PixelLayout::Luma8 => 1,
            PixelLayout::LumaA8 => 2,
            PixelLayout::Rgb8 => 3,
            PixelLayout::Rgba8 => 4,
            PixelLayout::Bgr8 => 3,
            PixelLayout::Bgra8 => 4,
        }
    }
}

/// A color channel multiplied by alpha, rounded to the nearest value.
pub open spec fn premultiplied(channel: u8, alpha: u8) -> u8 {
    ((channel * alpha + 128) / 255) as u8
}

/// A color channel multiplied by alpha, rounded to the nearest value.
pub fn premultiply_channel(channel: u8, alpha: u8) -> (product: u8)
    ensures
        product == premultiplied(channel, alpha),
{
    let c: u32 = channel as u32;
    let a: u32 = alpha as u32;
    assert(c * a <= 255 * 255) by (nonlinear_arith)
        requires
            c <= 255,
            a <= 255,
    ;
    (((c * a) + 128) / 255) as u8
}

/// The blue, green, red and alpha bytes that pixel `p` of an image in
/// `layout` becomes.
///
/// Grey becomes the same value in all three colors, a missing alpha
/// becomes 255. A layout with alpha gets its colors multiplied by alpha.
pub open spec fn bgra_of_pixel(layout: PixelLayout, bytes: Seq<u8>, p: int) -> (u8, u8, u8, u8) {
    match layout {
        PixelLayout::Luma8 => (bytes[p], bytes[p], bytes[p], 255u8),
        PixelLayout::LumaA8 => (bytes[2 * p], bytes[2 * p], bytes[2 * p], bytes[2 * p + 1]),
        PixelLayout::Rgb8 => (bytes[3 * p + 2], bytes[3 * p + 1], bytes[3 * p], 255u8),
        PixelLayout::Bgr8 => (bytes[3 * p], bytes[3 * p + 1], bytes[3 * p + 2], 255u8),
        PixelLayout::Rgba8 => {
            let a = bytes[4 * p + 3];
            (
                premultiplied(bytes[4 * p + 2], a),
                premultiplied(bytes[4 * p + 1], a),
                premultiplied(bytes[4 * p], a),
                a,
            )
        },
        PixelLayout::Bgra8 => {
            let a = bytes[4 * p + 3];
            (
                premultiplied(bytes[4 * p], a),
                premultiplied(bytes[4 * p + 1], a),
                premultiplied(bytes[4 * p + 2], a),
                a,
            )
        },
    }
}

/// The four bytes of pixel `p` of data with four bytes per pixel.
pub open spec fn pixel_at(bytes: Seq<u8>, p: int) -> (u8, u8, u8, u8) {
    (bytes[4 * p], bytes[4 * p + 1], bytes[4 * p + 2], bytes[4 * p + 3])
}

/// A pixel with its three colors multiplied by its alpha.
pub open spec fn premultiplied_pixel(pixel: (u8, u8, u8, u8)) -> (u8, u8, u8, u8) {
    (
        premultiplied(pixel.0, pixel.3),
        premultiplied(pixel.1, pixel.3),
        premultiplied(pixel.2, pixel.3),
        pixel.3,
    )
}

/// Whether `pixels` holds, pixel for pixel, the BGRA form of the first
/// `count` pixels of `bytes`.
pub open spec fn is_bgra_of(pixels: Seq<u8>, layout: PixelLayout, bytes: Seq<u8>, count: int) -> bool {
    &&& pixels.len() == 4 * count
    &&& forall|p: int|
        0 <= p < count ==> pixel_at(pixels, p) == #[trigger] bgra_of_pixel(layout, bytes, p)
}

/// Whether every pixel of BGRA data has full alpha.
pub open spec fn all_opaque(bytes: Seq<u8>) -> bool {
    forall|p: int| 0 <= p < bytes.len() / 4 ==> (#[trigger] pixel_at(bytes, p)).3 == 255
}

/// Whether pixels in `format` are known to have no transparent pixel:
/// those of a single channel have none, BGRA pixels have none if every
/// alpha is 255, and of any other format nothing is known.
pub open spec fn is_opaque(format: RawImageFormat, bytes: Seq<u8>) -> bool {
    match format {
        RawImageFormat::R8 => true,
        RawImageFormat::BGRA8 => all_opaque(bytes),
        _ => false,
    }
}

/// Whether an image is known to have no transparent pixel. An image with
/// a single channel has none; a BGRA image has none if every alpha is
/// 255. The pixels of any other format are not looked at, and the image
/// counts as one that may be transparent.
pub fn is_image_opaque(format: RawImageFormat, bytes: &Vec<u8>) -> (opaque: bool)
    ensures
        opaque == is_opaque(format, bytes@),
{
    match format {
        RawImageFormat::BGRA8 => {
            let count = bytes.len() / 4;
            let mut i: usize = 0;
            while i < count
                invariant
                    i <= count,
                    format == RawImageFormat::BGRA8,
                    count == bytes@.len() / 4,
                    4 * count <= bytes.len(),
                    forall|p: int| 0 <= p < i ==> (#[trigger] pixel_at(bytes@, p)).3 == 255,
                decreases count - i,
            {
                if bytes[4 * i + 3] != 255 {
                    assert(pixel_at(bytes@, i as int).3 != 255);
                    return false;
                }
                i = i + 1;
            }
            true
        },
        RawImageFormat::R8 => true,
        _ => false,
    }
}

/// Multiplies the three colors of every pixel of BGRA data by the
/// pixel's alpha.
pub fn premultiply(data: &mut Vec<u8>)
    requires
        old(data)@.len() % 4 == 0,
    ensures
        final(data)@.len() == old(data)@.len(),
        forall|p: int|
            0 <= p < old(data)@.len() / 4 ==> pixel_at(final(data)@, p) == premultiplied_pixel(
                #[trigger] pixel_at(old(data)@, p),
            ),
{
    let count = data.len() / 4;
    let mut i: usize = 0;
    while i < count
        invariant
            i <= count,
            data@.len() == old(data)@.len(),
            4 * count == data.len(),
            forall|k: int| 4 * i <= k < data@.len() ==> data@[k] == old(data)@[k],
            forall|p: int|
                0 <= p < i ==> pixel_at(data@, p) == premultiplied_pixel(
                    #[trigger] pixel_at(old(data)@, p),
                ),
        decreases count - i,
    {
        let a = data[4 * i + 3];
        let b0 = premultiply_channel(data[4 * i], a);
        let b1 = premultiply_channel(data[4 * i + 1], a);
        let b2 = premultiply_channel(data[4 * i + 2], a);
        let ghost before = data@;
        data.set(4 * i, b0);
        data.set(4 * i + 1, b1);
        data.set(4 * i + 2, b2);
        proof {
            assert forall|p: int| 0 <= p < i + 1 implies pixel_at(data@, p) == premultiplied_pixel(
                #[trigger] pixel_at(old(data)@, p),
            ) by {
                if p < i {
                    assert(pixel_at(data@, p) == pixel_at(before, p));
                }
            }
        }
        i = i + 1;
    }
}

/// The descriptor and pixel data that `prepare_image` makes of a decoded
/// image whose BGRA form is `pixels`.
pub open spec fn prepared_descriptor(image: DecodedImageView, pixels: Seq<u8>) -> ImageDescriptor {
    ImageDescriptor {
        format: RawImageFormat::BGRA8,
        dimensions: (image.width as usize, image.height as usize),
        stride: None,
        offset: 0,
        is_opaque: all_opaque(pixels),
        allow_mipmaps: true,
    }
}

/// Brings a decoded image into the layout that the rasterizer takes:
/// BGRA with 8 bits per channel, the colors multiplied by alpha.
pub fn prepare_image(image_decoded: DecodedImage) -> (prepared: (ImageData, ImageDescriptor))
    requires
        image_decoded@.is_complete(),
    ensures
        is_prepared_from(prepared, image_decoded@),
{
    let layout = image_decoded.layout;
    let bytes = &image_decoded.bytes;
    let count = match layout {
        PixelLayout::Luma8 => bytes.len(),
        PixelLayout::LumaA8 => bytes.len() / 2,
        PixelLayout::Rgb8 => bytes.len() / 3,
        PixelLayout::Bgr8 => bytes.len() / 3,
        PixelLayout::Rgba8 => bytes.len() / 4,
        PixelLayout::Bgra8 => bytes.len() / 4,
    };

    let ghost channels = layout.channels();
    assert(count * channels <= bytes.len()) by {
        assert(channels == 1 || channels == 2 || channels == 3 || channels == 4);
        assert(count == (bytes.len() as int) / channels);
    }

    let mut pixels: Vec<u8> = Vec::new();
    let mut p: usize = 0;
    while p < count
        invariant
            p <= count,
            count == (bytes@.len() as int) / layout.channels(),
            count * layout.channels() <= bytes.len(),
            is_bgra_of(pixels@, layout, bytes@, p as int),
        decreases count - p,
    {
        let (b, g, r, a) = match layout {
            PixelLayout::Luma8 => {
                let grey = bytes[p];
                (grey, grey, grey, 0xffu8)
            },
            PixelLayout::LumaA8 => {
                let grey = bytes[2 * p];
                let alpha = bytes[2 * p + 1];
                (grey, grey, grey, alpha)
            },
            PixelLayout::Rgb8 => (bytes[3 * p + 2], bytes[3 * p + 1], bytes[3 * p], 0xffu8),
            PixelLayout::Bgr8 => (bytes[3 * p], bytes[3 * p + 1], bytes[3 * p + 2], 0xffu8),
            PixelLayout::Rgba8 => {
                let a = bytes[4 * p + 3];
                (
                    premultiply_channel(bytes[4 * p + 2], a),
                    premultiply_channel(bytes[4 * p + 1], a),
                    premultiply_channel(bytes[4 * p], a),
                    a,
                )
            },
            PixelLayout::Bgra8 => {
                let a = bytes[4 * p + 3];
                (
                    premultiply_channel(bytes[4 * p], a),
                    premultiply_channel(bytes[4 * p + 1], a),
                    premultiply_channel(bytes[4 * p + 2], a),
                    a,
                )
            },
        };
        let ghost before = pixels@;
        pixels.push(b);
        pixels.push(g);
        pixels.push(r);
        pixels.push(a);
        proof {
            assert forall|q: int| 0 <= q < p + 1 implies pixel_at(pixels@, q) == #[trigger] bgra_of_pixel(
                layout,
                bytes@,
                q,
            ) by {
                if q < p {
                    assert(pixel_at(pixels@, q) == pixel_at(before, q));
                }
            }
        }
        p = p + 1;
    }

    let is_opaque = is_image_opaque(RawImageFormat::BGRA8, &pixels);
    let allow_mipmaps = true;
    let descriptor = ImageDescriptor {
        format: RawImageFormat::BGRA8,
        dimensions: (image_decoded.width as usize, image_decoded.height as usize),
        stride: None,
        offset: 0,
        is_opaque,
        allow_mipmaps,
    };
    let data = ImageData::Raw(pixels);

    (data, descriptor)
}

/// `ToString::to_string` of an error of the `image` crate: the text that
/// the crate gives for it.
#[verifier::external_body]
fn image_error_to_string(err: &image::ImageError) -> (text: String) {
    err.to_string()
}

impl DecodedImageView {
    /// The bytes are those of as many pixels as the image is wide times
    /// high.
    pub open spec fn is_complete(self) -> bool {
        self.bytes.len() == self.width * self.height * self.layout.channels()
    }

    /// Number of pixels in the bytes.
    pub open spec fn pixel_count(self) -> int {
        (self.bytes.len() as int) / self.layout.channels()
    }
}

/// Whether `prepared` is what `prepare_image` makes of `image`.
pub open spec fn is_prepared_from(
    prepared: (ImageData, ImageDescriptor),
    image: DecodedImageView,
) -> bool {
    prepared.0 matches ImageData::Raw(pixels) && is_bgra_of(
        pixels@,
        image.layout,
        image.bytes,
        image.pixel_count(),
    ) && prepared.1 == prepared_descriptor(image, pixels@)
}

/// Whether `prepared` is what a decoded image gives: the image in the
/// layout of the rasterizer if its bytes are those of as many pixels as
/// it is wide times high, and an error if they are not.
pub open spec fn is_prepared_or_incomplete(
    prepared: Result<(ImageData, ImageDescriptor), ImageReloadError>,
    image: DecodedImageView,
) -> bool {
    if image.is_complete() {
        prepared matches Ok(p) && is_prepared_from(p, image)
    } else {
        prepared matches Err(ImageReloadError::IncompletePixelData)
    }
}

/// Whether `loaded` is what comes of `decoded`, the answer of a decoder:
/// what the decoded image gives, the decoder's error, or the error that
/// no decoder was there.
pub open spec fn is_decoded_from(
    loaded: Result<(ImageData, ImageDescriptor), ImageReloadError>,
    decoded: Option<Result<DecodedImage, image::ImageError>>,
) -> bool {
    match decoded {
        Some(Ok(image)) => is_prepared_or_incomplete(loaded, image@),
        Some(Err(e)) => loaded matches Err(ImageReloadError::DecodingError(err)) && err == e,
        None => loaded matches Err(ImageReloadError::DecodingModuleNotActive),
    }
}

/// Brings a decoded image into the layout that the rasterizer takes, if
/// its bytes are those of as many pixels as it is wide times high, and
/// gives an error if they are not.
pub fn prepare_decoded_image(image: DecodedImage) -> (prepared: Result<
    (ImageData, ImageDescriptor),
    ImageReloadError,
>)
    ensures
        is_prepared_or_incomplete(prepared, image@),
{
    let width: u128 = image.width as u128;
    let height: u128 = image.height as u128;
    let channels: u128 = image.layout.channel_count() as u128;
    assert(width * height * channels <= 0xffff_ffff * 0xffff_ffff * 4) by (nonlinear_arith)
        requires
            width <= 0xffff_ffff,
            height <= 0xffff_ffff,
            channels <= 4,
    ;
    assert(width * height <= 0xffff_ffff * 0xffff_ffff) by (nonlinear_arith)
        requires
            width <= 0xffff_ffff,
            height <= 0xffff_ffff,
    ;
    if image.bytes.len() as u128 == width * height * channels {
        Ok(prepare_image(image))
    } else {
        Err(ImageReloadError::IncompletePixelData)
    }
}

/// Brings what a decoder made of an image file into the layout that the
/// rasterizer takes.
///
/// `decoded` is the answer of the decoder. If it is an image, the result
/// is what `prepare_decoded_image` makes of it; if it is an error, the
/// result is that error.
pub fn decode_image_data(decoded: Result<DecodedImage, image::ImageError>) -> (prepared: Result<
    (ImageData, ImageDescriptor),
    ImageReloadError,
>)
    ensures
        is_decoded_from(prepared, Some(decoded)),
{
    match decoded {
        Ok(image) => prepare_decoded_image(image),
        Err(e) => Err(ImageReloadError::DecodingError(e)),
    }
}

/// The pixel data and descriptor of pixels that are already decoded.
pub open spec fn raw_image_data(raw_image: RawImage) -> (ImageDataView, ImageDescriptor) {
    (
        ImageDataView::Raw(raw_image.pixels@),
        ImageDescriptor {
            format: raw_image.data_format,
            dimensions: raw_image.image_dimensions,
            stride: None,
            offset: 0,
            is_opaque: is_opaque(raw_image.data_format, raw_image.pixels@),
            allow_mipmaps: true,
        },
    )
}

/// The mathematical value of an `ImageData`.
pub enum ImageDataView {
    Raw(Seq<u8>),
    External(ExternalImageId),
}

impl View for ImageData {
    type V = ImageDataView;

    open spec fn view(&self) -> ImageDataView {
        match self {
            ImageData::Raw(pixels) => ImageDataView::Raw(pixels@),
            ImageData::External(id) => ImageDataView::External(*id),
        }
    }
}

/// Returns the decoded bytes of the image and their descriptor.
///
/// Raw pixels are handed on as they are. The bytes of an embedded image
/// and of an image file have to be decoded: `decoded` is what the decoder
/// made of them, or nothing if there was no decoder to ask. `read_error`
/// is the error that reading the file gave, if it gave one; the result is
/// then that error together with the path. `read_error` is looked at for
/// a file only, `decoded` for an embedded image and for a file that was
/// read.
pub fn image_source_get_bytes_inner(
    image_source: &ImageSource,
    read_error: Option<IoError>,
    decoded: Option<Result<DecodedImage, image::ImageError>>,
) -> (loaded: Result<(ImageData, ImageDescriptor), ImageReloadError>)
    ensures
        match *image_source {
            ImageSource::Raw(raw_image) => loaded matches Ok(p) && (p.0@, p.1) == raw_image_data(
                raw_image,
            ),
            ImageSource::File(path) => match read_error {
                Some(e) => loaded matches Err(ImageReloadError::Io(err, p)) && err == e && p
                    == path,
                None => is_decoded_from(loaded, decoded),
            },
            ImageSource::Embedded(_) => is_decoded_from(loaded, decoded),
        },
{
    match image_source {
        ImageSource::Embedded(_) => decode_if_decoded(decoded),
        ImageSource::Raw(raw_image) => {
            let is_opaque = is_image_opaque(raw_image.data_format, &raw_image.pixels);
            let descriptor = ImageDescriptor {
                format: raw_image.data_format,
                dimensions: raw_image.image_dimensions,
                stride: None,
                offset: 0,
                is_opaque,
                allow_mipmaps: true,
            };
            let data = ImageData::Raw(bytes_to_vec(&raw_image.pixels));
            Ok((data, descriptor))
        },
        ImageSource::File(file_path) => match read_error {
            Some(e) => Err(ImageReloadError::Io(e, path_clone(file_path))),
            None => decode_if_decoded(decoded),
        },
    }
}

/// What comes of the answer of a decoder, if there was one to ask.
fn decode_if_decoded(decoded: Option<Result<DecodedImage, image::ImageError>>) -> (loaded: Result<
    (ImageData, ImageDescriptor),
    ImageReloadError,
>)
    ensures
        is_decoded_from(loaded, decoded),
{
    match decoded {
        Some(answer) => decode_image_data(answer),
        None => Err(ImageReloadError::DecodingModuleNotActive),
    }
}

/// Whether `loaded` is what comes of `decoded`, the answer of a decoder,
/// when errors are dropped: the prepared image, if the decoder gave one
/// whose bytes match its size, and else nothing.
pub open spec fn is_loaded_from(
    loaded: Option<(ImageData, ImageDescriptor)>,
    decoded: Option<Result<DecodedImage, image::ImageError>>,
) -> bool {
    match decoded {
        Some(Ok(image)) => if image@.is_complete() {
            loaded matches Some(p) && is_prepared_from(p, image@)
        } else {
            loaded is None
        },
        _ => loaded is None,
    }
}

/// Returns the decoded bytes of the image and their descriptor, or `None`
/// where `image_source_get_bytes_inner` gives an error.
pub fn image_source_get_bytes(
    image_source: &ImageSource,
    read_error: Option<IoError>,
    decoded: Option<Result<DecodedImage, image::ImageError>>,
) -> (loaded: Option<(ImageData, ImageDescriptor)>)
    ensures
        match *image_source {
            ImageSource::Raw(raw_image) => loaded matches Some(p) && (p.0@, p.1) == raw_image_data(
                raw_image,
            ),
            ImageSource::File(path) => match read_error {
                Some(e) => loaded is None,
                None => is_loaded_from(loaded, decoded),
            },
            ImageSource::Embedded(_) => is_loaded_from(loaded, decoded),
        },
{
    match image_source_get_bytes_inner(image_source, read_error, decoded) {
        Ok(o) => Some(o),
        Err(_) => None,
    }
}

impl ImageReloadError {
    /// The error as a message for the user.
    pub fn to_string(&self) -> (message: String)
        ensures
            match *self {
                ImageReloadError::Io(_, _) => exists|file: Seq<char>, cause: Seq<char>|
                    message@ == "Could not load \""@ + file + "\" - IO error: "@ + cause,
                ImageReloadError::DecodingError(_) => exists|cause: Seq<char>|
                    message@ == "Image decoding error: \""@ + cause + "\""@,
                ImageReloadError::DecodingModuleNotActive => message@
                    == "Found decoded image, but no decoder is active"@,
                ImageReloadError::IncompletePixelData => message@
                    == "Image decoding error: \"pixel data does not match the size of the image\""@,
            },
    {
        match self {
            ImageReloadError::Io(err, path) => {
                let file = path_to_string_lossy(path);
                let cause = io_error_to_string(err);
                let mut message = String::from_str("Could not load \"");
                message.append(file.as_str());
                message.append("\" - IO error: ");
                message.append(cause.as_str());
                message
            },
            ImageReloadError::DecodingError(err) => {
                let cause = image_error_to_string(err);
                let mut message = String::from_str("Image decoding error: \"");
                message.append(cause.as_str());
                message.append("\"");
                message
            },
            ImageReloadError::DecodingModuleNotActive => String::from_str(
                "Found decoded image, but no decoder is active",
            ),
            ImageReloadError::IncompletePixelData => String::from_str(
                "Image decoding error: \"pixel data does not match the size of the image\"",
            ),
        }
    }
}

} // verus!
