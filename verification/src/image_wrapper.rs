//! A decoded wallpaper: 8-bit RGBA pixels and the image's size.
use vstd::prelude::*;

verus! {

/// The error that reading a file gives.
#[verifier::external_type_specification]
#[verifier::external_body]
pub struct ExIoError(std::io::Error);

/// The error that decoding an image gives.
#[verifier::external_type_specification]
#[verifier::external_body]
pub struct ExImageError(image::ImageError);

/// What `image::load_from_memory` decodes `encoded` to, converted to 8-bit
/// RGBA: the pixel bytes row by row and the image's (width, height); `None`
/// where the bytes are no image that the crate can decode.
pub uninterp spec fn rgba8_decoding(encoded: Seq<u8>) -> Option<(Seq<u8>, (u32, u32))>;

/// `image::load_from_memory`, with the decoded image converted by
/// `DynamicImage::to_rgba8` to its raw bytes and dimensions. The crate
/// guesses the format from the bytes; the result is named by
/// `rgba8_decoding`, and beside the name stands that the raw buffer of the
/// RGBA image holds four bytes for each pixel.
#[verifier::external_body]
fn decode_rgba8(encoded: &[u8]) -> (res: Result<(Vec<u8>, (u32, u32)), image::ImageError>)
    ensures
        res is Ok <==> rgba8_decoding(encoded@) is Some,
        res matches Ok((pixels, size)) ==> rgba8_decoding(encoded@) == Some((pixels@, size)),
        res matches Ok((pixels, size)) ==> pixels@.len() == 4 * size.0 * size.1,
{
    match image::load_from_memory(encoded) {
        Ok(image) => {
            let rgba8 = image.to_rgba8();
            let size = rgba8.dimensions();
            Ok((rgba8.into_raw(), size))
        },
        Err(error) => Err(error),
    }
}

/// Why an image could not be had.
#[allow(inconsistent_fields)]
#[derive(Debug)]
pub enum ImageWrapperError {
    FilesystemError { path: String, error: std::io::Error },
    ImageError { error: image::ImageError },
}

/// An image as 8-bit RGBA bytes with its (width, height).
pub struct ImageWrapper {
    rgba8: Vec<u8>,
    size: (u32, u32),
}

impl ImageWrapper {
    /// The pixel bytes.
    pub closed spec fn pixels(&self) -> Seq<u8> {
        self.rgba8@
    }

    /// The (width, height).
    pub closed spec fn size(&self) -> (u32, u32) {
        self.size
    }

    /// The image of the given bytes and size, taken as they are.
    pub fn from_rgba8(rgba8: Vec<u8>, size: (u32, u32)) -> (res: ImageWrapper)
        ensures
            res.pixels() == rgba8@,
            res.size() == size,
    {
        ImageWrapper { rgba8, size }
    }

    /// The image that the encoded bytes decode to.
    pub fn from_memory(encoded: &[u8]) -> (res: Result<ImageWrapper, ImageWrapperError>)
        ensures
            res is Ok <==> rgba8_decoding(encoded@) is Some,
            res matches Ok(image) ==> rgba8_decoding(encoded@) == Some(
                (image.pixels(), image.size()),
            ),
            res matches Ok(image) ==> image.pixels().len() == 4 * image.size().0 * image.size().1,
            res matches Err(e) ==> e is ImageError,
    {
        match decode_rgba8(encoded) {
            Ok((rgba8, size)) => Ok(ImageWrapper { rgba8, size }),
            Err(error) => Err(ImageWrapperError::ImageError { error }),
        }
    }

    /// The image of a file, given what reading the file at `path` gave:
    /// the read's error is a filesystem error of that path, the file's
    /// bytes are decoded.
    pub fn from_file_contents(path: String, contents: Result<Vec<u8>, std::io::Error>) -> (res:
        Result<ImageWrapper, ImageWrapperError>)
        ensures
            contents matches Err(error) ==> res == Err::<ImageWrapper, ImageWrapperError>(
                ImageWrapperError::FilesystemError { path, error },
            ),
            contents matches Ok(bytes) ==> {
                &&& res is Ok <==> rgba8_decoding(bytes@) is Some
                &&& res matches Ok(image) ==> rgba8_decoding(bytes@) == Some(
                    (image.pixels(), image.size()),
                )
                &&& res matches Ok(image) ==> image.pixels().len() == 4 * image.size().0
                    * image.size().1
                &&& res matches Err(e) ==> e is ImageError
            },
    {
        match contents {
            Ok(bytes) => ImageWrapper::from_memory(bytes.as_slice()),
            Err(error) => Err(ImageWrapperError::FilesystemError { path, error }),
        }
    }

    /// A black image of the given size: `4 * width * height` zero bytes.
    pub fn placeholder(size: (u32, u32)) -> (res: ImageWrapper)
        requires
            size.0 * size.1 * 4 <= u32::MAX,
        ensures
            res.size() == size,
            res.pixels().len() == size.0 * size.1 * 4,
            forall|i: int| 0 <= i < res.pixels().len() ==> #[trigger] res.pixels()[i] == 0u8,
    {
        proof {
            assert(size.0 * size.1 <= size.0 * size.1 * 4) by (nonlinear_arith);
        }
        let area: u32 = size.0 * size.1;
        let n: u32 = area * 4;
        let rgba8 = vec![0u8; n as usize];
        ImageWrapper { rgba8, size }
    }

    /// The pixel bytes.
    pub fn as_slice(&self) -> (res: &[u8])
        ensures
            res@ == self.pixels(),
    {
        self.rgba8.as_slice()
    }

    /// The width.
    pub fn width(&self) -> (res: u32)
        ensures
            res == self.size().0,
    {
        self.size.0
    }

    /// The height.
    pub fn height(&self) -> (res: u32)
        ensures
            res == self.size().1,
    {
        self.size.1
    }

    /// The (width, height).
    pub fn dimensions(&self) -> (res: (u32, u32))
        ensures
            res == self.size(),
    {
        self.size
    }
}

} // verus!
