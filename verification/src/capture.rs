use vstd::prelude::*;
use crate::errors::ToolError;
use crate::geometry::CaptureRegion;
use crate::pixel::{spec_bgrx_to_rgb, bgrx_to_rgb};

verus! {

/// Bytes per pixel of the server's native capture format: 32-bit BGRX.
pub const NATIVE_BYTES_PER_PIXEL: u64 = 4;

/// Bytes per pixel of the portable packed RGB format.
pub const RGB_BYTES_PER_PIXEL: u64 = 3;

/// A validated portable image: an RGB image buffer of the outside image
/// library, held opaquely. Constructed only through [`build_image`], which
/// guarantees that the byte count matches the dimensions exactly.
#[verifier::external_body]
pub struct RgbImage {
    inner: image::ImageBuffer<image::Rgb<u8>, Vec<u8>>,
}

/// The raw bytes an image holds: row-major, 3 bytes per pixel, red first.
pub uninterp spec fn image_raw(img: RgbImage) -> Seq<u8>;

/// The (width, height) an image was constructed with.
pub uninterp spec fn image_dims(img: RgbImage) -> (u32, u32);

/// Relies on image::ImageBuffer::from_raw: it returns Some exactly when
/// the container holds at least width * height * 3 bytes (3 channels for
/// Rgb<u8>, the product taken without overflow), and then wraps that
/// container unchanged under the given dimensions.
#[verifier::external_body]
fn image_from_raw(width: u32, height: u32, data: Vec<u8>) -> (r: Option<RgbImage>)
    ensures
        r is Some <==> 3 * (width as int) * (height as int) <= data@.len(),
        r matches Some(img) ==> image_raw(img) == data@ && image_dims(img) == (width, height),
{
    match image::ImageBuffer::from_raw(width, height, data) {
        Some(inner) => Some(RgbImage { inner }),
        None => None,
    }
}

impl RgbImage {
    /// Relies on image::ImageBuffer::width returning the construction width.
    #[verifier::external_body]
    pub fn width(&self) -> (r: u32)
        ensures
            r == image_dims(*self).0,
    {
        self.inner.width()
    }

    /// Relies on image::ImageBuffer::height returning the construction height.
    #[verifier::external_body]
    pub fn height(&self) -> (r: u32)
        ensures
            r == image_dims(*self).1,
    {
        self.inner.height()
    }

    /// Relies on image::ImageBuffer::into_raw returning the underlying
    /// container unchanged.
    #[verifier::external_body]
    pub fn into_raw(self) -> (r: Vec<u8>)
        ensures
            r@ == image_raw(self),
    {
        self.inner.into_raw()
    }
}

/// Build the validated image buffer from a converted RGB byte sequence.
/// Succeeds exactly when the byte count is width * height * 3; any mismatch
/// is a construction error, never a silent truncation or padding.
pub fn build_image(width: u16, height: u16, rgb: Vec<u8>) -> (r: Result<RgbImage, ToolError>)
    ensures
        r is Ok <==> rgb@.len() == (width as int) * (height as int) * 3,
        r matches Ok(img) ==> {
            &&& image_raw(img) == rgb@
            &&& image_dims(img) == (width as u32, height as u32)
        },
        r matches Err(e) ==> e == ToolError::BufferConstruction,
{
    proof {
        assert((width as int) * (height as int) * 3 < 0x1_0000_0000_0000) by (nonlinear_arith)
            requires
                width <= 0xFFFF,
                height <= 0xFFFF,
        ;
    }
    let expected: u64 = (width as u64) * (height as u64) * RGB_BYTES_PER_PIXEL;
    if rgb.len() as u64 == expected {
        proof {
            assert(3 * (width as int) * (height as int) == (width as int) * (height as int) * 3)
                by (nonlinear_arith);
        }
        match image_from_raw(width as u32, height as u32, rgb) {
            Some(img) => Ok(img),
            None => Err(ToolError::BufferConstruction),
        }
    } else {
        Err(ToolError::BufferConstruction)
    }
}

/// The byte count the server must return for a capture of this region at
/// the native 32-bit BGRX layout.
pub open spec fn expected_reply_len(region: CaptureRegion) -> int {
    (region.width as int) * (region.height as int) * 4
}

/// Turn the server's raw capture reply into the validated portable image
/// for the requested region: assert that the reply's byte count matches
/// the requested geometry at 4 bytes per pixel, reorder the channels to
/// packed RGB, and construct the image buffer of exactly that geometry.
pub fn capture_from_reply(region: &CaptureRegion, raw: Vec<u8>) -> (r: Result<RgbImage, ToolError>)
    ensures
        r is Ok <==> raw@.len() == expected_reply_len(*region),
        r matches Ok(img) ==> {
            &&& image_raw(img) == spec_bgrx_to_rgb(raw@)
            &&& image_raw(img).len() == (region.width as int) * (region.height as int) * 3
            &&& image_dims(img) == (region.width as u32, region.height as u32)
        },
        r matches Err(e) ==> e == ToolError::Capture,
{
    proof {
        assert((region.width as int) * (region.height as int) * 4 < 0x1_0000_0000_0000)
            by (nonlinear_arith)
            requires
                region.width <= 0xFFFF,
                region.height <= 0xFFFF,
        ;
    }
    let expected: u64 = (region.width as u64) * (region.height as u64) * NATIVE_BYTES_PER_PIXEL;
    if raw.len() as u64 != expected {
        return Err(ToolError::Capture);
    }
    proof {
        assert((raw@.len() / 4) * 3 == (region.width as int) * (region.height as int) * 3)
            by (nonlinear_arith)
            requires
                raw@.len() == (region.width as int) * (region.height as int) * 4,
        ;
    }
    let rgb = bgrx_to_rgb(raw);
    match build_image(region.width, region.height, rgb) {
        Ok(img) => Ok(img),
        Err(_) => Err(ToolError::Capture),
    }
}

} // verus!
