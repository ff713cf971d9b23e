use vstd::prelude::*;

verus! {

/// A decoded RGBA8 image: `width * height` pixels, four bytes each, row-major
/// from the top row down.
pub struct WebImage {
    pub width: u32,
    pub height: u32,
    pub data: Vec<u8>,
}

/// Why an image cannot be taken as a texture source.
#[derive(Clone, Copy, Debug, PartialEq, Eq, Structural)]
pub enum ImageError {
    /// The width or the height is zero.
    ZeroDimension,
    /// The pixel buffer does not hold exactly four bytes per pixel.
    LengthMismatch,
}

/// The number of bytes an image of the given size takes.
pub open spec fn rgba_len(width: int, height: int) -> int {
    4 * width * height
}

/// The outcome of checking an image of the given size and buffer length.
pub open spec fn check_outcome(width: int, height: int, len: int) -> Result<(), ImageError> {
    if width == 0 || height == 0 {
        Err(ImageError::ZeroDimension)
    } else if len != rgba_len(width, height) {
        Err(ImageError::LengthMismatch)
    } else {
        Ok(())
    }
}

/// An image whose size is positive and whose buffer length matches it.
pub open spec fn image_ok(width: int, height: int, len: int) -> bool {
    check_outcome(width, height, len) is Ok
}

impl WebImage {
    /// Checks that the image is non-empty and that its buffer holds exactly
    /// four bytes for each pixel; a buffer of any other length is refused,
    /// never truncated or padded.
    pub fn validate(&self) -> (r: Result<(), ImageError>)
        ensures
            r == check_outcome(self.width as int, self.height as int, self.data.len() as int),
    {
        if self.width == 0 || self.height == 0 {
            return Err(ImageError::ZeroDimension);
        }
        let w = self.width as u128;
        let h = self.height as u128;
        assert(w * h <= 0xffff_ffff_ffff_ffff_ffff_ffff) by (nonlinear_arith)
            requires
                w <= 0xffff_ffff,
                h <= 0xffff_ffff,
        ;
        let expected: u128 = 4 * (w * h);
        assert(expected as int == rgba_len(w as int, h as int)) by (nonlinear_arith)
            requires
                expected as int == 4 * (w * h),
        ;
        if self.data.len() as u128 != expected {
            return Err(ImageError::LengthMismatch);
        }
        Ok(())
    }
}

} // verus!
