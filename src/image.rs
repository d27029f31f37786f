use vstd::prelude::*;
use crate::error::{ZBarErrorType, ZBarResult};
use crate::format::{pixel_bits, Format};

verus! {

/// The buffer length that a `width` by `height` image in format `f` takes, where the format
/// says how many bits a pixel takes.
pub open spec fn expected_len(width: u32, height: u32, f: Format) -> Option<int> {
    match pixel_bits(f) {
        Some(bits) => Some(width * height * bits / 8),
        None => None,
    }
}

/// Whether a buffer of `len` bytes fits such an image. For a custom code the library knows no
/// length and leaves the buffer to the engine.
pub open spec fn size_matches(width: u32, height: u32, f: Format, len: int) -> bool {
    match expected_len(width, height, f) {
        Some(e) => len == e,
        None => true,
    }
}

/// Whether a buffer of `len` bytes fits a `width` by `height` image in format `format`.
pub fn buffer_size_ok(width: u32, height: u32, format: Format, len: usize) -> (r: bool)
    ensures
        r == size_matches(width, height, format, len as int),
{
    match format.bits_per_pixel() {
        Some(bits) => {
            proof {
                assert(width * height <= 0xffff_ffffu32 * 0xffff_ffffu32) by (nonlinear_arith)
                    requires
                        width <= 0xffff_ffffu32,
                        height <= 0xffff_ffffu32,
                ;
                assert(width * height * bits <= 0xffff_ffffu32 * 0xffff_ffffu32 * 32) by (
                nonlinear_arith)
                    requires
                        width * height <= 0xffff_ffffu32 * 0xffff_ffffu32,
                        0 <= width * height,
                        bits <= 32,
                ;
            }
            let pixels: u128 = (width as u128) * (height as u128);
            let expected: u128 = pixels * (bits as u128) / 8;
            expected == len as u128
        },
        None => true,
    }
}

/// Pixel data, held by the image or lent to it for `'a`.
pub enum ImageData<'a> {
    /// A buffer that the image owns and frees with itself.
    Owned(Vec<u8>),
    /// A buffer that the caller keeps; the image cannot outlive it.
    Borrowed(&'a [u8]),
}

/// What an image holds.
pub struct ImageView {
    pub width: u32,
    pub height: u32,
    pub format: Format,
    pub data: Seq<u8>,
    pub owned: bool,
    pub sequence: u32,
    pub crop: Option<(u32, u32, u32, u32)>,
}

/// An image to scan: its size, format and pixels, with a sequence number and an optional
/// region to scan.
pub struct ZBarImage<'a> {
    width: u32,
    height: u32,
    format: Format,
    data: ImageData<'a>,
    sequence: u32,
    crop: Option<(u32, u32, u32, u32)>,
}

impl<'a> View for ZBarImage<'a> {
    type V = ImageView;

    closed spec fn view(&self) -> ImageView {
        ImageView {
            width: self.width,
            height: self.height,
            format: self.format,
            data: match self.data {
                ImageData::Owned(v) => v@,
                ImageData::Borrowed(s) => s@,
            },
            owned: self.data is Owned,
            sequence: self.sequence,
            crop: self.crop,
        }
    }
}

impl<'a> ZBarImage<'a> {
    /// An image that takes `data` over, without a copy. Fails with `InvalidBufferSize` unless
    /// the buffer has the length that the size and format call for.
    pub fn new(width: u32, height: u32, format: Format, data: Vec<u8>) -> (r: ZBarResult<
        ZBarImage<'a>,
    >)
        ensures
            !size_matches(width, height, format, data@.len() as int) ==> r == Err::<
                ZBarImage<'a>,
                ZBarErrorType,
            >(ZBarErrorType::InvalidBufferSize),
            size_matches(width, height, format, data@.len() as int) ==> r is Ok && r->Ok_0@ == (
            ImageView { width, height, format, data: data@, owned: true, sequence: 0, crop: None }),
    {
        if !buffer_size_ok(width, height, format, data.len()) {
            return Err(ZBarErrorType::InvalidBufferSize);
        }
        Ok(ZBarImage { width, height, format, data: ImageData::Owned(data), sequence: 0, crop: None })
    }

    /// An image over a buffer that the caller keeps. Fails with `InvalidBufferSize` unless
    /// the buffer has the length that the size and format call for.
    pub fn from_slice(width: u32, height: u32, format: Format, data: &'a [u8]) -> (r: ZBarResult<
        ZBarImage<'a>,
    >)
        ensures
            !size_matches(width, height, format, data@.len() as int) ==> r == Err::<
                ZBarImage<'a>,
                ZBarErrorType,
            >(ZBarErrorType::InvalidBufferSize),
            size_matches(width, height, format, data@.len() as int) ==> r is Ok && r->Ok_0@ == (
            ImageView { width, height, format, data: data@, owned: false, sequence: 0, crop: None }),
    {
        if !buffer_size_ok(width, height, format, data.len()) {
            return Err(ZBarErrorType::InvalidBufferSize);
        }
        Ok(
            ZBarImage {
                width,
                height,
                format,
                data: ImageData::Borrowed(data),
                sequence: 0,
                crop: None,
            },
        )
    }
    /// Width in pixels.
    pub fn width(&self) -> (r: u32)
        ensures
            r == self@.width,
    {
        self.width
    }

    /// Height in pixels.
    pub fn height(&self) -> (r: u32)
        ensures
            r == self@.height,
    {
        self.height
    }

    /// The pixel format.
    pub fn format(&self) -> (r: Format)
        ensures
            r == self@.format,
    {
        self.format
    }

    /// The pixels.
    pub fn data(&self) -> (r: &[u8])
        ensures
            r@ == self@.data,
    {
        match &self.data {
            ImageData::Owned(v) => v.as_slice(),
            ImageData::Borrowed(s) => *s,
        }
    }

    /// Whether the image owns its buffer.
    pub fn is_owned(&self) -> (r: bool)
        ensures
            r == self@.owned,
    {
        match &self.data {
            ImageData::Owned(_) => true,
            ImageData::Borrowed(_) => false,
        }
    }

    /// The sequence number.
    pub fn sequence_number(&self) -> (r: u32)
        ensures
            r == self@.sequence,
    {
        self.sequence
    }

    /// The region to scan, as x, y, width and height, if one was set.
    pub fn crop_region(&self) -> (r: Option<(u32, u32, u32, u32)>)
        ensures
            r == self@.crop,
    {
        self.crop
    }

    /// Sets the pixel format; the pixels stay as they are.
    pub fn set_format(&mut self, format: Format)
        ensures
            final(self)@ == (ImageView { format, ..old(self)@ }),
    {
        self.format = format;
    }

    /// Sets the size; the pixels stay as they are.
    pub fn set_size(&mut self, width: u32, height: u32)
        ensures
            final(self)@ == (ImageView { width, height, ..old(self)@ }),
    {
        self.width = width;
        self.height = height;
    }

    /// Sets the sequence number.
    pub fn set_sequence_number(&mut self, sequence: u32)
        ensures
            final(self)@ == (ImageView { sequence, ..old(self)@ }),
    {
        self.sequence = sequence;
    }

    /// Sets the region to scan, as x, y, width and height.
    pub fn set_crop_region(&mut self, x: u32, y: u32, width: u32, height: u32)
        ensures
            final(self)@ == (ImageView { crop: Some((x, y, width, height)), ..old(self)@ }),
    {
        self.crop = Some((x, y, width, height));
    }
}

} // verus!
