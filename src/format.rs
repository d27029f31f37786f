use vstd::prelude::*;
use vstd::string::StringSliceAdditionalSpecFns;

verus! {

/// The fourcc code of the four bytes `b`, first byte lowest.
pub open spec fn fourcc_of(b0: u8, b1: u8, b2: u8, b3: u8) -> u32 {
    (b0 as int + 256 * (b1 as int) + 65536 * (b2 as int) + 16777216 * (b3 as int)) as u32
}

/// A pixel format, named by its four-character code.
#[derive(Clone, Copy, Debug, PartialEq, Eq, Structural)]
pub enum Format {
    /// 8-bit greyscale.
    Y800,
    /// 8-bit greyscale.
    GREY,
    /// 8-bit greyscale.
    Y8,
    /// YUV 4:2:0 planar, U plane first.
    I420,
    /// YUV 4:2:0 planar, V plane first.
    YV12,
    /// YUV 4:2:0, luma plane then interleaved UV.
    NV12,
    /// YUV 4:2:0, luma plane then interleaved VU.
    NV21,
    /// YUV 4:2:2 packed.
    YUYV,
    /// YUV 4:2:2 packed.
    UYVY,
    /// 24-bit RGB.
    RGB3,
    /// 24-bit BGR.
    BGR3,
    /// 32-bit RGB.
    RGB4,
    /// 32-bit BGR.
    BGR4,
    /// Any other code, kept as it is.
    Custom(u32),
}

/// The four characters of each named format.
pub open spec fn label_of(f: Format) -> Option<Seq<u8>> {
    match f {
        Format::Y800 => Some(seq![0x59u8, 0x38u8, 0x30u8, 0x30u8]),
        Format::GREY => Some(seq![0x47u8, 0x52u8, 0x45u8, 0x59u8]),
        Format::Y8 => Some(seq![0x59u8, 0x38u8, 0x20u8, 0x20u8]),
        Format::I420 => Some(seq![0x49u8, 0x34u8, 0x32u8, 0x30u8]),
        Format::YV12 => Some(seq![0x59u8, 0x56u8, 0x31u8, 0x32u8]),
        Format::NV12 => Some(seq![0x4eu8, 0x56u8, 0x31u8, 0x32u8]),
        Format::NV21 => Some(seq![0x4eu8, 0x56u8, 0x32u8, 0x31u8]),
        Format::YUYV => Some(seq![0x59u8, 0x55u8, 0x59u8, 0x56u8]),
        Format::UYVY => Some(seq![0x55u8, 0x59u8, 0x56u8, 0x59u8]),
        Format::RGB3 => Some(seq![0x52u8, 0x47u8, 0x42u8, 0x33u8]),
        Format::BGR3 => Some(seq![0x42u8, 0x47u8, 0x52u8, 0x33u8]),
        Format::RGB4 => Some(seq![0x52u8, 0x47u8, 0x42u8, 0x34u8]),
        Format::BGR4 => Some(seq![0x42u8, 0x47u8, 0x52u8, 0x34u8]),
        Format::Custom(_) => None,
    }
}

/// The fourcc code that a format stands for.
pub open spec fn code_of(f: Format) -> u32 {
    match f {
        Format::Custom(c) => c,
        _ => {
            let l = label_of(f)->Some_0;
            fourcc_of(l[0], l[1], l[2], l[3])
        },
    }
}

/// A format is well formed when a custom code is not the code of a named format.
pub open spec fn format_wf(f: Format) -> bool {
    match f {
        Format::Custom(c) => forall|g: Format| !(g is Custom) ==> code_of(g) != c,
        _ => true,
    }
}

/// Bits that one pixel takes in the buffer, where the format says it.
pub open spec fn pixel_bits(f: Format) -> Option<u32> {
    match f {
        Format::Y800 | Format::GREY | Format::Y8 => Some(8),
        Format::I420 | Format::YV12 | Format::NV12 | Format::NV21 => Some(12),
        Format::YUYV | Format::UYVY => Some(16),
        Format::RGB3 | Format::BGR3 => Some(24),
        Format::RGB4 | Format::BGR4 => Some(32),
        Format::Custom(_) => None,
    }
}

/// Packs four bytes into a fourcc code, the first byte lowest.
pub fn fourcc(b0: u8, b1: u8, b2: u8, b3: u8) -> (r: u32)
    ensures
        r == fourcc_of(b0, b1, b2, b3),
{
    let r: u32 = b0 as u32 + 256 * (b1 as u32) + 65536 * (b2 as u32) + 16777216 * (b3 as u32);
    r
}

impl Format {
    /// The fourcc code of this format.
    pub fn value(&self) -> (r: u32)
        ensures
            r == code_of(*self),
    {
        match *self {
            Format::Y800 => fourcc(0x59, 0x38, 0x30, 0x30),
            Format::GREY => fourcc(0x47, 0x52, 0x45, 0x59),
            Format::Y8 => fourcc(0x59, 0x38, 0x20, 0x20),
            Format::I420 => fourcc(0x49, 0x34, 0x32, 0x30),
            Format::YV12 => fourcc(0x59, 0x56, 0x31, 0x32),
            Format::NV12 => fourcc(0x4e, 0x56, 0x31, 0x32),
            Format::NV21 => fourcc(0x4e, 0x56, 0x32, 0x31),
            Format::YUYV => fourcc(0x59, 0x55, 0x59, 0x56),
            Format::UYVY => fourcc(0x55, 0x59, 0x56, 0x59),
            Format::RGB3 => fourcc(0x52, 0x47, 0x42, 0x33),
            Format::BGR3 => fourcc(0x42, 0x47, 0x52, 0x33),
            Format::RGB4 => fourcc(0x52, 0x47, 0x42, 0x34),
            Format::BGR4 => fourcc(0x42, 0x47, 0x52, 0x34),
            Format::Custom(c) => c,
        }
    }

    /// The format of a fourcc code: a named one where the code is one, else a custom one.
    pub fn from_value(v: u32) -> (r: Format)
        ensures
            code_of(r) == v,
            format_wf(r),
    {
        if v == Format::Y800.value() {
            return Format::Y800;
        }
        if v == Format::GREY.value() {
            return Format::GREY;
        }
        if v == Format::Y8.value() {
            return Format::Y8;
        }
        if v == Format::I420.value() {
            return Format::I420;
        }
        if v == Format::YV12.value() {
            return Format::YV12;
        }
        if v == Format::NV12.value() {
            return Format::NV12;
        }
        if v == Format::NV21.value() {
            return Format::NV21;
        }
        if v == Format::YUYV.value() {
            return Format::YUYV;
        }
        if v == Format::UYVY.value() {
            return Format::UYVY;
        }
        if v == Format::RGB3.value() {
            return Format::RGB3;
        }
        if v == Format::BGR3.value() {
            return Format::BGR3;
        }
        if v == Format::RGB4.value() {
            return Format::RGB4;
        }
        if v == Format::BGR4.value() {
            return Format::BGR4;
        }
        proof {
            assert forall|g: Format| !(g is Custom) implies code_of(g) != v by {
                match g {
                    Format::Custom(_) => {},
                    _ => {},
                }
            }
        }
        Format::Custom(v)
    }

    /// The format named by a four-character label such as `"Y800"`; `None` unless the label
    /// is four bytes long.
    pub fn from_label(label: &str) -> (r: Option<Format>)
        ensures
            label.spec_bytes().len() != 4 ==> r is None,
            label.spec_bytes().len() == 4 ==> r is Some && format_wf(r->Some_0) && code_of(r->Some_0)
                == fourcc_of(
                label.spec_bytes()[0],
                label.spec_bytes()[1],
                label.spec_bytes()[2],
                label.spec_bytes()[3],
            ),
    {
        let b = label.as_bytes();
        if b.len() != 4 {
            return None;
        }
        Some(Format::from_value(fourcc(b[0], b[1], b[2], b[3])))
    }

    /// Bits that one pixel takes in a buffer of this format; `None` for a custom code.
    pub fn bits_per_pixel(&self) -> (r: Option<u32>)
        ensures
            r == pixel_bits(*self),
    {
        match *self {
            Format::Y800 | Format::GREY | Format::Y8 => Some(8),
            Format::I420 | Format::YV12 | Format::NV12 | Format::NV21 => Some(12),
            Format::YUYV | Format::UYVY => Some(16),
            Format::RGB3 | Format::BGR3 => Some(24),
            Format::RGB4 | Format::BGR4 => Some(32),
            Format::Custom(_) => None,
        }
    }
}

} // verus!
