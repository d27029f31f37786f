use zbars::error::ZBarErrorType;
use zbars::format::Format;
use zbars::image::{buffer_size_ok, ZBarImage};

const N: usize = 100000;

#[test]
fn test_mem_image_from_buf() {
    for _ in 0..N {
        ZBarImage::new(500, 500, Format::from_label("Y800").unwrap(), vec![0; 500 * 500]).unwrap();
    }
}

#[test]
fn test_mem_image_from_slice() {
    for _ in 0..N {
        let buf = vec![0; 500 * 500];
        let buf_slice = buf.as_slice();
        ZBarImage::from_slice(500, 500, Format::from_label("Y800").unwrap(), &buf_slice).unwrap();
    }
}

#[test]
fn image_takes_exact_buffer() {
    let image = ZBarImage::new(4, 3, Format::Y800, vec![7; 12]).unwrap();
    assert_eq!(image.width(), 4);
    assert_eq!(image.height(), 3);
    assert_eq!(image.format(), Format::Y800);
    assert_eq!(image.data(), &[7u8; 12][..]);
    assert!(image.is_owned());
    assert_eq!(image.sequence_number(), 0);
    assert_eq!(image.crop_region(), None);
}

#[test]
fn image_refuses_short_and_long_buffers() {
    assert!(matches!(
        ZBarImage::new(4, 3, Format::Y800, vec![0; 11]),
        Err(ZBarErrorType::InvalidBufferSize)
    ));
    assert!(matches!(
        ZBarImage::new(4, 3, Format::Y800, vec![0; 13]),
        Err(ZBarErrorType::InvalidBufferSize)
    ));
    let buf = vec![0u8; 0];
    assert!(matches!(
        ZBarImage::from_slice(1, 1, Format::GREY, &buf),
        Err(ZBarErrorType::InvalidBufferSize)
    ));
}

#[test]
fn buffer_sizes_follow_pixel_bits() {
    assert!(buffer_size_ok(4, 4, Format::I420, 24));
    assert!(!buffer_size_ok(4, 4, Format::I420, 16));
    assert!(buffer_size_ok(2, 2, Format::YUYV, 8));
    assert!(buffer_size_ok(2, 2, Format::RGB3, 12));
    assert!(buffer_size_ok(2, 2, Format::BGR4, 16));
    assert!(buffer_size_ok(0, 0, Format::Y800, 0));
    assert!(!buffer_size_ok(u32::MAX, u32::MAX, Format::RGB4, usize::MAX));
    assert!(buffer_size_ok(3, 3, Format::Custom(0x3132_3334), 5));
}

#[test]
fn borrowed_image_keeps_caller_buffer() {
    let buf: Vec<u8> = (0..6).collect();
    let image = ZBarImage::from_slice(3, 2, Format::Y8, &buf).unwrap();
    assert!(!image.is_owned());
    assert_eq!(image.data(), &buf[..]);
}

#[test]
fn image_setters_change_only_their_field() {
    let mut image = ZBarImage::new(2, 2, Format::Y800, vec![1, 2, 3, 4]).unwrap();
    image.set_sequence_number(9);
    image.set_crop_region(1, 0, 1, 2);
    image.set_size(4, 1);
    image.set_format(Format::GREY);
    assert_eq!(image.sequence_number(), 9);
    assert_eq!(image.crop_region(), Some((1, 0, 1, 2)));
    assert_eq!((image.width(), image.height()), (4, 1));
    assert_eq!(image.format(), Format::GREY);
    assert_eq!(image.data(), &[1u8, 2, 3, 4][..]);
}
