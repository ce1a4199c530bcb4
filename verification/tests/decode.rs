use camview::cameraframe::RawFrame;
use camview::decode::{frame_from_bytes, FrameError, PixelType};
use camview::pixel::{RGBAPixel, RGBPixel};

#[test]
fn test_gray8_frame_holds_the_bytes() {
    let bytes = [1u8, 2, 3, 4, 5, 6];
    let frame = frame_from_bytes(PixelType::Gray8, 3, 2, 8, 10, 20, &bytes).unwrap();
    assert_eq!(frame.width(), 3);
    assert_eq!(frame.height(), 2);
    assert_eq!(frame.bit_depth(), 8);
    match frame {
        RawFrame::Gray8(inner) => {
            assert_eq!(inner.data.data, vec![1, 2, 3, 4, 5, 6]);
            assert_eq!(inner.exposure_us, 10);
            assert_eq!(inner.center_of_integration_ms, 20);
        }
        _ => panic!("not an 8-bit frame"),
    }
}

#[test]
fn test_gray16_frame_reads_samples_in_machine_order() {
    let samples: Vec<u16> = vec![0x0102, 0xfffe, 0, 4095];
    let bytes: &[u8] = rgb::bytemuck::cast_slice(&samples);
    let frame = frame_from_bytes(PixelType::Gray16, 2, 2, 12, 0, 0, bytes).unwrap();
    match frame {
        RawFrame::Gray16(inner) => {
            assert_eq!(inner.data.data, samples);
            assert_eq!(inner.data.data[0], u16::from_ne_bytes([bytes[0], bytes[1]]));
            assert_ne!(inner.data.data[0] as usize, bytes.len());
        }
        _ => panic!("not a 16-bit frame"),
    }
}

#[test]
fn test_gray16_frame_at_odd_address_is_refused() {
    let samples: Vec<u16> = vec![1, 2, 3];
    let bytes: &[u8] = rgb::bytemuck::cast_slice(&samples);
    // Four bytes that start one byte after an even address.
    let shifted = &bytes[1..5];
    assert_eq!(
        frame_from_bytes(PixelType::Gray16, 2, 1, 12, 0, 0, shifted).err(),
        Some(FrameError::Cast)
    );
}

#[test]
fn test_colour_frames_hold_the_bytes() {
    let bytes = [1u8, 2, 3, 4, 5, 6, 7, 8, 9, 10, 11, 12];
    match frame_from_bytes(PixelType::Rgb, 2, 2, 8, 0, 0, &bytes).unwrap() {
        RawFrame::Rgb(inner) => {
            assert_eq!(inner.data.data.len(), 4);
            assert_eq!(inner.data.data[0], RGBPixel { r: 1, g: 2, b: 3 });
            assert_eq!(inner.data.data[3], RGBPixel { r: 10, g: 11, b: 12 });
        }
        _ => panic!("not a frame of three channels"),
    }
    match frame_from_bytes(PixelType::Rgba, 3, 1, 8, 0, 0, &bytes).unwrap() {
        RawFrame::Rgba(inner) => {
            assert_eq!(inner.data.data.len(), 3);
            assert_eq!(inner.data.data[0], RGBAPixel { r: 1, g: 2, b: 3, a: 4 });
            assert_eq!(inner.data.data[2], RGBAPixel { r: 9, g: 10, b: 11, a: 12 });
        }
        _ => panic!("not a frame of four channels"),
    }
}

#[test]
fn test_wrong_size_is_refused() {
    let bytes = [0u8; 12];
    assert_eq!(frame_from_bytes(PixelType::Gray8, 3, 3, 8, 0, 0, &bytes).err(), Some(FrameError::Size));
    assert_eq!(frame_from_bytes(PixelType::Gray8, 13, 1, 8, 0, 0, &bytes).err(), Some(FrameError::Size));
    assert_eq!(frame_from_bytes(PixelType::Gray16, 12, 1, 12, 0, 0, &bytes).err(), Some(FrameError::Size));
    assert_eq!(frame_from_bytes(PixelType::Rgb, 2, 3, 8, 0, 0, &bytes).err(), Some(FrameError::Size));
    assert_eq!(frame_from_bytes(PixelType::Rgba, 2, 2, 8, 0, 0, &bytes).err(), Some(FrameError::Size));
    assert_eq!(
        frame_from_bytes(PixelType::Gray8, u32::MAX, u32::MAX, 8, 0, 0, &bytes).err(),
        Some(FrameError::Size)
    );
    assert!(frame_from_bytes(PixelType::Gray8, 0, 5, 8, 0, 0, &[]).is_ok());
}

#[test]
fn test_wrong_bit_depth_is_refused_first() {
    let bytes = [0u8; 4];
    assert_eq!(frame_from_bytes(PixelType::Gray8, 2, 2, 0, 0, 0, &bytes).err(), Some(FrameError::BitDepth));
    assert_eq!(frame_from_bytes(PixelType::Gray8, 2, 2, 17, 0, 0, &bytes).err(), Some(FrameError::BitDepth));
    assert_eq!(frame_from_bytes(PixelType::Gray8, 9, 9, 17, 0, 0, &bytes).err(), Some(FrameError::BitDepth));
    assert!(frame_from_bytes(PixelType::Gray8, 2, 2, 1, 0, 0, &bytes).is_ok());
    assert!(frame_from_bytes(PixelType::Gray8, 2, 2, 16, 0, 0, &bytes).is_ok());
}

#[test]
fn test_pixel_sizes() {
    assert_eq!(PixelType::Gray8.pixel_size(), 1);
    assert_eq!(PixelType::Gray16.pixel_size(), 2);
    assert_eq!(PixelType::Rgb.pixel_size(), 3);
    assert_eq!(PixelType::Rgba.pixel_size(), 4);
}
