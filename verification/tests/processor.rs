use camview::cameraframe::{CameraFrame, RawFrame};
use camview::framedata::FrameData;
use camview::pixel::{RGBAPixel, RGBPixel};
use camview::processor::ImageProcessor;
use camview::procresult::ProcResult;
use camview::scale::{FCScaleType, GuiParams};
use camview::stats::Ratio;

fn gray16(bit_depth: u8, data: Vec<u16>) -> RawFrame {
    let width = data.len() as u32;
    RawFrame::Gray16(CameraFrame::create(1000, 5, bit_depth, FrameData { width, height: 1, data }))
}

fn params(mode: FCScaleType, range: (i32, i32)) -> GuiParams {
    GuiParams { gamma_permille: 1000, fcscaletype: mode, scale_range: range, colorscale: "Hot".to_string() }
}

#[test]
fn test_new_processor_has_no_result() {
    let processor = ImageProcessor::new();
    assert!(processor.last_result().is_none());
}

#[test]
fn test_process_without_params_uses_full_scale() {
    let mut processor = ImageProcessor::new();
    processor.process_frame(gray16(12, vec![100, 200, 300]));
    let result = processor.last_result().unwrap();
    assert_eq!(result.fcrange, (0, 4095));
    assert_eq!(result.mean, Some(Ratio { num: 600, den: 3 }));
    // (3 * 140000 - 600 * 600) / (3 * 2)
    assert_eq!(result.var, Some(Ratio { num: 60000, den: 6 }));
    assert_eq!(result.histogram.0.len(), 257);
    assert_eq!(result.histogram.1.iter().sum::<i32>(), 3);
    assert_eq!(result.rawframe.width(), 3);
}

#[test]
fn test_process_auto_uses_frame_range() {
    let mut processor = ImageProcessor::new();
    processor.set_params(params(FCScaleType::Auto, (1, 2)));
    processor.process_frame(gray16(12, vec![100, 200, 300]));
    assert_eq!(processor.last_result().unwrap().fcrange, (100, 300));
}

#[test]
fn test_process_manual_uses_manual_range() {
    let mut processor = ImageProcessor::new();
    processor.set_params(params(FCScaleType::Manual, (50, 500)));
    processor.process_frame(gray16(12, vec![100, 200, 300]));
    assert_eq!(processor.last_result().unwrap().fcrange, (50, 500));
}

#[test]
fn test_process_8_bit_frame() {
    let mut processor = ImageProcessor::new();
    processor.set_params(params(FCScaleType::Auto, (0, 0)));
    let frame = RawFrame::Gray8(CameraFrame::create(
        1,
        2,
        8,
        FrameData { width: 3, height: 3, data: vec![1, 2, 3, 4, 5, 6, 7, 8, 9] },
    ));
    processor.process_frame(frame);
    let result = processor.last_result().unwrap();
    assert_eq!(result.fcrange, (1, 9));
    assert_eq!(result.mean, Some(Ratio { num: 45, den: 9 }));
    assert_eq!(result.var, Some(Ratio { num: 540, den: 72 }));
    assert_eq!(&result.histogram.1[..11], &[0, 1, 1, 1, 1, 1, 1, 1, 1, 1, 0]);
}

#[test]
fn test_process_colour_frame_has_no_statistics() {
    let mut processor = ImageProcessor::new();
    processor.set_params(params(FCScaleType::Auto, (3, 4)));
    let frame = RawFrame::Rgb(CameraFrame::create(
        1,
        2,
        10,
        FrameData { width: 1, height: 1, data: vec![RGBPixel { r: 1, g: 2, b: 3 }] },
    ));
    processor.process_frame(frame);
    let result = processor.last_result().unwrap();
    assert!(result.mean.is_none());
    assert!(result.var.is_none());
    assert!(result.histogram.0.is_empty());
    assert!(result.histogram.1.is_empty());
    assert_eq!(result.fcrange, (0, 1023));
    let frame = RawFrame::Rgba(CameraFrame::create(
        1,
        2,
        8,
        FrameData { width: 1, height: 1, data: vec![RGBAPixel { r: 1, g: 2, b: 3, a: 4 }] },
    ));
    processor.process_frame(frame);
    assert_eq!(processor.last_result().unwrap().fcrange, (0, 255));
}

#[test]
fn test_latest_result_is_overwritten() {
    let mut processor = ImageProcessor::new();
    processor.process_frame(gray16(12, vec![1]));
    processor.process_frame(gray16(12, vec![7, 9]));
    let result = processor.last_result().unwrap();
    assert_eq!(result.rawframe.width(), 2);
    assert_eq!(result.mean, Some(Ratio { num: 16, den: 2 }));
}

#[test]
fn test_process_frame_without_pixels() {
    let mut processor = ImageProcessor::new();
    processor.set_params(params(FCScaleType::Auto, (0, 0)));
    processor.process_frame(gray16(12, vec![]));
    let result = processor.last_result().unwrap();
    assert_eq!(result.fcrange, (65535, 0));
    assert_eq!(result.mean, Some(Ratio { num: 0, den: 2 }));
    assert_eq!(result.histogram.1, vec![0; 257]);
}

#[test]
fn test_blank_result() {
    let result = ProcResult::blank(1234);
    assert_eq!(result.fcrange, (0, 4096));
    assert!(result.mean.is_none());
    assert!(result.var.is_none());
    assert!(result.histogram.0.is_empty());
    assert_eq!(result.rawframe.width(), 0);
    assert_eq!(result.rawframe.height(), 0);
    assert_eq!(result.rawframe.bit_depth(), 12);
    let copy = result.clone();
    assert_eq!(copy.fcrange, (0, 4096));
    assert_eq!(copy.rawframe.bit_depth(), 12);
}

#[test]
fn test_raw_frame_accessors() {
    let frame = RawFrame::Gray16(CameraFrame::create(
        7,
        8,
        14,
        FrameData { width: 2, height: 2, data: vec![1, 2, 3, 4] },
    ));
    assert!(frame.is_mono());
    assert_eq!(frame.width(), 2);
    assert_eq!(frame.height(), 2);
    assert_eq!(frame.bit_depth(), 14);
    assert_eq!(frame.sample_at(0, 0), 1);
    assert_eq!(frame.sample_at(1, 0), 2);
    assert_eq!(frame.sample_at(0, 1), 3);
    assert_eq!(frame.sample_at(1, 1), 4);
    assert_eq!(frame.sample_at(2, 0), 0);
    assert_eq!(frame.sample_at(0, 2), 0);
    let colour = RawFrame::Rgb(CameraFrame::empty(0));
    assert!(!colour.is_mono());
    assert_eq!(colour.sample_at(0, 0), 0);
    let copy = frame.clone();
    assert_eq!(copy.sample_at(1, 1), 4);
    assert_eq!(copy.bit_depth(), 14);
}

#[test]
fn test_create_and_empty_frame() {
    let frame = CameraFrame::create(250, -3, 10, FrameData::<u8> { width: 1, height: 2, data: vec![4, 5] });
    assert_eq!(frame.exposure_us, 250);
    assert_eq!(frame.center_of_integration_ms, -3);
    assert_eq!(frame.bit_depth, 10);
    assert_eq!(frame.data.data, vec![4, 5]);
    let empty = CameraFrame::<u16>::empty(77);
    assert_eq!(empty.exposure_us, 0);
    assert_eq!(empty.center_of_integration_ms, 77);
    assert_eq!(empty.bit_depth, 12);
    assert_eq!(empty.data.width, 0);
    assert_eq!(empty.data.height, 0);
    assert!(empty.data.data.is_empty());
}

#[test]
fn test_can_process() {
    let good = gray16(12, vec![1, 2, 3]);
    assert!(ImageProcessor::can_process(&good));
    assert!(good.is_wf());
    assert_eq!(good.len(), 3);
    let wrong_size = RawFrame::Gray16(CameraFrame::create(
        0,
        0,
        12,
        FrameData { width: 2, height: 2, data: vec![1, 2, 3] },
    ));
    assert!(!ImageProcessor::can_process(&wrong_size));
    assert!(!ImageProcessor::can_process(&gray16(0, vec![1])));
    assert!(!ImageProcessor::can_process(&gray16(17, vec![1])));
    assert!(ImageProcessor::can_process(&gray16(16, vec![1])));
    assert!(ImageProcessor::can_process(&gray16(1, vec![])));
}
