use camview::colormap::{grayscale, hot, parula};
use camview::framedata::FrameData;
use camview::pixel::RGBAPixel;
use camview::tone::ToneCurve;

#[test]
fn test_to_rgba_reproduces_grayscale_input() {
    let data: Vec<u8> = (0..=255u8).collect();
    let frame = FrameData::<u8> { width: 16, height: 16, data: data.clone() };
    let picture = frame.to_rgba(0, 255, &ToneCurve::Linear, &grayscale());
    assert_eq!(picture.width, 16);
    assert_eq!(picture.height, 16);
    for (p, v) in picture.data.iter().zip(data.iter()) {
        assert_eq!(*p, RGBAPixel { r: *v, g: *v, b: *v, a: 255 });
    }
}

#[test]
fn test_to_rgba_linear_formula() {
    let frame = FrameData::<u16> { width: 6, height: 1, data: vec![0, 100, 101, 600, 1100, 2000] };
    let picture = frame.to_rgba(100, 1100, &ToneCurve::Linear, &grayscale());
    let indices: Vec<u8> = picture.data.iter().map(|p| p.r).collect();
    // (x - 100) * 255 / 1000, within 0 and 255
    assert_eq!(indices, vec![0, 0, 0, 127, 255, 255]);
}

#[test]
fn test_to_rgba_empty_interval_has_width_one() {
    let frame = FrameData::<u16> { width: 3, height: 1, data: vec![9, 10, 11] };
    let picture = frame.to_rgba(10, 10, &ToneCurve::Linear, &grayscale());
    let indices: Vec<u8> = picture.data.iter().map(|p| p.r).collect();
    assert_eq!(indices, vec![0, 0, 255]);
    // An inverted interval is as wide as an empty one.
    let picture = frame.to_rgba(10, 3, &ToneCurve::Linear, &grayscale());
    let indices: Vec<u8> = picture.data.iter().map(|p| p.r).collect();
    assert_eq!(indices, vec![0, 0, 255]);
}

#[test]
fn test_to_rgba_uses_color_map() {
    let frame = FrameData::<u8> { width: 2, height: 1, data: vec![0, 255] };
    let picture = frame.to_rgba(0, 255, &ToneCurve::Linear, &hot());
    assert_eq!(picture.data[0], hot()[0]);
    assert_eq!(picture.data[1], hot()[255]);
    let picture = frame.to_rgba(0, 255, &ToneCurve::Linear, &parula());
    assert_eq!(picture.data[1], RGBAPixel { r: 249, g: 251, b: 14, a: 255 });
}

#[test]
fn test_to_rgba_with_table() {
    // The interval from 10 to 14 is 4 wide: the table has 5 entries.
    let table = ToneCurve::Table(vec![0, 200, 220, 240, 255]);
    let frame = FrameData::<u16> { width: 7, height: 1, data: vec![0, 10, 11, 12, 13, 14, 500] };
    let picture = frame.to_rgba(10, 14, &table, &grayscale());
    let indices: Vec<u8> = picture.data.iter().map(|p| p.r).collect();
    assert_eq!(indices, vec![0, 0, 200, 220, 240, 255, 255]);
}

#[test]
fn test_color_index() {
    assert_eq!(ToneCurve::Linear.color_index(128, 0, 255), 128);
    assert_eq!(ToneCurve::Linear.color_index(-5, 0, 255), 0);
    assert_eq!(ToneCurve::Linear.color_index(4095, 0, 4095), 255);
    assert_eq!(ToneCurve::Linear.color_index(4094, 0, 4095), 254);
    assert_eq!(ToneCurve::Linear.color_index(2048, 0, 4095), 127);
    assert_eq!(ToneCurve::Linear.color_index(i32::MAX as i64, i32::MIN as i64, 0xffff_ffff), 255);
    assert_eq!(ToneCurve::Linear.color_index(0, i32::MIN as i64, 0xffff_ffff), 127);
    let table = ToneCurve::Table(vec![3, 4, 5]);
    assert_eq!(table.color_index(-1, 0, 2), 3);
    assert_eq!(table.color_index(0, 0, 2), 3);
    assert_eq!(table.color_index(1, 0, 2), 4);
    assert_eq!(table.color_index(2, 0, 2), 5);
    assert_eq!(table.color_index(3, 0, 2), 5);
}

#[test]
fn test_from_other_sample_type() {
    let wide = FrameData::<u16> { width: 2, height: 2, data: vec![0, 1, 254, 255] };
    let narrow = FrameData::<u8>::from(&wide);
    assert_eq!(narrow.width, 2);
    assert_eq!(narrow.height, 2);
    assert_eq!(narrow.data, vec![0u8, 1, 254, 255]);
    let back = FrameData::<u16>::from(&narrow);
    assert_eq!(back.data, wide.data);
}
