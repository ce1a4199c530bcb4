use camview::framedata::{FrameData, ROI};
use camview::pixel::{RGBAPixel, RGBPixel};

fn grid() -> FrameData<u16> {
    // 4 columns, 3 rows; the pixel at (x, y) is 10 * y + x.
    FrameData {
        width: 4,
        height: 3,
        data: vec![0, 1, 2, 3, 10, 11, 12, 13, 20, 21, 22, 23],
    }
}

#[test]
fn test_at_is_row_major() {
    let frame = grid();
    assert_eq!(frame.at(0, 0), 0);
    assert_eq!(frame.at(3, 0), 3);
    assert_eq!(frame.at(0, 1), 10);
    assert_eq!(frame.at(2, 2), 22);
    assert_eq!(frame.at(3, 2), 23);
}

#[test]
fn test_at_ref_and_index() {
    let frame = grid();
    assert_eq!(*frame.at_ref(1, 2), 21);
    assert_eq!(frame.index(1, 2), 9);
    assert_eq!(frame.index(0, 0), 0);
    assert_eq!(frame.index(3, 2), 11);
}

#[test]
fn test_subregion() {
    let frame = grid();
    let sub = frame.subregion(1, 1, 3, 3);
    assert_eq!(sub.width, 2);
    assert_eq!(sub.height, 2);
    assert_eq!(sub.data, vec![11, 12, 21, 22]);
}

#[test]
fn test_subregion_whole_frame() {
    let frame = grid();
    let sub = frame.subregion(0, 0, 4, 3);
    assert_eq!(sub.width, 4);
    assert_eq!(sub.height, 3);
    assert_eq!(sub.data, frame.data);
}

#[test]
fn test_subregion_single_pixel() {
    let frame = grid();
    let sub = frame.subregion(3, 2, 4, 3);
    assert_eq!(sub.width, 1);
    assert_eq!(sub.height, 1);
    assert_eq!(sub.data, vec![23]);
}

#[test]
fn test_region_inside() {
    let frame = grid();
    let sub = frame.region(&ROI::new(2, 0, 2, 2)).unwrap();
    assert_eq!(sub.width, 2);
    assert_eq!(sub.height, 2);
    assert_eq!(sub.data, vec![2, 3, 12, 13]);
}

#[test]
fn test_region_rejected() {
    let frame = grid();
    assert!(frame.region(&ROI::new(0, 0, 0, 2)).is_none());
    assert!(frame.region(&ROI::new(0, 0, 2, 0)).is_none());
    assert!(frame.region(&ROI::new(3, 0, 2, 1)).is_none());
    assert!(frame.region(&ROI::new(0, 2, 1, 2)).is_none());
    assert!(frame.region(&ROI::new(usize::MAX, 0, 1, 1)).is_none());
    assert!(frame.region(&ROI::new(1, 1, usize::MAX, 1)).is_none());
    assert!(frame.region(&ROI::new(0, 0, 4, 3)).is_some());
}

#[test]
fn test_clone_keeps_pixels() {
    let frame = grid();
    let copy = frame.clone();
    assert_eq!(copy.width, 4);
    assert_eq!(copy.height, 3);
    assert_eq!(copy.data, frame.data);
}

#[test]
fn test_pixel_defaults() {
    assert_eq!(RGBAPixel::default(), RGBAPixel { r: 0, g: 0, b: 0, a: 255 });
    assert_eq!(RGBPixel::default(), RGBPixel { r: 0, g: 0, b: 0 });
}
