use camview::framedata::FrameData;

#[test]
fn test_zeros() {
    let frame = FrameData::<u16>::zeros(3, 3);
    assert_eq!(frame.width, 3);
    assert_eq!(frame.height, 3);
    assert_eq!(frame.data, vec![0; 9]);
}

#[test]
fn test_ones() {
    let frame = FrameData::<u16>::ones(3, 3);
    assert_eq!(frame.width, 3);
    assert_eq!(frame.height, 3);
    assert_eq!(frame.data, vec![1; 9]);
}

#[test]
fn test_add() {
    let frame1 = FrameData::<u16>::ones(3, 3);
    let frame2 = FrameData::<u16>::ones(3, 3);
    let frame3 = &frame1 + &frame2;
    assert_eq!(frame3.width, 3);
    assert_eq!(frame3.height, 3);
    assert_eq!(frame3.data, vec![2; 9]);
}

#[test]
fn test_add_types() {
    let frame1 = FrameData::<u16>::ones(3, 3);
    let frame2 = FrameData::<u8>::ones(3, 3);
    let frame3 = &frame1 + &frame2;
    assert_eq!(frame3.width, 3);
    assert_eq!(frame3.height, 3);
    assert_eq!(frame3.data, vec![2; 9]);
}

#[test]
fn test_zeros_without_pixels() {
    let frame = FrameData::<u8>::zeros(0, 7);
    assert_eq!(frame.width, 0);
    assert_eq!(frame.height, 7);
    assert!(frame.data.is_empty());
}

#[test]
fn test_sub() {
    let a = FrameData::<u16> { width: 2, height: 2, data: vec![10, 20, 30, 65535] };
    let b = FrameData::<u8> { width: 2, height: 2, data: vec![1, 20, 0, 255] };
    let c = &a - &b;
    assert_eq!(c.width, 2);
    assert_eq!(c.height, 2);
    assert_eq!(c.data, vec![9, 0, 30, 65280]);
}

#[test]
fn test_mul_elementwise() {
    let a = FrameData::<u16> { width: 3, height: 1, data: vec![2, 3, 255] };
    let b = FrameData::<u16> { width: 3, height: 1, data: vec![5, 0, 257] };
    let c = &a * &b;
    assert_eq!(c.data, vec![10, 0, 65535]);
}

#[test]
fn test_mul_scalar() {
    let a = FrameData::<u16> { width: 3, height: 1, data: vec![2, 3, 100] };
    let c = &a * 7u8;
    assert_eq!(c.width, 3);
    assert_eq!(c.height, 1);
    assert_eq!(c.data, vec![14, 21, 700]);
}

#[test]
fn test_div_scalar() {
    let a = FrameData::<u16> { width: 4, height: 1, data: vec![0, 255, 256, 65535] };
    let c = &a / 256;
    assert_eq!(c.data, vec![0, 0, 1, 255]);
}

#[test]
fn test_shift_left_drops_high_bits() {
    let a = FrameData::<u8> { width: 3, height: 1, data: vec![1, 0x81, 0xff] };
    let c = &a << 1;
    assert_eq!(c.data, vec![2, 2, 0xfe]);
}

#[test]
fn test_shift_right() {
    let a = FrameData::<u16> { width: 3, height: 1, data: vec![1, 0x8000, 0xffff] };
    let c = &a >> 4;
    assert_eq!(c.data, vec![0, 0x0800, 0x0fff]);
}

#[test]
fn test_assign_operators() {
    let mut a = FrameData::<u16> { width: 2, height: 1, data: vec![3, 40] };
    let b = FrameData::<u8> { width: 2, height: 1, data: vec![1, 2] };
    a += &b;
    assert_eq!(a.data, vec![4, 42]);
    a -= &b;
    assert_eq!(a.data, vec![3, 40]);
    a <<= 2;
    assert_eq!(a.data, vec![12, 160]);
    a >>= 3;
    assert_eq!(a.data, vec![1, 20]);
    assert_eq!(a.width, 2);
    assert_eq!(a.height, 1);
}
