use camview::colormap::{apply_gamma, colorbar, from_string, grayscale, hot, is_unit_gamma, lut, parula, red, reversed, ColorMap};
use camview::pixel::RGBAPixel;

fn identity_warp() -> [u8; 256] {
    let mut warp = [0u8; 256];
    for (i, w) in warp.iter_mut().enumerate() {
        *w = i as u8;
    }
    warp
}

#[test]
fn test_grayscale_entries() {
    let cmap = grayscale();
    for i in 0..256usize {
        assert_eq!(cmap[i], RGBAPixel { r: i as u8, g: i as u8, b: i as u8, a: 255 });
    }
}

#[test]
fn test_red_entries() {
    let cmap = red();
    for i in 0..256usize {
        assert_eq!(cmap[i], RGBAPixel { r: i as u8, g: 0, b: 0, a: 255 });
    }
}

#[test]
fn test_hot_entries() {
    let cmap = hot();
    assert_eq!(cmap[0], RGBAPixel { r: 0, g: 0, b: 255, a: 255 });
    assert_eq!(cmap[1], RGBAPixel { r: 0, g: 2, b: 255, a: 255 });
    assert_eq!(cmap[127], RGBAPixel { r: 0, g: 254, b: 255, a: 255 });
    assert_eq!(cmap[128], RGBAPixel { r: 0, g: 255, b: 255, a: 255 });
    assert_eq!(cmap[129], RGBAPixel { r: 1, g: 255, b: 254, a: 255 });
    assert_eq!(cmap[255], RGBAPixel { r: 127, g: 255, b: 128, a: 255 });
}

#[test]
fn test_parula_entries() {
    let cmap = parula();
    assert_eq!(cmap[0], RGBAPixel { r: 53, g: 42, b: 135, a: 255 });
    assert_eq!(cmap[3], cmap[0]);
    assert_eq!(cmap[4], RGBAPixel { r: 54, g: 48, b: 147, a: 255 });
    assert_eq!(cmap[128], RGBAPixel { r: 56, g: 185, b: 158, a: 255 });
    assert_eq!(cmap[255], RGBAPixel { r: 249, g: 251, b: 14, a: 255 });
    assert!(cmap.iter().all(|p| p.a == 255));
}

#[test]
fn test_from_string_knows_four_names() {
    assert_eq!(from_string("Parula").unwrap(), parula());
    assert_eq!(from_string("Hot").unwrap(), hot());
    assert_eq!(from_string("Grayscale").unwrap(), grayscale());
    assert_eq!(from_string("Red").unwrap(), red());
}

#[test]
fn test_from_string_rejects_other_names() {
    assert!(from_string("").is_none());
    assert!(from_string("parula").is_none());
    assert!(from_string("Hot ").is_none());
    assert!(from_string("Grey").is_none());
    assert!(from_string("Redd").is_none());
}

#[test]
fn test_lut_defaults_to_grayscale() {
    assert_eq!(lut("Hot"), hot());
    assert_eq!(lut("Parula"), parula());
    assert_eq!(lut("Red"), red());
    assert_eq!(lut("Grayscale"), grayscale());
    assert_eq!(lut("parula"), grayscale());
    assert_eq!(lut("no such map"), grayscale());
}

#[test]
fn test_is_unit_gamma() {
    assert!(is_unit_gamma(1000));
    assert!(is_unit_gamma(981));
    assert!(is_unit_gamma(1019));
    assert!(!is_unit_gamma(980));
    assert!(!is_unit_gamma(1020));
    assert!(!is_unit_gamma(0));
    assert!(!is_unit_gamma(2200));
    assert!(!is_unit_gamma(u32::MAX));
}

#[test]
fn test_apply_gamma_unit_leaves_map() {
    let cmap = hot();
    let warp = [7u8; 256];
    assert_eq!(apply_gamma(&cmap, 1000, &warp), cmap);
    assert_eq!(apply_gamma(&cmap, 1019, &warp), cmap);
}

#[test]
fn test_apply_gamma_remaps_indices() {
    let cmap = grayscale();
    let mut warp = [0u8; 256];
    for (i, w) in warp.iter_mut().enumerate() {
        *w = (255 - i) as u8;
    }
    let warped: ColorMap = apply_gamma(&cmap, 2200, &warp);
    for i in 0..256usize {
        assert_eq!(warped[i], cmap[255 - i]);
    }
    let flat = apply_gamma(&cmap, 500, &[9u8; 256]);
    assert!(flat.iter().all(|p| *p == cmap[9]));
}

#[test]
fn test_reversed() {
    let cmap = hot();
    let rev = reversed(&cmap);
    for i in 0..256usize {
        assert_eq!(rev[i], cmap[255 - i]);
    }
    assert_eq!(reversed(&rev), cmap);
}

#[test]
fn test_colorbar() {
    let cmap = red();
    let bar = colorbar(&cmap, 1000, &identity_warp());
    assert_eq!(bar[0].r, 255);
    assert_eq!(bar[255].r, 0);
    let mut warp = [0u8; 256];
    warp[10] = 200;
    let bar = colorbar(&cmap, 1500, &warp);
    assert_eq!(bar[10].r, 55);
    assert_eq!(bar[11].r, 255);
}
