use camview::math::next_pow2;
use camview::stats::{compute_histogram, compute_mean_and_var, min_max, plot_ranges, sum_and_squares, PlotRanges, Ratio};

fn value(r: Ratio) -> f64 {
    r.num as f64 / r.den as f64
}

#[test]
fn test_next_pow2() {
    assert_eq!(next_pow2(0), 0);
    assert_eq!(next_pow2(1), 1);
    assert_eq!(next_pow2(2), 2);
    assert_eq!(next_pow2(3), 4);
    assert_eq!(next_pow2(4), 4);
    assert_eq!(next_pow2(5), 8);
    assert_eq!(next_pow2(255), 256);
    assert_eq!(next_pow2(256), 256);
    assert_eq!(next_pow2(257), 512);
    assert_eq!(next_pow2(4095), 4096);
    assert_eq!(next_pow2(65535), 65536);
    assert_eq!(next_pow2(0x8000_0000), 0x8000_0000);
    assert_eq!(next_pow2(0x8000_0001), 0x1_0000_0000);
    assert_eq!(next_pow2(u32::MAX), 0x1_0000_0000);
}

#[test]
fn test_histogram_counts_every_sample() {
    let pixels: Vec<u16> = (0..5000u32).map(|i| ((i * 7919) % 4096) as u16).collect();
    let (_, _, bins, counts) = compute_histogram(&pixels);
    assert_eq!(bins.len(), 257);
    assert_eq!(counts.len(), 257);
    assert_eq!(counts.iter().map(|c| *c as usize).sum::<usize>(), pixels.len());
}

#[test]
fn test_histogram_of_8_bit_ramp() {
    let pixels: Vec<u8> = (0..=255u8).collect();
    let (min, max, bins, counts) = compute_histogram(&pixels);
    assert_eq!((min, max), (0, 255));
    // The grid ends at 256, so a bin is 1 wide and holds one sample.
    assert_eq!(bins, (0..=256).collect::<Vec<i32>>());
    assert_eq!(&counts[..256], &[1; 256][..]);
    assert_eq!(counts[256], 0);
}

#[test]
fn test_histogram_12_bit_bins_are_16_wide() {
    let pixels: Vec<u16> = vec![0, 15, 16, 31, 4095, 4080, 4079];
    let (min, max, bins, counts) = compute_histogram(&pixels);
    assert_eq!((min, max), (0, 4095));
    assert_eq!(bins[0], 0);
    assert_eq!(bins[1], 16);
    assert_eq!(bins[255], 4080);
    assert_eq!(bins[256], 4096);
    assert_eq!(counts[0], 2);
    assert_eq!(counts[1], 2);
    assert_eq!(counts[254], 1);
    assert_eq!(counts[255], 2);
    assert_eq!(counts[256], 0);
    assert_eq!(counts.iter().sum::<i32>(), 7);
}

#[test]
fn test_histogram_sample_at_end_of_grid() {
    // The largest sample is a power of two: the grid ends at it, and it is
    // counted in the last bin.
    let pixels: Vec<u16> = vec![0, 255, 256];
    let (min, max, bins, counts) = compute_histogram(&pixels);
    assert_eq!((min, max), (0, 256));
    assert_eq!(bins[1], 1);
    assert_eq!(counts[0], 1);
    assert_eq!(counts[255], 1);
    assert_eq!(counts[256], 1);
    assert_eq!(counts.iter().sum::<i32>(), 3);
}

#[test]
fn test_histogram_of_largest_samples() {
    let pixels: Vec<u16> = vec![65535, 65535, 0, 32768];
    let (min, max, bins, counts) = compute_histogram(&pixels);
    assert_eq!((min, max), (0, 65535));
    assert_eq!(bins[1], 256);
    assert_eq!(bins[256], 65536);
    assert_eq!(counts[0], 1);
    assert_eq!(counts[128], 1);
    assert_eq!(counts[255], 2);
    assert_eq!(counts[256], 0);
}

#[test]
fn test_histogram_of_black_frame() {
    // All samples 0: the grid is empty and a bin is still 1 wide.
    let pixels: Vec<u8> = vec![0; 100];
    let (min, max, bins, counts) = compute_histogram(&pixels);
    assert_eq!((min, max), (0, 0));
    assert_eq!(bins[0], 0);
    assert_eq!(bins[1], 1);
    assert_eq!(bins[256], 256);
    assert_eq!(counts[0], 100);
    assert_eq!(counts.iter().sum::<i32>(), 100);
}

#[test]
fn test_histogram_of_no_samples() {
    let pixels: Vec<u16> = vec![];
    let (min, max, bins, counts) = compute_histogram(&pixels);
    assert_eq!((min, max), (65535, 0));
    assert_eq!(bins, (0..=256).collect::<Vec<i32>>());
    assert_eq!(counts, vec![0; 257]);
}

#[test]
fn test_min_max() {
    assert_eq!(min_max(&[5u8, 9, 2, 7]), (2, 9));
    assert_eq!(min_max::<u8>(&[]), (255, 0));
    assert_eq!(min_max(&[3u16, 3, 3]), (3, 3));
}

#[test]
fn test_sum_and_squares() {
    assert_eq!(sum_and_squares(&[1u8, 2, 3]), (6, 14));
    assert_eq!(sum_and_squares::<u16>(&[]), (0, 0));
    assert_eq!(sum_and_squares(&[65535u16; 4]), (4 * 65535, 4 * 65535 * 65535));
}

#[test]
fn test_mean_and_variance_of_constant() {
    let pixels = [5u8; 9];
    let (mean, var) = compute_mean_and_var(&pixels);
    assert_eq!(value(mean), 5.0);
    assert_eq!(value(var.unwrap()), 0.0);
}

#[test]
fn test_mean_and_variance_of_one_to_nine() {
    let pixels: Vec<u8> = (1..=9).collect();
    let (mean, var) = compute_mean_and_var(&pixels);
    assert_eq!(value(mean), 5.0);
    assert_eq!(mean, Ratio { num: 45, den: 9 });
    // (9 * 285 - 45 * 45) / (9 * 8) = 7.5
    assert_eq!(var, Some(Ratio { num: 540, den: 72 }));
    assert_eq!(value(var.unwrap()), 7.5);
}

#[test]
fn test_mean_and_variance_with_fewer_than_two_samples() {
    // The divisor is 2 where there are fewer samples.
    let (mean, var) = compute_mean_and_var::<u16>(&[]);
    assert_eq!(mean, Ratio { num: 0, den: 2 });
    assert_eq!(var, Some(Ratio { num: 0, den: 2 }));
    let (mean, var) = compute_mean_and_var(&[10u16]);
    assert_eq!(mean, Ratio { num: 10, den: 2 });
    // 2 * 100 - 10 * 10 over 2 * 1
    assert_eq!(var, Some(Ratio { num: 100, den: 2 }));
}

#[test]
fn test_variance_of_two_samples() {
    let (mean, var) = compute_mean_and_var(&[0u16, 65535]);
    assert_eq!(mean, Ratio { num: 65535, den: 2 });
    assert_eq!(var, Some(Ratio { num: 65535 * 65535, den: 2 }));
}

#[test]
fn test_plot_ranges() {
    let bins: Vec<i32> = (0..=256).map(|i| i * 16).collect();
    let mut counts = vec![0; 257];
    counts[3] = 1000;
    counts[7] = 12;
    assert_eq!(
        plot_ranges(&bins, &counts),
        Some(PlotRanges { x_min: 0, x_max: 4096, y_min: 0, y_max: 1024 })
    );
    counts[3] = 1024;
    assert_eq!(plot_ranges(&bins, &counts).unwrap().y_max, 1024);
    counts[3] = 1025;
    assert_eq!(plot_ranges(&bins, &counts).unwrap().y_max, 2048);
}

#[test]
fn test_plot_ranges_edge_cases() {
    assert_eq!(plot_ranges(&vec![], &vec![]), None);
    assert_eq!(plot_ranges(&vec![1], &vec![]), None);
    assert_eq!(plot_ranges(&vec![], &vec![1]), None);
    assert_eq!(
        plot_ranges(&vec![5, 9], &vec![0, 0]),
        Some(PlotRanges { x_min: 5, x_max: 9, y_min: 0, y_max: 0 })
    );
    assert_eq!(plot_ranges(&vec![5], &vec![1]).unwrap().y_max, 1);
}
