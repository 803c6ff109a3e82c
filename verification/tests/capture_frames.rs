use vis_taskbar::capture::{append_samples, assemble_frame, deinterleave, merge_range, spread_range};

#[test]
fn linear_frame_cuts_above_usable_bins() {
    let left = [1u8, 2, 3, 4];
    let right = [5u8, 6, 7, 8];
    let f = assemble_frame(&left, &right, 3, 4);
    assert_eq!(f.values, vec![1, 2, 3, 0, 5, 6, 7, 0]);
}

#[test]
fn spread_frame_keeps_every_bar() {
    let f = assemble_frame(&[9, 8], &[7, 6], 2, 2);
    assert_eq!(f.values, vec![9, 8, 7, 6]);
    let g = assemble_frame(&[9, 8], &[7, 6], 10, 2);
    assert_eq!(g.values, vec![9, 8, 7, 6]);
}

#[test]
fn empty_cutoff_gives_silent_frame() {
    let f = assemble_frame(&[], &[], 0, 3);
    assert_eq!(f.values, vec![0; 6]);
}

#[test]
fn sample_buffer_fills_up_to_need() {
    let mut buf: Vec<f32> = vec![0.5];
    append_samples(&mut buf, &[1.0, 2.0, 3.0, 4.0], 3);
    assert_eq!(buf, vec![0.5, 1.0, 2.0]);
    append_samples(&mut buf, &[9.0], 3);
    assert_eq!(buf, vec![0.5, 1.0, 2.0]);
    let mut empty: Vec<f32> = Vec::new();
    append_samples(&mut empty, &[1.0, 2.0], 8);
    assert_eq!(empty, vec![1.0, 2.0]);
}

#[test]
fn deinterleaves_one_channel() {
    let stereo = [1.0f32, -1.0, 2.0, -2.0, 3.0, -3.0];
    assert_eq!(deinterleave(&stereo, 0, 2, 3, 0.0), vec![1.0, 2.0, 3.0]);
    assert_eq!(deinterleave(&stereo, 1, 2, 4, 0.0), vec![-1.0, -2.0, -3.0, 0.0]);
    assert_eq!(deinterleave(&stereo, 0, 1, 2, 0.0), vec![1.0, -1.0]);
}

#[test]
fn log_spread_ranges() {
    assert_eq!(spread_range(3, 7, 100), (3, 7));
    assert_eq!(spread_range(3, 3, 100), (3, 4));
    assert_eq!(spread_range(3, 1, 100), (3, 4));
    assert_eq!(spread_range(3, 7, 5), (3, 5));
    assert_eq!(spread_range(9, 9, 5), (9, 5));
}

#[test]
fn merged_bins_are_clamped() {
    assert_eq!(merge_range(10, 2, 5), Some((2, 5)));
    assert_eq!(merge_range(10, 8, 15), Some((8, 10)));
    assert_eq!(merge_range(10, 5, 5), None);
    assert_eq!(merge_range(10, 10, 12), None);
}
