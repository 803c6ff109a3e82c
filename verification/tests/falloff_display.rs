use vis_taskbar::falloff::{Falloff, SharedFalloff};

#[test]
fn new_display_is_flat() {
    let f = Falloff::new(4);
    assert_eq!(f.data_size(), 4);
    assert_eq!(f.bars(), &[0, 0, 0, 0]);
    assert_eq!(f.peaks(), &[0, 0, 0, 0]);
}

#[test]
fn higher_input_raises_bars_and_peaks() {
    let mut f = Falloff::new(3);
    f.update_falloff(Some(&[10, 200, 0]));
    assert_eq!(f.bars(), &[10, 200, 0]);
    assert_eq!(f.peaks(), &[10, 200, 0]);
}

#[test]
fn bars_sink_by_seven_peaks_by_two() {
    let mut f = Falloff::new(2);
    f.update_falloff(Some(&[100, 5]));
    f.update_falloff(None);
    assert_eq!(f.bars(), &[93, 0]);
    assert_eq!(f.peaks(), &[98, 3]);
}

#[test]
fn equal_or_lower_input_still_sinks() {
    let mut f = Falloff::new(2);
    f.update_falloff(Some(&[50, 50]));
    f.update_falloff(Some(&[50, 48]));
    assert_eq!(f.bars(), &[43, 43]);
    assert_eq!(f.peaks(), &[48, 48]);
}

#[test]
fn peak_can_end_below_bar() {
    // bar 0, peak 5: input 4 raises the bar but the peak sinks to 3.
    let mut f = Falloff::new(1);
    f.update_falloff(Some(&[7]));
    f.update_falloff(None);
    assert_eq!(f.bars(), &[0]);
    assert_eq!(f.peaks(), &[5]);
    f.update_falloff(Some(&[4]));
    assert_eq!(f.bars(), &[4]);
    assert_eq!(f.peaks(), &[3]);
}

#[test]
fn short_frame_reads_zero_past_its_end() {
    let mut f = Falloff::new(3);
    f.update_falloff(Some(&[20, 20, 20]));
    f.update_falloff(Some(&[30]));
    assert_eq!(f.bars(), &[30, 13, 13]);
    assert_eq!(f.peaks(), &[30, 18, 18]);
}

#[test]
fn silence_clears_the_display() {
    let mut f = Falloff::new(2);
    f.update_falloff(Some(&[255, 255]));
    for _ in 0..36 {
        f.update_falloff(None);
    }
    assert_eq!(f.bars(), &[3, 3]);
    f.update_falloff(None);
    assert_eq!(f.bars(), &[0, 0]);
    for _ in 37..127 {
        f.update_falloff(None);
    }
    assert_eq!(f.peaks(), &[1, 1]);
    f.update_falloff(None);
    assert_eq!(f.peaks(), &[0, 0]);
}

#[test]
fn preview_shows_published_levels() {
    let mut taskbar = Falloff::new(4);
    taskbar.update_falloff(Some(&[1, 2, 3, 4]));
    taskbar.update_falloff(Some(&[9, 0, 0, 0]));
    let mut shared = SharedFalloff::new();
    shared.store(&taskbar);
    assert_eq!(shared.falloff, vec![9, 0, 0, 0]);
    assert_eq!(shared.peaks, vec![9, 0, 1, 2]);
    let mut preview = Falloff::new(4);
    preview.load_shared(&shared);
    assert_eq!(preview.bars(), taskbar.bars());
    assert_eq!(preview.peaks(), taskbar.peaks());
}

#[test]
fn load_shared_takes_only_what_both_have() {
    let mut preview = Falloff::new(3);
    preview.update_falloff(Some(&[50, 50, 50]));
    let shared = SharedFalloff { falloff: vec![1], peaks: vec![4, 5, 6, 7] };
    preview.load_shared(&shared);
    assert_eq!(preview.bars(), &[1, 50, 50]);
    assert_eq!(preview.peaks(), &[4, 5, 6]);
}

#[test]
fn levels_stay_within_byte_range() {
    let mut f = Falloff::new(8);
    let frames: [&[u8]; 5] = [&[255, 0, 128, 7, 255, 1, 2, 3], &[0; 8], &[255; 3], &[9, 9, 9, 9, 9, 9, 9, 9], &[]];
    for _ in 0..10 {
        for frame in frames {
            f.update_falloff(Some(frame));
            f.update_falloff(None);
            assert!(f.bars().iter().all(|&v| (0..=255).contains(&v)));
            assert!(f.peaks().iter().all(|&v| (0..=255).contains(&v)));
        }
    }
}
