use vis_taskbar::control::RunFlags;
use vis_taskbar::layout::{preview_bar_layout, preview_shift, taskbar_bar_layout, BarLayout};

#[test]
fn taskbar_normal_layout() {
    let l = taskbar_bar_layout(0, 0, 1920, 256, 1, false, false).unwrap();
    assert_eq!(
        l,
        BarLayout { step: 8, left_origin: 960, right_origin: 960, left_leftward: true, left_count: 119, right_count: 121 }
    );
    let b = taskbar_bar_layout(0, 0, 1920, 256, 1, true, false).unwrap();
    assert_eq!((b.left_count, b.right_count), (120, 122));
}

#[test]
fn taskbar_inverted_layout() {
    let l = taskbar_bar_layout(-10, 0, 1920, 256, 2, true, true).unwrap();
    assert_eq!(
        l,
        BarLayout { step: 16, left_origin: 10, right_origin: 1930, left_leftward: false, left_count: 61, right_count: 61 }
    );
}

#[test]
fn narrow_taskbar_caps_counts() {
    let l = taskbar_bar_layout(0, 0, 100, 256, 1, false, false).unwrap();
    assert_eq!((l.step, l.left_count, l.right_count), (1, 49, 51));
    let big = taskbar_bar_layout(0, 0, 3000, 16, 1, false, false).unwrap();
    assert_eq!((big.step, big.left_count, big.right_count), (188, 6, 7));
}

#[test]
fn zero_multiplier_fills_the_sides() {
    let l = taskbar_bar_layout(0, 0, 1920, 256, 0, false, false).unwrap();
    assert_eq!((l.step, l.left_count, l.right_count), (0, 127, 127));
    let one = taskbar_bar_layout(0, 0, 1, 256, 0, false, true).unwrap();
    assert_eq!((one.left_count, one.right_count), (0, 127));
}

#[test]
fn empty_taskbar_draws_nothing() {
    assert_eq!(taskbar_bar_layout(0, 10, 10, 256, 1, false, false), None);
    assert_eq!(taskbar_bar_layout(0, 10, 5, 256, 1, false, false), None);
    assert_eq!(taskbar_bar_layout(0, 0, 100, 0, 1, false, false), None);
}

#[test]
fn preview_layout_centres_the_virtual_taskbar() {
    let l = preview_bar_layout(420, 60, 256, 1, false).unwrap();
    assert_eq!(
        l,
        BarLayout { step: 8, left_origin: 960, right_origin: 960, left_leftward: true, left_count: 119, right_count: 121 }
    );
    assert_eq!(preview_bar_layout(0, 60, 256, 1, false), None);
    assert_eq!(preview_bar_layout(420, 0, 256, 1, false), None);
    assert_eq!(preview_shift(420), 750);
    assert_eq!(preview_shift(2001), -40);
}

#[test]
fn start_is_idempotent_and_restart_spawns() {
    let mut f = RunFlags::new();
    assert!(f.start());
    assert_eq!(f, RunFlags { is_running: true, stop: false });
    assert!(!f.start());
    f.request_stop();
    assert_eq!(f, RunFlags { is_running: false, stop: true });
    assert!(f.start());
    assert_eq!(f, RunFlags { is_running: true, stop: false });
    f.worker_exited();
    assert_eq!(f, RunFlags { is_running: false, stop: false });
    assert!(f.start());
}
