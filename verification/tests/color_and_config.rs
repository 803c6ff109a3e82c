use vis_taskbar::color::{pack_colorref, theme_channels, unpack_colorref};
use vis_taskbar::config::{default_freq_cutoff, default_log_spread, BinMergeMode, WindowType};

#[test]
fn colorref_black_and_white() {
    assert_eq!(pack_colorref(0, 0, 0), 0);
    assert_eq!(pack_colorref(255, 255, 255), 0x00FF_FFFF);
}

#[test]
fn colorref_channel_order() {
    assert_eq!(pack_colorref(0x12, 0x34, 0x56), 0x0056_3412);
    assert_eq!(unpack_colorref(0x0056_3412), (0x12, 0x34, 0x56));
}

#[test]
fn colorref_roundtrip_all_channels() {
    for r in [0u32, 1, 127, 128, 255] {
        for g in [0u32, 3, 200, 255] {
            for b in [0u32, 9, 254, 255] {
                assert_eq!(unpack_colorref(pack_colorref(r, g, b)), (r, g, b));
            }
        }
    }
}

#[test]
fn colorref_repack_keeps_low_24_bits() {
    let cr = 0xAB12_3456u32;
    let (r, g, b) = unpack_colorref(cr);
    assert_eq!(pack_colorref(r, g, b), cr & 0x00FF_FFFF);
}

#[test]
fn colorref_overlapping_channels_are_or_ed() {
    // A channel above 255 spills into the next byte, as the bit-or does.
    assert_eq!(pack_colorref(0x1FF, 0, 0), 0x1FF);
    assert_eq!(pack_colorref(0x100, 0x01, 0), 0x100);
}

#[test]
fn theme_color_is_argb() {
    assert_eq!(theme_channels(0xFF11_2233), (0x11, 0x22, 0x33));
    assert_eq!(theme_channels(0x0000_0000), (0, 0, 0));
}

#[test]
fn enum_and_field_defaults() {
    assert_eq!(WindowType::default(), WindowType::Hann);
    assert_eq!(BinMergeMode::default(), BinMergeMode::Max);
    assert_eq!(default_freq_cutoff(), 18000);
    assert!(!default_log_spread());
}
