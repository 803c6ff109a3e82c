use vis_taskbar::config::{BinMergeMode, WindowType};
use vis_taskbar::dialog::{
    ACCENT_COLOR, ACCENT_HOVER, BG_COLOR, BORDER_COLOR, ButtonPalette, CMD_EXIT, CMD_HIDE_CONFIG, CMD_SHOW_CONFIG, CMD_START, CMD_STOP, ColorSlot, IDC_APPLY, IDC_BARS, IDC_BOTTOM_COLOR_BTN, IDC_BOTTOM_COLOR_SWATCH, IDC_CLOSE, IDC_LOG_SPREAD, IDC_MERGE_AVG, IDC_PEAK_COLOR_BTN, IDC_PEAK_COLOR_SWATCH, IDC_RESET, IDC_RESTART, IDC_SECTION_ADVANCED, IDC_SECTION_COLORS, IDC_SECTION_DISPLAY, IDC_SECTION_TIMING, IDC_SLEEP_LABEL, IDC_TOP_COLOR_BTN, IDC_TOP_COLOR_SWATCH, IDC_WINDOW_HAMMING, OVERLAY_COLOR, SURFACE_COLOR, StaticRole, TEXT_COLOR, TrayAction, UiCommand, WM_CONTEXTMENU, WM_LBUTTONDBLCLK, WM_RBUTTONDOWN, bin_merge_control, bin_merge_from_radio, button_has_focus, button_palette, command_action, context_menu_commands, decode_command, merge_radio_states, static_role, tooltip_units, tray_action, window_radio_states, window_type_control, window_type_from_radios,
};

#[test]
fn command_words_are_split() {
    assert_eq!(decode_command(0x0000_03EA), (1002, 0));
    assert_eq!(decode_command(0x0005_03EA), (1002, 5));
    assert_eq!(decode_command(0x1234_5678), (0x5678, 0x1234));
}

#[test]
fn commands_map_to_actions() {
    assert_eq!(command_action(IDC_BARS, 0), UiCommand::ToggleBars);
    assert_eq!(command_action(IDC_BARS, 1), UiCommand::Ignore);
    assert_eq!(command_action(IDC_TOP_COLOR_BTN, 0), UiCommand::PickColor(ColorSlot::Top));
    assert_eq!(command_action(IDC_BOTTOM_COLOR_BTN, 0), UiCommand::PickColor(ColorSlot::Bottom));
    assert_eq!(command_action(IDC_PEAK_COLOR_BTN, 3), UiCommand::PickColor(ColorSlot::Peaks));
    assert_eq!(command_action(IDC_APPLY, 0), UiCommand::Apply);
    assert_eq!(command_action(IDC_RESET, 0), UiCommand::Reset);
    assert_eq!(command_action(IDC_CLOSE, 0), UiCommand::Close);
    assert_eq!(command_action(IDC_RESTART, 0), UiCommand::Restart);
    assert_eq!(command_action(CMD_SHOW_CONFIG, 0), UiCommand::ShowConfig);
    assert_eq!(command_action(CMD_HIDE_CONFIG, 0), UiCommand::HideConfig);
    assert_eq!(command_action(CMD_START, 0), UiCommand::Start);
    assert_eq!(command_action(CMD_STOP, 0), UiCommand::Stop);
    assert_eq!(command_action(CMD_EXIT, 0), UiCommand::Exit);
    assert_eq!(command_action(IDC_WINDOW_HAMMING, 0), UiCommand::Ignore);
    assert_eq!(command_action(IDC_LOG_SPREAD, 0), UiCommand::Ignore);
}

#[test]
fn tray_notifications() {
    assert_eq!(tray_action(WM_LBUTTONDBLCLK as isize), TrayAction::ShowWindow);
    assert_eq!(tray_action(WM_RBUTTONDOWN as isize), TrayAction::ContextMenu);
    assert_eq!(tray_action(WM_CONTEXTMENU as isize), TrayAction::ContextMenu);
    assert_eq!(tray_action(0x0001_0000 + WM_RBUTTONDOWN as isize), TrayAction::ContextMenu);
    assert_eq!(tray_action(0x0201), TrayAction::Ignore);
    assert_eq!(tray_action(-1), TrayAction::Ignore);
}

#[test]
fn owner_drawn_buttons() {
    assert_eq!(
        button_palette(IDC_APPLY, 0),
        ButtonPalette { background: ACCENT_COLOR, text: BG_COLOR, border: ACCENT_COLOR }
    );
    assert_eq!(
        button_palette(IDC_APPLY, 1),
        ButtonPalette { background: ACCENT_HOVER, text: BG_COLOR, border: ACCENT_COLOR }
    );
    assert_eq!(
        button_palette(IDC_CLOSE, 0x10),
        ButtonPalette { background: SURFACE_COLOR, text: TEXT_COLOR, border: BORDER_COLOR }
    );
    assert_eq!(
        button_palette(IDC_CLOSE, 0x11),
        ButtonPalette { background: OVERLAY_COLOR, text: TEXT_COLOR, border: BORDER_COLOR }
    );
    assert!(button_has_focus(0x10));
    assert!(button_has_focus(0x11));
    assert!(!button_has_focus(0x01));
}

#[test]
fn static_controls() {
    assert_eq!(static_role(IDC_TOP_COLOR_SWATCH), StaticRole::Swatch(ColorSlot::Top));
    assert_eq!(static_role(IDC_BOTTOM_COLOR_SWATCH), StaticRole::Swatch(ColorSlot::Bottom));
    assert_eq!(static_role(IDC_PEAK_COLOR_SWATCH), StaticRole::Swatch(ColorSlot::Peaks));
    assert_eq!(static_role(IDC_SECTION_DISPLAY), StaticRole::Section);
    assert_eq!(static_role(IDC_SECTION_TIMING), StaticRole::Section);
    assert_eq!(static_role(IDC_SECTION_COLORS), StaticRole::Section);
    assert_eq!(static_role(IDC_SECTION_ADVANCED), StaticRole::Text);
    assert_eq!(static_role(IDC_SLEEP_LABEL), StaticRole::Text);
}

#[test]
fn radio_buttons_roundtrip() {
    for w in [WindowType::Hann, WindowType::Hamming, WindowType::BlackmanHarris] {
        let (_, hamming, bh) = window_radio_states(w);
        assert_eq!(window_type_from_radios(hamming, bh), w);
    }
    for m in [BinMergeMode::Max, BinMergeMode::Average] {
        let (_, avg) = merge_radio_states(m);
        assert_eq!(bin_merge_from_radio(avg), m);
    }
    assert_eq!(window_type_control(WindowType::Hamming), IDC_WINDOW_HAMMING);
    assert_eq!(bin_merge_control(BinMergeMode::Average), IDC_MERGE_AVG);
    assert_eq!(window_type_from_radios(true, true), WindowType::Hamming);
    assert_eq!(window_type_from_radios(false, false), WindowType::Hann);
}

#[test]
fn tray_menu_entries() {
    assert_eq!(context_menu_commands(true), vec![CMD_SHOW_CONFIG, CMD_STOP, CMD_EXIT]);
    assert_eq!(context_menu_commands(false), vec![CMD_SHOW_CONFIG, CMD_START, CMD_EXIT]);
}

#[test]
fn tooltip_is_cut_and_padded() {
    let t = tooltip_units(b"vis_taskbar\0", 128);
    assert_eq!(t.len(), 128);
    assert_eq!(t[0], b'v' as u16);
    assert_eq!(t[10], b'r' as u16);
    assert!(t[11..].iter().all(|&u| u == 0));
    assert_eq!(tooltip_units(b"abc", 2), vec![b'a' as u16, b'b' as u16]);
}
