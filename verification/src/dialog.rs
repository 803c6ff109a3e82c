use vstd::prelude::*;
use crate::config::{BinMergeMode, WindowType};

verus! {

// Control identifiers of the settings dialog.
pub const IDC_BARS: u32 = 1002;
pub const IDC_SLEEP_LABEL: u32 = 1003;
pub const IDC_SLEEP_EDIT: u32 = 1004;
pub const IDC_STEP_LABEL: u32 = 1005;
pub const IDC_STEP_EDIT: u32 = 1006;
pub const IDC_TOP_COLOR_BTN: u32 = 1010;
pub const IDC_BOTTOM_COLOR_BTN: u32 = 1011;
pub const IDC_PEAK_COLOR_BTN: u32 = 1012;
pub const IDC_TOP_COLOR_SWATCH: u32 = 1020;
pub const IDC_BOTTOM_COLOR_SWATCH: u32 = 1021;
pub const IDC_PEAK_COLOR_SWATCH: u32 = 1022;
pub const IDC_APPLY: u32 = 1030;
pub const IDC_RESET: u32 = 1031;
pub const IDC_CLOSE: u32 = 1032;
pub const IDC_RESTART: u32 = 1033;
pub const IDC_SECTION_DISPLAY: u32 = 1040;
pub const IDC_SECTION_TIMING: u32 = 1041;
pub const IDC_SECTION_COLORS: u32 = 1042;
pub const IDC_TOP_COLOR_LABEL: u32 = 1043;
pub const IDC_BOTTOM_COLOR_LABEL: u32 = 1044;
pub const IDC_PEAK_COLOR_LABEL: u32 = 1045;
pub const IDC_PREVIEW: u32 = 1050;
pub const IDC_SECTION_ADVANCED: u32 = 1060;
pub const IDC_WINDOW_HANN: u32 = 1061;
pub const IDC_WINDOW_HAMMING: u32 = 1062;
pub const IDC_WINDOW_BH: u32 = 1063;
pub const IDC_CUTOFF_LABEL: u32 = 1064;
pub const IDC_CUTOFF_EDIT: u32 = 1065;
pub const IDC_MERGE_MAX: u32 = 1066;
pub const IDC_MERGE_AVG: u32 = 1067;
pub const IDC_LOG_SPREAD: u32 = 1068;
pub const IDC_GAIN_LABEL: u32 = 1069;
pub const IDC_GAIN_EDIT: u32 = 1070;
pub const IDC_WINDOW_LABEL: u32 = 1071;
pub const IDC_MERGE_LABEL: u32 = 1072;

// Messages and commands of the tray icon (WM_APP and the ones after it).
pub const WM_APP: u32 = 0x8000;
pub const TRAY_MSG: u32 = 0x8000;
pub const CMD_SHOW_CONFIG: u32 = 0x8001;
pub const CMD_HIDE_CONFIG: u32 = 0x8002;
pub const CMD_START: u32 = 0x8003;
pub const CMD_STOP: u32 = 0x8004;
pub const CMD_EXIT: u32 = 0x8005;

// Mouse notifications that the tray icon forwards.
pub const WM_CONTEXTMENU: u32 = 0x007B;
pub const WM_LBUTTONDBLCLK: u32 = 0x0203;
pub const WM_RBUTTONDOWN: u32 = 0x0204;

// Dark theme colours as COLORREF (0x00BBGGRR).
pub const BG_COLOR: u32 = 0x0028201E;
pub const SURFACE_COLOR: u32 = 0x00362A28;
pub const OVERLAY_COLOR: u32 = 0x00211816;
pub const TEXT_COLOR: u32 = 0x00EDEAE8;
pub const TEXT_DIM: u32 = 0x00A6A09A;
pub const ACCENT_COLOR: u32 = 0x00F8B48A;
pub const ACCENT_HOVER: u32 = 0x00FACBAE;
pub const BORDER_COLOR: u32 = 0x004A3B38;

/// Which of the three configurable colours a control stands for.
#[derive(Debug, Clone, Copy, PartialEq, Eq, Structural)]
pub enum ColorSlot {
    Top,
    Bottom,
    Peaks,
}

/// What the settings window does for a WM_COMMAND.
#[derive(Debug, Clone, Copy, PartialEq, Eq, Structural)]
pub enum UiCommand {
    ToggleBars,
    PickColor(ColorSlot),
    Apply,
    Reset,
    Close,
    Restart,
    ShowConfig,
    HideConfig,
    Start,
    Stop,
    Exit,
    Ignore,
}

/// What the settings window does for a notification of the tray icon.
#[derive(Debug, Clone, Copy, PartialEq, Eq, Structural)]
pub enum TrayAction {
    ShowWindow,
    ContextMenu,
    Ignore,
}

/// How a static control of the settings window is coloured.
#[derive(Debug, Clone, Copy, PartialEq, Eq, Structural)]
pub enum StaticRole {
    Swatch(ColorSlot),
    Section,
    Text,
}

/// Background, text and border colour of an owner-drawn button.
#[derive(Debug, Clone, Copy, PartialEq, Eq, Structural)]
pub struct ButtonPalette {
    pub background: u32,
    pub text: u32,
    pub border: u32,
}

/// The command that control `cmd` sends with notification code `notify`:
/// the bar-mode checkbox counts only when clicked (code 0); every other
/// control counts whatever the code.
pub open spec fn command_for(cmd: u32, notify: u32) -> UiCommand {
    if cmd == IDC_BARS {
        if notify == 0 {
            UiCommand::ToggleBars
        } else {
            UiCommand::Ignore
        }
    } else if cmd == IDC_TOP_COLOR_BTN {
        UiCommand::PickColor(ColorSlot::Top)
    } else if cmd == IDC_BOTTOM_COLOR_BTN {
        UiCommand::PickColor(ColorSlot::Bottom)
    } else if cmd == IDC_PEAK_COLOR_BTN {
        UiCommand::PickColor(ColorSlot::Peaks)
    } else if cmd == IDC_APPLY {
        UiCommand::Apply
    } else if cmd == IDC_RESET {
        UiCommand::Reset
    } else if cmd == IDC_CLOSE {
        UiCommand::Close
    } else if cmd == IDC_RESTART {
        UiCommand::Restart
    } else if cmd == CMD_SHOW_CONFIG {
        UiCommand::ShowConfig
    } else if cmd == CMD_HIDE_CONFIG {
        UiCommand::HideConfig
    } else if cmd == CMD_START {
        UiCommand::Start
    } else if cmd == CMD_STOP {
        UiCommand::Stop
    } else if cmd == CMD_EXIT {
        UiCommand::Exit
    } else {
        UiCommand::Ignore
    }
}

/// Splits the WPARAM of a WM_COMMAND into the control identifier (low word)
/// and the notification code (high word).
pub fn decode_command(wparam: usize) -> (r: (u32, u32))
    ensures
        r.0 == wparam % 65536,
        r.1 == (wparam / 65536) % 65536,
{
    let low = wparam & 0xFFFFusize;
    let high = (wparam >> 16usize) & 0xFFFFusize;
    assert(low == wparam % 65536 && high == (wparam / 65536) % 65536) by (bit_vector)
        requires
            low == wparam & 0xFFFFusize,
            high == (wparam >> 16usize) & 0xFFFFusize,
    ;
    (low as u32, high as u32)
}

/// The command for control `cmd` and notification code `notify`.
pub fn command_action(cmd: u32, notify: u32) -> (c: UiCommand)
    ensures
        c == command_for(cmd, notify),
{
    if cmd == IDC_BARS {
        if notify == 0 {
            UiCommand::ToggleBars
        } else {
            UiCommand::Ignore
        }
    } else if cmd == IDC_TOP_COLOR_BTN {
        UiCommand::PickColor(ColorSlot::Top)
    } else if cmd == IDC_BOTTOM_COLOR_BTN {
        UiCommand::PickColor(ColorSlot::Bottom)
    } else if cmd == IDC_PEAK_COLOR_BTN {
        UiCommand::PickColor(ColorSlot::Peaks)
    } else if cmd == IDC_APPLY {
        UiCommand::Apply
    } else if cmd == IDC_RESET {
        UiCommand::Reset
    } else if cmd == IDC_CLOSE {
        UiCommand::Close
    } else if cmd == IDC_RESTART {
        UiCommand::Restart
    } else if cmd == CMD_SHOW_CONFIG {
        UiCommand::ShowConfig
    } else if cmd == CMD_HIDE_CONFIG {
        UiCommand::HideConfig
    } else if cmd == CMD_START {
        UiCommand::Start
    } else if cmd == CMD_STOP {
        UiCommand::Stop
    } else if cmd == CMD_EXIT {
        UiCommand::Exit
    } else {
        UiCommand::Ignore
    }
}

/// What a tray notification asks for: the mouse event sits in the low word
/// of the LPARAM; a double click shows the settings window, a right click or
/// a context-menu request opens the tray menu, anything else is ignored.
pub fn tray_action(lparam: isize) -> (a: TrayAction)
    ensures
        a == ({
            let event = lparam % 65536;
            if event == WM_LBUTTONDBLCLK {
                TrayAction::ShowWindow
            } else if event == WM_RBUTTONDOWN || event == WM_CONTEXTMENU {
                TrayAction::ContextMenu
            } else {
                TrayAction::Ignore
            }
        }),
{
    let masked = lparam & 0xFFFFisize;
    assert(masked == lparam % 65536 && 0 <= masked < 65536) by (bit_vector)
        requires
            masked == lparam & 0xFFFFisize,
    ;
    let event = masked as u32;
    if event == WM_LBUTTONDBLCLK {
        TrayAction::ShowWindow
    } else if event == WM_RBUTTONDOWN || event == WM_CONTEXTMENU {
        TrayAction::ContextMenu
    } else {
        TrayAction::Ignore
    }
}

/// The owner-draw state has the "selected" bit (pressed button).
pub open spec fn is_pressed_state(item_state: u32) -> bool {
    item_state % 2 == 1
}

/// The owner-draw state has the "focus" bit.
pub open spec fn has_focus_state(item_state: u32) -> bool {
    (item_state / 16) % 2 == 1
}

/// Colours of owner-drawn button `id` in owner-draw state `item_state`: the
/// Apply button is drawn in the accent colour (lighter while pressed), the
/// others on the surface colour (the overlay colour while pressed).
pub fn button_palette(id: u32, item_state: u32) -> (p: ButtonPalette)
    ensures
        p == (if id == IDC_APPLY {
            ButtonPalette {
                background: if is_pressed_state(item_state) {
                    ACCENT_HOVER
                } else {
                    ACCENT_COLOR
                },
                text: BG_COLOR,
                border: ACCENT_COLOR,
            }
        } else {
            ButtonPalette {
                background: if is_pressed_state(item_state) {
                    OVERLAY_COLOR
                } else {
                    SURFACE_COLOR
                },
                text: TEXT_COLOR,
                border: BORDER_COLOR,
            }
        }),
{
    let pressed = (item_state & 0x0001u32) != 0;
    assert(((item_state & 0x0001u32) != 0) == (item_state % 2 == 1)) by (bit_vector);
    if id == IDC_APPLY {
        if pressed {
            ButtonPalette { background: ACCENT_HOVER, text: BG_COLOR, border: ACCENT_COLOR }
        } else {
            ButtonPalette { background: ACCENT_COLOR, text: BG_COLOR, border: ACCENT_COLOR }
        }
    } else if pressed {
        ButtonPalette { background: OVERLAY_COLOR, text: TEXT_COLOR, border: BORDER_COLOR }
    } else {
        ButtonPalette { background: SURFACE_COLOR, text: TEXT_COLOR, border: BORDER_COLOR }
    }
}

/// Whether an owner-drawn button in state `item_state` gets a focus
/// rectangle.
pub fn button_has_focus(item_state: u32) -> (f: bool)
    ensures
        f == has_focus_state(item_state),
{
    assert(((item_state & 0x0010u32) != 0) == ((item_state / 16) % 2 == 1)) by (bit_vector);
    (item_state & 0x0010u32) != 0
}

/// How static control `id` is coloured: the three swatches show their
/// colour, the Display, Timing and Colors headers use the accent colour, all
/// other static text is light on the dark background.
pub fn static_role(id: u32) -> (r: StaticRole)
    ensures
        r == (if id == IDC_TOP_COLOR_SWATCH {
            StaticRole::Swatch(ColorSlot::Top)
        } else if id == IDC_BOTTOM_COLOR_SWATCH {
            StaticRole::Swatch(ColorSlot::Bottom)
        } else if id == IDC_PEAK_COLOR_SWATCH {
            StaticRole::Swatch(ColorSlot::Peaks)
        } else if id == IDC_SECTION_DISPLAY || id == IDC_SECTION_TIMING || id
            == IDC_SECTION_COLORS {
            StaticRole::Section
        } else {
            StaticRole::Text
        }),
{
    if id == IDC_TOP_COLOR_SWATCH {
        StaticRole::Swatch(ColorSlot::Top)
    } else if id == IDC_BOTTOM_COLOR_SWATCH {
        StaticRole::Swatch(ColorSlot::Bottom)
    } else if id == IDC_PEAK_COLOR_SWATCH {
        StaticRole::Swatch(ColorSlot::Peaks)
    } else if id == IDC_SECTION_DISPLAY || id == IDC_SECTION_TIMING || id == IDC_SECTION_COLORS {
        StaticRole::Section
    } else {
        StaticRole::Text
    }
}

/// The radio button that stands for window type `w`.
pub open spec fn window_type_id(w: WindowType) -> u32 {
    match w {
        WindowType::Hann => IDC_WINDOW_HANN,
        WindowType::Hamming => IDC_WINDOW_HAMMING,
        WindowType::BlackmanHarris => IDC_WINDOW_BH,
    }
}

/// The radio button that stands for merge mode `m`.
pub open spec fn bin_merge_id(m: BinMergeMode) -> u32 {
    match m {
        BinMergeMode::Max => IDC_MERGE_MAX,
        BinMergeMode::Average => IDC_MERGE_AVG,
    }
}

/// The radio button to check for window type `w`.
pub fn window_type_control(w: WindowType) -> (id: u32)
    ensures
        id == window_type_id(w),
        window_type_read(id == IDC_WINDOW_HAMMING, id == IDC_WINDOW_BH) == w,
        (id == IDC_WINDOW_HANN) == (w == WindowType::Hann),
        (id == IDC_WINDOW_HAMMING) == (w == WindowType::Hamming),
        (id == IDC_WINDOW_BH) == (w == WindowType::BlackmanHarris),
{
    match w {
        WindowType::Hann => IDC_WINDOW_HANN,
        WindowType::Hamming => IDC_WINDOW_HAMMING,
        WindowType::BlackmanHarris => IDC_WINDOW_BH,
    }
}

/// The radio button to check for merge mode `m`.
pub fn bin_merge_control(m: BinMergeMode) -> (id: u32)
    ensures
        id == bin_merge_id(m),
        bin_merge_read(id == IDC_MERGE_AVG) == m,
        (id == IDC_MERGE_MAX) == (m == BinMergeMode::Max),
        (id == IDC_MERGE_AVG) == (m == BinMergeMode::Average),
{
    match m {
        BinMergeMode::Max => IDC_MERGE_MAX,
        BinMergeMode::Average => IDC_MERGE_AVG,
    }
}

/// Check states of the Hann, Hamming and Blackman-Harris radio buttons that
/// show window type `w`: exactly the one for `w` is checked.
pub fn window_radio_states(w: WindowType) -> (s: (bool, bool, bool))
    ensures
        s.0 == (w == WindowType::Hann),
        s.1 == (w == WindowType::Hamming),
        s.2 == (w == WindowType::BlackmanHarris),
{
    (w == WindowType::Hann, w == WindowType::Hamming, w == WindowType::BlackmanHarris)
}

/// Check states of the Max and Average radio buttons that show merge mode
/// `m`.
pub fn merge_radio_states(m: BinMergeMode) -> (s: (bool, bool))
    ensures
        s.0 == (m == BinMergeMode::Max),
        s.1 == (m == BinMergeMode::Average),
{
    (m == BinMergeMode::Max, m == BinMergeMode::Average)
}

/// The window type read from the radio buttons: Hamming if its button is
/// checked, else Blackman-Harris if that one is, else Hann.
pub open spec fn window_type_read(hamming: bool, blackman_harris: bool) -> WindowType {
    if hamming {
        WindowType::Hamming
    } else if blackman_harris {
        WindowType::BlackmanHarris
    } else {
        WindowType::Hann
    }
}

/// The merge mode read from the radio buttons: Average if its button is
/// checked, else Max.
pub open spec fn bin_merge_read(average: bool) -> BinMergeMode {
    if average {
        BinMergeMode::Average
    } else {
        BinMergeMode::Max
    }
}

/// The window type that Apply reads from the radio buttons: Hamming if its
/// button is checked, else Blackman-Harris if that one is, else Hann.
pub fn window_type_from_radios(hamming: bool, blackman_harris: bool) -> (w: WindowType)
    ensures
        w == window_type_read(hamming, blackman_harris),
{
    if hamming {
        WindowType::Hamming
    } else if blackman_harris {
        WindowType::BlackmanHarris
    } else {
        WindowType::Hann
    }
}

/// The merge mode that Apply reads from the radio buttons: Average if its
/// button is checked, else Max.
pub fn bin_merge_from_radio(average: bool) -> (m: BinMergeMode)
    ensures
        m == bin_merge_read(average),
{
    if average {
        BinMergeMode::Average
    } else {
        BinMergeMode::Max
    }
}

/// Law: the window type shown by the radio buttons is the one that Apply
/// reads back.
pub proof fn lemma_window_radio_roundtrip(w: WindowType)
    ensures
        window_type_read(w == WindowType::Hamming, w == WindowType::BlackmanHarris) == w,
{
}

/// Law: the radio button that the settings window checks for a window type
/// is the button of that type, and Apply reads that type back from it.
pub proof fn lemma_window_control_roundtrip(w: WindowType)
    ensures
        window_type_read(
            window_type_id(w) == IDC_WINDOW_HAMMING,
            window_type_id(w) == IDC_WINDOW_BH,
        ) == w,
        (window_type_id(w) == IDC_WINDOW_HANN) == (w == WindowType::Hann),
        (window_type_id(w) == IDC_WINDOW_HAMMING) == (w == WindowType::Hamming),
        (window_type_id(w) == IDC_WINDOW_BH) == (w == WindowType::BlackmanHarris),
{
}

/// Law: the radio button that the settings window checks for a merge mode
/// is the button of that mode, and Apply reads that mode back from it.
pub proof fn lemma_merge_control_roundtrip(m: BinMergeMode)
    ensures
        bin_merge_read(bin_merge_id(m) == IDC_MERGE_AVG) == m,
        (bin_merge_id(m) == IDC_MERGE_MAX) == (m == BinMergeMode::Max),
        (bin_merge_id(m) == IDC_MERGE_AVG) == (m == BinMergeMode::Average),
{
}

/// Law: the merge mode shown by the radio buttons is the one that Apply reads
/// back.
pub proof fn lemma_merge_radio_roundtrip(m: BinMergeMode)
    ensures
        bin_merge_read(m == BinMergeMode::Average) == m,
{
}

/// The commands of the tray menu, top to bottom: show the settings, then stop
/// or start the visualizer (stop while it runs), then exit.
pub fn context_menu_commands(is_running: bool) -> (cmds: Vec<u32>)
    ensures
        cmds@ == seq![CMD_SHOW_CONFIG, if is_running { CMD_STOP } else { CMD_START }, CMD_EXIT],
{
    let mut cmds: Vec<u32> = Vec::new();
    cmds.push(CMD_SHOW_CONFIG);
    if is_running {
        cmds.push(CMD_STOP);
    } else {
        cmds.push(CMD_START);
    }
    cmds.push(CMD_EXIT);
    assert(cmds@ =~= seq![CMD_SHOW_CONFIG, if is_running { CMD_STOP } else { CMD_START }, CMD_EXIT]);
    cmds
}

/// The tray tooltip buffer of `capacity` UTF-16 units holding the bytes of
/// `text` widened one by one; units past the text, or bytes past the buffer,
/// are dropped and the rest is zero.
pub fn tooltip_units(text: &[u8], capacity: usize) -> (units: Vec<u16>)
    ensures
        units@.len() == capacity,
        forall|i: int|
            0 <= i < capacity ==> #[trigger] units@[i] == if i < text@.len() {
                text@[i] as u16
            } else {
                0u16
            },
{
    let mut units: Vec<u16> = Vec::new();
    let mut i: usize = 0;
    while i < capacity
        invariant
            i <= capacity,
            units@.len() == i,
            forall|j: int|
                0 <= j < i ==> #[trigger] units@[j] == if j < text@.len() {
                    text@[j] as u16
                } else {
                    0u16
                },
        decreases capacity - i,
    {
        if i < text.len() {
            units.push(text[i] as u16);
        } else {
            units.push(0);
        }
        i = i + 1;
    }
    units
}

} // verus!
