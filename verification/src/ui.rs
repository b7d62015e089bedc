//! Presentation decisions of the window and the tray icon: palettes and
//! theme, status and duration texts, input labels, and what each tray-window
//! message asks for.
use vstd::prelude::*;
use crate::battery::Tone;
use crate::text::{chars_of, decimal, push_decimal, replace_all, replace_chars, string_of};

verus! {

/// A colour as straight red, green, blue and alpha.
#[derive(Clone, Copy, Debug, PartialEq, Eq, Structural)]
pub struct Rgba {
    pub r: u8,
    pub g: u8,
    pub b: u8,
    pub a: u8,
}

/// The colours of the window in one theme, each as straight (not premultiplied) RGBA.
#[derive(Clone, Copy, Debug, PartialEq, Eq, Structural)]
pub struct Palette {
    pub app_bg: Rgba,
    pub surface: Rgba,
    pub surface_alt: Rgba,
    pub row_hover: Rgba,
    pub row_active: Rgba,
    pub border: Rgba,
    pub text: Rgba,
    pub muted: Rgba,
    pub accent: Rgba,
    pub accent_soft: Rgba,
    pub success: Rgba,
    pub danger: Rgba,
    pub warning: Rgba,
    pub empty_chip: Rgba,
}

/// The dark-theme palette.
pub open spec fn dark_palette() -> Palette {
    Palette {
        app_bg: Rgba { r: 32, g: 32, b: 36, a: 178 },
        surface: Rgba { r: 43, g: 43, b: 48, a: 226 },
        surface_alt: Rgba { r: 255, g: 255, b: 255, a: 13 },
        row_hover: Rgba { r: 255, g: 255, b: 255, a: 8 },
        row_active: Rgba { r: 0, g: 120, b: 212, a: 38 },
        border: Rgba { r: 255, g: 255, b: 255, a: 22 },
        text: Rgba { r: 243, g: 243, b: 243, a: 255 },
        muted: Rgba { r: 178, g: 178, b: 178, a: 255 },
        accent: Rgba { r: 0, g: 120, b: 212, a: 255 },
        accent_soft: Rgba { r: 0, g: 120, b: 212, a: 48 },
        success: Rgba { r: 108, g: 203, b: 95, a: 255 },
        danger: Rgba { r: 255, g: 99, b: 88, a: 255 },
        warning: Rgba { r: 255, g: 185, b: 0, a: 255 },
        empty_chip: Rgba { r: 255, g: 255, b: 255, a: 22 },
    }
}

/// The light-theme palette.
pub open spec fn light_palette() -> Palette {
    Palette {
        app_bg: Rgba { r: 243, g: 243, b: 243, a: 214 },
        surface: Rgba { r: 255, g: 255, b: 255, a: 235 },
        surface_alt: Rgba { r: 0, g: 0, b: 0, a: 10 },
        row_hover: Rgba { r: 0, g: 0, b: 0, a: 6 },
        row_active: Rgba { r: 0, g: 120, b: 212, a: 32 },
        border: Rgba { r: 0, g: 0, b: 0, a: 24 },
        text: Rgba { r: 32, g: 32, b: 32, a: 255 },
        muted: Rgba { r: 96, g: 96, b: 96, a: 255 },
        accent: Rgba { r: 0, g: 103, b: 192, a: 255 },
        accent_soft: Rgba { r: 0, g: 103, b: 192, a: 26 },
        success: Rgba { r: 16, g: 124, b: 16, a: 255 },
        danger: Rgba { r: 196, g: 43, b: 28, a: 255 },
        warning: Rgba { r: 157, g: 93, b: 0, a: 255 },
        empty_chip: Rgba { r: 0, g: 0, b: 0, a: 14 },
    }
}

/// The palette of the dark or the light theme.
pub fn win11_colors(is_dark: bool) -> (p: Palette)
    ensures
        p == (if is_dark { dark_palette() } else { light_palette() }),
{
    if is_dark {
        Palette {
            app_bg: Rgba { r: 32, g: 32, b: 36, a: 178 },
            surface: Rgba { r: 43, g: 43, b: 48, a: 226 },
            surface_alt: Rgba { r: 255, g: 255, b: 255, a: 13 },
            row_hover: Rgba { r: 255, g: 255, b: 255, a: 8 },
            row_active: Rgba { r: 0, g: 120, b: 212, a: 38 },
            border: Rgba { r: 255, g: 255, b: 255, a: 22 },
            text: Rgba { r: 243, g: 243, b: 243, a: 255 },
            muted: Rgba { r: 178, g: 178, b: 178, a: 255 },
            accent: Rgba { r: 0, g: 120, b: 212, a: 255 },
            accent_soft: Rgba { r: 0, g: 120, b: 212, a: 48 },
            success: Rgba { r: 108, g: 203, b: 95, a: 255 },
            danger: Rgba { r: 255, g: 99, b: 88, a: 255 },
            warning: Rgba { r: 255, g: 185, b: 0, a: 255 },
            empty_chip: Rgba { r: 255, g: 255, b: 255, a: 22 },
        }
    } else {
        Palette {
            app_bg: Rgba { r: 243, g: 243, b: 243, a: 214 },
            surface: Rgba { r: 255, g: 255, b: 255, a: 235 },
            surface_alt: Rgba { r: 0, g: 0, b: 0, a: 10 },
            row_hover: Rgba { r: 0, g: 0, b: 0, a: 6 },
            row_active: Rgba { r: 0, g: 120, b: 212, a: 32 },
            border: Rgba { r: 0, g: 0, b: 0, a: 24 },
            text: Rgba { r: 32, g: 32, b: 32, a: 255 },
            muted: Rgba { r: 96, g: 96, b: 96, a: 255 },
            accent: Rgba { r: 0, g: 103, b: 192, a: 255 },
            accent_soft: Rgba { r: 0, g: 103, b: 192, a: 26 },
            success: Rgba { r: 16, g: 124, b: 16, a: 255 },
            danger: Rgba { r: 196, g: 43, b: 28, a: 255 },
            warning: Rgba { r: 157, g: 93, b: 0, a: 255 },
            empty_chip: Rgba { r: 0, g: 0, b: 0, a: 14 },
        }
    }
}

/// The colour theme chosen in the settings.
#[derive(Clone, Copy, Debug, PartialEq, Eq, Structural)]
pub enum AppTheme {
    System,
    Light,
    Dark,
}

impl Default for AppTheme {
    /// The theme follows the Windows setting unless chosen otherwise.
    fn default() -> (t: Self)
        ensures
            t == AppTheme::System,
    {
        AppTheme::System
    }
}

/// Whether the window is drawn dark: as Windows is set for the system theme,
/// else as chosen.
pub fn theme_is_dark(theme: AppTheme, system_dark: bool) -> (dark: bool)
    ensures
        dark == match theme {
            AppTheme::System => system_dark,
            AppTheme::Dark => true,
            AppTheme::Light => false,
        },
{
    match theme {
        AppTheme::System => system_dark,
        AppTheme::Dark => true,
        AppTheme::Light => false,
    }
}

/// Whether Windows apps use the dark theme, from the `AppsUseLightTheme`
/// registry value: dark when the value is 0 and when it cannot be read.
pub fn dark_mode_from_registry(apps_use_light_theme: Option<u32>) -> (dark: bool)
    ensures
        dark == match apps_use_light_theme {
            Some(v) => v == 0,
            None => true,
        },
{
    match apps_use_light_theme {
        Some(v) => v == 0,
        None => true,
    }
}

/// The status shown in the header and its tone.
pub fn status_line(paused: bool, connected: bool) -> (r: (&'static str, Tone))
    ensures
        paused ==> r.0@ == "Paused"@ && r.1 == Tone::Warning,
        !paused && connected ==> r.0@ == "Controller connected"@ && r.1 == Tone::Success,
        !paused && !connected ==> r.0@ == "No controller"@ && r.1 == Tone::Danger,
{
    if paused {
        ("Paused", Tone::Warning)
    } else if connected {
        ("Controller connected", Tone::Success)
    } else {
        ("No controller", Tone::Danger)
    }
}

/// The text for how long the controller has been connected, in hours, minutes
/// and seconds, leaving out leading units that are zero.
pub open spec fn connected_for(secs: nat) -> Seq<char> {
    let mins = secs / 60;
    let hrs = mins / 60;
    if hrs > 0 {
        "Connected for "@ + decimal(hrs) + "h "@ + decimal(mins % 60) + "m "@ + decimal(secs % 60)
            + "s"@
    } else if mins > 0 {
        "Connected for "@ + decimal(mins) + "m "@ + decimal(secs % 60) + "s"@
    } else {
        "Connected for "@ + decimal(secs) + "s"@
    }
}

/// The text for a connection of `secs` seconds.
pub fn connected_for_text(secs: u64) -> (r: String)
    ensures
        r@ == connected_for(secs as nat),
{
    let mins = secs / 60;
    let hrs = mins / 60;
    let mut s = String::from_str("Connected for ");
    if hrs > 0 {
        push_decimal(&mut s, (hrs) as u128);
        s.append("h ");
        push_decimal(&mut s, (mins % 60) as u128);
        s.append("m ");
        push_decimal(&mut s, (secs % 60) as u128);
        s.append("s");
    } else if mins > 0 {
        push_decimal(&mut s, (mins) as u128);
        s.append("m ");
        push_decimal(&mut s, (secs % 60) as u128);
        s.append("s");
    } else {
        push_decimal(&mut s, (secs) as u128);
        s.append("s");
    }
    s
}

/// The label of a controller input: the `DPAD_`, `LS_` and `RS_` prefixes
/// spelled out and underscores turned into spaces.
pub open spec fn input_label(raw: Seq<char>) -> Seq<char> {
    replace_all(
        replace_all(
            replace_all(replace_all(raw, "DPAD_"@, "D-pad "@), "LS_"@, "Left stick "@),
            "RS_"@,
            "Right stick "@,
        ),
        "_"@,
        " "@,
    )
}

/// The label shown for the controller input named `raw`.
pub fn input_display_name(raw: &str) -> (r: String)
    ensures
        r@ == input_label(raw@),
{
    let v = chars_of(raw);
    let dpad = chars_of("DPAD_");
    let ls = chars_of("LS_");
    let rs = chars_of("RS_");
    let under = chars_of("_");
    proof {
        reveal_strlit("DPAD_");
        reveal_strlit("LS_");
        reveal_strlit("RS_");
        reveal_strlit("_");
    }
    let a = replace_chars(v.as_slice(), dpad.as_slice(), chars_of("D-pad ").as_slice());
    let b = replace_chars(a.as_slice(), ls.as_slice(), chars_of("Left stick ").as_slice());
    let c = replace_chars(b.as_slice(), rs.as_slice(), chars_of("Right stick ").as_slice());
    let d = replace_chars(c.as_slice(), under.as_slice(), chars_of(" ").as_slice());
    string_of(d.as_slice())
}

/// The tray icon's three states.
#[derive(Clone, Copy, Debug, PartialEq, Eq, Structural)]
pub enum TrayStatus {
    Disconnected,
    Ready,
    Pressing,
}

/// The state code sent to the tray window: 0, 1 or 2.
pub open spec fn tray_code(status: TrayStatus) -> usize {
    match status {
        TrayStatus::Disconnected => 0,
        TrayStatus::Ready => 1,
        TrayStatus::Pressing => 2,
    }
}

impl TrayStatus {
    /// The state code that asks the tray window to show this state.
    pub fn code(self) -> (c: usize)
        ensures
            c == tray_code(self),
    {
        match self {
            TrayStatus::Disconnected => 0,
            TrayStatus::Ready => 1,
            TrayStatus::Pressing => 2,
        }
    }
}

/// The state code for a status word: `disconnected`, `ready`, anything else pressing.
pub fn tray_status_code(status: &str) -> (code: usize)
    ensures
        code == (if status@ == "disconnected"@ { 0usize } else if status@ == "ready"@ { 1usize } else { 2usize }),
{
    let v = chars_of(status);
    if crate::text::chars_eq_str(v.as_slice(), "disconnected") {
        0
    } else if crate::text::chars_eq_str(v.as_slice(), "ready") {
        1
    } else {
        2
    }
}

/// The state that a state code stands for: 0 disconnected, 1 ready, anything else pressing.
pub fn tray_status_of_code(code: usize) -> (s: TrayStatus)
    ensures
        code == 0 ==> s == TrayStatus::Disconnected,
        code == 1 ==> s == TrayStatus::Ready,
        code >= 2 ==> s == TrayStatus::Pressing,
        tray_code(s) == (if code <= 2 { code } else { 2 }),
{
    if code == 0 {
        TrayStatus::Disconnected
    } else if code == 1 {
        TrayStatus::Ready
    } else {
        TrayStatus::Pressing
    }
}

/// The tray tooltip for a state.
pub fn tray_tooltip(status: TrayStatus) -> (r: &'static str)
    ensures
        r@ == match status {
            TrayStatus::Disconnected => "JoyMapper Pro \u{2014} Disconnected"@,
            TrayStatus::Ready => "JoyMapper Pro \u{2014} Ready"@,
            TrayStatus::Pressing => "JoyMapper Pro \u{2014} Active"@,
        },
{
    match status {
        TrayStatus::Disconnected => "JoyMapper Pro \u{2014} Disconnected",
        TrayStatus::Ready => "JoyMapper Pro \u{2014} Ready",
        TrayStatus::Pressing => "JoyMapper Pro \u{2014} Active",
    }
}

/// The icon handle shown for a tray state: the state's own icon, or the
/// program's icon when the state's icon did not load (handle 0).
pub open spec fn tray_icon_for(status: TrayStatus, dis: usize, ready: usize, pressing: usize, app_icon: usize) -> usize {
    let own = match status {
        TrayStatus::Disconnected => dis,
        TrayStatus::Ready => ready,
        TrayStatus::Pressing => pressing,
    };
    if own == 0 {
        app_icon
    } else {
        own
    }
}

/// Picks the icon handle to show for `status` from the loaded handles.
pub fn tray_icon_handle(status: TrayStatus, dis: usize, ready: usize, pressing: usize, app_icon: usize) -> (h: usize)
    ensures
        h == tray_icon_for(status, dis, ready, pressing, app_icon),
{
    let own = match status {
        TrayStatus::Disconnected => dis,
        TrayStatus::Ready => ready,
        TrayStatus::Pressing => pressing,
    };
    if own == 0 {
        app_icon
    } else {
        own
    }
}

/// The window message that the tray icon sends on mouse events.
pub const TRAY_CALLBACK_MESSAGE: u32 = 0x0401;

/// The window message that asks the tray window to show another state.
pub const TRAY_STATUS_MESSAGE: u32 = 0x0402;

/// The window message of a menu command.
pub const COMMAND_MESSAGE: u32 = 0x0111;

/// The menu command that shows the main window.
pub const MENU_SHOW: usize = 101;

/// The menu command that ends the program.
pub const MENU_EXIT: usize = 102;

/// What the tray window does with one message.
#[derive(Clone, Copy, Debug, PartialEq, Eq, Structural)]
pub enum TrayAction {
    /// Restore and focus the main window, and wake the interface even when there is no window yet.
    RestoreFromClick,
    /// Open the tray menu with its two commands.
    OpenMenu,
    /// Show the icon and tooltip of a state.
    ShowStatus(TrayStatus),
    /// Restore and focus the main window and wake the interface, when there is a window.
    RestoreFromMenu,
    /// End the program.
    Exit,
    /// Nothing to do; the message counts as handled.
    Ignore,
    /// Leave the message to the default window procedure.
    Default,
}

/// What the tray window does with the message `msg` and its parameters.
pub fn tray_message_action(msg: u32, wparam: usize, lparam: isize) -> (a: TrayAction)
    ensures
        msg == TRAY_CALLBACK_MESSAGE ==> a == (if (lparam as u32) & 0xFFFF == 0x0202 || (lparam as u32) & 0xFFFF == 0x0203 {
            TrayAction::RestoreFromClick
        } else if (lparam as u32) & 0xFFFF == 0x0205 {
            TrayAction::OpenMenu
        } else {
            TrayAction::Ignore
        }),
        msg == TRAY_STATUS_MESSAGE ==> a == TrayAction::ShowStatus(
            if wparam == 0 {
                TrayStatus::Disconnected
            } else if wparam == 1 {
                TrayStatus::Ready
            } else {
                TrayStatus::Pressing
            },
        ),
        msg == COMMAND_MESSAGE ==> a == (if wparam == MENU_SHOW {
            TrayAction::RestoreFromMenu
        } else if wparam == MENU_EXIT {
            TrayAction::Exit
        } else {
            TrayAction::Ignore
        }),
        msg != TRAY_CALLBACK_MESSAGE && msg != TRAY_STATUS_MESSAGE && msg != COMMAND_MESSAGE ==> a
            == TrayAction::Default,
{
    if msg == TRAY_CALLBACK_MESSAGE {
        let event = (lparam as u32) & 0xFFFF;
        if event == 0x0202 || event == 0x0203 {
            TrayAction::RestoreFromClick
        } else if event == 0x0205 {
            TrayAction::OpenMenu
        } else {
            TrayAction::Ignore
        }
    } else if msg == TRAY_STATUS_MESSAGE {
        TrayAction::ShowStatus(tray_status_of_code(wparam))
    } else if msg == COMMAND_MESSAGE {
        if wparam == MENU_SHOW {
            TrayAction::RestoreFromMenu
        } else if wparam == MENU_EXIT {
            TrayAction::Exit
        } else {
            TrayAction::Ignore
        }
    } else {
        TrayAction::Default
    }
}

/// The tray state to show after a change of connection, if the connection changed.
pub fn tray_on_connection(was_connected: bool, connected: bool) -> (r: Option<TrayStatus>)
    ensures
        r == (if was_connected == connected {
            None
        } else if connected {
            Some(TrayStatus::Ready)
        } else {
            Some(TrayStatus::Disconnected)
        }),
{
    if was_connected == connected {
        None
    } else if connected {
        Some(TrayStatus::Ready)
    } else {
        Some(TrayStatus::Disconnected)
    }
}

/// The tray state to show at the end of a frame: pressing when an input
/// changed, else a refresh of ready or disconnected once the last update is
/// more than a second old.
pub fn tray_after_frame(connected: bool, changed: bool, update_stale: bool) -> (r: Option<TrayStatus>)
    ensures
        r == (if connected && changed {
            Some(TrayStatus::Pressing)
        } else if update_stale {
            Some(if connected { TrayStatus::Ready } else { TrayStatus::Disconnected })
        } else {
            None
        }),
{
    if connected && changed {
        Some(TrayStatus::Pressing)
    } else if update_stale {
        Some(
            if connected {
                TrayStatus::Ready
            } else {
                TrayStatus::Disconnected
            },
        )
    } else {
        None
    }
}

/// The polling period in milliseconds: 16 after ten idle minutes, else 4.
pub fn poll_interval_ms(idle: bool) -> (ms: u64)
    ensures
        ms == (if idle { 16u64 } else { 4u64 }),
{
    if idle {
        16
    } else {
        4
    }
}

/// The settings kept between runs.
pub struct AppConfig {
    pub start_minimized: bool,
}

/// Whether the window starts hidden in the tray when the settings do not say: it does.
pub fn default_start_minimized() -> (b: bool)
    ensures
        b,
{
    true
}

impl Default for AppConfig {
    fn default() -> (c: Self)
        ensures
            c.start_minimized,
    {
        AppConfig { start_minimized: default_start_minimized() }
    }
}


/// The connection time reads as whole hours, minutes and seconds that add up
/// to it: with hours once it reaches an hour, with minutes once it reaches a
/// minute, and the smaller units always below 60.
pub proof fn lemma_connected_for_adds_up(secs: nat)
    ensures
        secs >= 3600 ==> exists|h: nat, m: nat, s: nat|
            h >= 1 && m < 60 && s < 60 && h * 3600 + m * 60 + s == secs && #[trigger] connected_for(secs)
                == "Connected for "@ + decimal(h) + "h "@ + decimal(m) + "m "@ + decimal(s) + "s"@,
        60 <= secs < 3600 ==> exists|m: nat, s: nat|
            m >= 1 && s < 60 && m * 60 + s == secs && #[trigger] connected_for(secs) == "Connected for "@
                + decimal(m) + "m "@ + decimal(s) + "s"@,
        secs < 60 ==> connected_for(secs) == "Connected for "@ + decimal(secs) + "s"@,
{
    let mins = secs / 60;
    let hrs = mins / 60;
    let m = mins % 60;
    let s = secs % 60;
    assert(secs == mins * 60 + s);
    assert(mins == hrs * 60 + m);
    assert(hrs * 3600 + m * 60 + s == secs) by (nonlinear_arith)
        requires
            secs == mins * 60 + s,
            mins == hrs * 60 + m,
    ;
    if secs >= 3600 {
        assert(hrs >= 1);
        assert(connected_for(secs) == "Connected for "@ + decimal(hrs) + "h "@ + decimal(m) + "m "@ + decimal(s)
            + "s"@);
    } else if secs >= 60 {
        assert(hrs == 0);
        assert(mins >= 1);
        assert(mins * 60 + s == secs);
        assert(connected_for(secs) == "Connected for "@ + decimal(mins) + "m "@ + decimal(s) + "s"@);
    }
}

/// The window colours of both themes, as straight RGBA.
pub proof fn lemma_palettes()
    ensures
        win_palette_is(dark_palette(), true),
        win_palette_is(light_palette(), false),
{
}

/// Whether `p` holds the colours of the dark (`dark`) or light theme.
pub open spec fn win_palette_is(p: Palette, dark: bool) -> bool {
    if dark {
        &&& p.app_bg == Rgba { r: 32, g: 32, b: 36, a: 178 }
        &&& p.surface == Rgba { r: 43, g: 43, b: 48, a: 226 }
        &&& p.surface_alt == Rgba { r: 255, g: 255, b: 255, a: 13 }
        &&& p.row_hover == Rgba { r: 255, g: 255, b: 255, a: 8 }
        &&& p.row_active == Rgba { r: 0, g: 120, b: 212, a: 38 }
        &&& p.border == Rgba { r: 255, g: 255, b: 255, a: 22 }
        &&& p.text == Rgba { r: 243, g: 243, b: 243, a: 255 }
        &&& p.muted == Rgba { r: 178, g: 178, b: 178, a: 255 }
        &&& p.accent == Rgba { r: 0, g: 120, b: 212, a: 255 }
        &&& p.accent_soft == Rgba { r: 0, g: 120, b: 212, a: 48 }
        &&& p.success == Rgba { r: 108, g: 203, b: 95, a: 255 }
        &&& p.danger == Rgba { r: 255, g: 99, b: 88, a: 255 }
        &&& p.warning == Rgba { r: 255, g: 185, b: 0, a: 255 }
        &&& p.empty_chip == Rgba { r: 255, g: 255, b: 255, a: 22 }
    } else {
        &&& p.app_bg == Rgba { r: 243, g: 243, b: 243, a: 214 }
        &&& p.surface == Rgba { r: 255, g: 255, b: 255, a: 235 }
        &&& p.surface_alt == Rgba { r: 0, g: 0, b: 0, a: 10 }
        &&& p.row_hover == Rgba { r: 0, g: 0, b: 0, a: 6 }
        &&& p.row_active == Rgba { r: 0, g: 120, b: 212, a: 32 }
        &&& p.border == Rgba { r: 0, g: 0, b: 0, a: 24 }
        &&& p.text == Rgba { r: 32, g: 32, b: 32, a: 255 }
        &&& p.muted == Rgba { r: 96, g: 96, b: 96, a: 255 }
        &&& p.accent == Rgba { r: 0, g: 103, b: 192, a: 255 }
        &&& p.accent_soft == Rgba { r: 0, g: 103, b: 192, a: 26 }
        &&& p.success == Rgba { r: 16, g: 124, b: 16, a: 255 }
        &&& p.danger == Rgba { r: 196, g: 43, b: 28, a: 255 }
        &&& p.warning == Rgba { r: 157, g: 93, b: 0, a: 255 }
        &&& p.empty_chip == Rgba { r: 0, g: 0, b: 0, a: 14 }
    }
}
} // verus!
