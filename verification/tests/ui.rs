use joymapper::battery::Tone;
use joymapper::ui::{
    connected_for_text, dark_mode_from_registry, default_start_minimized, input_display_name,
    poll_interval_ms, status_line, theme_is_dark, tray_after_frame, tray_message_action,
    tray_icon_handle, tray_on_connection, tray_status_code, tray_status_of_code, tray_tooltip, win11_colors,
    AppConfig, AppTheme, Rgba, TrayAction, TrayStatus, COMMAND_MESSAGE, MENU_EXIT, MENU_SHOW,
    TRAY_CALLBACK_MESSAGE, TRAY_STATUS_MESSAGE,
};

#[test]
fn palettes() {
    let dark = win11_colors(true);
    assert_eq!(dark.app_bg, Rgba { r: 32, g: 32, b: 36, a: 178 });
    assert_eq!(dark.accent, Rgba { r: 0, g: 120, b: 212, a: 255 });
    assert_eq!(dark.warning, Rgba { r: 255, g: 185, b: 0, a: 255 });
    let light = win11_colors(false);
    assert_eq!(light.text, Rgba { r: 32, g: 32, b: 32, a: 255 });
    assert_eq!(light.danger, Rgba { r: 196, g: 43, b: 28, a: 255 });
    assert_eq!(light.empty_chip, Rgba { r: 0, g: 0, b: 0, a: 14 });
}

#[test]
fn theme_choice() {
    assert_eq!(AppTheme::default(), AppTheme::System);
    assert!(theme_is_dark(AppTheme::System, true));
    assert!(!theme_is_dark(AppTheme::System, false));
    assert!(theme_is_dark(AppTheme::Dark, false));
    assert!(!theme_is_dark(AppTheme::Light, true));
    assert!(dark_mode_from_registry(Some(0)));
    assert!(!dark_mode_from_registry(Some(1)));
    assert!(dark_mode_from_registry(None));
}

#[test]
fn header_status() {
    assert_eq!(status_line(true, true), ("Paused", Tone::Warning));
    assert_eq!(status_line(false, true), ("Controller connected", Tone::Success));
    assert_eq!(status_line(false, false), ("No controller", Tone::Danger));
}

#[test]
fn connection_durations() {
    assert_eq!(connected_for_text(0), "Connected for 0s");
    assert_eq!(connected_for_text(59), "Connected for 59s");
    assert_eq!(connected_for_text(60), "Connected for 1m 0s");
    assert_eq!(connected_for_text(3599), "Connected for 59m 59s");
    assert_eq!(connected_for_text(3725), "Connected for 1h 2m 5s");
    assert_eq!(connected_for_text(90061), "Connected for 25h 1m 1s");
    assert_eq!(
        connected_for_text(u64::MAX),
        "Connected for 5124095576030431h 0m 15s"
    );
}

#[test]
fn input_labels() {
    assert_eq!(input_display_name("DPAD_UP"), "D-pad UP");
    assert_eq!(input_display_name("LS_CLICK"), "Left stick CLICK");
    assert_eq!(input_display_name("RS_RIGHT"), "Right stick RIGHT");
    assert_eq!(input_display_name("A"), "A");
    assert_eq!(input_display_name("MY_OWN_NAME"), "MY OWN NAME");
    assert_eq!(input_display_name(""), "");
}

#[test]
fn tray_states() {
    assert_eq!(tray_status_code("disconnected"), 0);
    assert_eq!(tray_status_code("ready"), 1);
    assert_eq!(tray_status_code("pressed"), 2);
    assert_eq!(tray_status_code("Ready"), 2);
    assert_eq!(tray_status_of_code(0), TrayStatus::Disconnected);
    assert_eq!(tray_status_of_code(1), TrayStatus::Ready);
    assert_eq!(tray_status_of_code(2), TrayStatus::Pressing);
    assert_eq!(tray_status_of_code(77), TrayStatus::Pressing);
    for status in [TrayStatus::Disconnected, TrayStatus::Ready, TrayStatus::Pressing] {
        assert_eq!(tray_status_of_code(status.code()), status);
    }
    assert_eq!(TrayStatus::Pressing.code(), tray_status_code("pressed"));
    assert_eq!(tray_tooltip(TrayStatus::Disconnected), "JoyMapper Pro — Disconnected");
    assert_eq!(tray_tooltip(TrayStatus::Ready), "JoyMapper Pro — Ready");
    assert_eq!(tray_tooltip(TrayStatus::Pressing), "JoyMapper Pro — Active");
}

#[test]
fn tray_messages() {
    assert_eq!(
        tray_message_action(TRAY_CALLBACK_MESSAGE, 0, 0x0202),
        TrayAction::RestoreFromClick
    );
    assert_eq!(
        tray_message_action(TRAY_CALLBACK_MESSAGE, 0, 0x7_0203),
        TrayAction::RestoreFromClick
    );
    assert_eq!(tray_message_action(TRAY_CALLBACK_MESSAGE, 0, 0x0205), TrayAction::OpenMenu);
    assert_eq!(tray_message_action(TRAY_CALLBACK_MESSAGE, 0, 0x0200), TrayAction::Ignore);
    assert_eq!(
        tray_message_action(TRAY_STATUS_MESSAGE, 1, 0),
        TrayAction::ShowStatus(TrayStatus::Ready)
    );
    assert_eq!(
        tray_message_action(TRAY_STATUS_MESSAGE, 9, 0),
        TrayAction::ShowStatus(TrayStatus::Pressing)
    );
    assert_eq!(tray_message_action(COMMAND_MESSAGE, MENU_SHOW, 0), TrayAction::RestoreFromMenu);
    assert_eq!(tray_message_action(COMMAND_MESSAGE, MENU_EXIT, 0), TrayAction::Exit);
    assert_eq!(tray_message_action(COMMAND_MESSAGE, 5, 0), TrayAction::Ignore);
    assert_eq!(tray_message_action(0x0010, 0, 0), TrayAction::Default);
}

#[test]
fn tray_updates_from_the_polling_loop() {
    assert_eq!(tray_on_connection(false, false), None);
    assert_eq!(tray_on_connection(true, true), None);
    assert_eq!(tray_on_connection(false, true), Some(TrayStatus::Ready));
    assert_eq!(tray_on_connection(true, false), Some(TrayStatus::Disconnected));
    assert_eq!(tray_after_frame(true, true, false), Some(TrayStatus::Pressing));
    assert_eq!(tray_after_frame(true, false, true), Some(TrayStatus::Ready));
    assert_eq!(tray_after_frame(false, true, true), Some(TrayStatus::Disconnected));
    assert_eq!(tray_after_frame(true, false, false), None);
    assert_eq!(poll_interval_ms(false), 4);
    assert_eq!(poll_interval_ms(true), 16);
}

#[test]
fn settings_default_to_starting_minimized() {
    assert!(default_start_minimized());
    let c: AppConfig = Default::default();
    assert!(c.start_minimized);
}

#[test]
fn tray_icons_fall_back_to_the_program_icon() {
    assert_eq!(tray_icon_handle(TrayStatus::Disconnected, 11, 12, 13, 99), 11);
    assert_eq!(tray_icon_handle(TrayStatus::Ready, 11, 12, 13, 99), 12);
    assert_eq!(tray_icon_handle(TrayStatus::Pressing, 11, 12, 13, 99), 13);
    assert_eq!(tray_icon_handle(TrayStatus::Ready, 11, 0, 13, 99), 99);
    assert_eq!(tray_icon_handle(TrayStatus::Pressing, 0, 0, 0, 0), 0);
}
