use slovo::tray::{init_tray, TrayState};

#[test]
fn tray_icons() {
    assert_eq!(TrayState::Idle.icon_name(), "icon.png");
    assert_eq!(TrayState::Listening.icon_name(), "icon-listening.png");
    assert_eq!(TrayState::Processing.icon_name(), "icon-processing.png");
    assert_eq!(TrayState::Error.icon_name(), "icon-error.png");
}

#[test]
fn tray_tooltips() {
    assert_eq!(TrayState::Idle.tooltip(), "Slovo Voice Assistant");
    assert_eq!(TrayState::Listening.tooltip(), "Slovo - Listening...");
    assert_eq!(TrayState::Processing.tooltip(), "Slovo - Processing...");
    assert_eq!(TrayState::Error.tooltip(), "Slovo - Error");
}

#[test]
fn tray_states_compare_by_variant() {
    assert_eq!(TrayState::Idle, TrayState::Idle);
    assert_ne!(TrayState::Idle, TrayState::Error);
    let copy = TrayState::Listening;
    assert_eq!(copy, TrayState::Listening);
}

#[test]
fn tray_init_returns() {
    init_tray();
}
