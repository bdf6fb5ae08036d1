use navbar::controls::{Control, Event};
use navbar::nav_menu;
use navbar::state::{ListLoadingState, Phone, ReleaseInfo, SelfUpdateState, SelfUpdateStatus};

fn phone(name: &str) -> Phone {
    Phone { name: name.to_string() }
}

fn no_update() -> SelfUpdateState {
    SelfUpdateState { latest_release: None, status: SelfUpdateStatus::Done }
}

fn update_found(tag: &str, status: SelfUpdateStatus) -> SelfUpdateState {
    SelfUpdateState {
        latest_release: Some(ReleaseInfo { tag_name: tag.to_string() }),
        status,
    }
}

#[test]
fn compose_is_pure() {
    let devices = vec![phone("emulator-5554"), phone("Pixel 7")];
    let first = nav_menu(
        &devices,
        Some(phone("Pixel 7")),
        &ListLoadingState::Loaded,
        &update_found("v1.1.0", SelfUpdateStatus::Done),
        "1.0.0",
    );
    let second = nav_menu(
        &devices,
        Some(phone("Pixel 7")),
        &ListLoadingState::Loaded,
        &update_found("v1.1.0", SelfUpdateStatus::Done),
        "1.0.0",
    );
    assert_eq!(first, second);
}

#[test]
fn selected_device_shows_picker_and_no_status() {
    let devices = vec![phone("emulator-5554"), phone("Pixel 7")];
    let bar = nav_menu(
        &devices,
        Some(phone("Pixel 7")),
        &ListLoadingState::Loaded,
        &no_update(),
        "1.0.0",
    );
    assert_eq!(bar.controls.len(), 9);
    assert_eq!(bar.controls[0], Control::RefreshButton);
    assert_eq!(bar.controls[1], Control::RebootButton);
    assert_eq!(
        bar.controls[2],
        Control::DevicePicker {
            devices: vec![phone("emulator-5554"), phone("Pixel 7")],
            selected: phone("Pixel 7"),
        }
    );
    assert!(!bar
        .controls
        .iter()
        .any(|c| matches!(c, Control::StatusText { .. })));
}

#[test]
fn no_selected_device_shows_status_and_no_picker() {
    let devices: Vec<Phone> = vec![];
    let bar = nav_menu(
        &devices,
        None,
        &ListLoadingState::Loaded,
        &no_update(),
        "1.0.0",
    );
    assert_eq!(bar.controls.len(), 9);
    assert_eq!(bar.controls[0], Control::RebootButton);
    assert_eq!(bar.controls[1], Control::RefreshButton);
    assert!(matches!(bar.controls[2], Control::StatusText { .. }));
    assert!(!bar
        .controls
        .iter()
        .any(|c| matches!(c, Control::DevicePicker { .. })));
}

#[test]
fn finding_phones_status_text() {
    let devices: Vec<Phone> = vec![];
    let bar = nav_menu(
        &devices,
        None,
        &ListLoadingState::FindingPhones,
        &no_update(),
        "1.0.0",
    );
    assert_eq!(
        bar.controls[2],
        Control::StatusText { text: "finding connected phone...".to_string() }
    );
}

#[test]
fn other_loading_states_status_text() {
    let devices: Vec<Phone> = vec![];
    for state in [ListLoadingState::Loaded, ListLoadingState::Failed] {
        let bar = nav_menu(&devices, None, &state, &no_update(), "1.0.0");
        assert_eq!(
            bar.controls[2],
            Control::StatusText { text: "no devices/emulators found".to_string() }
        );
    }
}

#[test]
fn no_release_hides_update_button_and_shows_running_version() {
    let devices: Vec<Phone> = vec![];
    let bar = nav_menu(
        &devices,
        None,
        &ListLoadingState::Loaded,
        &no_update(),
        "1.0.0",
    );
    assert_eq!(bar.controls[4], Control::VersionText { text: "1.0.0".to_string() });
    assert_eq!(bar.controls[5], Control::UpdateButton { visible: false });
    assert_eq!(bar.controls[5].activation_event(), None);
    assert_eq!(bar.controls[5].label(), "");
}

#[test]
fn updating_version_text() {
    let devices: Vec<Phone> = vec![];
    let bar = nav_menu(
        &devices,
        None,
        &ListLoadingState::Loaded,
        &update_found("v1.1.0", SelfUpdateStatus::Updating),
        "1.0.0",
    );
    assert_eq!(
        bar.controls[4],
        Control::VersionText { text: "Updating please wait...".to_string() }
    );
}

#[test]
fn update_available_version_text_and_button() {
    let devices: Vec<Phone> = vec![];
    for status in [
        SelfUpdateStatus::Checking,
        SelfUpdateStatus::Failed,
        SelfUpdateStatus::Done,
    ] {
        let bar = nav_menu(
            &devices,
            None,
            &ListLoadingState::Loaded,
            &update_found("v1.1.0", status),
            "1.0.0",
        );
        let text = match &bar.controls[4] {
            Control::VersionText { text } => text.clone(),
            other => panic!("expected a version line, got {:?}", other),
        };
        assert_eq!(text, "New UAD-ng version available 1.0.0 -> v1.1.0");
        assert!(text.contains("1.0.0"));
        assert!(text.contains("v1.1.0"));
        assert_eq!(bar.controls[5], Control::UpdateButton { visible: true });
        assert_eq!(
            bar.controls[5].activation_event(),
            Some(Event::TriggerSelfUpdate)
        );
    }
}

#[test]
fn trailing_controls_order_in_both_branches() {
    let devices = vec![phone("emulator-5554")];
    let selections = [None, Some(phone("emulator-5554"))];
    for selected in selections {
        let bar = nav_menu(
            &devices,
            selected,
            &ListLoadingState::Loaded,
            &no_update(),
            "1.0.0",
        );
        assert_eq!(bar.controls.len(), 9);
        assert_eq!(bar.controls[3], Control::Spacer);
        assert!(matches!(bar.controls[4], Control::VersionText { .. }));
        assert!(matches!(bar.controls[5], Control::UpdateButton { .. }));
        assert_eq!(bar.controls[6], Control::AppsButton);
        assert_eq!(bar.controls[7], Control::AboutButton);
        assert_eq!(bar.controls[8], Control::SettingsButton);
    }
}

#[test]
fn container_layout_directives() {
    let devices: Vec<Phone> = vec![];
    let bar = nav_menu(
        &devices,
        None,
        &ListLoadingState::Loaded,
        &no_update(),
        "1.0.0",
    );
    assert!(bar.fill_width);
    assert!(bar.center_vertical);
    assert_eq!(bar.padding, 10);
    assert_eq!(bar.spacing, 10);
}

#[test]
fn picker_emits_selected_device() {
    let devices = vec![phone("emulator-5554"), phone("Pixel 7")];
    let bar = nav_menu(
        &devices,
        Some(phone("Pixel 7")),
        &ListLoadingState::Loaded,
        &no_update(),
        "1.0.0",
    );
    let event = bar.controls[2].pick(phone("emulator-5554"));
    assert_eq!(event, Event::DeviceSelected(phone("emulator-5554")));
}

#[test]
fn activation_events_of_fixed_controls() {
    assert_eq!(
        Control::RefreshButton.activation_event(),
        Some(Event::RefreshApps)
    );
    assert_eq!(
        Control::RebootButton.activation_event(),
        Some(Event::RebootDevice)
    );
    assert_eq!(Control::AppsButton.activation_event(), Some(Event::GoToApps));
    assert_eq!(Control::AboutButton.activation_event(), Some(Event::GoToAbout));
    assert_eq!(
        Control::SettingsButton.activation_event(),
        Some(Event::GoToSettings)
    );
    assert_eq!(Control::Spacer.activation_event(), None);
    assert_eq!(
        Control::StatusText { text: "x".to_string() }.activation_event(),
        None
    );
    assert_eq!(
        Control::UpdateButton { visible: true }.activation_event(),
        Some(Event::TriggerSelfUpdate)
    );
}

#[test]
fn labels_and_tooltips() {
    assert_eq!(Control::RebootButton.label(), "Reboot");
    assert_eq!(Control::AppsButton.label(), "Apps");
    assert_eq!(Control::AboutButton.label(), "About");
    assert_eq!(Control::SettingsButton.label(), "Settings");
    assert_eq!(Control::UpdateButton { visible: true }.label(), "Update");
    assert_eq!(Control::RefreshButton.label(), "\u{e900}");
    assert_eq!(
        Control::StatusText { text: "hello".to_string() }.label(),
        "hello"
    );
    assert_eq!(
        Control::RefreshButton.tooltip(),
        Some("Refresh apps".to_string())
    );
    assert_eq!(Control::RebootButton.tooltip(), None);
    assert_eq!(Control::Spacer.tooltip(), None);
}
