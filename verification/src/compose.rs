//! The composer itself: a pure mapping from the application's state to the
//! ordered description of the navigation bar, together with the laws that the
//! mapping obeys.

use vstd::prelude::*;
use vstd::string::StringExecFns;

use crate::controls::{
    spec_activation_event, Control, ControlView, Event, NavBarDescription, NavBarView,
};
use crate::state::{
    phone_labels, selected_label, ListLoadingState, Phone, SelfUpdateState, SelfUpdateStatus,
    SelfUpdateView,
};

verus! {

/// Text of the status line shown while no device is selected: a search notice
/// while the app list is still finding phones, otherwise a "nothing found"
/// notice, whatever else the loading state says.
pub open spec fn spec_status_text(apps_list_state: ListLoadingState) -> Seq<char> {
    if apps_list_state is FindingPhones {
        "finding connected phone..."@
    } else {
        "no devices/emulators found"@
    }
}

/// Text of the version line: the running version while no release is known; a
/// progress notice while an update is being applied; otherwise a prompt that
/// joins the running version and the new release's tag.
pub open spec fn spec_version_text(update: SelfUpdateView, running_version: Seq<char>) -> Seq<
    char,
> {
    match update.latest_release {
        Some(tag) => if update.status is Updating {
            "Updating please wait..."@
        } else {
            "New UAD-ng version available "@ + running_version + " -> "@ + tag
        },
        None => running_version,
    }
}

/// The update button: interactive exactly when a newer release is known.
pub open spec fn spec_update_button(update: SelfUpdateView) -> ControlView {
    ControlView::UpdateButton { visible: update.latest_release is Some }
}

/// The three leading controls. With a device selected: refresh, reboot, and
/// the picker preset to that device. With none: reboot, refresh, and the
/// status line — the refresh and reboot controls swap places between the two
/// branches, which keeps the bar visually stable across selection changes.
pub open spec fn spec_device_area(
    device_list: Seq<Seq<char>>,
    selected_device: Option<Seq<char>>,
    apps_list_state: ListLoadingState,
) -> Seq<ControlView> {
    match selected_device {
        Some(label) => seq![
            ControlView::RefreshButton,
            ControlView::RebootButton,
            ControlView::DevicePicker { devices: device_list, selected: label },
        ],
        None => seq![
            ControlView::RebootButton,
            ControlView::RefreshButton,
            ControlView::StatusText { text: spec_status_text(apps_list_state) },
        ],
    }
}

/// The trailing controls, the same in both branches: a flexible spacer that
/// pushes them to the far edge, then the version line, the update button, and
/// the apps, about and settings buttons.
pub open spec fn spec_trailing_controls(
    update: SelfUpdateView,
    running_version: Seq<char>,
) -> Seq<ControlView> {
    seq![
        ControlView::Spacer,
        ControlView::VersionText { text: spec_version_text(update, running_version) },
        spec_update_button(update),
        ControlView::AppsButton,
        ControlView::AboutButton,
        ControlView::SettingsButton,
    ]
}

/// The whole bar: the device area followed by the trailing controls, in a
/// full-width, vertically centered container with fixed padding and spacing.
pub open spec fn spec_nav_menu(
    device_list: Seq<Seq<char>>,
    selected_device: Option<Seq<char>>,
    apps_list_state: ListLoadingState,
    update: SelfUpdateView,
    running_version: Seq<char>,
) -> NavBarView {
    NavBarView {
        controls: spec_device_area(device_list, selected_device, apps_list_state)
            + spec_trailing_controls(update, running_version),
        fill_width: true,
        center_vertical: true,
        padding: 10,
        spacing: 10,
    }
}

/// Renders the status line, as [`spec_status_text`] states it.
pub fn status_text(apps_list_state: &ListLoadingState) -> (r: String)
    ensures
        r@ == spec_status_text(*apps_list_state),
{
    match apps_list_state {
        ListLoadingState::FindingPhones => "finding connected phone...".to_owned(),
        _ => "no devices/emulators found".to_owned(),
    }
}

/// Renders the version line, as [`spec_version_text`] states it. The running
/// version is handed in by the host, which knows its own build.
pub fn version_text(update: &SelfUpdateState, running_version: &str) -> (r: String)
    ensures
        r@ == spec_version_text(update@, running_version@),
{
    match &update.latest_release {
        Some(release) => {
            if update.status == SelfUpdateStatus::Updating {
                "Updating please wait...".to_owned()
            } else {
                let mut t = "New UAD-ng version available ".to_owned();
                t.append(running_version);
                t.append(" -> ");
                t.append(release.tag_name.as_str());
                t
            }
        },
        None => running_version.to_owned(),
    }
}

/// Builds the update button, as [`spec_update_button`] states it.
pub fn update_button(update: &SelfUpdateState) -> (r: Control)
    ensures
        r@ == spec_update_button(update@),
{
    Control::UpdateButton { visible: update.latest_release.is_some() }
}

/// Copies the device list into the picker descriptor.
fn clone_phones(phones: &Vec<Phone>) -> (r: Vec<Phone>)
    ensures
        r@ == phones@,
{
    let mut r: Vec<Phone> = Vec::new();
    let mut i: usize = 0;
    while i < phones.len()
        invariant
            i <= phones@.len(),
            r@ == phones@.subrange(0, i as int),
        decreases phones@.len() - i,
    {
        r.push(phones[i].clone());
        proof {
            assert(phones@.subrange(0, i + 1) =~= phones@.subrange(0, i as int).push(
                phones@[i as int],
            ));
        }
        i = i + 1;
    }
    proof {
        assert(r@ =~= phones@);
    }
    r
}

/// Composes the navigation bar from the current state: the known devices, the
/// optionally selected device, the loading status of the app list, the state
/// of the self-update check, and the running version string, which the host
/// hands in. Pure and total: no input is mutated, nothing fails, and the
/// result is exactly the one [`spec_nav_menu`] states.
pub fn nav_menu(
    device_list: &Vec<Phone>,
    selected_device: Option<Phone>,
    apps_list_state: &ListLoadingState,
    self_update_state: &SelfUpdateState,
    running_version: &str,
) -> (r: NavBarDescription)
    ensures
        r@ == spec_nav_menu(
            phone_labels(device_list@),
            selected_label(selected_device),
            *apps_list_state,
            self_update_state@,
            running_version@,
        ),
{
    let uad_version_text = version_text(self_update_state, running_version);
    let update_btn = update_button(self_update_state);
    let mut controls: Vec<Control> = Vec::new();
    match selected_device {
        Some(phone) => {
            controls.push(Control::RefreshButton);
            controls.push(Control::RebootButton);
            controls.push(
                Control::DevicePicker { devices: clone_phones(device_list), selected: phone },
            );
        },
        None => {
            controls.push(Control::RebootButton);
            controls.push(Control::RefreshButton);
            controls.push(Control::StatusText { text: status_text(apps_list_state) });
        },
    }
    controls.push(Control::Spacer);
    controls.push(Control::VersionText { text: uad_version_text });
    controls.push(update_btn);
    controls.push(Control::AppsButton);
    controls.push(Control::AboutButton);
    controls.push(Control::SettingsButton);
    let r = NavBarDescription {
        controls,
        fill_width: true,
        center_vertical: true,
        padding: 10,
        spacing: 10,
    };
    proof {
        assert(r@.controls =~= spec_nav_menu(
            phone_labels(device_list@),
            selected_label(selected_device),
            *apps_list_state,
            self_update_state@,
            running_version@,
        ).controls);
        assert(r@ =~= spec_nav_menu(
            phone_labels(device_list@),
            selected_label(selected_device),
            *apps_list_state,
            self_update_state@,
            running_version@,
        ));
    }
    r
}

/// Composing is pure: two bars composed from equal inputs are equal. Together
/// with the contract of [`nav_menu`], which pins its result to
/// [`spec_nav_menu`], this makes two calls on equal inputs yield structurally
/// equal descriptions.
pub proof fn lemma_nav_menu_pure(
    r1: NavBarView,
    r2: NavBarView,
    device_list: Seq<Seq<char>>,
    selected_device: Option<Seq<char>>,
    apps_list_state: ListLoadingState,
    update: SelfUpdateView,
    running_version: Seq<char>,
)
    requires
        r1 == spec_nav_menu(device_list, selected_device, apps_list_state, update, running_version),
        r2 == spec_nav_menu(device_list, selected_device, apps_list_state, update, running_version),
    ensures
        r1 == r2,
{
}

/// Exactly one of the status line and the device picker appears: with no
/// device selected the bar holds a status line and no picker; with a device
/// selected it holds a picker preset to that device and no status line.
pub proof fn lemma_picker_or_status(
    device_list: Seq<Seq<char>>,
    selected_device: Option<Seq<char>>,
    apps_list_state: ListLoadingState,
    update: SelfUpdateView,
    running_version: Seq<char>,
)
    ensures
        ({
            let cs = spec_nav_menu(
                device_list,
                selected_device,
                apps_list_state,
                update,
                running_version,
            ).controls;
            &&& selected_device matches Some(label) ==> cs[2] == (ControlView::DevicePicker {
                devices: device_list,
                selected: label,
            }) && (forall|i: int| 0 <= i < cs.len() ==> !(#[trigger] cs[i] is StatusText))
            &&& selected_device is None ==> cs[2] == (ControlView::StatusText {
                text: spec_status_text(apps_list_state),
            }) && (forall|i: int| 0 <= i < cs.len() ==> !(#[trigger] cs[i] is DevicePicker))
        }),
{
}

/// While the app list is still finding phones and no device is selected, the
/// status line reads exactly "finding connected phone...".
pub proof fn lemma_status_finding(
    device_list: Seq<Seq<char>>,
    apps_list_state: ListLoadingState,
    update: SelfUpdateView,
    running_version: Seq<char>,
)
    requires
        apps_list_state is FindingPhones,
    ensures
        spec_nav_menu(device_list, None, apps_list_state, update, running_version).controls[2]
            == (ControlView::StatusText { text: "finding connected phone..."@ }),
{
}

/// In every other loading state, with no device selected, the status line
/// reads exactly "no devices/emulators found".
pub proof fn lemma_status_none_found(
    device_list: Seq<Seq<char>>,
    apps_list_state: ListLoadingState,
    update: SelfUpdateView,
    running_version: Seq<char>,
)
    requires
        !(apps_list_state is FindingPhones),
    ensures
        spec_nav_menu(device_list, None, apps_list_state, update, running_version).controls[2]
            == (ControlView::StatusText { text: "no devices/emulators found"@ }),
{
}

/// While no release is known, the update button is still present — as a
/// hidden, non-interactive placeholder that emits no event — and the version
/// line is exactly the running version.
pub proof fn lemma_no_release(
    device_list: Seq<Seq<char>>,
    selected_device: Option<Seq<char>>,
    apps_list_state: ListLoadingState,
    update: SelfUpdateView,
    running_version: Seq<char>,
)
    requires
        update.latest_release is None,
    ensures
        ({
            let cs = spec_nav_menu(
                device_list,
                selected_device,
                apps_list_state,
                update,
                running_version,
            ).controls;
            &&& cs[5] == (ControlView::UpdateButton { visible: false })
            &&& spec_activation_event(cs[5]) is None
            &&& cs[4] == (ControlView::VersionText { text: running_version })
        }),
{
}

/// While an update is being applied, the version line reads exactly
/// "Updating please wait...".
pub proof fn lemma_updating_text(
    device_list: Seq<Seq<char>>,
    selected_device: Option<Seq<char>>,
    apps_list_state: ListLoadingState,
    update: SelfUpdateView,
    running_version: Seq<char>,
)
    requires
        update.latest_release is Some,
        update.status is Updating,
    ensures
        spec_nav_menu(device_list, selected_device, apps_list_state, update, running_version)
            .controls[4] == (ControlView::VersionText { text: "Updating please wait..."@ }),
{
}

/// When a release is known and no update is running, the version line joins
/// the running version and the release's tag — so it carries both — and the
/// update button is visible, interactive, and emits the self-update trigger.
pub proof fn lemma_update_available(
    device_list: Seq<Seq<char>>,
    selected_device: Option<Seq<char>>,
    apps_list_state: ListLoadingState,
    update: SelfUpdateView,
    running_version: Seq<char>,
    tag: Seq<char>,
)
    requires
        update.latest_release == Some(tag),
        !(update.status is Updating),
    ensures
        ({
            let cs = spec_nav_menu(
                device_list,
                selected_device,
                apps_list_state,
                update,
                running_version,
            ).controls;
            let text = spec_version_text(update, running_version);
            &&& cs[4] == (ControlView::VersionText {
                text: "New UAD-ng version available "@ + running_version + " -> "@ + tag,
            })
            &&& text.subrange(29, 29 + running_version.len() as int) == running_version
            &&& text.subrange(text.len() - tag.len() as int, text.len() as int) == tag
            &&& cs[5] == (ControlView::UpdateButton { visible: true })
            &&& spec_activation_event(cs[5]) == Some(Event::TriggerSelfUpdate)
        }),
{
    reveal_strlit("New UAD-ng version available ");
    reveal_strlit(" -> ");
    let text = spec_version_text(update, running_version);
    assert(text.subrange(29, 29 + running_version.len() as int) =~= running_version);
    assert(text.subrange(text.len() - tag.len() as int, text.len() as int) =~= tag);
}

/// Whichever branch the device area takes, the bar ends in the same six
/// trailing controls, in this order: spacer, version line, update button,
/// apps, about, settings.
pub proof fn lemma_trailing_order(
    device_list: Seq<Seq<char>>,
    selected_device: Option<Seq<char>>,
    apps_list_state: ListLoadingState,
    update: SelfUpdateView,
    running_version: Seq<char>,
)
    ensures
        ({
            let cs = spec_nav_menu(
                device_list,
                selected_device,
                apps_list_state,
                update,
                running_version,
            ).controls;
            &&& cs.len() == 9
            &&& cs[3] is Spacer
            &&& cs[4] == (ControlView::VersionText {
                text: spec_version_text(update, running_version),
            })
            &&& cs[5] == spec_update_button(update)
            &&& cs[6] is AppsButton
            &&& cs[7] is AboutButton
            &&& cs[8] is SettingsButton
        }),
{
}

} // verus!
