//! The controls the navigation bar is made of, in a toolkit-neutral form: an
//! ordered sequence of tagged descriptors, each saying what it shows and which
//! event it emits when activated.

use vstd::prelude::*;

use crate::state::{phone_labels, Phone};

verus! {

/// The event a control hands to the host when the user activates it.
#[derive(Debug, PartialEq, Eq)]
pub enum Event {
    RefreshApps,
    RebootDevice,
    DeviceSelected(Phone),
    TriggerSelfUpdate,
    GoToApps,
    GoToAbout,
    GoToSettings,
}

/// One control of the navigation bar.
#[derive(Debug, PartialEq, Eq)]
pub enum Control {
    /// Refreshes the app list; shown under the tooltip named by
    /// [`Control::tooltip`].
    RefreshButton,
    /// Reboots the selected device.
    RebootButton,
    /// Lets the user pick one of `devices`; preset to `selected`. Picking a
    /// device emits the event built by [`Control::pick`].
    DevicePicker { devices: Vec<Phone>, selected: Phone },
    /// A static line shown in place of the picker while no device is selected.
    StatusText { text: String },
    /// Flexible space that pushes the controls after it to the far edge.
    Spacer,
    /// The running version, an update prompt, or an update-progress message.
    VersionText { text: String },
    /// Triggers the self-update. Always present: when `visible` is false the
    /// renderer must keep it as a zero-size, non-interactive placeholder, so
    /// that the surrounding controls do not shift when no update is pending.
    UpdateButton { visible: bool },
    /// Navigates to the apps view.
    AppsButton,
    /// Navigates to the about view.
    AboutButton,
    /// Navigates to the settings view.
    SettingsButton,
}

/// Spec-level form of a [`Control`]: text reduced to character sequences and
/// devices to their labels.
#[verifier::ext_equal]
pub enum ControlView {
    RefreshButton,
    RebootButton,
    DevicePicker { devices: Seq<Seq<char>>, selected: Seq<char> },
    StatusText { text: Seq<char> },
    Spacer,
    VersionText { text: Seq<char> },
    UpdateButton { visible: bool },
    AppsButton,
    AboutButton,
    SettingsButton,
}

impl View for Control {
    type V = ControlView;

    open spec fn view(&self) -> ControlView {
        match self {
            Control::RefreshButton => ControlView::RefreshButton,
            Control::RebootButton => ControlView::RebootButton,
            Control::DevicePicker { devices, selected } => ControlView::DevicePicker {
                devices: phone_labels(devices@),
                selected: selected@,
            },
            Control::StatusText { text } => ControlView::StatusText { text: text@ },
            Control::Spacer => ControlView::Spacer,
            Control::VersionText { text } => ControlView::VersionText { text: text@ },
            Control::UpdateButton { visible } => ControlView::UpdateButton { visible: *visible },
            Control::AppsButton => ControlView::AppsButton,
            Control::AboutButton => ControlView::AboutButton,
            Control::SettingsButton => ControlView::SettingsButton,
        }
    }
}

/// The event a control emits when activated on its own, if any. The device
/// picker emits no fixed event: its event carries the picked device and is
/// built by [`Control::pick`]. A hidden update button is non-interactive and
/// emits nothing; text and space emit nothing.
pub open spec fn spec_activation_event(c: ControlView) -> Option<Event> {
    match c {
        ControlView::RefreshButton => Some(Event::RefreshApps),
        ControlView::RebootButton => Some(Event::RebootDevice),
        ControlView::UpdateButton { visible } => if visible {
            Some(Event::TriggerSelfUpdate)
        } else {
            None
        },
        ControlView::AppsButton => Some(Event::GoToApps),
        ControlView::AboutButton => Some(Event::GoToAbout),
        ControlView::SettingsButton => Some(Event::GoToSettings),
        _ => None,
    }
}

/// The text a control shows: its caption for a button, its content for a text
/// line, the selected device's label for the picker. The refresh button shows
/// the code point of the refresh icon in the host's icon font; the spacer and
/// a hidden update button show nothing.
pub open spec fn spec_label(c: ControlView) -> Seq<char> {
    match c {
        ControlView::RefreshButton => "\u{e900}"@,
        ControlView::RebootButton => "Reboot"@,
        ControlView::DevicePicker { selected, .. } => selected,
        ControlView::StatusText { text } => text,
        ControlView::Spacer => ""@,
        ControlView::VersionText { text } => text,
        ControlView::UpdateButton { visible } => if visible {
            "Update"@
        } else {
            ""@
        },
        ControlView::AppsButton => "Apps"@,
        ControlView::AboutButton => "About"@,
        ControlView::SettingsButton => "Settings"@,
    }
}

/// The tooltip shown over a control, if any: only the refresh button has one.
pub open spec fn spec_tooltip(c: ControlView) -> Option<Seq<char>> {
    match c {
        ControlView::RefreshButton => Some("Refresh apps"@),
        _ => None,
    }
}

/// The content of an optional piece of text.
pub open spec fn text_of(o: Option<String>) -> Option<Seq<char>> {
    match o {
        Some(t) => Some(t@),
        None => None,
    }
}

impl Control {
    /// The text this control shows, as [`spec_label`] states it.
    pub fn label(&self) -> (r: String)
        ensures
            r@ == spec_label(self@),
    {
        match self {
            Control::RefreshButton => "\u{e900}".to_owned(),
            Control::RebootButton => "Reboot".to_owned(),
            Control::DevicePicker { selected, .. } => selected.name.clone(),
            Control::StatusText { text } => text.clone(),
            Control::Spacer => "".to_owned(),
            Control::VersionText { text } => text.clone(),
            Control::UpdateButton { visible } => if *visible {
                "Update".to_owned()
            } else {
                "".to_owned()
            },
            Control::AppsButton => "Apps".to_owned(),
            Control::AboutButton => "About".to_owned(),
            Control::SettingsButton => "Settings".to_owned(),
        }
    }

    /// The tooltip shown over this control, as [`spec_tooltip`] states it.
    pub fn tooltip(&self) -> (r: Option<String>)
        ensures
            text_of(r) == spec_tooltip(self@),
    {
        match self {
            Control::RefreshButton => Some("Refresh apps".to_owned()),
            _ => None,
        }
    }

    /// The event this control emits when activated, as
    /// [`spec_activation_event`] states it.
    pub fn activation_event(&self) -> (r: Option<Event>)
        ensures
            r == spec_activation_event(self@),
    {
        match self {
            Control::RefreshButton => Some(Event::RefreshApps),
            Control::RebootButton => Some(Event::RebootDevice),
            Control::UpdateButton { visible } => if *visible {
                Some(Event::TriggerSelfUpdate)
            } else {
                None
            },
            Control::AppsButton => Some(Event::GoToApps),
            Control::AboutButton => Some(Event::GoToAbout),
            Control::SettingsButton => Some(Event::GoToSettings),
            _ => None,
        }
    }

    /// The event the device picker emits when the user picks `choice`.
    pub fn pick(&self, choice: Phone) -> (r: Event)
        requires
            self@ is DevicePicker,
        ensures
            r == Event::DeviceSelected(choice),
    {
        Event::DeviceSelected(choice)
    }
}

/// The full navigation bar: its controls in display order, and the layout
/// directives of the container around them.
#[derive(Debug, PartialEq, Eq)]
pub struct NavBarDescription {
    pub controls: Vec<Control>,
    /// The container spans the full available width.
    pub fill_width: bool,
    /// The controls are vertically centered in the container.
    pub center_vertical: bool,
    /// Uniform padding around the controls.
    pub padding: u64,
    /// Uniform spacing between neighbouring controls.
    pub spacing: u64,
}

/// Spec-level form of a [`NavBarDescription`].
#[verifier::ext_equal]
pub struct NavBarView {
    pub controls: Seq<ControlView>,
    pub fill_width: bool,
    pub center_vertical: bool,
    pub padding: u64,
    pub spacing: u64,
}

impl View for NavBarDescription {
    type V = NavBarView;

    open spec fn view(&self) -> NavBarView {
        NavBarView {
            controls: self.controls@.map_values(|c: Control| c@),
            fill_width: self.fill_width,
            center_vertical: self.center_vertical,
            padding: self.padding,
            spacing: self.spacing,
        }
    }
}

} // verus!
